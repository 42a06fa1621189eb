//! The records of the service and the rules on them that need no storage.

use crate::energy::{
    compute_energy_stats, selected, stats_match, window_pred, window_start, Energy, Sample,
    LOOKBACK_DAYS,
};
use crate::outside::{
    argon2i, argon2i_digest, base64_encode, base64_text, is_alphanumeric, push_char,
    random_alphanumeric,
};
use crate::result::Error;
use vstd::prelude::*;

verus! {

pub struct UserInsert {
    pub email: String,
    pub pwd_hash: String,
}

#[derive(Debug)]
pub struct UserQuery {
    pub id: i32,
    pub email: String,
    pub pwd_hash: String,
    pub superuser: bool,
}

pub struct User;

/// The stored form of a password: the base64 text of its Argon2i digest
/// under the service's salt.
pub open spec fn password_hash(password: Seq<char>) -> Seq<char> {
    base64_text(argon2i_digest(password, "salty salt"@))
}

impl User {
    /// The stored form of a password.
    pub fn hash_password(password: &str) -> (hash: String)
        requires
            4 * password@.len() <= 0xffff_ffff,
        ensures
            hash@ == password_hash(password@),
    {
        proof {
            reveal_strlit("salty salt");
        }
        let digest: Vec<u8> = argon2i(password, "salty salt");
        base64_encode(&digest)
    }

    /// Hands the user back where `password` is the one stored for them.
    pub fn verify_password(user: UserQuery, password: &str) -> (r: Result<UserQuery, Error>)
        requires
            4 * password@.len() <= 0xffff_ffff,
        ensures
            user.pwd_hash@ == password_hash(password@) ==> r == Ok::<UserQuery, Error>(user),
            user.pwd_hash@ != password_hash(password@) ==> r == Err::<UserQuery, Error>(
                Error::IncorrectPassword,
            ),
    {
        let hash: String = User::hash_password(password);
        if user.pwd_hash == hash {
            Ok(user)
        } else {
            Err(Error::IncorrectPassword)
        }
    }

    /// The user that the token found for a session cookie stands for. A
    /// sensor's token stands for none.
    pub fn by_token(token: &TokenQuery) -> (r: Result<i32, Error>)
        ensures
            r == match token.user_id {
                Some(id) => Ok::<i32, Error>(id),
                None => Err::<i32, Error>(Error::WrongTokenType),
            },
    {
        match token.user_id {
            Some(id) => Ok(id),
            None => Err(Error::WrongTokenType),
        }
    }

    /// The record under which a new user is stored.
    pub fn insert(email: String, password: &str) -> (user: UserInsert)
        requires
            4 * password@.len() <= 0xffff_ffff,
        ensures
            user.email == email,
            user.pwd_hash@ == password_hash(password@),
    {
        UserInsert { email, pwd_hash: User::hash_password(password) }
    }
}

#[derive(Clone, Copy, Debug, PartialEq, Eq)]
pub enum TokenType {
    User,
    Sensor,
}

impl TokenType {
    /// The name under which a kind of token is stored.
    pub open spec fn name(self) -> Seq<char> {
        match self {
            TokenType::User => "user"@,
            TokenType::Sensor => "sensor"@,
        }
    }

    /// The kind that a stored name stands for, if any.
    pub fn parse(s: &String) -> (kind: Option<TokenType>)
        ensures
            s@ == "user"@ ==> kind == Some(TokenType::User),
            s@ == "sensor"@ ==> kind == Some(TokenType::Sensor),
            s@ != "user"@ && s@ != "sensor"@ ==> kind.is_none(),
    {
        proof {
            reveal_strlit("user");
            reveal_strlit("sensor");
        }
        assert("user"@.len() == 4 && "sensor"@.len() == 6);
        let user: String = String::from_str("user");
        let sensor: String = String::from_str("sensor");
        if *s == user {
            Some(TokenType::User)
        } else if *s == sensor {
            Some(TokenType::Sensor)
        } else {
            None
        }
    }

    /// The kind that a stored name stands for.
    pub fn from_string(s: String) -> (kind: TokenType)
        requires
            s@ == "user"@ || s@ == "sensor"@,
        ensures
            kind.name() == s@,
    {
        proof {
            reveal_strlit("user");
            reveal_strlit("sensor");
        }
        let user: String = String::from_str("user");
        if s == user {
            TokenType::User
        } else {
            TokenType::Sensor
        }
    }

    /// The name under which this kind is stored.
    pub fn get_string(&self) -> (s: String)
        ensures
            s@ == self.name(),
    {
        match self {
            TokenType::User => String::from_str("user"),
            TokenType::Sensor => String::from_str("sensor"),
        }
    }
}

pub struct TokenInsert {
    pub token: String,
    pub type_: String,
    pub user_id: Option<i32>,
    pub sensor_id: Option<i32>,
}

#[derive(Debug)]
pub struct TokenQuery {
    pub token: String,
    pub type_: String,
    pub user_id: Option<i32>,
    pub sensor_id: Option<i32>,
}

pub struct Token;

/// Whether `text` is `prefix` followed by 64 ASCII letters and digits.
pub open spec fn is_fresh_token(text: Seq<char>, prefix: Seq<char>) -> bool {
    &&& text.len() == prefix.len() + 64
    &&& text.subrange(0, prefix.len() as int) == prefix
    &&& forall|i: int| prefix.len() <= i < text.len() ==> is_alphanumeric(#[trigger] text[i])
}

/// Adds 64 random ASCII letters and digits to `text`.
fn append_random(text: String) -> (token: String)
    ensures
        is_fresh_token(token@, text@),
{
    let ghost prefix = text@;
    let mut token: String = text;
    let mut i: usize = 0;
    while i < 64
        invariant
            i <= 64,
            token@.len() == prefix.len() + i,
            token@.subrange(0, prefix.len() as int) == prefix,
            forall|j: int| prefix.len() <= j < token@.len() ==> is_alphanumeric(#[trigger] token@[j]),
        decreases 64 - i,
    {
        let c: char = random_alphanumeric();
        let ghost before = token@;
        push_char(&mut token, c);
        proof {
            assert(token@.subrange(0, prefix.len() as int) =~= before.subrange(
                0,
                prefix.len() as int,
            ));
        }
        i += 1;
    }
    token
}

/// A string of 64 random ASCII letters and digits.
pub fn rand_str() -> (s: String)
    ensures
        s@.len() == 64,
        forall|i: int| 0 <= i < 64 ==> is_alphanumeric(#[trigger] s@[i]),
{
    append_random(String::new())
}

impl Token {
    /// A fresh token for a user: `user-` and 64 random letters and digits.
    pub fn new_user_token(user: &UserQuery) -> (t: TokenInsert)
        ensures
            is_fresh_token(t.token@, "user-"@),
            t.type_@ == TokenType::User.name(),
            t.user_id == Some(user.id),
            t.sensor_id.is_none(),
    {
        TokenInsert {
            token: append_random(String::from_str("user-")),
            type_: TokenType::User.get_string(),
            user_id: Some(user.id),
            sensor_id: None,
        }
    }

    /// A fresh token for a sensor: `sensor-` and 64 random letters and
    /// digits.
    pub fn new_sensor_token(sensor: SensorQuery) -> (t: TokenInsert)
        ensures
            is_fresh_token(t.token@, "sensor-"@),
            t.type_@ == TokenType::Sensor.name(),
            t.user_id.is_none(),
            t.sensor_id == Some(sensor.id),
    {
        TokenInsert {
            token: append_random(String::from_str("sensor-")),
            type_: TokenType::Sensor.get_string(),
            user_id: None,
            sensor_id: Some(sensor.id),
        }
    }
}

/// A login that may be used once.
pub struct OnetimeLoginInsert {
    pub token: String,
    pub user_id: i32,
}

/// A fresh login for a user that may be used once: 64 random letters and
/// digits.
pub fn create(user_id: i32) -> (login: OnetimeLoginInsert)
    ensures
        login.user_id == user_id,
        is_fresh_token(login.token@, Seq::<char>::empty()),
{
    let token: String = append_random(String::new());
    OnetimeLoginInsert { token, user_id }
}

pub struct SensorInsert {
    pub owner_id: i32,
    pub hardware_id: i64,
}

#[derive(Debug)]
pub struct SensorQuery {
    pub id: i32,
    pub owner_id: i32,
    pub hardware_id: i64,
    pub active: bool,
    pub name: Option<String>,
    pub description: Option<String>,
}

pub struct Sensor;

impl Sensor {
    /// Whether a sensor may be stored, given how many active sensors hold
    /// its hardware id already: only where none does.
    pub fn insert(sensor: &SensorInsert, active_with_id: i64) -> (r: Result<(), Error>)
        ensures
            active_with_id == 0 ==> r == Ok::<(), Error>(()),
            active_with_id != 0 ==> r == Err::<(), Error>(
                Error::DuplicateHardwareId(sensor.hardware_id),
            ),
    {
        if active_with_id != 0 {
            return Err(Error::DuplicateHardwareId(sensor.hardware_id));
        }
        Ok(())
    }

    /// The daily statistics of a sensor over the ten days before `now`,
    /// from any collection of readings in any order.
    pub fn energy_stats(sensor_id: i32, readings: &Vec<Sample>, now: i64) -> (stats: Vec<Energy>)
        ensures
            stats_match(
                stats@,
                selected(readings@, sensor_id, window_start(now as int, LOOKBACK_DAYS as int)),
            ),
            readings@.filter(
                window_pred(sensor_id, window_start(now as int, LOOKBACK_DAYS as int)),
            ).len() <= 1 ==> stats@.len() == 0,
    {
        compute_energy_stats(sensor_id, LOOKBACK_DAYS, now, readings)
    }
}

} // verus!
