//! Who a request speaks for: what the `Authorization` header and the
//! session cookie carry, and which stored token serves which purpose.

use crate::models::{SensorQuery, TokenQuery, TokenType, UserQuery};
use crate::outside::{
    base64_bytes, base64_decode, fields_between, joined, split_at, split_whitespace, text_views,
    utf8_string, whitespace_words,
};
use crate::result::Error;
use vstd::prelude::*;
use vstd::utf8::{decode_utf8, valid_utf8};

verus! {

/// A user known by the session cookie.
pub struct UserCookie(pub UserQuery);

/// A user known by email and password.
pub struct Basic(pub UserQuery);

/// A sensor known by its bearer token.
pub struct SensorToken(pub SensorQuery);

/// A user known by their bearer token.
pub struct UserToken(pub UserQuery);

/// A superuser known by their bearer token.
pub struct AdminToken(pub UserQuery);

impl UserCookie {
    pub fn user(self) -> (u: UserQuery)
        ensures
            u == self.0,
    {
        self.0
    }

    /// The token that the session cookie holds.
    pub fn token(cookie: Option<String>) -> (r: Result<String, Error>)
        ensures
            r == match cookie {
                Some(value) => Ok::<String, Error>(value),
                None => Err::<String, Error>(Error::NoTokenInRequest),
            },
    {
        match cookie {
            Some(value) => Ok(value),
            None => Err(Error::NoTokenInRequest),
        }
    }
}

impl Basic {
    pub fn user(self) -> (u: UserQuery)
        ensures
            u == self.0,
    {
        self.0
    }
}

impl SensorToken {
    pub fn sensor(self) -> (s: SensorQuery)
        ensures
            s == self.0,
    {
        self.0
    }

    /// The sensor that a stored token stands for. A user's token does not
    /// stand for any.
    pub fn sensor_id(token: &TokenQuery) -> (r: Result<i32, Error>)
        requires
            token.type_@ == "user"@ || token.type_@ == "sensor"@,
            token.type_@ == "sensor"@ ==> token.sensor_id.is_some(),
        ensures
            r == if token.type_@ == "sensor"@ {
                Ok::<i32, Error>(token.sensor_id.unwrap())
            } else {
                Err::<i32, Error>(Error::WrongTokenType)
            },
    {
        proof {
            reveal_strlit("user");
            reveal_strlit("sensor");
            assert("user"@.len() == 4 && "sensor"@.len() == 6);
        }
        match TokenType::parse(&token.type_) {
            Some(TokenType::Sensor) => Ok(token.sensor_id.unwrap()),
            _ => Err(Error::WrongTokenType),
        }
    }

    /// The sensor behind a token, where storage knows it.
    pub fn found(sensor: Option<SensorQuery>) -> (r: Result<SensorToken, Error>)
        ensures
            r == match sensor {
                Some(s) => Ok::<SensorToken, Error>(SensorToken(s)),
                None => Err::<SensorToken, Error>(Error::InvalidToken),
            },
    {
        match sensor {
            Some(s) => Ok(SensorToken(s)),
            None => Err(Error::InvalidToken),
        }
    }
}

impl UserToken {
    pub fn user(self) -> (u: UserQuery)
        ensures
            u == self.0,
    {
        self.0
    }

    /// The user that a stored token stands for. A sensor's token does not
    /// stand for any.
    pub fn user_id(token: &TokenQuery) -> (r: Result<i32, Error>)
        requires
            token.type_@ == "user"@ || token.type_@ == "sensor"@,
            token.type_@ == "user"@ ==> token.user_id.is_some(),
        ensures
            r == if token.type_@ == "user"@ {
                Ok::<i32, Error>(token.user_id.unwrap())
            } else {
                Err::<i32, Error>(Error::WrongTokenType)
            },
    {
        proof {
            reveal_strlit("user");
            reveal_strlit("sensor");
            assert("user"@.len() == 4 && "sensor"@.len() == 6);
        }
        match TokenType::parse(&token.type_) {
            Some(TokenType::User) => Ok(token.user_id.unwrap()),
            _ => Err(Error::WrongTokenType),
        }
    }

    /// The user behind a token, where storage knows them.
    pub fn found(user: Option<UserQuery>) -> (r: Result<UserToken, Error>)
        ensures
            r == match user {
                Some(u) => Ok::<UserToken, Error>(UserToken(u)),
                None => Err::<UserToken, Error>(Error::InvalidToken),
            },
    {
        match user {
            Some(u) => Ok(UserToken(u)),
            None => Err(Error::InvalidToken),
        }
    }
}

impl AdminToken {
    /// Lets a user pass who is a superuser.
    pub fn from_user(token: UserToken) -> (r: Result<AdminToken, Error>)
        ensures
            r == if token.0.superuser {
                Ok::<AdminToken, Error>(AdminToken(token.0))
            } else {
                Err::<AdminToken, Error>(Error::NotAdmin)
            },
    {
        let user: UserQuery = token.0;
        if user.superuser {
            Ok(AdminToken(user))
        } else {
            Err(Error::NotAdmin)
        }
    }
}

/// What the words of a header carry under `scheme`: the second of exactly
/// two words of which the first is the scheme.
pub open spec fn payload_of_words(words: Seq<Seq<char>>, scheme: Seq<char>, malformed: Error) -> Result<
    Seq<char>,
    Error,
> {
    if words.len() != 2 || words[0] != scheme {
        Err(malformed)
    } else {
        Ok(words[1])
    }
}

/// The bearer token that the values of the `Authorization` header carry.
pub open spec fn bearer_of(values: Seq<String>) -> Result<Seq<char>, Error> {
    if values.len() != 1 {
        Err(Error::MissingToken)
    } else {
        payload_of_words(whitespace_words(values[0]@), "bearer"@, Error::MalformedToken)
    }
}

/// Email and password in the fields of a decoded payload: exactly two.
pub open spec fn credentials_of_fields(fields: Seq<Seq<char>>) -> Result<
    (Seq<char>, Seq<char>),
    Error,
> {
    if fields.len() != 2 {
        Err(Error::MalformedBasicAuthHeader)
    } else {
        Ok((fields[0], fields[1]))
    }
}

/// Email and password that the values of the `Authorization` header carry;
/// nothing where the payload is no base64 of a UTF-8 text.
pub open spec fn basic_of(values: Seq<String>) -> Option<Result<(Seq<char>, Seq<char>), Error>> {
    if values.len() != 1 {
        Some(Err(Error::MissingBasicAuthHeader))
    } else {
        match payload_of_words(
            whitespace_words(values[0]@),
            "Basic"@,
            Error::MalformedBasicAuthHeader,
        ) {
            Err(e) => Some(Err(e)),
            Ok(payload) => match base64_bytes(payload) {
                None => None,
                Some(bytes) => if valid_utf8(bytes) {
                    Some(credentials_of_fields(fields_between(decode_utf8(bytes), ':')))
                } else {
                    None
                },
            },
        }
    }
}

/// Whether a text or failure is the one that `model` names.
pub open spec fn text_agrees(r: Result<String, Error>, model: Result<Seq<char>, Error>) -> bool {
    match r {
        Ok(t) => model == Ok::<Seq<char>, Error>(t@),
        Err(e) => model == Err::<Seq<char>, Error>(e),
    }
}

/// Whether a pair of texts or failure is the one that `model` names.
pub open spec fn pair_agrees(
    r: Result<(String, String), Error>,
    model: Result<(Seq<char>, Seq<char>), Error>,
) -> bool {
    match r {
        Ok(p) => model == Ok::<(Seq<char>, Seq<char>), Error>((p.0@, p.1@)),
        Err(e) => model == Err::<(Seq<char>, Seq<char>), Error>(e),
    }
}

/// The payload among the words of a header of the given scheme.
pub fn payload_from_words(words: Vec<String>, scheme: &str, malformed: Error) -> (r: Result<
    String,
    Error,
>)
    ensures
        text_agrees(r, payload_of_words(text_views(words@), scheme@, malformed)),
{
    let ghost views = text_views(words@);
    let mut words = words;
    if words.len() != 2 {
        return Err(malformed);
    }
    let expected: String = String::from_str(scheme);
    if words[0] != expected {
        return Err(malformed);
    }
    let payload: String = words.pop().unwrap();
    proof {
        assert(payload@ == views[1]);
        assert(views[0] == scheme@);
    }
    Ok(payload)
}

/// Email and password among the fields of a decoded payload.
pub fn credentials_from_fields(fields: Vec<String>) -> (r: Result<(String, String), Error>)
    ensures
        pair_agrees(r, credentials_of_fields(text_views(fields@))),
{
    let ghost views = text_views(fields@);
    let mut fields = fields;
    if fields.len() != 2 {
        return Err(Error::MalformedBasicAuthHeader);
    }
    let password: String = fields.pop().unwrap();
    let email: String = fields.pop().unwrap();
    proof {
        assert(email@ == views[0]);
        assert(password@ == views[1]);
    }
    Ok((email, password))
}

/// Email and password in a decoded payload: what stands before and after
/// its colon, where it has exactly one.
pub fn credentials_from_text(text: &str) -> (r: Result<(String, String), Error>)
    ensures
        pair_agrees(r, credentials_of_fields(fields_between(text@, ':'))),
        r matches Ok(p) ==> text@ == p.0@.push(':') + p.1@ && !p.0@.contains(':') && !p.1@.contains(
            ':',
        ),
{
    let fields: Vec<String> = split_at(text, ':');
    proof {
        let views = text_views(fields@);
        if views.len() == 2 {
            assert(views.drop_last().len() == 1);
            assert(joined(views.drop_last(), ':') == views[0]);
            assert(joined(views, ':') == views[0].push(':') + views[1]);
            assert(views[0] == fields@[0]@ && views[1] == fields@[1]@);
        }
    }
    credentials_from_fields(fields)
}

/// The bearer token of a request, from the values of its `Authorization`
/// header.
pub fn bearer_token(values: &Vec<String>) -> (r: Result<String, Error>)
    ensures
        text_agrees(r, bearer_of(values@)),
        values@.len() != 1 ==> r == Err::<String, Error>(Error::MissingToken),
{
    if values.len() != 1 {
        return Err(Error::MissingToken);
    }
    let words: Vec<String> = split_whitespace(values[0].as_str());
    payload_from_words(words, "bearer", Error::MalformedToken)
}

/// Email and password of a request, from the values of its `Authorization`
/// header; nothing where the payload is no base64 of a UTF-8 text.
pub fn basic_credentials(values: &Vec<String>) -> (r: Option<Result<(String, String), Error>>)
    ensures
        match r {
            Some(found) => basic_of(values@).is_some() && pair_agrees(
                found,
                basic_of(values@).unwrap(),
            ),
            None => basic_of(values@).is_none(),
        },
        values@.len() != 1 ==> r == Some(
            Err::<(String, String), Error>(Error::MissingBasicAuthHeader),
        ),
{
    if values.len() != 1 {
        return Some(Err(Error::MissingBasicAuthHeader));
    }
    let words: Vec<String> = split_whitespace(values[0].as_str());
    let payload: String = match payload_from_words(
        words,
        "Basic",
        Error::MalformedBasicAuthHeader,
    ) {
        Ok(p) => p,
        Err(e) => {
            return Some(Err(e));
        },
    };
    let bytes: Vec<u8> = match base64_decode(payload.as_str()) {
        Some(b) => b,
        None => {
            return None;
        },
    };
    let text: String = match utf8_string(bytes) {
        Some(t) => t,
        None => {
            return None;
        },
    };
    Some(credentials_from_text(text.as_str()))
}

} // verus!
