//! The JSON interface: what it is sent, what it answers, and the rules it
//! applies before anything is stored.

pub mod result;

use crate::energy::Energy;
use crate::models::{
    is_fresh_token, password_hash, SensorInsert, SensorQuery, Token, TokenInsert, TokenType, User,
    UserInsert, UserQuery,
};
use crate::result::Error;
use vstd::prelude::*;

verus! {

pub struct Register {
    pub email: String,
    pub password: String,
}

pub struct AddUserResponse {}

pub struct GetUsersResponse {
    pub users: Vec<UserQuery>,
}

pub struct GetEnergyStatsResponse {
    pub stats: Vec<Energy>,
}

pub struct SensorHardwareId {
    pub hardware_id: i64,
}

pub struct GetSensorTokenResponse {
    pub token: String,
}

pub struct AddReadingResponse {}

pub struct AddReadingsResponse {}

pub struct GetTokenResponse {
    pub token: String,
}

pub struct CreateSensor {
    pub hardware_id: i64,
}

pub struct AddSensorResponse {}

pub struct GetVersionResponse {
    pub version: String,
}

/// A message of success.
pub struct Message(pub String);

impl Message {
    pub fn new(text: &str) -> (m: Message)
        ensures
            m.0@ == text@,
    {
        Message(String::from_str(text))
    }
}

/// The record to store for a user who registers.
pub fn add_user(user: Register) -> (record: UserInsert)
    requires
        4 * user.password@.len() <= 0xffff_ffff,
    ensures
        record.email == user.email,
        record.pwd_hash@ == password_hash(user.password@),
{
    User::insert(user.email, user.password.as_str())
}

/// A fresh token for a sensor, for its owner and nobody else.
pub fn get_sensor_token(user: &UserQuery, sensor: SensorQuery) -> (r: Result<TokenInsert, Error>)
    ensures
        user.id != sensor.owner_id ==> r == Err::<TokenInsert, Error>(Error::NotSensorOwner),
        user.id == sensor.owner_id ==> r.is_ok() && is_fresh_token(
            r.unwrap().token@,
            "sensor-"@,
        ) && r.unwrap().type_@ == TokenType::Sensor.name() && r.unwrap().user_id.is_none()
            && r.unwrap().sensor_id == Some(sensor.id),
{
    if user.id == sensor.owner_id {
        Ok(Token::new_sensor_token(sensor))
    } else {
        Err(Error::NotSensorOwner)
    }
}

/// The record to store for a sensor that a user adds.
pub fn add_sensor(user: &UserQuery, data: &CreateSensor) -> (record: SensorInsert)
    ensures
        record.owner_id == user.id,
        record.hardware_id == data.hardware_id,
{
    SensorInsert { owner_id: user.id, hardware_id: data.hardware_id }
}

} // verus!
