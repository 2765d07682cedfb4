//! The time of day as it arrives in a message, and how a message is read:
//! bytes that must be UTF-8 text, holding a JSON object with the integer
//! members `hour`, `minute` and `second`.

use vstd::prelude::*;
use vstd::string::StringSliceAdditionalSpecFns;
use vstd::utf8::{decode_utf8, valid_utf8};

use crate::json::{find_member, json_document, json_member, json_u64, parse_document};

verus! {

/// A local time of day. The clock shows what it is given and keeps no time
/// of its own.
#[derive(Debug, Clone, Copy, PartialEq, Eq, Structural)]
pub struct LocalTime {
    pub hour: u8,
    pub minute: u8,
    pub second: u8,
}

/// Why a message could not be read as a time.
#[derive(Debug, Clone, Copy, PartialEq, Eq, Structural)]
pub enum ConvertError {
    /// The message is not valid UTF-8.
    InvalidUtf8,
    /// The message is text, but not a JSON object that gives a time.
    InvalidJson,
}

impl ConvertError {
    /// The text that describes the error.
    pub open spec fn message_text(self) -> Seq<char> {
        match self {
            ConvertError::InvalidUtf8 => "Invalid UTF-8 in message data"@,
            ConvertError::InvalidJson => "Failed to parse JSON into LocalTime"@,
        }
    }

    /// Describes the error in words.
    pub fn message(&self) -> (text: String)
        ensures
            text@ == self.message_text(),
    {
        match self {
            ConvertError::InvalidUtf8 => "Invalid UTF-8 in message data".to_owned(),
            ConvertError::InvalidJson => "Failed to parse JSON into LocalTime".to_owned(),
        }
    }
}

/// The unsigned integer stored under `key` in a JSON document, if the
/// document is an object that has such a member.
pub open spec fn integer_member(document: serde_json::Value, key: Seq<char>) -> Option<u64> {
    match json_member(document, key) {
        Some(value) => json_u64(value),
        None => None,
    }
}

/// Whether a member was found and fits a component of a time.
pub open spec fn fits_component(member: Option<u64>) -> bool {
    member matches Some(number) && number <= u8::MAX
}

impl LocalTime {
    /// The time that three members of a message give. All three must be
    /// there, each an integer from 0 to 255.
    pub open spec fn of_members(
        hour: Option<u64>,
        minute: Option<u64>,
        second: Option<u64>,
    ) -> Result<LocalTime, ConvertError> {
        if fits_component(hour) && fits_component(minute) && fits_component(second) {
            Ok(
                LocalTime {
                    hour: hour->0 as u8,
                    minute: minute->0 as u8,
                    second: second->0 as u8,
                },
            )
        } else {
            Err(ConvertError::InvalidJson)
        }
    }

    /// What a message decodes to.
    pub open spec fn decoded(message: Seq<u8>) -> Result<LocalTime, ConvertError> {
        if !valid_utf8(message) {
            Err(ConvertError::InvalidUtf8)
        } else {
            match json_document(decode_utf8(message)) {
                None => Err(ConvertError::InvalidJson),
                Some(document) => Self::of_members(
                    integer_member(document, "hour"@),
                    integer_member(document, "minute"@),
                    integer_member(document, "second"@),
                ),
            }
        }
    }

    /// Builds a time from the three members of a message as they were
    /// found. A member that is missing, is no unsigned integer or exceeds
    /// 255 makes the message invalid.
    pub fn from_members(hour: Option<u64>, minute: Option<u64>, second: Option<u64>) -> (time:
        Result<LocalTime, ConvertError>)
        ensures
            time == Self::of_members(hour, minute, second),
            time is Ok <==> fits_component(hour) && fits_component(minute) && fits_component(
                second,
            ),
            time matches Ok(t) ==> t.hour == hour->0 && t.minute == minute->0 && t.second
                == second->0,
            time matches Err(e) ==> e == ConvertError::InvalidJson,
    {
        match (hour, minute, second) {
            (Some(h), Some(m), Some(s)) => {
                if h <= 255 && m <= 255 && s <= 255 {
                    Ok(LocalTime { hour: h as u8, minute: m as u8, second: s as u8 })
                } else {
                    Err(ConvertError::InvalidJson)
                }
            },
            _ => Err(ConvertError::InvalidJson),
        }
    }
}

/// Reads a message as a time. Bytes that are not UTF-8 give `InvalidUtf8`;
/// text that is not a JSON document, or a document that does not give all
/// three components, gives `InvalidJson`.
impl<'a> TryFrom<&'a [u8]> for LocalTime {
    type Error = ConvertError;

    fn try_from(message: &'a [u8]) -> (time: Result<LocalTime, ConvertError>)
        ensures
            time == LocalTime::decoded(message@),
            time == Err::<LocalTime, ConvertError>(ConvertError::InvalidUtf8) <==> !valid_utf8(
                message@,
            ),
    {
        let text = match core::str::from_utf8(message) {
            Ok(text) => text,
            Err(_) => {
                return Err(ConvertError::InvalidUtf8);
            },
        };
        proof {
            vstd::utf8::encode_utf8_decode_utf8(text@);
        }
        let document = match parse_document(text) {
            Ok(document) => document,
            Err(_) => {
                return Err(ConvertError::InvalidJson);
            },
        };
        let hour = read_member(&document, "hour");
        let minute = read_member(&document, "minute");
        let second = read_member(&document, "second");
        LocalTime::from_members(hour, minute, second)
    }
}

impl<'a> vstd::std_specs::convert::TryFromSpecImpl<&'a [u8]> for LocalTime {
    open spec fn obeys_try_from_spec() -> bool {
        true
    }

    open spec fn try_from_spec(message: &'a [u8]) -> Result<LocalTime, ConvertError> {
        LocalTime::decoded(message@)
    }
}

fn read_member(document: &serde_json::Value, key: &str) -> (number: Option<u64>)
    ensures
        number == integer_member(*document, key@),
{
    match find_member(document, key) {
        Some(value) => value.as_u64(),
        None => None,
    }
}

} // verus!
