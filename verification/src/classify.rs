//! The message classifier: turns one inbound publication into a
//! direct-method invocation, a twin protocol frame, or a classification
//! failure. Pure: a function of topic and payload alone, no side effects.

use vstd::prelude::*;

use crate::json::is_valid_json;
use crate::json::json_is_valid;
use crate::messages::MessageParseError;
use crate::topics::parse_direct_method;
use crate::topics::parse_dm_spec;
use crate::topics::parse_patch;
use crate::topics::parse_patch_spec;
use crate::topics::parse_twin_res;
use crate::topics::parse_twin_res_spec;

verus! {

/// A classified inbound publication, before any synchronizer state is
/// consulted.
pub enum InternalMessage {
    /// A direct-method invocation: name, JSON payload, correlation id.
    DirectMethod { name: Vec<char>, payload: Vec<u8>, request_id: Vec<char> },
    /// A twin response frame: status, correlation id, optional version.
    TwinResponse { status: u64, request_id: Vec<char>, version: Option<u64>, payload: Vec<u8> },
    /// A desired-property patch frame with its version.
    TwinPatch { version: u64, payload: Vec<u8> },
}

impl InternalMessage {
    /// Classifies one inbound publication: a direct-method topic demands a
    /// JSON payload, any other topic is tried against the twin frame
    /// conventions, and everything else fails classification.
    pub fn parse(topic: &Vec<char>, payload: Vec<u8>) -> (r: Result<
        InternalMessage,
        MessageParseError,
    >)
        ensures
            match r {
                Ok(InternalMessage::DirectMethod { name, payload: p, request_id }) => {
                    &&& parse_dm_spec(topic@) == Some((name@, request_id@))
                    &&& p@ == payload@
                    &&& is_valid_json(payload@)
                },
                Ok(InternalMessage::TwinResponse { status, request_id, version, payload: p }) => {
                    &&& parse_dm_spec(topic@) is None
                    &&& parse_twin_res_spec(topic@) == Some((status, request_id@, version))
                    &&& p@ == payload@
                },
                Ok(InternalMessage::TwinPatch { version, payload: p }) => {
                    &&& parse_dm_spec(topic@) is None
                    &&& parse_twin_res_spec(topic@) is None
                    &&& parse_patch_spec(topic@) == Some(version)
                    &&& p@ == payload@
                },
                Err(MessageParseError::Json) => parse_dm_spec(topic@) is Some && !is_valid_json(
                    payload@,
                ),
                Err(MessageParseError::UnrecognizedMessage) => {
                    &&& parse_dm_spec(topic@) is None
                    &&& parse_twin_res_spec(topic@) is None
                    &&& parse_patch_spec(topic@) is None
                },
            },
    {
        match parse_direct_method(topic) {
            Some((name, request_id)) => {
                if json_is_valid(&payload) {
                    Ok(InternalMessage::DirectMethod { name, payload, request_id })
                } else {
                    Err(MessageParseError::Json)
                }
            },
            None => match parse_twin_res(topic) {
                Some((status, request_id, version)) => Ok(
                    InternalMessage::TwinResponse { status, request_id, version, payload },
                ),
                None => match parse_patch(topic) {
                    Some(version) => Ok(InternalMessage::TwinPatch { version, payload }),
                    None => Err(MessageParseError::UnrecognizedMessage),
                },
            },
        }
    }
}

} // verus!
