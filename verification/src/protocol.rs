//! The hello message, the one protocol artifact this client sends.

use crate::codec::{json_string, json_string_literal};
use vstd::prelude::*;
use vstd::string::StringExecFns;

verus! {

/// Version of the relay protocol this client speaks.
pub const PROTOCOL_VERSION: &'static str = "0.1";

/// Message type of the hello message.
pub const HELLO_MESSAGE_TYPE: &'static str = "hello";

/// Platform tag this client announces.
pub const HELLO_PLATFORM: &'static str = "linux";

/// Client tag this client announces.
pub const HELLO_CLIENT: &'static str = "aethos-linux";

/// The message a client opens a relay connection with.
#[derive(Debug, Clone, PartialEq, Eq)]
pub struct HelloEnvelope {
    pub version: String,
    pub message_type: String,
    pub platform: String,
    pub client: String,
    pub wayfair_id: String,
}

/// Model of a [`HelloEnvelope`].
pub struct HelloRecord {
    pub version: Seq<char>,
    pub message_type: Seq<char>,
    pub platform: Seq<char>,
    pub client: Seq<char>,
    pub wayfair_id: Seq<char>,
}

impl View for HelloEnvelope {
    type V = HelloRecord;

    open spec fn view(&self) -> HelloRecord {
        HelloRecord {
            version: self.version@,
            message_type: self.message_type@,
            platform: self.platform@,
            client: self.client@,
            wayfair_id: self.wayfair_id@,
        }
    }
}

/// The hello message of the identity `wayfair_id`.
pub open spec fn hello_for(wayfair_id: Seq<char>) -> HelloRecord {
    HelloRecord {
        version: PROTOCOL_VERSION@,
        message_type: HELLO_MESSAGE_TYPE@,
        platform: HELLO_PLATFORM@,
        client: HELLO_CLIENT@,
        wayfair_id,
    }
}

/// The wire form of a hello message: a JSON object with the five fields in
/// declaration order and no white space.
pub open spec fn hello_json(hello: HelloRecord) -> Seq<char> {
    "{\"version\":"@ + json_string(hello.version) + ",\"message_type\":"@ + json_string(
        hello.message_type,
    ) + ",\"platform\":"@ + json_string(hello.platform) + ",\"client\":"@ + json_string(
        hello.client,
    ) + ",\"wayfair_id\":"@ + json_string(hello.wayfair_id) + "}"@
}

/// Appends `,"name":` or `{"name":`, given as `label`, and the JSON literal of `value`.
fn push_field(json: &mut String, label: &str, value: &str) -> (r: Result<(), serde_json::Error>)
    ensures
        r is Ok,
        final(json)@ == old(json)@ + label@ + json_string(value@),
{
    let literal = match json_string_literal(value) {
        Ok(literal) => literal,
        Err(error) => {
            return Err(error);
        },
    };
    json.append(label);
    json.append(literal.as_str());
    Ok(())
}

impl HelloEnvelope {
    /// The hello message that announces the identity `wayfair_id`.
    pub fn new(wayfair_id: &str) -> (hello: Self)
        ensures
            hello@ == hello_for(wayfair_id@),
    {
        HelloEnvelope {
            version: PROTOCOL_VERSION.to_owned(),
            message_type: HELLO_MESSAGE_TYPE.to_owned(),
            platform: HELLO_PLATFORM.to_owned(),
            client: HELLO_CLIENT.to_owned(),
            wayfair_id: wayfair_id.to_owned(),
        }
    }

    /// The wire form of this message. Serialising cannot fail.
    pub fn to_json(&self) -> (r: Result<String, serde_json::Error>)
        ensures
            r is Ok,
            r->Ok_0@ == hello_json(self@),
    {
        let mut json = String::new();
        match push_field(&mut json, "{\"version\":", self.version.as_str()) {
            Ok(_) => {},
            Err(error) => {
                return Err(error);
            },
        }
        match push_field(&mut json, ",\"message_type\":", self.message_type.as_str()) {
            Ok(_) => {},
            Err(error) => {
                return Err(error);
            },
        }
        match push_field(&mut json, ",\"platform\":", self.platform.as_str()) {
            Ok(_) => {},
            Err(error) => {
                return Err(error);
            },
        }
        match push_field(&mut json, ",\"client\":", self.client.as_str()) {
            Ok(_) => {},
            Err(error) => {
                return Err(error);
            },
        }
        match push_field(&mut json, ",\"wayfair_id\":", self.wayfair_id.as_str()) {
            Ok(_) => {},
            Err(error) => {
                return Err(error);
            },
        }
        json.append("}");
        assert(json@ == hello_json(self@));
        Ok(json)
    }
}

} // verus!
