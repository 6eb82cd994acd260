//! Decoding of the device's responses.

use vstd::prelude::*;
use vstd::string::*;
use vstd::utf8::*;
use crate::codec::{
    base64_bytes_of, base64_decode, json_parses, json_string_member, json_string_members,
};
use crate::message::{ContentData, ContentType, ECPMessage, utf8_of};
use crate::text::{contains_bytes, find_bytes, parse_i32, parsed_i32, utf8_text};

verus! {

pub const SUBJECT_KEY: &'static str = "response";

pub const RESPONSE_ID_KEY: &'static str = "response-id";

pub const CONTENT_TYPE_KEY: &'static str = "content-type";

pub const CONTENT_DATA_KEY: &'static str = "content-data";

pub const STATUS_KEY: &'static str = "status";

pub const STATUS_MESSAGE_KEY: &'static str = "status-msg";

/// The value a missing or unreadable response id takes.
pub const NO_RESPONSE_ID: i32 = -1;

/// The value a missing or unreadable status takes.
pub const NO_STATUS: i32 = 0;

/// The status of a request that succeeded.
pub const STATUS_OK: i32 = 200;

/// A response from the device.
#[derive(Clone, Debug, PartialEq, Eq)]
pub struct Response {
    pub subject: String,
    pub response_id: i32,
    pub content_data: Option<ContentData>,
    pub content_type: Option<ContentType>,
    pub status_code: i32,
    pub status_message: String,
    /// The frame's text, byte for byte.
    pub raw_bytes: Vec<u8>,
}

/// The string members of a response as the JSON document gives them.
#[derive(Clone, Debug, PartialEq, Eq)]
pub struct ResponseFields {
    pub subject: Option<String>,
    pub response_id: Option<String>,
    pub content_type: Option<String>,
    pub content_data: Option<String>,
    pub status: Option<String>,
    pub status_message: Option<String>,
}

/// Content data as a mathematical value.
pub enum ContentView {
    Text { string: Seq<char> },
    Data { bytes: Seq<u8> },
}

pub open spec fn text_view(o: Option<String>) -> Option<Seq<char>> {
    match o {
        Some(s) => Some(s@),
        None => None,
    }
}

pub open spec fn content_view(d: Option<ContentData>) -> Option<ContentView> {
    match d {
        Some(ContentData::Text { string }) => Some(ContentView::Text { string: string@ }),
        Some(ContentData::Data { bytes }) => Some(ContentView::Data { bytes: bytes@ }),
        None => None,
    }
}

pub open spec fn mentions(t: Seq<char>, word: &str) -> bool {
    contains_bytes(utf8_of(t), word.spec_bytes(), false)
}

/// The content type that an advertised type names, tried in the order xml,
/// jpeg, json, png.
pub open spec fn content_type_named(t: Seq<char>) -> ContentType {
    if mentions(t, "xml") {
        ContentType::Xml
    } else if mentions(t, "jpeg") {
        ContentType::Jpeg
    } else if mentions(t, "json") {
        ContentType::Json
    } else if mentions(t, "png") {
        ContentType::Png
    } else {
        ContentType::Unknown
    }
}

pub open spec fn content_type_of(field: Option<Seq<char>>) -> Option<ContentType> {
    match field {
        Some(t) => Some(content_type_named(t)),
        None => None,
    }
}

/// The content of a response: `decoded` is what the base64 text `field`
/// decodes to, if it does.
pub open spec fn content_of(
    content_type: Option<ContentType>,
    field: Option<Seq<char>>,
    decoded: Option<Seq<u8>>,
) -> Option<ContentView> {
    match field {
        None => None,
        Some(t) => match decoded {
            None => Some(ContentView::Text { string: t }),
            Some(b) => match content_type {
                Some(ContentType::Xml) | Some(ContentType::Json) => if valid_utf8(b) {
                    Some(ContentView::Text { string: decode_utf8(b) })
                } else {
                    Some(ContentView::Data { bytes: b })
                },
                Some(ContentType::Png) | Some(ContentType::Jpeg) => Some(
                    ContentView::Data { bytes: b },
                ),
                _ => None,
            },
        },
    }
}

/// An integer member, or `default` where it is missing or unreadable.
pub open spec fn integer_or(field: Option<Seq<char>>, default: i32) -> i32 {
    match field {
        Some(t) => match parsed_i32(t) {
            Some(v) => v,
            None => default,
        },
        None => default,
    }
}

pub open spec fn text_or_empty(field: Option<Seq<char>>) -> Seq<char> {
    match field {
        Some(t) => t,
        None => Seq::empty(),
    }
}

/// `r` is the response that these members make.
pub open spec fn is_assembled(
    r: Response,
    raw: Seq<u8>,
    subject: Option<Seq<char>>,
    response_id: Option<Seq<char>>,
    content_type: Option<Seq<char>>,
    content_data: Option<Seq<char>>,
    status: Option<Seq<char>>,
    status_message: Option<Seq<char>>,
    decoded: Option<Seq<u8>>,
) -> bool {
    &&& r.subject@ == text_or_empty(subject)
    &&& r.response_id == integer_or(response_id, NO_RESPONSE_ID)
    &&& r.content_type == content_type_of(content_type)
    &&& content_view(r.content_data) == content_of(
        content_type_of(content_type),
        content_data,
        decoded,
    )
    &&& r.status_code == integer_or(status, NO_STATUS)
    &&& r.status_message@ == text_or_empty(status_message)
    &&& r.raw_bytes@ == raw
}

/// The string member `key` of a JSON text.
pub open spec fn member(text: Seq<char>, key: &str) -> Option<Seq<char>> {
    json_string_member(text, key@)
}

/// What the content data member of a JSON text decodes to as base64.
pub open spec fn decoded_content(text: Seq<char>) -> Option<Seq<u8>> {
    match member(text, CONTENT_DATA_KEY) {
        Some(d) => base64_bytes_of(utf8_of(d)),
        None => None,
    }
}

/// `r` is the response decoded from a frame's text: the members of its JSON
/// document, or, where it is no JSON, every field at its sentinel.
pub open spec fn is_decoding_of(r: Response, text: Seq<char>) -> bool {
    if json_parses(text) {
        is_assembled(
            r,
            utf8_of(text),
            member(text, SUBJECT_KEY),
            member(text, RESPONSE_ID_KEY),
            member(text, CONTENT_TYPE_KEY),
            member(text, CONTENT_DATA_KEY),
            member(text, STATUS_KEY),
            member(text, STATUS_MESSAGE_KEY),
            decoded_content(text),
        )
    } else {
        is_assembled(r, utf8_of(text), None, None, None, None, None, None, None)
    }
}

/// Text that is no JSON decodes to a response with every structured field
/// at its sentinel and the text's bytes kept; so any two decodings of it
/// agree field for field.
pub proof fn lemma_malformed_decoding(text: Seq<char>, r1: Response, r2: Response)
    requires
        !json_parses(text),
        is_decoding_of(r1, text),
        is_decoding_of(r2, text),
    ensures
        r1.subject@ == Seq::<char>::empty(),
        r1.response_id == NO_RESPONSE_ID,
        r1.content_type is None,
        r1.content_data is None,
        r1.status_code == NO_STATUS,
        r1.status_message@ == Seq::<char>::empty(),
        r1.raw_bytes@ == utf8_of(text),
        r1.subject@ == r2.subject@,
        r1.response_id == r2.response_id,
        r1.content_type == r2.content_type,
        r1.content_data == r2.content_data,
        r1.status_code == r2.status_code,
        r1.status_message@ == r2.status_message@,
        r1.raw_bytes@ == r2.raw_bytes@,
{
}

impl Response {
    /// The content type that an advertised type names.
    pub fn content_type_from(text: &str) -> (r: ContentType)
        ensures
            r == content_type_named(text@),
    {
        let bytes = text.as_bytes();
        if find_bytes(bytes, "xml".as_bytes(), false) {
            ContentType::Xml
        } else if find_bytes(bytes, "jpeg".as_bytes(), false) {
            ContentType::Jpeg
        } else if find_bytes(bytes, "json".as_bytes(), false) {
            ContentType::Json
        } else if find_bytes(bytes, "png".as_bytes(), false) {
            ContentType::Png
        } else {
            ContentType::Unknown
        }
    }

    fn integer_member(field: &Option<String>, default: i32) -> (r: i32)
        ensures
            r == integer_or(text_view(*field), default),
    {
        match field {
            Some(t) => match parse_i32(t.as_str()) {
                Some(v) => v,
                None => default,
            },
            None => default,
        }
    }

    fn text_member(field: Option<String>) -> (r: String)
        ensures
            r@ == text_or_empty(text_view(field)),
    {
        match field {
            Some(t) => t,
            None => String::new(),
        }
    }

    /// Build a response from the string members of its JSON document and
    /// from what its content data member decodes to as base64 (`decoded`,
    /// none where it does not decode).
    pub fn parse_response(raw_bytes: Vec<u8>, fields: ResponseFields, decoded: Option<Vec<u8>>) -> (r: Response)
        ensures
            is_assembled(
                r,
                raw_bytes@,
                text_view(fields.subject),
                text_view(fields.response_id),
                text_view(fields.content_type),
                text_view(fields.content_data),
                text_view(fields.status),
                text_view(fields.status_message),
                match decoded {
                    Some(b) => Some(b@),
                    None => None,
                },
            ),
    {
        let content_type = match &fields.content_type {
            Some(t) => Some(Self::content_type_from(t.as_str())),
            None => None,
        };
        let response_id = Self::integer_member(&fields.response_id, NO_RESPONSE_ID);
        let status_code = Self::integer_member(&fields.status, NO_STATUS);
        let content_data = match fields.content_data {
            None => None,
            Some(text) => match decoded {
                None => Some(ContentData::Text { string: text }),
                Some(bytes) => match content_type {
                    Some(ContentType::Xml) | Some(ContentType::Json) => match utf8_text(bytes) {
                        Ok(string) => Some(ContentData::Text { string }),
                        Err(bytes) => Some(ContentData::Data { bytes }),
                    },
                    Some(ContentType::Png) | Some(ContentType::Jpeg) => Some(
                        ContentData::Data { bytes },
                    ),
                    _ => None,
                },
            },
        };
        Response {
            subject: Self::text_member(fields.subject),
            response_id,
            content_data,
            content_type,
            status_code,
            status_message: Self::text_member(fields.status_message),
            raw_bytes,
        }
    }

    /// Decode the text of a frame.
    pub fn decode(text: &str) -> (r: Response)
        ensures
            is_decoding_of(r, text@),
    {
        let raw_bytes = vstd::slice::slice_to_vec(text.as_bytes());
        let keys: Vec<&str> = vec![
            SUBJECT_KEY,
            RESPONSE_ID_KEY,
            CONTENT_TYPE_KEY,
            CONTENT_DATA_KEY,
            STATUS_KEY,
            STATUS_MESSAGE_KEY,
        ];
        match json_string_members(text, &keys) {
            None => {
                let fields = ResponseFields {
                    subject: None,
                    response_id: None,
                    content_type: None,
                    content_data: None,
                    status: None,
                    status_message: None,
                };
                Self::parse_response(raw_bytes, fields, None)
            },
            Some(mut members) => {
                let status_message = members.pop().unwrap();
                let status = members.pop().unwrap();
                let content_data = members.pop().unwrap();
                let content_type = members.pop().unwrap();
                let response_id = members.pop().unwrap();
                let subject = members.pop().unwrap();
                let decoded = match &content_data {
                    Some(d) => base64_decode(d.as_str()),
                    None => None,
                };
                let fields = ResponseFields {
                    subject,
                    response_id,
                    content_type,
                    content_data,
                    status,
                    status_message,
                };
                Self::parse_response(raw_bytes, fields, decoded)
            },
        }
    }

    /// Create a response from a text message; other messages give none.
    pub fn from_message(message: ECPMessage) -> (r: Option<Response>)
        ensures
            match message {
                ECPMessage::Text { text } => r matches Some(resp) && is_decoding_of(resp, text@),
                _ => r is None,
            },
    {
        match message {
            ECPMessage::Text { text } => Some(Self::decode(text.as_str())),
            _ => None,
        }
    }

    /// Whether this response has the success status.
    pub fn is_success(&self) -> (r: bool)
        ensures
            r == (self.status_code == STATUS_OK),
    {
        self.status_code == STATUS_OK
    }
}

} // verus!
