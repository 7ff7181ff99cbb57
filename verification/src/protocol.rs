//! Core protocol data types: the closed header enumerations, the payload
//! keyword enumeration, and the decoded [`Request`].

use vstd::prelude::*;
use vstd::utf8::encode_utf8;

verus! {

/// Domain a request addresses, decoded from header byte 0.
#[derive(Clone, Copy, Debug, PartialEq, Eq, Structural)]
pub enum ContentType {
    OperaGx,
    OS,
    Unsupported,
}

/// Timing hint for a request, decoded from header byte 1.
#[derive(Clone, Copy, Debug, PartialEq, Eq, Structural)]
pub enum InfoType {
    Delayed,
    Instant,
    Unsupported,
}

/// Action keyword carried in the textual payload.
#[derive(Clone, Copy, Debug, PartialEq, Eq, Structural)]
pub enum PayloadType {
    Open,
    ShutDown,
    Unsupported,
}

/// The domain denoted by a header byte: `0x01` is the target application,
/// `0x02` the operating system, and every other value is unsupported.
pub open spec fn content_type_of_byte(b: u8) -> ContentType {
    if b == 0x01 {
        ContentType::OperaGx
    } else if b == 0x02 {
        ContentType::OS
    } else {
        ContentType::Unsupported
    }
}

/// The timing hint denoted by a header byte: `0x01` is instant, `0x02` is
/// delayed, and every other value is unsupported.
pub open spec fn info_type_of_byte(b: u8) -> InfoType {
    if b == 0x01 {
        InfoType::Instant
    } else if b == 0x02 {
        InfoType::Delayed
    } else {
        InfoType::Unsupported
    }
}

impl From<u8> for ContentType {
    fn from(value: u8) -> (r: Self)
        ensures
            r == content_type_of_byte(value),
    {
        match value {
            0x01 => Self::OperaGx,
            0x02 => Self::OS,
            _ => Self::Unsupported,
        }
    }
}

impl vstd::std_specs::convert::FromSpecImpl<u8> for ContentType {
    open spec fn obeys_from_spec() -> bool {
        true
    }

    open spec fn from_spec(v: u8) -> Self {
        content_type_of_byte(v)
    }
}

impl From<u8> for InfoType {
    fn from(value: u8) -> (r: Self)
        ensures
            r == info_type_of_byte(value),
    {
        match value {
            0x01 => Self::Instant,
            0x02 => Self::Delayed,
            _ => Self::Unsupported,
        }
    }
}

impl vstd::std_specs::convert::FromSpecImpl<u8> for InfoType {
    open spec fn obeys_from_spec() -> bool {
        true
    }

    open spec fn from_spec(v: u8) -> Self {
        info_type_of_byte(v)
    }
}

/// One decoded request: the payload text together with the header fields it
/// arrived under. `content_length` records the declared byte count of the
/// payload as transmitted.
#[derive(Debug)]
pub struct Request {
    pub payload: String,
    pub info: InfoType,
    pub content_type: ContentType,
    pub content_length: u8,
}

/// Mathematical model of a [`Request`]: the payload as a character sequence
/// beside the plain header fields.
pub ghost struct RequestModel {
    pub payload: Seq<char>,
    pub info: InfoType,
    pub content_type: ContentType,
    pub content_length: u8,
}

impl RequestModel {
    /// The request invariant: the declared length equals the byte length of
    /// the payload as transmitted, that is, of its UTF-8 encoding.
    pub open spec fn wf(self) -> bool {
        self.content_length == encode_utf8(self.payload).len()
    }
}

impl View for Request {
    type V = RequestModel;

    open spec fn view(&self) -> RequestModel {
        RequestModel {
            payload: self.payload@,
            info: self.info,
            content_type: self.content_type,
            content_length: self.content_length,
        }
    }
}

impl Request {
    /// The request invariant, stated of the concrete value.
    pub open spec fn wf(&self) -> bool {
        self@.wf()
    }
}

} // verus!
