use vstd::prelude::*;

use actix_web::error::PayloadError;
use bincode::error::{DecodeError, EncodeError};

verus! {

/// bincode's decode failure, carried through unopened.
#[verifier::external_type_specification]
#[verifier::external_body]
pub struct ExDecodeError(DecodeError);

/// bincode's encode failure, carried through unopened.
#[verifier::external_type_specification]
#[verifier::external_body]
pub struct ExEncodeError(EncodeError);

/// actix-web's failure to read a payload stream, carried through unopened.
#[verifier::external_type_specification]
#[verifier::external_body]
pub struct ExPayloadError(PayloadError);

/// HTTP status for a payload that is larger than the configured limit.
pub const STATUS_PAYLOAD_TOO_LARGE: u16 = 413;

/// HTTP status for every other failure of the extractor.
pub const STATUS_BAD_REQUEST: u16 = 400;

/// Why a bincode payload could not be extracted or produced.
#[derive(Debug)]
pub enum BincodePayloadError {
    /// Payload size is bigger than the limit, which is carried.
    Overflow(usize),
    /// The request declared another content type, which is carried.
    ContentType(String),
    /// The codec rejected the received bytes.
    Decode(DecodeError),
    /// The codec could not encode a value.
    Encode(EncodeError),
    /// Reading the payload stream failed.
    Payload(PayloadError),
}

/// The kinds of failure, without what each carries.
#[derive(Clone, Copy, Debug, PartialEq, Eq, Structural)]
pub enum ErrorKind {
    /// The payload is larger than the limit.
    Overflow,
    /// The request declared another content type.
    ContentType,
    /// The codec rejected the body.
    Decode,
    /// The codec could not encode a value.
    Encode,
    /// The payload stream failed.
    Payload,
}

/// The kind of `e`.
pub open spec fn kind_of(e: BincodePayloadError) -> ErrorKind {
    match e {
        BincodePayloadError::Overflow(_) => ErrorKind::Overflow,
        BincodePayloadError::ContentType(_) => ErrorKind::ContentType,
        BincodePayloadError::Decode(_) => ErrorKind::Decode,
        BincodePayloadError::Encode(_) => ErrorKind::Encode,
        BincodePayloadError::Payload(_) => ErrorKind::Payload,
    }
}

/// The status of a response that reports a failure of kind `k`: an oversized
/// payload is 413 Payload Too Large, anything else 400 Bad Request.
pub open spec fn status_of(k: ErrorKind) -> u16 {
    if k == ErrorKind::Overflow {
        STATUS_PAYLOAD_TOO_LARGE
    } else {
        STATUS_BAD_REQUEST
    }
}

impl ErrorKind {
    /// The HTTP status code of the response that reports this kind of failure.
    pub fn status_code(self) -> (r: u16)
        ensures
            r == status_of(self),
    {
        match self {
            ErrorKind::Overflow => STATUS_PAYLOAD_TOO_LARGE,
            _ => STATUS_BAD_REQUEST,
        }
    }
}

impl BincodePayloadError {
    /// Which kind of failure this is.
    pub fn kind(&self) -> (r: ErrorKind)
        ensures
            r == kind_of(*self),
    {
        match self {
            BincodePayloadError::Overflow(_) => ErrorKind::Overflow,
            BincodePayloadError::ContentType(_) => ErrorKind::ContentType,
            BincodePayloadError::Decode(_) => ErrorKind::Decode,
            BincodePayloadError::Encode(_) => ErrorKind::Encode,
            BincodePayloadError::Payload(_) => ErrorKind::Payload,
        }
    }

    /// The HTTP status code of the response that reports this error.
    pub fn status_code(&self) -> (r: u16)
        ensures
            r == status_of(kind_of(*self)),
    {
        self.kind().status_code()
    }
}

impl From<PayloadError> for BincodePayloadError {
    fn from(value: PayloadError) -> (r: Self)
        ensures
            r == BincodePayloadError::Payload(value),
    {
        BincodePayloadError::Payload(value)
    }
}

impl vstd::std_specs::convert::FromSpecImpl<PayloadError> for BincodePayloadError {
    open spec fn obeys_from_spec() -> bool {
        true
    }

    open spec fn from_spec(v: PayloadError) -> Self {
        BincodePayloadError::Payload(v)
    }
}

impl From<DecodeError> for BincodePayloadError {
    fn from(value: DecodeError) -> (r: Self)
        ensures
            r == BincodePayloadError::Decode(value),
    {
        BincodePayloadError::Decode(value)
    }
}

impl vstd::std_specs::convert::FromSpecImpl<DecodeError> for BincodePayloadError {
    open spec fn obeys_from_spec() -> bool {
        true
    }

    open spec fn from_spec(v: DecodeError) -> Self {
        BincodePayloadError::Decode(v)
    }
}

impl From<EncodeError> for BincodePayloadError {
    fn from(value: EncodeError) -> (r: Self)
        ensures
            r == BincodePayloadError::Encode(value),
    {
        BincodePayloadError::Encode(value)
    }
}

impl vstd::std_specs::convert::FromSpecImpl<EncodeError> for BincodePayloadError {
    open spec fn obeys_from_spec() -> bool {
        true
    }

    open spec fn from_spec(v: EncodeError) -> Self {
        BincodePayloadError::Encode(v)
    }
}

} // verus!
