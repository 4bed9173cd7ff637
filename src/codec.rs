use vstd::prelude::*;

use bincode::config::{Configuration, LittleEndian, NoLimit, Varint};
use bincode::error::{DecodeError, EncodeError};

use crate::error::BincodePayloadError;

verus! {

/// bincode's codec options, passed through to the codec unopened; the three
/// marker types below are those of its standard preset.
#[verifier::external_type_specification]
#[verifier::external_body]
#[verifier::reject_recursive_types(E)]
#[verifier::reject_recursive_types(I)]
#[verifier::reject_recursive_types(L)]
pub struct ExConfiguration<E, I, L>(Configuration<E, I, L>);

#[verifier::external_type_specification]
#[verifier::external_body]
pub struct ExLittleEndian(LittleEndian);

#[verifier::external_type_specification]
#[verifier::external_body]
pub struct ExVarint(Varint);

#[verifier::external_type_specification]
#[verifier::external_body]
pub struct ExNoLimit(NoLimit);

/// Relies on bincode::config::standard for the codec's standard preset
/// (little endian, variable-width integers, no limit).
pub assume_specification[ bincode::config::standard ]() -> Configuration;

/// The codec options in force: those given, or the standard preset.
pub fn codec_options(given: Option<Configuration>) -> (r: Configuration)
    ensures
        given matches Some(c) ==> r == c,
{
    match given {
        Some(c) => c,
        None => bincode::config::standard(),
    }
}

/// The body that answers with an encoded value: what the codec produced, or
/// its failure as `Encode`.
pub fn encoded_body(encoded: Result<Vec<u8>, EncodeError>) -> (r: Result<
    Vec<u8>,
    BincodePayloadError,
>)
    ensures
        encoded matches Ok(b) ==> r == Ok::<Vec<u8>, BincodePayloadError>(b),
        encoded matches Err(e) ==> r == Err::<Vec<u8>, BincodePayloadError>(
            BincodePayloadError::Encode(e),
        ),
{
    match encoded {
        Ok(b) => Ok(b),
        Err(e) => Err(BincodePayloadError::from(e)),
    }
}

/// The value that the codec decoded from a body, without the count of bytes
/// it read; its failure becomes `Decode`.
pub fn decoded_value<T>(decoded: Result<(T, usize), DecodeError>) -> (r: Result<
    T,
    BincodePayloadError,
>)
    ensures
        decoded matches Ok((v, _)) ==> r == Ok::<T, BincodePayloadError>(v),
        decoded matches Err(e) ==> r == Err::<T, BincodePayloadError>(
            BincodePayloadError::Decode(e),
        ),
{
    match decoded {
        Ok((v, _)) => Ok(v),
        Err(e) => Err(BincodePayloadError::from(e)),
    }
}

} // verus!
