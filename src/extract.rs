use vstd::prelude::*;

use bincode::error::DecodeError;

use crate::codec::decoded_value;
use crate::error::BincodePayloadError;

verus! {

/// A request body decoded with bincode's own `Decode`.
pub struct Bincode<T>(T);

impl<T> View for Bincode<T> {
    type V = T;

    closed spec fn view(&self) -> T {
        self.0
    }
}

impl<T> Bincode<T> {
    /// Wraps a decoded value.
    pub fn new(value: T) -> (r: Self)
        ensures
            r@ == value,
    {
        Bincode(value)
    }

    /// The extractor's result from what the codec decoded out of the body.
    pub fn from_decoded(decoded: Result<(T, usize), DecodeError>) -> (r: Result<
        Self,
        BincodePayloadError,
    >)
        ensures
            decoded matches Ok((v, _)) ==> (r matches Ok(b) && b@ == v),
            decoded matches Err(e) ==> r == Err::<Self, BincodePayloadError>(
                BincodePayloadError::Decode(e),
            ),
    {
        match decoded_value(decoded) {
            Ok(v) => Ok(Bincode(v)),
            Err(e) => Err(e),
        }
    }

    /// Take the inner value.
    pub fn into_inner(self) -> (r: T)
        ensures
            r == self@,
    {
        self.0
    }
}

impl<T> core::ops::Deref for Bincode<T> {
    type Target = T;

    fn deref(&self) -> &T {
        &self.0
    }
}

} // verus!
