//! The bounded string: a byte string of at most 255 bytes, either a
//! zero-copy view over bytes owned elsewhere or an owned buffer.

use vstd::prelude::*;

use crate::error::Error;

verus! {

/// The largest number of bytes a bounded string may hold.
pub const MAX_STR0255_LEN: usize = 255;

enum StrInner<'a> {
    Borrowed(&'a [u8]),
    Owned(Vec<u8>),
}

/// A byte string of at most 255 bytes, as carried length-prefixed on the
/// wire. A `Borrowed` value is a zero-copy view whose validity is the
/// lifetime of the buffer it points into; an `Owned` value carries its own
/// bytes. The length bound is a type invariant: every value of this type
/// satisfies it, so no constructor admits a longer string.
pub struct Str0255<'a> {
    inner: StrInner<'a>,
}

impl<'a> View for Str0255<'a> {
    type V = Seq<u8>;

    closed spec fn view(&self) -> Seq<u8> {
        match self.inner {
            StrInner::Borrowed(s) => s@,
            StrInner::Owned(ref v) => v@,
        }
    }
}

impl<'a> Str0255<'a> {
    #[verifier::type_invariant]
    spec fn length_bounded(self) -> bool {
        self@.len() <= MAX_STR0255_LEN
    }

    /// Makes a zero-copy bounded string over a borrowed byte slice;
    /// rejects a slice of more than 255 bytes.
    pub fn try_from_slice(data: &'a [u8]) -> (r: Result<Self, Error>)
        ensures
            r is Ok <==> data@.len() <= 255,
            r matches Ok(s) ==> s@ == data@,
            r matches Err(e) ==> e == Error::StringTooLong,
    {
        if data.len() <= MAX_STR0255_LEN {
            Ok(Str0255 { inner: StrInner::Borrowed(data) })
        } else {
            Err(Error::StringTooLong)
        }
    }

    /// Makes a bounded string that owns its bytes; rejects a buffer of
    /// more than 255 bytes.
    pub fn try_from_vec(data: Vec<u8>) -> (r: Result<Str0255<'static>, Error>)
        ensures
            r is Ok <==> data@.len() <= 255,
            r matches Ok(s) ==> s@ == data@,
            r matches Err(e) ==> e == Error::StringTooLong,
    {
        if data.len() <= MAX_STR0255_LEN {
            Ok(Str0255 { inner: StrInner::Owned(data) })
        } else {
            Err(Error::StringTooLong)
        }
    }

    /// The bytes of the string, at most 255 of them.
    pub fn as_bytes(&self) -> (r: &[u8])
        ensures
            r@ == self@,
            r@.len() <= 255,
    {
        proof {
            use_type_invariant(&*self);
        }
        match &self.inner {
            StrInner::Borrowed(s) => s,
            StrInner::Owned(v) => v.as_slice(),
        }
    }

    /// The number of bytes in the string, at most 255.
    pub fn len(&self) -> (r: usize)
        ensures
            r == self@.len(),
            r <= 255,
    {
        proof {
            use_type_invariant(&*self);
        }
        self.as_bytes().len()
    }

    /// Encoded size of the string on the wire: one length byte followed
    /// by the bytes themselves.
    pub fn get_size(&self) -> (r: usize)
        ensures
            r == self@.len() + 1,
            r <= 256,
    {
        let n = self.len();
        n + 1
    }
}

} // verus!
