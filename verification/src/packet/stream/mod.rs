//! Reading values from and writing values to byte buffers, and the framing of
//! packets on a byte stream.
use crate::buffer::{bytes_mut_advance, bytes_mut_as_slice, bytes_mut_view};
use bytes::BytesMut;
use vstd::prelude::*;

pub mod decoder;
pub mod encoder;
pub mod error;

pub use error::{DecodeError, DecodeErrorView, EncodeError, EncodeErrorView};

verus! {

/// A value that can be written to a byte buffer.
pub trait Encode: View {
    /// The bytes that writing a value appends, or the error that refuses it.
    spec fn spec_encode(value: Self::V) -> Result<Seq<u8>, EncodeErrorView>;

    /// Whether `get_encoded_length` can compute the length of a value.
    spec fn spec_length_defined(value: Self::V) -> bool;

    /// What `get_encoded_length` gives back for a value.
    spec fn spec_encoded_length(value: Self::V) -> nat;

    /// Appends the encoding of `self` to `buffer` and returns how many bytes
    /// it wrote; on an error the buffer is left as it was.
    fn encode(&self, buffer: &mut BytesMut) -> (r: Result<usize, EncodeError>)
        requires
            Self::spec_encode(self@) matches Ok(bytes) ==> bytes_mut_view(*old(buffer)).len()
                + bytes.len() <= isize::MAX,
        ensures
            match r {
                Ok(n) => {
                    &&& Self::spec_encode(self@) matches Ok(bytes)
                    &&& n == bytes.len()
                    &&& bytes_mut_view(*final(buffer)) == bytes_mut_view(*old(buffer)) + bytes
                },
                Err(e) => {
                    &&& Self::spec_encode(self@) == Err::<Seq<u8>, EncodeErrorView>(e@)
                    &&& bytes_mut_view(*final(buffer)) == bytes_mut_view(*old(buffer))
                },
            },
    ;

    /// The number of bytes that the encoding of `self` takes.
    fn get_encoded_length(&self) -> (n: usize)
        requires
            Self::spec_length_defined(self@),
        ensures
            n == Self::spec_encoded_length(self@),
    ;
}

/// The outcome of a decode, with the value and the error taken by their views.
pub open spec fn decoded_view<T: View>(r: Result<(T, usize), DecodeError>) -> Result<
    (T::V, usize),
    DecodeErrorView,
> {
    match r {
        Ok((value, n)) => Ok((value@, n)),
        Err(e) => Err(e@),
    }
}

/// A value that can be read from the start of a byte buffer.
pub trait Decode: Sized + View {
    /// The value at the start of the buffer and the number of bytes it takes,
    /// or the error.
    spec fn spec_decode(buffer: Seq<u8>) -> Result<(Self::V, usize), DecodeErrorView>;

    /// Reads a value from the start of `buffer`; returns it with the number of
    /// bytes it took.
    fn decode(buffer: &[u8]) -> (r: Result<(Self, usize), DecodeError>)
        ensures
            decoded_view(r) == Self::spec_decode(buffer@),
            r matches Ok((_, n)) ==> n <= buffer@.len(),
    ;

    /// Reads a value from the start of `buffer` and removes the bytes it took;
    /// on an error the buffer is left as it was.
    fn decode_consuming_buffer(buffer: &mut BytesMut) -> (r: Result<(Self, usize), DecodeError>)
        ensures
            decoded_view(r) == Self::spec_decode(bytes_mut_view(*old(buffer))),
            match r {
                Ok((_, n)) => bytes_mut_view(*final(buffer)) == bytes_mut_view(*old(buffer)).skip(
                    n as int,
                ),
                Err(_) => bytes_mut_view(*final(buffer)) == bytes_mut_view(*old(buffer)),
            },
    {
        let r = Self::decode(bytes_mut_as_slice(buffer));
        match r {
            Ok((value, decoded_length)) => {
                bytes_mut_advance(buffer, decoded_length);
                Ok((value, decoded_length))
            },
            Err(e) => Err(e),
        }
    }
}

} // verus!
