//! The primitive values of the protocol and how they are read and written.
use vstd::prelude::*;

pub mod number;
pub mod string;
pub mod var_int;

pub use var_int::VarInt;

use crate::packet::stream::Decode;
use var_int::{continues, ends_at, spec_read_varint, value_bits};

verus! {

/// Looks at the VarInt at the start of `buffer` without consuming it: its
/// value and length, or `None` when the buffer ends first or five bytes are
/// all continued.
pub fn peak_varint(buffer: &[u8]) -> (r: Option<(i32, usize)>)
    ensures
        r == match spec_read_varint(buffer@, 5) {
            Ok(found) => Some(found),
            Err(_) => None::<(i32, usize)>,
        },
{
    let mut cursor: usize = 0;
    let mut value: u32 = 0;
    let mut position: u32 = 0;
    while position < 32
        invariant
            cursor <= 5,
            cursor <= buffer@.len(),
            position == 7 * cursor,
            value == value_bits(buffer@, cursor as nat),
            forall|k: int| 0 <= k < cursor ==> continues(#[trigger] buffer@[k]),
        decreases 5 - cursor,
    {
        if cursor >= buffer.len() {
            proof {
                assert forall|n: int| 1 <= n <= 5 implies !#[trigger] ends_at(buffer@, n) by {
                    if ends_at(buffer@, n) {
                        assert(continues(buffer@[n - 1]));
                    }
                }
            }
            return None;
        }
        let current_byte: u8 = buffer[cursor];
        value = value | (((current_byte & 0x7F) as u32) << position);
        if (current_byte & 0x80) == 0 {
            proof {
                assert(ends_at(buffer@, cursor + 1));
                let m = choose|m: int| 1 <= m <= 5 && #[trigger] ends_at(buffer@, m);
                var_int::lemma_ends_at_unique(buffer@, cursor + 1, m);
            }
            return Some((#[verifier::truncate] (value as i32), cursor + 1));
        }
        position = position + 7;
        cursor = cursor + 1;
    }
    proof {
        assert forall|n: int| 1 <= n <= 5 implies !#[trigger] ends_at(buffer@, n) by {
            if ends_at(buffer@, n) {
                assert(continues(buffer@[n - 1]));
            }
        }
    }
    None
}

/// Law: looking at a VarInt finds one exactly when reading it succeeds, and
/// finds the same value and length.
pub proof fn lemma_peak_agrees_with_decode(buffer: Seq<u8>)
    ensures
        match <VarInt as Decode>::spec_decode(buffer) {
            Ok(found) => spec_read_varint(buffer, 5) == Ok::<
                (i32, usize),
                crate::packet::stream::DecodeErrorView,
            >(found),
            Err(_) => spec_read_varint(buffer, 5) is Err,
        },
{
}

} // verus!
