//! The variable-length integer of the protocol: an `i32` written as one to
//! five bytes, seven value bits per byte, least significant group first, with
//! bit 7 of each byte set when another byte follows.
use crate::buffer::{bytes_mut_put_u8, bytes_mut_view};
use crate::packet::stream::{
    DecodeError, DecodeErrorView, Decode, Encode, EncodeError, EncodeErrorView, decoded_view,
};
use crate::text::{decimal, decimal_string};
use bytes::BytesMut;
use vstd::prelude::*;

verus! {

/// A protocol integer that travels as a VarInt.
#[derive(Debug, Clone, Copy, PartialEq, Eq, PartialOrd, Ord, Hash, Default)]
pub struct VarInt(i32);

impl View for VarInt {
    type V = i32;

    closed spec fn view(&self) -> i32 {
        self.0
    }
}

/// Bit 7 of a byte: another byte of the same VarInt follows.
pub open spec fn continues(b: u8) -> bool {
    (b & 0x80) != 0
}

/// The seven value bits of a byte.
pub open spec fn low_bits(b: u8) -> u32 {
    (b & 0x7f) as u32
}

/// The number of bytes that the VarInt of a 32-bit pattern takes.
pub open spec fn spec_encoded_len(bits: u32) -> nat {
    if bits < 0x80 {
        1
    } else if bits < 0x4000 {
        2
    } else if bits < 0x20_0000 {
        3
    } else if bits < 0x1000_0000 {
        4
    } else {
        5
    }
}

/// The seven-bit group `k` of a 32-bit pattern, counted from the least
/// significant end.
pub open spec fn group(bits: u32, k: nat) -> u8 {
    ((bits >> ((7 * k) as u32)) & 0x7f) as u8
}

/// The bytes of the VarInt of `value`: its two's-complement bit pattern cut
/// into seven-bit groups up to the highest non-zero one, each but the last
/// marked as continued.
pub open spec fn varint_bytes(value: i32) -> Seq<u8> {
    let bits = value as u32;
    let n = spec_encoded_len(bits);
    Seq::new(
        n,
        |k: int|
            if k + 1 < n {
                group(bits, k as nat) | 0x80
            } else {
                group(bits, k as nat)
            },
    )
}

/// The bit pattern that the first `n` bytes of `buf` carry.
pub open spec fn value_bits(buf: Seq<u8>, n: nat) -> u32
    decreases n,
{
    if n == 0 {
        0
    } else {
        value_bits(buf, (n - 1) as nat) | (low_bits(buf[n - 1]) << ((7 * (n - 1)) as u32))
    }
}

/// The first `n` bytes of `buf` form one VarInt: all but the last are
/// continued, the last is not.
pub open spec fn ends_at(buf: Seq<u8>, n: int) -> bool {
    &&& 1 <= n <= buf.len()
    &&& forall|k: int| 0 <= k < n - 1 ==> continues(#[trigger] buf[k])
    &&& !continues(buf[n - 1])
}

/// The text of the error for a VarInt that runs past its maximum length.
pub open spec fn too_long_text() -> Seq<char> {
    "VarInt is longer than its maximum length"@
}

/// Reading a VarInt of at most `max` bytes from the start of `buf`: the value
/// and length when a VarInt ends within `max` bytes; `Incomplete` when the
/// buffer ends first; `Invalid` when `max` bytes are all continued.
pub open spec fn spec_read_varint(buf: Seq<u8>, max: int) -> Result<(i32, usize), DecodeErrorView> {
    if exists|n: int| 1 <= n <= max && #[trigger] ends_at(buf, n) {
        let n = choose|n: int| 1 <= n <= max && #[trigger] ends_at(buf, n);
        Ok((value_bits(buf, n as nat) as i32, n as usize))
    } else if buf.len() < max {
        Err(DecodeErrorView::Incomplete)
    } else {
        Err(DecodeErrorView::Invalid(too_long_text()))
    }
}

/// A byte sequence holds at most one VarInt at its start.
pub proof fn lemma_ends_at_unique(buf: Seq<u8>, n: int, m: int)
    requires
        ends_at(buf, n),
        ends_at(buf, m),
    ensures
        n == m,
{
    if n < m {
        assert(continues(buf[n - 1]));
    } else if m < n {
        assert(continues(buf[m - 1]));
    }
}

/// When a VarInt ends at `n` within `max` bytes, reading gives that VarInt.
proof fn lemma_read_at(buf: Seq<u8>, n: int, max: int)
    requires
        1 <= n <= max,
        ends_at(buf, n),
    ensures
        spec_read_varint(buf, max) == Ok::<(i32, usize), DecodeErrorView>(
            (value_bits(buf, n as nat) as i32, n as usize),
        ),
{
    let m = choose|m: int| 1 <= m <= max && #[trigger] ends_at(buf, m);
    lemma_ends_at_unique(buf, n, m);
}

/// Whether group `k` is followed by a non-zero group.
proof fn lemma_more_groups(bits: u32, k: nat)
    requires
        k <= 4,
    ensures
        ((bits >> ((7 * k) as u32)) & !0x7fu32) != 0 <==> k + 1 < spec_encoded_len(bits),
        (bits >> ((7 * k) as u32)) >> 7u32 == bits >> ((7 * (k + 1)) as u32),
{
    if k == 0 {
        assert((7 * k) as u32 == 0u32);
        assert(((bits >> 0u32) & !0x7fu32) != 0 <==> bits >= 0x80) by (bit_vector);
        assert((bits >> 0u32) >> 7u32 == bits >> 7u32) by (bit_vector);
    } else if k == 1 {
        assert((7 * k) as u32 == 7u32);
        assert(((bits >> 7u32) & !0x7fu32) != 0 <==> bits >= 0x4000) by (bit_vector);
        assert((bits >> 7u32) >> 7u32 == bits >> 14u32) by (bit_vector);
    } else if k == 2 {
        assert((7 * k) as u32 == 14u32);
        assert(((bits >> 14u32) & !0x7fu32) != 0 <==> bits >= 0x20_0000) by (bit_vector);
        assert((bits >> 14u32) >> 7u32 == bits >> 21u32) by (bit_vector);
    } else if k == 3 {
        assert((7 * k) as u32 == 21u32);
        assert(((bits >> 21u32) & !0x7fu32) != 0 <==> bits >= 0x1000_0000) by (bit_vector);
        assert((bits >> 21u32) >> 7u32 == bits >> 28u32) by (bit_vector);
    } else {
        assert((7 * k) as u32 == 28u32);
        assert(((bits >> 28u32) & !0x7fu32) == 0) by (bit_vector);
        assert((bits >> 28u32) >> 7u32 == bits >> 35u32) by (bit_vector);
    }
}


/// The bit pattern that the bytes of the VarInt of a pattern carry is that
/// pattern.
proof fn lemma_value_bits_of_encoding(value: i32, buf: Seq<u8>)
    requires
        varint_bytes(value).len() <= buf.len(),
        forall|k: int| 0 <= k < varint_bytes(value).len() ==> buf[k] == varint_bytes(value)[k],
    ensures
        value_bits(buf, varint_bytes(value).len()) == value as u32,
{
    let bits = value as u32;
    let n = spec_encoded_len(bits);
    reveal_with_fuel(value_bits, 6);
    assert((7 * 0int) as u32 == 0u32);
    assert((7 * 1int) as u32 == 7u32);
    assert((7 * 2int) as u32 == 14u32);
    assert((7 * 3int) as u32 == 21u32);
    assert((7 * 4int) as u32 == 28u32);
    let b0 = buf[0];
    if n == 1 {
        assert(b0 == ((bits >> 0u32) & 0x7f) as u8);
        assert((0u32 | (((b0 & 0x7f) as u32) << 0u32)) == bits) by (bit_vector)
            requires
                b0 == ((bits >> 0u32) & 0x7f) as u8,
                bits < 0x80,
        ;
    } else if n == 2 {
        let b1 = buf[1];
        assert(b0 == (((bits >> 0u32) & 0x7f) as u8 | 0x80));
        assert(b1 == ((bits >> 7u32) & 0x7f) as u8);
        assert(((0u32 | (((b0 & 0x7f) as u32) << 0u32)) | (((b1 & 0x7f) as u32) << 7u32)) == bits)
            by (bit_vector)
            requires
                b0 == (((bits >> 0u32) & 0x7f) as u8 | 0x80),
                b1 == ((bits >> 7u32) & 0x7f) as u8,
                bits < 0x4000,
        ;
    } else if n == 3 {
        let b1 = buf[1];
        let b2 = buf[2];
        assert(b0 == (((bits >> 0u32) & 0x7f) as u8 | 0x80));
        assert(b1 == (((bits >> 7u32) & 0x7f) as u8 | 0x80));
        assert(b2 == ((bits >> 14u32) & 0x7f) as u8);
        assert((((0u32 | (((b0 & 0x7f) as u32) << 0u32)) | (((b1 & 0x7f) as u32) << 7u32)) | (((b2
            & 0x7f) as u32) << 14u32)) == bits) by (bit_vector)
            requires
                b0 == (((bits >> 0u32) & 0x7f) as u8 | 0x80),
                b1 == (((bits >> 7u32) & 0x7f) as u8 | 0x80),
                b2 == ((bits >> 14u32) & 0x7f) as u8,
                bits < 0x20_0000,
        ;
    } else if n == 4 {
        let b1 = buf[1];
        let b2 = buf[2];
        let b3 = buf[3];
        assert(b0 == (((bits >> 0u32) & 0x7f) as u8 | 0x80));
        assert(b1 == (((bits >> 7u32) & 0x7f) as u8 | 0x80));
        assert(b2 == (((bits >> 14u32) & 0x7f) as u8 | 0x80));
        assert(b3 == ((bits >> 21u32) & 0x7f) as u8);
        assert(((((0u32 | (((b0 & 0x7f) as u32) << 0u32)) | (((b1 & 0x7f) as u32) << 7u32)) | (((b2
            & 0x7f) as u32) << 14u32)) | (((b3 & 0x7f) as u32) << 21u32)) == bits) by (bit_vector)
            requires
                b0 == (((bits >> 0u32) & 0x7f) as u8 | 0x80),
                b1 == (((bits >> 7u32) & 0x7f) as u8 | 0x80),
                b2 == (((bits >> 14u32) & 0x7f) as u8 | 0x80),
                b3 == ((bits >> 21u32) & 0x7f) as u8,
                bits < 0x1000_0000,
        ;
    } else {
        let b1 = buf[1];
        let b2 = buf[2];
        let b3 = buf[3];
        let b4 = buf[4];
        assert(b0 == (((bits >> 0u32) & 0x7f) as u8 | 0x80));
        assert(b1 == (((bits >> 7u32) & 0x7f) as u8 | 0x80));
        assert(b2 == (((bits >> 14u32) & 0x7f) as u8 | 0x80));
        assert(b3 == (((bits >> 21u32) & 0x7f) as u8 | 0x80));
        assert(b4 == ((bits >> 28u32) & 0x7f) as u8);
        assert((((((0u32 | (((b0 & 0x7f) as u32) << 0u32)) | (((b1 & 0x7f) as u32) << 7u32)) | (((b2
            & 0x7f) as u32) << 14u32)) | (((b3 & 0x7f) as u32) << 21u32)) | (((b4 & 0x7f) as u32)
            << 28u32)) == bits) by (bit_vector)
            requires
                b0 == (((bits >> 0u32) & 0x7f) as u8 | 0x80),
                b1 == (((bits >> 7u32) & 0x7f) as u8 | 0x80),
                b2 == (((bits >> 14u32) & 0x7f) as u8 | 0x80),
                b3 == (((bits >> 21u32) & 0x7f) as u8 | 0x80),
                b4 == ((bits >> 28u32) & 0x7f) as u8,
        ;
    }
}

/// Law: reading the VarInt of `value`, whatever follows it, gives back `value`
/// and the length of its encoding, whenever the maximum length admits that
/// many bytes.
pub proof fn lemma_varint_roundtrip(value: i32, rest: Seq<u8>, max: int)
    requires
        varint_bytes(value).len() <= max,
    ensures
        spec_read_varint(varint_bytes(value) + rest, max) == Ok::<(i32, usize), DecodeErrorView>(
            (value, varint_bytes(value).len() as usize),
        ),
{
    let bits = value as u32;
    let enc = varint_bytes(value);
    let buf = enc + rest;
    let n = enc.len() as int;
    assert forall|k: int| 0 <= k < n - 1 implies continues(#[trigger] buf[k]) by {
        let g = group(bits, k as nat);
        assert(buf[k] == g | 0x80);
        assert(((g | 0x80) & 0x80) != 0) by (bit_vector);
    }
    let shift = (7 * (n - 1)) as u32;
    assert(buf[n - 1] == ((bits >> shift) & 0x7f) as u8);
    assert(((((bits >> shift) & 0x7f) as u8) & 0x80) == 0) by (bit_vector);
    assert(ends_at(buf, n));
    lemma_read_at(buf, n, max);
    lemma_value_bits_of_encoding(value, buf);
    assert((value as u32) as i32 == value) by (bit_vector);
}

/// What `TryFromIntError` says when a value does not fit the target integer
/// type.
pub uninterp spec fn int_conversion_error_text(value: int) -> Seq<char>;

/// `usize::try_from(i32)`: the value when it is not negative; otherwise the
/// text of the `TryFromIntError`, which the wrapper hands on in place of the
/// error. What that text holds is left to the name above.
#[verifier::external_body]
pub(crate) fn usize_try_from_i32(value: i32) -> (r: Result<usize, String>)
    ensures
        match r {
            Ok(n) => value >= 0 && n == value,
            Err(text) => value < 0 && text@ == int_conversion_error_text(value as int),
        },
{
    usize::try_from(value).map_err(|e| e.to_string())
}

impl VarInt {
    /// The VarInt of `value`.
    pub fn new(value: i32) -> (r: VarInt)
        ensures
            r@ == value,
    {
        VarInt(value)
    }

    /// The integer in decimal, as it is shown to a person.
    pub fn to_string(&self) -> (s: String)
        ensures
            s@ == decimal(self@ as int),
    {
        decimal_string(self.0 as i128)
    }

    /// The integer it carries.
    pub fn value(self) -> (r: i32)
        ensures
            r == self@,
    {
        self.0
    }

    /// Appends the VarInt to `buffer`; returns the number of bytes written.
    pub fn encode(&self, buffer: &mut BytesMut) -> (count: usize)
        requires
            bytes_mut_view(*old(buffer)).len() + varint_bytes(self@).len() <= isize::MAX,
        ensures
            bytes_mut_view(*final(buffer)) == bytes_mut_view(*old(buffer)) + varint_bytes(self@),
            count == varint_bytes(self@).len(),
    {
        let ghost bits = self.0 as u32;
        let ghost n = spec_encoded_len(bits);
        let ghost start = bytes_mut_view(*buffer);
        let mut value: u32 = self.value() as u32;
        let mut count: usize = 1;
        proof {
            assert(bits >> 0u32 == bits) by (bit_vector);
            assert((7 * 0nat) as u32 == 0u32);
            assert(varint_bytes(self@).take(0) =~= Seq::<u8>::empty());
        }
        while (value & !0x7f) != 0
            invariant
                1 <= count <= n,
                n == spec_encoded_len(bits),
                bits == self@ as u32,
                n == varint_bytes(self@).len(),
                value == bits >> ((7 * (count - 1)) as u32),
                bytes_mut_view(*buffer) == start + varint_bytes(self@).take(count - 1),
                start.len() + n <= isize::MAX,
            decreases n - count,
        {
            proof {
                lemma_more_groups(bits, (count - 1) as nat);
            }
            let byte = ((value & 0x7f) as u8) | 0x80;
            assert(byte == varint_bytes(self@)[count - 1]);
            bytes_mut_put_u8(buffer, byte);
            assert(varint_bytes(self@).take(count as int) =~= varint_bytes(self@).take(
                count - 1,
            ).push(byte));
            value = value >> 7;
            count = count + 1;
        }
        proof {
            lemma_more_groups(bits, (count - 1) as nat);
        }
        let last = (value & 0x7f) as u8;
        assert(last == varint_bytes(self@)[count - 1]);
        bytes_mut_put_u8(buffer, last);
        assert(varint_bytes(self@).take(count as int) =~= varint_bytes(self@).take(count - 1).push(
            last,
        ));
        assert(varint_bytes(self@).take(count as int) =~= varint_bytes(self@));
        count
    }

    /// The number of bytes that the VarInt takes.
    pub fn get_encoded_length(&self) -> (n: usize)
        ensures
            n == spec_encoded_len(self@ as u32),
            n == varint_bytes(self@).len(),
    {
        let value: u32 = self.value() as u32;
        if value < 0x80 {
            1
        } else if value < 0x4000 {
            2
        } else if value < 0x20_0000 {
            3
        } else if value < 0x1000_0000 {
            4
        } else {
            5
        }
    }

    /// Reads a VarInt of at most `max_len` bytes from the start of `buffer`.
    pub fn decode_bounded(buffer: &[u8], max_len: usize) -> (r: Result<(VarInt, usize), DecodeError>)
        requires
            1 <= max_len <= 5,
        ensures
            decoded_view(r) == spec_read_varint(buffer@, max_len as int),
            r matches Ok((_, n)) ==> 1 <= n <= max_len && n <= buffer@.len(),
    {
        let mut value: u32 = 0;
        let mut position: u32 = 0;
        let mut cursor: usize = 0;
        while cursor < max_len
            invariant
                cursor <= max_len <= 5,
                cursor <= buffer@.len(),
                position == 7 * cursor,
                value == value_bits(buffer@, cursor as nat),
                forall|k: int| 0 <= k < cursor ==> continues(#[trigger] buffer@[k]),
            decreases max_len - cursor,
        {
            if cursor >= buffer.len() {
                proof {
                    assert forall|n: int| 1 <= n <= max_len implies !#[trigger] ends_at(
                        buffer@,
                        n,
                    ) by {
                        if ends_at(buffer@, n) {
                            assert(continues(buffer@[n - 1]));
                        }
                    }
                }
                return Err(DecodeError::Incomplete);
            }
            let current_byte = buffer[cursor];
            value = value | (((current_byte & 0x7f) as u32) << position);
            if current_byte & 0x80 == 0 {
                proof {
                    assert(ends_at(buffer@, cursor + 1));
                    lemma_read_at(buffer@, cursor + 1, max_len as int);
                }
                return Ok((VarInt(#[verifier::truncate] (value as i32)), cursor + 1));
            }
            position = position + 7;
            cursor = cursor + 1;
        }
        proof {
            assert forall|n: int| 1 <= n <= max_len implies !#[trigger] ends_at(buffer@, n) by {
                if ends_at(buffer@, n) {
                    assert(continues(buffer@[n - 1]));
                }
            }
        }
        Err(DecodeError::Invalid(String::from_str("VarInt is longer than its maximum length")))
    }

    /// Reads a VarInt of at most five bytes from the start of `buffer`.
    pub fn decode(buffer: &[u8]) -> (r: Result<(VarInt, usize), DecodeError>)
        ensures
            decoded_view(r) == spec_read_varint(buffer@, 5),
            r matches Ok((_, n)) ==> 1 <= n <= 5 && n <= buffer@.len(),
    {
        VarInt::decode_bounded(buffer, 5)
    }
}

/// The number of bytes that the VarInt of `value` takes.
pub fn get_var_int_encoded_length(value: i32) -> (n: usize)
    ensures
        n == varint_bytes(value).len(),
{
    VarInt::new(value).get_encoded_length()
}

impl Encode for VarInt {
    open spec fn spec_encode(value: i32) -> Result<Seq<u8>, EncodeErrorView> {
        Ok(varint_bytes(value))
    }

    open spec fn spec_length_defined(value: i32) -> bool {
        true
    }

    open spec fn spec_encoded_length(value: i32) -> nat {
        varint_bytes(value).len()
    }

    fn encode(&self, buffer: &mut BytesMut) -> (r: Result<usize, EncodeError>) {
        Ok(VarInt::encode(self, buffer))
    }

    fn get_encoded_length(&self) -> (n: usize) {
        VarInt::get_encoded_length(self)
    }
}

impl Decode for VarInt {
    open spec fn spec_decode(buffer: Seq<u8>) -> Result<(i32, usize), DecodeErrorView> {
        spec_read_varint(buffer, 5)
    }

    fn decode(buffer: &[u8]) -> (r: Result<(VarInt, usize), DecodeError>) {
        VarInt::decode(buffer)
    }
}

impl From<i32> for VarInt {
    fn from(value: i32) -> (r: VarInt)
        ensures
            r@ == value,
    {
        VarInt(value)
    }
}

impl vstd::std_specs::convert::FromSpecImpl<i32> for VarInt {
    open spec fn obeys_from_spec() -> bool {
        false
    }

    closed spec fn from_spec(value: i32) -> VarInt {
        VarInt(value)
    }
}

impl From<VarInt> for i32 {
    fn from(value: VarInt) -> (r: i32)
        ensures
            r == value@,
    {
        value.0
    }
}

impl vstd::std_specs::convert::FromSpecImpl<VarInt> for i32 {
    open spec fn obeys_from_spec() -> bool {
        false
    }

    closed spec fn from_spec(value: VarInt) -> i32 {
        value.0
    }
}

} // verus!
