use vstd::arithmetic::power::pow;
use vstd::prelude::*;

verus! {

/// Byte `i` of the 16-byte little-endian encoding of `v`.
pub open spec fn le_bytes(v: u128) -> Seq<u8> {
    Seq::new(16, |i: int| ((v as int / pow(256, i as nat)) % 256) as u8)
}

/// The little-endian encodings of every value of `s`, one after another.
pub open spec fn concat_le(s: Seq<u128>) -> Seq<u8>
    decreases s.len(),
{
    if s.len() == 0 {
        Seq::empty()
    } else {
        concat_le(s.drop_last()) + le_bytes(s.last())
    }
}

/// The bytes of `s` that are not zero, in order.
pub open spec fn nonzero(s: Seq<u8>) -> Seq<u8>
    decreases s.len(),
{
    if s.len() == 0 {
        Seq::empty()
    } else if s.last() != 0 {
        nonzero(s.drop_last()).push(s.last())
    } else {
        nonzero(s.drop_last())
    }
}

/// What `String::from_utf8` makes of a byte sequence: the characters it
/// encodes, or nothing where it is not valid UTF-8.
pub uninterp spec fn utf8_text(b: Seq<u8>) -> Option<Seq<char>>;

/// Relies on u128::to_le_bytes: byte `i` is `(v / 256^i) mod 256`.
#[verifier::external_body]
pub(crate) fn u128_le(v: u128) -> (r: Vec<u8>)
    ensures
        r@ == le_bytes(v),
{
    v.to_le_bytes().to_vec()
}

/// Relies on String::from_utf8: it succeeds exactly on valid UTF-8.
#[verifier::external_body]
pub(crate) fn text_from_utf8(b: Vec<u8>) -> (r: Option<String>)
    ensures
        match r {
            Some(s) => utf8_text(b@) == Some(s@),
            None => utf8_text(b@) is None,
        },
{
    String::from_utf8(b).ok()
}

/// The UTF-8 encoding of a text, as `String::into_bytes` gives it.
pub uninterp spec fn utf8_bytes(s: Seq<char>) -> Seq<u8>;

/// Relies on String::into_bytes: the UTF-8 encoding of the text.
#[verifier::external_body]
pub(crate) fn string_bytes(s: String) -> (r: Vec<u8>)
    ensures
        r@ == utf8_bytes(s@),
{
    s.into_bytes()
}

/// Relies on u128::from_le_bytes: the value whose little-endian encoding is
/// the sixteen bytes given.
#[verifier::external_body]
fn u128_from_le(b: &Vec<u8>) -> (r: u128)
    requires
        b@.len() == 16,
    ensures
        le_bytes(r) == b@,
{
    let mut a = [0u8; 16];
    a.copy_from_slice(b.as_slice());
    u128::from_le_bytes(a)
}

/// A stored counter: sixteen little-endian bytes; anything else, such as
/// nothing stored, reads as zero.
pub fn stored_u128(b: &Vec<u8>) -> (r: u128)
    ensures
        b@.len() == 16 ==> le_bytes(r) == b@,
        b@.len() != 16 ==> r == 0,
{
    if b.len() == 16 {
        u128_from_le(b)
    } else {
        0
    }
}

/// The bytes a counter is stored as: its sixteen little-endian bytes.
pub fn stored_bytes(v: u128) -> (r: Vec<u8>)
    ensures
        r@ == le_bytes(v),
{
    u128_le(v)
}

/// The non-zero bytes of the little-endian encoding of `v`.
fn nonzero_le_bytes(v: u128) -> (r: Vec<u8>)
    ensures
        r@ == nonzero(le_bytes(v)),
{
    let bytes = u128_le(v);
    let mut r: Vec<u8> = Vec::new();
    let mut i: usize = 0;
    while i < bytes.len()
        invariant
            bytes@ == le_bytes(v),
            i <= bytes@.len(),
            r@ == nonzero(bytes@.subrange(0, i as int)),
        decreases bytes.len() - i,
    {
        let b = bytes[i];
        assert(bytes@.subrange(0, i + 1).drop_last() == bytes@.subrange(0, i as int));
        if b != 0 {
            r.push(b);
        }
        i = i + 1;
    }
    assert(bytes@.subrange(0, i as int) == bytes@);
    r
}

/// Reads the non-zero bytes of the little-endian encoding of `v` as UTF-8 text.
pub fn u128_to_string(v: u128) -> (r: String)
    requires
        utf8_text(nonzero(le_bytes(v))) is Some,
    ensures
        utf8_text(nonzero(le_bytes(v))) == Some(r@),
{
    match text_from_utf8(nonzero_le_bytes(v)) {
        Some(s) => s,
        None => String::new(),
    }
}

/// As `u128_to_string`, or `None` where those bytes are not valid UTF-8.
pub fn u128_to_text(v: u128) -> (r: Option<String>)
    ensures
        match r {
            Some(s) => utf8_text(nonzero(le_bytes(v))) == Some(s@),
            None => utf8_text(nonzero(le_bytes(v))) is None,
        },
{
    if text_from_utf8(nonzero_le_bytes(v)).is_some() {
        Some(u128_to_string(v))
    } else {
        None
    }
}

/// The little-endian bytes of every input after the first (the operation
/// selector), one input after another. The inputs themselves are left as they are.
pub fn get_byte_array_from_inputs(inputs: &Vec<u128>) -> (r: Vec<u8>)
    requires
        inputs@.len() >= 1,
    ensures
        r@ == concat_le(inputs@.drop_first()),
{
    let mut r: Vec<u8> = Vec::new();
    let mut i: usize = 1;
    while i < inputs.len()
        invariant
            1 <= i <= inputs@.len(),
            r@ == concat_le(inputs@.subrange(1, i as int)),
        decreases inputs.len() - i,
    {
        let bytes = u128_le(inputs[i]);
        let ghost before = r@;
        let mut j: usize = 0;
        while j < bytes.len()
            invariant
                bytes@ == le_bytes(inputs@[i as int]),
                j <= bytes@.len(),
                r@ == before + bytes@.subrange(0, j as int),
            decreases bytes.len() - j,
        {
            r.push(bytes[j]);
            assert(bytes@.subrange(0, j + 1) == bytes@.subrange(0, j as int).push(bytes@[j as int]));
            j = j + 1;
        }
        assert(bytes@.subrange(0, j as int) == bytes@);
        assert(inputs@.subrange(1, i + 1).drop_last() == inputs@.subrange(1, i as int));
        i = i + 1;
    }
    assert(inputs@.subrange(1, i as int) == inputs@.drop_first());
    r
}

} // verus!
