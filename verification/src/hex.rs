use vstd::prelude::*;

verus! {

/// The upper-case hexadecimal digit of a value below 16.
pub open spec fn hex_digit(n: u8) -> char {
    if n < 10 {
        (48 + n) as char
    } else {
        (55 + n) as char
    }
}

/// The two upper-case hexadecimal digits of a byte, high nibble first.
pub open spec fn byte_hex(b: u8) -> Seq<char> {
    seq![hex_digit(b >> 4), hex_digit(b & 15)]
}

/// The upper-case hexadecimal text of a byte sequence, two digits per byte,
/// as `{:X}` prints a byte array.
pub open spec fn upper_hex(s: Seq<u8>) -> Seq<char>
    decreases s.len(),
{
    if s.len() == 0 {
        Seq::empty()
    } else {
        upper_hex(s.drop_last()) + byte_hex(s.last())
    }
}

/// An upper-case hexadecimal digit or nothing else.
pub open spec fn is_upper_hex_digit(c: char) -> bool {
    ('0' <= c && c <= '9') || ('A' <= c && c <= 'F')
}

pub proof fn lemma_upper_hex_shape(s: Seq<u8>)
    ensures
        upper_hex(s).len() == 2 * s.len(),
        forall|k: int| 0 <= k < upper_hex(s).len() ==> is_upper_hex_digit(#[trigger] upper_hex(s)[k]),
    decreases s.len(),
{
    if s.len() > 0 {
        lemma_upper_hex_shape(s.drop_last());
        let b = s.last();
        assert(b >> 4 < 16) by (bit_vector);
        assert(b & 15 < 16) by (bit_vector);
        let prev = upper_hex(s.drop_last());
        assert forall|k: int| 0 <= k < upper_hex(s).len() implies is_upper_hex_digit(
            #[trigger] upper_hex(s)[k],
        ) by {
            if k < prev.len() {
                assert(upper_hex(s)[k] == prev[k]);
            }
        }
    }
}

/// The upper-case hexadecimal digit of a value below 16.
pub fn hex_digit_of(n: u8) -> (r: char)
    requires
        n < 16,
    ensures
        r == hex_digit(n),
{
    if n < 10 {
        (48 + n) as char
    } else {
        (55 + n) as char
    }
}

/// The upper-case hexadecimal text of `data`.
pub fn to_upper_hex(data: &[u8]) -> (r: Vec<char>)
    ensures
        r@ == upper_hex(data@),
{
    let mut r: Vec<char> = Vec::new();
    let mut i: usize = 0;
    assert(data@.take(0) =~= Seq::<u8>::empty());
    while i < data.len()
        invariant
            i <= data.len(),
            r@ == upper_hex(data@.take(i as int)),
        decreases data.len() - i,
    {
        let b = data[i];
        assert(b >> 4 < 16) by (bit_vector);
        assert(b & 15 < 16) by (bit_vector);
        r.push(hex_digit_of(b >> 4));
        r.push(hex_digit_of(b & 15));
        proof {
            assert(data@.take(i + 1).drop_last() =~= data@.take(i as int));
            assert(data@.take(i + 1).last() == b);
            assert(r@ =~= upper_hex(data@.take(i as int)) + byte_hex(b));
        }
        i = i + 1;
    }
    assert(data@.take(i as int) =~= data@);
    r
}

} // verus!
