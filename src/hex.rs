use vstd::prelude::*;

verus! {

/// The lowercase hexadecimal digit for a value below sixteen.
pub open spec fn hex_digit(v: u8) -> char {
    match v {
        0u8 => '0',
        1u8 => '1',
        2u8 => '2',
        3u8 => '3',
        4u8 => '4',
        5u8 => '5',
        6u8 => '6',
        7u8 => '7',
        8u8 => '8',
        9u8 => '9',
        10u8 => 'a',
        11u8 => 'b',
        12u8 => 'c',
        13u8 => 'd',
        14u8 => 'e',
        _ => 'f',
    }
}

/// Lowercase hexadecimal text of a byte string, two digits per byte, high
/// nibble first.
pub open spec fn hex_of(b: Seq<u8>) -> Seq<char>
    decreases b.len(),
{
    if b.len() == 0 {
        Seq::empty()
    } else {
        hex_of(b.drop_last()) + seq![hex_digit(b.last() / 16), hex_digit(b.last() % 16)]
    }
}

fn hex_char(v: u8) -> (c: char)
    requires
        v < 16,
    ensures
        c == hex_digit(v),
{
    match v {
        0u8 => '0',
        1u8 => '1',
        2u8 => '2',
        3u8 => '3',
        4u8 => '4',
        5u8 => '5',
        6u8 => '6',
        7u8 => '7',
        8u8 => '8',
        9u8 => '9',
        10u8 => 'a',
        11u8 => 'b',
        12u8 => 'c',
        13u8 => 'd',
        14u8 => 'e',
        _ => 'f',
    }
}

/// Encodes bytes as lowercase hexadecimal text.
pub fn to_hex(b: &[u8]) -> (r: String)
    ensures
        r@ == hex_of(b@),
{
    let mut r = String::new();
    let mut i: usize = 0;
    while i < b.len()
        invariant
            i <= b@.len(),
            r@ == hex_of(b@.subrange(0, i as int)),
        decreases b@.len() - i,
    {
        let v = b[i];
        assert(b@.subrange(0, i + 1).drop_last() == b@.subrange(0, i as int));
        r.push(hex_char(v / 16));
        r.push(hex_char(v % 16));
        i = i + 1;
    }
    assert(b@.subrange(0, b@.len() as int) == b@);
    r
}

} // verus!
