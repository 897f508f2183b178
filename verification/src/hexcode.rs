//! Hexadecimal encoding and decoding of byte strings.
//!
//! Encoding always produces lowercase digits; decoding accepts both cases and
//! rejects any input of odd length or with a non-hex character.

use vstd::prelude::*;

verus! {

/// The value of one hexadecimal digit character, upper or lower case,
/// or `None` for any other character.
pub open spec fn hex_digit_value(c: char) -> Option<u8> {
    if c == '0' {
        Some(0u8)
    } else if c == '1' {
        Some(1u8)
    } else if c == '2' {
        Some(2u8)
    } else if c == '3' {
        Some(3u8)
    } else if c == '4' {
        Some(4u8)
    } else if c == '5' {
        Some(5u8)
    } else if c == '6' {
        Some(6u8)
    } else if c == '7' {
        Some(7u8)
    } else if c == '8' {
        Some(8u8)
    } else if c == '9' {
        Some(9u8)
    } else if c == 'a' || c == 'A' {
        Some(10u8)
    } else if c == 'b' || c == 'B' {
        Some(11u8)
    } else if c == 'c' || c == 'C' {
        Some(12u8)
    } else if c == 'd' || c == 'D' {
        Some(13u8)
    } else if c == 'e' || c == 'E' {
        Some(14u8)
    } else if c == 'f' || c == 'F' {
        Some(15u8)
    } else {
        None
    }
}

/// Whether a character is a hexadecimal digit, in either case.
pub open spec fn is_hex_digit(c: char) -> bool {
    hex_digit_value(c) is Some
}

/// The lowercase hexadecimal digit character for a value below sixteen.
pub open spec fn hex_char(v: u8) -> char
    recommends
        v < 16,
{
    if v == 0 {
        '0'
    } else if v == 1 {
        '1'
    } else if v == 2 {
        '2'
    } else if v == 3 {
        '3'
    } else if v == 4 {
        '4'
    } else if v == 5 {
        '5'
    } else if v == 6 {
        '6'
    } else if v == 7 {
        '7'
    } else if v == 8 {
        '8'
    } else if v == 9 {
        '9'
    } else if v == 10 {
        'a'
    } else if v == 11 {
        'b'
    } else if v == 12 {
        'c'
    } else if v == 13 {
        'd'
    } else if v == 14 {
        'e'
    } else {
        'f'
    }
}

/// The lowercase hex rendering of a byte sequence: two digits per byte,
/// high nibble first.
pub open spec fn hex_of(bytes: Seq<u8>) -> Seq<char>
    decreases bytes.len(),
{
    if bytes.len() == 0 {
        Seq::empty()
    } else {
        seq![hex_char(bytes[0] / 16), hex_char(bytes[0] % 16)] + hex_of(bytes.drop_first())
    }
}

/// Whether a character sequence is well-formed hex: even length and
/// hexadecimal digits throughout.
pub open spec fn is_hex_seq(s: Seq<char>) -> bool {
    s.len() % 2 == 0 && forall|i: int| 0 <= i < s.len() ==> #[trigger] is_hex_digit(s[i])
}

/// The byte sequence a well-formed hex character sequence denotes.
pub open spec fn hex_bytes_of(s: Seq<char>) -> Seq<u8>
    recommends
        is_hex_seq(s),
    decreases s.len(),
{
    if s.len() < 2 {
        Seq::empty()
    } else {
        seq![(hex_digit_value(s[0])->0 * 16 + hex_digit_value(s[1])->0) as u8] + hex_bytes_of(
            s.skip(2),
        )
    }
}

/// One hexadecimal digit decoded; accepts both cases.
fn hex_digit(c: char) -> (r: Option<u8>)
    ensures
        r == hex_digit_value(c),
        r matches Some(v) ==> v < 16,
{
    match c {
        '0' => Some(0u8),
        '1' => Some(1u8),
        '2' => Some(2u8),
        '3' => Some(3u8),
        '4' => Some(4u8),
        '5' => Some(5u8),
        '6' => Some(6u8),
        '7' => Some(7u8),
        '8' => Some(8u8),
        '9' => Some(9u8),
        'a' | 'A' => Some(10u8),
        'b' | 'B' => Some(11u8),
        'c' | 'C' => Some(12u8),
        'd' | 'D' => Some(13u8),
        'e' | 'E' => Some(14u8),
        'f' | 'F' => Some(15u8),
        _ => None,
    }
}

/// The one-character string of the lowercase hex digit for a value below
/// sixteen.
fn hex_char_str(v: u8) -> (r: &'static str)
    requires
        v < 16,
    ensures
        r@ == seq![hex_char(v)],
{
    proof {
        reveal_strlit("0");
        reveal_strlit("1");
        reveal_strlit("2");
        reveal_strlit("3");
        reveal_strlit("4");
        reveal_strlit("5");
        reveal_strlit("6");
        reveal_strlit("7");
        reveal_strlit("8");
        reveal_strlit("9");
        reveal_strlit("a");
        reveal_strlit("b");
        reveal_strlit("c");
        reveal_strlit("d");
        reveal_strlit("e");
        reveal_strlit("f");
    }
    let r = match v {
        0 => "0",
        1 => "1",
        2 => "2",
        3 => "3",
        4 => "4",
        5 => "5",
        6 => "6",
        7 => "7",
        8 => "8",
        9 => "9",
        10 => "a",
        11 => "b",
        12 => "c",
        13 => "d",
        14 => "e",
        _ => "f",
    };
    proof {
        assert(r@ =~= seq![hex_char(v)]);
    }
    r
}

/// Appending one byte to the input appends its two digits to the rendering.
proof fn lemma_hex_of_snoc(bytes: Seq<u8>, b: u8)
    ensures
        hex_of(bytes.push(b)) == hex_of(bytes) + seq![hex_char(b / 16), hex_char(b % 16)],
    decreases bytes.len(),
{
    if bytes.len() == 0 {
        let all = bytes.push(b);
        assert(all.len() == 1);
        assert(all[0] == b);
        assert(all.drop_first() =~= Seq::<u8>::empty());
        assert(hex_of(all.drop_first()) =~= Seq::<char>::empty());
        assert(hex_of(all) =~= seq![hex_char(b / 16), hex_char(b % 16)]);
        assert(hex_of(bytes) =~= Seq::<char>::empty());
        assert(hex_of(bytes.push(b)) =~= hex_of(bytes) + seq![hex_char(b / 16), hex_char(b % 16)]);
    } else {
        lemma_hex_of_snoc(bytes.drop_first(), b);
        assert(bytes.push(b).drop_first() =~= bytes.drop_first().push(b));
        assert(bytes.push(b)[0] == bytes[0]);
        assert(hex_of(bytes.push(b)) =~= hex_of(bytes) + seq![hex_char(b / 16), hex_char(b % 16)]);
    }
}

/// The rendering of a byte sequence is twice as long as the sequence.
pub proof fn lemma_hex_of_len(bytes: Seq<u8>)
    ensures
        hex_of(bytes).len() == 2 * bytes.len(),
    decreases bytes.len(),
{
    if bytes.len() > 0 {
        lemma_hex_of_len(bytes.drop_first());
    }
}

/// Appending one well-formed digit pair appends the byte it denotes.
proof fn lemma_hex_bytes_of_snoc(s: Seq<char>, c1: char, c2: char)
    requires
        s.len() % 2 == 0,
    ensures
        hex_bytes_of(s + seq![c1, c2]) == hex_bytes_of(s) + seq![
            (hex_digit_value(c1)->0 * 16 + hex_digit_value(c2)->0) as u8,
        ],
    decreases s.len(),
{
    let pair = seq![c1, c2];
    let all = s + pair;
    let b = (hex_digit_value(c1)->0 * 16 + hex_digit_value(c2)->0) as u8;
    assert(all.len() == s.len() + 2);
    if s.len() == 0 {
        assert(all[0] == c1);
        assert(all[1] == c2);
        assert(all.skip(2) =~= Seq::<char>::empty());
        assert(hex_bytes_of(all.skip(2)) =~= Seq::<u8>::empty());
        assert(hex_bytes_of(all) =~= seq![b]);
        assert(hex_bytes_of(s) =~= Seq::<u8>::empty());
        assert(hex_bytes_of(all) =~= hex_bytes_of(s) + seq![b]);
    } else {
        let first = (hex_digit_value(s[0])->0 * 16 + hex_digit_value(s[1])->0) as u8;
        lemma_hex_bytes_of_snoc(s.skip(2), c1, c2);
        assert(all.skip(2) =~= s.skip(2) + pair);
        assert(all[0] == s[0]);
        assert(all[1] == s[1]);
        assert(hex_bytes_of(all) == seq![first] + hex_bytes_of(all.skip(2)));
        assert(hex_bytes_of(s) == seq![first] + hex_bytes_of(s.skip(2)));
        assert(hex_bytes_of(all) =~= hex_bytes_of(s) + seq![b]);
    }
}

/// A lowercase digit reads back as the value it renders.
proof fn lemma_hex_char_value(v: u8)
    requires
        v < 16,
    ensures
        hex_digit_value(hex_char(v)) == Some(v),
{
}

/// Law: decoding inverts encoding. The rendering of any byte sequence is
/// well-formed hex of twice its length and decodes back to the same bytes.
pub proof fn lemma_hex_round_trip(bytes: Seq<u8>)
    ensures
        hex_of(bytes).len() == 2 * bytes.len(),
        is_hex_seq(hex_of(bytes)),
        hex_bytes_of(hex_of(bytes)) == bytes,
    decreases bytes.len(),
{
    lemma_hex_of_len(bytes);
    if bytes.len() == 0 {
        assert(hex_bytes_of(hex_of(bytes)) =~= bytes);
    } else {
        let rest = bytes.drop_first();
        let b = bytes[0];
        lemma_hex_round_trip(rest);
        lemma_hex_char_value(b / 16);
        lemma_hex_char_value(b % 16);
        let s = hex_of(bytes);
        assert forall|i: int| 0 <= i < s.len() implies #[trigger] is_hex_digit(s[i]) by {
            if i >= 2 {
                assert(s[i] == hex_of(rest)[i - 2]);
                assert(is_hex_digit(hex_of(rest)[i - 2]));
            }
        }
        assert(s.skip(2) =~= hex_of(rest));
        assert(b / 16 * 16 + b % 16 == b);
        assert(hex_bytes_of(s) =~= bytes);
    }
}

/// Decodes a hex string into bytes. Returns `None` exactly when the string
/// has odd length or holds a character that is no hexadecimal digit.
pub fn hex_decode(s: &str) -> (r: Option<Vec<u8>>)
    ensures
        r is Some <==> is_hex_seq(s@),
        r matches Some(v) ==> v@ == hex_bytes_of(s@),
{
    let n = s.unicode_len();
    if n % 2 != 0 {
        return None;
    }
    let mut out: Vec<u8> = Vec::new();
    let mut i: usize = 0;
    while i < n
        invariant
            n == s@.len(),
            n % 2 == 0,
            i % 2 == 0,
            i <= n,
            forall|j: int| 0 <= j < i ==> #[trigger] is_hex_digit(s@[j]),
            out@ == hex_bytes_of(s@.take(i as int)),
        decreases n - i,
    {
        proof {
            assert(i + 1 < n);
        }
        let c1 = s.get_char(i);
        let c2 = s.get_char(i + 1);
        let v1 = match hex_digit(c1) {
            Some(v) => v,
            None => {
                proof {
                    assert(!is_hex_digit(s@[i as int]));
                }
                return None;
            },
        };
        let v2 = match hex_digit(c2) {
            Some(v) => v,
            None => {
                proof {
                    assert(!is_hex_digit(s@[i + 1 as int]));
                }
                return None;
            },
        };
        out.push(v1 * 16 + v2);
        proof {
            lemma_hex_bytes_of_snoc(s@.take(i as int), c1, c2);
            assert(s@.take(i + 2 as int) =~= s@.take(i as int) + seq![c1, c2]);
        }
        i = i + 2;
    }
    proof {
        assert(s@.take(n as int) =~= s@);
    }
    Some(out)
}

/// Encodes bytes as a lowercase hex string of twice their number.
pub fn hex_encode(bytes: &[u8]) -> (r: String)
    ensures
        r@ == hex_of(bytes@),
        r@.len() == 2 * bytes@.len(),
{
    let mut out = String::new();
    let mut i: usize = 0;
    while i < bytes.len()
        invariant
            i <= bytes@.len(),
            out@ == hex_of(bytes@.take(i as int)),
        decreases bytes@.len() - i,
    {
        let b = bytes[i];
        out.append(hex_char_str(b / 16));
        out.append(hex_char_str(b % 16));
        proof {
            lemma_hex_of_snoc(bytes@.take(i as int), b);
            assert(bytes@.take(i + 1 as int) =~= bytes@.take(i as int).push(b));
            assert(out@ =~= hex_of(bytes@.take(i + 1 as int)));
        }
        i = i + 1;
    }
    proof {
        assert(bytes@.take(bytes@.len() as int) =~= bytes@);
        lemma_hex_of_len(bytes@);
    }
    out
}

} // verus!
