use vstd::prelude::*;
use vstd::string::StrSliceExecFns;

verus! {

/// Lowercase hexadecimal digit of a value below 16.
pub open spec fn nibble_char(n: u8) -> char {
    if n < 10 {
        (('0' as u8) + n) as char
    } else {
        (('a' as u8) + (n - 10)) as char
    }
}

/// Value of a hexadecimal digit of either case.
pub open spec fn char_nibble(c: char) -> Option<u8> {
    if '0' <= c && c <= '9' {
        Some((c as u8 - '0' as u8) as u8)
    } else if 'a' <= c && c <= 'f' {
        Some((c as u8 - 'a' as u8 + 10) as u8)
    } else if 'A' <= c && c <= 'F' {
        Some((c as u8 - 'A' as u8 + 10) as u8)
    } else {
        None
    }
}

/// Lowercase hexadecimal text of bytes, two digits each, high digit first.
pub open spec fn hex_of(b: Seq<u8>) -> Seq<char> {
    Seq::new(
        2 * b.len(),
        |i: int|
            if i % 2 == 0 {
                nibble_char(b[i / 2] / 16)
            } else {
                nibble_char(b[i / 2] % 16)
            },
    )
}

/// Whether every character of `s` is a hexadecimal digit and there is an even number of them.
pub open spec fn is_hex(s: Seq<char>) -> bool {
    s.len() % 2 == 0 && forall|i: int| 0 <= i < s.len() ==> (#[trigger] char_nibble(s[i])) is Some
}

/// The bytes that hexadecimal text stands for.
pub open spec fn hex_decoded(s: Seq<char>) -> Option<Seq<u8>> {
    if is_hex(s) {
        Some(
            Seq::new(
                s.len() / 2,
                |i: int| (char_nibble(s[2 * i]).unwrap() * 16 + char_nibble(s[2 * i + 1]).unwrap()) as u8,
            ),
        )
    } else {
        None
    }
}

/// Relies on `String::from_utf8`: bytes below 128 are valid UTF-8, one character each.
#[verifier::external_body]
pub fn ascii_string(bytes: Vec<u8>) -> (r: String)
    requires
        forall|i: int| 0 <= i < bytes@.len() ==> bytes@[i] < 128,
    ensures
        r@ == Seq::new(bytes@.len(), |i: int| bytes@[i] as char),
{
    String::from_utf8(bytes).unwrap()
}

fn nibble_byte(n: u8) -> (r: u8)
    requires
        n < 16,
    ensures
        r as char == nibble_char(n),
        r < 128,
{
    if n < 10 {
        48u8 + n
    } else {
        97u8 + (n - 10)
    }
}

/// Appends the lowercase hexadecimal digits of `b` to `out`, as ASCII bytes.
pub fn push_hex(out: &mut Vec<u8>, b: &[u8])
    requires
        forall|i: int| 0 <= i < old(out)@.len() ==> old(out)@[i] < 128,
    ensures
        final(out)@.len() == old(out)@.len() + 2 * b@.len(),
        forall|i: int| 0 <= i < final(out)@.len() ==> final(out)@[i] < 128,
        forall|i: int| 0 <= i < old(out)@.len() ==> final(out)@[i] == old(out)@[i],
        forall|i: int|
            0 <= i < 2 * b@.len() ==> (#[trigger] final(out)@[old(out)@.len() + i]) as char
                == hex_of(b@)[i],
{
    let ghost start = out@;
    let mut k: usize = 0;
    while k < b.len()
        invariant
            k <= b@.len(),
            out@.len() == start.len() + 2 * k,
            forall|i: int| 0 <= i < out@.len() ==> out@[i] < 128,
            forall|i: int| 0 <= i < start.len() ==> out@[i] == start[i],
            forall|i: int| 0 <= i < 2 * k ==> (#[trigger] out@[start.len() + i]) as char == hex_of(b@)[i],
        decreases b@.len() - k,
    {
        let hi = nibble_byte(b[k] / 16);
        let lo = nibble_byte(b[k] % 16);
        out.push(hi);
        out.push(lo);
        proof {
            assert forall|i: int| 0 <= i < 2 * (k + 1) implies (#[trigger] out@[start.len() + i]) as char
                == hex_of(b@)[i] by {
                if i >= 2 * k {
                    assert(i / 2 == k as int);
                }
            }
        }
        k = k + 1;
    }
}

/// Lowercase hexadecimal text of `b`.
pub fn hex_encode(b: &[u8]) -> (r: String)
    ensures
        r@ == hex_of(b@),
{
    let mut out: Vec<u8> = Vec::new();
    push_hex(&mut out, b);
    let ghost v = out@;
    let r = ascii_string(out);
    assert(r@ =~= hex_of(b@)) by {
        assert forall|i: int| 0 <= i < r@.len() implies r@[i] == hex_of(b@)[i] by {
            assert(v[0 + i] as char == hex_of(b@)[i]);
        }
    }
    r
}

fn digit_value(c: char) -> (r: Option<u8>)
    ensures
        r == char_nibble(c),
{
    if '0' <= c && c <= '9' {
        Some((c as u8) - 48u8)
    } else if 'a' <= c && c <= 'f' {
        Some((c as u8) - 97u8 + 10)
    } else if 'A' <= c && c <= 'F' {
        Some((c as u8) - 65u8 + 10)
    } else {
        None
    }
}

/// The bytes that the hexadecimal text `s` stands for, or `None` where it is not such text.
pub fn hex_decode(s: &str) -> (r: Option<Vec<u8>>)
    ensures
        match r {
            Some(v) => hex_decoded(s@) == Some(v@),
            None => hex_decoded(s@) is None,
        },
{
    let len = s.unicode_len();
    if len % 2 != 0 {
        return None;
    }
    let mut out: Vec<u8> = Vec::new();
    let mut k: usize = 0;
    while k < len / 2
        invariant
            len == s@.len(),
            len % 2 == 0,
            k <= len / 2,
            out@.len() == k,
            forall|i: int| 0 <= i < 2 * k ==> (#[trigger] char_nibble(s@[i])) is Some,
            forall|i: int|
                0 <= i < k ==> #[trigger] out@[i] == (char_nibble(s@[2 * i]).unwrap() * 16
                    + char_nibble(s@[2 * i + 1]).unwrap()) as u8,
        decreases len / 2 - k,
    {
        let hi = match digit_value(s.get_char(2 * k)) {
            Some(d) => d,
            None => return None,
        };
        let lo = match digit_value(s.get_char(2 * k + 1)) {
            Some(d) => d,
            None => return None,
        };
        assert(hi < 16 && lo < 16);
        out.push(hi * 16 + lo);
        proof {
            assert forall|i: int| 0 <= i < 2 * (k + 1) implies (#[trigger] char_nibble(s@[i])) is Some by {
                if i == 2 * k {
                } else if i == 2 * k + 1 {
                }
            }
        }
        k = k + 1;
    }
    assert(out@ =~= hex_decoded(s@).unwrap());
    Some(out)
}

/// Decoding the hexadecimal text of bytes gives the bytes back.
pub proof fn lemma_hex_round_trip(b: Seq<u8>)
    ensures
        hex_decoded(hex_of(b)) == Some(b),
{
    let s = hex_of(b);
    assert forall|i: int| 0 <= i < s.len() implies (#[trigger] char_nibble(s[i])) is Some by {
        let n: u8 = if i % 2 == 0 { b[i / 2] / 16 } else { b[i / 2] % 16 };
        assert(n < 16);
    }
    let d = hex_decoded(s).unwrap();
    assert forall|i: int| 0 <= i < b.len() implies d[i] == b[i] by {
        assert((2 * i) / 2 == i);
        assert((2 * i + 1) / 2 == i);
        let x = b[i];
        assert((x / 16) * 16 + x % 16 == x);
    }
    assert(d =~= b);
}

} // verus!
