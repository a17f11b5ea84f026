use vstd::prelude::*;
use vstd::string::StrSliceExecFns;
use crate::bytes::{append_bytes, to_array};
use crate::hex::{ascii_string, hex_decode, hex_decoded, hex_of, lemma_hex_round_trip, push_hex};

verus! {

/// Hyphenated lowercase text of a UUID: 8-4-4-4-12 hexadecimal digits.
pub open spec fn uuid_text(b: Seq<u8>) -> Seq<char> {
    hex_of(b.subrange(0, 4)) + seq!['-'] + hex_of(b.subrange(4, 6)) + seq!['-'] + hex_of(
        b.subrange(6, 8),
    ) + seq!['-'] + hex_of(b.subrange(8, 10)) + seq!['-'] + hex_of(b.subrange(10, 16))
}

/// The 16 bytes that hyphenated UUID text stands for.
pub open spec fn uuid_decoded(s: Seq<char>) -> Option<Seq<u8>> {
    if s.len() == 36 && s[8] == '-' && s[13] == '-' && s[18] == '-' && s[23] == '-' {
        match (
            hex_decoded(s.subrange(0, 8)),
            hex_decoded(s.subrange(9, 13)),
            hex_decoded(s.subrange(14, 18)),
            hex_decoded(s.subrange(19, 23)),
            hex_decoded(s.subrange(24, 36)),
        ) {
            (Some(a), Some(b), Some(c), Some(d), Some(e)) => Some(a + b + c + d + e),
            _ => None,
        }
    } else {
        None
    }
}

/// Hyphenated lowercase text of the UUID `u`.
pub fn uuid_encode(u: &[u8; 16]) -> (r: String)
    ensures
        r@ == uuid_text(u@),
{
    let b = vstd::slice::slice_to_vec(u);
    let mut out: Vec<u8> = Vec::new();
    let first = crate::bytes::copy_range(b.as_slice(), 0, 4);
    let second = crate::bytes::copy_range(b.as_slice(), 4, 6);
    let third = crate::bytes::copy_range(b.as_slice(), 6, 8);
    let fourth = crate::bytes::copy_range(b.as_slice(), 8, 10);
    let fifth = crate::bytes::copy_range(b.as_slice(), 10, 16);
    push_hex(&mut out, first.as_slice());
    let ghost o0 = out@;
    out.push(45u8);
    let ghost o1 = out@;
    push_hex(&mut out, second.as_slice());
    let ghost o2 = out@;
    out.push(45u8);
    let ghost o3 = out@;
    push_hex(&mut out, third.as_slice());
    let ghost o4 = out@;
    out.push(45u8);
    let ghost o5 = out@;
    push_hex(&mut out, fourth.as_slice());
    let ghost o6 = out@;
    out.push(45u8);
    let ghost o7 = out@;
    push_hex(&mut out, fifth.as_slice());
    let ghost v = out@;
    let r = ascii_string(out);
    proof {
        let t = uuid_text(u@);
        assert(t.len() == 36);
        assert forall|i: int| 0 <= i < 36 implies r@[i] == t[i] by {
            if i < 8 {
                assert(v[0 + i] == o0[0 + i]);
            } else if i == 8 {
            } else if i < 13 {
                assert(v[9 + (i - 9)] == o2[9 + (i - 9)]);
            } else if i == 13 {
            } else if i < 18 {
                assert(v[14 + (i - 14)] == o4[14 + (i - 14)]);
            } else if i == 18 {
            } else if i < 23 {
                assert(v[19 + (i - 19)] == o6[19 + (i - 19)]);
            } else if i == 23 {
            } else {
                assert(v[24 + (i - 24)] as char == hex_of(fifth@)[i - 24]);
            }
        }
        assert(r@ =~= t);
    }
    r
}


/// The UUID that hyphenated text stands for, or `None` where it is not such text.
pub fn uuid_decode(s: &str) -> (r: Option<[u8; 16]>)
    ensures
        match r {
            Some(u) => uuid_decoded(s@) == Some(u@),
            None => uuid_decoded(s@) is None,
        },
{
    if s.unicode_len() != 36 {
        return None;
    }
    if s.get_char(8) != '-' || s.get_char(13) != '-' || s.get_char(18) != '-' || s.get_char(23) != '-' {
        return None;
    }
    let a = match hex_decode(s.substring_char(0, 8)) { Some(x) => x, None => return None };
    let b = match hex_decode(s.substring_char(9, 13)) { Some(x) => x, None => return None };
    let c = match hex_decode(s.substring_char(14, 18)) { Some(x) => x, None => return None };
    let d = match hex_decode(s.substring_char(19, 23)) { Some(x) => x, None => return None };
    let e = match hex_decode(s.substring_char(24, 36)) { Some(x) => x, None => return None };
    let mut all = a;
    append_bytes(&mut all, b.as_slice());
    append_bytes(&mut all, c.as_slice());
    append_bytes(&mut all, d.as_slice());
    append_bytes(&mut all, e.as_slice());
    Some(to_array::<16>(&all))
}

/// Decoding the text of a UUID gives the UUID back.
pub proof fn lemma_uuid_round_trip(b: Seq<u8>)
    requires
        b.len() == 16,
    ensures
        uuid_decoded(uuid_text(b)) == Some(b),
{
    let t = uuid_text(b);
    assert(t.subrange(0, 8) =~= hex_of(b.subrange(0, 4)));
    assert(t.subrange(9, 13) =~= hex_of(b.subrange(4, 6)));
    assert(t.subrange(14, 18) =~= hex_of(b.subrange(6, 8)));
    assert(t.subrange(19, 23) =~= hex_of(b.subrange(8, 10)));
    assert(t.subrange(24, 36) =~= hex_of(b.subrange(10, 16)));
    lemma_hex_round_trip(b.subrange(0, 4));
    lemma_hex_round_trip(b.subrange(4, 6));
    lemma_hex_round_trip(b.subrange(6, 8));
    lemma_hex_round_trip(b.subrange(8, 10));
    lemma_hex_round_trip(b.subrange(10, 16));
    assert(b.subrange(0, 4) + b.subrange(4, 6) + b.subrange(6, 8) + b.subrange(8, 10) + b.subrange(10, 16) =~= b);
}

} // verus!
