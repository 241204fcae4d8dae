//! Lossy UTF-16 decoding for string descriptors: unpaired surrogates are
//! replaced with U+FFFD, as `String::from_utf16_lossy` does.

use vstd::prelude::*;
use vstd::pervasive::unreached;

verus! {

/// The replacement character's scalar value.
pub const REPLACEMENT_SCALAR: u32 = 0xFFFD;

pub open spec fn is_high_surrogate(u: u16) -> bool {
    0xD800 <= u && u <= 0xDBFF
}

pub open spec fn is_low_surrogate(u: u16) -> bool {
    0xDC00 <= u && u <= 0xDFFF
}

/// The scalar value a surrogate pair encodes.
pub open spec fn combine_surrogates(hi: u16, lo: u16) -> u32
    recommends
        is_high_surrogate(hi),
        is_low_surrogate(lo),
{
    (0x10000 + (hi - 0xD800) * 0x400 + (lo - 0xDC00)) as u32
}

/// The sequence of scalar values a sequence of UTF-16 code units decodes
/// to: a high surrogate followed by a low surrogate yields their combined
/// value, an unpaired surrogate yields U+FFFD, and any other unit yields
/// itself.
pub open spec fn utf16_scalars(units: Seq<u16>) -> Seq<u32>
    decreases units.len(),
{
    if units.len() == 0 {
        Seq::empty()
    } else if is_high_surrogate(units[0]) && units.len() >= 2 && is_low_surrogate(units[1]) {
        seq![combine_surrogates(units[0], units[1])] + utf16_scalars(units.skip(2))
    } else if is_high_surrogate(units[0]) || is_low_surrogate(units[0]) {
        seq![REPLACEMENT_SCALAR as u32] + utf16_scalars(units.skip(1))
    } else {
        seq![units[0] as u32] + utf16_scalars(units.skip(1))
    }
}

/// Relies on `char::from_u32`: it returns `Some` exactly for Unicode
/// scalar values (below the surrogate range, or above it and at most
/// 0x10FFFF), and the character then has the given value.
#[verifier::external_body]
fn char_from_u32(v: u32) -> (r: Option<char>)
    ensures
        r is Some <==> (v < 0xD800 || (0xE000 <= v && v <= 0x10FFFF)),
        r matches Some(c) ==> c as u32 == v,
{
    char::from_u32(v)
}

/// Relies on `String`'s `FromIterator` over `char`: collecting yields the
/// string of exactly the given characters, in order.
#[verifier::external_body]
pub fn chars_to_string(v: &Vec<char>) -> (r: String)
    ensures
        r@ == v@,
{
    v.iter().collect()
}

/// Decode UTF-16 code units to characters, replacing unpaired surrogates
/// with U+FFFD.
pub fn decode_utf16_lossy(units: &Vec<u16>) -> (r: Vec<char>)
    ensures
        r@.map_values(|c: char| c as u32) == utf16_scalars(units@),
{
    let mut out: Vec<char> = Vec::new();
    let mut i: usize = 0;
    proof {
        assert(units@.skip(0) =~= units@);
        assert(out@.map_values(|c: char| c as u32) + utf16_scalars(units@) =~= utf16_scalars(
            units@,
        ));
    }
    while i < units.len()
        invariant
            i <= units@.len(),
            utf16_scalars(units@) == out@.map_values(|c: char| c as u32) + utf16_scalars(
                units@.skip(i as int),
            ),
        decreases units@.len() - i,
    {
        let ghost prev = out@;
        let ghost rem = units@.skip(i as int);
        let u = units[i];
        let scalar: u32;
        if u >= 0xD800 && u <= 0xDBFF && i + 1 < units.len() && units[i + 1] >= 0xDC00 && units[i
            + 1] <= 0xDFFF {
            let lo = units[i + 1];
            scalar = 0x10000 + (u as u32 - 0xD800) * 0x400 + (lo as u32 - 0xDC00);
            proof {
                assert(rem.skip(2) =~= units@.skip(i as int + 2));
            }
            i += 2;
        } else if u >= 0xD800 && u <= 0xDFFF {
            scalar = REPLACEMENT_SCALAR;
            proof {
                assert(rem.skip(1) =~= units@.skip(i as int + 1));
            }
            i += 1;
        } else {
            scalar = u as u32;
            proof {
                assert(rem.skip(1) =~= units@.skip(i as int + 1));
            }
            i += 1;
        }
        let c = match char_from_u32(scalar) {
            Some(c) => c,
            None => unreached(),
        };
        out.push(c);
        proof {
            assert(out@.map_values(|c: char| c as u32) =~= prev.map_values(|c: char| c as u32)
                + seq![scalar]);
        }
    }
    proof {
        assert(utf16_scalars(units@.skip(i as int)) =~= Seq::<u32>::empty());
        assert(out@.map_values(|c: char| c as u32) =~= utf16_scalars(units@));
    }
    out
}

} // verus!
