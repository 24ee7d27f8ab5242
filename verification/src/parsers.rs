//! The closed set of named decoders that turn raw probe reply bytes into
//! version strings, hardware identifiers and feature lists. Every decoder is
//! selected by name; an unrecognized name decodes to nothing.

use vstd::prelude::*;
use vstd::string::StringExecFns;
use crate::text::{str_eq, spec_dec, spec_hex_fixed, u32_to_dec, push_dec, push_hex_fixed};

verus! {

/// The little-endian 32-bit value at byte offset `i`.
pub open spec fn spec_u32_le_at(b: Seq<u8>, i: int) -> u32 {
    (b[i] as u32) | ((b[i + 1] as u32) << 8) | ((b[i + 2] as u32) << 16) | ((b[i + 3] as u32)
        << 24)
}

/// The big-endian 32-bit value at byte offset `i`.
pub open spec fn spec_u32_be_at(b: Seq<u8>, i: int) -> u32 {
    (b[i + 3] as u32) | ((b[i + 2] as u32) << 8) | ((b[i + 1] as u32) << 16) | ((b[i] as u32)
        << 24)
}

/// Read the little-endian 32-bit value at byte offset `i`.
pub fn read_u32_le(data: &[u8], i: usize) -> (r: u32)
    requires
        i + 4 <= data@.len(),
    ensures
        r == spec_u32_le_at(data@, i as int),
{
    let n = data.len();
    assert(i + 4 <= n);
    (data[i] as u32) | ((data[i + 1] as u32) << 8u32) | ((data[i + 2] as u32) << 16u32) | ((
    data[i + 3] as u32) << 24u32)
}

/// Read the big-endian 32-bit value at byte offset `i`.
pub fn read_u32_be(data: &[u8], i: usize) -> (r: u32)
    requires
        i + 4 <= data@.len(),
    ensures
        r == spec_u32_be_at(data@, i as int),
{
    let n = data.len();
    assert(i + 4 <= n);
    (data[i + 3] as u32) | ((data[i + 2] as u32) << 8u32) | ((data[i + 1] as u32) << 16u32) | ((
    data[i] as u32) << 24u32)
}

/// A "major.minor" version string.
pub open spec fn spec_version_pair(major: nat, minor: nat) -> Seq<char> {
    spec_dec(major) + seq!['.'] + spec_dec(minor)
}

/// What [`parse_version`] returns: the decoder named by `parser` applied to
/// the reply. The return-value decoder splits the raw return value into a
/// high version byte and a low version byte; the two-u32 decoder reads two
/// little-endian words; the u32 decoder reads one. A decoder given too few
/// bytes, or an unknown name, yields nothing.
pub open spec fn spec_parse_version(data: Seq<u8>, parser: Seq<char>, ret_val: i32) -> Option<
    Seq<char>,
> {
    if parser == "parse_version_return_value"@ {
        Some(
            spec_version_pair(
                (((ret_val as u32) >> 8) as u8) as nat,
                (ret_val as u8) as nat,
            ),
        )
    } else if parser == "parse_version_two_u32"@ {
        if data.len() >= 8 {
            Some(
                spec_version_pair(
                    spec_u32_le_at(data, 0) as nat,
                    spec_u32_le_at(data, 4) as nat,
                ),
            )
        } else {
            None
        }
    } else if parser == "parse_version_u32"@ {
        if data.len() >= 4 {
            Some(spec_dec(spec_u32_le_at(data, 0) as nat))
        } else {
            None
        }
    } else {
        None
    }
}

/// Append "major.minor" to a string.
fn push_version_pair(s: &mut String, major: u32, minor: u32)
    ensures
        final(s)@ == old(s)@ + spec_version_pair(major as nat, minor as nat),
{
    push_dec(s, major);
    proof {
        reveal_strlit(".");
        assert("."@ =~= seq!['.']);
    }
    s.append(".");
    push_dec(s, minor);
    proof {
        assert(s@ =~= old(s)@ + spec_version_pair(major as nat, minor as nat));
    }
}

/// Decode a driver version string from a raw reply, using the decoder named
/// by `parser`; `ret_val` is the raw return value of the probe.
pub fn parse_version(data: &[u8], parser: &str, ret_val: i32) -> (r: Option<String>)
    ensures
        (r is Some) == (spec_parse_version(data@, parser@, ret_val) is Some),
        r matches Some(s) ==> spec_parse_version(data@, parser@, ret_val) == Some(s@),
{
    if str_eq(parser, "parse_version_return_value") {
        // Major version in the second-lowest byte of the return value,
        // minor version in the lowest.
        let major: u8 = (((ret_val as u32) >> 8u32) & 0xFF) as u8;
        let minor: u8 = ret_val as u8;
        let mut s = String::new();
        push_version_pair(&mut s, major as u32, minor as u32);
        proof {
            assert(((((ret_val as u32) >> 8) & 0xFF) as u8) == (((ret_val as u32) >> 8) as u8))
                by (bit_vector);
            assert(s@ =~= spec_version_pair(
                (((ret_val as u32) >> 8) as u8) as nat,
                (ret_val as u8) as nat,
            ));
        }
        Some(s)
    } else if str_eq(parser, "parse_version_two_u32") {
        if data.len() >= 8 {
            let major = read_u32_le(data, 0);
            let minor = read_u32_le(data, 4);
            let mut s = String::new();
            push_version_pair(&mut s, major, minor);
            Some(s)
        } else {
            None
        }
    } else if str_eq(parser, "parse_version_u32") {
        if data.len() >= 4 {
            Some(u32_to_dec(read_u32_le(data, 0)))
        } else {
            None
        }
    } else {
        None
    }
}

/// What [`extract_gpu_id`] returns: the 32-bit hardware identifier read from
/// the first four reply bytes, little-endian for the u32 and le decoders,
/// big-endian for the be decoder; nothing on short data or an unknown name.
pub open spec fn spec_extract_gpu_id(data: Seq<u8>, parser: Seq<char>) -> Option<u32> {
    if parser == "parse_gpu_id_u32"@ || parser == "parse_gpu_id_le"@ {
        if data.len() >= 4 {
            Some(spec_u32_le_at(data, 0))
        } else {
            None
        }
    } else if parser == "parse_gpu_id_be"@ {
        if data.len() >= 4 {
            Some(spec_u32_be_at(data, 0))
        } else {
            None
        }
    } else {
        None
    }
}

/// Decode the raw hardware identifier from a reply, using the decoder named
/// by `parser`.
pub fn extract_gpu_id(data: &[u8], parser: &str) -> (r: Option<u32>)
    ensures
        r == spec_extract_gpu_id(data@, parser@),
{
    if str_eq(parser, "parse_gpu_id_u32") || str_eq(parser, "parse_gpu_id_le") {
        if data.len() >= 4 {
            Some(read_u32_le(data, 0))
        } else {
            None
        }
    } else if str_eq(parser, "parse_gpu_id_be") {
        if data.len() >= 4 {
            Some(read_u32_be(data, 0))
        } else {
            None
        }
    } else {
        None
    }
}

/// Whether bit `i` of the mask is set.
pub open spec fn spec_bit_set(bitmask: u32, i: u32) -> bool {
    bitmask & (1u32 << i) != 0
}

/// The name of feature bit `i`: the first three bits have known names, the
/// rest are generic.
pub open spec fn spec_bit_name(i: nat) -> Seq<char> {
    if i == 0 {
        "JOB_CHAINING"@
    } else if i == 1 {
        "TILER"@
    } else if i == 2 {
        "COHERENCY"@
    } else {
        "BIT_"@ + spec_dec(i)
    }
}

/// The names of the set bits below `n`, in ascending bit order.
pub open spec fn spec_features_upto(bitmask: u32, n: nat) -> Seq<Seq<char>>
    decreases n,
{
    if n == 0 {
        Seq::empty()
    } else {
        spec_features_upto(bitmask, (n - 1) as nat) + if spec_bit_set(
            bitmask,
            (n - 1) as u32,
        ) {
            seq![spec_bit_name((n - 1) as nat)]
        } else {
            Seq::empty()
        }
    }
}

/// What [`parse_bitmask_to_features`] returns: one name per set bit.
pub open spec fn spec_bitmask_features(bitmask: u32) -> Seq<Seq<char>> {
    spec_features_upto(bitmask, 32)
}

/// The name of feature bit `i` as a fresh string.
fn bit_name(i: u32) -> (s: String)
    requires
        i < 32,
    ensures
        s@ == spec_bit_name(i as nat),
{
    if i == 0 {
        String::from_str("JOB_CHAINING")
    } else if i == 1 {
        String::from_str("TILER")
    } else if i == 2 {
        String::from_str("COHERENCY")
    } else {
        let mut s = String::from_str("BIT_");
        push_dec(&mut s, i);
        s
    }
}

/// Convert a feature bitmask into named capability strings: each set bit
/// contributes one name, in ascending bit order.
pub fn parse_bitmask_to_features(bitmask: u32) -> (r: Vec<String>)
    ensures
        r.deep_view() == spec_bitmask_features(bitmask),
{
    let mut features: Vec<String> = Vec::new();
    let mut i: u32 = 0;
    while i < 32
        invariant
            i <= 32,
            features.deep_view() == spec_features_upto(bitmask, i as nat),
        decreases 32 - i,
    {
        let ghost prev = features.deep_view();
        if bitmask & (1u32 << i) != 0 {
            features.push(bit_name(i));
        }
        proof {
            assert(features.deep_view() =~~= spec_features_upto(bitmask, (i + 1) as nat));
        }
        i += 1;
    }
    features
}

/// What [`parse_features`] returns: the bitmask decoder names each set bit
/// of the little-endian word in the first four bytes; the hex decoder
/// renders that word as one "0x"-prefixed, eight-digit entry; short data or
/// an unknown name yields no entries.
pub open spec fn spec_parse_features(data: Seq<u8>, parser: Seq<char>) -> Seq<Seq<char>> {
    if parser == "parse_features_bitmask"@ {
        if data.len() >= 4 {
            spec_bitmask_features(spec_u32_le_at(data, 0))
        } else {
            Seq::empty()
        }
    } else if parser == "parse_features_hex"@ {
        if data.len() >= 4 {
            seq!["0x"@ + spec_hex_fixed(spec_u32_le_at(data, 0) as nat, 8)]
        } else {
            Seq::empty()
        }
    } else {
        Seq::empty()
    }
}

/// Decode feature flags from a reply, using the decoder named by `parser`.
pub fn parse_features(data: &[u8], parser: &str) -> (r: Vec<String>)
    ensures
        r.deep_view() == spec_parse_features(data@, parser@),
{
    if str_eq(parser, "parse_features_bitmask") {
        if data.len() >= 4 {
            let word = read_u32_le(data, 0);
            let r = parse_bitmask_to_features(word);
            proof {
                assert(r.deep_view() =~~= spec_parse_features(data@, parser@));
            }
            r
        } else {
            let r: Vec<String> = Vec::new();
            proof {
                assert(r.deep_view() =~~= spec_parse_features(data@, parser@));
            }
            r
        }
    } else if str_eq(parser, "parse_features_hex") {
        if data.len() >= 4 {
            let word = read_u32_le(data, 0);
            let mut s = String::from_str("0x");
            push_hex_fixed(&mut s, word, 8);
            let mut r: Vec<String> = Vec::new();
            r.push(s);
            proof {
                assert(r.deep_view() =~~= spec_parse_features(data@, parser@));
            }
            r
        } else {
            let r: Vec<String> = Vec::new();
            proof {
                assert(r.deep_view() =~~= spec_parse_features(data@, parser@));
            }
            r
        }
    } else {
        let r: Vec<String> = Vec::new();
        proof {
            assert(r.deep_view() =~~= spec_parse_features(data@, parser@));
        }
        r
    }
}

} // verus!
