//! Decoding the fixed-size byte buffer a native text-producing call
//! fills: the bytes before the terminator, read leniently as UTF-8.
//!
//! The native contract is a NUL-terminated byte sequence in a buffer of
//! documented capacity. Decoding never fails: each well-formed scalar
//! encoding becomes its character, and each byte that does not start
//! one becomes the replacement character.

use vstd::prelude::*;
use vstd::utf8::char_u32_cast;
use vstd::utf8::decode_first_scalar;
use vstd::utf8::decode_utf8;
use vstd::utf8::valid_utf8;
use vstd::utf8::is_scalar;
use vstd::utf8::length_of_first_scalar;
use vstd::utf8::pop_first_scalar;
use vstd::utf8::valid_first_scalar;

verus! {

/// The character substituted for a byte that starts no well-formed
/// scalar encoding.
pub open spec fn replacement() -> char {
    '\u{fffd}'
}

/// The bytes before the first NUL, or all of them when no NUL occurs.
pub open spec fn spec_nul_prefix(bytes: Seq<u8>) -> Seq<u8>
    decreases bytes.len(),
{
    if bytes.len() == 0 {
        Seq::empty()
    } else if bytes[0] == 0 {
        Seq::empty()
    } else {
        seq![bytes[0]] + spec_nul_prefix(bytes.skip(1))
    }
}

/// Lenient UTF-8 decoding: each well-formed scalar encoding becomes its
/// character, and each byte that starts no well-formed encoding becomes
/// the replacement character.
pub open spec fn spec_lossy_decode(bytes: Seq<u8>) -> Seq<char>
    decreases bytes.len(),
{
    if bytes.len() == 0 {
        Seq::empty()
    } else if valid_first_scalar(bytes) {
        seq![decode_first_scalar(bytes) as char] + spec_lossy_decode(pop_first_scalar(bytes))
    } else {
        seq![replacement()] + spec_lossy_decode(bytes.skip(1))
    }
}

/// Law: on a well-formed UTF-8 byte sequence the lenient decoding
/// substitutes nothing — it agrees with strict UTF-8 decoding.
pub proof fn lemma_lossy_decode_agrees_on_valid_utf8(bytes: Seq<u8>)
    requires
        valid_utf8(bytes),
    ensures
        spec_lossy_decode(bytes) == decode_utf8(bytes),
    decreases bytes.len(),
{
    if bytes.len() != 0 {
        assert(1 <= length_of_first_scalar(bytes) <= bytes.len());
        lemma_lossy_decode_agrees_on_valid_utf8(pop_first_scalar(bytes));
    }
}

/// Relies on `char::from_u32`: for every value below `0x110000` and
/// outside the surrogate range it yields the character with that code.
#[verifier::external_body]
fn char_from_code(v: u32) -> (c: char)
    requires
        is_scalar(v),
    ensures
        c as u32 == v,
{
    char::from_u32(v).unwrap()
}

/// Relies on `String::push`: appends the given character.
#[verifier::external_body]
fn push_char(s: &mut String, c: char)
    ensures
        final(s)@ == old(s)@ + seq![c],
{
    s.push(c);
}

/// Takes the bytes before the first NUL, or all of them when no NUL
/// occurs.
pub fn nul_prefix(bytes: &Vec<u8>) -> (r: Vec<u8>)
    ensures
        r@ == spec_nul_prefix(bytes@),
{
    let mut r: Vec<u8> = Vec::new();
    let mut i: usize = 0;
    proof {
        assert(bytes@.skip(0) =~= bytes@);
        assert(r@ + spec_nul_prefix(bytes@) =~= spec_nul_prefix(bytes@));
    }
    while i < bytes.len()
        invariant
            i <= bytes@.len(),
            spec_nul_prefix(bytes@) == r@ + spec_nul_prefix(bytes@.skip(i as int)),
            forall|j: int| 0 <= j < i ==> bytes@[j] != 0,
        decreases bytes@.len() - i,
    {
        let b = bytes[i];
        proof {
            assert(bytes@.skip(i as int)[0] == bytes@[i as int]);
        }
        if b == 0 {
            proof {
                assert(spec_nul_prefix(bytes@.skip(i as int)) =~= Seq::<u8>::empty());
                assert(r@ + Seq::<u8>::empty() =~= r@);
            }
            return r;
        }
        r.push(b);
        proof {
            assert(bytes@.skip(i as int).skip(1) =~= bytes@.skip(i as int + 1));
            assert(spec_nul_prefix(bytes@.skip(i as int)) == seq![b]
                + spec_nul_prefix(bytes@.skip(i as int + 1)));
            assert(r@ + spec_nul_prefix(bytes@.skip(i as int + 1)) =~= (r@.drop_last() + seq![b])
                + spec_nul_prefix(bytes@.skip(i as int + 1)));
        }
        i = i + 1;
    }
    proof {
        assert(bytes@.skip(i as int) =~= Seq::<u8>::empty());
        assert(r@ + spec_nul_prefix(Seq::<u8>::empty()) =~= r@);
    }
    r
}

/// Reads the first scalar encoding at position `i`: its width in bytes
/// and its value when one starts there, nothing otherwise.
fn decode_scalar_at(bytes: &Vec<u8>, i: usize) -> (r: Option<(usize, u32)>)
    requires
        i < bytes@.len(),
    ensures
        match r {
            Option::Some(wv) => {
                &&& valid_first_scalar(bytes@.skip(i as int))
                &&& wv.0 == length_of_first_scalar(bytes@.skip(i as int))
                &&& wv.1 == decode_first_scalar(bytes@.skip(i as int))
                &&& 1 <= wv.0 && i + wv.0 <= bytes@.len()
                &&& is_scalar(wv.1)
            },
            Option::None => !valid_first_scalar(bytes@.skip(i as int)),
        },
{
    let ghost suffix = bytes@.skip(i as int);
    let n = bytes.len();
    let b0 = bytes[i];
    proof {
        assert(suffix[0] == bytes@[i as int]);
    }
    if b0 < 0x80 {
        proof {
            assert(b0 & 0x7f == b0) by (bit_vector)
                requires
                    b0 < 0x80,
            ;
        }
        Some((1, b0 as u32))
    } else if 0xc0 <= b0 && b0 <= 0xdf {
        if i + 1 < n {
            let b1 = bytes[i + 1];
            proof {
                assert(suffix[1] == bytes@[i as int + 1]);
            }
            if 0x80 <= b1 && b1 <= 0xbf {
                let v: u32 = (((b0 & 0x1f) as u32) << 6u32) | ((b1 & 0x3f) as u32);
                proof {
                    assert((((b0 & 0x1f) as u32) << 6u32) | ((b1 & 0x3f) as u32) <= 0x7ff)
                        by (bit_vector);
                }
                if v >= 0x80 {
                    Some((2, v))
                } else {
                    None
                }
            } else {
                None
            }
        } else {
            None
        }
    } else if 0xe0 <= b0 && b0 <= 0xef {
        if n - i > 2 {
            let b1 = bytes[i + 1];
            let b2 = bytes[i + 2];
            proof {
                assert(suffix[1] == bytes@[i as int + 1]);
                assert(suffix[2] == bytes@[i as int + 2]);
            }
            if 0x80 <= b1 && b1 <= 0xbf && 0x80 <= b2 && b2 <= 0xbf {
                let v: u32 = (((b0 & 0x0f) as u32) << 12u32) | (((b1 & 0x3f) as u32) << 6u32) | ((
                b2 & 0x3f) as u32);
                proof {
                    assert((((b0 & 0x0f) as u32) << 12u32) | (((b1 & 0x3f) as u32) << 6u32) | ((b2
                        & 0x3f) as u32) <= 0xffff) by (bit_vector);
                }
                if v >= 0x800 && !(0xd800 <= v && v <= 0xdfff) {
                    Some((3, v))
                } else {
                    None
                }
            } else {
                None
            }
        } else {
            None
        }
    } else if 0xf0 <= b0 && b0 <= 0xf7 {
        if n - i > 3 {
            let b1 = bytes[i + 1];
            let b2 = bytes[i + 2];
            let b3 = bytes[i + 3];
            proof {
                assert(suffix[1] == bytes@[i as int + 1]);
                assert(suffix[2] == bytes@[i as int + 2]);
                assert(suffix[3] == bytes@[i as int + 3]);
            }
            if 0x80 <= b1 && b1 <= 0xbf && 0x80 <= b2 && b2 <= 0xbf && 0x80 <= b3 && b3 <= 0xbf {
                let v: u32 = (((b0 & 0x07) as u32) << 18u32) | (((b1 & 0x3f) as u32) << 12u32) | ((
                (b2 & 0x3f) as u32) << 6u32) | ((b3 & 0x3f) as u32);
                if 0x10000 <= v && v <= 0x10ffff {
                    Some((4, v))
                } else {
                    None
                }
            } else {
                None
            }
        } else {
            None
        }
    } else {
        None
    }
}

/// Decodes the bytes leniently as UTF-8; never fails.
pub fn lossy_decode(bytes: &Vec<u8>) -> (r: String)
    ensures
        r@ == spec_lossy_decode(bytes@),
{
    broadcast use char_u32_cast;

    let mut out = String::new();
    let mut i: usize = 0;
    proof {
        assert(bytes@.skip(0) =~= bytes@);
        assert(out@ + spec_lossy_decode(bytes@) =~= spec_lossy_decode(bytes@));
    }
    while i < bytes.len()
        invariant
            i <= bytes@.len(),
            spec_lossy_decode(bytes@) == out@ + spec_lossy_decode(bytes@.skip(i as int)),
        decreases bytes@.len() - i,
    {
        let ghost suffix = bytes@.skip(i as int);
        let ghost before = out@;
        match decode_scalar_at(bytes, i) {
            Option::Some((w, v)) => {
                let c = char_from_code(v);
                push_char(&mut out, c);
                proof {
                    assert(c == decode_first_scalar(suffix) as char);
                    assert(pop_first_scalar(suffix) =~= bytes@.skip(i as int + w as int));
                    assert(spec_lossy_decode(suffix) == seq![c] + spec_lossy_decode(
                        bytes@.skip(i as int + w as int),
                    ));
                    assert(before + spec_lossy_decode(suffix) =~= out@ + spec_lossy_decode(
                        bytes@.skip(i as int + w as int),
                    ));
                }
                i = i + w;
            },
            Option::None => {
                push_char(&mut out, '\u{fffd}');
                proof {
                    assert(suffix.skip(1) =~= bytes@.skip(i as int + 1));
                    assert(spec_lossy_decode(suffix) == seq![replacement()] + spec_lossy_decode(
                        bytes@.skip(i as int + 1),
                    ));
                    assert(before + spec_lossy_decode(suffix) =~= out@ + spec_lossy_decode(
                        bytes@.skip(i as int + 1),
                    ));
                }
                i = i + 1;
            },
        }
    }
    proof {
        assert(bytes@.skip(i as int) =~= Seq::<u8>::empty());
        assert(out@ + spec_lossy_decode(Seq::<u8>::empty()) =~= out@);
    }
    out
}

} // verus!
