//! Decoding of native byte strings.
//!
//! The vendor side reports names as NUL-terminated byte strings.  This
//! module gives the exact specification of that decoding — the prefix up
//! to the first NUL, read as UTF-8 — and a verified decoder for it.
//! Decoding failures are tolerated by the callers: a malformed byte string
//! degrades to the empty string rather than failing the call that fetched
//! it.

use vstd::prelude::*;

verus! {

/// `b` is a UTF-8 continuation byte.
pub open spec fn is_cont(b: u8) -> bool {
    b & 0xC0 == 0x80
}

/// The second byte admissible after leading byte `b0` of a three-byte
/// sequence (ruling out overlong forms and surrogate code points).
pub open spec fn tail3_ok(b0: u8, b1: u8) -> bool {
    if b0 == 0xE0 {
        0xA0 <= b1 && b1 <= 0xBF
    } else if b0 == 0xED {
        0x80 <= b1 && b1 <= 0x9F
    } else {
        is_cont(b1)
    }
}

/// The second byte admissible after leading byte `b0` of a four-byte
/// sequence (ruling out overlong forms and code points past the last
/// plane).
pub open spec fn tail4_ok(b0: u8, b1: u8) -> bool {
    if b0 == 0xF0 {
        0x90 <= b1 && b1 <= 0xBF
    } else if b0 == 0xF4 {
        0x80 <= b1 && b1 <= 0x8F
    } else {
        is_cont(b1)
    }
}

/// The code point of a two-byte sequence.
pub open spec fn cp2(b0: u8, b1: u8) -> u32 {
    (((b0 & 0x1F) as u32) << 6) | ((b1 & 0x3F) as u32)
}

/// The code point of a three-byte sequence.
pub open spec fn cp3(b0: u8, b1: u8, b2: u8) -> u32 {
    (((b0 & 0x0F) as u32) << 12) | (((b1 & 0x3F) as u32) << 6) | ((b2 & 0x3F) as u32)
}

/// The code point of a four-byte sequence.
pub open spec fn cp4(b0: u8, b1: u8, b2: u8, b3: u8) -> u32 {
    (((b0 & 0x07) as u32) << 18) | (((b1 & 0x3F) as u32) << 12) | (((b2 & 0x3F) as u32) << 6) | ((
    b3 & 0x3F) as u32)
}

/// One UTF-8 scalar decoded at position `i` of `s`: its code point and
/// its encoded length, or `None` where no well-formed scalar starts
/// there.
pub open spec fn decode_one_at(s: Seq<u8>, i: int) -> Option<(u32, int)> {
    if i < 0 || i >= s.len() {
        None
    } else {
        let b0 = s[i];
        if b0 < 0x80 {
            Some((b0 as u32, 1))
        } else if 0xC2 <= b0 && b0 <= 0xDF {
            if i + 2 <= s.len() && is_cont(s[i + 1]) {
                Some((cp2(b0, s[i + 1]), 2))
            } else {
                None
            }
        } else if 0xE0 <= b0 && b0 <= 0xEF {
            if i + 3 <= s.len() && tail3_ok(b0, s[i + 1]) && is_cont(s[i + 2]) {
                Some((cp3(b0, s[i + 1], s[i + 2]), 3))
            } else {
                None
            }
        } else if 0xF0 <= b0 && b0 <= 0xF4 {
            if i + 4 <= s.len() && tail4_ok(b0, s[i + 1]) && is_cont(s[i + 2]) && is_cont(
                s[i + 3],
            ) {
                Some((cp4(b0, s[i + 1], s[i + 2], s[i + 3]), 4))
            } else {
                None
            }
        } else {
            None
        }
    }
}

/// The code points encoded from position `i` of `s` to its end, or `None`
/// where the remainder is not well-formed UTF-8.
pub open spec fn decode_from(s: Seq<u8>, i: int) -> Option<Seq<u32>>
    decreases s.len() - i,
{
    if i >= s.len() {
        Some(Seq::empty())
    } else {
        match decode_one_at(s, i) {
            None => None,
            Some((cp, n)) => match decode_from(s, i + n) {
                None => None,
                Some(rest) => Some(seq![cp] + rest),
            },
        }
    }
}

/// The code points of `s` read as UTF-8, or `None` where `s` is not
/// well-formed.
pub open spec fn decode_utf8(s: Seq<u8>) -> Option<Seq<u32>> {
    decode_from(s, 0)
}

/// The code points of a character sequence.
pub open spec fn code_points_of(cs: Seq<char>) -> Seq<u32> {
    cs.map_values(|c: char| c as u32)
}

/// Decoding has consumed `s` up to `i` into `acc`: however the remainder
/// decodes, the whole decodes accordingly.
pub open spec fn decode_continues(s: Seq<u8>, i: int, acc: Seq<char>) -> bool {
    decode_utf8(s) == match decode_from(s, i) {
        None => None::<Seq<u32>>,
        Some(rest) => Some(code_points_of(acc) + rest),
    }
}

/// Consuming the scalar at `i` into the accumulator keeps the decoding
/// relation.
proof fn lemma_decode_step(s: Seq<u8>, i: int, acc: Seq<char>, c: char, n: int)
    requires
        0 <= i < s.len(),
        decode_continues(s, i, acc),
        decode_one_at(s, i) == Some(((c as u32), n)),
    ensures
        decode_continues(s, i + n, acc.push(c)),
{
    match decode_from(s, i + n) {
        None => {
            assert(decode_from(s, i) is None);
        },
        Some(rest) => {
            assert(decode_from(s, i) == Some(seq![c as u32] + rest));
            assert(code_points_of(acc) + (seq![c as u32] + rest) =~= code_points_of(acc.push(c))
                + rest);
        },
    }
}

/// A malformed scalar at `i` makes the whole byte string malformed.
proof fn lemma_decode_fails(s: Seq<u8>, i: int, acc: Seq<char>)
    requires
        0 <= i < s.len(),
        decode_continues(s, i, acc),
        decode_one_at(s, i) is None,
    ensures
        decode_utf8(s) is None,
{
    assert(decode_from(s, i) is None);
}

/// Consuming the whole byte string decodes it to the accumulator.
proof fn lemma_decode_complete(s: Seq<u8>, acc: Seq<char>)
    requires
        decode_continues(s, s.len() as int, acc),
    ensures
        decode_utf8(s) == Some(code_points_of(acc)),
{
    assert(decode_from(s, s.len() as int) == Some(Seq::<u32>::empty()));
    assert(code_points_of(acc) + Seq::<u32>::empty() =~= code_points_of(acc));
}

/// Relies on char::from_u32: it returns `Some` exactly on Unicode scalar
/// values — code points below the surrogate range or between its end and
/// the last plane — and the character returned has exactly that code.
#[verifier::external_body]
fn char_from_code(v: u32) -> (r: Option<char>)
    ensures
        r matches Some(c) ==> c as u32 == v,
        (r is Some) <==> (v < 0xD800 || (0xE000 <= v && v < 0x110000)),
{
    char::from_u32(v)
}

/// Relies on String::push: it appends exactly the given character.
#[verifier::external_body]
fn push_char(s: &mut String, c: char)
    ensures
        final(s)@ == old(s)@.push(c),
{
    s.push(c);
}

/// Decodes `bytes` as UTF-8: exactly the string whose code points
/// `decode_utf8` gives, or `None` exactly where the bytes are malformed.
pub fn utf8_to_string(bytes: &[u8]) -> (r: Option<String>)
    ensures
        match decode_utf8(bytes@) {
            Some(cps) => r matches Some(s) && code_points_of(s@) == cps,
            None => r is None,
        },
{
    let mut out = String::new();
    let mut i: usize = 0;
    proof {
        assert(code_points_of(out@) =~= Seq::<u32>::empty());
        match decode_from(bytes@, 0) {
            None => {},
            Some(rest) => {
                assert(code_points_of(out@) + rest =~= rest);
            },
        }
    }
    while i < bytes.len()
        invariant
            i <= bytes@.len(),
            decode_continues(bytes@, i as int, out@),
        decreases bytes@.len() - i,
    {
        let b0 = bytes[i];
        if b0 < 0x80 {
            proof {
                assert((b0 as u32) < 0xD800) by (bit_vector)
                    requires
                        b0 < 0x80,
                ;
            }
            let c = match char_from_code(b0 as u32) {
                Some(c) => c,
                None => {
                    proof {
                        assert(false);
                    }
                    return None;
                },
            };
            let ghost out0 = out@;
            push_char(&mut out, c);
            proof {
                lemma_decode_step(bytes@, i as int, out0, c, 1);
            }
            i = i + 1;
        } else if 0xC2 <= b0 && b0 <= 0xDF {
            if !(bytes.len() - i >= 2 && bytes[i + 1] & 0xC0 == 0x80) {
                proof {
                    lemma_decode_fails(bytes@, i as int, out@);
                }
                return None;
            }
            let b1 = bytes[i + 1];
            let v: u32 = (((b0 & 0x1F) as u32) << 6) | ((b1 & 0x3F) as u32);
            proof {
                assert((((b0 & 0x1F) as u32) << 6) | ((b1 & 0x3F) as u32) < 0xD800)
                    by (bit_vector);
            }
            let c = match char_from_code(v) {
                Some(c) => c,
                None => {
                    proof {
                        assert(false);
                    }
                    return None;
                },
            };
            let ghost out0 = out@;
            push_char(&mut out, c);
            proof {
                lemma_decode_step(bytes@, i as int, out0, c, 2);
            }
            i = i + 2;
        } else if 0xE0 <= b0 && b0 <= 0xEF {
            let long_enough = bytes.len() - i >= 3;
            let b1_ok = long_enough && (if b0 == 0xE0 {
                0xA0 <= bytes[i + 1] && bytes[i + 1] <= 0xBF
            } else if b0 == 0xED {
                0x80 <= bytes[i + 1] && bytes[i + 1] <= 0x9F
            } else {
                bytes[i + 1] & 0xC0 == 0x80
            });
            if !(b1_ok && bytes[i + 2] & 0xC0 == 0x80) {
                proof {
                    lemma_decode_fails(bytes@, i as int, out@);
                }
                return None;
            }
            let b1 = bytes[i + 1];
            let b2 = bytes[i + 2];
            let v: u32 = (((b0 & 0x0F) as u32) << 12) | (((b1 & 0x3F) as u32) << 6) | ((b2
                & 0x3F) as u32);
            proof {
                assert({
                    let w = (((b0 & 0x0F) as u32) << 12) | (((b1 & 0x3F) as u32) << 6) | ((b2
                        & 0x3F) as u32);
                    w < 0xD800 || (0xE000 <= w && w < 0x110000)
                }) by (bit_vector)
                    requires
                        0xE0 <= b0 && b0 <= 0xEF,
                        b0 == 0xE0 ==> 0xA0 <= b1 && b1 <= 0xBF,
                        b0 == 0xED ==> 0x80 <= b1 && b1 <= 0x9F,
                ;
            }
            let c = match char_from_code(v) {
                Some(c) => c,
                None => {
                    proof {
                        assert(false);
                    }
                    return None;
                },
            };
            let ghost out0 = out@;
            push_char(&mut out, c);
            proof {
                lemma_decode_step(bytes@, i as int, out0, c, 3);
            }
            i = i + 3;
        } else if 0xF0 <= b0 && b0 <= 0xF4 {
            let long_enough = bytes.len() - i >= 4;
            let b1_ok = long_enough && (if b0 == 0xF0 {
                0x90 <= bytes[i + 1] && bytes[i + 1] <= 0xBF
            } else if b0 == 0xF4 {
                0x80 <= bytes[i + 1] && bytes[i + 1] <= 0x8F
            } else {
                bytes[i + 1] & 0xC0 == 0x80
            });
            if !(b1_ok && bytes[i + 2] & 0xC0 == 0x80 && bytes[i + 3] & 0xC0 == 0x80) {
                proof {
                    lemma_decode_fails(bytes@, i as int, out@);
                }
                return None;
            }
            let b1 = bytes[i + 1];
            let b2 = bytes[i + 2];
            let b3 = bytes[i + 3];
            let v: u32 = (((b0 & 0x07) as u32) << 18) | (((b1 & 0x3F) as u32) << 12) | (((b2
                & 0x3F) as u32) << 6) | ((b3 & 0x3F) as u32);
            proof {
                assert({
                    let w = (((b0 & 0x07) as u32) << 18) | (((b1 & 0x3F) as u32) << 12) | (((b2
                        & 0x3F) as u32) << 6) | ((b3 & 0x3F) as u32);
                    0xE000 <= w && w < 0x110000
                }) by (bit_vector)
                    requires
                        0xF0 <= b0 && b0 <= 0xF4,
                        b0 == 0xF0 ==> 0x90 <= b1 && b1 <= 0xBF,
                        b0 == 0xF4 ==> 0x80 <= b1 && b1 <= 0x8F,
                ;
            }
            let c = match char_from_code(v) {
                Some(c) => c,
                None => {
                    proof {
                        assert(false);
                    }
                    return None;
                },
            };
            let ghost out0 = out@;
            push_char(&mut out, c);
            proof {
                lemma_decode_step(bytes@, i as int, out0, c, 4);
            }
            i = i + 4;
        } else {
            proof {
                lemma_decode_fails(bytes@, i as int, out@);
            }
            return None;
        }
    }
    proof {
        lemma_decode_complete(bytes@, out@);
    }
    Some(out)
}

/// The position of the first NUL byte at or after `i`, or the length
/// where there is none.
pub open spec fn nul_position(s: Seq<u8>, i: int) -> int
    decreases s.len() - i,
{
    if i < 0 || i >= s.len() {
        s.len() as int
    } else if s[i] == 0 {
        i
    } else {
        nul_position(s, i + 1)
    }
}

/// The bytes before the first NUL: what a native C string holds.
pub open spec fn cstr_prefix(s: Seq<u8>) -> Seq<u8> {
    s.take(nul_position(s, 0))
}

/// The prefix of `bytes` before the first NUL, as an owned copy.
pub fn c_string_prefix(bytes: &[u8]) -> (r: Vec<u8>)
    ensures
        r@ == cstr_prefix(bytes@),
{
    let mut out: Vec<u8> = Vec::new();
    let mut i: usize = 0;
    while i < bytes.len()
        invariant
            i <= bytes@.len(),
            nul_position(bytes@, 0) == nul_position(bytes@, i as int),
            out@ == bytes@.take(i as int),
            forall|k: int| 0 <= k < i ==> bytes@[k] != 0,
        decreases bytes@.len() - i,
    {
        let b = bytes[i];
        if b == 0 {
            proof {
                assert(nul_position(bytes@, i as int) == i);
            }
            return out;
        }
        out.push(b);
        proof {
            assert(out@ =~= bytes@.take((i + 1) as int));
        }
        i = i + 1;
    }
    proof {
        assert(nul_position(bytes@, bytes@.len() as int) == bytes@.len());
        assert(out@ =~= bytes@.take(nul_position(bytes@, 0)));
    }
    out
}

/// `text` is what a native byte string decodes to: the prefix before the
/// first NUL read as UTF-8, or the empty string where that prefix is
/// malformed.
pub open spec fn text_of(text: Seq<char>, raw: Seq<u8>) -> bool {
    match decode_utf8(cstr_prefix(raw)) {
        Some(cps) => code_points_of(text) == cps,
        None => text == Seq::<char>::empty(),
    }
}

/// Decodes a native byte string: the prefix before the first NUL read as
/// UTF-8, degrading to the empty string where that prefix is malformed.
pub fn decode_c_string(bytes: &[u8]) -> (r: String)
    ensures
        text_of(r@, bytes@),
{
    let prefix = c_string_prefix(bytes);
    match utf8_to_string(prefix.as_slice()) {
        Some(s) => s,
        None => {
            let empty = String::new();
            empty
        },
    }
}

} // verus!
