//! Byte-level scanning of JSON text.
//!
//! The wire protocol carries JSON in UTF-8 bytes. This module validates and
//! scans that text directly on the byte level: token scanners return the
//! position one past the token, or `None` when the text is not well formed.
//! Each executable scanner is proved equal to a specification function of the
//! same shape, so everything later layers state about decoded messages is
//! grounded in these definitions.

use vstd::prelude::*;

verus! {

/// Nesting depth accepted for arrays and objects; deeper documents are
/// rejected so that scanning runs in bounded stack space.
pub const MAX_DEPTH: usize = 128;

/// JSON insignificant whitespace: space, tab, line feed, carriage return.
pub open spec fn is_ws(b: u8) -> bool {
    b == 32 || b == 9 || b == 10 || b == 13
}

pub open spec fn is_digit(b: u8) -> bool {
    48 <= b <= 57
}

/// First position at or after `pos` holding a non-whitespace byte (or the end).
pub open spec fn spec_skip_ws(s: Seq<u8>, pos: int) -> int
    decreases s.len() - pos,
    when 0 <= pos <= s.len()
{
    if pos < s.len() && is_ws(s[pos]) {
        spec_skip_ws(s, pos + 1)
    } else {
        pos
    }
}

/// First position at or after `pos` holding a non-digit byte (or the end).
pub open spec fn spec_digits_end(s: Seq<u8>, pos: int) -> int
    decreases s.len() - pos,
    when 0 <= pos <= s.len()
{
    if pos < s.len() && is_digit(s[pos]) {
        spec_digits_end(s, pos + 1)
    } else {
        pos
    }
}

/// End of a JSON number token starting at `pos`, or `None` if no well-formed
/// number starts there.
pub open spec fn spec_scan_num(s: Seq<u8>, pos: int) -> Option<int> {
    if !(0 <= pos < s.len()) {
        None
    } else {
        let p1 = if s[pos] == 45 { pos + 1 } else { pos };
        if !(p1 < s.len() && is_digit(s[p1])) {
            None
        } else {
            let int_end = if s[p1] == 48 { p1 + 1 } else { spec_digits_end(s, p1) };
            if int_end < s.len() && s[int_end] == 46 {
                if int_end + 1 < s.len() && is_digit(s[int_end + 1]) {
                    spec_scan_exp(s, spec_digits_end(s, int_end + 1))
                } else {
                    None
                }
            } else {
                spec_scan_exp(s, int_end)
            }
        }
    }
}

/// End of the optional exponent part beginning at `pos` (which must be within
/// the text); `pos` itself when no exponent follows.
pub open spec fn spec_scan_exp(s: Seq<u8>, pos: int) -> Option<int> {
    if !(0 <= pos <= s.len()) {
        None
    } else if pos < s.len() && (s[pos] == 101 || s[pos] == 69) {
        let p1 = if pos + 1 < s.len() && (s[pos + 1] == 43 || s[pos + 1] == 45) {
            pos + 2
        } else {
            pos + 1
        };
        if p1 < s.len() && is_digit(s[p1]) {
            Some(spec_digits_end(s, p1))
        } else {
            None
        }
    } else {
        Some(pos)
    }
}

/// Numeric value of the decimal digit run `s[pos..end]`.
pub open spec fn spec_digits_val(s: Seq<u8>, pos: int, end: int) -> int
    decreases end - pos,
    when 0 <= pos <= end <= s.len()
{
    if pos >= end {
        0
    } else {
        spec_digits_val(s, pos, end - 1) * 10 + (s[end - 1] - 48)
    }
}

pub proof fn lemma_digits_end_bounds(s: Seq<u8>, pos: int)
    requires
        0 <= pos <= s.len(),
    ensures
        pos <= spec_digits_end(s, pos) <= s.len(),
    decreases s.len() - pos,
{
    if pos < s.len() && is_digit(s[pos]) {
        lemma_digits_end_bounds(s, pos + 1);
    }
}

/// Relates an executable scan result to its specification twin.
pub open spec fn opt_end_eq(r: Option<usize>, m: Option<int>) -> bool {
    match r {
        Some(u) => m == Some(u as int),
        None => m is None,
    }
}

/// Value of one hexadecimal digit byte.
pub open spec fn hex_val(b: u8) -> Option<int> {
    if 48 <= b <= 57 {
        Some((b - 48) as int)
    } else if 97 <= b <= 102 {
        Some((b - 87) as int)
    } else if 65 <= b <= 70 {
        Some((b - 55) as int)
    } else {
        None
    }
}

/// Value of the four hexadecimal digits at `pos`, as in a `\u` escape.
pub open spec fn spec_hex4(s: Seq<u8>, pos: int) -> Option<int> {
    if !(0 <= pos && pos + 4 <= s.len()) {
        None
    } else {
        if hex_val(s[pos]) is Some && hex_val(s[pos + 1]) is Some && hex_val(s[pos + 2]) is Some
            && hex_val(s[pos + 3]) is Some {
            Some(
                hex_val(s[pos]).unwrap() * 4096 + hex_val(s[pos + 1]).unwrap() * 256 + hex_val(
                    s[pos + 2],
                ).unwrap() * 16 + hex_val(s[pos + 3]).unwrap(),
            )
        } else {
            None
        }
    }
}

/// The byte denoted by a single-character escape, for the eight accepted ones.
pub open spec fn esc_byte(e: u8) -> Option<u8> {
    if e == 34 {
        Some(34u8)
    } else if e == 92 {
        Some(92u8)
    } else if e == 47 {
        Some(47u8)
    } else if e == 98 {
        Some(8u8)
    } else if e == 102 {
        Some(12u8)
    } else if e == 110 {
        Some(10u8)
    } else if e == 114 {
        Some(13u8)
    } else if e == 116 {
        Some(9u8)
    } else {
        None
    }
}

/// A UTF-8 continuation byte.
pub open spec fn is_cont(b: u8) -> bool {
    128 <= b < 192
}

/// UTF-8 encoding of the scalar value `cp`.
pub open spec fn utf8_enc(cp: int) -> Seq<u8> {
    if cp < 0x80 {
        seq![cp as u8]
    } else if cp < 0x800 {
        seq![(192 + cp / 64) as u8, (128 + cp % 64) as u8]
    } else if cp < 0x10000 {
        seq![(224 + cp / 4096) as u8, (128 + (cp / 64) % 64) as u8, (128 + cp % 64) as u8]
    } else {
        seq![
            (240 + cp / 262144) as u8,
            (128 + (cp / 4096) % 64) as u8,
            (128 + (cp / 64) % 64) as u8,
            (128 + cp % 64) as u8,
        ]
    }
}

/// Scans the body of a string token. `pos` stands just after the opening
/// quote; the result is one past the closing quote. The body must be valid
/// UTF-8, hold no raw control byte, and use only well-formed escapes, with
/// surrogate halves paired — the rules JSON text is held to here.
pub open spec fn spec_scan_str(s: Seq<u8>, pos: int) -> Option<int>
    decreases s.len() - pos,
    when 0 <= pos <= s.len()
{
    if pos >= s.len() {
        None
    } else {
        let b = s[pos];
        if b == 34 {
            Some(pos + 1)
        } else if b == 92 {
            if pos + 1 >= s.len() {
                None
            } else {
                let e = s[pos + 1];
                if esc_byte(e) is Some {
                    spec_scan_str(s, pos + 2)
                } else if e == 117 {
                    match spec_hex4(s, pos + 2) {
                        None => None,
                        Some(h) => if 0xD800 <= h < 0xDC00 {
                            if pos + 12 <= s.len() && s[pos + 6] == 92 && s[pos + 7] == 117 {
                                match spec_hex4(s, pos + 8) {
                                    None => None,
                                    Some(l) => if 0xDC00 <= l < 0xE000 {
                                        spec_scan_str(s, pos + 12)
                                    } else {
                                        None
                                    },
                                }
                            } else {
                                None
                            }
                        } else if 0xDC00 <= h < 0xE000 {
                            None
                        } else {
                            spec_scan_str(s, pos + 6)
                        },
                    }
                } else {
                    None
                }
            }
        } else if b < 32 {
            None
        } else if b < 128 {
            spec_scan_str(s, pos + 1)
        } else if 194 <= b <= 223 {
            if pos + 2 <= s.len() && is_cont(s[pos + 1]) {
                spec_scan_str(s, pos + 2)
            } else {
                None
            }
        } else if b == 224 {
            if pos + 3 <= s.len() && 160 <= s[pos + 1] < 192 && is_cont(s[pos + 2]) {
                spec_scan_str(s, pos + 3)
            } else {
                None
            }
        } else if 225 <= b <= 236 || b == 238 || b == 239 {
            if pos + 3 <= s.len() && is_cont(s[pos + 1]) && is_cont(s[pos + 2]) {
                spec_scan_str(s, pos + 3)
            } else {
                None
            }
        } else if b == 237 {
            if pos + 3 <= s.len() && 128 <= s[pos + 1] < 160 && is_cont(s[pos + 2]) {
                spec_scan_str(s, pos + 3)
            } else {
                None
            }
        } else if b == 240 {
            if pos + 4 <= s.len() && 144 <= s[pos + 1] < 192 && is_cont(s[pos + 2]) && is_cont(
                s[pos + 3],
            ) {
                spec_scan_str(s, pos + 4)
            } else {
                None
            }
        } else if 241 <= b <= 243 {
            if pos + 4 <= s.len() && is_cont(s[pos + 1]) && is_cont(s[pos + 2]) && is_cont(
                s[pos + 3],
            ) {
                spec_scan_str(s, pos + 4)
            } else {
                None
            }
        } else if b == 244 {
            if pos + 4 <= s.len() && 128 <= s[pos + 1] < 144 && is_cont(s[pos + 2]) && is_cont(
                s[pos + 3],
            ) {
                spec_scan_str(s, pos + 4)
            } else {
                None
            }
        } else {
            None
        }
    }
}

/// The text a string token body denotes: raw bytes are copied and escapes are
/// replaced by the bytes they stand for. Meaningful only where
/// `spec_scan_str` accepts; on malformed bodies it stops early.
pub open spec fn spec_unescape_str(s: Seq<u8>, pos: int) -> Seq<u8>
    decreases s.len() - pos,
    when 0 <= pos <= s.len()
{
    if pos >= s.len() {
        Seq::empty()
    } else {
        let b = s[pos];
        if b == 34 {
            Seq::empty()
        } else if b == 92 {
            if pos + 1 >= s.len() {
                Seq::empty()
            } else {
                let e = s[pos + 1];
                if esc_byte(e) is Some {
                    seq![esc_byte(e).unwrap()] + spec_unescape_str(s, pos + 2)
                } else if e == 117 {
                    match spec_hex4(s, pos + 2) {
                        None => Seq::empty(),
                        Some(h) => if 0xD800 <= h < 0xDC00 {
                            if pos + 12 <= s.len() && s[pos + 6] == 92 && s[pos + 7] == 117 {
                                match spec_hex4(s, pos + 8) {
                                    None => Seq::empty(),
                                    Some(l) => if 0xDC00 <= l < 0xE000 {
                                        utf8_enc(0x10000 + (h - 0xD800) * 1024 + (l - 0xDC00))
                                            + spec_unescape_str(s, pos + 12)
                                    } else {
                                        Seq::empty()
                                    },
                                }
                            } else {
                                Seq::empty()
                            }
                        } else if 0xDC00 <= h < 0xE000 {
                            Seq::empty()
                        } else {
                            utf8_enc(h) + spec_unescape_str(s, pos + 6)
                        },
                    }
                } else {
                    Seq::empty()
                }
            }
        } else {
            seq![b] + spec_unescape_str(s, pos + 1)
        }
    }
}

pub fn skip_ws(s: &[u8], pos: usize) -> (r: usize)
    requires
        pos <= s@.len(),
    ensures
        r == spec_skip_ws(s@, pos as int),
        pos <= r <= s@.len(),
{
    let mut cur = pos;
    loop
        invariant
            pos <= cur <= s@.len(),
            spec_skip_ws(s@, pos as int) == spec_skip_ws(s@, cur as int),
        decreases s@.len() - cur,
    {
        if cur < s.len() {
            let b = s[cur];
            if b == 32 || b == 9 || b == 10 || b == 13 {
                cur = cur + 1;
                continue;
            }
        }
        return cur;
    }
}

pub fn digits_end(s: &[u8], pos: usize) -> (r: usize)
    requires
        pos <= s@.len(),
    ensures
        r == spec_digits_end(s@, pos as int),
        pos <= r <= s@.len(),
{
    let mut cur = pos;
    loop
        invariant
            pos <= cur <= s@.len(),
            spec_digits_end(s@, pos as int) == spec_digits_end(s@, cur as int),
        decreases s@.len() - cur,
    {
        if cur < s.len() {
            let b = s[cur];
            if 48 <= b && b <= 57 {
                cur = cur + 1;
                continue;
            }
        }
        return cur;
    }
}

pub fn scan_num(s: &[u8], pos: usize) -> (r: Option<usize>)
    ensures
        opt_end_eq(r, spec_scan_num(s@, pos as int)),
        r matches Some(e) ==> pos < e <= s@.len(),
{
    if !(pos < s.len()) {
        return None;
    }
    let p1 = if s[pos] == 45 { pos + 1 } else { pos };
    if !(p1 < s.len() && 48 <= s[p1] && s[p1] <= 57) {
        return None;
    }
    let int_end = if s[p1] == 48 {
        p1 + 1
    } else {
        proof {
            lemma_digits_end_bounds(s@, p1 as int + 1);
        }
        digits_end(s, p1)
    };
    if int_end < s.len() && s[int_end] == 46 {
        if int_end + 1 < s.len() && 48 <= s[int_end + 1] && s[int_end + 1] <= 57 {
            let frac_end = digits_end(s, int_end + 1);
            scan_exp(s, frac_end)
        } else {
            None
        }
    } else {
        scan_exp(s, int_end)
    }
}

fn hex4(s: &[u8], pos: usize) -> (r: Option<u32>)
    ensures
        r matches Some(h) ==> spec_hex4(s@, pos as int) == Some(h as int) && h < 0x10000,
        r is None ==> spec_hex4(s@, pos as int) is None,
{
    if !(pos < s.len() && s.len() - pos >= 4) {
        return None;
    }
    let mut v: u32 = 0;
    let d0 = hex_digit(s[pos]);
    let d1 = hex_digit(s[pos + 1]);
    let d2 = hex_digit(s[pos + 2]);
    let d3 = hex_digit(s[pos + 3]);
    match (d0, d1, d2, d3) {
        (Some(a), Some(b), Some(c), Some(d)) => Some(
            a as u32 * 4096 + b as u32 * 256 + c as u32 * 16 + d as u32,
        ),
        _ => None,
    }
}

fn hex_digit(b: u8) -> (r: Option<u8>)
    ensures
        r matches Some(v) ==> hex_val(b) == Some(v as int) && v < 16,
        r is None ==> hex_val(b) is None,
{
    if 48 <= b && b <= 57 {
        Some(b - 48)
    } else if 97 <= b && b <= 102 {
        Some(b - 87)
    } else if 65 <= b && b <= 70 {
        Some(b - 55)
    } else {
        None
    }
}

pub fn scan_string(s: &[u8], pos: usize) -> (r: Option<usize>)
    requires
        pos <= s@.len(),
    ensures
        opt_end_eq(r, spec_scan_str(s@, pos as int)),
        r matches Some(e) ==> pos < e <= s@.len(),
{
    let mut cur = pos;
    loop
        invariant
            pos <= cur <= s@.len(),
            spec_scan_str(s@, pos as int) == spec_scan_str(s@, cur as int),
        decreases s@.len() - cur,
    {
        if cur >= s.len() {
            return None;
        }
        let b = s[cur];
        if b == 34 {
            return Some(cur + 1);
        } else if b == 92 {
            if cur + 1 >= s.len() {
                return None;
            }
            let e = s[cur + 1];
            if e == 34 || e == 92 || e == 47 || e == 98 || e == 102 || e == 110 || e == 114 || e
                == 116 {
                cur = cur + 2;
            } else if e == 117 {
                match hex4(s, cur + 2) {
                    None => {
                        return None;
                    },
                    Some(h) => {
                        if 0xD800 <= h && h < 0xDC00 {
                            if s.len() - cur >= 12 && s[cur + 6] == 92 && s[cur + 7] == 117 {
                                match hex4(s, cur + 8) {
                                    None => {
                                        return None;
                                    },
                                    Some(l) => {
                                        if 0xDC00 <= l && l < 0xE000 {
                                            cur = cur + 12;
                                        } else {
                                            return None;
                                        }
                                    },
                                }
                            } else {
                                return None;
                            }
                        } else if 0xDC00 <= h && h < 0xE000 {
                            return None;
                        } else {
                            cur = cur + 6;
                        }
                    },
                }
            } else {
                return None;
            }
        } else if b < 32 {
            return None;
        } else if b < 128 {
            cur = cur + 1;
        } else if 194 <= b && b <= 223 {
            if s.len() - cur >= 2 && 128 <= s[cur + 1] && s[cur + 1] < 192 {
                cur = cur + 2;
            } else {
                return None;
            }
        } else if b == 224 {
            if s.len() - cur >= 3 && 160 <= s[cur + 1] && s[cur + 1] < 192 && 128 <= s[cur + 2]
                && s[cur + 2] < 192 {
                cur = cur + 3;
            } else {
                return None;
            }
        } else if (225 <= b && b <= 236) || b == 238 || b == 239 {
            if s.len() - cur >= 3 && 128 <= s[cur + 1] && s[cur + 1] < 192 && 128 <= s[cur + 2]
                && s[cur + 2] < 192 {
                cur = cur + 3;
            } else {
                return None;
            }
        } else if b == 237 {
            if s.len() - cur >= 3 && 128 <= s[cur + 1] && s[cur + 1] < 160 && 128 <= s[cur + 2]
                && s[cur + 2] < 192 {
                cur = cur + 3;
            } else {
                return None;
            }
        } else if b == 240 {
            if s.len() - cur >= 4 && 144 <= s[cur + 1] && s[cur + 1] < 192 && 128 <= s[cur + 2]
                && s[cur + 2] < 192 && 128 <= s[cur + 3] && s[cur + 3] < 192 {
                cur = cur + 4;
            } else {
                return None;
            }
        } else if 241 <= b && b <= 243 {
            if s.len() - cur >= 4 && 128 <= s[cur + 1] && s[cur + 1] < 192 && 128 <= s[cur + 2]
                && s[cur + 2] < 192 && 128 <= s[cur + 3] && s[cur + 3] < 192 {
                cur = cur + 4;
            } else {
                return None;
            }
        } else if b == 244 {
            if s.len() - cur >= 4 && 128 <= s[cur + 1] && s[cur + 1] < 144 && 128 <= s[cur + 2]
                && s[cur + 2] < 192 && 128 <= s[cur + 3] && s[cur + 3] < 192 {
                cur = cur + 4;
            } else {
                return None;
            }
        } else {
            return None;
        }
    }
}

/// Appends the UTF-8 encoding of the scalar value `cp`.
fn push_utf8(out: &mut Vec<u8>, cp: u32)
    requires
        cp < 0x110000,
    ensures
        final(out)@ == old(out)@ + utf8_enc(cp as int),
{
    if cp < 0x80 {
        out.push(cp as u8);
    } else if cp < 0x800 {
        out.push(192 + (cp / 64) as u8);
        out.push(128 + (cp % 64) as u8);
    } else if cp < 0x10000 {
        out.push(224 + (cp / 4096) as u8);
        out.push(128 + ((cp / 64) % 64) as u8);
        out.push(128 + (cp % 64) as u8);
    } else {
        out.push(240 + (cp / 262144) as u8);
        out.push(128 + ((cp / 4096) % 64) as u8);
        out.push(128 + ((cp / 64) % 64) as u8);
        out.push(128 + (cp % 64) as u8);
    }
    proof {
        assert(out@ =~= old(out)@ + utf8_enc(cp as int));
    }
}

/// Decodes the body of a string token whose well-formedness `scan_string`
/// has already established.
pub fn unescape(s: &[u8], pos: usize) -> (out: Vec<u8>)
    requires
        pos <= s@.len(),
        spec_scan_str(s@, pos as int) is Some,
    ensures
        out@ == spec_unescape_str(s@, pos as int),
{
    let mut out: Vec<u8> = Vec::new();
    let mut cur = pos;
    loop
        invariant
            pos <= cur <= s@.len(),
            spec_scan_str(s@, cur as int) is Some,
            spec_unescape_str(s@, pos as int) == out@ + spec_unescape_str(s@, cur as int),
        decreases s@.len() - cur,
    {
        assert(cur < s@.len());
        let b = s[cur];
        if b == 34 {
            proof {
                assert(spec_unescape_str(s@, cur as int) =~= Seq::<u8>::empty());
                assert(out@ + Seq::<u8>::empty() =~= out@);
            }
            return out;
        } else if b == 92 {
            assert(cur + 1 < s@.len());
            let e = s[cur + 1];
            let ghost prev = out@;
            if e == 34 || e == 92 || e == 47 {
                out.push(e);
                proof {
                    assert(spec_unescape_str(s@, cur as int) =~= seq![e]
                        + spec_unescape_str(s@, cur + 2));
                    assert(prev + (seq![e] + spec_unescape_str(s@, cur + 2)) =~= out@
                        + spec_unescape_str(s@, cur + 2));
                }
                cur = cur + 2;
            } else if e == 98 || e == 102 || e == 110 || e == 114 || e == 116 {
                let x: u8 = if e == 98 {
                    8
                } else if e == 102 {
                    12
                } else if e == 110 {
                    10
                } else if e == 114 {
                    13
                } else {
                    9
                };
                out.push(x);
                proof {
                    assert(spec_unescape_str(s@, cur as int) =~= seq![x]
                        + spec_unescape_str(s@, cur + 2));
                    assert(prev + (seq![x] + spec_unescape_str(s@, cur + 2)) =~= out@
                        + spec_unescape_str(s@, cur + 2));
                }
                cur = cur + 2;
            } else {
                assert(e == 117);
                match hex4(s, cur + 2) {
                    None => {
                        proof {
                            assert(false);
                        }
                    },
                    Some(h) => {
                        if 0xD800 <= h && h < 0xDC00 {
                            assert(cur + 12 <= s@.len() && s@[cur + 6] == 92 && s@[cur + 7]
                                == 117);
                            match hex4(s, cur + 8) {
                                None => {
                                    proof {
                                        assert(false);
                                    }
                                },
                                Some(l) => {
                                    assert(0xDC00 <= l < 0xE000);
                                    let cp: u32 = 0x10000 + (h - 0xD800) * 1024 + (l - 0xDC00);
                                    push_utf8(&mut out, cp);
                                    proof {
                                        assert(spec_unescape_str(s@, cur as int) =~= utf8_enc(
                                            cp as int,
                                        ) + spec_unescape_str(s@, cur + 12));
                                        assert(prev + (utf8_enc(cp as int) + spec_unescape_str(
                                            s@,
                                            cur + 12,
                                        )) =~= out@ + spec_unescape_str(s@, cur + 12));
                                    }
                                    cur = cur + 12;
                                },
                            }
                        } else {
                            assert(!(0xDC00 <= h < 0xE000));
                            push_utf8(&mut out, h);
                            proof {
                                assert(spec_unescape_str(s@, cur as int) =~= utf8_enc(h as int)
                                    + spec_unescape_str(s@, cur + 6));
                                assert(prev + (utf8_enc(h as int) + spec_unescape_str(s@, cur + 6))
                                    =~= out@ + spec_unescape_str(s@, cur + 6));
                            }
                            cur = cur + 6;
                        }
                    },
                }
            }
        } else {
            let ghost prev = out@;
            let step: usize = if b < 128 {
                1
            } else if b < 224 {
                2
            } else if b < 240 {
                3
            } else {
                4
            };
            assert(b >= 32 && b != 34 && b != 92);
            proof {
                lemma_unescape_raw_chunk(s@, cur as int, step as int);
            }
            out.push(b);
            proof {
                assert(out@ =~= prev + s@.subrange(cur as int, cur + 1));
            }
            let n = s.len();
            let mut k: usize = 1;
            while k < step
                invariant
                    1 <= k <= step,
                    step <= 4,
                    cur + step <= s@.len(),
                    n == s@.len(),
                    out@ == prev + s@.subrange(cur as int, cur + k),
                    forall|j: int| cur < j < cur + step ==> is_cont(s@[j]),
                    cur < s@.len(),
                decreases step - k,
            {
                assert(cur + k < n);
                assert(is_cont(s@[cur + k]));
                out.push(s[cur + k]);
                proof {
                    assert(out@ =~= prev + s@.subrange(cur as int, cur + k + 1));
                }
                k = k + 1;
            }
            proof {
                assert(prev + (s@.subrange(cur as int, cur + step) + spec_unescape_str(
                    s@,
                    cur + step,
                )) =~= out@ + spec_unescape_str(s@, cur + step));
            }
            cur = cur + step;
        }
    }
}

/// A raw (unescaped) UTF-8 sequence of `step` bytes is copied verbatim.
proof fn lemma_unescape_raw_chunk(s: Seq<u8>, pos: int, step: int)
    requires
        0 <= pos < s.len(),
        spec_scan_str(s, pos) is Some,
        s[pos] != 34 && s[pos] != 92 && s[pos] >= 32,
        step == (if s[pos] < 128 {
            1int
        } else if s[pos] < 224 {
            2int
        } else if s[pos] < 240 {
            3int
        } else {
            4int
        }),
    ensures
        pos + step <= s.len(),
        forall|j: int| pos < j < pos + step ==> is_cont(s[j]),
        spec_unescape_str(s, pos) == s.subrange(pos, pos + step) + spec_unescape_str(
            s,
            pos + step,
        ),
{
    if s[pos] < 128 {
        assert(spec_unescape_str(s, pos) =~= s.subrange(pos, pos + 1) + spec_unescape_str(
            s,
            pos + 1,
        ));
    } else if s[pos] < 224 {
        assert(spec_unescape_str(s, pos) =~= seq![s[pos]] + spec_unescape_str(s, pos + 1));
        assert(spec_unescape_str(s, pos + 1) =~= seq![s[pos + 1]] + spec_unescape_str(s, pos + 2));
        assert(spec_unescape_str(s, pos) =~= s.subrange(pos, pos + 2) + spec_unescape_str(
            s,
            pos + 2,
        ));
    } else if s[pos] < 240 {
        assert(spec_unescape_str(s, pos) =~= seq![s[pos]] + spec_unescape_str(s, pos + 1));
        assert(spec_unescape_str(s, pos + 1) =~= seq![s[pos + 1]] + spec_unescape_str(s, pos + 2));
        assert(spec_unescape_str(s, pos + 2) =~= seq![s[pos + 2]] + spec_unescape_str(s, pos + 3));
        assert(spec_unescape_str(s, pos) =~= s.subrange(pos, pos + 3) + spec_unescape_str(
            s,
            pos + 3,
        ));
    } else {
        assert(spec_unescape_str(s, pos) =~= seq![s[pos]] + spec_unescape_str(s, pos + 1));
        assert(spec_unescape_str(s, pos + 1) =~= seq![s[pos + 1]] + spec_unescape_str(s, pos + 2));
        assert(spec_unescape_str(s, pos + 2) =~= seq![s[pos + 2]] + spec_unescape_str(s, pos + 3));
        assert(spec_unescape_str(s, pos + 3) =~= seq![s[pos + 3]] + spec_unescape_str(s, pos + 4));
        assert(spec_unescape_str(s, pos) =~= s.subrange(pos, pos + 4) + spec_unescape_str(
            s,
            pos + 4,
        ));
    }
}

fn scan_exp(s: &[u8], pos: usize) -> (r: Option<usize>)
    requires
        pos <= s@.len(),
    ensures
        opt_end_eq(r, spec_scan_exp(s@, pos as int)),
        r matches Some(e) ==> pos <= e <= s@.len(),
{
    if pos < s.len() && (s[pos] == 101 || s[pos] == 69) {
        let p1 = if pos + 1 < s.len() && (s[pos + 1] == 43 || s[pos + 1] == 45) {
            pos + 2
        } else {
            pos + 1
        };
        if p1 < s.len() && 48 <= s[p1] && s[p1] <= 57 {
            Some(digits_end(s, p1))
        } else {
            None
        }
    } else {
        Some(pos)
    }
}

/// End of the JSON value starting at the non-whitespace position `pos`, or
/// `None` if no well-formed value of nesting depth at most `depth` starts
/// there.
pub open spec fn spec_skip_value(s: Seq<u8>, pos: int, depth: int) -> Option<int>
    decreases s.len() - pos, 0int,
    when 0 <= pos <= s.len()
{
    if pos >= s.len() {
        None
    } else {
        let b = s[pos];
        if b == 110 {
            if pos + 4 <= s.len() && s[pos + 1] == 117 && s[pos + 2] == 108 && s[pos + 3] == 108 {
                Some(pos + 4)
            } else {
                None
            }
        } else if b == 116 {
            if pos + 4 <= s.len() && s[pos + 1] == 114 && s[pos + 2] == 117 && s[pos + 3] == 101 {
                Some(pos + 4)
            } else {
                None
            }
        } else if b == 102 {
            if pos + 5 <= s.len() && s[pos + 1] == 97 && s[pos + 2] == 108 && s[pos + 3] == 115
                && s[pos + 4] == 101 {
                Some(pos + 5)
            } else {
                None
            }
        } else if b == 34 {
            spec_scan_str(s, pos + 1)
        } else if b == 45 || is_digit(b) {
            spec_scan_num(s, pos)
        } else if b == 91 {
            if depth <= 0 {
                None
            } else {
                spec_skip_elems(s, pos + 1, depth - 1, true)
            }
        } else if b == 123 {
            if depth <= 0 {
                None
            } else {
                spec_skip_members(s, pos + 1, depth - 1, true)
            }
        } else {
            None
        }
    }
}

/// Scans the remainder of an array, starting just after `[` (when `first`)
/// or just after a `,`; the result is one past the closing `]`.
pub open spec fn spec_skip_elems(s: Seq<u8>, pos: int, depth: int, first: bool) -> Option<int>
    decreases s.len() - pos, 1int,
    when 0 <= pos <= s.len()
{
    let p = spec_skip_ws(s, pos);
    if !(pos <= p && p < s.len()) {
        None
    } else if first && s[p] == 93 {
        Some(p + 1)
    } else {
        match spec_skip_value(s, p, depth) {
            None => None,
            Some(v) => if !(p < v && v <= s.len()) {
                None
            } else {
                let q = spec_skip_ws(s, v);
                if !(v <= q) {
                    None
                } else if q < s.len() && s[q] == 44 {
                    spec_skip_elems(s, q + 1, depth, false)
                } else if q < s.len() && s[q] == 93 {
                    Some(q + 1)
                } else {
                    None
                }
            },
        }
    }
}

/// Scans the remainder of an object, starting just after `{` (when `first`)
/// or just after a `,`; the result is one past the closing `}`.
pub open spec fn spec_skip_members(s: Seq<u8>, pos: int, depth: int, first: bool) -> Option<int>
    decreases s.len() - pos, 1int,
    when 0 <= pos <= s.len()
{
    let p = spec_skip_ws(s, pos);
    if !(pos <= p && p < s.len()) {
        None
    } else if first && s[p] == 125 {
        Some(p + 1)
    } else if s[p] != 34 {
        None
    } else {
        match spec_scan_str(s, p + 1) {
            None => None,
            Some(kend) => if !(p + 1 < kend && kend <= s.len()) {
                None
            } else {
                let q = spec_skip_ws(s, kend);
                if !(kend <= q && q < s.len() && s[q] == 58) {
                    None
                } else {
                    let v0 = spec_skip_ws(s, q + 1);
                    if !(q + 1 <= v0 && v0 <= s.len()) {
                        None
                    } else {
                        match spec_skip_value(s, v0, depth) {
                            None => None,
                            Some(v) => if !(v0 < v && v <= s.len()) {
                                None
                            } else {
                                let r = spec_skip_ws(s, v);
                                if v <= r && r < s.len() && s[r] == 44 {
                                    spec_skip_members(s, r + 1, depth, false)
                                } else if r < s.len() && s[r] == 125 {
                                    Some(r + 1)
                                } else {
                                    None
                                }
                            },
                        }
                    }
                }
            },
        }
    }
}

/// Position where the value of the first member named `key` starts, searching
/// the object body from `pos` (just after `{` when `first`). `None` when the
/// key is absent or the body is not well formed.
pub open spec fn spec_find_member(
    s: Seq<u8>,
    pos: int,
    depth: int,
    key: Seq<u8>,
    first: bool,
) -> Option<int>
    decreases s.len() - pos,
    when 0 <= pos <= s.len()
{
    let p = spec_skip_ws(s, pos);
    if !(pos <= p && p < s.len()) {
        None
    } else if first && s[p] == 125 {
        None
    } else if s[p] != 34 {
        None
    } else {
        match spec_scan_str(s, p + 1) {
            None => None,
            Some(kend) => if !(p + 1 < kend && kend <= s.len()) {
                None
            } else {
                let q = spec_skip_ws(s, kend);
                if !(kend <= q && q < s.len() && s[q] == 58) {
                    None
                } else {
                    let v0 = spec_skip_ws(s, q + 1);
                    if !(q + 1 <= v0 && v0 <= s.len()) {
                        None
                    } else if spec_unescape_str(s, p + 1) == key {
                        Some(v0)
                    } else {
                        match spec_skip_value(s, v0, depth) {
                            None => None,
                            Some(v) => if !(v0 < v && v <= s.len()) {
                                None
                            } else {
                                let r = spec_skip_ws(s, v);
                                if v <= r && r < s.len() && s[r] == 44 {
                                    spec_find_member(s, r + 1, depth, key, false)
                                } else {
                                    None
                                }
                            },
                        }
                    }
                }
            },
        }
    }
}

pub fn skip_value(s: &[u8], pos: usize, depth: usize) -> (r: Option<usize>)
    requires
        pos <= s@.len(),
    ensures
        opt_end_eq(r, spec_skip_value(s@, pos as int, depth as int)),
        r matches Some(e) ==> pos < e <= s@.len(),
    decreases depth, 0int,
{
    if pos >= s.len() {
        return None;
    }
    let b = s[pos];
    if b == 110 {
        if s.len() - pos >= 4 && s[pos + 1] == 117 && s[pos + 2] == 108 && s[pos + 3] == 108 {
            Some(pos + 4)
        } else {
            None
        }
    } else if b == 116 {
        if s.len() - pos >= 4 && s[pos + 1] == 114 && s[pos + 2] == 117 && s[pos + 3] == 101 {
            Some(pos + 4)
        } else {
            None
        }
    } else if b == 102 {
        if s.len() - pos >= 5 && s[pos + 1] == 97 && s[pos + 2] == 108 && s[pos + 3] == 115 && s[pos
            + 4] == 101 {
            Some(pos + 5)
        } else {
            None
        }
    } else if b == 34 {
        scan_string(s, pos + 1)
    } else if b == 45 || (48 <= b && b <= 57) {
        scan_num(s, pos)
    } else if b == 91 {
        if depth == 0 {
            None
        } else {
            skip_elems(s, pos + 1, depth - 1)
        }
    } else if b == 123 {
        if depth == 0 {
            None
        } else {
            skip_members(s, pos + 1, depth - 1)
        }
    } else {
        None
    }
}

fn skip_elems(s: &[u8], start: usize, depth: usize) -> (r: Option<usize>)
    requires
        start <= s@.len(),
    ensures
        opt_end_eq(r, spec_skip_elems(s@, start as int, depth as int, true)),
        r matches Some(e) ==> start < e <= s@.len(),
    decreases depth, 1int,
{
    let mut cur = start;
    let mut first = true;
    loop
        invariant
            start <= cur <= s@.len(),
            spec_skip_elems(s@, start as int, depth as int, true) == spec_skip_elems(
                s@,
                cur as int,
                depth as int,
                first,
            ),
        decreases s@.len() - cur,
    {
        let p = skip_ws(s, cur);
        if !(p < s.len()) {
            return None;
        }
        if first && s[p] == 93 {
            return Some(p + 1);
        }
        match skip_value(s, p, depth) {
            None => {
                return None;
            },
            Some(v) => {
                let q = skip_ws(s, v);
                if q < s.len() && s[q] == 44 {
                    proof {
                        assert(spec_skip_elems(s@, cur as int, depth as int, first)
                            == spec_skip_elems(s@, q + 1, depth as int, false));
                    }
                    cur = q + 1;
                    first = false;
                } else if q < s.len() && s[q] == 93 {
                    return Some(q + 1);
                } else {
                    return None;
                }
            },
        }
    }
}

fn skip_members(s: &[u8], start: usize, depth: usize) -> (r: Option<usize>)
    requires
        start <= s@.len(),
    ensures
        opt_end_eq(r, spec_skip_members(s@, start as int, depth as int, true)),
        r matches Some(e) ==> start < e <= s@.len(),
    decreases depth, 1int,
{
    let mut cur = start;
    let mut first = true;
    loop
        invariant
            start <= cur <= s@.len(),
            spec_skip_members(s@, start as int, depth as int, true) == spec_skip_members(
                s@,
                cur as int,
                depth as int,
                first,
            ),
        decreases s@.len() - cur,
    {
        let p = skip_ws(s, cur);
        if !(p < s.len()) {
            return None;
        }
        if first && s[p] == 125 {
            return Some(p + 1);
        }
        if s[p] != 34 {
            return None;
        }
        match scan_string(s, p + 1) {
            None => {
                return None;
            },
            Some(kend) => {
                let q = skip_ws(s, kend);
                if !(q < s.len() && s[q] == 58) {
                    return None;
                }
                let v0 = skip_ws(s, q + 1);
                match skip_value(s, v0, depth) {
                    None => {
                        return None;
                    },
                    Some(v) => {
                        let r = skip_ws(s, v);
                        if r < s.len() && s[r] == 44 {
                            proof {
                                assert(spec_skip_members(s@, cur as int, depth as int, first)
                                    == spec_skip_members(s@, r + 1, depth as int, false));
                            }
                            cur = r + 1;
                            first = false;
                        } else if r < s.len() && s[r] == 125 {
                            return Some(r + 1);
                        } else {
                            return None;
                        }
                    },
                }
            },
        }
    }
}

/// Byte equality of two slices.
pub fn bytes_eq(a: &[u8], b: &[u8]) -> (r: bool)
    ensures
        r == (a@ == b@),
{
    if a.len() != b.len() {
        proof {
            assert(a@ != b@);
        }
        return false;
    }
    let mut i: usize = 0;
    while i < a.len()
        invariant
            0 <= i <= a@.len(),
            a@.len() == b@.len(),
            forall|j: int| 0 <= j < i ==> a@[j] == b@[j],
        decreases a@.len() - i,
    {
        if a[i] != b[i] {
            proof {
                assert(a@[i as int] != b@[i as int]);
            }
            return false;
        }
        i = i + 1;
    }
    proof {
        assert(a@ =~= b@);
    }
    true
}

/// Finds the value position of the first member named `key` in the object
/// body starting at `start` (just after the opening brace).
pub fn find_member(s: &[u8], start: usize, depth: usize, key: &[u8]) -> (r: Option<usize>)
    requires
        start <= s@.len(),
    ensures
        match r {
            Some(v0) => spec_find_member(s@, start as int, depth as int, key@, true) == Some(
                v0 as int,
            ) && start <= v0 <= s@.len(),
            None => spec_find_member(s@, start as int, depth as int, key@, true) is None,
        },
{
    let mut cur = start;
    let mut first = true;
    loop
        invariant
            start <= cur <= s@.len(),
            spec_find_member(s@, start as int, depth as int, key@, true) == spec_find_member(
                s@,
                cur as int,
                depth as int,
                key@,
                first,
            ),
        decreases s@.len() - cur,
    {
        let p = skip_ws(s, cur);
        if !(p < s.len()) {
            return None;
        }
        if first && s[p] == 125 {
            return None;
        }
        if s[p] != 34 {
            return None;
        }
        match scan_string(s, p + 1) {
            None => {
                return None;
            },
            Some(kend) => {
                let q = skip_ws(s, kend);
                if !(q < s.len() && s[q] == 58) {
                    return None;
                }
                let v0 = skip_ws(s, q + 1);
                let this_key = unescape(s, p + 1);
                if bytes_eq(this_key.as_slice(), key) {
                    return Some(v0);
                }
                match skip_value(s, v0, depth) {
                    None => {
                        return None;
                    },
                    Some(v) => {
                        let r = skip_ws(s, v);
                        if r < s.len() && s[r] == 44 {
                            proof {
                                assert(spec_find_member(s@, cur as int, depth as int, key@, first)
                                    == spec_find_member(s@, r + 1, depth as int, key@, false));
                            }
                            cur = r + 1;
                            first = false;
                        } else {
                            return None;
                        }
                    },
                }
            },
        }
    }
}


/// The value of a digit run is nonnegative.
pub proof fn lemma_digits_val_nonneg(s: Seq<u8>, pos: int, end: int)
    requires
        0 <= pos <= end <= s.len(),
        forall|j: int| pos <= j < end ==> is_digit(s[j]),
    ensures
        0 <= spec_digits_val(s, pos, end),
    decreases end - pos,
{
    if pos < end {
        lemma_digits_val_nonneg(s, pos, end - 1);
        assert(is_digit(s[end - 1]));
    }
}

/// Extending a digit run never lowers its value.
pub proof fn lemma_digits_val_bounds(s: Seq<u8>, pos: int, mid: int, end: int)
    requires
        0 <= pos <= mid <= end <= s.len(),
        forall|j: int| pos <= j < end ==> is_digit(s[j]),
    ensures
        0 <= spec_digits_val(s, pos, mid) <= spec_digits_val(s, pos, end),
    decreases end - mid,
{
    lemma_digits_val_nonneg(s, pos, mid);
    if mid < end {
        lemma_digits_val_bounds(s, pos, mid, end - 1);
        lemma_digits_val_nonneg(s, pos, end - 1);
        assert(is_digit(s[end - 1]));
        assert(spec_digits_val(s, pos, end) == spec_digits_val(s, pos, end - 1) * 10 + (s[end - 1]
            - 48));
    }
}

/// An unsigned 32-bit integer denoted at `pos`: a plain run of digits without
/// sign, fraction or exponent, whose value fits. Other numbers are refused as
/// the protocol's integer fields demand.
pub open spec fn spec_u32_at(s: Seq<u8>, pos: int) -> Option<u32> {
    match spec_scan_num(s, pos) {
        None => None,
        Some(end) => if s[pos] != 45 && spec_digits_end(s, pos) == end && spec_digits_val(
            s,
            pos,
            end,
        ) <= 0xFFFF_FFFF {
            Some(spec_digits_val(s, pos, end) as u32)
        } else {
            None
        },
    }
}

pub fn parse_u32_at(s: &[u8], pos: usize) -> (r: Option<u32>)
    ensures
        r == spec_u32_at(s@, pos as int),
{
    let end = match scan_num(s, pos) {
        None => {
            return None;
        },
        Some(e) => e,
    };
    if s[pos] == 45 {
        return None;
    }
    let de = digits_end(s, pos);
    if de != end {
        return None;
    }
    let mut acc: u64 = 0;
    let mut i = pos;
    while i < end
        invariant
            pos <= i <= end <= s@.len(),
            spec_digits_end(s@, pos as int) == end,
            spec_scan_num(s@, pos as int) == Some(end as int),
            acc == spec_digits_val(s@, pos as int, i as int),
            acc <= 0xFFFF_FFFF,
        decreases end - i,
    {
        proof {
            lemma_digits_end_in_run(s@, pos as int, i as int);
        }
        let d = s[i];
        assert(is_digit(d));
        acc = acc * 10 + ((d - 48) as u64);
        i = i + 1;
        if acc > 0xFFFF_FFFF {
            proof {
                assert forall|j: int| pos <= j < end implies is_digit(s@[j]) by {
                    lemma_digits_end_in_run(s@, pos as int, j);
                }
                lemma_digits_val_bounds(s@, pos as int, i as int, end as int);
            }
            return None;
        }
    }
    Some(acc as u32)
}

/// Every position strictly inside a digit run holds a digit.
proof fn lemma_digits_end_in_run(s: Seq<u8>, pos: int, i: int)
    requires
        0 <= pos <= i <= s.len(),
        i < spec_digits_end(s, pos),
    ensures
        i < s.len() && is_digit(s[i]),
    decreases i - pos,
{
    if pos < s.len() && is_digit(s[pos]) {
        if i > pos {
            lemma_digits_end_in_run(s, pos + 1, i);
        }
    }
}

/// The decoded text of a string value standing at `pos`, with the position
/// one past its closing quote.
pub open spec fn spec_string_at(s: Seq<u8>, pos: int) -> Option<(Seq<u8>, int)> {
    if 0 <= pos < s.len() && s[pos] == 34 {
        match spec_scan_str(s, pos + 1) {
            None => None,
            Some(e) => Some((spec_unescape_str(s, pos + 1), e)),
        }
    } else {
        None
    }
}

pub fn parse_string_at(s: &[u8], pos: usize) -> (r: Option<(Vec<u8>, usize)>)
    ensures
        match r {
            Some((v, e)) => spec_string_at(s@, pos as int) == Some((v@, e as int)) && pos < e
                <= s@.len(),
            None => spec_string_at(s@, pos as int) is None,
        },
{
    if !(pos < s.len() && s[pos] == 34) {
        return None;
    }
    match scan_string(s, pos + 1) {
        None => None,
        Some(e) => {
            let v = unescape(s, pos + 1);
            Some((v, e))
        },
    }
}

/// The boolean literal standing at `pos`, with its end position.
pub open spec fn spec_bool_at(s: Seq<u8>, pos: int) -> Option<(bool, int)> {
    if !(0 <= pos < s.len()) {
        None
    } else if pos + 4 <= s.len() && s[pos] == 116 && s[pos + 1] == 114 && s[pos + 2] == 117 && s[
        pos + 3
    ] == 101 {
        Some((true, pos + 4))
    } else if pos + 5 <= s.len() && s[pos] == 102 && s[pos + 1] == 97 && s[pos + 2] == 108 && s[pos
        + 3] == 115 && s[pos + 4] == 101 {
        Some((false, pos + 5))
    } else {
        None
    }
}

pub fn parse_bool_at(s: &[u8], pos: usize) -> (r: Option<(bool, usize)>)
    ensures
        match r {
            Some((v, e)) => spec_bool_at(s@, pos as int) == Some((v, e as int)) && pos < e
                <= s@.len(),
            None => spec_bool_at(s@, pos as int) is None,
        },
{
    if !(pos < s.len()) {
        return None;
    }
    if s.len() - pos >= 4 && s[pos] == 116 && s[pos + 1] == 114 && s[pos + 2] == 117 && s[pos + 3]
        == 101 {
        Some((true, pos + 4))
    } else if s.len() - pos >= 5 && s[pos] == 102 && s[pos + 1] == 97 && s[pos + 2] == 108 && s[pos
        + 3] == 115 && s[pos + 4] == 101 {
        Some((false, pos + 5))
    } else {
        None
    }
}

/// Whether the literal `null` stands at `pos`.
pub open spec fn spec_null_at(s: Seq<u8>, pos: int) -> bool {
    0 <= pos && pos + 4 <= s.len() && s[pos] == 110 && s[pos + 1] == 117 && s[pos + 2] == 108 && s[
        pos + 3
    ] == 108
}

pub fn is_null_at(s: &[u8], pos: usize) -> (r: bool)
    ensures
        r == spec_null_at(s@, pos as int),
{
    pos < s.len() && s.len() - pos >= 4 && s[pos] == 110 && s[pos + 1] == 117 && s[pos + 2] == 108
        && s[pos + 3] == 108
}

/// Remaining items of an array of strings, starting just after `[` (when
/// `first`) or after a `,`; `acc` carries the items already read.
pub open spec fn spec_str_items(
    s: Seq<u8>,
    pos: int,
    first: bool,
    acc: Seq<Seq<u8>>,
) -> Option<(Seq<Seq<u8>>, int)>
    decreases s.len() - pos,
    when 0 <= pos <= s.len()
{
    let p = spec_skip_ws(s, pos);
    if !(pos <= p && p < s.len()) {
        None
    } else if first && s[p] == 93 {
        Some((acc, p + 1))
    } else if s[p] != 34 {
        None
    } else {
        match spec_scan_str(s, p + 1) {
            None => None,
            Some(kend) => if !(p + 1 < kend && kend <= s.len()) {
                None
            } else {
                let q = spec_skip_ws(s, kend);
                if !(kend <= q && q < s.len()) {
                    None
                } else if s[q] == 44 {
                    spec_str_items(s, q + 1, false, acc + seq![spec_unescape_str(s, p + 1)])
                } else if s[q] == 93 {
                    Some((acc + seq![spec_unescape_str(s, p + 1)], q + 1))
                } else {
                    None
                }
            },
        }
    }
}

/// An array of strings standing at `pos`: its decoded items and end position.
pub open spec fn spec_str_array_at(s: Seq<u8>, pos: int) -> Option<(Seq<Seq<u8>>, int)> {
    if 0 <= pos < s.len() && s[pos] == 91 {
        spec_str_items(s, pos + 1, true, Seq::empty())
    } else {
        None
    }
}

/// The bytes of an ASCII string literal.
pub open spec fn ascii_view(s: &str) -> Seq<u8> {
    Seq::new(s@.len(), |i: int| s@[i] as u8)
}

/// Copies an ASCII literal into a byte vector.
pub fn ascii_bytes(s: &str) -> (v: Vec<u8>)
    requires
        vstd::string::is_ascii(s),
    ensures
        v@ == ascii_view(s),
{
    broadcast use vstd::string::is_ascii_spec_bytes;

    let v = s.as_bytes_vec();
    proof {
        assert(v@ =~= ascii_view(s));
    }
    v
}

/// Copies the byte range `[a, b)` out of the text.
pub fn copy_range(s: &[u8], a: usize, b: usize) -> (v: Vec<u8>)
    requires
        a <= b <= s@.len(),
    ensures
        v@ == s@.subrange(a as int, b as int),
{
    let part = &s[a..b];
    vstd::slice::slice_to_vec(part)
}


/// Last position whose prefix still ends in whitespace, scanning back from
/// `e`.
pub open spec fn spec_rtrim_end(s: Seq<u8>, e: int) -> int
    decreases e,
    when 0 <= e <= s.len()
{
    if e > 0 && is_ws(s[e - 1]) {
        spec_rtrim_end(s, e - 1)
    } else {
        e
    }
}

/// The text with leading and trailing whitespace removed.
pub open spec fn spec_trim(s: Seq<u8>) -> Seq<u8> {
    let a = spec_skip_ws(s, 0);
    let b = spec_rtrim_end(s, s.len() as int);
    if 0 <= a <= b <= s.len() {
        s.subrange(a, b)
    } else {
        Seq::empty()
    }
}

/// Trims whitespace from both ends.
pub fn trim_ws(s: &[u8]) -> (out: Vec<u8>)
    ensures
        out@ == spec_trim(s@),
{
    let a = skip_ws(s, 0);
    let mut e = s.len();
    while e > 0 && (s[e - 1] == 32 || s[e - 1] == 9 || s[e - 1] == 10 || s[e - 1] == 13)
        invariant
            0 <= e <= s@.len(),
            spec_rtrim_end(s@, s@.len() as int) == spec_rtrim_end(s@, e as int),
        decreases e,
    {
        e = e - 1;
    }
    proof {
        assert(spec_rtrim_end(s@, e as int) == e as int);
    }
    if a <= e {
        copy_range(s, a, e)
    } else {
        let out: Vec<u8> = Vec::new();
        proof {
            assert(out@ =~= spec_trim(s@));
        }
        out
    }
}

/// The sequence of decoded byte strings a vector of byte vectors stands for.
pub open spec fn vv_view(v: Seq<Vec<u8>>) -> Seq<Seq<u8>> {
    v.map_values(|x: Vec<u8>| x@)
}

pub fn parse_str_array_at(s: &[u8], pos: usize) -> (r: Option<(Vec<Vec<u8>>, usize)>)
    ensures
        match r {
            Some((v, e)) => spec_str_array_at(s@, pos as int) == Some((vv_view(v@), e as int))
                && pos < e <= s@.len(),
            None => spec_str_array_at(s@, pos as int) is None,
        },
{
    if !(pos < s.len() && s[pos] == 91) {
        return None;
    }
    let mut out: Vec<Vec<u8>> = Vec::new();
    let mut cur = pos + 1;
    let mut first = true;
    proof {
        assert(vv_view(out@) =~= Seq::<Seq<u8>>::empty());
    }
    loop
        invariant
            pos + 1 <= cur <= s@.len(),
            spec_str_array_at(s@, pos as int) == spec_str_items(
                s@,
                cur as int,
                first,
                vv_view(out@),
            ),
        decreases s@.len() - cur,
    {
        let p = skip_ws(s, cur);
        if !(p < s.len()) {
            return None;
        }
        if first && s[p] == 93 {
            return Some((out, p + 1));
        }
        if s[p] != 34 {
            return None;
        }
        match scan_string(s, p + 1) {
            None => {
                return None;
            },
            Some(kend) => {
                let q = skip_ws(s, kend);
                if !(q < s.len()) {
                    return None;
                }
                let item = unescape(s, p + 1);
                if s[q] == 44 {
                    let ghost old_items = vv_view(out@);
                    out.push(item);
                    proof {
                        assert(vv_view(out@) =~= old_items + seq![spec_unescape_str(s@, p + 1)]);
                    }
                    cur = q + 1;
                    first = false;
                } else if s[q] == 93 {
                    let ghost old_items = vv_view(out@);
                    out.push(item);
                    proof {
                        assert(vv_view(out@) =~= old_items + seq![spec_unescape_str(s@, p + 1)]);
                    }
                    return Some((out, q + 1));
                } else {
                    return None;
                }
            },
        }
    }
}

} // verus!
