use vstd::prelude::*;

use crate::error::DecodeError;
use crate::source::{le16_at, ByteSource};

verus! {

/// Relies on char::from_u32: `Some` exactly when the value is a Unicode
/// scalar (under the surrogate range or between it and 0x10FFFF), and then
/// the character is that scalar.
#[verifier::external_body]
fn char_from_u32(v: u32) -> (r: Option<char>)
    ensures
        r is Some <==> vstd::utf8::is_scalar(v),
        r matches Some(c) ==> c as u32 == v,
{
    char::from_u32(v)
}

/// Relies on String::push: appends the one character to the end of the
/// string.
#[verifier::external_body]
fn push_char(s: &mut String, c: char)
    ensures
        final(s)@ == old(s)@.push(c),
{
    s.push(c);
}

/// The `n` UTF-16 code units held little-endian at byte offset `i` of `s`.
pub open spec fn units_in(s: Seq<u8>, i: int, n: int) -> Seq<u16>
    recommends
        0 <= i,
        i + 2 * n <= s.len(),
    decreases n,
{
    if n <= 0 {
        seq![]
    } else {
        seq![le16_at(s, i)] + units_in(s, i + 2, n - 1)
    }
}

pub proof fn lemma_units_in_len(s: Seq<u8>, i: int, n: int)
    requires
        n >= 0,
    ensures
        units_in(s, i, n).len() == n,
    decreases n,
{
    if n > 0 {
        lemma_units_in_len(s, i + 2, n - 1);
    }
}

pub proof fn lemma_units_in_snoc(s: Seq<u8>, i: int, n: int)
    requires
        n >= 0,
    ensures
        units_in(s, i, n + 1) == units_in(s, i, n).push(le16_at(s, i + 2 * n)),
    decreases n,
{
    if n == 0 {
        assert(units_in(s, i + 2, 0) =~= Seq::<u16>::empty());
        assert(units_in(s, i, 0) =~= Seq::<u16>::empty());
        assert(units_in(s, i, 1) =~= units_in(s, i, 0).push(le16_at(s, i)));
    } else {
        lemma_units_in_snoc(s, i + 2, n - 1);
        assert(units_in(s, i, n + 1) == seq![le16_at(s, i)] + units_in(s, i + 2, n));
        assert(units_in(s, i, n) == seq![le16_at(s, i)] + units_in(s, i + 2, n - 1));
        assert(seq![le16_at(s, i)] + units_in(s, i + 2, n - 1).push(le16_at(s, i + 2 * n)) =~= (
        seq![le16_at(s, i)] + units_in(s, i + 2, n - 1)).push(le16_at(s, i + 2 * n)));
    }
}

/// True for a code unit in the leading (high) surrogate range.
pub open spec fn is_high_surrogate(u: u16) -> bool {
    0xD800 <= u <= 0xDBFF
}

/// True for a code unit in the trailing (low) surrogate range.
pub open spec fn is_low_surrogate(u: u16) -> bool {
    0xDC00 <= u <= 0xDFFF
}

/// The Unicode scalar encoded by a surrogate pair.
pub open spec fn scalar_of_pair(hi: u16, lo: u16) -> u32
    recommends
        is_high_surrogate(hi),
        is_low_surrogate(lo),
{
    (0x10000 + (hi - 0xD800) * 0x400 + (lo - 0xDC00)) as u32
}

/// UTF-16 decoding of the code units of `units` from index `i` up to `end`:
/// the character sequence, or `None` on an unpaired surrogate or a pair cut
/// off by `end`.
pub open spec fn decode_units(units: Seq<u16>, i: int, end: int) -> Option<Seq<char>>
    recommends
        0 <= i,
        end <= units.len(),
    decreases end - i,
{
    if i >= end {
        Some(seq![])
    } else if is_high_surrogate(units[i]) {
        if i + 1 < end && is_low_surrogate(units[i + 1]) {
            match decode_units(units, i + 2, end) {
                Some(rest) => Some(seq![scalar_of_pair(units[i], units[i + 1]) as char] + rest),
                None => None,
            }
        } else {
            None
        }
    } else if is_low_surrogate(units[i]) {
        None
    } else {
        match decode_units(units, i + 1, end) {
            Some(rest) => Some(seq![(units[i] as u32) as char] + rest),
            None => None,
        }
    }
}

/// Index of the first null code unit at or after `i`, or the length of
/// `units` when none follows.
pub open spec fn first_null(units: Seq<u16>, i: int) -> int
    recommends
        0 <= i <= units.len(),
    decreases units.len() - i,
{
    if i >= units.len() {
        units.len() as int
    } else if units[i] == 0 {
        i
    } else {
        first_null(units, i + 1)
    }
}

pub proof fn lemma_first_null_bounds(units: Seq<u16>, i: int)
    requires
        i <= units.len(),
    ensures
        i <= first_null(units, i) <= units.len(),
    decreases units.len() - i,
{
    if i < units.len() && units[i] != 0 {
        lemma_first_null_bounds(units, i + 1);
    }
}

/// The run of null-terminated strings that fills `units` from index `i` on:
/// each null unit ends a string, and a final run without a terminator counts
/// as one more string. `None` when any string is not valid UTF-16.
pub open spec fn decode_list_from(units: Seq<u16>, i: int) -> Option<Seq<Seq<char>>>
    recommends
        0 <= i,
    decreases units.len() - i,
    via decode_list_from_decreases
{
    if i >= units.len() {
        Some(seq![])
    } else {
        let j = first_null(units, i);
        match decode_units(units, i, j) {
            None => None,
            Some(chars) => {
                if j >= units.len() {
                    Some(seq![chars])
                } else {
                    match decode_list_from(units, j + 1) {
                        None => None,
                        Some(rest) => Some(seq![chars] + rest),
                    }
                }
            },
        }
    }
}

#[via_fn]
proof fn decode_list_from_decreases(units: Seq<u16>, i: int) {
    if i < units.len() {
        lemma_first_null_bounds(units, i);
    }
}

/// What reading `nbytes` bytes of UTF-16 code units at offset `pos` yields:
/// `Truncated` when the span overruns `s`, else the units of the span, a
/// trailing odd byte ignored.
pub open spec fn spec_read_units(s: Seq<u8>, pos: int, nbytes: int) -> Result<Seq<u16>, DecodeError> {
    if pos + nbytes > s.len() {
        Err(DecodeError::Truncated)
    } else {
        Ok(units_in(s, pos, nbytes / 2))
    }
}

/// What decoding a fixed-length UTF-16 field of `nbytes` bytes at offset
/// `pos` yields: the characters before the first null unit, or the error.
pub open spec fn spec_utf16_exact(s: Seq<u8>, pos: int, nbytes: int) -> Result<
    Seq<char>,
    DecodeError,
> {
    match spec_read_units(s, pos, nbytes) {
        Err(e) => Err(e),
        Ok(units) => match decode_units(units, 0, first_null(units, 0)) {
            None => Err(DecodeError::InvalidStringEncoding),
            Some(chars) => Ok(chars),
        },
    }
}

/// What decoding a length-prefixed UTF-16 string at offset `pos` yields: the
/// characters of as many units as the two-byte prefix counts, together with
/// the offset just past them, or the error.
pub open spec fn spec_sized_utf16(s: Seq<u8>, pos: int) -> Result<(Seq<char>, int), DecodeError> {
    if pos + 2 > s.len() {
        Err(DecodeError::Truncated)
    } else {
        let n = le16_at(s, pos) as int;
        if pos + 2 + 2 * n > s.len() {
            Err(DecodeError::Truncated)
        } else {
            let units = units_in(s, pos + 2, n);
            match decode_units(units, 0, n) {
                None => Err(DecodeError::InvalidStringEncoding),
                Some(chars) => Ok((chars, pos + 2 + 2 * n)),
            }
        }
    }
}

/// What decoding a span of `nbytes` bytes of null-terminated UTF-16 strings
/// at offset `pos` yields: the ordered strings, or the error.
pub open spec fn spec_utf16_list(s: Seq<u8>, pos: int, nbytes: int) -> Result<
    Seq<Seq<char>>,
    DecodeError,
> {
    match spec_read_units(s, pos, nbytes) {
        Err(e) => Err(e),
        Ok(units) => match decode_list_from(units, 0) {
            None => Err(DecodeError::InvalidStringEncoding),
            Some(l) => Ok(l),
        },
    }
}

/// Reads the next `nbytes` bytes as little-endian UTF-16 code units,
/// consuming the whole span; fails with `Truncated`, leaving the source
/// unchanged, when the span overruns the stream.
fn read_units(src: &mut ByteSource, nbytes: u64) -> (r: Result<Vec<u16>, DecodeError>)
    ensures
        final(src).bytes() == old(src).bytes(),
        ({
            let sr = spec_read_units(old(src).bytes(), old(src).pos() as int, nbytes as int);
            match sr {
                Ok(units) => r matches Ok(v) && v@ == units && final(src).pos() == old(src).pos()
                    + nbytes,
                Err(e) => r == Err::<Vec<u16>, DecodeError>(e) && *final(src) == *old(src),
            }
        }),
{
    if !src.has_remaining(nbytes) {
        return Err(DecodeError::Truncated);
    }
    let start: u64 = src.position();
    let ghost s = src.bytes();
    let ghost pos0 = src.pos() as int;
    let n_units: u64 = nbytes / 2;
    let mut v: Vec<u16> = Vec::new();
    let mut i: u64 = 0;
    assert(v@ =~= units_in(s, pos0, 0));
    while i < n_units
        invariant
            i <= n_units == nbytes as int / 2,
            src.bytes() == s,
            src.pos() == pos0 + 2 * i,
            pos0 + nbytes <= s.len(),
            v@ == units_in(s, pos0, i as int),
        decreases n_units - i,
    {
        assert(src.pos() + 2 <= s.len());
        let u = match src.read_u16_le() {
            Ok(u) => u,
            Err(_) => {
                assert(false);
                return Err(DecodeError::Truncated);
            },
        };
        v.push(u);
        proof {
            lemma_units_in_snoc(s, pos0, i as int);
        }
        i = i + 1;
    }
    src.seek_to(start + nbytes);
    Ok(v)
}

/// Finds the first null code unit at or after `from`.
fn find_null(units: &Vec<u16>, from: usize) -> (j: usize)
    requires
        from <= units@.len(),
    ensures
        j == first_null(units@, from as int),
{
    let n = units.len();
    let mut i = from;
    while i < n
        invariant
            from <= i <= n == units@.len(),
            first_null(units@, from as int) == first_null(units@, i as int),
        decreases n - i,
    {
        if units[i] == 0 {
            return i;
        }
        i = i + 1;
    }
    i
}

/// Decodes the UTF-16 code units of `units` from index `from` up to `to`;
/// fails with `InvalidStringEncoding` on an unpaired surrogate or a pair cut
/// off at `to`.
fn decode_range(units: &Vec<u16>, from: usize, to: usize) -> (r: Result<String, DecodeError>)
    requires
        from <= to <= units@.len(),
    ensures
        ({
            match decode_units(units@, from as int, to as int) {
                Some(chars) => r matches Ok(st) && st@ == chars,
                None => r == Err::<String, DecodeError>(DecodeError::InvalidStringEncoding),
            }
        }),
{
    let ghost whole = decode_units(units@, from as int, to as int);
    let mut out = String::new();
    let mut i = from;
    while i < to
        invariant
            from <= i <= to <= units@.len(),
            whole == decode_units(units@, from as int, to as int),
            whole == (match decode_units(units@, i as int, to as int) {
                Some(rest) => Some(out@ + rest),
                None => None::<Seq<char>>,
            }),
        decreases to - i,
    {
        let u = units[i];
        if u >= 0xD800 && u <= 0xDBFF {
            if i + 1 < to {
                let u2 = units[i + 1];
                if u2 >= 0xDC00 && u2 <= 0xDFFF {
                    let scalar: u32 = 0x10000 + (u as u32 - 0xD800) * 0x400 + (u2 as u32 - 0xDC00);
                    assert(scalar == scalar_of_pair(u, u2));
                    let c = match char_from_u32(scalar) {
                        Some(c) => c,
                        None => {
                            assert(false);
                            return Err(DecodeError::InvalidStringEncoding);
                        },
                    };
                    proof {
                        vstd::utf8::char_u32_cast(c, scalar);
                        if let Some(rest) = decode_units(units@, i + 2, to as int) {
                            assert(out@ + (seq![c] + rest) =~= out@.push(c) + rest);
                        }
                    }
                    push_char(&mut out, c);
                    i = i + 2;
                } else {
                    return Err(DecodeError::InvalidStringEncoding);
                }
            } else {
                return Err(DecodeError::InvalidStringEncoding);
            }
        } else if u >= 0xDC00 && u <= 0xDFFF {
            return Err(DecodeError::InvalidStringEncoding);
        } else {
            let c = match char_from_u32(u as u32) {
                Some(c) => c,
                None => {
                    assert(false);
                    return Err(DecodeError::InvalidStringEncoding);
                },
            };
            proof {
                vstd::utf8::char_u32_cast(c, u as u32);
                if let Some(rest) = decode_units(units@, i + 1, to as int) {
                    assert(out@ + (seq![c] + rest) =~= out@.push(c) + rest);
                }
            }
            push_char(&mut out, c);
            i = i + 1;
        }
    }
    assert(out@ + Seq::<char>::empty() =~= out@);
    Ok(out)
}

/// Decodes a fixed-length UTF-16 field: reads exactly `nbytes` bytes and
/// keeps the characters before the first null code unit.
pub fn read_utf16_exact(src: &mut ByteSource, nbytes: u64) -> (r: Result<String, DecodeError>)
    ensures
        final(src).bytes() == old(src).bytes(),
        ({
            let sr = spec_utf16_exact(old(src).bytes(), old(src).pos() as int, nbytes as int);
            match sr {
                Ok(chars) => r matches Ok(st) && st@ == chars && final(src).pos() == old(src).pos()
                    + nbytes,
                Err(e) => r == Err::<String, DecodeError>(e),
            }
        }),
{
    let units = match read_units(src, nbytes) {
        Ok(u) => u,
        Err(e) => {
            return Err(e);
        },
    };
    proof {
        lemma_units_in_len(old(src).bytes(), old(src).pos() as int, nbytes as int / 2);
        lemma_first_null_bounds(units@, 0);
    }
    let j = find_null(&units, 0);
    decode_range(&units, 0, j)
}

/// Decodes a length-prefixed UTF-16 string: a two-byte little-endian unit
/// count, then that many code units.
pub fn read_sized_utf16(src: &mut ByteSource) -> (r: Result<String, DecodeError>)
    ensures
        final(src).bytes() == old(src).bytes(),
        ({
            let sr = spec_sized_utf16(old(src).bytes(), old(src).pos() as int);
            match sr {
                Ok(p) => r matches Ok(st) && st@ == p.0 && final(src).pos() == p.1,
                Err(e) => r == Err::<String, DecodeError>(e),
            }
        }),
{
    let n = match src.read_u16_le() {
        Ok(n) => n,
        Err(e) => {
            return Err(e);
        },
    };
    let units = match read_units(src, 2 * (n as u64)) {
        Ok(u) => u,
        Err(e) => {
            return Err(e);
        },
    };
    proof {
        lemma_units_in_len(src.bytes(), old(src).pos() + 2, n as int);
    }
    decode_range(&units, 0, units.len())
}

/// What reading `count` length-prefixed UTF-16 strings in sequence from
/// offset `pos` yields: the strings in order, or the first error.
pub open spec fn spec_folder_list(s: Seq<u8>, pos: int, count: int) -> Result<
    Seq<Seq<char>>,
    DecodeError,
>
    decreases count,
{
    if count <= 0 {
        Ok(seq![])
    } else {
        match spec_sized_utf16(s, pos) {
            Err(e) => Err(e),
            Ok(p) => match spec_folder_list(s, p.1, count - 1) {
                Err(e) => Err(e),
                Ok(rest) => Ok(seq![p.0] + rest),
            },
        }
    }
}

/// A count that asks for more length-prefixed strings than the bytes after
/// `pos` can hold ends in an error: each string needs at least its two-byte
/// length prefix, so the run is reported truncated, unless an earlier string
/// already failed to decode.
pub proof fn lemma_folder_count_overrun(s: Seq<u8>, pos: int, count: int)
    requires
        1 <= count,
        s.len() - pos < 2 * count,
    ensures
        spec_folder_list(s, pos, count) is Err,
        spec_folder_list(s, pos, count) matches Err(e) ==> e == DecodeError::Truncated || e
            == DecodeError::InvalidStringEncoding,
    decreases count,
{
    match spec_sized_utf16(s, pos) {
        Err(e) => {
            assert(spec_folder_list(s, pos, count) == Err::<Seq<Seq<char>>, DecodeError>(e));
            assert(e == DecodeError::Truncated || e == DecodeError::InvalidStringEncoding);
        },
        Ok(p) => {
            let n = le16_at(s, pos) as int;
            assert(p.1 == pos + 2 + 2 * n);
            assert(s.len() - p.1 < 2 * (count - 1));
            lemma_folder_count_overrun(s, p.1, count - 1);
        },
    }
}

/// Reads `count` length-prefixed UTF-16 strings in sequence from the
/// source's current position, in file order.
pub fn read_folder_list(src: &mut ByteSource, count: u32) -> (r: Result<Vec<String>, DecodeError>)
    ensures
        final(src).bytes() == old(src).bytes(),
        ({
            let sr = spec_folder_list(old(src).bytes(), old(src).pos() as int, count as int);
            match sr {
                Ok(l) => r matches Ok(v) && v.deep_view() == l,
                Err(e) => r == Err::<Vec<String>, DecodeError>(e),
            }
        }),
{
    let ghost s = old(src).bytes();
    let ghost whole = spec_folder_list(s, old(src).pos() as int, count as int);
    let mut out: Vec<String> = Vec::new();
    let mut k: u32 = 0;
    proof {
        assert(out.deep_view() =~= Seq::<Seq<char>>::empty());
        if let Ok(rest) = whole {
            assert(out.deep_view() + rest =~= rest);
        }
    }
    while k < count
        invariant
            k <= count,
            s == old(src).bytes(),
            src.bytes() == s,
            whole == spec_folder_list(s, old(src).pos() as int, count as int),
            whole == (match spec_folder_list(s, src.pos() as int, (count - k) as int) {
                Ok(rest) => Ok::<Seq<Seq<char>>, DecodeError>(out.deep_view() + rest),
                Err(e) => Err::<Seq<Seq<char>>, DecodeError>(e),
            }),
        decreases count - k,
    {
        let decoded = match read_sized_utf16(src) {
            Ok(st) => st,
            Err(e) => {
                return Err(e);
            },
        };
        let ghost out_old = out.deep_view();
        let ghost chars = decoded@;
        out.push(decoded);
        proof {
            assert(out.deep_view() =~= out_old.push(chars));
            if let Ok(rest) = spec_folder_list(s, src.pos() as int, (count - k - 1) as int) {
                assert(out_old + (seq![chars] + rest) =~= out_old.push(chars) + rest);
            }
        }
        k = k + 1;
    }
    Ok(out)
}

/// Decodes a bounded list: a span of `nbytes` bytes of null-terminated
/// UTF-16 strings, in file order.
pub fn read_utf16_list(src: &mut ByteSource, nbytes: u64) -> (r: Result<Vec<String>, DecodeError>)
    ensures
        final(src).bytes() == old(src).bytes(),
        ({
            let sr = spec_utf16_list(old(src).bytes(), old(src).pos() as int, nbytes as int);
            match sr {
                Ok(l) => r matches Ok(v) && v.deep_view() == l && final(src).pos() == old(
                    src,
                ).pos() + nbytes,
                Err(e) => r == Err::<Vec<String>, DecodeError>(e),
            }
        }),
{
    let units = match read_units(src, nbytes) {
        Ok(u) => u,
        Err(e) => {
            return Err(e);
        },
    };
    let ghost whole = decode_list_from(units@, 0);
    let n = units.len();
    let mut out: Vec<String> = Vec::new();
    let mut i: usize = 0;
    proof {
        assert(out.deep_view() =~= Seq::<Seq<char>>::empty());
        if let Some(rest) = decode_list_from(units@, 0) {
            assert(out.deep_view() + rest =~= rest);
        }
    }
    while i < n
        invariant
            i <= n == units@.len(),
            src.bytes() == old(src).bytes(),
            src.pos() == old(src).pos() + nbytes,
            spec_read_units(old(src).bytes(), old(src).pos() as int, nbytes as int) == Ok::<
                Seq<u16>,
                DecodeError,
            >(units@),
            whole == decode_list_from(units@, 0),
            whole == (match decode_list_from(units@, i as int) {
                Some(rest) => Some(out.deep_view() + rest),
                None => None::<Seq<Seq<char>>>,
            }),
        decreases n - i,
    {
        proof {
            lemma_first_null_bounds(units@, i as int);
        }
        let j = find_null(&units, i);
        let piece = match decode_range(&units, i, j) {
            Ok(st) => st,
            Err(e) => {
                return Err(e);
            },
        };
        let ghost out_old = out.deep_view();
        let ghost chars = piece@;
        out.push(piece);
        proof {
            assert(out.deep_view() =~= out_old.push(chars));
            if j < n {
                if let Some(rest) = decode_list_from(units@, j + 1) {
                    assert(out_old + (seq![chars] + rest) =~= out_old.push(chars) + rest);
                }
            } else {
                assert(out_old + seq![chars] =~= out_old.push(chars));
                assert(out_old.push(chars) + Seq::<Seq<char>>::empty() =~= out_old.push(chars));
            }
        }
        i = if j < n {
            j + 1
        } else {
            n
        };
    }
    Ok(out)
}

} // verus!
