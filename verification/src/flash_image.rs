//! Parser for the textual flash-image format the initial-state
//! collaborator supplies: lines of comma-separated decimal byte values.
//!
//! Empty fields are skipped; a line with any malformed field contributes
//! nothing; the bytes of the remaining lines are concatenated in order. A
//! line terminated by a newline sheds one trailing carriage return first.

use vstd::prelude::*;

verus! {

/// An ASCII decimal digit.
pub open spec fn is_digit(c: u8) -> bool {
    48 <= c <= 57
}

/// The value of a digit string read in decimal.
pub open spec fn dec_value(d: Seq<u8>) -> int
    decreases d.len(),
{
    if d.len() == 0 {
        0
    } else {
        dec_value(d.drop_last()) * 10 + (d.last() - 48)
    }
}

/// Every byte of the sequence is an ASCII decimal digit.
pub open spec fn all_digits(d: Seq<u8>) -> bool {
    forall|i: int| 0 <= i < d.len() ==> is_digit(#[trigger] d[i])
}

/// The digits of a field: an optional leading plus sign is shed.
pub open spec fn field_digits(f: Seq<u8>) -> Seq<u8> {
    if f.len() > 0 && f[0] == 43 {
        f.skip(1)
    } else {
        f
    }
}

/// A field parses as a byte exactly when, after an optional leading plus
/// sign, it is one or more decimal digits whose value fits in a byte.
pub open spec fn parse_field(f: Seq<u8>) -> Option<u8> {
    let d = field_digits(f);
    if d.len() > 0 && all_digits(d) && dec_value(d) <= 255 {
        Some(dec_value(d) as u8)
    } else {
        None
    }
}

/// The first position at or after `i` holding `sep`, or the length if
/// none does.
pub open spec fn break_at(s: Seq<u8>, i: int, sep: u8) -> int
    decreases s.len() - i,
{
    if i < 0 || i >= s.len() {
        s.len() as int
    } else if s[i] == sep {
        i
    } else {
        break_at(s, i + 1, sep)
    }
}

/// `break_at` stays between its start and the length, lands on the
/// separator when it is short of the length, and skips no earlier
/// separator.
pub proof fn lemma_break_at(s: Seq<u8>, i: int, sep: u8)
    requires
        0 <= i <= s.len(),
    ensures
        i <= break_at(s, i, sep) <= s.len(),
        break_at(s, i, sep) < s.len() ==> s[break_at(s, i, sep)] == sep,
        forall|k: int| i <= k < break_at(s, i, sep) ==> s[k] != sep,
    decreases s.len() - i,
{
    if i < s.len() && s[i] != sep {
        lemma_break_at(s, i + 1, sep);
    }
}

/// The bytes of one line's fields from position `i` on: comma-separated,
/// empty fields skipped, or nothing if any remaining field is malformed.
pub open spec fn parse_line_from(line: Seq<u8>, i: int) -> Option<Seq<u8>>
    decreases line.len() + 1 - i,
{
    if i < 0 || i >= line.len() {
        Some(Seq::empty())
    } else {
        let b = break_at(line, i, 44);
        let j = if b < i {
            i
        } else if b > line.len() {
            line.len() as int
        } else {
            b
        };
        let f = line.subrange(i, j);
        let rest = parse_line_from(line, j + 1);
        if f.len() == 0 {
            rest
        } else {
            match (parse_field(f), rest) {
                (Some(v), Some(r)) => Some(seq![v] + r),
                _ => None,
            }
        }
    }
}

/// The bytes one whole line contributes: its parsed fields, or nothing if
/// any field is malformed.
pub open spec fn line_bytes(line: Seq<u8>) -> Seq<u8> {
    match parse_line_from(line, 0) {
        Some(bs) => bs,
        None => Seq::empty(),
    }
}

/// Sheds one trailing carriage return.
pub open spec fn strip_cr(line: Seq<u8>) -> Seq<u8> {
    if line.len() > 0 && line.last() == 13 {
        line.drop_last()
    } else {
        line
    }
}

/// The flash image the text from position `i` on denotes: the lines'
/// bytes concatenated, each newline-terminated line shedding one trailing
/// carriage return first.
pub open spec fn image_from(text: Seq<u8>, i: int) -> Seq<u8>
    decreases text.len() + 1 - i,
{
    if i < 0 || i >= text.len() {
        Seq::empty()
    } else {
        let b = break_at(text, i, 10);
        let j = if b < i {
            i
        } else if b > text.len() {
            text.len() as int
        } else {
            b
        };
        let raw = text.subrange(i, j);
        let line = if j < text.len() {
            strip_cr(raw)
        } else {
            raw
        };
        line_bytes(line) + image_from(text, j + 1)
    }
}

/// The flash image a whole text denotes.
pub open spec fn flash_image_spec(text: Seq<u8>) -> Seq<u8> {
    image_from(text, 0)
}

/// Finds the first position at or after `start` holding `sep`, or the
/// length if none does.
fn find_byte(s: &[u8], start: usize, sep: u8) -> (r: usize)
    requires
        start <= s@.len(),
    ensures
        r == break_at(s@, start as int, sep),
        start <= r <= s@.len(),
{
    let mut j = start;
    while j < s.len()
        invariant
            start <= j <= s@.len(),
            break_at(s@, start as int, sep) == break_at(s@, j as int, sep),
        decreases s@.len() - j,
    {
        if s[j] == sep {
            return j;
        }
        assert(break_at(s@, j as int, sep) == break_at(s@, j + 1, sep));
        j = j + 1;
    }
    j
}

/// Copies `s[from .. to]` out into a fresh vector.
fn copy_range(s: &[u8], from: usize, to: usize) -> (r: Vec<u8>)
    requires
        from <= to <= s@.len(),
    ensures
        r@ == s@.subrange(from as int, to as int),
{
    let mut out: Vec<u8> = Vec::new();
    let mut k = from;
    while k < to
        invariant
            from <= k <= to <= s@.len(),
            out@ == s@.subrange(from as int, k as int),
        decreases to - k,
    {
        out.push(s[k]);
        proof {
            assert(s@.subrange(from as int, k + 1) =~= s@.subrange(from as int, k as int).push(
                s@[k as int],
            ));
        }
        k = k + 1;
    }
    out
}

/// Parses one field as a decimal byte value.
fn parse_u8_field(f: &[u8]) -> (r: Option<u8>)
    ensures
        r == parse_field(f@),
{
    let start: usize = if f.len() > 0 && f[0] == 43 {
        1
    } else {
        0
    };
    proof {
        assert(field_digits(f@) =~= f@.subrange(start as int, f@.len() as int));
    }
    if start >= f.len() {
        return None;
    }
    let mut val: u32 = 0;
    let mut k = start;
    while k < f.len()
        invariant
            start <= k <= f@.len(),
            field_digits(f@) == f@.subrange(start as int, f@.len() as int),
            val <= 256,
            all_digits(f@.subrange(start as int, k as int)),
            dec_value(f@.subrange(start as int, k as int)) >= 0,
            (dec_value(f@.subrange(start as int, k as int)) <= 255 && val == dec_value(
                f@.subrange(start as int, k as int),
            )) || (dec_value(f@.subrange(start as int, k as int)) > 255 && val == 256),
        decreases f@.len() - k,
    {
        let c = f[k];
        if !(48 <= c && c <= 57) {
            proof {
                let d = field_digits(f@);
                assert(d[k - start] == c);
                assert(!all_digits(d));
            }
            return None;
        }
        proof {
            let pre = f@.subrange(start as int, k as int);
            let nxt = f@.subrange(start as int, k + 1);
            assert(nxt =~= pre.push(f@[k as int]));
            assert(nxt.drop_last() =~= pre);
            assert(dec_value(nxt) == dec_value(pre) * 10 + (c - 48));
        }
        val = val * 10 + ((c - 48) as u32);
        if val > 255 {
            val = 256;
        }
        k = k + 1;
    }
    proof {
        assert(f@.subrange(start as int, f@.len() as int) =~= field_digits(f@));
    }
    if val <= 255 {
        Some(val as u8)
    } else {
        None
    }
}

/// Parses one line of comma-separated decimal byte values: empty fields
/// are skipped; any malformed field voids the whole line.
fn parse_line(line: &[u8]) -> (r: Option<Vec<u8>>)
    ensures
        match r {
            Some(v) => parse_line_from(line@, 0) == Some(v@),
            None => parse_line_from(line@, 0) is None,
        },
{
    let mut out: Vec<u8> = Vec::new();
    let mut i: usize = 0;
    while i < line.len()
        invariant
            i <= line@.len(),
            match parse_line_from(line@, i as int) {
                Some(rest) => parse_line_from(line@, 0) == Some(out@ + rest),
                None => parse_line_from(line@, 0) is None,
            },
        decreases line@.len() - i,
    {
        let j = find_byte(line, i, 44);
        proof {
            lemma_break_at(line@, i as int, 44);
        }
        if j == i {
            i = j + 1;
        } else {
            let field = copy_range(line, i, j);
            match parse_u8_field(field.as_slice()) {
                Some(v) => {
                    let ghost out0 = out@;
                    out.push(v);
                    proof {
                        match parse_line_from(line@, j + 1) {
                            Some(r) => {
                                assert(out0 + (seq![v] + r) =~= out@ + r);
                                if j == line@.len() {
                                    assert(out0 + (seq![v] + r) =~= out@ + Seq::<u8>::empty());
                                }
                            },
                            None => {},
                        }
                    }
                    i = if j < line.len() {
                        j + 1
                    } else {
                        line.len()
                    };
                },
                None => {
                    return None;
                },
            }
        }
    }
    proof {
        assert(out@ + Seq::<u8>::empty() =~= out@);
    }
    Some(out)
}

/// Parses the whole flash-image text: the surviving lines' bytes, in
/// order.
pub fn parse_flash_image(text: &[u8]) -> (r: Vec<u8>)
    ensures
        r@ == flash_image_spec(text@),
{
    let mut out: Vec<u8> = Vec::new();
    let mut i: usize = 0;
    while i < text.len()
        invariant
            i <= text@.len(),
            flash_image_spec(text@) == out@ + image_from(text@, i as int),
        decreases text@.len() - i,
    {
        let j = find_byte(text, i, 10);
        proof {
            lemma_break_at(text@, i as int, 10);
        }
        let mut line = copy_range(text, i, j);
        if j < text.len() {
            if line.len() > 0 && line[line.len() - 1] == 13 {
                line.pop();
            }
        }
        proof {
            let raw = text@.subrange(i as int, j as int);
            let stripped = if (j as int) < text@.len() {
                strip_cr(raw)
            } else {
                raw
            };
            assert(line@ =~= stripped);
        }
        let ghost out0 = out@;
        match parse_line(line.as_slice()) {
            Some(bs) => {
                crate::codec::push_all(&mut out, bs.as_slice());
            },
            None => (),
        }
        proof {
            assert(out@ =~= out0 + line_bytes(line@));
            assert(image_from(text@, i as int) == line_bytes(line@) + image_from(text@, j + 1));
            assert(out0 + image_from(text@, i as int) =~= out@ + image_from(text@, j + 1));
            if j == text@.len() {
                assert(out0 + image_from(text@, i as int) =~= out@ + image_from(
                    text@,
                    text@.len() as int,
                ));
            }
        }
        i = if j < text.len() {
            j + 1
        } else {
            text.len()
        };
    }
    out
}

} // verus!
