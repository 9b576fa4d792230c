use vstd::prelude::*;
use crate::display::{Colour, Colours};

verus! {

// The palette file: one line per colour index, "r g b" as decimal bytes
// separated by single spaces; '#' starts a comment, trailing spaces are
// ignored, and an empty line leaves its colour black.

/// Why a palette file cannot be used.
#[derive(Debug, PartialEq, Eq, Structural)]
pub enum PaletteError {
    /// The line (counted from 0) is not three or more decimal bytes.
    Malformed(usize),
    /// A colour line beyond the 128 entries of the table.
    TooManyLines(usize),
}

/// `s` cut at each `sep`, as `str::split` does.
pub open spec fn split(s: Seq<u8>, sep: u8) -> Seq<Seq<u8>>
    decreases s.len(),
{
    if s.len() == 0 {
        seq![Seq::empty()]
    } else {
        let init = split(s.drop_last(), sep);
        if s.last() == sep {
            init.push(Seq::empty())
        } else {
            init.update(init.len() - 1, init.last().push(s.last()))
        }
    }
}

/// `s` without its trailing spaces.
pub open spec fn trim_end(s: Seq<u8>) -> Seq<u8>
    decreases s.len(),
{
    if s.len() > 0 && s.last() == 0x20 {
        trim_end(s.drop_last())
    } else {
        s
    }
}

pub open spec fn is_digit(b: u8) -> bool {
    0x30 <= b <= 0x39
}

/// Decimal value of a run of digits.
pub open spec fn number_value(s: Seq<u8>) -> int
    decreases s.len(),
{
    if s.len() == 0 {
        0
    } else {
        number_value(s.drop_last()) * 10 + (s.last() - 0x30)
    }
}

/// A decimal byte: one or more digits, value at most 255.
pub open spec fn is_byte_field(f: Seq<u8>) -> bool {
    f.len() > 0 && (forall|i: int| 0 <= i < f.len() ==> is_digit(#[trigger] f[i])) && number_value(f) <= 255
}

/// The fields of a line: before any '#', trailing spaces removed, cut at
/// spaces.
pub open spec fn line_fields(line: Seq<u8>) -> Seq<Seq<u8>> {
    split(trim_end(split(line, 0x23)[0]), 0x20)
}

pub open spec fn line_ok(line: Seq<u8>) -> bool {
    line.len() == 0 || (line_fields(line).len() >= 3 && forall|k: int|
        0 <= k < line_fields(line).len() ==> is_byte_field(#[trigger] line_fields(line)[k]))
}

pub open spec fn line_colour(line: Seq<u8>) -> Colour {
    let f = line_fields(line);
    Colour { r: number_value(f[0]) as u8, g: number_value(f[1]) as u8, b: number_value(f[2]) as u8 }
}

pub open spec fn text_lines(text: Seq<u8>) -> Seq<Seq<u8>> {
    split(text, 0x0A)
}

/// Whether every line is well formed and every colour line has an entry.
pub open spec fn palette_ok(text: Seq<u8>) -> bool {
    forall|j: int|
        0 <= j < text_lines(text).len() ==> line_ok(#[trigger] text_lines(text)[j]) && (
        text_lines(text)[j].len() > 0 ==> j < 128)
}

/// Entry `j` of the table a well-formed palette text gives.
pub open spec fn palette_entry(text: Seq<u8>, j: int) -> Colour {
    if j < text_lines(text).len() && text_lines(text)[j].len() > 0 {
        line_colour(text_lines(text)[j])
    } else {
        Colour { r: 0, g: 0, b: 0 }
    }
}

proof fn lemma_split_len(s: Seq<u8>, sep: u8)
    ensures
        split(s, sep).len() >= 1,
    decreases s.len(),
{
    if s.len() > 0 {
        lemma_split_len(s.drop_last(), sep);
    }
}

proof fn lemma_split_step(s: Seq<u8>, i: int, sep: u8)
    requires
        0 <= i < s.len(),
    ensures
        s.take(i + 1).drop_last() == s.take(i),
        s.take(i + 1).last() == s[i],
        split(s.take(i), sep).len() >= 1,
{
    assert(s.take(i + 1).drop_last() =~= s.take(i));
    lemma_split_len(s.take(i), sep);
}

/// Content of a line before its first '#'.
fn before_hash(line: &Vec<u8>) -> (r: Vec<u8>)
    ensures
        r@ == split(line@, 0x23)[0],
{
    let mut r: Vec<u8> = Vec::new();
    let mut i: usize = 0;
    let mut seen = false;
    while i < line.len()
        invariant
            i <= line@.len(),
            split(line@.take(i as int), 0x23).len() >= 1,
            r@ == split(line@.take(i as int), 0x23)[0],
            seen == (split(line@.take(i as int), 0x23).len() > 1),
        decreases line.len() - i,
    {
        proof {
            lemma_split_step(line@, i as int, 0x23);
        }
        if line[i] == 0x23 {
            seen = true;
        } else if !seen {
            r.push(line[i]);
        }
        i += 1;
    }
    proof {
        assert(line@.take(i as int) =~= line@);
    }
    r
}

/// `s` without trailing spaces.
fn trimmed(s: Vec<u8>) -> (r: Vec<u8>)
    ensures
        r@ == trim_end(s@),
{
    let mut r = s;
    while r.len() > 0 && r[r.len() - 1] == 0x20
        invariant
            trim_end(r@) == trim_end(s@),
        decreases r.len(),
    {
        r.pop();
    }
    r
}

/// Whether all of `f` are digits.
pub open spec fn all_digits(f: Seq<u8>) -> bool {
    forall|i: int| 0 <= i < f.len() ==> is_digit(#[trigger] f[i])
}

/// The first three fields of `t` cut at spaces, when every field is a
/// decimal byte and there are three or more.
fn parse_fields(t: &Vec<u8>) -> (r: Option<(u8, u8, u8)>)
    ensures
        r.is_some() <==> (split(t@, 0x20).len() >= 3 && forall|k: int|
            0 <= k < split(t@, 0x20).len() ==> is_byte_field(#[trigger] split(t@, 0x20)[k])),
        r.is_some() ==> r.unwrap() == (
            number_value(split(t@, 0x20)[0]) as u8,
            number_value(split(t@, 0x20)[1]) as u8,
            number_value(split(t@, 0x20)[2]) as u8,
        ),
{
    let mut count: usize = 0;
    let mut completed_ok = true;
    let mut cur_len: usize = 0;
    let mut cur_digits = true;
    let mut cur_big = false;
    let mut cur_value: u16 = 0;
    let mut v0: u8 = 0;
    let mut v1: u8 = 0;
    let mut v2: u8 = 0;
    let mut i: usize = 0;
    while i < t.len()
        invariant
            i <= t@.len(),
            ({
                let sp = split(t@.take(i as int), 0x20);
                let last = sp[sp.len() - 1];
                &&& sp.len() == count + 1
                &&& completed_ok == (forall|k: int| 0 <= k < count ==> is_byte_field(#[trigger] sp[k]))
                &&& cur_len == last.len()
                &&& cur_digits == all_digits(last)
                &&& cur_digits ==> (cur_big == (number_value(last) > 255))
                &&& cur_digits && !cur_big ==> cur_value == number_value(last)
                &&& cur_value <= 255
                &&& (count > 0 && completed_ok ==> v0 == number_value(sp[0]))
                &&& (count > 1 && completed_ok ==> v1 == number_value(sp[1]))
                &&& (count > 2 && completed_ok ==> v2 == number_value(sp[2]))
            }),
            count <= i,
            cur_len <= i,
        decreases t.len() - i,
    {
        proof {
            lemma_split_step(t@, i as int, 0x20);
        }
        let c = t[i];
        let ghost sp = split(t@.take(i as int), 0x20);
        let ghost last = sp[sp.len() - 1];
        if c == 0x20 {
            let field_ok = cur_len > 0 && cur_digits && !cur_big;
            let ghost old_ok = completed_ok;
            let ghost old_count = count as int;
            if completed_ok && field_ok {
                if count == 0 {
                    v0 = cur_value as u8;
                } else if count == 1 {
                    v1 = cur_value as u8;
                } else if count == 2 {
                    v2 = cur_value as u8;
                }
            }
            completed_ok = completed_ok && field_ok;
            count += 1;
            cur_len = 0;
            cur_digits = true;
            cur_big = false;
            cur_value = 0;
            proof {
                let nsp = split(t@.take(i + 1), 0x20);
                assert(nsp == sp.push(Seq::<u8>::empty()));
                assert(nsp[nsp.len() - 1] =~= Seq::<u8>::empty());
                assert(all_digits(nsp[nsp.len() - 1]));
                assert(field_ok == is_byte_field(last));
                assert forall|k: int| 0 <= k < count implies nsp[k] == sp[k] by {}
                if completed_ok {
                    assert forall|k: int| 0 <= k < count implies is_byte_field(#[trigger] nsp[k]) by {
                        if k < old_count {
                            assert(is_byte_field(sp[k]));
                        }
                    }
                } else if !old_ok {
                    let k = choose|k: int| 0 <= k < old_count && !is_byte_field(#[trigger] sp[k]);
                    assert(!is_byte_field(nsp[k]));
                } else {
                    assert(!is_byte_field(nsp[old_count]));
                }
            }
        } else {
            let digit = 0x30 <= c && c <= 0x39;
            let ghost nlast = last.push(c);
            proof {
                assert(nlast.drop_last() =~= last);
            }
            if cur_digits && digit && !cur_big {
                let nv = cur_value * 10 + (c - 0x30) as u16;
                if nv > 255 {
                    cur_big = true;
                } else {
                    cur_value = nv;
                }
            }
            cur_digits = cur_digits && digit;
            cur_len += 1;
            proof {
                let nsp = split(t@.take(i + 1), 0x20);
                assert(nsp == sp.update(sp.len() - 1, nlast));
                assert(nsp[nsp.len() - 1] == nlast);
                if cur_digits {
                    assert(all_digits(last)) by {
                        assert forall|j: int| 0 <= j < last.len() implies is_digit(#[trigger] last[j]) by {
                            assert(nlast[j] == last[j]);
                        }
                    }
                }
                if all_digits(nlast) {
                    assert(all_digits(last)) by {
                        assert forall|j: int| 0 <= j < last.len() implies is_digit(#[trigger] last[j]) by {
                            assert(nlast[j] == last[j]);
                        }
                    }
                }
                if !digit {
                    assert(!is_digit(nlast[nlast.len() - 1]));
                }
                assert forall|k: int| 0 <= k < count implies nsp[k] == sp[k] by {}
            }
        }
        i += 1;
    }
    proof {
        assert(t@.take(i as int) =~= t@);
    }
    let ghost sp = split(t@, 0x20);
    let last_ok = cur_len > 0 && cur_digits && !cur_big;
    if completed_ok && last_ok && count >= 2 {
        if count == 2 {
            v2 = cur_value as u8;
        }
        proof {
            assert forall|k: int| 0 <= k < sp.len() implies is_byte_field(#[trigger] sp[k]) by {}
        }
        Some((v0, v1, v2))
    } else {
        proof {
            if count >= 2 && !last_ok {
                assert(!is_byte_field(sp[sp.len() - 1]));
            }
            if count >= 2 && !completed_ok {
                let k = choose|k: int| 0 <= k < count && !is_byte_field(#[trigger] sp[k]);
                assert(!is_byte_field(sp[k]));
            }
        }
        None
    }
}

/// Completed pieces of a prefix stay pieces of the whole.
proof fn lemma_split_prefix(s: Seq<u8>, i: int, j: int, sep: u8)
    requires
        0 <= i <= j <= s.len(),
    ensures
        split(s.take(j), sep).len() >= split(s.take(i), sep).len(),
        forall|k: int|
            0 <= k < split(s.take(i), sep).len() - 1 ==> #[trigger] split(s.take(j), sep)[k] == split(
                s.take(i),
                sep,
            )[k],
    decreases j - i,
{
    lemma_split_len(s.take(i), sep);
    if j > i {
        lemma_split_prefix(s, i, j - 1, sep);
        lemma_split_step(s, j - 1, sep);
    }
}

/// The colour of one line: `Some(None)` for an empty line, `None` when it
/// is malformed.
fn parse_line(line: &Vec<u8>) -> (r: Option<Option<Colour>>)
    ensures
        line@.len() == 0 ==> r == Some(Option::<Colour>::None),
        line@.len() > 0 ==> (r.is_some() <==> line_ok(line@)),
        line@.len() > 0 && r.is_some() ==> r == Some(Some(line_colour(line@))),
{
    if line.len() == 0 {
        return Some(None);
    }
    let content = before_hash(line);
    let t = trimmed(content);
    match parse_fields(&t) {
        Some((r, g, b)) => Some(Some(Colour::new(r, g, b))),
        None => None,
    }
}

impl Colours {
    /// Loads the table from the text of a palette file (see the format
    /// above). On an error the table is left as it was.
    pub fn load(&mut self, text: &Vec<u8>) -> (r: Result<(), PaletteError>)
        requires
            old(self).wf(),
        ensures
            final(self).wf(),
            r.is_ok() <==> palette_ok(text@),
            r.is_ok() ==> forall|j: int| 0 <= j < 128 ==> final(self).colours@[j] == palette_entry(text@, j),
            r.is_err() ==> *final(self) == *old(self),
    {
        let mut table = Colours::new();
        let mut cur: Vec<u8> = Vec::new();
        let mut line: usize = 0;
        let mut i: usize = 0;
        while i < text.len()
            invariant
                i <= text@.len(),
                table.wf(),
                line <= i,
                *self == *old(self),
                old(self).wf(),
                ({
                    let sp = split(text@.take(i as int), 0x0A);
                    &&& sp.len() == line + 1
                    &&& cur@ == sp[sp.len() - 1]
                    &&& forall|k: int| 0 <= k < line ==> line_ok(#[trigger] sp[k]) && (sp[k].len() > 0 ==> k < 128)
                    &&& forall|j: int| 0 <= j < 128 ==> #[trigger] table.colours@[j] == if j < line && sp[j].len() > 0 {
                        line_colour(sp[j])
                    } else {
                        Colour { r: 0, g: 0, b: 0 }
                    }
                }),
            decreases text.len() - i,
        {
            proof {
                lemma_split_step(text@, i as int, 0x0A);
            }
            let ghost sp = split(text@.take(i as int), 0x0A);
            if text[i] == 0x0A {
                let parsed = parse_line(&cur);
                proof {
                    lemma_split_prefix(text@, i + 1, text@.len() as int, 0x0A);
                    assert(text@.take(text@.len() as int) =~= text@);
                    assert(split(text@.take(i + 1), 0x0A)[line as int] == cur@);
                }
                match parsed {
                    None => {
                        proof {
                            assert(!line_ok(text_lines(text@)[line as int]));
                        }
                        return Err(PaletteError::Malformed(line));
                    },
                    Some(Some(c)) => {
                        if line >= 128 {
                            proof {
                                assert(text_lines(text@)[line as int].len() > 0);
                            }
                            return Err(PaletteError::TooManyLines(line));
                        }
                        table.colours.set(line, c);
                    },
                    Some(None) => {},
                }
                proof {
                    let nsp = split(text@.take(i + 1), 0x0A);
                    assert(nsp == sp.push(Seq::<u8>::empty()));
                    assert forall|k: int| 0 <= k <= line implies nsp[k] == sp[k] by {}
                }
                line += 1;
                cur = Vec::new();
                proof {
                    let nsp = split(text@.take(i + 1), 0x0A);
                    assert(cur@ =~= nsp[nsp.len() - 1]);
                }
            } else {
                cur.push(text[i]);
                proof {
                    let nsp = split(text@.take(i + 1), 0x0A);
                    assert(nsp == sp.update(sp.len() - 1, sp[sp.len() - 1].push(text@[i as int])));
                    assert forall|k: int| 0 <= k < line implies nsp[k] == sp[k] by {}
                }
            }
            i += 1;
        }
        proof {
            assert(text@.take(i as int) =~= text@);
        }
        let parsed = parse_line(&cur);
        match parsed {
            None => {
                proof {
                    assert(!line_ok(text_lines(text@)[line as int]));
                }
                return Err(PaletteError::Malformed(line));
            },
            Some(Some(c)) => {
                if line >= 128 {
                    proof {
                        assert(text_lines(text@)[line as int].len() > 0);
                    }
                    return Err(PaletteError::TooManyLines(line));
                }
                table.colours.set(line, c);
            },
            Some(None) => {},
        }
        proof {
            let sp = text_lines(text@);
            assert forall|j: int| 0 <= j < sp.len() implies line_ok(#[trigger] sp[j]) && (sp[j].len() > 0 ==> j < 128) by {}
        }
        *self = table;
        Ok(())
    }
}

} // verus!
