//! Parser for the plain-text environment listing of a backend:
//!
//! ```text
//! # conda environments:
//! #
//! base                  * /path/to/miniconda3
//! env1                     /path/to/miniconda3/envs/env1
//! ```
use crate::error::Result;
use crate::text::{char_is_space, chars_of, segments, word_scan, words};
use vstd::prelude::*;

verus! {

/// One environment known to the backend.
#[derive(Debug, Clone)]
pub struct CondaEnvironment {
    /// Environment name.
    pub name: String,
    /// Filesystem prefix of the environment.
    pub prefix: String,
    /// Whether this is the currently active environment.
    pub is_active: bool,
}

impl View for CondaEnvironment {
    type V = (Seq<char>, Seq<char>, bool);

    open spec fn view(&self) -> (Seq<char>, Seq<char>, bool) {
        (self.name@, self.prefix@, self.is_active)
    }
}

/// The entry a listing line describes: comment lines and lines with fewer
/// than two words describe none; a `*` second word marks the active
/// environment and moves the prefix to the third word.
pub open spec fn entry_of(line: Seq<char>) -> Option<(Seq<char>, Seq<char>, bool)> {
    if line.len() > 0 && line[0] == '#' {
        None
    } else {
        let w = words(line);
        if w.len() < 2 {
            None
        } else if w[1] == seq!['*'] {
            if w.len() >= 3 {
                Some((w[0], w[2], true))
            } else {
                None
            }
        } else {
            Some((w[0], w[1], false))
        }
    }
}

/// The entries of a sequence of lines, in order.
pub open spec fn entries_of(lines: Seq<Seq<char>>) -> Seq<(Seq<char>, Seq<char>, bool)>
    decreases lines.len(),
{
    if lines.len() == 0 {
        Seq::empty()
    } else {
        let init = entries_of(lines.drop_last());
        match entry_of(lines.last()) {
            Some(e) => init.push(e),
            None => init,
        }
    }
}

/// The entries of a whole listing text.
pub open spec fn listing_of(text: Seq<char>) -> Seq<(Seq<char>, Seq<char>, bool)> {
    entries_of(segments(text))
}

pub open spec fn char_views(v: Seq<Vec<char>>) -> Seq<Seq<char>> {
    v.map_values(|w: Vec<char>| w@)
}

pub open spec fn entry_views(v: Seq<CondaEnvironment>) -> Seq<(Seq<char>, Seq<char>, bool)> {
    v.map_values(|e: CondaEnvironment| e@)
}

/// The text `String::from_utf8_lossy` decodes from `bytes`.
pub uninterp spec fn lossy_of(bytes: Seq<u8>) -> Seq<char>;

/// Relies on `String::from_utf8_lossy`: UTF-8 decoding with invalid sequences
/// replaced by U+FFFD.
#[verifier::external_body]
fn lossy_text(bytes: &[u8]) -> (r: String)
    ensures
        r@ == lossy_of(bytes@),
{
    String::from_utf8_lossy(bytes).into_owned()
}

/// Relies on `String`'s `FromIterator<&char>`: the characters in order.
#[verifier::external_body]
pub(crate) fn string_of(chars: &Vec<char>) -> (r: String)
    ensures
        r@ == chars@,
{
    chars.iter().collect()
}

/// Splits `line` into its whitespace-separated words.
pub fn words_of(line: &Vec<char>) -> (r: Vec<Vec<char>>)
    ensures
        char_views(r@) == words(line@),
{
    let mut done: Vec<Vec<char>> = Vec::new();
    let mut cur: Vec<char> = Vec::new();
    let n = line.len();
    let mut i: usize = 0;
    assert(line@.subrange(0, 0) =~= Seq::<char>::empty());
    while i < n
        invariant
            n == line@.len(),
            i <= n,
            (char_views(done@), cur@) == word_scan(line@.subrange(0, i as int)),
        decreases n - i,
    {
        let c = line[i];
        let ghost pre = line@.subrange(0, i as int);
        assert(line@.subrange(0, i + 1).drop_last() =~= pre);
        assert(line@.subrange(0, i + 1).last() == c);
        if char_is_space(c) {
            if cur.len() > 0 {
                let ghost old_done = done@;
                done.push(cur);
                cur = Vec::new();
                assert(char_views(done@) =~= char_views(old_done).push(
                    word_scan(pre).1,
                ));
            }
        } else {
            cur.push(c);
        }
        i = i + 1;
    }
    assert(line@.subrange(0, n as int) =~= line@);
    if cur.len() > 0 {
        let ghost old_done = done@;
        let ghost last = cur@;
        done.push(cur);
        assert(char_views(done@) =~= char_views(old_done).push(last));
    }
    done
}

/// Whether `w` is the single character `*`.
fn is_star(w: &Vec<char>) -> (r: bool)
    ensures
        r == (w@ == seq!['*']),
{
    if w.len() == 1 && w[0] == '*' {
        assert(w@ =~= seq!['*']);
        true
    } else {
        false
    }
}

/// The entry that one listing line describes, if any.
pub fn entry_of_line(line: &Vec<char>) -> (r: Option<CondaEnvironment>)
    ensures
        match r {
            Some(e) => entry_of(line@) == Some(e@),
            None => entry_of(line@) is None,
        },
{
    if line.len() > 0 && line[0] == '#' {
        return None;
    }
    let w = words_of(line);
    assert(w@.len() == words(line@).len());
    if w.len() < 2 {
        return None;
    }
    assert(w@[0]@ == words(line@)[0]);
    assert(w@[1]@ == words(line@)[1]);
    if is_star(&w[1]) {
        if w.len() >= 3 {
            assert(w@[2]@ == words(line@)[2]);
            Some(CondaEnvironment { name: string_of(&w[0]), prefix: string_of(&w[2]), is_active: true })
        } else {
            None
        }
    } else {
        Some(CondaEnvironment { name: string_of(&w[0]), prefix: string_of(&w[1]), is_active: false })
    }
}

/// Parses a listing text into its entries, skipping comment, blank and
/// malformed lines.
pub fn parse_env_listing(text: &str) -> (r: Vec<CondaEnvironment>)
    ensures
        entry_views(r@) == listing_of(text@),
{
    let chars = chars_of(text);
    let n = chars.len();
    let mut out: Vec<CondaEnvironment> = Vec::new();
    let mut line: Vec<char> = Vec::new();
    let mut i: usize = 0;
    assert(chars@.subrange(0, 0) =~= Seq::<char>::empty());
    while i < n
        invariant
            n == chars@.len(),
            chars@ == text@,
            i <= n,
            segments(chars@.subrange(0, i as int)).len() >= 1,
            line@ == segments(chars@.subrange(0, i as int)).last(),
            entry_views(out@) == entries_of(segments(chars@.subrange(0, i as int)).drop_last()),
        decreases n - i,
    {
        let c = chars[i];
        let ghost pre = chars@.subrange(0, i as int);
        let ghost next = chars@.subrange(0, i + 1);
        assert(next.drop_last() =~= pre);
        assert(next.last() == c);
        proof {
            crate::text::lemma_segments_nonempty(next);
        }
        if c == '\n' {
            let ghost old_out = out@;
            let ghost segs = segments(pre);
            assert(segments(next) == segs.push(Seq::<char>::empty()));
            assert(segments(next).drop_last() =~= segs);
            assert(segs =~= segs.drop_last().push(segs.last()));
            match entry_of_line(&line) {
                Some(e) => {
                    out.push(e);
                    assert(entry_views(out@) =~= entry_views(old_out).push(e@));
                },
                None => {},
            }
            line = Vec::new();
        } else {
            let ghost segs = segments(pre);
            line.push(c);
            assert(segments(next).drop_last() =~= segs.drop_last());
        }
        i = i + 1;
    }
    assert(chars@.subrange(0, n as int) =~= chars@);
    let ghost segs = segments(chars@);
    assert(segs =~= segs.drop_last().push(segs.last()));
    let ghost old_out = out@;
    match entry_of_line(&line) {
        Some(e) => {
            out.push(e);
            assert(entry_views(out@) =~= entry_views(old_out).push(e@));
        },
        None => {},
    }
    out
}

/// Parses the raw listing output of a backend. Never fails: malformed lines
/// are skipped.
pub fn parse_conda_env_list(output: &[u8]) -> (r: Result<Vec<CondaEnvironment>>)
    ensures
        r is Ok,
        entry_views(r->Ok_0@) == listing_of(lossy_of(output@)),
{
    let content = lossy_text(output);
    Ok(parse_env_listing(content.as_str()))
}

/// `s` padded with spaces on the right to at least `width` characters.
pub open spec fn padded(s: Seq<char>, width: nat) -> Seq<char> {
    if s.len() < width {
        s + Seq::new((width - s.len()) as nat, |i: int| ' ')
    } else {
        s
    }
}

/// Width of the name column of the listing table.
pub const NAME_COLUMN: usize = 30;

/// The table line of an entry: its name (with `*` when active) padded to the
/// name column, a bar, and its prefix.
pub open spec fn table_row_of(e: CondaEnvironment) -> Seq<char> {
    padded(if e.is_active { e.name@ + seq!['*'] } else { e.name@ }, NAME_COLUMN as nat) + " | "@
        + e.prefix@
}

pub fn table_row(e: &CondaEnvironment) -> (r: String)
    ensures
        r@ == table_row_of(*e),
{
    let mut cells: Vec<char> = chars_of(e.name.as_str());
    if e.is_active {
        cells.push('*');
    }
    let ghost label = cells@;
    let n = cells.len();
    if n < NAME_COLUMN {
        let mut k: usize = n;
        while k < NAME_COLUMN
            invariant
                n <= k <= NAME_COLUMN,
                cells@ == label + Seq::new((k - n) as nat, |i: int| ' '),
            decreases NAME_COLUMN - k,
        {
            cells.push(' ');
            assert(cells@ =~= label + Seq::new((k + 1 - n) as nat, |i: int| ' '));
            k = k + 1;
        }
    }
    let mut r = string_of(&cells);
    r.append(" | ");
    r.append(e.prefix.as_str());
    r
}

} // verus!
