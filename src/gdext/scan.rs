//! The grammar of the lines that base-class inference reads.
//!
//! A line is a documentation comment when, after leading blanks, it starts
//! with `///`. A base declaration is the base marker, then `=`, then a word,
//! then `,` or `)`, with blanks allowed between them; an entity declaration is
//! the entity marker, then a word, then `{`, `;` or `<`. A word is a run of
//! ASCII letters, digits and underscores. Of several declarations on a line,
//! the leftmost counts.
use vstd::prelude::*;
use crate::text::push_char;

verus! {

/// A blank character.
pub open spec fn is_blank(c: char) -> bool {
    c == ' ' || c == '\t' || c == '\r' || c == '\n' || c == '\x0B' || c == '\x0C'
}

/// A character of a word: an ASCII letter or digit, or an underscore.
pub open spec fn is_word_char(c: char) -> bool {
    ('a' <= c && c <= 'z') || ('A' <= c && c <= 'Z') || ('0' <= c && c <= '9') || c == '_'
}

/// The first position at or after `q` that does not hold a blank.
pub open spec fn skip_blanks(line: Seq<char>, q: int) -> int
    decreases line.len() - q,
{
    if 0 <= q < line.len() && is_blank(line[q]) {
        skip_blanks(line, q + 1)
    } else {
        q
    }
}

/// The first position at or after `q` that does not hold a word character.
pub open spec fn word_end(line: Seq<char>, q: int) -> int
    decreases line.len() - q,
{
    if 0 <= q < line.len() && is_word_char(line[q]) {
        word_end(line, q + 1)
    } else {
        q
    }
}

/// Whether `pat` stands in `line` at position `p`.
pub open spec fn occurs_at(line: Seq<char>, pat: Seq<char>, p: int) -> bool {
    0 <= p && p + pat.len() <= line.len() && line.subrange(p, p + pat.len()) == pat
}

/// Whether `pat` stands somewhere in `line`.
pub open spec fn occurs(line: Seq<char>, pat: Seq<char>) -> bool {
    exists|p: int| occurs_at(line, pat, p)
}

/// Whether the line is a documentation comment: after leading blanks, it
/// starts with `///`.
pub open spec fn is_doc_line(line: Seq<char>) -> bool {
    occurs_at(line, seq!['/', '/', '/'], skip_blanks(line, 0))
}

/// The word of `marker = Word,` or `marker = Word)` standing at position `p`.
pub open spec fn base_word_at(line: Seq<char>, marker: Seq<char>, p: int) -> Option<Seq<char>> {
    if occurs_at(line, marker, p) {
        let q1 = skip_blanks(line, p + marker.len());
        if q1 < line.len() && line[q1] == '=' {
            let q2 = skip_blanks(line, q1 + 1);
            let q3 = word_end(line, q2);
            let q4 = skip_blanks(line, q3);
            if q2 < q3 && q4 < line.len() && (line[q4] == ',' || line[q4] == ')') {
                Some(line.subrange(q2, q3))
            } else {
                None
            }
        } else {
            None
        }
    } else {
        None
    }
}

/// The word of `marker Word {`, `marker Word;` or `marker Word<` standing at
/// position `p`.
pub open spec fn entity_word_at(line: Seq<char>, marker: Seq<char>, p: int) -> Option<Seq<char>> {
    if occurs_at(line, marker, p) {
        let q1 = skip_blanks(line, p + marker.len());
        let q2 = word_end(line, q1);
        let q3 = skip_blanks(line, q2);
        if q1 < q2 && q3 < line.len() && (line[q3] == '{' || line[q3] == ';' || line[q3] == '<') {
            Some(line.subrange(q1, q2))
        } else {
            None
        }
    } else {
        None
    }
}

/// The base word of the leftmost base declaration at or after position `p`.
pub open spec fn base_word_from(line: Seq<char>, marker: Seq<char>, p: int) -> Option<Seq<char>>
    decreases line.len() + 1 - p,
{
    if p < 0 || p > line.len() {
        None
    } else if base_word_at(line, marker, p) is Some {
        base_word_at(line, marker, p)
    } else {
        base_word_from(line, marker, p + 1)
    }
}

/// The entity word of the leftmost entity declaration at or after position `p`.
pub open spec fn entity_word_from(line: Seq<char>, marker: Seq<char>, p: int) -> Option<
    Seq<char>,
>
    decreases line.len() + 1 - p,
{
    if p < 0 || p > line.len() {
        None
    } else if entity_word_at(line, marker, p) is Some {
        entity_word_at(line, marker, p)
    } else {
        entity_word_from(line, marker, p + 1)
    }
}

fn blank(c: char) -> (r: bool)
    ensures
        r == is_blank(c),
{
    c == ' ' || c == '\t' || c == '\r' || c == '\n' || c == '\x0B' || c == '\x0C'
}

fn word_char(c: char) -> (r: bool)
    ensures
        r == is_word_char(c),
{
    ('a' <= c && c <= 'z') || ('A' <= c && c <= 'Z') || ('0' <= c && c <= '9') || c == '_'
}

fn skip_blanks_from(line: &Vec<char>, q: usize) -> (r: usize)
    requires
        q <= line@.len(),
    ensures
        r == skip_blanks(line@, q as int),
        q <= r <= line@.len(),
{
    let mut r = q;
    while r < line.len() && blank(line[r])
        invariant
            q <= r <= line@.len(),
            skip_blanks(line@, r as int) == skip_blanks(line@, q as int),
        decreases line@.len() - r,
    {
        r += 1;
    }
    r
}

fn word_end_from(line: &Vec<char>, q: usize) -> (r: usize)
    requires
        q <= line@.len(),
    ensures
        r == word_end(line@, q as int),
        q <= r <= line@.len(),
{
    let mut r = q;
    while r < line.len() && word_char(line[r])
        invariant
            q <= r <= line@.len(),
            word_end(line@, r as int) == word_end(line@, q as int),
        decreases line@.len() - r,
    {
        r += 1;
    }
    r
}

fn occurs_at_exec(line: &Vec<char>, pat: &Vec<char>, p: usize) -> (r: bool)
    ensures
        r == occurs_at(line@, pat@, p as int),
{
    if p > line.len() || pat.len() > line.len() - p {
        return false;
    }
    let mut k: usize = 0;
    while k < pat.len()
        invariant
            p + pat@.len() <= line@.len(),
            line@.len() <= usize::MAX,
            k <= pat@.len(),
            forall|j: int| 0 <= j < k ==> line@[p + j] == pat@[j],
        decreases pat@.len() - k,
    {
        if line[p + k] != pat[k] {
            assert(line@.subrange(p as int, p + pat@.len())[k as int] != pat@[k as int]);
            return false;
        }
        k += 1;
    }
    assert(line@.subrange(p as int, p + pat@.len()) =~= pat@);
    true
}

pub(crate) fn occurs_exec(line: &Vec<char>, pat: &Vec<char>) -> (r: bool)
    ensures
        r == occurs(line@, pat@),
{
    let mut p: usize = 0;
    while p < line.len()
        invariant
            p <= line@.len(),
            forall|j: int| 0 <= j < p ==> !occurs_at(line@, pat@, j),
        decreases line@.len() - p,
    {
        if occurs_at_exec(line, pat, p) {
            return true;
        }
        p += 1;
    }
    if occurs_at_exec(line, pat, p) {
        return true;
    }
    assert forall|j: int| !occurs_at(line@, pat@, j) by {
        if j > p {
            assert(j + pat@.len() > line@.len());
        }
    }
    false
}

fn base_word_at_exec(line: &Vec<char>, marker: &Vec<char>, p: usize) -> (r: Option<(usize, usize)>)
    requires
        p <= line@.len(),
    ensures
        match r {
            Some((a, b)) => a <= b <= line@.len() && base_word_at(line@, marker@, p as int)
                == Some(line@.subrange(a as int, b as int)),
            None => base_word_at(line@, marker@, p as int) is None,
        },
{
    let n = line.len();
    if !occurs_at_exec(line, marker, p) {
        return None;
    }
    let q1 = skip_blanks_from(line, p + marker.len());
    if q1 >= line.len() || line[q1] != '=' {
        return None;
    }
    let q2 = skip_blanks_from(line, q1 + 1);
    let q3 = word_end_from(line, q2);
    let q4 = skip_blanks_from(line, q3);
    if q2 < q3 && q4 < line.len() && (line[q4] == ',' || line[q4] == ')') {
        Some((q2, q3))
    } else {
        None
    }
}

fn entity_word_at_exec(line: &Vec<char>, marker: &Vec<char>, p: usize) -> (r: Option<
    (usize, usize),
>)
    requires
        p <= line@.len(),
    ensures
        match r {
            Some((a, b)) => a <= b <= line@.len() && entity_word_at(line@, marker@, p as int)
                == Some(line@.subrange(a as int, b as int)),
            None => entity_word_at(line@, marker@, p as int) is None,
        },
{
    let n = line.len();
    if !occurs_at_exec(line, marker, p) {
        return None;
    }
    let q1 = skip_blanks_from(line, p + marker.len());
    let q2 = word_end_from(line, q1);
    let q3 = skip_blanks_from(line, q2);
    if q1 < q2 && q3 < line.len() && (line[q3] == '{' || line[q3] == ';' || line[q3] == '<') {
        Some((q1, q2))
    } else {
        None
    }
}

/// The characters of `line` from position `a` up to `b`, as a string.
fn word_string(line: &Vec<char>, a: usize, b: usize) -> (r: String)
    requires
        a <= b <= line@.len(),
    ensures
        r@ == line@.subrange(a as int, b as int),
{
    let mut r = String::new();
    let mut k = a;
    while k < b
        invariant
            a <= k <= b <= line@.len(),
            r@ == line@.subrange(a as int, k as int),
        decreases b - k,
    {
        push_char(&mut r, line[k]);
        k += 1;
        assert(r@ =~= line@.subrange(a as int, k as int));
    }
    r
}

/// The base word of the leftmost base declaration of `line`.
pub(crate) fn base_word(line: &Vec<char>, marker: &Vec<char>) -> (r: Option<String>)
    ensures
        match r {
            Some(w) => base_word_from(line@, marker@, 0) == Some(w@),
            None => base_word_from(line@, marker@, 0) is None,
        },
{
    let mut p: usize = 0;
    while p < line.len()
        invariant
            p <= line@.len(),
            base_word_from(line@, marker@, 0) == base_word_from(line@, marker@, p as int),
        decreases line@.len() - p,
    {
        match base_word_at_exec(line, marker, p) {
            Some((a, b)) => {
                return Some(word_string(line, a, b));
            },
            None => {},
        }
        p += 1;
    }
    match base_word_at_exec(line, marker, p) {
        Some((a, b)) => Some(word_string(line, a, b)),
        None => {
            assert(base_word_from(line@, marker@, p + 1) is None);
            None
        },
    }
}

/// The entity word of the leftmost entity declaration of `line`.
pub(crate) fn entity_word(line: &Vec<char>, marker: &Vec<char>) -> (r: Option<String>)
    ensures
        match r {
            Some(w) => entity_word_from(line@, marker@, 0) == Some(w@),
            None => entity_word_from(line@, marker@, 0) is None,
        },
{
    let mut p: usize = 0;
    while p < line.len()
        invariant
            p <= line@.len(),
            entity_word_from(line@, marker@, 0) == entity_word_from(line@, marker@, p as int),
        decreases line@.len() - p,
    {
        match entity_word_at_exec(line, marker, p) {
            Some((a, b)) => {
                return Some(word_string(line, a, b));
            },
            None => {},
        }
        p += 1;
    }
    match entity_word_at_exec(line, marker, p) {
        Some((a, b)) => Some(word_string(line, a, b)),
        None => {
            assert(entity_word_from(line@, marker@, p + 1) is None);
            None
        },
    }
}

pub(crate) fn is_doc_line_exec(line: &Vec<char>) -> (r: bool)
    ensures
        r == is_doc_line(line@),
{
    let doc = vec!['/', '/', '/'];
    assert(doc@ =~= seq!['/', '/', '/']);
    let q = skip_blanks_from(line, 0);
    occurs_at_exec(line, &doc, q)
}

} // verus!
