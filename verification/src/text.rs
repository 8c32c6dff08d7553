//! Character-level text operations used by the matching and message code.
//!
//! Every string in this crate is viewed as a `Seq<char>`. The executable
//! functions here work on `Vec<char>` copies, which can be indexed in constant
//! time, and each is specified by the spec function of the same meaning.

use vstd::prelude::*;

verus! {

/// `needle` occurs in `hay` starting at index `at`.
pub open spec fn occurs_at(hay: Seq<char>, needle: Seq<char>, at: int) -> bool {
    &&& 0 <= at
    &&& at + needle.len() <= hay.len()
    &&& hay.subrange(at, at + needle.len()) == needle
}

/// `at` is the position of the leftmost occurrence of `needle` in `hay`.
pub open spec fn is_first_occurrence(hay: Seq<char>, needle: Seq<char>, at: int) -> bool {
    &&& occurs_at(hay, needle, at)
    &&& forall|j: int| 0 <= j < at ==> !occurs_at(hay, needle, j)
}

/// `needle` occurs somewhere in `hay`.
pub open spec fn contains(hay: Seq<char>, needle: Seq<char>) -> bool {
    exists|at: int| occurs_at(hay, needle, at)
}

/// `hay` begins with `prefix`.
pub open spec fn starts_with(hay: Seq<char>, prefix: Seq<char>) -> bool {
    occurs_at(hay, prefix, 0)
}

/// `hay` ends with `suffix`.
pub open spec fn ends_with(hay: Seq<char>, suffix: Seq<char>) -> bool {
    occurs_at(hay, suffix, hay.len() - suffix.len())
}

/// The lower-case form of a character whose lower-case form is an ASCII
/// letter: the ASCII capitals, and the Kelvin sign, which becomes `k`. Every
/// other character is left as it is.
pub open spec fn lower_char(c: char) -> char {
    if 'A' <= c && c <= 'Z' {
        ((c as u8 + 32) as u8) as char
    } else if c == '\u{212A}' {
        'k'
    } else {
        c
    }
}

/// `s` with `lower_char` applied to each character.
pub open spec fn lowercase(s: Seq<char>) -> Seq<char> {
    Seq::new(s.len(), |i: int| lower_char(s[i]))
}

/// The parts written one after another with `sep` between neighbours.
pub open spec fn join(parts: Seq<Seq<char>>, sep: Seq<char>) -> Seq<char>
    decreases parts.len(),
{
    if parts.len() == 0 {
        Seq::empty()
    } else if parts.len() == 1 {
        parts[0]
    } else {
        join(parts.drop_last(), sep) + sep + parts.last()
    }
}

/// Appending one more part to a joined text.
pub proof fn lemma_join_push(parts: Seq<Seq<char>>, sep: Seq<char>, part: Seq<char>)
    ensures
        join(parts.push(part), sep) == if parts.len() == 0 {
            part
        } else {
            join(parts, sep) + sep + part
        },
{
    assert(parts.push(part).drop_last() =~= parts);
}

/// Putting one more part in front of a joined text.
pub proof fn lemma_join_prepend(part: Seq<char>, parts: Seq<Seq<char>>, sep: Seq<char>)
    ensures
        join(seq![part] + parts, sep) == if parts.len() == 0 {
            part
        } else {
            part + sep + join(parts, sep)
        },
    decreases parts.len(),
{
    let all = seq![part] + parts;
    if parts.len() == 0 {
        assert(all =~= seq![part]);
    } else if parts.len() == 1 {
        assert(all.drop_last() =~= seq![part]);
        assert(join(seq![part], sep) == part);
        assert(all.last() == parts[0]);
    } else {
        lemma_join_prepend(part, parts.drop_last(), sep);
        assert(all.drop_last() =~= seq![part] + parts.drop_last());
        assert(all.last() == parts.last());
        assert(join(all, sep) =~= part + sep + join(parts, sep));
    }
}

/// The pieces into which `text` falls when it is cut at each occurrence of
/// `sep`, the occurrences being looked for from left to right. A text
/// without an occurrence is one piece, and so is any text where `sep` is
/// empty.
pub open spec fn split(text: Seq<char>, sep: Seq<char>) -> Seq<Seq<char>>
    decreases text.len(),
{
    if sep.len() == 0 {
        seq![text]
    } else if exists|at: int| is_first_occurrence(text, sep, at) {
        let at = choose|at: int| is_first_occurrence(text, sep, at);
        seq![text.subrange(0, at)] + split(
            text.subrange(at + sep.len(), text.len() as int),
            sep,
        )
    } else {
        seq![text]
    }
}

/// Cutting a joined text at its separators gives the parts back, provided
/// that there is at least one part, that no part holds the separator, and
/// that the separator is made of two different characters, so that it
/// cannot begin inside a part and end inside a separator, or the other way
/// round.
pub proof fn lemma_split_undoes_join(parts: Seq<Seq<char>>, sep: Seq<char>)
    requires
        parts.len() > 0,
        sep.len() == 2,
        sep[0] != sep[1],
        forall|i: int| 0 <= i < parts.len() ==> !contains(#[trigger] parts[i], sep),
    ensures
        split(join(parts, sep), sep) == parts,
    decreases parts.len(),
{
    let text = join(parts, sep);
    let head = parts[0];
    let rest = parts.subrange(1, parts.len() as int);
    assert(parts =~= seq![head] + rest);
    lemma_join_prepend(head, rest, sep);
    if rest.len() == 0 {
        assert(text == head);
        assert(!contains(head, sep));
        assert(split(text, sep) =~= parts);
    } else {
        let tail = join(rest, sep);
        assert(text == head + sep + tail);
        let cut = head.len() as int;
        assert(text.subrange(cut, cut + 2) =~= sep);
        assert forall|j: int| 0 <= j < cut implies !occurs_at(text, sep, j) by {
            if occurs_at(text, sep, j) {
                let window = text.subrange(j, j + 2);
                assert(window[0] == text[j] && window[1] == text[j + 1]);
                if j + 2 <= cut {
                    assert(head.subrange(j, j + 2) =~= sep);
                    assert(occurs_at(head, sep, j));
                } else {
                    assert(text[j + 1] == sep[0]);
                }
            }
        }
        assert(is_first_occurrence(text, sep, cut));
        let at = choose|at: int| is_first_occurrence(text, sep, at);
        if at < cut {
            assert(occurs_at(text, sep, at));
        } else if cut < at {
            assert(occurs_at(text, sep, cut));
        }
        assert(text.subrange(0, cut) =~= head);
        assert(text.subrange(cut + 2, text.len() as int) =~= tail);
        assert forall|i: int| 0 <= i < rest.len() implies !contains(#[trigger] rest[i], sep) by {
            assert(rest[i] == parts[i + 1]);
        }
        lemma_split_undoes_join(rest, sep);
    }
}

/// The characters of `s`, in order.
pub fn chars_of(s: &str) -> (out: Vec<char>)
    ensures
        out@ == s@,
{
    let mut out: Vec<char> = Vec::new();
    for c in it: s.chars()
        invariant
            out@ == s@.take(it.index() as int),
            it.seq() == s@,
    {
        out.push(c);
    }
    out
}

/// Whether `needle` occurs in `hay` at index `at`.
pub fn matches_at(hay: &Vec<char>, needle: &Vec<char>, at: usize) -> (found: bool)
    ensures
        found == occurs_at(hay@, needle@, at as int),
{
    if needle.len() > hay.len() || at > hay.len() - needle.len() {
        return false;
    }
    let mut k: usize = 0;
    while k < needle.len()
        invariant
            k <= needle.len(),
            at + needle.len() <= hay.len(),
            forall|j: int| 0 <= j < k ==> hay@[at + j] == needle@[j],
        decreases needle.len() - k,
    {
        if hay[at + k] != needle[k] {
            proof {
                let window = hay@.subrange(at as int, at + needle.len());
                assert(window[k as int] == hay@[at + k]);
            }
            return false;
        }
        k += 1;
    }
    assert(hay@.subrange(at as int, at + needle.len()) =~= needle@);
    true
}

/// The index of the leftmost occurrence of `needle` in `hay`, if there is one.
pub fn find(hay: &Vec<char>, needle: &Vec<char>) -> (at: Option<usize>)
    ensures
        match at {
            Some(i) => is_first_occurrence(hay@, needle@, i as int),
            None => !contains(hay@, needle@),
        },
{
    if needle.len() > hay.len() {
        return None;
    }
    let last: usize = hay.len() - needle.len();
    let mut i: usize = 0;
    loop
        invariant
            last == hay.len() - needle.len(),
            needle.len() <= hay.len(),
            i <= last,
            forall|j: int| 0 <= j < i ==> !occurs_at(hay@, needle@, j),
        decreases last - i,
    {
        if matches_at(hay, needle, i) {
            return Some(i);
        }
        if i == last {
            return None;
        }
        i += 1;
    }
}

/// Whether `hay` begins with `prefix`.
pub fn has_prefix(hay: &Vec<char>, prefix: &Vec<char>) -> (yes: bool)
    ensures
        yes == starts_with(hay@, prefix@),
{
    matches_at(hay, prefix, 0)
}

/// Whether `hay` ends with `suffix`.
pub fn has_suffix(hay: &Vec<char>, suffix: &Vec<char>) -> (yes: bool)
    ensures
        yes == ends_with(hay@, suffix@),
{
    if suffix.len() > hay.len() {
        return false;
    }
    matches_at(hay, suffix, hay.len() - suffix.len())
}

/// Whether `needle` occurs somewhere in `hay`.
pub fn has_substring(hay: &Vec<char>, needle: &Vec<char>) -> (yes: bool)
    ensures
        yes == contains(hay@, needle@),
{
    find(hay, needle).is_some()
}

/// Whether the two sequences hold the same characters.
pub fn same_chars(a: &Vec<char>, b: &Vec<char>) -> (yes: bool)
    ensures
        yes == (a@ == b@),
{
    if a.len() != b.len() {
        return false;
    }
    let yes = matches_at(a, b, 0);
    assert(a@.subrange(0, a@.len() as int) =~= a@);
    yes
}

/// A copy of `text` from index `start` on.
pub fn tail_from(text: &Vec<char>, start: usize) -> (out: Vec<char>)
    requires
        start <= text.len(),
    ensures
        out@ == text@.subrange(start as int, text.len() as int),
{
    let mut out: Vec<char> = Vec::new();
    let mut i: usize = start;
    while i < text.len()
        invariant
            start <= i <= text.len(),
            out@ == text@.subrange(start as int, i as int),
        decreases text.len() - i,
    {
        out.push(text[i]);
        i += 1;
    }
    out
}

/// Whether two strings hold the same text.
pub fn same_text(a: &str, b: &str) -> (yes: bool)
    ensures
        yes == (a@ == b@),
{
    let left = chars_of(a);
    let right = chars_of(b);
    same_chars(&left, &right)
}

/// The lower-case form of `c` where that is an ASCII letter, else `c`.
pub fn to_lower_char(c: char) -> (out: char)
    ensures
        out == lower_char(c),
{
    if 'A' <= c && c <= 'Z' {
        ((c as u8) + 32) as char
    } else if c == '\u{212A}' {
        'k'
    } else {
        c
    }
}

/// A copy of `text` with each character folded by `to_lower_char`.
pub fn to_lowercase(text: &Vec<char>) -> (out: Vec<char>)
    ensures
        out@ == lowercase(text@),
{
    let mut out: Vec<char> = Vec::new();
    let mut i: usize = 0;
    while i < text.len()
        invariant
            i <= text.len(),
            out@.len() == i,
            forall|j: int| 0 <= j < i ==> out@[j] == lower_char(text@[j]),
        decreases text.len() - i,
    {
        out.push(to_lower_char(text[i]));
        i += 1;
    }
    out
}

} // verus!
