use vstd::prelude::*;
use vstd::string::*;

verus! {

/// `pattern` occurs in `text` starting at position `at`.
pub open spec fn occurs_at(text: Seq<char>, pattern: Seq<char>, at: int) -> bool {
    &&& 0 <= at
    &&& at + pattern.len() <= text.len()
    &&& text.subrange(at, at + pattern.len()) == pattern
}

/// `pattern` occurs somewhere in `text`.
pub open spec fn contains(text: Seq<char>, pattern: Seq<char>) -> bool {
    exists|at: int| occurs_at(text, pattern, at)
}

/// The characters of a string slice, in order.
pub fn chars_of(s: &str) -> (v: Vec<char>)
    ensures
        v@ == s@,
{
    let mut v: Vec<char> = Vec::new();
    for c in it: s.chars()
        invariant
            it.seq() == s@,
            v@ == s@.take(it.index() as int),
    {
        v.push(c);
    }
    v
}

/// Whether two string slices hold the same characters.
pub fn same_text(a: &str, b: &str) -> (r: bool)
    ensures
        r == (a@ == b@),
{
    a.to_owned() == b.to_owned()
}

/// Whether `pattern` stands in `text` at position `at`.
fn matches_at(text: &Vec<char>, pattern: &Vec<char>, at: usize) -> (r: bool)
    requires
        at + pattern.len() <= text.len(),
    ensures
        r == occurs_at(text@, pattern@, at as int),
{
    let mut k: usize = 0;
    while k < pattern.len()
        invariant
            k <= pattern.len(),
            at + pattern.len() <= text.len(),
            forall|j: int| 0 <= j < k ==> text@[at + j] == pattern@[j],
        decreases pattern.len() - k,
    {
        if text[at + k] != pattern[k] {
            proof {
                let window = text@.subrange(at as int, at + pattern.len());
                assert(window[k as int] == text@[at + k]);
            }
            return false;
        }
        k += 1;
    }
    assert(text@.subrange(at as int, at + pattern.len()) =~= pattern@);
    true
}

/// Substring search: whether `pattern` occurs anywhere in `text`.
pub fn str_contains(text: &str, pattern: &str) -> (r: bool)
    ensures
        r == contains(text@, pattern@),
{
    let t = chars_of(text);
    let p = chars_of(pattern);
    if p.len() > t.len() {
        return false;
    }
    if p.len() == 0 {
        assert(occurs_at(text@, pattern@, 0)) by {
            assert(text@.subrange(0, 0) =~= pattern@);
        }
        return true;
    }
    let last: usize = t.len() - p.len();
    let mut at: usize = 0;
    while at <= last
        invariant
            t@ == text@,
            p@ == pattern@,
            0 < p.len() <= t.len(),
            last == t.len() - p.len(),
            at <= last + 1,
            forall|j: int| 0 <= j < at ==> !occurs_at(t@, p@, j),
        decreases last + 1 - at,
    {
        if matches_at(&t, &p, at) {
            return true;
        }
        at += 1;
    }
    false
}

/// Whether a character is white space, as `char::is_whitespace` of std decides it.
pub uninterp spec fn is_whitespace(c: char) -> bool;

/// `char::is_whitespace` of std: the answer is named, not spelled out.
#[verifier::external_body]
fn char_is_whitespace(c: char) -> (r: bool)
    ensures
        r == is_whitespace(c),
{
    c.is_whitespace()
}

/// The first position at or after `from` that holds no white space, or the length.
pub open spec fn skip_blank(s: Seq<char>, from: int) -> int
    decreases s.len() - from,
{
    if from < 0 || from >= s.len() {
        s.len() as int
    } else if !is_whitespace(s[from]) {
        from
    } else {
        skip_blank(s, from + 1)
    }
}

/// The first position at or after `from` that holds white space, or the length.
pub open spec fn word_end(s: Seq<char>, from: int) -> int
    decreases s.len() - from,
{
    if from < 0 || from >= s.len() {
        s.len() as int
    } else if is_whitespace(s[from]) {
        from
    } else {
        word_end(s, from + 1)
    }
}

pub proof fn lemma_skip_blank_bounds(s: Seq<char>, from: int)
    requires
        0 <= from <= s.len(),
    ensures
        from <= skip_blank(s, from) <= s.len(),
        skip_blank(s, from) < s.len() ==> !is_whitespace(s[skip_blank(s, from)]),
        forall|j: int| from <= j < skip_blank(s, from) ==> is_whitespace(s[j]),
    decreases s.len() - from,
{
    if from < s.len() && is_whitespace(s[from]) {
        lemma_skip_blank_bounds(s, from + 1);
    }
}

pub proof fn lemma_word_end_bounds(s: Seq<char>, from: int)
    requires
        0 <= from <= s.len(),
    ensures
        from <= word_end(s, from) <= s.len(),
        word_end(s, from) < s.len() ==> is_whitespace(s[word_end(s, from)]),
        forall|j: int| from <= j < word_end(s, from) ==> !is_whitespace(s[j]),
    decreases s.len() - from,
{
    if from < s.len() && !is_whitespace(s[from]) {
        lemma_word_end_bounds(s, from + 1);
    }
}

/// The maximal runs of characters other than white space that start at or after `from`,
/// in order.
pub open spec fn words_from(s: Seq<char>, from: int) -> Seq<Seq<char>>
    decreases s.len() - from,
    via words_from_decreases
{
    let start = skip_blank(s, from);
    if 0 <= from && start < s.len() {
        let end = word_end(s, start);
        seq![s.subrange(start, end)] + words_from(s, end)
    } else {
        Seq::empty()
    }
}

#[via_fn]
proof fn words_from_decreases(s: Seq<char>, from: int) {
    if 0 <= from <= s.len() {
        lemma_skip_blank_bounds(s, from);
        let start = skip_blank(s, from);
        if start < s.len() {
            lemma_word_end_bounds(s, start + 1);
        }
    }
}

/// The words of a text: its maximal runs of characters other than white space.
pub open spec fn words(s: Seq<char>) -> Seq<Seq<char>> {
    words_from(s, 0)
}

/// No word is empty and no word holds white space.
pub proof fn lemma_words_are_clean(s: Seq<char>, from: int)
    requires
        0 <= from <= s.len(),
    ensures
        forall|k: int|
            0 <= k < words_from(s, from).len() ==> (#[trigger] words_from(s, from)[k]).len() > 0,
        forall|k: int, j: int|
            0 <= k < words_from(s, from).len() && 0 <= j < words_from(s, from)[k].len()
                ==> !is_whitespace(#[trigger] words_from(s, from)[k][j]),
    decreases s.len() - from,
{
    lemma_skip_blank_bounds(s, from);
    let start = skip_blank(s, from);
    if start < s.len() {
        lemma_word_end_bounds(s, start);
        let end = word_end(s, start);
        lemma_words_are_clean(s, end);
        let rest = words_from(s, end);
        let all = words_from(s, from);
        assert(all == seq![s.subrange(start, end)] + rest);
        assert forall|k: int| 0 <= k < all.len() implies (#[trigger] all[k]).len() > 0 by {
            if k > 0 {
                assert(all[k] == rest[k - 1]);
            }
        }
        assert forall|k: int, j: int|
            0 <= k < all.len() && 0 <= j < all[k].len() implies !is_whitespace(
            #[trigger] all[k][j],
        ) by {
            if k > 0 {
                assert(all[k] == rest[k - 1]);
            } else {
                assert(all[0][j] == s[start + j]);
            }
        }
    }
}

/// A text without any character other than white space has no words.
pub proof fn lemma_blank_has_no_words(s: Seq<char>)
    requires
        forall|j: int| 0 <= j < s.len() ==> is_whitespace(s[j]),
    ensures
        words(s).len() == 0,
{
    lemma_skip_blank_bounds(s, 0);
}

/// Splits a text at white space, as `str::split_whitespace` does: the words come out in
/// order, none of them empty.
pub fn split_whitespace(s: &str) -> (r: Vec<String>)
    ensures
        r.deep_view() == words(s@),
{
    let chars = chars_of(s);
    let n = chars.len();
    let mut out: Vec<String> = Vec::new();
    let mut i: usize = 0;
    while i < n
        invariant
            chars@ == s@,
            n == chars.len(),
            i <= n,
            words(s@) == out.deep_view() + words_from(s@, i as int),
        decreases n - i,
    {
        let ghost entry = i as int;
        while i < n && char_is_whitespace(chars[i])
            invariant
                chars@ == s@,
                n == chars.len(),
                entry <= i <= n,
                skip_blank(s@, i as int) == skip_blank(s@, entry),
            decreases n - i,
        {
            i += 1;
        }
        if i < n {
            let start = i;
            i += 1;
            while i < n && !char_is_whitespace(chars[i])
                invariant
                    chars@ == s@,
                    n == chars.len(),
                    start < i <= n,
                    !is_whitespace(s@[start as int]),
                    word_end(s@, i as int) == word_end(s@, start as int),
                decreases n - i,
            {
                i += 1;
            }
            let word = String::from_str(s.substring_char(start, i));
            proof {
                assert(skip_blank(s@, entry) == start);
                assert(word_end(s@, start as int) == i);
                assert(words_from(s@, entry) == seq![s@.subrange(start as int, i as int)]
                    + words_from(s@, i as int));
                assert(out.deep_view().push(word@) + words_from(s@, i as int) == out.deep_view()
                    + words_from(s@, entry));
            }
            let ghost before = out.deep_view();
            out.push(word);
            assert(out.deep_view() == before.push(word@));
        } else {
            proof {
                assert(skip_blank(s@, entry) == n);
                assert(words_from(s@, entry).len() == 0);
                assert(words_from(s@, i as int).len() == 0);
            }
        }
    }
    assert(words_from(s@, n as int).len() == 0);
    assert(out.deep_view() + words_from(s@, n as int) == out.deep_view());
    out
}

/// The length of a text once trailing white space is cut off.
pub open spec fn kept_len(s: Seq<char>) -> int
    decreases s.len(),
{
    if s.len() == 0 {
        0
    } else if is_whitespace(s.last()) {
        kept_len(s.drop_last())
    } else {
        s.len() as int
    }
}

/// A text without its leading and trailing white space.
pub open spec fn trimmed(s: Seq<char>) -> Seq<char> {
    if skip_blank(s, 0) >= kept_len(s) {
        Seq::empty()
    } else {
        s.subrange(skip_blank(s, 0), kept_len(s))
    }
}

/// Cuts leading and trailing white space off, as `str::trim` does.
pub fn trim(s: &str) -> (r: String)
    ensures
        r@ == trimmed(s@),
{
    let chars = chars_of(s);
    let mut end: usize = chars.len();
    assert(s@.take(end as int) == s@);
    while end > 0 && char_is_whitespace(chars[end - 1])
        invariant
            chars@ == s@,
            end <= chars.len(),
            kept_len(s@) == kept_len(s@.take(end as int)),
        decreases end,
    {
        assert(s@.take(end as int).drop_last() == s@.take(end as int - 1));
        end -= 1;
    }
    assert(kept_len(s@) == end) by {
        if end > 0 {
            assert(s@.take(end as int).last() == s@[end as int - 1]);
        }
    }
    let mut start: usize = 0;
    while start < end && char_is_whitespace(chars[start])
        invariant
            chars@ == s@,
            start <= end <= chars.len(),
            skip_blank(s@, 0) == skip_blank(s@, start as int),
        decreases end - start,
    {
        start += 1;
    }
    if start >= end {
        proof {
            lemma_skip_blank_bounds(s@, start as int);
        }
        return String::new();
    }
    String::from_str(s.substring_char(start, end))
}

/// The empty literal holds no character.
pub proof fn lemma_empty_literal()
    ensures
        ""@ == Seq::<char>::empty(),
{
    reveal_strlit("");
    assert(""@ =~= Seq::<char>::empty());
}

/// Three texts, one after the other.
pub fn joined3(a: &str, b: &str, c: &str) -> (r: String)
    ensures
        r@ == a@ + b@ + c@,
{
    let mut r = String::from_str(a);
    r.append(b);
    r.append(c);
    r
}

/// Two texts, one after the other.
pub fn joined(a: &str, b: &str) -> (r: String)
    ensures
        r@ == a@ + b@,
{
    let mut r = String::from_str(a);
    r.append(b);
    r
}

} // verus!
