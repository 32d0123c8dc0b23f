//! Small verified operations on text, stated over sequences of characters.

use vstd::prelude::*;
use vstd::string::*;

verus! {

/// The empty literal holds no character.
pub proof fn empty_literal()
    ensures
        ""@ == Seq::<char>::empty(),
{
    reveal_strlit("");
    assert(""@ =~= Seq::<char>::empty());
}

/// Whether two pieces of text hold the same characters.
pub fn same_text(a: &str, b: &str) -> (r: bool)
    ensures
        r == (a@ == b@),
{
    let x = String::from_str(a);
    let y = String::from_str(b);
    x == y
}

/// `String::push` of the standard library: appends one character to the
/// buffer and leaves what was there in place.
#[verifier::external_body]
pub(crate) fn push_char(s: &mut String, c: char)
    ensures
        final(s)@ == old(s)@.push(c),
{
    s.push(c)
}

/// A copy of an optional text.
pub fn copy_opt(s: &Option<String>) -> (r: Option<String>)
    ensures
        r.is_some() == s.is_some(),
        s.is_some() ==> r.unwrap()@ == s.unwrap()@,
{
    match s {
        Some(t) => Some(t.clone()),
        None => None,
    }
}

/// The text in which each character is replaced by what `to` gives for it.
pub open spec fn map_chars(s: Seq<char>, to: spec_fn(char) -> Seq<char>) -> Seq<char>
    decreases s.len(),
{
    if s.len() == 0 {
        Seq::empty()
    } else {
        map_chars(s.drop_last(), to) + to(s.last())
    }
}

/// What a single character of a namespace-qualified name becomes in a
/// scope-qualified path: the separator `:` doubles, the rest stays.
pub open spec fn path_char(c: char) -> Seq<char> {
    if c == ':' {
        seq![':', ':']
    } else {
        seq![c]
    }
}

/// A namespace-qualified name as a scope-qualified path.
pub open spec fn scope_path(s: Seq<char>) -> Seq<char> {
    map_chars(s, |c: char| path_char(c))
}

/// What a character of a comment becomes on a single comment line.
pub open spec fn line_char(c: char) -> Seq<char> {
    if c == '\n' || c == '\r' {
        seq![' ']
    } else {
        seq![c]
    }
}

/// A text flattened onto one line: each line break becomes a space.
pub open spec fn single_line(s: Seq<char>) -> Seq<char> {
    map_chars(s, |c: char| line_char(c))
}

/// Writes a namespace-qualified name as a scope-qualified path.
pub fn to_scope_path(s: &str) -> (r: String)
    ensures
        r@ == scope_path(s@),
{
    let n = s.unicode_len();
    let mut out = String::new();
    let mut i: usize = 0;
    while i < n
        invariant
            n == s@.len(),
            i <= n,
            out@ == scope_path(s@.subrange(0, i as int)),
        decreases n - i,
    {
        let c = s.get_char(i);
        proof {
            let next = s@.subrange(0, i + 1);
            assert(next.drop_last() == s@.subrange(0, i as int));
            assert(next.last() == c);
        }
        if c == ':' {
            push_char(&mut out, ':');
            push_char(&mut out, ':');
            assert(out@ == scope_path(s@.subrange(0, i as int)) + seq![':', ':']);
        } else {
            push_char(&mut out, c);
            assert(out@ == scope_path(s@.subrange(0, i as int)) + seq![c]);
        }
        i = i + 1;
    }
    assert(s@.subrange(0, n as int) == s@);
    out
}

/// Flattens a text onto one line.
pub fn to_single_line(s: &str) -> (r: String)
    ensures
        r@ == single_line(s@),
{
    let n = s.unicode_len();
    let mut out = String::new();
    let mut i: usize = 0;
    while i < n
        invariant
            n == s@.len(),
            i <= n,
            out@ == single_line(s@.subrange(0, i as int)),
        decreases n - i,
    {
        let c = s.get_char(i);
        proof {
            let next = s@.subrange(0, i + 1);
            assert(next.drop_last() == s@.subrange(0, i as int));
            assert(next.last() == c);
        }
        if c == '\n' || c == '\r' {
            push_char(&mut out, ' ');
            assert(out@ == single_line(s@.subrange(0, i as int)) + seq![' ']);
        } else {
            push_char(&mut out, c);
            assert(out@ == single_line(s@.subrange(0, i as int)) + seq![c]);
        }
        i = i + 1;
    }
    assert(s@.subrange(0, n as int) == s@);
    out
}

/// Whether `s` is `prefix`, then a colon, then anything.
pub open spec fn has_qualifier(s: Seq<char>, prefix: Seq<char>) -> bool {
    &&& prefix.len() < s.len()
    &&& s.subrange(0, prefix.len() as int) == prefix
    &&& s[prefix.len() as int] == ':'
}

/// Tests whether a name is qualified by the given namespace prefix.
pub fn is_qualified_by(s: &str, prefix: &str) -> (r: bool)
    ensures
        r == has_qualifier(s@, prefix@),
{
    let n = s.unicode_len();
    let m = prefix.unicode_len();
    if m >= n {
        return false;
    }
    let mut i: usize = 0;
    while i < m
        invariant
            n == s@.len(),
            m == prefix@.len(),
            m < n,
            i <= m,
            s@.subrange(0, i as int) == prefix@.subrange(0, i as int),
        decreases m - i,
    {
        if s.get_char(i) != prefix.get_char(i) {
            proof {
                assert(s@.subrange(0, m as int)[i as int] == s@[i as int]);
            }
            return false;
        }
        proof {
            assert(s@.subrange(0, i + 1) =~= s@.subrange(0, i as int).push(s@[i as int]));
            assert(prefix@.subrange(0, i + 1) =~= prefix@.subrange(0, i as int).push(
                prefix@[i as int],
            ));
        }
        i = i + 1;
    }
    assert(prefix@.subrange(0, m as int) == prefix@);
    s.get_char(m) == ':'
}

/// The part of a qualified name after its prefix and the colon.
pub fn after_qualifier(s: &str, prefix: &str) -> (r: String)
    requires
        has_qualifier(s@, prefix@),
    ensures
        r@ == s@.subrange(prefix@.len() as int + 1, s@.len() as int),
{
    let n = s.unicode_len();
    let m = prefix.unicode_len();
    String::from_str(s.substring_char(m + 1, n))
}

/// Whether a character separates the words of a list.
pub open spec fn is_space(c: char) -> bool {
    c == ' ' || c == '\t' || c == '\n' || c == '\r'
}

/// The words that are complete at the end of a text, and the word that is
/// still open there (empty where the text ends in a separator).
pub open spec fn scanned(s: Seq<char>) -> (Seq<Seq<char>>, Seq<char>)
    decreases s.len(),
{
    if s.len() == 0 {
        (Seq::empty(), Seq::empty())
    } else {
        let before = scanned(s.drop_last());
        if is_space(s.last()) {
            if before.1.len() > 0 {
                (before.0.push(before.1), Seq::empty())
            } else {
                before
            }
        } else {
            (before.0, before.1.push(s.last()))
        }
    }
}

/// The words of a text: its maximal runs of characters that are no
/// separators, in their order.
pub open spec fn words(s: Seq<char>) -> Seq<Seq<char>> {
    let all = scanned(s);
    if all.1.len() > 0 {
        all.0.push(all.1)
    } else {
        all.0
    }
}

/// The values of a list of texts, in order.
pub open spec fn texts_view(v: Vec<String>) -> Seq<Seq<char>> {
    Seq::new(v@.len(), |i: int| v@[i]@)
}

/// Splits a text into its words.
pub fn split_words(s: &str) -> (r: Vec<String>)
    ensures
        texts_view(r) == words(s@),
{
    let n = s.unicode_len();
    let mut out: Vec<String> = Vec::new();
    let mut cur = String::new();
    let mut i: usize = 0;
    assert(texts_view(out) =~= Seq::<Seq<char>>::empty());
    while i < n
        invariant
            n == s@.len(),
            i <= n,
            texts_view(out) == scanned(s@.subrange(0, i as int)).0,
            cur@ == scanned(s@.subrange(0, i as int)).1,
        decreases n - i,
    {
        let c = s.get_char(i);
        proof {
            let next = s@.subrange(0, i + 1);
            assert(next.drop_last() == s@.subrange(0, i as int));
            assert(next.last() == c);
        }
        if c == ' ' || c == '\t' || c == '\n' || c == '\r' {
            if cur.as_str().unicode_len() > 0 {
                let ghost before = texts_view(out);
                out.push(cur);
                assert(texts_view(out) =~= before.push(cur@));
                cur = String::new();
            }
        } else {
            push_char(&mut cur, c);
        }
        i = i + 1;
    }
    assert(s@.subrange(0, n as int) == s@);
    if cur.as_str().unicode_len() > 0 {
        let ghost before = texts_view(out);
        out.push(cur);
        assert(texts_view(out) =~= before.push(cur@));
    }
    out
}

} // verus!
