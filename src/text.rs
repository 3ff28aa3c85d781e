//! Text transformations: deriving a tool's script slug from its title, and
//! turning the escaped line breaks of a description into real ones.

use vstd::prelude::*;

verus! {

/// The ASCII lower-case form of a character; any other character is kept.
pub open spec fn ascii_lower(c: char) -> char {
    if 'A' <= c && c <= 'Z' {
        ((c as u32) + 32) as char
    } else {
        c
    }
}

/// The slug of a title: its characters lower-cased (ASCII only), with every
/// space removed.
pub open spec fn slug_of(s: Seq<char>) -> Seq<char>
    decreases s.len(),
{
    if s.len() == 0 {
        Seq::empty()
    } else if s.last() == ' ' {
        slug_of(s.drop_last())
    } else {
        slug_of(s.drop_last()).push(ascii_lower(s.last()))
    }
}

/// Relies on String::push: appends one character to the end of the string.
#[verifier::external_body]
fn push_char(s: &mut String, c: char)
    ensures
        final(s)@ == old(s)@.push(c),
{
    s.push(c);
}

fn lower_char(c: char) -> (r: char)
    ensures
        r == ascii_lower(c),
{
    if 'A' <= c && c <= 'Z' {
        ((c as u8) + 32) as char
    } else {
        c
    }
}

/// The slug of `title`: lower-cased (ASCII letters only) with all spaces
/// removed. It names the title's install script.
pub fn slug(title: &str) -> (r: String)
    ensures
        r@ == slug_of(title@),
{
    let mut out = String::new();
    for c in it: title.chars()
        invariant
            it.seq() == title@,
            out@ == slug_of(title@.take(it.index() as int)),
    {
        let ghost done = title@.take(it.index() as int);
        assert(title@.take(it.index() + 1).drop_last() == done);
        if c != ' ' {
            push_char(&mut out, lower_char(c));
        }
    }
    assert(title@.take(title@.len() as int) == title@);
    out
}

/// True when no character of `s` is a space or an upper-case ASCII letter.
pub open spec fn is_slug_form(s: Seq<char>) -> bool {
    forall|i: int| 0 <= i < s.len() ==> s[i] != ' ' && !('A' <= #[trigger] s[i] && s[i] <= 'Z')
}

proof fn lemma_slug_has_slug_form(s: Seq<char>)
    ensures
        is_slug_form(slug_of(s)),
    decreases s.len(),
{
    if s.len() > 0 {
        lemma_slug_has_slug_form(s.drop_last());
        let c = s.last();
        if 'A' <= c && c <= 'Z' {
            assert('a' <= ascii_lower(c) && ascii_lower(c) <= 'z');
        }
        if c != ' ' {
            assert(ascii_lower(c) != ' ');
        }
    }
}

proof fn lemma_slug_form_is_fixed(s: Seq<char>)
    requires
        is_slug_form(s),
    ensures
        slug_of(s) == s,
    decreases s.len(),
{
    if s.len() > 0 {
        let c = s.last();
        assert(s[s.len() - 1] == c);
        assert(is_slug_form(s.drop_last())) by {
            assert forall|i: int| 0 <= i < s.drop_last().len() implies s.drop_last()[i] != ' '
                && !('A' <= #[trigger] s.drop_last()[i] && s.drop_last()[i] <= 'Z') by {
                assert(s.drop_last()[i] == s[i]);
            }
        }
        lemma_slug_form_is_fixed(s.drop_last());
        assert(s.drop_last().push(c) == s);
    }
}

/// Slug derivation is idempotent: the slug of a slug is the slug itself.
pub proof fn lemma_slug_idempotent(title: Seq<char>)
    ensures
        slug_of(slug_of(title)) == slug_of(title),
{
    lemma_slug_has_slug_form(title);
    lemma_slug_form_is_fixed(slug_of(title));
}

/// A description as it is displayed: each two-character sequence `\n`
/// (a backslash, then the letter n) becomes a line break, read from left
/// to right.
pub open spec fn expand_line_breaks(s: Seq<char>) -> Seq<char>
    decreases s.len(),
{
    if s.len() == 0 {
        Seq::empty()
    } else if s.len() >= 2 && s[0] == '\\' && s[1] == 'n' {
        seq!['\n'] + expand_line_breaks(s.skip(2))
    } else {
        seq![s[0]] + expand_line_breaks(s.skip(1))
    }
}

fn chars_of(s: &str) -> (r: Vec<char>)
    ensures
        r@ == s@,
{
    let mut out: Vec<char> = Vec::new();
    for c in it: s.chars()
        invariant
            it.seq() == s@,
            out@ == s@.take(it.index() as int),
    {
        assert(s@.take(it.index() + 1) == s@.take(it.index() as int).push(c));
        out.push(c);
    }
    assert(s@.take(s@.len() as int) == s@);
    out
}

/// The text of a description as it is shown: every escaped line break
/// `\n` of the stored text becomes a real one.
pub fn render_description(description: &str) -> (r: String)
    ensures
        r@ == expand_line_breaks(description@),
{
    let chars = chars_of(description);
    let n = chars.len();
    let mut out = String::new();
    let mut i: usize = 0;
    assert(chars@.skip(0) == chars@);
    assert(out@ + expand_line_breaks(chars@) == expand_line_breaks(chars@));
    while i < n
        invariant
            n == chars@.len(),
            chars@ == description@,
            i <= n,
            out@ + expand_line_breaks(chars@.skip(i as int)) == expand_line_breaks(chars@),
        decreases n - i,
    {
        let ghost rest = chars@.skip(i as int);
        if i + 1 < n && chars[i] == '\\' && chars[i + 1] == 'n' {
            assert(rest[0] == '\\' && rest[1] == 'n');
            assert(rest.skip(2) == chars@.skip(i + 2));
            assert(out@.push('\n') + expand_line_breaks(chars@.skip(i + 2)) == out@ + (seq!['\n']
                + expand_line_breaks(rest.skip(2))));
            push_char(&mut out, '\n');
            i = i + 2;
        } else {
            let c = chars[i];
            assert(rest[0] == c);
            assert(rest.skip(1) == chars@.skip(i + 1));
            assert(out@.push(c) + expand_line_breaks(chars@.skip(i + 1)) == out@ + (seq![c]
                + expand_line_breaks(rest.skip(1))));
            push_char(&mut out, c);
            i = i + 1;
        }
    }
    assert(expand_line_breaks(chars@.skip(n as int)) == Seq::<char>::empty());
    assert(out@ + Seq::<char>::empty() == out@);
    out
}

} // verus!
