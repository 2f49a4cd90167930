//! URL slugs derived from titles and tag texts.

use vstd::prelude::*;

verus! {

/// The slug that the `slug` crate derives from `s`.
pub uninterp spec fn slug_of(s: Seq<char>) -> Seq<char>;

/// A character allowed in a slug: `a-z`, `0-9` or `-`.
pub open spec fn is_slug_char(c: char) -> bool {
    ('a' <= c && c <= 'z') || ('0' <= c && c <= '9') || c == '-'
}

/// Slug form: only `a-z`, `0-9` and `-`, never two `-` in a row, never a
/// `-` at either end.
pub open spec fn is_slug(s: Seq<char>) -> bool {
    &&& forall|i: int| 0 <= i < s.len() ==> is_slug_char(#[trigger] s[i])
    &&& forall|i: int| 0 <= i < s.len() - 1 ==> !(#[trigger] s[i] == '-' && s[i + 1] == '-')
    &&& s.len() > 0 ==> s[0] != '-' && s[s.len() - 1] != '-'
}

/// All characters of `s` are ASCII.
pub open spec fn is_ascii_text(s: Seq<char>) -> bool {
    forall|i: int| 0 <= i < s.len() ==> (#[trigger] s[i] as u32) < 128
}

/// What the slug scan writes for ASCII text: `a-z` and `0-9` as they are,
/// `A-Z` lowercased, and for any other character one `-`, unless nothing or
/// a `-` was written last.
pub open spec fn ascii_slug_scan(s: Seq<char>) -> Seq<char>
    decreases s.len(),
{
    if s.len() == 0 {
        Seq::empty()
    } else {
        let prev = ascii_slug_scan(s.drop_last());
        let c = s.last();
        if ('a' <= c && c <= 'z') || ('0' <= c && c <= '9') {
            prev.push(c)
        } else if 'A' <= c && c <= 'Z' {
            prev.push(((c as u32) + 32) as char)
        } else if prev.len() == 0 || prev.last() == '-' {
            prev
        } else {
            prev.push('-')
        }
    }
}

/// The slug of ASCII text: the scan, without a final `-`.
pub open spec fn ascii_slug(s: Seq<char>) -> Seq<char> {
    let t = ascii_slug_scan(s);
    if t.len() > 0 && t.last() == '-' {
        t.drop_last()
    } else {
        t
    }
}

/// Relies on `slug::slugify`, whose documentation promises slug form; its
/// source copies `a-z` and `0-9`, and writes a `-` only where the last
/// character written is no `-` and drops a final `-`, so that a string
/// already in slug form comes back unchanged; ASCII text takes no
/// transliteration, so its slug is `ascii_slug`.
#[verifier::external_body]
fn slugify(s: &str) -> (r: String)
    ensures
        r@ == slug_of(s@),
        is_slug(r@),
        is_slug(s@) ==> r@ == s@,
        is_ascii_text(s@) ==> r@ == ascii_slug(s@),
{
    slug::slugify(s)
}

/// The slug of a title or a tag text.
pub fn derive_slug(title: &str) -> (r: String)
    ensures
        r@ == slug_of(title@),
        is_slug(r@),
        is_slug(title@) ==> r@ == title@,
        is_ascii_text(title@) ==> r@ == ascii_slug(title@),
{
    slugify(title)
}

/// A slug depends on the text alone: the same title gives the same slug.
pub proof fn slug_is_deterministic(a: Seq<char>, b: Seq<char>)
    requires
        a == b,
    ensures
        slug_of(a) == slug_of(b),
{
}

} // verus!
