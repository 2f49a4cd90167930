//! What the library reads out of a post's markdown source: the title of its
//! leading heading, its hashtags and its first image.

use vstd::prelude::*;
use crate::text::{
    char_vec, first_line, first_line_end, is_space, opt_view, trim, trim_bounds, views, whitespace,
};

verus! {

broadcast use vstd::string::group_string_axioms;

/// Whether `c` belongs to the `\w` class of the `regex` crate.
pub uninterp spec fn is_word(c: char) -> bool;

/// `[_0-9a-zA-Z]`.
pub open spec fn is_ascii_word(c: char) -> bool {
    c == '_' || ('0' <= c && c <= '9') || ('a' <= c && c <= 'z') || ('A' <= c && c <= 'Z')
}

/// Relies on `regex_syntax::is_word_character`, the test behind `\w`: among
/// ASCII characters it accepts exactly `[_0-9a-zA-Z]`.
#[verifier::external_body]
fn word_character(c: char) -> (r: bool)
    ensures
        r == is_word(c),
        (c as u32) < 128 ==> (r <==> is_ascii_word(c)),
{
    regex_syntax::is_word_character(c)
}

/// The title of a post: the text of a level-one heading `# ...` on the first
/// line of `content`, trimmed. `None` when the first line is no such heading.
pub open spec fn title_of(content: Seq<char>) -> Option<Seq<char>> {
    let line = first_line(content);
    if line.len() >= 2 && line[0] == '#' && is_space(line[1]) {
        Some(trim(line.subrange(1, line.len() as int)))
    } else {
        None
    }
}

/// Extracts the title from the first line of `content` (`^#\s+(.*)$`, trimmed).
pub fn get_title(content: &str) -> (r: Option<String>)
    ensures
        opt_view(r) == title_of(content@),
{
    let cs = char_vec(content);
    let end = first_line_end(&cs);
    if end >= 2 && cs[0] == '#' && whitespace(cs[1]) {
        let ghost line = cs@.subrange(0, end as int);
        let (lo, hi) = trim_bounds(&cs, 1, end);
        assert(line.subrange(1, line.len() as int) =~= cs@.subrange(1, end as int));
        Some(String::from_str(content.substring_char(lo, hi)))
    } else {
        None
    }
}

/// End of the run of word characters in `s` that starts at `j`.
pub open spec fn word_end(s: Seq<char>, j: int) -> int
    decreases s.len() - j,
{
    if 0 <= j < s.len() && is_word(s[j]) {
        word_end(s, j + 1)
    } else {
        j
    }
}

/// The captures of `#(\w+)` in `s` from position `i` on, leftmost first and
/// without overlap, as `Regex::captures_iter` finds them.
pub open spec fn hashtags_from(s: Seq<char>, i: int) -> Seq<Seq<char>>
    decreases s.len() - i,
{
    if i < 0 || i >= s.len() {
        Seq::empty()
    } else if s[i] == '#' && i + 1 < s.len() && is_word(s[i + 1]) {
        let k = word_end(s, i + 1);
        if i < k <= s.len() {
            seq![s.subrange(i + 1, k)] + hashtags_from(s, k)
        } else {
            Seq::empty()
        }
    } else {
        hashtags_from(s, i + 1)
    }
}

/// The hashtags of `s`, in order of appearance, repeats kept.
pub open spec fn hashtags(s: Seq<char>) -> Seq<Seq<char>> {
    hashtags_from(s, 0)
}

proof fn lemma_word_end_bounds(s: Seq<char>, j: int)
    requires
        0 <= j <= s.len(),
    ensures
        j <= word_end(s, j) <= s.len(),
        forall|k: int| j <= k < word_end(s, j) ==> is_word(s[k]),
        word_end(s, j) < s.len() ==> !is_word(s[word_end(s, j)]),
    decreases s.len() - j,
{
    if j < s.len() && is_word(s[j]) {
        lemma_word_end_bounds(s, j + 1);
    }
}

/// The hashtags of `content` (`#(\w+)`), in order of appearance.
pub fn get_tags(content: &str) -> (r: Vec<String>)
    ensures
        views(r@) == hashtags(content@),
{
    let cs = char_vec(content);
    let n = cs.len();
    let mut tags: Vec<String> = Vec::new();
    let mut i: usize = 0;
    while i < n
        invariant
            n == cs.len(),
            cs@ == content@,
            i <= n,
            views(tags@) + hashtags_from(cs@, i as int) == hashtags(cs@),
        decreases n - i,
    {
        if cs[i] == '#' && i + 1 < n && word_character(cs[i + 1]) {
            let mut k = i + 1;
            proof { lemma_word_end_bounds(cs@, (i + 1) as int); }
            while k < n && word_character(cs[k])
                invariant
                    n == cs.len(),
                    i + 1 <= k <= n,
                    word_end(cs@, (i + 1) as int) == word_end(cs@, k as int),
                decreases n - k,
            {
                k = k + 1;
            }
            proof { lemma_word_end_bounds(cs@, (i + 1) as int); }
            let tag = String::from_str(content.substring_char(i + 1, k));
            proof {
                assert(views(tags@.push(tag)) =~= views(tags@) + seq![tag@]);
            }
            tags.push(tag);
            i = k;
        } else {
            i = i + 1;
        }
    }
    assert(views(tags@) + hashtags_from(cs@, i as int) =~= views(tags@));
    tags
}

/// An image of a post: its address, title and alternative text.
pub struct Image {
    pub url: String,
    pub title: Option<String>,
    pub alt: Option<String>,
}

/// The plain values of an image: address, title, alternative text.
pub open spec fn image_view(img: Image) -> (Seq<char>, Option<Seq<char>>, Option<Seq<char>>) {
    (img.url@, opt_view(img.title), opt_view(img.alt))
}

/// No `'\n'` in `s[a..b]`.
pub open spec fn no_newline(s: Seq<char>, a: int, b: int) -> bool {
    forall|k: int| a <= k < b ==> s[k] != '\n'
}

/// `s[ue..]` starts with ` "`, then a title `s[ue + 2..te]`, then `")`.
pub open spec fn titled_end(s: Seq<char>, ue: int, te: int) -> bool {
    &&& 0 <= ue
    &&& ue + 2 <= te
    &&& te + 2 <= s.len()
    &&& s[ue] == ' '
    &&& s[ue + 1] == '"'
    &&& no_newline(s, ue + 2, te)
    &&& s[te] == '"'
    &&& s[te + 1] == ')'
}

/// `s[ue]` is the `)` that closes a link without title.
pub open spec fn bare_end(s: Seq<char>, ue: int) -> bool {
    0 <= ue < s.len() && s[ue] == ')'
}

/// The link can be closed at `ue`, with or without a title.
pub open spec fn link_end(s: Seq<char>, ue: int) -> bool {
    bare_end(s, ue) || exists|te: int| titled_end(s, ue, te)
}

/// `s[ae..]` starts with `](` and the address `s[ae + 2..ue]` closes at `ue`.
pub open spec fn url_end(s: Seq<char>, ae: int, ue: int) -> bool {
    ae + 2 <= ue && no_newline(s, ae + 2, ue) && link_end(s, ue)
}

/// `s[i..]` starts with `![` and the alternative text `s[i + 2..ae]` is
/// followed by `](`.
pub open spec fn alt_end(s: Seq<char>, i: int, ae: int) -> bool {
    &&& 0 <= i
    &&& i + 2 <= ae
    &&& ae + 2 <= s.len()
    &&& s[i] == '!'
    &&& s[i + 1] == '['
    &&& no_newline(s, i + 2, ae)
    &&& s[ae] == ']'
    &&& s[ae + 1] == '('
}

/// `![alt](url "title")` or `![alt](url)` matches at `i`, with the
/// alternative text ending at `ae` and the address at `ue`.
pub open spec fn image_at(s: Seq<char>, i: int, ae: int, ue: int) -> bool {
    alt_end(s, i, ae) && url_end(s, ae, ue)
}

/// The match of `!\[(.*?)\]\((.*?)(?: "(.*?)")?\)` that the regex crate
/// reports first: leftmost start, then shortest alternative text, then
/// shortest address.
pub open spec fn first_image(s: Seq<char>, i: int, ae: int, ue: int) -> bool {
    &&& image_at(s, i, ae, ue)
    &&& forall|i2: int, a2: int, u2: int| 0 <= i2 < i ==> !#[trigger] image_at(s, i2, a2, u2)
    &&& forall|a2: int, u2: int| a2 < ae ==> !#[trigger] image_at(s, i, a2, u2)
    &&& forall|u2: int| u2 < ue ==> !#[trigger] image_at(s, i, ae, u2)
}

/// The shortest title that closes the link at `ue`.
pub open spec fn first_title_end(s: Seq<char>, ue: int, te: int) -> bool {
    titled_end(s, ue, te) && forall|t2: int| t2 < te ==> !#[trigger] titled_end(s, ue, t2)
}

/// The title captured when the address ends at `ue`: the optional group
/// is tried before the bare `)`.
pub open spec fn title_at(s: Seq<char>, ue: int) -> Option<Seq<char>> {
    if exists|te: int| first_title_end(s, ue, te) {
        let te = choose|te: int| first_title_end(s, ue, te);
        Some(s.subrange(ue + 2, te))
    } else {
        None
    }
}

/// The first image of `s`: address, title and alternative text of the
/// first match, or `None` when nothing matches.
pub open spec fn first_image_of(s: Seq<char>) -> Option<(Seq<char>, Option<Seq<char>>, Option<Seq<char>>)> {
    if exists|i: int, ae: int, ue: int| first_image(s, i, ae, ue) {
        let (i, ae, ue) = choose|i: int, ae: int, ue: int| first_image(s, i, ae, ue);
        Some((s.subrange(ae + 2, ue), title_at(s, ue), Some(s.subrange(i + 2, ae))))
    } else {
        None
    }
}

/// The shortest title that closes a link at `ue`.
fn find_title_end(cs: &Vec<char>, ue: usize) -> (r: Option<usize>)
    requires
        ue < cs.len(),
    ensures
        match r {
            Some(te) => first_title_end(cs@, ue as int, te as int),
            None => forall|te: int| !titled_end(cs@, ue as int, te),
        },
{
    let n = cs.len();
    if ue + 1 >= n || cs[ue] != ' ' || cs[ue + 1] != '"' {
        return None;
    }
    let mut te = ue + 2;
    while te < n && te + 1 < n && cs[te] != '\n'
        invariant
            n == cs.len(),
            ue + 2 <= te <= n,
            cs@[ue as int] == ' ',
            cs@[ue + 1] == '"',
            no_newline(cs@, ue + 2, te as int),
            forall|t2: int| t2 < te ==> !#[trigger] titled_end(cs@, ue as int, t2),
        decreases n - te,
    {
        if cs[te] == '"' && cs[te + 1] == ')' {
            return Some(te);
        }
        te = te + 1;
    }
    assert forall|t2: int| !titled_end(cs@, ue as int, t2) by {
        if t2 >= te && titled_end(cs@, ue as int, t2) {
            if te + 1 >= n {
            } else {
                assert(cs@[te as int] == '\n');
            }
        }
    };
    None
}

/// Where the address that starts after `](` at `ae` closes, shortest first,
/// with the title that closes it.
fn find_url_end(cs: &Vec<char>, ae: usize) -> (r: Option<(usize, Option<usize>)>)
    requires
        ae + 2 <= cs.len(),
    ensures
        match r {
            Some((ue, t)) => {
                &&& url_end(cs@, ae as int, ue as int)
                &&& forall|u2: int| u2 < ue ==> !#[trigger] url_end(cs@, ae as int, u2)
                &&& match t {
                    Some(te) => first_title_end(cs@, ue as int, te as int),
                    None => forall|te: int| !titled_end(cs@, ue as int, te),
                }
            },
            None => forall|u2: int| !#[trigger] url_end(cs@, ae as int, u2),
        },
{
    let n = cs.len();
    let mut ue = ae + 2;
    while ue < n
        invariant
            n == cs.len(),
            ae + 2 <= ue <= n,
            no_newline(cs@, ae + 2, ue as int),
            forall|u2: int| u2 < ue ==> !#[trigger] url_end(cs@, ae as int, u2),
        decreases n - ue,
    {
        let t = find_title_end(cs, ue);
        if t.is_some() {
            assert(link_end(cs@, ue as int));
            return Some((ue, t));
        }
        if cs[ue] == ')' {
            assert(bare_end(cs@, ue as int));
            return Some((ue, None));
        }
        assert(!link_end(cs@, ue as int));
        if cs[ue] == '\n' {
            assert forall|u2: int| !#[trigger] url_end(cs@, ae as int, u2) by {
                if u2 > ue && url_end(cs@, ae as int, u2) {
                    assert(cs@[ue as int] != '\n');
                }
            };
            return None;
        }
        ue = ue + 1;
    }
    assert forall|u2: int| !#[trigger] url_end(cs@, ae as int, u2) by {
        if u2 >= n && url_end(cs@, ae as int, u2) {
            if bare_end(cs@, u2) {
            } else {
                let te = choose|te: int| titled_end(cs@, u2, te);
            }
        }
    };
    None
}

/// The shortest alternative text, after `![` at `i`, for which an address
/// closes, with that address and its title.
fn find_alt_end(cs: &Vec<char>, i: usize) -> (r: Option<(usize, usize, Option<usize>)>)
    requires
        i + 2 <= cs.len(),
        cs@[i as int] == '!',
        cs@[i + 1] == '[',
    ensures
        match r {
            Some((ae, ue, t)) => {
                &&& image_at(cs@, i as int, ae as int, ue as int)
                &&& forall|a2: int, u2: int| a2 < ae ==> !#[trigger] image_at(cs@, i as int, a2, u2)
                &&& forall|u2: int| u2 < ue ==> !#[trigger] image_at(cs@, i as int, ae as int, u2)
                &&& match t {
                    Some(te) => first_title_end(cs@, ue as int, te as int),
                    None => forall|te: int| !titled_end(cs@, ue as int, te),
                }
            },
            None => forall|a2: int, u2: int| !#[trigger] image_at(cs@, i as int, a2, u2),
        },
{
    let n = cs.len();
    let mut ae = i + 2;
    while ae < n && ae + 1 < n && cs[ae] != '\n'
        invariant
            n == cs.len(),
            i + 2 <= ae <= n,
            cs@[i as int] == '!',
            cs@[i + 1] == '[',
            no_newline(cs@, i + 2, ae as int),
            forall|a2: int, u2: int| a2 < ae ==> !#[trigger] image_at(cs@, i as int, a2, u2),
        decreases n - ae,
    {
        if cs[ae] == ']' && cs[ae + 1] == '(' {
            assert(alt_end(cs@, i as int, ae as int));
            match find_url_end(cs, ae) {
                Some((ue, t)) => {
                    return Some((ae, ue, t));
                },
                None => {},
            }
        }
        ae = ae + 1;
    }
    assert forall|a2: int, u2: int| !#[trigger] image_at(cs@, i as int, a2, u2) by {
        if a2 >= ae && image_at(cs@, i as int, a2, u2) {
            if ae + 1 >= n {
            } else {
                assert(cs@[ae as int] == '\n');
            }
        }
    };
    None
}

/// The first match of the image pattern in `cs`, as positions.
fn find_image(cs: &Vec<char>) -> (r: Option<(usize, usize, usize, Option<usize>)>)
    ensures
        match r {
            Some((i, ae, ue, t)) => {
                &&& first_image(cs@, i as int, ae as int, ue as int)
                &&& match t {
                    Some(te) => first_title_end(cs@, ue as int, te as int),
                    None => forall|te: int| !titled_end(cs@, ue as int, te),
                }
            },
            None => forall|i: int, ae: int, ue: int| !#[trigger] image_at(cs@, i, ae, ue),
        },
{
    let n = cs.len();
    let mut i: usize = 0;
    while i < n && i + 1 < n
        invariant
            n == cs.len(),
            i <= n,
            forall|i2: int, a2: int, u2: int| 0 <= i2 < i ==> !#[trigger] image_at(cs@, i2, a2, u2),
        decreases n - i,
    {
        if cs[i] == '!' && cs[i + 1] == '[' {
            match find_alt_end(cs, i) {
                Some((ae, ue, t)) => {
                    return Some((i, ae, ue, t));
                },
                None => {},
            }
        }
        i = i + 1;
    }
    None
}

proof fn lemma_first_image_unique(s: Seq<char>, i: int, ae: int, ue: int, j: int, be: int, ve: int)
    requires
        first_image(s, i, ae, ue),
        first_image(s, j, be, ve),
    ensures
        i == j && ae == be && ue == ve,
{
    if i < j {
        assert(!image_at(s, i, ae, ue));
    } else if j < i {
        assert(!image_at(s, j, be, ve));
    } else if ae < be {
        assert(!image_at(s, i, ae, ue));
    } else if be < ae {
        assert(!image_at(s, j, be, ve));
    } else if ue < ve {
        assert(!image_at(s, i, ae, ue));
    } else if ve < ue {
        assert(!image_at(s, j, be, ve));
    }
}

proof fn lemma_first_title_unique(s: Seq<char>, ue: int, te: int, t2: int)
    requires
        first_title_end(s, ue, te),
        first_title_end(s, ue, t2),
    ensures
        te == t2,
{
    if te < t2 {
        assert(!titled_end(s, ue, te));
    } else if t2 < te {
        assert(!titled_end(s, ue, t2));
    }
}

/// The first image of a post's markdown (`![alt](url "title")`).
pub fn get_first_image(content: &str) -> (r: Option<Image>)
    ensures
        match r {
            Some(img) => first_image_of(content@) == Some(image_view(img)),
            None => first_image_of(content@) is None,
        },
{
    let cs = char_vec(content);
    match find_image(&cs) {
        None => {
            assert(!exists|i: int, ae: int, ue: int| first_image(cs@, i, ae, ue));
            None
        },
        Some((i, ae, ue, t)) => {
            let ghost s = cs@;
            proof {
                let (i2, a2, u2) = choose|i2: int, a2: int, u2: int| first_image(s, i2, a2, u2);
                lemma_first_image_unique(s, i as int, ae as int, ue as int, i2, a2, u2);
            }
            let url = String::from_str(content.substring_char(ae + 2, ue));
            let alt = String::from_str(content.substring_char(i + 2, ae));
            let title = match t {
                Some(te) => {
                    proof {
                        let t2 = choose|t2: int| first_title_end(s, ue as int, t2);
                        lemma_first_title_unique(s, ue as int, te as int, t2);
                    }
                    Some(String::from_str(content.substring_char(ue + 2, te)))
                },
                None => {
                    assert(!exists|te: int| first_title_end(s, ue as int, te));
                    None
                },
            };
            Some(Image { url, title, alt: Some(alt) })
        },
    }
}

} // verus!
