//! Rewriting of relative documentation links into absolute ones.
//!
//! A rendered README may hold Markdown links of the form
//! `[text](url)` or `[text](url "title")` whose `url` is relative to the
//! generated documentation. Two relative forms are rewritten against the
//! documentation host; every other link stays as it is.

use vstd::prelude::*;
use vstd::slice::slice_subrange;
use vstd::utf8::{encode_utf8, is_ascii_chars_encode_utf8};
use crate::bytes::{append, ends_with, replace_byte, replaced, starts_with, without_suffix};
use crate::error::{ReadmeError, ReadmeErrorView};

verus! {

/// The pattern that finds inline links, `[text](url)` or
/// `[text](url "title")`: group 1 is the text, group 2 the url, group 3
/// the title where there is one. Text and title stay on one line and end
/// as early as they can; the url holds neither white space nor `)`.
pub const LINK_PATTERN: &'static str =
    "\\[(?P<text>.+?)\\]\\((?P<url>[^\\s)]+)(?: \"(?P<title>.+?)\")?\\)";

/// The documentation host used where a package declares none.
pub const DEFAULT_DOC_URI: &'static str = "https://docs.rs/";

/// The byte `_`.
pub const UNDERSCORE: u8 = 0x5f;

/// The byte `-`.
pub const HYPHEN: u8 = 0x2d;

/// Where one capture group matched: the offsets of its first byte and of
/// the byte after its last; `None` where the group took no part.
pub type GroupSpan = Option<(usize, usize)>;

/// The groups of one match, group 0 (the whole match) first.
pub type Groups = Vec<GroupSpan>;

/// What `regex::bytes::Regex::new(pattern)` followed by `captures_iter(haystack)`
/// yields: `None` where the pattern is refused, otherwise the groups of each
/// match in the order found.
pub uninterp spec fn regex_captures(pattern: Seq<char>, haystack: Seq<u8>) -> Option<
    Seq<Seq<GroupSpan>>,
>;

/// The matches of a search as sequences.
pub open spec fn captures_view(caps: Seq<Groups>) -> Seq<Seq<GroupSpan>> {
    caps.map_values(|g: Groups| g@)
}

#[verifier::external_type_specification]
#[verifier::external_body]
pub struct ExRegexError(regex::Error);

/// Compiles `pattern` with `regex::bytes::Regex::new` and collects, from
/// `Regex::captures_iter` on `haystack`, the byte offsets of every group of
/// every match (`Captures::iter`, `Match::start`, `Match::end`). The error is
/// the one that `Regex::new` gave. Nothing is claimed of the offsets but that
/// they are what the crate reports for these two arguments.
#[verifier::external_body]
fn find_captures(pattern: &str, haystack: &[u8]) -> (r: Result<Vec<Groups>, regex::Error>)
    ensures
        match r {
            Ok(caps) => regex_captures(pattern@, haystack@) == Some(captures_view(caps@)),
            Err(_) => regex_captures(pattern@, haystack@) is None,
        },
{
    let re = regex::bytes::Regex::new(pattern)?;
    Ok(
        re.captures_iter(haystack).map(
            |c| c.iter().map(|g| g.map(|m| (m.start(), m.end()))).collect(),
        ).collect(),
    )
}

/// The bytes of a text: its UTF-8 encoding.
pub open spec fn text_bytes(s: Seq<char>) -> Seq<u8> {
    encode_utf8(s)
}

/// Whether a url points at a sibling page at the root of the host.
pub open spec fn is_sibling_url(url: Seq<u8>) -> bool {
    text_bytes("../"@).is_prefix_of(url)
}

/// Whether a url points into the documentation of the package itself.
pub open spec fn is_own_url(url: Seq<u8>) -> bool {
    text_bytes("./"@).is_prefix_of(url)
}

/// Whether a url is one of the two relative forms that are rewritten.
pub open spec fn is_relative_url(url: Seq<u8>) -> bool {
    is_sibling_url(url) || is_own_url(url)
}

/// The path on the host for a sibling url: the leading `../` goes, every
/// underscore becomes a hyphen, a trailing `/index.html` goes.
pub open spec fn sibling_target(url: Seq<u8>) -> Seq<u8> {
    without_suffix(replaced(url.skip(3), UNDERSCORE, HYPHEN), text_bytes("/index.html"@))
}

/// The path on the host for a url into the package's own documentation:
/// `<name>/latest/<name with underscores>/<what follows "./">`.
pub open spec fn own_target(pkg: Seq<u8>, url: Seq<u8>) -> Seq<u8> {
    pkg + text_bytes("/latest/"@) + replaced(pkg, HYPHEN, UNDERSCORE) + text_bytes("/"@) + url.skip(
        2,
    )
}

/// The absolute url for a relative one, against the host `base`.
pub open spec fn absolute_url(pkg: Seq<u8>, base: Seq<u8>, url: Seq<u8>) -> Seq<u8> {
    if is_sibling_url(url) {
        base + sibling_target(url)
    } else {
        base + own_target(pkg, url)
    }
}

/// The Markdown of a link with the given text, url and title.
pub open spec fn link_markup(text: Seq<u8>, url: Seq<u8>, title: Option<Seq<u8>>) -> Seq<u8> {
    text_bytes("["@) + text + text_bytes("]("@) + url + match title {
        Some(t) => text_bytes(" \""@) + t + text_bytes("\""@),
        None => Seq::<u8>::empty(),
    } + text_bytes(")"@)
}

/// Group `i` of a match where it took part and lies inside a text of `len` bytes.
pub open spec fn group_at(groups: Seq<GroupSpan>, i: int, len: int) -> GroupSpan {
    if 0 <= i < groups.len() {
        match groups[i] {
            Some((a, b)) => if a <= b <= len {
                Some((a, b))
            } else {
                None
            },
            None => None,
        }
    } else {
        None
    }
}

/// The bytes of `readme` that a group covers.
pub open spec fn group_bytes(readme: Seq<u8>, span: (usize, usize)) -> Seq<u8> {
    readme.subrange(span.0 as int, span.1 as int)
}

/// The url of a match, where its url group took part.
pub open spec fn match_url(readme: Seq<u8>, groups: Seq<GroupSpan>) -> Option<Seq<u8>> {
    match group_at(groups, 2, readme.len() as int) {
        Some(u) => Some(group_bytes(readme, u)),
        None => None,
    }
}

/// Whether a match is a link that gets a new url: text and url took part
/// and the url is relative.
pub open spec fn is_rewritten(readme: Seq<u8>, groups: Seq<GroupSpan>) -> bool {
    &&& group_at(groups, 1, readme.len() as int) is Some
    &&& match_url(readme, groups) is Some
    &&& is_relative_url(match_url(readme, groups).unwrap())
}

/// What stands in the output for the match `whole`: the link rebuilt round
/// its absolute url, text and title as they were, where the link is
/// relative; the matched bytes themselves otherwise.
pub open spec fn rewritten_link(
    pkg: Seq<u8>,
    readme: Seq<u8>,
    base: Seq<u8>,
    groups: Seq<GroupSpan>,
    whole: (usize, usize),
) -> Seq<u8> {
    if is_rewritten(readme, groups) {
        let len = readme.len() as int;
        link_markup(
            group_bytes(readme, group_at(groups, 1, len).unwrap()),
            absolute_url(pkg, base, match_url(readme, groups).unwrap()),
            match group_at(groups, 3, len) {
                Some(t) => Some(group_bytes(readme, t)),
                None => None,
            },
        )
    } else {
        group_bytes(readme, whole)
    }
}

/// The span of a whole match where it can be taken up after `pos` bytes of
/// the text have been dealt with: it starts at or after `pos` and lies
/// inside the text.
pub open spec fn next_match(groups: Seq<GroupSpan>, pos: int, len: int) -> GroupSpan {
    match group_at(groups, 0, len) {
        Some((s, e)) => if pos <= s {
            Some((s, e))
        } else {
            None
        },
        None => None,
    }
}

/// The output for the text from `pos` on, given the matches from `i` on.
/// A match that cannot be taken up is passed over.
pub open spec fn relinked_from(
    pkg: Seq<u8>,
    readme: Seq<u8>,
    base: Seq<u8>,
    caps: Seq<Seq<GroupSpan>>,
    i: int,
    pos: int,
) -> Seq<u8>
    decreases caps.len() - i,
{
    if i < 0 || i >= caps.len() {
        readme.subrange(pos, readme.len() as int)
    } else {
        match next_match(caps[i], pos, readme.len() as int) {
            Some(whole) => readme.subrange(pos, whole.0 as int) + rewritten_link(
                pkg,
                readme,
                base,
                caps[i],
                whole,
            ) + relinked_from(pkg, readme, base, caps, i + 1, whole.1 as int),
            None => relinked_from(pkg, readme, base, caps, i + 1, pos),
        }
    }
}

/// `readme` with each relative link among `caps` made absolute: what lies
/// between the matches is kept, each match gives way to `rewritten_link`.
pub open spec fn relinked(
    pkg: Seq<u8>,
    readme: Seq<u8>,
    base: Seq<u8>,
    caps: Seq<Seq<GroupSpan>>,
) -> Seq<u8> {
    relinked_from(pkg, readme, base, caps, 0, 0)
}

/// The host against which links are made absolute: the declared one, or
/// the default where none is declared.
pub open spec fn base_uri(doc_uri: Option<Seq<char>>) -> Seq<u8> {
    match doc_uri {
        Some(uri) => text_bytes(uri),
        None => text_bytes(DEFAULT_DOC_URI@),
    }
}

/// An optional text as an optional sequence of characters.
pub open spec fn opt_text(s: Option<&str>) -> Option<Seq<char>> {
    match s {
        Some(t) => Some(t@),
        None => None,
    }
}

/// What `fix_doc_links` makes of `readme`; `None` where the link pattern is refused.
pub open spec fn fixed_links(
    pkg_name: Seq<char>,
    readme: Seq<u8>,
    doc_uri: Option<Seq<char>>,
) -> Option<Seq<u8>> {
    match regex_captures(LINK_PATTERN@, readme) {
        Some(caps) => Some(relinked(text_bytes(pkg_name), readme, base_uri(doc_uri), caps)),
        None => None,
    }
}

/// Whether the link pattern finds no relative link in `readme`: it is
/// accepted, and none of its matches is a link that gets a new url.
pub open spec fn no_relative_link(readme: Seq<u8>) -> bool {
    regex_captures(LINK_PATTERN@, readme) matches Some(caps) && forall|k: int|
        0 <= k < caps.len() ==> !is_rewritten(readme, #[trigger] caps[k])
}

/// The two relative prefixes have three and two bytes.
proof fn lemma_prefix_lengths()
    ensures
        text_bytes("../"@).len() == 3,
        text_bytes("./"@).len() == 2,
{
    reveal_strlit("../");
    reveal_strlit("./");
    is_ascii_chars_encode_utf8("../"@);
    is_ascii_chars_encode_utf8("./"@);
}

fn group(groups: &Groups, i: usize, len: usize) -> (r: GroupSpan)
    ensures
        r == group_at(groups@, i as int, len as int),
{
    if i < groups.len() {
        match groups[i] {
            Some((a, b)) => if a <= b && b <= len {
                Some((a, b))
            } else {
                None
            },
            None => None,
        }
    } else {
        None
    }
}

fn push_link(out: &mut Vec<u8>, text: &[u8], url: &[u8], title: Option<&[u8]>)
    ensures
        final(out)@ == old(out)@ + link_markup(
            text@,
            url@,
            match title {
                Some(t) => Some(t@),
                None => None,
            },
        ),
{
    let ghost before = out@;
    append(out, "[".as_bytes());
    append(out, text);
    append(out, "](".as_bytes());
    append(out, url);
    let ghost middle = out@;
    match title {
        Some(t) => {
            append(out, " \"".as_bytes());
            append(out, t);
            append(out, "\"".as_bytes());
        },
        None => {
        },
    }
    append(out, ")".as_bytes());
    assert(middle == before + (text_bytes("["@) + text@ + text_bytes("]("@) + url@));
}

fn push_absolute_url(out: &mut Vec<u8>, pkg: &[u8], base: &[u8], url: &[u8])
    requires
        is_relative_url(url@),
    ensures
        final(out)@ == old(out)@ + absolute_url(pkg@, base@, url@),
{
    proof {
        lemma_prefix_lengths();
    }
    append(out, base);
    if starts_with(url, "../".as_bytes()) {
        let rest = slice_subrange(url, 3, url.len());
        let hyphens = replace_byte(rest, UNDERSCORE, HYPHEN);
        let index = "/index.html".as_bytes();
        if ends_with(hyphens.as_slice(), index) {
            let kept = slice_subrange(hyphens.as_slice(), 0, hyphens.len() - index.len());
            append(out, kept);
        } else {
            append(out, hyphens.as_slice());
        }
    } else {
        let rest = slice_subrange(url, 2, url.len());
        let underscores = replace_byte(pkg, HYPHEN, UNDERSCORE);
        append(out, pkg);
        append(out, "/latest/".as_bytes());
        append(out, underscores.as_slice());
        append(out, "/".as_bytes());
        append(out, rest);
    }
}

fn push_rewritten(
    out: &mut Vec<u8>,
    pkg: &[u8],
    readme: &[u8],
    base: &[u8],
    groups: &Groups,
    whole: (usize, usize),
)
    requires
        whole.0 <= whole.1 <= readme@.len(),
    ensures
        final(out)@ == old(out)@ + rewritten_link(pkg@, readme@, base@, groups@, whole),
{
    let len = readme.len();
    let text = group(groups, 1, len);
    let url = group(groups, 2, len);
    if let (Some(t), Some(u)) = (text, url) {
        let url_bytes = slice_subrange(readme, u.0, u.1);
        if starts_with(url_bytes, "../".as_bytes()) || starts_with(url_bytes, "./".as_bytes()) {
            let mut target: Vec<u8> = Vec::new();
            push_absolute_url(&mut target, pkg, base, url_bytes);
            let title = match group(groups, 3, len) {
                Some(s) => Some(slice_subrange(readme, s.0, s.1)),
                None => None,
            };
            push_link(out, slice_subrange(readme, t.0, t.1), target.as_slice(), title);
            return ;
        }
    }
    append(out, slice_subrange(readme, whole.0, whole.1));
}

/// Makes the relative links among `caps` absolute. `caps` holds, for each
/// match of the link pattern in `readme`, the offsets of its groups; a
/// match that overlaps the one before it or reaches outside `readme` is
/// passed over.
pub fn rewrite_links(pkg_name: &str, readme: &[u8], doc_uri: Option<&str>, caps: &Vec<Groups>) -> (r:
    Vec<u8>)
    ensures
        r@ == relinked(
            text_bytes(pkg_name@),
            readme@,
            base_uri(opt_text(doc_uri)),
            captures_view(caps@),
        ),
{
    let pkg = pkg_name.as_bytes();
    let base = match doc_uri {
        Some(uri) => uri.as_bytes(),
        None => DEFAULT_DOC_URI.as_bytes(),
    };
    let len = readme.len();
    let ghost all = captures_view(caps@);
    let mut out: Vec<u8> = Vec::new();
    let mut pos: usize = 0;
    let mut i: usize = 0;
    while i < caps.len()
        invariant
            i <= caps.len(),
            pos <= len == readme@.len(),
            all == captures_view(caps@),
            pkg@ == text_bytes(pkg_name@),
            base@ == base_uri(opt_text(doc_uri)),
            relinked(pkg@, readme@, base@, all) == out@ + relinked_from(
                pkg@,
                readme@,
                base@,
                all,
                i as int,
                pos as int,
            ),
        decreases caps.len() - i,
    {
        let groups = &caps[i];
        match group(groups, 0, len) {
            Some(whole) => {
                if pos <= whole.0 {
                    append(&mut out, slice_subrange(readme, pos, whole.0));
                    push_rewritten(&mut out, pkg, readme, base, groups, whole);
                    pos = whole.1;
                }
            },
            None => {},
        }
        i += 1;
    }
    append(&mut out, slice_subrange(readme, pos, len));
    out
}

/// Finds the matches of `pattern` in `haystack`, with the offsets of
/// their groups.
pub fn find_matches(pattern: &str, haystack: &[u8]) -> (r: Result<Vec<Groups>, ReadmeError>)
    ensures
        match regex_captures(pattern@, haystack@) {
            Some(found) => r matches Ok(caps) && captures_view(caps@) == found,
            None => r matches Err(e) && e@ == ReadmeErrorView::PatternRejected,
        },
{
    match find_captures(pattern, haystack) {
        Ok(caps) => Ok(caps),
        Err(_) => Err(ReadmeError::PatternRejected),
    }
}

/// Makes the relative documentation links of a rendered README absolute.
/// Links to a sibling page (`../`) go to the root of the documentation
/// host, links into the package's own pages (`./`) below
/// `<name>/latest/<name with underscores>/`; every other link, and all
/// text between links, is kept byte for byte.
pub fn fix_doc_links(pkg_name: &str, readme: &[u8], doc_uri: Option<&str>) -> (r: Result<
    Vec<u8>,
    ReadmeError,
>)
    ensures
        match fixed_links(pkg_name@, readme@, opt_text(doc_uri)) {
            Some(fixed) => r matches Ok(out) && out@ == fixed,
            None => r matches Err(e) && e@ == ReadmeErrorView::PatternRejected,
        },
{
    match find_matches(LINK_PATTERN, readme) {
        Ok(caps) => Ok(rewrite_links(pkg_name, readme, doc_uri, &caps)),
        Err(e) => Err(e),
    }
}

/// A link whose url starts with neither `./` nor `../` stands in the output
/// exactly as it stood in the input, title included.
pub proof fn lemma_other_link_unchanged(
    pkg: Seq<u8>,
    readme: Seq<u8>,
    base: Seq<u8>,
    groups: Seq<GroupSpan>,
    whole: (usize, usize),
)
    requires
        match_url(readme, groups) matches Some(url) && !is_relative_url(url),
    ensures
        rewritten_link(pkg, readme, base, groups, whole) == group_bytes(readme, whole),
{
}

proof fn lemma_relinked_from_unchanged(
    pkg: Seq<u8>,
    readme: Seq<u8>,
    base: Seq<u8>,
    caps: Seq<Seq<GroupSpan>>,
    i: int,
    pos: int,
)
    requires
        0 <= i <= caps.len(),
        0 <= pos <= readme.len(),
        forall|k: int| 0 <= k < caps.len() ==> !is_rewritten(readme, #[trigger] caps[k]),
    ensures
        relinked_from(pkg, readme, base, caps, i, pos) == readme.subrange(pos, readme.len() as int),
    decreases caps.len() - i,
{
    if i < caps.len() {
        match next_match(caps[i], pos, readme.len() as int) {
            Some(whole) => {
                lemma_relinked_from_unchanged(pkg, readme, base, caps, i + 1, whole.1 as int);
            },
            None => {
                lemma_relinked_from_unchanged(pkg, readme, base, caps, i + 1, pos);
            },
        }
    }
}

/// Against a host that is not itself a relative url, a rewritten url is
/// not relative: the link it stands in would be left alone if it were met
/// again.
pub proof fn lemma_absolute_url_not_relative(pkg: Seq<u8>, base: Seq<u8>, url: Seq<u8>)
    requires
        base.len() >= 3,
        !is_relative_url(base),
    ensures
        !is_relative_url(absolute_url(pkg, base, url)),
{
    lemma_prefix_lengths();
}

/// The default host is not a relative url.
pub proof fn lemma_default_host_not_relative()
    ensures
        base_uri(None).len() >= 3,
        !is_relative_url(base_uri(None)),
{
    reveal_strlit("https://docs.rs/");
    reveal_strlit("../");
    reveal_strlit("./");
    is_ascii_chars_encode_utf8("https://docs.rs/"@);
    is_ascii_chars_encode_utf8("../"@);
    is_ascii_chars_encode_utf8("./"@);
}

/// A text none of whose links is relative comes out byte for byte as it went in.
pub proof fn lemma_no_relative_link_no_change(
    pkg: Seq<u8>,
    readme: Seq<u8>,
    base: Seq<u8>,
    caps: Seq<Seq<GroupSpan>>,
)
    requires
        forall|k: int| 0 <= k < caps.len() ==> !is_rewritten(readme, #[trigger] caps[k]),
    ensures
        relinked(pkg, readme, base, caps) == readme,
{
    lemma_relinked_from_unchanged(pkg, readme, base, caps, 0, 0);
}

/// On a text whose links are all absolute already, rewriting twice gives
/// what rewriting once gives: the text itself.
pub proof fn lemma_fix_doc_links_idempotent(
    pkg_name: Seq<char>,
    readme: Seq<u8>,
    doc_uri: Option<Seq<char>>,
)
    requires
        no_relative_link(readme),
    ensures
        fixed_links(pkg_name, readme, doc_uri) == Some(readme),
        fixed_links(pkg_name, fixed_links(pkg_name, readme, doc_uri).unwrap(), doc_uri)
            == fixed_links(pkg_name, readme, doc_uri),
{
    lemma_no_relative_link_no_change(
        text_bytes(pkg_name),
        readme,
        base_uri(doc_uri),
        regex_captures(LINK_PATTERN@, readme).unwrap(),
    );
}

} // verus!
