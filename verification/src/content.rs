//! Submission screening: validation of artifact and community
//! submissions, search-keyword extraction, and image-link checks.

use vstd::prelude::*;
use vstd::string::StringSliceAdditionalSpecFns;
use vstd::utf8::encode_utf8;
use std::collections::HashMap;
use crate::validate::{is_blank, str_is_blank};
use crate::text::push_char;

verus! {

/// An artifact submission as the screening helpers see it.
pub struct ArtifactData {
    pub name: String,
    pub description: String,
    pub category: String,
    pub period: String,
    pub location: String,
    pub images: Vec<String>,
    pub metadata: HashMap<String, String>,
}

/// An artifact submission is acceptable when each of its five text
/// fields carries something beyond whitespace.
pub open spec fn artifact_data_ok(a: &ArtifactData) -> bool {
    &&& !is_blank(a.name@)
    &&& !is_blank(a.description@)
    &&& !is_blank(a.category@)
    &&& !is_blank(a.period@)
    &&& !is_blank(a.location@)
}

/// Screens an artifact submission.
pub fn validate_artifact_data(data: &ArtifactData) -> (r: bool)
    ensures
        r == artifact_data_ok(data),
{
    !str_is_blank(data.name.as_str()) && !str_is_blank(data.description.as_str())
        && !str_is_blank(data.category.as_str()) && !str_is_blank(data.period.as_str())
        && !str_is_blank(data.location.as_str())
}

/// A community post as the screening helpers see it.
pub struct CommunityPostData {
    pub title: String,
    pub content: String,
    pub tags: Vec<String>,
    pub images: Vec<String>,
}

/// A community post is acceptable when its title and content carry
/// something beyond whitespace.
pub open spec fn community_post_ok(p: &CommunityPostData) -> bool {
    !is_blank(p.title@) && !is_blank(p.content@)
}

/// Screens a community post.
pub fn validate_community_post(post: &CommunityPostData) -> (r: bool)
    ensures
        r == community_post_ok(post),
{
    !str_is_blank(post.title.as_str()) && !str_is_blank(post.content.as_str())
}

/// A community profile as the screening helpers see it.
pub struct CommunityData {
    pub name: String,
    pub description: String,
    pub category: String,
    pub is_public: bool,
}

/// A community profile is acceptable when its name and description
/// carry something beyond whitespace.
pub open spec fn community_data_ok(c: &CommunityData) -> bool {
    !is_blank(c.name@) && !is_blank(c.description@)
}

/// Screens a community profile.
pub fn validate_community_data(data: &CommunityData) -> (r: bool)
    ensures
        r == community_data_ok(data),
{
    !str_is_blank(data.name.as_str()) && !str_is_blank(data.description.as_str())
}

/// A byte that belongs to a search word: an ASCII letter or digit.
pub open spec fn is_word_byte(b: u8) -> bool {
    (97 <= b <= 122) || (65 <= b <= 90) || (48 <= b <= 57)
}

/// Tests whether a byte belongs to a search word.
fn is_word_u8(b: u8) -> (r: bool)
    ensures
        r == is_word_byte(b),
{
    (97 <= b && b <= 122) || (65 <= b && b <= 90) || (48 <= b && b <= 57)
}

/// The byte lowercased, for ASCII letters.
pub open spec fn lower_byte(b: u8) -> u8 {
    if 65 <= b <= 90 {
        (b + 32) as u8
    } else {
        b
    }
}

/// The characters of a word's bytes, lowercased.
pub open spec fn word_chars(s: Seq<u8>) -> Seq<char> {
    Seq::new(s.len(), |i: int| lower_byte(s[i]) as char)
}

/// The length of the maximal word prefix of `s`.
pub open spec fn word_prefix_len(s: Seq<u8>) -> int
    decreases s.len(),
{
    if s.len() == 0 || !is_word_byte(s[0]) {
        0
    } else {
        1 + word_prefix_len(s.drop_first())
    }
}

/// The maximal word prefix never outruns the text.
pub proof fn lemma_word_prefix_len_bound(s: Seq<u8>)
    ensures
        0 <= word_prefix_len(s) <= s.len(),
    decreases s.len(),
{
    if s.len() > 0 && is_word_byte(s[0]) {
        lemma_word_prefix_len_bound(s.drop_first());
    }
}

/// The lowercased words of a byte text, in order: maximal runs of
/// letters and digits, everything else separating.
pub open spec fn keywords_of(s: Seq<u8>) -> Seq<Seq<char>>
    decreases s.len(),
    when s.len() >= 0
    via keywords_of_decreases
{
    if s.len() == 0 {
        Seq::empty()
    } else if !is_word_byte(s[0]) {
        keywords_of(s.drop_first())
    } else {
        let w = word_prefix_len(s);
        seq![word_chars(s.subrange(0, w))] + keywords_of(s.subrange(w, s.len() as int))
    }
}

#[via_fn]
proof fn keywords_of_decreases(s: Seq<u8>) {
    if s.len() > 0 && is_word_byte(s[0]) {
        lemma_word_prefix_len_bound(s.drop_first());
        assert(word_prefix_len(s) == 1 + word_prefix_len(s.drop_first()));
    }
}

/// The exact word-prefix length: `m` word bytes followed by the
/// text's end or a separator.
proof fn lemma_word_prefix_exact(s: Seq<u8>, m: int)
    requires
        0 <= m <= s.len(),
        forall|k: int| 0 <= k < m ==> is_word_byte(#[trigger] s[k]),
        m < s.len() ==> !is_word_byte(s[m]),
    ensures
        word_prefix_len(s) == m,
    decreases m,
{
    if m == 0 {
    } else {
        assert(is_word_byte(s[0]));
        let t = s.drop_first();
        assert forall|k: int| 0 <= k < m - 1 implies is_word_byte(#[trigger] t[k]) by {
            assert(t[k] == s[k + 1]);
        }
        if m - 1 < t.len() {
            assert(t[m - 1] == s[m]);
        }
        lemma_word_prefix_exact(t, m - 1);
    }
}

/// A separator at the front contributes no keyword.
proof fn lemma_keywords_skip(s: Seq<u8>, i: int, n: int)
    requires
        0 <= i < n <= s.len(),
        !is_word_byte(s[i]),
    ensures
        keywords_of(s.subrange(i, n)) == keywords_of(s.subrange(i + 1, n)),
{
    let t = s.subrange(i, n);
    assert(t[0] == s[i]);
    assert(t.drop_first() =~= s.subrange(i + 1, n));
}

/// A word run at the front contributes exactly its lowercased
/// characters.
proof fn lemma_keywords_word(s: Seq<u8>, i: int, j: int, n: int)
    requires
        0 <= i < j <= n <= s.len(),
        forall|k: int| i <= k < j ==> is_word_byte(#[trigger] s[k]),
        j < n ==> !is_word_byte(s[j]),
    ensures
        keywords_of(s.subrange(i, n)) == seq![word_chars(s.subrange(i, j))] + keywords_of(
            s.subrange(j, n)),
{
    let t = s.subrange(i, n);
    assert(t[0] == s[i]);
    assert(is_word_byte(t[0]));
    assert forall|k: int| 0 <= k < j - i implies is_word_byte(#[trigger] t[k]) by {
        assert(t[k] == s[i + k]);
    }
    if j - i < t.len() {
        assert(t[j - i] == s[j]);
    }
    lemma_word_prefix_exact(t, j - i);
    assert(t.subrange(0, j - i) =~= s.subrange(i, j));
    assert(t.subrange(j - i, t.len() as int) =~= s.subrange(j, n));
}

/// Extracts the lowercased words of a text, in order.
pub fn extract_words(text: &str) -> (r: Vec<String>)
    ensures
        r@.map_values(|t: String| t@) == keywords_of(text.spec_bytes()),
{
    let bytes = text.as_bytes();
    let n = bytes.len();
    let mut out: Vec<String> = Vec::new();
    let mut i: usize = 0;
    proof {
        assert(bytes@.subrange(0, n as int) =~= bytes@);
    }
    while i < n
        invariant
            n == bytes@.len(),
            bytes@ == text.spec_bytes(),
            0 <= i <= n,
            keywords_of(bytes@) == out@.map_values(|t: String| t@) + keywords_of(
                bytes@.subrange(i as int, n as int)),
        decreases n - i,
    {
        let b = bytes[i];
        if !is_word_u8(b) {
            proof {
                lemma_keywords_skip(bytes@, i as int, n as int);
            }
            i = i + 1;
        } else {
            let start = i;
            let mut word = String::new();
            let mut j: usize = i;
            while j < n && is_word_u8(bytes[j])
                invariant
                    n == bytes@.len(),
                    0 <= start <= j <= n,
                    forall|k: int| start <= k < j ==> is_word_byte(#[trigger] bytes@[k]),
                    word@ == word_chars(bytes@.subrange(start as int, j as int)),
                decreases n - j,
            {
                let c = bytes[j];
                let lc: u8 = if 65 <= c && c <= 90 {
                    c + 32
                } else {
                    c
                };
                push_char(&mut word, lc as char);
                proof {
                    assert(word@ =~= word_chars(bytes@.subrange(start as int, j as int + 1)));
                }
                j = j + 1;
            }
            proof {
                lemma_keywords_word(bytes@, start as int, j as int, n as int);
            }
            let ghost pre_views = out@.map_values(|t: String| t@);
            out.push(word);
            proof {
                assert(out@.map_values(|t: String| t@) =~= pre_views.push(word@));
                assert(pre_views.push(word@) + keywords_of(bytes@.subrange(j as int, n as int))
                    =~= pre_views + (seq![word_chars(bytes@.subrange(start as int, j as int))]
                    + keywords_of(bytes@.subrange(j as int, n as int))));
            }
            i = j;
        }
    }
    proof {
        assert(bytes@.subrange(n as int, n as int) =~= Seq::<u8>::empty());
        assert(keywords_of(bytes@) =~= out@.map_values(|t: String| t@));
    }
    out
}

/// The search keywords of an artifact submission: the lowercased
/// words of its name, description, category, period, and location, in
/// that order.
pub open spec fn artifact_keywords(a: &ArtifactData) -> Seq<Seq<char>> {
    keywords_of(encode_utf8(a.name@)) + keywords_of(encode_utf8(a.description@)) + keywords_of(
        encode_utf8(a.category@)) + keywords_of(encode_utf8(a.period@)) + keywords_of(
        encode_utf8(a.location@))
}

/// Extracts the search keywords of an artifact submission.
pub fn extract_search_keywords(artifact: &ArtifactData) -> (r: Vec<String>)
    ensures
        r@.map_values(|t: String| t@) == artifact_keywords(artifact),
{
    let mut out = extract_words(artifact.name.as_str());
    let mut more = extract_words(artifact.description.as_str());
    let ghost v1 = out@.map_values(|t: String| t@);
    let ghost v2 = more@.map_values(|t: String| t@);
    out.append(&mut more);
    proof {
        assert(out@.map_values(|t: String| t@) =~= v1 + v2);
    }
    let mut more = extract_words(artifact.category.as_str());
    let ghost v1 = out@.map_values(|t: String| t@);
    let ghost v2 = more@.map_values(|t: String| t@);
    out.append(&mut more);
    proof {
        assert(out@.map_values(|t: String| t@) =~= v1 + v2);
    }
    let mut more = extract_words(artifact.period.as_str());
    let ghost v1 = out@.map_values(|t: String| t@);
    let ghost v2 = more@.map_values(|t: String| t@);
    out.append(&mut more);
    proof {
        assert(out@.map_values(|t: String| t@) =~= v1 + v2);
    }
    let mut more = extract_words(artifact.location.as_str());
    let ghost v1 = out@.map_values(|t: String| t@);
    let ghost v2 = more@.map_values(|t: String| t@);
    out.append(&mut more);
    proof {
        assert(out@.map_values(|t: String| t@) =~= v1 + v2);
        assert(out@.map_values(|t: String| t@) =~= artifact_keywords(artifact));
    }
    out
}

/// The bytes of the plain web-address prefix.
pub open spec fn http_prefix() -> Seq<u8> {
    seq![104u8, 116u8, 116u8, 112u8, 58u8, 47u8, 47u8]
}

/// The bytes of the secure web-address prefix.
pub open spec fn https_prefix() -> Seq<u8> {
    seq![104u8, 116u8, 116u8, 112u8, 115u8, 58u8, 47u8, 47u8]
}

/// The bytes of the JPEG image suffix.
pub open spec fn jpg_suffix() -> Seq<u8> {
    seq![46u8, 106u8, 112u8, 103u8]
}

/// The bytes of the PNG image suffix.
pub open spec fn png_suffix() -> Seq<u8> {
    seq![46u8, 112u8, 110u8, 103u8]
}

/// The bytes of the GIF image suffix.
pub open spec fn gif_suffix() -> Seq<u8> {
    seq![46u8, 103u8, 105u8, 102u8]
}

/// Whether the byte text starts with `p`.
pub open spec fn has_prefix(s: Seq<u8>, p: Seq<u8>) -> bool {
    s.len() >= p.len() && s.subrange(0, p.len() as int) == p
}

/// Whether the byte text ends with `p`.
pub open spec fn has_suffix(s: Seq<u8>, p: Seq<u8>) -> bool {
    s.len() >= p.len() && s.subrange(s.len() - p.len(), s.len() as int) == p
}

/// Whether a link is an acceptable image reference: a web address
/// ending in a known image suffix.
pub open spec fn image_url_ok(s: Seq<u8>) -> bool {
    &&& (has_prefix(s, http_prefix()) || has_prefix(s, https_prefix()))
    &&& (has_suffix(s, jpg_suffix()) || has_suffix(s, png_suffix()) || has_suffix(s,
        gif_suffix()))
}

/// Compares a region of the text against an expected byte pattern.
fn region_matches(bytes: &[u8], at: usize, expected: &Vec<u8>) -> (r: bool)
    requires
        at + expected@.len() <= bytes@.len(),
    ensures
        r == (bytes@.subrange(at as int, at + expected@.len()) == expected@),
{
    let m = expected.len();
    let total = bytes.len();
    let mut i: usize = 0;
    while i < m
        invariant
            at + m <= total,
            total == bytes@.len(),
            m == expected@.len(),
            0 <= i <= m,
            forall|k: int| 0 <= k < i ==> #[trigger] bytes@[at + k] == expected@[k],
        decreases m - i,
    {
        if bytes[at + i] != expected[i] {
            proof {
                let sub = bytes@.subrange(at as int, at + expected@.len());
                assert(sub[i as int] != expected@[i as int]);
            }
            return false;
        }
        i = i + 1;
    }
    proof {
        let sub = bytes@.subrange(at as int, at + expected@.len());
        assert forall|k: int| 0 <= k < expected@.len() implies sub[k] == expected@[k] by {
            assert(bytes@[at + k] == expected@[k]);
        }
        assert(sub =~= expected@);
    }
    true
}

/// Screens an image link: it must be a web address with a known image
/// suffix.
pub fn validate_image_url(url: &str) -> (r: bool)
    ensures
        r == image_url_ok(url.spec_bytes()),
{
    let bytes = url.as_bytes();
    let n = bytes.len();
    let http: Vec<u8> = vec![104u8, 116u8, 116u8, 112u8, 58u8, 47u8, 47u8];
    let https: Vec<u8> = vec![104u8, 116u8, 116u8, 112u8, 115u8, 58u8, 47u8, 47u8];
    let jpg: Vec<u8> = vec![46u8, 106u8, 112u8, 103u8];
    let png: Vec<u8> = vec![46u8, 112u8, 110u8, 103u8];
    let gif: Vec<u8> = vec![46u8, 103u8, 105u8, 102u8];
    proof {
        assert(http@ =~= http_prefix());
        assert(https@ =~= https_prefix());
        assert(jpg@ =~= jpg_suffix());
        assert(png@ =~= png_suffix());
        assert(gif@ =~= gif_suffix());
    }
    let prefix_ok = (n >= 7 && region_matches(bytes, 0, &http)) || (n >= 8 && region_matches(
        bytes, 0, &https));
    if !prefix_ok {
        return false;
    }
    let suffix_ok = n >= 4 && (region_matches(bytes, n - 4, &jpg) || region_matches(bytes, n - 4,
        &png) || region_matches(bytes, n - 4, &gif));
    suffix_ok
}

} // verus!
