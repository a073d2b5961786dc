//! Strict validation of source URLs. Only two hosts are allowed, the
//! scheme is mandatory, and the video identifier must start with a word
//! character — a conservative allow-list that keeps anything that could
//! smuggle options or foreign hosts out of the argument vector.

use vstd::prelude::*;
use crate::strutil::{contains_seq, is_prefix_of, str_contains, str_starts_with};

verus! {

/// Whether a URL names a playlist rather than a single video, deciding
/// which metadata fetch is run.
pub fn is_playlist_url(url: &str) -> (r: bool)
    ensures
        r == (contains_seq(url@, "playlist"@) || contains_seq(url@, "list="@)),
{
    str_contains(url, "playlist") || str_contains(url, "list=")
}

/// A word character as the allow-list admits it in a video identifier:
/// ASCII letters, digits, underscore, hyphen.
pub open spec fn is_word_char(c: char) -> bool {
    ('a' <= c && c <= 'z') || ('A' <= c && c <= 'Z') || ('0' <= c && c <= '9') || c == '_' || c
        == '-'
}

/// After scheme and optional `www.`: one of the two allowed hosts with a
/// video identifier of at least one word character right after it.
/// Trailing characters (further query parameters) are allowed.
pub open spec fn valid_host_part(rest: Seq<char>) -> bool {
    let watch = "youtube.com/watch?v="@;
    let short = "youtu.be/"@;
    (is_prefix_of(watch, rest) && rest.len() > watch.len() && is_word_char(rest[watch.len() as int]))
        || (is_prefix_of(short, rest) && rest.len() > short.len() && is_word_char(
        rest[short.len() as int],
    ))
}

/// A valid source URL: an explicit `http://` or `https://` scheme, an
/// optional `www.`, and an allowed host with a non-empty video identifier.
pub open spec fn is_valid_youtube_url_spec(s: Seq<char>) -> bool {
    let https = "https://"@;
    let http = "http://"@;
    if is_prefix_of(https, s) {
        valid_after_scheme(s.skip(https.len() as int))
    } else if is_prefix_of(http, s) {
        valid_after_scheme(s.skip(http.len() as int))
    } else {
        false
    }
}

/// Strips an optional `www.` and checks the host part.
pub open spec fn valid_after_scheme(rest: Seq<char>) -> bool {
    let www = "www."@;
    if is_prefix_of(www, rest) {
        valid_host_part(rest.skip(www.len() as int))
    } else {
        valid_host_part(rest)
    }
}

/// Whether `c` is a word character.
fn is_word_char_exec(c: char) -> (r: bool)
    ensures
        r == is_word_char(c),
{
    ('a' <= c && c <= 'z') || ('A' <= c && c <= 'Z') || ('0' <= c && c <= '9') || c == '_' || c
        == '-'
}

/// Checks the part after scheme and optional `www.` against one allowed
/// host prefix.
fn check_host(rest: &str, host: &str) -> (r: bool)
    ensures
        r == (is_prefix_of(host@, rest@) && rest@.len() > host@.len() && is_word_char(
            rest@[host@.len() as int],
        )),
{
    if !str_starts_with(rest, host) {
        return false;
    }
    let h = host.unicode_len();
    let n = rest.unicode_len();
    if n <= h {
        return false;
    }
    is_word_char_exec(rest.get_char(h))
}

/// Validates a source URL against the allow-list.
pub fn is_valid_youtube_url(url: &str) -> (r: bool)
    ensures
        r == is_valid_youtube_url_spec(url@),
{
    let n = url.unicode_len();
    let after_scheme: &str = if str_starts_with(url, "https://") {
        let k = "https://".unicode_len();
        url.substring_char(k, n)
    } else if str_starts_with(url, "http://") {
        let k = "http://".unicode_len();
        url.substring_char(k, n)
    } else {
        return false;
    };
    proof {
        assert(after_scheme@ =~= if is_prefix_of("https://"@, url@) {
            url@.skip("https://"@.len() as int)
        } else {
            url@.skip("http://"@.len() as int)
        });
    }
    let m = after_scheme.unicode_len();
    let host_part: &str = if str_starts_with(after_scheme, "www.") {
        let k = "www.".unicode_len();
        after_scheme.substring_char(k, m)
    } else {
        after_scheme
    };
    proof {
        assert(host_part@ =~= if is_prefix_of("www."@, after_scheme@) {
            after_scheme@.skip("www."@.len() as int)
        } else {
            after_scheme@
        });
    }
    check_host(host_part, "youtube.com/watch?v=") || check_host(host_part, "youtu.be/")
}

/// Validates a URL as the submission commands do: the empty string is
/// invalid, everything else goes by the allow-list.
pub fn validate_url(url: &str) -> (r: bool)
    ensures
        r == (url@.len() > 0 && is_valid_youtube_url_spec(url@)),
{
    if url.unicode_len() == 0 {
        return false;
    }
    is_valid_youtube_url(url)
}

} // verus!
