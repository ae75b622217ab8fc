//! Text helpers shared by the fetchers, and the `CowStr` strings the crawler
//! hands around.

use vstd::prelude::*;

verus! {

#[verifier::external_type_specification]
#[verifier::external_body]
pub struct ExCowStr(cowstr::CowStr);

/// The characters that a `cowstr::CowStr` holds.
pub uninterp spec fn cowstr_text(s: cowstr::CowStr) -> Seq<char>;

/// Calls `CowStr::from(String)`; the new `CowStr` holds exactly the
/// characters of the given string.
#[verifier::external_body]
pub(crate) fn cowstr_from_string(s: String) -> (r: cowstr::CowStr)
    ensures
        cowstr_text(r) == s@,
{
    cowstr::CowStr::from(s)
}

/// Calls `CowStr::as_str`, which hands out the characters the `CowStr`
/// holds.
#[verifier::external_body]
pub(crate) fn cowstr_as_str(s: &cowstr::CowStr) -> (r: &str)
    ensures
        r@ == cowstr_text(*s),
{
    s.as_str()
}

/// Builds a `CowStr` holding the characters of `s`.
pub fn cowstr_from_str(s: &str) -> (r: cowstr::CowStr)
    ensures
        cowstr_text(r) == s@,
{
    cowstr_from_string(s.to_owned())
}

/// Whether two string slices hold the same characters.
pub fn str_equal(a: &str, b: &str) -> (r: bool)
    ensures
        r == (a@ == b@),
{
    let a_owned: String = a.to_owned();
    let b_owned: String = b.to_owned();
    a_owned == b_owned
}

/// `s` without one trailing `/`, if it ends with one.
pub open spec fn sanitized_uri(s: Seq<char>) -> Seq<char> {
    if s.len() > 0 && s.last() == '/' {
        s.drop_last()
    } else {
        s
    }
}

/// Strips a single trailing slash, so that `https://a.b/` and `https://a.b`
/// are visited once.
pub fn get_uri_sanitized(input: &str) -> (r: cowstr::CowStr)
    ensures
        cowstr_text(r) == sanitized_uri(input@),
{
    let n: usize = input.unicode_len();
    if n > 0 && input.get_char(n - 1) == '/' {
        let kept: &str = input.substring_char(0, n - 1);
        assert(kept@ =~= input@.drop_last());
        cowstr_from_str(kept)
    } else {
        cowstr_from_str(input)
    }
}

/// Sanitizing removes at most the last character of a url, and only when
/// that character is `/`: the result is a prefix of the input, at most one
/// character shorter, shorter exactly when the input ends with `/`, and the
/// input itself otherwise.
pub proof fn lemma_sanitize_strips_only_trailing_slash(s: Seq<char>)
    ensures
        sanitized_uri(s).len() <= s.len(),
        sanitized_uri(s).len() + 1 >= s.len(),
        sanitized_uri(s) == s.subrange(0, sanitized_uri(s).len() as int),
        (sanitized_uri(s).len() < s.len()) <==> (s.len() > 0 && s[s.len() - 1] == '/'),
        !(s.len() > 0 && s[s.len() - 1] == '/') ==> sanitized_uri(s) == s,
{
    assert(s =~= s.subrange(0, s.len() as int));
    if s.len() > 0 && s[s.len() - 1] == '/' {
        assert(s.drop_last() =~= s.subrange(0, s.len() - 1));
    }
}

/// A url and the same url with one slash appended sanitize to the same key,
/// unless the url already ends with a slash.
pub proof fn lemma_trailing_slash_same_key(s: Seq<char>)
    requires
        !(s.len() > 0 && s.last() == '/'),
    ensures
        sanitized_uri(s.push('/')) == sanitized_uri(s),
{
    assert(s.push('/').drop_last() =~= s);
}

/// The line written to the log: the message, ` - `, then the data.
pub open spec fn log_line(message: Seq<char>, data: Seq<char>) -> Seq<char> {
    message + " - "@ + data
}

/// The log line is the message, a space, a dash, a space, then the data,
/// with nothing left out or added.
pub proof fn lemma_log_line_layout(message: Seq<char>, data: Seq<char>)
    ensures
        log_line(message, data).len() == message.len() + 3 + data.len(),
        log_line(message, data).subrange(0, message.len() as int) == message,
        log_line(message, data)[message.len() as int] == ' ',
        log_line(message, data)[message.len() as int + 1] == '-',
        log_line(message, data)[message.len() as int + 2] == ' ',
        log_line(message, data).subrange(message.len() as int + 3, log_line(message, data).len() as int)
            == data,
{
    reveal_strlit(" - ");
    let l = log_line(message, data);
    assert(l.subrange(0, message.len() as int) =~= message);
    assert(l.subrange(message.len() as int + 3, l.len() as int) =~= data);
}

/// The log line for `message` and `data`, produced only when logging at the
/// info level is enabled; the caller emits it.
pub fn log(message: &str, data: &str, info_enabled: bool) -> (line: Option<String>)
    ensures
        info_enabled ==> (line matches Some(l) && l@ == log_line(message@, data@)),
        !info_enabled ==> line is None,
{
    if info_enabled {
        let line: String = message.to_owned().concat(" - ").concat(data);
        Some(line)
    } else {
        None
    }
}

} // verus!
