//! Base URLs and the paths of the files fetched below them.

use vstd::prelude::*;
use vstd::string::StringExecFns;
use crate::error::{Error, ErrorView};

verus! {

/// The error of the URL parser.
#[verifier::external_type_specification]
#[verifier::external_body]
pub struct ExParseError(url::ParseError);

/// What `url::Url::parse` makes of `input`: the text of the URL that it
/// yields (`Url::as_str`), or `None` where it rejects the input.
pub uninterp spec fn parsed_url(input: Seq<char>) -> Option<Seq<char>>;

/// What resolving `input` against the base URL `base` gives: the text of the
/// URL that `url::Url::join` yields on the URL parsed from `base`, or `None`
/// where `base` is rejected or `input` cannot be resolved against it.
pub uninterp spec fn joined_url(base: Seq<char>, input: Seq<char>) -> Option<Seq<char>>;

/// Parses an absolute URL with `url::Url::parse` and gives its text. What the
/// parser accepts, and the text that it yields, depend on the input alone.
#[verifier::external_body]
fn url_parse(input: &str) -> (parsed: Result<String, url::ParseError>)
    ensures
        match parsed {
            Ok(text) => parsed_url(input@) == Some(text@),
            Err(_) => parsed_url(input@) is None,
        },
{
    match url::Url::parse(input) {
        Ok(parsed) => Ok(String::from(parsed)),
        Err(error) => Err(error),
    }
}

/// Resolves `input` against `base` with `url::Url::join`, after parsing
/// `base` with `url::Url::parse`, and gives the text of the result. It
/// depends on the two texts alone.
#[verifier::external_body]
fn url_join(base: &str, input: &str) -> (joined: Result<String, url::ParseError>)
    ensures
        match joined {
            Ok(text) => joined_url(base@, input@) == Some(text@),
            Err(_) => joined_url(base@, input@) is None,
        },
{
    match url::Url::parse(base) {
        Ok(parsed) => match parsed.join(input) {
            Ok(joined) => Ok(String::from(joined)),
            Err(error) => Err(error),
        },
        Err(error) => Err(error),
    }
}

/// Whether `url` ends with a slash.
pub open spec fn ends_with_slash(url: Seq<char>) -> bool {
    url.len() > 0 && url.last() == '/'
}

/// `url` with a slash added at its end, unless it ends with one.
pub open spec fn normalized(url: Seq<char>) -> Seq<char> {
    if ends_with_slash(url) {
        url
    } else {
        url.push('/')
    }
}

/// What [`parse_url`] makes of `url`: the text of the parsed URL, or the
/// error that names the normalized text which was rejected.
pub open spec fn parse_url_outcome(url: Seq<char>) -> Result<Seq<char>, ErrorView> {
    match parsed_url(normalized(url)) {
        Some(text) => Ok(text),
        None => Err(ErrorView::ParseUrl { url: normalized(url) }),
    }
}

/// What [`join_url`] makes of `base` and `path`.
pub open spec fn join_url_outcome(base: Seq<char>, path: Seq<char>) -> Result<
    Seq<char>,
    ErrorView,
> {
    match joined_url(base, path) {
        Some(text) => Ok(text),
        None => Err(ErrorView::JoinUrl { path, url: base }),
    }
}

/// Whether `result` has the text or the error that `outcome` names.
pub open spec fn is_text_outcome(
    result: Result<String, Error>,
    outcome: Result<Seq<char>, ErrorView>,
) -> bool {
    match result {
        Ok(text) => outcome == Ok::<Seq<char>, ErrorView>(text@),
        Err(error) => outcome == Err::<Seq<char>, ErrorView>(error@),
    }
}

/// Adds a slash to the end of `url` unless it ends with one, so that paths
/// joined to it are appended to it and do not replace its last segment.
pub fn normalize(url: &str) -> (normal: String)
    ensures
        normal@ == normalized(url@),
{
    let length = url.unicode_len();
    let mut normal = url.to_owned();
    if length == 0 || url.get_char(length - 1) != '/' {
        proof {
            reveal_strlit("/");
            assert("/"@ =~= seq!['/']);
            assert(url@ + seq!['/'] =~= url@.push('/'));
        }
        normal.append("/");
    }
    normal
}

/// Turns what the URL parser said of the normalized base URL `url` into the
/// library's own result: the parsed text, or `ParseUrl` with the text that
/// was rejected.
pub fn parsed_base(url: String, parsed: Result<String, url::ParseError>) -> (base: Result<
    String,
    Error,
>)
    ensures
        match parsed {
            Ok(text) => base == Ok::<String, Error>(text),
            Err(_) => base == Err::<String, Error>(Error::ParseUrl { url }),
        },
{
    match parsed {
        Ok(text) => Ok(text),
        Err(_) => Err(Error::ParseUrl { url }),
    }
}

/// Parses a base URL, after adding the slash that it may lack at its end.
pub fn parse_url(url: &str) -> (base: Result<String, Error>)
    ensures
        is_text_outcome(base, parse_url_outcome(url@)),
{
    let normal = normalize(url);
    let parsed = url_parse(normal.as_str());
    parsed_base(normal, parsed)
}

/// Turns what the URL parser said of resolving `path` against `base` into the
/// library's own result: the text of the URL, or `JoinUrl` with both.
pub fn joined_path(base: &str, path: String, joined: Result<String, url::ParseError>) -> (url:
    Result<String, Error>)
    ensures
        match joined {
            Ok(text) => url == Ok::<String, Error>(text),
            Err(_) => url matches Err(Error::JoinUrl { path: p, url: u }) && p == path && u@
                == base@,
        },
{
    match joined {
        Ok(text) => Ok(text),
        Err(_) => Err(Error::JoinUrl { path, url: base.to_owned() }),
    }
}

/// Resolves `path` against the base URL `base`.
pub fn join_url(base: &str, path: String) -> (url: Result<String, Error>)
    ensures
        is_text_outcome(url, join_url_outcome(base@, path@)),
{
    let joined = url_join(base, path.as_str());
    joined_path(base, path, joined)
}

/// The character that stands for the decimal digit `digit`.
pub open spec fn digit_char(digit: int) -> char {
    seq!['0', '1', '2', '3', '4', '5', '6', '7', '8', '9'][digit]
}

/// `n` written in decimal, without sign or leading zeros.
pub open spec fn decimal(n: nat) -> Seq<char>
    decreases n,
{
    if n < 10 {
        seq![digit_char(n as int)]
    } else {
        decimal(n / 10).push(digit_char((n % 10) as int))
    }
}

/// The name under which version `version` of the metadata file `file` is
/// served: the version in decimal, a dot, and `file`.
pub open spec fn versioned(version: nat, file: Seq<char>) -> Seq<char> {
    decimal(version) + seq!['.'] + file
}

/// The path of the metadata file `file` in the version `version`: its
/// versioned name in a repository with consistent snapshots, else `file`.
pub open spec fn metadata_path(consistent_snapshot: bool, version: nat, file: Seq<char>) -> Seq<
    char,
> {
    if consistent_snapshot {
        versioned(version, file)
    } else {
        file
    }
}

fn digit_text(digit: u8) -> (text: &'static str)
    requires
        digit < 10,
    ensures
        text@ == seq![digit_char(digit as int)],
{
    proof {
        reveal_strlit("0");
        reveal_strlit("1");
        reveal_strlit("2");
        reveal_strlit("3");
        reveal_strlit("4");
        reveal_strlit("5");
        reveal_strlit("6");
        reveal_strlit("7");
        reveal_strlit("8");
        reveal_strlit("9");
    }
    let text = match digit {
        0 => "0",
        1 => "1",
        2 => "2",
        3 => "3",
        4 => "4",
        5 => "5",
        6 => "6",
        7 => "7",
        8 => "8",
        _ => "9",
    };
    assert(text@ =~= seq![digit_char(digit as int)]);
    text
}

fn append_decimal(text: &mut String, n: u128)
    ensures
        final(text)@ == old(text)@ + decimal(n as nat),
    decreases n,
{
    if n >= 10 {
        append_decimal(text, n / 10);
    }
    let digit = (n % 10) as u8;
    text.append(digit_text(digit));
    proof {
        if n >= 10 {
            assert(old(text)@ + decimal((n / 10) as nat) + seq![digit_char(digit as int)] =~= old(
                text,
            )@ + decimal(n as nat));
        }
    }
}

/// Writes the versioned name of `file` for `version`.
pub fn versioned_name(version: u128, file: &str) -> (name: String)
    ensures
        name@ == versioned(version as nat, file@),
{
    let mut name = String::new();
    append_decimal(&mut name, version);
    proof {
        reveal_strlit(".");
        assert("."@ =~= seq!['.']);
    }
    name.append(".");
    name.append(file);
    assert(name@ =~= versioned(version as nat, file@));
    name
}

/// Writes the path under which the metadata file `file` is fetched.
pub fn metadata_file(consistent_snapshot: bool, version: u64, file: &str) -> (path: String)
    ensures
        path@ == metadata_path(consistent_snapshot, version as nat, file@),
{
    if consistent_snapshot {
        versioned_name(version as u128, file)
    } else {
        file.to_owned()
    }
}

/// The character that stands for the hexadecimal digit `digit`, in lower case.
pub open spec fn hex_char(digit: int) -> char {
    seq!['0', '1', '2', '3', '4', '5', '6', '7', '8', '9', 'a', 'b', 'c', 'd', 'e', 'f'][digit]
}

/// `bytes` in hexadecimal: two lower-case digits for each byte, the high
/// half first.
pub open spec fn hexadecimal(bytes: Seq<u8>) -> Seq<char> {
    Seq::new(
        2 * bytes.len(),
        |i: int|
            if i % 2 == 0 {
                hex_char(bytes[i / 2] as int / 16)
            } else {
                hex_char(bytes[i / 2] as int % 16)
            },
    )
}

/// Writes bytes in hexadecimal with `hex::encode`, which gives two lower-case
/// digits for each byte, in order, the high half of a byte first.
#[verifier::external_body]
fn hex_encode(bytes: &[u8]) -> (text: String)
    ensures
        text@ == hexadecimal(bytes@),
{
    hex::encode(bytes)
}

/// The path of the target `name` with the digest `sha256`: the digest in
/// hexadecimal, a dot and the name in a repository with consistent snapshots,
/// else the name.
pub open spec fn target_path(consistent_snapshot: bool, sha256: Seq<u8>, name: Seq<char>) -> Seq<
    char,
> {
    if consistent_snapshot {
        hexadecimal(sha256) + seq!['.'] + name
    } else {
        name
    }
}

/// Writes the path under which the target `name` is fetched.
pub fn target_file(consistent_snapshot: bool, sha256: &[u8], name: &str) -> (path: String)
    ensures
        path@ == target_path(consistent_snapshot, sha256@, name@),
{
    if consistent_snapshot {
        let mut path = hex_encode(sha256);
        proof {
            reveal_strlit(".");
            assert("."@ =~= seq!['.']);
        }
        path.append(".");
        path.append(name);
        path
    } else {
        name.to_owned()
    }
}

/// Normalizing a URL twice is normalizing it once.
pub proof fn lemma_normalize_idempotent(url: Seq<char>)
    ensures
        normalized(normalized(url)) == normalized(url),
        ends_with_slash(normalized(url)),
{
}

/// A base URL given without its final slash is parsed as the same URL given
/// with it.
pub proof fn lemma_final_slash_optional(url: Seq<char>)
    requires
        !ends_with_slash(url),
    ensures
        normalized(url.push('/')) == normalized(url),
        parse_url_outcome(url.push('/')) == parse_url_outcome(url),
{
}

} // verus!
