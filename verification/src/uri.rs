//! Where the media comes from: the URI given on the command line, resolved
//! against the working or home directory and made canonical, and the
//! description of the pipeline that plays it.
use crate::text::{after_prefix, strip_prefix};
use vstd::prelude::*;

verus! {

#[verifier::external_type_specification]
#[verifier::external_body]
pub struct ExUrlParseError(url::ParseError);

/// The serialization of the URL that `url::Url::parse` reads from `input`,
/// or `None` where it refuses `input`.
pub uninterp spec fn url_parse_serialized(input: Seq<char>) -> Option<Seq<char>>;

/// `url::Url::parse`, the parsed URL handed back in its serialized form (the
/// `Url` into a `String`). It succeeds exactly where the parser accepts
/// `input`, and then gives the serialization that is named above.
#[verifier::external_body]
fn parse_url(input: &str) -> (res: Result<String, url::ParseError>)
    ensures
        res is Ok == url_parse_serialized(input@) is Some,
        res matches Ok(s) ==> url_parse_serialized(input@) == Some(s@),
{
    match url::Url::parse(input) {
        Ok(u) => Ok(String::from(u)),
        Err(e) => Err(e),
    }
}

/// Why a media location cannot be played.
#[derive(Debug, PartialEq, Eq, Structural, Clone, Copy)]
pub enum UriError {
    /// The location is not an absolute URL.
    NotAUrl,
}

/// The directory that a media location is relative to.
#[derive(Debug, PartialEq, Eq, Structural, Clone, Copy)]
pub enum UriAnchor {
    /// It begins with `./`: relative to the working directory.
    WorkingDir,
    /// It begins with `~`: relative to the home directory.
    HomeDir,
    /// Any other location is taken as it stands (`http:`, `udp:`, ...).
    AsGiven,
}

pub open spec fn dot_slash() -> Seq<char> {
    seq!['.', '/']
}

pub open spec fn tilde() -> Seq<char> {
    seq!['~']
}

pub open spec fn file_scheme() -> Seq<char> {
    seq!['f', 'i', 'l', 'e', ':', '/', '/']
}

/// The directory that `uri` is relative to; `./` is looked for first.
pub open spec fn anchor_of(uri: Seq<char>) -> UriAnchor {
    if after_prefix(uri, dot_slash()) is Some {
        UriAnchor::WorkingDir
    } else if after_prefix(uri, tilde()) is Some {
        UriAnchor::HomeDir
    } else {
        UriAnchor::AsGiven
    }
}

/// `uri` with a leading `./` or `~` replaced by a `file://` URL into `dir`,
/// the directory it is relative to: `file://{dir}/{rest}`. Any other
/// location is unchanged and `dir` is not used.
pub open spec fn expanded_uri(uri: Seq<char>, dir: Seq<char>) -> Seq<char> {
    match anchor_of(uri) {
        UriAnchor::WorkingDir => file_scheme() + dir + seq!['/'] + after_prefix(
            uri,
            dot_slash(),
        )->0,
        UriAnchor::HomeDir => file_scheme() + dir + seq!['/'] + after_prefix(uri, tilde())->0,
        UriAnchor::AsGiven => uri,
    }
}


/// Whether `uri` begins with `./`.
pub open spec fn begins_dot_slash(uri: Seq<char>) -> bool {
    uri.len() >= 2 && uri[0] == '.' && uri[1] == '/'
}

/// Whether `uri` begins with `~`.
pub open spec fn begins_tilde(uri: Seq<char>) -> bool {
    uri.len() >= 1 && uri[0] == '~'
}

/// How a location is resolved, character by character: one that begins
/// with `./` becomes `file://`, the directory, `/` and the rest after the
/// `./`; else one that begins with `~` becomes `file://`, the directory,
/// `/` and the rest after the `~`; any other is kept exactly as it is,
/// letter case and all, and the directory is not used.
pub proof fn law_expansion(uri: Seq<char>, dir: Seq<char>)
    ensures
        begins_dot_slash(uri) ==> expanded_uri(uri, dir) == seq!['f', 'i', 'l', 'e', ':', '/', '/']
            + dir + seq!['/'] + uri.subrange(2, uri.len() as int),
        !begins_dot_slash(uri) && begins_tilde(uri) ==> expanded_uri(uri, dir) == seq![
            'f',
            'i',
            'l',
            'e',
            ':',
            '/',
            '/',
        ] + dir + seq!['/'] + uri.subrange(1, uri.len() as int),
        !begins_dot_slash(uri) && !begins_tilde(uri) ==> expanded_uri(uri, dir) == uri,
{
    if uri.len() >= 2 {
        if begins_dot_slash(uri) {
            assert(uri.subrange(0, 2) =~= dot_slash());
        } else {
            assert(uri.subrange(0, 2) != dot_slash()) by {
                if uri.subrange(0, 2) == dot_slash() {
                    assert(uri.subrange(0, 2)[0] == uri[0]);
                    assert(uri.subrange(0, 2)[1] == uri[1]);
                }
            }
        }
    }
    if uri.len() >= 1 {
        if begins_tilde(uri) {
            assert(uri.subrange(0, 1) =~= tilde());
        } else {
            assert(uri.subrange(0, 1) != tilde()) by {
                if uri.subrange(0, 1) == tilde() {
                    assert(uri.subrange(0, 1)[0] == uri[0]);
                }
            }
        }
    }
}

/// Which directory, if any, `uri` is relative to.
pub fn uri_anchor(uri: &str) -> (a: UriAnchor)
    ensures
        a == anchor_of(uri@),
{
    proof {
        reveal_strlit("./");
        reveal_strlit("~");
        assert("./"@ =~= dot_slash());
        assert("~"@ =~= tilde());
    }
    if strip_prefix(uri, "./").is_some() {
        UriAnchor::WorkingDir
    } else if strip_prefix(uri, "~").is_some() {
        UriAnchor::HomeDir
    } else {
        UriAnchor::AsGiven
    }
}

/// Resolves `uri` against `dir`, the directory that `uri_anchor` names for
/// it (ignored where it names none).
pub fn expand_uri(uri: &str, dir: &str) -> (full: String)
    ensures
        full@ == expanded_uri(uri@, dir@),
        !begins_dot_slash(uri@) && !begins_tilde(uri@) ==> full@ == uri@,
{
    proof {
        law_expansion(uri@, dir@);
    }
    proof {
        reveal_strlit("./");
        reveal_strlit("~");
        reveal_strlit("file://");
        reveal_strlit("/");
        assert("./"@ =~= dot_slash());
        assert("~"@ =~= tilde());
        assert("file://"@ =~= file_scheme());
    }
    let rest = match strip_prefix(uri, "./") {
        Some(r) => Some(r),
        None => strip_prefix(uri, "~"),
    };
    match rest {
        Some(name) => {
            let mut full = String::from_str("file://");
            full.append(dir);
            full.append("/");
            full.append(name);
            full
        },
        None => String::from_str(uri),
    }
}

/// The location to play for the command line's `uri`: resolved against
/// `dir` as `expand_uri` does, then read as a URL and written back in the
/// URL's canonical form. Refused where the resolved text is not a URL.
pub fn playback_uri(uri: &str, dir: &str) -> (res: Result<String, UriError>)
    ensures
        res is Ok == url_parse_serialized(expanded_uri(uri@, dir@)) is Some,
        res matches Ok(s) ==> url_parse_serialized(expanded_uri(uri@, dir@)) == Some(s@),
        !begins_dot_slash(uri@) && !begins_tilde(uri@) ==> (res is Ok == url_parse_serialized(
            uri@,
        ) is Some && (res matches Ok(s) ==> url_parse_serialized(uri@) == Some(s@))),
{
    proof {
        law_expansion(uri@, dir@);
    }
    let full = expand_uri(uri, dir);
    match parse_url(full.as_str()) {
        Ok(s) => Ok(s),
        Err(_) => Err(UriError::NotAUrl),
    }
}

pub open spec fn lines_before_uri() -> Seq<char> {
    "\nuridecodebin uri="@
}

pub open spec fn lines_after_uri() -> Seq<char> {
    " name=de\n    de. ! queue ! audioconvert ! audioresample ! autoaudiosink name=aud\n    de. ! queue ! videoconvert ! appsink name=vid\n"@
}

/// The description of the pipeline that plays `uri`: a decoder named `de`
/// whose audio goes to the sound output `aud` and whose video is converted
/// for the application sink `vid`.
pub fn pipeline_description(uri: &str) -> (d: String)
    ensures
        d@ == lines_before_uri() + uri@ + lines_after_uri(),
{
    let mut d = String::from_str("\nuridecodebin uri=");
    d.append(uri);
    d.append(
        " name=de\n    de. ! queue ! audioconvert ! audioresample ! autoaudiosink name=aud\n    de. ! queue ! videoconvert ! appsink name=vid\n",
    );
    d
}

} // verus!
