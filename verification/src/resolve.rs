//! Credential resolution: which source supplies the bearer token, which
//! source supplies the password, and how a password file is decoded.

use vstd::prelude::*;
use vstd::string::StrSliceExecFns;
use vstd::string::StringExecFns;

use crate::errors::ApiError;
use crate::text::after_char;
use crate::text::before_char;
use crate::text::contains_char;
use crate::text::has_prefix;
use crate::text::lemma_split_at_first;
use crate::text::split_once;
use crate::text::trim;
use crate::text::trimmed;

verus! {

/// The configuration the program is started with; every field mirrors one
/// command-line option.
pub struct Args {
    pub username: Option<String>,
    pub password: Option<String>,
    pub claim_type: u8,
    pub api_server: String,
    pub password_file: Option<String>,
    pub token: Option<String>,
    pub token_file: Option<String>,
}

/// The username currently known, empty when none was supplied.
pub open spec fn username_of(args: &Args) -> Seq<char> {
    match args.username {
        Some(u) => u@,
        None => Seq::<char>::empty(),
    }
}

/// Claim types are small integers; anything outside `0..=5` falls back to this.
pub const DEFAULT_CLAIM_TYPE: u8 = 3;

/// The claim type actually used for a requested claim type: requests outside
/// `0..=5` are silently replaced by the default.
pub open spec fn clamped_claim_type(c: u8) -> u8 {
    if c <= 5 {
        c
    } else {
        DEFAULT_CLAIM_TYPE
    }
}

/// Replace an out-of-range claim type by the default; in-range values pass
/// through unchanged.
pub fn resolve_claim_type(c: u8) -> (r: u8)
    ensures
        r == clamped_claim_type(c),
        c > 5 ==> r == DEFAULT_CLAIM_TYPE,
{
    if c <= 5 {
        c
    } else {
        DEFAULT_CLAIM_TYPE
    }
}

/// Where the bearer token comes from. The first available source wins and no
/// later source is consulted.
pub enum TokenSource {
    /// A token was passed directly; no login is performed.
    Supplied(String),
    /// A token file was named; its trimmed contents are the token, and no
    /// login is performed.
    FromFile(String),
    /// No direct token: a username and password must be resolved and a login
    /// performed.
    ViaLogin,
}

/// Decide where the bearer token comes from: a directly supplied token wins
/// over a token file, which wins over logging in.
pub fn token_source(args: &Args) -> (r: TokenSource)
    ensures
        args.token matches Some(t) ==> (r matches TokenSource::Supplied(x) && x == t),
        args.token is None ==> (args.token_file matches Some(f) ==> (r
            matches TokenSource::FromFile(x) && x == f)),
        args.token is None && args.token_file is None ==> r matches TokenSource::ViaLogin,
{
    match &args.token {
        Some(t) => TokenSource::Supplied(t.clone()),
        None => match &args.token_file {
            Some(f) => TokenSource::FromFile(f.clone()),
            None => TokenSource::ViaLogin,
        },
    }
}

/// Whether the token presented to the claim call was supplied directly
/// (token or token file) rather than freshly obtained by logging in; a claim
/// failure is then reported with a hint that the supplied token may be stale.
pub fn uses_direct_token(args: &Args) -> (r: bool)
    ensures
        r == (args.token is Some || args.token_file is Some),
{
    match &args.token {
        Some(_) => true,
        None => match &args.token_file {
            Some(_) => true,
            None => false,
        },
    }
}

/// Where the password comes from when a login is needed. The first available
/// source wins and no later source is consulted.
pub enum PasswordSource {
    /// A password was passed directly.
    Supplied(String),
    /// A password file was named; it must be decoded first.
    FromFile(String),
    /// Neither was given, but a username is known: prompt for the password.
    Prompt,
    /// Neither was given and no username is known: resolution fails before
    /// any prompt.
    MissingUsername,
}

/// Decide where the password comes from: a direct password wins over a
/// password file, which wins over prompting; prompting needs a username.
pub fn password_source(args: &Args) -> (r: PasswordSource)
    ensures
        args.password matches Some(p) ==> (r matches PasswordSource::Supplied(x) && x == p),
        args.password is None ==> (args.password_file matches Some(f) ==> (r
            matches PasswordSource::FromFile(x) && x == f)),
        args.password is None && args.password_file is None && username_of(args).len() > 0 ==> r
            matches PasswordSource::Prompt,
        args.password is None && args.password_file is None && username_of(args).len() == 0 ==> r
            matches PasswordSource::MissingUsername,
{
    match &args.password {
        Some(p) => PasswordSource::Supplied(p.clone()),
        None => match &args.password_file {
            Some(f) => PasswordSource::FromFile(f.clone()),
            None => match &args.username {
                Some(u) => {
                    if u.as_str().is_empty() {
                        PasswordSource::MissingUsername
                    } else {
                        PasswordSource::Prompt
                    }
                },
                None => PasswordSource::MissingUsername,
            },
        },
    }
}

/// A username must be known before a login can be attempted.
pub fn username_check(username: &str) -> (r: Result<(), ApiError>)
    ensures
        r is Ok <==> username@.len() > 0,
        r matches Err(e) ==> (e matches ApiError::Input(m) && m@ == "username is empty"@),
{
    if username.is_empty() {
        Err(ApiError::Input(String::from_str("username is empty")))
    } else {
        Ok(())
    }
}

/// The token held in a token file: the file's contents with surrounding
/// whitespace removed.
pub fn token_from_file_content(content: &str) -> (r: String)
    ensures
        r@ == trimmed(content@),
{
    String::from_str(trim(content))
}

/// Whether base64::decode accepts this input (standard alphabet, padded).
pub uninterp spec fn base64_accepts(s: Seq<char>) -> bool;

/// What base64::decode decodes this input to, when it accepts it.
pub uninterp spec fn base64_decoded(s: Seq<char>) -> Seq<u8>;

/// Relies on base64::decode (standard alphabet, padded): whether the input is
/// accepted, and what it decodes to, depend on the input characters alone;
/// the error value is turned into its message.
#[verifier::external_body]
fn base64_decode(s: &str) -> (r: Result<Vec<u8>, String>)
    ensures
        r is Ok <==> base64_accepts(s@),
        r matches Ok(v) ==> v@ == base64_decoded(s@),
{
    match base64::decode(s) {
        Ok(v) => Ok(v),
        Err(e) => Err(format!("{}", e)),
    }
}

/// What String::from_utf8_lossy makes of these bytes.
pub uninterp spec fn lossy_utf8(bytes: Seq<u8>) -> Seq<char>;

/// Relies on String::from_utf8_lossy: the result depends on the bytes alone;
/// invalid sequences are replaced, never rejected.
#[verifier::external_body]
fn utf8_lossy(bytes: &Vec<u8>) -> (r: String)
    ensures
        r@ == lossy_utf8(bytes@),
{
    String::from_utf8_lossy(bytes).into_owned()
}

/// The username a password file settles on: the part before the first colon
/// of the trimmed content `t` when a colon occurs, else the username already
/// known.
pub open spec fn file_username(t: Seq<char>, current: Seq<char>) -> Seq<char> {
    if contains_char(t, ':') {
        before_char(t, ':')
    } else {
        current
    }
}

/// The Base64 payload of a password file: the part after the first colon of
/// the trimmed content `t` when a colon occurs, else all of it.
pub open spec fn file_payload(t: Seq<char>) -> Seq<char> {
    if contains_char(t, ':') {
        after_char(t, ':')
    } else {
        t
    }
}

/// Decode a password file. The content is trimmed; a `username:payload` form
/// replaces the username already known; the payload is Base64-decoded and the
/// bytes are read as UTF-8, lossily. Undecodable Base64 is an input error and
/// the only way this fails.
pub fn parse_password_file(content: &str, username: &str) -> (r: Result<
    (String, String),
    ApiError,
>)
    ensures
        r is Ok <==> base64_accepts(file_payload(trimmed(content@))),
        r matches Ok(cred) ==> {
            &&& cred.0@ == file_username(trimmed(content@), username@)
            &&& cred.1@ == lossy_utf8(base64_decoded(file_payload(trimmed(content@))))
        },
        r matches Err(e) ==> (e matches ApiError::Input(m) && has_prefix(
            m@,
            "decoding password: "@,
        )),
{
    let t = trim(content);
    proof {
        reveal_strlit(":");
    }
    let (uname, payload): (String, &str) = match split_once(t, ":") {
        Some(parts) => {
            proof {
                assert(contains_char(t@, ':')) by {
                    assert(t@[parts.0@.len() as int] == ':');
                }
                lemma_split_at_first(parts.0@, ':', parts.1@);
            }
            (String::from_str(parts.0), parts.1)
        },
        None => (String::from_str(username), t),
    };
    match base64_decode(payload) {
        Ok(bytes) => {
            let pw = utf8_lossy(&bytes);
            Ok((uname, pw))
        },
        Err(msg) => {
            let mut m = String::from_str("decoding password: ");
            m.append(msg.as_str());
            proof {
                assert(m@.take("decoding password: "@.len() as int) =~= "decoding password: "@);
            }
            Err(ApiError::Input(m))
        },
    }
}

} // verus!
