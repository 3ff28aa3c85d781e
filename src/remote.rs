//! The remote repository: where manifest and scripts live, how a transfer's
//! outcome becomes a fetch result, and the context added to unexpected errors.

use vstd::prelude::*;
use vstd::utf8::{decode_utf8, valid_utf8};
use crate::text::{slug, slug_of};

verus! {

/// The project's repository, named in messages about unexpected errors.
pub const REPO: &'static str = "https://github.com/LyonSyonII/steam-deck-tools";

/// The base location that every remote resource is fetched from.
pub const REPO_RAW: &'static str = "https://raw.githubusercontent.com/LyonSyonII/steam-deck-tools/main";

/// The resource that holds the tool manifest.
pub const MANIFEST_PATH: &'static str = "tools.yaml";

/// The shared preamble that a tool which needs root privileges runs first.
pub const PREAMBLE_PATH: &'static str = "install_scripts/needs_root.sh";

/// The full address of the resource `file`: the base location, a slash, the path.
pub open spec fn url_of(file: Seq<char>) -> Seq<char> {
    REPO_RAW@ + "/"@ + file
}

/// The path of the install script of the tool titled `title`.
pub open spec fn script_path_of(title: Seq<char>) -> Seq<char> {
    "install_scripts/"@ + slug_of(title) + ".sh"@
}

/// The address that the resource `file` is fetched from.
pub fn resource_url(file: &str) -> (r: String)
    ensures
        r@ == url_of(file@),
{
    String::from_str(REPO_RAW).concat("/").concat(file)
}

/// The path of the install script of the tool titled `title`:
/// `install_scripts/<slug>.sh`.
pub fn script_path(title: &str) -> (r: String)
    ensures
        r@ == script_path_of(title@),
{
    let s = slug(title);
    String::from_str("install_scripts/").concat(s.as_str()).concat(".sh")
}

/// Why a remote resource could not be had.
#[derive(Clone, Copy, Debug, PartialEq, Eq, Structural)]
pub enum FetchError {
    /// The transfer did not complete.
    Network,
    /// The body is not valid UTF-8 text.
    Decode,
    /// The resource does not exist.
    NotFound,
}

/// The program that performs transfers.
pub const TRANSFER_TOOL: &'static str = "curl";

/// The arguments that make the transfer tool fetch `url`, following
/// redirects and giving up after a minute, and write the body followed by
/// the three-digit HTTP status code.
pub fn transfer_args(url: &str) -> (r: Vec<String>)
    ensures
        r@.len() == 8,
        r@[0]@ == "-sS"@,
        r@[1]@ == "-L"@,
        r@[2]@ == "--max-time"@,
        r@[3]@ == "60"@,
        r@[4]@ == "-w"@,
        r@[5]@ == "%{http_code}"@,
        r@[6]@ == "--"@,
        r@[7]@ == url@,
{
    let mut args: Vec<String> = Vec::new();
    args.push(String::from_str("-sS"));
    args.push(String::from_str("-L"));
    args.push(String::from_str("--max-time"));
    args.push(String::from_str("60"));
    args.push(String::from_str("-w"));
    args.push(String::from_str("%{http_code}"));
    args.push(String::from_str("--"));
    args.push(String::from_str(url));
    args
}

/// What one completed transfer reported: the HTTP status and the body.
pub struct Transfer {
    pub status: u16,
    pub body: Vec<u8>,
}

/// True when `b` is an ASCII decimal digit.
pub open spec fn is_digit(b: u8) -> bool {
    48 <= b && b <= 57
}

/// True when `out` ends with the three-digit status code that the transfer
/// tool writes after the body.
pub open spec fn has_status_trailer(out: Seq<u8>) -> bool {
    &&& out.len() >= 3
    &&& is_digit(out[out.len() - 3])
    &&& is_digit(out[out.len() - 2])
    &&& is_digit(out[out.len() - 1])
}

/// The status code written in the last three bytes of `out`.
pub open spec fn trailer_status(out: Seq<u8>) -> int {
    100 * (out[out.len() - 3] - 48) + 10 * (out[out.len() - 2] - 48) + (out[out.len() - 1] - 48)
}

/// Splits the output of a transfer, the body followed by the three-digit
/// status code, into its parts; `None` when the output does not end with
/// such a code.
pub fn split_status_trailer(output: Vec<u8>) -> (r: Option<Transfer>)
    ensures
        r is Some <==> has_status_trailer(output@),
        r matches Some(t) ==> t.status == trailer_status(output@) && t.body@ == output@.take(
            output@.len() - 3,
        ),
{
    let n = output.len();
    if n < 3 {
        return None;
    }
    let (a, b, c) = (output[n - 3], output[n - 2], output[n - 1]);
    if !(48 <= a && a <= 57 && 48 <= b && b <= 57 && 48 <= c && c <= 57) {
        return None;
    }
    let status: u16 = 100 * ((a - 48) as u16) + 10 * ((b - 48) as u16) + ((c - 48) as u16);
    let mut body = output;
    body.truncate(n - 3);
    Some(Transfer { status, body })
}

/// The result of a fetch, given what the transfer reported (`None` when it
/// did not complete): a missing resource (404) is `NotFound`; any other
/// status outside 200..=299 leaves no usable body and is `Network`; a body
/// that is not UTF-8 is `Decode`; otherwise the decoded text.
pub open spec fn response_of(transfer: Option<Transfer>) -> Result<Seq<char>, FetchError> {
    match transfer {
        None => Err(FetchError::Network),
        Some(t) => if t.status == 404 {
            Err(FetchError::NotFound)
        } else if !(200 <= t.status && t.status <= 299) {
            Err(FetchError::Network)
        } else if !valid_utf8(t.body@) {
            Err(FetchError::Decode)
        } else {
            Ok(decode_utf8(t.body@))
        },
    }
}

/// Relies on String::from_utf8: it accepts exactly the valid UTF-8 byte
/// strings, and the text is what they encode.
#[verifier::external_body]
fn utf8_text(bytes: Vec<u8>) -> (r: Option<String>)
    ensures
        r is Some <==> valid_utf8(bytes@),
        r matches Some(s) ==> s@ == decode_utf8(bytes@),
{
    String::from_utf8(bytes).ok()
}

/// Turns what a transfer reported into the fetched text or a `FetchError`.
pub fn read_response(transfer: Option<Transfer>) -> (r: Result<String, FetchError>)
    ensures
        match r {
            Ok(s) => response_of(transfer) == Ok::<Seq<char>, FetchError>(s@),
            Err(e) => response_of(transfer) == Err::<Seq<char>, FetchError>(e),
        },
{
    match transfer {
        None => Err(FetchError::Network),
        Some(t) => {
            if t.status == 404 {
                Err(FetchError::NotFound)
            } else if !(200 <= t.status && t.status <= 299) {
                Err(FetchError::Network)
            } else {
                match utf8_text(t.body) {
                    Some(s) => Ok(s),
                    None => Err(FetchError::Decode),
                }
            }
        },
    }
}

/// The context added to an unexpected error: what failed, and where to
/// report it.
pub open spec fn repo_message_of(msg: Seq<char>) -> Seq<char> {
    "Unexpected error: "@ + msg + ". Please open an issue on "@ + REPO@
}

/// The message `Unexpected error: <msg>. Please open an issue on <REPO>`.
pub fn repo_message(msg: &str) -> (r: String)
    ensures
        r@ == repo_message_of(msg@),
{
    String::from_str("Unexpected error: ").concat(msg).concat(". Please open an issue on ").concat(
        REPO,
    )
}

/// An error together with the context that says what failed.
#[derive(Debug)]
pub struct RepoError<E> {
    pub message: String,
    pub source: E,
}

/// Adds to the error of a result the context of `repo_message`.
pub trait ExpectRepo<T, E>: Sized {
    /// The result that `self` stands for.
    spec fn outcome(&self) -> Result<T, E>;

    fn repo_context(self, msg: &str) -> (r: Result<T, RepoError<E>>)
        ensures
            match self.outcome() {
                Ok(v) => r matches Ok(w) && w == v,
                Err(e) => r matches Err(re) && re.source == e && re.message@ == repo_message_of(
                    msg@,
                ),
            },
    ;
}

impl<T, E> ExpectRepo<T, E> for Result<T, E> {
    open spec fn outcome(&self) -> Result<T, E> {
        *self
    }

    fn repo_context(self, msg: &str) -> (r: Result<T, RepoError<E>>) {
        match self {
            Ok(v) => Ok(v),
            Err(e) => Err(RepoError { message: repo_message(msg), source: e }),
        }
    }
}

} // verus!
