//! What a document source is sent to authenticate, and how its answers
//! are read.

use crate::error::{AppError, AppErrorView};
use crate::text::{join2, join3};
use base64::engine::general_purpose::STANDARD;
use base64::Engine;
use vstd::prelude::*;
use vstd::utf8::encode_utf8;

verus! {

/// The standard base64 encoding of `bytes`, with padding.
pub uninterp spec fn base64_standard(bytes: Seq<u8>) -> Seq<char>;

/// Whether the base64 encoding of so many bytes can be held: four
/// characters for every three bytes begun.
pub open spec fn encodable_len(len: int) -> bool {
    len / 3 * 4 + 4 <= isize::MAX
}

/// `base64::Engine::encode` of the engine
/// `base64::engine::general_purpose::STANDARD`. Not proved: that the result
/// depends on the bytes alone, which is what naming it
/// [`base64_standard`] claims. The call panics where the encoded length
/// cannot be held; such inputs are left out.
#[verifier::external_body]
pub(crate) fn encode_standard(bytes: &[u8]) -> (out: String)
    requires
        encodable_len(bytes@.len() as int),
    ensures
        out@ == base64_standard(bytes@),
{
    STANDARD.encode(bytes)
}

/// The value of the `Authorization` header for basic authentication.
pub open spec fn basic_auth_header_spec(credentials: Seq<u8>) -> Seq<char> {
    "Basic "@ + base64_standard(credentials)
}

/// The header value for credentials that are already written as
/// `username:password` and encoded.
pub fn header_of_encoded(encoded: &str) -> (header: String)
    ensures
        header@ == "Basic "@ + encoded@,
{
    join2("Basic ", encoded)
}

/// The bytes of `username:password`.
pub open spec fn credential_bytes(username: Seq<char>, password: Seq<char>) -> Seq<u8> {
    encode_utf8(username + ":"@ + password)
}

/// The value of the `Authorization` header that presents `username` and
/// `password` for basic authentication.
pub fn basic_auth_header(username: &str, password: &str) -> (header: String)
    requires
        encodable_len(credential_bytes(username@, password@).len() as int),
    ensures
        header@ == basic_auth_header_spec(credential_bytes(username@, password@)),
{
    let credentials = join3(username, ":", password);
    let encoded = encode_standard(credentials.as_str().as_bytes());
    header_of_encoded(encoded.as_str())
}

/// A method by which authentication is tried.
#[derive(Debug, Clone, Copy, PartialEq, Eq, Structural)]
pub enum AuthMethod {
    Post,
    Get,
}

/// The name of a method.
pub open spec fn method_name(method: AuthMethod) -> Seq<char> {
    match method {
        AuthMethod::Post => "POST"@,
        AuthMethod::Get => "GET"@,
    }
}

/// The method to try after `tried` has failed: `GET` after `POST`, and
/// nothing after `GET`.
pub open spec fn next_method_spec(tried: AuthMethod) -> Option<AuthMethod> {
    match tried {
        AuthMethod::Post => Some(AuthMethod::Get),
        AuthMethod::Get => None,
    }
}

/// Authentication is tried by `POST` first.
pub fn first_method() -> (method: AuthMethod)
    ensures
        method == AuthMethod::Post,
{
    AuthMethod::Post
}

/// The method to try after `tried` has failed.
pub fn next_method(tried: AuthMethod) -> (next: Option<AuthMethod>)
    ensures
        next == next_method_spec(tried),
{
    match tried {
        AuthMethod::Post => Some(AuthMethod::Get),
        AuthMethod::Get => None,
    }
}

impl AuthMethod {
    /// The name of the method.
    pub fn name(&self) -> (name: &'static str)
        ensures
            name@ == method_name(*self),
    {
        match self {
            AuthMethod::Post => "POST",
            AuthMethod::Get => "GET",
        }
    }
}

/// The method that a name stands for: `POST` or `GET`; any other name is
/// refused as unsupported.
pub open spec fn parse_method_spec(name: Seq<char>) -> Result<AuthMethod, AppErrorView> {
    if name == "POST"@ {
        Ok(AuthMethod::Post)
    } else if name == "GET"@ {
        Ok(AuthMethod::Get)
    } else {
        Err(AppErrorView::InternalError("Unsupported HTTP method: "@ + name))
    }
}

/// The method that a name stands for.
pub fn parse_method(name: &str) -> (outcome: Result<AuthMethod, AppError>)
    ensures
        match outcome {
            Ok(method) => parse_method_spec(name@) == Ok::<AuthMethod, AppErrorView>(method),
            Err(error) => parse_method_spec(name@) == Err::<AuthMethod, AppErrorView>(error@),
        },
{
    let given = String::from_str(name);
    if given == String::from_str("POST") {
        Ok(AuthMethod::Post)
    } else if given == String::from_str("GET") {
        Ok(AuthMethod::Get)
    } else {
        Err(AppError::InternalError(join2("Unsupported HTTP method: ", name)))
    }
}

/// Whether a status reports success: 200 to 299.
pub open spec fn is_success_spec(status: u16) -> bool {
    200 <= status < 300
}

/// Whether a status reports success.
pub fn is_success(status: u16) -> (b: bool)
    ensures
        b == is_success_spec(status),
{
    200 <= status && status < 300
}

/// What is said of an authentication that the source refused.
///
/// `status_text` is the status as it is written out, `body` what the
/// source answered.
pub open spec fn auth_failure_message(
    method: Seq<char>,
    url: Seq<char>,
    status: u16,
    status_text: Seq<char>,
    body: Seq<char>,
) -> Seq<char> {
    if status == 401 {
        "Authentication failed ("@ + method + "): Invalid credentials for "@ + url
    } else if status == 403 {
        "Access forbidden ("@ + method + "): Insufficient permissions for "@ + url
    } else if status == 404 {
        "Endpoint not found ("@ + method
            + "): Authentication endpoint does not exist at "@ + url
    } else if 500 <= status <= 599 {
        "Server error ("@ + method + "): Remote server error (status: "@ + status_text
            + ") for "@ + url
    } else {
        "Authentication failed ("@ + method + "): HTTP "@ + status_text + " - "@ + body
            + " for "@ + url
    }
}

/// The failure of an authentication that the source refused.
pub fn auth_failure(method: &str, url: &str, status: u16, status_text: &str, body: &str) -> (error:
    AppError)
    ensures
        error@ == AppErrorView::AuthError(
            auth_failure_message(method@, url@, status, status_text@, body@),
        ),
{
    let mut message = String::new();
    if status == 401 {
        message.append("Authentication failed (");
        message.append(method);
        message.append("): Invalid credentials for ");
        message.append(url);
    } else if status == 403 {
        message.append("Access forbidden (");
        message.append(method);
        message.append("): Insufficient permissions for ");
        message.append(url);
    } else if status == 404 {
        message.append("Endpoint not found (");
        message.append(method);
        message.append("): Authentication endpoint does not exist at ");
        message.append(url);
    } else if 500 <= status && status <= 599 {
        message.append("Server error (");
        message.append(method);
        message.append("): Remote server error (status: ");
        message.append(status_text);
        message.append(") for ");
        message.append(url);
    } else {
        message.append("Authentication failed (");
        message.append(method);
        message.append("): HTTP ");
        message.append(status_text);
        message.append(" - ");
        message.append(body);
        message.append(" for ");
        message.append(url);
    }
    proof {
        assert(message@ =~= auth_failure_message(method@, url@, status, status_text@, body@));
    }
    AppError::AuthError(message)
}

/// The failure of an authentication request that could not be sent.
pub fn request_failure(method: &str, detail: &str, url: &str) -> (error: AppError)
    ensures
        error@ == AppErrorView::HttpError(
            method@ + " request failed: "@ + detail@ + " (URL: "@ + url@ + ")"@,
        ),
{
    let mut message = String::from_str(method);
    message.append(" request failed: ");
    message.append(detail);
    message.append(" (URL: ");
    message.append(url);
    message.append(")");
    AppError::HttpError(message)
}

/// The failure of a fetch that the source answered without success.
pub fn download_failure(status_text: &str) -> (error: AppError)
    ensures
        error@ == AppErrorView::InternalError("HTTP request failed with status: "@ + status_text@),
{
    AppError::InternalError(join2("HTTP request failed with status: ", status_text))
}

} // verus!
