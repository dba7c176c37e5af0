//! The request gate and the responses of the submission endpoint.
use vstd::prelude::*;
use vstd::string::StrSliceExecFns;
use vstd::string::StringExecFns;
use crate::result::InferenceResult;

verus! {

/// The single path that accepts submissions.
pub const SUBMIT_PATH: &'static str = "/";

/// The only content type accepted for a submission.
pub const OCTET_STREAM: &'static str = "application/octet-stream";

pub const STATUS_OK: u16 = 200;

pub const STATUS_NOT_FOUND: u16 = 404;

pub const STATUS_METHOD_NOT_ALLOWED: u16 = 405;

pub const STATUS_UNSUPPORTED_MEDIA_TYPE: u16 = 415;

/// The body of a response.
#[derive(Debug, Clone)]
pub enum ResponseBody {
    Empty,
    /// A transcription record, sent as JSON.
    Transcription(InferenceResult),
    /// A plain-text diagnostic.
    Diagnostic(String),
}

/// A response: its status code and body.
#[derive(Debug, Clone)]
pub struct HttpResponse {
    pub status: u16,
    pub body: ResponseBody,
}

/// What to do with an incoming request.
#[derive(Debug, Clone)]
pub enum RequestAction {
    /// Read the body, submit it as a job and wait for the reply.
    Submit,
    /// Answer at once with this response; nothing is submitted.
    Respond(HttpResponse),
}

/// The character of a decimal digit.
pub open spec fn digit_char(d: nat) -> char {
    seq!['0', '1', '2', '3', '4', '5', '6', '7', '8', '9'][d as int]
}

/// The decimal representation of `n`, without leading zeros.
pub open spec fn decimal(n: nat) -> Seq<char>
    decreases n,
{
    if n < 10 {
        seq![digit_char(n)]
    } else {
        decimal(n / 10).push(digit_char(n % 10))
    }
}

/// The diagnostic sent when a submission gets no reply.
pub open spec fn diagnostic_text(payload_len: nat) -> Seq<char> {
    "inference: "@ + decimal(payload_len)
}

/// Whether the request is a POST on the submission path.
pub open spec fn is_submission(is_post: bool, path: Seq<char>) -> bool {
    is_post && path == SUBMIT_PATH@
}

/// Whether the declared content type is raw binary.
pub open spec fn is_octet_stream(content_type: Option<Seq<char>>) -> bool {
    content_type == Some(OCTET_STREAM@)
}

/// The view of an optional string.
pub open spec fn opt_view(o: Option<&str>) -> Option<Seq<char>> {
    match o {
        Some(s) => Some(s@),
        None => None,
    }
}

/// `r` is an immediate response with `status` and an empty body.
pub open spec fn is_empty_response(r: RequestAction, status: u16) -> bool {
    r matches RequestAction::Respond(resp) && resp.status == status && resp.body is Empty
}

/// Whether two strings hold the same characters.
fn same_text(a: &str, b: &str) -> (r: bool)
    ensures
        r == (a@ == b@),
{
    let n = a.unicode_len();
    if n != b.unicode_len() {
        return false;
    }
    let mut i: usize = 0;
    while i < n
        invariant
            n == a@.len(),
            n == b@.len(),
            i <= n,
            forall|k: int| 0 <= k < i ==> a@[k] == b@[k],
        decreases n - i,
    {
        if a.get_char(i) != b.get_char(i) {
            return false;
        }
        i = i + 1;
    }
    assert(a@ =~= b@);
    true
}

/// Decides what to do with a request from its method, path and declared
/// content type: any verb or path but a POST on the submission path gets
/// 405, a submission not declared as raw binary gets 415, both with an
/// empty body; a submission declared as raw binary is accepted.
pub fn route_request(is_post: bool, path: &str, content_type: Option<&str>) -> (r: RequestAction)
    ensures
        !is_submission(is_post, path@) ==> is_empty_response(r, STATUS_METHOD_NOT_ALLOWED),
        is_submission(is_post, path@) && !is_octet_stream(opt_view(content_type))
            ==> is_empty_response(r, STATUS_UNSUPPORTED_MEDIA_TYPE),
        is_submission(is_post, path@) && is_octet_stream(opt_view(content_type)) ==> r
            is Submit,
{
    if !(is_post && same_text(path, SUBMIT_PATH)) {
        return RequestAction::Respond(
            HttpResponse { status: STATUS_METHOD_NOT_ALLOWED, body: ResponseBody::Empty },
        );
    }
    match content_type {
        Some(c) => if same_text(c, OCTET_STREAM) {
            RequestAction::Submit
        } else {
            RequestAction::Respond(
                HttpResponse { status: STATUS_UNSUPPORTED_MEDIA_TYPE, body: ResponseBody::Empty },
            )
        },
        None => RequestAction::Respond(
            HttpResponse { status: STATUS_UNSUPPORTED_MEDIA_TYPE, body: ResponseBody::Empty },
        ),
    }
}

/// The one-character string of a decimal digit.
fn digit_str(d: usize) -> (r: &'static str)
    requires
        d < 10,
    ensures
        r@ == seq![digit_char(d as nat)],
{
    proof {
        reveal_strlit("0");
        reveal_strlit("1");
        reveal_strlit("2");
        reveal_strlit("3");
        reveal_strlit("4");
        reveal_strlit("5");
        reveal_strlit("6");
        reveal_strlit("7");
        reveal_strlit("8");
        reveal_strlit("9");
    }
    let r = match d {
        0 => "0",
        1 => "1",
        2 => "2",
        3 => "3",
        4 => "4",
        5 => "5",
        6 => "6",
        7 => "7",
        8 => "8",
        _ => "9",
    };
    assert(r@ =~= seq![digit_char(d as nat)]);
    r
}

/// Appends the decimal representation of `n` to `out`.
fn push_decimal(n: usize, out: &mut String)
    ensures
        final(out)@ == old(out)@ + decimal(n as nat),
    decreases n,
{
    if n >= 10 {
        push_decimal(n / 10, out);
    }
    out.append(digit_str(n % 10));
    assert(final(out)@ =~= old(out)@ + decimal(n as nat));
}

/// The response to an accepted submission of `payload_len` bytes: 200 with
/// the record when the reply arrived, otherwise 404 with the diagnostic
/// "inference: <payload_len>".
pub fn submission_response(payload_len: usize, reply: Option<InferenceResult>) -> (r: HttpResponse)
    ensures
        reply is Some ==> r.status == STATUS_OK && r.body == ResponseBody::Transcription(
            reply->Some_0,
        ),
        reply is None ==> r.status == STATUS_NOT_FOUND,
        reply is None ==> (r.body matches ResponseBody::Diagnostic(d) && d@ == diagnostic_text(
            payload_len as nat,
        )),
{
    match reply {
        Some(result) => HttpResponse { status: STATUS_OK, body: ResponseBody::Transcription(result) },
        None => {
            let mut text = String::from_str("inference: ");
            push_decimal(payload_len, &mut text);
            HttpResponse { status: STATUS_NOT_FOUND, body: ResponseBody::Diagnostic(text) }
        },
    }
}

} // verus!
