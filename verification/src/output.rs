//! The output contract: formats, the JSON envelopes, exit codes, and the
//! column helper of table mode.

use vstd::prelude::*;

use crate::api_error::{ApiError, opt_text};
use crate::text::{chars_of, lower_chars, lower_text, same_chars, owned, push_char, string_of};

verus! {

/// How results are printed.
#[derive(Clone, Copy, Debug, PartialEq, Eq, Structural)]
pub enum OutputFormat {
    Table,
    Json,
    Quiet,
}

impl OutputFormat {
    /// Reads the `output` value of the config file, ignoring ASCII case.
    pub fn from_config_str(s: &str) -> (r: Option<OutputFormat>)
        ensures
            lower_text(s@) == "table"@ ==> r == Some(OutputFormat::Table),
            lower_text(s@) == "json"@ ==> r == Some(OutputFormat::Json),
            lower_text(s@) == "quiet"@ ==> r == Some(OutputFormat::Quiet),
            lower_text(s@) != "table"@ && lower_text(s@) != "json"@ && lower_text(s@) != "quiet"@
                ==> r is None,
    {
        proof {
            reveal_strlit("table");
            reveal_strlit("json");
            reveal_strlit("quiet");
            assert("table"@[0] != "json"@[0] && "table"@[0] != "quiet"@[0] && "json"@[0] != "quiet"@[0]);
        }
        let lowered = lower_chars(&chars_of(s));
        if same_chars(&lowered, &chars_of("table")) {
            Some(OutputFormat::Table)
        } else if same_chars(&lowered, &chars_of("json")) {
            Some(OutputFormat::Json)
        } else if same_chars(&lowered, &chars_of("quiet")) {
            Some(OutputFormat::Quiet)
        } else {
            None
        }
    }
}

/// The format in force: the `--output` flag, else the config file's value,
/// else table.
pub open spec fn resolved_output(flag: Option<OutputFormat>, config_value: Seq<char>) -> OutputFormat {
    match flag {
        Some(f) => f,
        None => {
            let c = lower_text(config_value);
            if c == "table"@ {
                OutputFormat::Table
            } else if c == "json"@ {
                OutputFormat::Json
            } else if c == "quiet"@ {
                OutputFormat::Quiet
            } else {
                OutputFormat::Table
            }
        },
    }
}

/// Resolves the output format: flag, then config file, then table.
pub fn resolve_output(flag: Option<OutputFormat>, config_value: &str) -> (r: OutputFormat)
    ensures
        r == resolved_output(flag, config_value@),
{
    match flag {
        Some(f) => f,
        None => match OutputFormat::from_config_str(config_value) {
            Some(f) => f,
            None => OutputFormat::Table,
        },
    }
}

/// The `meta` part of the JSON envelope.
#[derive(Debug)]
pub struct Meta {
    pub environment: String,
    pub correlation_id: Option<String>,
}

/// The JSON envelope printed under `--output json`.
#[derive(Debug)]
pub struct Envelope<T> {
    pub object: &'static str,
    pub data: T,
    pub meta: Meta,
}

impl<T> Envelope<T> {
    pub fn new(object: &'static str, data: T, environment: &str, correlation_id: Option<String>) -> (r: Envelope<T>)
        ensures
            r.object == object,
            r.data == data,
            r.meta.environment@ == environment@,
            r.meta.correlation_id == correlation_id,
    {
        Envelope { object, data, meta: Meta { environment: owned(environment), correlation_id } }
    }
}

/// Semantic exit code of an HTTP status.
pub open spec fn exit_code_of_status(status: u16) -> i32 {
    if status == 401 || status == 403 {
        2
    } else if status == 400 || status == 422 {
        3
    } else if status == 404 {
        4
    } else {
        1
    }
}

/// Maps an HTTP status to its semantic exit code: auth 2, validation 3,
/// not found 4, anything else 1.
pub fn exit_code_for_api(status: u16) -> (r: i32)
    ensures
        r == exit_code_of_status(status),
        r == 2 <==> (status == 401 || status == 403),
        r == 3 <==> (status == 400 || status == 422),
        r == 4 <==> status == 404,
        r == 1 <==> !(status == 401 || status == 403 || status == 400 || status == 422 || status == 404),
{
    match status {
        401 | 403 => 2,
        400 | 422 => 3,
        404 => 4,
        _ => 1,
    }
}

/// A failed command as the exit path sees it: the API error found in the
/// error's chain, if any, the error's own message, and whether the command
/// was refused on the client side for bad input (a value the library's
/// checks refused, or a usage error of the command line).
#[derive(Debug)]
pub struct Failure {
    pub api_error: Option<ApiError>,
    pub message: String,
    pub invalid_input: bool,
}

/// The exit code of a failure: the API error's code when there is one;
/// else 3 for bad input and 1 for anything else.
pub open spec fn exit_code_of(f: Failure) -> i32 {
    match f.api_error {
        Some(ApiError::Api { status, .. }) => exit_code_of_status(status),
        Some(ApiError::Auth(_)) => 2,
        Some(ApiError::Decode(_)) => 1,
        Some(ApiError::Transport(_)) => 1,
        None => if f.invalid_input { 3 } else { 1 },
    }
}

/// The semantic exit codes, as the user reads them: 2 (re-authenticate) only
/// for an authentication failure, a 401 or a 403; 3 (fix the input) only
/// for a 400 or 422 from the API or input refused on the client side; 4
/// only for a 404; 1 for every other failure, the network and undecodable
/// replies included; never 0.
pub open spec fn exit_code_meaning(f: Failure, code: i32) -> bool {
    &&& (code == 2 <==> (f.api_error matches Some(ApiError::Auth(_))
        || (f.api_error matches Some(ApiError::Api { status, .. }) && (status == 401 || status == 403))))
    &&& (code == 3 <==> ((f.api_error matches Some(ApiError::Api { status, .. }) && (status == 400 || status == 422))
        || (f.api_error is None && f.invalid_input)))
    &&& (code == 4 <==> (f.api_error matches Some(ApiError::Api { status, .. }) && status == 404))
    &&& (f.api_error matches Some(ApiError::Transport(_)) ==> code == 1)
    &&& (f.api_error matches Some(ApiError::Decode(_)) ==> code == 1)
    &&& (f.api_error is None && !f.invalid_input ==> code == 1)
    &&& 1 <= code <= 4
}

/// Every failure gets the exit code its meaning calls for.
pub proof fn lemma_exit_code_meaning(f: Failure)
    ensures
        exit_code_meaning(f, exit_code_of(f)),
{
}

/// Derives the process exit code from a failure.
pub fn exit_code_for(err: &Failure) -> (r: i32)
    ensures
        r == exit_code_of(*err),
        exit_code_meaning(*err, r),
{
    proof {
        lemma_exit_code_meaning(*err);
    }
    match &err.api_error {
        Some(ApiError::Api { status, .. }) => exit_code_for_api(*status),
        Some(ApiError::Auth(_)) => 2,
        Some(ApiError::Decode(_)) | Some(ApiError::Transport(_)) => 1,
        None => if err.invalid_input { 3 } else { 1 },
    }
}

/// The error envelope printed on stdout under `--output json`. `kind` is
/// `api`, `transport`, `auth`, `decode` or `client`; status and correlation
/// id are present only for `api`.
#[derive(Debug)]
pub struct ErrorJson {
    pub kind: &'static str,
    pub message: String,
    pub status: Option<u16>,
    pub correlation_id: Option<String>,
}

/// The envelope of a failure: (kind, message, status, correlation id).
pub open spec fn error_json_of(f: Failure) -> (Seq<char>, Seq<char>, Option<u16>, Option<Seq<char>>) {
    match f.api_error {
        Some(ApiError::Api { status, correlation_id, message }) => ("api"@, message@, Some(status), opt_text(correlation_id)),
        Some(ApiError::Transport(m)) => ("transport"@, m@, None, None),
        Some(ApiError::Auth(m)) => ("auth"@, m@, None, None),
        Some(ApiError::Decode(m)) => ("decode"@, m@, None, None),
        None => ("client"@, f.message@, None, None),
    }
}

/// What an error envelope says, read off the failure: the kind names the
/// failure's own class (`api` with the response's status and correlation id
/// and the API's message, `transport`, `auth`, `decode`, else `client` with
/// the failure's message), and only an API error carries a status.
pub open spec fn envelope_meaning(f: Failure, kind: Seq<char>, message: Seq<char>, status: Option<u16>) -> bool {
    &&& (kind == "api"@ <==> f.api_error is Some && f.api_error->0 is Api)
    &&& (kind == "transport"@ <==> f.api_error is Some && f.api_error->0 is Transport)
    &&& (kind == "auth"@ <==> f.api_error is Some && f.api_error->0 is Auth)
    &&& (kind == "decode"@ <==> f.api_error is Some && f.api_error->0 is Decode)
    &&& (kind == "client"@ <==> f.api_error is None)
    &&& (f.api_error matches Some(ApiError::Api { status: s, message: m, .. }) ==> status == Some(s) && message == m@)
    &&& (!(f.api_error matches Some(ApiError::Api { .. })) ==> status is None)
    &&& (f.api_error is None ==> message == f.message@)
}

/// Every failure's envelope says what happened, in the terms above.
pub proof fn lemma_envelope_meaning(f: Failure)
    ensures
        envelope_meaning(f, error_json_of(f).0, error_json_of(f).1, error_json_of(f).2),
{
    reveal_strlit("api");
    reveal_strlit("transport");
    reveal_strlit("auth");
    reveal_strlit("decode");
    reveal_strlit("client");
    assert("api"@.len() == 3);
    assert("transport"@.len() == 9);
    assert("auth"@.len() == 4);
    assert("decode"@.len() == 6);
    assert("client"@.len() == 6);
    assert("decode"@[0] != "client"@[0]);
}

impl ErrorJson {
    /// Builds the envelope from the API error in the chain, falling back to
    /// kind `client` with the error's message.
    pub fn from_anyhow(err: &Failure) -> (r: ErrorJson)
        ensures
            (r.kind@, r.message@, r.status, opt_text(r.correlation_id)) == error_json_of(*err),
            envelope_meaning(*err, r.kind@, r.message@, r.status),
    {
        proof {
            lemma_envelope_meaning(*err);
        }
        match &err.api_error {
            Some(ApiError::Api { status, correlation_id, message }) => ErrorJson {
                kind: "api",
                message: owned(message.as_str()),
                status: Some(*status),
                correlation_id: match correlation_id {
                    Some(c) => Some(owned(c.as_str())),
                    None => None,
                },
            },
            Some(ApiError::Transport(m)) => ErrorJson { kind: "transport", message: owned(m.as_str()), status: None, correlation_id: None },
            Some(ApiError::Auth(m)) => ErrorJson { kind: "auth", message: owned(m.as_str()), status: None, correlation_id: None },
            Some(ApiError::Decode(m)) => ErrorJson { kind: "decode", message: owned(m.as_str()), status: None, correlation_id: None },
            None => ErrorJson { kind: "client", message: owned(err.message.as_str()), status: None, correlation_id: None },
        }
    }
}

/// `n` spaces.
pub open spec fn spaces(n: int) -> Seq<char> {
    Seq::new(if n > 0 { n as nat } else { 0 }, |i: int| ' ')
}

/// A text fitted to a column: padded with spaces, or cut with an ellipsis.
pub open spec fn fitted(s: Seq<char>, width: nat) -> Seq<char> {
    if s.len() <= width {
        s + spaces(width - s.len())
    } else if width >= 1 {
        s.take(width - 1) + seq!['\u{2026}']
    } else {
        Seq::empty()
    }
}

/// Pads or truncates a text to a column width (table mode).
pub fn fit(s: &str, width: usize) -> (r: String)
    ensures
        r@ == fitted(s@, width as nat),
{
    let cs = chars_of(s);
    let n = cs.len();
    if n <= width {
        let mut out = owned(s);
        let mut k = n;
        while k < width
            invariant
                n <= k <= width,
                n == s@.len(),
                out@ == s@ + spaces(k - n),
            decreases width - k,
        {
            push_char(&mut out, ' ');
            assert(spaces(k + 1 - n) =~= spaces(k - n).push(' '));
            k = k + 1;
        }
        out
    } else if width >= 1 {
        let mut kept: Vec<char> = Vec::new();
        let mut i: usize = 0;
        while i < width - 1
            invariant
                i <= width - 1,
                width - 1 < n,
                n == cs@.len(),
                kept@ == cs@.take(i as int),
            decreases width - 1 - i,
        {
            kept.push(cs[i]);
            assert(cs@.take(i + 1) =~= cs@.take(i as int).push(cs@[i as int]));
            i = i + 1;
        }
        kept.push('\u{2026}');
        string_of(&kept)
    } else {
        String::new()
    }
}

/// Every fitted text is exactly as wide as its column.
pub proof fn lemma_fit_width(s: Seq<char>, width: nat)
    ensures
        fitted(s, width).len() == width,
{
}

} // verus!
