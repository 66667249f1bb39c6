//! The errors of the CLI and how each is reported: its message, its
//! machine-readable type and the process exit code.

use vstd::prelude::*;
use crate::text::{decimal_digits, decimal_text, string_views};

verus! {

/// Everything that can go wrong in a command. Errors that come from I/O or
/// from an outside library carry that error's message.
#[derive(Debug, Clone, PartialEq, Eq)]
pub enum CliError {
    NoApiKey,
    AuthError(String),
    RateLimited { retry_after: Option<u64> },
    HttpError { status: u16, body: String },
    GraphQlErrors(Vec<String>),
    NoData,
    NotFound(String),
    InvalidInput(String),
    ConfigError(String),
    Reqwest(String),
    Io(String),
    SerdeJson(String),
    TomlParse(String),
    TomlSerialize(String),
}

/// The `type` field reported for an error in JSON output.
pub open spec fn spec_error_type(e: CliError) -> Seq<char> {
    match e {
        CliError::NoApiKey => "no_api_key"@,
        CliError::AuthError(_) => "auth_error"@,
        CliError::RateLimited { .. } => "rate_limited"@,
        CliError::HttpError { .. } => "http_error"@,
        CliError::GraphQlErrors(_) => "graphql_error"@,
        CliError::NoData => "no_data"@,
        CliError::NotFound(_) => "not_found"@,
        CliError::InvalidInput(_) => "invalid_input"@,
        CliError::ConfigError(_) => "config_error"@,
        CliError::Reqwest(_) => "request_error"@,
        CliError::Io(_) => "io_error"@,
        CliError::SerdeJson(_) => "json_error"@,
        CliError::TomlParse(_) => "toml_parse_error"@,
        CliError::TomlSerialize(_) => "toml_serialize_error"@,
    }
}

/// The process exit code for an error: 2 for missing or rejected credentials,
/// 3 when rate limited, 4 when something was not found, 5 for invalid input,
/// 6 when the API answered with an error or no data, 1 otherwise.
pub open spec fn spec_exit_code(e: CliError) -> i32 {
    match e {
        CliError::NoApiKey | CliError::AuthError(_) => 2,
        CliError::RateLimited { .. } => 3,
        CliError::NotFound(_) => 4,
        CliError::InvalidInput(_) => 5,
        CliError::HttpError { .. } | CliError::GraphQlErrors(_) | CliError::NoData => 6,
        _ => 1,
    }
}

/// The reason phrase registered for an HTTP status code (`Not Found` for
/// 404), as `reqwest::StatusCode::canonical_reason` gives it; none for a code
/// without one.
pub uninterp spec fn status_reason(code: u16) -> Option<Seq<char>>;

/// How `{:?}` writes a list of strings.
pub uninterp spec fn strings_debug_text(items: Seq<Seq<char>>) -> Seq<char>;

/// `reqwest::StatusCode::from_u16(code)` and then `canonical_reason()`.
/// `from_u16` accepts exactly the codes 100 to 999; for those the result is
/// the registered phrase (the name `status_reason`), for others there is
/// none.
#[verifier::external_body]
fn canonical_reason(code: u16) -> (r: Option<&'static str>)
    ensures
        100 <= code <= 999 ==> match r {
            Some(s) => status_reason(code) == Some(s@),
            None => status_reason(code) is None,
        },
        !(100 <= code <= 999) ==> r is None,
{
    match reqwest::StatusCode::from_u16(code) {
        Ok(s) => s.canonical_reason(),
        Err(_) => None,
    }
}

/// `format!("{:?}", v)` of a list of strings.
#[verifier::external_body]
fn strings_debug(v: &Vec<String>) -> (r: String)
    ensures
        r@ == strings_debug_text(string_views(v@)),
{
    format!("{:?}", v)
}

/// How `{:?}` writes an optional number of seconds: `Some(30)` or `None`.
pub open spec fn retry_text(v: Option<u64>) -> Seq<char> {
    match v {
        Some(n) => "Some("@ + decimal_digits(n as nat) + ")"@,
        None => "None"@,
    }
}

fn retry_display(v: Option<u64>) -> (r: String)
    ensures
        r@ == retry_text(v),
{
    match v {
        Some(n) => {
            let mut s = "Some(".to_owned();
            let d = decimal_text(n);
            s.append(d.as_str());
            s.append(")");
            s
        },
        None => "None".to_owned(),
    }
}

/// How an HTTP status is written: the code, a space and its reason phrase
/// (`404 Not Found`), or `<unknown status code>` when it has none.
pub open spec fn status_text(code: u16) -> Seq<char> {
    let reason = if 100 <= code <= 999 {
        status_reason(code)
    } else {
        None
    };
    decimal_digits(code as nat) + " "@ + match reason {
        Some(p) => p,
        None => "<unknown status code>"@,
    }
}

/// The message of an error, as printed and as reported in JSON output.
pub open spec fn spec_message(e: CliError) -> Seq<char> {
    match e {
        CliError::NoApiKey => "No API key configured. Set LINEAR_API_KEY or run `linear-mg auth login`"@,
        CliError::AuthError(m) => "Authentication failed: "@ + m@,
        CliError::RateLimited { retry_after } => "Rate limited. Retry after "@ + retry_text(retry_after)
            + " seconds"@,
        CliError::HttpError { status, body } => "HTTP error "@ + status_text(status) + ": "@ + body@,
        CliError::GraphQlErrors(v) => "GraphQL errors: "@ + strings_debug_text(string_views(v@)),
        CliError::NoData => "No data returned from API"@,
        CliError::NotFound(m) => "Not found: "@ + m@,
        CliError::InvalidInput(m) => "Invalid input: "@ + m@,
        CliError::ConfigError(m) => "Config error: "@ + m@,
        CliError::Reqwest(m) => m@,
        CliError::Io(m) => m@,
        CliError::SerdeJson(m) => m@,
        CliError::TomlParse(m) => "TOML parse error: "@ + m@,
        CliError::TomlSerialize(m) => "TOML serialize error: "@ + m@,
    }
}

fn status_display(code: u16) -> (r: String)
    ensures
        r@ == status_text(code),
{
    let mut s = decimal_text(code as u64);
    s.append(" ");
    match canonical_reason(code) {
        Some(p) => s.append(p),
        None => s.append("<unknown status code>"),
    }
    s
}

fn prefixed(prefix: &str, m: &str) -> (r: String)
    ensures
        r@ == prefix@ + m@,
{
    let mut s = prefix.to_owned();
    s.append(m);
    s
}

impl CliError {
    /// The message of the error (what `to_string` gives).
    pub fn message(&self) -> (r: String)
        ensures
            r@ == spec_message(*self),
    {
        match self {
            CliError::NoApiKey => "No API key configured. Set LINEAR_API_KEY or run `linear-mg auth login`".to_owned(),
            CliError::AuthError(m) => prefixed("Authentication failed: ", m.as_str()),
            CliError::RateLimited { retry_after } => {
                let mut s = "Rate limited. Retry after ".to_owned();
                let d = retry_display(*retry_after);
                s.append(d.as_str());
                s.append(" seconds");
                s
            },
            CliError::HttpError { status, body } => {
                let mut s = "HTTP error ".to_owned();
                let t = status_display(*status);
                s.append(t.as_str());
                s.append(": ");
                s.append(body.as_str());
                s
            },
            CliError::GraphQlErrors(v) => {
                let d = strings_debug(v);
                prefixed("GraphQL errors: ", d.as_str())
            },
            CliError::NoData => "No data returned from API".to_owned(),
            CliError::NotFound(m) => prefixed("Not found: ", m.as_str()),
            CliError::InvalidInput(m) => prefixed("Invalid input: ", m.as_str()),
            CliError::ConfigError(m) => prefixed("Config error: ", m.as_str()),
            CliError::Reqwest(m) => m.clone(),
            CliError::Io(m) => m.clone(),
            CliError::SerdeJson(m) => m.clone(),
            CliError::TomlParse(m) => prefixed("TOML parse error: ", m.as_str()),
            CliError::TomlSerialize(m) => prefixed("TOML serialize error: ", m.as_str()),
        }
    }

    /// The machine-readable name of this kind of error.
    pub fn error_type(&self) -> (r: &'static str)
        ensures
            r@ == spec_error_type(*self),
    {
        match self {
            CliError::NoApiKey => "no_api_key",
            CliError::AuthError(_) => "auth_error",
            CliError::RateLimited { .. } => "rate_limited",
            CliError::HttpError { .. } => "http_error",
            CliError::GraphQlErrors(_) => "graphql_error",
            CliError::NoData => "no_data",
            CliError::NotFound(_) => "not_found",
            CliError::InvalidInput(_) => "invalid_input",
            CliError::ConfigError(_) => "config_error",
            CliError::Reqwest(_) => "request_error",
            CliError::Io(_) => "io_error",
            CliError::SerdeJson(_) => "json_error",
            CliError::TomlParse(_) => "toml_parse_error",
            CliError::TomlSerialize(_) => "toml_serialize_error",
        }
    }

    /// The exit code the process ends with when this error stops a command.
    pub fn exit_code(&self) -> (r: i32)
        ensures
            r == spec_exit_code(*self),
    {
        match self {
            CliError::NoApiKey | CliError::AuthError(_) => 2,
            CliError::RateLimited { .. } => 3,
            CliError::NotFound(_) => 4,
            CliError::InvalidInput(_) => 5,
            CliError::HttpError { .. } | CliError::GraphQlErrors(_) | CliError::NoData => 6,
            _ => 1,
        }
    }
}

/// Every error ends the process with a failure code between 1 and 6, and only
/// the errors that come from neither the credentials, the rate limit, a
/// lookup, the input nor the API's answer use the generic code 1.
pub proof fn lemma_exit_code_range(e: CliError)
    ensures
        1 <= spec_exit_code(e) <= 6,
        spec_exit_code(e) == 1 <==> (e is ConfigError || e is Reqwest || e is Io || e is SerdeJson
            || e is TomlParse || e is TomlSerialize),
{
}

} // verus!
