use vstd::prelude::*;

use crate::data_provider::{DataLoadResult, Freshness};

verus! {

/// The response headers that extraction needs.
#[derive(Clone, Copy, Debug, PartialEq, Eq, Structural)]
pub enum RequiredHeader {
    CacheControl,
    ContentType,
}

/// A header value as the response carries it.
#[derive(Debug)]
pub enum HeaderText {
    /// The value, when it holds visible ASCII only.
    Ascii(String),
    /// The value holds other bytes and cannot be read as text.
    NonAscii,
}

/// The freshness facts of a Cache-Control header.
#[derive(Clone, Copy, Debug, PartialEq, Eq, Structural)]
pub struct CachePolicy {
    /// The `must-revalidate` directive is present.
    pub must_revalidate: bool,
    /// The `max-age` directive, in seconds, if present.
    pub max_age_secs: Option<u64>,
}

/// The body formats that the extractor reads.
#[derive(Clone, Copy, Debug, PartialEq, Eq, Structural)]
pub enum ContentFormat {
    Json,
    Toml,
    Yaml,
    Xml,
}

/// Why a response could not be turned into a load result.
#[derive(Debug)]
pub enum DataExtractionError {
    /// A required header is absent.
    HeaderNotFound(RequiredHeader),
    /// A required header is present but cannot be parsed.
    HeaderParseError(RequiredHeader, HeaderText),
    /// The Content-Type names no supported format.
    UnsupportedContentType(String),
    /// The status is not a success (outside 200 to 299).
    StatusError(u16),
}

/// What the cache_control crate makes of a Cache-Control value: `None` when a
/// directive that needs a number has none.
pub uninterp spec fn cache_control_of(value: Seq<char>) -> Option<CachePolicy>;

/// Relies on `cache_control::CacheControl::from_value`, which parses the value
/// of a Cache-Control header; its `max_age` is a whole number of seconds.
#[verifier::external_body]
fn parse_directives(value: &str) -> (r: Option<CachePolicy>)
    ensures
        r == cache_control_of(value@),
{
    cache_control::CacheControl::from_value(value).map(
        |c| CachePolicy { must_revalidate: c.must_revalidate, max_age_secs: c.max_age.map(|d| d.as_secs()) },
    )
}

/// The policy of a readable Cache-Control value `text`, given what the parser
/// made of it: a value the parser rejects is a parse error that quotes it.
pub open spec fn policy_from(text: String, parsed: Option<CachePolicy>) -> Result<
    CachePolicy,
    DataExtractionError,
> {
    match parsed {
        Some(policy) => Ok(policy),
        None => Err(
            DataExtractionError::HeaderParseError(RequiredHeader::CacheControl, HeaderText::Ascii(text)),
        ),
    }
}

/// The Cache-Control policy of a header value, or the error that says why it
/// has none.
pub open spec fn policy_of(value: HeaderText) -> Result<CachePolicy, DataExtractionError> {
    match value {
        HeaderText::Ascii(s) => policy_from(s, cache_control_of(s@)),
        HeaderText::NonAscii => Err(
            DataExtractionError::HeaderParseError(RequiredHeader::CacheControl, value),
        ),
    }
}

/// The policy of the readable Cache-Control value `text`, given `parsed`, what
/// the Cache-Control parser made of it.
pub fn cache_policy_from(text: String, parsed: Option<CachePolicy>) -> (r: Result<
    CachePolicy,
    DataExtractionError,
>)
    ensures
        r == policy_from(text, parsed),
{
    match parsed {
        Some(policy) => Ok(policy),
        None => Err(
            DataExtractionError::HeaderParseError(RequiredHeader::CacheControl, HeaderText::Ascii(text)),
        ),
    }
}

/// Parses a Cache-Control header value into its freshness facts.
pub fn parse_cache_control(value: HeaderText) -> (r: Result<CachePolicy, DataExtractionError>)
    ensures
        r == policy_of(value),
{
    match value {
        HeaderText::Ascii(s) => {
            let parsed = parse_directives(s.as_str());
            cache_policy_from(s, parsed)
        },
        HeaderText::NonAscii => Err(
            DataExtractionError::HeaderParseError(
                RequiredHeader::CacheControl,
                HeaderText::NonAscii,
            ),
        ),
    }
}

/// The body format that a Content-Type names, matched exactly.
pub open spec fn format_of(content_type: Seq<char>) -> Option<ContentFormat> {
    if content_type == "application/json"@ {
        Some(ContentFormat::Json)
    } else if content_type == "application/toml"@ {
        Some(ContentFormat::Toml)
    } else if content_type == "application/yaml"@ {
        Some(ContentFormat::Yaml)
    } else if content_type == "application/xml"@ {
        Some(ContentFormat::Xml)
    } else {
        None
    }
}

impl ContentFormat {
    /// The Content-Type that names this format.
    pub fn mime_type(&self) -> (r: &'static str)
        ensures
            format_of(r@) == Some(*self),
    {
        proof {
            reveal_strlit("application/json");
            reveal_strlit("application/toml");
            reveal_strlit("application/yaml");
            reveal_strlit("application/xml");
            assert("application/toml"@[12] != "application/json"@[12]);
            assert("application/yaml"@[12] != "application/json"@[12]);
            assert("application/yaml"@[12] != "application/toml"@[12]);
            assert("application/xml"@.len() != "application/json"@.len());
        }
        match self {
            ContentFormat::Json => "application/json",
            ContentFormat::Toml => "application/toml",
            ContentFormat::Yaml => "application/yaml",
            ContentFormat::Xml => "application/xml",
        }
    }
}

/// Whether two texts are equal.
fn same_text(a: &str, b: &str) -> (r: bool)
    ensures
        r == (a@ == b@),
{
    a.to_owned() == b.to_owned()
}

/// The body format that a Content-Type value names, if it is supported.
pub fn content_format(content_type: &str) -> (r: Option<ContentFormat>)
    ensures
        r == format_of(content_type@),
{
    if same_text(content_type, "application/json") {
        Some(ContentFormat::Json)
    } else if same_text(content_type, "application/toml") {
        Some(ContentFormat::Toml)
    } else if same_text(content_type, "application/yaml") {
        Some(ContentFormat::Yaml)
    } else if same_text(content_type, "application/xml") {
        Some(ContentFormat::Xml)
    } else {
        None
    }
}

/// A success status lies in 200 to 299.
pub open spec fn success_status(status: u16) -> bool {
    200 <= status <= 299
}

/// Whether an HTTP status code reports success.
pub fn is_success_status(status: u16) -> (r: bool)
    ensures
        r == success_status(status),
{
    200 <= status && status <= 299
}

/// How to read a response body, and the freshness facts that come with it.
#[derive(Clone, Copy, Debug, PartialEq, Eq, Structural)]
pub struct ExtractionPlan {
    pub format: ContentFormat,
    pub policy: CachePolicy,
}

/// The plan for a response with this status, whose Cache-Control value is
/// absent (`None`) or yields `policy`, and with this Content-Type value; or
/// the first reason, in this order, why it has none: a status other than
/// success, a missing or unparsable Cache-Control, a missing or unreadable
/// Content-Type, a Content-Type that names no supported format.
pub open spec fn plan_from(
    status: u16,
    policy: Option<Result<CachePolicy, DataExtractionError>>,
    content_type: Option<HeaderText>,
) -> Result<ExtractionPlan, DataExtractionError> {
    if !success_status(status) {
        Err(DataExtractionError::StatusError(status))
    } else {
        match policy {
            None => Err(DataExtractionError::HeaderNotFound(RequiredHeader::CacheControl)),
            Some(Err(e)) => Err(e),
            Some(Ok(policy)) => match content_type {
                None => Err(DataExtractionError::HeaderNotFound(RequiredHeader::ContentType)),
                Some(HeaderText::NonAscii) => Err(
                    DataExtractionError::HeaderParseError(
                        RequiredHeader::ContentType,
                        HeaderText::NonAscii,
                    ),
                ),
                Some(HeaderText::Ascii(s)) => match format_of(s@) {
                    Some(format) => Ok(ExtractionPlan { format, policy }),
                    None => Err(DataExtractionError::UnsupportedContentType(s)),
                },
            },
        }
    }
}

/// The plan for a response with this status and these two header values.
pub open spec fn extraction_plan(
    status: u16,
    cache_control: Option<HeaderText>,
    content_type: Option<HeaderText>,
) -> Result<ExtractionPlan, DataExtractionError> {
    plan_from(
        status,
        match cache_control {
            Some(value) => Some(policy_of(value)),
            None => None,
        },
        content_type,
    )
}

/// Decides how a response body is to be read, from the response's status, the
/// outcome of parsing its Cache-Control value (`None` when it has none), and
/// its Content-Type value.
pub fn plan_from_policy(
    status: u16,
    policy: Option<Result<CachePolicy, DataExtractionError>>,
    content_type: Option<HeaderText>,
) -> (r: Result<ExtractionPlan, DataExtractionError>)
    ensures
        r == plan_from(status, policy, content_type),
{
    if !is_success_status(status) {
        return Err(DataExtractionError::StatusError(status));
    }
    let policy = match policy {
        None => {
            return Err(DataExtractionError::HeaderNotFound(RequiredHeader::CacheControl));
        },
        Some(Err(e)) => {
            return Err(e);
        },
        Some(Ok(policy)) => policy,
    };
    match content_type {
        None => Err(DataExtractionError::HeaderNotFound(RequiredHeader::ContentType)),
        Some(HeaderText::NonAscii) => Err(
            DataExtractionError::HeaderParseError(RequiredHeader::ContentType, HeaderText::NonAscii),
        ),
        Some(HeaderText::Ascii(s)) => match content_format(s.as_str()) {
            Some(format) => Ok(ExtractionPlan { format, policy }),
            None => Err(DataExtractionError::UnsupportedContentType(s)),
        },
    }
}

/// Decides, from a response's status and its Cache-Control and Content-Type
/// header values, how its body is to be read.
pub fn plan_extraction(
    status: u16,
    cache_control: Option<HeaderText>,
    content_type: Option<HeaderText>,
) -> (r: Result<ExtractionPlan, DataExtractionError>)
    ensures
        r == extraction_plan(status, cache_control, content_type),
{
    let policy = match cache_control {
        Some(value) => Some(parse_cache_control(value)),
        None => None,
    };
    plan_from_policy(status, policy, content_type)
}

/// A `max-age` of this many seconds in milliseconds; an age too long to count
/// in milliseconds never runs out.
pub open spec fn max_age_millis(secs: u64) -> u64 {
    if secs * 1000 > u64::MAX {
        u64::MAX
    } else {
        (secs * 1000) as u64
    }
}

/// The freshness that a Cache-Control policy gives: `max-age` from the moment
/// the response is received, or stale at once without it.
pub open spec fn freshness_of(policy: CachePolicy) -> Freshness {
    match policy.max_age_secs {
        Some(secs) => Freshness::MaxAge(max_age_millis(secs)),
        None => Freshness::MaxAge(0),
    }
}

/// The load result for a body read as `data` under `policy`.
pub fn load_result<T>(data: T, policy: CachePolicy) -> (r: DataLoadResult<T>)
    ensures
        r.data == data,
        r.must_revalidate == policy.must_revalidate,
        r.freshness == freshness_of(policy),
{
    let age = match policy.max_age_secs {
        Some(secs) => match secs.checked_mul(1000) {
            Some(millis) => millis,
            None => u64::MAX,
        },
        None => 0,
    };
    DataLoadResult { data, must_revalidate: policy.must_revalidate, freshness: Freshness::MaxAge(age) }
}

} // verus!
