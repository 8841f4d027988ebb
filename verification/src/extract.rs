//! Payload extraction: the raw body bytes are parsed as JSON, and the
//! normalized notification is derived from the provider-independent string
//! fields `status`, `project` and `url`.

use vstd::prelude::*;
use vstd::string::StringExecFns;

use crate::notification::{BuildStatus, NormalizedNotification, opt_string_view};

verus! {

/// Extraction failure: the body is not a JSON document.
#[derive(Clone, Copy, Debug, PartialEq, Eq, Structural)]
pub enum ExtractError {
    MalformedPayload,
}

/// Whether the byte sequence is a JSON document that `serde_json` parses.
pub uninterp spec fn json_value_ok(body: Seq<u8>) -> bool;

/// The string value of the top-level field `key` of the JSON document held
/// by `body`, if the document is an object, holds `key`, and `key` maps to
/// a string; `None` otherwise.
pub uninterp spec fn json_string_field(body: Seq<u8>, key: Seq<char>) -> Option<Seq<char>>;

/// The top-level string fields a notification is derived from.
struct RawFields {
    status: Option<String>,
    project: Option<String>,
    target_url: Option<String>,
}

/// Relies on `serde_json::from_slice` to decide whether `body` is a JSON
/// document, and on `serde_json::Value::get` and `serde_json::Value::as_str`
/// to read the top-level string fields `status`, `project` and `url` of
/// the parsed document.  Both are pure functions of the body bytes.
#[verifier::external_body]
fn parse_raw_fields(body: &Vec<u8>) -> (r: Option<RawFields>)
    ensures
        r is Some <==> json_value_ok(body@),
        r matches Some(f) ==> {
            &&& opt_string_view(f.status) == json_string_field(body@, "status"@)
            &&& opt_string_view(f.project) == json_string_field(body@, "project"@)
            &&& opt_string_view(f.target_url) == json_string_field(body@, "url"@)
        },
{
    let v: serde_json::Value = match serde_json::from_slice(body.as_slice()) {
        Ok(v) => v,
        Err(_) => return None,
    };
    Some(RawFields {
        status: v.get("status").and_then(serde_json::Value::as_str).map(str::to_string),
        project: v.get("project").and_then(serde_json::Value::as_str).map(str::to_string),
        target_url: v.get("url").and_then(serde_json::Value::as_str).map(str::to_string),
    })
}

/// Normalization of a status field: the recognized spellings map to their
/// status, everything else — a missing field included — maps to `Unknown`
/// rather than failing, so an unknown notification is still relayed.
pub open spec fn status_of(field: Option<Seq<char>>) -> BuildStatus {
    match field {
        None => BuildStatus::Unknown,
        Some(s) => if s == "success"@ {
            BuildStatus::Success
        } else if s == "failure"@ || s == "error"@ {
            BuildStatus::Failure
        } else if s == "pending"@ {
            BuildStatus::Pending
        } else {
            BuildStatus::Unknown
        },
    }
}

/// Normalization of the project field: a missing field becomes the empty
/// name.
pub open spec fn project_of(field: Option<Seq<char>>) -> Seq<char> {
    match field {
        Some(p) => p,
        None => Seq::empty(),
    }
}

/// What `extract` promises of a notification derived from `body` on behalf
/// of the authenticated provider `provider`.
pub open spec fn notification_matches(
    n: NormalizedNotification,
    provider: Seq<char>,
    body: Seq<u8>,
) -> bool {
    &&& n.status == status_of(json_string_field(body, "status"@))
    &&& n.project@ == project_of(json_string_field(body, "project"@))
    &&& opt_string_view(n.target_url) == json_string_field(body, "url"@)
    &&& n.source_provider@ == provider
}

fn parse_status(field: &Option<String>) -> (r: BuildStatus)
    ensures
        r == status_of(opt_string_view(*field)),
{
    match field {
        None => BuildStatus::Unknown,
        Some(s) => {
            if *s == String::from_str("success") {
                BuildStatus::Success
            } else if *s == String::from_str("failure") || *s == String::from_str("error") {
                BuildStatus::Failure
            } else if *s == String::from_str("pending") {
                BuildStatus::Pending
            } else {
                BuildStatus::Unknown
            }
        },
    }
}

/// Derives the normalized notification from a verified raw body.  Fails
/// exactly when the body is not a JSON document; the provider name is taken
/// from the already-authenticated `provider_name`, never from the payload.
pub fn extract(provider_name: &String, body: &Vec<u8>) -> (r: Result<
    NormalizedNotification,
    ExtractError,
>)
    ensures
        r is Ok <==> json_value_ok(body@),
        r matches Ok(n) ==> notification_matches(n, provider_name@, body@),
        r is Err ==> r == Result::<NormalizedNotification, ExtractError>::Err(
            ExtractError::MalformedPayload,
        ),
{
    match parse_raw_fields(body) {
        None => Err(ExtractError::MalformedPayload),
        Some(fields) => {
            let status = parse_status(&fields.status);
            let project = match fields.project {
                Some(p) => p,
                None => String::new(),
            };
            Ok(NormalizedNotification {
                status,
                project,
                target_url: fields.target_url,
                source_provider: provider_name.clone(),
            })
        },
    }
}

} // verus!
