//! Relay message rendering and delivery-outcome classification.  The JSON
//! message sent to the downstream chat webhook is rendered here, character
//! by character, against an exact specification; the one HTTP call itself
//! is performed by the program around the library.

use vstd::prelude::*;
use vstd::string::StringExecFns;
use vstd::string::StrSliceExecFns;

use crate::notification::{BuildStatus, NormalizedNotification, RelayOutcome, opt_string_view};

verus! {

/// How one character is rendered inside a JSON string literal: quote and
/// backslash are escaped, the common control characters get their short
/// escapes, any other control character is dropped, and everything else
/// stands as itself.
pub open spec fn escaped_char(c: char) -> Seq<char> {
    if c == '"' {
        seq!['\\', '"']
    } else if c == '\\' {
        seq!['\\', '\\']
    } else if c == '\n' {
        seq!['\\', 'n']
    } else if c == '\r' {
        seq!['\\', 'r']
    } else if c == '\t' {
        seq!['\\', 't']
    } else if (c as u32) < 32 {
        Seq::empty()
    } else {
        seq![c]
    }
}

/// JSON string-literal escaping of a whole character sequence.
pub open spec fn json_escape(s: Seq<char>) -> Seq<char>
    decreases s.len(),
{
    if s.len() == 0 {
        Seq::empty()
    } else {
        json_escape(s.drop_last()) + escaped_char(s.last())
    }
}

/// Relies on `String::push`: it appends exactly the one character.
#[verifier::external_body]
fn push_char(out: &mut String, c: char)
    ensures
        final(out)@ == old(out)@ + seq![c],
{
    out.push(c);
}

/// Appends the JSON-escaped form of `s` to `out`.
fn append_escaped(out: &mut String, s: &str)
    ensures
        final(out)@ == old(out)@ + json_escape(s@),
{
    let n = s.unicode_len();
    let mut i: usize = 0;
    while i < n
        invariant
            n == s@.len(),
            i <= n,
            out@ == old(out)@ + json_escape(s@.take(i as int)),
        decreases n - i,
    {
        let c = s.get_char(i);
        proof {
            assert(s@.take(i + 1).drop_last() =~= s@.take(i as int));
            assert(s@.take(i + 1).last() == s@[i as int]);
        }
        if c == '"' {
            push_char(out, '\\');
            push_char(out, '"');
        } else if c == '\\' {
            push_char(out, '\\');
            push_char(out, '\\');
        } else if c == '\n' {
            push_char(out, '\\');
            push_char(out, 'n');
        } else if c == '\r' {
            push_char(out, '\\');
            push_char(out, 'r');
        } else if c == '\t' {
            push_char(out, '\\');
            push_char(out, 't');
        } else if (c as u32) < 32 {
            // dropped from the rendered message
        } else {
            push_char(out, c);
        }
        assert(out@ =~= old(out)@ + json_escape(s@.take(i + 1)));
        i = i + 1;
    }
    assert(s@.take(n as int) =~= s@);
}

/// The wire spelling of a build status.
pub open spec fn status_text_spec(s: BuildStatus) -> Seq<char> {
    match s {
        BuildStatus::Success => "success"@,
        BuildStatus::Failure => "failure"@,
        BuildStatus::Pending => "pending"@,
        BuildStatus::Unknown => "unknown"@,
    }
}

pub fn status_text(s: BuildStatus) -> (r: &'static str)
    ensures
        r@ == status_text_spec(s),
{
    match s {
        BuildStatus::Success => "success",
        BuildStatus::Failure => "failure",
        BuildStatus::Pending => "pending",
        BuildStatus::Unknown => "unknown",
    }
}

/// The rendered value of the target field: the escaped URL, or `none`.
pub open spec fn target_text_spec(url: Option<Seq<char>>) -> Seq<char> {
    match url {
        Some(u) => json_escape(u),
        None => "none"@,
    }
}

/// The exact JSON message relayed downstream for a notification: a plain
/// content line plus one embed block summarizing project, status, provider
/// and target URL.
pub open spec fn relay_message_spec(n: NormalizedNotification) -> Seq<char> {
    "{\"content\":\""@ + json_escape(status_text_spec(n.status)) + ": "@ + json_escape(n.project@)
        + "\",\"embeds\":[{\"title\":\""@ + json_escape(n.project@)
        + "\",\"description\":\"build "@ + json_escape(status_text_spec(n.status))
        + "\",\"color\":15258703,\"footer\":{\"text\":\""@ + json_escape(n.source_provider@)
        + "\"},\"author\":{\"name\":\""@ + json_escape(n.source_provider@)
        + "\"},\"fields\":[{\"name\":\"target\",\"value\":\""@ + target_text_spec(
        opt_string_view(n.target_url),
    ) + "\",\"inline\":false}]}]}"@
}

/// Renders the downstream JSON message for a notification.
pub fn render_message(n: &NormalizedNotification) -> (r: String)
    ensures
        r@ == relay_message_spec(*n),
{
    let mut out = String::new();
    out.append("{\"content\":\"");
    append_escaped(&mut out, status_text(n.status));
    out.append(": ");
    append_escaped(&mut out, n.project.as_str());
    out.append("\",\"embeds\":[{\"title\":\"");
    append_escaped(&mut out, n.project.as_str());
    out.append("\",\"description\":\"build ");
    append_escaped(&mut out, status_text(n.status));
    out.append("\",\"color\":15258703,\"footer\":{\"text\":\"");
    append_escaped(&mut out, n.source_provider.as_str());
    out.append("\"},\"author\":{\"name\":\"");
    append_escaped(&mut out, n.source_provider.as_str());
    out.append("\"},\"fields\":[{\"name\":\"target\",\"value\":\"");
    match &n.target_url {
        Some(u) => append_escaped(&mut out, u.as_str()),
        None => out.append("none"),
    }
    out.append("\",\"inline\":false}]}]}");
    assert(out@ =~= relay_message_spec(*n));
    out
}

/// Classifies an HTTP response from the downstream sink: a status in
/// [200, 300) counts as delivered; anything else keeps the status and an
/// error detail taken from the response body when one was readable.
pub fn classify_http_response(status: u16, body_text: Option<String>) -> (r: RelayOutcome)
    ensures
        r.delivered == (200 <= status < 300),
        r.http_status == Some(status),
        r.delivered ==> r.error_detail is None,
        !r.delivered ==> match opt_string_view(body_text) {
            Some(b) => opt_string_view(r.error_detail) == Some(b),
            None => r.error_detail matches Some(d) && d@ == "downstream returned failure status"@,
        },
{
    if 200 <= status && status < 300 {
        RelayOutcome { delivered: true, http_status: Some(status), error_detail: None }
    } else {
        let detail = match body_text {
            Some(b) => b,
            None => String::from_str("downstream returned failure status"),
        };
        RelayOutcome { delivered: false, http_status: Some(status), error_detail: Some(detail) }
    }
}

/// Classifies a network-level failure (connection refused, timeout, DNS):
/// nothing was delivered, there is no HTTP status, and the transport
/// description is kept as the error detail.
pub fn transport_failure(detail: String) -> (r: RelayOutcome)
    ensures
        !r.delivered,
        r.http_status is None,
        r.error_detail matches Some(d) && d@ == detail@,
{
    RelayOutcome { delivered: false, http_status: None, error_detail: Some(detail) }
}

} // verus!
