//! Diagnostics: what the core reports, as values for a leveled log.

use vstd::prelude::*;

verus! {

/// The level at which a diagnostic is reported.
#[derive(Clone, Copy, Debug, PartialEq, Eq, Structural)]
pub enum Severity {
    Info,
    Debug,
    Warn,
    Error,
}

/// One message for the diagnostics sink. The core never writes to a log
/// itself: it hands these to its caller, one per event.
#[derive(Debug, PartialEq, Eq)]
pub struct Diagnostic {
    pub severity: Severity,
    pub message: String,
}

/// A diagnostic as a mathematical value.
pub struct DiagnosticView {
    pub severity: Severity,
    pub message: Seq<char>,
}

impl View for Diagnostic {
    type V = DiagnosticView;

    open spec fn view(&self) -> DiagnosticView {
        DiagnosticView { severity: self.severity, message: self.message@ }
    }
}

impl Clone for Diagnostic {
    fn clone(&self) -> (d: Diagnostic)
        ensures
            d@ == self@,
    {
        Diagnostic { severity: self.severity, message: self.message.clone() }
    }
}

impl Diagnostic {
    /// A diagnostic with a fixed message.
    pub fn fixed(severity: Severity, text: &str) -> (d: Diagnostic)
        ensures
            d@ == (DiagnosticView { severity, message: text@ }),
    {
        Diagnostic { severity, message: String::from_str(text) }
    }

    /// A diagnostic whose message is `prefix` followed by `detail`.
    pub fn with_detail(severity: Severity, prefix: &str, detail: &str) -> (d: Diagnostic)
        ensures
            d@ == (DiagnosticView { severity, message: prefix@ + detail@ }),
    {
        Diagnostic { severity, message: String::from_str(prefix).concat(detail) }
    }
}

/// Reported when a refresh starts.
pub open spec fn fetching_text() -> Seq<char> {
    "Fetching new cat image..."@
}

/// Reported when the service has answered and the body is about to be decoded.
pub open spec fn decoding_text() -> Seq<char> {
    "Fetch successful, parsing JSON..."@
}

/// Reported when the answer held at least one record: `url` is the address
/// of the first.
pub open spec fn got_image_text(url: Seq<char>) -> Seq<char> {
    "Got image URL: "@ + url
}

/// Reported when the service answered with no records.
pub open spec fn empty_result_text() -> Seq<char> {
    "API returned empty array"@
}

/// Reported when the body of the answer could not be decoded.
pub open spec fn decode_failure_text(detail: Seq<char>) -> Seq<char> {
    "Failed to parse JSON: "@ + detail
}

/// Reported when the request itself failed.
pub open spec fn transport_failure_text(detail: Seq<char>) -> Seq<char> {
    "Failed to fetch from Cat API: "@ + detail
}

/// Reported when the skip button is clicked.
pub open spec fn skip_text() -> Seq<char> {
    "Skip button clicked"@
}

} // verus!
