//! Span-trace capture and rendering: the structured tracing context is an
//! external collaborator, carried opaquely. Colorizing it reads source files,
//! I/O that belongs at the process boundary, so the colorized text is handed
//! in and only the composition is done — and verified — here.

use vstd::prelude::*;

verus! {

use vstd::string::StringExecFns;

#[verifier::external_type_specification]
#[verifier::external_body]
pub struct ExSpanTrace(tracing_error::SpanTrace);

/// Relies on tracing_error::SpanTrace::capture: captures the ambient span
/// context. The result depends on the live tracing subscriber, so nothing is
/// promised of it.
#[verifier::external_body]
pub fn spantrace() -> tracing_error::SpanTrace {
    tracing_error::SpanTrace::capture()
}

/// Relies on tracing_error::SpanTrace::status: tells a successfully captured
/// span trace apart from an empty or unsupported one. The answer depends on
/// the value and the subscriber it was captured under, so nothing is promised
/// of it.
#[verifier::external_body]
fn span_trace_captured(st: &tracing_error::SpanTrace) -> bool {
    st.status() == tracing_error::SpanTraceStatus::CAPTURED
}

/// The span-trace section of a report: a blank line and the colorized trace
/// when one was captured, nothing at all otherwise.
pub open spec fn span_report_view(captured: bool, colorized: Seq<char>) -> Seq<char> {
    if captured {
        "\n\n"@ + colorized
    } else {
        Seq::empty()
    }
}

/// Composes the span-trace section from the captured flag and the colorized
/// trace text.
pub fn span_trace_report(captured: bool, colorized: &str) -> (r: String)
    ensures
        r@ == span_report_view(captured, colorized@),
{
    if captured {
        let mut out = String::from_str("\n\n");
        out.append(colorized);
        out
    } else {
        String::new()
    }
}

/// A captured span trace on its way to its rendering.
pub struct PrettySpanTrace<'a>(pub &'a tracing_error::SpanTrace);

impl<'a> PrettySpanTrace<'a> {
    /// Renders the span trace's report section: `colorized` is its colorized
    /// text, supplied by the embedding, and the capture status decides
    /// whether it appears.
    pub fn render(&self, colorized: &str) -> (r: String)
        ensures
            exists|captured: bool| r@ == span_report_view(captured, colorized@),
    {
        let captured = span_trace_captured(self.0);
        span_trace_report(captured, colorized)
    }
}

} // verus!
