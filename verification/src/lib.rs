//! A diagnostic error envelope: a wrapper that carries a user-defined error
//! code together with optional context captured at the original failure site
//! (call-site location, stack trace, span trace), and renders those
//! diagnostics as human-readable, severity-tiered reports.

pub mod capture;
pub mod chain;
pub mod config;
pub mod envelope;
pub mod filter;
pub mod frame;
pub mod render;
pub mod spantrace;
pub mod style;
pub mod text;

pub use capture::PrettyBacktrace;
pub use capture::RawSymbol;
pub use capture::number_frames;
pub use capture::trace;
pub use chain::BasicCode;
pub use chain::ErrorLike;
pub use chain::cause_chain;
pub use config::BacktraceOmitted;
pub use config::ColorBt;
pub use config::Verbosity;
pub use envelope::Envelope;
pub use envelope::Schema;
pub use envelope::SourceLocation;
pub use envelope::construct;
pub use envelope::panic_report;
pub use envelope::rewrap;
pub use filter::filter_frames;
pub use filter::filter_range;
pub use frame::Frame;
pub use render::print_hidden;
pub use render::render_frames;
pub use render::snippet;
pub use render::snippet_block;
pub use spantrace::PrettySpanTrace;
pub use spantrace::span_trace_report;
pub use spantrace::spantrace;
