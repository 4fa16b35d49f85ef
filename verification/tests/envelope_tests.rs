use mayerror::BasicCode;
use mayerror::ColorBt;
use mayerror::ErrorLike;
use mayerror::Schema;
use mayerror::SourceLocation;
use mayerror::Verbosity;
use mayerror::cause_chain;
use mayerror::construct;
use mayerror::panic_report;
use mayerror::rewrap;

const RED: &str = "\u{1b}[31m";
const MAGENTA: &str = "\u{1b}[35m";
const CYAN: &str = "\u{1b}[36m";
const FG_RESET: &str = "\u{1b}[39m";

fn code(msg: &str) -> BasicCode {
    BasicCode { msg: msg.to_string(), cause: None }
}

fn code_with_cause(msg: &str, cause: BasicCode) -> BasicCode {
    BasicCode { msg: msg.to_string(), cause: Some(Box::new(cause)) }
}

fn loc(file: &str, line: u32, column: u32) -> SourceLocation {
    SourceLocation { file: file.to_string(), line, column }
}

#[test]
fn cause_chain_enumerates_in_order() {
    let a = code_with_cause("A", code_with_cause("B", code("C")));
    let msgs = cause_chain(&a);
    assert_eq!(msgs, vec!["A".to_string(), "B".to_string(), "C".to_string()]);
}

#[test]
fn cause_chain_of_a_lone_code() {
    let msgs = cause_chain(&code("alone"));
    assert_eq!(msgs, vec!["alone".to_string()]);
}

#[test]
fn render_and_cause_walk() {
    let b = code("B");
    let a = code_with_cause("A", b);
    assert_eq!(a.render(), "A");
    let c = a.cause().expect("A has a cause");
    assert_eq!(c.render(), "B");
    assert!(c.cause().is_none());
}

#[test]
fn construct_populates_declared_fields() {
    let schema = Schema { has_location: true, has_trace: true, has_span_trace: true };
    let e = construct(code("boom"), schema, loc("src/app.rs", 12, 9), Verbosity::Minimal);
    assert_eq!(e.location, Some(loc("src/app.rs", 12, 9)));
    assert!(e.trace.is_some());
    assert!(e.span_trace.is_some());
}

#[test]
fn construct_leaves_undeclared_fields_empty() {
    let schema = Schema { has_location: false, has_trace: false, has_span_trace: false };
    let e = construct(code("boom"), schema, loc("src/app.rs", 12, 9), Verbosity::Minimal);
    assert_eq!(e.location, None);
    assert!(e.trace.is_none());
    assert!(e.span_trace.is_none());
}

#[test]
fn rewrap_keeps_the_original_capture() {
    // capture happens once, at the generic conversion; an explicit
    // field-by-field conversion afterwards must not re-capture
    let schema = Schema { has_location: true, has_trace: true, has_span_trace: false };
    let original_site = loc("src/config.rs", 7, 21);
    let inner = construct(code("file not found"), schema, original_site.clone(), Verbosity::Minimal);
    let outer = rewrap(inner, code("error reading config"));
    assert_eq!(outer.location, Some(original_site));
    assert!(outer.trace.is_some());
    assert_eq!(outer.code.msg, "error reading config");
}

#[test]
fn display_with_location() {
    let schema = Schema { has_location: true, has_trace: false, has_span_trace: false };
    let e = construct(code("X"), schema, loc("src/main.rs", 10, 5), Verbosity::Minimal);
    assert_eq!(e.display(), "X @ src/main.rs:10:5");
}

#[test]
fn display_without_location() {
    let schema = Schema { has_location: false, has_trace: false, has_span_trace: false };
    let e = construct(code("X"), schema, loc("src/main.rs", 10, 5), Verbosity::Minimal);
    assert_eq!(e.display(), "X");
}

#[test]
fn debug_long_form_without_trace() {
    let schema = Schema { has_location: true, has_trace: false, has_span_trace: false };
    let c = code_with_cause("boom", code_with_cause("io error", code("disk gone")));
    let e = construct(c, schema, loc("src/lib.rs", 3, 9), Verbosity::Minimal);
    let out = e.debug_render(Verbosity::Minimal, ColorBt::Hide, &vec![]);
    let expected = format!(
        "{RED}boom{FG_RESET}\n\nSource:\n   0: {MAGENTA}io error{FG_RESET}\n   1: {MAGENTA}disk gone{FG_RESET}\n\nLocation:\n   {CYAN}src/lib.rs:3:9{FG_RESET}"
    );
    assert_eq!(out, expected);
}

#[test]
fn debug_long_form_without_causes_or_location() {
    let schema = Schema { has_location: false, has_trace: false, has_span_trace: false };
    let e = construct(code("boom"), schema, loc("x", 1, 1), Verbosity::Minimal);
    let out = e.debug_render(Verbosity::Minimal, ColorBt::Hide, &vec![]);
    assert_eq!(out, format!("{RED}boom{FG_RESET}"));
}

#[test]
fn debug_long_form_with_trace_ends_with_hint() {
    let schema = Schema { has_location: false, has_trace: true, has_span_trace: false };
    let e = construct(code("boom"), schema, loc("x", 1, 1), Verbosity::Minimal);
    let out = e.debug_render(Verbosity::Minimal, ColorBt::Hide, &vec![]);
    // under minimal verbosity no backtrace is rendered, only the hint
    let expected = format!(
        "{RED}boom{FG_RESET}\n\nBacktrace omitted. Run with RUST_BACKTRACE=1 environment variable to display it.\nRun with RUST_BACKTRACE=full to include source snippets."
    );
    assert_eq!(out, expected);
}

#[test]
fn debug_long_form_medium_includes_backtrace() {
    let schema = Schema { has_location: false, has_trace: true, has_span_trace: false };
    let e = construct(code("boom"), schema, loc("x", 1, 1), Verbosity::Medium);
    let out = e.debug_render(Verbosity::Medium, ColorBt::Hide, &vec![]);
    assert!(out.starts_with(&format!("{RED}boom{FG_RESET}\n\n")));
    assert!(out.ends_with(
        "\n\nRun with COLORBT_SHOW_HIDDEN=1 environment variable to disable frame filtering.\nRun with RUST_BACKTRACE=full to include source snippets."
    ));
}

#[test]
fn panic_report_minimal() {
    let out = panic_report(
        Some("boom"),
        Some(&loc("src/main.rs", 44, 13)),
        &vec![],
        Verbosity::Minimal,
        ColorBt::Hide,
    );
    let expected = format!(
        "{RED}The application panicked.{FG_RESET}\nMessage: {CYAN}boom{FG_RESET}\nLocation: {MAGENTA}src/main.rs:44:13{FG_RESET}\n\nBacktrace omitted. Run with RUST_BACKTRACE=1 environment variable to display it.\nRun with RUST_BACKTRACE=full to include source snippets.\n"
    );
    assert_eq!(out, expected);
}

#[test]
fn panic_report_placeholders() {
    let out = panic_report(None, None, &vec![], Verbosity::Minimal, ColorBt::Hide);
    assert!(out.starts_with(&format!(
        "{RED}The application panicked.{FG_RESET}\nMessage: {CYAN}<non string panic payload>{FG_RESET}\nLocation: {MAGENTA}<unknown>{FG_RESET}"
    )));
}

#[test]
fn panic_report_medium_captures_a_trace() {
    let out = panic_report(Some("boom"), None, &vec![], Verbosity::Medium, ColorBt::Show);
    // a freshly captured trace of this very test run is rendered
    assert!(out.contains("\n    at "));
}
