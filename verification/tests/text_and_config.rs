use mayerror::BacktraceOmitted;
use mayerror::ColorBt;
use mayerror::Verbosity;
use mayerror::text::center;
use mayerror::text::contains_sub;
use mayerror::text::right_align;
use mayerror::text::starts_with;
use mayerror::text::str_eq;
use mayerror::text::u64_to_string;

#[test]
fn str_eq_basics() {
    assert!(str_eq("", ""));
    assert!(str_eq("abc", "abc"));
    assert!(!str_eq("abc", "abd"));
    assert!(!str_eq("abc", "abcd"));
}

#[test]
fn starts_with_basics() {
    assert!(starts_with("mayerror::convert", "mayerror"));
    assert!(starts_with("abc", ""));
    assert!(!starts_with("may", "mayerror"));
    assert!(!starts_with("xmayerror", "mayerror"));
}

#[test]
fn contains_sub_basics() {
    assert!(contains_sub(
        "/home/u/.cargo/registry/src/index.crates.io/serde-1.0.0/src/de.rs",
        "/.cargo/registry/src/"
    ));
    assert!(!contains_sub("/home/u/projects/app/src/main.rs", "/.cargo/registry/src/"));
    assert!(contains_sub("aaa", "aa"));
    assert!(!contains_sub("a", "aa"));
}

#[test]
fn decimal_rendering() {
    assert_eq!(u64_to_string(0), "0");
    assert_eq!(u64_to_string(7), "7");
    assert_eq!(u64_to_string(10), "10");
    assert_eq!(u64_to_string(12345), "12345");
    assert_eq!(u64_to_string(u64::MAX), "18446744073709551615");
}

#[test]
fn padding() {
    assert_eq!(right_align("7", 2), " 7");
    assert_eq!(right_align("10", 2), "10");
    assert_eq!(right_align("123", 2), "123");
    assert_eq!(right_align("8", 8), "       8");
    assert_eq!(center("ab", 5), " ab  ");
    assert_eq!(center("abcde", 3), "abcde");
}

#[test]
fn verbosity_from_var() {
    assert_eq!(Verbosity::from_var(None, None), Verbosity::Minimal);
    assert_eq!(Verbosity::from_var(None, Some("0".to_string())), Verbosity::Minimal);
    assert_eq!(Verbosity::from_var(None, Some("1".to_string())), Verbosity::Medium);
    assert_eq!(Verbosity::from_var(None, Some("full".to_string())), Verbosity::Full);
    // the library-specific variable takes precedence
    assert_eq!(
        Verbosity::from_var(Some("0".to_string()), Some("full".to_string())),
        Verbosity::Minimal
    );
    assert_eq!(Verbosity::from_var(Some("full".to_string()), None), Verbosity::Full);
}

#[test]
fn color_bt_from_var() {
    assert_eq!(ColorBt::from_var(None), ColorBt::Hide);
    assert_eq!(ColorBt::from_var(Some("0".to_string())), ColorBt::Hide);
    assert_eq!(ColorBt::from_var(Some("1".to_string())), ColorBt::Show);
}

#[test]
fn hint_matrix_full_show() {
    assert_eq!(BacktraceOmitted.render(Verbosity::Full, ColorBt::Show), "");
}

#[test]
fn hint_matrix_full_hide() {
    assert_eq!(
        BacktraceOmitted.render(Verbosity::Full, ColorBt::Hide),
        "\n\nRun with COLORBT_SHOW_HIDDEN=1 environment variable to disable frame filtering."
    );
}

#[test]
fn hint_matrix_medium_show() {
    assert_eq!(
        BacktraceOmitted.render(Verbosity::Medium, ColorBt::Show),
        "\n\nRun with RUST_BACKTRACE=full to include source snippets."
    );
}

#[test]
fn hint_matrix_medium_hide() {
    assert_eq!(
        BacktraceOmitted.render(Verbosity::Medium, ColorBt::Hide),
        "\n\nRun with COLORBT_SHOW_HIDDEN=1 environment variable to disable frame filtering.\nRun with RUST_BACKTRACE=full to include source snippets."
    );
}

#[test]
fn hint_matrix_minimal() {
    let expected = "\n\nBacktrace omitted. Run with RUST_BACKTRACE=1 environment variable to display it.\nRun with RUST_BACKTRACE=full to include source snippets.";
    assert_eq!(BacktraceOmitted.render(Verbosity::Minimal, ColorBt::Hide), expected);
    assert_eq!(BacktraceOmitted.render(Verbosity::Minimal, ColorBt::Show), expected);
}
