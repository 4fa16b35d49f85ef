use mayerror::ColorBt;
use mayerror::Frame;
use mayerror::Verbosity;
use mayerror::print_hidden;
use mayerror::render_frames;
use mayerror::snippet;
use mayerror::snippet_block;

const RED: &str = "\u{1b}[31m";
const GREEN: &str = "\u{1b}[32m";
const MAGENTA: &str = "\u{1b}[35m";
const CYAN: &str = "\u{1b}[36m";
const BOLD: &str = "\u{1b}[1m";
const FG_RESET: &str = "\u{1b}[39m";
const RESET: &str = "\u{1b}[0m";

fn frame(n: usize, name: &str, file: &str, line: u32) -> Frame {
    Frame { n, name: Some(name.to_string()), line: Some(line), file: Some(file.to_string()) }
}

fn own_entry(n: usize, name: &str, file: &str, line: u32) -> String {
    format!(
        "{:>2}: {RED}{name}{FG_RESET}\n    at {MAGENTA}{file}{FG_RESET}:{MAGENTA}{line}{FG_RESET}",
        n
    )
}

#[test]
fn hidden_marker_exact() {
    // "⋮ 2 frames hidden ⋮" is 19 characters; centering in 80 puts 30 spaces
    // left and 31 right, and the whole field is colored cyan
    let expected = format!(
        "{CYAN}{}\u{22ee} 2 frames hidden \u{22ee}{}{FG_RESET}",
        " ".repeat(30),
        " ".repeat(31)
    );
    assert_eq!(print_hidden(2), expected);

    let expected_one = format!(
        "{CYAN}{}\u{22ee} 1 frame hidden \u{22ee}{}{FG_RESET}",
        " ".repeat(31),
        " ".repeat(31)
    );
    assert_eq!(print_hidden(1), expected_one);
}

#[test]
fn empty_trace_renders_placeholder() {
    let frames: Vec<Frame> = vec![];
    let snips: Vec<Option<String>> = vec![];
    let out = render_frames(&frames, &snips, Verbosity::Medium, ColorBt::Hide);
    assert_eq!(out, "<empty backtrace>");
}

#[test]
fn fully_filtered_trace_renders_placeholder() {
    // a lone internal frame leaves an empty kept range under Hide
    let frames = vec![frame(1, "mayerror::from", "src/lib.rs", 3)];
    let snips: Vec<Option<String>> = vec![];
    let out = render_frames(&frames, &snips, Verbosity::Medium, ColorBt::Hide);
    assert_eq!(out, "<empty backtrace>");
}

#[test]
fn gap_renders_one_hidden_marker() {
    // kept frames numbered 1, 2, 5, 6: exactly one marker, for frames 3 and 4
    let frames = vec![
        frame(1, "my_app::a", "src/a.rs", 10),
        frame(2, "my_app::b", "src/b.rs", 20),
        frame(5, "my_app::c", "src/c.rs", 30),
        frame(6, "my_app::d", "src/d.rs", 40),
    ];
    let snips: Vec<Option<String>> = vec![];
    let out = render_frames(&frames, &snips, Verbosity::Medium, ColorBt::Show);
    let marker = format!(
        "{CYAN}{}\u{22ee} 2 frames hidden \u{22ee}{}{FG_RESET}",
        " ".repeat(30),
        " ".repeat(31)
    );
    let expected = format!(
        "\n{}\n{}\n{marker}\n{}\n{}",
        own_entry(1, "my_app::a", "src/a.rs", 10),
        own_entry(2, "my_app::b", "src/b.rs", 20),
        own_entry(5, "my_app::c", "src/c.rs", 30),
        own_entry(6, "my_app::d", "src/d.rs", 40),
    );
    assert_eq!(out, expected);
    assert_eq!(out.matches("frames hidden").count(), 1);
}

#[test]
fn trailing_hidden_marker() {
    // the runtime-start frame 3 and everything after it is dropped; the two
    // dropped frames show up as a trailing marker
    let frames = vec![
        frame(1, "my_app::a", "src/a.rs", 10),
        frame(3, "std::rt::lang_start::h1", "rt.rs", 1),
        frame(4, "start_shim", "rt.rs", 2),
    ];
    let snips: Vec<Option<String>> = vec![];
    let out = render_frames(&frames, &snips, Verbosity::Medium, ColorBt::Hide);
    let marker = format!(
        "{CYAN}{}\u{22ee} 3 frames hidden \u{22ee}{}{FG_RESET}",
        " ".repeat(30),
        " ".repeat(31)
    );
    let expected = format!("\n{}\n{marker}", own_entry(1, "my_app::a", "src/a.rs", 10));
    assert_eq!(out, expected);
}

#[test]
fn dependency_frames_are_green_and_placeholders_shown() {
    let frames = vec![
        frame(1, "std::io::read", "io.rs", 5),
        Frame { n: 2, name: None, line: None, file: None },
    ];
    let snips: Vec<Option<String>> = vec![];
    let out = render_frames(&frames, &snips, Verbosity::Medium, ColorBt::Show);
    let expected = format!(
        "\n 1: {GREEN}std::io::read{FG_RESET}\n    at {MAGENTA}io.rs{FG_RESET}:{MAGENTA}5{FG_RESET}\n 2: {RED}<unknown>{FG_RESET}\n    at {MAGENTA}<unknown source file>{FG_RESET}:{MAGENTA}<unknown line number>{FG_RESET}"
    );
    assert_eq!(out, expected);
}

#[test]
fn snippet_appended_under_full_verbosity() {
    let frames = vec![frame(1, "my_app::a", "src/a.rs", 10)];
    let snips = vec![Some("\nSNIPPET".to_string())];
    let full = render_frames(&frames, &snips, Verbosity::Full, ColorBt::Show);
    let medium = render_frames(&frames, &snips, Verbosity::Medium, ColorBt::Show);
    assert_eq!(full, format!("\n{}\nSNIPPET", own_entry(1, "my_app::a", "src/a.rs", 10)));
    assert_eq!(medium, format!("\n{}", own_entry(1, "my_app::a", "src/a.rs", 10)));
}

#[test]
fn snippet_window_around_line() {
    // the window covers lines 7 through 11: three before, the line, one after
    let lines: Vec<String> = (1..=12).map(|i| format!("line{i}")).collect();
    let out = snippet_block(&lines, 10);
    let expected = format!(
        "\n       7 | line7\n       8 | line8\n       9 | line9\n{BOLD}      10{RESET} {BOLD}>{RESET} {BOLD}line10{RESET}\n      11 | line11"
    );
    assert_eq!(out, expected);
}

#[test]
fn snippet_window_clipped_at_start() {
    let lines: Vec<String> = (1..=3).map(|i| format!("l{i}")).collect();
    let out = snippet_block(&lines, 1);
    let expected = format!(
        "\n{BOLD}       1{RESET} {BOLD}>{RESET} {BOLD}l1{RESET}\n       2 | l2\n       3 | l3"
    );
    assert_eq!(out, expected);
}

#[test]
fn snippet_window_past_the_end_is_empty() {
    let lines: Vec<String> = vec!["only".to_string()];
    assert_eq!(snippet_block(&lines, 10), "");
}

#[test]
fn snippet_of_a_missing_file_is_silently_none() {
    // an unreadable source file yields no snippet and no failure
    assert_eq!(snippet(None, 10), None);
    let lines: Vec<String> = vec!["fn main() {}".to_string()];
    assert!(snippet(Some(&lines), 1).is_some());
}
