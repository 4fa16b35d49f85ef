use mayerror::Frame;
use mayerror::filter_frames;
use mayerror::filter_range;

fn frame(n: usize, name: &str) -> Frame {
    Frame { n, name: Some(name.to_string()), line: Some(1), file: Some("src/lib.rs".to_string()) }
}

#[test]
fn classifier_internal() {
    assert!(frame(1, "mayerror::convert").is_mayerror_code());
    assert!(!frame(1, "my_app::run").is_mayerror_code());
    let nameless = Frame { n: 1, name: None, line: None, file: None };
    assert!(!nameless.is_mayerror_code());
}

#[test]
fn classifier_runtime_init() {
    assert!(frame(1, "std::rt::lang_start::h123").is_runtime_init_code());
    assert!(frame(1, "test::run_test::run_test_inner::inner").is_runtime_init_code());
    assert!(!frame(1, "my_app::main").is_runtime_init_code());
    let harness = Frame {
        n: 1,
        name: Some("{{closure}}".to_string()),
        line: Some(3),
        file: Some("src/libtest/lib.rs".to_string()),
    };
    assert!(harness.is_runtime_init_code());
    let elsewhere = Frame {
        n: 1,
        name: Some("{{closure}}".to_string()),
        line: Some(3),
        file: Some("src/main.rs".to_string()),
    };
    assert!(!elsewhere.is_runtime_init_code());
}

#[test]
fn classifier_dependency() {
    assert!(frame(1, "std::io::read").is_dependency_code());
    assert!(frame(1, "core::fmt::write").is_dependency_code());
    assert!(!frame(1, "my_app::parse").is_dependency_code());
    let cached = Frame {
        n: 1,
        name: Some("serde::de::visit".to_string()),
        line: Some(9),
        file: Some("/home/u/.cargo/registry/src/index/serde/src/de.rs".to_string()),
    };
    assert!(cached.is_dependency_code());
    let rustc_src = Frame {
        n: 1,
        name: Some("alloc_helper".to_string()),
        line: Some(9),
        file: Some("/rustc/abc123/library/alloc/src/vec.rs".to_string()),
    };
    assert!(rustc_src.is_dependency_code());
}

#[test]
fn clean_trace_keeps_everything() {
    let frames = vec![frame(1, "my_app::inner"), frame(2, "my_app::outer")];
    let r = filter_range(&frames);
    assert_eq!(r.start, 1);
    assert_eq!(r.end, usize::MAX);
}

#[test]
fn internal_frames_dominate() {
    // two internal frames at indices 1 and 2: start = 2 + 2
    let frames = vec![
        frame(1, "mayerror::from"),
        frame(2, "mayerror::construct"),
        frame(3, "my_app::fail"),
        frame(4, "my_app::main"),
    ];
    let r = filter_range(&frames);
    assert_eq!(r.start, 4);
    assert_eq!(r.end, usize::MAX);
}

#[test]
fn runtime_start_cuts_off() {
    // index 5 is a runtime-start frame: end = 5, excluding it and beyond
    let frames = vec![
        frame(1, "my_app::a"),
        frame(2, "my_app::b"),
        frame(3, "my_app::c"),
        frame(4, "my_app::d"),
        frame(5, "std::rt::lang_start::h1"),
        frame(6, "start_shim"),
    ];
    let r = filter_range(&frames);
    assert_eq!(r.start, 1);
    assert_eq!(r.end, 5);
}

#[test]
fn filter_frames_retains_the_range() {
    let mut frames = vec![
        frame(1, "mayerror::from"),
        frame(2, "mayerror::construct"),
        frame(3, "my_app::fail"),
        frame(4, "my_app::main"),
        frame(5, "std::rt::lang_start::h1"),
    ];
    filter_frames(&mut frames);
    assert_eq!(frames.len(), 1);
    assert_eq!(frames[0].n, 4);
    assert_eq!(frames[0].name.as_deref(), Some("my_app::main"));
}
