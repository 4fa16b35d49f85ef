//! One entry of a captured call stack, and the pure predicates that sort
//! frames into envelope-internal machinery, language-runtime bootstrap code,
//! and third-party/dependency code.

use vstd::prelude::*;

verus! {

use crate::text::contains_seq;
use crate::text::contains_sub;
use crate::text::starts_with;
use crate::text::str_eq;

/// One captured stack frame. `n` is its 1-based position in capture order
/// (1 = innermost); the symbol name, source file and line stay `None` where
/// resolution could not supply them.
pub struct Frame {
    pub n: usize,
    pub name: Option<String>,
    pub line: Option<u32>,
    pub file: Option<String>,
}

impl Clone for Frame {
    fn clone(&self) -> (r: Frame)
        ensures
            r == *self,
    {
        Frame { n: self.n, name: self.name.clone(), line: self.line, file: self.file.clone() }
    }
}

/// True when the frame belongs to this library's own capture and conversion
/// machinery: its symbol name starts with the library's namespace prefix.
pub open spec fn spec_is_mayerror_code(f: Frame) -> bool {
    match f.name {
        Option::Some(name) => "mayerror"@.is_prefix_of(name@),
        Option::None => false,
    }
}

/// True when the frame belongs to language-runtime or test-harness bootstrap
/// code: its symbol name starts with one of the runtime entry-point prefixes,
/// or it is the anonymous-closure marker inside the test harness source.
pub open spec fn spec_is_runtime_init_code(f: Frame) -> bool {
    match f.name {
        Option::Some(name) => "std::rt::lang_start::"@.is_prefix_of(name@)
            || "test::run_test::run_test_inner::"@.is_prefix_of(name@)
            || "std::sys_common::backtrace::__rust_begin_short_backtrace"@.is_prefix_of(name@)
            || "std::sys::backtrace::__rust_begin_short_backtrace"@.is_prefix_of(name@) || (
        match f.file {
            Option::Some(file) => name@ == "{{closure}}"@ && file@ == "src/libtest/lib.rs"@,
            Option::None => false,
        }),
        Option::None => false,
    }
}

/// True when the frame's symbol name marks standard-library or runtime-support
/// code.
pub open spec fn spec_dependency_name(name: Seq<char>) -> bool {
    "std::"@.is_prefix_of(name) || "core::"@.is_prefix_of(name)
        || "backtrace::backtrace::"@.is_prefix_of(name) || "_rust_begin_unwind"@.is_prefix_of(name)
        || "color_traceback::"@.is_prefix_of(name) || "__rust_"@.is_prefix_of(name)
        || "___rust_"@.is_prefix_of(name) || "__pthread"@.is_prefix_of(name)
        || "_main"@.is_prefix_of(name) || "main"@.is_prefix_of(name)
        || "__scrt_common_main_seh"@.is_prefix_of(name) || "BaseThreadInitThunk"@.is_prefix_of(name)
        || "_start"@.is_prefix_of(name) || "__libc_start_main"@.is_prefix_of(name)
        || "start_thread"@.is_prefix_of(name)
}

/// True when the frame's source file marks standard-library sources or the
/// package cache.
pub open spec fn spec_dependency_file(file: Seq<char>) -> bool {
    "/rustc/"@.is_prefix_of(file) || "src/libstd/"@.is_prefix_of(file)
        || "src/libpanic_unwind/"@.is_prefix_of(file) || "src/libtest/"@.is_prefix_of(file)
        || contains_seq(file, "/.cargo/registry/src/"@)
}

/// True when the frame belongs to third-party or runtime-support code rather
/// than the user's own, judged by symbol-name and file-path prefixes.
pub open spec fn spec_is_dependency_code(f: Frame) -> bool {
    (match f.name {
        Option::Some(name) => spec_dependency_name(name@),
        Option::None => false,
    }) || (match f.file {
        Option::Some(file) => spec_dependency_file(file@),
        Option::None => false,
    })
}

impl Frame {
    /// Classifies this frame as envelope-internal machinery.
    pub fn is_mayerror_code(&self) -> (r: bool)
        ensures
            r == spec_is_mayerror_code(*self),
    {
        match &self.name {
            Option::Some(name) => starts_with(name.as_str(), "mayerror"),
            Option::None => false,
        }
    }

    /// Classifies this frame as language-runtime startup code.
    pub fn is_runtime_init_code(&self) -> (r: bool)
        ensures
            r == spec_is_runtime_init_code(*self),
    {
        match &self.name {
            Option::Some(name) => {
                let n = name.as_str();
                if starts_with(n, "std::rt::lang_start::") || starts_with(
                    n,
                    "test::run_test::run_test_inner::",
                ) || starts_with(n, "std::sys_common::backtrace::__rust_begin_short_backtrace")
                    || starts_with(n, "std::sys::backtrace::__rust_begin_short_backtrace") {
                    true
                } else {
                    match &self.file {
                        Option::Some(file) => str_eq(n, "{{closure}}") && str_eq(
                            file.as_str(),
                            "src/libtest/lib.rs",
                        ),
                        Option::None => false,
                    }
                }
            },
            Option::None => false,
        }
    }

    /// Classifies this frame as third-party/dependency code.
    pub fn is_dependency_code(&self) -> (r: bool)
        ensures
            r == spec_is_dependency_code(*self),
    {
        let by_name = match &self.name {
            Option::Some(name) => {
                let n = name.as_str();
                starts_with(n, "std::") || starts_with(n, "core::") || starts_with(
                    n,
                    "backtrace::backtrace::",
                ) || starts_with(n, "_rust_begin_unwind") || starts_with(n, "color_traceback::")
                    || starts_with(n, "__rust_") || starts_with(n, "___rust_") || starts_with(
                    n,
                    "__pthread",
                ) || starts_with(n, "_main") || starts_with(n, "main") || starts_with(
                    n,
                    "__scrt_common_main_seh",
                ) || starts_with(n, "BaseThreadInitThunk") || starts_with(n, "_start")
                    || starts_with(n, "__libc_start_main") || starts_with(n, "start_thread")
            },
            Option::None => false,
        };
        if by_name {
            return true;
        }
        match &self.file {
            Option::Some(file) => {
                let fp = file.as_str();
                starts_with(fp, "/rustc/") || starts_with(fp, "src/libstd/") || starts_with(
                    fp,
                    "src/libpanic_unwind/",
                ) || starts_with(fp, "src/libtest/") || contains_sub(fp, "/.cargo/registry/src/")
            },
            Option::None => false,
        }
    }
}

} // verus!
