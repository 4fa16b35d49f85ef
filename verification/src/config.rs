//! Process-wide rendering configuration: how much diagnostic detail to show
//! (`Verbosity`) and whether filtered frames are shown anyway (`ColorBt`),
//! together with the trailing hint lines the long report ends with.
//!
//! Both settings are resolved once, from environment variables, at process
//! start; the resolution from the variables' values is verified here, while
//! reading the environment itself is the embedding program's concern.

use vstd::prelude::*;

verus! {

use crate::text::str_eq;
use vstd::string::StringExecFns;

/// How much diagnostic detail the long rendering includes.
#[derive(Debug, Clone, Copy, PartialEq, Eq, PartialOrd, Ord)]
pub enum Verbosity {
    Minimal,
    Medium,
    Full,
}

/// Whether frames outside the interesting range are shown anyway.
#[derive(Debug, Clone, Copy, PartialEq, Eq)]
pub enum ColorBt {
    Show,
    Hide,
}

/// The view of an optional owned string.
pub open spec fn opt_view(o: Option<String>) -> Option<Seq<char>> {
    match o {
        Option::Some(s) => Option::Some(s@),
        Option::None => Option::None,
    }
}

/// The verbosity a variable's value resolves to: unset or `0` means
/// `Minimal`, `full` means `Full`, anything else means `Medium`.
pub open spec fn verbosity_of(setting: Option<Seq<char>>) -> Verbosity {
    match setting {
        Option::Some(s) => if s == "full"@ {
            Verbosity::Full
        } else if s != "0"@ {
            Verbosity::Medium
        } else {
            Verbosity::Minimal
        },
        Option::None => Verbosity::Minimal,
    }
}

/// The show/hide mode a variable's value resolves to: unset or `0` means
/// `Hide`, anything else means `Show`.
pub open spec fn color_bt_of(setting: Option<Seq<char>>) -> ColorBt {
    match setting {
        Option::Some(s) => if s != "0"@ {
            ColorBt::Show
        } else {
            ColorBt::Hide
        },
        Option::None => ColorBt::Hide,
    }
}

impl Verbosity {
    /// How far up the `Minimal < Medium < Full` order this verbosity stands.
    pub open spec fn rank(self) -> nat {
        match self {
            Verbosity::Minimal => 0,
            Verbosity::Medium => 1,
            Verbosity::Full => 2,
        }
    }

    /// True when this verbosity is `other` or more detailed.
    pub fn at_least(self, other: Verbosity) -> (r: bool)
        ensures
            r == (self.rank() >= other.rank()),
    {
        let a: u8 = match self {
            Verbosity::Minimal => 0,
            Verbosity::Medium => 1,
            Verbosity::Full => 2,
        };
        let b: u8 = match other {
            Verbosity::Minimal => 0,
            Verbosity::Medium => 1,
            Verbosity::Full => 2,
        };
        a >= b
    }

    /// Resolves the verbosity from the values of the library-specific
    /// variable and the general one; the library-specific value, when set,
    /// takes precedence.
    pub fn from_var(lib_var: Option<String>, var: Option<String>) -> (r: Verbosity)
        ensures
            lib_var is Some ==> r == verbosity_of(opt_view(lib_var)),
            lib_var is None ==> r == verbosity_of(opt_view(var)),
    {
        let setting = match lib_var {
            Option::Some(s) => Option::Some(s),
            Option::None => var,
        };
        match setting {
            Option::Some(s) => {
                if str_eq(s.as_str(), "full") {
                    Verbosity::Full
                } else if !str_eq(s.as_str(), "0") {
                    Verbosity::Medium
                } else {
                    Verbosity::Minimal
                }
            },
            Option::None => Verbosity::Minimal,
        }
    }
}

impl ColorBt {
    /// True when this mode is `Hide`.
    pub fn is_hide(self) -> (r: bool)
        ensures
            r == (self == ColorBt::Hide),
    {
        match self {
            ColorBt::Hide => true,
            ColorBt::Show => false,
        }
    }

    /// Resolves the show/hide mode from the value of its variable.
    pub fn from_var(var: Option<String>) -> (r: ColorBt)
        ensures
            r == color_bt_of(opt_view(var)),
    {
        match var {
            Option::Some(s) => {
                if !str_eq(s.as_str(), "0") {
                    ColorBt::Show
                } else {
                    ColorBt::Hide
                }
            },
            Option::None => ColorBt::Hide,
        }
    }
}

/// The hint that names the variable which disables frame filtering.
pub open spec fn filtering_hint_view() -> Seq<char> {
    "Run with COLORBT_SHOW_HIDDEN=1 environment variable to disable frame filtering."@
}

/// The hint that names the variable which enables source snippets.
pub open spec fn snippet_hint_view() -> Seq<char> {
    "Run with RUST_BACKTRACE=full to include source snippets."@
}

/// The hint shown when the backtrace was left out altogether.
pub open spec fn omitted_hint_view() -> Seq<char> {
    "Backtrace omitted. Run with RUST_BACKTRACE=1 environment variable to display it."@
}

/// The trailing hint text of the long rendering, for each combination of
/// verbosity and show/hide mode.
pub open spec fn hint_view(v: Verbosity, c: ColorBt) -> Seq<char> {
    match (v, c) {
        (Verbosity::Full, ColorBt::Show) => Seq::empty(),
        (Verbosity::Full, ColorBt::Hide) => "\n\n"@ + filtering_hint_view(),
        (Verbosity::Medium, ColorBt::Show) => "\n\n"@ + snippet_hint_view(),
        (Verbosity::Medium, ColorBt::Hide) => "\n\n"@ + filtering_hint_view() + "\n"@
            + snippet_hint_view(),
        (Verbosity::Minimal, _) => "\n\n"@ + omitted_hint_view() + "\n"@ + snippet_hint_view(),
    }
}

/// The note a long report ends with when a trace field is declared: guidance
/// on the environment variables that would have shown more.
pub struct BacktraceOmitted;

impl BacktraceOmitted {
    /// Renders the trailing hint for the given configuration, exactly as the
    /// hint matrix gives it.
    pub fn render(&self, v: Verbosity, c: ColorBt) -> (r: String)
        ensures
            r@ == hint_view(v, c),
    {
        match (v, c) {
            (Verbosity::Full, ColorBt::Show) => String::new(),
            (Verbosity::Full, ColorBt::Hide) => {
                let mut r = String::from_str("\n\n");
                r.append(
                    "Run with COLORBT_SHOW_HIDDEN=1 environment variable to disable frame filtering.",
                );
                r
            },
            (Verbosity::Medium, ColorBt::Show) => {
                let mut r = String::from_str("\n\n");
                r.append("Run with RUST_BACKTRACE=full to include source snippets.");
                r
            },
            (Verbosity::Medium, ColorBt::Hide) => {
                let mut r = String::from_str("\n\n");
                r.append(
                    "Run with COLORBT_SHOW_HIDDEN=1 environment variable to disable frame filtering.",
                );
                r.append("\n");
                r.append("Run with RUST_BACKTRACE=full to include source snippets.");
                r
            },
            (Verbosity::Minimal, _) => {
                let mut r = String::from_str("\n\n");
                r.append(
                    "Backtrace omitted. Run with RUST_BACKTRACE=1 environment variable to display it.",
                );
                r.append("\n");
                r.append("Run with RUST_BACKTRACE=full to include source snippets.");
                r
            },
        }
    }
}

} // verus!
