//! Frame capture: snapshots the current call stack through the `backtrace`
//! crate and converts it into the library's own plain frames, numbered from 1
//! in capture order.

use vstd::prelude::*;

verus! {

use crate::config::ColorBt;
use crate::config::Verbosity;
use crate::frame::Frame;
use crate::render::render_frames;
use crate::render::render_view;

#[verifier::external_type_specification]
#[verifier::external_body]
pub struct ExBacktrace(backtrace::Backtrace);

/// One symbol record read off a captured stack, as plain values.
pub struct RawSymbol {
    pub name: Option<String>,
    pub file: Option<String>,
    pub line: Option<u32>,
}

/// Relies on backtrace::Backtrace::new: captures the current call stack and
/// eagerly resolves its symbols. The result depends on the live call stack,
/// so nothing is promised of it.
#[verifier::external_body]
pub(crate) fn capture_resolved() -> backtrace::Backtrace {
    backtrace::Backtrace::new()
}

/// Relies on backtrace::Backtrace::new_unresolved: captures the current call
/// stack as addresses only, leaving symbol resolution for later. The result
/// depends on the live call stack, so nothing is promised of it.
#[verifier::external_body]
fn capture_unresolved() -> backtrace::Backtrace {
    backtrace::Backtrace::new_unresolved()
}

/// Relies on backtrace::Backtrace::frames, BacktraceFrame::symbols and the
/// BacktraceSymbol accessors name, filename and lineno: lists one plain
/// record per resolved symbol, innermost frame first. The contents depend on
/// the captured stack and the symbol tables at hand, so nothing is promised
/// of them.
#[verifier::external_body]
fn resolved_symbols(bt: &backtrace::Backtrace) -> (r: Vec<RawSymbol>) {
    let mut out = Vec::new();
    for frame in bt.frames() {
        for sym in frame.symbols() {
            out.push(
                RawSymbol {
                    name: sym.name().map(|n| n.to_string()),
                    file: sym.filename().map(|p| p.to_string_lossy().into_owned()),
                    line: sym.lineno(),
                },
            );
        }
    }
    out
}

/// Captures the current call stack: resolved eagerly when the verbosity asks
/// for at least a medium report — resolution is the expensive part of
/// capture — and lazily otherwise.
pub fn trace(verbosity: Verbosity) -> backtrace::Backtrace {
    if verbosity.at_least(Verbosity::Medium) {
        capture_resolved()
    } else {
        capture_unresolved()
    }
}

/// Numbers the symbol records into frames: one frame per record, in the
/// records' order, carrying the record's name, file and line unchanged, with
/// `n` the 1-based position. The list is capped three short of the index
/// type's top so that every later range bound has room.
pub fn number_frames(raw: &Vec<RawSymbol>) -> (r: Vec<Frame>)
    ensures
        r@.len() == (if raw@.len() <= usize::MAX - 3 {
            raw@.len() as int
        } else {
            (usize::MAX - 3) as int
        }),
        forall|i: int|
            0 <= i < r@.len() ==> (#[trigger] r@[i]).n == i + 1 && r@[i].name == raw@[i].name
                && r@[i].file == raw@[i].file && r@[i].line == raw@[i].line,
{
    let cap = usize::MAX - 3;
    let take = if raw.len() < cap {
        raw.len()
    } else {
        cap
    };
    let mut out: Vec<Frame> = Vec::new();
    let mut i: usize = 0;
    while i < take
        invariant
            i <= take,
            take <= raw@.len(),
            take as int == (if raw@.len() <= usize::MAX - 3 {
                raw@.len() as int
            } else {
                (usize::MAX - 3) as int
            }),
            out@.len() == i,
            forall|j: int|
                0 <= j < i ==> (#[trigger] out@[j]).n == j + 1 && out@[j].name == raw@[j].name
                    && out@[j].file == raw@[j].file && out@[j].line == raw@[j].line,
        decreases take - i,
    {
        let s = &raw[i];
        out.push(Frame { n: i + 1, name: s.name.clone(), line: s.line, file: s.file.clone() });
        i += 1;
    }
    out
}

/// A captured call stack on its way to the pretty report.
pub struct PrettyBacktrace<'a>(pub &'a backtrace::Backtrace);

impl<'a> PrettyBacktrace<'a> {
    /// Converts the captured stack into plain frames, numbered from 1 in
    /// capture order, innermost first: whatever symbol records the stack
    /// resolves to, the frames copy them field by field.
    pub fn frames(&self) -> (r: Vec<Frame>)
        ensures
            r@.len() <= usize::MAX - 3,
            forall|i: int| 0 <= i < r@.len() ==> (#[trigger] r@[i]).n == i + 1,
    {
        let raw = resolved_symbols(self.0);
        number_frames(&raw)
    }

    /// Renders the captured stack as the pretty report: some frame list is
    /// read off the stack, and the report is its exact rendering.
    pub fn render(&self, v: Verbosity, c: ColorBt, snippets: &Vec<Option<String>>) -> (r: String)
        ensures
            exists|frames: Seq<Frame>| r@ == render_view(frames, snippets@, v, c),
    {
        let frames = self.frames();
        render_frames(&frames, snippets, v, c)
    }
}

} // verus!
