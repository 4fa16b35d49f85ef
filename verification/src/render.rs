//! The pretty renderer: turns a captured frame list into the formatted,
//! color-coded report, collapsing runs of dropped frames into hidden-frame
//! markers and appending source snippets under the highest verbosity.

use vstd::prelude::*;

verus! {

use crate::config::ColorBt;
use crate::config::Verbosity;
use crate::filter::filter_range;
use crate::filter::spec_end;
use crate::filter::spec_start;
use crate::frame::Frame;
use crate::frame::spec_is_dependency_code;
use crate::style::bold_view;
use crate::style::cyan_view;
use crate::style::green_view;
use crate::style::magenta_view;
use crate::style::paint_bold;
use crate::style::paint_cyan;
use crate::style::paint_green;
use crate::style::paint_magenta;
use crate::style::paint_red;
use crate::style::red_view;
use crate::text::center;
use crate::text::center_view;
use crate::text::dec_view;
use crate::text::right_align;
use crate::text::right_align_view;
use crate::text::u64_to_string;
use vstd::string::StringExecFns;

/// The shown symbol name of a frame: its name, or a placeholder.
pub open spec fn frame_name_view(f: Frame) -> Seq<char> {
    match f.name {
        Option::Some(n) => n@,
        Option::None => "<unknown>"@,
    }
}

/// The shown source file of a frame: its file, or a placeholder.
pub open spec fn frame_file_view(f: Frame) -> Seq<char> {
    match f.file {
        Option::Some(p) => p@,
        Option::None => "<unknown source file>"@,
    }
}

/// The shown line number of a frame: its decimal rendering, or a placeholder.
pub open spec fn frame_lineno_view(f: Frame) -> Seq<char> {
    match f.line {
        Option::Some(l) => dec_view(l as nat),
        Option::None => "<unknown line number>"@,
    }
}

/// One frame's report entry: the index right-aligned to width 2, the symbol
/// name in green for dependency code or red for the user's own, then the
/// file and line in magenta, then — under full verbosity — the source
/// snippet, when one was supplied.
#[verifier::opaque]
pub open spec fn frame_entry_view(f: Frame, v: Verbosity, snippet: Option<Seq<char>>) -> Seq<
    char,
> {
    right_align_view(dec_view(f.n as nat), 2) + ": "@ + (if spec_is_dependency_code(f) {
        green_view(frame_name_view(f))
    } else {
        red_view(frame_name_view(f))
    }) + "\n"@ + "    at "@ + magenta_view(frame_file_view(f)) + ":"@ + magenta_view(
        frame_lineno_view(f),
    ) + (if v == Verbosity::Full {
        match snippet {
            Option::Some(s) => s,
            Option::None => Seq::empty(),
        }
    } else {
        Seq::empty()
    })
}

/// The marker standing in for `amt` dropped frames: centered in a field of 80
/// characters and colored cyan.
#[verifier::opaque]
pub open spec fn hidden_marker_view(amt: nat) -> Seq<char> {
    cyan_view(
        center_view(
            "\u{22ee} "@ + dec_view(amt) + (if amt == 1 {
                " frame hidden \u{22ee}"@
            } else {
                " frames hidden \u{22ee}"@
            }),
            80,
        ),
    )
}

/// Renders the marker standing in for `amt` hidden frames.
pub fn print_hidden(amt: usize) -> (r: String)
    ensures
        r@ == hidden_marker_view(amt as nat),
{
    proof {
        reveal(hidden_marker_view);
    }
    let mut s = String::from_str("\u{22ee} ");
    let num = u64_to_string(amt as u64);
    s.append(num.as_str());
    if amt == 1 {
        s.append(" frame hidden \u{22ee}");
    } else {
        s.append(" frames hidden \u{22ee}");
    }
    let centered = center(s.as_str(), 80);
    paint_cyan(centered.as_str())
}

/// Renders one frame's report entry.
pub fn render_frame(f: &Frame, v: Verbosity, snippet: Option<&String>) -> (r: String)
    ensures
        r@ == frame_entry_view(
            *f,
            v,
            match snippet {
                Option::Some(s) => Option::Some(s@),
                Option::None => Option::None,
            },
        ),
{
    proof {
        reveal(frame_entry_view);
    }
    let num = u64_to_string(f.n as u64);
    let mut out = right_align(num.as_str(), 2);
    out.append(": ");
    let name_str: &str = match &f.name {
        Option::Some(n) => n.as_str(),
        Option::None => "<unknown>",
    };
    let colored = if f.is_dependency_code() {
        paint_green(name_str)
    } else {
        paint_red(name_str)
    };
    out.append(colored.as_str());
    out.append("\n");
    out.append("    at ");
    let file_str: &str = match &f.file {
        Option::Some(p) => p.as_str(),
        Option::None => "<unknown source file>",
    };
    let file_colored = paint_magenta(file_str);
    out.append(file_colored.as_str());
    out.append(":");
    let line_string: String = match f.line {
        Option::Some(l) => u64_to_string(l as u64),
        Option::None => String::from_str("<unknown line number>"),
    };
    let line_colored = paint_magenta(line_string.as_str());
    out.append(line_colored.as_str());
    let full = match v {
        Verbosity::Full => true,
        _ => false,
    };
    if full {
        match snippet {
            Option::Some(s) => out.append(s.as_str()),
            Option::None => (),
        }
    }
    out
}

/// One snippet line: its number right-aligned to width 8; the failing line
/// highlighted in bold with a `>` marker, context lines plain with a `|`.
pub open spec fn snippet_line_view(no: nat, text: Seq<char>, highlight: bool) -> Seq<char> {
    if highlight {
        "\n"@ + bold_view(right_align_view(dec_view(no), 8)) + " "@ + bold_view(">"@) + " "@
            + bold_view(text)
    } else {
        "\n"@ + right_align_view(dec_view(no), 8) + " | "@ + text
    }
}

pub open spec fn snippet_lines_view(lines: Seq<String>, i: int, end: int, lineno: nat) -> Seq<char>
    decreases end - i,
{
    if i < 0 || i >= end || i >= lines.len() {
        Seq::empty()
    } else {
        snippet_line_view((i + 1) as nat, lines[i]@, i + 1 == lineno) + snippet_lines_view(
            lines,
            i + 1,
            end,
            lineno,
        )
    }
}

/// The window of five lines starting three above line `lineno` (clipped at
/// the file's ends), the line itself highlighted.
pub open spec fn snippet_view(lines: Seq<String>, lineno: nat) -> Seq<char> {
    let start: int = if lineno >= 4 {
        lineno - 4
    } else {
        0
    };
    snippet_lines_view(lines, start, start + 5, lineno)
}

/// Renders the window of source lines around line `lineno` of a file whose
/// lines are given 1-indexed (`lines[0]` is line 1).
pub fn snippet_block(lines: &Vec<String>, lineno: u32) -> (r: String)
    ensures
        r@ == snippet_view(lines@, lineno as nat),
{
    let start: usize = if lineno >= 4 {
        (lineno - 4) as usize
    } else {
        0
    };
    let ghost end: int = start + 5;
    let mut out = String::new();
    let mut i: usize = start;
    proof {
        assert(out@ + snippet_lines_view(lines@, i as int, end, lineno as nat)
            =~= snippet_lines_view(lines@, start as int, end, lineno as nat));
    }
    while i < lines.len() && i - start < 5
        invariant
            start <= i,
            i - start <= 5,
            end == start + 5,
            out@ + snippet_lines_view(lines@, i as int, end, lineno as nat) =~= snippet_lines_view(
                lines@,
                start as int,
                end,
                lineno as nat,
            ),
        decreases lines@.len() - i,
    {
        let ghost out_before = out@;
        let no_str = u64_to_string((i + 1) as u64);
        let padded = right_align(no_str.as_str(), 8);
        let line = &lines[i];
        let highlight = i + 1 == (lineno as usize);
        out.append("\n");
        if highlight {
            let b1 = paint_bold(padded.as_str());
            out.append(b1.as_str());
            out.append(" ");
            let b2 = paint_bold(">");
            out.append(b2.as_str());
            out.append(" ");
            let b3 = paint_bold(line.as_str());
            out.append(b3.as_str());
        } else {
            out.append(padded.as_str());
            out.append(" | ");
            out.append(line.as_str());
        }
        proof {
            assert(out@ =~= out_before + snippet_line_view(
                (i + 1) as nat,
                lines@[i as int]@,
                i + 1 == lineno as nat,
            ));
            assert(out@ + snippet_lines_view(lines@, i + 1, end, lineno as nat)
                =~= snippet_lines_view(lines@, start as int, end, lineno as nat));
        }
        i += 1;
    }
    proof {
        assert(snippet_lines_view(lines@, i as int, end, lineno as nat) =~= Seq::<char>::empty());
        assert(out@ =~= snippet_lines_view(lines@, start as int, end, lineno as nat));
    }
    out
}

/// The snippet for a frame whose source file could, or could not, be read:
/// `lines` is the file's content where it was found, and a missing file is
/// tolerated silently — no lines, no snippet, no failure.
pub fn snippet(lines: Option<&Vec<String>>, lineno: u32) -> (r: Option<String>)
    ensures
        match lines {
            Option::Some(l) => r.is_some() && r.unwrap()@ == snippet_view(l@, lineno as nat),
            Option::None => r.is_none(),
        },
{
    match lines {
        Option::Some(l) => Option::Some(snippet_block(l, lineno)),
        Option::None => Option::None,
    }
}

/// The snippet text at position `i`, where one was supplied.
pub open spec fn snip_at(snips: Seq<Option<String>>, i: int) -> Option<Seq<char>> {
    if 0 <= i < snips.len() {
        match snips[i] {
            Option::Some(s) => Option::Some(s@),
            Option::None => Option::None,
        }
    } else {
        Option::None
    }
}

/// The marker emitted before a kept frame whose index jumps by more than one
/// past the previously printed frame.
pub open spec fn gap_view(n: int, last_printed: int) -> Seq<char> {
    if n - last_printed > 1 {
        "\n"@ + hidden_marker_view((n - last_printed - 1) as nat)
    } else {
        Seq::empty()
    }
}

/// The report entries of the frames of `frames` from position `i` on, keeping
/// a frame when its 1-based index lies in `[start, end)` — or every frame
/// when `keep_all` — with a hidden-frames marker wherever kept indices jump.
pub open spec fn entries_view(
    frames: Seq<Frame>,
    snips: Seq<Option<String>>,
    i: int,
    start: int,
    end: int,
    keep_all: bool,
    v: Verbosity,
    last_printed: int,
) -> Seq<char>
    decreases frames.len() - i,
{
    if i < 0 || i >= frames.len() {
        Seq::empty()
    } else {
        let f = frames[i];
        if keep_all || (start <= f.n < end) {
            gap_view(f.n as int, last_printed) + "\n"@ + frame_entry_view(f, v, snip_at(snips, i))
                + entries_view(frames, snips, i + 1, start, end, keep_all, v, f.n as int)
        } else {
            entries_view(frames, snips, i + 1, start, end, keep_all, v, last_printed)
        }
    }
}

/// True when at least one frame is kept.
pub open spec fn any_kept(frames: Seq<Frame>, start: int, end: int, keep_all: bool) -> bool {
    exists|i: int|
        #![trigger frames[i]]
        0 <= i < frames.len() && (keep_all || start <= frames[i].n < end)
}

/// The 1-based index of the last kept frame, or 0 when none is kept.
pub open spec fn last_kept_n(frames: Seq<Frame>, start: int, end: int, keep_all: bool) -> int
    decreases frames.len(),
{
    if frames.len() == 0 {
        0
    } else if keep_all || (start <= frames.last().n < end) {
        frames.last().n as int
    } else {
        last_kept_n(frames.drop_last(), start, end, keep_all)
    }
}

/// The trailing hidden-frames marker, emitted when frames beyond the last
/// kept one were dropped.
pub open spec fn trailing_view(frames: Seq<Frame>, start: int, end: int, keep_all: bool) -> Seq<
    char,
> {
    if frames.len() > 0 && last_kept_n(frames, start, end, keep_all) < frames.last().n {
        "\n"@ + hidden_marker_view(
            (frames.last().n - last_kept_n(frames, start, end, keep_all)) as nat,
        )
    } else {
        Seq::empty()
    }
}

/// The full report of a captured trace: under `Hide`, only the frames of the
/// kept range; under `Show`, every frame. Runs of dropped frames collapse
/// into hidden-frame markers; when nothing is kept, the report is exactly
/// `<empty backtrace>`.
pub open spec fn render_view(
    frames: Seq<Frame>,
    snips: Seq<Option<String>>,
    v: Verbosity,
    c: ColorBt,
) -> Seq<char> {
    let keep_all = (c == ColorBt::Show);
    let start = spec_start(frames);
    let end = spec_end(frames);
    if !any_kept(frames, start, end, keep_all) {
        "<empty backtrace>"@
    } else {
        entries_view(frames, snips, 0, start, end, keep_all, v, 0) + trailing_view(
            frames,
            start,
            end,
            keep_all,
        )
    }
}

/// Law: a trace with no frames at all, or one whose filtered range keeps
/// nothing, renders exactly `<empty backtrace>` and nothing else.
pub proof fn lemma_empty_render(
    frames: Seq<Frame>,
    snips: Seq<Option<String>>,
    v: Verbosity,
    c: ColorBt,
)
    requires
        frames.len() == 0 || !any_kept(frames, spec_start(frames), spec_end(frames), c
            == ColorBt::Show),
    ensures
        render_view(frames, snips, v, c) == "<empty backtrace>"@,
{
}

/// Law: kept frames numbered 1, 2, 5, 6 render as their four entries with
/// exactly one hidden-frames marker — counting the two dropped frames 3 and
/// 4 — between the entries of frames 2 and 5, and no trailing marker.
pub proof fn lemma_hidden_marker(
    frames: Seq<Frame>,
    snips: Seq<Option<String>>,
    v: Verbosity,
)
    requires
        frames.len() == 4,
        frames[0].n == 1,
        frames[1].n == 2,
        frames[2].n == 5,
        frames[3].n == 6,
    ensures
        render_view(frames, snips, v, ColorBt::Show) == "\n"@ + frame_entry_view(
            frames[0],
            v,
            snip_at(snips, 0),
        ) + "\n"@ + frame_entry_view(frames[1], v, snip_at(snips, 1)) + "\n"@ + hidden_marker_view(
            2,
        ) + "\n"@ + frame_entry_view(frames[2], v, snip_at(snips, 2)) + "\n"@ + frame_entry_view(
            frames[3],
            v,
            snip_at(snips, 3),
        ),
{
    let st = spec_start(frames);
    let en = spec_end(frames);
    assert(any_kept(frames, st, en, true)) by {
        assert(0 <= 0 < frames.len() && (true || st <= frames[0].n < en));
    }
    assert(frames.last() == frames[3]);
    assert(last_kept_n(frames, st, en, true) == 6);
    assert(trailing_view(frames, st, en, true) =~= Seq::<char>::empty());
    let e4 = entries_view(frames, snips, 4, st, en, true, v, 6);
    let e3 = entries_view(frames, snips, 3, st, en, true, v, 5);
    let e2 = entries_view(frames, snips, 2, st, en, true, v, 2);
    let e1 = entries_view(frames, snips, 1, st, en, true, v, 1);
    let e0 = entries_view(frames, snips, 0, st, en, true, v, 0);
    assert(e4 =~= Seq::<char>::empty());
    assert(gap_view(6, 5) =~= Seq::<char>::empty());
    assert(gap_view(1, 0) =~= Seq::<char>::empty());
    assert(gap_view(2, 1) =~= Seq::<char>::empty());
    assert(gap_view(5, 2) =~= "\n"@ + hidden_marker_view(2));
    assert(e3 =~= "\n"@ + frame_entry_view(frames[3], v, snip_at(snips, 3)));
    assert(e2 =~= "\n"@ + hidden_marker_view(2) + "\n"@ + frame_entry_view(
        frames[2],
        v,
        snip_at(snips, 2),
    ) + e3);
    assert(e1 =~= "\n"@ + frame_entry_view(frames[1], v, snip_at(snips, 1)) + e2);
    assert(e0 =~= "\n"@ + frame_entry_view(frames[0], v, snip_at(snips, 0)) + e1);
    assert(render_view(frames, snips, v, ColorBt::Show) =~= e0);
    assert(e0 =~= "\n"@ + frame_entry_view(frames[0], v, snip_at(snips, 0)) + "\n"@
        + frame_entry_view(frames[1], v, snip_at(snips, 1)) + "\n"@ + hidden_marker_view(2) + "\n"@
        + frame_entry_view(frames[2], v, snip_at(snips, 2)) + "\n"@ + frame_entry_view(
        frames[3],
        v,
        snip_at(snips, 3),
    ));
}

/// Renders the report for `frames`; `snippets` supplies, position by
/// position, the pre-read source snippet of each frame, where one exists.
#[verifier::rlimit(100)]
pub fn render_frames(
    frames: &Vec<Frame>,
    snippets: &Vec<Option<String>>,
    v: Verbosity,
    c: ColorBt,
) -> (r: String)
    requires
        frames@.len() <= usize::MAX - 3,
    ensures
        r@ == render_view(frames@, snippets@, v, c),
{
    let range = filter_range(frames);
    let keep_all = !c.is_hide();
    let ghost startg: int = range.start as int;
    let ghost endg: int = range.end as int;
    let mut out = String::new();
    let mut last_printed: usize = 0;
    let mut kept_any = false;
    let mut i: usize = 0;
    proof {
        assert(frames@.subrange(0, 0) =~= Seq::<Frame>::empty());
        assert(out@ + entries_view(frames@, snippets@, 0, startg, endg, keep_all, v, 0)
            =~= entries_view(frames@, snippets@, 0, startg, endg, keep_all, v, 0));
    }
    while i < frames.len()
        invariant
            i <= frames@.len(),
            frames@.len() <= usize::MAX - 3,
            startg == range.start,
            endg == range.end,
            range.start == spec_start(frames@),
            range.end == spec_end(frames@),
            keep_all == (c == ColorBt::Show),
            kept_any == any_kept(frames@.subrange(0, i as int), startg, endg, keep_all),
            last_printed as int == last_kept_n(
                frames@.subrange(0, i as int),
                startg,
                endg,
                keep_all,
            ),
            out@ + entries_view(
                frames@,
                snippets@,
                i as int,
                startg,
                endg,
                keep_all,
                v,
                last_printed as int,
            ) =~= entries_view(frames@, snippets@, 0, startg, endg, keep_all, v, 0),
        decreases frames@.len() - i,
    {
        let ghost out_before = out@;
        let ghost lp_before = last_printed as int;
        let f = &frames[i];
        let keep = keep_all || (range.start <= f.n && f.n < range.end);
        if keep {
            if f.n > last_printed && f.n - last_printed > 1 {
                out.append("\n");
                let marker = print_hidden(f.n - last_printed - 1);
                out.append(marker.as_str());
            }
            proof {
                assert(out@ =~= out_before + gap_view(f.n as int, lp_before));
            }
            out.append("\n");
            let snip: Option<&String> = if i < snippets.len() {
                match &snippets[i] {
                    Option::Some(s) => Option::Some(s),
                    Option::None => Option::None,
                }
            } else {
                Option::None
            };
            let entry = render_frame(f, v, snip);
            out.append(entry.as_str());
            proof {
                assert(out@ =~= out_before + (gap_view(f.n as int, lp_before) + "\n"@
                    + frame_entry_view(frames@[i as int], v, snip_at(snippets@, i as int))));
            }
            last_printed = f.n;
            kept_any = true;
        }
        proof {
            assert(frames@.subrange(0, i + 1).drop_last() =~= frames@.subrange(0, i as int));
            assert(frames@.subrange(0, i + 1).last() == frames@[i as int]);
            if kept_any && !any_kept(frames@.subrange(0, i + 1), startg, endg, keep_all) {
                assert(false);
            }
            assert(out@ + entries_view(
                frames@,
                snippets@,
                i + 1,
                startg,
                endg,
                keep_all,
                v,
                last_printed as int,
            ) =~= entries_view(frames@, snippets@, 0, startg, endg, keep_all, v, 0));
        }
        i += 1;
    }
    proof {
        assert(frames@.subrange(0, frames@.len() as int) =~= frames@);
        assert(entries_view(
            frames@,
            snippets@,
            frames@.len() as int,
            startg,
            endg,
            keep_all,
            v,
            last_printed as int,
        ) =~= Seq::<char>::empty());
        assert(out@ =~= entries_view(frames@, snippets@, 0, startg, endg, keep_all, v, 0));
    }
    if !kept_any {
        let r = String::from_str("<empty backtrace>");
        return r;
    }
    let last_n = frames[frames.len() - 1].n;
    if last_printed < last_n {
        out.append("\n");
        let marker = print_hidden(last_n - last_printed);
        out.append(marker.as_str());
    }
    out
}

} // verus!
