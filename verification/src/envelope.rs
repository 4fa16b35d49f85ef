//! The envelope: an error code plus the optional diagnostics captured at the
//! original failure site, with its construction protocol and its short and
//! long renderings, and the crash report the panic hook prints.

use vstd::prelude::*;

verus! {

use crate::capture::PrettyBacktrace;
use crate::capture::capture_resolved;
use crate::capture::trace;
use crate::chain::ErrorLike;
use crate::chain::cause_chain;
use crate::chain::msgs_of;
use crate::config::BacktraceOmitted;
use crate::config::ColorBt;
use crate::config::Verbosity;
use crate::config::hint_view;
use crate::spantrace::spantrace;
use crate::style::cyan_view;
use crate::style::magenta_view;
use crate::style::paint_cyan;
use crate::style::paint_magenta;
use crate::style::paint_red;
use crate::style::red_view;
use crate::text::dec_view;
use crate::text::right_align;
use crate::text::right_align_view;
use crate::text::u64_to_string;
use vstd::string::StringExecFns;

/// A source location: the file, line and column of a conversion call site.
#[derive(Debug, PartialEq, Eq)]
pub struct SourceLocation {
    pub file: String,
    pub line: u32,
    pub column: u32,
}

impl Clone for SourceLocation {
    fn clone(&self) -> (r: SourceLocation)
        ensures
            r == *self,
    {
        SourceLocation { file: self.file.clone(), line: self.line, column: self.column }
    }
}

/// The rendering of a location: `file:line:column`.
pub open spec fn location_view(l: SourceLocation) -> Seq<char> {
    l.file@ + ":"@ + dec_view(l.line as nat) + ":"@ + dec_view(l.column as nat)
}

/// Renders a location as `file:line:column`.
pub fn render_location(l: &SourceLocation) -> (r: String)
    ensures
        r@ == location_view(*l),
{
    let mut out = l.file.clone();
    out.append(":");
    let line = u64_to_string(l.line as u64);
    out.append(line.as_str());
    out.append(":");
    let column = u64_to_string(l.column as u64);
    out.append(column.as_str());
    out
}

/// Which optional diagnostic fields an envelope type declares. The mandatory
/// code field is always present; each declared diagnostic is captured once,
/// at construction.
#[derive(Debug, Clone, Copy, PartialEq, Eq, Structural)]
pub struct Schema {
    pub has_location: bool,
    pub has_trace: bool,
    pub has_span_trace: bool,
}

/// An error code together with the optional diagnostics captured at the
/// failure site that produced it. Immutable after construction: the
/// diagnostics reflect the original failure, not any later rewrap.
pub struct Envelope<C> {
    pub code: C,
    pub location: Option<SourceLocation>,
    pub trace: Option<backtrace::Backtrace>,
    pub span_trace: Option<tracing_error::SpanTrace>,
}

/// Builds an envelope around `code`, capturing each declared diagnostic at
/// this conversion, exactly once: the caller's own location (handed in by
/// the call site), a stack trace (resolved eagerly from medium verbosity
/// up), and the ambient span context. Construction cannot fail.
pub fn construct<C: ErrorLike>(
    code: C,
    schema: Schema,
    caller: SourceLocation,
    verbosity: Verbosity,
) -> (e: Envelope<C>)
    ensures
        e.code == code,
        e.location == (if schema.has_location {
            Option::Some(caller)
        } else {
            Option::<SourceLocation>::None
        }),
        e.trace.is_some() <==> schema.has_trace,
        e.span_trace.is_some() <==> schema.has_span_trace,
{
    let location = if schema.has_location {
        Option::Some(caller)
    } else {
        Option::None
    };
    let captured_trace = if schema.has_trace {
        Option::Some(trace(verbosity))
    } else {
        Option::None
    };
    let captured_span = if schema.has_span_trace {
        Option::Some(spantrace())
    } else {
        Option::None
    };
    Envelope { code, location, trace: captured_trace, span_trace: captured_span }
}

/// Law: an explicit, field-by-field conversion of an envelope into another
/// envelope type keeps every diagnostic captured at the original failure
/// site — only the code value is mapped, and nothing is re-captured.
pub fn rewrap<C: ErrorLike, D: ErrorLike>(env: Envelope<C>, code: D) -> (e: Envelope<D>)
    ensures
        e.code == code,
        e.location == env.location,
        e.trace == env.trace,
        e.span_trace == env.span_trace,
{
    Envelope { code, location: env.location, trace: env.trace, span_trace: env.span_trace }
}

/// The short form: the code's message, and ` @ file:line:column` when a
/// location was captured.
pub open spec fn display_view(msg: Seq<char>, loc: Option<SourceLocation>) -> Seq<char> {
    match loc {
        Option::Some(l) => msg + " @ "@ + location_view(l),
        Option::None => msg,
    }
}

/// The `Source:` section's entries: each cause with its 0-based index
/// right-aligned to width 4 and its message in magenta.
pub open spec fn sources_view(causes: Seq<Seq<char>>, idx: int) -> Seq<char>
    decreases causes.len(),
{
    if causes.len() == 0 || idx < 0 {
        Seq::empty()
    } else {
        "\n"@ + right_align_view(dec_view(idx as nat), 4) + ": "@ + magenta_view(causes[0])
            + sources_view(causes.drop_first(), idx + 1)
    }
}

/// The long form: the code's message in red; a `Source:` section when causes
/// exist; a `Location:` section when one was captured; the rendered
/// backtrace, where one is to be shown; and the trailing hint whenever a
/// trace field is declared. `chain` is the code's full cause chain, its own
/// message first.
pub open spec fn debug_view(
    chain: Seq<Seq<char>>,
    loc: Option<SourceLocation>,
    bt: Option<Seq<char>>,
    has_trace: bool,
    v: Verbosity,
    c: ColorBt,
) -> Seq<char> {
    red_view(chain[0]) + (if chain.len() > 1 {
        "\n\nSource:"@ + sources_view(chain.drop_first(), 0)
    } else {
        Seq::empty()
    }) + (match loc {
        Option::Some(l) => "\n\nLocation:"@ + "\n   "@ + cyan_view(location_view(l)),
        Option::None => Seq::empty(),
    }) + (match bt {
        Option::Some(t) => "\n\n"@ + t,
        Option::None => Seq::empty(),
    }) + (if has_trace {
        hint_view(v, c)
    } else {
        Seq::empty()
    })
}

impl<C: ErrorLike> Envelope<C> {
    /// Renders the short form.
    pub fn display(&self) -> (r: String)
        ensures
            r@ == display_view(self.code.msg_view(), self.location),
    {
        let mut out = self.code.render();
        match &self.location {
            Option::Some(l) => {
                out.append(" @ ");
                let ls = render_location(l);
                out.append(ls.as_str());
            },
            Option::None => {},
        }
        out
    }

    /// Renders the long form; `snippets` supplies, per captured frame, the
    /// pre-read source snippet shown under full verbosity. The backtrace is
    /// rendered only when a trace was captured and verbosity admits at least
    /// a medium report; the hint line follows whenever a trace was captured.
    pub fn debug_render(&self, v: Verbosity, c: ColorBt, snippets: &Vec<Option<String>>) -> (r:
        String)
        ensures
            self.trace.is_none() ==> r@ == debug_view(
                self.code.chain_view(),
                self.location,
                Option::None,
                false,
                v,
                c,
            ),
            self.trace.is_some() && v.rank() < Verbosity::Medium.rank() ==> r@ == debug_view(
                self.code.chain_view(),
                self.location,
                Option::None,
                true,
                v,
                c,
            ),
            self.trace.is_some() && v.rank() >= Verbosity::Medium.rank() ==> exists|bt: Seq<char>|
                r@ == debug_view(
                    self.code.chain_view(),
                    self.location,
                    Option::Some(bt),
                    true,
                    v,
                    c,
                ),
    {
        let msg = self.code.render();
        let mut out = paint_red(msg.as_str());
        let ghost chain = self.code.chain_view();
        let ghost g_red = out@;
        match self.code.cause() {
            Option::Some(first_cause) => {
                let causes = cause_chain(first_cause);
                let ghost cv = msgs_of(causes@);
                proof {
                    assert(cv =~= chain.drop_first());
                }
                out.append("\n\nSource:");
                let ghost base = out@;
                let mut i: usize = 0;
                proof {
                    assert(cv.subrange(0, cv.len() as int) =~= cv);
                    assert(out@ + sources_view(cv.subrange(i as int, cv.len() as int), i as int)
                        =~= base + sources_view(cv, 0));
                }
                while i < causes.len()
                    invariant
                        causes@.len() == cv.len(),
                        msgs_of(causes@) == cv,
                        i <= causes@.len(),
                        out@ + sources_view(cv.subrange(i as int, cv.len() as int), i as int)
                            =~= base + sources_view(cv, 0),
                    decreases causes@.len() - i,
                {
                    let ghost out_before = out@;
                    out.append("\n");
                    let num = u64_to_string(i as u64);
                    let padded = right_align(num.as_str(), 4);
                    out.append(padded.as_str());
                    out.append(": ");
                    let cause_msg = &causes[i];
                    let colored = paint_magenta(cause_msg.as_str());
                    out.append(colored.as_str());
                    proof {
                        let tail = cv.subrange(i as int, cv.len() as int);
                        assert(tail[0] == cv[i as int]);
                        assert(tail.drop_first() =~= cv.subrange(i + 1, cv.len() as int));
                        assert(out@ =~= out_before + ("\n"@ + right_align_view(
                            dec_view(i as nat),
                            4,
                        ) + ": "@ + magenta_view(cv[i as int])));
                        assert(out@ + sources_view(cv.subrange(i + 1, cv.len() as int), i + 1)
                            =~= base + sources_view(cv, 0));
                    }
                    i += 1;
                }
                proof {
                    assert(sources_view(cv.subrange(cv.len() as int, cv.len() as int), i as int)
                        =~= Seq::<char>::empty());
                    assert(out@ =~= base + sources_view(cv, 0));
                    assert(chain.len() > 1);
                    assert(out@ =~= g_red + ("\n\nSource:"@ + sources_view(
                        chain.drop_first(),
                        0,
                    )));
                }
            },
            Option::None => {
                proof {
                    assert(chain.len() == 1);
                    assert(out@ =~= g_red + Seq::<char>::empty());
                }
            },
        }
        let ghost g_src = out@;
        match &self.location {
            Option::Some(l) => {
                out.append("\n\nLocation:");
                out.append("\n   ");
                let ls = render_location(l);
                let colored = paint_cyan(ls.as_str());
                out.append(colored.as_str());
                proof {
                    assert(out@ =~= g_src + ("\n\nLocation:"@ + "\n   "@ + cyan_view(
                        location_view(*l),
                    )));
                }
            },
            Option::None => {
                proof {
                    assert(out@ =~= g_src + Seq::<char>::empty());
                }
            },
        }
        let ghost g_loc = out@;
        let has_trace = match &self.trace {
            Option::Some(_) => true,
            Option::None => false,
        };
        let mut bt_part: Option<String> = Option::None;
        match &self.trace {
            Option::Some(bt) => {
                if v.at_least(Verbosity::Medium) {
                    let pretty = PrettyBacktrace(bt);
                    bt_part = Option::Some(pretty.render(v, c, snippets));
                }
            },
            Option::None => {},
        }
        match &bt_part {
            Option::Some(t) => {
                out.append("\n\n");
                out.append(t.as_str());
                proof {
                    assert(out@ =~= g_loc + ("\n\n"@ + t@));
                }
            },
            Option::None => {
                proof {
                    assert(out@ =~= g_loc + Seq::<char>::empty());
                }
            },
        }
        let ghost g_bt = out@;
        if has_trace {
            let omitted = BacktraceOmitted;
            let hint = omitted.render(v, c);
            out.append(hint.as_str());
            proof {
                assert(out@ =~= g_bt + hint_view(v, c));
            }
        } else {
            proof {
                assert(out@ =~= g_bt + Seq::<char>::empty());
            }
        }
        proof {
            match bt_part {
                Option::Some(t) => {
                    assert(out@ =~= debug_view(
                        chain,
                        self.location,
                        Option::Some(t@),
                        has_trace,
                        v,
                        c,
                    ));
                },
                Option::None => {
                    assert(out@ =~= debug_view(chain, self.location, Option::None, has_trace, v, c));
                },
            }
        }
        out
    }
}

/// The message shown for a panic payload: the payload's text, or a
/// placeholder when it was no string.
pub open spec fn payload_view(payload: Option<&str>) -> Seq<char> {
    match payload {
        Option::Some(p) => p@,
        Option::None => "<non string panic payload>"@,
    }
}

/// The crash report: a banner in red, the payload message in cyan, the panic
/// location in magenta — `<unknown>` where missing — then, from medium
/// verbosity up, a freshly captured trace's report, and the trailing hint in
/// every case.
pub open spec fn panic_report_view(
    payload: Option<&str>,
    loc: Option<SourceLocation>,
    bt: Option<Seq<char>>,
    v: Verbosity,
    c: ColorBt,
) -> Seq<char> {
    red_view("The application panicked."@) + "\n"@ + "Message: "@ + cyan_view(payload_view(payload))
        + "\n"@ + "Location: "@ + magenta_view(
        match loc {
            Option::Some(l) => location_view(l),
            Option::None => "<unknown>"@,
        },
    ) + (match bt {
        Option::Some(t) => "\n\n"@ + t,
        Option::None => Seq::empty(),
    }) + hint_view(v, c) + "\n"@
}

/// Composes the crash report the panic hook prints. From medium verbosity up
/// a fresh, fully resolved trace is captured and rendered; `snippets` is
/// passed through to its rendering.
pub fn panic_report(
    payload: Option<&str>,
    location: Option<&SourceLocation>,
    snippets: &Vec<Option<String>>,
    v: Verbosity,
    c: ColorBt,
) -> (r: String)
    ensures
        v.rank() < Verbosity::Medium.rank() ==> r@ == panic_report_view(
            payload,
            match location {
                Option::Some(l) => Option::Some(*l),
                Option::None => Option::None,
            },
            Option::None,
            v,
            c,
        ),
        v.rank() >= Verbosity::Medium.rank() ==> exists|bt: Seq<char>|
            r@ == panic_report_view(
                payload,
                match location {
                    Option::Some(l) => Option::Some(*l),
                    Option::None => Option::None,
                },
                Option::Some(bt),
                v,
                c,
            ),
{
    let banner = paint_red("The application panicked.");
    let mut out = banner;
    out.append("\n");
    out.append("Message: ");
    let msg: &str = match payload {
        Option::Some(p) => p,
        Option::None => "<non string panic payload>",
    };
    let msg_colored = paint_cyan(msg);
    out.append(msg_colored.as_str());
    out.append("\n");
    out.append("Location: ");
    let loc_string: String = match location {
        Option::Some(l) => render_location(l),
        Option::None => String::from_str("<unknown>"),
    };
    let loc_colored = paint_magenta(loc_string.as_str());
    out.append(loc_colored.as_str());
    let ghost g_loc = out@;
    let ghost locv = (match location {
        Option::Some(l) => Option::Some(*l),
        Option::None => Option::<SourceLocation>::None,
    });
    proof {
        assert(g_loc =~= red_view("The application panicked."@) + "\n"@ + "Message: "@ + cyan_view(
            payload_view(payload),
        ) + "\n"@ + "Location: "@ + magenta_view(
            match locv {
                Option::Some(l) => location_view(l),
                Option::None => "<unknown>"@,
            },
        ));
    }
    let mut bt_part: Option<String> = Option::None;
    if v.at_least(Verbosity::Medium) {
        let bt = capture_resolved();
        let pretty = PrettyBacktrace(&bt);
        bt_part = Option::Some(pretty.render(v, c, snippets));
    }
    match &bt_part {
        Option::Some(t) => {
            out.append("\n\n");
            out.append(t.as_str());
            proof {
                assert(out@ =~= g_loc + ("\n\n"@ + t@));
            }
        },
        Option::None => {
            proof {
                assert(out@ =~= g_loc + Seq::<char>::empty());
            }
        },
    }
    let ghost g_bt = out@;
    let omitted = BacktraceOmitted;
    let hint = omitted.render(v, c);
    out.append(hint.as_str());
    out.append("\n");
    proof {
        assert(out@ =~= g_bt + hint_view(v, c) + "\n"@);
        match bt_part {
            Option::Some(t) => {
                assert(out@ =~= panic_report_view(payload, locv, Option::Some(t@), v, c));
            },
            Option::None => {
                assert(out@ =~= panic_report_view(payload, locv, Option::None, v, c));
            },
        }
    }
    out
}

} // verus!
