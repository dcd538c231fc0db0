//! Plain-text reports for compiler diagnostics, each resolved against the text
//! of the file it points into.
use vstd::prelude::*;
use vstd::utf8::encode_utf8;
use crate::ident::{resource_label_of, ResourceId, ResourceIdView};
use crate::store::Source;

verus! {

/// How serious a diagnostic is.
#[derive(Clone, Copy, Debug, PartialEq, Eq, Structural)]
pub enum Severity {
    Error,
    Warning,
}

/// The headline kind of one rendered report.
#[derive(Clone, Copy, Debug, PartialEq, Eq, Structural)]
pub enum ReportKind {
    Error,
    Warning,
    Advice,
}

/// A byte range in a file, or no location at all.
pub struct Span {
    pub id: Option<ResourceId>,
    pub start: usize,
    pub end: usize,
}

/// A secondary point of a diagnostic, with its message.
pub struct Tracepoint {
    pub span: Span,
    pub message: String,
}

/// A diagnostic as the compiler produced it.
pub struct SourceDiagnostic {
    pub severity: Severity,
    pub span: Span,
    pub message: String,
    pub hints: Vec<String>,
    pub trace: Vec<Tracepoint>,
}

/// The report that ariadne renders, without colour and with a tab width of
/// two, for one label over the characters `start..end` of `text`, in the
/// file shown as `name`, with an optional help line.
pub uninterp spec fn report_text(
    kind: ReportKind,
    message: Seq<char>,
    name: Seq<char>,
    text: Seq<char>,
    start: int,
    end: int,
    help: Option<Seq<char>>,
) -> Seq<char>;

/// `s` without leading and trailing whitespace.
pub uninterp spec fn trimmed(s: Seq<char>) -> Seq<char>;

/// The view of an optional text.
pub open spec fn opt_view(s: Option<String>) -> Option<Seq<char>> {
    match s {
        Some(t) => Some(t@),
        None => None,
    }
}

/// Relies on ariadne's `Report::build` and `Report::write`: the report for one
/// label, rendered from the given text alone.
#[verifier::external_body]
fn render_report(kind: ReportKind, message: &str, name: &str, text: &str, start: usize, end: usize, help: Option<String>) -> (r: String)
    requires
        start <= end,
    ensures
        r@ == report_text(kind, message@, name@, text@, start as int, end as int, opt_view(help)),
{
    let kind = match kind {
        ReportKind::Error => ariadne::ReportKind::Error,
        ReportKind::Warning => ariadne::ReportKind::Warning,
        ReportKind::Advice => ariadne::ReportKind::Advice,
    };
    let span = (name.to_string(), start..end);
    let mut b = ariadne::Report::build(kind, span.clone()).with_message(message).with_label(ariadne::Label::new(span))
        .with_config(ariadne::Config::default().with_color(false).with_tab_width(2));
    b.with_helps(help);
    let mut out = Vec::new();
    let _ = b.finish().write(ariadne::sources(vec![(name.to_string(), text)]), &mut out);
    String::from_utf8_lossy(&out).into_owned()
}

/// Relies on std's `str::trim`, which leaves an empty text empty.
#[verifier::external_body]
fn trim_text(s: &str) -> (r: String)
    ensures
        r@ == trimmed(s@),
        s@.len() == 0 ==> r@.len() == 0,
{
    s.trim().to_string()
}

/// Whether a UTF-8 byte starts a character.
pub open spec fn is_char_start(b: u8) -> bool {
    b < 0x80 || b >= 0xC0
}

/// How many characters start among `bytes`.
pub open spec fn char_starts(bytes: Seq<u8>) -> int
    decreases bytes.len(),
{
    if bytes.len() == 0 {
        0
    } else {
        char_starts(bytes.drop_last()) + if is_char_start(bytes.last()) { 1int } else { 0int }
    }
}

/// The character index of byte offset `b` in `text`: the number of
/// characters that start before it (offsets past the end count as the end).
pub open spec fn char_offset(text: Seq<char>, b: int) -> int {
    let bytes = encode_utf8(text);
    char_starts(bytes.subrange(0, if b < bytes.len() { b } else { bytes.len() as int }))
}

/// The text of the source of `id`.
pub open spec fn text_for(sources: Seq<Source>, id: ResourceIdView) -> Seq<char> {
    sources[choose|k: int| 0 <= k < sources.len() && sources[k].id@ == id].text@
}

/// Whether `sources` holds the file that `span` points into.
pub open spec fn covers(sources: Seq<Source>, span: Span) -> bool {
    span.id matches Some(id) ==> exists|k: int| 0 <= k < sources.len() && sources[k].id@ == id@
}

/// Whether no two sources share an identifier.
pub open spec fn distinct_ids(sources: Seq<Source>) -> bool {
    forall|i: int, j: int| 0 <= i < j < sources.len() ==> sources[i].id@ != sources[j].id@
}

/// The end of a label that starts at character `start`: `end`, or `start`
/// itself where the range is inverted.
pub open spec fn label_end(start: int, end: int) -> int {
    if end < start {
        start
    } else {
        end
    }
}

/// The report for one span: resolved against its own file's text, or against
/// an empty text at offset 0 where it has no location. An inverted range is
/// shown as an empty label at its start.
pub open spec fn span_report(
    sources: Seq<Source>,
    kind: ReportKind,
    message: Seq<char>,
    span: Span,
    help: Option<Seq<char>>,
) -> Seq<char> {
    match span.id {
        Some(id) => {
            let text = text_for(sources, id@);
            report_text(
                kind,
                message,
                resource_label_of(id@),
                text,
                char_offset(text, span.start as int),
                label_end(char_offset(text, span.start as int), char_offset(text, span.end as int)),
                help,
            )
        },
        None => report_text(kind, message, Seq::empty(), Seq::empty(), 0, 0, help),
    }
}

pub open spec fn kind_of(s: Severity) -> ReportKind {
    match s {
        Severity::Error => ReportKind::Error,
        Severity::Warning => ReportKind::Warning,
    }
}

/// The hints joined by newlines.
pub open spec fn joined(hints: Seq<String>) -> Seq<char>
    decreases hints.len(),
{
    if hints.len() == 0 {
        Seq::empty()
    } else if hints.len() == 1 {
        hints[0]@
    } else {
        joined(hints.drop_last()) + seq!['\n'] + hints.last()@
    }
}

/// The help line of a diagnostic: its hints joined, if it has any.
pub open spec fn help_of(hints: Seq<String>) -> Option<Seq<char>> {
    if hints.len() == 0 {
        None
    } else {
        Some(joined(hints))
    }
}

/// The advice reports of a trace, each followed by a newline.
pub open spec fn trace_text(sources: Seq<Source>, trace: Seq<Tracepoint>) -> Seq<char>
    decreases trace.len(),
{
    if trace.len() == 0 {
        Seq::empty()
    } else {
        trace_text(sources, trace.drop_last()) + span_report(
            sources,
            ReportKind::Advice,
            trace.last().message@,
            trace.last().span,
            None,
        ) + seq!['\n']
    }
}

/// The primary report of a diagnostic and its newline, then its trace.
pub open spec fn diagnostic_text(sources: Seq<Source>, d: SourceDiagnostic) -> Seq<char> {
    span_report(sources, kind_of(d.severity), d.message@, d.span, help_of(d.hints@)) + seq!['\n']
        + trace_text(sources, d.trace@)
}

/// The reports of all diagnostics, in order.
pub open spec fn all_text(sources: Seq<Source>, ds: Seq<SourceDiagnostic>) -> Seq<char>
    decreases ds.len(),
{
    if ds.len() == 0 {
        Seq::empty()
    } else {
        all_text(sources, ds.drop_last()) + diagnostic_text(sources, ds.last())
    }
}

/// Whether `sources` holds every file that the diagnostics point into.
pub open spec fn covers_all(sources: Seq<Source>, ds: Seq<SourceDiagnostic>) -> bool {
    forall|i: int| 0 <= i < ds.len() ==> {
        &&& covers(sources, #[trigger] ds[i].span)
        &&& forall|j: int| 0 <= j < ds[i].trace@.len() ==> covers(sources, #[trigger] ds[i].trace@[j].span)
    }
}

/// The character index of byte offset `b` in `text`.
pub fn char_index(text: &str, b: usize) -> (r: usize)
    ensures
        r == char_offset(text@, b as int),
{
    let bytes = text.as_bytes();
    let n = if b < bytes.len() { b } else { bytes.len() };
    let mut count: usize = 0;
    let mut i: usize = 0;
    while i < n
        invariant
            n <= bytes@.len(),
            bytes@ == encode_utf8(text@),
            i <= n,
            count <= i,
            count == char_starts(bytes@.subrange(0, i as int)),
        decreases n - i,
    {
        assert(bytes@.subrange(0, i + 1).drop_last() =~= bytes@.subrange(0, i as int));
        let x = bytes[i];
        if x < 0x80 || x >= 0xC0 {
            count = count + 1;
        }
        i = i + 1;
    }
    count
}

fn find_source(sources: &Vec<Source>, id: &ResourceId) -> (r: usize)
    requires
        distinct_ids(sources@),
        exists|k: int| 0 <= k < sources@.len() && sources@[k].id@ == id@,
    ensures
        r < sources@.len(),
        sources@[r as int].id@ == id@,
        text_for(sources@, id@) == sources@[r as int].text@,
{
    let mut i: usize = 0;
    while i < sources.len()
        invariant
            distinct_ids(sources@),
            i <= sources@.len(),
            forall|j: int| 0 <= j < i ==> sources@[j].id@ != id@,
            exists|k: int| 0 <= k < sources@.len() && sources@[k].id@ == id@,
        decreases sources@.len() - i,
    {
        if sources[i].id.same_as(id) {
            proof {
                let k = choose|k: int| 0 <= k < sources@.len() && sources@[k].id@ == id@;
                if k != i as int {
                    if k < i as int {
                        assert(sources@[k].id@ != sources@[i as int].id@);
                    } else {
                        assert(sources@[i as int].id@ != sources@[k].id@);
                    }
                }
            }
            return i;
        }
        i = i + 1;
    }
    i
}

/// The report for one span, against its own file's text.
fn report_for(sources: &Vec<Source>, kind: ReportKind, message: &str, span: &Span, help: Option<String>) -> (r: String)
    requires
        distinct_ids(sources@),
        covers(sources@, *span),
    ensures
        r@ == span_report(sources@, kind, message@, *span, opt_view(help)),
{
    match &span.id {
        Some(id) => {
            let k = find_source(sources, id);
            let text = sources[k].text.as_str();
            let name = id.label();
            let start = char_index(text, span.start);
            let end = char_index(text, span.end);
            let end = if end < start { start } else { end };
            assert(text@ == text_for(sources@, id@));
            render_report(kind, message, name.as_str(), text, start, end, help)
        },
        None => {
            let empty = "";
            proof {
                reveal_strlit("");
            }
            assert(empty@ =~= Seq::<char>::empty());
            render_report(kind, message, empty, empty, 0, 0, help)
        },
    }
}

/// The hints joined by newlines, or `None` without hints.
pub fn join_hints(hints: &Vec<String>) -> (r: Option<String>)
    ensures
        opt_view(r) == help_of(hints@),
{
    if hints.len() == 0 {
        return None;
    }
    let mut out = hints[0].clone();
    let mut i: usize = 1;
    while i < hints.len()
        invariant
            1 <= i <= hints@.len(),
            out@ == joined(hints@.subrange(0, i as int)),
        decreases hints@.len() - i,
    {
        proof {
            let s = hints@.subrange(0, i + 1);
            assert(s.drop_last() =~= hints@.subrange(0, i as int));
            if i == 1 {
                assert(hints@.subrange(0, 1) =~= seq![hints@[0]]);
            }
        }
        out.append("\n");
        out.append(hints[i].as_str());
        proof {
            reveal_strlit("\n");
        }
        i = i + 1;
    }
    proof {
        assert(hints@.subrange(0, hints@.len() as int) =~= hints@);
        if hints@.len() == 1 {
            assert(hints@.subrange(0, 1) =~= seq![hints@[0]]);
        }
    }
    Some(out)
}

/// Renders every diagnostic, in order: its report (kind from its severity,
/// message as headline, a label on its span, its hints joined as help)
/// followed by a blank line, then one advice report per trace point, each
/// followed by a blank line; the whole trimmed of surrounding whitespace.
/// Every span is resolved against the text of its own file.
pub fn format_diagnostic(sources: &Vec<Source>, diagnostics: &Vec<SourceDiagnostic>) -> (r: String)
    requires
        distinct_ids(sources@),
        covers_all(sources@, diagnostics@),
    ensures
        r@ == trimmed(all_text(sources@, diagnostics@)),
{
    let mut out = String::new();
    let mut i: usize = 0;
    while i < diagnostics.len()
        invariant
            distinct_ids(sources@),
            covers_all(sources@, diagnostics@),
            i <= diagnostics@.len(),
            out@ == all_text(sources@, diagnostics@.subrange(0, i as int)),
        decreases diagnostics@.len() - i,
    {
        let d = &diagnostics[i];
        assert(covers(sources@, diagnostics@[i as int].span));
        let help = join_hints(&d.hints);
        let head = report_for(sources, kind_of_exec(d.severity), d.message.as_str(), &d.span, help);
        let ghost before = out@;
        out.append(head.as_str());
        out.append("\n");
        proof {
            reveal_strlit("\n");
            assert(d.trace@.subrange(0, 0) =~= Seq::<Tracepoint>::empty());
        }
        let mut j: usize = 0;
        while j < d.trace.len()
            invariant
                distinct_ids(sources@),
                covers_all(sources@, diagnostics@),
                i < diagnostics@.len(),
                *d == diagnostics@[i as int],
                j <= d.trace@.len(),
                out@ == before + head@ + seq!['\n'] + trace_text(sources@, d.trace@.subrange(0, j as int)),
            decreases d.trace@.len() - j,
        {
            let t = &d.trace[j];
            assert(covers(sources@, diagnostics@[i as int].span));
            assert(covers(sources@, diagnostics@[i as int].trace@[j as int].span));
            let advice = report_for(sources, ReportKind::Advice, t.message.as_str(), &t.span, None);
            out.append(advice.as_str());
            out.append("\n");
            proof {
                reveal_strlit("\n");
                assert(d.trace@.subrange(0, j + 1).drop_last() =~= d.trace@.subrange(0, j as int));
            }
            j = j + 1;
        }
        proof {
            reveal_strlit("\n");
            assert(d.trace@.subrange(0, d.trace@.len() as int) =~= d.trace@);
            assert(diagnostics@.subrange(0, i + 1).drop_last() =~= diagnostics@.subrange(0, i as int));
        }
        i = i + 1;
    }
    proof {
        assert(diagnostics@.subrange(0, diagnostics@.len() as int) =~= diagnostics@);
    }
    trim_text(out.as_str())
}

fn kind_of_exec(s: Severity) -> (r: ReportKind)
    ensures
        r == kind_of(s),
{
    match s {
        Severity::Error => ReportKind::Error,
        Severity::Warning => ReportKind::Warning,
    }
}

/// A span is resolved against the text of the source that its own file names,
/// never against another source's: for the source `k` with the span's
/// identifier, the report is rendered from `sources[k]`'s text.
pub proof fn lemma_span_uses_own_source(
    sources: Seq<Source>,
    span: Span,
    k: int,
    kind: ReportKind,
    message: Seq<char>,
    help: Option<Seq<char>>,
)
    requires
        distinct_ids(sources),
        0 <= k < sources.len(),
        span.id matches Some(id) && sources[k].id@ == id@,
    ensures
        span_report(sources, kind, message, span, help) == report_text(
            kind,
            message,
            resource_label_of(sources[k].id@),
            sources[k].text@,
            char_offset(sources[k].text@, span.start as int),
            label_end(
                char_offset(sources[k].text@, span.start as int),
                char_offset(sources[k].text@, span.end as int),
            ),
            help,
        ),
{
    let id = span.id->Some_0;
    let c = choose|c: int| 0 <= c < sources.len() && sources[c].id@ == id@;
    if c != k {
        if c < k {
            assert(sources[c].id@ != sources[k].id@);
        } else {
            assert(sources[k].id@ != sources[c].id@);
        }
    }
}

} // verus!
