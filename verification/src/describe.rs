//! Inspection: which template an extension resolves to, where it comes
//! from, and which lower-priority templates it shadows.

use crate::resolve::{first_readable, readable, resolved, winner, wins};
use crate::resolve::{lemma_winner_first, lemma_winner_unique};
use crate::resolve::{Candidate, CandidateView, Probe, ProbeView};
use vstd::prelude::*;
use vstd::string::{StrSliceExecFns, StringExecFns};
use vstd::utf8::{decode_utf8, valid_utf8};

verus! {

/// What inspection found for one extension.
#[derive(Clone, Debug, PartialEq, Eq)]
pub enum Report {
    /// A template was found.
    Found {
        /// The path of the effective template.
        source: String,
        /// Its contents as text, or `None` if they are not valid UTF-8.
        text: Option<String>,
        /// The paths of the readable templates of lower priority.
        shadowed: Vec<String>,
    },
    /// No candidate holds a readable template.
    NotFound {
        /// Every path that was tried, in search order.
        tried: Vec<String>,
    },
}

/// A report as a mathematical value.
pub enum ReportView {
    Found { source: Seq<char>, text: Option<Seq<char>>, shadowed: Seq<Seq<char>> },
    NotFound { tried: Seq<Seq<char>> },
}

impl View for Report {
    type V = ReportView;

    open spec fn view(&self) -> ReportView {
        match self {
            Report::Found { source, text, shadowed } => ReportView::Found {
                source: source@,
                text: text.deep_view(),
                shadowed: shadowed.deep_view(),
            },
            Report::NotFound { tried } => ReportView::NotFound { tried: tried.deep_view() },
        }
    }
}

/// The predicate "holds a readable template".
pub open spec fn is_readable() -> spec_fn(CandidateView) -> bool {
    |candidate: CandidateView| candidate.probe is Readable
}

/// The projection of a candidate to its path.
pub open spec fn path_of() -> spec_fn(CandidateView) -> Seq<char> {
    |candidate: CandidateView| candidate.path
}

/// The paths of the readable candidates after candidate `w`, in search order.
pub open spec fn shadowed_paths(candidates: Seq<CandidateView>, w: int) -> Seq<Seq<char>> {
    candidates.skip(w + 1).filter(is_readable()).map_values(path_of())
}

/// Template bytes as text, where they are valid UTF-8.
pub open spec fn printable(probe: ProbeView) -> Option<Seq<char>> {
    match probe {
        ProbeView::Readable(bytes) => if valid_utf8(bytes) {
            Some(decode_utf8(bytes))
        } else {
            None
        },
        _ => None,
    }
}

/// The report for a list of candidates: the winner with everything it
/// shadows, or every path that was tried.
pub open spec fn described(candidates: Seq<CandidateView>) -> ReportView {
    match winner(candidates) {
        Some(w) => ReportView::Found {
            source: candidates[w].path,
            text: printable(candidates[w].probe),
            shadowed: shadowed_paths(candidates, w),
        },
        None => ReportView::NotFound { tried: candidates.map_values(path_of()) },
    }
}

/// `std::str::from_utf8`: succeeds exactly on valid UTF-8, and the text it
/// returns is the decoding of the bytes.
#[verifier::external_body]
fn decode(bytes: &Vec<u8>) -> (text: Option<&str>)
    ensures
        text is Some <==> valid_utf8(bytes@),
        text matches Some(t) ==> t@ == decode_utf8(bytes@),
{
    std::str::from_utf8(bytes.as_slice()).ok()
}

/// Collects the report for a list of probed candidates.
pub fn describe(candidates: &Vec<Candidate>) -> (report: Report)
    ensures
        report@ == described(candidates.deep_view()),
{
    let ghost all = candidates.deep_view();
    match first_readable(candidates) {
        Some(w) => {
            proof {
                lemma_winner_first(all);
                assert(readable(all, w as int));
                assert(all.len() == candidates.len());
            }
            let source = candidates[w].path.clone();
            let text = match &candidates[w].probe {
                Probe::Readable(bytes) => match decode(bytes) {
                    Some(decoded) => Some(String::from_str(decoded)),
                    None => None,
                },
                _ => None,
            };
            let mut shadowed: Vec<String> = Vec::new();
            let mut i: usize = w + 1;
            assert(all.subrange(w + 1, i as int) =~= Seq::empty());
            while i < candidates.len()
                invariant
                    w < i <= candidates.len(),
                    all == candidates.deep_view(),
                    shadowed.deep_view() == all.subrange(w + 1, i as int).filter(
                        is_readable(),
                    ).map_values(path_of()),
                decreases candidates.len() - i,
            {
                let ghost seen = all.subrange(w + 1, i as int);
                let ghost kept = shadowed.deep_view();
                proof {
                    assert(all.subrange(w + 1, i + 1) =~= seen.push(all[i as int]));
                    seen.lemma_filter_push(all[i as int], is_readable());
                    seen.filter(is_readable()).lemma_push_map_commute(path_of(), all[i as int]);
                }
                if let Probe::Readable(_) = &candidates[i].probe {
                    shadowed.push(candidates[i].path.clone());
                    assert(shadowed.deep_view() =~= kept.push(all[i as int].path));
                }
                i += 1;
            }
            assert(all.subrange(w + 1, i as int) =~= all.skip(w + 1));
            Report::Found { source, text, shadowed }
        },
        None => {
            let mut tried: Vec<String> = Vec::new();
            let mut i: usize = 0;
            while i < candidates.len()
                invariant
                    i <= candidates.len(),
                    all == candidates.deep_view(),
                    tried.deep_view() == all.take(i as int).map_values(path_of()),
                decreases candidates.len() - i,
            {
                let ghost kept = tried.deep_view();
                tried.push(candidates[i].path.clone());
                assert(tried.deep_view() =~= kept.push(all[i as int].path));
                assert(all.take(i + 1).map_values(path_of()) =~= all.take(i as int).map_values(
                    path_of(),
                ).push(all[i as int].path));
                i += 1;
            }
            assert(all.take(i as int) =~= all);
            Report::NotFound { tried }
        },
    }
}

/// The text ends with a line feed.
pub open spec fn ends_with_newline(text: Seq<char>) -> bool {
    text.len() > 0 && text.last() == '\n'
}

/// How a template's text is shown: between two rules, closed with a line
/// feed if it has none; a notice in place of contents that are no text.
pub open spec fn body_text(text: Option<Seq<char>>) -> Seq<char> {
    match text {
        Some(shown) => "~~~~~~~   template   ~~~~~~\n"@ + shown + (if ends_with_newline(shown) {
            Seq::<char>::empty()
        } else {
            "\n"@
        }) + "~~~~~~~~~~~~~~~~~~~~~~~~~~~\n"@,
        None => "Template is binary and cannot be printed.\n"@,
    }
}

/// The function that frames a path as one line of a report.
pub open spec fn framed(prefix: Seq<char>, suffix: Seq<char>) -> spec_fn(Seq<char>) -> Seq<char> {
    |path: Seq<char>| prefix + path + suffix
}

/// One framed line for each path, in order.
pub open spec fn path_lines(paths: Seq<Seq<char>>, prefix: Seq<char>, suffix: Seq<char>) -> Seq<
    char,
> {
    paths.map_values(framed(prefix, suffix)).flatten()
}

/// The text of a report on `extension`.
pub open spec fn rendered(report: ReportView, extension: Seq<char>) -> Seq<char> {
    match report {
        ReportView::Found { source, text, shadowed } => "Template file for extension '"@
            + extension + "' found in '"@ + source + "'\n"@ + body_text(text) + path_lines(
            shadowed,
            "Note: Template file '"@,
            "' shadowed\n"@,
        ),
        ReportView::NotFound { tried } => "No template file found for extension '"@ + extension
            + "'!\n\nTried the following paths:\n"@ + path_lines(tried, "\t"@, "\n"@),
    }
}

/// Appends one framed line for each path.
fn append_path_lines(out: &mut String, paths: &Vec<String>, prefix: &str, suffix: &str)
    ensures
        final(out)@ == old(out)@ + path_lines(paths.deep_view(), prefix@, suffix@),
{
    let ghost all = paths.deep_view();
    let ghost frame = framed(prefix@, suffix@);
    let mut i: usize = 0;
    assert(all.take(0).map_values(frame) =~= Seq::<Seq<char>>::empty());
    assert(out@ =~= old(out)@ + Seq::<Seq<char>>::empty().flatten());
    while i < paths.len()
        invariant
            i <= paths.len(),
            all == paths.deep_view(),
            frame == framed(prefix@, suffix@),
            out@ == old(out)@ + all.take(i as int).map_values(frame).flatten(),
        decreases paths.len() - i,
    {
        let ghost done = all.take(i as int).map_values(frame);
        out.append(prefix);
        out.append(paths[i].as_str());
        out.append(suffix);
        proof {
            assert(all.take(i + 1) =~= all.take(i as int).push(all[i as int]));
            all.take(i as int).lemma_push_map_commute(frame, all[i as int]);
            done.lemma_flatten_push(frame(all[i as int]));
            assert(out@ =~= old(out)@ + done.push(frame(all[i as int])).flatten());
        }
        i += 1;
    }
    assert(all.take(i as int) =~= all);
}

impl Report {
    /// Renders the report on `extension` as the text to show.
    pub fn render(&self, extension: &str) -> (out: String)
        ensures
            out@ == rendered(self@, extension@),
    {
        match self {
            Report::Found { source, text, shadowed } => {
                let mut out = String::from_str("Template file for extension '");
                out.append(extension);
                out.append("' found in '");
                out.append(source.as_str());
                out.append("'\n");
                let ghost head = out@;
                match text {
                    Some(shown) => {
                        out.append("~~~~~~~   template   ~~~~~~\n");
                        out.append(shown.as_str());
                        let len = shown.as_str().unicode_len();
                        if len == 0 || shown.as_str().get_char(len - 1) != '\n' {
                            out.append("\n");
                        }
                        out.append("~~~~~~~~~~~~~~~~~~~~~~~~~~~\n");
                    },
                    None => {
                        out.append("Template is binary and cannot be printed.\n");
                    },
                }
                assert(out@ =~= head + body_text(text.deep_view()));
                append_path_lines(&mut out, shadowed, "Note: Template file '", "' shadowed\n");
                out
            },
            Report::NotFound { tried } => {
                let mut out = String::from_str("No template file found for extension '");
                out.append(extension);
                out.append("'!\n\nTried the following paths:\n");
                append_path_lines(&mut out, tried, "\t", "\n");
                out
            },
        }
    }
}

/// Display the template contents for this extension and the path of the
/// file they come from, as text: the effective template with a note for
/// every template it shadows, or the list of the paths that were tried.
pub fn show_extension_info(extension: &str, candidates: &Vec<Candidate>) -> (out: String)
    ensures
        out@ == rendered(described(candidates.deep_view()), extension@),
{
    describe(candidates).render(extension)
}

/// A readable candidate of lower priority than the winner is never the
/// source of the report; it is reported as shadowed.
pub proof fn lemma_lower_priority_shadowed(candidates: Seq<CandidateView>, i: int, k: int)
    requires
        wins(candidates, i),
        i < k,
        readable(candidates, k),
    ensures
        described(candidates) matches ReportView::Found { source, shadowed, .. }
            && source == candidates[i].path && shadowed == shadowed_paths(candidates, i)
            && shadowed.contains(candidates[k].path),
{
    lemma_winner_unique(candidates, i);
    let later = candidates.skip(i + 1);
    let kept = later.filter(is_readable());
    assert(later[k - i - 1] == candidates[k]);
    later.lemma_filter_contains(is_readable(), k - i - 1);
    let at = choose|at: int| 0 <= at < kept.len() && kept[at] == candidates[k];
    assert(kept.map_values(path_of())[at] == candidates[k].path);
}

/// Every path reported as shadowed is the path of a readable candidate of
/// lower priority than the winner.
pub proof fn lemma_shadowed_is_lower_priority(
    candidates: Seq<CandidateView>,
    i: int,
    path: Seq<char>,
)
    requires
        wins(candidates, i),
        shadowed_paths(candidates, i).contains(path),
    ensures
        exists|k: int| i < k && readable(candidates, k) && candidates[k].path == path,
{
    let later = candidates.skip(i + 1);
    let kept = later.filter(is_readable());
    let at = choose|at: int| 0 <= at < kept.map_values(path_of()).len() && kept.map_values(
        path_of(),
    )[at] == path;
    assert(kept[at].path == path);
    later.lemma_filter_pred(is_readable(), at);
    later.lemma_filter_contains_rev(is_readable(), kept[at]);
    assert(kept.contains(kept[at]));
    let j = choose|j: int| 0 <= j < later.len() && later[j] == kept[at];
    assert(readable(candidates, i + 1 + j));
}

/// Inspection and resolution agree: a template is reported exactly where
/// one is resolved, it comes from the winning candidate, and the text shown
/// is the text of the resolved bytes.
pub proof fn lemma_report_agrees_with_resolution(candidates: Seq<CandidateView>)
    ensures
        match resolved(candidates) {
            Some(bytes) => described(candidates) matches ReportView::Found { source, text, .. }
                && winner(candidates) matches Some(w) && source == candidates[w].path && text
                == printable(ProbeView::Readable(bytes)),
            None => described(candidates) matches ReportView::NotFound { tried }
                && tried.len() == candidates.len(),
        },
{
    lemma_winner_first(candidates);
}

/// Inspecting twice with nothing changed in between shows the same text:
/// what is shown depends on nothing but the extension and on what the
/// candidates hold.
pub proof fn lemma_inspection_repeats(
    extension: &str,
    first: &Vec<Candidate>,
    second: &Vec<Candidate>,
    shown_first: String,
    shown_second: String,
)
    requires
        first.deep_view() == second.deep_view(),
        shown_first@ == rendered(described(first.deep_view()), extension@),
        shown_second@ == rendered(described(second.deep_view()), extension@),
    ensures
        shown_first@ == shown_second@,
{
}

} // verus!
