//! Comment classification: strip the marker, re-parse the body as a fresh
//! program, and flag it when the parse is error-free and its canonical shape
//! falls outside the allow-list. Also builds the per-file report, whose
//! stored order is the reverse of the comments' order in the file.

use vstd::prelude::*;
use vstd::pervasive::unreached;
use vstd::string::StrSliceExecFns;
use vstd::string::StringExecFns;
use crate::allow::is_benign_shape;
use crate::allow::is_not_allowable_comment;
use crate::pyparse::ParseOutcome;
use crate::pyparse::PyParser;
use crate::pyparse::py_parse_has_error;
use crate::pyparse::py_parse_shape;
use crate::strutil::dec_str;
use crate::strutil::dec_string;
use crate::strutil::strip_marker;
use crate::strutil::trim_str;
use crate::strutil::trimmed;

verus! {

/// One comment of a source file, as plain values: its full text (marker
/// included) and the 1-based row and column where it starts.
pub struct CommentSpan {
    pub text: String,
    pub row: usize,
    pub col: usize,
}

/// The mathematical value of a `CommentSpan`.
pub struct CommentSpanV {
    pub text: Seq<char>,
    pub row: nat,
    pub col: nat,
}

impl DeepView for CommentSpan {
    type V = CommentSpanV;

    open spec fn deep_view(&self) -> CommentSpanV {
        CommentSpanV { text: self.text@, row: self.row as nat, col: self.col as nat }
    }
}

/// When a comment is flagged: its text starts with the marker, the body after
/// the marker is non-empty, the body re-parses without a syntax error, and
/// the resulting shape is not on the allow-list.
pub open spec fn should_flag(text: Seq<char>) -> bool {
    &&& text.len() >= 1
    &&& text.first() == '#'
    &&& text.drop_first().len() > 0
    &&& !py_parse_has_error(text.drop_first())
    &&& !is_benign_shape(py_parse_shape(text.drop_first()))
}

/// The report line for a flagged comment: the 1-based position, the canonical
/// shape when verbose output is asked for, and the trimmed body in quotes.
pub open spec fn flag_message(
    row: nat,
    col: nat,
    shape: Seq<char>,
    body: Seq<char>,
    verbose: bool,
) -> Seq<char> {
    "("@ + dec_str(row) + ", "@ + dec_str(col) + "):"@ + (if verbose {
        " "@ + shape
    } else {
        Seq::<char>::empty()
    }) + "\n  \""@ + trimmed(body) + "\""@
}

/// The report line of a flagged comment span.
pub open spec fn span_message(s: CommentSpanV, verbose: bool) -> Seq<char> {
    flag_message(s.row, s.col, py_parse_shape(s.text.drop_first()), s.text.drop_first(), verbose)
}

fn build_message(row: usize, col: usize, shape: &str, body: &str, verbose: bool) -> (r: String)
    ensures
        r@ == flag_message(row as nat, col as nat, shape@, body@, verbose),
{
    let mut s = String::from_str("(");
    let rs = dec_string(row);
    s.append(rs.as_str());
    s.append(", ");
    let cs = dec_string(col);
    s.append(cs.as_str());
    s.append("):");
    if verbose {
        s.append(" ");
        s.append(shape);
    }
    s.append("\n  \"");
    s.append(trim_str(body));
    s.append("\"");
    proof {
        assert(s@ =~= flag_message(row as nat, col as nat, shape@, body@, verbose));
    }
    s
}

/// Decides a comment body from the outcome of its re-parse: flagged if and
/// only if the parse was error-free and the shape is not on the allow-list.
pub fn classify_outcome(
    body: &str,
    outcome: &ParseOutcome,
    row: usize,
    col: usize,
    verbose: bool,
) -> (r: Option<String>)
    ensures
        r is Some <==> !outcome.has_error && !is_benign_shape(outcome.shape@),
        r matches Some(m) ==> m@ == flag_message(
            row as nat,
            col as nat,
            outcome.shape@,
            body@,
            verbose,
        ),
{
    if outcome.has_error {
        None
    } else if !is_not_allowable_comment(outcome.shape.as_str()) {
        None
    } else {
        Some(build_message(row, col, outcome.shape.as_str(), body, verbose))
    }
}

/// Classifies one comment: the report line comes if and only if the comment
/// must be flagged — its text starts with the marker, the body after the
/// marker is non-empty, the re-parse is error-free, and the shape is not on
/// the allow-list.
pub fn comment_has_valid_code(span: &CommentSpan, parser: &mut PyParser, verbose: bool) -> (r:
    Option<String>)
    ensures
        r is Some <==> should_flag(span.text@),
        r matches Some(m) ==> m@ == span_message(span.deep_view(), verbose),
{
    match strip_marker(span.text.as_str()) {
        None => None,
        Some(body) => {
            if body.unicode_len() == 0 {
                None
            } else {
                match parser.parse_outcome(body) {
                    None => unreached(),
                    Some(o) => classify_outcome(body, &o, span.row, span.col, verbose),
                }
            }
        },
    }
}

/// The report of one file, over the comment spans in their order in the file:
/// the report lines of the flagged spans, last span first. This is the stored
/// order of a stack-based tree walk that meets comments from the end of the
/// file backwards.
pub open spec fn report_spec(spans: Seq<CommentSpanV>, verbose: bool) -> Seq<Seq<char>>
    decreases spans.len(),
{
    if spans.len() == 0 {
        Seq::empty()
    } else {
        report_spec(spans.drop_first(), verbose) + (if should_flag(spans.first().text) {
            seq![span_message(spans.first(), verbose)]
        } else {
            Seq::<Seq<char>>::empty()
        })
    }
}

/// Builds one file's report from its comment spans, given in their order in
/// the file. The report always comes, and is exactly what `report_spec`
/// describes.
pub fn file_report(spans: &Vec<CommentSpan>, parser: &mut PyParser, verbose: bool) -> (r: Option<
    Vec<String>,
>)
    ensures
        r is Some,
        r matches Some(v) ==> v.deep_view() == report_spec(spans.deep_view(), verbose),
{
    let mut out: Vec<String> = Vec::new();
    let n = spans.len();
    let mut i: usize = n;
    while i > 0
        invariant
            i <= n,
            n == spans.len(),
            out.deep_view() == report_spec(spans.deep_view().skip(i as int), verbose),
        decreases i,
    {
        i = i - 1;
        let ghost pre = out.deep_view();
        let ghost tail = spans.deep_view().skip(i as int);
        proof {
            assert(tail.first() == spans.deep_view()[i as int]);
            assert(tail.drop_first() =~= spans.deep_view().skip(i as int + 1));
        }
        let span = &spans[i];
        match strip_marker(span.text.as_str()) {
            None => {},
            Some(body) => {
                if body.unicode_len() > 0 {
                    match parser.parse_outcome(body) {
                        None => {
                            unreached::<()>();
                        },
                        Some(o) => {
                            match classify_outcome(body, &o, span.row, span.col, verbose) {
                                Some(m) => {
                                    out.push(m);
                                    proof {
                                        assert(out.deep_view() =~= pre.push(m@));
                                    }
                                },
                                None => {},
                            }
                        },
                    }
                }
            },
        }
        proof {
            assert(out.deep_view() =~= report_spec(spans.deep_view().skip(i as int), verbose));
        }
    }
    proof {
        assert(spans.deep_view().skip(0) =~= spans.deep_view());
    }
    Some(out)
}

/// A comment whose body re-parses with a syntax error is never flagged: the
/// parse error is the signal that the body is natural language.
pub proof fn lemma_syntax_error_allowed(text: Seq<char>)
    requires
        py_parse_has_error(text.drop_first()),
    ensures
        !should_flag(text),
{
}

/// A comment whose body's canonical shape is on the allow-list is never
/// flagged, however the parse went.
pub proof fn lemma_benign_shape_allowed(text: Seq<char>)
    requires
        is_benign_shape(py_parse_shape(text.drop_first())),
    ensures
        !should_flag(text),
{
}

/// A comment with a marker and a non-empty body that re-parses without error
/// into a shape outside the allow-list is always flagged.
pub proof fn lemma_valid_code_flagged(text: Seq<char>)
    requires
        text.len() >= 1,
        text.first() == '#',
        text.drop_first().len() > 0,
        !py_parse_has_error(text.drop_first()),
        !is_benign_shape(py_parse_shape(text.drop_first())),
    ensures
        should_flag(text),
{
}

/// Ordering of the report: of two comments that are both flagged, the one
/// later in the file is reported first.
pub proof fn lemma_report_order(s1: CommentSpanV, s2: CommentSpanV, verbose: bool)
    requires
        should_flag(s1.text),
        should_flag(s2.text),
    ensures
        report_spec(seq![s1, s2], verbose) == seq![
            span_message(s2, verbose),
            span_message(s1, verbose),
        ],
{
    let both = seq![s1, s2];
    assert(both.drop_first() =~= seq![s2]);
    assert(seq![s2].drop_first() =~= Seq::<CommentSpanV>::empty());
    assert(report_spec(Seq::<CommentSpanV>::empty(), verbose) == Seq::<Seq<char>>::empty());
    assert(report_spec(seq![s2], verbose) =~= seq![span_message(s2, verbose)]);
    assert(report_spec(both, verbose) =~= seq![
        span_message(s2, verbose),
        span_message(s1, verbose),
    ]);
}

} // verus!
