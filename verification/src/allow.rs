//! The allow-list: canonical parse-tree shapes that are treated as harmless
//! even though they parse as Python, because they are common non-code
//! annotations (a bare word, a number, a `name: Type` directive).

use vstd::prelude::*;
use crate::strutil::str_eqs;

verus! {

/// The fixed set of benign canonical shapes: an empty or whitespace-only
/// program, a body that is itself a comment, a single float, identifier,
/// keyword identifier or integer, and a bare `name: Type` annotation.
/// A lone string literal is deliberately not benign: it is ambiguous.
pub open spec fn is_benign_shape(shape: Seq<char>) -> bool {
    ||| shape == "(module)"@
    ||| shape == "(module (comment))"@
    ||| shape == "(module (expression_statement (float)))"@
    ||| shape == "(module (expression_statement (identifier)))"@
    ||| shape == "(module (expression_statement (keyword_identifier)))"@
    ||| shape == "(module (expression_statement (true)))"@
    ||| shape == "(module (expression_statement (false)))"@
    ||| shape == "(module (expression_statement (none)))"@
    ||| shape == "(module (expression_statement (integer)))"@
    ||| shape
        == "(module (expression_statement (assignment left: (identifier) type: (type (identifier)))))"@
}

/// Whether a canonical shape falls outside the allow-list, and so stands for
/// real code that should be flagged.
pub fn is_not_allowable_comment(shape: &str) -> (r: bool)
    ensures
        r == !is_benign_shape(shape@),
{
    let benign = str_eqs(shape, "(module)") || str_eqs(shape, "(module (comment))") || str_eqs(
        shape,
        "(module (expression_statement (float)))",
    ) || str_eqs(shape, "(module (expression_statement (identifier)))") || str_eqs(
        shape,
        "(module (expression_statement (keyword_identifier)))",
    ) || str_eqs(shape, "(module (expression_statement (true)))") || str_eqs(
        shape,
        "(module (expression_statement (false)))",
    ) || str_eqs(shape, "(module (expression_statement (none)))") || str_eqs(
        shape,
        "(module (expression_statement (integer)))",
    ) || str_eqs(
        shape,
        "(module (expression_statement (assignment left: (identifier) type: (type (identifier)))))",
    );
    !benign
}

} // verus!
