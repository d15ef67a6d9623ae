//! The one seam to the outside parser. Everything the classifier needs from
//! tree-sitter is behind `PyParser`: a fresh parse of a comment body with the
//! Python grammar, reduced to two plain values — whether the parse reported a
//! syntax error, and the canonical s-expression of the root node.

use vstd::prelude::*;

verus! {

#[verifier::external_type_specification]
#[verifier::external_body]
pub struct ExParser(tree_sitter::Parser);

/// Whether a fresh parse of `body` with the Python grammar reports a syntax
/// error. Parsing is deterministic: the outcome depends on the text alone.
pub uninterp spec fn py_parse_has_error(body: Seq<char>) -> bool;

/// The canonical s-expression of the root node of a fresh parse of `body`
/// with the Python grammar. Deterministic in the text alone.
pub uninterp spec fn py_parse_shape(body: Seq<char>) -> Seq<char>;

/// What one re-parse of a comment body yields: the error flag and the
/// canonical shape of the resulting tree.
pub struct ParseOutcome {
    pub has_error: bool,
    pub shape: String,
}

/// A parser that always carries the Python grammar: the only constructor
/// loads it, and nothing can replace it afterwards.
pub struct PyParser {
    inner: tree_sitter::Parser,
}

impl PyParser {
    /// Relies on tree_sitter::Parser::new and Parser::set_language with
    /// tree_sitter_python::LANGUAGE: `None` exactly when the Python grammar
    /// cannot be loaded into the parser.
    #[verifier::external_body]
    pub fn new() -> (r: Option<PyParser>) {
        let mut p = tree_sitter::Parser::new();
        match p.set_language(&tree_sitter_python::LANGUAGE.into()) {
            Ok(()) => Some(PyParser { inner: p }),
            Err(_) => None,
        }
    }

    /// Relies on tree_sitter::Parser::parse (a fresh parse of `body`, no old
    /// tree, with the grammar this parser was built with — always Python
    /// here), Tree::root_node, Node::has_error and Node::to_sexp. With a
    /// fixed grammar all four are deterministic in the parsed text, so the
    /// outcome is a function of `body` alone. `parse` returns `None` only
    /// when no language is assigned or a progress callback cancels: the sole
    /// constructor assigns the Python grammar, nothing can unset it, and the
    /// plain `parse` call passes no callback — so the call always succeeds.
    #[verifier::external_body]
    pub fn parse_outcome(&mut self, body: &str) -> (r: Option<ParseOutcome>)
        ensures
            r is Some,
            r matches Some(o) ==> o.has_error == py_parse_has_error(body@) && o.shape@
                == py_parse_shape(body@),
    {
        let tree = self.inner.parse(body, None)?;
        let root = tree.root_node();
        Some(ParseOutcome { has_error: root.has_error(), shape: root.to_sexp() })
    }
}

} // verus!
