//! The surface parser boundary: the sexp crate reads the parenthesized
//! source text, and its tree is converted into the library's own surface
//! nodes. The parse is an outside capability, a pure function of the source
//! text alone, so its result is named and every pipeline entry is tied to
//! that name.
use vstd::prelude::*;
use crate::ast::{CompileError, Expr, Node, build_spec, parse_expr};

verus! {

#[verifier::external_type_specification]
#[verifier::external_body]
pub struct ExSexp(sexp::Sexp);

/// The surface node a source text parses to: `Some` exactly when the sexp
/// grammar accepts the text as one expression whose atoms are integers or
/// symbols, `None` otherwise. The parse depends on the characters alone.
pub uninterp spec fn parse_node_spec(src: Seq<char>) -> Option<Node>;

/// Relies on the shape of sexp::Sexp: an atom holding an integer, a symbol
/// or a float, or a list of nodes. Integer and symbol atoms and lists are
/// carried over one for one; a float atom, which this language has no use
/// for, becomes `None`.
#[verifier::external_body]
fn sexp_to_node(s: &sexp::Sexp) -> (r: Option<Node>) {
    match s {
        sexp::Sexp::Atom(sexp::Atom::I(n)) => Some(Node::Int(*n)),
        sexp::Sexp::Atom(sexp::Atom::S(sym)) => Some(Node::Sym(sym.clone())),
        sexp::Sexp::Atom(sexp::Atom::F(_)) => None,
        sexp::Sexp::List(items) => {
            let mut out: Vec<Node> = Vec::new();
            for item in items {
                out.push(sexp_to_node(item)?);
            }
            Some(Node::List(out))
        },
    }
}

/// Relies on sexp::parse to read one parenthesized expression from the
/// source text; the tree is carried over into the library's nodes by
/// `sexp_to_node`, and a text the parser rejects becomes `None`.
#[verifier::external_body]
fn parse_text(src: &str) -> (r: Option<Node>)
    ensures
        r == parse_node_spec(src@),
{
    match sexp::parse(src) {
        Ok(s) => sexp_to_node(&s),
        Err(_) => None,
    }
}

/// Parses source text into a surface node: exactly the node the text parses
/// to, or `ParseError` when the surface parser rejects the text or the tree
/// holds an atom this language has no use for.
pub fn parse_source(src: &str) -> (r: Result<Node, CompileError>)
    ensures
        r == (match parse_node_spec(src@) {
            Some(n) => Ok::<Node, CompileError>(n),
            None => Err::<Node, CompileError>(CompileError::ParseError),
        }),
{
    match parse_text(src) {
        Some(n) => Ok(n),
        None => Err(CompileError::ParseError),
    }
}

/// Parses source text all the way to the typed AST: the AST builder's exact
/// result on the node the text parses to, or `ParseError` when the surface
/// parser rejects the text.
pub fn parse_program(src: &str) -> (r: Result<Expr, CompileError>)
    ensures
        r == (match parse_node_spec(src@) {
            Some(n) => build_spec(n),
            None => Err::<Expr, CompileError>(CompileError::ParseError),
        }),
{
    let node = match parse_source(src) {
        Ok(n) => n,
        Err(e) => {
            return Err(e);
        },
    };
    parse_expr(&node)
}

} // verus!
