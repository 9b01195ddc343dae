//! Surface syntax nodes, the expression AST, and the AST builder.
use vstd::prelude::*;
use vstd::string::StringExecFns;

verus! {

/// The error taxonomy of the whole pipeline. Every stage aborts on the first
/// failure; no error is recoverable mid-compilation.
#[derive(Clone, Copy, Debug, PartialEq, Eq, Structural)]
pub enum CompileError {
    /// Malformed or unrecognized surface syntax.
    ParseError,
    /// An integer literal does not fit the 32-bit target width.
    RangeError,
    /// An IR instruction deviates from the shape the back ends accept.
    UnsupportedInstruction,
    /// A code buffer could not be turned into executable memory.
    FinalizeError,
}

/// A generic surface-syntax tree: an atom (integer or symbol) or a list of
/// nodes. The surface parser produces values of this shape; the AST builder
/// consumes them.
#[derive(Debug, PartialEq)]
pub enum Node {
    Int(i64),
    Sym(String),
    List(Vec<Node>),
}

/// The expression AST: an integer literal, an increment, or a decrement.
/// Each compound node exclusively owns its operand subtree.
#[derive(Debug, PartialEq)]
pub enum Expr {
    Num(i32),
    Add1(Box<Expr>),
    Sub1(Box<Expr>),
}

/// The arithmetic meaning of an expression, over unbounded integers.
pub open spec fn eval(e: Expr) -> int
    decreases e,
{
    match e {
        Expr::Num(n) => n as int,
        Expr::Add1(sub) => eval(*sub) + 1,
        Expr::Sub1(sub) => eval(*sub) - 1,
    }
}

/// The number of nodes of an expression tree.
pub open spec fn node_count(e: Expr) -> nat
    decreases e,
{
    match e {
        Expr::Num(_) => 1,
        Expr::Add1(sub) => 1 + node_count(*sub),
        Expr::Sub1(sub) => 1 + node_count(*sub),
    }
}

/// What the AST builder returns for every surface node: `Num` for an in-range
/// integer atom, `RangeError` for an integer atom out of the 32-bit width,
/// `Add1`/`Sub1` for a two-element list headed by the matching symbol, and
/// `ParseError` for every other shape.
pub open spec fn build_spec(n: Node) -> Result<Expr, CompileError>
    decreases n,
{
    match n {
        Node::Int(v) => if i32::MIN <= v <= i32::MAX {
            Ok(Expr::Num(v as i32))
        } else {
            Err(CompileError::RangeError)
        },
        Node::Sym(_) => Err(CompileError::ParseError),
        Node::List(items) => if items@.len() != 2 {
            Err(CompileError::ParseError)
        } else {
            match items@[0] {
                Node::Sym(op) => if op@ == "add1"@ {
                    match build_spec(items@[1]) {
                        Ok(e) => Ok(Expr::Add1(Box::new(e))),
                        Err(err) => Err(err),
                    }
                } else if op@ == "sub1"@ {
                    match build_spec(items@[1]) {
                        Ok(e) => Ok(Expr::Sub1(Box::new(e))),
                        Err(err) => Err(err),
                    }
                } else {
                    Err(CompileError::ParseError)
                },
                _ => Err(CompileError::ParseError),
            }
        },
    }
}

/// Builds the typed expression AST from a generic surface node, rejecting
/// every node that is not an in-range integer atom or a well-formed
/// `(add1 e)` / `(sub1 e)` list.
pub fn parse_expr(n: &Node) -> (r: Result<Expr, CompileError>)
    ensures
        r == build_spec(*n),
    decreases *n,
{
    match n {
        Node::Int(v) => {
            if *v >= -0x8000_0000i64 && *v <= 0x7fff_ffffi64 {
                Ok(Expr::Num(*v as i32))
            } else {
                Err(CompileError::RangeError)
            }
        },
        Node::Sym(_) => Err(CompileError::ParseError),
        Node::List(items) => {
            if items.len() != 2 {
                return Err(CompileError::ParseError);
            }
            let head = &items[0];
            match head {
                Node::Sym(op) => {
                    let add1 = String::from_str("add1");
                    let sub1 = String::from_str("sub1");
                    if *op == add1 {
                        match parse_expr(&items[1]) {
                            Ok(e) => Ok(Expr::Add1(Box::new(e))),
                            Err(err) => Err(err),
                        }
                    } else if *op == sub1 {
                        match parse_expr(&items[1]) {
                            Ok(e) => Ok(Expr::Sub1(Box::new(e))),
                            Err(err) => Err(err),
                        }
                    } else {
                        Err(CompileError::ParseError)
                    }
                },
                _ => Err(CompileError::ParseError),
            }
        },
    }
}

} // verus!
