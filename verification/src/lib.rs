//! A miniature ahead-of-time/just-in-time compiler for a unary-arithmetic
//! expression language: parenthesized source text is parsed into an AST of
//! `Num`/`Add1`/`Sub1` nodes, lowered to a linear accumulator-machine IR, and
//! rendered both as assembly text and as executable x86-64 machine code.
pub mod ast;
pub mod asm_text;
pub mod emit;
pub mod ir;
pub mod surface;

pub use ast::CompileError;
pub use ast::Expr;
pub use ast::Node;
pub use ir::Instr;
pub use ir::Reg;
pub use ir::Val;
