//! The assembly renderer: serializes an instruction sequence into textual
//! assembly, one mnemonic line per instruction, lines joined by newlines.
use vstd::prelude::*;
use vstd::string::StringExecFns;
use crate::ast::{Expr, node_count};
use crate::ir::{Instr, Reg, Val, lower_spec, compile_to_instrs, lemma_lowering_shape};

verus! {

/// The character of a single decimal digit.
pub open spec fn digit_char(d: nat) -> char {
    ((d + 48) as u8) as char
}

/// The decimal digits of a natural number, most significant first.
pub open spec fn dec_digits(n: nat) -> Seq<char>
    decreases n,
{
    if n < 10 {
        seq![digit_char(n)]
    } else {
        dec_digits(n / 10).push(digit_char(n % 10))
    }
}

/// The decimal rendering of an integer: a minus sign for negatives, then the
/// digits of its magnitude.
pub open spec fn dec_str(n: int) -> Seq<char> {
    if n < 0 {
        seq!['-'] + dec_digits((-n) as nat)
    } else {
        dec_digits(n as nat)
    }
}

/// The textual name of a register.
pub open spec fn reg_str(r: Reg) -> Seq<char> {
    "RAX"@
}

/// The textual form of an operand: the register name, or the immediate with
/// its width annotation.
pub open spec fn val_str(v: Val) -> Seq<char> {
    match v {
        Val::Reg(r) => reg_str(r),
        Val::Imm(n) => "DWORD "@ + dec_str(n as int),
    }
}

/// The one-line textual form of an instruction: mnemonic, destination,
/// comma, source.
pub open spec fn instr_str(i: Instr) -> Seq<char> {
    match i {
        Instr::IMov(dst, src) => "mov "@ + val_str(dst) + ", "@ + val_str(src),
        Instr::IAdd(dst, src) => "add "@ + val_str(dst) + ", "@ + val_str(src),
        Instr::ISub(dst, src) => "sub "@ + val_str(dst) + ", "@ + val_str(src),
    }
}

/// The rendering of a whole instruction sequence: the instruction lines
/// joined with a newline, no trailing terminator.
pub open spec fn render_spec(s: Seq<Instr>) -> Seq<char>
    decreases s.len(),
{
    if s.len() == 0 {
        Seq::<char>::empty()
    } else if s.len() == 1 {
        instr_str(s[0])
    } else {
        render_spec(s.drop_last()) + "\n"@ + instr_str(s.last())
    }
}

/// The number of newline characters of a text.
pub open spec fn newline_count(s: Seq<char>) -> nat
    decreases s.len(),
{
    if s.len() == 0 {
        0
    } else {
        newline_count(s.drop_last()) + if s.last() == '\n' {
            1nat
        } else {
            0nat
        }
    }
}

/// The number of newline-separated lines of a nonempty text.
pub open spec fn line_count(s: Seq<char>) -> nat {
    newline_count(s) + 1
}

/// Newlines are counted piecewise over a concatenation.
pub proof fn lemma_newline_count_append(a: Seq<char>, b: Seq<char>)
    ensures
        newline_count(a + b) == newline_count(a) + newline_count(b),
    decreases b.len(),
{
    if b.len() == 0 {
        assert(a + b =~= a);
    } else {
        assert((a + b).drop_last() =~= a + b.drop_last());
        assert((a + b).last() == b.last());
        lemma_newline_count_append(a, b.drop_last());
    }
}

/// A text without a newline character has a newline count of zero.
pub proof fn lemma_no_newline(s: Seq<char>)
    requires
        forall|j: int| 0 <= j < s.len() ==> s[j] != '\n',
    ensures
        newline_count(s) == 0,
    decreases s.len(),
{
    if s.len() > 0 {
        lemma_no_newline(s.drop_last());
    }
}

/// A decimal digit character: code 48 through 57.
pub open spec fn is_digit_char(c: char) -> bool {
    let code: int = c as int;
    48 <= code && code < 58
}

/// Every character of a decimal rendering of a natural number is a digit.
pub proof fn lemma_dec_digits_are_digits(n: nat)
    ensures
        forall|j: int| 0 <= j < dec_digits(n).len() ==> is_digit_char(#[trigger] dec_digits(n)[j]),
    decreases n,
{
    if n < 10 {
        assert(digit_char(n) as int == n + 48);
        assert(dec_digits(n)[0] == digit_char(n));
    } else {
        lemma_dec_digits_are_digits(n / 10);
        assert(digit_char(n % 10) as int == n % 10 + 48);
        let s = dec_digits(n / 10);
        let w = dec_digits(n);
        assert(w == s.push(digit_char(n % 10)));
        assert forall|j: int| 0 <= j < w.len() implies is_digit_char(w[j]) by {
            if j < s.len() {
                assert(w[j] == s[j]);
            } else {
                assert(w[j] == digit_char(n % 10));
            }
        }
    }
}

/// An instruction renders to a single line: its text holds no newline.
pub proof fn lemma_instr_str_no_newline(i: Instr)
    ensures
        newline_count(instr_str(i)) == 0,
{
    reveal_strlit("mov ");
    reveal_strlit("add ");
    reveal_strlit("sub ");
    reveal_strlit(", ");
    reveal_strlit("DWORD ");
    reveal_strlit("RAX");
    let (dst, src) = match i {
        Instr::IMov(d, s) => (d, s),
        Instr::IAdd(d, s) => (d, s),
        Instr::ISub(d, s) => (d, s),
    };
    lemma_val_str_no_newline(dst);
    lemma_val_str_no_newline(src);
    match i {
        Instr::IMov(d, s) => {
            lemma_newline_count_append("mov "@, val_str(d));
            lemma_newline_count_append("mov "@ + val_str(d), ", "@);
            lemma_newline_count_append("mov "@ + val_str(d) + ", "@, val_str(s));
            lemma_no_newline("mov "@);
            lemma_no_newline(", "@);
        },
        Instr::IAdd(d, s) => {
            lemma_newline_count_append("add "@, val_str(d));
            lemma_newline_count_append("add "@ + val_str(d), ", "@);
            lemma_newline_count_append("add "@ + val_str(d) + ", "@, val_str(s));
            lemma_no_newline("add "@);
            lemma_no_newline(", "@);
        },
        Instr::ISub(d, s) => {
            lemma_newline_count_append("sub "@, val_str(d));
            lemma_newline_count_append("sub "@ + val_str(d), ", "@);
            lemma_newline_count_append("sub "@ + val_str(d) + ", "@, val_str(s));
            lemma_no_newline("sub "@);
            lemma_no_newline(", "@);
        },
    }
}

/// An operand's text holds no newline.
pub proof fn lemma_val_str_no_newline(v: Val)
    ensures
        newline_count(val_str(v)) == 0,
{
    reveal_strlit("DWORD ");
    reveal_strlit("RAX");
    match v {
        Val::Reg(r) => {
            lemma_no_newline("RAX"@);
        },
        Val::Imm(n) => {
            lemma_dec_digits_are_digits(if n < 0 {
                (-n) as nat
            } else {
                n as nat
            });
            lemma_no_newline(dec_str(n as int));
            lemma_newline_count_append("DWORD "@, dec_str(n as int));
            lemma_no_newline("DWORD "@);
        },
    }
}

/// A nonempty instruction sequence renders to exactly one line per
/// instruction.
pub proof fn lemma_render_line_count(s: Seq<Instr>)
    requires
        s.len() > 0,
    ensures
        line_count(render_spec(s)) == s.len(),
    decreases s.len(),
{
    reveal_strlit("\n");
    if s.len() == 1 {
        lemma_instr_str_no_newline(s[0]);
    } else {
        lemma_render_line_count(s.drop_last());
        lemma_instr_str_no_newline(s.last());
        lemma_newline_count_append(render_spec(s.drop_last()), "\n"@);
        lemma_newline_count_append(render_spec(s.drop_last()) + "\n"@, instr_str(s.last()));
        assert(newline_count("\n"@) == 1) by {
            reveal_strlit("\n");
            reveal_with_fuel(newline_count, 3);
            assert("\n"@.len() == 1);
            assert("\n"@.last() == '\n');
            assert("\n"@.drop_last() =~= Seq::<char>::empty());
        };
    }
}

/// Rendering the lowering of an expression yields one line per AST node:
/// the line count of the text equals the node count of the tree.
pub proof fn lemma_render_lower_line_count(e: Expr)
    ensures
        line_count(render_spec(lower_spec(e))) == node_count(e),
{
    lemma_lowering_shape(e);
    lemma_render_line_count(lower_spec(e));
}

/// Appends the decimal digits of `n` to `out`.
fn push_digits(n: u32, out: &mut String)
    ensures
        final(out)@ == old(out)@ + dec_digits(n as nat),
    decreases n,
{
    if n >= 10 {
        push_digits(n / 10, out);
    }
    let ghost mid = out@;
    let d: u32 = n % 10;
    match d {
        0u32 => out.append("0"),
        1u32 => out.append("1"),
        2u32 => out.append("2"),
        3u32 => out.append("3"),
        4u32 => out.append("4"),
        5u32 => out.append("5"),
        6u32 => out.append("6"),
        7u32 => out.append("7"),
        8u32 => out.append("8"),
        9u32 => out.append("9"),
        _ => {
            proof {
                assert(false);
            }
        },
    }
    proof {
        reveal_strlit("0");
        reveal_strlit("1");
        reveal_strlit("2");
        reveal_strlit("3");
        reveal_strlit("4");
        reveal_strlit("5");
        reveal_strlit("6");
        reveal_strlit("7");
        reveal_strlit("8");
        reveal_strlit("9");
        assert(out@ =~= mid + seq![digit_char(d as nat)]);
        if n >= 10 {
            assert(dec_digits(n as nat) == dec_digits(n as nat / 10).push(digit_char(n as nat % 10)));
            assert(out@ =~= old(out)@ + dec_digits(n as nat));
        } else {
            assert(out@ =~= old(out)@ + dec_digits(n as nat));
        }
    }
}

/// Appends the decimal rendering of a 32-bit integer to `out`.
fn push_dec(n: i32, out: &mut String)
    ensures
        final(out)@ == old(out)@ + dec_str(n as int),
{
    if n < 0 {
        out.append("-");
        let m: u32 = (-(n as i64)) as u32;
        push_digits(m, out);
        proof {
            reveal_strlit("-");
            assert("-"@ =~= seq!['-']);
            assert(out@ =~= old(out)@ + dec_str(n as int));
        }
    } else {
        push_digits(n as u32, out);
    }
}

/// The index a register encodes to in machine code.
pub open spec fn reg_index(r: Reg) -> u8 {
    match r {
        Reg::RAX => 0,
    }
}

/// Maps a register name to its machine encoding index.
pub fn reg_to_index(r: &Reg) -> (i: u8)
    ensures
        i == reg_index(*r),
{
    match r {
        Reg::RAX => 0,
    }
}

/// Renders an operand: the register name, or `DWORD` and the immediate.
pub fn val_to_str(v: &Val) -> (r: String)
    ensures
        r@ == val_str(*v),
{
    match v {
        Val::Reg(reg) => match reg {
            Reg::RAX => String::from_str("RAX"),
        },
        Val::Imm(n) => {
            let mut s = String::from_str("DWORD ");
            push_dec(*n, &mut s);
            s
        },
    }
}

/// Renders one instruction as its single assembly line.
pub fn instr_to_str(i: &Instr) -> (r: String)
    ensures
        r@ == instr_str(*i),
{
    let (mnemonic, dst, src): (&str, &Val, &Val) = match i {
        Instr::IMov(v1, v2) => ("mov ", v1, v2),
        Instr::IAdd(v1, v2) => ("add ", v1, v2),
        Instr::ISub(v1, v2) => ("sub ", v1, v2),
    };
    let mut s = String::from_str(mnemonic);
    let dst_s = val_to_str(dst);
    s.append(dst_s.as_str());
    s.append(", ");
    let src_s = val_to_str(src);
    s.append(src_s.as_str());
    s
}

/// Renders a whole instruction sequence, one line per instruction, joined
/// with newlines.
pub fn instrs_to_str(cmds: &Vec<Instr>) -> (r: String)
    ensures
        r@ == render_spec(cmds@),
{
    let mut out = String::new();
    let mut idx: usize = 0;
    while idx < cmds.len()
        invariant
            0 <= idx <= cmds.len(),
            out@ == render_spec(cmds@.take(idx as int)),
        decreases cmds.len() - idx,
    {
        let ghost prefix = cmds@.take(idx as int);
        if idx > 0 {
            out.append("\n");
        }
        let line = instr_to_str(&cmds[idx]);
        out.append(line.as_str());
        proof {
            assert(cmds@.take(idx as int + 1) =~= prefix.push(cmds@[idx as int]));
            let whole = cmds@.take(idx as int + 1);
            assert(whole.drop_last() =~= prefix);
            if idx > 0 {
                assert(out@ =~= render_spec(prefix) + "\n"@ + instr_str(cmds@[idx as int]));
            } else {
                assert(out@ =~= instr_str(cmds@[idx as int]));
            }
        }
        idx = idx + 1;
    }
    proof {
        assert(cmds@.take(cmds@.len() as int) =~= cmds@);
    }
    out
}

/// Compiles an expression to its assembly text: lowers it and renders the
/// instruction sequence.
pub fn compile(e: &Expr) -> (r: String)
    ensures
        r@ == render_spec(lower_spec(*e)),
        line_count(r@) == node_count(*e),
{
    let v = compile_to_instrs(e);
    let r = instrs_to_str(&v);
    proof {
        lemma_render_lower_line_count(*e);
    }
    r
}

} // verus!
