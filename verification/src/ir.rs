//! The instruction-level intermediate representation: a linear sequence of
//! accumulator-machine instructions, the lowering pass that produces it from
//! an AST, its execution semantics, and a reference interpreter.
use vstd::prelude::*;
use crate::ast::{CompileError, Expr, eval, node_count};

verus! {

/// A register name. A single accumulator exists today; the enumeration keeps
/// the IR open to further registers.
#[derive(Clone, Copy, Debug, PartialEq, Eq, Structural)]
pub enum Reg {
    RAX,
}

/// An instruction operand: a register or a 32-bit immediate.
#[derive(Clone, Copy, Debug, PartialEq, Eq, Structural)]
pub enum Val {
    Reg(Reg),
    Imm(i32),
}

/// An IR instruction. The instruction set is wider than what lowering emits:
/// lowering only ever produces a register destination and an immediate
/// source, and the back ends reject every other operand shape.
#[derive(Clone, Copy, Debug, PartialEq, Eq, Structural)]
pub enum Instr {
    IMov(Val, Val),
    IAdd(Val, Val),
    ISub(Val, Val),
}

/// The instruction sequence an expression lowers to: post-order, one
/// instruction per AST node, all of them on the accumulator.
pub open spec fn lower_spec(e: Expr) -> Seq<Instr>
    decreases e,
{
    match e {
        Expr::Num(n) => seq![Instr::IMov(Val::Reg(Reg::RAX), Val::Imm(n))],
        Expr::Add1(sub) => lower_spec(*sub).push(Instr::IAdd(Val::Reg(Reg::RAX), Val::Imm(1))),
        Expr::Sub1(sub) => lower_spec(*sub).push(Instr::ISub(Val::Reg(Reg::RAX), Val::Imm(1))),
    }
}

/// An instruction the back ends accept: register destination, immediate
/// source.
pub open spec fn instr_supported(i: Instr) -> bool {
    match i {
        Instr::IMov(Val::Reg(_), Val::Imm(_)) => true,
        Instr::IAdd(Val::Reg(_), Val::Imm(_)) => true,
        Instr::ISub(Val::Reg(_), Val::Imm(_)) => true,
        _ => false,
    }
}

/// Every instruction of the sequence is one the back ends accept.
pub open spec fn all_supported(s: Seq<Instr>) -> bool {
    forall|i: int| 0 <= i < s.len() ==> instr_supported(#[trigger] s[i])
}

/// The immediate an operand carries (meaningful only for `Imm` operands,
/// the only source shape of supported instructions).
pub open spec fn imm_val(v: Val) -> int {
    match v {
        Val::Imm(n) => n as int,
        Val::Reg(_) => 0,
    }
}

/// The accumulator after one supported instruction runs: `IMov` loads the
/// immediate, `IAdd` adds it, `ISub` subtracts it.
pub open spec fn step(acc: int, i: Instr) -> int {
    match i {
        Instr::IMov(_, src) => imm_val(src),
        Instr::IAdd(_, src) => acc + imm_val(src),
        Instr::ISub(_, src) => acc - imm_val(src),
    }
}

/// The accumulator after a whole instruction sequence runs, started at `acc`.
pub open spec fn exec_instrs(s: Seq<Instr>, acc: int) -> int
    decreases s.len(),
{
    if s.len() == 0 {
        acc
    } else {
        exec_instrs(s.drop_first(), step(acc, s[0]))
    }
}

/// Running one more instruction after a sequence is one more step.
pub proof fn lemma_exec_snoc(s: Seq<Instr>, i: Instr, acc: int)
    ensures
        exec_instrs(s.push(i), acc) == step(exec_instrs(s, acc), i),
    decreases s.len(),
{
    if s.len() == 0 {
        assert(s.push(i)[0] == i);
        assert(s.push(i).drop_first() =~= Seq::<Instr>::empty());
        assert(exec_instrs(s.push(i), acc) == exec_instrs(s.push(i).drop_first(), step(acc, i)));
        assert(exec_instrs(s.push(i).drop_first(), step(acc, i)) == step(acc, i));
    } else {
        assert(s.push(i)[0] == s[0]);
        assert(s.push(i).drop_first() =~= s.drop_first().push(i));
        lemma_exec_snoc(s.drop_first(), i, step(acc, s[0]));
        assert(exec_instrs(s.push(i), acc) == exec_instrs(s.drop_first().push(i), step(acc, s[0])));
    }
}

/// After the instructions an expression lowers to have run, the accumulator
/// holds the arithmetic value of the expression, whatever it held before.
pub proof fn lemma_lowering_evaluates(e: Expr, acc: int)
    ensures
        exec_instrs(lower_spec(e), acc) == eval(e),
    decreases e,
{
    match e {
        Expr::Num(n) => {
            let s = lower_spec(e);
            assert(s[0] == Instr::IMov(Val::Reg(Reg::RAX), Val::Imm(n)));
            assert(s.drop_first() =~= Seq::<Instr>::empty());
            assert(exec_instrs(s, acc) == exec_instrs(s.drop_first(), step(acc, s[0])));
        },
        Expr::Add1(sub) => {
            lemma_lowering_evaluates(*sub, acc);
            lemma_exec_snoc(lower_spec(*sub), Instr::IAdd(Val::Reg(Reg::RAX), Val::Imm(1)), acc);
        },
        Expr::Sub1(sub) => {
            lemma_lowering_evaluates(*sub, acc);
            lemma_exec_snoc(lower_spec(*sub), Instr::ISub(Val::Reg(Reg::RAX), Val::Imm(1)), acc);
        },
    }
}

/// Lowering emits exactly one instruction per AST node, and only supported
/// instructions (register destination, immediate source).
pub proof fn lemma_lowering_shape(e: Expr)
    ensures
        lower_spec(e).len() == node_count(e),
        all_supported(lower_spec(e)),
    decreases e,
{
    match e {
        Expr::Num(_) => {},
        Expr::Add1(sub) => lemma_lowering_shape(*sub),
        Expr::Sub1(sub) => lemma_lowering_shape(*sub),
    }
}

/// Lowering is a pure function of the AST: two instruction sequences lowered
/// from the same expression are identical.
pub proof fn lemma_lowering_idempotent(e: Expr, first: Seq<Instr>, second: Seq<Instr>)
    requires
        first == lower_spec(e),
        second == lower_spec(e),
    ensures
        first == second,
{
}

/// Lowers one expression, appending its instructions to `cmds` in post-order:
/// the operand subtree first, then the instruction of the node itself.
pub fn compile_expr_instrs(e: &Expr, cmds: &mut Vec<Instr>)
    ensures
        final(cmds)@ == old(cmds)@ + lower_spec(*e),
    decreases *e,
{
    match e {
        Expr::Num(n) => {
            cmds.push(Instr::IMov(Val::Reg(Reg::RAX), Val::Imm(*n)));
            assert(final(cmds)@ =~= old(cmds)@ + lower_spec(*e));
        },
        Expr::Add1(sub) => {
            compile_expr_instrs(sub, cmds);
            cmds.push(Instr::IAdd(Val::Reg(Reg::RAX), Val::Imm(1)));
            assert(final(cmds)@ =~= old(cmds)@ + lower_spec(*e));
        },
        Expr::Sub1(sub) => {
            compile_expr_instrs(sub, cmds);
            cmds.push(Instr::ISub(Val::Reg(Reg::RAX), Val::Imm(1)));
            assert(final(cmds)@ =~= old(cmds)@ + lower_spec(*e));
        },
    }
}

/// Lowers an expression to a fresh instruction sequence: one supported
/// instruction per AST node.
pub fn compile_to_instrs(e: &Expr) -> (v: Vec<Instr>)
    ensures
        v@ == lower_spec(*e),
        v@.len() == node_count(*e),
        all_supported(v@),
{
    let mut v: Vec<Instr> = Vec::new();
    compile_expr_instrs(e, &mut v);
    proof {
        assert(v@ =~= lower_spec(*e));
        lemma_lowering_shape(*e);
    }
    v
}

/// Runs an instruction sequence on an accumulator started at zero, as the
/// generated native code would: the reference interpreter of the IR. Returns
/// the final accumulator, or `UnsupportedInstruction` exactly when some
/// instruction deviates from the register-destination/immediate-source shape.
pub fn run_instrs(cmds: &Vec<Instr>) -> (r: Result<i128, CompileError>)
    ensures
        r matches Ok(v) ==> all_supported(cmds@) && v as int == exec_instrs(cmds@, 0),
        r matches Err(e) ==> !all_supported(cmds@) && e == CompileError::UnsupportedInstruction,
{
    let mut acc: i128 = 0;
    let mut idx: usize = 0;
    while idx < cmds.len()
        invariant
            0 <= idx <= cmds.len(),
            all_supported(cmds@.take(idx as int)),
            acc as int == exec_instrs(cmds@.take(idx as int), 0),
            -(idx as int + 1) * 0x8000_0000 <= acc as int <= (idx as int + 1) * 0x8000_0000,
        decreases cmds.len() - idx,
    {
        let ghost prefix = cmds@.take(idx as int);
        let cur = cmds[idx];
        let next: i128 = match cur {
            Instr::IMov(Val::Reg(_), Val::Imm(n)) => n as i128,
            Instr::IAdd(Val::Reg(_), Val::Imm(n)) => acc + n as i128,
            Instr::ISub(Val::Reg(_), Val::Imm(n)) => acc - n as i128,
            _ => {
                return Err(CompileError::UnsupportedInstruction);
            },
        };
        proof {
            lemma_exec_snoc(prefix, cur, 0);
            assert(cmds@.take(idx as int + 1) =~= prefix.push(cur));
        }
        acc = next;
        idx = idx + 1;
    }
    proof {
        assert(cmds@.take(cmds@.len() as int) =~= cmds@);
    }
    Ok(acc)
}

/// Compiles an expression and runs the resulting instruction sequence on the
/// reference interpreter: the result is exactly the arithmetic value of the
/// expression, the behaviour the generated native code must reproduce.
pub fn interpret(e: &Expr) -> (r: i128)
    ensures
        r as int == eval(*e),
{
    let cmds = compile_to_instrs(e);
    proof {
        lemma_lowering_evaluates(*e, 0);
    }
    match run_instrs(&cmds) {
        Ok(v) => v,
        Err(err) => {
            proof {
                assert(false);
            }
            0
        },
    }
}

} // verus!
