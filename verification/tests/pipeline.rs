use adder_jit::ast::CompileError;
use adder_jit::ast::Expr;
use adder_jit::ast::Node;
use adder_jit::ast::parse_expr;
use adder_jit::ir::Instr;
use adder_jit::ir::Reg;
use adder_jit::ir::Val;
use adder_jit::ir::compile_to_instrs;
use adder_jit::ir::interpret;
use adder_jit::ir::run_instrs;
use adder_jit::surface::parse_program;
use adder_jit::surface::parse_source;

#[test]
fn literal_parses_to_num() {
    let e = parse_program("5").unwrap();
    assert_eq!(e, Expr::Num(5));
}

#[test]
fn literal_lowers_to_single_move() {
    let e = parse_program("5").unwrap();
    let instrs = compile_to_instrs(&e);
    assert_eq!(instrs, vec![Instr::IMov(Val::Reg(Reg::RAX), Val::Imm(5))]);
}

#[test]
fn literal_evaluates_to_itself() {
    let e = parse_program("5").unwrap();
    assert_eq!(interpret(&e), 5);
}

#[test]
fn add1_lowers_to_move_then_add() {
    let e = parse_program("(add1 5)").unwrap();
    let instrs = compile_to_instrs(&e);
    assert_eq!(
        instrs,
        vec![
            Instr::IMov(Val::Reg(Reg::RAX), Val::Imm(5)),
            Instr::IAdd(Val::Reg(Reg::RAX), Val::Imm(1)),
        ]
    );
}

#[test]
fn add1_evaluates() {
    let e = parse_program("(add1 5)").unwrap();
    assert_eq!(interpret(&e), 6);
}

#[test]
fn nested_expression_evaluates() {
    let e = parse_program("(add1 (sub1 (add1 73)))").unwrap();
    assert_eq!(interpret(&e), 74);
}

#[test]
fn negative_literal_evaluates() {
    let e = parse_program("(sub1 -5)").unwrap();
    assert_eq!(interpret(&e), -6);
}

#[test]
fn wrong_arity_is_a_parse_error() {
    assert_eq!(parse_program("(add1)"), Err(CompileError::ParseError));
}

#[test]
fn unknown_operator_is_a_parse_error() {
    assert_eq!(parse_program("(mul2 5)"), Err(CompileError::ParseError));
}

#[test]
fn bare_symbol_is_a_parse_error() {
    assert_eq!(parse_program("add1"), Err(CompileError::ParseError));
}

#[test]
fn unbalanced_text_is_a_parse_error() {
    assert_eq!(parse_program("(add1 5"), Err(CompileError::ParseError));
}

#[test]
fn literal_at_width_limit_succeeds() {
    let e = parse_program("2147483647").unwrap();
    assert_eq!(e, Expr::Num(2147483647));
}

#[test]
fn literal_past_width_limit_is_a_range_error() {
    assert_eq!(parse_program("2147483648"), Err(CompileError::RangeError));
}

#[test]
fn negative_limit_boundary() {
    let e = parse_program("-2147483648").unwrap();
    assert_eq!(e, Expr::Num(-2147483648));
    assert_eq!(parse_program("-2147483649"), Err(CompileError::RangeError));
}

#[test]
fn surface_node_carries_the_list_shape() {
    let n = parse_source("(add1 5)").unwrap();
    assert_eq!(
        n,
        Node::List(vec![Node::Sym(String::from("add1")), Node::Int(5)])
    );
}

#[test]
fn builder_rejects_empty_list() {
    assert_eq!(
        parse_expr(&Node::List(vec![])),
        Err(CompileError::ParseError)
    );
}

#[test]
fn builder_rejects_overlong_list() {
    let n = Node::List(vec![
        Node::Sym(String::from("add1")),
        Node::Int(1),
        Node::Int(2),
    ]);
    assert_eq!(parse_expr(&n), Err(CompileError::ParseError));
}

#[test]
fn builder_accepts_nested_lists() {
    let n = Node::List(vec![
        Node::Sym(String::from("sub1")),
        Node::List(vec![Node::Sym(String::from("add1")), Node::Int(7)]),
    ]);
    let e = parse_expr(&n).unwrap();
    assert_eq!(e, Expr::Sub1(Box::new(Expr::Add1(Box::new(Expr::Num(7))))));
}

#[test]
fn interpreter_rejects_malformed_instruction() {
    let bad = vec![Instr::IMov(Val::Imm(1), Val::Imm(2))];
    assert_eq!(run_instrs(&bad), Err(CompileError::UnsupportedInstruction));
}

#[test]
fn interpreter_runs_register_destination_forms() {
    let cmds = vec![
        Instr::IMov(Val::Reg(Reg::RAX), Val::Imm(40)),
        Instr::IAdd(Val::Reg(Reg::RAX), Val::Imm(1)),
        Instr::IAdd(Val::Reg(Reg::RAX), Val::Imm(1)),
        Instr::ISub(Val::Reg(Reg::RAX), Val::Imm(2)),
    ];
    assert_eq!(run_instrs(&cmds), Ok(40));
}
