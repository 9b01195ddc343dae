use adder_jit::asm_text::compile;
use adder_jit::asm_text::instr_to_str;
use adder_jit::asm_text::instrs_to_str;
use adder_jit::asm_text::reg_to_index;
use adder_jit::asm_text::val_to_str;
use adder_jit::ast::CompileError;
use adder_jit::emit::emit_program;
use adder_jit::emit::entry_offset;
use adder_jit::emit::finalize;
use adder_jit::emit::image_bytes;
use adder_jit::emit::instrs_to_asm;
use adder_jit::emit::new_code_buf;
use adder_jit::emit::push_ret;
use adder_jit::ir::Instr;
use adder_jit::ir::Reg;
use adder_jit::ir::Val;
use adder_jit::ir::compile_to_instrs;
use adder_jit::surface::parse_program;

#[test]
fn literal_renders_to_one_move_line() {
    let e = parse_program("5").unwrap();
    assert_eq!(compile(&e), "mov RAX, DWORD 5");
}

#[test]
fn add1_renders_to_two_lines() {
    let e = parse_program("(add1 5)").unwrap();
    assert_eq!(compile(&e), "mov RAX, DWORD 5\nadd RAX, DWORD 1");
}

#[test]
fn nested_expression_renders_one_line_per_node() {
    let e = parse_program("(add1 (sub1 (add1 73)))").unwrap();
    let text = compile(&e);
    assert_eq!(
        text,
        "mov RAX, DWORD 73\nadd RAX, DWORD 1\nsub RAX, DWORD 1\nadd RAX, DWORD 1"
    );
    let lines = text.split('\n').count();
    assert_eq!(lines, 4);
}

#[test]
fn operands_render_with_width_annotation() {
    assert_eq!(val_to_str(&Val::Reg(Reg::RAX)), "RAX");
    assert_eq!(val_to_str(&Val::Imm(0)), "DWORD 0");
    assert_eq!(val_to_str(&Val::Imm(-7)), "DWORD -7");
    assert_eq!(val_to_str(&Val::Imm(1234567890)), "DWORD 1234567890");
    assert_eq!(val_to_str(&Val::Imm(-2147483648)), "DWORD -2147483648");
}

#[test]
fn instructions_render_their_mnemonics() {
    let d = Val::Reg(Reg::RAX);
    assert_eq!(instr_to_str(&Instr::IMov(d, Val::Imm(3))), "mov RAX, DWORD 3");
    assert_eq!(instr_to_str(&Instr::IAdd(d, Val::Imm(1))), "add RAX, DWORD 1");
    assert_eq!(instr_to_str(&Instr::ISub(d, Val::Imm(1))), "sub RAX, DWORD 1");
}

#[test]
fn rendering_an_empty_sequence_is_empty() {
    assert_eq!(instrs_to_str(&vec![]), "");
}

#[test]
fn accumulator_encodes_as_register_zero() {
    assert_eq!(reg_to_index(&Reg::RAX), 0);
}

#[test]
fn lowering_twice_yields_identical_sequences() {
    let e = parse_program("(add1 (sub1 8))").unwrap();
    let first = compile_to_instrs(&e);
    let second = compile_to_instrs(&e);
    assert_eq!(first, second);
}

#[test]
fn emitted_image_holds_the_encoding_and_the_return() {
    let e = parse_program("5").unwrap();
    let cmds = compile_to_instrs(&e);
    let (entry, image) = emit_program(&cmds).unwrap();
    assert_eq!(entry, 0);
    assert_eq!(
        image_bytes(&image),
        vec![0x48, 0xc7, 0xc0, 0x05, 0x00, 0x00, 0x00, 0xc3]
    );
}

#[test]
fn emitted_image_encodes_add_and_sub() {
    let e = parse_program("(sub1 (add1 5))").unwrap();
    let cmds = compile_to_instrs(&e);
    let (entry, image) = emit_program(&cmds).unwrap();
    assert_eq!(entry, 0);
    assert_eq!(
        image_bytes(&image),
        vec![
            0x48, 0xc7, 0xc0, 0x05, 0x00, 0x00, 0x00, // mov rax, 5
            0x48, 0x81, 0xc0, 0x01, 0x00, 0x00, 0x00, // add rax, 1
            0x48, 0x81, 0xe8, 0x01, 0x00, 0x00, 0x00, // sub rax, 1
            0xc3, // ret
        ]
    );
}

#[test]
fn emitted_immediates_are_little_endian_twos_complement() {
    let cmds = vec![Instr::IMov(Val::Reg(Reg::RAX), Val::Imm(-2))];
    let (_, image) = emit_program(&cmds).unwrap();
    assert_eq!(
        image_bytes(&image),
        vec![0x48, 0xc7, 0xc0, 0xfe, 0xff, 0xff, 0xff, 0xc3]
    );
}

#[test]
fn buffer_hosts_sequential_routines() {
    let mut buf = new_code_buf().unwrap();
    assert_eq!(entry_offset(&buf), 0);
    let first = vec![Instr::IMov(Val::Reg(Reg::RAX), Val::Imm(1))];
    instrs_to_asm(&first, &mut buf).unwrap();
    push_ret(&mut buf);
    let second_entry = entry_offset(&buf);
    assert_eq!(second_entry, 8);
    let second = vec![Instr::IMov(Val::Reg(Reg::RAX), Val::Imm(2))];
    instrs_to_asm(&second, &mut buf).unwrap();
    push_ret(&mut buf);
    let image = finalize(buf).unwrap();
    let bytes = image_bytes(&image);
    assert_eq!(bytes.len(), 16);
    assert_eq!(
        bytes[8..].to_vec(),
        vec![0x48, 0xc7, 0xc0, 0x02, 0x00, 0x00, 0x00, 0xc3]
    );
}

#[test]
fn emitter_rejects_malformed_instruction() {
    let bad = vec![
        Instr::IMov(Val::Reg(Reg::RAX), Val::Imm(1)),
        Instr::IAdd(Val::Imm(1), Val::Imm(2)),
    ];
    match emit_program(&bad) {
        Err(e) => assert_eq!(e, CompileError::UnsupportedInstruction),
        Ok(_) => panic!("a malformed instruction must be rejected"),
    }
}
