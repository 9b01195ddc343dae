//! The native code emitter and execution host: encodes the IR into x86-64
//! machine-code bytes, collects them in a growable code buffer, and seals the
//! buffer into executable memory. The buffer and the sealed image live in the
//! dynasmrt crate; every call into it stands behind a trusted item whose
//! contract speaks of the byte sequences the buffer holds.
use vstd::prelude::*;
use crate::ast::CompileError;
use crate::ir::{Instr, Val, all_supported, instr_supported};
use crate::asm_text::{reg_index, reg_to_index};
use dynasmrt::DynasmApi;

verus! {

/// The value of a 32-bit immediate as an unsigned 32-bit word, two's
/// complement for negatives.
pub open spec fn imm32(n: i32) -> int {
    if n >= 0 {
        n as int
    } else {
        n as int + 0x1_0000_0000
    }
}

/// The four little-endian bytes of a 32-bit immediate.
pub open spec fn imm_bytes(n: i32) -> Seq<u8> {
    let w: int = imm32(n);
    seq![
        (w % 256) as u8,
        ((w / 256) % 256) as u8,
        ((w / 65536) % 256) as u8,
        (w / 16777216) as u8,
    ]
}

/// The ModRM byte of a register-direct operand: mode 3, an opcode extension,
/// and the register index.
pub open spec fn modrm(opext: u8, reg: u8) -> u8
    recommends
        opext < 8,
        reg < 8,
{
    (0xc0 + opext * 8 + reg) as u8
}

/// The x86-64 encoding of one supported instruction, operating on a 64-bit
/// register with a sign-extended 32-bit immediate: a REX.W prefix, the
/// opcode, a register-direct ModRM byte, and the immediate.
pub open spec fn encode_instr(i: Instr) -> Seq<u8> {
    match i {
        Instr::IMov(Val::Reg(r), Val::Imm(n)) => seq![0x48u8, 0xc7u8, modrm(0, reg_index(r))]
            + imm_bytes(n),
        Instr::IAdd(Val::Reg(r), Val::Imm(n)) => seq![0x48u8, 0x81u8, modrm(0, reg_index(r))]
            + imm_bytes(n),
        Instr::ISub(Val::Reg(r), Val::Imm(n)) => seq![0x48u8, 0x81u8, modrm(5, reg_index(r))]
            + imm_bytes(n),
        _ => Seq::<u8>::empty(),
    }
}

/// The encoding of a whole instruction sequence, in instruction order.
pub open spec fn encode_seq(s: Seq<Instr>) -> Seq<u8>
    decreases s.len(),
{
    if s.len() == 0 {
        Seq::<u8>::empty()
    } else {
        encode_seq(s.drop_last()) + encode_instr(s.last())
    }
}

/// The single-byte near-return instruction that hands control back to the
/// invoker.
pub open spec fn ret_byte() -> u8 {
    0xc3
}

/// A growable, write-only code buffer: machine-code bytes are appended while
/// it is writable, and sealing it consumes it, so no byte can be appended to
/// a sealed image. The backing store is a dynasmrt x86-64 assembler; it is
/// created empty here and only ever grows by single bytes, so it never holds
/// a label or relocation, the one condition under which dynasmrt refuses to
/// commit a buffer.
#[verifier::external_body]
pub struct CodeBuf {
    inner: dynasmrt::x64::Assembler,
}

/// The bytes a code buffer holds, in the order they were appended.
pub uninterp spec fn code_bytes(b: CodeBuf) -> Seq<u8>;

/// The bytes a sealed executable image holds.
pub uninterp spec fn image_bytes_spec(b: dynasmrt::ExecutableBuffer) -> Seq<u8>;

#[verifier::external_type_specification]
#[verifier::external_body]
pub struct ExExecutableBuffer(dynasmrt::ExecutableBuffer);

impl CodeBuf {
    /// Relies on dynasmrt::Assembler::new: a fresh assembler holds no bytes.
    /// Creation fails only when the operating system refuses the memory map.
    #[verifier::external_body]
    fn make() -> (r: Result<CodeBuf, CompileError>)
        ensures
            r matches Ok(b) ==> code_bytes(b) == Seq::<u8>::empty(),
            r matches Err(e) ==> e == CompileError::FinalizeError,
    {
        match dynasmrt::x64::Assembler::new() {
            Ok(inner) => Ok(CodeBuf { inner }),
            Err(_) => Err(CompileError::FinalizeError),
        }
    }

    /// Relies on dynasmrt::DynasmApi::offset for an assembler: the offset is
    /// the count of bytes assembled so far.
    #[verifier::external_body]
    fn current_offset(&self) -> (r: usize)
        ensures
            r as nat == code_bytes(*self).len(),
    {
        self.inner.offset().0
    }

    /// Relies on dynasmrt::DynasmApi::push for an assembler: it appends one
    /// byte to the assembling target.
    #[verifier::external_body]
    fn push_byte(&mut self, b: u8)
        ensures
            code_bytes(*final(self)) == code_bytes(*old(self)).push(b),
    {
        self.inner.push(b);
    }

    /// Relies on dynasmrt::Assembler::finalize: it seals the assembled bytes
    /// into an immutable executable memory region holding exactly those
    /// bytes. A buffer of this module holds no labels or relocations, so the
    /// commit it performs cannot fail; sealing fails only while a reader of
    /// the memory exists, and this module hands none out.
    #[verifier::external_body]
    fn seal(self) -> (r: Result<dynasmrt::ExecutableBuffer, CompileError>)
        ensures
            r matches Ok(eb) ==> image_bytes_spec(eb) == code_bytes(self),
            r matches Err(e) ==> e == CompileError::FinalizeError,
    {
        match self.inner.finalize() {
            Ok(eb) => Ok(eb),
            Err(_) => Err(CompileError::FinalizeError),
        }
    }
}

/// Relies on dynasmrt::ExecutableBuffer dereferencing to the byte slice of
/// the sealed region: the copy holds exactly the image's bytes.
#[verifier::external_body]
fn image_to_vec(eb: &dynasmrt::ExecutableBuffer) -> (v: Vec<u8>)
    ensures
        v@ == image_bytes_spec(*eb),
{
    (&**eb).to_vec()
}

/// Creates an empty writable code buffer; `FinalizeError` when the operating
/// system refuses the backing memory.
pub fn new_code_buf() -> (r: Result<CodeBuf, CompileError>)
    ensures
        r matches Ok(b) ==> code_bytes(b) == Seq::<u8>::empty(),
        r matches Err(e) ==> e == CompileError::FinalizeError,
{
    CodeBuf::make()
}

/// The current entry offset of a code buffer: the position the next emitted
/// byte will occupy. Recorded before a program is emitted, it locates the
/// program inside the sealed image.
pub fn entry_offset(buf: &CodeBuf) -> (r: usize)
    ensures
        r as nat == code_bytes(*buf).len(),
{
    buf.current_offset()
}

/// Seals a code buffer into an immutable executable image holding exactly
/// the emitted bytes; the buffer is consumed, so nothing can be appended
/// afterwards.
pub fn finalize(buf: CodeBuf) -> (r: Result<dynasmrt::ExecutableBuffer, CompileError>)
    ensures
        r matches Ok(eb) ==> image_bytes_spec(eb) == code_bytes(buf),
        r matches Err(e) ==> e == CompileError::FinalizeError,
{
    buf.seal()
}

/// Copies a sealed image's bytes back out as plain data.
pub fn image_bytes(eb: &dynasmrt::ExecutableBuffer) -> (v: Vec<u8>)
    ensures
        v@ == image_bytes_spec(*eb),
{
    image_to_vec(eb)
}

/// Appends the four little-endian bytes of a 32-bit immediate.
fn push_imm(n: i32, ops: &mut CodeBuf)
    ensures
        code_bytes(*final(ops)) == code_bytes(*old(ops)) + imm_bytes(n),
{
    let w: u32 = if n >= 0 {
        n as u32
    } else {
        ((n as i64) + 0x1_0000_0000i64) as u32
    };
    ops.push_byte((w % 256) as u8);
    ops.push_byte(((w / 256) % 256) as u8);
    ops.push_byte(((w / 65536) % 256) as u8);
    ops.push_byte((w / 16777216) as u8);
    proof {
        assert(w as int == imm32(n));
        assert(code_bytes(*ops) =~= code_bytes(*old(ops)) + imm_bytes(n));
    }
}

/// Emits the machine code of one instruction into the buffer; rejects, and
/// leaves the buffer unchanged, exactly when the instruction deviates from
/// the register-destination/immediate-source shape.
pub fn instr_to_asm(i: &Instr, ops: &mut CodeBuf) -> (r: Result<(), CompileError>)
    ensures
        r matches Ok(u) ==> instr_supported(*i) && code_bytes(*final(ops)) == code_bytes(*old(ops))
            + encode_instr(*i),
        r matches Err(e) ==> !instr_supported(*i) && e == CompileError::UnsupportedInstruction
            && code_bytes(*final(ops)) == code_bytes(*old(ops)),
{
    match i {
        Instr::IMov(Val::Reg(r), Val::Imm(n)) => {
            ops.push_byte(0x48);
            ops.push_byte(0xc7);
            ops.push_byte(0xc0 + reg_to_index(r));
            push_imm(*n, ops);
            proof {
                assert(code_bytes(*ops) =~= code_bytes(*old(ops)) + encode_instr(*i));
            }
            Ok(())
        },
        Instr::IAdd(Val::Reg(r), Val::Imm(n)) => {
            ops.push_byte(0x48);
            ops.push_byte(0x81);
            ops.push_byte(0xc0 + reg_to_index(r));
            push_imm(*n, ops);
            proof {
                assert(code_bytes(*ops) =~= code_bytes(*old(ops)) + encode_instr(*i));
            }
            Ok(())
        },
        Instr::ISub(Val::Reg(r), Val::Imm(n)) => {
            ops.push_byte(0x48);
            ops.push_byte(0x81);
            ops.push_byte(0xe8 + reg_to_index(r));
            push_imm(*n, ops);
            proof {
                assert(code_bytes(*ops) =~= code_bytes(*old(ops)) + encode_instr(*i));
            }
            Ok(())
        },
        _ => Err(CompileError::UnsupportedInstruction),
    }
}

/// Emits a whole instruction sequence, in order. On success the buffer has
/// grown by exactly the encoding of the sequence; on rejection some prefix
/// was emitted and the offending instruction is reported.
pub fn instrs_to_asm(cmds: &Vec<Instr>, ops: &mut CodeBuf) -> (r: Result<(), CompileError>)
    ensures
        r matches Ok(u) ==> all_supported(cmds@) && code_bytes(*final(ops)) == code_bytes(*old(ops))
            + encode_seq(cmds@),
        r matches Err(e) ==> !all_supported(cmds@) && e == CompileError::UnsupportedInstruction
            && exists|k: int|
            0 <= k <= cmds@.len() && code_bytes(*final(ops)) == code_bytes(*old(ops))
                + encode_seq(cmds@.take(k)),
{
    let mut idx: usize = 0;
    while idx < cmds.len()
        invariant
            0 <= idx <= cmds.len(),
            all_supported(cmds@.take(idx as int)),
            code_bytes(*ops) == code_bytes(*old(ops)) + encode_seq(cmds@.take(idx as int)),
        decreases cmds.len() - idx,
    {
        let ghost prefix = cmds@.take(idx as int);
        match instr_to_asm(&cmds[idx], ops) {
            Ok(u) => {},
            Err(e) => {
                proof {
                    assert(!instr_supported(cmds@[idx as int]));
                    assert(code_bytes(*ops) == code_bytes(*old(ops)) + encode_seq(cmds@.take(
                        idx as int,
                    )));
                }
                return Err(e);
            },
        }
        proof {
            assert(cmds@.take(idx as int + 1) =~= prefix.push(cmds@[idx as int]));
            assert(cmds@.take(idx as int + 1).drop_last() =~= prefix);
            assert(code_bytes(*ops) =~= code_bytes(*old(ops)) + encode_seq(cmds@.take(
                idx as int + 1,
            )));
        }
        idx = idx + 1;
    }
    proof {
        assert(cmds@.take(cmds@.len() as int) =~= cmds@);
    }
    Ok(())
}

/// Appends the return instruction that restores control to the invoker; the
/// host appends it after the program body, before sealing.
pub fn push_ret(ops: &mut CodeBuf)
    ensures
        code_bytes(*final(ops)) == code_bytes(*old(ops)).push(ret_byte()),
{
    ops.push_byte(0xc3);
}

/// Compiles an instruction sequence into a sealed executable image: a fresh
/// buffer, the program's entry offset recorded before any byte is emitted,
/// the encoded body, the return instruction, and the seal. On success the
/// image holds exactly the encoding of the sequence followed by the return
/// byte, and the entry offset locates its first byte.
pub fn emit_program(cmds: &Vec<Instr>) -> (r: Result<
    (usize, dynasmrt::ExecutableBuffer),
    CompileError,
>)
    ensures
        r matches Ok(p) ==> all_supported(cmds@) && p.0 == 0 && image_bytes_spec(p.1) == encode_seq(
            cmds@,
        ).push(ret_byte()),
        r matches Err(e) ==> (e == CompileError::UnsupportedInstruction && !all_supported(cmds@))
            || e == CompileError::FinalizeError,
{
    let mut buf = match new_code_buf() {
        Ok(b) => b,
        Err(e) => {
            return Err(e);
        },
    };
    let entry = entry_offset(&buf);
    match instrs_to_asm(cmds, &mut buf) {
        Ok(u) => {},
        Err(e) => {
            return Err(e);
        },
    }
    push_ret(&mut buf);
    proof {
        assert(code_bytes(buf) =~= encode_seq(cmds@).push(ret_byte()));
    }
    match finalize(buf) {
        Ok(eb) => Ok((entry, eb)),
        Err(e) => Err(e),
    }
}

} // verus!
