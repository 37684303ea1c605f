//! The instruction kinds the ABI sequences emit, addressing modes, and
//! unwind-metadata directives.  Only the shape of each instruction matters
//! here; encoding is outside this crate.

use vstd::prelude::*;

use crate::regs::Reg;
use crate::types::Type;

verus! {

/// Whether `x` fits an unsigned 12-bit displacement.
pub open spec fn fits_uimm12(x: int) -> bool {
    0 <= x < 4096
}

/// Whether `x` fits a signed 20-bit displacement.
pub open spec fn fits_simm20(x: int) -> bool {
    -524288 <= x < 524288
}

/// Whether `x` fits a signed 16-bit immediate.
pub open spec fn fits_simm16(x: int) -> bool {
    -32768 <= x < 32768
}

/// A memory addressing mode.
#[derive(Clone, Copy, PartialEq, Eq, Structural, Debug)]
pub enum MemArg {
    /// Base + index + unsigned 12-bit displacement; `%r0` as index means no
    /// index.
    BXD12 { base: Reg, index: Reg, disp: u32 },
    /// Base + index + signed 20-bit displacement.
    BXD20 { base: Reg, index: Reg, disp: i32 },
    /// Base register plus an offset resolved at emission time.
    RegOffset { base: Reg, off: i64 },
    /// Offset into the incoming argument area.
    IncomingArgOffset { off: i64 },
    /// Offset into the fixed slot storage area.
    SlotOffset { off: i64 },
    /// Offset into the outgoing argument area.
    OutgoingArgOffset { off: i64 },
    /// Offset into the spill-slot area.
    SpillOffset { off: i64 },
}

impl MemArg {
    /// Addressing through `base` with no displacement.
    pub open spec fn spec_reg(base: Reg) -> MemArg {
        MemArg::BXD12 { base, index: crate::regs::spec_zero_reg(), disp: 0 }
    }

    /// Addressing through `base` with no displacement.
    #[verifier::when_used_as_spec(spec_reg)]
    pub fn reg(base: Reg) -> (r: MemArg)
        ensures
            r == MemArg::spec_reg(base),
    {
        MemArg::BXD12 { base, index: crate::regs::zero_reg(), disp: 0 }
    }

    /// Addressing through `base` plus an arbitrary offset.
    pub open spec fn spec_reg_plus_off(base: Reg, off: i64) -> MemArg {
        MemArg::RegOffset { base, off }
    }

    /// Addressing through `base` plus an arbitrary offset.
    #[verifier::when_used_as_spec(spec_reg_plus_off)]
    pub fn reg_plus_off(base: Reg, off: i64) -> (r: MemArg)
        ensures
            r == MemArg::spec_reg_plus_off(base, off),
    {
        MemArg::RegOffset { base, off }
    }
}

/// A stack location named relative to one of the frame's regions, before the
/// final addressing mode is chosen.
#[derive(Clone, Copy, PartialEq, Eq, Structural, Debug)]
pub enum StackAMode {
    /// Offset into the incoming argument area; the second field is that
    /// area's total size.
    IncomingArg(i64, u32),
    /// Offset into the fixed slot storage area.
    Slot(i64),
    /// Offset into the outgoing argument area.
    OutgoingArg(i64),
}

impl StackAMode {
    /// The offsets the lowering produces: non-negative, so the subtraction
    /// in [`StackAMode::to_mem_arg`] cannot overflow.
    pub open spec fn wf(self) -> bool {
        match self {
            StackAMode::IncomingArg(off, _size) => 0 <= off,
            StackAMode::Slot(_off) => true,
            StackAMode::OutgoingArg(_off) => true,
        }
    }

    /// The addressing mode for this stack location.  Incoming-argument
    /// offsets are rebased from the top to the bottom of that area.
    pub open spec fn spec_to_mem_arg(self) -> MemArg {
        match self {
            StackAMode::IncomingArg(off, stack_args_size) => MemArg::IncomingArgOffset {
                off: (off - stack_args_size) as i64,
            },
            StackAMode::Slot(off) => MemArg::SlotOffset { off },
            StackAMode::OutgoingArg(off) => MemArg::OutgoingArgOffset { off },
        }
    }

    /// The addressing mode for this stack location.
    #[verifier::when_used_as_spec(spec_to_mem_arg)]
    pub fn to_mem_arg(self) -> (r: MemArg)
        requires
            self.wf(),
        ensures
            r == self.spec_to_mem_arg(),
    {
        match self {
            StackAMode::IncomingArg(off, stack_args_size) => MemArg::IncomingArgOffset {
                off: off - stack_args_size as i64,
            },
            StackAMode::Slot(off) => MemArg::SlotOffset { off },
            StackAMode::OutgoingArg(off) => MemArg::OutgoingArgOffset { off },
        }
    }
}

/// An unwind-metadata directive, consumed by a separate unwind-table
/// emitter.
#[derive(Clone, Copy, PartialEq, Eq, Structural, Debug)]
pub enum UnwindInst {
    /// Frame boundaries: distance up to the caller's stack pointer and down
    /// to the clobber save area.
    DefineNewFrame { offset_upward_to_caller_sp: u32, offset_downward_to_clobbers: u32 },
    /// `reg` is saved at `clobber_offset` above the unwind frame base.
    SaveReg { clobber_offset: u32, reg: Reg },
    /// `reg`'s saved value is the current CFA; used for the stack pointer
    /// when its save slot holds a stale value.
    RegStackOffset { clobber_offset: u32, reg: Reg },
    /// The stack pointer moved down by `size` bytes.
    StackAlloc { size: u32 },
}

/// Arithmetic operations used by frame setup.
#[derive(Clone, Copy, PartialEq, Eq, Structural, Debug)]
pub enum ALUOp {
    Add64,
    AddLogical64,
}

/// Compare operations used by frame setup.
#[derive(Clone, Copy, PartialEq, Eq, Structural, Debug)]
pub enum CmpOp {
    CmpL64,
}

/// Branch conditions used by frame setup.
#[derive(Clone, Copy, PartialEq, Eq, Structural, Debug)]
pub enum Cond {
    UnsignedLessThanOrEqual,
}

/// Trap codes used by frame setup.
#[derive(Clone, Copy, PartialEq, Eq, Structural, Debug)]
pub enum TrapCode {
    StackOverflow,
}

/// Pairing of a virtual register with the physical argument register that
/// carries it into the function.
#[derive(Clone, Copy, PartialEq, Eq, Structural, Debug)]
pub struct ArgPair {
    pub vreg: u32,
    pub preg: Reg,
}

/// Pairing of a virtual register with the physical register that carries it
/// out of the function.
#[derive(Clone, Copy, PartialEq, Eq, Structural, Debug)]
pub struct RetPair {
    pub vreg: u32,
    pub preg: Reg,
}

/// The call-instruction target.
#[derive(Clone, Copy, PartialEq, Eq, Structural, Debug)]
pub enum CallInstDest {
    /// A direct call to a known function.
    Direct,
    /// An indirect call through `reg`.
    Indirect { reg: Reg },
}

/// An instruction, by kind.
#[derive(Clone, PartialEq, Eq, Debug)]
pub enum Inst {
    /// Load a value of type `ty` from `mem` into `rd`.
    Load { rd: Reg, mem: MemArg, ty: Type },
    /// Store `rd`, a value of type `ty`, to `mem`.
    Store { rd: Reg, mem: MemArg, ty: Type },
    /// 64-bit register move.
    Mov64 { rd: Reg, rm: Reg },
    /// Scalar floating-point register move.
    FpuMove64 { rd: Reg, rm: Reg },
    /// Full vector register move.
    VecMov { rd: Reg, rm: Reg },
    /// Load a sign-extended 16-bit immediate into a 32-bit register.
    Mov32SImm16 { rd: Reg, imm: i16 },
    /// Load a 32-bit immediate.
    Mov32Imm { rd: Reg, imm: u32 },
    /// Integer extension.
    Extend { rd: Reg, rn: Reg, signed: bool, from_bits: u8, to_bits: u8 },
    /// Load the effective address of `mem` into `rd`.
    LoadAddr { rd: Reg, mem: MemArg },
    /// Register-immediate ALU operation, signed 16-bit immediate.
    AluRSImm16 { alu_op: ALUOp, rd: Reg, ri: Reg, imm: i16 },
    /// Register-immediate ALU operation, signed 32-bit immediate.
    AluRSImm32 { alu_op: ALUOp, rd: Reg, ri: Reg, imm: i32 },
    /// Register-immediate ALU operation, unsigned 32-bit immediate.
    AluRUImm32 { alu_op: ALUOp, rd: Reg, ri: Reg, imm: u32 },
    /// Store the contiguous register block `rt`..=`rt2`.
    StoreMultiple64 { rt: Reg, rt2: Reg, mem: MemArg },
    /// Load the contiguous register block `rt`..=`rt2`.
    LoadMultiple64 { rt: Reg, rt2: Reg, mem: MemArg },
    /// Store a 64-bit register.
    Store64 { rd: Reg, mem: MemArg },
    /// Store an immediate byte.
    StoreImm8 { imm: u8, mem: MemArg },
    /// Store one lane of a vector register.
    VecStoreLane { size: u32, rd: Reg, mem: MemArg, lane_imm: u8 },
    /// Load one lane of a vector register, other lanes undefined.
    VecLoadLaneUndef { size: u32, rd: Reg, mem: MemArg, lane_imm: u8 },
    /// Reverse the element order of a vector register.
    VecEltRev { lane_count: u32, rd: Reg, rn: Reg },
    /// Compare two registers and trap on `cond`.
    CmpTrapRR { op: CmpOp, rn: Reg, rm: Reg, cond: Cond, trap_code: TrapCode },
    /// Store-and-decrement probe loop; `probe_count` holds the iteration
    /// count.
    StackProbeLoop { probe_count: Reg, guard_size: i16 },
    /// An unwind-metadata marker.
    Unwind { inst: UnwindInst },
    /// Return through the link register.
    Ret { link: Reg },
    /// Marker pinning incoming arguments to their registers.
    Args { args: Vec<ArgPair> },
    /// Marker pinning outgoing return values to their registers.
    Rets { rets: Vec<RetPair> },
}

impl Inst {
    /// A load of `ty` from `mem` into `into_reg`.
    pub open spec fn spec_gen_load(into_reg: Reg, mem: MemArg, ty: Type) -> Inst {
        Inst::Load { rd: into_reg, mem, ty }
    }

    /// A load of `ty` from `mem` into `into_reg`.
    #[verifier::when_used_as_spec(spec_gen_load)]
    pub fn gen_load(into_reg: Reg, mem: MemArg, ty: Type) -> (r: Inst)
        ensures
            r == Inst::spec_gen_load(into_reg, mem, ty),
    {
        Inst::Load { rd: into_reg, mem, ty }
    }

    /// A store of `from_reg`, holding `ty`, to `mem`.
    pub open spec fn spec_gen_store(mem: MemArg, from_reg: Reg, ty: Type) -> Inst {
        Inst::Store { rd: from_reg, mem, ty }
    }

    /// A store of `from_reg`, holding `ty`, to `mem`.
    #[verifier::when_used_as_spec(spec_gen_store)]
    pub fn gen_store(mem: MemArg, from_reg: Reg, ty: Type) -> (r: Inst)
        ensures
            r == Inst::spec_gen_store(mem, from_reg, ty),
    {
        Inst::Store { rd: from_reg, mem, ty }
    }

    /// A 64-bit register-to-register move.
    pub open spec fn spec_mov64(rd: Reg, rm: Reg) -> Inst {
        Inst::Mov64 { rd, rm }
    }

    /// A 64-bit register-to-register move.
    #[verifier::when_used_as_spec(spec_mov64)]
    pub fn mov64(rd: Reg, rm: Reg) -> (r: Inst)
        ensures
            r == Inst::spec_mov64(rd, rm),
    {
        Inst::Mov64 { rd, rm }
    }
}

} // verus!
