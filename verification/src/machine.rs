//! The machine-dependent ABI policy type and its elementary operations.
//!
//! The larger operations — argument assignment, frame-layout planning, the
//! prologue/epilogue sequences, return-value loads and the allocator
//! environment — are implemented on [`S390xMachineDeps`] in the [`assign`],
//! [`frame`], [`prologue`], [`retval`] and [`env`] modules.
//!
//! [`assign`]: crate::assign
//! [`frame`]: crate::frame
//! [`prologue`]: crate::prologue
//! [`retval`]: crate::retval
//! [`env`]: crate::env

use vstd::prelude::*;

use crate::frame::FrameLayout;
use crate::inst::{ArgPair, Inst, MemArg, RetPair, StackAMode};
use crate::regs::{class_of, gpr, in_flt_reg, in_int_reg, spec_gpr, Reg};
use crate::types::{ArgumentExtension, CallConv, Flags, RegClass, Type};

verus! {

/// The machine-dependent ABI behavior of this target.  The struct only
/// serves as an implementation point; it is never instantiated.
pub struct S390xMachineDeps;

/// The move instruction for a value of type `ty`: a general-purpose move, a
/// scalar float move, or a full vector move.
pub open spec fn gen_move_inst(to_reg: Reg, from_reg: Reg, ty: Type) -> Inst {
    match class_of(ty) {
        Some(RegClass::Int) => Inst::Mov64 { rd: to_reg, rm: from_reg },
        Some(RegClass::Float) => Inst::FpuMove64 { rd: to_reg, rm: from_reg },
        _ => Inst::VecMov { rd: to_reg, rm: from_reg },
    }
}

impl S390xMachineDeps {
    /// The machine word width in bits.
    pub fn word_bits() -> (r: u32)
        ensures
            r == 64,
    {
        64
    }

    /// Required stack alignment in bytes.
    pub fn stack_align(_call_conv: CallConv) -> (r: u32)
        ensures
            r == 8,
    {
        8
    }

    /// A load of `ty` from the stack location `mem` into `into_reg`.
    pub fn gen_load_stack(mem: StackAMode, into_reg: Reg, ty: Type) -> (r: Inst)
        requires
            mem.wf(),
        ensures
            r == Inst::spec_gen_load(into_reg, mem.spec_to_mem_arg(), ty),
    {
        Inst::gen_load(into_reg, mem.to_mem_arg(), ty)
    }

    /// A store of `from_reg`, holding `ty`, to the stack location `mem`.
    pub fn gen_store_stack(mem: StackAMode, from_reg: Reg, ty: Type) -> (r: Inst)
        requires
            mem.wf(),
        ensures
            r == Inst::spec_gen_store(mem.spec_to_mem_arg(), from_reg, ty),
    {
        Inst::gen_store(mem.to_mem_arg(), from_reg, ty)
    }

    /// A register-to-register move of a value of type `ty`.  The type must
    /// occupy a single register.
    pub fn gen_move(to_reg: Reg, from_reg: Reg, ty: Type) -> (r: Inst)
        requires
            class_of(ty) is Some,
        ensures
            r == gen_move_inst(to_reg, from_reg, ty),
    {
        if in_int_reg(ty) {
            Inst::Mov64 { rd: to_reg, rm: from_reg }
        } else if in_flt_reg(ty) {
            Inst::FpuMove64 { rd: to_reg, rm: from_reg }
        } else {
            Inst::VecMov { rd: to_reg, rm: from_reg }
        }
    }

    /// An integer extension of `from_reg` into `to_reg`.
    pub fn gen_extend(to_reg: Reg, from_reg: Reg, signed: bool, from_bits: u8, to_bits: u8) -> (r:
        Inst)
        requires
            from_bits < to_bits,
        ensures
            r == (Inst::Extend { rd: to_reg, rn: from_reg, signed, from_bits, to_bits }),
    {
        Inst::Extend { rd: to_reg, rn: from_reg, signed, from_bits, to_bits }
    }

    /// The marker pinning incoming arguments to their registers.
    pub fn gen_args(args: Vec<ArgPair>) -> (r: Inst)
        ensures
            r == (Inst::Args { args }),
    {
        Inst::Args { args }
    }

    /// The marker pinning outgoing return values to their registers.
    pub fn gen_rets(rets: Vec<RetPair>) -> (r: Inst)
        ensures
            r == (Inst::Rets { rets }),
    {
        Inst::Rets { rets }
    }

    /// Load the address of the stack location `mem` into `into_reg`.
    pub fn gen_get_stack_addr(mem: StackAMode, into_reg: Reg) -> (r: Inst)
        requires
            mem.wf(),
        ensures
            r == (Inst::LoadAddr { rd: into_reg, mem: mem.spec_to_mem_arg() }),
    {
        let mem = mem.to_mem_arg();
        Inst::LoadAddr { rd: into_reg, mem }
    }

    /// The register that holds the stack limit during the prologue: the
    /// spill-temporary `%r1`.
    pub fn get_stacklimit_reg(_call_conv: CallConv) -> (r: Reg)
        ensures
            r == spec_gpr(1),
    {
        gpr(1)
    }

    /// A load of `ty` from `base` + `offset` into `into_reg`.
    pub fn gen_load_base_offset(into_reg: Reg, base: Reg, offset: i32, ty: Type) -> (r: Inst)
        ensures
            r == Inst::spec_gen_load(
                into_reg,
                MemArg::spec_reg_plus_off(base, offset as i64),
                ty,
            ),
    {
        let mem = MemArg::reg_plus_off(base, offset as i64);
        Inst::gen_load(into_reg, mem, ty)
    }

    /// A store of `from_reg`, holding `ty`, to `base` + `offset`.
    pub fn gen_store_base_offset(base: Reg, offset: i32, from_reg: Reg, ty: Type) -> (r: Inst)
        ensures
            r == Inst::spec_gen_store(
                MemArg::spec_reg_plus_off(base, offset as i64),
                from_reg,
                ty,
            ),
    {
        let mem = MemArg::reg_plus_off(base, offset as i64);
        Inst::gen_store(mem, from_reg, ty)
    }

    /// Frame setup ahead of the clobber saves.  This target addresses
    /// everything off the stack pointer and keeps no frame pointer, so
    /// nothing is emitted.
    pub fn gen_prologue_frame_setup(
        _call_conv: CallConv,
        _flags: &Flags,
        _frame_layout: &FrameLayout,
    ) -> (r: Vec<Inst>)
        ensures
            r@ == Seq::<Inst>::empty(),
    {
        Vec::new()
    }

    /// Frame restore after the clobber restores; empty for the same reason
    /// as [`S390xMachineDeps::gen_prologue_frame_setup`].
    pub fn gen_epilogue_frame_restore(
        _call_conv: CallConv,
        _flags: &Flags,
        _frame_layout: &FrameLayout,
    ) -> (r: Vec<Inst>)
        ensures
            r@ == Seq::<Inst>::empty(),
    {
        Vec::new()
    }

    /// The return sequence: a branch through the link register `%r14`.
    pub fn gen_return(_call_conv: CallConv, _frame_layout: &FrameLayout) -> (r: Vec<Inst>)
        ensures
            r@ == seq![Inst::Ret { link: spec_gpr(14) }],
    {
        let mut insts: Vec<Inst> = Vec::new();
        insts.push(Inst::Ret { link: gpr(14) });
        insts
    }

    /// How many 8-byte spill slots a value of register class `rc` needs.
    /// The `Vector` class is unused on this target.
    pub fn get_number_of_spillslots_for_value(rc: RegClass, _vector_scale: u32) -> (r: u32)
        requires
            rc != RegClass::Vector,
        ensures
            r == match rc {
                RegClass::Int => 1u32,
                RegClass::Float => 2u32,
                RegClass::Vector => 0u32,
            },
    {
        match rc {
            RegClass::Int => 1,
            RegClass::Float => 2,
            RegClass::Vector => 0,
        }
    }

    /// The extension this ABI performs for a sub-word argument: exactly the
    /// one the signature requested.
    pub fn get_ext_mode(_call_conv: CallConv, specified: ArgumentExtension) -> (r:
        ArgumentExtension)
        ensures
            r == specified,
    {
        specified
    }
}

} // verus!
