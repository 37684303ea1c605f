//! Post-call return-value processing: loads for stack-carried return
//! values and lane swaps where caller and callee disagree on vector lane
//! order.

use vstd::prelude::*;

use crate::inst::{CallInstDest, Inst, MemArg, StackAMode};
use crate::machine::S390xMachineDeps;
use crate::regs::{gpr, in_int_reg, spec_gpr, spec_in_int_reg, spec_vr, vr, Reg};
use crate::types::{lane_order, spec_lane_order, CallConv, RegClass, Type};

verus! {

/// Where the register allocator put one return value.
#[derive(Clone, Copy, PartialEq, Eq, Structural, Debug)]
pub enum RetDest {
    /// A physical register.
    Reg(Reg),
    /// A spill slot, by index.
    Spillslot(u32),
}

/// Where the callee's convention delivers one return value.
#[derive(Clone, Copy, PartialEq, Eq, Structural, Debug)]
pub enum RetLocation {
    /// In a register.
    Reg(Reg, Type),
    /// On the stack.
    Stack(StackAMode, Type),
}

/// One return value: its allocated destination and its delivered location.
#[derive(Clone, Copy, PartialEq, Eq, Structural, Debug)]
pub struct CallRetPair {
    pub vreg: RetDest,
    pub location: RetLocation,
}

/// What return-value processing reads of a call's description.
#[derive(Clone, PartialEq, Eq, Debug)]
pub struct CallInfo {
    pub dest: CallInstDest,
    pub caller_conv: CallConv,
    pub callee_conv: CallConv,
    pub defs: Vec<CallRetPair>,
    pub callee_pop_size: u32,
}

/// The single register class a return value of type `ty` occupies: scalar
/// integers in general-purpose registers, floats and vectors in vector
/// registers; a 128-bit integer spans two registers and has none.
pub open spec fn rc_for_type(ty: Type) -> Option<RegClass> {
    if spec_in_int_reg(ty) {
        Some(RegClass::Int)
    } else if ty == Type::I128 {
        None
    } else {
        Some(RegClass::Float)
    }
}

/// The fixed temporary for moving a return value of type `ty`: `%r0` or
/// `%v1`, both distinct from every return register.
pub open spec fn temp_reg_spec(ty: Type) -> Reg {
    if spec_in_int_reg(ty) {
        spec_gpr(0)
    } else {
        spec_vr(1)
    }
}

/// The widest type of a register class, used to spill the whole register.
pub open spec fn canonical_type_for_rc(rc: RegClass) -> Type {
    match rc {
        RegClass::Int => Type::I64,
        _ => Type::I8X16,
    }
}

/// The element-order correction for a value of type `ty` in `reg`: one
/// in-place reversal when the conventions disagree on lane order and the
/// value has at least two lanes.
pub open spec fn lane_swap_insts(swap: bool, reg: Reg, ty: Type) -> Seq<Inst> {
    if swap && ty.spec_is_vector() && ty.spec_lane_count() >= 2 {
        seq![Inst::VecEltRev { lane_count: ty.spec_lane_count(), rd: reg, rn: reg }]
    } else {
        Seq::<Inst>::empty()
    }
}

/// The first pass over the first `n` return values: each stack-delivered
/// value whose destination is a spill slot goes through the fixed
/// temporary — before any direct load, which could otherwise overwrite a
/// destination the temporary path still needs.
pub open spec fn retval_spill_insts(defs: Seq<CallRetPair>, swap: bool, n: int) -> Seq<Inst>
    decreases n,
{
    if n <= 0 {
        Seq::<Inst>::empty()
    } else {
        retval_spill_insts(defs, swap, n - 1) + (match defs[n - 1].location {
            RetLocation::Stack(amode, ty) => match defs[n - 1].vreg {
                RetDest::Spillslot(slot) => {
                    let temp = temp_reg_spec(ty);
                    seq![Inst::spec_gen_load(temp, amode.spec_to_mem_arg(), ty)]
                        + lane_swap_insts(swap, temp, ty) + seq![
                        Inst::spec_gen_store(
                            MemArg::SpillOffset { off: (8 * slot as int) as i64 },
                            temp,
                            canonical_type_for_rc(rc_for_type(ty).unwrap()),
                        ),
                    ]
                },
                RetDest::Reg(_) => Seq::<Inst>::empty(),
            },
            RetLocation::Reg(_, _) => Seq::<Inst>::empty(),
        })
    }
}

/// The second pass over the first `n` return values: direct loads for the
/// remaining stack-delivered values and lane swaps for register-delivered
/// ones.
pub open spec fn retval_load_insts(defs: Seq<CallRetPair>, swap: bool, n: int) -> Seq<Inst>
    decreases n,
{
    if n <= 0 {
        Seq::<Inst>::empty()
    } else {
        retval_load_insts(defs, swap, n - 1) + (match defs[n - 1].location {
            RetLocation::Reg(preg, ty) => lane_swap_insts(swap, preg, ty),
            RetLocation::Stack(amode, ty) => match defs[n - 1].vreg {
                RetDest::Reg(r) => seq![Inst::spec_gen_load(r, amode.spec_to_mem_arg(), ty)]
                    + lane_swap_insts(swap, r, ty),
                RetDest::Spillslot(_) => Seq::<Inst>::empty(),
            },
        })
    }
}

/// Whether both passes are well-posed for these return values: every
/// located type fits a single register, the fixed temporary is never a
/// return register, and every stack location is well-formed.
pub open spec fn retval_defs_wf(defs: Seq<CallRetPair>) -> bool {
    forall|i: int|
        0 <= i < defs.len() ==> match (#[trigger] defs[i]).location {
            RetLocation::Reg(preg, ty) => rc_for_type(ty) is Some && preg != temp_reg_spec(ty),
            RetLocation::Stack(amode, ty) => rc_for_type(ty) is Some && amode.wf(),
        }
}

/// The fixed temporary for moving a value of type `ty`.
fn temp_reg(ty: Type) -> (r: Reg)
    ensures
        r == temp_reg_spec(ty),
{
    if in_int_reg(ty) {
        gpr(0)
    } else {
        vr(1)
    }
}

impl S390xMachineDeps {
    /// Emit loads for stack-carried return values, spill-destined ones
    /// first through the fixed temporary, and lane swaps wherever the
    /// caller's and callee's conventions order vector lanes differently.
    pub fn gen_retval_loads(info: &CallInfo) -> (r: Vec<Inst>)
        requires
            retval_defs_wf(info.defs@),
        ensures
            ({
                let swap = spec_lane_order(info.caller_conv) != spec_lane_order(info.callee_conv);
                r@ == retval_spill_insts(info.defs@, swap, info.defs@.len() as int)
                    + retval_load_insts(info.defs@, swap, info.defs@.len() as int)
            }),
    {
        let swap = !(lane_order(info.caller_conv) == lane_order(info.callee_conv));
        let mut insts: Vec<Inst> = Vec::new();

        // Spill-destined copies first; their temporary must not be
        // overwritten by the direct loads below.
        let mut i: usize = 0;
        while i < info.defs.len()
            invariant
                i <= info.defs@.len(),
                retval_defs_wf(info.defs@),
                swap == (spec_lane_order(info.caller_conv) != spec_lane_order(info.callee_conv)),
                insts@ == retval_spill_insts(info.defs@, swap, i as int),
            decreases info.defs@.len() - i,
        {
            let def = info.defs[i];
            match def.location {
                RetLocation::Stack(amode, ty) => {
                    if let RetDest::Spillslot(slot) = def.vreg {
                        let temp = temp_reg(ty);
                        insts.push(Inst::gen_load(temp, amode.to_mem_arg(), ty));
                        if swap && ty.is_vector() && ty.lane_count() >= 2 {
                            insts.push(
                                Inst::VecEltRev { lane_count: ty.lane_count(), rd: temp, rn: temp },
                            );
                        }
                        let canonical = if in_int_reg(ty) {
                            Type::I64
                        } else {
                            Type::I8X16
                        };
                        insts.push(
                            Inst::gen_store(
                                MemArg::SpillOffset { off: 8 * slot as i64 },
                                temp,
                                canonical,
                            ),
                        );
                    }
                },
                RetLocation::Reg(_, _) => {},
            }
            proof {
                assert(insts@ =~= retval_spill_insts(info.defs@, swap, i + 1));
            }
            i += 1;
        }

        let ghost pass1 = insts@;

        // Now the remaining return locations.
        let mut j: usize = 0;
        while j < info.defs.len()
            invariant
                j <= info.defs@.len(),
                retval_defs_wf(info.defs@),
                swap == (spec_lane_order(info.caller_conv) != spec_lane_order(info.callee_conv)),
                pass1 == retval_spill_insts(info.defs@, swap, info.defs@.len() as int),
                insts@ == pass1 + retval_load_insts(info.defs@, swap, j as int),
            decreases info.defs@.len() - j,
        {
            let def = info.defs[j];
            match def.location {
                RetLocation::Reg(preg, ty) => {
                    if swap && ty.is_vector() && ty.lane_count() >= 2 {
                        insts.push(
                            Inst::VecEltRev { lane_count: ty.lane_count(), rd: preg, rn: preg },
                        );
                    }
                },
                RetLocation::Stack(amode, ty) => {
                    if let RetDest::Reg(r) = def.vreg {
                        insts.push(Inst::gen_load(r, amode.to_mem_arg(), ty));
                        if swap && ty.is_vector() && ty.lane_count() >= 2 {
                            insts.push(
                                Inst::VecEltRev { lane_count: ty.lane_count(), rd: r, rn: r },
                            );
                        }
                    }
                },
            }
            proof {
                assert(insts@ =~= pass1 + retval_load_insts(info.defs@, swap, j + 1));
            }
            j += 1;
        }
        insts
    }
}

} // verus!
