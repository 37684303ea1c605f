//! The prologue/epilogue sequencer: the instruction sequences that save and
//! restore clobbered registers, adjust the stack pointer, keep the
//! backchain, probe for stack overflow, and return — each specified by a
//! sequence-valued function of the frame layout.

use vstd::prelude::*;

use crate::frame::{
    float_pred, get_clobbered_fprs, get_clobbered_gprs, int_pred, FrameLayout, FrameLayoutView,
};
use crate::inst::{
    fits_simm16, fits_simm20, ALUOp, CallInstDest, CmpOp, Cond, Inst, MemArg, TrapCode, UnwindInst,
};
use crate::machine::S390xMachineDeps;
use crate::regs::{
    gpr, spec_gpr, spec_is_reg_saved_in_prologue, spec_stack_reg, spec_zero_reg, stack_reg,
    zero_reg, Reg,
};
use crate::types::{CallConv, Flags, RegClass, REG_SAVE_AREA_SIZE};

verus! {

/// The stack-pointer adjustment by `imm` bytes: nothing for zero, one
/// add-immediate in the shortest encoding that fits otherwise.
pub open spec fn sp_adjust_insts(imm: int) -> Seq<Inst> {
    if imm == 0 {
        Seq::empty()
    } else if fits_simm16(imm) {
        seq![
            Inst::AluRSImm16 {
                alu_op: ALUOp::Add64,
                rd: spec_stack_reg(),
                ri: spec_stack_reg(),
                imm: imm as i16,
            },
        ]
    } else {
        seq![
            Inst::AluRSImm32 {
                alu_op: ALUOp::Add64,
                rd: spec_stack_reg(),
                ri: spec_stack_reg(),
                imm: imm as i32,
            },
        ]
    }
}

/// Loading `from_reg + imm` into `into_reg`: a load-address when the
/// displacement fits an addressing mode, else a move and a logical add.
pub open spec fn add_imm_insts(into_reg: Reg, from_reg: Reg, imm: u32) -> Seq<Inst> {
    if imm < 4096 {
        seq![
            Inst::LoadAddr {
                rd: into_reg,
                mem: MemArg::BXD12 { base: from_reg, index: spec_zero_reg(), disp: imm },
            },
        ]
    } else if imm < 524288 {
        seq![
            Inst::LoadAddr {
                rd: into_reg,
                mem: MemArg::BXD20 { base: from_reg, index: spec_zero_reg(), disp: imm as i32 },
            },
        ]
    } else {
        (if from_reg != into_reg {
            seq![Inst::spec_mov64(into_reg, from_reg)]
        } else {
            Seq::<Inst>::empty()
        }) + seq![
            Inst::AluRUImm32 { alu_op: ALUOp::AddLogical64, rd: into_reg, ri: into_reg, imm },
        ]
    }
}

/// The clobbered general-purpose registers as the block store/load sees
/// them: lowest and highest hardware encoding, or nothing.
pub open spec fn gpr_range(saves: Seq<Reg>) -> Option<(u8, u8)> {
    let g = saves.filter(int_pred());
    if g.len() == 0 {
        None
    } else {
        Some((g.first().num, g.last().num))
    }
}

/// The floating-point restores: one lane load per saved register, from its
/// slot in the clobber area at `base`.
pub open spec fn fpr_restore_insts(fprs: Seq<Reg>, base: int, n: int) -> Seq<Inst>
    decreases n,
{
    if n <= 0 {
        Seq::empty()
    } else {
        fpr_restore_insts(fprs, base, n - 1) + seq![
            Inst::VecLoadLaneUndef {
                size: 64,
                rd: fprs[n - 1],
                mem: MemArg::RegOffset {
                    base: spec_stack_reg(),
                    off: ((n - 1) * 8 + base) as i64,
                },
                lane_imm: 0,
            },
        ]
    }
}

/// The floating-point saves: one lane store per saved register into the
/// clobber area at `base`, each with unwind metadata when requested.
pub open spec fn fpr_save_insts(fprs: Seq<Reg>, unwind: bool, base: int, n: int) -> Seq<Inst>
    decreases n,
{
    if n <= 0 {
        Seq::empty()
    } else {
        fpr_save_insts(fprs, unwind, base, n - 1) + seq![
            Inst::VecStoreLane {
                size: 64,
                rd: fprs[n - 1],
                mem: MemArg::RegOffset {
                    base: spec_stack_reg(),
                    off: ((n - 1) * 8 + base) as i64,
                },
                lane_imm: 0,
            },
        ] + (if unwind {
            seq![
                Inst::Unwind {
                    inst: UnwindInst::SaveReg {
                        clobber_offset: ((n - 1) * 8) as u32,
                        reg: fprs[n - 1],
                    },
                },
            ]
        } else {
            Seq::<Inst>::empty()
        })
    }
}

/// The per-register unwind markers for the block-stored range
/// `first ..= last`, each naming the register's slot above the clobber
/// area.
pub open spec fn gpr_unwind_insts(clobber_size: u32, first: int, last: int) -> Seq<Inst> {
    Seq::new(
        if last + 1 - first >= 0 {
            (last + 1 - first) as nat
        } else {
            0nat
        },
        |k: int|
            Inst::Unwind {
                inst: UnwindInst::SaveReg {
                    clobber_offset: (clobber_size + (first + k) * 8) as u32,
                    reg: spec_gpr((first + k) as u8),
                },
            },
    )
}

/// The general-purpose restores of the epilogue.  The stack-pointer
/// adjustment is folded into the block load's displacement when the callee
/// pops nothing, no tail-call arguments make the unwind state ambiguous,
/// and the folded displacement still fits; a displacement past the
/// addressing range goes through the first restored register as a
/// temporary, since `%r1` must stay untouched here.
pub open spec fn restore_gprs_insts(
    call_conv: CallConv,
    fl: FrameLayoutView,
    callee_pop_size: u32,
) -> Seq<Inst> {
    let stack_size = fl.outgoing_args_size + fl.clobber_size + fl.fixed_frame_storage_size;
    let cg = gpr_range(fl.clobbered_callee_saves);
    let implicit = callee_pop_size == 0 && (call_conv != CallConv::Tail || fl.incoming_args_size
        == 0) && match cg {
        Some((first, _)) => fits_simm20(8 * first + stack_size),
        None => false,
    };
    let part1 = if !implicit {
        sp_adjust_insts(stack_size - callee_pop_size)
    } else {
        Seq::<Inst>::empty()
    };
    let part2 = match cg {
        None => Seq::<Inst>::empty(),
        Some((first, last0)) => {
            let last: int = if implicit {
                15
            } else {
                last0 as int
            };
            let offset: int = if implicit {
                callee_pop_size + 8 * first + stack_size - callee_pop_size
            } else {
                callee_pop_size + 8 * first
            };
            if fits_simm20(offset) {
                seq![
                    Inst::LoadMultiple64 {
                        rt: spec_gpr(first),
                        rt2: spec_gpr(last as u8),
                        mem: MemArg::RegOffset { base: spec_stack_reg(), off: offset as i64 },
                    },
                ]
            } else {
                add_imm_insts(spec_gpr(first), spec_stack_reg(), offset as u32) + seq![
                    Inst::LoadMultiple64 {
                        rt: spec_gpr(first),
                        rt2: spec_gpr(last as u8),
                        mem: MemArg::RegOffset { base: spec_gpr(first), off: 0 },
                    },
                ]
            }
        },
    };
    part1 + part2
}

/// The whole clobber-save sequence of the prologue, in emission order:
/// frame-defining unwind metadata; the block store of the clobbered
/// general-purpose registers (always through `%r15`) with its unwind
/// markers; the capture of the entry stack pointer for the backchain; the
/// stack-pointer adjustment with its allocation marker; the backchain
/// store; and the floating-point saves.
pub open spec fn clobber_save_insts(
    call_conv: CallConv,
    flags: Flags,
    fl: FrameLayoutView,
) -> Seq<Inst> {
    let inc: int = if call_conv == CallConv::Tail {
        fl.incoming_args_size as int
    } else {
        0
    };
    let unwind_part = if flags.unwind_info {
        seq![
            Inst::Unwind {
                inst: UnwindInst::DefineNewFrame {
                    offset_upward_to_caller_sp: (REG_SAVE_AREA_SIZE + inc) as u32,
                    offset_downward_to_clobbers: (fl.clobber_size - inc) as u32,
                },
            },
        ]
    } else {
        Seq::<Inst>::empty()
    };
    let gpr_part = match gpr_range(fl.clobbered_callee_saves) {
        None => Seq::<Inst>::empty(),
        Some((first, _)) => {
            let store = seq![
                Inst::StoreMultiple64 {
                    rt: spec_gpr(first),
                    rt2: spec_gpr(15),
                    mem: MemArg::RegOffset {
                        base: spec_stack_reg(),
                        off: (8 * first + inc) as i64,
                    },
                },
            ];
            let unwind_regs = if flags.unwind_info {
                // With incoming tail-call arguments the stack pointer's
                // save slot is stale; the unwinder recomputes it from the
                // CFA instead.
                if inc != 0 {
                    seq![
                        Inst::Unwind {
                            inst: UnwindInst::RegStackOffset {
                                clobber_offset: fl.clobber_size,
                                reg: spec_gpr(15),
                            },
                        },
                    ] + gpr_unwind_insts(fl.clobber_size, first as int, 14)
                } else {
                    gpr_unwind_insts(fl.clobber_size, first as int, 15)
                }
            } else {
                Seq::<Inst>::empty()
            };
            store + unwind_regs
        },
    };
    let backchain_capture = if flags.preserve_frame_pointers {
        if inc == 0 {
            seq![Inst::spec_mov64(spec_gpr(1), spec_stack_reg())]
        } else {
            add_imm_insts(spec_gpr(1), spec_stack_reg(), inc as u32)
        }
    } else {
        Seq::<Inst>::empty()
    };
    let stack_size = fl.outgoing_args_size + fl.clobber_size + fl.fixed_frame_storage_size - inc;
    let adjust = sp_adjust_insts(-stack_size);
    let alloc_unwind = if flags.unwind_info {
        seq![Inst::Unwind { inst: UnwindInst::StackAlloc { size: stack_size as u32 } }]
    } else {
        Seq::<Inst>::empty()
    };
    let backchain_store = if flags.preserve_frame_pointers {
        seq![
            Inst::Store64 {
                rd: spec_gpr(1),
                mem: MemArg::RegOffset { base: spec_stack_reg(), off: 0 },
            },
        ]
    } else {
        Seq::<Inst>::empty()
    };
    let fprs = fl.clobbered_callee_saves.filter(float_pred());
    let fpr_part = fpr_save_insts(
        fprs,
        flags.unwind_info,
        fl.outgoing_args_size + fl.fixed_frame_storage_size,
        fprs.len() as int,
    );
    unwind_part + gpr_part + backchain_capture + adjust + alloc_unwind + backchain_store
        + fpr_part
}

/// The probe sequence for a frame of `frame_size` bytes under a guard page
/// of `guard_size`: nothing for a frame below the guard, store-and-decrement
/// pairs for up to two probes, a counted probe loop through `%r1` beyond
/// that — and in every case the stack pointer returns to where it started.
pub open spec fn probestack_insts(frame_size: u32, guard_size: u32) -> Seq<Inst> {
    let pc = frame_size as int / guard_size as int;
    let body = if pc == 0 {
        Seq::<Inst>::empty()
    } else if pc <= 2 {
        probe_unrolled_insts(guard_size, pc)
    } else {
        (if fits_simm16(pc) {
            seq![Inst::Mov32SImm16 { rd: spec_gpr(1), imm: pc as i16 }]
        } else {
            seq![Inst::Mov32Imm { rd: spec_gpr(1), imm: pc as u32 }]
        }) + seq![
            Inst::StackProbeLoop { probe_count: spec_gpr(1), guard_size: guard_size as i16 },
        ]
    };
    body + sp_adjust_insts(pc * guard_size)
}

/// `n` unrolled probes: decrement the stack pointer by one guard page and
/// touch the new top of stack.
pub open spec fn probe_unrolled_insts(guard_size: u32, n: int) -> Seq<Inst>
    decreases n,
{
    if n <= 0 {
        Seq::<Inst>::empty()
    } else {
        probe_unrolled_insts(guard_size, n - 1) + sp_adjust_insts(-(guard_size as int)) + seq![
            Inst::StoreImm8 { imm: 0, mem: MemArg::spec_reg(spec_stack_reg()) },
        ]
    }
}

impl S390xMachineDeps {
    /// Adjust the stack pointer by `imm` bytes.
    pub fn gen_sp_reg_adjust(imm: i32) -> (r: Vec<Inst>)
        ensures
            r@ == sp_adjust_insts(imm as int),
    {
        let mut insts: Vec<Inst> = Vec::new();
        if imm == 0 {
            return insts;
        }
        if -32768 <= imm && imm <= 32767 {
            insts.push(
                Inst::AluRSImm16 {
                    alu_op: ALUOp::Add64,
                    rd: stack_reg(),
                    ri: stack_reg(),
                    imm: imm as i16,
                },
            );
        } else {
            insts.push(
                Inst::AluRSImm32 { alu_op: ALUOp::Add64, rd: stack_reg(), ri: stack_reg(), imm },
            );
        }
        insts
    }

    /// Load `from_reg + imm` into `into_reg`.
    pub fn gen_add_imm(_call_conv: CallConv, into_reg: Reg, from_reg: Reg, imm: u32) -> (r: Vec<
        Inst,
    >)
        ensures
            r@ == add_imm_insts(into_reg, from_reg, imm),
    {
        let mut insts: Vec<Inst> = Vec::new();
        if imm < 4096 {
            insts.push(
                Inst::LoadAddr {
                    rd: into_reg,
                    mem: MemArg::BXD12 { base: from_reg, index: zero_reg(), disp: imm },
                },
            );
        } else if imm < 524288 {
            insts.push(
                Inst::LoadAddr {
                    rd: into_reg,
                    mem: MemArg::BXD20 { base: from_reg, index: zero_reg(), disp: imm as i32 },
                },
            );
        } else {
            if !(from_reg == into_reg) {
                insts.push(Inst::mov64(into_reg, from_reg));
            }
            insts.push(
                Inst::AluRUImm32 {
                    alu_op: ALUOp::AddLogical64,
                    rd: into_reg,
                    ri: into_reg,
                    imm,
                },
            );
        }
        insts
    }

    /// Trap when the stack pointer is at or below the limit register.
    pub fn gen_stack_lower_bound_trap(limit_reg: Reg) -> (r: Vec<Inst>)
        ensures
            r@ == seq![
                Inst::CmpTrapRR {
                    op: CmpOp::CmpL64,
                    rn: spec_stack_reg(),
                    rm: limit_reg,
                    cond: Cond::UnsignedLessThanOrEqual,
                    trap_code: TrapCode::StackOverflow,
                },
            ],
    {
        let mut insts: Vec<Inst> = Vec::new();
        insts.push(
            Inst::CmpTrapRR {
                op: CmpOp::CmpL64,
                rn: stack_reg(),
                rm: limit_reg,
                cond: Cond::UnsignedLessThanOrEqual,
                trap_code: TrapCode::StackOverflow,
            },
        );
        insts
    }
}

/// Restore the clobbered floating-point registers from the clobber area.
pub fn gen_restore_fprs(frame_layout: &FrameLayout) -> (r: Vec<Inst>)
    requires
        8 * frame_layout.clobbered_callee_saves@.filter(float_pred()).len() <= u32::MAX,
    ensures
        r@ == fpr_restore_insts(
            frame_layout.clobbered_callee_saves@.filter(float_pred()),
            frame_layout.outgoing_args_size as int + frame_layout.fixed_frame_storage_size as int,
            frame_layout.clobbered_callee_saves@.filter(float_pred()).len() as int,
        ),
{
    let ghost fprs_spec = frame_layout.clobbered_callee_saves@.filter(float_pred());
    let base: i64 = frame_layout.outgoing_args_size as i64
        + frame_layout.fixed_frame_storage_size as i64;
    let fprs = get_clobbered_fprs(frame_layout);
    let mut insts: Vec<Inst> = Vec::new();
    let mut i: usize = 0;
    while i < fprs.len()
        invariant
            i <= fprs@.len(),
            fprs@ == fprs_spec,
            8 * fprs_spec.len() <= u32::MAX,
            base == frame_layout.outgoing_args_size as int
                + frame_layout.fixed_frame_storage_size as int,
            insts@ == fpr_restore_insts(fprs_spec, base as int, i as int),
        decreases fprs@.len() - i,
    {
        let off: i64 = (i as i64) * 8 + base;
        insts.push(
            Inst::VecLoadLaneUndef {
                size: 64,
                rd: fprs[i],
                mem: MemArg::RegOffset { base: stack_reg(), off },
                lane_imm: 0,
            },
        );
        i += 1;
    }
    insts
}

/// Restore the clobbered general-purpose registers — the stack pointer
/// among them — and pop the frame.
pub fn gen_restore_gprs(call_conv: CallConv, frame_layout: &FrameLayout, callee_pop_size: u32) -> (r:
    Vec<Inst>)
    requires
        frame_layout.wf(call_conv),
        callee_pop_size <= i32::MAX,
    ensures
        r@ == restore_gprs_insts(call_conv, frame_layout@, callee_pop_size),
{
    let stack_size: i32 = frame_layout.outgoing_args_size as i32
        + frame_layout.clobber_size as i32 + frame_layout.fixed_frame_storage_size as i32;

    let clobbered_gpr = get_clobbered_gprs(frame_layout);

    let implicit_sp_restore: bool = callee_pop_size == 0 && (call_conv != CallConv::Tail
        || frame_layout.incoming_args_size == 0) && match clobbered_gpr {
        Some((first, _)) => {
            let disp: i64 = 8 * (first as i64) + stack_size as i64;
            -524288 <= disp && disp < 524288
        },
        None => false,
    };

    let mut insts: Vec<Inst> = Vec::new();
    if !implicit_sp_restore {
        let mut adj = S390xMachineDeps::gen_sp_reg_adjust(stack_size - callee_pop_size as i32);
        insts.append(&mut adj);
    }

    if let Some((first, last0)) = clobbered_gpr {
        proof {
            let g = frame_layout.clobbered_callee_saves@.filter(int_pred());
            crate::frame::lemma_filter_is_subset(
                frame_layout.clobbered_callee_saves@,
                int_pred(),
                0,
            );
            crate::frame::lemma_filter_is_subset(
                frame_layout.clobbered_callee_saves@,
                int_pred(),
                g.len() - 1,
            );
            let j = choose|j: int|
                0 <= j < frame_layout.clobbered_callee_saves@.len()
                    && frame_layout.clobbered_callee_saves@[j] == g[0];
            let k = choose|k: int|
                0 <= k < frame_layout.clobbered_callee_saves@.len()
                    && frame_layout.clobbered_callee_saves@[k] == g[g.len() - 1];
            assert(spec_is_reg_saved_in_prologue(call_conv, g[0]));
            assert(spec_is_reg_saved_in_prologue(call_conv, g[g.len() - 1]));
        }
        let mut last: u8 = last0;
        let mut offset: i64 = callee_pop_size as i64 + 8 * (first as i64);
        if implicit_sp_restore {
            offset = offset + stack_size as i64 - callee_pop_size as i64;
            last = 15;
        }
        if -524288 <= offset && offset < 524288 {
            insts.push(
                Inst::LoadMultiple64 {
                    rt: gpr(first),
                    rt2: gpr(last),
                    mem: MemArg::RegOffset { base: stack_reg(), off: offset },
                },
            );
        } else {
            let mut lead = S390xMachineDeps::gen_add_imm(
                call_conv,
                gpr(first),
                stack_reg(),
                offset as u32,
            );
            insts.append(&mut lead);
            insts.push(
                Inst::LoadMultiple64 {
                    rt: gpr(first),
                    rt2: gpr(last),
                    mem: MemArg::RegOffset { base: gpr(first), off: 0 },
                },
            );
        }
    }
    insts
}

impl S390xMachineDeps {
    /// The prologue's clobber saves; see [`clobber_save_insts`].
    #[verifier::rlimit(100)]
    pub fn gen_clobber_save(call_conv: CallConv, flags: &Flags, frame_layout: &FrameLayout) -> (r:
        Vec<Inst>)
        requires
            frame_layout.wf(call_conv),
        ensures
            r@ == clobber_save_insts(call_conv, *flags, frame_layout@),
    {
        let mut insts: Vec<Inst> = Vec::new();

        let incoming_tail_args_size: u32 = if call_conv == CallConv::Tail {
            frame_layout.incoming_args_size
        } else {
            0
        };
        let ghost inc = incoming_tail_args_size as int;

        // Define the unwind stack frame.
        if flags.unwind_info {
            insts.push(
                Inst::Unwind {
                    inst: UnwindInst::DefineNewFrame {
                        offset_upward_to_caller_sp: REG_SAVE_AREA_SIZE + incoming_tail_args_size,
                        offset_downward_to_clobbers: frame_layout.clobber_size
                            - incoming_tail_args_size,
                    },
                },
            );
        }
        let ghost part_unwind = insts@;

        // One block store covers every clobbered GPR, always up to the
        // stack pointer.
        let clobbered_gpr = get_clobbered_gprs(frame_layout);
        if let Some((first_clobbered_gpr, _)) = clobbered_gpr {
            proof {
                let g = frame_layout.clobbered_callee_saves@.filter(int_pred());
                crate::frame::lemma_filter_is_subset(
                    frame_layout.clobbered_callee_saves@,
                    int_pred(),
                    0,
                );
                let j = choose|j: int|
                    0 <= j < frame_layout.clobbered_callee_saves@.len()
                        && frame_layout.clobbered_callee_saves@[j] == g[0];
                assert(spec_is_reg_saved_in_prologue(call_conv, g[0]));
            }
            let offset: i64 = 8 * (first_clobbered_gpr as i64) + incoming_tail_args_size as i64;
            insts.push(
                Inst::StoreMultiple64 {
                    rt: gpr(first_clobbered_gpr),
                    rt2: gpr(15),
                    mem: MemArg::RegOffset { base: stack_reg(), off: offset },
                },
            );
            if flags.unwind_info {
                let mut last_clobbered_gpr: u8 = 15;
                if incoming_tail_args_size != 0 {
                    insts.push(
                        Inst::Unwind {
                            inst: UnwindInst::RegStackOffset {
                                clobber_offset: frame_layout.clobber_size,
                                reg: gpr(15),
                            },
                        },
                    );
                    last_clobbered_gpr = 14;
                }
                let ghost part_head = insts@;
                let mut i: u8 = first_clobbered_gpr;
                proof {
                    assert(gpr_unwind_insts(
                        frame_layout.clobber_size,
                        first_clobbered_gpr as int,
                        i - 1,
                    ) =~= Seq::<Inst>::empty());
                }
                while i <= last_clobbered_gpr
                    invariant
                        first_clobbered_gpr <= i <= last_clobbered_gpr + 1,
                        last_clobbered_gpr <= 15,
                        frame_layout.clobber_size <= i32::MAX,
                        insts@ == part_head + gpr_unwind_insts(
                            frame_layout.clobber_size,
                            first_clobbered_gpr as int,
                            i - 1,
                        ),
                    decreases last_clobbered_gpr + 1 - i,
                {
                    insts.push(
                        Inst::Unwind {
                            inst: UnwindInst::SaveReg {
                                clobber_offset: frame_layout.clobber_size + (i as u32) * 8,
                                reg: gpr(i),
                            },
                        },
                    );
                    proof {
                        assert(gpr_unwind_insts(
                            frame_layout.clobber_size,
                            first_clobbered_gpr as int,
                            i as int,
                        ) =~= gpr_unwind_insts(
                            frame_layout.clobber_size,
                            first_clobbered_gpr as int,
                            i - 1,
                        ).push(
                            Inst::Unwind {
                                inst: UnwindInst::SaveReg {
                                    clobber_offset: (frame_layout.clobber_size + i * 8) as u32,
                                    reg: spec_gpr(i),
                                },
                            },
                        ));
                    }
                    i += 1;
                }
            }
        }
        let ghost part_gpr = insts@;

        // Capture the entry stack pointer for the backchain before it
        // moves.
        if flags.preserve_frame_pointers {
            if incoming_tail_args_size == 0 {
                insts.push(Inst::mov64(gpr(1), stack_reg()));
            } else {
                let mut add = Self::gen_add_imm(
                    call_conv,
                    gpr(1),
                    stack_reg(),
                    incoming_tail_args_size,
                );
                insts.append(&mut add);
            }
        }
        let ghost part_capture = insts@;

        // Allocate the frame.
        let stack_size: i32 = frame_layout.outgoing_args_size as i32
            + frame_layout.clobber_size as i32 + frame_layout.fixed_frame_storage_size as i32
            - incoming_tail_args_size as i32;
        let mut adj = Self::gen_sp_reg_adjust(-stack_size);
        insts.append(&mut adj);
        if flags.unwind_info {
            insts.push(Inst::Unwind { inst: UnwindInst::StackAlloc { size: stack_size as u32 } });
        }
        let ghost part_adjust = insts@;

        // Write the backchain into the new lowest frame word.
        if flags.preserve_frame_pointers {
            insts.push(
                Inst::Store64 { rd: gpr(1), mem: MemArg::RegOffset { base: stack_reg(), off: 0 } },
            );
        }
        let ghost part_backchain = insts@;

        // Save the floating-point registers into the clobber area.
        let fprs = get_clobbered_fprs(frame_layout);
        let ghost fprs_spec = frame_layout.clobbered_callee_saves@.filter(float_pred());
        let base: i64 = frame_layout.outgoing_args_size as i64
            + frame_layout.fixed_frame_storage_size as i64;
        let mut k: usize = 0;
        while k < fprs.len()
            invariant
                k <= fprs@.len(),
                fprs@ == fprs_spec,
                8 * fprs_spec.len() <= u32::MAX,
                base == frame_layout.outgoing_args_size as int
                    + frame_layout.fixed_frame_storage_size as int,
                insts@ == part_backchain + fpr_save_insts(
                    fprs_spec,
                    flags.unwind_info,
                    base as int,
                    k as int,
                ),
            decreases fprs@.len() - k,
        {
            let off: i64 = (k as i64) * 8 + base;
            insts.push(
                Inst::VecStoreLane {
                    size: 64,
                    rd: fprs[k],
                    mem: MemArg::RegOffset { base: stack_reg(), off },
                    lane_imm: 0,
                },
            );
            if flags.unwind_info {
                insts.push(
                    Inst::Unwind {
                        inst: UnwindInst::SaveReg {
                            clobber_offset: (k as u32) * 8,
                            reg: fprs[k],
                        },
                    },
                );
            }
            k += 1;
        }

        proof {
            assert(insts@ =~= clobber_save_insts(call_conv, *flags, frame_layout@));
        }
        insts
    }

    /// The epilogue's clobber restores: floating-point registers first,
    /// then the general-purpose block restore that also pops the frame.
    pub fn gen_clobber_restore(
        call_conv: CallConv,
        _flags: &Flags,
        frame_layout: &FrameLayout,
    ) -> (r: Vec<Inst>)
        requires
            frame_layout.wf(call_conv),
        ensures
            r@ == fpr_restore_insts(
                frame_layout.clobbered_callee_saves@.filter(float_pred()),
                frame_layout.outgoing_args_size as int
                    + frame_layout.fixed_frame_storage_size as int,
                frame_layout.clobbered_callee_saves@.filter(float_pred()).len() as int,
            ) + restore_gprs_insts(call_conv, frame_layout@, 0),
    {
        let mut insts = gen_restore_fprs(frame_layout);
        let mut gprs = gen_restore_gprs(call_conv, frame_layout, 0);
        insts.append(&mut gprs);
        insts
    }

    /// The tail-call epilogue: restore the floating-point registers, move
    /// an indirect call target out of any callee-saved register into `%r1`
    /// before the block restore overwrites it, then restore the
    /// general-purpose registers with the callee's pop size folded in.
    /// Returns the sequence and the temporary now holding the target, if
    /// one was needed.
    pub fn gen_tail_epilogue(
        frame_layout: &FrameLayout,
        callee_pop_size: u32,
        dest: &CallInstDest,
    ) -> (r: (Vec<Inst>, Option<Reg>))
        requires
            frame_layout.wf(CallConv::Tail),
            callee_pop_size <= i32::MAX,
            match dest {
                CallInstDest::Indirect { reg } => reg.class == RegClass::Int,
                CallInstDest::Direct => true,
            },
        ensures
            ({
                let moved = match dest {
                    CallInstDest::Indirect { reg } => spec_is_reg_saved_in_prologue(
                        CallConv::Tail,
                        *reg,
                    ),
                    CallInstDest::Direct => false,
                };
                &&& r.0@ == fpr_restore_insts(
                    frame_layout.clobbered_callee_saves@.filter(float_pred()),
                    frame_layout.outgoing_args_size as int
                        + frame_layout.fixed_frame_storage_size as int,
                    frame_layout.clobbered_callee_saves@.filter(float_pred()).len() as int,
                ) + (if moved {
                    seq![
                        Inst::spec_mov64(
                            spec_gpr(1),
                            dest->Indirect_reg,
                        ),
                    ]
                } else {
                    Seq::<Inst>::empty()
                }) + restore_gprs_insts(CallConv::Tail, frame_layout@, callee_pop_size)
                &&& r.1 == if moved {
                    Some(spec_gpr(1))
                } else {
                    None::<Reg>
                }
            }),
    {
        let mut insts = gen_restore_fprs(frame_layout);

        let temp_dest: Option<Reg> = match dest {
            CallInstDest::Indirect { reg } if is_reg_saved_in_prologue_tail(*reg) => {
                insts.push(Inst::Mov64 { rd: gpr(1), rm: *reg });
                Some(gpr(1))
            },
            _ => None,
        };

        let mut gprs = gen_restore_gprs(CallConv::Tail, frame_layout, callee_pop_size);
        insts.append(&mut gprs);

        (insts, temp_dest)
    }

    /// Emit the stack-overflow probes for a frame of `frame_size` bytes;
    /// see [`probestack_insts`].
    pub fn gen_inline_probestack(
        insts: &mut Vec<Inst>,
        _call_conv: CallConv,
        frame_size: u32,
        guard_size: u32,
    )
        requires
            guard_size > 0,
            frame_size <= i32::MAX,
            frame_size / guard_size > 2 ==> guard_size <= 32767,
        ensures
            final(insts)@ == old(insts)@ + probestack_insts(frame_size, guard_size),
    {
        // Each unrolled probe costs two instructions and the loop four;
        // two unrolled probes keep either form within four instructions.
        let probe_max_unroll: u32 = 2;

        let probe_count = frame_size / guard_size;
        proof {
            vstd::arithmetic::div_mod::lemma_fundamental_div_mod(
                frame_size as int,
                guard_size as int,
            );
            vstd::arithmetic::div_mod::lemma_mod_bound(frame_size as int, guard_size as int);
        }
        proof {
            if probe_count >= 1 {
                assert(guard_size as int * (frame_size as int / guard_size as int)
                    >= guard_size as int) by (nonlinear_arith)
                    requires
                        guard_size as int > 0,
                        frame_size as int / guard_size as int >= 1,
                ;
                assert(guard_size <= frame_size);
            }
        }
        let ghost entry = insts@;
        if probe_count == 0 {
            // No probe necessary.
        } else if probe_count <= probe_max_unroll {
            let mut n: u32 = 0;
            while n < probe_count
                invariant
                    n <= probe_count,
                    1 <= probe_count,
                    guard_size <= i32::MAX,
                    insts@ == entry + probe_unrolled_insts(guard_size, n as int),
                decreases probe_count - n,
            {
                let mut adj = Self::gen_sp_reg_adjust(-(guard_size as i32));
                insts.append(&mut adj);
                insts.push(Inst::StoreImm8 { imm: 0, mem: MemArg::reg(stack_reg()) });
                n += 1;
            }
        } else {
            // A counted probe loop; past register allocation the spill
            // temporary `%r1` is free to hold the count.
            if probe_count <= 32767 {
                insts.push(Inst::Mov32SImm16 { rd: gpr(1), imm: probe_count as i16 });
            } else {
                insts.push(Inst::Mov32Imm { rd: gpr(1), imm: probe_count });
            }
            insts.push(
                Inst::StackProbeLoop { probe_count: gpr(1), guard_size: guard_size as i16 },
            );
        }

        // Return the stack pointer to its pre-probe position.
        let mut back = Self::gen_sp_reg_adjust((probe_count * guard_size) as i32);
        insts.append(&mut back);
        proof {
            assert(insts@ =~= old(insts)@ + probestack_insts(frame_size, guard_size));
        }
    }
}

/// Whether the tail-call convention makes the callee preserve `r`, for an
/// integer-class register.
fn is_reg_saved_in_prologue_tail(r: Reg) -> (saved: bool)
    requires
        r.class == RegClass::Int,
    ensures
        saved == spec_is_reg_saved_in_prologue(CallConv::Tail, r),
{
    8 <= r.num && r.num <= 15
}

} // verus!
