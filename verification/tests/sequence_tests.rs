use s390x_abi::frame::FrameLayout;
use s390x_abi::inst::{
    ALUOp, CallInstDest, CmpOp, Cond, Inst, MemArg, StackAMode, TrapCode, UnwindInst,
};
use s390x_abi::machine::S390xMachineDeps;
use s390x_abi::prologue::{gen_restore_fprs, gen_restore_gprs};
use s390x_abi::regs::{gpr, stack_reg, vr, zero_reg};
use s390x_abi::types::{CallConv, Flags, Type};

fn flags() -> Flags {
    Flags {
        unwind_info: false,
        preserve_frame_pointers: false,
        enable_pinned_reg: false,
        enable_multi_ret_implicit_sret: false,
    }
}

#[test]
fn sp_adjust_picks_the_shortest_form() {
    assert_eq!(S390xMachineDeps::gen_sp_reg_adjust(0), vec![]);
    assert_eq!(
        S390xMachineDeps::gen_sp_reg_adjust(-160),
        vec![Inst::AluRSImm16 {
            alu_op: ALUOp::Add64,
            rd: stack_reg(),
            ri: stack_reg(),
            imm: -160,
        }]
    );
    assert_eq!(
        S390xMachineDeps::gen_sp_reg_adjust(40000),
        vec![Inst::AluRSImm32 {
            alu_op: ALUOp::Add64,
            rd: stack_reg(),
            ri: stack_reg(),
            imm: 40000,
        }]
    );
}

#[test]
fn add_imm_picks_the_shortest_form() {
    assert_eq!(
        S390xMachineDeps::gen_add_imm(CallConv::SystemV, gpr(1), stack_reg(), 8),
        vec![Inst::LoadAddr {
            rd: gpr(1),
            mem: MemArg::BXD12 {
                base: stack_reg(),
                index: zero_reg(),
                disp: 8,
            },
        }]
    );
    assert_eq!(
        S390xMachineDeps::gen_add_imm(CallConv::SystemV, gpr(1), stack_reg(), 5000),
        vec![Inst::LoadAddr {
            rd: gpr(1),
            mem: MemArg::BXD20 {
                base: stack_reg(),
                index: zero_reg(),
                disp: 5000,
            },
        }]
    );
    assert_eq!(
        S390xMachineDeps::gen_add_imm(CallConv::SystemV, gpr(1), stack_reg(), 600000),
        vec![
            Inst::Mov64 {
                rd: gpr(1),
                rm: stack_reg(),
            },
            Inst::AluRUImm32 {
                alu_op: ALUOp::AddLogical64,
                rd: gpr(1),
                ri: gpr(1),
                imm: 600000,
            },
        ]
    );
    assert_eq!(
        S390xMachineDeps::gen_add_imm(CallConv::SystemV, gpr(7), gpr(7), 600000),
        vec![Inst::AluRUImm32 {
            alu_op: ALUOp::AddLogical64,
            rd: gpr(7),
            ri: gpr(7),
            imm: 600000,
        }]
    );
}

fn small_layout() -> FrameLayout {
    S390xMachineDeps::compute_frame_layout(
        CallConv::SystemV,
        &flags(),
        &vec![gpr(6), vr(8)],
        0,
        0,
        0,
        0,
        0,
    )
}

#[test]
fn clobber_save_sequence_for_small_frame() {
    let mut f = flags();
    f.unwind_info = true;
    let fl = small_layout();
    let insts = S390xMachineDeps::gen_clobber_save(CallConv::SystemV, &f, &fl);
    // One frame definition, the GPR block store, ten per-register markers
    // for %r6..%r15, the allocation with its marker, one FPR save with its
    // marker.
    assert_eq!(insts.len(), 16);
    assert_eq!(
        insts[0],
        Inst::Unwind {
            inst: UnwindInst::DefineNewFrame {
                offset_upward_to_caller_sp: 160,
                offset_downward_to_clobbers: 8,
            },
        }
    );
    assert_eq!(
        insts[1],
        Inst::StoreMultiple64 {
            rt: gpr(6),
            rt2: gpr(15),
            mem: MemArg::RegOffset {
                base: stack_reg(),
                off: 48,
            },
        }
    );
    assert_eq!(
        insts[2],
        Inst::Unwind {
            inst: UnwindInst::SaveReg {
                clobber_offset: 8 + 48,
                reg: gpr(6),
            },
        }
    );
    assert_eq!(
        insts[12],
        Inst::AluRSImm16 {
            alu_op: ALUOp::Add64,
            rd: stack_reg(),
            ri: stack_reg(),
            imm: -8,
        }
    );
    assert_eq!(
        insts[13],
        Inst::Unwind {
            inst: UnwindInst::StackAlloc { size: 8 },
        }
    );
    assert_eq!(
        insts[14],
        Inst::VecStoreLane {
            size: 64,
            rd: vr(8),
            mem: MemArg::RegOffset {
                base: stack_reg(),
                off: 0,
            },
            lane_imm: 0,
        }
    );
    assert_eq!(
        insts[15],
        Inst::Unwind {
            inst: UnwindInst::SaveReg {
                clobber_offset: 0,
                reg: vr(8),
            },
        }
    );
}

#[test]
fn clobber_restore_folds_sp_adjustment_into_block_load() {
    let fl = small_layout();
    let insts = S390xMachineDeps::gen_clobber_restore(CallConv::SystemV, &flags(), &fl);
    assert_eq!(
        insts,
        vec![
            Inst::VecLoadLaneUndef {
                size: 64,
                rd: vr(8),
                mem: MemArg::RegOffset {
                    base: stack_reg(),
                    off: 0,
                },
                lane_imm: 0,
            },
            // The 8-byte frame pop is folded into the displacement, and the
            // block load runs through %r15 to restore the stack pointer.
            Inst::LoadMultiple64 {
                rt: gpr(6),
                rt2: gpr(15),
                mem: MemArg::RegOffset {
                    base: stack_reg(),
                    off: 48 + 8,
                },
            },
        ]
    );
}

#[test]
fn restore_with_callee_pop_adjusts_explicitly() {
    let fl = small_layout();
    let insts = gen_restore_gprs(CallConv::SystemV, &fl, 16);
    assert_eq!(
        insts,
        vec![
            Inst::AluRSImm16 {
                alu_op: ALUOp::Add64,
                rd: stack_reg(),
                ri: stack_reg(),
                imm: 8 - 16,
            },
            Inst::LoadMultiple64 {
                rt: gpr(6),
                rt2: gpr(6),
                mem: MemArg::RegOffset {
                    base: stack_reg(),
                    off: 16 + 48,
                },
            },
        ]
    );
}

#[test]
fn fpr_restore_reads_the_clobber_area() {
    let fl = S390xMachineDeps::compute_frame_layout(
        CallConv::SystemV,
        &flags(),
        &vec![vr(8), vr(12)],
        0,
        0,
        0,
        8,
        0,
    );
    let insts = gen_restore_fprs(&fl);
    assert_eq!(
        insts,
        vec![
            Inst::VecLoadLaneUndef {
                size: 64,
                rd: vr(8),
                mem: MemArg::RegOffset {
                    base: stack_reg(),
                    off: 8,
                },
                lane_imm: 0,
            },
            Inst::VecLoadLaneUndef {
                size: 64,
                rd: vr(12),
                mem: MemArg::RegOffset {
                    base: stack_reg(),
                    off: 16,
                },
                lane_imm: 0,
            },
        ]
    );
}

#[test]
fn tail_epilogue_rescues_indirect_target_from_callee_save() {
    let fl = S390xMachineDeps::compute_frame_layout(
        CallConv::Tail,
        &flags(),
        &vec![gpr(8)],
        0,
        0,
        0,
        0,
        0,
    );
    let dest = CallInstDest::Indirect { reg: gpr(9) };
    let (insts, temp) = S390xMachineDeps::gen_tail_epilogue(&fl, 0, &dest);
    assert_eq!(temp, Some(gpr(1)));
    assert_eq!(
        insts,
        vec![
            Inst::Mov64 {
                rd: gpr(1),
                rm: gpr(9),
            },
            Inst::LoadMultiple64 {
                rt: gpr(8),
                rt2: gpr(15),
                mem: MemArg::RegOffset {
                    base: stack_reg(),
                    off: 64,
                },
            },
        ]
    );
    // A target in a caller-saved register needs no rescue.
    let dest = CallInstDest::Indirect { reg: gpr(2) };
    let (insts, temp) = S390xMachineDeps::gen_tail_epilogue(&fl, 0, &dest);
    assert_eq!(temp, None);
    assert_eq!(insts.len(), 1);
}

#[test]
fn probestack_unrolls_small_counts() {
    let mut insts: Vec<Inst> = Vec::new();
    S390xMachineDeps::gen_inline_probestack(&mut insts, CallConv::SystemV, 8192, 4096);
    assert_eq!(
        insts,
        vec![
            Inst::AluRSImm16 {
                alu_op: ALUOp::Add64,
                rd: stack_reg(),
                ri: stack_reg(),
                imm: -4096,
            },
            Inst::StoreImm8 {
                imm: 0,
                mem: MemArg::BXD12 {
                    base: stack_reg(),
                    index: zero_reg(),
                    disp: 0,
                },
            },
            Inst::AluRSImm16 {
                alu_op: ALUOp::Add64,
                rd: stack_reg(),
                ri: stack_reg(),
                imm: -4096,
            },
            Inst::StoreImm8 {
                imm: 0,
                mem: MemArg::BXD12 {
                    base: stack_reg(),
                    index: zero_reg(),
                    disp: 0,
                },
            },
            Inst::AluRSImm16 {
                alu_op: ALUOp::Add64,
                rd: stack_reg(),
                ri: stack_reg(),
                imm: 8192,
            },
        ]
    );
}

#[test]
fn probestack_emits_a_loop_for_large_counts() {
    let mut insts: Vec<Inst> = Vec::new();
    S390xMachineDeps::gen_inline_probestack(&mut insts, CallConv::SystemV, 3 * 4096, 4096);
    assert_eq!(
        insts,
        vec![
            Inst::Mov32SImm16 { rd: gpr(1), imm: 3 },
            Inst::StackProbeLoop {
                probe_count: gpr(1),
                guard_size: 4096,
            },
            Inst::AluRSImm16 {
                alu_op: ALUOp::Add64,
                rd: stack_reg(),
                ri: stack_reg(),
                imm: 12288,
            },
        ]
    );
    // Below one guard page nothing is emitted.
    let mut insts: Vec<Inst> = Vec::new();
    S390xMachineDeps::gen_inline_probestack(&mut insts, CallConv::SystemV, 4000, 4096);
    assert_eq!(insts, vec![]);
}

#[test]
fn stack_lower_bound_trap_compares_and_traps() {
    let insts = S390xMachineDeps::gen_stack_lower_bound_trap(gpr(3));
    assert_eq!(
        insts,
        vec![Inst::CmpTrapRR {
            op: CmpOp::CmpL64,
            rn: stack_reg(),
            rm: gpr(3),
            cond: Cond::UnsignedLessThanOrEqual,
            trap_code: TrapCode::StackOverflow,
        }]
    );
}

#[test]
fn elementary_machine_operations() {
    assert_eq!(S390xMachineDeps::word_bits(), 64);
    assert_eq!(S390xMachineDeps::stack_align(CallConv::SystemV), 8);
    assert_eq!(S390xMachineDeps::get_stacklimit_reg(CallConv::SystemV), gpr(1));
    assert_eq!(
        S390xMachineDeps::gen_return(CallConv::SystemV, &small_layout()),
        vec![Inst::Ret { link: gpr(14) }]
    );
    assert_eq!(
        S390xMachineDeps::gen_move(gpr(2), gpr(3), Type::I64),
        Inst::Mov64 {
            rd: gpr(2),
            rm: gpr(3),
        }
    );
    assert_eq!(
        S390xMachineDeps::gen_move(vr(1), vr(2), Type::F64),
        Inst::FpuMove64 {
            rd: vr(1),
            rm: vr(2),
        }
    );
    assert_eq!(
        S390xMachineDeps::gen_move(vr(1), vr(2), Type::I8X16),
        Inst::VecMov {
            rd: vr(1),
            rm: vr(2),
        }
    );
    // Incoming-argument offsets are rebased from the top of that area.
    assert_eq!(
        S390xMachineDeps::gen_load_stack(StackAMode::IncomingArg(16, 32), gpr(2), Type::I64),
        Inst::Load {
            rd: gpr(2),
            mem: MemArg::IncomingArgOffset { off: 16 - 32 },
            ty: Type::I64,
        }
    );
    assert_eq!(
        s390x_abi::machine::S390xMachineDeps::get_number_of_spillslots_for_value(
            s390x_abi::types::RegClass::Float,
            16
        ),
        2
    );
}
