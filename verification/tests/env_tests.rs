use s390x_abi::env::{all_clobbers, sysv_clobbers, tail_clobbers};
use s390x_abi::inst::{CallInstDest, Inst, MemArg, StackAMode};
use s390x_abi::machine::S390xMachineDeps;
use s390x_abi::regs::{gpr, vr};
use s390x_abi::retval::{CallInfo, CallRetPair, RetDest, RetLocation};
use s390x_abi::types::{CallConv, Flags, Type};

fn flags() -> Flags {
    Flags {
        unwind_info: false,
        preserve_frame_pointers: false,
        enable_pinned_reg: false,
        enable_multi_ret_implicit_sret: false,
    }
}

#[test]
fn standard_clobber_set_spares_callee_saves() {
    let set = sysv_clobbers();
    for n in 0..=5 {
        assert!(set.contains(gpr(n)));
    }
    for n in 6..=15 {
        assert!(!set.contains(gpr(n)));
    }
    for n in 0..=31 {
        assert!(set.contains(vr(n)));
    }
}

#[test]
fn tail_clobber_set_adds_r6_and_r7() {
    let set = tail_clobbers();
    assert!(set.contains(gpr(6)));
    assert!(set.contains(gpr(7)));
    assert!(!set.contains(gpr(8)));
}

#[test]
fn exception_calls_clobber_everything() {
    let set = all_clobbers();
    for n in 0..=15 {
        assert!(set.contains(gpr(n)));
    }
    let via_call = S390xMachineDeps::get_regs_clobbered_by_call(CallConv::Tail, true);
    assert_eq!(via_call, set);
    // An ordinary tail call keeps the callee-saved registers.
    let ordinary = S390xMachineDeps::get_regs_clobbered_by_call(CallConv::Tail, false);
    assert!(!ordinary.contains(gpr(8)));
    let standard = S390xMachineDeps::get_regs_clobbered_by_call(CallConv::SystemV, false);
    assert!(!standard.contains(gpr(6)));
}

#[test]
fn machine_env_prefers_argument_registers() {
    let env = S390xMachineDeps::get_machine_env(&flags(), CallConv::SystemV);
    assert_eq!(env.preferred_int, vec![gpr(2), gpr(3), gpr(4), gpr(5)]);
    assert_eq!(env.non_preferred_int.first(), Some(&gpr(6)));
    assert_eq!(env.non_preferred_int.last(), Some(&gpr(14)));
    assert_eq!(env.preferred_float.len(), 24);
    assert_eq!(env.non_preferred_float.len(), 8);
    assert_eq!(env.preferred_vector, vec![]);
    assert_eq!(env.fixed_stack_slots, vec![]);
    assert!(env.scratch_int.is_none());

    let tail_env = S390xMachineDeps::get_machine_env(&flags(), CallConv::Tail);
    assert_eq!(
        tail_env.preferred_int,
        vec![gpr(2), gpr(3), gpr(4), gpr(5), gpr(6), gpr(7)]
    );
    assert_eq!(tail_env.non_preferred_int.first(), Some(&gpr(8)));
    assert_eq!(tail_env.preferred_float, env.preferred_float);
}

#[test]
fn machine_env_is_deterministic() {
    let a = S390xMachineDeps::get_machine_env(&flags(), CallConv::SystemV);
    let b = S390xMachineDeps::get_machine_env(&flags(), CallConv::SystemV);
    assert_eq!(a, b);
}

#[test]
fn exception_payload_registers() {
    assert_eq!(
        S390xMachineDeps::exception_payload_regs(CallConv::SystemV),
        vec![gpr(6), gpr(7)]
    );
    assert_eq!(
        S390xMachineDeps::exception_payload_regs(CallConv::Tail),
        vec![gpr(6), gpr(7)]
    );
    assert_eq!(
        S390xMachineDeps::exception_payload_regs(CallConv::Winch),
        vec![]
    );
}

#[test]
fn retval_loads_copy_spill_destined_values_first() {
    let info = CallInfo {
        dest: CallInstDest::Direct,
        caller_conv: CallConv::SystemV,
        callee_conv: CallConv::SystemV,
        defs: vec![
            CallRetPair {
                vreg: RetDest::Reg(vr(24)),
                location: RetLocation::Stack(StackAMode::OutgoingArg(16), Type::I64),
            },
            CallRetPair {
                vreg: RetDest::Spillslot(3),
                location: RetLocation::Stack(StackAMode::OutgoingArg(0), Type::I64),
            },
        ],
        callee_pop_size: 0,
    };
    let insts = S390xMachineDeps::gen_retval_loads(&info);
    assert_eq!(
        insts,
        vec![
            // The spill-destined copy goes through the temporary before any
            // direct load could overwrite it.
            Inst::Load {
                rd: gpr(0),
                mem: MemArg::OutgoingArgOffset { off: 0 },
                ty: Type::I64,
            },
            Inst::Store {
                rd: gpr(0),
                mem: MemArg::SpillOffset { off: 24 },
                ty: Type::I64,
            },
            Inst::Load {
                rd: vr(24),
                mem: MemArg::OutgoingArgOffset { off: 16 },
                ty: Type::I64,
            },
        ]
    );
}

#[test]
fn retval_loads_swap_lanes_across_conventions() {
    let info = CallInfo {
        dest: CallInstDest::Direct,
        caller_conv: CallConv::SystemV,
        callee_conv: CallConv::Tail,
        defs: vec![
            CallRetPair {
                vreg: RetDest::Reg(vr(24)),
                location: RetLocation::Reg(vr(24), Type::I32X4),
            },
            CallRetPair {
                vreg: RetDest::Spillslot(0),
                location: RetLocation::Stack(StackAMode::OutgoingArg(0), Type::I64X2),
            },
        ],
        callee_pop_size: 0,
    };
    let insts = S390xMachineDeps::gen_retval_loads(&info);
    assert_eq!(
        insts,
        vec![
            Inst::Load {
                rd: vr(1),
                mem: MemArg::OutgoingArgOffset { off: 0 },
                ty: Type::I64X2,
            },
            Inst::VecEltRev {
                lane_count: 2,
                rd: vr(1),
                rn: vr(1),
            },
            Inst::Store {
                rd: vr(1),
                mem: MemArg::SpillOffset { off: 0 },
                ty: Type::I8X16,
            },
            Inst::VecEltRev {
                lane_count: 4,
                rd: vr(24),
                rn: vr(24),
            },
        ]
    );
}

#[test]
fn retval_loads_do_nothing_for_matching_register_returns() {
    let info = CallInfo {
        dest: CallInstDest::Direct,
        caller_conv: CallConv::SystemV,
        callee_conv: CallConv::SystemV,
        defs: vec![CallRetPair {
            vreg: RetDest::Reg(gpr(2)),
            location: RetLocation::Reg(gpr(2), Type::I64),
        }],
        callee_pop_size: 0,
    };
    assert_eq!(S390xMachineDeps::gen_retval_loads(&info), vec![]);
}
