use s390x_abi::frame::{get_clobbered_fprs, get_clobbered_gprs};
use s390x_abi::machine::S390xMachineDeps;
use s390x_abi::regs::{gpr, vr, Reg};
use s390x_abi::types::{CallConv, Flags};

fn flags() -> Flags {
    Flags {
        unwind_info: false,
        preserve_frame_pointers: false,
        enable_pinned_reg: false,
        enable_multi_ret_implicit_sret: false,
    }
}

fn layout(call_conv: CallConv, flags: &Flags, regs: Vec<Reg>) -> s390x_abi::frame::FrameLayout {
    S390xMachineDeps::compute_frame_layout(call_conv, flags, &regs, 0, 0, 0, 0, 0)
}

#[test]
fn integer_clobbers_add_no_clobber_size() {
    let fl = layout(CallConv::SystemV, &flags(), vec![gpr(6), gpr(7)]);
    assert_eq!(fl.clobber_size, 0);
    assert_eq!(fl.clobbered_callee_saves, vec![gpr(6), gpr(7)]);
}

#[test]
fn float_clobbers_take_one_word_each() {
    let fl = layout(CallConv::SystemV, &flags(), vec![vr(8), gpr(6), vr(10)]);
    assert_eq!(fl.clobber_size, 16);
    assert_eq!(fl.clobbered_callee_saves, vec![gpr(6), vr(8), vr(10)]);
}

#[test]
fn caller_saved_registers_are_filtered_out() {
    let fl = layout(
        CallConv::SystemV,
        &flags(),
        vec![gpr(2), gpr(5), vr(0), vr(7), gpr(11)],
    );
    assert_eq!(fl.clobbered_callee_saves, vec![gpr(11)]);
    // The tail-call convention passes arguments in %r6 and %r7, so they
    // are not callee-saved there.
    let fl = layout(CallConv::Tail, &flags(), vec![gpr(6), gpr(7), gpr(8)]);
    assert_eq!(fl.clobbered_callee_saves, vec![gpr(8)]);
}

#[test]
fn same_clobber_set_in_any_order_gives_same_layout() {
    let a = layout(
        CallConv::SystemV,
        &flags(),
        vec![gpr(9), vr(10), gpr(6), vr(8)],
    );
    let b = layout(
        CallConv::SystemV,
        &flags(),
        vec![vr(8), gpr(6), vr(10), gpr(9)],
    );
    assert_eq!(a, b);
    assert_eq!(a.clobbered_callee_saves, vec![gpr(6), gpr(9), vr(8), vr(10)]);
}

#[test]
fn non_leaf_function_saves_link_register() {
    let regs = vec![gpr(6)];
    let fl = S390xMachineDeps::compute_frame_layout(
        CallConv::SystemV,
        &flags(),
        &regs,
        0,
        0,
        0,
        0,
        32,
    );
    assert_eq!(fl.clobbered_callee_saves, vec![gpr(6), gpr(14)]);
    assert_eq!(fl.outgoing_args_size, 32);
}

#[test]
fn backchain_forces_outgoing_save_area() {
    let mut f = flags();
    f.preserve_frame_pointers = true;
    let fl = S390xMachineDeps::compute_frame_layout(
        CallConv::SystemV,
        &f,
        &Vec::new(),
        0,
        0,
        0,
        0,
        0,
    );
    assert_eq!(fl.outgoing_args_size, 160);
    // The forced area counts as making calls, so the link register is
    // saved even in this leaf function.
    assert_eq!(fl.clobbered_callee_saves, vec![gpr(14)]);
}

#[test]
fn tail_convention_folds_tail_args_into_clobber_size() {
    let regs = vec![vr(8)];
    let fl = S390xMachineDeps::compute_frame_layout(
        CallConv::Tail,
        &flags(),
        &regs,
        16,
        24,
        0,
        0,
        0,
    );
    assert_eq!(fl.clobber_size, 8 + 24);
    // The externally visible tail-argument size goes back to the incoming
    // size.
    assert_eq!(fl.tail_args_size, 16);
    assert_eq!(fl.incoming_args_size, 16);
}

#[test]
fn layout_fields_are_passed_through() {
    let fl = S390xMachineDeps::compute_frame_layout(
        CallConv::SystemV,
        &flags(),
        &Vec::new(),
        8,
        8,
        24,
        40,
        0,
    );
    assert_eq!(fl.word_bytes, 8);
    assert_eq!(fl.setup_area_size, 0);
    assert_eq!(fl.incoming_args_size, 8);
    assert_eq!(fl.stackslots_size, 24);
    assert_eq!(fl.fixed_frame_storage_size, 40);
    assert_eq!(fl.clobber_size, 0);
}

#[test]
fn clobbered_gprs_report_their_block_range() {
    let fl = layout(CallConv::SystemV, &flags(), vec![gpr(9), vr(8), gpr(6)]);
    assert_eq!(get_clobbered_gprs(&fl), Some((6, 9)));
    assert_eq!(get_clobbered_fprs(&fl), vec![vr(8)]);

    let fl = layout(CallConv::SystemV, &flags(), vec![vr(8)]);
    assert_eq!(get_clobbered_gprs(&fl), None);
}
