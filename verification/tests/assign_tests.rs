use s390x_abi::abiarg::{ABIArg, ABIArgSlot};
use s390x_abi::machine::S390xMachineDeps;
use s390x_abi::regs::{gpr, vr, Reg};
use s390x_abi::types::{
    AbiParam, ArgsOrRets, ArgumentExtension, ArgumentPurpose, CallConv, CodegenError, Flags, Type,
};

fn flags() -> Flags {
    Flags {
        unwind_info: false,
        preserve_frame_pointers: false,
        enable_pinned_reg: false,
        enable_multi_ret_implicit_sret: false,
    }
}

fn reg_slot(a: &ABIArg) -> (Reg, Type, ArgumentExtension) {
    match a {
        ABIArg::Slots { slots, .. } => {
            assert_eq!(slots.len(), 1);
            match slots[0] {
                ABIArgSlot::Reg { reg, ty, extension } => (reg, ty, extension),
                _ => panic!("expected a register slot"),
            }
        }
        _ => panic!("expected a plain argument"),
    }
}

fn stack_slot(a: &ABIArg) -> (i64, Type, ArgumentExtension) {
    match a {
        ABIArg::Slots { slots, .. } => {
            assert_eq!(slots.len(), 1);
            match slots[0] {
                ABIArgSlot::Stack { offset, ty, extension } => (offset, ty, extension),
                _ => panic!("expected a stack slot"),
            }
        }
        _ => panic!("expected a plain argument"),
    }
}

#[test]
fn six_i64_args_standard_convention() {
    let params = vec![AbiParam::new(Type::I64); 6];
    let (args, size, ret) = S390xMachineDeps::compute_arg_locs(
        CallConv::SystemV,
        &flags(),
        &params,
        ArgsOrRets::Args,
        false,
    )
    .unwrap();
    assert_eq!(args.len(), 6);
    for i in 0..4 {
        let (reg, ty, _) = reg_slot(&args[i]);
        assert_eq!(reg, gpr(2 + i as u8));
        assert_eq!(ty, Type::I64);
    }
    let (off4, _, _) = stack_slot(&args[4]);
    let (off5, _, _) = stack_slot(&args[5]);
    assert_eq!(off4, 0);
    assert_eq!(off5, 8);
    assert_eq!(size, 16);
    assert!(ret.is_none());
}

#[test]
fn ret_area_pointer_takes_first_register() {
    let params = vec![AbiParam::new(Type::I64); 2];
    let (args, size, ret) = S390xMachineDeps::compute_arg_locs(
        CallConv::SystemV,
        &flags(),
        &params,
        ArgsOrRets::Args,
        true,
    )
    .unwrap();
    assert_eq!(args.len(), 3);
    assert_eq!(reg_slot(&args[0]).0, gpr(3));
    assert_eq!(reg_slot(&args[1]).0, gpr(4));
    let (ptr_reg, ptr_ty, _) = reg_slot(&args[2]);
    assert_eq!(ptr_reg, gpr(2));
    assert_eq!(ptr_ty, Type::I64);
    assert_eq!(ret, Some(2));
    assert_eq!(size, 0);
}

#[test]
fn int_args_within_registers_use_no_stack() {
    let params = vec![AbiParam::new(Type::I32); 3];
    let (args, size, _) = S390xMachineDeps::compute_arg_locs(
        CallConv::SystemV,
        &flags(),
        &params,
        ArgsOrRets::Args,
        false,
    )
    .unwrap();
    assert_eq!(size, 0);
    for (i, a) in args.iter().enumerate() {
        assert_eq!(reg_slot(a).0, gpr(2 + i as u8));
    }
}

#[test]
fn tail_convention_has_two_more_int_arg_registers() {
    let params = vec![AbiParam::new(Type::I64); 6];
    let (args, size, _) = S390xMachineDeps::compute_arg_locs(
        CallConv::Tail,
        &flags(),
        &params,
        ArgsOrRets::Args,
        false,
    )
    .unwrap();
    assert_eq!(size, 0);
    assert_eq!(reg_slot(&args[4]).0, gpr(6));
    assert_eq!(reg_slot(&args[5]).0, gpr(7));
}

#[test]
fn sub_word_unextended_arg_is_right_justified() {
    let mut params = vec![AbiParam::new(Type::I64); 4];
    params.push(AbiParam::new(Type::I8));
    let mut extended = AbiParam::new(Type::I8);
    extended.extension = ArgumentExtension::Uext;
    params.push(extended);
    let mut half = AbiParam::new(Type::I16);
    params.push(half);
    half.extension = ArgumentExtension::Sext;
    params.push(half);
    let (args, size, _) = S390xMachineDeps::compute_arg_locs(
        CallConv::SystemV,
        &flags(),
        &params,
        ArgsOrRets::Args,
        false,
    )
    .unwrap();
    // An 8-bit unextended value: slot base 0, stored at base + 7.
    assert_eq!(stack_slot(&args[4]).0, 7);
    // The same value zero-extended: stored at its slot base 8.
    assert_eq!(stack_slot(&args[5]).0, 8);
    // A 16-bit unextended value: slot base 16, stored at base + 6.
    assert_eq!(stack_slot(&args[6]).0, 22);
    // Sign-extended: at its slot base 24.
    assert_eq!(stack_slot(&args[7]).0, 24);
    assert_eq!(size, 32);
}

#[test]
fn float_and_vector_args_use_their_own_registers() {
    let params = vec![
        AbiParam::new(Type::F64),
        AbiParam::new(Type::F32),
        AbiParam::new(Type::I64X2),
        AbiParam::new(Type::F64X2),
        AbiParam::new(Type::I64),
    ];
    let (args, size, _) = S390xMachineDeps::compute_arg_locs(
        CallConv::SystemV,
        &flags(),
        &params,
        ArgsOrRets::Args,
        false,
    )
    .unwrap();
    assert_eq!(size, 0);
    assert_eq!(reg_slot(&args[0]).0, vr(0));
    assert_eq!(reg_slot(&args[1]).0, vr(2));
    assert_eq!(reg_slot(&args[2]).0, vr(24));
    assert_eq!(reg_slot(&args[3]).0, vr(25));
    assert_eq!(reg_slot(&args[4]).0, gpr(2));
}

#[test]
fn fifth_float_arg_spills() {
    let params = vec![AbiParam::new(Type::F64); 5];
    let (args, size, _) = S390xMachineDeps::compute_arg_locs(
        CallConv::SystemV,
        &flags(),
        &params,
        ArgsOrRets::Args,
        false,
    )
    .unwrap();
    assert_eq!(reg_slot(&args[3]).0, vr(6));
    assert_eq!(stack_slot(&args[4]).0, 0);
    assert_eq!(size, 8);
}

#[test]
fn tail_stack_args_carry_register_save_area_once() {
    // Six integer arguments fit the tail convention's registers: no stack
    // bytes, no addend.
    let params = vec![AbiParam::new(Type::I64); 6];
    let (_, size, _) = S390xMachineDeps::compute_arg_locs(
        CallConv::Tail,
        &flags(),
        &params,
        ArgsOrRets::Args,
        false,
    )
    .unwrap();
    assert_eq!(size, 0);
    // A seventh spills one 8-byte slot; the register save area is added
    // exactly once.
    let params = vec![AbiParam::new(Type::I64); 7];
    let (_, size, _) = S390xMachineDeps::compute_arg_locs(
        CallConv::Tail,
        &flags(),
        &params,
        ArgsOrRets::Args,
        false,
    )
    .unwrap();
    assert_eq!(size, 8 + 160);
}

#[test]
fn winch_convention_is_rejected() {
    let params = vec![AbiParam::new(Type::I64)];
    let err = S390xMachineDeps::compute_arg_locs(
        CallConv::Winch,
        &flags(),
        &params,
        ArgsOrRets::Args,
        false,
    )
    .unwrap_err();
    assert_eq!(err, CodegenError::UnsupportedCallConv);
}

#[test]
fn struct_argument_is_rejected() {
    let mut param = AbiParam::new(Type::I64);
    param.purpose = ArgumentPurpose::StructArgument(16);
    let err = S390xMachineDeps::compute_arg_locs(
        CallConv::SystemV,
        &flags(),
        &vec![param],
        ArgsOrRets::Args,
        false,
    )
    .unwrap_err();
    assert_eq!(err, CodegenError::UnsupportedStructArgument);
}

#[test]
fn too_many_returns_without_buffer_is_rejected() {
    let rets = vec![AbiParam::new(Type::I64); 5];
    let err = S390xMachineDeps::compute_arg_locs(
        CallConv::SystemV,
        &flags(),
        &rets,
        ArgsOrRets::Rets,
        false,
    )
    .unwrap_err();
    assert_eq!(err, CodegenError::TooManyReturnValues);

    let mut allowing = flags();
    allowing.enable_multi_ret_implicit_sret = true;
    let (args, size, _) = S390xMachineDeps::compute_arg_locs(
        CallConv::SystemV,
        &allowing,
        &rets,
        ArgsOrRets::Rets,
        false,
    )
    .unwrap();
    assert_eq!(stack_slot(&args[4]).0, 0);
    assert_eq!(size, 8);
}

#[test]
fn i128_arg_becomes_implicit_pointer() {
    let params = vec![AbiParam::new(Type::I128)];
    let (args, size, _) = S390xMachineDeps::compute_arg_locs(
        CallConv::SystemV,
        &flags(),
        &params,
        ArgsOrRets::Args,
        false,
    )
    .unwrap();
    match &args[0] {
        ABIArg::ImplicitPtrArg { pointer, offset, ty, purpose } => {
            assert_eq!(
                *pointer,
                ABIArgSlot::Reg {
                    reg: gpr(2),
                    ty: Type::I64,
                    extension: ArgumentExtension::NoExt
                }
            );
            assert_eq!(*offset, 0);
            assert_eq!(*ty, Type::I128);
            assert_eq!(*purpose, ArgumentPurpose::Normal);
        }
        _ => panic!("expected an implicit-pointer argument"),
    }
    assert_eq!(size, 16);
}

#[test]
fn implicit_pointer_buffer_follows_stack_args() {
    let mut params = vec![AbiParam::new(Type::I64); 4];
    params.push(AbiParam::new(Type::I128));
    let (args, size, _) = S390xMachineDeps::compute_arg_locs(
        CallConv::SystemV,
        &flags(),
        &params,
        ArgsOrRets::Args,
        false,
    )
    .unwrap();
    // No integer register is left, so the pointer itself spills to offset
    // 0, and the 16-byte buffer starts above it at 8.
    match &args[4] {
        ABIArg::ImplicitPtrArg { pointer, offset, .. } => {
            assert_eq!(
                *pointer,
                ABIArgSlot::Stack {
                    offset: 0,
                    ty: Type::I64,
                    extension: ArgumentExtension::NoExt
                }
            );
            assert_eq!(*offset, 8);
        }
        _ => panic!("expected an implicit-pointer argument"),
    }
    assert_eq!(size, 24);
}

#[test]
fn i128_return_is_forced_to_memory() {
    let mut allowing = flags();
    allowing.enable_multi_ret_implicit_sret = true;
    let rets = vec![AbiParam::new(Type::I128)];
    let (args, size, _) = S390xMachineDeps::compute_arg_locs(
        CallConv::SystemV,
        &allowing,
        &rets,
        ArgsOrRets::Rets,
        false,
    )
    .unwrap();
    let (off, ty, _) = stack_slot(&args[0]);
    assert_eq!(off, 0);
    assert_eq!(ty, Type::I128);
    assert_eq!(size, 16);
}

#[test]
fn stack_area_past_limit_is_rejected() {
    // Four arguments land in registers; each further one takes one 8-byte
    // slot, so this many cross the 128 MiB limit by one slot.
    let n = 4 + (128 * 1024 * 1024) / 8 + 1;
    let params = vec![AbiParam::new(Type::I64); n];
    let err = S390xMachineDeps::compute_arg_locs(
        CallConv::SystemV,
        &flags(),
        &params,
        ArgsOrRets::Args,
        false,
    )
    .unwrap_err();
    assert_eq!(err, CodegenError::StackLimitExceeded);

    // One slot fewer sits exactly at the limit and is accepted.
    let params = vec![AbiParam::new(Type::I64); n - 1];
    let (_, size, _) = S390xMachineDeps::compute_arg_locs(
        CallConv::SystemV,
        &flags(),
        &params,
        ArgsOrRets::Args,
        false,
    )
    .unwrap();
    assert_eq!(size, 128 * 1024 * 1024);
}
