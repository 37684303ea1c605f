//! The argument/return location assigner: from an ordered descriptor list
//! to register assignments, stack-slot offsets and the total stack area.
//!
//! The whole pass is specified by [`compute_arg_locs_model`], a recursive
//! functional model;
//! [`S390xMachineDeps::compute_arg_locs`] returns exactly what the model
//! says, error for error.

use vstd::prelude::*;

use crate::abiarg::{arg_slots, args_view, ABIArg, ABIArgSlot, ABIArgView};
use crate::machine::S390xMachineDeps;
use crate::regs::{
    class_of, get_fltreg_for_arg, get_fltreg_for_ret, get_intreg_for_arg, get_intreg_for_ret,
    get_vecreg_for_arg, get_vecreg_for_ret, in_flt_reg, in_int_reg, in_vec_reg, spec_flt_arg_reg,
    spec_flt_ret_reg, spec_gpr, spec_int_arg_reg, spec_int_ret_reg, spec_vec_arg_reg,
    spec_vec_ret_reg, Reg,
};
use crate::types::{
    AbiParam, ArgsOrRets, ArgumentExtension, ArgumentPurpose, CallConv, CodegenError, Flags,
    RegClass, Type, REG_SAVE_AREA_SIZE, STACK_ARG_RET_SIZE_LIMIT,
};

verus! {

/// `x` rounded up to the next multiple of `alignment`.
pub open spec fn align_to(x: int, alignment: int) -> int {
    ((x + alignment - 1) / alignment) * alignment
}

/// Round up to the next multiple of the 8-byte machine word.
fn align8(x: u32) -> (r: u32)
    requires
        x as int + 7 <= u32::MAX,
    ensures
        r as int == align_to(x as int, 8),
        x <= r <= x as int + 7,
{
    proof {
        vstd::arithmetic::div_mod::lemma_fundamental_div_mod(x as int + 7, 8);
    }
    ((x + 7) / 8) * 8
}

/// Running state of the assignment pass: the per-class register counters,
/// the stack watermark, and the locations assigned so far.
pub struct AsgState {
    pub next_gpr: int,
    pub next_fpr: int,
    pub next_vr: int,
    pub next_stack: int,
    pub args: Seq<ABIArgView>,
}

/// The register for slot `idx` of class `rc`, for arguments or returns.
pub open spec fn reg_candidate(
    call_conv: CallConv,
    args_or_rets: ArgsOrRets,
    rc: RegClass,
    idx: int,
) -> Option<Reg> {
    match (args_or_rets, rc) {
        (ArgsOrRets::Args, RegClass::Int) => spec_int_arg_reg(call_conv, idx),
        (ArgsOrRets::Rets, RegClass::Int) => spec_int_ret_reg(call_conv, idx),
        (ArgsOrRets::Args, RegClass::Float) => spec_flt_arg_reg(idx),
        (ArgsOrRets::Rets, RegClass::Float) => spec_flt_ret_reg(idx),
        (ArgsOrRets::Args, RegClass::Vector) => spec_vec_arg_reg(idx),
        (ArgsOrRets::Rets, RegClass::Vector) => spec_vec_ret_reg(idx),
    }
}

/// One step of the assignment pass, applied to one descriptor.
///
/// An aggregate-by-value parameter is an unsupported-feature error.  A value
/// fitting no register class is forced to memory when assigning returns, and
/// converted to an implicit-pointer parameter (an I64 with no extension)
/// when assigning arguments.  A register of the value's class is taken when
/// one is free; otherwise the value spills to a stack slot of at least one
/// word, aligned to `min(slot size, word size)`, right-justified in the slot
/// when it is narrower than the slot and requested no extension.  A spill
/// that would push the stack area past [`STACK_ARG_RET_SIZE_LIMIT`] is an
/// error.
pub open spec fn asg_step(
    call_conv: CallConv,
    args_or_rets: ArgsOrRets,
    enable_multi_ret_implicit_sret: bool,
    st: AsgState,
    param: AbiParam,
) -> Result<AsgState, CodegenError> {
    if param.purpose is StructArgument {
        Err(CodegenError::UnsupportedStructArgument)
    } else {
        let cls = class_of(param.value_type);
        let implicit = cls is None && args_or_rets == ArgsOrRets::Args;
        let eff = if implicit {
            AbiParam {
                value_type: Type::I64,
                purpose: ArgumentPurpose::Normal,
                extension: ArgumentExtension::NoExt,
            }
        } else {
            param
        };
        let candidate = match cls {
            Some(rc) => reg_candidate(call_conv, args_or_rets, rc, counter_for(st, rc)),
            None => if args_or_rets == ArgsOrRets::Rets {
                None
            } else {
                spec_int_arg_reg(call_conv, st.next_gpr)
            },
        };
        match candidate {
            Some(reg) => {
                let slot = ABIArgSlot::Reg { reg, ty: eff.value_type, extension: eff.extension };
                Ok(
                    AsgState {
                        next_gpr: st.next_gpr + if uses_gpr_counter(cls) {
                            1int
                        } else {
                            0
                        },
                        next_fpr: st.next_fpr + if cls == Some(RegClass::Float) {
                            1int
                        } else {
                            0
                        },
                        next_vr: st.next_vr + if cls == Some(RegClass::Vector) {
                            1int
                        } else {
                            0
                        },
                        next_stack: st.next_stack,
                        args: st.args.push(pushed_arg(implicit, param, slot)),
                    },
                )
            },
            None => {
                if args_or_rets == ArgsOrRets::Rets && !enable_multi_ret_implicit_sret {
                    Err(CodegenError::TooManyReturnValues)
                } else {
                    let size = eff.value_type.spec_bits() as int / 8;
                    let slot_size = if size < 8 {
                        8int
                    } else {
                        size
                    };
                    let slot_align = if slot_size < 8 {
                        slot_size
                    } else {
                        8int
                    };
                    let base = align_to(st.next_stack, slot_align);
                    let justify = if size < slot_size && eff.extension
                        == ArgumentExtension::NoExt {
                        slot_size - size
                    } else {
                        0int
                    };
                    let new_stack = base + slot_size;
                    if new_stack > STACK_ARG_RET_SIZE_LIMIT as int {
                        Err(CodegenError::StackLimitExceeded)
                    } else {
                        let slot = ABIArgSlot::Stack {
                            offset: (base + justify) as i64,
                            ty: eff.value_type,
                            extension: eff.extension,
                        };
                        Ok(
                            AsgState {
                                next_gpr: st.next_gpr,
                                next_fpr: st.next_fpr,
                                next_vr: st.next_vr,
                                next_stack: new_stack,
                                args: st.args.push(pushed_arg(implicit, param, slot)),
                            },
                        )
                    }
                }
            },
        }
    }
}

/// Whether assigning a value of class `cls` draws from the integer counter:
/// integer values do, and so do class-less values, whose implicit pointer is
/// an integer.
pub open spec fn uses_gpr_counter(cls: Option<RegClass>) -> bool {
    cls == Some(RegClass::Int) || cls is None
}

/// The running counter for class `rc`.
pub open spec fn counter_for(st: AsgState, rc: RegClass) -> int {
    match rc {
        RegClass::Int => st.next_gpr,
        RegClass::Float => st.next_fpr,
        RegClass::Vector => st.next_vr,
    }
}

/// The location recorded for the descriptor: its slot, or — for a value
/// passed by implicit reference — the pointer slot together with the
/// referenced type, the buffer offset still unassigned.
pub open spec fn pushed_arg(implicit: bool, param: AbiParam, slot: ABIArgSlot) -> ABIArgView {
    if implicit {
        ABIArgView::ImplicitPtrArg {
            pointer: slot,
            offset: 0,
            ty: param.value_type,
            purpose: ArgumentPurpose::Normal,
        }
    } else {
        ABIArgView::Slots { slots: seq![slot], purpose: param.purpose }
    }
}

/// The assignment pass over a whole descriptor list, first error wins.
pub open spec fn asg_fold(
    call_conv: CallConv,
    args_or_rets: ArgsOrRets,
    enable_multi_ret_implicit_sret: bool,
    init: AsgState,
    params: Seq<AbiParam>,
) -> Result<AsgState, CodegenError>
    decreases params.len(),
{
    if params.len() == 0 {
        Ok(init)
    } else {
        match asg_fold(
            call_conv,
            args_or_rets,
            enable_multi_ret_implicit_sret,
            init,
            params.drop_last(),
        ) {
            Ok(st) => asg_step(
                call_conv,
                args_or_rets,
                enable_multi_ret_implicit_sret,
                st,
                params.last(),
            ),
            Err(e) => Err(e),
        }
    }
}

/// The starting state; a requested return-area pointer takes the first
/// integer argument register before any real parameter.
pub open spec fn init_state(add_ret_area_ptr: bool) -> AsgState {
    AsgState {
        next_gpr: if add_ret_area_ptr {
            1int
        } else {
            0int
        },
        next_fpr: 0,
        next_vr: 0,
        next_stack: 0,
        args: Seq::empty(),
    }
}

/// The synthesized return-area pointer argument: an I64 in the first
/// integer argument register.
pub open spec fn ret_area_ptr_arg() -> ABIArgView {
    ABIArgView::Slots {
        slots: seq![
            ABIArgSlot::Reg {
                reg: spec_gpr(2),
                ty: Type::I64,
                extension: ArgumentExtension::NoExt,
            },
        ],
        purpose: ArgumentPurpose::Normal,
    }
}

/// Assign backing buffers for the implicit-pointer arguments among
/// `args[i..]`, contiguously from `next_stack` up: the updated suffix and
/// the final stack size, or an error past the size limit.
pub open spec fn buffers_from(args: Seq<ABIArgView>, i: int, next_stack: int) -> Result<
    (Seq<ABIArgView>, int),
    CodegenError,
>
    decreases args.len() - i,
{
    if i < 0 || i >= args.len() {
        Ok((Seq::empty(), next_stack))
    } else {
        match args[i] {
            ABIArgView::ImplicitPtrArg { pointer, offset: _, ty, purpose } => {
                let new_stack = next_stack + ty.spec_bits() as int / 8;
                if new_stack > STACK_ARG_RET_SIZE_LIMIT as int {
                    Err(CodegenError::StackLimitExceeded)
                } else {
                    match buffers_from(args, i + 1, new_stack) {
                        Ok((rest, total)) => Ok(
                            (
                                seq![
                                    ABIArgView::ImplicitPtrArg {
                                        pointer,
                                        offset: next_stack as i64,
                                        ty,
                                        purpose,
                                    },
                                ] + rest,
                                total,
                            ),
                        ),
                        Err(e) => Err(e),
                    }
                }
            },
            _ => match buffers_from(args, i + 1, next_stack) {
                Ok((rest, total)) => Ok((seq![args[i]] + rest, total)),
                Err(e) => Err(e),
            },
        }
    }
}

/// The assigned locations for one signature side: the location list, the
/// stack area size, and the index of the synthesized return-area pointer
/// argument, if one was requested.
pub struct ArgLocs {
    pub args: Seq<ABIArgView>,
    pub stack_size: int,
    pub ret_arg: Option<int>,
}

/// The assignment up to — but not including — the tail-call register-save
/// addend: fold over the descriptors, align the stack area to the word
/// size, append the return-area pointer, then place the implicit-pointer
/// buffers.
pub open spec fn arg_locs_base(
    call_conv: CallConv,
    flags: Flags,
    params: Seq<AbiParam>,
    args_or_rets: ArgsOrRets,
    add_ret_area_ptr: bool,
) -> Result<ArgLocs, CodegenError> {
    match asg_fold(
        call_conv,
        args_or_rets,
        flags.enable_multi_ret_implicit_sret,
        init_state(add_ret_area_ptr),
        params,
    ) {
        Err(e) => Err(e),
        Ok(st) => {
            let aligned = align_to(st.next_stack, 8);
            let with_ret = if add_ret_area_ptr {
                st.args.push(ret_area_ptr_arg())
            } else {
                st.args
            };
            let ret_arg = if add_ret_area_ptr {
                Some(with_ret.len() - 1)
            } else {
                None
            };
            match buffers_from(with_ret, 0, aligned) {
                Err(e) => Err(e),
                Ok((final_args, total)) => Ok(
                    ArgLocs { args: final_args, stack_size: total, ret_arg },
                ),
            }
        },
    }
}

/// What the assigner owes for these inputs.  Under the tail-call convention
/// arguments live in the callee's frame, below the register save area; when
/// any stack bytes are used, the register-save-area size is added exactly
/// once so that the convention-agnostic return-buffer placement above the
/// argument area stays correct.
pub open spec fn compute_arg_locs_model(
    call_conv: CallConv,
    flags: Flags,
    params: Seq<AbiParam>,
    args_or_rets: ArgsOrRets,
    add_ret_area_ptr: bool,
) -> Result<ArgLocs, CodegenError> {
    if call_conv == CallConv::Winch {
        Err(CodegenError::UnsupportedCallConv)
    } else {
        match arg_locs_base(call_conv, flags, params, args_or_rets, add_ret_area_ptr) {
            Err(e) => Err(e),
            Ok(locs) => {
                if call_conv == CallConv::Tail && args_or_rets == ArgsOrRets::Args
                    && locs.stack_size != 0 {
                    let total = locs.stack_size + REG_SAVE_AREA_SIZE as int;
                    if total > STACK_ARG_RET_SIZE_LIMIT as int {
                        Err(CodegenError::StackLimitExceeded)
                    } else {
                        Ok(ArgLocs { args: locs.args, stack_size: total, ret_arg: locs.ret_arg })
                    }
                } else {
                    Ok(locs)
                }
            },
        }
    }
}

/// Once the fold hits an error on a prefix, the whole fold returns that
/// error.
pub proof fn lemma_fold_err_persists(
    call_conv: CallConv,
    args_or_rets: ArgsOrRets,
    enable_multi_ret_implicit_sret: bool,
    init: AsgState,
    params: Seq<AbiParam>,
    j: int,
)
    requires
        0 <= j <= params.len(),
        asg_fold(
            call_conv,
            args_or_rets,
            enable_multi_ret_implicit_sret,
            init,
            params.take(j),
        ) is Err,
    ensures
        asg_fold(call_conv, args_or_rets, enable_multi_ret_implicit_sret, init, params)
            == asg_fold(
            call_conv,
            args_or_rets,
            enable_multi_ret_implicit_sret,
            init,
            params.take(j),
        ),
    decreases params.len() - j,
{
    if j == params.len() {
        assert(params.take(j) =~= params);
    } else {
        assert(params.take(j + 1).drop_last() =~= params.take(j));
        lemma_fold_err_persists(
            call_conv,
            args_or_rets,
            enable_multi_ret_implicit_sret,
            init,
            params,
            j + 1,
        );
    }
}

impl S390xMachineDeps {
    /// Assign a location to every descriptor, left to right.  Returns the
    /// locations, the stack area size, and the index of the synthesized
    /// return-area pointer argument if one was requested; or the first
    /// error: an unsupported convention, an aggregate-by-value parameter,
    /// return values past the registers when no return buffer is allowed,
    /// or a stack area past [`STACK_ARG_RET_SIZE_LIMIT`].
    #[verifier::rlimit(100)]
    pub fn compute_arg_locs(
        call_conv: CallConv,
        flags: &Flags,
        params: &Vec<AbiParam>,
        args_or_rets: ArgsOrRets,
        add_ret_area_ptr: bool,
    ) -> (r: Result<(Vec<ABIArg>, u32, Option<usize>), CodegenError>)
        requires
            add_ret_area_ptr ==> args_or_rets == ArgsOrRets::Args,
        ensures
            match (r, compute_arg_locs_model(
                call_conv,
                *flags,
                params@,
                args_or_rets,
                add_ret_area_ptr,
            )) {
                (Ok((args, stack_size, ret_arg)), Ok(locs)) => {
                    &&& args_view(args@) == locs.args
                    &&& stack_size as int == locs.stack_size
                    &&& match (ret_arg, locs.ret_arg) {
                        (Some(i), Some(j)) => i as int == j,
                        (None, None) => true,
                        _ => false,
                    }
                },
                (Err(e), Err(e2)) => e == e2,
                _ => false,
            },
    {
        let ghost multi = flags.enable_multi_ret_implicit_sret;
        let ghost init = init_state(add_ret_area_ptr);

        if call_conv == CallConv::Winch {
            return Err(CodegenError::UnsupportedCallConv);
        }

        let mut args: Vec<ABIArg> = Vec::new();
        let mut next_gpr: usize = 0;
        let mut next_fpr: usize = 0;
        let mut next_vr: usize = 0;
        let mut next_stack: u32 = 0;

        if add_ret_area_ptr {
            next_gpr = 1;
        }

        proof {
            assert(params@.take(0) =~= Seq::<AbiParam>::empty());
            assert(args_view(args@) =~= Seq::<ABIArgView>::empty());
        }

        let mut i: usize = 0;
        while i < params.len()
            invariant
                i <= params@.len(),
                call_conv != CallConv::Winch,
                add_ret_area_ptr ==> args_or_rets == ArgsOrRets::Args,
                multi == flags.enable_multi_ret_implicit_sret,
                init == init_state(add_ret_area_ptr),
                asg_fold(call_conv, args_or_rets, multi, init, params@.take(i as int))
                    == Ok::<AsgState, CodegenError>(AsgState {
                        next_gpr: next_gpr as int,
                        next_fpr: next_fpr as int,
                        next_vr: next_vr as int,
                        next_stack: next_stack as int,
                        args: args_view(args@),
                    },
                ),
                next_stack <= STACK_ARG_RET_SIZE_LIMIT,
                next_gpr <= 7,
                next_fpr <= 4,
                next_vr <= 8,
            decreases params@.len() - i,
        {
            let ghost st0 = AsgState {
                next_gpr: next_gpr as int,
                next_fpr: next_fpr as int,
                next_vr: next_vr as int,
                next_stack: next_stack as int,
                args: args_view(args@),
            };
            let param = params[i];
            proof {
                assert(params@.take(i + 1).drop_last() =~= params@.take(i as int));
                assert(params@.take(i + 1).last() == params@[i as int]);
            }

            if let ArgumentPurpose::StructArgument(_) = param.purpose {
                proof {
                    lemma_fold_err_persists(call_conv, args_or_rets, multi, init, params@, i + 1);
                }
                return Err(CodegenError::UnsupportedStructArgument);
            }

            let intreg = in_int_reg(param.value_type);
            let fltreg = in_flt_reg(param.value_type);
            let vecreg = in_vec_reg(param.value_type);

            let mut eff = param;
            let mut implicit_ref: Option<Type> = None;
            let candidate: Option<Reg>;
            if intreg {
                candidate = match args_or_rets {
                    ArgsOrRets::Args => get_intreg_for_arg(call_conv, next_gpr),
                    ArgsOrRets::Rets => get_intreg_for_ret(call_conv, next_gpr),
                };
            } else if fltreg {
                candidate = match args_or_rets {
                    ArgsOrRets::Args => get_fltreg_for_arg(next_fpr),
                    ArgsOrRets::Rets => get_fltreg_for_ret(next_fpr),
                };
            } else if vecreg {
                candidate = match args_or_rets {
                    ArgsOrRets::Args => get_vecreg_for_arg(next_vr),
                    ArgsOrRets::Rets => get_vecreg_for_ret(next_vr),
                };
            } else if args_or_rets == ArgsOrRets::Rets {
                // Return values that fit no register class are forced to
                // memory; the caller supplies genuine storage.
                candidate = None;
            } else {
                // Arguments that fit no register class become a pointer to
                // a caller-allocated buffer, placed after the other stack
                // arguments.
                implicit_ref = Some(param.value_type);
                eff = AbiParam::new(Type::I64);
                candidate = get_intreg_for_arg(call_conv, next_gpr);
            }

            let slot: ABIArgSlot;
            if let Some(reg) = candidate {
                if fltreg {
                    next_fpr = next_fpr + 1;
                } else if vecreg {
                    next_vr = next_vr + 1;
                } else {
                    next_gpr = next_gpr + 1;
                }
                slot = ABIArgSlot::Reg { reg, ty: eff.value_type, extension: eff.extension };
            } else {
                if args_or_rets == ArgsOrRets::Rets && !flags.enable_multi_ret_implicit_sret {
                    proof {
                        lemma_fold_err_persists(
                            call_conv,
                            args_or_rets,
                            multi,
                            init,
                            params@,
                            i + 1,
                        );
                    }
                    return Err(CodegenError::TooManyReturnValues);
                }
                // Every spilled value takes a slot of at least one word.
                let size: u32 = eff.value_type.bits() / 8;
                let slot_size: u32 = if size < 8 {
                    8
                } else {
                    size
                };
                let slot_align: u32 = if slot_size < 8 {
                    slot_size
                } else {
                    8
                };
                assert(slot_align == 8);
                let base = align8(next_stack);
                // A narrower value with no requested extension is passed
                // right-justified in its slot.
                let offset_in_slot: u32 = if size < slot_size && matches!(
                    eff.extension,
                    ArgumentExtension::NoExt,
                ) {
                    slot_size - size
                } else {
                    0
                };
                let offset = base + offset_in_slot;
                let new_stack = base + slot_size;
                if new_stack > STACK_ARG_RET_SIZE_LIMIT {
                    proof {
                        lemma_fold_err_persists(
                            call_conv,
                            args_or_rets,
                            multi,
                            init,
                            params@,
                            i + 1,
                        );
                    }
                    return Err(CodegenError::StackLimitExceeded);
                }
                next_stack = new_stack;
                slot = ABIArgSlot::Stack {
                    offset: offset as i64,
                    ty: eff.value_type,
                    extension: eff.extension,
                };
            }

            let ghost old_args = args@;
            if let Some(ty) = implicit_ref {
                args.push(
                    ABIArg::ImplicitPtrArg {
                        pointer: slot,
                        offset: 0,  // assigned once every location is known
                        ty,
                        purpose: ArgumentPurpose::Normal,
                    },
                );
            } else {
                let mut slots: Vec<ABIArgSlot> = Vec::new();
                slots.push(slot);
                args.push(ABIArg::Slots { slots, purpose: param.purpose });
            }

            proof {
                let pushed = args@[args@.len() - 1]@;
                assert(args_view(args@) =~= args_view(old_args).push(pushed));
                assert(asg_step(call_conv, args_or_rets, multi, st0, param)
                    == Ok::<AsgState, CodegenError>(AsgState {
                        next_gpr: next_gpr as int,
                        next_fpr: next_fpr as int,
                        next_vr: next_vr as int,
                        next_stack: next_stack as int,
                        args: args_view(args@),
                    },
                ));
            }
            i += 1;
        }
        proof {
            assert(params@.take(params@.len() as int) =~= params@);
        }

        // Align the whole argument area to the word size.
        next_stack = align8(next_stack);

        // The synthesized return-area pointer comes after the formals.
        let ret_arg_index: Option<usize> = if add_ret_area_ptr {
            match get_intreg_for_arg(call_conv, 0) {
                Some(reg0) => {
                    let mut slots: Vec<ABIArgSlot> = Vec::new();
                    slots.push(
                        ABIArgSlot::Reg {
                            reg: reg0,
                            ty: Type::I64,
                            extension: ArgumentExtension::NoExt,
                        },
                    );
                    args.push(ABIArg::Slots { slots, purpose: ArgumentPurpose::Normal });
                    Some(args.len() - 1)
                },
                None => {
                    proof {
                        assert(false);
                    }
                    None
                },
            }
        } else {
            None
        };

        let ghost st_end = asg_fold(call_conv, args_or_rets, multi, init, params@).unwrap();
        let ghost with_ret = if add_ret_area_ptr {
            st_end.args.push(ret_area_ptr_arg())
        } else {
            st_end.args
        };
        let ghost aligned0 = align_to(st_end.next_stack, 8);
        proof {
            assert(args_view(args@) =~= with_ret);
        }

        // Place the implicit-pointer buffers after all other arguments,
        // recording each buffer's final offset in its argument.
        let ghost args0 = args@;
        let mut i2: usize = 0;
        while i2 < args.len()
            invariant
                call_conv != CallConv::Winch,
                multi == flags.enable_multi_ret_implicit_sret,
                init == init_state(add_ret_area_ptr),
                asg_fold(call_conv, args_or_rets, multi, init, params@) == Ok::<
                    AsgState,
                    CodegenError,
                >(st_end),
                with_ret == if add_ret_area_ptr {
                    st_end.args.push(ret_area_ptr_arg())
                } else {
                    st_end.args
                },
                aligned0 == align_to(st_end.next_stack, 8),
                match ret_arg_index {
                    Some(x) => add_ret_area_ptr && x as int == with_ret.len() - 1,
                    None => !add_ret_area_ptr,
                },
                i2 <= args@.len(),
                args@.len() == args0.len(),
                args_view(args0) == with_ret,
                forall|k: int| i2 <= k < args@.len() ==> args@[k] == args0[k],
                next_stack <= STACK_ARG_RET_SIZE_LIMIT,
                match buffers_from(with_ret, i2 as int, next_stack as int) {
                    Ok((sfx, total)) => buffers_from(with_ret, 0, aligned0) == Ok::<
                        (Seq<ABIArgView>, int),
                        CodegenError,
                    >((args_view(args@.take(i2 as int)) + sfx, total)),
                    Err(e) => buffers_from(with_ret, 0, aligned0) == Err::<
                        (Seq<ABIArgView>, int),
                        CodegenError,
                    >(e),
                },
            decreases args@.len() - i2,
        {
            let ghost pre = args@;
            proof {
                assert(args_view(args0)[i2 as int] == args0[i2 as int]@);
                assert(with_ret[i2 as int] == pre[i2 as int]@);
            }
            let buffer: Option<(ABIArgSlot, Type, ArgumentPurpose)> = match &args[i2] {
                ABIArg::ImplicitPtrArg { pointer, offset: _, ty, purpose } => Some(
                    (*pointer, *ty, *purpose),
                ),
                ABIArg::Slots { .. } => None,
            };
            if let Some((pointer, ty, purpose)) = buffer {
                let size: u32 = ty.bits() / 8;
                let new_stack = next_stack + size;
                if new_stack > STACK_ARG_RET_SIZE_LIMIT {
                    return Err(CodegenError::StackLimitExceeded);
                }
                args[i2] = ABIArg::ImplicitPtrArg {
                    pointer,
                    offset: next_stack as i64,
                    ty,
                    purpose,
                };
                next_stack = new_stack;
            }
            proof {
                let post = args@;
                assert(post.take(i2 + 1) =~= pre.take(i2 as int).push(post[i2 as int]));
                assert(args_view(post.take(i2 + 1)) =~= args_view(pre.take(i2 as int)).push(
                    post[i2 as int]@,
                ));
                if buffers_from(with_ret, i2 + 1, next_stack as int) is Ok {
                    let (sfx, _) = buffers_from(with_ret, i2 + 1, next_stack as int).unwrap();
                    assert(args_view(pre.take(i2 as int)).push(post[i2 as int]@) + sfx
                        =~= args_view(pre.take(i2 as int)) + (seq![post[i2 as int]@] + sfx));
                }
            }
            i2 += 1;
        }
        proof {
            assert(buffers_from(with_ret, i2 as int, next_stack as int) == Ok::<
                (Seq<ABIArgView>, int),
                CodegenError,
            >((Seq::<ABIArgView>::empty(), next_stack as int)));
            if buffers_from(with_ret, 0, aligned0) is Ok {
                let (full, _) = buffers_from(with_ret, 0, aligned0).unwrap();
                assert(args@.take(args@.len() as int) =~= args@);
                assert(full =~= args_view(args@) + Seq::<ABIArgView>::empty());
                assert(full =~= args_view(args@));
            }
        }

        // Under the tail-call convention a non-empty argument area carries
        // the register save area above it.
        if call_conv == CallConv::Tail && matches!(args_or_rets, ArgsOrRets::Args) && next_stack
            != 0 {
            let total = next_stack + REG_SAVE_AREA_SIZE;
            if total > STACK_ARG_RET_SIZE_LIMIT {
                return Err(CodegenError::StackLimitExceeded);
            }
            next_stack = total;
        }

        Ok((args, next_stack, ret_arg_index))
    }
}

/// How many of the descriptors classify into register class `rc`.
pub open spec fn count_class(params: Seq<AbiParam>, rc: RegClass) -> int {
    params.filter(|p: AbiParam| class_of(p.value_type) == Some(rc)).len() as int
}

/// How many argument (or return) registers each class offers: the tail-call
/// convention exposes two more integer registers than the standard one.
pub open spec fn avail_regs(call_conv: CallConv, rc: RegClass) -> int {
    match rc {
        RegClass::Int => if call_conv == CallConv::Tail {
            6int
        } else {
            4int
        },
        RegClass::Float => 4,
        RegClass::Vector => 8,
    }
}

/// Class counts grow one descriptor at a time.
proof fn lemma_count_class_step(params: Seq<AbiParam>, rc: RegClass, k: int)
    requires
        0 <= k < params.len(),
    ensures
        count_class(params.take(k + 1), rc) == count_class(params.take(k), rc) + (
        if class_of(params[k].value_type) == Some(rc) {
            1int
        } else {
            0int
        }),
{
    reveal(Seq::filter);
    assert(params.take(k + 1).drop_last() =~= params.take(k));
    assert(params.take(k + 1).last() == params[k]);
}

/// A class's count never exceeds the descriptor count.
proof fn lemma_count_class_full(params: Seq<AbiParam>, rc: RegClass)
    ensures
        0 <= count_class(params, rc),
        forall|k: int|
            0 <= k <= params.len() ==> 0 <= #[trigger] count_class(params.take(k), rc)
                <= count_class(params, rc),
    decreases params.len(),
{
    broadcast use Seq::lemma_filter_len;

    assert forall|k: int| 0 <= k <= params.len() implies 0 <= #[trigger] count_class(
        params.take(k),
        rc,
    ) <= count_class(params, rc) by {
        let pred = |p: AbiParam| class_of(p.value_type) == Some(rc);
        Seq::filter_distributes_over_add(params.take(k), params.skip(k), pred);
        assert(params.take(k) + params.skip(k) =~= params);
    }
}

/// When a class still has a register free, the table yields one.
proof fn lemma_candidate_available(
    call_conv: CallConv,
    args_or_rets: ArgsOrRets,
    rc: RegClass,
    idx: int,
)
    requires
        0 <= idx < avail_regs(call_conv, rc),
    ensures
        reg_candidate(call_conv, args_or_rets, rc, idx) is Some,
{
}

/// The location the fold assigns to the `k`-th of a run of descriptors
/// that all fit registers: a single slot in the next register of the
/// descriptor's class.
pub open spec fn assigned_reg_slot(
    call_conv: CallConv,
    args_or_rets: ArgsOrRets,
    st: AsgState,
    params: Seq<AbiParam>,
    k: int,
) -> ABIArgView {
    let rc = class_of(params[k].value_type).unwrap();
    ABIArgView::Slots {
        slots: seq![
            ABIArgSlot::Reg {
                reg: reg_candidate(
                    call_conv,
                    args_or_rets,
                    rc,
                    counter_for(st, rc) + count_class(params.take(k), rc),
                ).unwrap(),
                ty: params[k].value_type,
                extension: params[k].extension,
            },
        ],
        purpose: params[k].purpose,
    }
}

/// Folding descriptors that all fit a register class, with enough registers
/// left for every class, assigns each one the next register of its class —
/// in table order — and touches no stack byte.
pub proof fn lemma_fold_all_regs(
    call_conv: CallConv,
    args_or_rets: ArgsOrRets,
    enable_multi_ret_implicit_sret: bool,
    st: AsgState,
    params: Seq<AbiParam>,
)
    requires
        forall|k: int|
            0 <= k < params.len() ==> class_of(#[trigger] params[k].value_type) is Some,
        forall|k: int| 0 <= k < params.len() ==> !((#[trigger] params[k]).purpose is StructArgument),
        0 <= st.next_gpr,
        0 <= st.next_fpr,
        0 <= st.next_vr,
        st.next_gpr + count_class(params, RegClass::Int) <= avail_regs(call_conv, RegClass::Int),
        st.next_fpr + count_class(params, RegClass::Float) <= avail_regs(
            call_conv,
            RegClass::Float,
        ),
        st.next_vr + count_class(params, RegClass::Vector) <= avail_regs(
            call_conv,
            RegClass::Vector,
        ),
    ensures
        ({
            let r = asg_fold(call_conv, args_or_rets, enable_multi_ret_implicit_sret, st, params);
            &&& r is Ok
            &&& r.unwrap().next_stack == st.next_stack
            &&& r.unwrap().next_gpr == st.next_gpr + count_class(params, RegClass::Int)
            &&& r.unwrap().next_fpr == st.next_fpr + count_class(params, RegClass::Float)
            &&& r.unwrap().next_vr == st.next_vr + count_class(params, RegClass::Vector)
            &&& r.unwrap().args.len() == st.args.len() + params.len()
            &&& forall|k: int| 0 <= k < st.args.len() ==> r.unwrap().args[k] == st.args[k]
            &&& forall|k: int|
                0 <= k < params.len() ==> r.unwrap().args[st.args.len() + k]
                    == #[trigger] assigned_reg_slot(call_conv, args_or_rets, st, params, k)
        }),
    decreases params.len(),
{
    lemma_count_class_full(params, RegClass::Int);
    lemma_count_class_full(params, RegClass::Float);
    lemma_count_class_full(params, RegClass::Vector);
    if params.len() == 0 {
    } else {
        let n = params.len() as int;
        let dl = params.drop_last();
        assert(params.take(n) =~= params);
        assert(params.take(n - 1) =~= dl);
        lemma_count_class_step(params, RegClass::Int, n - 1);
        lemma_count_class_step(params, RegClass::Float, n - 1);
        lemma_count_class_step(params, RegClass::Vector, n - 1);
        assert(forall|k: int| 0 <= k < dl.len() ==> #[trigger] dl[k] == params[k]);
        lemma_fold_all_regs(call_conv, args_or_rets, enable_multi_ret_implicit_sret, st, dl);
        let r = asg_fold(call_conv, args_or_rets, enable_multi_ret_implicit_sret, st, params);
        let mid = asg_fold(
            call_conv,
            args_or_rets,
            enable_multi_ret_implicit_sret,
            st,
            dl,
        ).unwrap();
        let last = params.last();
        let rc = class_of(last.value_type).unwrap();
        assert(count_class(params.take(n - 1), rc) == count_class(dl, rc));
        assert(counter_for(mid, rc) == counter_for(st, rc) + count_class(dl, rc));
        lemma_candidate_available(call_conv, args_or_rets, rc, counter_for(mid, rc));
        assert(r == asg_step(call_conv, args_or_rets, enable_multi_ret_implicit_sret, mid, last));
        assert(r is Ok);
        assert forall|k: int| 0 <= k < params.len() implies r.unwrap().args[st.args.len() + k]
            == #[trigger] assigned_reg_slot(call_conv, args_or_rets, st, params, k) by {
            if k < n - 1 {
                assert(mid.args[st.args.len() + k] == assigned_reg_slot(
                    call_conv,
                    args_or_rets,
                    st,
                    dl,
                    k,
                ));
                assert(dl.take(k) =~= params.take(k));
                assert(assigned_reg_slot(call_conv, args_or_rets, st, dl, k) == assigned_reg_slot(
                    call_conv,
                    args_or_rets,
                    st,
                    params,
                    k,
                ));
                assert(r.unwrap().args[st.args.len() + k] == mid.args[st.args.len() + k]);
            } else {
                assert(k == n - 1);
                assert(params[k] == last);
                assert(r.unwrap().args[st.args.len() + k] == r.unwrap().args.last());
            }
        }
    }
}

/// Implicit-pointer buffer placement leaves a list without implicit-pointer
/// arguments — and the stack watermark — unchanged.
pub proof fn lemma_buffers_no_ptr(args: Seq<ABIArgView>, i: int, next_stack: int)
    requires
        0 <= i <= args.len(),
        forall|k: int| i <= k < args.len() ==> !((#[trigger] args[k]) is ImplicitPtrArg),
    ensures
        buffers_from(args, i, next_stack) == Ok::<(Seq<ABIArgView>, int), CodegenError>(
            (args.skip(i), next_stack),
        ),
    decreases args.len() - i,
{
    if i == args.len() {
        assert(args.skip(i) =~= Seq::<ABIArgView>::empty());
    } else {
        lemma_buffers_no_ptr(args, i + 1, next_stack);
        assert(seq![args[i]] + args.skip(i + 1) =~= args.skip(i));
    }
}

/// With no parameter exceeding its class's argument registers — and, when a
/// return-area pointer is requested, one integer register set aside for it —
/// zero stack bytes are allocated and every location is a single register
/// slot.
pub proof fn lemma_all_in_regs_zero_stack(
    call_conv: CallConv,
    flags: Flags,
    params: Seq<AbiParam>,
    args_or_rets: ArgsOrRets,
    add_ret_area_ptr: bool,
)
    requires
        call_conv != CallConv::Winch,
        forall|k: int|
            0 <= k < params.len() ==> class_of(#[trigger] params[k].value_type) is Some,
        forall|k: int| 0 <= k < params.len() ==> !((#[trigger] params[k]).purpose is StructArgument),
        (if add_ret_area_ptr {
            1int
        } else {
            0int
        }) + count_class(params, RegClass::Int) <= avail_regs(call_conv, RegClass::Int),
        count_class(params, RegClass::Float) <= avail_regs(call_conv, RegClass::Float),
        count_class(params, RegClass::Vector) <= avail_regs(call_conv, RegClass::Vector),
    ensures
        ({
            let m = compute_arg_locs_model(call_conv, flags, params, args_or_rets, add_ret_area_ptr);
            &&& m is Ok
            &&& m.unwrap().stack_size == 0
            &&& forall|k: int|
                0 <= k < m.unwrap().args.len() ==> (#[trigger] m.unwrap().args[k])
                    is Slots && arg_slots(m.unwrap().args[k]).len() == 1 && arg_slots(
                    m.unwrap().args[k],
                )[0] is Reg
        }),
{
    let st = init_state(add_ret_area_ptr);
    lemma_fold_all_regs(call_conv, args_or_rets, flags.enable_multi_ret_implicit_sret, st, params);
    let fr = asg_fold(
        call_conv,
        args_or_rets,
        flags.enable_multi_ret_implicit_sret,
        st,
        params,
    ).unwrap();
    assert(align_to(0, 8) == 0);
    let with_ret = if add_ret_area_ptr {
        fr.args.push(ret_area_ptr_arg())
    } else {
        fr.args
    };
    assert forall|k: int| 0 <= k < with_ret.len() implies (#[trigger] with_ret[k]) is Slots
        && arg_slots(with_ret[k]).len() == 1 && arg_slots(with_ret[k])[0] is Reg by {
        if k < params.len() {
            assert(fr.args[st.args.len() + k] == assigned_reg_slot(
                call_conv,
                args_or_rets,
                st,
                params,
                k,
            ));
            assert(st.args.len() + k == k);
        } else {
            assert(with_ret[k] == ret_area_ptr_arg());
        }
    }
    lemma_buffers_no_ptr(with_ret, 0, 0);
    assert(with_ret.skip(0) =~= with_ret);
    let m = compute_arg_locs_model(call_conv, flags, params, args_or_rets, add_ret_area_ptr);
    assert(m is Ok && m.unwrap().stack_size == 0 && m.unwrap().args == with_ret);
}

/// Round trip for integer arguments: when the descriptors are all
/// integer-class and they fit the integer argument registers — counting one
/// more when a return-area pointer is requested — every one of them comes
/// back as a single register slot holding the next integer argument
/// register, the total stack size is zero, and a requested return-area
/// pointer takes the first register, shifting the parameters one up.
pub proof fn lemma_int_args_round_trip(
    call_conv: CallConv,
    flags: Flags,
    params: Seq<AbiParam>,
    add_ret_area_ptr: bool,
)
    requires
        call_conv != CallConv::Winch,
        forall|k: int|
            0 <= k < params.len() ==> class_of(#[trigger] params[k].value_type) == Some(
                RegClass::Int,
            ),
        forall|k: int| 0 <= k < params.len() ==> !((#[trigger] params[k]).purpose is StructArgument),
        (if add_ret_area_ptr {
            1int
        } else {
            0int
        }) + params.len() <= avail_regs(call_conv, RegClass::Int),
    ensures
        ({
            let m = compute_arg_locs_model(
                call_conv,
                flags,
                params,
                ArgsOrRets::Args,
                add_ret_area_ptr,
            );
            let shift: int = if add_ret_area_ptr {
                1
            } else {
                0
            };
            &&& m is Ok
            &&& m.unwrap().stack_size == 0
            &&& m.unwrap().args.len() == params.len() + shift
            &&& forall|k: int|
                0 <= k < params.len() ==> m.unwrap().args[k] == (ABIArgView::Slots {
                    slots: seq![
                        ABIArgSlot::Reg {
                            reg: spec_gpr((2 + shift + k) as u8),
                            ty: (#[trigger] params[k]).value_type,
                            extension: params[k].extension,
                        },
                    ],
                    purpose: params[k].purpose,
                })
            &&& add_ret_area_ptr ==> m.unwrap().args[params.len() as int] == ret_area_ptr_arg()
                && m.unwrap().ret_arg == Some(params.len() as int)
            &&& !add_ret_area_ptr ==> m.unwrap().ret_arg is None
        }),
{
    let st = init_state(add_ret_area_ptr);
    let shift: int = if add_ret_area_ptr {
        1
    } else {
        0
    };
    assert forall|rc: RegClass, k: int|
        0 <= k <= params.len() implies #[trigger] count_class(params.take(k), rc) == (
    if rc == RegClass::Int {
        k
    } else {
        0int
    }) by {
        lemma_count_uniform(params, rc, k);
    }
    assert(params.take(params.len() as int) =~= params);
    assert(count_class(params, RegClass::Int) == params.len());
    assert(count_class(params, RegClass::Float) == 0);
    assert(count_class(params, RegClass::Vector) == 0);
    lemma_fold_all_regs(
        call_conv,
        ArgsOrRets::Args,
        flags.enable_multi_ret_implicit_sret,
        st,
        params,
    );
    lemma_all_in_regs_zero_stack(call_conv, flags, params, ArgsOrRets::Args, add_ret_area_ptr);
    let fr = asg_fold(
        call_conv,
        ArgsOrRets::Args,
        flags.enable_multi_ret_implicit_sret,
        st,
        params,
    ).unwrap();
    let with_ret = if add_ret_area_ptr {
        fr.args.push(ret_area_ptr_arg())
    } else {
        fr.args
    };
    assert forall|k: int| 0 <= k < params.len() implies with_ret[k] == (ABIArgView::Slots {
        slots: seq![
            ABIArgSlot::Reg {
                reg: spec_gpr((2 + shift + k) as u8),
                ty: (#[trigger] params[k]).value_type,
                extension: params[k].extension,
            },
        ],
        purpose: params[k].purpose,
    }) by {
        assert(fr.args[st.args.len() + k] == assigned_reg_slot(
            call_conv,
            ArgsOrRets::Args,
            st,
            params,
            k,
        ));
        assert(st.args.len() + k == k);
        assert(counter_for(st, RegClass::Int) == shift);
        assert(count_class(params.take(k), RegClass::Int) == k);
        assert(reg_candidate(call_conv, ArgsOrRets::Args, RegClass::Int, shift + k) == Some(
            spec_gpr((2 + shift + k) as u8),
        ));
    }
    assert forall|k: int| 0 <= k < with_ret.len() implies !((#[trigger] with_ret[k])
        is ImplicitPtrArg) by {
        if k < params.len() {
            assert(fr.args[st.args.len() + k] == assigned_reg_slot(
                call_conv,
                ArgsOrRets::Args,
                st,
                params,
                k,
            ));
            assert(st.args.len() + k == k);
        } else {
            assert(with_ret[k] == ret_area_ptr_arg());
        }
    }
    lemma_buffers_no_ptr(with_ret, 0, 0);
    assert(with_ret.skip(0) =~= with_ret);
    let m = compute_arg_locs_model(call_conv, flags, params, ArgsOrRets::Args, add_ret_area_ptr);
    assert(m is Ok && m.unwrap().args == with_ret);
}

/// In a list of uniformly `rc`-class descriptors every prefix counts its
/// own length for `rc` and nothing for the other classes.
proof fn lemma_count_uniform(params: Seq<AbiParam>, rc: RegClass, k: int)
    requires
        0 <= k <= params.len(),
        forall|q: int|
            0 <= q < params.len() ==> class_of(#[trigger] params[q].value_type) == Some(
                RegClass::Int,
            ),
    ensures
        count_class(params.take(k), rc) == if rc == RegClass::Int {
            k
        } else {
            0int
        },
    decreases k,
{
    reveal(Seq::filter);
    if k == 0 {
        assert(params.take(0) =~= Seq::<AbiParam>::empty());
    } else {
        lemma_count_uniform(params, rc, k - 1);
        lemma_count_class_step(params, rc, k - 1);
    }
}

/// The tail-call register-save addend: nothing is added when the
/// convention-agnostic argument area is empty; otherwise the register save
/// area size is added exactly once.
pub proof fn lemma_tail_save_area_addend(
    flags: Flags,
    params: Seq<AbiParam>,
    add_ret_area_ptr: bool,
)
    requires
        arg_locs_base(CallConv::Tail, flags, params, ArgsOrRets::Args, add_ret_area_ptr) is Ok,
    ensures
        ({
            let base = arg_locs_base(
                CallConv::Tail,
                flags,
                params,
                ArgsOrRets::Args,
                add_ret_area_ptr,
            ).unwrap();
            let m = compute_arg_locs_model(
                CallConv::Tail,
                flags,
                params,
                ArgsOrRets::Args,
                add_ret_area_ptr,
            );
            &&& base.stack_size == 0 ==> m is Ok && m.unwrap().stack_size == 0
            &&& base.stack_size != 0 && base.stack_size + REG_SAVE_AREA_SIZE
                <= STACK_ARG_RET_SIZE_LIMIT ==> m is Ok && m.unwrap().stack_size
                == base.stack_size + REG_SAVE_AREA_SIZE
        }),
{
}

/// Word alignment rounds up by less than one word and lands on a multiple
/// of the word size.
proof fn lemma_align8_props(x: int)
    requires
        0 <= x,
    ensures
        align_to(x, 8) % 8 == 0,
        x <= align_to(x, 8) <= x + 7,
{
    let q = (x + 7) / 8;
    vstd::arithmetic::div_mod::lemma_fundamental_div_mod(x + 7, 8);
    vstd::arithmetic::div_mod::lemma_mod_bound(x + 7, 8);
    vstd::arithmetic::div_mod::lemma_mod_multiples_basic(q, 8);
}

/// Every location holds exactly one slot; every stack slot sits on an
/// aligned word boundary below the watermark; and the stack slots of
/// distinct locations occupy disjoint slots, in location order.
pub open spec fn stack_slots_ordered(args: Seq<ABIArgView>, watermark: int) -> bool {
    &&& forall|a: int| 0 <= a < args.len() ==> (#[trigger] arg_slots(args[a])).len() == 1
    &&& forall|a: int|
        0 <= a < args.len() && (#[trigger] arg_slots(args[a]))[0] is Stack ==> {
            let s = arg_slots(args[a])[0];
            &&& s.slot_base() % 8 == 0
            &&& 0 <= s.slot_base()
            &&& s.slot_base() + s.slot_size() <= watermark
        }
    &&& forall|a: int, b: int|
        0 <= a < b < args.len() && (#[trigger] arg_slots(args[a]))[0] is Stack && (
        #[trigger] arg_slots(args[b]))[0] is Stack ==> arg_slots(args[a])[0].slot_base()
            + arg_slots(args[a])[0].slot_size() <= arg_slots(args[b])[0].slot_base()
}

/// The fold only moves the stack watermark up, and keeps the stack slots
/// aligned, disjoint and in order below it.
pub proof fn lemma_fold_slots_ordered(
    call_conv: CallConv,
    args_or_rets: ArgsOrRets,
    enable_multi_ret_implicit_sret: bool,
    st: AsgState,
    params: Seq<AbiParam>,
)
    requires
        stack_slots_ordered(st.args, st.next_stack),
        0 <= st.next_stack,
    ensures
        ({
            let r = asg_fold(call_conv, args_or_rets, enable_multi_ret_implicit_sret, st, params);
            r is Ok ==> {
                &&& stack_slots_ordered(r.unwrap().args, r.unwrap().next_stack)
                &&& st.next_stack <= r.unwrap().next_stack
            }
        }),
    decreases params.len(),
{
    if params.len() == 0 {
    } else {
        let dl = params.drop_last();
        lemma_fold_slots_ordered(call_conv, args_or_rets, enable_multi_ret_implicit_sret, st, dl);
        let rdl = asg_fold(call_conv, args_or_rets, enable_multi_ret_implicit_sret, st, dl);
        let r = asg_fold(call_conv, args_or_rets, enable_multi_ret_implicit_sret, st, params);
        if r is Ok {
            let mid = rdl.unwrap();
            let fin = r.unwrap();
            let el = fin.args.last();
            assert(fin.args == mid.args.push(el));
            assert(forall|a: int| 0 <= a < mid.args.len() ==> fin.args[a] == mid.args[a]);
            if arg_slots(el)[0] is Stack {
                lemma_align8_props(mid.next_stack);
            }
            assert(arg_slots(el).len() == 1);
            assert forall|a: int|
                0 <= a < fin.args.len() && (#[trigger] arg_slots(fin.args[a]))[0]
                    is Stack implies {
                let s = arg_slots(fin.args[a])[0];
                &&& s.slot_base() % 8 == 0
                &&& 0 <= s.slot_base()
                &&& s.slot_base() + s.slot_size() <= fin.next_stack
            } by {
                if a < mid.args.len() {
                    assert(arg_slots(mid.args[a]).len() == 1);
                }
            }
            assert forall|a: int, b: int|
                0 <= a < b < fin.args.len() && (#[trigger] arg_slots(fin.args[a]))[0] is Stack && (
                #[trigger] arg_slots(fin.args[b]))[0] is Stack implies arg_slots(
                fin.args[a],
            )[0].slot_base() + arg_slots(fin.args[a])[0].slot_size() <= arg_slots(
                fin.args[b],
            )[0].slot_base() by {
                assert(arg_slots(mid.args[a]).len() == 1);
                if b < mid.args.len() {
                    assert(arg_slots(mid.args[b]).len() == 1);
                } else {
                    let s = arg_slots(fin.args[a])[0];
                    assert(s.slot_base() + s.slot_size() <= mid.next_stack);
                }
            }
        }
    }
}

/// Buffer placement changes no slot: each location keeps the slot it was
/// assigned.
pub proof fn lemma_buffers_keep_slots(args: Seq<ABIArgView>, i: int, next_stack: int)
    requires
        0 <= i <= args.len(),
    ensures
        ({
            let r = buffers_from(args, i, next_stack);
            r is Ok ==> {
                &&& r.unwrap().0.len() == args.len() - i
                &&& forall|k: int|
                    0 <= k < args.len() - i ==> #[trigger] arg_slots(r.unwrap().0[k])
                        == arg_slots(args[i + k])
            }
        }),
    decreases args.len() - i,
{
    if i == args.len() {
    } else {
        lemma_buffers_keep_slots(args, i + 1, next_stack);
        let r = buffers_from(args, i, next_stack);
        if r is Ok {
            match args[i] {
                ABIArgView::ImplicitPtrArg { pointer, offset: _, ty, purpose } => {
                    let new_stack = next_stack + ty.spec_bits() as int / 8;
                    lemma_buffers_keep_slots(args, i + 1, new_stack);
                },
                _ => {},
            }
        }
    }
}

/// Stack layout of the assigned locations: every spilled value sits in a
/// word-aligned slot of at least one word; the slots of successive
/// locations are disjoint, so their offsets never decrease; and within its
/// slot a value lies `justify` bytes up: right-justified when it is
/// narrower than the slot and requested no extension, at the low address
/// otherwise.
pub proof fn lemma_stack_slots_of_model(
    call_conv: CallConv,
    flags: Flags,
    params: Seq<AbiParam>,
    args_or_rets: ArgsOrRets,
    add_ret_area_ptr: bool,
)
    ensures
        ({
            let m = compute_arg_locs_model(call_conv, flags, params, args_or_rets, add_ret_area_ptr);
            m is Ok ==> {
                let args = m.unwrap().args;
                &&& forall|a: int| 0 <= a < args.len() ==> (#[trigger] arg_slots(args[a])).len() == 1
                &&& forall|a: int|
                    0 <= a < args.len() && (#[trigger] arg_slots(args[a]))[0] is Stack ==> {
                        let s = arg_slots(args[a])[0];
                        &&& s.slot_base() % 8 == 0
                        &&& 0 <= s.slot_base()
                        &&& s.stack_offset() == s.slot_base() + s.justify()
                    }
                &&& forall|a: int, b: int|
                    0 <= a < b < args.len() && (#[trigger] arg_slots(args[a]))[0] is Stack && (
                    #[trigger] arg_slots(args[b]))[0] is Stack ==> arg_slots(
                    args[a],
                )[0].slot_base() + arg_slots(args[a])[0].slot_size() <= arg_slots(
                    args[b],
                )[0].slot_base() && arg_slots(args[a])[0].stack_offset() <= arg_slots(args[b])[0].stack_offset()
            }
        }),
{
    let m = compute_arg_locs_model(call_conv, flags, params, args_or_rets, add_ret_area_ptr);
    if m is Ok {
        let st = init_state(add_ret_area_ptr);
        let multi = flags.enable_multi_ret_implicit_sret;
        lemma_fold_slots_ordered(call_conv, args_or_rets, multi, st, params);
        let fr = asg_fold(call_conv, args_or_rets, multi, st, params).unwrap();
        let with_ret = if add_ret_area_ptr {
            fr.args.push(ret_area_ptr_arg())
        } else {
            fr.args
        };
        let aligned = align_to(fr.next_stack, 8);
        lemma_align8_props(fr.next_stack);
        assert(stack_slots_ordered(fr.args, fr.next_stack));
        assert(stack_slots_ordered(with_ret, aligned)) by {
            assert forall|a: int| 0 <= a < with_ret.len() implies (#[trigger] arg_slots(
                with_ret[a],
            )).len() == 1 by {
                if a < fr.args.len() {
                    assert(with_ret[a] == fr.args[a]);
                    assert(arg_slots(fr.args[a]).len() == 1);
                } else {
                    assert(with_ret[a] == ret_area_ptr_arg());
                }
            }
            assert forall|a: int|
                0 <= a < with_ret.len() && (#[trigger] arg_slots(with_ret[a]))[0]
                    is Stack implies {
                let s = arg_slots(with_ret[a])[0];
                &&& s.slot_base() % 8 == 0
                &&& 0 <= s.slot_base()
                &&& s.slot_base() + s.slot_size() <= aligned
            } by {
                if a < fr.args.len() {
                    assert(with_ret[a] == fr.args[a]);
                    assert(arg_slots(fr.args[a]).len() == 1);
                } else {
                    assert(with_ret[a] == ret_area_ptr_arg());
                }
            }
            assert forall|a: int, b: int|
                0 <= a < b < with_ret.len() && (#[trigger] arg_slots(with_ret[a]))[0] is Stack && (
                #[trigger] arg_slots(with_ret[b]))[0] is Stack implies arg_slots(
                with_ret[a],
            )[0].slot_base() + arg_slots(with_ret[a])[0].slot_size() <= arg_slots(
                with_ret[b],
            )[0].slot_base() by {
                assert(with_ret[a] == fr.args[a]);
                assert(arg_slots(fr.args[a]).len() == 1);
                if b < fr.args.len() {
                    assert(with_ret[b] == fr.args[b]);
                    assert(arg_slots(fr.args[b]).len() == 1);
                } else {
                    assert(with_ret[b] == ret_area_ptr_arg());
                }
            }
        }
        lemma_buffers_keep_slots(with_ret, 0, aligned);
        let fin = m.unwrap().args;
        assert forall|a: int| 0 <= a < fin.len() implies (#[trigger] arg_slots(fin[a])).len()
            == 1 by {
            assert(arg_slots(fin[a]) == arg_slots(with_ret[0 + a]));
        }
        assert forall|a: int|
            0 <= a < fin.len() && (#[trigger] arg_slots(fin[a]))[0] is Stack implies {
            let s = arg_slots(fin[a])[0];
            &&& s.slot_base() % 8 == 0
            &&& 0 <= s.slot_base()
            &&& s.stack_offset() == s.slot_base() + s.justify()
        } by {
            assert(arg_slots(fin[a]) == arg_slots(with_ret[0 + a]));
        }
        assert forall|a: int, b: int|
            0 <= a < b < fin.len() && (#[trigger] arg_slots(fin[a]))[0] is Stack && (
            #[trigger] arg_slots(fin[b]))[0] is Stack implies arg_slots(fin[a])[0].slot_base()
            + arg_slots(fin[a])[0].slot_size() <= arg_slots(fin[b])[0].slot_base() && arg_slots(
            fin[a],
        )[0].stack_offset() <= arg_slots(fin[b])[0].stack_offset() by {
            assert(arg_slots(fin[a]) == arg_slots(with_ret[0 + a]));
            assert(arg_slots(fin[b]) == arg_slots(with_ret[0 + b]));
            let sa = arg_slots(fin[a])[0];
            let sb = arg_slots(fin[b])[0];
            assert(sa.justify() < sa.slot_size());
            assert(0 <= sb.justify());
        }
    }
}

/// Right-justification, concretely: a spilled sub-word integer value that
/// requested no extension occupies the high-address bytes of its word slot,
/// so its offset modulo the word size names the padding below it; an
/// extended value of the same size sits at the slot's low address.
pub proof fn lemma_right_justification(
    call_conv: CallConv,
    flags: Flags,
    params: Seq<AbiParam>,
    args_or_rets: ArgsOrRets,
    add_ret_area_ptr: bool,
    a: int,
)
    requires
        compute_arg_locs_model(call_conv, flags, params, args_or_rets, add_ret_area_ptr) is Ok,
        0 <= a < compute_arg_locs_model(
            call_conv,
            flags,
            params,
            args_or_rets,
            add_ret_area_ptr,
        ).unwrap().args.len(),
        arg_slots(
            compute_arg_locs_model(
                call_conv,
                flags,
                params,
                args_or_rets,
                add_ret_area_ptr,
            ).unwrap().args[a],
        )[0] is Stack,
        arg_slots(
            compute_arg_locs_model(
                call_conv,
                flags,
                params,
                args_or_rets,
                add_ret_area_ptr,
            ).unwrap().args[a],
        )[0].size() < 8,
    ensures
        ({
            let s = arg_slots(
                compute_arg_locs_model(
                    call_conv,
                    flags,
                    params,
                    args_or_rets,
                    add_ret_area_ptr,
                ).unwrap().args[a],
            )[0];
            &&& s.ext() == ArgumentExtension::NoExt ==> s.stack_offset() % 8 == 8 - s.size()
            &&& s.ext() != ArgumentExtension::NoExt ==> s.stack_offset() % 8 == 0
        }),
{
    lemma_stack_slots_of_model(call_conv, flags, params, args_or_rets, add_ret_area_ptr);
    let s = arg_slots(
        compute_arg_locs_model(
            call_conv,
            flags,
            params,
            args_or_rets,
            add_ret_area_ptr,
        ).unwrap().args[a],
    )[0];
    let base = s.slot_base();
    let j = s.justify();
    assert(0 <= s.size());
    assert(s.slot_size() == 8);
    assert(0 <= j < 8);
    assert(s.stack_offset() == base + j);
    vstd::arithmetic::div_mod::lemma_add_mod_noop(base, j, 8);
    vstd::arithmetic::div_mod::lemma_small_mod(j as nat, 8);
}

} // verus!
