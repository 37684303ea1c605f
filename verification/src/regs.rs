//! Physical registers, register classification, and the per-convention
//! argument and return register tables.

use vstd::prelude::*;

use crate::types::{CallConv, RegClass, Type};

verus! {

/// A physical register: its class and its hardware encoding.
#[derive(Clone, Copy, PartialEq, Eq, Structural, Debug)]
pub struct Reg {
    pub class: RegClass,
    pub num: u8,
}

/// General-purpose register `%r{num}`.
pub open spec fn spec_gpr(num: u8) -> Reg {
    Reg { class: RegClass::Int, num }
}

/// General-purpose register `%r{num}`.
#[verifier::when_used_as_spec(spec_gpr)]
pub fn gpr(num: u8) -> (r: Reg)
    requires
        num < 16,
    ensures
        r == spec_gpr(num),
{
    Reg { class: RegClass::Int, num }
}

/// Vector register `%v{num}`; scalar floats live in the low half.
pub open spec fn spec_vr(num: u8) -> Reg {
    Reg { class: RegClass::Float, num }
}

/// Vector register `%v{num}`; scalar floats live in the low half.
#[verifier::when_used_as_spec(spec_vr)]
pub fn vr(num: u8) -> (r: Reg)
    requires
        num < 32,
    ensures
        r == spec_vr(num),
{
    Reg { class: RegClass::Float, num }
}

/// The stack pointer, `%r15`.
pub open spec fn spec_stack_reg() -> Reg {
    spec_gpr(15)
}

/// The stack pointer, `%r15`.
#[verifier::when_used_as_spec(spec_stack_reg)]
pub fn stack_reg() -> (r: Reg)
    ensures
        r == spec_stack_reg(),
{
    gpr(15)
}

/// `%r0`, which as an index or base register means "none".
pub open spec fn spec_zero_reg() -> Reg {
    spec_gpr(0)
}

/// `%r0`, which as an index or base register means "none".
#[verifier::when_used_as_spec(spec_zero_reg)]
pub fn zero_reg() -> (r: Reg)
    ensures
        r == spec_zero_reg(),
{
    gpr(0)
}

/// A total-order key over registers: class first, then hardware encoding.
/// Injective, so the order is antisymmetric.
pub open spec fn reg_index(r: Reg) -> int {
    let c: int = match r.class {
        RegClass::Int => 0,
        RegClass::Float => 1,
        RegClass::Vector => 2,
    };
    c * 256 + r.num
}

/// The register order used to sort clobber lists.
pub open spec fn reg_leq(a: Reg, b: Reg) -> bool {
    reg_index(a) <= reg_index(b)
}

/// `reg_leq`, packaged as a relation value for the sequence-sorting library.
pub open spec fn reg_order() -> spec_fn(Reg, Reg) -> bool {
    |a: Reg, b: Reg| reg_leq(a, b)
}

/// The clobber-list order is a total order.
pub proof fn lemma_reg_order_total()
    ensures
        vstd::relations::total_ordering(reg_order()),
{
    assert forall|a: Reg, b: Reg| #[trigger] reg_order()(a, b) && reg_order()(b, a) implies a
        == b by {
        assert(reg_index(a) == reg_index(b));
    }
}

/// Whether values of this type are passed in general-purpose registers.
pub open spec fn spec_in_int_reg(ty: Type) -> bool {
    match ty {
        Type::I8 | Type::I16 | Type::I32 | Type::I64 => true,
        _ => false,
    }
}

/// Whether values of this type are passed in general-purpose registers.
#[verifier::when_used_as_spec(spec_in_int_reg)]
pub fn in_int_reg(ty: Type) -> (r: bool)
    ensures
        r == spec_in_int_reg(ty),
{
    match ty {
        Type::I8 | Type::I16 | Type::I32 | Type::I64 => true,
        _ => false,
    }
}

/// Whether values of this type are passed in floating-point registers.
pub open spec fn spec_in_flt_reg(ty: Type) -> bool {
    match ty {
        Type::F16 | Type::F32 | Type::F64 => true,
        _ => false,
    }
}

/// Whether values of this type are passed in floating-point registers.
#[verifier::when_used_as_spec(spec_in_flt_reg)]
pub fn in_flt_reg(ty: Type) -> (r: bool)
    ensures
        r == spec_in_flt_reg(ty),
{
    match ty {
        Type::F16 | Type::F32 | Type::F64 => true,
        _ => false,
    }
}

/// Whether values of this type are passed in full vector registers.
pub open spec fn spec_in_vec_reg(ty: Type) -> bool {
    ty.spec_is_vector() && ty.spec_bits() == 128
}

/// Whether values of this type are passed in full vector registers.
#[verifier::when_used_as_spec(spec_in_vec_reg)]
pub fn in_vec_reg(ty: Type) -> (r: bool)
    ensures
        r == spec_in_vec_reg(ty),
{
    ty.is_vector() && ty.bits() == 128
}

/// The register class a value of type `ty` occupies, or `None` when it fits
/// no class and must be passed by reference.  Each type belongs to at most
/// one class by construction.
pub open spec fn class_of(ty: Type) -> Option<RegClass> {
    if spec_in_int_reg(ty) {
        Some(RegClass::Int)
    } else if spec_in_flt_reg(ty) {
        Some(RegClass::Float)
    } else if spec_in_vec_reg(ty) {
        Some(RegClass::Vector)
    } else {
        None
    }
}

/// The general-purpose register for integer argument slot `idx`, if any.
/// The standard convention has four integer argument registers, `%r2`
/// through `%r5`; the tail-call convention exposes `%r6` and `%r7` as two
/// more, since it need not preserve them across calls.
pub open spec fn spec_int_arg_reg(call_conv: CallConv, idx: int) -> Option<Reg> {
    if 0 <= idx < 4 {
        Some(spec_gpr((2 + idx) as u8))
    } else if (idx == 4 || idx == 5) && call_conv == CallConv::Tail {
        Some(spec_gpr((2 + idx) as u8))
    } else {
        None
    }
}

/// The general-purpose register for integer argument slot `idx`, if any.
pub fn get_intreg_for_arg(call_conv: CallConv, idx: usize) -> (r: Option<Reg>)
    ensures
        r == spec_int_arg_reg(call_conv, idx as int),
{
    match idx {
        0 => Some(gpr(2)),
        1 => Some(gpr(3)),
        2 => Some(gpr(4)),
        3 => Some(gpr(5)),
        4 if call_conv == CallConv::Tail => Some(gpr(6)),
        5 if call_conv == CallConv::Tail => Some(gpr(7)),
        _ => None,
    }
}

/// The floating-point register for float argument slot `idx`, if any.
pub open spec fn spec_flt_arg_reg(idx: int) -> Option<Reg> {
    if 0 <= idx < 4 {
        Some(spec_vr((2 * idx) as u8))
    } else {
        None
    }
}

/// The floating-point register for float argument slot `idx`, if any.
pub fn get_fltreg_for_arg(idx: usize) -> (r: Option<Reg>)
    ensures
        r == spec_flt_arg_reg(idx as int),
{
    match idx {
        0 => Some(vr(0)),
        1 => Some(vr(2)),
        2 => Some(vr(4)),
        3 => Some(vr(6)),
        _ => None,
    }
}

/// The vector register for vector argument slot `idx`, if any.
pub open spec fn spec_vec_arg_reg(idx: int) -> Option<Reg> {
    if 0 <= idx < 8 {
        Some(spec_vr((24 + idx) as u8))
    } else {
        None
    }
}

/// The vector register for vector argument slot `idx`, if any.
pub fn get_vecreg_for_arg(idx: usize) -> (r: Option<Reg>)
    ensures
        r == spec_vec_arg_reg(idx as int),
{
    match idx {
        0 => Some(vr(24)),
        1 => Some(vr(25)),
        2 => Some(vr(26)),
        3 => Some(vr(27)),
        4 => Some(vr(28)),
        5 => Some(vr(29)),
        6 => Some(vr(30)),
        7 => Some(vr(31)),
        _ => None,
    }
}

/// The general-purpose register for integer return slot `idx`, if any.
/// Slots past the first are an ABI extension for multi-value returns.
pub open spec fn spec_int_ret_reg(call_conv: CallConv, idx: int) -> Option<Reg> {
    if 0 <= idx < 4 {
        Some(spec_gpr((2 + idx) as u8))
    } else if (idx == 4 || idx == 5) && call_conv == CallConv::Tail {
        Some(spec_gpr((2 + idx) as u8))
    } else {
        None
    }
}

/// The general-purpose register for integer return slot `idx`, if any.
pub fn get_intreg_for_ret(call_conv: CallConv, idx: usize) -> (r: Option<Reg>)
    ensures
        r == spec_int_ret_reg(call_conv, idx as int),
{
    match idx {
        0 => Some(gpr(2)),
        1 => Some(gpr(3)),
        2 => Some(gpr(4)),
        3 => Some(gpr(5)),
        4 if call_conv == CallConv::Tail => Some(gpr(6)),
        5 if call_conv == CallConv::Tail => Some(gpr(7)),
        _ => None,
    }
}

/// The floating-point register for float return slot `idx`, if any.
pub open spec fn spec_flt_ret_reg(idx: int) -> Option<Reg> {
    if 0 <= idx < 4 {
        Some(spec_vr((2 * idx) as u8))
    } else {
        None
    }
}

/// The floating-point register for float return slot `idx`, if any.
pub fn get_fltreg_for_ret(idx: usize) -> (r: Option<Reg>)
    ensures
        r == spec_flt_ret_reg(idx as int),
{
    match idx {
        0 => Some(vr(0)),
        1 => Some(vr(2)),
        2 => Some(vr(4)),
        3 => Some(vr(6)),
        _ => None,
    }
}

/// The vector register for vector return slot `idx`, if any.
pub open spec fn spec_vec_ret_reg(idx: int) -> Option<Reg> {
    if 0 <= idx < 8 {
        Some(spec_vr((24 + idx) as u8))
    } else {
        None
    }
}

/// The vector register for vector return slot `idx`, if any.
pub fn get_vecreg_for_ret(idx: usize) -> (r: Option<Reg>)
    ensures
        r == spec_vec_ret_reg(idx as int),
{
    match idx {
        0 => Some(vr(24)),
        1 => Some(vr(25)),
        2 => Some(vr(26)),
        3 => Some(vr(27)),
        4 => Some(vr(28)),
        5 => Some(vr(29)),
        6 => Some(vr(30)),
        7 => Some(vr(31)),
        _ => None,
    }
}

/// Whether the convention obliges the callee to preserve `r`, so that a
/// prologue that clobbers it must save it.  Under the standard convention
/// `%r6`-`%r15` and `%f8`-`%f15` are callee-saved; the tail-call convention
/// gives up `%r6` and `%r7` to pass arguments in them.
pub open spec fn spec_is_reg_saved_in_prologue(call_conv: CallConv, r: Reg) -> bool {
    match (call_conv, r.class) {
        (CallConv::Tail, RegClass::Int) => 8 <= r.num <= 15,
        (_, RegClass::Int) => 6 <= r.num <= 15,
        (_, RegClass::Float) => 8 <= r.num <= 15,
        (_, RegClass::Vector) => false,
    }
}

/// Whether the convention obliges the callee to preserve `r`.  The `Vector`
/// class is unused on this target, so such a register is an internal error.
#[verifier::when_used_as_spec(spec_is_reg_saved_in_prologue)]
pub fn is_reg_saved_in_prologue(call_conv: CallConv, r: Reg) -> (saved: bool)
    requires
        r.class != RegClass::Vector,
    ensures
        saved == spec_is_reg_saved_in_prologue(call_conv, r),
{
    match (call_conv, r.class) {
        (CallConv::Tail, RegClass::Int) => 8 <= r.num && r.num <= 15,
        (_, RegClass::Int) => 6 <= r.num && r.num <= 15,
        (_, RegClass::Float) => 8 <= r.num && r.num <= 15,
        (_, RegClass::Vector) => false,
    }
}

} // verus!
