//! Per-convention clobber sets and the register-allocator environment.
//! Both are pure functions of the calling convention, so every computation
//! of them yields the same value and callers may cache them freely.

use vstd::prelude::*;

use crate::machine::S390xMachineDeps;
use crate::regs::{gpr, spec_gpr, spec_vr, vr, Reg};
use crate::types::{CallConv, Flags, RegClass};

verus! {

/// An immutable set of physical registers that a call may overwrite: one
/// bit per general-purpose register and one per vector register.
#[derive(Clone, Copy, PartialEq, Eq, Structural, Debug)]
pub struct ClobberSet {
    pub gprs: u16,
    pub vrs: u32,
}

impl ClobberSet {
    /// Whether the set holds `r`.
    pub open spec fn spec_contains(self, r: Reg) -> bool {
        match r.class {
            RegClass::Int => r.num < 16 && (self.gprs >> (r.num as u16)) & 1 == 1,
            RegClass::Float => r.num < 32 && (self.vrs >> (r.num as u32)) & 1 == 1,
            RegClass::Vector => false,
        }
    }

    /// Whether the set holds `r`.
    #[verifier::when_used_as_spec(spec_contains)]
    pub fn contains(self, r: Reg) -> (b: bool)
        ensures
            b == self.spec_contains(r),
    {
        match r.class {
            RegClass::Int => r.num < 16 && (self.gprs >> (r.num as u16)) & 1 == 1,
            RegClass::Float => r.num < 32 && (self.vrs >> (r.num as u32)) & 1 == 1,
            RegClass::Vector => false,
        }
    }
}

/// Bit `n` of the low-six-bits mask is set exactly for `n <= 5`.
proof fn lemma_mask_gpr_sysv(n: u16)
    ensures
        ((0x003fu16 >> n) & 1 == 1) <==> n <= 5,
{
    assert(((0x003fu16 >> n) & 1 == 1) <==> n <= 5) by (bit_vector);
}

/// Bit `n` of the low-eight-bits mask is set exactly for `n <= 7`.
proof fn lemma_mask_gpr_tail(n: u16)
    ensures
        ((0x00ffu16 >> n) & 1 == 1) <==> n <= 7,
{
    assert(((0x00ffu16 >> n) & 1 == 1) <==> n <= 7) by (bit_vector);
}

/// Bit `n` of the full 16-bit mask is set exactly for `n <= 15`.
proof fn lemma_mask_gpr_all(n: u16)
    ensures
        ((0xffffu16 >> n) & 1 == 1) <==> n <= 15,
{
    assert(((0xffffu16 >> n) & 1 == 1) <==> n <= 15) by (bit_vector);
}

/// Bit `n` of the full 32-bit mask is set exactly for `n <= 31`.
proof fn lemma_mask_vr_all(n: u32)
    ensures
        ((0xffff_ffffu32 >> n) & 1 == 1) <==> n <= 31,
{
    assert(((0xffff_ffffu32 >> n) & 1 == 1) <==> n <= 31) by (bit_vector);
}

/// What a call under the standard convention may overwrite: `%r0`-`%r5`,
/// and every vector register.  The upper halves of `%v8`-`%v15` are
/// caller-saved while their lower halves are not; whole registers are
/// reported, which over-approximates in the safe direction.
pub open spec fn sysv_clobbered(r: Reg) -> bool {
    (r.class == RegClass::Int && r.num <= 5) || (r.class == RegClass::Float && r.num <= 31)
}

/// What a call under the tail-call convention may overwrite: the standard
/// set plus the argument registers `%r6` and `%r7`.
pub open spec fn tail_clobbered(r: Reg) -> bool {
    (r.class == RegClass::Int && r.num <= 7) || (r.class == RegClass::Float && r.num <= 31)
}

/// What a call that unwinds through an exception may overwrite: every
/// register.
pub open spec fn all_clobbered(r: Reg) -> bool {
    (r.class == RegClass::Int && r.num <= 15) || (r.class == RegClass::Float && r.num <= 31)
}

/// The standard convention's clobber set.
pub fn sysv_clobbers() -> (r: ClobberSet)
    ensures
        forall|reg: Reg| #[trigger] r.spec_contains(reg) == sysv_clobbered(reg),
{
    let s = ClobberSet { gprs: 0x003f, vrs: 0xffff_ffff };
    proof {
        assert forall|reg: Reg| #[trigger] s.spec_contains(reg) == sysv_clobbered(reg) by {
            lemma_mask_gpr_sysv(reg.num as u16);
            lemma_mask_vr_all(reg.num as u32);
        }
    }
    s
}

/// The tail-call convention's clobber set.
pub fn tail_clobbers() -> (r: ClobberSet)
    ensures
        forall|reg: Reg| #[trigger] r.spec_contains(reg) == tail_clobbered(reg),
{
    let s = ClobberSet { gprs: 0x00ff, vrs: 0xffff_ffff };
    proof {
        assert forall|reg: Reg| #[trigger] s.spec_contains(reg) == tail_clobbered(reg) by {
            lemma_mask_gpr_tail(reg.num as u16);
            lemma_mask_vr_all(reg.num as u32);
        }
    }
    s
}

/// The conservative everything-clobbered set for exceptional unwinding.
pub fn all_clobbers() -> (r: ClobberSet)
    ensures
        forall|reg: Reg| #[trigger] r.spec_contains(reg) == all_clobbered(reg),
{
    let s = ClobberSet { gprs: 0xffff, vrs: 0xffff_ffff };
    proof {
        assert forall|reg: Reg| #[trigger] s.spec_contains(reg) == all_clobbered(reg) by {
            lemma_mask_gpr_all(reg.num as u16);
            lemma_mask_vr_all(reg.num as u32);
        }
    }
    s
}

/// What a call of the given convention clobbers from the caller's point of
/// view; an exceptional return path conservatively clobbers everything.
pub open spec fn clobbered_by_call(call_conv: CallConv, is_exception: bool, r: Reg) -> bool {
    match call_conv {
        CallConv::Tail => if is_exception {
            all_clobbered(r)
        } else {
            tail_clobbered(r)
        },
        _ => sysv_clobbered(r),
    }
}

/// The register-allocator environment for one convention: allocation
/// preferences per class.  On this target the `Vector` class is unused and
/// no fixed stack slots or dedicated scratch registers are declared.
#[derive(Clone, PartialEq, Eq, Debug)]
pub struct MachineEnv {
    pub preferred_int: Vec<Reg>,
    pub preferred_float: Vec<Reg>,
    pub preferred_vector: Vec<Reg>,
    pub non_preferred_int: Vec<Reg>,
    pub non_preferred_float: Vec<Reg>,
    pub non_preferred_vector: Vec<Reg>,
    pub fixed_stack_slots: Vec<Reg>,
    pub scratch_int: Option<Reg>,
    pub scratch_float: Option<Reg>,
    pub scratch_vector: Option<Reg>,
}

/// The standard convention's preferred integer registers: the caller-saved
/// argument registers.  `%r0` cannot address memory, `%r1` is the spill
/// temporary, so neither is allocatable.
pub open spec fn sysv_preferred_int() -> Seq<Reg> {
    seq![spec_gpr(2), spec_gpr(3), spec_gpr(4), spec_gpr(5)]
}

/// The tail-call convention additionally prefers `%r6` and `%r7`, which it
/// does not have to preserve.
pub open spec fn tail_preferred_int() -> Seq<Reg> {
    seq![spec_gpr(2), spec_gpr(3), spec_gpr(4), spec_gpr(5), spec_gpr(6), spec_gpr(7)]
}

/// Preferred vector registers: all the caller-saved ones.
pub open spec fn env_preferred_float() -> Seq<Reg> {
    seq![
        spec_vr(0),
        spec_vr(1),
        spec_vr(2),
        spec_vr(3),
        spec_vr(4),
        spec_vr(5),
        spec_vr(6),
        spec_vr(7),
        spec_vr(16),
        spec_vr(17),
        spec_vr(18),
        spec_vr(19),
        spec_vr(20),
        spec_vr(21),
        spec_vr(22),
        spec_vr(23),
        spec_vr(24),
        spec_vr(25),
        spec_vr(26),
        spec_vr(27),
        spec_vr(28),
        spec_vr(29),
        spec_vr(30),
        spec_vr(31),
    ]
}

/// The standard convention's non-preferred integer registers: the
/// callee-saved ones, without the stack pointer `%r15`.
pub open spec fn sysv_non_preferred_int() -> Seq<Reg> {
    seq![
        spec_gpr(6),
        spec_gpr(7),
        spec_gpr(8),
        spec_gpr(9),
        spec_gpr(10),
        spec_gpr(11),
        spec_gpr(12),
        spec_gpr(13),
        spec_gpr(14),
    ]
}

/// The tail-call convention's non-preferred integer registers.
pub open spec fn tail_non_preferred_int() -> Seq<Reg> {
    seq![
        spec_gpr(8),
        spec_gpr(9),
        spec_gpr(10),
        spec_gpr(11),
        spec_gpr(12),
        spec_gpr(13),
        spec_gpr(14),
    ]
}

/// Non-preferred vector registers: the callee-saved ones.
pub open spec fn env_non_preferred_float() -> Seq<Reg> {
    seq![
        spec_vr(8),
        spec_vr(9),
        spec_vr(10),
        spec_vr(11),
        spec_vr(12),
        spec_vr(13),
        spec_vr(14),
        spec_vr(15),
    ]
}

/// What the standard convention's environment holds, field by field.
pub open spec fn is_sysv_env(e: MachineEnv) -> bool {
    &&& e.preferred_int@ == sysv_preferred_int()
    &&& e.preferred_float@ == env_preferred_float()
    &&& e.preferred_vector@ == Seq::<Reg>::empty()
    &&& e.non_preferred_int@ == sysv_non_preferred_int()
    &&& e.non_preferred_float@ == env_non_preferred_float()
    &&& e.non_preferred_vector@ == Seq::<Reg>::empty()
    &&& e.fixed_stack_slots@ == Seq::<Reg>::empty()
    &&& e.scratch_int is None
    &&& e.scratch_float is None
    &&& e.scratch_vector is None
}

/// What the tail-call convention's environment holds, field by field.
pub open spec fn is_tail_env(e: MachineEnv) -> bool {
    &&& e.preferred_int@ == tail_preferred_int()
    &&& e.preferred_float@ == env_preferred_float()
    &&& e.preferred_vector@ == Seq::<Reg>::empty()
    &&& e.non_preferred_int@ == tail_non_preferred_int()
    &&& e.non_preferred_float@ == env_non_preferred_float()
    &&& e.non_preferred_vector@ == Seq::<Reg>::empty()
    &&& e.fixed_stack_slots@ == Seq::<Reg>::empty()
    &&& e.scratch_int is None
    &&& e.scratch_float is None
    &&& e.scratch_vector is None
}

/// Build the standard convention's environment.  Construction is pure and
/// deterministic, so the result may be computed once and shared.
pub fn sysv_create_machine_env() -> (e: MachineEnv)
    ensures
        is_sysv_env(e),
{
    let e = MachineEnv {
        preferred_int: vec![gpr(2), gpr(3), gpr(4), gpr(5)],
        preferred_float: vec![
            vr(0),
            vr(1),
            vr(2),
            vr(3),
            vr(4),
            vr(5),
            vr(6),
            vr(7),
            vr(16),
            vr(17),
            vr(18),
            vr(19),
            vr(20),
            vr(21),
            vr(22),
            vr(23),
            vr(24),
            vr(25),
            vr(26),
            vr(27),
            vr(28),
            vr(29),
            vr(30),
            vr(31),
        ],
        preferred_vector: Vec::new(),
        non_preferred_int: vec![
            gpr(6),
            gpr(7),
            gpr(8),
            gpr(9),
            gpr(10),
            gpr(11),
            gpr(12),
            gpr(13),
            gpr(14),
        ],
        non_preferred_float: vec![vr(8), vr(9), vr(10), vr(11), vr(12), vr(13), vr(14), vr(15)],
        non_preferred_vector: Vec::new(),
        fixed_stack_slots: Vec::new(),
        scratch_int: None,
        scratch_float: None,
        scratch_vector: None,
    };
    proof {
        assert(e.preferred_int@ =~= sysv_preferred_int());
        assert(e.preferred_float@ =~= env_preferred_float());
        assert(e.non_preferred_int@ =~= sysv_non_preferred_int());
        assert(e.non_preferred_float@ =~= env_non_preferred_float());
    }
    e
}

/// Build the tail-call convention's environment.
pub fn tail_create_machine_env() -> (e: MachineEnv)
    ensures
        is_tail_env(e),
{
    let e = MachineEnv {
        preferred_int: vec![gpr(2), gpr(3), gpr(4), gpr(5), gpr(6), gpr(7)],
        preferred_float: vec![
            vr(0),
            vr(1),
            vr(2),
            vr(3),
            vr(4),
            vr(5),
            vr(6),
            vr(7),
            vr(16),
            vr(17),
            vr(18),
            vr(19),
            vr(20),
            vr(21),
            vr(22),
            vr(23),
            vr(24),
            vr(25),
            vr(26),
            vr(27),
            vr(28),
            vr(29),
            vr(30),
            vr(31),
        ],
        preferred_vector: Vec::new(),
        non_preferred_int: vec![gpr(8), gpr(9), gpr(10), gpr(11), gpr(12), gpr(13), gpr(14)],
        non_preferred_float: vec![vr(8), vr(9), vr(10), vr(11), vr(12), vr(13), vr(14), vr(15)],
        non_preferred_vector: Vec::new(),
        fixed_stack_slots: Vec::new(),
        scratch_int: None,
        scratch_float: None,
        scratch_vector: None,
    };
    proof {
        assert(e.preferred_int@ =~= tail_preferred_int());
        assert(e.preferred_float@ =~= env_preferred_float());
        assert(e.non_preferred_int@ =~= tail_non_preferred_int());
        assert(e.non_preferred_float@ =~= env_non_preferred_float());
    }
    e
}

impl S390xMachineDeps {
    /// The allocator environment for a convention.  Deterministic: the same
    /// convention always gets the same environment.
    pub fn get_machine_env(_flags: &Flags, call_conv: CallConv) -> (e: MachineEnv)
        ensures
            call_conv == CallConv::Tail ==> is_tail_env(e),
            call_conv != CallConv::Tail ==> is_sysv_env(e),
    {
        match call_conv {
            CallConv::Tail => tail_create_machine_env(),
            _ => sysv_create_machine_env(),
        }
    }

    /// The clobber set of a call with the given callee convention.
    pub fn get_regs_clobbered_by_call(call_conv_of_callee: CallConv, is_exception: bool) -> (r:
        ClobberSet)
        ensures
            forall|reg: Reg| #[trigger] r.spec_contains(reg) == clobbered_by_call(
                call_conv_of_callee,
                is_exception,
                reg,
            ),
    {
        match call_conv_of_callee {
            CallConv::Tail => if is_exception {
                all_clobbers()
            } else {
                tail_clobbers()
            },
            _ => sysv_clobbers(),
        }
    }

    /// The registers that deliver exception state to a landing pad; empty
    /// for conventions that do not support exceptions.
    pub fn exception_payload_regs(call_conv: CallConv) -> (r: Vec<Reg>)
        ensures
            call_conv == CallConv::SystemV || call_conv == CallConv::Tail ==> r@ == seq![
                spec_gpr(6),
                spec_gpr(7),
            ],
            !(call_conv == CallConv::SystemV || call_conv == CallConv::Tail) ==> r@ == Seq::<
                Reg,
            >::empty(),
    {
        match call_conv {
            CallConv::SystemV | CallConv::Tail => {
                let regs = vec![gpr(6), gpr(7)];
                proof {
                    assert(regs@ =~= seq![spec_gpr(6), spec_gpr(7)]);
                }
                regs
            },
            _ => Vec::new(),
        }
    }
}

} // verus!
