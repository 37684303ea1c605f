//! The frame-layout planner: from the clobbered-register set and the sizes
//! of the frame's regions to the single authoritative [`FrameLayout`].

use vstd::multiset::Multiset;
use vstd::prelude::*;
use vstd::relations::sorted_by;
use vstd::seq_lib::*;

use crate::machine::S390xMachineDeps;
use crate::regs::{
    gpr, is_reg_saved_in_prologue, lemma_reg_order_total, reg_index, reg_leq, reg_order, spec_gpr,
    spec_is_reg_saved_in_prologue, Reg,
};
use crate::types::{CallConv, Flags, RegClass, REG_SAVE_AREA_SIZE};

verus! {

/// The single source of truth for stack geometry.  Every later stage
/// computes offsets from these sizes and never recomputes a size itself.
#[derive(Clone, PartialEq, Eq, Debug)]
pub struct FrameLayout {
    /// Machine word size in bytes.
    pub word_bytes: u32,
    /// Size of the incoming argument area.
    pub incoming_args_size: u32,
    /// Size of the tail-call argument area as later consumers see it.
    pub tail_args_size: u32,
    /// Size of the frame setup area; none on this target.
    pub setup_area_size: u32,
    /// Size of the clobbered-register save area.
    pub clobber_size: u32,
    /// Size of fixed local storage.
    pub fixed_frame_storage_size: u32,
    /// Size of explicit stack slots.
    pub stackslots_size: u32,
    /// Size of the outgoing-call argument area, register save area included.
    pub outgoing_args_size: u32,
    /// The callee-saved registers the function clobbers, in ascending
    /// encoding order.
    pub clobbered_callee_saves: Vec<Reg>,
}

/// Mathematical image of a [`FrameLayout`], with the register list as a
/// sequence.
pub struct FrameLayoutView {
    pub word_bytes: u32,
    pub incoming_args_size: u32,
    pub tail_args_size: u32,
    pub setup_area_size: u32,
    pub clobber_size: u32,
    pub fixed_frame_storage_size: u32,
    pub stackslots_size: u32,
    pub outgoing_args_size: u32,
    pub clobbered_callee_saves: Seq<Reg>,
}

impl View for FrameLayout {
    type V = FrameLayoutView;

    open spec fn view(&self) -> FrameLayoutView {
        FrameLayoutView {
            word_bytes: self.word_bytes,
            incoming_args_size: self.incoming_args_size,
            tail_args_size: self.tail_args_size,
            setup_area_size: self.setup_area_size,
            clobber_size: self.clobber_size,
            fixed_frame_storage_size: self.fixed_frame_storage_size,
            stackslots_size: self.stackslots_size,
            outgoing_args_size: self.outgoing_args_size,
            clobbered_callee_saves: self.clobbered_callee_saves@,
        }
    }
}

/// The callee-saved filter for a convention, as a relation value.
pub open spec fn callee_save_pred(call_conv: CallConv) -> spec_fn(Reg) -> bool {
    |r: Reg| spec_is_reg_saved_in_prologue(call_conv, r)
}

/// Registers of the `Int` class.
pub open spec fn int_pred() -> spec_fn(Reg) -> bool {
    |r: Reg| r.class == RegClass::Int
}

/// Registers of the `Float` class.
pub open spec fn float_pred() -> spec_fn(Reg) -> bool {
    |r: Reg| r.class == RegClass::Float
}

/// The outgoing-argument area, forced up to the register save area size
/// when frames must stay walkable: the backchain lives in that area, so it
/// must exist even in leaf functions.
pub open spec fn spec_adjusted_outgoing(flags: Flags, outgoing_args_size: u32) -> u32 {
    if flags.preserve_frame_pointers && outgoing_args_size < REG_SAVE_AREA_SIZE {
        REG_SAVE_AREA_SIZE
    } else {
        outgoing_args_size
    }
}

/// The clobbered registers that need a save slot: the callee-saved subset of
/// the clobbered set, plus the link register `%r14` whenever the function
/// makes a call — the call instruction itself clobbers it.
pub open spec fn saves_with_link(
    call_conv: CallConv,
    flags: Flags,
    regs: Seq<Reg>,
    outgoing_args_size: u32,
) -> Seq<Reg> {
    let f = regs.filter(callee_save_pred(call_conv));
    if spec_adjusted_outgoing(flags, outgoing_args_size) > 0 && !f.contains(spec_gpr(14)) {
        f.push(spec_gpr(14))
    } else {
        f
    }
}

/// The save list in its canonical, deterministic order.
pub open spec fn sorted_saves(
    call_conv: CallConv,
    flags: Flags,
    regs: Seq<Reg>,
    outgoing_args_size: u32,
) -> Seq<Reg> {
    saves_with_link(call_conv, flags, regs, outgoing_args_size).sort_by(reg_order())
}

/// How many of the saved registers are floating-point registers.
pub open spec fn spec_float_save_count(s: Seq<Reg>) -> int {
    s.filter(float_pred()).len() as int
}

/// The clobber-area size: one word per floating-point save.  Integer saves
/// go to the register save area through one block store and contribute
/// nothing here.  Under the tail-call convention the tail-call argument
/// area is folded in, so that common layout math still reports the total
/// frame size although that convention places those arguments elsewhere.
pub open spec fn spec_clobber_size(
    call_conv: CallConv,
    flags: Flags,
    regs: Seq<Reg>,
    tail_args_size: u32,
    outgoing_args_size: u32,
) -> int {
    8 * spec_float_save_count(sorted_saves(call_conv, flags, regs, outgoing_args_size)) + (
    if call_conv == CallConv::Tail {
        tail_args_size as int
    } else {
        0
    })
}

/// The frame layout the planner owes for these inputs.
pub open spec fn frame_layout_model(
    call_conv: CallConv,
    flags: Flags,
    regs: Seq<Reg>,
    incoming_args_size: u32,
    tail_args_size: u32,
    stackslots_size: u32,
    fixed_frame_storage_size: u32,
    outgoing_args_size: u32,
) -> FrameLayoutView {
    FrameLayoutView {
        word_bytes: 8,
        incoming_args_size,
        // The tail-call argument size was folded into the clobber size, so
        // the externally visible field goes back to its default.
        tail_args_size: incoming_args_size,
        setup_area_size: 0,
        clobber_size: spec_clobber_size(
            call_conv,
            flags,
            regs,
            tail_args_size,
            outgoing_args_size,
        ) as u32,
        fixed_frame_storage_size,
        stackslots_size,
        outgoing_args_size: spec_adjusted_outgoing(flags, outgoing_args_size),
        clobbered_callee_saves: sorted_saves(call_conv, flags, regs, outgoing_args_size),
    }
}

impl FrameLayout {
    /// What the planner guarantees of every layout it produces, and what
    /// the prologue/epilogue sequencers rely on: the save list is sorted
    /// and callee-saved under the convention, the clobber size covers the
    /// floating-point saves (plus, under the tail-call convention, at least
    /// the incoming argument area), and the region sizes sum within 32-bit
    /// signed range.
    pub open spec fn wf(self, call_conv: CallConv) -> bool {
        let saves = self.clobbered_callee_saves@;
        &&& self.word_bytes == 8
        &&& sorted_by(saves, reg_order())
        &&& forall|i: int|
            0 <= i < saves.len() ==> spec_is_reg_saved_in_prologue(
                call_conv,
                #[trigger] saves[i],
            )
        &&& self.clobber_size >= 8 * spec_float_save_count(saves)
        &&& (call_conv != CallConv::Tail ==> self.clobber_size == 8 * spec_float_save_count(
            saves,
        ))
        &&& (call_conv == CallConv::Tail ==> self.clobber_size - 8 * spec_float_save_count(saves)
            >= self.incoming_args_size)
        &&& self.outgoing_args_size + self.clobber_size + self.fixed_frame_storage_size
            <= i32::MAX
    }

    /// The saved registers split by class: general-purpose saves first,
    /// floating-point saves second, each in list order.
    pub fn clobbered_callee_saves_by_class(&self) -> (r: (Vec<Reg>, Vec<Reg>))
        ensures
            r.0@ == self.clobbered_callee_saves@.filter(int_pred()),
            r.1@ == self.clobbered_callee_saves@.filter(float_pred()),
    {
        let saves = &self.clobbered_callee_saves;
        let mut gprs: Vec<Reg> = Vec::new();
        let mut fprs: Vec<Reg> = Vec::new();
        let mut i: usize = 0;
        proof {
            reveal(Seq::filter);
            assert(saves@.take(0).filter(int_pred()) =~= Seq::<Reg>::empty());
            assert(saves@.take(0).filter(float_pred()) =~= Seq::<Reg>::empty());
        }
        while i < saves.len()
            invariant
                i <= saves@.len(),
                saves == &self.clobbered_callee_saves,
                gprs@ == saves@.take(i as int).filter(int_pred()),
                fprs@ == saves@.take(i as int).filter(float_pred()),
            decreases saves@.len() - i,
        {
            let r = saves[i];
            match r.class {
                RegClass::Int => gprs.push(r),
                RegClass::Float => fprs.push(r),
                RegClass::Vector => {},
            }
            proof {
                reveal(Seq::filter);
                assert(saves@.take(i + 1).drop_last() =~= saves@.take(i as int));
                assert(saves@.take(i + 1).last() == saves@[i as int]);
            }
            i += 1;
        }
        proof {
            assert(saves@.take(saves@.len() as int) =~= saves@);
        }
        (gprs, fprs)
    }
}

/// The hardware-encoding range saved by the prologue's block store: the
/// lowest-numbered and highest-numbered clobbered general-purpose
/// registers, or `None` when no GPR needs saving.
pub fn get_clobbered_gprs(frame_layout: &FrameLayout) -> (r: Option<(u8, u8)>)
    ensures
        ({
            let g = frame_layout.clobbered_callee_saves@.filter(int_pred());
            match r {
                Option::None => g.len() == 0,
                Option::Some((first, last)) => g.len() > 0 && first == g.first().num && last
                    == g.last().num,
            }
        }),
{
    let (gprs, _) = frame_layout.clobbered_callee_saves_by_class();
    if gprs.len() == 0 {
        None
    } else {
        let first = gprs[0].num;
        let last = gprs[gprs.len() - 1].num;
        Some((first, last))
    }
}

/// The clobbered floating-point registers, in save order.
pub fn get_clobbered_fprs(frame_layout: &FrameLayout) -> (r: Vec<Reg>)
    ensures
        r@ == frame_layout.clobbered_callee_saves@.filter(float_pred()),
{
    let (_, fprs) = frame_layout.clobbered_callee_saves_by_class();
    fprs
}

/// The sort key of [`reg_order`], as executable code.
fn reg_sort_key(r: Reg) -> (k: u32)
    ensures
        k as int == reg_index(r),
{
    let class_key: u32 = match r.class {
        RegClass::Int => 0,
        RegClass::Float => 1,
        RegClass::Vector => 2,
    };
    class_key * 256 + r.num as u32
}

/// Sort a register list into ascending encoding order by repeated sorted
/// insertion.
fn sort_regs(v: Vec<Reg>) -> (out: Vec<Reg>)
    ensures
        sorted_by(out@, reg_order()),
        out@.to_multiset() == v@.to_multiset(),
{
    broadcast use group_to_multiset_ensures;

    let mut out: Vec<Reg> = Vec::new();
    let mut i: usize = 0;
    proof {
        assert(v@.take(0) =~= Seq::<Reg>::empty());
        assert(Seq::<Reg>::empty().to_multiset() =~= out@.to_multiset());
    }
    while i < v.len()
        invariant
            i <= v@.len(),
            sorted_by(out@, reg_order()),
            out@.to_multiset() == v@.take(i as int).to_multiset(),
        decreases v@.len() - i,
    {
        let x = v[i];
        let xk = reg_sort_key(x);
        let mut p: usize = 0;
        while p < out.len() && reg_sort_key(out[p]) <= xk
            invariant
                p <= out@.len(),
                xk as int == reg_index(x),
                forall|q: int| 0 <= q < p ==> reg_leq(#[trigger] out@[q], x),
            decreases out@.len() - p,
        {
            proof {
                assert(reg_leq(out@[p as int], x));
            }
            p += 1;
        }
        let ghost s = out@;
        out.insert(p, x);
        proof {
            broadcast use group_to_multiset_ensures;

            let t = out@;
            assert(t == s.insert(p as int, x));
            if p < s.len() {
                assert(reg_index(x) < reg_index(s[p as int]));
            }
            assert forall|a: int, b: int| 0 <= a < b < t.len() implies reg_order()(t[a], t[b]) by {
                assert(forall|q: int| 0 <= q < p ==> t[q] == s[q]);
                assert(t[p as int] == x);
                assert(forall|q: int| p < q < t.len() ==> t[q] == s[q - 1]);
                if b < p {
                    assert(reg_order()(s[a], s[b]));
                } else if b == p {
                    assert(reg_leq(s[a], x));
                } else {
                    // b > p, so t[b] is the old s[b - 1], at or past position p
                    if p < b - 1 && p < s.len() {
                        assert(reg_order()(s[p as int], s[b - 1]));
                    }
                    if a < p {
                        if a < b - 1 {
                            assert(reg_order()(s[a], s[b - 1]));
                        }
                        assert(reg_leq(s[a], s[b - 1]));
                    } else if a == p {
                        assert(reg_leq(x, s[b - 1]));
                    } else {
                        if a - 1 < b - 1 {
                            assert(reg_order()(s[a - 1], s[b - 1]));
                        }
                        assert(reg_leq(s[a - 1], s[b - 1]));
                    }
                }
            }
            assert(sorted_by(t, reg_order()));
            // Inserting x mirrors taking one more input element.
            assert(s.insert(p as int, x).to_multiset() =~= s.to_multiset().insert(x));
            assert(v@.take(i + 1) =~= v@.take(i as int).push(x));
            assert(v@.take(i as int).push(x).to_multiset() =~= v@.take(
                i as int,
            ).to_multiset().insert(x));
        }
        i += 1;
    }
    proof {
        assert(v@.take(v@.len() as int) =~= v@);
    }
    out
}

/// Every element of a filtered sequence comes from the sequence and
/// satisfies the filter.
pub proof fn lemma_filter_is_subset(s: Seq<Reg>, pred: spec_fn(Reg) -> bool, i: int)
    requires
        0 <= i < s.filter(pred).len(),
    ensures
        s.contains(s.filter(pred)[i]),
        pred(s.filter(pred)[i]),
    decreases s.len(),
{
    reveal(Seq::filter);
    if s.len() == 0 {
    } else {
        let f = s.filter(pred);
        let fd = s.drop_last().filter(pred);
        if pred(s.last()) && i == fd.len() {
            assert(f[i] == s.last());
            assert(s.contains(s.last()));
        } else {
            lemma_filter_is_subset(s.drop_last(), pred, i);
            let x = fd[i];
            let j = choose|j: int| 0 <= j < s.drop_last().len() && s.drop_last()[j] == x;
            assert(s[j] == x);
        }
    }
}

/// For any register, filtering keeps exactly its occurrences when it
/// matches the filter and none otherwise.
pub proof fn lemma_filter_multiset_count(s: Seq<Reg>, pred: spec_fn(Reg) -> bool, x: Reg)
    ensures
        s.filter(pred).to_multiset().count(x) == if pred(x) {
            s.to_multiset().count(x)
        } else {
            0
        },
    decreases s.len(),
{
    broadcast use group_to_multiset_ensures;

    reveal(Seq::filter);
    if s.len() == 0 {
        assert(s.filter(pred) =~= s);
        assert(s.to_multiset() =~= Multiset::<Reg>::empty());
    } else {
        lemma_filter_multiset_count(s.drop_last(), pred, x);
        assert(s =~= s.drop_last().push(s.last()));
        assert(s.to_multiset() =~= s.drop_last().to_multiset().insert(s.last()));
    }
}

impl S390xMachineDeps {
    /// Plan the frame: filter the clobbered set down to the callee-saved
    /// registers, force the outgoing area up when the backchain is wanted,
    /// add the link register for non-leaf functions, sort, and account the
    /// region sizes.
    pub fn compute_frame_layout(
        call_conv: CallConv,
        flags: &Flags,
        regs: &Vec<Reg>,
        incoming_args_size: u32,
        tail_args_size: u32,
        stackslots_size: u32,
        fixed_frame_storage_size: u32,
        outgoing_args_size: u32,
    ) -> (layout: FrameLayout)
        requires
            !flags.enable_pinned_reg,
            forall|i: int|
                0 <= i < regs@.len() ==> (#[trigger] regs@[i]).class != RegClass::Vector,
            call_conv == CallConv::Tail ==> incoming_args_size <= tail_args_size,
            spec_clobber_size(call_conv, *flags, regs@, tail_args_size, outgoing_args_size)
                <= u32::MAX,
            spec_adjusted_outgoing(*flags, outgoing_args_size) + spec_clobber_size(
                call_conv,
                *flags,
                regs@,
                tail_args_size,
                outgoing_args_size,
            ) + fixed_frame_storage_size <= i32::MAX,
        ensures
            layout@ == frame_layout_model(
                call_conv,
                *flags,
                regs@,
                incoming_args_size,
                tail_args_size,
                stackslots_size,
                fixed_frame_storage_size,
                outgoing_args_size,
            ),
            layout.wf(call_conv),
    {
        broadcast use group_to_multiset_ensures;

        let ghost pred = callee_save_pred(call_conv);

        // Keep only the registers the convention makes us save.
        let mut saves: Vec<Reg> = Vec::new();
        let mut i: usize = 0;
        proof {
            reveal(Seq::filter);
            assert(regs@.take(0).filter(pred) =~= Seq::<Reg>::empty());
        }
        while i < regs.len()
            invariant
                i <= regs@.len(),
                forall|k: int|
                    0 <= k < regs@.len() ==> (#[trigger] regs@[k]).class != RegClass::Vector,
                saves@ == regs@.take(i as int).filter(callee_save_pred(call_conv)),
            decreases regs@.len() - i,
        {
            let r = regs[i];
            if is_reg_saved_in_prologue(call_conv, r) {
                saves.push(r);
            }
            proof {
                reveal(Seq::filter);
                assert(regs@.take(i + 1).drop_last() =~= regs@.take(i as int));
                assert(regs@.take(i + 1).last() == regs@[i as int]);
            }
            i += 1;
        }
        proof {
            assert(regs@.take(regs@.len() as int) =~= regs@);
        }

        // The backchain needs the outgoing register save area even in leaf
        // functions.
        let mut outgoing_size = outgoing_args_size;
        if flags.preserve_frame_pointers {
            if outgoing_size < REG_SAVE_AREA_SIZE {
                outgoing_size = REG_SAVE_AREA_SIZE;
            }
        }
        assert(outgoing_size == spec_adjusted_outgoing(*flags, outgoing_args_size));

        // Calls clobber the link register, so non-leaf functions save it.
        if outgoing_size > 0 {
            let link_reg = gpr(14);
            let mut found = false;
            let mut j: usize = 0;
            proof {
                assert(!saves@.take(0).contains(spec_gpr(14)));
            }
            while j < saves.len()
                invariant
                    j <= saves@.len(),
                    found == saves@.take(j as int).contains(spec_gpr(14)),
                    link_reg == spec_gpr(14),
                decreases saves@.len() - j,
            {
                if saves[j] == link_reg {
                    found = true;
                }
                proof {
                    assert(saves@.take(j + 1).drop_last() =~= saves@.take(j as int));
                    assert(saves@.take(j + 1).last() == saves@[j as int]);
                    if found && !saves@.take(j as int).contains(spec_gpr(14)) && saves@[j as int]
                        != spec_gpr(14) {
                        assert(false);
                    }
                    if saves@[j as int] == spec_gpr(14) {
                        assert(saves@.take(j + 1)[j as int] == spec_gpr(14));
                    }
                }
                j += 1;
            }
            proof {
                assert(saves@.take(saves@.len() as int) =~= saves@);
            }
            if !found {
                saves.push(link_reg);
            }
        }
        let ghost with_link = saves_with_link(call_conv, *flags, regs@, outgoing_args_size);
        assert(saves@ == with_link);

        // Sort for deterministic code output.
        let saves = sort_regs(saves);
        proof {
            lemma_reg_order_total();
            with_link.lemma_sort_by_ensures(reg_order());
            lemma_sorted_unique(saves@, with_link.sort_by(reg_order()), reg_order());
            assert(saves@ == sorted_saves(call_conv, *flags, regs@, outgoing_args_size));
        }

        // Only floating-point saves need clobber-area slots; the GPR block
        // store lands in the register save area.
        let ghost full_float = 8 * spec_float_save_count(saves@);
        proof {
            reveal(Seq::filter);
            assert(saves@.take(0).filter(float_pred()) =~= Seq::<Reg>::empty());
        }
        let mut clobber_size: u32 = 0;
        let mut k: usize = 0;
        while k < saves.len()
            invariant
                k <= saves@.len(),
                clobber_size == 8 * saves@.take(k as int).filter(float_pred()).len(),
                8 * saves@.filter(float_pred()).len() <= u32::MAX,
            decreases saves@.len() - k,
        {
            proof {
                Seq::filter_distributes_over_add(
                    saves@.take(k + 1),
                    saves@.skip(k + 1),
                    float_pred(),
                );
                assert(saves@.take(k + 1) + saves@.skip(k + 1) =~= saves@);
                reveal(Seq::filter);
                assert(saves@.take(k + 1).drop_last() =~= saves@.take(k as int));
                assert(saves@.take(k + 1).last() == saves@[k as int]);
            }
            let r = saves[k];
            match r.class {
                RegClass::Float => {
                    clobber_size = clobber_size + 8;
                },
                _ => {},
            }
            k += 1;
        }
        proof {
            assert(saves@.take(saves@.len() as int) =~= saves@);
        }

        // Fold the tail-call argument area into the clobber size; see
        // `spec_clobber_size`.
        if call_conv == CallConv::Tail {
            clobber_size = clobber_size + tail_args_size;
        }

        let layout = FrameLayout {
            word_bytes: 8,
            incoming_args_size,
            tail_args_size: incoming_args_size,
            setup_area_size: 0,
            clobber_size,
            fixed_frame_storage_size,
            stackslots_size,
            outgoing_args_size: outgoing_size,
            clobbered_callee_saves: saves,
        };

        proof {
            let saves_seq = layout.clobbered_callee_saves@;
            assert forall|q: int| 0 <= q < saves_seq.len() implies spec_is_reg_saved_in_prologue(
                call_conv,
                #[trigger] saves_seq[q],
            ) by {
                assert(saves_seq.contains(saves_seq[q]));
                assert(saves_seq.to_multiset().count(saves_seq[q]) > 0);
                assert(with_link.to_multiset().count(saves_seq[q]) > 0);
                assert(with_link.contains(saves_seq[q]));
                let f = regs@.filter(callee_save_pred(call_conv));
                let w = choose|w: int| 0 <= w < with_link.len() && with_link[w] == saves_seq[q];
                if w < f.len() {
                    assert(with_link[w] == f[w]);
                } else {
                    assert(with_link[w] == spec_gpr(14));
                }
            }
        }

        layout
    }
}

/// Two invocations of frame-layout planning on the same clobbered-register
/// set — however ordered — produce identical layouts: the same sorted save
/// list and the same sizes.
pub proof fn lemma_frame_layout_deterministic(
    call_conv: CallConv,
    flags: Flags,
    regs1: Seq<Reg>,
    regs2: Seq<Reg>,
    incoming_args_size: u32,
    tail_args_size: u32,
    stackslots_size: u32,
    fixed_frame_storage_size: u32,
    outgoing_args_size: u32,
)
    requires
        regs1.to_multiset() == regs2.to_multiset(),
    ensures
        frame_layout_model(
            call_conv,
            flags,
            regs1,
            incoming_args_size,
            tail_args_size,
            stackslots_size,
            fixed_frame_storage_size,
            outgoing_args_size,
        ) == frame_layout_model(
            call_conv,
            flags,
            regs2,
            incoming_args_size,
            tail_args_size,
            stackslots_size,
            fixed_frame_storage_size,
            outgoing_args_size,
        ),
{
    broadcast use group_to_multiset_ensures;

    let pred = callee_save_pred(call_conv);
    let f1 = regs1.filter(pred);
    let f2 = regs2.filter(pred);
    assert forall|x: Reg| f1.to_multiset().count(x) == f2.to_multiset().count(x) by {
        lemma_filter_multiset_count(regs1, pred, x);
        lemma_filter_multiset_count(regs2, pred, x);
    }
    assert(f1.to_multiset() =~= f2.to_multiset());
    assert(f1.contains(spec_gpr(14)) == f2.contains(spec_gpr(14))) by {
        assert(f1.contains(spec_gpr(14)) <==> f1.to_multiset().count(spec_gpr(14)) > 0);
        assert(f2.contains(spec_gpr(14)) <==> f2.to_multiset().count(spec_gpr(14)) > 0);
    }
    let w1 = saves_with_link(call_conv, flags, regs1, outgoing_args_size);
    let w2 = saves_with_link(call_conv, flags, regs2, outgoing_args_size);
    assert(w1.to_multiset() =~= w2.to_multiset());
    lemma_reg_order_total();
    w1.lemma_sort_by_ensures(reg_order());
    w2.lemma_sort_by_ensures(reg_order());
    lemma_sorted_unique(w1.sort_by(reg_order()), w2.sort_by(reg_order()), reg_order());
    assert(sorted_saves(call_conv, flags, regs1, outgoing_args_size) == sorted_saves(
        call_conv,
        flags,
        regs2,
        outgoing_args_size,
    ));
}

/// Only floating-point callee-saves contribute to the clobber size: a
/// function that clobbers only general-purpose registers — under a
/// convention with no tail-call argument area folded in — gets a clobber
/// size of zero.
pub proof fn lemma_clobber_size_only_floats(
    call_conv: CallConv,
    flags: Flags,
    regs: Seq<Reg>,
    tail_args_size: u32,
    outgoing_args_size: u32,
)
    requires
        call_conv != CallConv::Tail,
        forall|i: int| 0 <= i < regs.len() ==> (#[trigger] regs[i]).class != RegClass::Float,
    ensures
        spec_clobber_size(call_conv, flags, regs, tail_args_size, outgoing_args_size) == 0,
{
    broadcast use group_to_multiset_ensures;

    let pred = callee_save_pred(call_conv);
    let f = regs.filter(pred);
    let w = saves_with_link(call_conv, flags, regs, outgoing_args_size);
    let s = sorted_saves(call_conv, flags, regs, outgoing_args_size);
    lemma_reg_order_total();
    w.lemma_sort_by_ensures(reg_order());
    let sf = s.filter(float_pred());
    if sf.len() > 0 {
        assert(float_pred()(sf[0]));
        assert(s.contains(sf[0])) by {
            lemma_filter_multiset_count(s, float_pred(), sf[0]);
            assert(sf.contains(sf[0]));
            assert(sf.to_multiset().count(sf[0]) > 0);
        }
        assert(w.to_multiset().count(sf[0]) > 0);
        assert(w.contains(sf[0]));
        let q = choose|q: int| 0 <= q < w.len() && w[q] == sf[0];
        if q < f.len() {
            assert(w[q] == f[q]);
            assert(f.contains(f[q]));
            assert(regs.contains(sf[0])) by {
                lemma_filter_multiset_count(regs, pred, sf[0]);
                assert(f.to_multiset().count(sf[0]) > 0);
            }
            assert(false);
        } else {
            assert(w[q] == spec_gpr(14));
            assert(false);
        }
    }
    assert(spec_float_save_count(s) == 0);
}

} // verus!
