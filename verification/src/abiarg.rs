//! Assigned argument and return-value locations.

use vstd::prelude::*;

use crate::regs::Reg;
use crate::types::{ArgumentExtension, ArgumentPurpose, Type};

verus! {

/// One assigned slot: a physical register or a stack location.  The type and
/// extension are kept so that later sub-register loads and stores come out
/// right.
#[derive(Clone, Copy, PartialEq, Eq, Structural, Debug)]
pub enum ABIArgSlot {
    Reg { reg: Reg, ty: Type, extension: ArgumentExtension },
    Stack { offset: i64, ty: Type, extension: ArgumentExtension },
}

/// The location of one parameter or return value.
#[derive(Clone, PartialEq, Eq, Debug)]
pub enum ABIArg {
    /// One or more concrete slots holding the value itself.
    Slots { slots: Vec<ABIArgSlot>, purpose: ArgumentPurpose },
    /// The value is passed by implicit reference: `pointer` carries the
    /// address of a caller-allocated buffer of type `ty` at `offset` in the
    /// caller's argument area.
    ImplicitPtrArg { pointer: ABIArgSlot, offset: i64, ty: Type, purpose: ArgumentPurpose },
}

/// Mathematical image of an [`ABIArg`], with slot lists as sequences.
pub enum ABIArgView {
    Slots { slots: Seq<ABIArgSlot>, purpose: ArgumentPurpose },
    ImplicitPtrArg { pointer: ABIArgSlot, offset: i64, ty: Type, purpose: ArgumentPurpose },
}

impl View for ABIArg {
    type V = ABIArgView;

    open spec fn view(&self) -> ABIArgView {
        match self {
            ABIArg::Slots { slots, purpose } => ABIArgView::Slots {
                slots: slots@,
                purpose: *purpose,
            },
            ABIArg::ImplicitPtrArg { pointer, offset, ty, purpose } => ABIArgView::ImplicitPtrArg {
                pointer: *pointer,
                offset: *offset,
                ty: *ty,
                purpose: *purpose,
            },
        }
    }
}

/// The element-wise view of an assigned argument list.
pub open spec fn args_view(args: Seq<ABIArg>) -> Seq<ABIArgView> {
    args.map_values(|a: ABIArg| a@)
}

/// The slots an argument occupies, in order; an implicit-pointer argument
/// occupies its pointer's slot.
pub open spec fn arg_slots(a: ABIArgView) -> Seq<ABIArgSlot> {
    match a {
        ABIArgView::Slots { slots, .. } => slots,
        ABIArgView::ImplicitPtrArg { pointer, .. } => seq![pointer],
    }
}

/// All slots of an argument list, flattened in argument order.
pub open spec fn all_slots(args: Seq<ABIArgView>) -> Seq<ABIArgSlot> {
    args.map_values(|a: ABIArgView| arg_slots(a)).flatten()
}

impl ABIArgSlot {
    /// Natural size in bytes of the value in this slot.
    pub open spec fn size(self) -> int {
        match self {
            ABIArgSlot::Reg { ty, .. } => ty.spec_bits() as int / 8,
            ABIArgSlot::Stack { ty, .. } => ty.spec_bits() as int / 8,
        }
    }

    /// The stack slot is at least one machine word wide.
    pub open spec fn slot_size(self) -> int {
        if self.size() >= 8 {
            self.size()
        } else {
            8
        }
    }

    /// How far into its stack slot the value sits: a sub-word value that
    /// requested no extension is right-justified at the slot's high-address
    /// end, anything else at the low address.
    pub open spec fn justify(self) -> int {
        match self {
            ABIArgSlot::Stack { extension, .. } => if self.size() < self.slot_size() && extension
                == ArgumentExtension::NoExt {
                self.slot_size() - self.size()
            } else {
                0
            },
            ABIArgSlot::Reg { .. } => 0,
        }
    }

    /// The requested extension recorded in the slot.
    pub open spec fn ext(self) -> ArgumentExtension {
        match self {
            ABIArgSlot::Reg { extension, .. } => extension,
            ABIArgSlot::Stack { extension, .. } => extension,
        }
    }

    /// The stack offset of the value itself; zero for a register slot.
    pub open spec fn stack_offset(self) -> int {
        match self {
            ABIArgSlot::Stack { offset, .. } => offset as int,
            ABIArgSlot::Reg { .. } => 0,
        }
    }

    /// The low address of the stack slot containing this value.
    pub open spec fn slot_base(self) -> int {
        match self {
            ABIArgSlot::Stack { offset, .. } => offset - self.justify(),
            ABIArgSlot::Reg { .. } => 0,
        }
    }
}

} // verus!
