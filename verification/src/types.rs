//! Value types, calling conventions and parameter descriptors.

use vstd::prelude::*;

verus! {

/// The size in bytes of the register save area a caller must provide to any
/// function it calls under this ABI.
pub const REG_SAVE_AREA_SIZE: u32 = 160;

/// The limit on the size of argument and return-value areas on the stack.
/// A generous limit that keeps all later 32-bit offset arithmetic free of
/// overflow.
pub const STACK_ARG_RET_SIZE_LIMIT: u32 = 128 * 1024 * 1024;

/// The three register classes of the register allocator.  On this target the
/// floating-point registers are the low halves of the vector registers, so
/// both scalar floats and 128-bit vectors live in the `Float` class and the
/// `Vector` class is unused.
#[derive(Clone, Copy, PartialEq, Eq, Structural, Debug)]
pub enum RegClass {
    Int,
    Float,
    Vector,
}

/// A value type, as the code generator sees it: scalar integers, scalar
/// floats, and 128-bit vectors.
#[derive(Clone, Copy, PartialEq, Eq, Structural, Debug)]
pub enum Type {
    I8,
    I16,
    I32,
    I64,
    I128,
    F16,
    F32,
    F64,
    I8X16,
    I16X8,
    I32X4,
    I64X2,
    F16X8,
    F32X4,
    F64X2,
}

impl Type {
    /// Width of the type in bits.
    pub open spec fn spec_bits(self) -> u32 {
        match self {
            Type::I8 => 8,
            Type::I16 => 16,
            Type::I32 => 32,
            Type::I64 => 64,
            Type::I128 => 128,
            Type::F16 => 16,
            Type::F32 => 32,
            Type::F64 => 64,
            Type::I8X16 => 128,
            Type::I16X8 => 128,
            Type::I32X4 => 128,
            Type::I64X2 => 128,
            Type::F16X8 => 128,
            Type::F32X4 => 128,
            Type::F64X2 => 128,
        }
    }

    /// Width of the type in bits.
    #[verifier::when_used_as_spec(spec_bits)]
    pub fn bits(self) -> (r: u32)
        ensures
            r == self.spec_bits(),
    {
        match self {
            Type::I8 => 8,
            Type::I16 => 16,
            Type::I32 => 32,
            Type::I64 => 64,
            Type::I128 => 128,
            Type::F16 => 16,
            Type::F32 => 32,
            Type::F64 => 64,
            Type::I8X16 => 128,
            Type::I16X8 => 128,
            Type::I32X4 => 128,
            Type::I64X2 => 128,
            Type::F16X8 => 128,
            Type::F32X4 => 128,
            Type::F64X2 => 128,
        }
    }

    /// Whether the type is a vector type.
    pub open spec fn spec_is_vector(self) -> bool {
        match self {
            Type::I8X16 | Type::I16X8 | Type::I32X4 | Type::I64X2 | Type::F16X8 | Type::F32X4
            | Type::F64X2 => true,
            _ => false,
        }
    }

    /// Whether the type is a vector type.
    #[verifier::when_used_as_spec(spec_is_vector)]
    pub fn is_vector(self) -> (r: bool)
        ensures
            r == self.spec_is_vector(),
    {
        match self {
            Type::I8X16 | Type::I16X8 | Type::I32X4 | Type::I64X2 | Type::F16X8 | Type::F32X4
            | Type::F64X2 => true,
            _ => false,
        }
    }

    /// Number of lanes; 1 for scalar types.
    pub open spec fn spec_lane_count(self) -> u32 {
        match self {
            Type::I8X16 => 16,
            Type::I16X8 => 8,
            Type::I32X4 => 4,
            Type::I64X2 => 2,
            Type::F16X8 => 8,
            Type::F32X4 => 4,
            Type::F64X2 => 2,
            _ => 1,
        }
    }

    /// Number of lanes; 1 for scalar types.
    #[verifier::when_used_as_spec(spec_lane_count)]
    pub fn lane_count(self) -> (r: u32)
        ensures
            r == self.spec_lane_count(),
    {
        match self {
            Type::I8X16 => 16,
            Type::I16X8 => 8,
            Type::I32X4 => 4,
            Type::I64X2 => 2,
            Type::F16X8 => 8,
            Type::F32X4 => 4,
            Type::F64X2 => 2,
            _ => 1,
        }
    }
}

/// A calling convention.  `SystemV` is the standard ELF convention; `Tail`
/// supports guaranteed tail calls; `Winch` is not supported by this backend
/// and is rejected with an error.
#[derive(Clone, Copy, PartialEq, Eq, Structural, Debug)]
pub enum CallConv {
    SystemV,
    Tail,
    Winch,
}

/// Whether a signature's parameters or its return values are being assigned.
#[derive(Clone, Copy, PartialEq, Eq, Structural, Debug)]
pub enum ArgsOrRets {
    Args,
    Rets,
}

/// The extension a sub-word integer parameter requested: none, zero-extend,
/// or sign-extend.
#[derive(Clone, Copy, PartialEq, Eq, Structural, Debug)]
pub enum ArgumentExtension {
    NoExt,
    Uext,
    Sext,
}

/// The purpose tag of a parameter or return value.
#[derive(Clone, Copy, PartialEq, Eq, Structural, Debug)]
pub enum ArgumentPurpose {
    /// An ordinary user-program value.
    Normal,
    /// An aggregate passed by value, of the given size in bytes.  Not
    /// supported by this backend.
    StructArgument(u32),
    /// A pointer to a caller-allocated buffer for the return values.
    StructReturn,
    /// An implicit context pointer supplied by the embedder.
    VMContext,
}

/// A parameter or return-value descriptor: its type, purpose and requested
/// extension.
#[derive(Clone, Copy, PartialEq, Eq, Structural, Debug)]
pub struct AbiParam {
    pub value_type: Type,
    pub purpose: ArgumentPurpose,
    pub extension: ArgumentExtension,
}

impl AbiParam {
    /// A plain parameter of type `value_type` with no special purpose and no
    /// extension.
    pub fn new(value_type: Type) -> (r: AbiParam)
        ensures
            r == (AbiParam {
                value_type,
                purpose: ArgumentPurpose::Normal,
                extension: ArgumentExtension::NoExt,
            }),
    {
        AbiParam {
            value_type,
            purpose: ArgumentPurpose::Normal,
            extension: ArgumentExtension::NoExt,
        }
    }
}

/// Lane order of vector values under a calling convention.
#[derive(Clone, Copy, PartialEq, Eq, Structural, Debug)]
pub enum LaneOrder {
    LittleEndian,
    BigEndian,
}

/// Lane order used by the given calling convention.
pub open spec fn spec_lane_order(call_conv: CallConv) -> LaneOrder {
    match call_conv {
        CallConv::Tail => LaneOrder::LittleEndian,
        _ => LaneOrder::BigEndian,
    }
}

/// Lane order used by the given calling convention.
#[verifier::when_used_as_spec(spec_lane_order)]
pub fn lane_order(call_conv: CallConv) -> (r: LaneOrder)
    ensures
        r == spec_lane_order(call_conv),
{
    match call_conv {
        CallConv::Tail => LaneOrder::LittleEndian,
        _ => LaneOrder::BigEndian,
    }
}

impl From<CallConv> for LaneOrder {
    fn from(call_conv: CallConv) -> (r: LaneOrder) {
        lane_order(call_conv)
    }
}

impl vstd::std_specs::convert::FromSpecImpl<CallConv> for LaneOrder {
    open spec fn obeys_from_spec() -> bool {
        true
    }

    open spec fn from_spec(call_conv: CallConv) -> LaneOrder {
        spec_lane_order(call_conv)
    }
}

/// Target-wide code-generator flags consulted by ABI lowering.
#[derive(Clone, Copy, PartialEq, Eq, Structural, Debug)]
pub struct Flags {
    /// Emit unwind metadata in prologues.
    pub unwind_info: bool,
    /// Keep frames walkable; on this target, via the stack backchain.
    pub preserve_frame_pointers: bool,
    /// Reserve a pinned register; unsupported on this target.
    pub enable_pinned_reg: bool,
    /// Allow return values that overflow the return registers to go through
    /// an implicit return buffer.
    pub enable_multi_ret_implicit_sret: bool,
}

/// A recoverable code-generation error.
#[derive(Clone, Copy, PartialEq, Eq, Structural, Debug)]
pub enum CodegenError {
    /// The requested calling convention is not supported by this backend.
    UnsupportedCallConv,
    /// Aggregates passed by value are not supported by this backend; pass a
    /// pointer instead.
    UnsupportedStructArgument,
    /// Too many return values to fit in registers, and the flags forbid an
    /// implicit return buffer.
    TooManyReturnValues,
    /// The stack argument or return area would exceed
    /// [`STACK_ARG_RET_SIZE_LIMIT`].
    StackLimitExceeded,
}

} // verus!
