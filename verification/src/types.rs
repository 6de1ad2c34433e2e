//! Core data model: the weakly-typed raw records extracted from compiled
//! bytecode, their mathematical models, and the error taxonomy.

use vstd::prelude::*;

verus! {

// ---------------------------------------------------------------------------
// Stage masks.
//
// A canonical stage mask is a union of the bits below. A freshly reflected
// description carries exactly one of them; merging widens the mask.
// ---------------------------------------------------------------------------
/// Canonical stage mask bit for the vertex stage.
pub const STAGE_VERTEX: u32 = 0x1;

/// Canonical stage mask bit for the tessellation-control (hull) stage.
pub const STAGE_HULL: u32 = 0x2;

/// Canonical stage mask bit for the tessellation-evaluation (domain) stage.
pub const STAGE_DOMAIN: u32 = 0x4;

/// Canonical stage mask bit for the geometry stage.
pub const STAGE_GEOMETRY: u32 = 0x8;

/// Canonical stage mask bit for the fragment stage.
pub const STAGE_FRAGMENT: u32 = 0x10;

/// Canonical stage mask bit for the compute stage.
pub const STAGE_COMPUTE: u32 = 0x20;

// The execution-model codes of the bytecode format, as the module header
// declares the entry point's stage. Each supported code converts to one
// canonical stage bit; everything else is dropped.
/// Execution-model code: vertex.
pub const EXEC_MODEL_VERTEX: u32 = 0;

/// Execution-model code: tessellation control.
pub const EXEC_MODEL_TESSELLATION_CONTROL: u32 = 1;

/// Execution-model code: tessellation evaluation.
pub const EXEC_MODEL_TESSELLATION_EVALUATION: u32 = 2;

/// Execution-model code: geometry.
pub const EXEC_MODEL_GEOMETRY: u32 = 3;

/// Execution-model code: fragment.
pub const EXEC_MODEL_FRAGMENT: u32 = 4;

/// Execution-model code: compute.
pub const EXEC_MODEL_GL_COMPUTE: u32 = 5;

// ---------------------------------------------------------------------------
// Raw type descriptors.
// ---------------------------------------------------------------------------
/// Type flag bit marking an integer type in a raw type descriptor.
pub const TYPE_FLAG_INT: u32 = 0x4;

/// Type flag bit marking a floating-point type in a raw type descriptor.
pub const TYPE_FLAG_FLOAT: u32 = 0x8;

/// The numeric shape of an interface variable as reflected from bytecode:
/// a flag bitset together with scalar and vector traits.
#[derive(Clone, Copy, Debug, PartialEq, Eq, Structural)]
pub struct RawTypeDescriptor {
    /// Type flag bitset; only [`TYPE_FLAG_INT`] and [`TYPE_FLAG_FLOAT`]
    /// are interpreted here.
    pub flags: u32,
    /// Scalar signedness: 0 for unsigned, 1 for signed.
    pub signedness: u32,
    /// Scalar bit width.
    pub width: u32,
    /// Vector component count; 0 and 1 both denote a scalar.
    pub components: u32,
}

/// An input or output variable as reflected from bytecode.
#[derive(Clone, Debug, PartialEq)]
pub struct RawInterfaceVariable {
    /// Variable name; possibly empty (built-in inputs often have none).
    pub name: String,
    /// Declared location index.
    pub location: u32,
    /// Array dimensions, outermost first; empty for a non-array variable.
    pub dims: Vec<u32>,
    /// The variable's numeric type, when the reflector exposes one.
    pub ty: Option<RawTypeDescriptor>,
}

/// Mathematical model of a [`RawInterfaceVariable`].
#[verifier::ext_equal]
pub struct RawVariableModel {
    /// Model of the name.
    pub name: Seq<char>,
    /// Declared location index.
    pub location: u32,
    /// Model of the array dimensions.
    pub dims: Seq<u32>,
    /// The variable's numeric type, when present.
    pub ty: Option<RawTypeDescriptor>,
}

impl View for RawInterfaceVariable {
    type V = RawVariableModel;

    open spec fn view(&self) -> RawVariableModel {
        RawVariableModel {
            name: self.name@,
            location: self.location,
            dims: self.dims@,
            ty: self.ty,
        }
    }
}

/// Models of a sequence of raw interface variables.
pub open spec fn variable_models(s: Seq<RawInterfaceVariable>) -> Seq<RawVariableModel> {
    s.map_values(|v: RawInterfaceVariable| v@)
}

// ---------------------------------------------------------------------------
// Raw descriptor bindings.
// ---------------------------------------------------------------------------
/// Raw descriptor kind code: undefined.
pub const RAW_KIND_UNDEFINED: u32 = 0;

/// Raw descriptor kind code: sampler.
pub const RAW_KIND_SAMPLER: u32 = 1;

/// Raw descriptor kind code: combined image and sampler.
pub const RAW_KIND_COMBINED_IMAGE_SAMPLER: u32 = 2;

/// Raw descriptor kind code: sampled image.
pub const RAW_KIND_SAMPLED_IMAGE: u32 = 3;

/// Raw descriptor kind code: storage image.
pub const RAW_KIND_STORAGE_IMAGE: u32 = 4;

/// Raw descriptor kind code: uniform texel buffer.
pub const RAW_KIND_UNIFORM_TEXEL_BUFFER: u32 = 5;

/// Raw descriptor kind code: storage texel buffer.
pub const RAW_KIND_STORAGE_TEXEL_BUFFER: u32 = 6;

/// Raw descriptor kind code: uniform buffer.
pub const RAW_KIND_UNIFORM_BUFFER: u32 = 7;

/// Raw descriptor kind code: storage buffer.
pub const RAW_KIND_STORAGE_BUFFER: u32 = 8;

/// Raw descriptor kind code: dynamic uniform buffer.
pub const RAW_KIND_UNIFORM_BUFFER_DYNAMIC: u32 = 9;

/// Raw descriptor kind code: dynamic storage buffer.
pub const RAW_KIND_STORAGE_BUFFER_DYNAMIC: u32 = 10;

/// Raw descriptor kind code: input attachment.
pub const RAW_KIND_INPUT_ATTACHMENT: u32 = 11;

/// Raw descriptor kind code: acceleration structure (unsupported here).
pub const RAW_KIND_ACCELERATION_STRUCTURE: u32 = 12;

/// A descriptor binding as reflected from bytecode, before conversion
/// into a canonical binding.
#[derive(Clone, Debug, PartialEq)]
pub struct RawDescriptorBinding {
    /// Index of the descriptor set the binding belongs to.
    pub set: u32,
    /// Binding index within its descriptor set.
    pub binding: u32,
    /// Weakly-typed descriptor kind code (one of the `RAW_KIND_*` values
    /// when the module is well-formed).
    pub kind: u32,
    /// Element count of the binding.
    pub count: u32,
    /// Binding name; possibly empty.
    pub name: String,
}

/// Mathematical model of a [`RawDescriptorBinding`].
#[verifier::ext_equal]
pub struct RawBindingModel {
    /// Index of the descriptor set the binding belongs to.
    pub set: u32,
    /// Binding index within its descriptor set.
    pub binding: u32,
    /// Weakly-typed descriptor kind code.
    pub kind: u32,
    /// Element count of the binding.
    pub count: u32,
    /// Model of the name.
    pub name: Seq<char>,
}

impl View for RawDescriptorBinding {
    type V = RawBindingModel;

    open spec fn view(&self) -> RawBindingModel {
        RawBindingModel {
            set: self.set,
            binding: self.binding,
            kind: self.kind,
            count: self.count,
            name: self.name@,
        }
    }
}

/// Models of a sequence of raw descriptor bindings.
pub open spec fn binding_models(s: Seq<RawDescriptorBinding>) -> Seq<RawBindingModel> {
    s.map_values(|b: RawDescriptorBinding| b@)
}

/// Models of a sequence of raw descriptor sets (the set index is the
/// position in the sequence).
pub open spec fn set_models(s: Seq<Vec<RawDescriptorBinding>>) -> Seq<Seq<RawBindingModel>> {
    s.map_values(|v: Vec<RawDescriptorBinding>| binding_models(v@))
}

// ---------------------------------------------------------------------------
// Raw push-constant blocks.
// ---------------------------------------------------------------------------
/// A push-constant block as reflected from bytecode: a byte offset and a
/// byte length.
#[derive(Clone, Copy, Debug, PartialEq, Eq, Structural)]
pub struct RawPushConstant {
    /// Byte offset of the block.
    pub offset: u32,
    /// Byte length of the block.
    pub size: u32,
}

// ---------------------------------------------------------------------------
// Errors.
// ---------------------------------------------------------------------------
/// Which reflection enumeration could not be completed.
#[derive(Clone, Copy, Debug, PartialEq, Eq, Structural)]
pub enum EnumerationKind {
    /// Enumerating input variables failed.
    InputVariables,
    /// Enumerating output variables failed.
    OutputVariables,
    /// Enumerating descriptor sets failed.
    DescriptorSets,
    /// Enumerating push-constant blocks failed.
    PushConstantBlocks,
}

/// A numeric shape that format mapping cannot represent.
#[derive(Clone, Copy, Debug, PartialEq, Eq, Structural)]
pub enum FormatError {
    /// Neither the integer nor the float flag is set, or the signedness is
    /// not 0 or 1.
    UnsupportedType,
    /// The scalar bit width has no entry in the format table.
    UnsupportedWidth,
    /// The vector component count has no sibling in the format table.
    UnsupportedComponentCount,
}

/// A raw binding that cannot be converted into a canonical one.
#[derive(Clone, Copy, Debug, PartialEq, Eq, Structural)]
pub enum ConvertError {
    /// The raw descriptor kind code is outside the closed table of
    /// supported resource kinds; the code is carried for diagnosis.
    UnsupportedDescriptorKind(u32),
}

/// Everything that can go wrong while reflecting one shader.
#[derive(Clone, Debug, PartialEq, Eq)]
pub enum ReflectError {
    /// The input is empty, not a multiple of the 4-byte word size, or not
    /// parseable as a bytecode module.
    InvalidBytecode,
    /// One reflection enumeration failed on its own; carries which one
    /// and the reflector's opaque message. The bundled reflection library
    /// parses and enumerates in a single step and reports unparseable
    /// modules as [`ReflectError::InvalidBytecode`], so this arises only
    /// with a reflector that enumerates each category separately.
    EnumerationFailed(EnumerationKind, String),
    /// An interface variable carries no type descriptor, so no element
    /// format can be derived for it.
    MissingTypeDescription,
    /// Expanding an array variable would push a location past the
    /// representable index range.
    LocationOutOfRange,
    /// Format mapping failed for an interface variable.
    Format(FormatError),
    /// Converting a raw descriptor binding failed.
    Convert(ConvertError),
}

/// A [`ReflectError`] stripped of the opaque message text, so that error
/// outcomes can be pinned down in specifications.
#[derive(Clone, Copy, Debug, PartialEq, Eq, Structural)]
pub enum ReflectErrorKind {
    /// See [`ReflectError::InvalidBytecode`].
    InvalidBytecode,
    /// See [`ReflectError::EnumerationFailed`].
    EnumerationFailed(EnumerationKind),
    /// See [`ReflectError::MissingTypeDescription`].
    MissingTypeDescription,
    /// See [`ReflectError::LocationOutOfRange`].
    LocationOutOfRange,
    /// See [`ReflectError::Format`].
    Format(FormatError),
    /// See [`ReflectError::Convert`].
    Convert(ConvertError),
}

/// The kind of a reflection error, forgetting any opaque message.
pub open spec fn error_kind(e: ReflectError) -> ReflectErrorKind {
    match e {
        ReflectError::InvalidBytecode => ReflectErrorKind::InvalidBytecode,
        ReflectError::EnumerationFailed(k, _) => ReflectErrorKind::EnumerationFailed(k),
        ReflectError::MissingTypeDescription => ReflectErrorKind::MissingTypeDescription,
        ReflectError::LocationOutOfRange => ReflectErrorKind::LocationOutOfRange,
        ReflectError::Format(f) => ReflectErrorKind::Format(f),
        ReflectError::Convert(c) => ReflectErrorKind::Convert(c),
    }
}

} // verus!
