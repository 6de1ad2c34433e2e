//! The bytecode reflector: parsing compiled shader bytecode through the
//! `spirq` reflection library and converting the weakly-typed records it
//! reports into a canonical per-stage [`SpirvShaderDescription`].
//!
//! One trusted wrapper makes the single call into the reflection library
//! and reduces what it reports to plain records; the named specification
//! function pins that outcome to the bytes alone, which is what makes
//! reflection provably deterministic. Everything after the call is
//! verified conversion.

use crate::attributes::{attributes_spec, build_attributes, VertexAttribute};
use crate::binding::{
    convert_sets, convert_sets_spec, group_bindings, grouped_models, CanonicalBinding,
};
use crate::merge::{set_views, PushConstantRange};
use crate::scan::{module_words, scan_ok, scan_stream};
use crate::types::{
    binding_models, error_kind, variable_models, RawBindingModel, RawDescriptorBinding,
    RawInterfaceVariable, RawPushConstant, RawTypeDescriptor,
    RawVariableModel, ReflectError, ReflectErrorKind, EXEC_MODEL_FRAGMENT, EXEC_MODEL_GEOMETRY,
    EXEC_MODEL_GL_COMPUTE, EXEC_MODEL_TESSELLATION_CONTROL, EXEC_MODEL_TESSELLATION_EVALUATION,
    EXEC_MODEL_VERTEX, STAGE_COMPUTE, STAGE_DOMAIN, STAGE_FRAGMENT, STAGE_GEOMETRY, STAGE_HULL,
    STAGE_VERTEX, TYPE_FLAG_FLOAT, TYPE_FLAG_INT,
};
use spirq::entry_point::EntryPoint as SpqEntryPoint;
use spirq::ty::DescriptorType as SpqDescriptorType;
use spirq::ty::ScalarType as SpqScalarType;
use spirq::ty::Type as SpqType;
use spirq::var::Variable as SpqVariable;
use vstd::prelude::*;

verus! {

/// Verus declaration of the reflection library's entry-point record; the
/// value is opaque to verification and only handled by the trusted
/// reduction helpers below.
#[verifier::external_type_specification]
#[verifier::external_body]
pub struct ExEntryPoint(SpqEntryPoint);

/// Verus declaration of the reflection library's type record.
#[verifier::external_type_specification]
#[verifier::external_body]
pub struct ExType(SpqType);

/// Verus declaration of the reflection library's descriptor-type record.
#[verifier::external_type_specification]
#[verifier::external_body]
pub struct ExDescriptorType(SpqDescriptorType);

/// Verus declaration of the reflection library's variable record.
#[verifier::external_type_specification]
#[verifier::external_body]
pub struct ExVariable(SpqVariable);

/// Everything this crate reads out of one parsed module: the entry
/// point's execution-model code and the raw interface records, flat and
/// in reflection order.
#[verifier::ext_equal]
pub struct ModuleModel {
    /// Execution-model code of the module's entry point.
    pub stage: u32,
    /// Raw input variables.
    pub inputs: Seq<RawVariableModel>,
    /// Raw output variables.
    pub outputs: Seq<RawVariableModel>,
    /// Raw descriptor bindings, each carrying its set index.
    pub bindings: Seq<RawBindingModel>,
    /// Raw push-constant blocks.
    pub pushes: Seq<RawPushConstant>,
}

/// The raw records one reflection of a module yields.
pub struct RawShaderModule {
    /// Execution-model code of the module's entry point, or `u32::MAX`
    /// for a module that declares no entry point.
    pub stage: u32,
    /// Raw input variables, in reflection order.
    pub inputs: Vec<RawInterfaceVariable>,
    /// Raw output variables, in reflection order.
    pub outputs: Vec<RawInterfaceVariable>,
    /// Raw descriptor bindings, flat, each carrying its set index.
    pub bindings: Vec<RawDescriptorBinding>,
    /// Raw push-constant blocks.
    pub pushes: Vec<RawPushConstant>,
}

impl View for RawShaderModule {
    type V = ModuleModel;

    open spec fn view(&self) -> ModuleModel {
        ModuleModel {
            stage: self.stage,
            inputs: variable_models(self.inputs@),
            outputs: variable_models(self.outputs@),
            bindings: binding_models(self.bindings@),
            pushes: self.pushes@,
        }
    }
}

/// What parsing a byte sequence yields: `None` when the bytes do not
/// parse as a bytecode module, otherwise the module's raw records.
/// Parsing is a pure function of the bytes, which this name makes
/// available to specifications. A module of this core declares exactly
/// one entry point; should one declare several, the reflection library's
/// own enumeration order decides which is read.
pub uninterp spec fn spirv_module_model(bytes: Seq<u8>) -> Option<ModuleModel>;

/// Peels array layers off a type, collecting the dimension extents (a
/// length only known at runtime becomes extent 0), down to the element
/// type.
#[verifier::external_body]
fn peel_dims<'a>(ty: &'a SpqType) -> (r: (Vec<u32>, &'a SpqType))
{
    let mut dims: Vec<u32> = Vec::new();
    let mut t = ty;
    while let SpqType::Array(a) = t {
        dims.push(a.nelement.unwrap_or(0));
        t = &a.element_ty;
    }
    (dims, t)
}

/// The numeric traits of a scalar or vector type; any other type — a
/// matrix among them, which is never silently collapsed into its column
/// format — yields a descriptor with no numeric flag set, which the
/// format mapper then rejects as an unsupported type.
#[verifier::external_body]
fn numeric_of(ty: &SpqType) -> (r: RawTypeDescriptor)
{
    let (scalar, n) = match ty {
        SpqType::Scalar(s) => (Some(s), 1),
        SpqType::Vector(v) => (Some(&v.scalar_ty), v.nscalar),
        _ => (None, 0),
    };
    match scalar {
        Some(SpqScalarType::Integer { bits, is_signed }) => RawTypeDescriptor {
            flags: TYPE_FLAG_INT, signedness: *is_signed as u32, width: *bits, components: n },
        Some(SpqScalarType::Float { bits }) => RawTypeDescriptor {
            flags: TYPE_FLAG_FLOAT, signedness: 0, width: *bits, components: n },
        None | Some(_) => RawTypeDescriptor { flags: 0, signedness: 0, width: 0, components: n },
    }
}

/// The raw descriptor kind code for the reflection library's descriptor
/// type, matching the `RAW_KIND_*` constants: the closed kind table is
/// keyed from 1, with 0 left for an undefined kind, so each code is one
/// above the graphics API's descriptor-type value. The library reports
/// no dynamic-offset buffer kinds, so those codes never come from here.
#[verifier::external_body]
fn kind_code(t: &SpqDescriptorType) -> (r: u32)
{
    match t {
        SpqDescriptorType::Sampler() => 1,
        SpqDescriptorType::CombinedImageSampler() => 2,
        SpqDescriptorType::SampledImage() => 3,
        SpqDescriptorType::StorageImage(_) => 4,
        SpqDescriptorType::UniformTexelBuffer() => 5,
        SpqDescriptorType::StorageTexelBuffer(_) => 6,
        SpqDescriptorType::UniformBuffer() => 7,
        SpqDescriptorType::StorageBuffer(_) => 8,
        SpqDescriptorType::InputAttachment(_) => 11,
        SpqDescriptorType::AccelStruct() => 12,
    }
}

/// The execution-model code of the first entry point, or `u32::MAX` for
/// a module that declares none.
#[verifier::external_body]
fn stage_of(eps: &Vec<SpqEntryPoint>) -> (r: u32)
{
    match eps.first() {
        Some(ep) => ep.exec_model as u32,
        None => u32::MAX,
    }
}

/// The first entry point's variables, or none for a module without entry
/// points.
#[verifier::external_body]
fn vars_of(eps: &Vec<SpqEntryPoint>) -> (r: &[SpqVariable])
{
    eps.first().map(|ep| ep.vars.as_slice()).unwrap_or(&[])
}

/// The first entry point's input variables, reduced to name, location,
/// array dimensions and numeric type traits.
#[verifier::external_body]
fn inputs_of(eps: &Vec<SpqEntryPoint>) -> (r: Vec<RawInterfaceVariable>)
{
    let mut out = Vec::new();
    for v in vars_of(eps) {
        if let SpqVariable::Input { name, location, ty } = v {
            let (dims, t) = peel_dims(ty);
            out.push(RawInterfaceVariable { name: name.clone().unwrap_or_default(),
                location: location.loc(), dims, ty: Some(numeric_of(t)) });
        }
    }
    out
}

/// The first entry point's output variables, reduced like the inputs.
#[verifier::external_body]
fn outputs_of(eps: &Vec<SpqEntryPoint>) -> (r: Vec<RawInterfaceVariable>)
{
    let mut out = Vec::new();
    for v in vars_of(eps) {
        if let SpqVariable::Output { name, location, ty } = v {
            let (dims, t) = peel_dims(ty);
            out.push(RawInterfaceVariable { name: name.clone().unwrap_or_default(),
                location: location.loc(), dims, ty: Some(numeric_of(t)) });
        }
    }
    out
}

/// The first entry point's descriptor bindings, flat, each reduced to its
/// set index, binding index, kind code, binding count and name.
#[verifier::external_body]
fn bindings_of(eps: &Vec<SpqEntryPoint>) -> (r: Vec<RawDescriptorBinding>)
{
    let mut out = Vec::new();
    for v in vars_of(eps) {
        if let SpqVariable::Descriptor { name, desc_bind, desc_ty, nbind, .. } = v {
            out.push(RawDescriptorBinding { set: desc_bind.set(), binding: desc_bind.bind(),
                kind: kind_code(desc_ty), count: *nbind, name: name.clone().unwrap_or_default() });
        }
    }
    out
}

/// The first entry point's push-constant blocks, each reduced to a byte
/// offset (the block itself starts at 0) and the block's minimal byte
/// size, saturated into the 32-bit range.
#[verifier::external_body]
fn pushes_of(eps: &Vec<SpqEntryPoint>) -> (r: Vec<RawPushConstant>)
{
    let mut out = Vec::new();
    for v in vars_of(eps) {
        if let SpqVariable::PushConstant { ty, .. } = v {
            let size = u32::try_from(ty.min_nbyte().unwrap_or(0)).unwrap_or(u32::MAX);
            out.push(RawPushConstant { offset: 0, size });
        }
    }
    out
}

/// Relies on `spirq::ReflectConfig::reflect` (with every declared
/// resource reported, used or not): parsing compiled bytecode either
/// fails or yields records that are a function of the bytes alone. The
/// reduction helpers above turn the reported entry point into plain
/// records. The precondition keeps out the inputs the library does not
/// answer with a result: it indexes past the five header words, reads
/// the first byte to pick the byte order, aborts on opcodes outside its
/// decoder's table, computes specialization constants with unchecked
/// arithmetic, and resolves access-chain bases with a loop that only
/// terminates when the references run backward — all of which the
/// verified instruction-stream scan of [`crate::scan`] rules out.
#[verifier::external_body]
fn reflect_module(data: &[u8]) -> (r: Result<RawShaderModule, String>)
    requires
        data@.len() % 4 == 0,
        data@.len() >= 20,
        data@[0] == 0x03 || data@[0] == 0x07,
        scan_ok(module_words(data@, data@[0] == 0x03).skip(5)),
    ensures
        (r matches Ok(m) ==> spirv_module_model(data@) == Some(m@)),
        (r is Err ==> spirv_module_model(data@) is None),
{
    match spirq::ReflectConfig::new().spv(data).ref_all_rscs(true).reflect() {
        Ok(eps) => Ok(RawShaderModule {
            stage: stage_of(&eps),
            inputs: inputs_of(&eps),
            outputs: outputs_of(&eps),
            bindings: bindings_of(&eps),
            pushes: pushes_of(&eps),
        }),
        Err(e) => Err(e.to_string()),
    }
}

// ---------------------------------------------------------------------------
// Stage conversion.
// ---------------------------------------------------------------------------
/// The canonical stage mask for an execution-model code: each of the six
/// supported codes maps to its canonical stage bit, and unsupported codes
/// are dropped, since a module declares exactly one entry stage.
pub open spec fn convert_stage_spec(raw: u32) -> u32 {
    if raw == EXEC_MODEL_VERTEX {
        STAGE_VERTEX
    } else if raw == EXEC_MODEL_TESSELLATION_CONTROL {
        STAGE_HULL
    } else if raw == EXEC_MODEL_TESSELLATION_EVALUATION {
        STAGE_DOMAIN
    } else if raw == EXEC_MODEL_GEOMETRY {
        STAGE_GEOMETRY
    } else if raw == EXEC_MODEL_FRAGMENT {
        STAGE_FRAGMENT
    } else if raw == EXEC_MODEL_GL_COMPUTE {
        STAGE_COMPUTE
    } else {
        0
    }
}

/// Converts an execution-model code into the canonical stage mask,
/// dropping unsupported codes.
pub fn convert_stage(raw: u32) -> (r: u32)
    ensures
        r == convert_stage_spec(raw),
{
    if raw == EXEC_MODEL_VERTEX {
        STAGE_VERTEX
    } else if raw == EXEC_MODEL_TESSELLATION_CONTROL {
        STAGE_HULL
    } else if raw == EXEC_MODEL_TESSELLATION_EVALUATION {
        STAGE_DOMAIN
    } else if raw == EXEC_MODEL_GEOMETRY {
        STAGE_GEOMETRY
    } else if raw == EXEC_MODEL_FRAGMENT {
        STAGE_FRAGMENT
    } else if raw == EXEC_MODEL_GL_COMPUTE {
        STAGE_COMPUTE
    } else {
        0
    }
}

// ---------------------------------------------------------------------------
// Push-constant conversion.
// ---------------------------------------------------------------------------
/// Conversion of one raw push-constant block for the owning stage: the
/// byte offset and byte length are kept as reflected.
pub open spec fn push_constant_spec(stage: u32, p: RawPushConstant) -> PushConstantRange {
    PushConstantRange { stages: stage, offset: p.offset, size: p.size }
}

/// Converts one raw push-constant block into a range owned by the stage
/// with mask `stage`.
pub fn convert_push_constant(stage: u32, p: &RawPushConstant) -> (r: PushConstantRange)
    ensures
        r == push_constant_spec(stage, *p),
{
    PushConstantRange { stages: stage, offset: p.offset, size: p.size }
}

/// Conversion of a whole push-constant block list.
pub open spec fn push_constants_spec(pushes: Seq<RawPushConstant>, stage: u32) -> Seq<
    PushConstantRange,
> {
    pushes.map_values(|p: RawPushConstant| push_constant_spec(stage, p))
}

/// Converts every raw push-constant block for the stage with mask
/// `stage`, in order.
pub fn convert_push_constants(pushes: &Vec<RawPushConstant>, stage: u32) -> (r: Vec<
    PushConstantRange,
>)
    ensures
        r@ == push_constants_spec(pushes@, stage),
{
    let mut out: Vec<PushConstantRange> = Vec::new();
    let mut i: usize = 0;
    while i < pushes.len()
        invariant
            0 <= i <= pushes@.len(),
            out@ =~= push_constants_spec(pushes@.subrange(0, i as int), stage),
        decreases pushes@.len() - i,
    {
        out.push(convert_push_constant(stage, &pushes[i]));
        proof {
            assert(pushes@.subrange(0, i as int).push(pushes@[i as int]) =~= pushes@.subrange(
                0,
                i as int + 1,
            ));
        }
        i += 1;
    }
    proof {
        assert(pushes@.subrange(0, pushes@.len() as int) =~= pushes@);
    }
    out
}

// ---------------------------------------------------------------------------
// The per-stage description.
// ---------------------------------------------------------------------------
/// The reflected interface of one shader stage: ordered attributes,
/// positional descriptor sets, the single-stage mask, push-constant
/// ranges, and the raw bytecode retained for module creation.
#[derive(Clone, Debug, PartialEq)]
pub struct SpirvShaderDescription {
    /// Output attributes, in reflection order.
    pub output_attributes: Vec<VertexAttribute>,
    /// Input attributes, in reflection order.
    pub input_attributes: Vec<VertexAttribute>,
    /// Descriptor sets, positionally; every binding carries this stage's
    /// mask.
    pub descriptor_sets: Vec<Vec<CanonicalBinding>>,
    /// Stage mask of this shader; a single stage bit at reflection time.
    pub stage_flag: u32,
    /// Push-constant ranges of this stage.
    pub push_constants: Vec<PushConstantRange>,
    /// Raw shader bytecode.
    pub spirv: Vec<u8>,
}

/// Mathematical model of a [`SpirvShaderDescription`].
#[verifier::ext_equal]
pub struct DescriptionModel {
    /// Models of the output attributes.
    pub outputs: Seq<VertexAttribute>,
    /// Models of the input attributes.
    pub inputs: Seq<VertexAttribute>,
    /// Models of the descriptor sets.
    pub sets: Seq<Seq<CanonicalBinding>>,
    /// Stage mask.
    pub stage: u32,
    /// Models of the push-constant ranges.
    pub pushes: Seq<PushConstantRange>,
    /// The raw bytecode.
    pub spirv: Seq<u8>,
}

impl View for SpirvShaderDescription {
    type V = DescriptionModel;

    open spec fn view(&self) -> DescriptionModel {
        DescriptionModel {
            outputs: self.output_attributes@,
            inputs: self.input_attributes@,
            sets: set_views(self.descriptor_sets@),
            stage: self.stage_flag,
            pushes: self.push_constants@,
            spirv: self.spirv@,
        }
    }
}

/// The description a module's raw records convert to, or the first error
/// of the conversion pipeline: attribute building for inputs, then for
/// outputs, then binding conversion of the grouped descriptor sets.
pub open spec fn description_model_of(bytes: Seq<u8>, mm: ModuleModel) -> Result<
    DescriptionModel,
    ReflectErrorKind,
> {
    let stage = convert_stage_spec(mm.stage);
    match attributes_spec(mm.inputs) {
        Err(e) => Err(error_kind(e)),
        Ok(ins) => match attributes_spec(mm.outputs) {
            Err(e) => Err(error_kind(e)),
            Ok(outs) => match convert_sets_spec(grouped_models(mm.bindings), stage) {
                Err(ce) => Err(ReflectErrorKind::Convert(ce)),
                Ok(sets) => Ok(
                    DescriptionModel {
                        outputs: outs,
                        inputs: ins,
                        sets,
                        stage,
                        pushes: push_constants_spec(mm.pushes, stage),
                        spirv: bytes,
                    },
                ),
            },
        },
    }
}

/// Whether a byte sequence is long enough for the module header and
/// starts with the format's magic number, in little-endian or big-endian
/// byte order.
pub open spec fn valid_header(bytes: Seq<u8>) -> bool {
    bytes.len() >= 20 && ((bytes[0] == 0x03 && bytes[1] == 0x02 && bytes[2] == 0x23 && bytes[3]
        == 0x07) || (bytes[0] == 0x07 && bytes[1] == 0x23 && bytes[2] == 0x02 && bytes[3] == 0x03))
}

/// Whether the byte sequence's instruction stream passes the verified
/// pre-scan, read in the byte order its first byte announces.
pub open spec fn stream_scanned(bytes: Seq<u8>) -> bool {
    scan_ok(module_words(bytes, bytes[0] == 0x03).skip(5))
}

/// What reflecting a byte sequence yields: empty or misaligned input,
/// input without the module header's magic number, an instruction stream
/// the pre-scan rejects, and unparseable bytes are invalid; otherwise the
/// parsed module's records are converted. The outcome is a function of
/// the bytes alone.
pub open spec fn reflect_model(bytes: Seq<u8>) -> Result<DescriptionModel, ReflectErrorKind> {
    if bytes.len() == 0 || bytes.len() % 4 != 0 || !valid_header(bytes) || !stream_scanned(bytes) {
        Err(ReflectErrorKind::InvalidBytecode)
    } else {
        match spirv_module_model(bytes) {
            None => Err(ReflectErrorKind::InvalidBytecode),
            Some(mm) => description_model_of(bytes, mm),
        }
    }
}

/// Reflection is deterministic: the reflected outcome is pinned to a
/// function of the bytecode bytes alone, so reflecting identical byte
/// sequences yields identical descriptions, and failures of identical
/// byte sequences have identical kinds.
pub proof fn lemma_reflect_deterministic(b1: Seq<u8>, b2: Seq<u8>)
    requires
        b1 == b2,
    ensures
        reflect_model(b1) == reflect_model(b2),
{
}

impl SpirvShaderDescription {
    /// Creates a reflection instance based on the provided bytecode.
    /// The input must be a non-empty byte sequence whose length is a
    /// multiple of the 4-byte word size, must parse as a module, and all
    /// of its records must convert; otherwise the first failure is
    /// reported.
    pub fn from_bytes(data: &[u8]) -> (r: Result<Self, ReflectError>)
        ensures
            (r matches Ok(d) ==> reflect_model(data@) == Ok::<DescriptionModel, ReflectErrorKind>(
                d@,
            )),
            (r matches Err(e) ==> reflect_model(data@) == Err::<
                DescriptionModel,
                ReflectErrorKind,
            >(error_kind(e))),
    {
        if data.len() == 0 || data.len() % 4 != 0 || data.len() < 20 {
            return Err(ReflectError::InvalidBytecode);
        }
        let little = *vstd::slice::slice_index_get(data, 0) == 0x03
            && *vstd::slice::slice_index_get(data, 1) == 0x02
            && *vstd::slice::slice_index_get(data, 2) == 0x23
            && *vstd::slice::slice_index_get(data, 3) == 0x07;
        let big = *vstd::slice::slice_index_get(data, 0) == 0x07
            && *vstd::slice::slice_index_get(data, 1) == 0x23
            && *vstd::slice::slice_index_get(data, 2) == 0x02
            && *vstd::slice::slice_index_get(data, 3) == 0x03;
        if !little && !big {
            return Err(ReflectError::InvalidBytecode);
        }
        if !scan_stream(data, little) {
            return Err(ReflectError::InvalidBytecode);
        }
        let raw = match reflect_module(data) {
            Ok(m) => m,
            Err(_) => {
                return Err(ReflectError::InvalidBytecode);
            },
        };
        let stage = convert_stage(raw.stage);
        let input_attributes = match build_attributes(&raw.inputs) {
            Ok(v) => v,
            Err(e) => {
                return Err(e);
            },
        };
        let output_attributes = match build_attributes(&raw.outputs) {
            Ok(v) => v,
            Err(e) => {
                return Err(e);
            },
        };
        let grouped = group_bindings(&raw.bindings);
        let descriptor_sets = match convert_sets(&grouped, stage) {
            Ok(v) => v,
            Err(ce) => {
                return Err(ReflectError::Convert(ce));
            },
        };
        let push_constants = convert_push_constants(&raw.pushes, stage);
        let spirv = vstd::slice::slice_to_vec(data);
        let r = SpirvShaderDescription {
            output_attributes,
            input_attributes,
            descriptor_sets,
            stage_flag: stage,
            push_constants,
            spirv,
        };
        proof {
            assert(reflect_model(data@) matches Ok(m) && r@ =~= m);
        }
        Ok(r)
    }

    /// The raw bytecode this description was reflected from.
    pub fn spirv(&self) -> (r: &Vec<u8>)
        ensures
            r@ == self@.spirv,
    {
        &self.spirv
    }
}

} // verus!
