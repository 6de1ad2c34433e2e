//! Binding conversion and comparison: mapping raw descriptor bindings into
//! canonical resource bindings, and the three-way classification used by
//! the layout merger to tell shared bindings from authoring conflicts.

use crate::types::{
    binding_models, ConvertError, RawBindingModel, RawDescriptorBinding, set_models,
    RAW_KIND_COMBINED_IMAGE_SAMPLER, RAW_KIND_INPUT_ATTACHMENT, RAW_KIND_SAMPLED_IMAGE,
    RAW_KIND_SAMPLER, RAW_KIND_STORAGE_BUFFER, RAW_KIND_STORAGE_BUFFER_DYNAMIC,
    RAW_KIND_STORAGE_IMAGE, RAW_KIND_STORAGE_TEXEL_BUFFER, RAW_KIND_UNIFORM_BUFFER,
    RAW_KIND_UNIFORM_BUFFER_DYNAMIC, RAW_KIND_UNIFORM_TEXEL_BUFFER,
};
use vstd::prelude::*;

verus! {

/// The closed table of resource kinds a canonical binding can have.
#[derive(Clone, Copy, Debug, PartialEq, Eq, Structural)]
pub enum ResourceKind {
    /// A standalone sampler.
    Sampler,
    /// A combined image and sampler.
    CombinedImageSampler,
    /// A sampled image.
    SampledImage,
    /// A storage image.
    StorageImage,
    /// A uniform texel buffer.
    UniformTexelBuffer,
    /// A storage texel buffer.
    StorageTexelBuffer,
    /// A uniform buffer.
    UniformBuffer,
    /// A storage buffer.
    StorageBuffer,
    /// A uniform buffer with dynamic offset.
    UniformBufferDynamic,
    /// A storage buffer with dynamic offset.
    StorageBufferDynamic,
    /// An input attachment.
    InputAttachment,
}

/// A fully converted resource binding. Merge equality is defined over
/// binding index, element count, immutable-sampler flag and resource kind;
/// the stage mask is widened by merging and the raw binding's name is
/// dropped here, deliberately not part of equality.
#[derive(Clone, Copy, Debug, PartialEq, Eq, Structural)]
pub struct CanonicalBinding {
    /// Binding index within its descriptor set.
    pub binding: u32,
    /// Resource kind.
    pub ty: ResourceKind,
    /// Element count of the binding.
    pub count: u32,
    /// Union of the stage mask bits of every stage the binding is visible
    /// to.
    pub stage_flags: u32,
    /// Whether the binding uses immutable samplers. The reflected data
    /// exposes no way to detect this, so conversion always leaves it
    /// `false`; the field still takes part in merge equality.
    pub immutable_samplers: bool,
}

/// The canonical resource kind for a raw descriptor kind code, if the code
/// is inside the closed table.
pub open spec fn descriptor_type_of(kind: u32) -> Option<ResourceKind> {
    if kind == RAW_KIND_SAMPLER {
        Some(ResourceKind::Sampler)
    } else if kind == RAW_KIND_COMBINED_IMAGE_SAMPLER {
        Some(ResourceKind::CombinedImageSampler)
    } else if kind == RAW_KIND_SAMPLED_IMAGE {
        Some(ResourceKind::SampledImage)
    } else if kind == RAW_KIND_STORAGE_IMAGE {
        Some(ResourceKind::StorageImage)
    } else if kind == RAW_KIND_UNIFORM_TEXEL_BUFFER {
        Some(ResourceKind::UniformTexelBuffer)
    } else if kind == RAW_KIND_STORAGE_TEXEL_BUFFER {
        Some(ResourceKind::StorageTexelBuffer)
    } else if kind == RAW_KIND_UNIFORM_BUFFER {
        Some(ResourceKind::UniformBuffer)
    } else if kind == RAW_KIND_STORAGE_BUFFER {
        Some(ResourceKind::StorageBuffer)
    } else if kind == RAW_KIND_UNIFORM_BUFFER_DYNAMIC {
        Some(ResourceKind::UniformBufferDynamic)
    } else if kind == RAW_KIND_STORAGE_BUFFER_DYNAMIC {
        Some(ResourceKind::StorageBufferDynamic)
    } else if kind == RAW_KIND_INPUT_ATTACHMENT {
        Some(ResourceKind::InputAttachment)
    } else {
        None
    }
}

/// Conversion of one raw binding for a stage: the closed kind table plus
/// the owning stage's mask, with the immutable-sampler flag fixed to
/// `false`.
pub open spec fn convert_binding_spec(b: RawBindingModel, stage: u32) -> Result<
    CanonicalBinding,
    ConvertError,
> {
    match descriptor_type_of(b.kind) {
        None => Err(ConvertError::UnsupportedDescriptorKind(b.kind)),
        Some(ty) => Ok(
            CanonicalBinding {
                binding: b.binding,
                ty,
                count: b.count,
                stage_flags: stage,
                immutable_samplers: false,
            },
        ),
    }
}

/// Converts one raw descriptor binding into a canonical binding owned by
/// the stage with mask `stage`, or reports a kind code outside the closed
/// table.
pub fn convert_binding(b: &RawDescriptorBinding, stage: u32) -> (r: Result<
    CanonicalBinding,
    ConvertError,
>)
    ensures
        r == convert_binding_spec(b@, stage),
{
    let ty = if b.kind == RAW_KIND_SAMPLER {
        ResourceKind::Sampler
    } else if b.kind == RAW_KIND_COMBINED_IMAGE_SAMPLER {
        ResourceKind::CombinedImageSampler
    } else if b.kind == RAW_KIND_SAMPLED_IMAGE {
        ResourceKind::SampledImage
    } else if b.kind == RAW_KIND_STORAGE_IMAGE {
        ResourceKind::StorageImage
    } else if b.kind == RAW_KIND_UNIFORM_TEXEL_BUFFER {
        ResourceKind::UniformTexelBuffer
    } else if b.kind == RAW_KIND_STORAGE_TEXEL_BUFFER {
        ResourceKind::StorageTexelBuffer
    } else if b.kind == RAW_KIND_UNIFORM_BUFFER {
        ResourceKind::UniformBuffer
    } else if b.kind == RAW_KIND_STORAGE_BUFFER {
        ResourceKind::StorageBuffer
    } else if b.kind == RAW_KIND_UNIFORM_BUFFER_DYNAMIC {
        ResourceKind::UniformBufferDynamic
    } else if b.kind == RAW_KIND_STORAGE_BUFFER_DYNAMIC {
        ResourceKind::StorageBufferDynamic
    } else if b.kind == RAW_KIND_INPUT_ATTACHMENT {
        ResourceKind::InputAttachment
    } else {
        return Err(ConvertError::UnsupportedDescriptorKind(b.kind));
    };
    Ok(
        CanonicalBinding {
            binding: b.binding,
            ty,
            count: b.count,
            stage_flags: stage,
            immutable_samplers: false,
        },
    )
}

/// Conversion of a whole raw binding list, stopping at the first
/// unconvertible binding.
pub open spec fn convert_bindings_spec(s: Seq<RawBindingModel>, stage: u32) -> Result<
    Seq<CanonicalBinding>,
    ConvertError,
>
    decreases s.len(),
{
    if s.len() == 0 {
        Ok(Seq::empty())
    } else {
        match convert_binding_spec(s[0], stage) {
            Err(e) => Err(e),
            Ok(head) => match convert_bindings_spec(s.skip(1), stage) {
                Err(e) => Err(e),
                Ok(tail) => Ok(seq![head] + tail),
            },
        }
    }
}

/// Converts every binding of one raw descriptor set for the stage with
/// mask `stage`, in order, stopping at the first unconvertible binding.
pub fn convert_bindings(bindings: &Vec<RawDescriptorBinding>, stage: u32) -> (r: Result<
    Vec<CanonicalBinding>,
    ConvertError,
>)
    ensures
        (r matches Ok(v) ==> convert_bindings_spec(binding_models(bindings@), stage) == Ok::<
            Seq<CanonicalBinding>,
            ConvertError,
        >(v@)),
        (r matches Err(e) ==> convert_bindings_spec(binding_models(bindings@), stage) == Err::<
            Seq<CanonicalBinding>,
            ConvertError,
        >(e)),
{
    let ghost models = binding_models(bindings@);
    let mut out: Vec<CanonicalBinding> = Vec::new();
    let mut i: usize = 0;
    proof {
        assert(models.skip(0) =~= models);
        if convert_bindings_spec(models, stage) is Ok {
            let t = convert_bindings_spec(models, stage)->Ok_0;
            assert(Seq::<CanonicalBinding>::empty() + t =~= t);
        }
    }
    while i < bindings.len()
        invariant
            0 <= i <= bindings@.len(),
            models == binding_models(bindings@),
            convert_bindings_spec(models, stage) == (match convert_bindings_spec(
                models.skip(i as int),
                stage,
            ) {
                Ok(t) => Ok::<Seq<CanonicalBinding>, ConvertError>(out@ + t),
                Err(e) => Err::<Seq<CanonicalBinding>, ConvertError>(e),
            }),
        decreases bindings@.len() - i,
    {
        let ghost i0 = i as int;
        proof {
            assert(models.skip(i0)[0] == bindings@[i0]@);
            assert(models.skip(i0).skip(1) =~= models.skip(i0 + 1));
        }
        match convert_binding(&bindings[i], stage) {
            Ok(cb) => {
                let ghost old_out = out@;
                out.push(cb);
                proof {
                    if convert_bindings_spec(models.skip(i0 + 1), stage) is Ok {
                        let t = convert_bindings_spec(models.skip(i0 + 1), stage)->Ok_0;
                        assert(old_out + (seq![cb] + t) =~= out@ + t);
                    }
                }
            },
            Err(e) => {
                return Err(e);
            },
        }
        i += 1;
    }
    proof {
        assert(models.skip(i as int) =~= Seq::<RawBindingModel>::empty());
        assert(out@ + Seq::<CanonicalBinding>::empty() =~= out@);
    }
    Ok(out)
}

/// Conversion of a whole sequence of raw descriptor sets, preserving set
/// order and stopping at the first unconvertible binding.
pub open spec fn convert_sets_spec(s: Seq<Seq<RawBindingModel>>, stage: u32) -> Result<
    Seq<Seq<CanonicalBinding>>,
    ConvertError,
>
    decreases s.len(),
{
    if s.len() == 0 {
        Ok(Seq::empty())
    } else {
        match convert_bindings_spec(s[0], stage) {
            Err(e) => Err(e),
            Ok(head) => match convert_sets_spec(s.skip(1), stage) {
                Err(e) => Err(e),
                Ok(tail) => Ok(seq![head] + tail),
            },
        }
    }
}

/// Converts every raw descriptor set for the stage with mask `stage`,
/// keeping the positional set order.
pub fn convert_sets(sets: &Vec<Vec<RawDescriptorBinding>>, stage: u32) -> (r: Result<
    Vec<Vec<CanonicalBinding>>,
    ConvertError,
>)
    ensures
        (r matches Ok(v) ==> convert_sets_spec(set_models(sets@), stage) == Ok::<
            Seq<Seq<CanonicalBinding>>,
            ConvertError,
        >(v@.map_values(|s: Vec<CanonicalBinding>| s@))),
        (r matches Err(e) ==> convert_sets_spec(set_models(sets@), stage) == Err::<
            Seq<Seq<CanonicalBinding>>,
            ConvertError,
        >(e)),
{
    let ghost models = set_models(sets@);
    let mut out: Vec<Vec<CanonicalBinding>> = Vec::new();
    let mut i: usize = 0;
    proof {
        assert(models.skip(0) =~= models);
        assert(out@.map_values(|s: Vec<CanonicalBinding>| s@) =~= Seq::<
            Seq<CanonicalBinding>,
        >::empty());
        if convert_sets_spec(models, stage) is Ok {
            let t = convert_sets_spec(models, stage)->Ok_0;
            assert(Seq::<Seq<CanonicalBinding>>::empty() + t =~= t);
        }
    }
    while i < sets.len()
        invariant
            0 <= i <= sets@.len(),
            models == set_models(sets@),
            convert_sets_spec(models, stage) == (match convert_sets_spec(
                models.skip(i as int),
                stage,
            ) {
                Ok(t) => Ok::<Seq<Seq<CanonicalBinding>>, ConvertError>(
                    out@.map_values(|s: Vec<CanonicalBinding>| s@) + t,
                ),
                Err(e) => Err::<Seq<Seq<CanonicalBinding>>, ConvertError>(e),
            }),
        decreases sets@.len() - i,
    {
        let ghost i0 = i as int;
        proof {
            assert(models.skip(i0)[0] == binding_models(sets@[i0]@));
            assert(models.skip(i0).skip(1) =~= models.skip(i0 + 1));
        }
        match convert_bindings(&sets[i], stage) {
            Ok(cs) => {
                let ghost old_out = out@.map_values(|s: Vec<CanonicalBinding>| s@);
                out.push(cs);
                proof {
                    assert(out@.map_values(|s: Vec<CanonicalBinding>| s@) =~= old_out + seq![cs@]);
                    if convert_sets_spec(models.skip(i0 + 1), stage) is Ok {
                        let t = convert_sets_spec(models.skip(i0 + 1), stage)->Ok_0;
                        assert(old_out + (seq![cs@] + t) =~= out@.map_values(
                            |s: Vec<CanonicalBinding>| s@,
                        ) + t);
                    }
                }
            },
            Err(e) => {
                return Err(e);
            },
        }
        i += 1;
    }
    proof {
        assert(models.skip(i as int) =~= Seq::<Seq<RawBindingModel>>::empty());
        assert(out@.map_values(|s: Vec<CanonicalBinding>| s@) + Seq::<
            Seq<CanonicalBinding>,
        >::empty() =~= out@.map_values(|s: Vec<CanonicalBinding>| s@));
    }
    Ok(out)
}

// ---------------------------------------------------------------------------
// Grouping flat bindings into positional descriptor sets.
// ---------------------------------------------------------------------------
/// How many descriptor sets a flat binding list spans: one more than the
/// largest set index mentioned, or none at all.
pub open spec fn set_count(bs: Seq<RawBindingModel>) -> int
    decreases bs.len(),
{
    if bs.len() == 0 {
        0
    } else {
        let rest = set_count(bs.drop_last());
        if bs.last().set + 1 > rest {
            bs.last().set + 1
        } else {
            rest
        }
    }
}

/// The bindings declared for set index `s`, in reflection order.
pub open spec fn bindings_in_set(bs: Seq<RawBindingModel>, s: u32) -> Seq<RawBindingModel>
    decreases bs.len(),
{
    if bs.len() == 0 {
        Seq::empty()
    } else {
        let init = bindings_in_set(bs.drop_last(), s);
        if bs.last().set == s {
            init.push(bs.last())
        } else {
            init
        }
    }
}

/// A flat binding list grouped into descriptor sets: the sequence position
/// is the set index, and a set index no binding mentions yields an empty
/// set, keeping later sets at their declared positions.
pub open spec fn grouped_models(bs: Seq<RawBindingModel>) -> Seq<Seq<RawBindingModel>> {
    Seq::new(set_count(bs) as nat, |s: int| bindings_in_set(bs, s as u32))
}

/// Groups a flat binding list into descriptor sets keyed positionally by
/// their set index.
pub fn group_bindings(bindings: &Vec<RawDescriptorBinding>) -> (r: Vec<Vec<RawDescriptorBinding>>)
    ensures
        set_models(r@) == grouped_models(binding_models(bindings@)),
{
    let ghost models = binding_models(bindings@);
    let mut count: u64 = 0;
    let mut i: usize = 0;
    proof {
        assert(models.subrange(0, 0) =~= Seq::<RawBindingModel>::empty());
    }
    while i < bindings.len()
        invariant
            0 <= i <= bindings@.len(),
            models == binding_models(bindings@),
            count == set_count(models.subrange(0, i as int)),
            count <= 0x1_0000_0000u64,
        decreases bindings@.len() - i,
    {
        proof {
            assert(models.subrange(0, i as int + 1).drop_last() =~= models.subrange(0, i as int));
            assert(models.subrange(0, i as int + 1).last() == bindings@[i as int]@);
        }
        let next = bindings[i].set as u64 + 1;
        if next > count {
            count = next;
        }
        i += 1;
    }
    proof {
        assert(models.subrange(0, bindings@.len() as int) =~= models);
    }
    let mut out: Vec<Vec<RawDescriptorBinding>> = Vec::new();
    let mut s: u64 = 0;
    while s < count
        invariant
            0 <= s <= count,
            count <= 0x1_0000_0000u64,
            models == binding_models(bindings@),
            count == set_count(models),
            out@.len() == s,
            forall|t: int|
                0 <= t < s ==> binding_models(#[trigger] out@[t]@) == bindings_in_set(
                    models,
                    t as u32,
                ),
        decreases count - s,
    {
        let mut setv: Vec<RawDescriptorBinding> = Vec::new();
        let mut j: usize = 0;
        proof {
            assert(models.subrange(0, 0) =~= Seq::<RawBindingModel>::empty());
            assert(binding_models(setv@) =~= Seq::<RawBindingModel>::empty());
        }
        while j < bindings.len()
            invariant
                0 <= j <= bindings@.len(),
                s < count,
                count <= 0x1_0000_0000u64,
                count == set_count(binding_models(bindings@)),
                models == binding_models(bindings@),
                binding_models(setv@) == bindings_in_set(models.subrange(0, j as int), s as u32),
            decreases bindings@.len() - j,
        {
            proof {
                assert(models.subrange(0, j as int + 1).drop_last() =~= models.subrange(
                    0,
                    j as int,
                ));
                assert(models.subrange(0, j as int + 1).last() == bindings@[j as int]@);
            }
            let b = &bindings[j];
            if b.set as u64 == s {
                let ghost old_models = binding_models(setv@);
                setv.push(
                    RawDescriptorBinding {
                        set: b.set,
                        binding: b.binding,
                        kind: b.kind,
                        count: b.count,
                        name: b.name.clone(),
                    },
                );
                proof {
                    assert(binding_models(setv@) =~= old_models.push(bindings@[j as int]@));
                }
            }
            j += 1;
        }
        proof {
            assert(models.subrange(0, bindings@.len() as int) =~= models);
        }
        out.push(setv);
        s += 1;
    }
    proof {
        assert(set_models(out@) =~= grouped_models(models));
    }
    out
}

// ---------------------------------------------------------------------------
// Comparison.
// ---------------------------------------------------------------------------
/// The three-way relationship between two bindings of different stages.
/// A boolean would conflate "legitimately shared" with "authoring error";
/// the merger needs all three outcomes.
#[derive(Clone, Copy, Debug, PartialEq, Eq, Structural)]
pub enum Comparison {
    /// Binding index, element count, immutable-sampler flag and resource
    /// kind all match: one copy is kept with a widened stage mask.
    Equal,
    /// The binding index matches but another field differs: the conflict
    /// signal, which aborts a merge.
    SameBindingNonEqual,
    /// Different binding indices: always safe to keep both.
    NotEqual,
}

/// The classification rule: equality is over (binding index, element
/// count, immutable-sampler flag, resource kind); the stage mask never
/// takes part.
pub open spec fn compare_spec(a: CanonicalBinding, b: CanonicalBinding) -> Comparison {
    if a.binding == b.binding {
        if a.count == b.count && a.immutable_samplers == b.immutable_samplers && a.ty == b.ty {
            Comparison::Equal
        } else {
            Comparison::SameBindingNonEqual
        }
    } else {
        Comparison::NotEqual
    }
}

/// Classifies the relationship between two bindings from different
/// stages.
pub fn compare(a: &CanonicalBinding, b: &CanonicalBinding) -> (r: Comparison)
    ensures
        r == compare_spec(*a, *b),
{
    if a.binding == b.binding {
        if a.count == b.count && a.immutable_samplers == b.immutable_samplers && a.ty == b.ty {
            Comparison::Equal
        } else {
            Comparison::SameBindingNonEqual
        }
    } else {
        Comparison::NotEqual
    }
}

/// Comparing any binding against itself yields `Equal`.
pub proof fn lemma_compare_reflexive(a: CanonicalBinding)
    ensures
        compare_spec(a, a) == Comparison::Equal,
{
}

/// Two bindings with different binding indices compare `NotEqual`, no
/// matter how their other fields relate.
pub proof fn lemma_compare_different_index(a: CanonicalBinding, b: CanonicalBinding)
    requires
        a.binding != b.binding,
    ensures
        compare_spec(a, b) == Comparison::NotEqual,
{
}

} // verus!
