//! Layout merging: combining the descriptor sets and push-constant ranges
//! of several per-stage descriptions into one conflict-checked pipeline
//! layout.
//!
//! Bindings are merged per set index. Two bindings that the comparator
//! classifies as equal collapse into one copy whose stage mask is the
//! union of both; a same-index pair that differs in any other field aborts
//! the whole merge, because a layout with an ambiguous binding is unsafe
//! to build a pipeline from.

use crate::attributes::VertexAttribute;
use crate::binding::{compare, compare_spec, CanonicalBinding, Comparison};
use crate::reflect::{DescriptionModel, SpirvShaderDescription};
use crate::types::STAGE_VERTEX;
use vstd::prelude::*;

verus! {

/// A push-constant range: the stages it is visible to, plus a byte offset
/// and byte length.
#[derive(Clone, Copy, Debug, PartialEq, Eq, Structural)]
pub struct PushConstantRange {
    /// Union of the stage mask bits the range is visible to.
    pub stages: u32,
    /// Byte offset of the range.
    pub offset: u32,
    /// Byte length of the range.
    pub size: u32,
}

/// A merged pipeline layout: ordered descriptor sets (each an ordered
/// binding list, the set index being the position) plus the flat
/// concatenation of all stages' push-constant ranges.
#[derive(Clone, Debug, PartialEq)]
pub struct Layout {
    /// Merged descriptor sets.
    pub sets: Vec<Vec<CanonicalBinding>>,
    /// Concatenated push-constant ranges, in stage order, undeduplicated.
    pub push_constants: Vec<PushConstantRange>,
}

/// Mathematical model of a [`Layout`].
#[verifier::ext_equal]
pub struct LayoutModel {
    /// Models of the merged descriptor sets.
    pub sets: Seq<Seq<CanonicalBinding>>,
    /// Models of the push-constant ranges.
    pub pushes: Seq<PushConstantRange>,
}

impl View for Layout {
    type V = LayoutModel;

    open spec fn view(&self) -> LayoutModel {
        LayoutModel {
            sets: self.sets@.map_values(|s: Vec<CanonicalBinding>| s@),
            pushes: self.push_constants@,
        }
    }
}

/// Why a merge failed.
#[derive(Clone, Copy, Debug, PartialEq, Eq, Structural)]
pub enum MergeError {
    /// Two stages disagree about the binding with this index in the set
    /// with this index: a hard stop, not a recoverable per-binding skip.
    BindingConflict {
        /// Index of the descriptor set holding the conflict.
        set_index: usize,
        /// Binding index the stages disagree about.
        binding_index: u32,
    },
    /// Attribute retrieval was requested but no merged stage carries the
    /// vertex stage mask, so no pipeline could be built.
    NoVertexStage,
}

// ---------------------------------------------------------------------------
// Merging two binding lists.
// ---------------------------------------------------------------------------
/// Index of the first binding in `s` with binding index `key`, if any.
pub open spec fn find_binding(s: Seq<CanonicalBinding>, key: u32) -> Option<int>
    decreases s.len(),
{
    if s.len() == 0 {
        None
    } else if s[0].binding == key {
        Some(0)
    } else {
        match find_binding(s.skip(1), key) {
            None => None,
            Some(i) => Some(i + 1),
        }
    }
}

/// `find_binding` agrees with a front-to-back scan: if every index below
/// `j` mismatches, the scan's verdict at `j` is the spec's verdict.
pub proof fn lemma_find_binding_prefix(s: Seq<CanonicalBinding>, key: u32, j: int)
    requires
        0 <= j <= s.len(),
        forall|k: int| 0 <= k < j ==> s[k].binding != key,
        j < s.len() ==> s[j].binding == key,
    ensures
        j < s.len() ==> find_binding(s, key) == Some(j),
        j == s.len() ==> find_binding(s, key) is None,
    decreases s.len(),
{
    if s.len() == 0 {
    } else if j == 0 {
    } else {
        assert(s[0].binding != key);
        assert(forall|k: int| 0 <= k < j - 1 ==> s.skip(1)[k] == s[k + 1]);
        lemma_find_binding_prefix(s.skip(1), key, j - 1);
    }
}

/// Merge of two binding lists, driven by the comparator: bindings of `a`
/// keep their order; an `Equal` partner in `b` is folded into the `a`
/// binding by widening its stage mask and consumed; a same-index partner
/// that is not equal aborts with the conflicting binding index; bindings
/// of `b` no `a` binding matched are appended in their own order.
pub open spec fn merge_bindings_spec(a: Seq<CanonicalBinding>, b: Seq<CanonicalBinding>) -> Result<
    Seq<CanonicalBinding>,
    u32,
>
    decreases a.len(),
{
    if a.len() == 0 {
        Ok(b)
    } else {
        match find_binding(b, a[0].binding) {
            None => match merge_bindings_spec(a.skip(1), b) {
                Err(e) => Err(e),
                Ok(tail) => Ok(seq![a[0]] + tail),
            },
            Some(j) => match compare_spec(a[0], b[j]) {
                Comparison::Equal => {
                    let merged = CanonicalBinding {
                        binding: a[0].binding,
                        ty: a[0].ty,
                        count: a[0].count,
                        stage_flags: a[0].stage_flags | b[j].stage_flags,
                        immutable_samplers: a[0].immutable_samplers,
                    };
                    match merge_bindings_spec(a.skip(1), b.remove(j)) {
                        Err(e) => Err(e),
                        Ok(tail) => Ok(seq![merged] + tail),
                    }
                },
                Comparison::SameBindingNonEqual => Err(a[0].binding),
                Comparison::NotEqual => Err(a[0].binding),
            },
        }
    }
}

/// Index of the first binding in `v` with binding index `key`, if any.
fn find_first(v: &Vec<CanonicalBinding>, key: u32) -> (r: Option<usize>)
    ensures
        (r matches Some(j) ==> find_binding(v@, key) == Some(j as int) && j < v@.len()
            && v@[j as int].binding == key),
        (r is None ==> find_binding(v@, key) is None),
{
    let mut j: usize = 0;
    while j < v.len()
        invariant
            j <= v@.len(),
            forall|k: int| 0 <= k < j ==> v@[k].binding != key,
        decreases v@.len() - j,
    {
        if v[j].binding == key {
            proof {
                lemma_find_binding_prefix(v@, key, j as int);
            }
            return Some(j);
        }
        j += 1;
    }
    proof {
        lemma_find_binding_prefix(v@, key, j as int);
    }
    None
}

/// Merges the binding lists of one set index from two stages, or reports
/// the binding index the stages disagree about.
pub fn merge_bindings(a: &Vec<CanonicalBinding>, b: &Vec<CanonicalBinding>) -> (r: Result<
    Vec<CanonicalBinding>,
    u32,
>)
    ensures
        (r matches Ok(v) ==> merge_bindings_spec(a@, b@) == Ok::<Seq<CanonicalBinding>, u32>(v@)),
        (r matches Err(e) ==> merge_bindings_spec(a@, b@) == Err::<Seq<CanonicalBinding>, u32>(e)),
{
    let mut rest: Vec<CanonicalBinding> = Vec::new();
    let mut j: usize = 0;
    while j < b.len()
        invariant
            j <= b@.len(),
            rest@ =~= b@.subrange(0, j as int),
        decreases b@.len() - j,
    {
        rest.push(b[j]);
        j += 1;
    }
    proof {
        assert(rest@ =~= b@);
    }
    let mut out: Vec<CanonicalBinding> = Vec::new();
    let mut i: usize = 0;
    proof {
        assert(a@.skip(0) =~= a@);
        if merge_bindings_spec(a@, b@) is Ok {
            let t = merge_bindings_spec(a@, b@)->Ok_0;
            assert(Seq::<CanonicalBinding>::empty() + t =~= t);
        }
    }
    while i < a.len()
        invariant
            0 <= i <= a@.len(),
            merge_bindings_spec(a@, b@) == (match merge_bindings_spec(a@.skip(i as int), rest@) {
                Ok(t) => Ok::<Seq<CanonicalBinding>, u32>(out@ + t),
                Err(e) => Err::<Seq<CanonicalBinding>, u32>(e),
            }),
        decreases a@.len() - i,
    {
        let ghost i0 = i as int;
        proof {
            assert(a@.skip(i0)[0] == a@[i0]);
            assert(a@.skip(i0).skip(1) =~= a@.skip(i0 + 1));
        }
        let key = a[i].binding;
        match find_first(&rest, key) {
            None => {
                let ghost old_out = out@;
                out.push(a[i]);
                proof {
                    if merge_bindings_spec(a@.skip(i0 + 1), rest@) is Ok {
                        let t = merge_bindings_spec(a@.skip(i0 + 1), rest@)->Ok_0;
                        assert(old_out + (seq![a@[i0]] + t) =~= out@ + t);
                    }
                }
            },
            Some(jj) => {
                let bj = rest[jj];
                match compare(&a[i], &bj) {
                    Comparison::Equal => {
                        let merged = CanonicalBinding {
                            binding: a[i].binding,
                            ty: a[i].ty,
                            count: a[i].count,
                            stage_flags: a[i].stage_flags | bj.stage_flags,
                            immutable_samplers: a[i].immutable_samplers,
                        };
                        let ghost old_out = out@;
                        let ghost old_rest = rest@;
                        out.push(merged);
                        rest.remove(jj);
                        proof {
                            assert(rest@ == old_rest.remove(jj as int));
                            if merge_bindings_spec(a@.skip(i0 + 1), rest@) is Ok {
                                let t = merge_bindings_spec(a@.skip(i0 + 1), rest@)->Ok_0;
                                assert(old_out + (seq![merged] + t) =~= out@ + t);
                            }
                        }
                    },
                    Comparison::SameBindingNonEqual => {
                        return Err(key);
                    },
                    Comparison::NotEqual => {
                        // Unreachable: the scan only returns a partner
                        // with the same binding index.
                        proof {
                            assert(false);
                        }
                        return Err(key);
                    },
                }
            },
        }
        i += 1;
    }
    proof {
        assert(a@.skip(i as int) =~= Seq::<CanonicalBinding>::empty());
    }
    let mut tail = rest;
    out.append(&mut tail);
    Ok(out)
}

// ---------------------------------------------------------------------------
// Merging two set lists.
// ---------------------------------------------------------------------------
/// Models of a sequence of descriptor sets.
pub open spec fn set_views(s: Seq<Vec<CanonicalBinding>>) -> Seq<Seq<CanonicalBinding>> {
    s.map_values(|v: Vec<CanonicalBinding>| v@)
}

/// The set at index `i`, or the empty set where a stage declares none.
pub open spec fn set_at(s: Seq<Seq<CanonicalBinding>>, i: int) -> Seq<CanonicalBinding> {
    if 0 <= i < s.len() {
        s[i]
    } else {
        Seq::empty()
    }
}

/// How many set indices a pairwise merge walks: the longer of the two
/// set lists.
pub open spec fn pair_count(a: Seq<Seq<CanonicalBinding>>, b: Seq<Seq<CanonicalBinding>>) -> int {
    if a.len() >= b.len() {
        a.len() as int
    } else {
        b.len() as int
    }
}

/// Pairwise merge of the set lists from index `i` on: each index merges
/// the two binding lists at that position (treating a missing set as
/// empty), and the first conflict aborts with its set index.
pub open spec fn merge_sets_from(
    a: Seq<Seq<CanonicalBinding>>,
    b: Seq<Seq<CanonicalBinding>>,
    i: int,
) -> Result<Seq<Seq<CanonicalBinding>>, MergeError>
    decreases pair_count(a, b) - i,
{
    if i < 0 || i >= pair_count(a, b) {
        Ok(Seq::empty())
    } else {
        match merge_bindings_spec(set_at(a, i), set_at(b, i)) {
            Err(bind) => Err(
                MergeError::BindingConflict { set_index: i as usize, binding_index: bind },
            ),
            Ok(s) => match merge_sets_from(a, b, i + 1) {
                Err(e) => Err(e),
                Ok(tail) => Ok(seq![s] + tail),
            },
        }
    }
}

/// Removes empty sets from the tail of a merged set list: an empty
/// resulting set is dropped, not emitted, while interior empty sets stay,
/// since a set's index is its position.
pub open spec fn drop_trailing_empty(s: Seq<Seq<CanonicalBinding>>) -> Seq<Seq<CanonicalBinding>>
    decreases s.len(),
{
    if s.len() > 0 && s[s.len() - 1].len() == 0 {
        drop_trailing_empty(s.drop_last())
    } else {
        s
    }
}

/// Merge of two whole set lists: pairwise by set index, then trailing
/// empty sets are dropped.
pub open spec fn merge_sets_spec(a: Seq<Seq<CanonicalBinding>>, b: Seq<Seq<CanonicalBinding>>)
    -> Result<Seq<Seq<CanonicalBinding>>, MergeError> {
    match merge_sets_from(a, b, 0) {
        Err(e) => Err(e),
        Ok(s) => Ok(drop_trailing_empty(s)),
    }
}

/// Merges two ordered set lists index by index, or reports the first
/// conflicting set and binding index.
pub fn merge_sets(a: &Vec<Vec<CanonicalBinding>>, b: &Vec<Vec<CanonicalBinding>>) -> (r: Result<
    Vec<Vec<CanonicalBinding>>,
    MergeError,
>)
    ensures
        (r matches Ok(v) ==> merge_sets_spec(set_views(a@), set_views(b@)) == Ok::<
            Seq<Seq<CanonicalBinding>>,
            MergeError,
        >(set_views(v@))),
        (r matches Err(e) ==> merge_sets_spec(set_views(a@), set_views(b@)) == Err::<
            Seq<Seq<CanonicalBinding>>,
            MergeError,
        >(e)),
{
    let ghost am = set_views(a@);
    let ghost bm = set_views(b@);
    let max = if a.len() >= b.len() {
        a.len()
    } else {
        b.len()
    };
    let empty_set: Vec<CanonicalBinding> = Vec::new();
    let mut out: Vec<Vec<CanonicalBinding>> = Vec::new();
    let mut i: usize = 0;
    proof {
        if merge_sets_from(am, bm, 0) is Ok {
            let t = merge_sets_from(am, bm, 0)->Ok_0;
            assert(set_views(out@) + t =~= t);
        }
    }
    while i < max
        invariant
            0 <= i <= max,
            max as int == pair_count(am, bm),
            am == set_views(a@),
            bm == set_views(b@),
            empty_set@.len() == 0,
            merge_sets_from(am, bm, 0) == (match merge_sets_from(am, bm, i as int) {
                Ok(t) => Ok::<Seq<Seq<CanonicalBinding>>, MergeError>(set_views(out@) + t),
                Err(e) => Err::<Seq<Seq<CanonicalBinding>>, MergeError>(e),
            }),
        decreases max - i,
    {
        let ghost i0 = i as int;
        let sa: &Vec<CanonicalBinding> = if i < a.len() {
            &a[i]
        } else {
            &empty_set
        };
        let sb: &Vec<CanonicalBinding> = if i < b.len() {
            &b[i]
        } else {
            &empty_set
        };
        proof {
            assert(sa@ =~= set_at(am, i0));
            assert(sb@ =~= set_at(bm, i0));
        }
        match merge_bindings(sa, sb) {
            Ok(ms) => {
                let ghost old_views = set_views(out@);
                let ghost ms_view = ms@;
                out.push(ms);
                proof {
                    assert(set_views(out@) =~= old_views + seq![ms_view]);
                    if merge_sets_from(am, bm, i0 + 1) is Ok {
                        let t = merge_sets_from(am, bm, i0 + 1)->Ok_0;
                        assert(old_views + (seq![ms_view] + t) =~= set_views(out@) + t);
                    }
                }
            },
            Err(bind) => {
                return Err(MergeError::BindingConflict { set_index: i, binding_index: bind });
            },
        }
        i += 1;
    }
    let ghost full = set_views(out@);
    proof {
        assert(merge_sets_from(am, bm, 0) == Ok::<Seq<Seq<CanonicalBinding>>, MergeError>(full))
            by {
            assert(full + Seq::<Seq<CanonicalBinding>>::empty() =~= full);
        }
    }
    while out.len() > 0 && out[out.len() - 1].len() == 0
        invariant
            merge_sets_from(am, bm, 0) == Ok::<Seq<Seq<CanonicalBinding>>, MergeError>(full),
            drop_trailing_empty(full) == drop_trailing_empty(set_views(out@)),
        decreases out@.len(),
    {
        let ghost old_views = set_views(out@);
        let _ = out.pop();
        proof {
            assert(old_views[old_views.len() - 1].len() == 0);
            assert(set_views(out@) =~= old_views.drop_last());
        }
    }
    proof {
        if out@.len() > 0 {
            assert(set_views(out@)[set_views(out@).len() - 1].len() > 0);
        }
        assert(drop_trailing_empty(set_views(out@)) == set_views(out@));
    }
    Ok(out)
}

// ---------------------------------------------------------------------------
// Merging whole stage descriptions.
// ---------------------------------------------------------------------------
/// Models of a sequence of stage descriptions.
pub open spec fn description_models(s: Seq<SpirvShaderDescription>) -> Seq<DescriptionModel> {
    s.map_values(|d: SpirvShaderDescription| d@)
}

/// The layout no stage has been merged into yet.
pub open spec fn empty_layout_model() -> LayoutModel {
    LayoutModel { sets: Seq::empty(), pushes: Seq::empty() }
}

/// One merge step: the accumulated layout's sets merge with the next
/// stage's sets, and the stage's push-constant ranges are appended,
/// undeduplicated.
pub open spec fn merge_layout_spec(l: LayoutModel, d: DescriptionModel) -> Result<
    LayoutModel,
    MergeError,
> {
    match merge_sets_spec(l.sets, d.sets) {
        Err(e) => Err(e),
        Ok(s) => Ok(LayoutModel { sets: s, pushes: l.pushes + d.pushes }),
    }
}

/// The merge of an ordered stage sequence: stages are folded
/// left-to-right into the accumulated layout, starting from the empty
/// layout, and the first conflict aborts the whole merge.
pub open spec fn merge_spec(stages: Seq<DescriptionModel>) -> Result<LayoutModel, MergeError>
    decreases stages.len(),
{
    if stages.len() == 0 {
        Ok(empty_layout_model())
    } else {
        match merge_spec(stages.drop_last()) {
            Err(e) => Err(e),
            Ok(l) => merge_layout_spec(l, stages.last()),
        }
    }
}

/// Once a stage prefix fails to merge, the whole sequence fails with the
/// same error.
pub proof fn lemma_merge_err_propagates(ms: Seq<DescriptionModel>, k: int)
    requires
        0 <= k <= ms.len(),
        merge_spec(ms.subrange(0, k)) is Err,
    ensures
        merge_spec(ms) == merge_spec(ms.subrange(0, k)),
    decreases ms.len() - k,
{
    if k == ms.len() {
        assert(ms.subrange(0, k) =~= ms);
    } else {
        assert(ms.subrange(0, k + 1).drop_last() =~= ms.subrange(0, k));
        lemma_merge_err_propagates(ms, k + 1);
    }
}

/// Merges one more stage into an accumulated layout, or reports the
/// first conflicting set and binding index.
pub fn merge_layout(l: &Layout, d: &SpirvShaderDescription) -> (r: Result<Layout, MergeError>)
    ensures
        (r matches Ok(v) ==> merge_layout_spec(l@, d@) == Ok::<LayoutModel, MergeError>(v@)),
        (r matches Err(e) ==> merge_layout_spec(l@, d@) == Err::<LayoutModel, MergeError>(e)),
{
    let sets = match merge_sets(&l.sets, &d.descriptor_sets) {
        Ok(s) => s,
        Err(e) => {
            return Err(e);
        },
    };
    let mut push_constants: Vec<PushConstantRange> = Vec::new();
    let mut i: usize = 0;
    while i < l.push_constants.len()
        invariant
            0 <= i <= l.push_constants@.len(),
            push_constants@ =~= l.push_constants@.subrange(0, i as int),
        decreases l.push_constants@.len() - i,
    {
        push_constants.push(l.push_constants[i]);
        i += 1;
    }
    proof {
        assert(push_constants@ =~= l.push_constants@);
    }
    let mut j: usize = 0;
    while j < d.push_constants.len()
        invariant
            0 <= j <= d.push_constants@.len(),
            push_constants@ =~= l.push_constants@ + d.push_constants@.subrange(0, j as int),
        decreases d.push_constants@.len() - j,
    {
        push_constants.push(d.push_constants[j]);
        j += 1;
    }
    proof {
        assert(push_constants@ =~= l.push_constants@ + d.push_constants@);
    }
    let r = Layout { sets, push_constants };
    proof {
        assert(merge_layout_spec(l@, d@) matches Ok(m) && r@ =~= m);
    }
    Ok(r)
}

/// Merges an ordered sequence of per-stage descriptions, left to right,
/// into one unified layout, or reports the first binding conflict. An
/// empty sequence merges into the empty layout.
pub fn merge(stages: &Vec<SpirvShaderDescription>) -> (r: Result<Layout, MergeError>)
    ensures
        (r matches Ok(v) ==> merge_spec(description_models(stages@)) == Ok::<
            LayoutModel,
            MergeError,
        >(v@)),
        (r matches Err(e) ==> merge_spec(description_models(stages@)) == Err::<
            LayoutModel,
            MergeError,
        >(e)),
{
    let ghost ms = description_models(stages@);
    let mut layout = Layout { sets: Vec::new(), push_constants: Vec::new() };
    let mut i: usize = 0;
    proof {
        assert(ms.subrange(0, 0) =~= Seq::<DescriptionModel>::empty());
        assert(layout@ =~= empty_layout_model());
    }
    while i < stages.len()
        invariant
            0 <= i <= stages@.len(),
            ms == description_models(stages@),
            merge_spec(ms.subrange(0, i as int)) == Ok::<LayoutModel, MergeError>(layout@),
        decreases stages@.len() - i,
    {
        let ghost i0 = i as int;
        proof {
            assert(ms.subrange(0, i0 + 1).drop_last() =~= ms.subrange(0, i0));
            assert(ms.subrange(0, i0 + 1).last() == stages@[i0]@);
        }
        match merge_layout(&layout, &stages[i]) {
            Ok(nl) => {
                layout = nl;
            },
            Err(e) => {
                proof {
                    lemma_merge_err_propagates(ms, i0 + 1);
                }
                return Err(e);
            },
        }
        i += 1;
    }
    proof {
        assert(ms.subrange(0, i as int) =~= ms);
    }
    Ok(layout)
}

// ---------------------------------------------------------------------------
// Vertex-attribute selection.
// ---------------------------------------------------------------------------
/// Index of the first stage whose mask carries the vertex bit, if any.
pub open spec fn find_vertex(stages: Seq<DescriptionModel>) -> Option<int>
    decreases stages.len(),
{
    if stages.len() == 0 {
        None
    } else if stages[0].stage & STAGE_VERTEX != 0 {
        Some(0)
    } else {
        match find_vertex(stages.skip(1)) {
            None => None,
            Some(i) => Some(i + 1),
        }
    }
}

/// `find_vertex` agrees with a front-to-back scan.
pub proof fn lemma_find_vertex_prefix(s: Seq<DescriptionModel>, j: int)
    requires
        0 <= j <= s.len(),
        forall|k: int| 0 <= k < j ==> s[k].stage & STAGE_VERTEX == 0,
        j < s.len() ==> s[j].stage & STAGE_VERTEX != 0,
    ensures
        j < s.len() ==> find_vertex(s) == Some(j),
        j == s.len() ==> find_vertex(s) is None,
    decreases s.len(),
{
    if s.len() == 0 {
    } else if j == 0 {
    } else {
        assert(s[0].stage & STAGE_VERTEX == 0);
        assert(forall|k: int| 0 <= k < j - 1 ==> s.skip(1)[k] == s[k + 1]);
        lemma_find_vertex_prefix(s.skip(1), j - 1);
    }
}

/// The merged layout's attribute list: the input attributes of the first
/// stage that carries the vertex stage mask. Without a vertex stage no
/// pipeline can be built, so the request fails.
pub open spec fn vertex_attributes_spec(stages: Seq<DescriptionModel>) -> Result<
    Seq<VertexAttribute>,
    MergeError,
> {
    match find_vertex(stages) {
        None => Err(MergeError::NoVertexStage),
        Some(i) => Ok(stages[i].inputs),
    }
}

/// Selects the vertex-attribute list of a merged stage sequence: the
/// input attributes of the stage carrying the vertex stage mask, whole
/// and in enumeration order, or a fatal error when no stage is a vertex
/// stage. Attributes carry no name, so no name-based dropping of
/// built-in-looking inputs happens here (the reflector already reports
/// only location-decorated variables), and no stride is computed —
/// element offsets and strides are deferred to the pipeline builder.
pub fn vertex_attributes(stages: &Vec<SpirvShaderDescription>) -> (r: Result<
    Vec<VertexAttribute>,
    MergeError,
>)
    ensures
        (r matches Ok(v) ==> vertex_attributes_spec(description_models(stages@)) == Ok::<
            Seq<VertexAttribute>,
            MergeError,
        >(v@)),
        (r matches Err(e) ==> vertex_attributes_spec(description_models(stages@)) == Err::<
            Seq<VertexAttribute>,
            MergeError,
        >(e)),
{
    let ghost ms = description_models(stages@);
    let mut i: usize = 0;
    while i < stages.len()
        invariant
            0 <= i <= stages@.len(),
            ms == description_models(stages@),
            forall|k: int| 0 <= k < i ==> ms[k].stage & STAGE_VERTEX == 0,
        decreases stages@.len() - i,
    {
        if stages[i].stage_flag & STAGE_VERTEX != 0 {
            proof {
                lemma_find_vertex_prefix(ms, i as int);
            }
            let src = &stages[i].input_attributes;
            let mut out: Vec<VertexAttribute> = Vec::new();
            let mut j: usize = 0;
            while j < src.len()
                invariant
                    0 <= j <= src@.len(),
                    out@ =~= src@.subrange(0, j as int),
                decreases src@.len() - j,
            {
                out.push(src[j]);
                j += 1;
            }
            proof {
                assert(out@ =~= src@);
            }
            return Ok(out);
        }
        i += 1;
    }
    proof {
        lemma_find_vertex_prefix(ms, i as int);
    }
    Err(MergeError::NoVertexStage)
}

// ---------------------------------------------------------------------------
// Laws of merging.
// ---------------------------------------------------------------------------
/// The bindings of a list that carry binding index `key`, in order.
pub open spec fn key_bindings(s: Seq<CanonicalBinding>, key: u32) -> Seq<CanonicalBinding>
    decreases s.len(),
{
    if s.len() == 0 {
        Seq::empty()
    } else if s[0].binding == key {
        seq![s[0]] + key_bindings(s.skip(1), key)
    } else {
        key_bindings(s.skip(1), key)
    }
}

/// A found index is valid, carries the key, and nothing before it does.
proof fn lemma_find_binding_found(s: Seq<CanonicalBinding>, key: u32)
    requires
        find_binding(s, key) is Some,
    ensures
        ({
            let j = find_binding(s, key)->Some_0;
            0 <= j < s.len() && s[j].binding == key && (forall|k: int|
                0 <= k < j ==> s[k].binding != key)
        }),
    decreases s.len(),
{
    if s.len() == 0 {
    } else if s[0].binding == key {
    } else {
        lemma_find_binding_found(s.skip(1), key);
        let j = find_binding(s, key)->Some_0;
        assert(forall|k: int| 1 <= k < j ==> s[k] == s.skip(1)[k - 1]);
    }
}

/// When the scan finds nothing, no binding carries the key.
proof fn lemma_find_none_no_key(s: Seq<CanonicalBinding>, key: u32)
    requires
        find_binding(s, key) is None,
    ensures
        key_bindings(s, key).len() == 0,
    decreases s.len(),
{
    if s.len() > 0 {
        lemma_find_none_no_key(s.skip(1), key);
    }
}

/// Removing a binding that does not carry the key leaves the key's
/// bindings untouched.
proof fn lemma_key_bindings_remove_other(b: Seq<CanonicalBinding>, key: u32, j: int)
    requires
        0 <= j < b.len(),
        b[j].binding != key,
    ensures
        key_bindings(b.remove(j), key) == key_bindings(b, key),
    decreases b.len(),
{
    if j == 0 {
        assert(b.remove(0) =~= b.skip(1));
    } else {
        lemma_key_bindings_remove_other(b.skip(1), key, j - 1);
        assert(b.remove(j)[0] == b[0]);
        assert(b.remove(j).skip(1) =~= b.skip(1).remove(j - 1));
    }
}

/// Removing the first binding that carries the key removes exactly the
/// head of the key's bindings.
proof fn lemma_key_bindings_remove_first(b: Seq<CanonicalBinding>, key: u32, j: int)
    requires
        0 <= j < b.len(),
        b[j].binding == key,
        forall|k: int| 0 <= k < j ==> b[k].binding != key,
    ensures
        key_bindings(b, key).len() > 0,
        key_bindings(b, key)[0] == b[j],
        key_bindings(b.remove(j), key) == key_bindings(b, key).skip(1),
    decreases b.len(),
{
    if j == 0 {
        assert(b.remove(0) =~= b.skip(1));
        assert((seq![b[0]] + key_bindings(b.skip(1), key)).skip(1) =~= key_bindings(
            b.skip(1),
            key,
        ));
    } else {
        assert(forall|k: int| 0 <= k < j - 1 ==> b.skip(1)[k] == b[k + 1]);
        lemma_key_bindings_remove_first(b.skip(1), key, j - 1);
        assert(b.remove(j)[0] == b[0]);
        assert(b.remove(j).skip(1) =~= b.skip(1).remove(j - 1));
    }
}

/// A merge of two lists in which no binding carries the key yields a
/// list in which no binding carries the key.
proof fn lemma_merge_no_key(a: Seq<CanonicalBinding>, b: Seq<CanonicalBinding>, key: u32, m: Seq<
    CanonicalBinding,
>)
    requires
        merge_bindings_spec(a, b) == Ok::<Seq<CanonicalBinding>, u32>(m),
        key_bindings(a, key).len() == 0,
        key_bindings(b, key).len() == 0,
    ensures
        key_bindings(m, key).len() == 0,
    decreases a.len(),
{
    if a.len() == 0 {
    } else {
        assert(a[0].binding != key);
        if find_binding(b, a[0].binding) is None {
            let tail = merge_bindings_spec(a.skip(1), b)->Ok_0;
            lemma_merge_no_key(a.skip(1), b, key, tail);
            assert(m.skip(1) =~= tail);
        } else {
            let j = find_binding(b, a[0].binding)->Some_0;
            lemma_find_binding_found(b, a[0].binding);
            assert(compare_spec(a[0], b[j]) == Comparison::Equal);
            lemma_key_bindings_remove_other(b, key, j);
            let tail = merge_bindings_spec(a.skip(1), b.remove(j))->Ok_0;
            lemma_merge_no_key(a.skip(1), b.remove(j), key, tail);
            assert(m.skip(1) =~= tail);
        }
    }
}

/// Merging two binding lists that each hold exactly one binding with the
/// key — the two comparing equal — yields a list holding exactly one
/// binding with the key: the shared binding with the union stage mask.
proof fn lemma_merge_bindings_shared(
    a: Seq<CanonicalBinding>,
    b: Seq<CanonicalBinding>,
    x: CanonicalBinding,
    y: CanonicalBinding,
    m: Seq<CanonicalBinding>,
)
    requires
        merge_bindings_spec(a, b) == Ok::<Seq<CanonicalBinding>, u32>(m),
        key_bindings(a, x.binding) == seq![x],
        key_bindings(b, x.binding) == seq![y],
        compare_spec(x, y) == Comparison::Equal,
    ensures
        key_bindings(m, x.binding) == seq![
            CanonicalBinding {
                binding: x.binding,
                ty: x.ty,
                count: x.count,
                stage_flags: x.stage_flags | y.stage_flags,
                immutable_samplers: x.immutable_samplers,
            },
        ],
    decreases a.len(),
{
    let key = x.binding;
    let merged_xy = CanonicalBinding {
        binding: x.binding,
        ty: x.ty,
        count: x.count,
        stage_flags: x.stage_flags | y.stage_flags,
        immutable_samplers: x.immutable_samplers,
    };
    assert(a.len() > 0);
    if a[0].binding == key {
        // The head of `a` is the shared binding itself.
        assert(a[0] == x && key_bindings(a.skip(1), key).len() == 0) by {
            assert((seq![a[0]] + key_bindings(a.skip(1), key))[0] == a[0]);
        }
        if find_binding(b, key) is None {
            lemma_find_none_no_key(b, key);
        }
        let j = find_binding(b, key)->Some_0;
        lemma_find_binding_found(b, key);
        lemma_key_bindings_remove_first(b, key, j);
        assert(b[j] == y);
        assert(key_bindings(b.remove(j), key).len() == 0) by {
            assert(seq![y].skip(1) =~= Seq::<CanonicalBinding>::empty());
        }
        let tail = merge_bindings_spec(a.skip(1), b.remove(j))->Ok_0;
        lemma_merge_no_key(a.skip(1), b.remove(j), key, tail);
        assert(m == seq![merged_xy] + tail);
        assert(m.skip(1) =~= tail);
        assert(key_bindings(m, key) =~= seq![merged_xy]) by {
            assert(key_bindings(tail, key) =~= Seq::<CanonicalBinding>::empty());
        }
    } else {
        assert(key_bindings(a.skip(1), key) == seq![x]);
        if find_binding(b, a[0].binding) is None {
            let tail = merge_bindings_spec(a.skip(1), b)->Ok_0;
            lemma_merge_bindings_shared(a.skip(1), b, x, y, tail);
            assert(m.skip(1) =~= tail);
        } else {
            let j = find_binding(b, a[0].binding)->Some_0;
            lemma_find_binding_found(b, a[0].binding);
            assert(compare_spec(a[0], b[j]) == Comparison::Equal);
            assert(b[j].binding != key);
            lemma_key_bindings_remove_other(b, key, j);
            let tail = merge_bindings_spec(a.skip(1), b.remove(j))->Ok_0;
            lemma_merge_bindings_shared(a.skip(1), b.remove(j), x, y, tail);
            assert(m.skip(1) =~= tail);
        }
    }
}

/// A successful pairwise set merge from index `k` on has one merged set
/// per remaining index, each the merge of the two binding lists at its
/// index.
proof fn lemma_merge_sets_from_props(
    a: Seq<Seq<CanonicalBinding>>,
    b: Seq<Seq<CanonicalBinding>>,
    k: int,
    s: Seq<Seq<CanonicalBinding>>,
)
    requires
        0 <= k <= pair_count(a, b),
        merge_sets_from(a, b, k) == Ok::<Seq<Seq<CanonicalBinding>>, MergeError>(s),
    ensures
        s.len() == pair_count(a, b) - k,
        forall|i: int|
            0 <= i < s.len() ==> merge_bindings_spec(set_at(a, k + i), set_at(b, k + i)) == Ok::<
                Seq<CanonicalBinding>,
                u32,
            >(s[i]),
    decreases pair_count(a, b) - k,
{
    if k == pair_count(a, b) {
    } else {
        let h = merge_bindings_spec(set_at(a, k), set_at(b, k))->Ok_0;
        let tail = merge_sets_from(a, b, k + 1)->Ok_0;
        lemma_merge_sets_from_props(a, b, k + 1, tail);
        assert(s == seq![h] + tail);
        assert forall|i: int|
            0 <= i < s.len() implies merge_bindings_spec(set_at(a, k + i), set_at(b, k + i))
            == Ok::<Seq<CanonicalBinding>, u32>(s[i]) by {
            if i > 0 {
                assert(merge_bindings_spec(set_at(a, k + 1 + (i - 1)), set_at(b, k + 1 + (i - 1)))
                    == Ok::<Seq<CanonicalBinding>, u32>(tail[i - 1]));
            }
        }
    }
}

/// Dropping trailing empty sets never changes what stands at a set
/// index: dropped entries were empty, and beyond the length the empty
/// set stands anyway.
proof fn lemma_drop_trailing_set_at(s: Seq<Seq<CanonicalBinding>>, i: int)
    ensures
        set_at(drop_trailing_empty(s), i) == set_at(s, i),
    decreases s.len(),
{
    if s.len() > 0 && s[s.len() - 1].len() == 0 {
        lemma_drop_trailing_set_at(s.drop_last(), i);
        if i == s.len() - 1 {
            assert(s[i] =~= Seq::<CanonicalBinding>::empty());
        }
    }
}
/// Merging is associative in effect: folding stage after stage into the
/// accumulated layout gives the same outcome as merging the first two
/// stages into an intermediate layout and then merging the third stage
/// into that.
pub proof fn lemma_merge_associative(a: DescriptionModel, b: DescriptionModel, c: DescriptionModel)
    ensures
        merge_spec(seq![a, b, c]) == (match merge_spec(seq![a, b]) {
            Ok(l) => merge_layout_spec(l, c),
            Err(e) => Err(e),
        }),
{
    assert(seq![a, b, c].drop_last() =~= seq![a, b]);
    assert(seq![a, b, c].last() == c);
}

/// Round trip for a shared binding: a binding that appears identically
/// (same binding index, resource kind, element count and
/// immutable-sampler flag) in the sole set of two stages merges into
/// exactly one canonical binding, at the same index and kind, whose
/// stage mask is the union of the two stages' masks; the push-constant
/// ranges concatenate.
pub proof fn lemma_merge_shared_binding(
    x: CanonicalBinding,
    y: CanonicalBinding,
    a: DescriptionModel,
    b: DescriptionModel,
)
    requires
        compare_spec(x, y) == Comparison::Equal,
        a.sets == seq![seq![x]],
        b.sets == seq![seq![y]],
    ensures
        merge_spec(seq![a, b]) matches Ok(l)
            && l.sets == seq![
            seq![
                CanonicalBinding {
                    binding: x.binding,
                    ty: x.ty,
                    count: x.count,
                    stage_flags: x.stage_flags | y.stage_flags,
                    immutable_samplers: x.immutable_samplers,
                },
            ],
        ] && l.pushes == a.pushes + b.pushes,
{
    let merged = CanonicalBinding {
        binding: x.binding,
        ty: x.ty,
        count: x.count,
        stage_flags: x.stage_flags | y.stage_flags,
        immutable_samplers: x.immutable_samplers,
    };
    // Merging the first stage into the empty layout passes its sole set
    // through unchanged.
    assert(merge_bindings_spec(set_at(empty_layout_model().sets, 0), set_at(a.sets, 0)) == Ok::<
        Seq<CanonicalBinding>,
        u32,
    >(seq![x])) by {
        assert(set_at(empty_layout_model().sets, 0) =~= Seq::<CanonicalBinding>::empty());
        assert(set_at(a.sets, 0) == seq![x]);
    }
    assert(merge_sets_from(empty_layout_model().sets, a.sets, 0) == Ok::<
        Seq<Seq<CanonicalBinding>>,
        MergeError,
    >(seq![seq![x]])) by {
        assert(pair_count(empty_layout_model().sets, a.sets) == 1);
        assert(merge_sets_from(empty_layout_model().sets, a.sets, 1) == Ok::<
            Seq<Seq<CanonicalBinding>>,
            MergeError,
        >(Seq::<Seq<CanonicalBinding>>::empty()));
        assert(seq![seq![x]] + Seq::<Seq<CanonicalBinding>>::empty() =~= seq![seq![x]]);
    }
    assert(drop_trailing_empty(seq![seq![x]]) == seq![seq![x]]) by {
        assert(seq![seq![x]][0].len() == 1);
    }
    let l1 = LayoutModel { sets: seq![seq![x]], pushes: Seq::<PushConstantRange>::empty() + a.pushes };
    assert(merge_layout_spec(empty_layout_model(), a) == Ok::<LayoutModel, MergeError>(l1));
    assert(merge_spec(Seq::<DescriptionModel>::empty()) == Ok::<LayoutModel, MergeError>(
        empty_layout_model(),
    ));
    assert(merge_spec(seq![a]) == Ok::<LayoutModel, MergeError>(l1)) by {
        assert(seq![a].drop_last() =~= Seq::<DescriptionModel>::empty());
        assert(seq![a].last() == a);
    }
    // Merging the second stage folds the equal binding into one copy
    // with the union mask.
    assert(find_binding(seq![y], x.binding) == Some(0int)) by {
        assert(seq![y][0].binding == x.binding);
    }
    assert(merge_bindings_spec(seq![x], seq![y]) == Ok::<Seq<CanonicalBinding>, u32>(
        seq![merged],
    )) by {
        assert(seq![y].remove(0) =~= Seq::<CanonicalBinding>::empty());
        assert(seq![x].skip(1) =~= Seq::<CanonicalBinding>::empty());
        assert(merge_bindings_spec(seq![x].skip(1), seq![y].remove(0)) == Ok::<
            Seq<CanonicalBinding>,
            u32,
        >(Seq::<CanonicalBinding>::empty()));
        assert(seq![merged] + Seq::<CanonicalBinding>::empty() =~= seq![merged]);
    }
    assert(merge_sets_from(l1.sets, b.sets, 0) == Ok::<Seq<Seq<CanonicalBinding>>, MergeError>(
        seq![seq![merged]],
    )) by {
        assert(pair_count(l1.sets, b.sets) == 1);
        assert(set_at(l1.sets, 0) == seq![x]);
        assert(set_at(b.sets, 0) == seq![y]);
        assert(merge_sets_from(l1.sets, b.sets, 1) == Ok::<
            Seq<Seq<CanonicalBinding>>,
            MergeError,
        >(Seq::<Seq<CanonicalBinding>>::empty()));
        assert(seq![seq![merged]] + Seq::<Seq<CanonicalBinding>>::empty() =~= seq![seq![merged]]);
    }
    assert(drop_trailing_empty(seq![seq![merged]]) == seq![seq![merged]]) by {
        assert(seq![seq![merged]][0].len() == 1);
    }
    assert(merge_layout_spec(l1, b) == Ok::<LayoutModel, MergeError>(
        LayoutModel { sets: seq![seq![merged]], pushes: l1.pushes + b.pushes },
    ));
    assert(merge_spec(seq![a, b]) == merge_layout_spec(l1, b)) by {
        assert(seq![a, b].drop_last() =~= seq![a]);
        assert(seq![a, b].last() == b);
    }
    assert((Seq::<PushConstantRange>::empty() + a.pushes) + b.pushes =~= a.pushes + b.pushes);
}

/// Round trip for a shared binding in full generality: whenever merging
/// two stages succeeds, and each stage's set at index `si` holds exactly
/// one binding with index `x.binding` — the two comparing equal — the
/// merged layout's set at that index holds exactly one binding with that
/// index: the shared binding, at the same kind, count and
/// immutable-sampler flag, with the union of the two stage masks.
pub proof fn lemma_merge_shared_binding_general(
    a: DescriptionModel,
    b: DescriptionModel,
    si: int,
    x: CanonicalBinding,
    y: CanonicalBinding,
    l: LayoutModel,
)
    requires
        merge_spec(seq![a, b]) == Ok::<LayoutModel, MergeError>(l),
        key_bindings(set_at(a.sets, si), x.binding) == seq![x],
        key_bindings(set_at(b.sets, si), x.binding) == seq![y],
        compare_spec(x, y) == Comparison::Equal,
    ensures
        key_bindings(set_at(l.sets, si), x.binding) == seq![
            CanonicalBinding {
                binding: x.binding,
                ty: x.ty,
                count: x.count,
                stage_flags: x.stage_flags | y.stage_flags,
                immutable_samplers: x.immutable_samplers,
            },
        ],
{
    // The set at `si` of stage `a` holds `x`, so `si` names a real,
    // non-empty set of `a`.
    assert(0 <= si < a.sets.len()) by {
        if !(0 <= si < a.sets.len()) {
            assert(set_at(a.sets, si) =~= Seq::<CanonicalBinding>::empty());
        }
    }
    // Merging stage `a` into the empty layout keeps every set index's
    // binding list.
    assert(merge_spec(Seq::<DescriptionModel>::empty()) == Ok::<LayoutModel, MergeError>(
        empty_layout_model(),
    ));
    assert(merge_spec(seq![a]) == merge_layout_spec(empty_layout_model(), a)) by {
        assert(seq![a].drop_last() =~= Seq::<DescriptionModel>::empty());
        assert(seq![a].last() == a);
    }
    assert(merge_spec(seq![a, b]) == (match merge_spec(seq![a]) {
        Ok(l1) => merge_layout_spec(l1, b),
        Err(e) => Err(e),
    })) by {
        assert(seq![a, b].drop_last() =~= seq![a]);
        assert(seq![a, b].last() == b);
    }
    assert(merge_spec(seq![a]) is Ok);
    let l1 = merge_spec(seq![a])->Ok_0;
    assert(merge_sets_from(empty_layout_model().sets, a.sets, 0) is Ok);
    let s1 = merge_sets_from(empty_layout_model().sets, a.sets, 0)->Ok_0;
    assert(pair_count(empty_layout_model().sets, a.sets) == a.sets.len());
    lemma_merge_sets_from_props(empty_layout_model().sets, a.sets, 0, s1);
    assert(l1.sets == drop_trailing_empty(s1));
    assert(set_at(s1, si) == set_at(a.sets, si)) by {
        assert(merge_bindings_spec(set_at(empty_layout_model().sets, si), set_at(a.sets, si))
            == Ok::<Seq<CanonicalBinding>, u32>(s1[si])) by {
            assert(0 + si == si);
        }
        assert(set_at(empty_layout_model().sets, si) =~= Seq::<CanonicalBinding>::empty());
    }
    lemma_drop_trailing_set_at(s1, si);
    assert(set_at(l1.sets, si) == set_at(a.sets, si));
    // Merging stage `b` merges the two binding lists at `si` pairwise.
    assert(merge_layout_spec(l1, b) == Ok::<LayoutModel, MergeError>(l));
    assert(merge_sets_from(l1.sets, b.sets, 0) is Ok);
    let s2 = merge_sets_from(l1.sets, b.sets, 0)->Ok_0;
    lemma_merge_sets_from_props(l1.sets, b.sets, 0, s2);
    assert(l.sets == drop_trailing_empty(s2));
    assert(0 <= si < l1.sets.len()) by {
        if !(0 <= si < l1.sets.len()) {
            assert(set_at(l1.sets, si) =~= Seq::<CanonicalBinding>::empty());
        }
    }
    assert(si < s2.len());
    assert(merge_bindings_spec(set_at(l1.sets, si), set_at(b.sets, si)) == Ok::<
        Seq<CanonicalBinding>,
        u32,
    >(s2[si])) by {
        assert(0 + si == si);
    }
    lemma_merge_bindings_shared(set_at(a.sets, si), set_at(b.sets, si), x, y, s2[si]);
    lemma_drop_trailing_set_at(s2, si);
    assert(set_at(l.sets, si) == s2[si]);
}

} // verus!
