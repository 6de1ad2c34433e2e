//! Reflection of compiled shader bytecode into a structured interface
//! description, and merging of per-stage descriptions into a single,
//! conflict-checked pipeline layout.
//!
//! The crate parses a module of compiled bytecode through a reflection
//! library, converts the weakly-typed records it reports (numeric type
//! traits, descriptor kind codes, stage bits) into canonical descriptors,
//! and folds any number of per-stage descriptions into one [`Layout`],
//! failing loudly on cross-stage binding conflicts.

use vstd::prelude::*;

pub mod attributes;
pub mod binding;
pub mod format;
pub mod merge;
pub mod reflect;
pub mod scan;
pub mod shader;
pub mod types;

pub use attributes::{build_attributes, convert_variable, Element, VertexAttribute};
pub use binding::{
    compare, convert_binding, convert_bindings, convert_sets, group_bindings, CanonicalBinding,
    Comparison, ResourceKind,
};
pub use format::{map_type, Format};
pub use merge::{
    merge, merge_bindings, merge_layout, merge_sets, vertex_attributes, Layout, MergeError,
    PushConstantRange,
};
pub use reflect::{
    convert_push_constant, convert_push_constants, convert_stage, SpirvShaderDescription,
};
pub use shader::{SpirvReflectedShader, SpirvShader};
pub use types::{
    ConvertError, EnumerationKind, FormatError, RawDescriptorBinding, RawInterfaceVariable,
    RawPushConstant, RawTypeDescriptor, ReflectError,
};

verus! {

/// Id of the buffer in graph.
#[derive(Clone, Copy, Debug, PartialEq, Eq, PartialOrd, Ord)]
pub struct BufferId(usize);

/// Id of the image (or target) in graph.
#[derive(Clone, Copy, Debug, PartialEq, Eq, PartialOrd, Ord)]
pub struct ImageId(usize);

/// Id of the node in graph.
#[derive(Clone, Copy, Debug, PartialEq, Eq, PartialOrd, Ord)]
pub struct NodeId(usize);

impl View for BufferId {
    type V = int;

    closed spec fn view(&self) -> int {
        self.0 as int
    }
}

impl BufferId {
    /// Wraps a raw buffer index.
    pub fn new(index: usize) -> (r: Self)
        ensures
            r@ == index as int,
    {
        BufferId(index)
    }

    /// The raw buffer index.
    pub fn index(&self) -> (r: usize)
        ensures
            r as int == self@,
    {
        self.0
    }
}

impl View for ImageId {
    type V = int;

    closed spec fn view(&self) -> int {
        self.0 as int
    }
}

impl ImageId {
    /// Wraps a raw image index.
    pub fn new(index: usize) -> (r: Self)
        ensures
            r@ == index as int,
    {
        ImageId(index)
    }

    /// The raw image index.
    pub fn index(&self) -> (r: usize)
        ensures
            r as int == self@,
    {
        self.0
    }
}

impl View for NodeId {
    type V = int;

    closed spec fn view(&self) -> int {
        self.0 as int
    }
}

impl NodeId {
    /// Wraps a raw node index.
    pub fn new(index: usize) -> (r: Self)
        ensures
            r@ == index as int,
    {
        NodeId(index)
    }

    /// The raw node index.
    pub fn index(&self) -> (r: usize)
        ensures
            r as int == self@,
    {
        self.0
    }
}

} // verus!
