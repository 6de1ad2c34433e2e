//! Shader value types: validated bytecode containers, one of them carrying
//! its reflected description.

use crate::reflect::{reflect_model, DescriptionModel, SpirvShaderDescription};
use crate::types::{error_kind, ReflectError, ReflectErrorKind};
use vstd::prelude::*;

verus! {

/// Spir-V shader bytecode, validated at construction to be non-empty and
/// a multiple of the 4-byte word size.
#[derive(Clone, Debug, PartialEq, Eq, PartialOrd, Ord, Hash)]
pub struct SpirvShader {
    spirv: Vec<u8>,
}

impl View for SpirvShader {
    type V = Seq<u8>;

    closed spec fn view(&self) -> Seq<u8> {
        self.spirv@
    }
}

impl SpirvShader {
    /// Create Spir-V shader from bytes. The bytecode must be non-empty
    /// with a length that is a multiple of the 4-byte word size.
    pub fn new(spirv: Vec<u8>) -> (r: Self)
        requires
            spirv@.len() > 0,
            spirv@.len() % 4 == 0,
        ensures
            r@ == spirv@,
    {
        SpirvShader { spirv }
    }

    /// Get spirv bytecode.
    pub fn spirv(&self) -> (r: &Vec<u8>)
        ensures
            r@ == self@,
    {
        &self.spirv
    }
}

/// Spir-V shader together with its reflection, created in one step so the
/// two cannot drift apart.
#[derive(Clone, Debug)]
pub struct SpirvReflectedShader {
    spirv: Vec<u8>,
    reflection: SpirvShaderDescription,
}

/// Mathematical model of a [`SpirvReflectedShader`].
#[verifier::ext_equal]
pub struct ReflectedShaderModel {
    /// The bytecode bytes.
    pub spirv: Seq<u8>,
    /// Model of the reflected description.
    pub reflection: DescriptionModel,
}

impl View for SpirvReflectedShader {
    type V = ReflectedShaderModel;

    closed spec fn view(&self) -> ReflectedShaderModel {
        ReflectedShaderModel { spirv: self.spirv@, reflection: self.reflection@ }
    }
}

impl SpirvReflectedShader {
    /// Create Spir-V shader from bytes and reflect it. The bytecode must
    /// be non-empty and word-aligned; reflection failures are reported.
    pub fn new(spirv: Vec<u8>) -> (r: Result<Self, ReflectError>)
        requires
            spirv@.len() > 0,
            spirv@.len() % 4 == 0,
        ensures
            (r matches Ok(s) ==> s@.spirv == spirv@ && reflect_model(spirv@) == Ok::<
                DescriptionModel,
                ReflectErrorKind,
            >(s@.reflection)),
            (r matches Err(e) ==> reflect_model(spirv@) == Err::<
                DescriptionModel,
                ReflectErrorKind,
            >(error_kind(e))),
    {
        let reflection = match SpirvShaderDescription::from_bytes(spirv.as_slice()) {
            Ok(d) => d,
            Err(e) => {
                return Err(e);
            },
        };
        Ok(SpirvReflectedShader { spirv, reflection })
    }

    /// Get spirv bytecode.
    pub fn spirv(&self) -> (r: &Vec<u8>)
        ensures
            r@ == self@.spirv,
    {
        &self.spirv
    }

    /// The reflected description of the bytecode.
    pub fn reflect(&self) -> (r: &SpirvShaderDescription)
        ensures
            r@ == self@.reflection,
    {
        &self.reflection
    }
}

} // verus!
