//! Attribute building: turning raw input/output variable records into
//! ordered vertex-attribute descriptors, expanding array dimensions into
//! consecutive locations.

use crate::format::{map_type, map_type_spec, Format};
use crate::types::{variable_models, RawInterfaceVariable, RawVariableModel, ReflectError};
use vstd::prelude::*;

verus! {

/// The element of a vertex attribute: a format plus a byte offset. Offset
/// computation is deliberately deferred to the external pipeline builder,
/// so attributes are always built with offset 0.
#[derive(Clone, Copy, Debug, PartialEq, Eq, Structural)]
pub struct Element {
    /// Canonical element format.
    pub format: Format,
    /// Byte offset inside the vertex buffer element; always 0 here.
    pub offset: u32,
}

/// One vertex attribute descriptor derived from an interface variable.
#[derive(Clone, Copy, Debug, PartialEq, Eq, Structural)]
pub struct VertexAttribute {
    /// Attribute location. For an array variable the expanded descriptors
    /// occupy consecutive locations starting at the declared one.
    pub location: u32,
    /// Mirrors the variable's declared location.
    pub binding: u32,
    /// Element format and offset.
    pub element: Element,
}

/// The descriptors one raw variable expands to: a single descriptor at
/// its declared location, or — for an array variable — one descriptor per
/// element of the first dimension, with the location incremented by the
/// element index and the binding left at the declared location. A
/// variable without a type descriptor, with an unmappable format, or
/// whose expansion would leave the representable location range is
/// rejected.
pub open spec fn var_attributes(v: RawVariableModel) -> Result<Seq<VertexAttribute>, ReflectError> {
    match v.ty {
        None => Err(ReflectError::MissingTypeDescription),
        Some(t) => match map_type_spec(t) {
            Err(fe) => Err(ReflectError::Format(fe)),
            Ok(f) => if v.dims.len() == 0 {
                Ok(
                    seq![
                        VertexAttribute {
                            location: v.location,
                            binding: v.location,
                            element: Element { format: f, offset: 0 },
                        },
                    ],
                )
            } else if v.dims[0] > 0 && v.location + v.dims[0] - 1 > u32::MAX {
                Err(ReflectError::LocationOutOfRange)
            } else {
                Ok(
                    Seq::new(
                        v.dims[0] as nat,
                        |n: int|
                            VertexAttribute {
                                location: (v.location + n) as u32,
                                binding: v.location,
                                element: Element { format: f, offset: 0 },
                            },
                    ),
                )
            },
        },
    }
}

/// Expands one raw interface variable into its attribute descriptors.
pub fn convert_variable(v: &RawInterfaceVariable) -> (r: Result<Vec<VertexAttribute>, ReflectError>)
    ensures
        (r matches Ok(out) ==> var_attributes(v@) == Ok::<Seq<VertexAttribute>, ReflectError>(
            out@,
        )),
        (r matches Err(e) ==> var_attributes(v@) == Err::<Seq<VertexAttribute>, ReflectError>(e)),
{
    let t = match &v.ty {
        Some(t) => t,
        None => {
            return Err(ReflectError::MissingTypeDescription);
        },
    };
    let format = match map_type(t) {
        Ok(f) => f,
        Err(fe) => {
            return Err(ReflectError::Format(fe));
        },
    };
    let mut out: Vec<VertexAttribute> = Vec::new();
    if v.dims.len() == 0 {
        out.push(
            VertexAttribute {
                location: v.location,
                binding: v.location,
                element: Element { format, offset: 0 },
            },
        );
        proof {
            assert(out@ =~= var_attributes(v@)->Ok_0);
        }
        Ok(out)
    } else {
        let d0 = v.dims[0];
        if d0 > 0 && v.location as u64 + d0 as u64 - 1 > u32::MAX as u64 {
            return Err(ReflectError::LocationOutOfRange);
        }
        let mut n: u32 = 0;
        while n < d0
            invariant
                n <= d0,
                v.dims@.len() > 0,
                d0 == v.dims@[0],
                d0 > 0 ==> v.location + d0 - 1 <= u32::MAX,
                out@ =~= Seq::new(
                    n as nat,
                    |k: int|
                        VertexAttribute {
                            location: (v.location + k) as u32,
                            binding: v.location,
                            element: Element { format, offset: 0 },
                        },
                ),
            decreases d0 - n,
        {
            out.push(
                VertexAttribute {
                    location: v.location + n,
                    binding: v.location,
                    element: Element { format, offset: 0 },
                },
            );
            n += 1;
        }
        proof {
            assert(var_attributes(v@) matches Ok(s) && out@ =~= s);
        }
        Ok(out)
    }
}

/// The attributes of a whole variable list, in enumeration order (not
/// location order), stopping at the first rejected variable.
pub open spec fn attributes_spec(vars: Seq<RawVariableModel>) -> Result<
    Seq<VertexAttribute>,
    ReflectError,
>
    decreases vars.len(),
{
    if vars.len() == 0 {
        Ok(Seq::empty())
    } else {
        match var_attributes(vars[0]) {
            Err(e) => Err(e),
            Ok(head) => match attributes_spec(vars.skip(1)) {
                Err(e) => Err(e),
                Ok(tail) => Ok(head + tail),
            },
        }
    }
}

/// Builds the ordered attribute list of a variable enumeration. The
/// output order matches the enumeration order; callers needing location
/// order must sort explicitly.
pub fn build_attributes(vars: &Vec<RawInterfaceVariable>) -> (r: Result<
    Vec<VertexAttribute>,
    ReflectError,
>)
    ensures
        (r matches Ok(v) ==> attributes_spec(variable_models(vars@)) == Ok::<
            Seq<VertexAttribute>,
            ReflectError,
        >(v@)),
        (r matches Err(e) ==> attributes_spec(variable_models(vars@)) == Err::<
            Seq<VertexAttribute>,
            ReflectError,
        >(e)),
{
    let ghost models = variable_models(vars@);
    let mut out: Vec<VertexAttribute> = Vec::new();
    let mut i: usize = 0;
    proof {
        assert(models.skip(0) =~= models);
        if attributes_spec(models) is Ok {
            let t = attributes_spec(models)->Ok_0;
            assert(Seq::<VertexAttribute>::empty() + t =~= t);
        }
    }
    while i < vars.len()
        invariant
            0 <= i <= vars@.len(),
            models == variable_models(vars@),
            attributes_spec(models) == (match attributes_spec(models.skip(i as int)) {
                Ok(t) => Ok::<Seq<VertexAttribute>, ReflectError>(out@ + t),
                Err(e) => Err::<Seq<VertexAttribute>, ReflectError>(e),
            }),
        decreases vars@.len() - i,
    {
        let ghost i0 = i as int;
        proof {
            assert(models.skip(i0)[0] == vars@[i0]@);
            assert(models.skip(i0).skip(1) =~= models.skip(i0 + 1));
        }
        match convert_variable(&vars[i]) {
            Ok(mut head) => {
                let ghost old_out = out@;
                let ghost head_seq = head@;
                out.append(&mut head);
                proof {
                    if attributes_spec(models.skip(i0 + 1)) is Ok {
                        let t = attributes_spec(models.skip(i0 + 1))->Ok_0;
                        assert(old_out + (head_seq + t) =~= out@ + t);
                    }
                }
            },
            Err(e) => {
                return Err(e);
            },
        }
        i += 1;
    }
    proof {
        assert(models.skip(i as int) =~= Seq::<RawVariableModel>::empty());
        assert(out@ + Seq::<VertexAttribute>::empty() =~= out@);
    }
    Ok(out)
}

} // verus!
