use vstd::prelude::*;

use crate::dims::present;
use crate::error::{NodeKind, SchemaError};
use crate::resolve::{lemma_resolve_each_prefix_err, lemma_resolve_each_step, resolve_each};
use crate::scalar::{Pos, Real};

verus! {

/// One change of position, size or rotation: exactly one alternative must be
/// given. Angles are in degrees.
#[derive(Clone, Copy, PartialEq, Eq, Structural, Debug)]
pub struct Transformation {
    pub translation: Option<Pos>,
    pub scale: Option<Real>,
    pub rotation_x: Option<Real>,
    pub rotation_y: Option<Real>,
    pub rotation_z: Option<Real>,
}

/// A resolved transformation.
#[derive(Clone, Copy, PartialEq, Eq, Structural, Debug)]
pub enum TransformKind {
    Translation(Pos),
    Scale(Real),
    RotationX(Real),
    RotationY(Real),
    RotationZ(Real),
}

impl Transformation {
    pub open spec fn alternatives(self) -> nat {
        present(self.translation) + present(self.scale) + present(self.rotation_x) + present(
            self.rotation_y,
        ) + present(self.rotation_z)
    }

    pub open spec fn spec_create(self) -> Result<TransformKind, SchemaError> {
        if self.alternatives() > 1 {
            Err(SchemaError::AmbiguousVariant(NodeKind::Transformation))
        } else if self.translation is Some {
            Ok(TransformKind::Translation(self.translation.unwrap()))
        } else if self.scale is Some {
            Ok(TransformKind::Scale(self.scale.unwrap()))
        } else if self.rotation_x is Some {
            Ok(TransformKind::RotationX(self.rotation_x.unwrap()))
        } else if self.rotation_y is Some {
            Ok(TransformKind::RotationY(self.rotation_y.unwrap()))
        } else if self.rotation_z is Some {
            Ok(TransformKind::RotationZ(self.rotation_z.unwrap()))
        } else {
            Err(SchemaError::MissingVariant(NodeKind::Transformation))
        }
    }

    /// Resolves the one given alternative; there is no default.
    pub fn create(&self) -> (r: Result<TransformKind, SchemaError>)
        ensures
            r == self.spec_create(),
    {
        match self {
            Transformation {
                translation: Some(p),
                scale: None,
                rotation_x: None,
                rotation_y: None,
                rotation_z: None,
            } => Ok(TransformKind::Translation(*p)),
            Transformation {
                translation: None,
                scale: Some(s),
                rotation_x: None,
                rotation_y: None,
                rotation_z: None,
            } => Ok(TransformKind::Scale(*s)),
            Transformation {
                translation: None,
                scale: None,
                rotation_x: Some(r),
                rotation_y: None,
                rotation_z: None,
            } => Ok(TransformKind::RotationX(*r)),
            Transformation {
                translation: None,
                scale: None,
                rotation_x: None,
                rotation_y: Some(r),
                rotation_z: None,
            } => Ok(TransformKind::RotationY(*r)),
            Transformation {
                translation: None,
                scale: None,
                rotation_x: None,
                rotation_y: None,
                rotation_z: Some(r),
            } => Ok(TransformKind::RotationZ(*r)),
            Transformation {
                translation: None,
                scale: None,
                rotation_x: None,
                rotation_y: None,
                rotation_z: None,
            } => Err(SchemaError::MissingVariant(NodeKind::Transformation)),
            _ => Err(SchemaError::AmbiguousVariant(NodeKind::Transformation)),
        }
    }
}

/// A list of transformations resolved in order; the first one that fails
/// decides the error.
pub open spec fn transformations_spec(ts: Seq<Transformation>) -> Result<
    Seq<TransformKind>,
    SchemaError,
> {
    resolve_each(ts, |t: Transformation| t.spec_create())
}

/// Resolves a transformation list, keeping its order, which decides the
/// combined transform.
pub fn create_transformation(transformations: &Vec<Transformation>) -> (r: Result<
    Vec<TransformKind>,
    SchemaError,
>)
    ensures
        match r {
            Ok(v) => transformations_spec(transformations@) == Ok::<
                Seq<TransformKind>,
                SchemaError,
            >(v@),
            Err(e) => transformations_spec(transformations@) == Err::<
                Seq<TransformKind>,
                SchemaError,
            >(e),
        },
{
    let ghost f = |t: Transformation| t.spec_create();
    let mut out: Vec<TransformKind> = Vec::with_capacity(transformations.len());
    let mut i: usize = 0;
    while i < transformations.len()
        invariant
            i <= transformations@.len(),
            f == (|t: Transformation| t.spec_create()),
            resolve_each(transformations@.subrange(0, i as int), f) == Ok::<
                Seq<TransformKind>,
                SchemaError,
            >(out@),
        decreases transformations@.len() - i,
    {
        proof {
            lemma_resolve_each_step(transformations@, f, i as int);
        }
        match transformations[i].create() {
            Ok(t) => {
                out.push(t);
            },
            Err(e) => {
                proof {
                    lemma_resolve_each_prefix_err(transformations@, f, i + 1);
                }
                return Err(e);
            },
        }
        i = i + 1;
    }
    assert(transformations@.subrange(0, i as int) =~= transformations@);
    Ok(out)
}

} // verus!
