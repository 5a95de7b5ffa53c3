use vstd::prelude::*;

use crate::dims::present;
use crate::error::{NodeKind, SchemaError};
use crate::material::{default_material, real_or, Material, MaterialKind};
use crate::scalar::{Pos, Real, Rgb};
use crate::transform::{create_transformation, transformations_spec, TransformKind, Transformation};

verus! {

/// `0.01`: the density of a constant medium when none is given.
pub const DEFAULT_DENSITY_BITS: u64 = 0x3f847ae147ae147b;

/// `0.9`: each channel of a constant medium's colour when none is given.
pub const DEFAULT_MEDIUM_COLOR_BITS: u64 = 0x3feccccccccccccd;

/// A sphere; without a material it is a white matte surface.
#[derive(PartialEq, Eq, Debug)]
pub struct Sphere {
    pub center: Pos,
    pub radius: Real,
    pub material: Option<Material>,
}

/// A model read from an `.obj` file in the folder `path`; `material` is used
/// where the file gives none.
#[derive(PartialEq, Eq, Debug)]
pub struct ObjModel {
    pub path: String,
    pub name: String,
    pub material: Option<Material>,
    pub transformations: Vec<Transformation>,
}

/// A flat parallelogram at `q` spanned by `u` and `v`.
#[derive(PartialEq, Eq, Debug)]
pub struct Quad {
    pub q: Pos,
    pub u: Pos,
    pub v: Pos,
    pub material: Material,
    pub transformations: Vec<Transformation>,
}

/// A cuboid between the corners `a` and `b`, made of six quads.
#[derive(PartialEq, Eq, Debug)]
pub struct Box {
    pub a: Pos,
    pub b: Pos,
    pub material: Material,
    pub transformations: Vec<Transformation>,
}

/// A box-shaped volume of fog.
#[derive(Clone, Copy, PartialEq, Eq, Structural, Debug)]
pub struct ConstantMedium {
    pub a: Pos,
    pub b: Pos,
    pub density: Option<Real>,
    pub color: Option<Rgb>,
}

/// An object of the world: exactly one alternative must be given.
#[derive(PartialEq, Eq, Debug)]
pub struct Hittable {
    pub sphere: Option<Sphere>,
    pub model: Option<ObjModel>,
    pub quad: Option<Quad>,
    pub cuboid: Option<Box>,
    pub constant_medium: Option<ConstantMedium>,
}

/// A resolved object of the world.
#[derive(PartialEq, Eq, Debug)]
pub enum HittableKind {
    Sphere { center: Pos, radius: Real, material: MaterialKind },
    Model {
        path: String,
        name: String,
        material: MaterialKind,
        transformations: Vec<TransformKind>,
    },
    Quad { q: Pos, u: Pos, v: Pos, material: MaterialKind, transformations: Vec<TransformKind> },
    Box { a: Pos, b: Pos, material: MaterialKind, transformations: Vec<TransformKind> },
    ConstantMedium { a: Pos, b: Pos, density: Real, color: Rgb },
}

/// A resolved object of the world, with its lists as sequences.
pub enum HittableView {
    Sphere { center: Pos, radius: Real, material: MaterialKind },
    Model {
        path: Seq<char>,
        name: Seq<char>,
        material: MaterialKind,
        transformations: Seq<TransformKind>,
    },
    Quad { q: Pos, u: Pos, v: Pos, material: MaterialKind, transformations: Seq<TransformKind> },
    Box { a: Pos, b: Pos, material: MaterialKind, transformations: Seq<TransformKind> },
    ConstantMedium { a: Pos, b: Pos, density: Real, color: Rgb },
}

impl View for HittableKind {
    type V = HittableView;

    open spec fn view(&self) -> HittableView {
        match self {
            HittableKind::Sphere { center, radius, material } => HittableView::Sphere {
                center: *center,
                radius: *radius,
                material: *material,
            },
            HittableKind::Model { path, name, material, transformations } => HittableView::Model {
                path: path@,
                name: name@,
                material: *material,
                transformations: transformations@,
            },
            HittableKind::Quad { q, u, v, material, transformations } => HittableView::Quad {
                q: *q,
                u: *u,
                v: *v,
                material: *material,
                transformations: transformations@,
            },
            HittableKind::Box { a, b, material, transformations } => HittableView::Box {
                a: *a,
                b: *b,
                material: *material,
                transformations: transformations@,
            },
            HittableKind::ConstantMedium { a, b, density, color } => HittableView::ConstantMedium {
                a: *a,
                b: *b,
                density: *density,
                color: *color,
            },
        }
    }
}

/// An optional material resolved: a white matte surface when absent.
pub open spec fn optional_material_spec(m: Option<Material>) -> Result<MaterialKind, SchemaError> {
    match m {
        Some(m) => m.spec_create(),
        None => Ok(default_material()),
    }
}

fn create_optional_material(m: &Option<Material>) -> (r: Result<MaterialKind, SchemaError>)
    ensures
        r == optional_material_spec(*m),
{
    match m {
        Some(m) => m.create(),
        None => Material::default().create(),
    }
}

impl Sphere {
    pub open spec fn spec_create(&self) -> Result<HittableView, SchemaError> {
        match optional_material_spec(self.material) {
            Err(e) => Err(e),
            Ok(material) => Ok(
                HittableView::Sphere { center: self.center, radius: self.radius, material },
            ),
        }
    }

    pub fn create(&self) -> (r: Result<HittableKind, SchemaError>)
        ensures
            match r {
                Ok(h) => self.spec_create() == Ok::<HittableView, SchemaError>(h@),
                Err(e) => self.spec_create() == Err::<HittableView, SchemaError>(e),
            },
    {
        let material = create_optional_material(&self.material)?;
        Ok(HittableKind::Sphere { center: self.center, radius: self.radius, material })
    }
}

impl ObjModel {
    pub open spec fn spec_create(&self) -> Result<HittableView, SchemaError> {
        match optional_material_spec(self.material) {
            Err(e) => Err(e),
            Ok(material) => match transformations_spec(self.transformations@) {
                Err(e) => Err(e),
                Ok(transformations) => Ok(
                    HittableView::Model {
                        path: self.path@,
                        name: self.name@,
                        material,
                        transformations,
                    },
                ),
            },
        }
    }

    pub fn create(&self) -> (r: Result<HittableKind, SchemaError>)
        ensures
            match r {
                Ok(h) => self.spec_create() == Ok::<HittableView, SchemaError>(h@),
                Err(e) => self.spec_create() == Err::<HittableView, SchemaError>(e),
            },
    {
        let material = create_optional_material(&self.material)?;
        let transformations = create_transformation(&self.transformations)?;
        Ok(
            HittableKind::Model {
                path: self.path.clone(),
                name: self.name.clone(),
                material,
                transformations,
            },
        )
    }
}

impl Quad {
    pub open spec fn spec_create(&self) -> Result<HittableView, SchemaError> {
        match self.material.spec_create() {
            Err(e) => Err(e),
            Ok(material) => match transformations_spec(self.transformations@) {
                Err(e) => Err(e),
                Ok(transformations) => Ok(
                    HittableView::Quad { q: self.q, u: self.u, v: self.v, material, transformations },
                ),
            },
        }
    }

    pub fn create(&self) -> (r: Result<HittableKind, SchemaError>)
        ensures
            match r {
                Ok(h) => self.spec_create() == Ok::<HittableView, SchemaError>(h@),
                Err(e) => self.spec_create() == Err::<HittableView, SchemaError>(e),
            },
    {
        let material = self.material.create()?;
        let transformations = create_transformation(&self.transformations)?;
        Ok(HittableKind::Quad { q: self.q, u: self.u, v: self.v, material, transformations })
    }
}

impl Box {
    pub open spec fn spec_create(&self) -> Result<HittableView, SchemaError> {
        match self.material.spec_create() {
            Err(e) => Err(e),
            Ok(material) => match transformations_spec(self.transformations@) {
                Err(e) => Err(e),
                Ok(transformations) => Ok(
                    HittableView::Box { a: self.a, b: self.b, material, transformations },
                ),
            },
        }
    }

    pub fn create(&self) -> (r: Result<HittableKind, SchemaError>)
        ensures
            match r {
                Ok(h) => self.spec_create() == Ok::<HittableView, SchemaError>(h@),
                Err(e) => self.spec_create() == Err::<HittableView, SchemaError>(e),
            },
    {
        let material = self.material.create()?;
        let transformations = create_transformation(&self.transformations)?;
        Ok(HittableKind::Box { a: self.a, b: self.b, material, transformations })
    }
}

impl ConstantMedium {
    pub open spec fn spec_create(&self) -> HittableView {
        HittableView::ConstantMedium {
            a: self.a,
            b: self.b,
            density: real_or(self.density, DEFAULT_DENSITY_BITS),
            color: match self.color {
                Some(c) => c,
                None => Rgb::grey(DEFAULT_MEDIUM_COLOR_BITS),
            },
        }
    }

    pub fn create(&self) -> (r: Result<HittableKind, SchemaError>)
        ensures
            match r {
                Ok(h) => h@ == self.spec_create(),
                Err(_) => false,
            },
    {
        let density = match self.density {
            Some(d) => d,
            None => Real::from_bits(DEFAULT_DENSITY_BITS),
        };
        let color = match self.color {
            Some(c) => c,
            None => {
                let v = Real::from_bits(DEFAULT_MEDIUM_COLOR_BITS);
                Rgb::new(v, v, v)
            },
        };
        Ok(HittableKind::ConstantMedium { a: self.a, b: self.b, density, color })
    }
}

impl Hittable {
    pub open spec fn alternatives(&self) -> nat {
        present(self.sphere) + present(self.model) + present(self.quad) + present(self.cuboid)
            + present(self.constant_medium)
    }

    pub open spec fn spec_create(&self) -> Result<HittableView, SchemaError> {
        if self.alternatives() > 1 {
            Err(SchemaError::AmbiguousVariant(NodeKind::Hittable))
        } else if self.sphere is Some {
            self.sphere.unwrap().spec_create()
        } else if self.model is Some {
            self.model.unwrap().spec_create()
        } else if self.quad is Some {
            self.quad.unwrap().spec_create()
        } else if self.cuboid is Some {
            self.cuboid.unwrap().spec_create()
        } else if self.constant_medium is Some {
            Ok(self.constant_medium.unwrap().spec_create())
        } else {
            Err(SchemaError::MissingVariant(NodeKind::Hittable))
        }
    }

    /// Resolves the one given alternative and what it holds; there is no
    /// default.
    pub fn create(&self) -> (r: Result<HittableKind, SchemaError>)
        ensures
            match r {
                Ok(h) => self.spec_create() == Ok::<HittableView, SchemaError>(h@),
                Err(e) => self.spec_create() == Err::<HittableView, SchemaError>(e),
            },
    {
        match self {
            Hittable {
                sphere: Some(s),
                model: None,
                quad: None,
                cuboid: None,
                constant_medium: None,
            } => s.create(),
            Hittable {
                sphere: None,
                model: Some(m),
                quad: None,
                cuboid: None,
                constant_medium: None,
            } => m.create(),
            Hittable {
                sphere: None,
                model: None,
                quad: Some(q),
                cuboid: None,
                constant_medium: None,
            } => q.create(),
            Hittable {
                sphere: None,
                model: None,
                quad: None,
                cuboid: Some(b),
                constant_medium: None,
            } => b.create(),
            Hittable {
                sphere: None,
                model: None,
                quad: None,
                cuboid: None,
                constant_medium: Some(cm),
            } => cm.create(),
            Hittable { sphere: None, model: None, quad: None, cuboid: None, constant_medium: None } => {
                Err(SchemaError::MissingVariant(NodeKind::Hittable))
            },
            _ => Err(SchemaError::AmbiguousVariant(NodeKind::Hittable)),
        }
    }
}

} // verus!
