use vstd::prelude::*;

use crate::dims::present;
use crate::error::{NodeKind, SchemaError};
use crate::scalar::{Real, Rgb, ONE_BITS};

verus! {

/// `1.5`: the index of refraction of glass when none is given.
pub const DEFAULT_INDEX_OF_REFRACTION_BITS: u64 = 0x3ff8000000000000;

/// `0.05`: the fuzz of metal when none is given.
pub const DEFAULT_FUZZ_BITS: u64 = 0x3fa999999999999a;

/// `15.0`: each channel of a light's colour when none is given.
pub const DEFAULT_LIGHT_BITS: u64 = 0x402e000000000000;

/// `0.5`: the share of the second material in a blend when none is given.
pub const DEFAULT_BLEND_FACTOR_BITS: u64 = 0x3fe0000000000000;

/// A texture read from an image file.
#[derive(Clone, PartialEq, Eq, Debug)]
pub struct Image {
    pub file: String,
}

/// A normal map read from an image file.
#[derive(Clone, PartialEq, Eq, Debug)]
pub struct NormalTexture {
    pub file: String,
}

/// The colour source of a surface: exactly one alternative must be given.
#[derive(Clone, PartialEq, Eq, Debug)]
pub struct Texture {
    pub color: Option<Rgb>,
    pub image: Option<Image>,
}

/// A resolved texture.
#[derive(Clone, PartialEq, Eq, Debug)]
pub enum TextureKind {
    SolidColor(Rgb),
    ImageMap(String),
}

/// A matte surface.
#[derive(Clone, PartialEq, Eq, Debug)]
pub struct Lambertian {
    pub albedo: Option<Texture>,
    pub normal: Option<NormalTexture>,
}

/// A dielectric, glass-like surface.
#[derive(Clone, PartialEq, Eq, Debug)]
pub struct Glass {
    pub albedo: Option<Texture>,
    pub normal: Option<NormalTexture>,
    pub index_of_refraction: Option<Real>,
}

/// A reflective surface.
#[derive(Clone, PartialEq, Eq, Debug)]
pub struct Metal {
    pub albedo: Option<Texture>,
    pub normal: Option<NormalTexture>,
    pub fuzz: Option<Real>,
}

/// A surface that emits light.
#[derive(Clone, PartialEq, Eq, Debug)]
pub struct Light {
    pub color: Option<Rgb>,
    pub attenuation_half_length: Option<Real>,
}

/// A mix of two materials.
#[derive(PartialEq, Eq, Debug)]
pub struct Blend {
    pub first: Material,
    pub second: Material,
    pub blend_factor: Option<Real>,
}

/// The look of a surface: at most one alternative. With none, a matte
/// surface of the default (white) albedo.
#[derive(PartialEq, Eq, Debug)]
pub struct Material {
    pub lambertian: Option<Lambertian>,
    pub glass: Option<Glass>,
    pub metal: Option<Metal>,
    pub light: Option<Light>,
    pub blend: Option<Box<Blend>>,
}

/// A resolved material.
#[derive(PartialEq, Eq, Debug)]
pub enum MaterialKind {
    Lambertian { albedo: TextureKind, normal: Option<String> },
    Glass { albedo: TextureKind, normal: Option<String>, index_of_refraction: Real },
    Metal { albedo: TextureKind, normal: Option<String>, fuzz: Real },
    Light { color: Rgb, attenuation_half_length: Option<Real> },
    Blend { first: Box<MaterialKind>, second: Box<MaterialKind>, blend_factor: Real },
}

/// The albedo used when a surface gives none: plain white.
pub open spec fn default_albedo() -> TextureKind {
    TextureKind::SolidColor(Rgb::grey(ONE_BITS))
}

/// What an empty material resolves to.
pub open spec fn default_material() -> MaterialKind {
    MaterialKind::Lambertian { albedo: default_albedo(), normal: None }
}

pub open spec fn real_or(o: Option<Real>, bits: u64) -> Real {
    match o {
        Some(v) => v,
        None => Real::of(bits),
    }
}

fn real_or_default(o: Option<Real>, bits: u64) -> (r: Real)
    ensures
        r == real_or(o, bits),
{
    match o {
        Some(v) => v,
        None => Real::from_bits(bits),
    }
}

fn white() -> (r: TextureKind)
    ensures
        r == default_albedo(),
{
    TextureKind::SolidColor(Rgb::new(Real::from_bits(ONE_BITS), Real::from_bits(ONE_BITS), Real::from_bits(ONE_BITS)))
}

/// The file of a normal map, if one is given.
pub open spec fn normal_file(n: Option<NormalTexture>) -> Option<String> {
    match n {
        Some(t) => Some(t.file),
        None => None,
    }
}

fn normal_file_of(n: &Option<NormalTexture>) -> (r: Option<String>)
    ensures
        r == normal_file(*n),
{
    match n {
        Some(t) => Some(t.file.clone()),
        None => None,
    }
}

impl Image {
    pub fn create(&self) -> (r: Result<TextureKind, SchemaError>)
        ensures
            r == Ok::<TextureKind, SchemaError>(TextureKind::ImageMap(self.file)),
    {
        Ok(TextureKind::ImageMap(self.file.clone()))
    }
}

impl Texture {
    pub open spec fn alternatives(self) -> nat {
        present(self.color) + present(self.image)
    }

    pub open spec fn spec_create(self) -> Result<TextureKind, SchemaError> {
        if self.alternatives() > 1 {
            Err(SchemaError::AmbiguousVariant(NodeKind::Texture))
        } else if self.color is Some {
            Ok(TextureKind::SolidColor(self.color.unwrap()))
        } else if self.image is Some {
            Ok(TextureKind::ImageMap(self.image.unwrap().file))
        } else {
            Err(SchemaError::MissingVariant(NodeKind::Texture))
        }
    }

    /// Resolves the one given alternative; there is no default.
    pub fn create(&self) -> (r: Result<TextureKind, SchemaError>)
        ensures
            r == self.spec_create(),
    {
        match self {
            Texture { color: Some(c), image: None } => Ok(TextureKind::SolidColor(*c)),
            Texture { color: None, image: Some(im) } => im.create(),
            Texture { color: None, image: None } => Err(
                SchemaError::MissingVariant(NodeKind::Texture),
            ),
            _ => Err(SchemaError::AmbiguousVariant(NodeKind::Texture)),
        }
    }
}

/// An optional albedo resolved: plain white when absent.
pub open spec fn albedo_spec(a: Option<Texture>) -> Result<TextureKind, SchemaError> {
    match a {
        Some(t) => t.spec_create(),
        None => Ok(default_albedo()),
    }
}

fn create_albedo(a: &Option<Texture>) -> (r: Result<TextureKind, SchemaError>)
    ensures
        r == albedo_spec(*a),
{
    match a {
        Some(t) => t.create(),
        None => Ok(white()),
    }
}

impl Lambertian {
    pub open spec fn spec_create(self) -> Result<MaterialKind, SchemaError> {
        match albedo_spec(self.albedo) {
            Err(e) => Err(e),
            Ok(albedo) => Ok(MaterialKind::Lambertian { albedo, normal: normal_file(self.normal) }),
        }
    }

    pub fn create(&self) -> (r: Result<MaterialKind, SchemaError>)
        ensures
            r == self.spec_create(),
    {
        let albedo = create_albedo(&self.albedo)?;
        Ok(MaterialKind::Lambertian { albedo, normal: normal_file_of(&self.normal) })
    }
}

impl Glass {
    pub open spec fn spec_create(self) -> Result<MaterialKind, SchemaError> {
        match albedo_spec(self.albedo) {
            Err(e) => Err(e),
            Ok(albedo) => Ok(
                MaterialKind::Glass {
                    albedo,
                    normal: normal_file(self.normal),
                    index_of_refraction: real_or(
                        self.index_of_refraction,
                        DEFAULT_INDEX_OF_REFRACTION_BITS,
                    ),
                },
            ),
        }
    }

    pub fn create(&self) -> (r: Result<MaterialKind, SchemaError>)
        ensures
            r == self.spec_create(),
    {
        let albedo = create_albedo(&self.albedo)?;
        Ok(
            MaterialKind::Glass {
                albedo,
                normal: normal_file_of(&self.normal),
                index_of_refraction: real_or_default(
                    self.index_of_refraction,
                    DEFAULT_INDEX_OF_REFRACTION_BITS,
                ),
            },
        )
    }
}

impl Metal {
    pub open spec fn spec_create(self) -> Result<MaterialKind, SchemaError> {
        match albedo_spec(self.albedo) {
            Err(e) => Err(e),
            Ok(albedo) => Ok(
                MaterialKind::Metal {
                    albedo,
                    normal: normal_file(self.normal),
                    fuzz: real_or(self.fuzz, DEFAULT_FUZZ_BITS),
                },
            ),
        }
    }

    pub fn create(&self) -> (r: Result<MaterialKind, SchemaError>)
        ensures
            r == self.spec_create(),
    {
        let albedo = create_albedo(&self.albedo)?;
        Ok(
            MaterialKind::Metal {
                albedo,
                normal: normal_file_of(&self.normal),
                fuzz: real_or_default(self.fuzz, DEFAULT_FUZZ_BITS),
            },
        )
    }
}

impl Light {
    pub open spec fn spec_create(self) -> MaterialKind {
        MaterialKind::Light {
            color: match self.color {
                Some(c) => c,
                None => Rgb::grey(DEFAULT_LIGHT_BITS),
            },
            attenuation_half_length: self.attenuation_half_length,
        }
    }

    pub fn create(&self) -> (r: Result<MaterialKind, SchemaError>)
        ensures
            r == Ok::<MaterialKind, SchemaError>(self.spec_create()),
    {
        let color = match self.color {
            Some(c) => c,
            None => {
                let v = Real::from_bits(DEFAULT_LIGHT_BITS);
                Rgb::new(v, v, v)
            },
        };
        Ok(MaterialKind::Light { color, attenuation_half_length: self.attenuation_half_length })
    }
}

impl Material {
    pub open spec fn alternatives(self) -> nat {
        present(self.lambertian) + present(self.glass) + present(self.metal) + present(self.light)
            + present(self.blend)
    }

    /// The material with no alternative given.
    pub fn default() -> (r: Material)
        ensures
            r.alternatives() == 0,
    {
        Material { lambertian: None, glass: None, metal: None, light: None, blend: None }
    }

    pub open spec fn spec_create(self) -> Result<MaterialKind, SchemaError>
        decreases self,
    {
        if self.alternatives() > 1 {
            Err(SchemaError::AmbiguousVariant(NodeKind::Material))
        } else if self.lambertian is Some {
            self.lambertian.unwrap().spec_create()
        } else if self.glass is Some {
            self.glass.unwrap().spec_create()
        } else if self.metal is Some {
            self.metal.unwrap().spec_create()
        } else if self.light is Some {
            Ok(self.light.unwrap().spec_create())
        } else if self.blend is Some {
            let b = self.blend.unwrap();
            match b.first.spec_create() {
                Err(e) => Err(e),
                Ok(first) => match b.second.spec_create() {
                    Err(e) => Err(e),
                    Ok(second) => Ok(
                        MaterialKind::Blend {
                            first: Box::new(first),
                            second: Box::new(second),
                            blend_factor: real_or(b.blend_factor, DEFAULT_BLEND_FACTOR_BITS),
                        },
                    ),
                },
            }
        } else {
            Ok(default_material())
        }
    }

    /// Resolves the one given alternative, recursively for a blend; an empty
    /// material is a white matte surface; two or more alternatives fail.
    pub fn create(&self) -> (r: Result<MaterialKind, SchemaError>)
        ensures
            r == self.spec_create(),
        decreases self,
    {
        match self {
            Material { lambertian: Some(l), glass: None, metal: None, light: None, blend: None } => {
                l.create()
            },
            Material { lambertian: None, glass: Some(g), metal: None, light: None, blend: None } => {
                g.create()
            },
            Material { lambertian: None, glass: None, metal: Some(m), light: None, blend: None } => {
                m.create()
            },
            Material { lambertian: None, glass: None, metal: None, light: Some(l), blend: None } => {
                l.create()
            },
            Material { lambertian: None, glass: None, metal: None, light: None, blend: Some(b) } => {
                let first = b.first.create()?;
                let second = b.second.create()?;
                Ok(
                    MaterialKind::Blend {
                        first: Box::new(first),
                        second: Box::new(second),
                        blend_factor: real_or_default(b.blend_factor, DEFAULT_BLEND_FACTOR_BITS),
                    },
                )
            },
            Material { lambertian: None, glass: None, metal: None, light: None, blend: None } => {
                Lambertian { albedo: None, normal: None }.create()
            },
            _ => Err(SchemaError::AmbiguousVariant(NodeKind::Material)),
        }
    }
}

} // verus!
