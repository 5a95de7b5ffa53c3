use vstd::prelude::*;

use crate::material::{MaterialKind, TextureKind};
use crate::scalar::{Real, Rgb};
use crate::transform::TransformKind;

verus! {

/// A resolved texture, with its file as characters.
pub enum TextureView {
    SolidColor(Rgb),
    ImageMap(Seq<char>),
}

/// A resolved material, with its files as characters.
pub enum MaterialView {
    Lambertian { albedo: TextureView, normal: Option<Seq<char>> },
    Glass { albedo: TextureView, normal: Option<Seq<char>>, index_of_refraction: Real },
    Metal { albedo: TextureView, normal: Option<Seq<char>>, fuzz: Real },
    Light { color: Rgb, attenuation_half_length: Option<Real> },
    Blend { first: Box<MaterialView>, second: Box<MaterialView>, blend_factor: Real },
}

pub open spec fn texture_view(t: TextureKind) -> TextureView {
    match t {
        TextureKind::SolidColor(c) => TextureView::SolidColor(c),
        TextureKind::ImageMap(f) => TextureView::ImageMap(f@),
    }
}

pub open spec fn normal_view(n: Option<String>) -> Option<Seq<char>> {
    match n {
        Some(f) => Some(f@),
        None => None,
    }
}

pub open spec fn material_view(m: MaterialKind) -> MaterialView
    decreases m,
{
    match m {
        MaterialKind::Lambertian { albedo, normal } => MaterialView::Lambertian {
            albedo: texture_view(albedo),
            normal: normal_view(normal),
        },
        MaterialKind::Glass { albedo, normal, index_of_refraction } => MaterialView::Glass {
            albedo: texture_view(albedo),
            normal: normal_view(normal),
            index_of_refraction,
        },
        MaterialKind::Metal { albedo, normal, fuzz } => MaterialView::Metal {
            albedo: texture_view(albedo),
            normal: normal_view(normal),
            fuzz,
        },
        MaterialKind::Light { color, attenuation_half_length } => MaterialView::Light {
            color,
            attenuation_half_length,
        },
        MaterialKind::Blend { first, second, blend_factor } => MaterialView::Blend {
            first: Box::new(material_view(*first)),
            second: Box::new(material_view(*second)),
            blend_factor,
        },
    }
}

/// The key of a model in the model cache: its folder, its file name, its
/// resolved material and its transformation list.
pub struct Fingerprint {
    pub path: String,
    pub name: String,
    pub material: MaterialKind,
    pub transformations: Vec<TransformKind>,
}

pub struct FingerprintView {
    pub path: Seq<char>,
    pub name: Seq<char>,
    pub material: MaterialView,
    pub transformations: Seq<TransformKind>,
}

impl View for Fingerprint {
    type V = FingerprintView;

    open spec fn view(&self) -> FingerprintView {
        fp_model(self.path@, self.name@, self.material, self.transformations@)
    }
}

/// The fingerprint of a model from its resolved parts.
pub open spec fn fp_model(
    path: Seq<char>,
    name: Seq<char>,
    material: MaterialKind,
    transformations: Seq<TransformKind>,
) -> FingerprintView {
    FingerprintView { path, name, material: material_view(material), transformations }
}

/// Two models share a fingerprint exactly when they have the same folder, the
/// same file name, the same material and the same transformation list:
/// changing any of these makes the cache load the model afresh.
pub proof fn lemma_fingerprint_identifies_model(
    path1: Seq<char>,
    name1: Seq<char>,
    material1: MaterialKind,
    transformations1: Seq<TransformKind>,
    path2: Seq<char>,
    name2: Seq<char>,
    material2: MaterialKind,
    transformations2: Seq<TransformKind>,
)
    ensures
        (fp_model(path1, name1, material1, transformations1) == fp_model(
            path2,
            name2,
            material2,
            transformations2,
        )) <==> (path1 == path2 && name1 == name2 && material_view(material1) == material_view(
            material2,
        ) && transformations1 == transformations2),
{
}

fn same_normal(a: &Option<String>, b: &Option<String>) -> (r: bool)
    ensures
        r == (normal_view(*a) == normal_view(*b)),
{
    match (a, b) {
        (Some(x), Some(y)) => *x == *y,
        (None, None) => true,
        _ => false,
    }
}

fn same_texture(a: &TextureKind, b: &TextureKind) -> (r: bool)
    ensures
        r == (texture_view(*a) == texture_view(*b)),
{
    match (a, b) {
        (TextureKind::SolidColor(x), TextureKind::SolidColor(y)) => *x == *y,
        (TextureKind::ImageMap(x), TextureKind::ImageMap(y)) => *x == *y,
        _ => false,
    }
}

fn same_real_option(a: Option<Real>, b: Option<Real>) -> (r: bool)
    ensures
        r == (a == b),
{
    match (a, b) {
        (Some(x), Some(y)) => x == y,
        (None, None) => true,
        _ => false,
    }
}

/// Whether two materials are the same, files compared by their characters.
pub fn same_material(a: &MaterialKind, b: &MaterialKind) -> (r: bool)
    ensures
        r == (material_view(*a) == material_view(*b)),
    decreases a,
{
    match (a, b) {
        (
            MaterialKind::Lambertian { albedo: a1, normal: n1 },
            MaterialKind::Lambertian { albedo: a2, normal: n2 },
        ) => same_texture(a1, a2) && same_normal(n1, n2),
        (
            MaterialKind::Glass { albedo: a1, normal: n1, index_of_refraction: i1 },
            MaterialKind::Glass { albedo: a2, normal: n2, index_of_refraction: i2 },
        ) => same_texture(a1, a2) && same_normal(n1, n2) && *i1 == *i2,
        (
            MaterialKind::Metal { albedo: a1, normal: n1, fuzz: f1 },
            MaterialKind::Metal { albedo: a2, normal: n2, fuzz: f2 },
        ) => same_texture(a1, a2) && same_normal(n1, n2) && *f1 == *f2,
        (
            MaterialKind::Light { color: c1, attenuation_half_length: h1 },
            MaterialKind::Light { color: c2, attenuation_half_length: h2 },
        ) => *c1 == *c2 && same_real_option(*h1, *h2),
        (
            MaterialKind::Blend { first: f1, second: s1, blend_factor: b1 },
            MaterialKind::Blend { first: f2, second: s2, blend_factor: b2 },
        ) => {
            let first = same_material(f1, f2);
            let second = same_material(s1, s2);
            first && second && *b1 == *b2
        },
        _ => false,
    }
}

fn copy_texture(t: &TextureKind) -> (r: TextureKind)
    ensures
        r == *t,
{
    match t {
        TextureKind::SolidColor(c) => TextureKind::SolidColor(*c),
        TextureKind::ImageMap(f) => TextureKind::ImageMap(f.clone()),
    }
}

fn copy_normal(n: &Option<String>) -> (r: Option<String>)
    ensures
        r == *n,
{
    match n {
        Some(f) => Some(f.clone()),
        None => None,
    }
}

/// A copy of a material.
pub fn copy_material(m: &MaterialKind) -> (r: MaterialKind)
    ensures
        r == *m,
    decreases m,
{
    match m {
        MaterialKind::Lambertian { albedo, normal } => MaterialKind::Lambertian {
            albedo: copy_texture(albedo),
            normal: copy_normal(normal),
        },
        MaterialKind::Glass { albedo, normal, index_of_refraction } => MaterialKind::Glass {
            albedo: copy_texture(albedo),
            normal: copy_normal(normal),
            index_of_refraction: *index_of_refraction,
        },
        MaterialKind::Metal { albedo, normal, fuzz } => MaterialKind::Metal {
            albedo: copy_texture(albedo),
            normal: copy_normal(normal),
            fuzz: *fuzz,
        },
        MaterialKind::Light { color, attenuation_half_length } => MaterialKind::Light {
            color: *color,
            attenuation_half_length: *attenuation_half_length,
        },
        MaterialKind::Blend { first, second, blend_factor } => MaterialKind::Blend {
            first: Box::new(copy_material(first)),
            second: Box::new(copy_material(second)),
            blend_factor: *blend_factor,
        },
    }
}

impl Fingerprint {
    /// The fingerprint of a model, from its resolved parts.
    pub fn of_model(
        path: &String,
        name: &String,
        material: &MaterialKind,
        transformations: &Vec<TransformKind>,
    ) -> (r: Fingerprint)
        ensures
            r@ == fp_model(path@, name@, *material, transformations@),
    {
        let mut ts: Vec<TransformKind> = Vec::with_capacity(transformations.len());
        let mut i: usize = 0;
        while i < transformations.len()
            invariant
                i <= transformations@.len(),
                ts@ == transformations@.subrange(0, i as int),
            decreases transformations@.len() - i,
        {
            ts.push(transformations[i]);
            assert(ts@ =~= transformations@.subrange(0, i + 1));
            i = i + 1;
        }
        assert(ts@ =~= transformations@);
        Fingerprint {
            path: path.clone(),
            name: name.clone(),
            material: copy_material(material),
            transformations: ts,
        }
    }

    /// Whether two fingerprints are the same.
    pub fn same_as(&self, other: &Fingerprint) -> (r: bool)
        ensures
            r == (self@ == other@),
    {
        if self.path != other.path || self.name != other.name || !same_material(
            &self.material,
            &other.material,
        ) || self.transformations.len() != other.transformations.len() {
            return false;
        }
        let mut t: usize = 0;
        while t < self.transformations.len()
            invariant
                t <= self.transformations@.len(),
                self.transformations@.len() == other.transformations@.len(),
                forall|j: int| 0 <= j < t ==> self.transformations@[j] == other.transformations@[j],
            decreases self.transformations@.len() - t,
        {
            if self.transformations[t] != other.transformations[t] {
                return false;
            }
            t = t + 1;
        }
        assert(self.transformations@ =~= other.transformations@);
        true
    }
}

} // verus!
