use vstd::prelude::*;

use crate::dims::present;
use crate::error::{NodeKind, SchemaError};
use crate::scalar::Real;

verus! {

/// The bounce limit of the path tracer when none is given.
pub const DEFAULT_MAX_DEPTH: u32 = 50;

/// `0.1`: the bloom kernel size, as a fraction of the image, when none is given.
pub const DEFAULT_KERNEL_SIZE_FRACTION_BITS: u64 = 0x3fb999999999999a;

/// The realistic shader: rays scatter until they leave the scene or the
/// bounce limit is reached.
#[derive(Clone, Copy, PartialEq, Eq, Structural, Debug)]
pub struct PathTracingShader {
    pub max_depth: Option<u32>,
}

/// Albedo and normal colour, with no scattering of light.
#[derive(Clone, Copy, PartialEq, Eq, Structural, Debug)]
pub struct SimpleShader {}

/// Shows the albedo colour of what a ray hits.
#[derive(Clone, Copy, PartialEq, Eq, Structural, Debug)]
pub struct AlbedoShader {}

/// Shows the surface normal where a ray hits.
#[derive(Clone, Copy, PartialEq, Eq, Structural, Debug)]
pub struct NormalShader {}

/// The shader choice of a scene: at most one alternative. With none, the path
/// tracer with its default bounce limit.
#[derive(Clone, Copy, PartialEq, Eq, Structural, Debug)]
pub struct Shader {
    pub path_tracing: Option<PathTracingShader>,
    pub simple: Option<SimpleShader>,
    pub albedo: Option<AlbedoShader>,
    pub normal: Option<NormalShader>,
}

/// A resolved shader, ready for the engine.
#[derive(Clone, Copy, PartialEq, Eq, Structural, Debug)]
pub enum ShaderKind {
    PathTracing { max_depth: u32 },
    Simple,
    Albedo,
    Normal,
}

/// Bloom on bright areas of the image.
#[derive(Clone, Copy, PartialEq, Eq, Structural, Debug)]
pub struct BloomPostProcessor {
    pub kernel_size_fraction: Option<Real>,
    pub threshold: Option<Real>,
    pub max_intensity: Option<Real>,
}

/// A de-noising filter.
#[derive(Clone, Copy, PartialEq, Eq, Structural, Debug)]
pub struct DenoisePostProcessor {}

/// One post-processing step: exactly one alternative must be given.
#[derive(Clone, Copy, PartialEq, Eq, Structural, Debug)]
pub struct PostProcessor {
    pub bloom: Option<BloomPostProcessor>,
    pub denoise: Option<DenoisePostProcessor>,
}

/// A resolved post-processing step.
#[derive(Clone, Copy, PartialEq, Eq, Structural, Debug)]
pub enum PostKind {
    Bloom { kernel_size_fraction: Real, threshold: Option<Real>, max_intensity: Option<Real> },
    Denoise,
}

impl PathTracingShader {
    pub open spec fn spec_create(self) -> ShaderKind {
        ShaderKind::PathTracing {
            max_depth: match self.max_depth {
                Some(d) => d,
                None => DEFAULT_MAX_DEPTH,
            },
        }
    }

    pub fn create(&self) -> (r: Result<ShaderKind, SchemaError>)
        ensures
            r == Ok::<ShaderKind, SchemaError>(self.spec_create()),
    {
        let max_depth = match self.max_depth {
            Some(d) => d,
            None => DEFAULT_MAX_DEPTH,
        };
        Ok(ShaderKind::PathTracing { max_depth })
    }
}

impl SimpleShader {
    pub fn create(&self) -> (r: Result<ShaderKind, SchemaError>)
        ensures
            r == Ok::<ShaderKind, SchemaError>(ShaderKind::Simple),
    {
        Ok(ShaderKind::Simple)
    }
}

impl AlbedoShader {
    pub fn create(&self) -> (r: Result<ShaderKind, SchemaError>)
        ensures
            r == Ok::<ShaderKind, SchemaError>(ShaderKind::Albedo),
    {
        Ok(ShaderKind::Albedo)
    }
}

impl NormalShader {
    pub fn create(&self) -> (r: Result<ShaderKind, SchemaError>)
        ensures
            r == Ok::<ShaderKind, SchemaError>(ShaderKind::Normal),
    {
        Ok(ShaderKind::Normal)
    }
}

impl Shader {
    pub open spec fn alternatives(self) -> nat {
        present(self.path_tracing) + present(self.simple) + present(self.albedo) + present(
            self.normal,
        )
    }

    pub open spec fn spec_create(self) -> Result<ShaderKind, SchemaError> {
        if self.alternatives() > 1 {
            Err(SchemaError::AmbiguousVariant(NodeKind::Shader))
        } else if self.path_tracing is Some {
            Ok(self.path_tracing.unwrap().spec_create())
        } else if self.simple is Some {
            Ok(ShaderKind::Simple)
        } else if self.albedo is Some {
            Ok(ShaderKind::Albedo)
        } else if self.normal is Some {
            Ok(ShaderKind::Normal)
        } else {
            Ok(ShaderKind::PathTracing { max_depth: DEFAULT_MAX_DEPTH })
        }
    }

    /// The shader with no alternative given.
    pub fn default() -> (r: Shader)
        ensures
            r.alternatives() == 0,
    {
        Shader { path_tracing: None, simple: None, albedo: None, normal: None }
    }

    /// Resolves the one given alternative, the default path tracer when none
    /// is given, and fails when more than one is.
    pub fn create(&self) -> (r: Result<ShaderKind, SchemaError>)
        ensures
            r == self.spec_create(),
    {
        match self {
            Shader { path_tracing: Some(p), simple: None, albedo: None, normal: None } => p.create(),
            Shader { path_tracing: None, simple: Some(s), albedo: None, normal: None } => s.create(),
            Shader { path_tracing: None, simple: None, albedo: Some(a), normal: None } => a.create(),
            Shader { path_tracing: None, simple: None, albedo: None, normal: Some(n) } => n.create(),
            Shader { path_tracing: None, simple: None, albedo: None, normal: None } => {
                PathTracingShader { max_depth: None }.create()
            },
            _ => Err(SchemaError::AmbiguousVariant(NodeKind::Shader)),
        }
    }
}

impl BloomPostProcessor {
    pub open spec fn spec_create(self) -> PostKind {
        PostKind::Bloom {
            kernel_size_fraction: match self.kernel_size_fraction {
                Some(k) => k,
                None => Real::of(DEFAULT_KERNEL_SIZE_FRACTION_BITS),
            },
            threshold: self.threshold,
            max_intensity: self.max_intensity,
        }
    }

    pub fn create(&self) -> (r: Result<PostKind, SchemaError>)
        ensures
            r == Ok::<PostKind, SchemaError>(self.spec_create()),
    {
        let kernel_size_fraction = match self.kernel_size_fraction {
            Some(k) => k,
            None => Real::from_bits(DEFAULT_KERNEL_SIZE_FRACTION_BITS),
        };
        Ok(
            PostKind::Bloom {
                kernel_size_fraction,
                threshold: self.threshold,
                max_intensity: self.max_intensity,
            },
        )
    }
}

impl DenoisePostProcessor {
    pub fn create(&self) -> (r: Result<PostKind, SchemaError>)
        ensures
            r == Ok::<PostKind, SchemaError>(PostKind::Denoise),
    {
        Ok(PostKind::Denoise)
    }
}

impl PostProcessor {
    pub open spec fn alternatives(self) -> nat {
        present(self.bloom) + present(self.denoise)
    }

    pub open spec fn spec_create(self) -> Result<PostKind, SchemaError> {
        if self.alternatives() > 1 {
            Err(SchemaError::AmbiguousVariant(NodeKind::PostProcessor))
        } else if self.bloom is Some {
            Ok(self.bloom.unwrap().spec_create())
        } else if self.denoise is Some {
            Ok(PostKind::Denoise)
        } else {
            Err(SchemaError::MissingVariant(NodeKind::PostProcessor))
        }
    }

    /// Resolves the one given alternative; there is no default.
    pub fn create(&self) -> (r: Result<PostKind, SchemaError>)
        ensures
            r == self.spec_create(),
    {
        match self {
            PostProcessor { bloom: Some(b), denoise: None } => b.create(),
            PostProcessor { bloom: None, denoise: Some(d) } => d.create(),
            PostProcessor { bloom: None, denoise: None } => Err(
                SchemaError::MissingVariant(NodeKind::PostProcessor),
            ),
            _ => Err(SchemaError::AmbiguousVariant(NodeKind::PostProcessor)),
        }
    }
}

} // verus!
