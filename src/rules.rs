use vstd::prelude::*;

use crate::dims::{CreatorContext, WidthHeight};
use crate::error::{NodeKind, SchemaError};
use crate::hittable::Hittable;
use crate::material::{default_material, Material, MaterialKind, Texture};
use crate::shader::{PostProcessor, Shader, ShaderKind, DEFAULT_MAX_DEPTH};
use crate::transform::Transformation;

verus! {

/// A variant node with no alternative given compiles to its documented
/// default: a material to a white matte surface, a shader to the path tracer
/// with the default bounce limit, an image size to the whole render window.
pub proof fn lemma_empty_variant_takes_default(
    m: Material,
    s: Shader,
    wh: WidthHeight,
    ctx: CreatorContext,
)
    requires
        m.alternatives() == 0,
        s.alternatives() == 0,
        wh.alternatives() == 0,
    ensures
        m.spec_create() == Ok::<MaterialKind, SchemaError>(default_material()),
        s.spec_create() == Ok::<ShaderKind, SchemaError>(
            ShaderKind::PathTracing { max_depth: DEFAULT_MAX_DEPTH },
        ),
        wh.spec_create(ctx) == Ok::<(usize, usize), SchemaError>(
            (ctx.screen_width, ctx.screen_height),
        ),
{
}

/// A variant node with two or more alternatives given is always rejected as
/// ambiguous; no alternative is picked.
pub proof fn lemma_ambiguous_variant_is_rejected(
    wh: WidthHeight,
    ctx: CreatorContext,
    s: Shader,
    p: PostProcessor,
    t: Texture,
    m: Material,
    tr: Transformation,
    h: Hittable,
)
    ensures
        wh.alternatives() >= 2 ==> wh.spec_create(ctx) == Err::<(usize, usize), SchemaError>(
            SchemaError::AmbiguousVariant(NodeKind::WidthHeight),
        ),
        s.alternatives() >= 2 ==> s.spec_create() == Err::<ShaderKind, SchemaError>(
            SchemaError::AmbiguousVariant(NodeKind::Shader),
        ),
        p.alternatives() >= 2 ==> p.spec_create() is Err && p.spec_create()->Err_0
            == SchemaError::AmbiguousVariant(NodeKind::PostProcessor),
        t.alternatives() >= 2 ==> t.spec_create() is Err && t.spec_create()->Err_0
            == SchemaError::AmbiguousVariant(NodeKind::Texture),
        m.alternatives() >= 2 ==> m.spec_create() == Err::<MaterialKind, SchemaError>(
            SchemaError::AmbiguousVariant(NodeKind::Material),
        ),
        tr.alternatives() >= 2 ==> tr.spec_create() is Err && tr.spec_create()->Err_0
            == SchemaError::AmbiguousVariant(NodeKind::Transformation),
        h.alternatives() >= 2 ==> h.spec_create() is Err && h.spec_create()->Err_0
            == SchemaError::AmbiguousVariant(NodeKind::Hittable),
{
}

} // verus!
