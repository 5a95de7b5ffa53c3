use vstd::prelude::*;

use crate::dims::{CreatorContext, WidthHeight};
use crate::error::SchemaError;
use crate::fingerprint::{fp_model, Fingerprint};
use crate::hittable::{Hittable, HittableKind, HittableView};
use crate::material::real_or;
use crate::resolve::{lemma_resolve_each_prefix_err, lemma_resolve_each_step, resolve_each};
use crate::scalar::{Pos, Real, Rgb, ONE_BITS, ZERO_BITS};
use crate::shader::{PostKind, PostProcessor, Shader, ShaderKind};

verus! {

/// `60.0`: the vertical field of view, in degrees, when none is given.
pub const DEFAULT_FOV_BITS: u64 = 0x404e000000000000;

/// The samples per pixel when none are given.
pub const DEFAULT_SAMPLES_PER_PIXEL: u32 = 50;

/// The least time between two preview images, in milliseconds, when none is
/// given.
pub const DEFAULT_PREVIEW_INTERVAL_MS: u64 = 1000;

/// Where the camera stands and where it looks.
#[derive(Clone, Copy, PartialEq, Eq, Structural, Debug)]
pub struct CameraConfig {
    pub vertical_fov_degrees: Option<Real>,
    pub aperture_size: Option<Real>,
    pub look_from: Pos,
    pub look_at: Option<Pos>,
    pub up: Option<Pos>,
}

/// A resolved camera.
#[derive(Clone, Copy, PartialEq, Eq, Structural, Debug)]
pub struct CameraPlan {
    pub vertical_fov_degrees: Real,
    pub aperture_size: Real,
    pub look_from: Pos,
    pub look_at: Pos,
    pub up: Pos,
}

/// General configuration of the renderer.
#[derive(PartialEq, Eq, Debug)]
pub struct RenderConfig {
    pub width_height: Option<WidthHeight>,
    pub samples_per_pixel: Option<u32>,
    pub shader: Option<Shader>,
    pub post_processors: Vec<PostProcessor>,
    pub preview_interval_ms: Option<u64>,
}

/// When the engine hands out preview images.
#[derive(Clone, Copy, PartialEq, Eq, Structural, Debug)]
pub enum ImageStrategy {
    /// After every sample.
    EverySample,
    /// At most once per this many milliseconds.
    Interval(u64),
}

/// A resolved render configuration.
#[derive(PartialEq, Eq, Debug)]
pub struct RenderPlan {
    pub width: usize,
    pub height: usize,
    pub samples_per_pixel: u32,
    pub shader: ShaderKind,
    pub post_processors: Vec<PostKind>,
    pub image_strategy: ImageStrategy,
}

pub struct RenderPlanView {
    pub width: usize,
    pub height: usize,
    pub samples_per_pixel: u32,
    pub shader: ShaderKind,
    pub post_processors: Seq<PostKind>,
    pub image_strategy: ImageStrategy,
}

impl View for RenderPlan {
    type V = RenderPlanView;

    open spec fn view(&self) -> RenderPlanView {
        RenderPlanView {
            width: self.width,
            height: self.height,
            samples_per_pixel: self.samples_per_pixel,
            shader: self.shader,
            post_processors: self.post_processors@,
            image_strategy: self.image_strategy,
        }
    }
}

/// The root of the scene description.
#[derive(PartialEq, Eq, Debug)]
pub struct Scene {
    pub render_configuration: Option<RenderConfig>,
    pub background_color: Option<Rgb>,
    pub camera: CameraConfig,
    pub world: Vec<Hittable>,
}

/// A compiled scene: every node resolved, every default filled in.
#[derive(PartialEq, Eq, Debug)]
pub struct ScenePlan {
    pub world: Vec<HittableKind>,
    pub camera: CameraPlan,
    pub background_color: Rgb,
    pub render_config: RenderPlan,
}

pub struct ScenePlanView {
    pub world: Seq<HittableView>,
    pub camera: CameraPlan,
    pub background_color: Rgb,
    pub render_config: RenderPlanView,
}

impl View for ScenePlan {
    type V = ScenePlanView;

    open spec fn view(&self) -> ScenePlanView {
        ScenePlanView {
            world: self.world@.map_values(|h: HittableKind| h@),
            camera: self.camera,
            background_color: self.background_color,
            render_config: self.render_config@,
        }
    }
}

impl CameraConfig {
    pub open spec fn spec_create(self) -> CameraPlan {
        CameraPlan {
            vertical_fov_degrees: real_or(self.vertical_fov_degrees, DEFAULT_FOV_BITS),
            aperture_size: real_or(self.aperture_size, ZERO_BITS),
            look_from: self.look_from,
            look_at: match self.look_at {
                Some(p) => p,
                None => Pos::origin(),
            },
            up: match self.up {
                Some(p) => p,
                None => Pos { x: Real::of(ZERO_BITS), y: Real::of(ONE_BITS), z: Real::of(ZERO_BITS) },
            },
        }
    }

    pub fn create(&self) -> (r: Result<CameraPlan, SchemaError>)
        ensures
            r == Ok::<CameraPlan, SchemaError>(self.spec_create()),
    {
        let zero = Real::from_bits(ZERO_BITS);
        Ok(
            CameraPlan {
                vertical_fov_degrees: match self.vertical_fov_degrees {
                    Some(v) => v,
                    None => Real::from_bits(DEFAULT_FOV_BITS),
                },
                aperture_size: match self.aperture_size {
                    Some(v) => v,
                    None => zero,
                },
                look_from: self.look_from,
                look_at: match self.look_at {
                    Some(p) => p,
                    None => Pos::new(zero, zero, zero),
                },
                up: match self.up {
                    Some(p) => p,
                    None => Pos::new(zero, Real::from_bits(ONE_BITS), zero),
                },
            },
        )
    }
}

pub open spec fn post_processors_spec(ps: Seq<PostProcessor>) -> Result<Seq<PostKind>, SchemaError> {
    resolve_each(ps, |p: PostProcessor| p.spec_create())
}

fn create_post_processors(ps: &Vec<PostProcessor>) -> (r: Result<Vec<PostKind>, SchemaError>)
    ensures
        match r {
            Ok(v) => post_processors_spec(ps@) == Ok::<Seq<PostKind>, SchemaError>(v@),
            Err(e) => post_processors_spec(ps@) == Err::<Seq<PostKind>, SchemaError>(e),
        },
{
    let ghost f = |p: PostProcessor| p.spec_create();
    let mut out: Vec<PostKind> = Vec::with_capacity(ps.len());
    let mut i: usize = 0;
    while i < ps.len()
        invariant
            i <= ps@.len(),
            f == (|p: PostProcessor| p.spec_create()),
            resolve_each(ps@.subrange(0, i as int), f) == Ok::<Seq<PostKind>, SchemaError>(out@),
        decreases ps@.len() - i,
    {
        proof {
            lemma_resolve_each_step(ps@, f, i as int);
        }
        match ps[i].create() {
            Ok(p) => {
                out.push(p);
            },
            Err(e) => {
                proof {
                    lemma_resolve_each_prefix_err(ps@, f, i + 1);
                }
                return Err(e);
            },
        }
        i = i + 1;
    }
    assert(ps@.subrange(0, i as int) =~= ps@);
    Ok(out)
}

pub open spec fn image_strategy_of(interval_ms: u64) -> ImageStrategy {
    if interval_ms == 0 {
        ImageStrategy::EverySample
    } else {
        ImageStrategy::Interval(interval_ms)
    }
}

impl RenderConfig {
    /// The configuration with nothing given.
    pub fn default() -> (r: RenderConfig)
        ensures
            r.width_height is None,
            r.samples_per_pixel is None,
            r.shader is None,
            r.post_processors@.len() == 0,
            r.preview_interval_ms is None,
    {
        RenderConfig {
            width_height: None,
            samples_per_pixel: None,
            shader: None,
            post_processors: Vec::new(),
            preview_interval_ms: None,
        }
    }

    pub open spec fn spec_create(&self, ctx: CreatorContext) -> Result<RenderPlanView, SchemaError> {
        let size = match self.width_height {
            Some(wh) => wh.spec_create(ctx),
            None => Ok((ctx.screen_width, ctx.screen_height)),
        };
        let shader = match self.shader {
            Some(s) => s.spec_create(),
            None => Ok(ShaderKind::PathTracing { max_depth: crate::shader::DEFAULT_MAX_DEPTH }),
        };
        match size {
            Err(e) => Err(e),
            Ok((width, height)) => match shader {
                Err(e) => Err(e),
                Ok(shader) => match post_processors_spec(self.post_processors@) {
                    Err(e) => Err(e),
                    Ok(post_processors) => Ok(
                        RenderPlanView {
                            width,
                            height,
                            samples_per_pixel: match self.samples_per_pixel {
                                Some(n) => n,
                                None => DEFAULT_SAMPLES_PER_PIXEL,
                            },
                            shader,
                            post_processors,
                            image_strategy: image_strategy_of(
                                match self.preview_interval_ms {
                                    Some(ms) => ms,
                                    None => DEFAULT_PREVIEW_INTERVAL_MS,
                                },
                            ),
                        },
                    ),
                },
            },
        }
    }

    /// Resolves the image size, the shader and the post-processors, in that
    /// order, and fills in the defaults.
    pub fn create(&self, ctx: &CreatorContext) -> (r: Result<RenderPlan, SchemaError>)
        ensures
            match r {
                Ok(p) => self.spec_create(*ctx) == Ok::<RenderPlanView, SchemaError>(p@),
                Err(e) => self.spec_create(*ctx) == Err::<RenderPlanView, SchemaError>(e),
            },
    {
        let (width, height) = match &self.width_height {
            Some(wh) => wh.create(ctx)?,
            None => WidthHeight::default().create(ctx)?,
        };
        let shader = match &self.shader {
            Some(s) => s.create()?,
            None => Shader::default().create()?,
        };
        let post_processors = create_post_processors(&self.post_processors)?;
        let interval = match self.preview_interval_ms {
            Some(ms) => ms,
            None => DEFAULT_PREVIEW_INTERVAL_MS,
        };
        let image_strategy = if interval == 0 {
            ImageStrategy::EverySample
        } else {
            ImageStrategy::Interval(interval)
        };
        Ok(
            RenderPlan {
                width,
                height,
                samples_per_pixel: match self.samples_per_pixel {
                    Some(n) => n,
                    None => DEFAULT_SAMPLES_PER_PIXEL,
                },
                shader,
                post_processors,
                image_strategy,
            },
        )
    }
}

/// What a scene without a render configuration renders with: the whole
/// render window, the default sample count, the path tracer, no
/// post-processing, and previews at the default interval.
pub open spec fn default_render_plan(ctx: CreatorContext) -> RenderPlanView {
    RenderPlanView {
        width: ctx.screen_width,
        height: ctx.screen_height,
        samples_per_pixel: DEFAULT_SAMPLES_PER_PIXEL,
        shader: ShaderKind::PathTracing { max_depth: crate::shader::DEFAULT_MAX_DEPTH },
        post_processors: Seq::empty(),
        image_strategy: ImageStrategy::Interval(DEFAULT_PREVIEW_INTERVAL_MS),
    }
}

pub open spec fn world_spec(world: Seq<Hittable>) -> Result<Seq<HittableView>, SchemaError> {
    resolve_each(world, |h: Hittable| h.spec_create())
}

fn create_world(world: &Vec<Hittable>) -> (r: Result<Vec<HittableKind>, SchemaError>)
    ensures
        match r {
            Ok(v) => world_spec(world@) == Ok::<Seq<HittableView>, SchemaError>(
                v@.map_values(|h: HittableKind| h@),
            ),
            Err(e) => world_spec(world@) == Err::<Seq<HittableView>, SchemaError>(e),
        },
{
    let ghost f = |h: Hittable| h.spec_create();
    let mut out: Vec<HittableKind> = Vec::with_capacity(world.len());
    assert(out@.map_values(|h: HittableKind| h@) =~= Seq::<HittableView>::empty());
    let mut i: usize = 0;
    while i < world.len()
        invariant
            i <= world@.len(),
            f == (|h: Hittable| h.spec_create()),
            resolve_each(world@.subrange(0, i as int), f) == Ok::<Seq<HittableView>, SchemaError>(
                out@.map_values(|h: HittableKind| h@),
            ),
        decreases world@.len() - i,
    {
        proof {
            lemma_resolve_each_step(world@, f, i as int);
        }
        match world[i].create() {
            Ok(h) => {
                let ghost before = out@;
                out.push(h);
                assert(out@.map_values(|h: HittableKind| h@) =~= before.map_values(
                    |h: HittableKind| h@,
                ).push(h@));
            },
            Err(e) => {
                proof {
                    lemma_resolve_each_prefix_err(world@, f, i + 1);
                }
                return Err(e);
            },
        }
        i = i + 1;
    }
    assert(world@.subrange(0, i as int) =~= world@);
    Ok(out)
}

impl Scene {
    pub open spec fn spec_create(&self, ctx: CreatorContext) -> Result<ScenePlanView, SchemaError> {
        match world_spec(self.world@) {
            Err(e) => Err(e),
            Ok(world) => {
                let render = match self.render_configuration {
                    Some(rc) => rc.spec_create(ctx),
                    None => Ok(default_render_plan(ctx)),
                };
                match render {
                    Err(e) => Err(e),
                    Ok(render_config) => Ok(
                        ScenePlanView {
                            world,
                            camera: self.camera.spec_create(),
                            background_color: match self.background_color {
                                Some(c) => c,
                                None => Rgb::grey(ZERO_BITS),
                            },
                            render_config,
                        },
                    ),
                }
            },
        }
    }

    /// Compiles the scene: the world's objects in order, then the camera, the
    /// background (black when none is given) and the render configuration.
    /// The first node that fails decides the error, and nothing else is
    /// returned.
    pub fn create(&self, ctx: &CreatorContext) -> (r: Result<ScenePlan, SchemaError>)
        ensures
            match r {
                Ok(p) => self.spec_create(*ctx) == Ok::<ScenePlanView, SchemaError>(p@),
                Err(e) => self.spec_create(*ctx) == Err::<ScenePlanView, SchemaError>(e),
            },
    {
        let world = create_world(&self.world)?;
        let camera = self.camera.create()?;
        let background_color = match self.background_color {
            Some(c) => c,
            None => {
                let zero = Real::from_bits(ZERO_BITS);
                Rgb::new(zero, zero, zero)
            },
        };
        let render_config = match &self.render_configuration {
            Some(rc) => rc.create(ctx)?,
            None => {
                let rc = RenderConfig::default();
                let p = rc.create(ctx)?;
                assert(p.post_processors@ =~= Seq::<PostKind>::empty());
                p
            },
        };
        Ok(ScenePlan { world, camera, background_color, render_config })
    }
}

/// The fingerprint that the model at `i` of a resolved world has, or none if
/// it is no model.
pub open spec fn model_fingerprint_at(world: Seq<HittableView>, i: int) -> Option<
    crate::fingerprint::FingerprintView,
> {
    match world[i] {
        HittableView::Model { path, name, material, transformations } => Some(
            fp_model(path, name, material, transformations),
        ),
        _ => None,
    }
}

impl ScenePlan {
    /// The models of the world, each with its position in the world and its
    /// fingerprint for the model cache, in world order.
    pub fn model_fingerprints(&self) -> (r: Vec<(usize, Fingerprint)>)
        ensures
            forall|k: int|
                0 <= k < r@.len() ==> {
                    &&& r@[k].0 < self.world@.len()
                    &&& model_fingerprint_at(self@.world, r@[k].0 as int) == Some(r@[k].1@)
                },
            forall|k: int, l: int| 0 <= k < l < r@.len() ==> r@[k].0 < r@[l].0,
            forall|i: int|
                0 <= i < self.world@.len() && model_fingerprint_at(self@.world, i) is Some
                    ==> exists|k: int| 0 <= k < r@.len() && r@[k].0 == i,
    {
        let mut r: Vec<(usize, Fingerprint)> = Vec::new();
        let mut i: usize = 0;
        while i < self.world.len()
            invariant
                i <= self.world@.len(),
                forall|k: int|
                    0 <= k < r@.len() ==> {
                        &&& r@[k].0 < i
                        &&& model_fingerprint_at(self@.world, r@[k].0 as int) == Some(r@[k].1@)
                    },
                forall|k: int, l: int| 0 <= k < l < r@.len() ==> r@[k].0 < r@[l].0,
                forall|j: int|
                    0 <= j < i && model_fingerprint_at(self@.world, j) is Some ==> exists|k: int|
                        0 <= k < r@.len() && r@[k].0 == j,
            decreases self.world@.len() - i,
        {
            assert(self@.world[i as int] == self.world@[i as int]@);
            match &self.world[i] {
                HittableKind::Model { path, name, material, transformations } => {
                    let fp = Fingerprint::of_model(path, name, material, transformations);
                    let ghost before = r@;
                    r.push((i, fp));
                    assert forall|j: int|
                        0 <= j < i + 1 && model_fingerprint_at(self@.world, j) is Some implies exists|
                        k: int,
                    | 0 <= k < r@.len() && r@[k].0 == j by {
                        if j < i {
                            let k = choose|k: int| 0 <= k < before.len() && before[k].0 == j;
                            assert(r@[k] == before[k]);
                        } else {
                            assert(r@[before.len() as int].0 == j);
                        }
                    }
                },
                _ => {},
            }
            i = i + 1;
        }
        r
    }
}

} // verus!
