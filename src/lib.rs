//! Scene-description compiler and render-session controller for a path-tracing
//! desktop front end.
//!
//! The scene text, once expanded and deserialised, is a tree of loosely typed
//! nodes. The functions here validate that tree (each variant node selects at
//! most one alternative), fill in the documented defaults and produce a fully
//! resolved plan that a rendering engine can build from. The render-session
//! controller decides which job is current and which progress messages may
//! reach the visible snapshot.
mod cache;
mod dims;
mod docs;
mod editor;
mod error;
mod fingerprint;
mod help;
mod hittable;
mod material;
mod resolve;
mod rules;
mod scene;
mod scalar;
mod session;
mod shader;
mod transform;

pub use cache::{lemma_failed_model_is_miss, lemma_stored_model_is_hit, LoadError, ModelCache};
pub use dims::{
    CreatorContext, CustomWidthHeight, HalfScreenWidthHeight, QuarterScreenWidthHeight,
    ScreenWidthHeight, WidthHeight,
};
pub use docs::{
    get_documentation_structure_by_yaml_path, DocumentationStructure, FieldInfo, FieldType,
    HelpDocumentation,
};
pub use editor::{autocomplete, get_yaml_path, indent_new_line};
pub use error::{Dimension, ErrorInfo, NodeKind, SchemaError};
pub use fingerprint::{
    copy_material, lemma_fingerprint_identifies_model, same_material, Fingerprint,
    FingerprintView, MaterialView, TextureView,
};
pub use hittable::{
    Box, ConstantMedium, Hittable, HittableKind, HittableView, ObjModel, Quad, Sphere,
};
pub use material::{
    Blend, Glass, Image, Lambertian, Light, Material, MaterialKind, Metal, NormalTexture, Texture,
    TextureKind,
};
pub use rules::{lemma_ambiguous_variant_is_rejected, lemma_empty_variant_takes_default};
pub use scalar::{Pos, Real, Rgb};
pub use scene::{
    CameraConfig, CameraPlan, ImageStrategy, RenderConfig, RenderPlan, RenderPlanView, Scene,
    ScenePlan, ScenePlanView,
};
pub use session::{
    lemma_request_recovers, lemma_superseded_job_is_ignored, RenderControl, RenderMessage,
    RenderProgress, RenderStart, RenderedImage, SessionState,
};
pub use shader::{
    AlbedoShader, BloomPostProcessor, DenoisePostProcessor, NormalShader, PathTracingShader,
    PostKind, PostProcessor, Shader, ShaderKind, SimpleShader,
};
pub use transform::{create_transformation, TransformKind, Transformation};
