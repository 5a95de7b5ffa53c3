use vstd::prelude::*;
use vstd::string::*;

use crate::dims::{
    CustomWidthHeight, HalfScreenWidthHeight, QuarterScreenWidthHeight, ScreenWidthHeight,
    WidthHeight,
};
use crate::docs::{deeper, field_names, DocumentationStructure, FieldInfo, FieldType, HelpDocumentation};
use crate::hittable::{Box, ConstantMedium, Hittable, ObjModel, Quad, Sphere};
use crate::material::{Blend, Glass, Image, Lambertian, Light, Material, Metal, NormalTexture, Texture};
use crate::scalar::{Pos, Rgb};
use crate::scene::{CameraConfig, RenderConfig, Scene};
use crate::shader::{
    AlbedoShader, BloomPostProcessor, DenoisePostProcessor, NormalShader, PathTracingShader,
    PostProcessor, Shader, SimpleShader,
};
use crate::transform::Transformation;

verus! {

/// Help text of `AlbedoShader`.
pub fn albedo_shader_docs(depth: u8) -> (r: DocumentationStructure)
    ensures
        field_names(r) == Seq::<Seq<char>>::empty(),
{
    let r = DocumentationStructure::new_simple(
        "A simple shader that just outputs the flat albedo color",
    );
    assert(field_names(r) =~= Seq::<Seq<char>>::empty());
    r
}

/// Help text of `Blend`.
fn blend_docs_at(depth: u8) -> (r: DocumentationStructure)
    requires
        depth <= 7,
    ensures
        field_names(r) == (if depth < 5 {
            seq!["first"@, "second"@, "blend_factor"@]
        } else {
            Seq::empty()
        }),
    decreases 15 - 2 * depth,
{
    let next = deeper(depth);
    let mut fields: Vec<(String, FieldInfo)> = Vec::new();
    if depth < 5 {
        fields.push((
            String::from_str("first"),
            FieldInfo::new(
                "The first underlying material that will be blended",
                FieldType::Normal,
                material_docs_at(next),
            ),
        ));
        fields.push((
            String::from_str("second"),
            FieldInfo::new(
                "The second underlying material that will be blended",
                FieldType::Normal,
                material_docs_at(next),
            ),
        ));
        fields.push((
            String::from_str("blend_factor"),
            FieldInfo::new_simple(
                "A factor of how much each of 'first' and 'second' will be blended",
                FieldType::Optional,
                "For example: 0 uses only 'first', 1 uses only 'second' and 0.5 uses equal amount of both materials. Defaults to 0.5",
            ),
        ));
    }
    let r = DocumentationStructure {
        description: String::from_str(
            "A blend of two underlying materials",
        ),
        fields,
    };
    assert(field_names(r) =~= (if depth < 5 {
        seq!["first"@, "second"@, "blend_factor"@]
    } else {
        Seq::empty()
    }));
    r
}

/// Help text of `BloomPostProcessor`.
pub fn bloom_post_processor_docs(depth: u8) -> (r: DocumentationStructure)
    ensures
        field_names(r) == seq!["kernel_size_fraction"@, "threshold"@, "max_intensity"@],
{
    let mut fields: Vec<(String, FieldInfo)> = Vec::new();
    fields.push((
        String::from_str("kernel_size_fraction"),
        FieldInfo::new_simple(
            "Size of the convolution filter applied to create the bloom effect",
            FieldType::Optional,
            "A float number expressed as a fraction of the image width. Defaults to 0.1",
        ),
    ));
    fields.push((
        String::from_str("threshold"),
        FieldInfo::new_simple(
            "Amount of brightness needed for bloom effect to be applied to a pixel",
            FieldType::Optional,
            "The threshold as the length of the color as a vector. Defaults to \"white\"",
        ),
    ));
    fields.push((
        String::from_str("max_intensity"),
        FieldInfo::new_simple(
            "Used to limit the intensity of the bloom effect",
            FieldType::Optional,
            "When applying the bloom effect pixels will be normalized to maximum this value. Defaults to unlimited",
        ),
    ));
    let r = DocumentationStructure {
        description: String::from_str(
            "A post processor that applies a bloom effect to bright areas of the image",
        ),
        fields,
    };
    assert(field_names(r) =~= seq!["kernel_size_fraction"@, "threshold"@, "max_intensity"@]);
    r
}

/// Help text of `Box`.
pub fn box_docs(depth: u8) -> (r: DocumentationStructure)
    ensures
        field_names(r) == seq!["a"@, "b"@, "material"@, "transformations"@],
{
    let next = deeper(depth);
    let mut fields: Vec<(String, FieldInfo)> = Vec::new();
    fields.push((
        String::from_str("a"),
        FieldInfo::new(
            "Position of a corner of the box",
            FieldType::Normal,
            pos_docs(next),
        ),
    ));
    fields.push((
        String::from_str("b"),
        FieldInfo::new(
            "Position of the corner opposite to 'a' of the box",
            FieldType::Normal,
            pos_docs(next),
        ),
    ));
    fields.push((
        String::from_str("material"),
        FieldInfo::new(
            "Material of the box",
            FieldType::Normal,
            material_docs(next),
        ),
    ));
    fields.push((
        String::from_str("transformations"),
        FieldInfo::new(
            "Transformations to be applied to the position and size of the box",
            FieldType::OptionalList,
            transformation_docs(next),
        ),
    ));
    let r = DocumentationStructure {
        description: String::from_str(
            "A hittable in the shape of a box",
        ),
        fields,
    };
    assert(field_names(r) =~= seq!["a"@, "b"@, "material"@, "transformations"@]);
    r
}

/// Help text of `CameraConfig`.
pub fn camera_config_docs(depth: u8) -> (r: DocumentationStructure)
    ensures
        field_names(r) == seq!["vertical_fov_degrees"@, "aperture_size"@, "look_from"@, "look_at"@, "up"@],
{
    let next = deeper(depth);
    let mut fields: Vec<(String, FieldInfo)> = Vec::new();
    fields.push((
        String::from_str("vertical_fov_degrees"),
        FieldInfo::new_simple(
            "Field of view for the camera in degrees. Defaults to 60",
            FieldType::Optional,
            "Amount of vertical field of view for the camera",
        ),
    ));
    fields.push((
        String::from_str("aperture_size"),
        FieldInfo::new_simple(
            "Aperture is defined by the size of the opening through which light can enter the camera. A higher value gives a more shallow depth of field",
            FieldType::Optional,
            "The radius of the aperture. Defaults to 0",
        ),
    ));
    fields.push((
        String::from_str("look_from"),
        FieldInfo::new(
            "Position where the camera is located",
            FieldType::Normal,
            pos_docs(next),
        ),
    ));
    fields.push((
        String::from_str("look_at"),
        FieldInfo::new(
            "Position the camera is pointed at. Defaults to 0, 0, 0",
            FieldType::Optional,
            pos_docs(next),
        ),
    ));
    fields.push((
        String::from_str("up"),
        FieldInfo::new(
            "A vector pointing in the 'up' direction of the camera. Default to 0, 1, 0 to have y pointing upwards",
            FieldType::Optional,
            pos_docs(next),
        ),
    ));
    let r = DocumentationStructure {
        description: String::from_str(
            "Describes the location, orientation and other properties of the camera in the scene",
        ),
        fields,
    };
    assert(field_names(r) =~= seq!["vertical_fov_degrees"@, "aperture_size"@, "look_from"@, "look_at"@, "up"@]);
    r
}

/// Help text of `ConstantMedium`.
pub fn constant_medium_docs(depth: u8) -> (r: DocumentationStructure)
    ensures
        field_names(r) == seq!["a"@, "b"@, "density"@, "color"@],
{
    let next = deeper(depth);
    let mut fields: Vec<(String, FieldInfo)> = Vec::new();
    fields.push((
        String::from_str("a"),
        FieldInfo::new(
            "Position of a corner of the box containing the fog",
            FieldType::Normal,
            pos_docs(next),
        ),
    ));
    fields.push((
        String::from_str("b"),
        FieldInfo::new(
            "Position of the corner opposite to 'a' of the box containing the fog",
            FieldType::Normal,
            pos_docs(next),
        ),
    ));
    fields.push((
        String::from_str("density"),
        FieldInfo::new_simple(
            "Density of the fog",
            FieldType::Optional,
            "A higher density increases the probability for a ray to scatter in a given range. Defaults to 0.01",
        ),
    ));
    fields.push((
        String::from_str("color"),
        FieldInfo::new(
            "Color of the fog material. Defaults to 0.9, 0.9, 0.9",
            FieldType::Optional,
            rgb_docs(next),
        ),
    ));
    let r = DocumentationStructure {
        description: String::from_str(
            "A fog type hittable object where rays not only scatter at the edge of the object, but at random points inside the object. Which gives a fog-like material.",
        ),
        fields,
    };
    assert(field_names(r) =~= seq!["a"@, "b"@, "density"@, "color"@]);
    r
}

/// Help text of `CustomWidthHeight`.
pub fn custom_width_height_docs(depth: u8) -> (r: DocumentationStructure)
    ensures
        field_names(r) == seq!["width"@, "height"@],
{
    let mut fields: Vec<(String, FieldInfo)> = Vec::new();
    fields.push((
        String::from_str("width"),
        FieldInfo::new_simple(
            "Width in pixels",
            FieldType::Normal,
            "Width in pixels",
        ),
    ));
    fields.push((
        String::from_str("height"),
        FieldInfo::new_simple(
            "Height in pixels",
            FieldType::Normal,
            "Height in pixels",
        ),
    ));
    let r = DocumentationStructure {
        description: String::from_str(
            "Custom width and height",
        ),
        fields,
    };
    assert(field_names(r) =~= seq!["width"@, "height"@]);
    r
}

/// Help text of `DenoisePostProcessor`.
pub fn denoise_post_processor_docs(depth: u8) -> (r: DocumentationStructure)
    ensures
        field_names(r) == Seq::<Seq<char>>::empty(),
{
    let r = DocumentationStructure::new_simple(
        "A post processor that applies a de-noising filter to the image. Which gives the appearance of a higher number of samples rendered.",
    );
    assert(field_names(r) =~= Seq::<Seq<char>>::empty());
    r
}

/// Help text of `Glass`.
pub fn glass_docs(depth: u8) -> (r: DocumentationStructure)
    ensures
        field_names(r) == seq!["albedo"@, "normal"@, "index_of_refraction"@],
{
    let next = deeper(depth);
    let mut fields: Vec<(String, FieldInfo)> = Vec::new();
    fields.push((
        String::from_str("albedo"),
        FieldInfo::new(
            "Texture for the material's albedo color",
            FieldType::Optional,
            texture_docs(next),
        ),
    ));
    fields.push((
        String::from_str("normal"),
        FieldInfo::new(
            "Texture for the material's normals. Used to give the illusion of fine structure of the hittable",
            FieldType::Optional,
            normal_texture_docs(next),
        ),
    ));
    fields.push((
        String::from_str("index_of_refraction"),
        FieldInfo::new_simple(
            "The refractive index determines how much the path of light is bent, or refracted, when entering a material",
            FieldType::Optional,
            "For example, glass normally has 1.5 and water 1.33. Defaults to 1.5",
        ),
    ));
    let r = DocumentationStructure {
        description: String::from_str(
            "A dielectric material which has a glass-like appearance",
        ),
        fields,
    };
    assert(field_names(r) =~= seq!["albedo"@, "normal"@, "index_of_refraction"@]);
    r
}

/// Help text of `HalfScreenWidthHeight`.
pub fn half_screen_width_height_docs(depth: u8) -> (r: DocumentationStructure)
    ensures
        field_names(r) == Seq::<Seq<char>>::empty(),
{
    let r = DocumentationStructure::new_simple(
        "The width and height is half of the visible render window in each dimension",
    );
    assert(field_names(r) =~= Seq::<Seq<char>>::empty());
    r
}

/// Help text of `Hittable`.
pub fn hittable_docs(depth: u8) -> (r: DocumentationStructure)
    ensures
        field_names(r) == seq!["sphere"@, "model"@, "quad"@, "box"@, "constant_medium"@],
{
    let next = deeper(depth);
    let mut fields: Vec<(String, FieldInfo)> = Vec::new();
    fields.push((
        String::from_str("sphere"),
        FieldInfo::new(
            "A sphere object",
            FieldType::Optional,
            sphere_docs(next),
        ),
    ));
    fields.push((
        String::from_str("model"),
        FieldInfo::new(
            "A model is loaded from an .obj file. And contains a 3d model composed by triangles with materials",
            FieldType::Optional,
            obj_model_docs(next),
        ),
    ));
    fields.push((
        String::from_str("quad"),
        FieldInfo::new(
            "A quad is a flat rectangular object",
            FieldType::Optional,
            quad_docs(next),
        ),
    ));
    fields.push((
        String::from_str("box"),
        FieldInfo::new(
            "A cuboid object consisting of 6 quads",
            FieldType::Optional,
            box_docs(next),
        ),
    ));
    fields.push((
        String::from_str("constant_medium"),
        FieldInfo::new(
            "A box shaped hittable object with a fog-type material",
            FieldType::Optional,
            constant_medium_docs(next),
        ),
    ));
    let r = DocumentationStructure {
        description: String::from_str(
            "Objects that are hittable by rays shot by the ray tracer",
        ),
        fields,
    };
    assert(field_names(r) =~= seq!["sphere"@, "model"@, "quad"@, "box"@, "constant_medium"@]);
    r
}

/// Help text of `Image`.
pub fn image_docs(depth: u8) -> (r: DocumentationStructure)
    ensures
        field_names(r) == seq!["file"@],
{
    let mut fields: Vec<(String, FieldInfo)> = Vec::new();
    fields.push((
        String::from_str("file"),
        FieldInfo::new_simple(
            "Path to the image file",
            FieldType::Normal,
            "An absolute path to the texture image file",
        ),
    ));
    let r = DocumentationStructure {
        description: String::from_str(
            "A texture where the colors for a coordinate is looked up from an image file",
        ),
        fields,
    };
    assert(field_names(r) =~= seq!["file"@]);
    r
}

/// Help text of `Lambertian`.
pub fn lambertian_docs(depth: u8) -> (r: DocumentationStructure)
    ensures
        field_names(r) == seq!["albedo"@, "normal"@],
{
    let next = deeper(depth);
    let mut fields: Vec<(String, FieldInfo)> = Vec::new();
    fields.push((
        String::from_str("albedo"),
        FieldInfo::new(
            "Texture for the material's albedo color",
            FieldType::Optional,
            texture_docs(next),
        ),
    ));
    fields.push((
        String::from_str("normal"),
        FieldInfo::new(
            "Texture for the material's normals. Used to give the illusion of fine structure of the hittable",
            FieldType::Optional,
            normal_texture_docs(next),
        ),
    ));
    let r = DocumentationStructure {
        description: String::from_str(
            "A material with the appearance of a matte surface",
        ),
        fields,
    };
    assert(field_names(r) =~= seq!["albedo"@, "normal"@]);
    r
}

/// Help text of `Light`.
pub fn light_docs(depth: u8) -> (r: DocumentationStructure)
    ensures
        field_names(r) == seq!["color"@, "attenuation_half_length"@],
{
    let next = deeper(depth);
    let mut fields: Vec<(String, FieldInfo)> = Vec::new();
    fields.push((
        String::from_str("color"),
        FieldInfo::new(
            "The color of the light being emitted. The intensity of color is normally way over 1. Defaults to 15, 15, 15",
            FieldType::Optional,
            rgb_docs(next),
        ),
    ));
    fields.push((
        String::from_str("attenuation_half_length"),
        FieldInfo::new_simple(
            "Attenuation is the amount of intensity lost the further away from the light source",
            FieldType::Optional,
            "The length at which the light has lost half it's intensity",
        ),
    ));
    let r = DocumentationStructure {
        description: String::from_str(
            "A material that emits light",
        ),
        fields,
    };
    assert(field_names(r) =~= seq!["color"@, "attenuation_half_length"@]);
    r
}

/// Help text of `Material`.
fn material_docs_at(depth: u8) -> (r: DocumentationStructure)
    requires
        depth <= 6,
    ensures
        field_names(r) == seq!["lambertian"@, "glass"@, "metal"@, "light"@, "blend"@],
    decreases 14 - 2 * depth,
{
    let next = deeper(depth);
    let mut fields: Vec<(String, FieldInfo)> = Vec::new();
    fields.push((
        String::from_str("lambertian"),
        FieldInfo::new(
            "A material with the appearance of a matte surface",
            FieldType::Optional,
            lambertian_docs(next),
        ),
    ));
    fields.push((
        String::from_str("glass"),
        FieldInfo::new(
            "A dielectric material which has a glass-like appearance",
            FieldType::Optional,
            glass_docs(next),
        ),
    ));
    fields.push((
        String::from_str("metal"),
        FieldInfo::new(
            "A reflective material that gives a metallic appearance",
            FieldType::Optional,
            metal_docs(next),
        ),
    ));
    fields.push((
        String::from_str("light"),
        FieldInfo::new(
            "A material that emits light",
            FieldType::Optional,
            light_docs(next),
        ),
    ));
    fields.push((
        String::from_str("blend"),
        FieldInfo::new(
            "A material that is a blend of two underlying materials",
            FieldType::Optional,
            blend_docs_at(next),
        ),
    ));
    let r = DocumentationStructure {
        description: String::from_str(
            "A material gives hittable objects it's looks as they scatter the light differently",
        ),
        fields,
    };
    assert(field_names(r) =~= seq!["lambertian"@, "glass"@, "metal"@, "light"@, "blend"@]);
    r
}

/// Help text of `Metal`.
pub fn metal_docs(depth: u8) -> (r: DocumentationStructure)
    ensures
        field_names(r) == seq!["albedo"@, "normal"@, "fuzz"@],
{
    let next = deeper(depth);
    let mut fields: Vec<(String, FieldInfo)> = Vec::new();
    fields.push((
        String::from_str("albedo"),
        FieldInfo::new(
            "Texture for the material's albedo color",
            FieldType::Optional,
            texture_docs(next),
        ),
    ));
    fields.push((
        String::from_str("normal"),
        FieldInfo::new(
            "Texture for the material's normals. Used to give the illusion of fine structure of the hittable",
            FieldType::Optional,
            normal_texture_docs(next),
        ),
    ));
    fields.push((
        String::from_str("fuzz"),
        FieldInfo::new_simple(
            "The smoothness of the material",
            FieldType::Optional,
            "The fraction of randomness for the ray scattering direction. Defaults to 0.05",
        ),
    ));
    let r = DocumentationStructure {
        description: String::from_str(
            "A reflective material that gives a metallic appearance",
        ),
        fields,
    };
    assert(field_names(r) =~= seq!["albedo"@, "normal"@, "fuzz"@]);
    r
}

/// Help text of `NormalShader`.
pub fn normal_shader_docs(depth: u8) -> (r: DocumentationStructure)
    ensures
        field_names(r) == Seq::<Seq<char>>::empty(),
{
    let r = DocumentationStructure::new_simple(
        "A simple shader that outputs a color representing the normal of the hittable of the ray's intersection point",
    );
    assert(field_names(r) =~= Seq::<Seq<char>>::empty());
    r
}

/// Help text of `NormalTexture`.
pub fn normal_texture_docs(depth: u8) -> (r: DocumentationStructure)
    ensures
        field_names(r) == seq!["file"@],
{
    let mut fields: Vec<(String, FieldInfo)> = Vec::new();
    fields.push((
        String::from_str("file"),
        FieldInfo::new_simple(
            "A normal map image file",
            FieldType::Normal,
            "The absolute file path to an image file for the normals, can be either a height map or a normal map.",
        ),
    ));
    let r = DocumentationStructure {
        description: String::from_str(
            "A texture for the normals of a hittable",
        ),
        fields,
    };
    assert(field_names(r) =~= seq!["file"@]);
    r
}

/// Help text of `ObjModel`.
pub fn obj_model_docs(depth: u8) -> (r: DocumentationStructure)
    ensures
        field_names(r) == seq!["path"@, "name"@, "material"@, "transformations"@],
{
    let next = deeper(depth);
    let mut fields: Vec<(String, FieldInfo)> = Vec::new();
    fields.push((
        String::from_str("path"),
        FieldInfo::new_simple(
            "Path to the folder containing the .obj file",
            FieldType::Normal,
            "Absolute path to the folder containing the .obj file",
        ),
    ));
    fields.push((
        String::from_str("name"),
        FieldInfo::new_simple(
            "File name of the .obj file",
            FieldType::Normal,
            "File name of the .obj file",
        ),
    ));
    fields.push((
        String::from_str("material"),
        FieldInfo::new(
            "The default material used on the model when no material exists in the file",
            FieldType::Optional,
            material_docs(next),
        ),
    ));
    fields.push((
        String::from_str("transformations"),
        FieldInfo::new(
            "Transformations to be applied to the position and size of the model",
            FieldType::List,
            transformation_docs(next),
        ),
    ));
    let r = DocumentationStructure {
        description: String::from_str(
            "A model is loaded from an .obj file. And contains a 3d model composed by triangles with materials",
        ),
        fields,
    };
    assert(field_names(r) =~= seq!["path"@, "name"@, "material"@, "transformations"@]);
    r
}

/// Help text of `PathTracingShader`.
pub fn path_tracing_shader_docs(depth: u8) -> (r: DocumentationStructure)
    ensures
        field_names(r) == seq!["max_depth"@],
{
    let mut fields: Vec<(String, FieldInfo)> = Vec::new();
    fields.push((
        String::from_str("max_depth"),
        FieldInfo::new_simple(
            "Max number of bounces for each ray shot from the camera",
            FieldType::Optional,
            "Max number of bounces. No more scattering of the ray is done when this is exceeded. Defaults to 50",
        ),
    ));
    let r = DocumentationStructure {
        description: String::from_str(
            "The main shader for this renderer. Gives the most realistic output",
        ),
        fields,
    };
    assert(field_names(r) =~= seq!["max_depth"@]);
    r
}

/// Help text of `Pos`.
pub fn pos_docs(depth: u8) -> (r: DocumentationStructure)
    ensures
        field_names(r) == Seq::<Seq<char>>::empty(),
{
    let r = DocumentationStructure::new_simple(
        "Value describing an X, Y, Z position in space. For example: 1.0, 2.0, -3.0",
    );
    assert(field_names(r) =~= Seq::<Seq<char>>::empty());
    r
}

/// Help text of `PostProcessor`.
pub fn post_processor_docs(depth: u8) -> (r: DocumentationStructure)
    ensures
        field_names(r) == seq!["bloom"@, "denoise"@],
{
    let next = deeper(depth);
    let mut fields: Vec<(String, FieldInfo)> = Vec::new();
    fields.push((
        String::from_str("bloom"),
        FieldInfo::new(
            "A post processor that applies a bloom effect to bright areas of the image",
            FieldType::Optional,
            bloom_post_processor_docs(next),
        ),
    ));
    fields.push((
        String::from_str("denoise"),
        FieldInfo::new(
            "A post processor that applies a de-noising filter to the image. Which gives the appearance of a higher number of samples rendered.",
            FieldType::Optional,
            denoise_post_processor_docs(next),
        ),
    ));
    let r = DocumentationStructure {
        description: String::from_str(
            "A post processor is applied to the image after rendering for various effects",
        ),
        fields,
    };
    assert(field_names(r) =~= seq!["bloom"@, "denoise"@]);
    r
}

/// Help text of `Quad`.
pub fn quad_docs(depth: u8) -> (r: DocumentationStructure)
    ensures
        field_names(r) == seq!["q"@, "u"@, "v"@, "material"@, "transformations"@],
{
    let next = deeper(depth);
    let mut fields: Vec<(String, FieldInfo)> = Vec::new();
    fields.push((
        String::from_str("q"),
        FieldInfo::new(
            "Position of a corner of the quad",
            FieldType::Normal,
            pos_docs(next),
        ),
    ));
    fields.push((
        String::from_str("u"),
        FieldInfo::new(
            "Direction of the first edge from 'q'",
            FieldType::Normal,
            pos_docs(next),
        ),
    ));
    fields.push((
        String::from_str("v"),
        FieldInfo::new(
            "Direction of the other edge from 'q'",
            FieldType::Normal,
            pos_docs(next),
        ),
    ));
    fields.push((
        String::from_str("material"),
        FieldInfo::new(
            "Material of the quad",
            FieldType::Normal,
            material_docs(next),
        ),
    ));
    fields.push((
        String::from_str("transformations"),
        FieldInfo::new(
            "Transformations to be applied to the position and size of the quad",
            FieldType::OptionalList,
            transformation_docs(next),
        ),
    ));
    let r = DocumentationStructure {
        description: String::from_str(
            "A flat rectangular hittable object",
        ),
        fields,
    };
    assert(field_names(r) =~= seq!["q"@, "u"@, "v"@, "material"@, "transformations"@]);
    r
}

/// Help text of `QuarterScreenWidthHeight`.
pub fn quarter_screen_width_height_docs(depth: u8) -> (r: DocumentationStructure)
    ensures
        field_names(r) == Seq::<Seq<char>>::empty(),
{
    let r = DocumentationStructure::new_simple(
        "The width and height is quarter of the visible render window in each dimension",
    );
    assert(field_names(r) =~= Seq::<Seq<char>>::empty());
    r
}

/// Help text of `RenderConfig`.
pub fn render_config_docs(depth: u8) -> (r: DocumentationStructure)
    ensures
        field_names(r) == seq!["width_height"@, "samples_per_pixel"@, "shader"@, "post_processors"@, "preview_interval_ms"@],
{
    let next = deeper(depth);
    let mut fields: Vec<(String, FieldInfo)> = Vec::new();
    fields.push((
        String::from_str("width_height"),
        FieldInfo::new(
            "The width and height of the rendered image. Defaults to the size of the render window",
            FieldType::Optional,
            width_height_docs(next),
        ),
    ));
    fields.push((
        String::from_str("samples_per_pixel"),
        FieldInfo::new_simple(
            "Number of rays shot for each pixel. More rays gives less noisy image but takes longer time",
            FieldType::Optional,
            "Count of rays shot per pixel",
        ),
    ));
    fields.push((
        String::from_str("shader"),
        FieldInfo::new(
            "A shader is responsible for coloring the pixels where a ray has hit an object",
            FieldType::Optional,
            shader_docs(next),
        ),
    ));
    fields.push((
        String::from_str("post_processors"),
        FieldInfo::new(
            "A post processor is applied to the image after rendering for various effects",
            FieldType::List,
            post_processor_docs(next),
        ),
    ));
    fields.push((
        String::from_str("preview_interval_ms"),
        FieldInfo::new_simple(
            "The minimum amount of milliseconds between preview images being generated by the renderer",
            FieldType::Optional,
            "Milliseconds between preview images",
        ),
    ));
    let r = DocumentationStructure {
        description: String::from_str(
            "General configuration for the renderer",
        ),
        fields,
    };
    assert(field_names(r) =~= seq!["width_height"@, "samples_per_pixel"@, "shader"@, "post_processors"@, "preview_interval_ms"@]);
    r
}

/// Help text of `Rgb`.
pub fn rgb_docs(depth: u8) -> (r: DocumentationStructure)
    ensures
        field_names(r) == Seq::<Seq<char>>::empty(),
{
    let r = DocumentationStructure::new_simple(
        "Value describing an R, G, B color. For example: 1, 1, 0 for yellow or 0.5, 0.5, 0.5 for gray",
    );
    assert(field_names(r) =~= Seq::<Seq<char>>::empty());
    r
}

/// Help text of `Scene`.
pub fn scene_docs(depth: u8) -> (r: DocumentationStructure)
    ensures
        field_names(r) == seq!["render_configuration"@, "background_color"@, "camera"@, "world"@],
{
    let next = deeper(depth);
    let mut fields: Vec<(String, FieldInfo)> = Vec::new();
    fields.push((
        String::from_str("render_configuration"),
        FieldInfo::new(
            "General configuration for the renderer",
            FieldType::Optional,
            render_config_docs(next),
        ),
    ));
    fields.push((
        String::from_str("background_color"),
        FieldInfo::new(
            "The resulting pixel color for when a ray hits nothing. Defaults to black",
            FieldType::Optional,
            rgb_docs(next),
        ),
    ));
    fields.push((
        String::from_str("camera"),
        FieldInfo::new(
            "Describes the camera used in the scene",
            FieldType::Normal,
            camera_config_docs(next),
        ),
    ));
    fields.push((
        String::from_str("world"),
        FieldInfo::new(
            "Contains all hittable objects that are visible in the scene",
            FieldType::List,
            hittable_docs(next),
        ),
    ));
    let r = DocumentationStructure {
        description: String::from_str(
            "The scene YAML is used to configure all aspects of the rendered image.\n\n\
            To help with repetitive configuration the yaml can be templated using Tera templates. For example: \n\n\
            {% for x in range(end=10) %}\n\
            \x20\x20- sphere:\n\
            \x20\x20\x20\x20\x20\x20center: {{ x }}, 0, 0\n\
            \x20\x20\x20\x20\x20\x20radius: 1\n\
            {% endfor %}\n\n\
            Use ctrl+space to autocomplete configuration keys and ctrl+r to restart the rendering\n\n\
            Progress bar shows percentage completed, remaining time, FPS (frames rendered per second) and MPPS (Million pixel samples rendered per second)",
        ),
        fields,
    };
    assert(field_names(r) =~= seq!["render_configuration"@, "background_color"@, "camera"@, "world"@]);
    r
}

/// Help text of `ScreenWidthHeight`.
pub fn screen_width_height_docs(depth: u8) -> (r: DocumentationStructure)
    ensures
        field_names(r) == Seq::<Seq<char>>::empty(),
{
    let r = DocumentationStructure::new_simple(
        "The width and height is the same as the visible render window",
    );
    assert(field_names(r) =~= Seq::<Seq<char>>::empty());
    r
}

/// Help text of `Shader`.
pub fn shader_docs(depth: u8) -> (r: DocumentationStructure)
    ensures
        field_names(r) == seq!["path_tracing"@, "simple"@, "albedo"@, "normal"@],
{
    let next = deeper(depth);
    let mut fields: Vec<(String, FieldInfo)> = Vec::new();
    fields.push((
        String::from_str("path_tracing"),
        FieldInfo::new(
            "A path tracing shader",
            FieldType::Optional,
            path_tracing_shader_docs(next),
        ),
    ));
    fields.push((
        String::from_str("simple"),
        FieldInfo::new(
            "Combines albedo and normal color without any light scattering",
            FieldType::Optional,
            simple_shader_docs(next),
        ),
    ));
    fields.push((
        String::from_str("albedo"),
        FieldInfo::new(
            "A simple shader that just shows the hittable's albedo color",
            FieldType::Optional,
            albedo_shader_docs(next),
        ),
    ));
    fields.push((
        String::from_str("normal"),
        FieldInfo::new(
            "Shader for displaying the normals of where rays intersect with hittables",
            FieldType::Optional,
            normal_shader_docs(next),
        ),
    ));
    let r = DocumentationStructure {
        description: String::from_str(
            "A shader is responsible for coloring the pixels where a ray has hit an object",
        ),
        fields,
    };
    assert(field_names(r) =~= seq!["path_tracing"@, "simple"@, "albedo"@, "normal"@]);
    r
}

/// Help text of `SimpleShader`.
pub fn simple_shader_docs(depth: u8) -> (r: DocumentationStructure)
    ensures
        field_names(r) == Seq::<Seq<char>>::empty(),
{
    let r = DocumentationStructure::new_simple(
        "Combines albedo and normal color without any light scattering",
    );
    assert(field_names(r) =~= Seq::<Seq<char>>::empty());
    r
}

/// Help text of `Sphere`.
pub fn sphere_docs(depth: u8) -> (r: DocumentationStructure)
    ensures
        field_names(r) == seq!["center"@, "radius"@, "material"@],
{
    let next = deeper(depth);
    let mut fields: Vec<(String, FieldInfo)> = Vec::new();
    fields.push((
        String::from_str("center"),
        FieldInfo::new(
            "Position of the sphere's center",
            FieldType::Normal,
            pos_docs(next),
        ),
    ));
    fields.push((
        String::from_str("radius"),
        FieldInfo::new_simple(
            "Radius of the sphere",
            FieldType::Normal,
            "Radius of the sphere",
        ),
    ));
    fields.push((
        String::from_str("material"),
        FieldInfo::new(
            "Material of the sphere",
            FieldType::Optional,
            material_docs(next),
        ),
    ));
    let r = DocumentationStructure {
        description: String::from_str(
            "A sphere hittable object",
        ),
        fields,
    };
    assert(field_names(r) =~= seq!["center"@, "radius"@, "material"@]);
    r
}

/// Help text of `Texture`.
pub fn texture_docs(depth: u8) -> (r: DocumentationStructure)
    ensures
        field_names(r) == seq!["color"@, "image"@],
{
    let next = deeper(depth);
    let mut fields: Vec<(String, FieldInfo)> = Vec::new();
    fields.push((
        String::from_str("color"),
        FieldInfo::new(
            "Simple one-color texture",
            FieldType::Optional,
            rgb_docs(next),
        ),
    ));
    fields.push((
        String::from_str("image"),
        FieldInfo::new(
            "Texture where the color of each coordinate is read from an image file",
            FieldType::Optional,
            image_docs(next),
        ),
    ));
    let r = DocumentationStructure {
        description: String::from_str(
            "A texture defines the color of hittable objects",
        ),
        fields,
    };
    assert(field_names(r) =~= seq!["color"@, "image"@]);
    r
}

/// Help text of `Transformation`.
pub fn transformation_docs(depth: u8) -> (r: DocumentationStructure)
    ensures
        field_names(r) == seq!["translation"@, "scale"@, "rotation_x"@, "rotation_y"@, "rotation_z"@],
{
    let next = deeper(depth);
    let mut fields: Vec<(String, FieldInfo)> = Vec::new();
    fields.push((
        String::from_str("translation"),
        FieldInfo::new(
            "Moves the hittable by the given offset",
            FieldType::Optional,
            pos_docs(next),
        ),
    ));
    fields.push((
        String::from_str("scale"),
        FieldInfo::new_simple(
            "Scales the hittable uniformly by the given factor",
            FieldType::Optional,
            "Scaling factor",
        ),
    ));
    fields.push((
        String::from_str("rotation_x"),
        FieldInfo::new_simple(
            "Rotates the hittable around the X axis",
            FieldType::Optional,
            "Rotation in degrees",
        ),
    ));
    fields.push((
        String::from_str("rotation_y"),
        FieldInfo::new_simple(
            "Rotates the hittable around the Y axis",
            FieldType::Optional,
            "Rotation in degrees",
        ),
    ));
    fields.push((
        String::from_str("rotation_z"),
        FieldInfo::new_simple(
            "Rotates the hittable around the Z axis",
            FieldType::Optional,
            "Rotation in degrees",
        ),
    ));
    let r = DocumentationStructure {
        description: String::from_str(
            "Changes a hittables position, rotation and / or size",
        ),
        fields,
    };
    assert(field_names(r) =~= seq!["translation"@, "scale"@, "rotation_x"@, "rotation_y"@, "rotation_z"@]);
    r
}

/// Help text of `WidthHeight`.
pub fn width_height_docs(depth: u8) -> (r: DocumentationStructure)
    ensures
        field_names(r) == seq!["screen"@, "half_screen"@, "quarter_screen"@, "custom"@],
{
    let next = deeper(depth);
    let mut fields: Vec<(String, FieldInfo)> = Vec::new();
    fields.push((
        String::from_str("screen"),
        FieldInfo::new(
            "Same width and height as the visible window",
            FieldType::Normal,
            screen_width_height_docs(next),
        ),
    ));
    fields.push((
        String::from_str("half_screen"),
        FieldInfo::new(
            "Half of the width and height as the visible window",
            FieldType::Normal,
            half_screen_width_height_docs(next),
        ),
    ));
    fields.push((
        String::from_str("quarter_screen"),
        FieldInfo::new(
            "Quarter of the width and height as the visible window",
            FieldType::OptionalList,
            quarter_screen_width_height_docs(next),
        ),
    ));
    fields.push((
        String::from_str("custom"),
        FieldInfo::new(
            "Custom defined width and height",
            FieldType::Normal,
            custom_width_height_docs(next),
        ),
    ));
    let r = DocumentationStructure {
        description: String::from_str(
            "Defines the with and height in pixels of the rendered image",
        ),
        fields,
    };
    assert(field_names(r) =~= seq!["screen"@, "half_screen"@, "quarter_screen"@, "custom"@]);
    r
}

/// Help text of `Material`. Below the depth at which a blend stops
/// describing its parts, the text no longer depends on the depth.
pub fn material_docs(depth: u8) -> (r: DocumentationStructure)
    ensures
        field_names(r) == seq!["lambertian"@, "glass"@, "metal"@, "light"@, "blend"@],
{
    material_docs_at(if depth > 6 { 6 } else { depth })
}

/// Help text of `Blend`: its parts are described down to depth 5.
pub fn blend_docs(depth: u8) -> (r: DocumentationStructure)
    ensures
        field_names(r) == (if depth < 5 {
            seq!["first"@, "second"@, "blend_factor"@]
        } else {
            Seq::empty()
        }),
{
    blend_docs_at(if depth > 7 { 7 } else { depth })
}

impl HelpDocumentation for AlbedoShader {
    fn get_documentation_structure(depth: u8) -> DocumentationStructure {
        albedo_shader_docs(depth)
    }
}

impl HelpDocumentation for Blend {
    fn get_documentation_structure(depth: u8) -> DocumentationStructure {
        blend_docs(depth)
    }
}

impl HelpDocumentation for BloomPostProcessor {
    fn get_documentation_structure(depth: u8) -> DocumentationStructure {
        bloom_post_processor_docs(depth)
    }
}

impl HelpDocumentation for Box {
    fn get_documentation_structure(depth: u8) -> DocumentationStructure {
        box_docs(depth)
    }
}

impl HelpDocumentation for CameraConfig {
    fn get_documentation_structure(depth: u8) -> DocumentationStructure {
        camera_config_docs(depth)
    }
}

impl HelpDocumentation for ConstantMedium {
    fn get_documentation_structure(depth: u8) -> DocumentationStructure {
        constant_medium_docs(depth)
    }
}

impl HelpDocumentation for CustomWidthHeight {
    fn get_documentation_structure(depth: u8) -> DocumentationStructure {
        custom_width_height_docs(depth)
    }
}

impl HelpDocumentation for DenoisePostProcessor {
    fn get_documentation_structure(depth: u8) -> DocumentationStructure {
        denoise_post_processor_docs(depth)
    }
}

impl HelpDocumentation for Glass {
    fn get_documentation_structure(depth: u8) -> DocumentationStructure {
        glass_docs(depth)
    }
}

impl HelpDocumentation for HalfScreenWidthHeight {
    fn get_documentation_structure(depth: u8) -> DocumentationStructure {
        half_screen_width_height_docs(depth)
    }
}

impl HelpDocumentation for Hittable {
    fn get_documentation_structure(depth: u8) -> DocumentationStructure {
        hittable_docs(depth)
    }
}

impl HelpDocumentation for Image {
    fn get_documentation_structure(depth: u8) -> DocumentationStructure {
        image_docs(depth)
    }
}

impl HelpDocumentation for Lambertian {
    fn get_documentation_structure(depth: u8) -> DocumentationStructure {
        lambertian_docs(depth)
    }
}

impl HelpDocumentation for Light {
    fn get_documentation_structure(depth: u8) -> DocumentationStructure {
        light_docs(depth)
    }
}

impl HelpDocumentation for Material {
    fn get_documentation_structure(depth: u8) -> DocumentationStructure {
        material_docs(depth)
    }
}

impl HelpDocumentation for Metal {
    fn get_documentation_structure(depth: u8) -> DocumentationStructure {
        metal_docs(depth)
    }
}

impl HelpDocumentation for NormalShader {
    fn get_documentation_structure(depth: u8) -> DocumentationStructure {
        normal_shader_docs(depth)
    }
}

impl HelpDocumentation for NormalTexture {
    fn get_documentation_structure(depth: u8) -> DocumentationStructure {
        normal_texture_docs(depth)
    }
}

impl HelpDocumentation for ObjModel {
    fn get_documentation_structure(depth: u8) -> DocumentationStructure {
        obj_model_docs(depth)
    }
}

impl HelpDocumentation for PathTracingShader {
    fn get_documentation_structure(depth: u8) -> DocumentationStructure {
        path_tracing_shader_docs(depth)
    }
}

impl HelpDocumentation for Pos {
    fn get_documentation_structure(depth: u8) -> DocumentationStructure {
        pos_docs(depth)
    }
}

impl HelpDocumentation for PostProcessor {
    fn get_documentation_structure(depth: u8) -> DocumentationStructure {
        post_processor_docs(depth)
    }
}

impl HelpDocumentation for Quad {
    fn get_documentation_structure(depth: u8) -> DocumentationStructure {
        quad_docs(depth)
    }
}

impl HelpDocumentation for QuarterScreenWidthHeight {
    fn get_documentation_structure(depth: u8) -> DocumentationStructure {
        quarter_screen_width_height_docs(depth)
    }
}

impl HelpDocumentation for RenderConfig {
    fn get_documentation_structure(depth: u8) -> DocumentationStructure {
        render_config_docs(depth)
    }
}

impl HelpDocumentation for Rgb {
    fn get_documentation_structure(depth: u8) -> DocumentationStructure {
        rgb_docs(depth)
    }
}

impl HelpDocumentation for Scene {
    fn get_documentation_structure(depth: u8) -> DocumentationStructure {
        scene_docs(depth)
    }
}

impl HelpDocumentation for ScreenWidthHeight {
    fn get_documentation_structure(depth: u8) -> DocumentationStructure {
        screen_width_height_docs(depth)
    }
}

impl HelpDocumentation for Shader {
    fn get_documentation_structure(depth: u8) -> DocumentationStructure {
        shader_docs(depth)
    }
}

impl HelpDocumentation for SimpleShader {
    fn get_documentation_structure(depth: u8) -> DocumentationStructure {
        simple_shader_docs(depth)
    }
}

impl HelpDocumentation for Sphere {
    fn get_documentation_structure(depth: u8) -> DocumentationStructure {
        sphere_docs(depth)
    }
}

impl HelpDocumentation for Texture {
    fn get_documentation_structure(depth: u8) -> DocumentationStructure {
        texture_docs(depth)
    }
}

impl HelpDocumentation for Transformation {
    fn get_documentation_structure(depth: u8) -> DocumentationStructure {
        transformation_docs(depth)
    }
}

impl HelpDocumentation for WidthHeight {
    fn get_documentation_structure(depth: u8) -> DocumentationStructure {
        width_height_docs(depth)
    }
}
} // verus!
