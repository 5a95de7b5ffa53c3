use solstrale_desktop::{
    create_transformation, CameraConfig, CreatorContext, CustomWidthHeight, Dimension,
    HalfScreenWidthHeight, Hittable, HittableKind, Image, ImageStrategy, Lambertian, Material,
    MaterialKind, Metal, NodeKind, ObjModel, PathTracingShader, Pos, PostKind, PostProcessor,
    QuarterScreenWidthHeight, Real, RenderConfig, Rgb, Scene, SchemaError, ScreenWidthHeight,
    Shader, ShaderKind, SimpleShader, Sphere, Texture, TextureKind, TransformKind, Transformation,
    WidthHeight, Blend, BloomPostProcessor, DenoisePostProcessor, Light, Glass, ConstantMedium,
    NormalTexture,
};

fn r(v: f64) -> Real {
    Real::from_bits(v.to_bits())
}

fn pos(x: f64, y: f64, z: f64) -> Pos {
    Pos::new(r(x), r(y), r(z))
}

fn rgb(a: f64, b: f64, c: f64) -> Rgb {
    Rgb::new(r(a), r(b), r(c))
}

fn ctx() -> CreatorContext {
    CreatorContext { screen_width: 801, screen_height: 603 }
}

fn empty_size() -> WidthHeight {
    WidthHeight { screen: None, half_screen: None, quarter_screen: None, custom: None }
}

fn empty_material() -> Material {
    Material { lambertian: None, glass: None, metal: None, light: None, blend: None }
}

fn white_matte() -> MaterialKind {
    MaterialKind::Lambertian { albedo: TextureKind::SolidColor(rgb(1.0, 1.0, 1.0)), normal: None }
}

fn no_transformation() -> Transformation {
    Transformation { translation: None, scale: None, rotation_x: None, rotation_y: None, rotation_z: None }
}

fn empty_hittable() -> Hittable {
    Hittable { sphere: None, model: None, quad: None, cuboid: None, constant_medium: None }
}

fn camera() -> CameraConfig {
    CameraConfig {
        vertical_fov_degrees: None,
        aperture_size: None,
        look_from: pos(0.0, 0.0, 5.0),
        look_at: None,
        up: None,
    }
}

#[test]
fn custom_size_in_range_is_kept() {
    let c = CustomWidthHeight { width: 200, height: 100 };
    assert_eq!(c.create(&ctx()), Ok((200, 100)));
    let edge = CustomWidthHeight { width: 1, height: 7999 };
    assert_eq!(edge.create(&ctx()), Ok((1, 7999)));
}

#[test]
fn custom_size_out_of_range_is_rejected() {
    let zero = CustomWidthHeight { width: 0, height: 100 };
    assert_eq!(zero.create(&ctx()), Err(SchemaError::OutOfRange(Dimension::Width)));
    let wide = CustomWidthHeight { width: 8000, height: 100 };
    assert_eq!(wide.create(&ctx()), Err(SchemaError::OutOfRange(Dimension::Width)));
    let tall = CustomWidthHeight { width: 100, height: 8000 };
    assert_eq!(tall.create(&ctx()), Err(SchemaError::OutOfRange(Dimension::Height)));
    let both = CustomWidthHeight { width: 0, height: 0 };
    assert_eq!(both.create(&ctx()), Err(SchemaError::OutOfRange(Dimension::Width)));
}

#[test]
fn screen_fractions() {
    assert_eq!(ScreenWidthHeight {}.create(&ctx()), Ok((801, 603)));
    assert_eq!(HalfScreenWidthHeight {}.create(&ctx()), Ok((400, 301)));
    assert_eq!(QuarterScreenWidthHeight {}.create(&ctx()), Ok((200, 150)));
}

#[test]
fn width_height_variants() {
    assert_eq!(empty_size().create(&ctx()), Ok((801, 603)));
    assert_eq!(WidthHeight::default().create(&ctx()), Ok((801, 603)));
    let half = WidthHeight { half_screen: Some(HalfScreenWidthHeight {}), ..empty_size() };
    assert_eq!(half.create(&ctx()), Ok((400, 301)));
    let custom = WidthHeight { custom: Some(CustomWidthHeight { width: 0, height: 5 }), ..empty_size() };
    assert_eq!(custom.create(&ctx()), Err(SchemaError::OutOfRange(Dimension::Width)));
    let two = WidthHeight {
        screen: Some(ScreenWidthHeight {}),
        quarter_screen: Some(QuarterScreenWidthHeight {}),
        ..empty_size()
    };
    assert_eq!(two.create(&ctx()), Err(SchemaError::AmbiguousVariant(NodeKind::WidthHeight)));
}

#[test]
fn empty_shader_is_default_path_tracer() {
    assert_eq!(Shader::default().create(), Ok(ShaderKind::PathTracing { max_depth: 50 }));
    let p = Shader { path_tracing: Some(PathTracingShader { max_depth: Some(7) }), ..Shader::default() };
    assert_eq!(p.create(), Ok(ShaderKind::PathTracing { max_depth: 7 }));
    let two = Shader {
        path_tracing: Some(PathTracingShader { max_depth: None }),
        simple: Some(SimpleShader {}),
        ..Shader::default()
    };
    assert_eq!(two.create(), Err(SchemaError::AmbiguousVariant(NodeKind::Shader)));
}

#[test]
fn post_processor_needs_exactly_one() {
    let none = PostProcessor { bloom: None, denoise: None };
    assert_eq!(none.create(), Err(SchemaError::MissingVariant(NodeKind::PostProcessor)));
    let bloom = BloomPostProcessor { kernel_size_fraction: None, threshold: Some(r(1.5)), max_intensity: None };
    let p = PostProcessor { bloom: Some(bloom), denoise: None };
    assert_eq!(
        p.create(),
        Ok(PostKind::Bloom { kernel_size_fraction: r(0.1), threshold: Some(r(1.5)), max_intensity: None })
    );
    let both = PostProcessor { bloom: Some(bloom), denoise: Some(DenoisePostProcessor {}) };
    assert_eq!(both.create(), Err(SchemaError::AmbiguousVariant(NodeKind::PostProcessor)));
}

#[test]
fn empty_material_is_white_matte() {
    assert_eq!(empty_material().create(), Ok(white_matte()));
    assert_eq!(Material::default().create(), Ok(white_matte()));
}

#[test]
fn two_materials_are_ambiguous() {
    let m = Material {
        lambertian: Some(Lambertian { albedo: None, normal: None }),
        light: Some(Light { color: None, attenuation_half_length: None }),
        ..empty_material()
    };
    assert_eq!(m.create(), Err(SchemaError::AmbiguousVariant(NodeKind::Material)));
}

#[test]
fn material_defaults() {
    let metal = Material { metal: Some(Metal { albedo: None, normal: None, fuzz: None }), ..empty_material() };
    assert_eq!(
        metal.create(),
        Ok(MaterialKind::Metal { albedo: TextureKind::SolidColor(rgb(1.0, 1.0, 1.0)), normal: None, fuzz: r(0.05) })
    );
    let glass = Material {
        glass: Some(Glass {
            albedo: Some(Texture { color: None, image: Some(Image { file: "a.png".to_string() }) }),
            normal: Some(NormalTexture { file: "n.png".to_string() }),
            index_of_refraction: None,
        }),
        ..empty_material()
    };
    assert_eq!(
        glass.create(),
        Ok(MaterialKind::Glass {
            albedo: TextureKind::ImageMap("a.png".to_string()),
            normal: Some("n.png".to_string()),
            index_of_refraction: r(1.5),
        })
    );
    let light = Material { light: Some(Light { color: None, attenuation_half_length: Some(r(2.0)) }), ..empty_material() };
    assert_eq!(
        light.create(),
        Ok(MaterialKind::Light { color: rgb(15.0, 15.0, 15.0), attenuation_half_length: Some(r(2.0)) })
    );
}

#[test]
fn blend_resolves_both_parts() {
    let blend = Material {
        blend: Some(Box::new(Blend {
            first: Material {
                lambertian: Some(Lambertian {
                    albedo: Some(Texture { color: Some(rgb(1.0, 0.0, 0.0)), image: None }),
                    normal: None,
                }),
                ..empty_material()
            },
            second: Material { metal: Some(Metal { albedo: None, normal: None, fuzz: Some(r(0.1)) }), ..empty_material() },
            blend_factor: None,
        })),
        ..empty_material()
    };
    assert_eq!(
        blend.create(),
        Ok(MaterialKind::Blend {
            first: Box::new(MaterialKind::Lambertian {
                albedo: TextureKind::SolidColor(rgb(1.0, 0.0, 0.0)),
                normal: None,
            }),
            second: Box::new(MaterialKind::Metal {
                albedo: TextureKind::SolidColor(rgb(1.0, 1.0, 1.0)),
                normal: None,
                fuzz: r(0.1),
            }),
            blend_factor: r(0.5),
        })
    );
    let bad = Material {
        blend: Some(Box::new(Blend {
            first: empty_material(),
            second: Material {
                lambertian: Some(Lambertian { albedo: Some(Texture { color: None, image: None }), normal: None }),
                ..empty_material()
            },
            blend_factor: None,
        })),
        ..empty_material()
    };
    assert_eq!(bad.create(), Err(SchemaError::MissingVariant(NodeKind::Texture)));
}

#[test]
fn texture_needs_exactly_one() {
    let none = Texture { color: None, image: None };
    assert_eq!(none.create(), Err(SchemaError::MissingVariant(NodeKind::Texture)));
    let both = Texture { color: Some(rgb(0.0, 0.0, 0.0)), image: Some(Image { file: "x".to_string() }) };
    assert_eq!(both.create(), Err(SchemaError::AmbiguousVariant(NodeKind::Texture)));
}

#[test]
fn transformations_keep_their_order() {
    let ts = vec![
        Transformation { rotation_y: Some(r(30.0)), ..no_transformation() },
        Transformation { translation: Some(pos(1.0, 2.0, 3.0)), ..no_transformation() },
        Transformation { scale: Some(r(2.0)), ..no_transformation() },
    ];
    assert_eq!(
        create_transformation(&ts),
        Ok(vec![
            TransformKind::RotationY(r(30.0)),
            TransformKind::Translation(pos(1.0, 2.0, 3.0)),
            TransformKind::Scale(r(2.0)),
        ])
    );
    assert_eq!(create_transformation(&vec![]), Ok(vec![]));
}

#[test]
fn first_bad_transformation_decides() {
    let ts = vec![
        Transformation { scale: Some(r(2.0)), ..no_transformation() },
        no_transformation(),
        Transformation { scale: Some(r(2.0)), rotation_x: Some(r(1.0)), ..no_transformation() },
    ];
    assert_eq!(
        create_transformation(&ts),
        Err(SchemaError::MissingVariant(NodeKind::Transformation))
    );
}

#[test]
fn hittable_needs_exactly_one() {
    assert_eq!(empty_hittable().create(), Err(SchemaError::MissingVariant(NodeKind::Hittable)));
    let two = Hittable {
        sphere: Some(Sphere { center: pos(0.0, 0.0, 0.0), radius: r(1.0), material: None }),
        constant_medium: Some(ConstantMedium { a: pos(0.0, 0.0, 0.0), b: pos(1.0, 1.0, 1.0), density: None, color: None }),
        ..empty_hittable()
    };
    assert_eq!(two.create(), Err(SchemaError::AmbiguousVariant(NodeKind::Hittable)));
}

#[test]
fn constant_medium_defaults() {
    let h = Hittable {
        constant_medium: Some(ConstantMedium { a: pos(0.0, 0.0, 0.0), b: pos(1.0, 1.0, 1.0), density: None, color: None }),
        ..empty_hittable()
    };
    assert_eq!(
        h.create(),
        Ok(HittableKind::ConstantMedium {
            a: pos(0.0, 0.0, 0.0),
            b: pos(1.0, 1.0, 1.0),
            density: r(0.01),
            color: rgb(0.9, 0.9, 0.9),
        })
    );
}

#[test]
fn model_resolves_material_and_transformations() {
    let h = Hittable {
        model: Some(ObjModel {
            path: "/models/".to_string(),
            name: "owl.obj".to_string(),
            material: None,
            transformations: vec![Transformation { scale: Some(r(0.3)), ..no_transformation() }],
        }),
        ..empty_hittable()
    };
    assert_eq!(
        h.create(),
        Ok(HittableKind::Model {
            path: "/models/".to_string(),
            name: "owl.obj".to_string(),
            material: white_matte(),
            transformations: vec![TransformKind::Scale(r(0.3))],
        })
    );
}

#[test]
fn scene_with_one_sphere_and_defaults() {
    let scene = Scene {
        render_configuration: None,
        background_color: None,
        camera: camera(),
        world: vec![Hittable {
            sphere: Some(Sphere { center: pos(0.0, 0.0, 0.0), radius: r(1.0), material: None }),
            ..empty_hittable()
        }],
    };
    let plan = scene.create(&ctx()).unwrap();
    assert_eq!(
        plan.world,
        vec![HittableKind::Sphere { center: pos(0.0, 0.0, 0.0), radius: r(1.0), material: white_matte() }]
    );
    assert_eq!(plan.background_color, rgb(0.0, 0.0, 0.0));
    assert_eq!(plan.camera.vertical_fov_degrees, r(60.0));
    assert_eq!(plan.camera.aperture_size, r(0.0));
    assert_eq!(plan.camera.look_at, pos(0.0, 0.0, 0.0));
    assert_eq!(plan.camera.up, pos(0.0, 1.0, 0.0));
    assert_eq!(plan.render_config.width, 801);
    assert_eq!(plan.render_config.height, 603);
    assert_eq!(plan.render_config.samples_per_pixel, 50);
    assert_eq!(plan.render_config.shader, ShaderKind::PathTracing { max_depth: 50 });
    assert!(plan.render_config.post_processors.is_empty());
    assert_eq!(plan.render_config.image_strategy, ImageStrategy::Interval(1000));
}

#[test]
fn scene_render_configuration_is_resolved() {
    let mut rc = RenderConfig::default();
    rc.width_height = Some(WidthHeight { custom: Some(CustomWidthHeight { width: 200, height: 100 }), ..empty_size() });
    rc.samples_per_pixel = Some(50);
    rc.preview_interval_ms = Some(0);
    rc.post_processors = vec![PostProcessor { bloom: None, denoise: Some(DenoisePostProcessor {}) }];
    let scene = Scene { render_configuration: Some(rc), background_color: Some(rgb(0.2, 0.3, 0.5)), camera: camera(), world: vec![] };
    let plan = scene.create(&ctx()).unwrap();
    assert_eq!((plan.render_config.width, plan.render_config.height), (200, 100));
    assert_eq!(plan.render_config.image_strategy, ImageStrategy::EverySample);
    assert_eq!(plan.render_config.post_processors, vec![PostKind::Denoise]);
    assert_eq!(plan.background_color, rgb(0.2, 0.3, 0.5));
}

#[test]
fn scene_error_aborts_whole_compile() {
    let mut rc = RenderConfig::default();
    rc.width_height = Some(WidthHeight { custom: Some(CustomWidthHeight { width: 200, height: 9000 }), ..empty_size() });
    let scene = Scene {
        render_configuration: Some(rc),
        background_color: None,
        camera: camera(),
        world: vec![Hittable {
            sphere: Some(Sphere { center: pos(0.0, 0.0, 0.0), radius: r(1.0), material: None }),
            ..empty_hittable()
        }],
    };
    assert_eq!(scene.create(&ctx()), Err(SchemaError::OutOfRange(Dimension::Height)));
    let bad_world = Scene {
        render_configuration: None,
        background_color: None,
        camera: camera(),
        world: vec![empty_hittable()],
    };
    assert_eq!(bad_world.create(&ctx()), Err(SchemaError::MissingVariant(NodeKind::Hittable)));
}

#[test]
fn error_messages() {
    assert_eq!(
        SchemaError::AmbiguousVariant(NodeKind::Material).message(),
        "Material should have at most a single field defined"
    );
    assert_eq!(
        SchemaError::MissingVariant(NodeKind::Hittable).message(),
        "Hittable should have a single field defined"
    );
    assert_eq!(
        SchemaError::OutOfRange(Dimension::Height).message(),
        "Height must be at least 1 and less than 8000"
    );
}
