use solstrale_desktop::{
    CameraConfig, CreatorContext, ErrorInfo, Fingerprint, Hittable, HittableKind,
    LoadError, MaterialKind, ModelCache, ObjModel, Pos, Real, RenderControl,
    RenderMessage, RenderProgress, Scene, SessionState, Sphere, Transformation, TransformKind,
    TextureKind, Rgb,
};

fn r(v: f64) -> Real {
    Real::from_bits(v.to_bits())
}

fn pos(x: f64, y: f64, z: f64) -> Pos {
    Pos::new(r(x), r(y), r(z))
}

fn white_matte() -> MaterialKind {
    MaterialKind::Lambertian {
        albedo: TextureKind::SolidColor(Rgb::new(r(1.0), r(1.0), r(1.0))),
        normal: None,
    }
}

fn fingerprint(path: &str, name: &str, material: &MaterialKind, ts: &Vec<TransformKind>) -> Fingerprint {
    Fingerprint::of_model(&path.to_string(), &name.to_string(), material, ts)
}

/// Looks a model up, loading it on a miss; `available` says whether the file
/// can be read.
fn get_or_load(
    cache: &mut ModelCache<String>,
    fp: Fingerprint,
    loads: &mut usize,
    available: bool,
) -> Result<String, LoadError> {
    match cache.lookup(&fp) {
        Some(i) => Ok(cache.handle(i).clone()),
        None => {
            *loads += 1;
            let loaded = if available {
                Ok(format!("mesh {}", loads))
            } else {
                Err(LoadError { message: "No such file or directory".to_string() })
            };
            match cache.record(fp, loaded) {
                Ok(i) => Ok(cache.handle(i).clone()),
                Err(e) => Err(e),
            }
        },
    }
}

fn progress(image: Option<Vec<u8>>, p: f64, fps: Option<f64>, eta: u64) -> RenderMessage<Vec<u8>> {
    RenderMessage::SampleRendered(RenderProgress {
        image,
        progress: r(p),
        fps: fps.map(r),
        estimated_time_left_ms: eta,
    })
}

fn sphere_scene() -> Scene {
    Scene {
        render_configuration: None,
        background_color: None,
        camera: CameraConfig {
            vertical_fov_degrees: None,
            aperture_size: None,
            look_from: pos(0.0, 0.0, 5.0),
            look_at: None,
            up: None,
        },
        world: vec![Hittable {
            sphere: Some(Sphere { center: pos(0.0, 0.0, 0.0), radius: r(1.0), material: None }),
            model: None,
            quad: None,
            cuboid: None,
            constant_medium: None,
        }],
    }
}

fn model_scene(path: &str) -> Scene {
    Scene {
        world: vec![Hittable {
            sphere: None,
            model: Some(ObjModel {
                path: path.to_string(),
                name: "owl.obj".to_string(),
                material: None,
                transformations: vec![Transformation {
                    translation: None,
                    scale: Some(r(0.3)),
                    rotation_x: None,
                    rotation_y: None,
                    rotation_z: None,
                }],
            }),
            quad: None,
            cuboid: None,
            constant_medium: None,
        }],
        ..sphere_scene()
    }
}

#[test]
fn same_fingerprint_loads_once() {
    let ts = vec![TransformKind::Scale(r(0.3))];
    let mut cache: ModelCache<String> = ModelCache::new(4);
    let mut loads: usize = 0;
    let a = get_or_load(&mut cache, fingerprint("/m/", "owl.obj", &white_matte(), &ts), &mut loads, true);
    let b = get_or_load(&mut cache, fingerprint("/m/", "owl.obj", &white_matte(), &ts), &mut loads, true);
    assert_eq!(loads, 1);
    assert_eq!(a, Ok("mesh 1".to_string()));
    assert_eq!(b, Ok("mesh 1".to_string()));
}

#[test]
fn changed_fingerprint_loads_again() {
    let ts = vec![TransformKind::Scale(r(0.3))];
    let metal = MaterialKind::Metal {
        albedo: TextureKind::SolidColor(Rgb::new(r(1.0), r(1.0), r(1.0))),
        normal: None,
        fuzz: r(0.05),
    };
    let mut cache: ModelCache<String> = ModelCache::new(8);
    let mut loads: usize = 0;
    get_or_load(&mut cache, fingerprint("/m/", "owl.obj", &white_matte(), &ts), &mut loads, true).unwrap();
    get_or_load(&mut cache, fingerprint("/n/", "owl.obj", &white_matte(), &ts), &mut loads, true).unwrap();
    assert_eq!(loads, 2);
    get_or_load(&mut cache, fingerprint("/m/", "cat.obj", &white_matte(), &ts), &mut loads, true).unwrap();
    assert_eq!(loads, 3);
    get_or_load(&mut cache, fingerprint("/m/", "owl.obj", &metal, &ts), &mut loads, true).unwrap();
    assert_eq!(loads, 4);
    get_or_load(&mut cache, fingerprint("/m/", "owl.obj", &white_matte(), &vec![]), &mut loads, true).unwrap();
    assert_eq!(loads, 5);
    get_or_load(&mut cache, fingerprint("/m/", "owl.obj", &white_matte(), &vec![TransformKind::Scale(r(0.4))]), &mut loads, true).unwrap();
    assert_eq!(loads, 6);
    get_or_load(&mut cache, fingerprint("/m/", "owl.obj", &white_matte(), &ts), &mut loads, true).unwrap();
    assert_eq!(loads, 6);
}

#[test]
fn fingerprints_compare_by_content() {
    let ts = vec![TransformKind::RotationX(r(30.0)), TransformKind::Translation(pos(1.0, 2.0, 3.0))];
    let a = fingerprint("/m/", "owl.obj", &white_matte(), &ts);
    let b = fingerprint("/m/", "owl.obj", &white_matte(), &ts.clone());
    assert!(a.same_as(&b));
    let swapped = vec![TransformKind::Translation(pos(1.0, 2.0, 3.0)), TransformKind::RotationX(r(30.0))];
    let c = fingerprint("/m/", "owl.obj", &white_matte(), &swapped);
    assert!(!a.same_as(&c));
    let d = fingerprint("/m", "/owl.obj", &white_matte(), &ts);
    assert!(!a.same_as(&d));
}

#[test]
fn failed_load_is_not_cached() {
    let ts: Vec<TransformKind> = vec![];
    let mut cache: ModelCache<String> = ModelCache::new(4);
    let mut loads: usize = 0;
    let first = get_or_load(&mut cache, fingerprint("/m/", "owl.obj", &white_matte(), &ts), &mut loads, false);
    assert_eq!(first, Err(LoadError { message: "No such file or directory".to_string() }));
    assert_eq!(cache.len(), 0);
    let second = get_or_load(&mut cache, fingerprint("/m/", "owl.obj", &white_matte(), &ts), &mut loads, true);
    assert_eq!(second, Ok("mesh 2".to_string()));
    assert_eq!(loads, 2);
}

#[test]
fn full_cache_drops_least_recently_used() {
    let ts: Vec<TransformKind> = vec![];
    let mut cache: ModelCache<String> = ModelCache::new(2);
    let mut loads: usize = 0;
    get_or_load(&mut cache, fingerprint("/a/", "x", &white_matte(), &ts), &mut loads, true).unwrap();
    get_or_load(&mut cache, fingerprint("/b/", "x", &white_matte(), &ts), &mut loads, true).unwrap();
    get_or_load(&mut cache, fingerprint("/a/", "x", &white_matte(), &ts), &mut loads, true).unwrap();
    get_or_load(&mut cache, fingerprint("/c/", "x", &white_matte(), &ts), &mut loads, true).unwrap();
    assert_eq!(loads, 3);
    assert_eq!(cache.len(), 2);
    get_or_load(&mut cache, fingerprint("/a/", "x", &white_matte(), &ts), &mut loads, true).unwrap();
    assert_eq!(loads, 3);
    get_or_load(&mut cache, fingerprint("/b/", "x", &white_matte(), &ts), &mut loads, true).unwrap();
    assert_eq!(loads, 4);
}

#[test]
fn request_while_rendering_supersedes_job() {
    let mut s: RenderControl<Vec<u8>> = RenderControl::new();
    let first = s.render_requested(None);
    assert_eq!(first.abort, None);
    assert_eq!(first.start, Some(0));
    let second = s.render_requested(None);
    assert_eq!(second.abort, Some(0));
    assert_eq!(second.start, Some(1));
    assert_eq!(s.current_job, Some(1));
    assert_eq!(s.state, SessionState::Rendering);
    s.receive(0, progress(Some(vec![9, 9, 9]), 0.9, Some(30.0), 5));
    s.receive(0, RenderMessage::Error("stale".to_string()));
    s.disconnected(0);
    assert_eq!(s.state, SessionState::Rendering);
    assert_eq!(s.current_job, Some(1));
    assert!(s.rendered_image.image.is_none());
    assert_eq!(s.rendered_image.progress, r(0.0));
    assert!(!s.error_info.show_error);
    s.receive(1, progress(Some(vec![1]), 0.25, None, 7));
    assert_eq!(s.rendered_image.image, Some(vec![1]));
    assert_eq!(s.rendered_image.progress, r(0.25));
}

#[test]
fn progress_updates_snapshot() {
    let mut s: RenderControl<Vec<u8>> = RenderControl::new();
    s.render_requested(None);
    s.receive(0, progress(Some(vec![1, 2]), 0.5, Some(12.0), 300));
    s.receive(0, progress(None, 0.4, None, 200));
    assert_eq!(s.rendered_image.image, Some(vec![1, 2]));
    assert_eq!(s.rendered_image.progress, r(0.5));
    assert_eq!(s.rendered_image.fps, r(12.0));
    assert_eq!(s.rendered_image.estimated_time_left_ms, 200);
}

#[test]
fn one_sphere_renders_to_completion() {
    let ctx = CreatorContext { screen_width: 4, screen_height: 2 };
    let plan = sphere_scene().create(&ctx).unwrap();
    assert!(plan.model_fingerprints().is_empty());
    let mut s: RenderControl<Vec<u8>> = RenderControl::new();
    assert_eq!(s.state, SessionState::Idle);
    let start = s.render_requested(None);
    let job = start.start.unwrap();
    assert_eq!(s.state, SessionState::Rendering);
    let pixels = plan.render_config.width * plan.render_config.height * 3;
    s.receive(job, progress(Some(vec![10; pixels]), 0.5, Some(20.0), 50));
    s.receive(job, progress(Some(vec![20; pixels]), 1.0, Some(25.0), 0));
    s.disconnected(job);
    assert_eq!(s.state, SessionState::Idle);
    assert_eq!(s.current_job, None);
    assert_eq!(s.rendered_image.progress, r(1.0));
    assert_eq!(s.rendered_image.image, Some(vec![20; 24]));
    assert_eq!(s.rendered_image.fps, r(25.0));
}

#[test]
fn missing_model_errors_then_recovers() {
    let ctx = CreatorContext { screen_width: 4, screen_height: 2 };
    let mut cache: ModelCache<String> = ModelCache::new(4);
    let mut loads: usize = 0;
    let mut s: RenderControl<Vec<u8>> = RenderControl::new();

    let plan = model_scene("/nonexistent/").create(&ctx).unwrap();
    let models = plan.model_fingerprints();
    assert_eq!(models.len(), 1);
    assert_eq!(models[0].0, 0);
    let mut failure = None;
    for (_, fp) in models {
        if let Err(e) = get_or_load(&mut cache, fp, &mut loads, false) {
            failure = Some(e.message);
        }
    }
    let start = s.render_requested(failure);
    assert_eq!(start.start, None);
    assert_eq!(s.state, SessionState::Errored);
    assert!(s.error_info.show_error);
    assert_eq!(s.error_info.error_message, "No such file or directory");

    let plan = model_scene("/models/").create(&ctx).unwrap();
    let mut failure = None;
    for (_, fp) in plan.model_fingerprints() {
        if let Err(e) = get_or_load(&mut cache, fp, &mut loads, true) {
            failure = Some(e.message);
        }
    }
    let start = s.render_requested(failure);
    assert_eq!(start.start, Some(0));
    assert_eq!(s.state, SessionState::Rendering);
    assert!(!s.error_info.show_error);
    match &plan.world[0] {
        HittableKind::Model { material, .. } => assert_eq!(*material, white_matte()),
        _ => panic!("expected a model"),
    }
}

#[test]
fn engine_error_moves_to_errored() {
    let mut s: RenderControl<Vec<u8>> = RenderControl::new();
    s.render_requested(None);
    s.receive(0, progress(Some(vec![5]), 0.1, None, 10));
    s.receive(0, RenderMessage::Error("engine failed".to_string()));
    assert_eq!(s.state, SessionState::Errored);
    assert_eq!(s.error_info.error_message, "engine failed");
    assert_eq!(s.rendered_image.image, Some(vec![5]));
    s.receive(0, progress(Some(vec![6]), 0.2, None, 10));
    assert_eq!(s.rendered_image.image, Some(vec![5]));
    let again = s.render_requested(None);
    assert_eq!(again.abort, None);
    assert_eq!(s.state, SessionState::Rendering);
}

#[test]
fn abort_stops_current_job() {
    let mut s: RenderControl<Vec<u8>> = RenderControl::new();
    assert_eq!(s.abort(), None);
    s.render_requested(None);
    assert_eq!(s.abort(), Some(0));
    assert_eq!(s.state, SessionState::Idle);
    s.receive(0, progress(Some(vec![1]), 1.0, None, 0));
    assert!(s.rendered_image.image.is_none());
}

#[test]
fn error_info_handle_str() {
    let mut e = ErrorInfo::new();
    assert!(!e.show_error);
    e.handle_str("bad scene");
    assert!(e.show_error);
    assert_eq!(e.error_message, "bad scene");
    e.dismiss();
    assert!(!e.show_error);
    assert_eq!(e.error_message, "bad scene");
}
