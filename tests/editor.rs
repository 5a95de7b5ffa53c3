use solstrale_desktop::{
    autocomplete, get_documentation_structure_by_yaml_path, get_yaml_path, indent_new_line,
    HelpDocumentation,
    Scene,
};

fn lines(text: &[&str]) -> Vec<Vec<char>> {
    text.iter().map(|l| l.chars().collect()).collect()
}

fn keys(path: Vec<Vec<char>>) -> Vec<String> {
    path.into_iter().map(|k| k.into_iter().collect()).collect()
}

#[test]
fn path_follows_enclosing_keys() {
    let path = get_yaml_path(&lines(&[
        "render_configuration:",
        "  samples_per_pixel: 50",
        "  shader:",
        "    path_tracing:",
        "      max",
    ]));
    assert_eq!(keys(path), vec!["render_configuration", "shader", "path_tracing"]);
}

#[test]
fn path_passes_over_templates_and_list_items() {
    let path = get_yaml_path(&lines(&[
        "world:",
        "{% for x in range(end=3) %}",
        "  - sphere:",
        "      center: {{ x }}, 0, 0",
        "      radius",
    ]));
    let found = keys(path);
    assert_eq!(found, vec!["world", "sphere"]);
    let root = Scene::get_documentation_structure(0);
    let doc = get_documentation_structure_by_yaml_path(&root, &found).unwrap();
    assert_eq!(doc.description, "A sphere hittable object");
}

#[test]
fn path_of_empty_or_blank_text() {
    assert!(get_yaml_path(&lines(&[])).is_empty());
    assert!(get_yaml_path(&lines(&["camera:", "", "  look_from"])).is_empty());
    assert_eq!(keys(get_yaml_path(&lines(&["camera:", "  look_from: 0, 0, 0"]))), vec!["camera", "look_from"]);
}

#[test]
fn new_line_indentation() {
    let line = |s: &str| s.chars().collect::<Vec<char>>();
    assert_eq!(indent_new_line(&line("  camera:")), 4);
    assert_eq!(indent_new_line(&line("  - sphere:  ")), 6);
    assert_eq!(indent_new_line(&line("    radius: 1")), 4);
    assert_eq!(indent_new_line(&line("")), 0);
}

#[test]
fn completes_first_matching_key() {
    let root = Scene::get_documentation_structure(0);
    let line = |s: &str| s.chars().collect::<Vec<char>>();
    let text = |v: Option<Vec<char>>| v.map(|c| c.into_iter().collect::<String>());
    assert_eq!(text(autocomplete(&root, &line("  backg"))), Some("round_color: ".to_string()));
    assert_eq!(text(autocomplete(&root, &line("cam"))), Some("era: ".to_string()));
    assert_eq!(text(autocomplete(&root, &line("world"))), Some(": ".to_string()));
    assert_eq!(autocomplete(&root, &line("zzz")), None);
    assert_eq!(autocomplete(&root, &line("  ")), None);
    assert_eq!(autocomplete(&root, &line("camera: x")), None);
}
