use solstrale_desktop::{
    get_documentation_structure_by_yaml_path, DocumentationStructure, FieldInfo, FieldType,
    HelpDocumentation, Material, Scene,
};

fn path(keys: &[&str]) -> Vec<String> {
    keys.iter().map(|k| k.to_string()).collect()
}

#[test]
fn lookup_follows_keys() {
    let root = Scene::get_documentation_structure(0);
    let sphere = get_documentation_structure_by_yaml_path(&root, &path(&["world", "sphere"])).unwrap();
    assert_eq!(sphere.description, "A sphere hittable object");
    let depth = get_documentation_structure_by_yaml_path(
        &root,
        &path(&["render_configuration", "shader", "path_tracing", "max_depth"]),
    )
    .unwrap();
    assert!(depth.description.contains("Defaults to 50"));
    assert!(get_documentation_structure_by_yaml_path(&root, &path(&["world", "nope"])).is_none());
    let same = get_documentation_structure_by_yaml_path(&root, &path(&[])).unwrap();
    assert_eq!(same.description, root.description);
}

#[test]
fn blend_stops_describing_parts_when_deep() {
    let root = Scene::get_documentation_structure(0);
    let blend = get_documentation_structure_by_yaml_path(
        &root,
        &path(&["world", "sphere", "material", "blend"]),
    )
    .unwrap();
    assert_eq!(blend.fields.len(), 3);
    let deep = get_documentation_structure_by_yaml_path(
        &root,
        &path(&["world", "sphere", "material", "blend", "first", "blend"]),
    )
    .unwrap();
    assert!(deep.fields.is_empty());
    assert_eq!(Material::get_documentation_structure(200).fields.len(), 5);
}

#[test]
fn constructors_fill_fields() {
    let d = DocumentationStructure::new_simple("plain");
    assert_eq!(d.description, "plain");
    assert!(d.fields.is_empty());
    let f = FieldInfo::new_simple("a field", FieldType::Optional, "its node");
    assert_eq!(f.description, "a field");
    assert_eq!(f.field_type, FieldType::Optional);
    assert_eq!(f.documentation_structure.description, "its node");
    let g = FieldInfo::new("outer", FieldType::List, DocumentationStructure::new_simple("inner"));
    assert_eq!(g.field_type, FieldType::List);
    assert_eq!(g.documentation_structure.description, "inner");
}
