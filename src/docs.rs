use vstd::prelude::*;
use vstd::string::*;

verus! {

/// How a field of the scene description may occur.
#[derive(Clone, Copy, PartialEq, Eq, Structural, Debug)]
pub enum FieldType {
    Normal,
    Optional,
    List,
    OptionalList,
}

/// Help text for one node type, and for each of its fields by key.
pub struct DocumentationStructure {
    pub description: String,
    pub fields: Vec<(String, FieldInfo)>,
}

/// Help text for one field, with the structure of the node it holds.
pub struct FieldInfo {
    pub description: String,
    pub field_type: FieldType,
    pub documentation_structure: DocumentationStructure,
}

/// A node type that can describe itself. `depth` is how deep in the tree of
/// help texts the node stands; recursive node types stop describing their
/// parts below some depth.
pub trait HelpDocumentation {
    fn get_documentation_structure(depth: u8) -> DocumentationStructure;
}

/// The keys of a structure's fields, in order.
pub open spec fn field_names(d: DocumentationStructure) -> Seq<Seq<char>> {
    d.fields@.map_values(|f: (String, FieldInfo)| f.0@)
}

/// The depth of a node's children.
pub fn deeper(depth: u8) -> (r: u8)
    ensures
        r == if depth < 255 {
            (depth + 1) as u8
        } else {
            255u8
        },
{
    if depth < 255 {
        depth + 1
    } else {
        255
    }
}

impl DocumentationStructure {
    /// A structure with a description and no fields.
    pub fn new_simple(description: &str) -> (r: DocumentationStructure)
        ensures
            r.description@ == description@,
            r.fields@.len() == 0,
    {
        DocumentationStructure { description: description.to_owned(), fields: Vec::new() }
    }
}

impl FieldInfo {
    pub fn new(
        field_description: &str,
        field_type: FieldType,
        documentation_structure: DocumentationStructure,
    ) -> (r: FieldInfo)
        ensures
            r.description@ == field_description@,
            r.field_type == field_type,
            r.documentation_structure == documentation_structure,
    {
        FieldInfo { description: field_description.to_owned(), field_type, documentation_structure }
    }

    /// A field whose node is described by one sentence and has no fields.
    pub fn new_simple(field_description: &str, field_type: FieldType, description: &str) -> (r:
        FieldInfo)
        ensures
            r.description@ == field_description@,
            r.field_type == field_type,
            r.documentation_structure.description@ == description@,
            r.documentation_structure.fields@.len() == 0,
    {
        FieldInfo {
            description: field_description.to_owned(),
            field_type,
            documentation_structure: DocumentationStructure::new_simple(description),
        }
    }
}

/// `i` is the first field with key `key`.
pub open spec fn is_first_key(fields: Seq<(String, FieldInfo)>, key: Seq<char>, i: int) -> bool {
    &&& 0 <= i < fields.len()
    &&& fields[i].0@ == key
    &&& forall|j: int| 0 <= j < i ==> fields[j].0@ != key
}

/// The structure reached from `d` by following the keys of `path`, each to
/// the first field with that key; none when a key is missing.
pub open spec fn doc_at_path(d: DocumentationStructure, path: Seq<Seq<char>>) -> Option<
    DocumentationStructure,
>
    decreases path.len(),
{
    if path.len() == 0 {
        Some(d)
    } else if exists|i: int| is_first_key(d.fields@, path[0], i) {
        let i = choose|i: int| is_first_key(d.fields@, path[0], i);
        doc_at_path(d.fields@[i].1.documentation_structure, path.drop_first())
    } else {
        None
    }
}

proof fn lemma_first_key_unique(fields: Seq<(String, FieldInfo)>, key: Seq<char>, i: int, k: int)
    requires
        is_first_key(fields, key, i),
        is_first_key(fields, key, k),
    ensures
        i == k,
{
}

/// The position of the first field with key `key`.
fn first_key(fields: &Vec<(String, FieldInfo)>, key: &String) -> (r: Option<usize>)
    ensures
        match r {
            Some(i) => is_first_key(fields@, key@, i as int),
            None => forall|j: int| 0 <= j < fields@.len() ==> fields@[j].0@ != key@,
        },
{
    let mut i: usize = 0;
    while i < fields.len()
        invariant
            i <= fields@.len(),
            forall|j: int| 0 <= j < i ==> fields@[j].0@ != key@,
        decreases fields@.len() - i,
    {
        if fields[i].0 == *key {
            return Some(i);
        }
        i = i + 1;
    }
    None
}

/// Follows a path of keys, as written in the scene text, down the tree of
/// help texts.
pub fn get_documentation_structure_by_yaml_path<'a>(
    info: &'a DocumentationStructure,
    path: &[String],
) -> (r: Option<&'a DocumentationStructure>)
    ensures
        match r {
            Some(d) => doc_at_path(*info, path@.map_values(|s: String| s@)) == Some(*d),
            None => doc_at_path(*info, path@.map_values(|s: String| s@)) is None,
        },
{
    let ghost keys = path@.map_values(|s: String| s@);
    let mut cur: &'a DocumentationStructure = info;
    let mut k: usize = 0;
    assert(keys.subrange(0, keys.len() as int) =~= keys);
    while k < path.len()
        invariant
            k <= path@.len(),
            keys == path@.map_values(|s: String| s@),
            doc_at_path(*info, keys) == doc_at_path(*cur, keys.subrange(k as int, keys.len() as int)),
        decreases path@.len() - k,
    {
        let ghost rest = keys.subrange(k as int, keys.len() as int);
        assert(rest[0] == path@[k as int]@);
        assert(rest.drop_first() =~= keys.subrange(k + 1, keys.len() as int));
        let found = first_key(&cur.fields, &path[k]);
        match found {
            None => {
                return None;
            },
            Some(i) => {
                proof {
                    assert(is_first_key(cur.fields@, rest[0], i as int));
                    let c = choose|c: int| is_first_key(cur.fields@, rest[0], c);
                    lemma_first_key_unique(cur.fields@, rest[0], i as int, c);
                }
                cur = &cur.fields[i].1.documentation_structure;
            },
        }
        k = k + 1;
    }
    assert(keys.subrange(k as int, keys.len() as int).len() == 0);
    Some(cur)
}

} // verus!
