use pinchtask::tools::schema::{find_definition, resolve_refs, simplify_nullable_types, Json};

fn text(s: &str) -> Json {
    Json::Text(s.to_owned())
}

fn obj(entries: Vec<(&str, Json)>) -> Json {
    Json::Object(entries.into_iter().map(|(k, v)| (k.to_owned(), v)).collect())
}

fn get<'a>(v: &'a Json, key: &str) -> Option<&'a Json> {
    match v {
        Json::Object(m) => m.iter().find(|(k, _)| k == key).map(|(_, x)| x),
        _ => None,
    }
}

fn as_text(v: Option<&Json>) -> Option<&str> {
    match v {
        Some(Json::Text(s)) => Some(s.as_str()),
        _ => None,
    }
}

#[test]
fn nullable_simplification_works() {
    let schema = obj(vec![
        ("type", Json::Array(vec![text("string"), text("null")])),
        ("default", Json::Null),
        ("description", text("optional field")),
    ]);
    let schema = simplify_nullable_types(&schema);
    assert_eq!(as_text(get(&schema, "type")), Some("string"));
    assert!(get(&schema, "default").is_none());
    assert_eq!(as_text(get(&schema, "description")), Some("optional field"));
}

#[test]
fn nullable_simplification_preserves_non_nullable() {
    let schema = obj(vec![("type", text("string")), ("description", text("required field"))]);
    let schema = simplify_nullable_types(&schema);
    assert_eq!(as_text(get(&schema, "type")), Some("string"));
}

#[test]
fn nullable_simplification_reaches_nested_properties_and_keeps_real_unions() {
    let schema = obj(vec![(
        "properties",
        obj(vec![
            ("a", obj(vec![("type", Json::Array(vec![text("null"), text("integer")])), ("default", text("null"))])),
            ("b", obj(vec![("type", Json::Array(vec![text("string"), text("integer")])), ("default", Json::Null)])),
        ]),
    )]);
    let schema = simplify_nullable_types(&schema);
    let props = get(&schema, "properties").unwrap();
    let a = get(props, "a").unwrap();
    assert_eq!(as_text(get(a, "type")), Some("integer"));
    assert!(get(a, "default").is_none());
    let b = get(props, "b").unwrap();
    assert!(matches!(get(b, "type"), Some(Json::Array(v)) if v.len() == 2));
    assert!(get(b, "default").is_some());
}

#[test]
fn resolve_refs_unwraps_single_all_of_and_drops_titles() {
    let schema = obj(vec![
        ("title", text("Params")),
        (
            "properties",
            obj(vec![(
                "item",
                obj(vec![("allOf", Json::Array(vec![obj(vec![("title", text("Item")), ("type", text("object"))])]))]),
            )]),
        ),
    ]);
    let r = resolve_refs(&schema);
    assert!(get(&r, "title").is_none());
    let item = get(get(&r, "properties").unwrap(), "item").unwrap();
    assert_eq!(as_text(get(item, "type")), Some("object"));
    assert!(get(item, "title").is_none());
    assert!(get(item, "allOf").is_none());
}

#[test]
fn lone_ref_has_nothing_to_inline() {
    let schema = obj(vec![("$ref", text("#/$defs/Item"))]);
    assert!(find_definition(&schema, "Item").is_none());
    let r = resolve_refs(&schema);
    assert_eq!(as_text(get(&r, "$ref")), Some("#/$defs/Item"));
}

#[test]
fn definitions_are_found_under_defs_then_definitions() {
    let schema = obj(vec![
        ("$defs", obj(vec![("A", text("from defs"))])),
        ("definitions", obj(vec![("A", text("from definitions")), ("B", text("only here"))])),
    ]);
    assert!(matches!(find_definition(&schema, "A"), Some(Json::Text(s)) if s == "from defs"));
    assert!(matches!(find_definition(&schema, "B"), Some(Json::Text(s)) if s == "only here"));
    assert!(find_definition(&schema, "C").is_none());
}
