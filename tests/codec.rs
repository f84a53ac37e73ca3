use nft_metadata::{
    decode_asset_file, decode_attribute, decode_metadata, decode_properties, encode_asset_file,
    encode_attribute, encode_metadata, encode_properties, AssetFile, Attribute, DecodeError, Entry,
    Kind, Metadata, Policy, Properties, Value,
};

fn text(s: &str) -> String {
    s.to_string()
}

fn t(s: &str) -> Value {
    Value::Text(s.to_string())
}

fn obj(entries: Vec<(&str, Value)>) -> Value {
    Value::Object(entries.into_iter().map(|(k, v)| Entry { key: k.to_string(), value: v }).collect())
}

fn get<'a>(v: &'a Value, key: &str) -> Option<&'a Value> {
    match v {
        Value::Object(es) => es.iter().find(|e| e.key == key).map(|e| &e.value),
        _ => None,
    }
}

fn keys(v: &Value) -> Vec<String> {
    match v {
        Value::Object(es) => es.iter().map(|e| e.key.clone()).collect(),
        _ => vec![],
    }
}

fn sword() -> Metadata {
    Metadata::new()
        .with_name(text("Sword"))
        .with_description(text("A sharp blade"))
        .with_image(text("ipfs://abc"))
        .with_attributes(vec![Attribute::new()
            .with_trait_type(text("Rarity"))
            .with_value(text("Legendary"))])
        .with_properties(Properties::new().with_category(text("image")).with_files(vec![
            AssetFile::new().with_uri(text("ipfs://def")).with_file_type(text("image/png")).with_size(2048),
        ]))
}

fn full() -> Metadata {
    sword()
        .with_animation_url(text("ipfs://anim"))
        .with_external_url(text("https://example.com/sword"))
}

#[test]
fn sword_scenario_document() {
    let doc = encode_metadata(&sword());
    assert_eq!(keys(&doc), vec!["name", "description", "image", "attributes", "properties"]);
    assert!(get(&doc, "animation_url").is_none());
    assert!(get(&doc, "external_url").is_none());
    let attrs = match get(&doc, "attributes") {
        Some(Value::List(items)) => items,
        other => panic!("attributes: {:?}", other),
    };
    assert_eq!(get(&attrs[0], "trait_type"), Some(&t("Rarity")));
    assert_eq!(get(&attrs[0], "value"), Some(&t("Legendary")));
    let props = get(&doc, "properties").unwrap();
    assert_eq!(get(props, "category"), Some(&t("image")));
    let files = match get(props, "files") {
        Some(Value::List(items)) => items,
        other => panic!("files: {:?}", other),
    };
    assert_eq!(get(&files[0], "size"), Some(&Value::Number(2048)));
    assert_eq!(get(&files[0], "type"), Some(&t("image/png")));
    assert!(get(&files[0], "cdn").is_none());
    assert!(get(&files[0], "resolution").is_none());
    assert!(get(&files[0], "file_type").is_none());
}

#[test]
fn round_trip_under_every_policy() {
    let m = full();
    for p in [Policy::Permissive, Policy::SemiStrict, Policy::Strict] {
        assert_eq!(decode_metadata(&encode_metadata(&m), p), Ok(m.clone()));
    }
}

#[test]
fn round_trip_of_sparse_record() {
    let m = Metadata::new().with_name(text("Only a name"));
    assert_eq!(decode_metadata(&encode_metadata(&m), Policy::Permissive), Ok(m.clone()));
    assert_eq!(decode_metadata(&encode_metadata(&m), Policy::SemiStrict), Ok(m));
    let empty = Metadata::new();
    assert_eq!(keys(&encode_metadata(&empty)), Vec::<String>::new());
    assert_eq!(decode_metadata(&encode_metadata(&empty), Policy::Permissive), Ok(empty));
}

#[test]
fn round_trip_of_nested_records() {
    let a = Attribute::new().with_value(text("Blue"));
    assert_eq!(decode_attribute(&encode_attribute(&a), Policy::Permissive), Ok(a));
    let mut f = AssetFile::new().with_uri(text("ipfs://f")).with_file_type(text("video/webm"));
    f.set_cdn(false);
    let f = f.with_resolution(text("1920x1080")).with_size(0);
    assert_eq!(decode_asset_file(&encode_asset_file(&f), Policy::Strict), Ok(f.clone()));
    let q = Properties::new().with_files(vec![f.clone(), f]).with_category(text("video"));
    assert_eq!(decode_properties(&encode_properties(&q), Policy::SemiStrict), Ok(q));
}

#[test]
fn unset_field_is_never_written() {
    let f = AssetFile::new().with_uri(text("ipfs://x"));
    assert_eq!(keys(&encode_asset_file(&f)), vec!["uri"]);
    let a = Attribute::new().with_trait_type(text("Color"));
    assert_eq!(keys(&encode_attribute(&a)), vec!["trait_type"]);
    let q = Properties::new().with_category(text("image"));
    assert_eq!(keys(&encode_properties(&q)), vec!["category"]);
}

#[test]
fn absent_or_null_optional_field_reads_unset() {
    let doc = obj(vec![("name", Value::Null), ("image", t("ipfs://abc"))]);
    let m = decode_metadata(&doc, Policy::SemiStrict).unwrap();
    assert_eq!(m, Metadata::new().with_image(text("ipfs://abc")));
    assert_eq!(decode_metadata(&obj(vec![]), Policy::Permissive), Ok(Metadata::new()));
    let f = decode_asset_file(
        &obj(vec![("uri", t("u")), ("type", t("x")), ("cdn", Value::Null), ("size", Value::Null)]),
        Policy::Strict,
    );
    assert_eq!(f, Ok(AssetFile::new().with_uri(text("u")).with_file_type(text("x"))));
}

#[test]
fn attribute_without_value_is_missing_field() {
    let doc = obj(vec![("trait_type", t("Color"))]);
    let want = Err(DecodeError::MissingField(text("value")));
    assert_eq!(decode_attribute(&doc, Policy::SemiStrict), want);
    assert_eq!(decode_attribute(&doc, Policy::Strict), want);
    assert_eq!(
        decode_attribute(&doc, Policy::Permissive),
        Ok(Attribute::new().with_trait_type(text("Color")))
    );
    let null_value = obj(vec![("trait_type", t("Color")), ("value", Value::Null)]);
    assert_eq!(decode_attribute(&null_value, Policy::SemiStrict), want);
}

#[test]
fn missing_required_fields_are_reported_in_order() {
    assert_eq!(
        decode_attribute(&obj(vec![]), Policy::SemiStrict),
        Err(DecodeError::MissingField(text("trait_type")))
    );
    assert_eq!(
        decode_asset_file(&obj(vec![("uri", t("u"))]), Policy::SemiStrict),
        Err(DecodeError::MissingField(text("type")))
    );
    assert_eq!(
        decode_properties(&obj(vec![("category", t("image"))]), Policy::SemiStrict),
        Err(DecodeError::MissingField(text("files")))
    );
    assert_eq!(
        decode_metadata(&obj(vec![]), Policy::Strict),
        Err(DecodeError::MissingField(text("name")))
    );
    assert_eq!(
        decode_metadata(&encode_metadata(&sword()), Policy::Strict),
        Err(DecodeError::MissingField(text("animation_url")))
    );
    assert_eq!(decode_metadata(&obj(vec![]), Policy::SemiStrict), Ok(Metadata::new()));
}

#[test]
fn nested_required_field_fails_whole_document() {
    let doc = obj(vec![("attributes", Value::List(vec![obj(vec![("value", t("Blue"))])]))]);
    assert_eq!(
        decode_metadata(&doc, Policy::SemiStrict),
        Err(DecodeError::MissingField(text("trait_type")))
    );
    assert_eq!(
        decode_metadata(&doc, Policy::Permissive),
        Ok(Metadata::new().with_attributes(vec![Attribute::new().with_value(text("Blue"))]))
    );
}

#[test]
fn wrong_shapes_are_type_mismatches() {
    let size_text = obj(vec![("size", t("2048"))]);
    assert_eq!(
        decode_asset_file(&size_text, Policy::Permissive),
        Err(DecodeError::TypeMismatch { field: text("size"), expected: Kind::Number, actual: Kind::Text })
    );
    let cdn_number = obj(vec![("cdn", Value::Number(1))]);
    assert_eq!(
        decode_asset_file(&cdn_number, Policy::Permissive),
        Err(DecodeError::TypeMismatch { field: text("cdn"), expected: Kind::Bool, actual: Kind::Number })
    );
    let name_bool = obj(vec![("name", Value::Bool(true))]);
    assert_eq!(
        decode_metadata(&name_bool, Policy::Permissive),
        Err(DecodeError::TypeMismatch { field: text("name"), expected: Kind::Text, actual: Kind::Bool })
    );
    let attrs_object = obj(vec![("attributes", obj(vec![]))]);
    assert_eq!(
        decode_metadata(&attrs_object, Policy::Permissive),
        Err(DecodeError::TypeMismatch { field: text("attributes"), expected: Kind::List, actual: Kind::Object })
    );
    let element_text = obj(vec![("attributes", Value::List(vec![t("Blue")]))]);
    assert_eq!(
        decode_metadata(&element_text, Policy::Permissive),
        Err(DecodeError::TypeMismatch { field: text("attributes"), expected: Kind::Object, actual: Kind::Text })
    );
    let props_list = obj(vec![("properties", Value::List(vec![]))]);
    assert_eq!(
        decode_metadata(&props_list, Policy::Permissive),
        Err(DecodeError::TypeMismatch { field: text("properties"), expected: Kind::Object, actual: Kind::List })
    );
    let file_number = obj(vec![("files", Value::List(vec![Value::Number(3)]))]);
    assert_eq!(
        decode_properties(&file_number, Policy::Permissive),
        Err(DecodeError::TypeMismatch { field: text("files"), expected: Kind::Object, actual: Kind::Number })
    );
    assert_eq!(
        decode_metadata(&Value::List(vec![]), Policy::Permissive),
        Err(DecodeError::TypeMismatch { field: text(""), expected: Kind::Object, actual: Kind::List })
    );
}

#[test]
fn unknown_keys_are_ignored_at_every_level() {
    let doc = obj(vec![
        ("foo", Value::Number(1)),
        ("name", t("Sword")),
        (
            "attributes",
            Value::List(vec![obj(vec![
                ("trait_type", t("Rarity")),
                ("foo", Value::Number(1)),
                ("value", t("Legendary")),
            ])]),
        ),
        (
            "properties",
            obj(vec![
                ("category", t("image")),
                ("foo", Value::Number(1)),
                ("files", Value::List(vec![obj(vec![
                    ("uri", t("ipfs://def")),
                    ("type", t("image/png")),
                    ("foo", Value::Number(1)),
                ])])),
            ]),
        ),
    ]);
    let want = Metadata::new()
        .with_name(text("Sword"))
        .with_attributes(vec![Attribute::new()
            .with_trait_type(text("Rarity"))
            .with_value(text("Legendary"))])
        .with_properties(Properties::new().with_category(text("image")).with_files(vec![
            AssetFile::new().with_uri(text("ipfs://def")).with_file_type(text("image/png")),
        ]));
    assert_eq!(decode_metadata(&doc, Policy::SemiStrict), Ok(want));
}

#[test]
fn first_entry_of_a_repeated_key_wins() {
    let doc = obj(vec![("name", t("first")), ("name", t("second"))]);
    assert_eq!(
        decode_metadata(&doc, Policy::Permissive),
        Ok(Metadata::new().with_name(text("first")))
    );
}

#[test]
fn value_kind_names_the_node_shape() {
    assert_eq!(Value::Null.kind(), Kind::Null);
    assert_eq!(Value::Bool(false).kind(), Kind::Bool);
    assert_eq!(Value::Number(7).kind(), Kind::Number);
    assert_eq!(t("x").kind(), Kind::Text);
    assert_eq!(Value::List(vec![]).kind(), Kind::List);
    assert_eq!(obj(vec![]).kind(), Kind::Object);
}
