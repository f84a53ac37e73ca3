use nft_metadata::{
    decode_attribute, decode_metadata, schema, Entry, Kind, Metadata, Policy, Record, Value,
};

fn keys_and_flags(r: Record, p: Policy) -> Vec<(String, bool)> {
    schema(r, p).into_iter().map(|f| (f.key, f.required)).collect()
}

fn owned(v: Vec<(&str, bool)>) -> Vec<(String, bool)> {
    v.into_iter().map(|(k, b)| (k.to_string(), b)).collect()
}

#[test]
fn schema_lists_fields_in_order_with_policy_flags() {
    assert_eq!(
        keys_and_flags(Record::Metadata, Policy::SemiStrict),
        owned(vec![
            ("name", false),
            ("description", false),
            ("image", false),
            ("animation_url", false),
            ("external_url", false),
            ("attributes", false),
            ("properties", false),
        ])
    );
    assert!(schema(Record::Metadata, Policy::Strict).iter().all(|f| f.required));
    assert_eq!(
        keys_and_flags(Record::Attribute, Policy::Permissive),
        owned(vec![("trait_type", false), ("value", false)])
    );
    assert_eq!(
        keys_and_flags(Record::Attribute, Policy::SemiStrict),
        owned(vec![("trait_type", true), ("value", true)])
    );
    assert_eq!(
        keys_and_flags(Record::AssetFile, Policy::Strict),
        owned(vec![
            ("uri", true),
            ("type", true),
            ("cdn", false),
            ("resolution", false),
            ("size", false),
        ])
    );
    assert_eq!(
        keys_and_flags(Record::Properties, Policy::Strict),
        owned(vec![("files", true), ("category", true)])
    );
}

#[test]
fn schema_gives_shapes_nesting_and_descriptions() {
    let fields = schema(Record::Metadata, Policy::Permissive);
    assert_eq!(fields[0].kind, Kind::Text);
    assert_eq!(fields[0].description, "Name of the asset");
    assert_eq!(fields[5].kind, Kind::List);
    assert_eq!(fields[5].record, Some(Record::Attribute));
    assert_eq!(fields[6].kind, Kind::Object);
    assert_eq!(fields[6].record, Some(Record::Properties));
    let files = schema(Record::AssetFile, Policy::Permissive);
    assert_eq!(files[2].kind, Kind::Bool);
    assert_eq!(files[4].kind, Kind::Number);
    assert_eq!(files[4].description, "The files size if applicable");
}

#[test]
fn required_in_schema_means_required_by_decoder() {
    let empty = Value::Object(Vec::<Entry>::new());
    for p in [Policy::Permissive, Policy::SemiStrict, Policy::Strict] {
        let any_required = schema(Record::Attribute, p).iter().any(|f| f.required);
        assert_eq!(decode_attribute(&empty, p).is_err(), any_required);
        let any_top = schema(Record::Metadata, p).iter().any(|f| f.required);
        assert_eq!(decode_metadata(&empty, p).is_err(), any_top);
        if !any_top {
            assert_eq!(decode_metadata(&empty, p), Ok(Metadata::new()));
        }
    }
}
