use nft_metadata::{AssetFile, Attribute, Metadata, Properties};

fn text(s: &str) -> String {
    s.to_string()
}

#[test]
fn new_records_are_empty() {
    let m = Metadata::new();
    assert_eq!(m.name, None);
    assert_eq!(m.description, None);
    assert_eq!(m.image, None);
    assert_eq!(m.animation_url, None);
    assert_eq!(m.external_url, None);
    assert_eq!(m.attributes, None);
    assert_eq!(m.properties, None);
    assert_eq!(Attribute::new(), Attribute { trait_type: None, value: None });
    assert_eq!(Properties::new(), Properties { files: None, category: None });
    assert_eq!(
        AssetFile::new(),
        AssetFile { uri: None, file_type: None, cdn: None, resolution: None, size: None }
    );
}

#[test]
fn metadata_builder_matches_field_assignment() {
    let attrs = vec![Attribute::new().with_trait_type(text("Color")).with_value(text("Blue"))];
    let props = Properties::new().with_category(text("image")).with_files(vec![]);
    let built = Metadata::new()
        .with_name(text("Sword"))
        .with_description(text("A sharp blade"))
        .with_image(text("ipfs://abc"))
        .with_animation_url(text("ipfs://anim"))
        .with_external_url(text("https://example.com/sword"))
        .with_attributes(attrs.clone())
        .with_properties(props.clone());
    let direct = Metadata {
        name: Some(text("Sword")),
        description: Some(text("A sharp blade")),
        image: Some(text("ipfs://abc")),
        animation_url: Some(text("ipfs://anim")),
        external_url: Some(text("https://example.com/sword")),
        attributes: Some(attrs),
        properties: Some(props),
    };
    assert_eq!(built, direct);
}

#[test]
fn attribute_and_properties_builders() {
    let a = Attribute::new().with_trait_type(text("Rarity")).with_value(text("Legendary"));
    assert_eq!(a.trait_type, Some(text("Rarity")));
    assert_eq!(a.value, Some(text("Legendary")));
    let f = AssetFile::new().with_uri(text("ipfs://def"));
    let p = Properties::new().with_files(vec![f.clone()]).with_category(text("video"));
    assert_eq!(p, Properties { files: Some(vec![f]), category: Some(text("video")) });
}

#[test]
fn asset_file_builder_sets_each_field() {
    let f = AssetFile::new()
        .with_uri(text("ipfs://def"))
        .with_file_type(text("image/png"))
        .with_cdn()
        .with_resolution(text("1920x1080"))
        .with_size(2048);
    assert_eq!(
        f,
        AssetFile {
            uri: Some(text("ipfs://def")),
            file_type: Some(text("image/png")),
            cdn: Some(true),
            resolution: Some(text("1920x1080")),
            size: Some(2048),
        }
    );
}

#[test]
fn later_setter_overwrites_earlier() {
    let m = Metadata::new().with_name(text("first")).with_name(text("second"));
    assert_eq!(m.name, Some(text("second")));
}

#[test]
fn cdn_mutator_true_then_false_leaves_false() {
    let mut f = AssetFile::new().with_uri(text("ipfs://x"));
    f.set_cdn(true);
    assert_eq!(f.cdn, Some(true));
    f.set_cdn(false);
    assert_eq!(f.cdn, Some(false));
    assert_eq!(f.uri, Some(text("ipfs://x")));
}

#[test]
fn with_cdn_always_sets_true() {
    let mut f = AssetFile::new();
    f.set_cdn(false);
    let f = f.with_cdn();
    assert_eq!(f.cdn, Some(true));
}
