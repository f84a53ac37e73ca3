//! The four record types of an asset metadata document, their abstract
//! views, and the fluent builders that fill them in.
use vstd::prelude::*;

verus! {

/// Abstract value of an optional text field.
pub open spec fn text_view(o: Option<String>) -> Option<Seq<char>> {
    match o {
        Some(s) => Some(s@),
        None => None,
    }
}

/// Abstract value of a [`Metadata`].
pub struct MetadataV {
    pub name: Option<Seq<char>>,
    pub description: Option<Seq<char>>,
    pub image: Option<Seq<char>>,
    pub animation_url: Option<Seq<char>>,
    pub external_url: Option<Seq<char>>,
    pub attributes: Option<Seq<AttributeV>>,
    pub properties: Option<PropertiesV>,
}

/// Abstract value of an [`Attribute`].
pub struct AttributeV {
    pub trait_type: Option<Seq<char>>,
    pub value: Option<Seq<char>>,
}

/// Abstract value of a [`Properties`].
pub struct PropertiesV {
    pub files: Option<Seq<AssetFileV>>,
    pub category: Option<Seq<char>>,
}

/// Abstract value of an [`AssetFile`].
pub struct AssetFileV {
    pub uri: Option<Seq<char>>,
    pub file_type: Option<Seq<char>>,
    pub cdn: Option<bool>,
    pub resolution: Option<Seq<char>>,
    pub size: Option<u64>,
}

/// The empty metadata document: every field unset.
pub open spec fn empty_metadata() -> MetadataV {
    MetadataV {
        name: None,
        description: None,
        image: None,
        animation_url: None,
        external_url: None,
        attributes: None,
        properties: None,
    }
}

pub open spec fn empty_attribute() -> AttributeV {
    AttributeV { trait_type: None, value: None }
}

pub open spec fn empty_properties() -> PropertiesV {
    PropertiesV { files: None, category: None }
}

pub open spec fn empty_asset_file() -> AssetFileV {
    AssetFileV { uri: None, file_type: None, cdn: None, resolution: None, size: None }
}

/// A file reference with its CDN flag overwritten by `cdn`.
pub open spec fn cdn_set(f: AssetFileV, cdn: bool) -> AssetFileV {
    AssetFileV { cdn: Some(cdn), ..f }
}

/// Top-level document describing one asset.
#[derive(Clone, PartialEq, Debug)]
pub struct Metadata {
    /// Name of the asset
    pub name: Option<String>,
    /// Description of the asset
    pub description: Option<String>,
    /// URI pointing to the asset's logo
    pub image: Option<String>,
    /// URI pointing to the asset's animation
    pub animation_url: Option<String>,
    /// URI pointing to an external URL defining the asset
    pub external_url: Option<String>,
    /// Array of attributes defining the characteristics of the asset
    pub attributes: Option<Vec<Attribute>>,
    /// Additional properties that define the asset
    pub properties: Option<Properties>,
}

/// One trait of the asset: a named characteristic and its value.
#[derive(Clone, PartialEq, Debug)]
pub struct Attribute {
    /// The type of attribute
    pub trait_type: Option<String>,
    /// The value for that attribute
    pub value: Option<String>,
}

/// Auxiliary bundle: a media category and the files of the asset.
#[derive(Clone, PartialEq, Debug)]
pub struct Properties {
    /// Additional files to include with the asset
    pub files: Option<Vec<AssetFile>>,
    /// A media category for the asset
    pub category: Option<String>,
}

/// Reference to one auxiliary file of the asset.
#[derive(Clone, PartialEq, Debug)]
pub struct AssetFile {
    /// The file's URI
    pub uri: Option<String>,
    /// The file's type
    pub file_type: Option<String>,
    /// Whether the file is served from a CDN.
    pub cdn: Option<bool>,
    /// Defines the file's resolution if applicable
    pub resolution: Option<String>,
    /// The files size if applicable
    pub size: Option<u64>,
}

pub open spec fn attributes_view(v: Vec<Attribute>) -> Seq<AttributeV> {
    v@.map_values(|a: Attribute| a@)
}

pub open spec fn files_view(v: Vec<AssetFile>) -> Seq<AssetFileV> {
    v@.map_values(|f: AssetFile| f@)
}

impl View for Attribute {
    type V = AttributeV;

    open spec fn view(&self) -> AttributeV {
        AttributeV { trait_type: text_view(self.trait_type), value: text_view(self.value) }
    }
}

impl View for AssetFile {
    type V = AssetFileV;

    open spec fn view(&self) -> AssetFileV {
        AssetFileV {
            uri: text_view(self.uri),
            file_type: text_view(self.file_type),
            cdn: self.cdn,
            resolution: text_view(self.resolution),
            size: self.size,
        }
    }
}

impl View for Properties {
    type V = PropertiesV;

    open spec fn view(&self) -> PropertiesV {
        PropertiesV {
            files: match self.files {
                Some(v) => Some(files_view(v)),
                None => None,
            },
            category: text_view(self.category),
        }
    }
}

impl View for Metadata {
    type V = MetadataV;

    open spec fn view(&self) -> MetadataV {
        MetadataV {
            name: text_view(self.name),
            description: text_view(self.description),
            image: text_view(self.image),
            animation_url: text_view(self.animation_url),
            external_url: text_view(self.external_url),
            attributes: match self.attributes {
                Some(v) => Some(attributes_view(v)),
                None => None,
            },
            properties: match self.properties {
                Some(p) => Some(p@),
                None => None,
            },
        }
    }
}

impl Default for Metadata {
    fn default() -> (r: Self)
        ensures
            r@ == empty_metadata(),
    {
        Metadata {
            name: None,
            description: None,
            image: None,
            animation_url: None,
            external_url: None,
            attributes: None,
            properties: None,
        }
    }
}

impl Metadata {
    /// A document with every field unset.
    pub fn new() -> (r: Self)
        ensures
            r@ == empty_metadata(),
    {
        Metadata::default()
    }

    pub fn with_name(self, name: String) -> (r: Self)
        ensures
            r@ == (MetadataV { name: Some(name@), ..self@ }),
    {
        let mut m = self;
        m.name = Some(name);
        m
    }

    pub fn with_description(self, description: String) -> (r: Self)
        ensures
            r@ == (MetadataV { description: Some(description@), ..self@ }),
    {
        let mut m = self;
        m.description = Some(description);
        m
    }

    pub fn with_image(self, image: String) -> (r: Self)
        ensures
            r@ == (MetadataV { image: Some(image@), ..self@ }),
    {
        let mut m = self;
        m.image = Some(image);
        m
    }

    pub fn with_animation_url(self, animation_url: String) -> (r: Self)
        ensures
            r@ == (MetadataV { animation_url: Some(animation_url@), ..self@ }),
    {
        let mut m = self;
        m.animation_url = Some(animation_url);
        m
    }

    pub fn with_external_url(self, external_url: String) -> (r: Self)
        ensures
            r@ == (MetadataV { external_url: Some(external_url@), ..self@ }),
    {
        let mut m = self;
        m.external_url = Some(external_url);
        m
    }

    pub fn with_attributes(self, attributes: Vec<Attribute>) -> (r: Self)
        ensures
            r@ == (MetadataV { attributes: Some(attributes_view(attributes)), ..self@ }),
    {
        let mut m = self;
        m.attributes = Some(attributes);
        m
    }

    pub fn with_properties(self, properties: Properties) -> (r: Self)
        ensures
            r@ == (MetadataV { properties: Some(properties@), ..self@ }),
    {
        let mut m = self;
        m.properties = Some(properties);
        m
    }
}

impl Default for Attribute {
    fn default() -> (r: Self)
        ensures
            r@ == empty_attribute(),
    {
        Attribute { trait_type: None, value: None }
    }
}

impl Attribute {
    /// An attribute with both fields unset.
    pub fn new() -> (r: Self)
        ensures
            r@ == empty_attribute(),
    {
        Attribute::default()
    }

    pub fn with_trait_type(self, trait_type: String) -> (r: Self)
        ensures
            r@ == (AttributeV { trait_type: Some(trait_type@), ..self@ }),
    {
        let mut a = self;
        a.trait_type = Some(trait_type);
        a
    }

    pub fn with_value(self, value: String) -> (r: Self)
        ensures
            r@ == (AttributeV { value: Some(value@), ..self@ }),
    {
        let mut a = self;
        a.value = Some(value);
        a
    }
}

impl Default for Properties {
    fn default() -> (r: Self)
        ensures
            r@ == empty_properties(),
    {
        Properties { files: None, category: None }
    }
}

impl Properties {
    /// A bundle with both fields unset.
    pub fn new() -> (r: Self)
        ensures
            r@ == empty_properties(),
    {
        Properties::default()
    }

    pub fn with_category(self, category: String) -> (r: Self)
        ensures
            r@ == (PropertiesV { category: Some(category@), ..self@ }),
    {
        let mut p = self;
        p.category = Some(category);
        p
    }

    pub fn with_files(self, files: Vec<AssetFile>) -> (r: Self)
        ensures
            r@ == (PropertiesV { files: Some(files_view(files)), ..self@ }),
    {
        let mut p = self;
        p.files = Some(files);
        p
    }
}

impl Default for AssetFile {
    fn default() -> (r: Self)
        ensures
            r@ == empty_asset_file(),
    {
        AssetFile { uri: None, file_type: None, cdn: None, resolution: None, size: None }
    }
}

impl AssetFile {
    /// A file reference with every field unset.
    pub fn new() -> (r: Self)
        ensures
            r@ == empty_asset_file(),
    {
        AssetFile::default()
    }

    pub fn with_uri(self, uri: String) -> (r: Self)
        ensures
            r@ == (AssetFileV { uri: Some(uri@), ..self@ }),
    {
        let mut f = self;
        f.uri = Some(uri);
        f
    }

    pub fn with_file_type(self, file_type: String) -> (r: Self)
        ensures
            r@ == (AssetFileV { file_type: Some(file_type@), ..self@ }),
    {
        let mut f = self;
        f.file_type = Some(file_type);
        f
    }

    /// Overwrites the CDN flag; afterwards it is always present.
    pub fn set_cdn(&mut self, cdn: bool)
        ensures
            final(self)@ == cdn_set(old(self)@, cdn),
    {
        self.cdn = Some(cdn);
    }

    /// Marks the file as served from a CDN.
    pub fn with_cdn(self) -> (r: Self)
        ensures
            r@ == cdn_set(self@, true),
    {
        let mut f = self;
        f.cdn = Some(true);
        f
    }

    pub fn with_resolution(self, resolution: String) -> (r: Self)
        ensures
            r@ == (AssetFileV { resolution: Some(resolution@), ..self@ }),
    {
        let mut f = self;
        f.resolution = Some(resolution);
        f
    }

    pub fn with_size(self, size: u64) -> (r: Self)
        ensures
            r@ == (AssetFileV { size: Some(size), ..self@ }),
    {
        let mut f = self;
        f.size = Some(size);
        f
    }
}

} // verus!
