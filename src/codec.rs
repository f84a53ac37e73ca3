//! Encoding records into document trees and decoding them back, under a
//! policy that decides which fields a document must carry.
use vstd::prelude::*;
use vstd::string::StringExecFns;
use crate::document::{
    Doc, Entry, Kind, Value, entries_view, find, kind_of, lemma_list_view, lemma_lookup_append,
    lemma_object_view, lemma_single_lookup, lookup, present,
};
use crate::records::{
    AssetFile, AssetFileV, Attribute, AttributeV, Metadata, MetadataV, Properties, PropertiesV,
    attributes_view, files_view, text_view,
};

verus! {

/// Which fields a document must carry.
///
/// * `Permissive`: every field is optional.
/// * `SemiStrict`: the fields of attributes, properties and files (`uri`,
///   `type`) are required; the top-level fields stay optional.
/// * `Strict`: as `SemiStrict`, and every top-level field is required too.
///
/// A file's `cdn`, `resolution` and `size` are optional under every policy.
#[derive(Clone, Copy, PartialEq, Eq, Structural, Debug)]
pub enum Policy {
    Permissive,
    SemiStrict,
    Strict,
}

/// Whether the top-level fields of a [`Metadata`] are required.
pub open spec fn top_required(p: Policy) -> bool {
    p == Policy::Strict
}

/// Whether the core fields of the nested records are required.
pub open spec fn inner_required(p: Policy) -> bool {
    p != Policy::Permissive
}

impl Policy {
    pub fn requires_top_fields(self) -> (r: bool)
        ensures
            r == top_required(self),
    {
        match self {
            Policy::Strict => true,
            _ => false,
        }
    }

    pub fn requires_inner_fields(self) -> (r: bool)
        ensures
            r == inner_required(self),
    {
        match self {
            Policy::Permissive => false,
            _ => true,
        }
    }
}

/// Why a document could not be decoded.
#[derive(Clone, PartialEq, Debug)]
pub enum DecodeError {
    /// A required field is absent or null.
    MissingField(String),
    /// A field holds a node of the wrong shape. For a document that is not
    /// an object at all, `field` names the field that holds it, and is empty
    /// at the top level.
    TypeMismatch { field: String, expected: Kind, actual: Kind },
}

/// Abstract value of a [`DecodeError`].
pub enum ErrorV {
    MissingField(Seq<char>),
    TypeMismatch(Seq<char>, Kind, Kind),
}

impl View for DecodeError {
    type V = ErrorV;

    open spec fn view(&self) -> ErrorV {
        match self {
            DecodeError::MissingField(f) => ErrorV::MissingField(f@),
            DecodeError::TypeMismatch { field, expected, actual } => ErrorV::TypeMismatch(
                field@,
                *expected,
                *actual,
            ),
        }
    }
}

// ---------------------------------------------------------------------
// Encoding
// ---------------------------------------------------------------------

/// The abstract entries of an object node.
pub type Entries = Seq<(Seq<char>, Doc)>;

/// The entry for an optional text field: none when unset.
pub open spec fn text_entry(key: Seq<char>, o: Option<Seq<char>>) -> Entries {
    match o {
        Some(s) => seq![(key, Doc::Text(s))],
        None => seq![],
    }
}

pub open spec fn bool_entry(key: Seq<char>, o: Option<bool>) -> Entries {
    match o {
        Some(b) => seq![(key, Doc::Bool(b))],
        None => seq![],
    }
}

pub open spec fn number_entry(key: Seq<char>, o: Option<u64>) -> Entries {
    match o {
        Some(n) => seq![(key, Doc::Number(n))],
        None => seq![],
    }
}

/// The document of an attribute.
pub open spec fn attribute_doc(a: AttributeV) -> Doc {
    Doc::Object(text_entry("trait_type"@, a.trait_type) + text_entry("value"@, a.value))
}

/// The document of a file reference; `file_type` goes under the key `type`.
pub open spec fn asset_file_doc(f: AssetFileV) -> Doc {
    Doc::Object(
        text_entry("uri"@, f.uri) + text_entry("type"@, f.file_type) + bool_entry("cdn"@, f.cdn)
            + text_entry("resolution"@, f.resolution) + number_entry("size"@, f.size),
    )
}

pub open spec fn files_entry(o: Option<Seq<AssetFileV>>) -> Entries {
    match o {
        Some(fs) => seq![("files"@, Doc::List(docs_of(fs, |f: AssetFileV| asset_file_doc(f))))],
        None => seq![],
    }
}

/// The document of a properties bundle.
pub open spec fn properties_doc(p: PropertiesV) -> Doc {
    Doc::Object(files_entry(p.files) + text_entry("category"@, p.category))
}

pub open spec fn attributes_entry(o: Option<Seq<AttributeV>>) -> Entries {
    match o {
        Some(xs) => seq![
            ("attributes"@, Doc::List(docs_of(xs, |a: AttributeV| attribute_doc(a)))),
        ],
        None => seq![],
    }
}

pub open spec fn properties_entry(o: Option<PropertiesV>) -> Entries {
    match o {
        Some(p) => seq![("properties"@, properties_doc(p))],
        None => seq![],
    }
}

/// The document of a metadata record: one entry per set field, in
/// declaration order; unset fields are left out.
pub open spec fn metadata_doc(m: MetadataV) -> Doc {
    Doc::Object(
        text_entry("name"@, m.name) + text_entry("description"@, m.description) + text_entry(
            "image"@,
            m.image,
        ) + text_entry("animation_url"@, m.animation_url) + text_entry(
            "external_url"@,
            m.external_url,
        ) + attributes_entry(m.attributes) + properties_entry(m.properties),
    )
}

/// The documents of a run of records.
pub open spec fn docs_of<T>(xs: Seq<T>, f: spec_fn(T) -> Doc) -> Seq<Doc> {
    xs.map_values(f)
}

// ---------------------------------------------------------------------
// Decoding
// ---------------------------------------------------------------------

/// An optional or required text field.
pub open spec fn text_field(o: Entries, key: Seq<char>, required: bool) -> Result<
    Option<Seq<char>>,
    ErrorV,
> {
    match present(o, key) {
        None => if required {
            Err(ErrorV::MissingField(key))
        } else {
            Ok(None)
        },
        Some(Doc::Text(s)) => Ok(Some(s)),
        Some(d) => Err(ErrorV::TypeMismatch(key, Kind::Text, kind_of(d))),
    }
}

pub open spec fn bool_field(o: Entries, key: Seq<char>) -> Result<Option<bool>, ErrorV> {
    match present(o, key) {
        None => Ok(None),
        Some(Doc::Bool(b)) => Ok(Some(b)),
        Some(d) => Err(ErrorV::TypeMismatch(key, Kind::Bool, kind_of(d))),
    }
}

pub open spec fn number_field(o: Entries, key: Seq<char>) -> Result<Option<u64>, ErrorV> {
    match present(o, key) {
        None => Ok(None),
        Some(Doc::Number(n)) => Ok(Some(n)),
        Some(d) => Err(ErrorV::TypeMismatch(key, Kind::Number, kind_of(d))),
    }
}

/// The attribute that a document holds; an element of `attributes`.
pub open spec fn attribute_of(d: Doc, p: Policy) -> Result<AttributeV, ErrorV> {
    match d {
        Doc::Object(o) => {
            let t = text_field(o, "trait_type"@, inner_required(p));
            let v = text_field(o, "value"@, inner_required(p));
            if t is Err {
                Err(t->Err_0)
            } else if v is Err {
                Err(v->Err_0)
            } else {
                Ok(AttributeV { trait_type: t->Ok_0, value: v->Ok_0 })
            }
        },
        _ => Err(ErrorV::TypeMismatch("attributes"@, Kind::Object, kind_of(d))),
    }
}

/// The keys of the documents are pairwise distinct.
pub(crate) proof fn distinct_keys()
    ensures
        "trait_type"@ != "value"@,
        "uri"@ != "type"@,
        "uri"@ != "cdn"@,
        "uri"@ != "resolution"@,
        "uri"@ != "size"@,
        "type"@ != "cdn"@,
        "type"@ != "resolution"@,
        "type"@ != "size"@,
        "cdn"@ != "resolution"@,
        "cdn"@ != "size"@,
        "resolution"@ != "size"@,
        "files"@ != "category"@,
        "name"@ != "description"@,
        "name"@ != "image"@,
        "name"@ != "animation_url"@,
        "name"@ != "external_url"@,
        "name"@ != "attributes"@,
        "name"@ != "properties"@,
        "description"@ != "image"@,
        "description"@ != "animation_url"@,
        "description"@ != "external_url"@,
        "description"@ != "attributes"@,
        "description"@ != "properties"@,
        "image"@ != "animation_url"@,
        "image"@ != "external_url"@,
        "image"@ != "attributes"@,
        "image"@ != "properties"@,
        "animation_url"@ != "external_url"@,
        "animation_url"@ != "attributes"@,
        "animation_url"@ != "properties"@,
        "external_url"@ != "attributes"@,
        "external_url"@ != "properties"@,
        "attributes"@ != "properties"@,
{
    reveal_strlit("trait_type");
    assert("trait_type"@.len() == 10);
    reveal_strlit("value");
    assert("value"@.len() == 5);
    reveal_strlit("uri");
    assert("uri"@.len() == 3);
    reveal_strlit("type");
    assert("type"@.len() == 4);
    reveal_strlit("cdn");
    assert("cdn"@.len() == 3);
    reveal_strlit("resolution");
    assert("resolution"@.len() == 10);
    reveal_strlit("size");
    assert("size"@.len() == 4);
    reveal_strlit("files");
    assert("files"@.len() == 5);
    reveal_strlit("category");
    assert("category"@.len() == 8);
    reveal_strlit("name");
    assert("name"@.len() == 4);
    reveal_strlit("description");
    assert("description"@.len() == 11);
    reveal_strlit("image");
    assert("image"@.len() == 5);
    reveal_strlit("animation_url");
    assert("animation_url"@.len() == 13);
    reveal_strlit("external_url");
    assert("external_url"@.len() == 12);
    reveal_strlit("attributes");
    assert("attributes"@.len() == 10);
    reveal_strlit("properties");
    assert("properties"@.len() == 10);
    assert("uri"@[0] != "cdn"@[0]);
    assert("type"@[0] != "size"@[0]);
    assert("attributes"@[0] != "properties"@[0]);
}


/// The records held by a run of documents; the first failure, in order,
/// is the error.
pub open spec fn list_of<T>(xs: Seq<Doc>, f: spec_fn(Doc) -> Result<T, ErrorV>) -> Result<
    Seq<T>,
    ErrorV,
>
    decreases xs.len(),
{
    if xs.len() == 0 {
        Ok(Seq::empty())
    } else {
        match list_of(xs.drop_last(), f) {
            Err(e) => Err(e),
            Ok(prev) => match f(xs.last()) {
                Err(e) => Err(e),
                Ok(x) => Ok(prev.push(x)),
            },
        }
    }
}

/// The file reference that a document holds; an element of `files`.
pub open spec fn asset_file_of(d: Doc, p: Policy) -> Result<AssetFileV, ErrorV> {
    match d {
        Doc::Object(o) => {
            let uri = text_field(o, "uri"@, inner_required(p));
            let file_type = text_field(o, "type"@, inner_required(p));
            let cdn = bool_field(o, "cdn"@);
            let resolution = text_field(o, "resolution"@, false);
            let size = number_field(o, "size"@);
            if uri is Err {
                Err(uri->Err_0)
            } else if file_type is Err {
                Err(file_type->Err_0)
            } else if cdn is Err {
                Err(cdn->Err_0)
            } else if resolution is Err {
                Err(resolution->Err_0)
            } else if size is Err {
                Err(size->Err_0)
            } else {
                Ok(
                    AssetFileV {
                        uri: uri->Ok_0,
                        file_type: file_type->Ok_0,
                        cdn: cdn->Ok_0,
                        resolution: resolution->Ok_0,
                        size: size->Ok_0,
                    },
                )
            }
        },
        _ => Err(ErrorV::TypeMismatch("files"@, Kind::Object, kind_of(d))),
    }
}

/// A field holding a list of records.
pub open spec fn list_field<T>(
    o: Entries,
    key: Seq<char>,
    required: bool,
    f: spec_fn(Doc) -> Result<T, ErrorV>,
) -> Result<Option<Seq<T>>, ErrorV> {
    match present(o, key) {
        None => if required {
            Err(ErrorV::MissingField(key))
        } else {
            Ok(None)
        },
        Some(Doc::List(xs)) => match list_of(xs, f) {
            Ok(v) => Ok(Some(v)),
            Err(e) => Err(e),
        },
        Some(d) => Err(ErrorV::TypeMismatch(key, Kind::List, kind_of(d))),
    }
}

/// The properties bundle that a document holds.
pub open spec fn properties_of(d: Doc, p: Policy) -> Result<PropertiesV, ErrorV> {
    match d {
        Doc::Object(o) => {
            let files = list_field(
                o,
                "files"@,
                inner_required(p),
                |x: Doc| asset_file_of(x, p),
            );
            let category = text_field(o, "category"@, inner_required(p));
            if files is Err {
                Err(files->Err_0)
            } else if category is Err {
                Err(category->Err_0)
            } else {
                Ok(PropertiesV { files: files->Ok_0, category: category->Ok_0 })
            }
        },
        _ => Err(ErrorV::TypeMismatch("properties"@, Kind::Object, kind_of(d))),
    }
}

pub open spec fn properties_field(o: Entries, p: Policy) -> Result<Option<PropertiesV>, ErrorV> {
    match present(o, "properties"@) {
        None => if top_required(p) {
            Err(ErrorV::MissingField("properties"@))
        } else {
            Ok(None)
        },
        Some(d) => match properties_of(d, p) {
            Ok(v) => Ok(Some(v)),
            Err(e) => Err(e),
        },
    }
}

/// The metadata record that a document holds. Keys that no field names are
/// ignored; an explicit null is read as an absent field.
pub open spec fn metadata_of(d: Doc, p: Policy) -> Result<MetadataV, ErrorV> {
    match d {
        Doc::Object(o) => {
            let req = top_required(p);
            let name = text_field(o, "name"@, req);
            let description = text_field(o, "description"@, req);
            let image = text_field(o, "image"@, req);
            let animation_url = text_field(o, "animation_url"@, req);
            let external_url = text_field(o, "external_url"@, req);
            let attributes = list_field(o, "attributes"@, req, |x: Doc| attribute_of(x, p));
            let properties = properties_field(o, p);
            if name is Err {
                Err(name->Err_0)
            } else if description is Err {
                Err(description->Err_0)
            } else if image is Err {
                Err(image->Err_0)
            } else if animation_url is Err {
                Err(animation_url->Err_0)
            } else if external_url is Err {
                Err(external_url->Err_0)
            } else if attributes is Err {
                Err(attributes->Err_0)
            } else if properties is Err {
                Err(properties->Err_0)
            } else {
                Ok(
                    MetadataV {
                        name: name->Ok_0,
                        description: description->Ok_0,
                        image: image->Ok_0,
                        animation_url: animation_url->Ok_0,
                        external_url: external_url->Ok_0,
                        attributes: attributes->Ok_0,
                        properties: properties->Ok_0,
                    },
                )
            }
        },
        _ => Err(ErrorV::TypeMismatch(Seq::empty(), Kind::Object, kind_of(d))),
    }
}

// ---------------------------------------------------------------------
// Validity under a policy
// ---------------------------------------------------------------------

/// Whether an attribute carries what the policy requires.
pub open spec fn attribute_valid(a: AttributeV, p: Policy) -> bool {
    inner_required(p) ==> a.trait_type is Some && a.value is Some
}

pub open spec fn asset_file_valid(f: AssetFileV, p: Policy) -> bool {
    inner_required(p) ==> f.uri is Some && f.file_type is Some
}

pub open spec fn properties_valid(q: PropertiesV, p: Policy) -> bool {
    &&& inner_required(p) ==> q.files is Some && q.category is Some
    &&& q.files matches Some(fs) ==> forall|i: int| 0 <= i < fs.len() ==> asset_file_valid(#[trigger] fs[i], p)
}

/// Whether a metadata record, with all it holds, carries what the policy
/// requires.
pub open spec fn metadata_valid(m: MetadataV, p: Policy) -> bool {
    &&& top_required(p) ==> {
        &&& m.name is Some
        &&& m.description is Some
        &&& m.image is Some
        &&& m.animation_url is Some
        &&& m.external_url is Some
        &&& m.attributes is Some
        &&& m.properties is Some
    }
    &&& m.attributes matches Some(xs) ==> forall|i: int| 0 <= i < xs.len() ==> attribute_valid(#[trigger] xs[i], p)
    &&& m.properties matches Some(q) ==> properties_valid(q, p)
}


// ---------------------------------------------------------------------
// Decoding undoes encoding
// ---------------------------------------------------------------------

proof fn lemma_list_round_trip<T>(
    xs: Seq<T>,
    enc: spec_fn(T) -> Doc,
    dec: spec_fn(Doc) -> Result<T, ErrorV>,
)
    requires
        forall|i: int| 0 <= i < xs.len() ==> dec(enc(#[trigger] xs[i])) == Ok::<T, ErrorV>(xs[i]),
    ensures
        list_of(docs_of(xs, enc), dec) == Ok::<Seq<T>, ErrorV>(xs),
    decreases xs.len(),
{
    let ds = docs_of(xs, enc);
    if xs.len() > 0 {
        assert(ds.drop_last() =~= docs_of(xs.drop_last(), enc));
        lemma_list_round_trip(xs.drop_last(), enc, dec);
        assert(dec(enc(xs[xs.len() - 1])) == Ok::<T, ErrorV>(xs[xs.len() - 1]));
        assert(xs.drop_last().push(xs.last()) =~= xs);
    } else {
        assert(xs =~= Seq::<T>::empty());
    }
}

/// Decoding the document of an attribute that the policy accepts gives the
/// attribute back.
pub proof fn lemma_attribute_round_trip(a: AttributeV, p: Policy)
    requires
        attribute_valid(a, p),
    ensures
        attribute_of(attribute_doc(a), p) == Ok::<AttributeV, ErrorV>(a),
{
    broadcast use lemma_lookup_append, lemma_single_lookup;
    distinct_keys();
}

/// Decoding the document of a file reference that the policy accepts gives
/// the file reference back.
pub proof fn lemma_asset_file_round_trip(f: AssetFileV, p: Policy)
    requires
        asset_file_valid(f, p),
    ensures
        asset_file_of(asset_file_doc(f), p) == Ok::<AssetFileV, ErrorV>(f),
{
    broadcast use lemma_lookup_append, lemma_single_lookup;
    distinct_keys();
}

/// Decoding the document of a properties bundle that the policy accepts,
/// files included, gives the bundle back.
pub proof fn lemma_properties_round_trip(q: PropertiesV, p: Policy)
    requires
        properties_valid(q, p),
    ensures
        properties_of(properties_doc(q), p) == Ok::<PropertiesV, ErrorV>(q),
{
    broadcast use lemma_lookup_append, lemma_single_lookup;
    distinct_keys();
    if let Some(fs) = q.files {
        assert forall|i: int| 0 <= i < fs.len() implies (|x: Doc| asset_file_of(x, p))(
            (|f: AssetFileV| asset_file_doc(f))(#[trigger] fs[i]),
        ) == Ok::<AssetFileV, ErrorV>(fs[i]) by {
            lemma_asset_file_round_trip(fs[i], p);
        }
        lemma_list_round_trip(fs, |f: AssetFileV| asset_file_doc(f), |x: Doc| asset_file_of(x, p));
    }
}

/// Round trip: decoding the document of a metadata record that the policy
/// accepts, with everything it holds, gives the record back.
pub proof fn lemma_metadata_round_trip(m: MetadataV, p: Policy)
    requires
        metadata_valid(m, p),
    ensures
        metadata_of(metadata_doc(m), p) == Ok::<MetadataV, ErrorV>(m),
{
    broadcast use lemma_lookup_append, lemma_single_lookup;
    distinct_keys();
    if let Some(xs) = m.attributes {
        assert forall|i: int| 0 <= i < xs.len() implies (|x: Doc| attribute_of(x, p))(
            (|a: AttributeV| attribute_doc(a))(#[trigger] xs[i]),
        ) == Ok::<AttributeV, ErrorV>(xs[i]) by {
            lemma_attribute_round_trip(xs[i], p);
        }
        lemma_list_round_trip(xs, |a: AttributeV| attribute_doc(a), |x: Doc| attribute_of(x, p));
    }
    if let Some(q) = m.properties {
        lemma_properties_round_trip(q, p);
    }
}


// ---------------------------------------------------------------------
// Executable encoding
// ---------------------------------------------------------------------

fn push_text(out: &mut Vec<Entry>, key: &str, o: &Option<String>)
    ensures
        entries_view(final(out)@) == entries_view(old(out)@) + text_entry(key@, text_view(*o)),
{
    match o {
        Some(s) => {
            out.push(Entry { key: String::from_str(key), value: Value::Text(s.clone()) });
        },
        None => {},
    }
    assert(entries_view(out@) =~= entries_view(old(out)@) + text_entry(key@, text_view(*o)));
}

fn push_bool(out: &mut Vec<Entry>, key: &str, o: Option<bool>)
    ensures
        entries_view(final(out)@) == entries_view(old(out)@) + bool_entry(key@, o),
{
    match o {
        Some(b) => {
            out.push(Entry { key: String::from_str(key), value: Value::Bool(b) });
        },
        None => {},
    }
    assert(entries_view(out@) =~= entries_view(old(out)@) + bool_entry(key@, o));
}

fn push_number(out: &mut Vec<Entry>, key: &str, o: Option<u64>)
    ensures
        entries_view(final(out)@) == entries_view(old(out)@) + number_entry(key@, o),
{
    match o {
        Some(n) => {
            out.push(Entry { key: String::from_str(key), value: Value::Number(n) });
        },
        None => {},
    }
    assert(entries_view(out@) =~= entries_view(old(out)@) + number_entry(key@, o));
}

/// The document of an attribute: its set fields, in declaration order.
pub fn encode_attribute(a: &Attribute) -> (v: Value)
    ensures
        v@ == attribute_doc(a@),
{
    let mut out: Vec<Entry> = Vec::new();
    assert(entries_view(out@) =~= Seq::empty());
    push_text(&mut out, "trait_type", &a.trait_type);
    push_text(&mut out, "value", &a.value);
    proof {
        lemma_object_view(out);
    }
    Value::Object(out)
}

/// The document of a file reference: its set fields, in declaration order,
/// with `file_type` under the key `type`.
pub fn encode_asset_file(f: &AssetFile) -> (v: Value)
    ensures
        v@ == asset_file_doc(f@),
{
    let mut out: Vec<Entry> = Vec::new();
    assert(entries_view(out@) =~= Seq::empty());
    push_text(&mut out, "uri", &f.uri);
    push_text(&mut out, "type", &f.file_type);
    push_bool(&mut out, "cdn", f.cdn);
    push_text(&mut out, "resolution", &f.resolution);
    push_number(&mut out, "size", f.size);
    proof {
        lemma_object_view(out);
    }
    Value::Object(out)
}

fn encode_files(fs: &Vec<AssetFile>) -> (v: Value)
    ensures
        v@ == Doc::List(docs_of(files_view(*fs), |f: AssetFileV| asset_file_doc(f))),
{
    let mut items: Vec<Value> = Vec::new();
    let mut i: usize = 0;
    while i < fs.len()
        invariant
            i <= fs.len(),
            items@.len() == i,
            forall|j: int| 0 <= j < i ==> #[trigger] items@[j]@ == asset_file_doc(fs@[j]@),
        decreases fs.len() - i,
    {
        items.push(encode_asset_file(&fs[i]));
        i = i + 1;
    }
    proof {
        lemma_list_view(items);
        assert(items@.map_values(|x: Value| x@) =~= docs_of(
            files_view(*fs),
            |f: AssetFileV| asset_file_doc(f),
        ));
    }
    Value::List(items)
}

/// The document of a properties bundle: its set fields, in declaration order.
pub fn encode_properties(q: &Properties) -> (v: Value)
    ensures
        v@ == properties_doc(q@),
{
    let mut out: Vec<Entry> = Vec::new();
    match &q.files {
        Some(fs) => {
            out.push(Entry { key: String::from_str("files"), value: encode_files(fs) });
        },
        None => {},
    }
    assert(entries_view(out@) =~= files_entry(q@.files));
    push_text(&mut out, "category", &q.category);
    proof {
        lemma_object_view(out);
    }
    Value::Object(out)
}

fn encode_attributes(xs: &Vec<Attribute>) -> (v: Value)
    ensures
        v@ == Doc::List(docs_of(attributes_view(*xs), |a: AttributeV| attribute_doc(a))),
{
    let mut items: Vec<Value> = Vec::new();
    let mut i: usize = 0;
    while i < xs.len()
        invariant
            i <= xs.len(),
            items@.len() == i,
            forall|j: int| 0 <= j < i ==> #[trigger] items@[j]@ == attribute_doc(xs@[j]@),
        decreases xs.len() - i,
    {
        items.push(encode_attribute(&xs[i]));
        i = i + 1;
    }
    proof {
        lemma_list_view(items);
        assert(items@.map_values(|x: Value| x@) =~= docs_of(
            attributes_view(*xs),
            |a: AttributeV| attribute_doc(a),
        ));
    }
    Value::List(items)
}

/// The document of a metadata record: one entry per set field, in
/// declaration order; unset fields are left out.
pub fn encode_metadata(m: &Metadata) -> (v: Value)
    ensures
        v@ == metadata_doc(m@),
{
    let mut out: Vec<Entry> = Vec::new();
    assert(entries_view(out@) =~= Seq::empty());
    push_text(&mut out, "name", &m.name);
    push_text(&mut out, "description", &m.description);
    push_text(&mut out, "image", &m.image);
    push_text(&mut out, "animation_url", &m.animation_url);
    push_text(&mut out, "external_url", &m.external_url);
    let ghost before = entries_view(out@);
    match &m.attributes {
        Some(xs) => {
            out.push(Entry { key: String::from_str("attributes"), value: encode_attributes(xs) });
        },
        None => {},
    }
    assert(entries_view(out@) =~= before + attributes_entry(m@.attributes));
    let ghost before = entries_view(out@);
    match &m.properties {
        Some(q) => {
            out.push(Entry { key: String::from_str("properties"), value: encode_properties(q) });
        },
        None => {},
    }
    assert(entries_view(out@) =~= before + properties_entry(m@.properties));
    proof {
        lemma_object_view(out);
    }
    Value::Object(out)
}


// ---------------------------------------------------------------------
// Executable decoding
// ---------------------------------------------------------------------

/// The view of a decoding outcome, for comparison with its specification.
pub open spec fn outcome<T: View>(r: Result<T, DecodeError>) -> Result<T::V, ErrorV> {
    match r {
        Ok(x) => Ok(x@),
        Err(e) => Err(e@),
    }
}

pub open spec fn text_outcome(r: Result<Option<String>, DecodeError>) -> Result<Option<Seq<char>>, ErrorV> {
    match r {
        Ok(x) => Ok(text_view(x)),
        Err(e) => Err(e@),
    }
}

fn mismatch(key: &str, expected: Kind, actual: Kind) -> (e: DecodeError)
    ensures
        e@ == ErrorV::TypeMismatch(key@, expected, actual),
{
    DecodeError::TypeMismatch { field: String::from_str(key), expected, actual }
}

fn missing(key: &str) -> (e: DecodeError)
    ensures
        e@ == ErrorV::MissingField(key@),
{
    DecodeError::MissingField(String::from_str(key))
}

/// The node under `key`, where an explicit null counts as absent.
fn find_present<'a>(o: &'a Vec<Entry>, key: &str) -> (r: Option<&'a Value>)
    ensures
        match r {
            Some(v) => present(entries_view(o@), key@) == Some(v@),
            None => present(entries_view(o@), key@) is None,
        },
{
    match find(o, key) {
        Some(Value::Null) => None,
        other => other,
    }
}

fn decode_text(o: &Vec<Entry>, key: &str, required: bool) -> (r: Result<Option<String>, DecodeError>)
    ensures
        text_outcome(r) == text_field(entries_view(o@), key@, required),
{
    match find_present(o, key) {
        None => if required {
            Err(missing(key))
        } else {
            Ok(None)
        },
        Some(Value::Text(s)) => Ok(Some(s.clone())),
        Some(v) => Err(mismatch(key, Kind::Text, v.kind())),
    }
}

fn decode_bool(o: &Vec<Entry>, key: &str) -> (r: Result<Option<bool>, DecodeError>)
    ensures
        match r {
            Ok(x) => bool_field(entries_view(o@), key@) == Ok::<Option<bool>, ErrorV>(x),
            Err(e) => bool_field(entries_view(o@), key@) == Err::<Option<bool>, ErrorV>(e@),
        },
{
    match find_present(o, key) {
        None => Ok(None),
        Some(Value::Bool(b)) => Ok(Some(*b)),
        Some(v) => Err(mismatch(key, Kind::Bool, v.kind())),
    }
}

fn decode_number(o: &Vec<Entry>, key: &str) -> (r: Result<Option<u64>, DecodeError>)
    ensures
        match r {
            Ok(x) => number_field(entries_view(o@), key@) == Ok::<Option<u64>, ErrorV>(x),
            Err(e) => number_field(entries_view(o@), key@) == Err::<Option<u64>, ErrorV>(e@),
        },
{
    match find_present(o, key) {
        None => Ok(None),
        Some(Value::Number(n)) => Ok(Some(*n)),
        Some(v) => Err(mismatch(key, Kind::Number, v.kind())),
    }
}

/// Once a prefix of a list fails, the whole list fails the same way.
proof fn lemma_list_prefix_err<T>(xs: Seq<Doc>, f: spec_fn(Doc) -> Result<T, ErrorV>, n: int)
    requires
        0 <= n <= xs.len(),
        list_of(xs.take(n), f) is Err,
    ensures
        list_of(xs, f) == list_of(xs.take(n), f),
    decreases xs.len(),
{
    if n == xs.len() {
        assert(xs.take(n) =~= xs);
    } else {
        assert(xs.drop_last().take(n) =~= xs.take(n));
        lemma_list_prefix_err(xs.drop_last(), f, n);
    }
}

/// The attribute that a document holds, under the given policy.
pub fn decode_attribute(v: &Value, p: Policy) -> (r: Result<Attribute, DecodeError>)
    ensures
        outcome(r) == attribute_of(v@, p),
{
    match v {
        Value::Object(o) => {
            proof {
                lemma_object_view(*o);
            }
            let req = p.requires_inner_fields();
            let trait_type = match decode_text(o, "trait_type", req) {
                Ok(x) => x,
                Err(e) => return Err(e),
            };
            let value = match decode_text(o, "value", req) {
                Ok(x) => x,
                Err(e) => return Err(e),
            };
            Ok(Attribute { trait_type, value })
        },
        _ => Err(mismatch("attributes", Kind::Object, v.kind())),
    }
}

/// The file reference that a document holds, under the given policy.
pub fn decode_asset_file(v: &Value, p: Policy) -> (r: Result<AssetFile, DecodeError>)
    ensures
        outcome(r) == asset_file_of(v@, p),
{
    match v {
        Value::Object(o) => {
            proof {
                lemma_object_view(*o);
            }
            let req = p.requires_inner_fields();
            let uri = match decode_text(o, "uri", req) {
                Ok(x) => x,
                Err(e) => return Err(e),
            };
            let file_type = match decode_text(o, "type", req) {
                Ok(x) => x,
                Err(e) => return Err(e),
            };
            let cdn = match decode_bool(o, "cdn") {
                Ok(x) => x,
                Err(e) => return Err(e),
            };
            let resolution = match decode_text(o, "resolution", false) {
                Ok(x) => x,
                Err(e) => return Err(e),
            };
            let size = match decode_number(o, "size") {
                Ok(x) => x,
                Err(e) => return Err(e),
            };
            Ok(AssetFile { uri, file_type, cdn, resolution, size })
        },
        _ => Err(mismatch("files", Kind::Object, v.kind())),
    }
}


fn decode_files(items: &Vec<Value>, p: Policy) -> (r: Result<Vec<AssetFile>, DecodeError>)
    ensures
        match r {
            Ok(fs) => list_of(items@.map_values(|x: Value| x@), |x: Doc| asset_file_of(x, p))
                == Ok::<Seq<AssetFileV>, ErrorV>(files_view(fs)),
            Err(e) => list_of(items@.map_values(|x: Value| x@), |x: Doc| asset_file_of(x, p))
                == Err::<Seq<AssetFileV>, ErrorV>(e@),
        },
{
    let ghost ds = items@.map_values(|x: Value| x@);
    let ghost f = |x: Doc| asset_file_of(x, p);
    let mut out: Vec<AssetFile> = Vec::new();
    let mut i: usize = 0;
    assert(ds.take(0) =~= Seq::<Doc>::empty());
    assert(files_view(out) =~= Seq::<AssetFileV>::empty());
    while i < items.len()
        invariant
            i <= items.len(),
            ds == items@.map_values(|x: Value| x@),
            f == (|x: Doc| asset_file_of(x, p)),
            list_of(ds.take(i as int), f) == Ok::<Seq<AssetFileV>, ErrorV>(files_view(out)),
        decreases items.len() - i,
    {
        assert(ds.take(i + 1).drop_last() =~= ds.take(i as int));
        match decode_asset_file(&items[i], p) {
            Ok(a) => {
                let ghost prev = files_view(out);
                out.push(a);
                assert(files_view(out) =~= prev.push(a@));
            },
            Err(e) => {
                proof {
                    lemma_list_prefix_err(ds, f, i + 1);
                }
                return Err(e);
            },
        }
        i = i + 1;
    }
    assert(ds.take(items.len() as int) =~= ds);
    Ok(out)
}

fn decode_attributes(items: &Vec<Value>, p: Policy) -> (r: Result<Vec<Attribute>, DecodeError>)
    ensures
        match r {
            Ok(fs) => list_of(items@.map_values(|x: Value| x@), |x: Doc| attribute_of(x, p))
                == Ok::<Seq<AttributeV>, ErrorV>(attributes_view(fs)),
            Err(e) => list_of(items@.map_values(|x: Value| x@), |x: Doc| attribute_of(x, p))
                == Err::<Seq<AttributeV>, ErrorV>(e@),
        },
{
    let ghost ds = items@.map_values(|x: Value| x@);
    let ghost f = |x: Doc| attribute_of(x, p);
    let mut out: Vec<Attribute> = Vec::new();
    let mut i: usize = 0;
    assert(ds.take(0) =~= Seq::<Doc>::empty());
    assert(attributes_view(out) =~= Seq::<AttributeV>::empty());
    while i < items.len()
        invariant
            i <= items.len(),
            ds == items@.map_values(|x: Value| x@),
            f == (|x: Doc| attribute_of(x, p)),
            list_of(ds.take(i as int), f) == Ok::<Seq<AttributeV>, ErrorV>(attributes_view(out)),
        decreases items.len() - i,
    {
        assert(ds.take(i + 1).drop_last() =~= ds.take(i as int));
        match decode_attribute(&items[i], p) {
            Ok(a) => {
                let ghost prev = attributes_view(out);
                out.push(a);
                assert(attributes_view(out) =~= prev.push(a@));
            },
            Err(e) => {
                proof {
                    lemma_list_prefix_err(ds, f, i + 1);
                }
                return Err(e);
            },
        }
        i = i + 1;
    }
    assert(ds.take(items.len() as int) =~= ds);
    Ok(out)
}

/// The properties bundle that a document holds, under the given policy.
pub fn decode_properties(v: &Value, p: Policy) -> (r: Result<Properties, DecodeError>)
    ensures
        outcome(r) == properties_of(v@, p),
{
    match v {
        Value::Object(o) => {
            proof {
                lemma_object_view(*o);
            }
            let req = p.requires_inner_fields();
            let files = match find_present(o, "files") {
                None => if req {
                    return Err(missing("files"));
                } else {
                    None
                },
                Some(Value::List(items)) => {
                    proof {
                        lemma_list_view(*items);
                    }
                    match decode_files(items, p) {
                        Ok(fs) => Some(fs),
                        Err(e) => return Err(e),
                    }
                },
                Some(x) => return Err(mismatch("files", Kind::List, x.kind())),
            };
            let category = match decode_text(o, "category", req) {
                Ok(x) => x,
                Err(e) => return Err(e),
            };
            Ok(Properties { files, category })
        },
        _ => Err(mismatch("properties", Kind::Object, v.kind())),
    }
}

/// The metadata record that a document holds, under the given policy.
/// Keys that no field names are ignored, and an explicit null reads as an
/// absent field. The first field, in declaration order, that is missing
/// though required or that holds a node of the wrong shape is reported.
pub fn decode_metadata(v: &Value, p: Policy) -> (r: Result<Metadata, DecodeError>)
    ensures
        outcome(r) == metadata_of(v@, p),
{
    match v {
        Value::Object(o) => {
            proof {
                lemma_object_view(*o);
            }
            let req = p.requires_top_fields();
            let name = match decode_text(o, "name", req) {
                Ok(x) => x,
                Err(e) => return Err(e),
            };
            let description = match decode_text(o, "description", req) {
                Ok(x) => x,
                Err(e) => return Err(e),
            };
            let image = match decode_text(o, "image", req) {
                Ok(x) => x,
                Err(e) => return Err(e),
            };
            let animation_url = match decode_text(o, "animation_url", req) {
                Ok(x) => x,
                Err(e) => return Err(e),
            };
            let external_url = match decode_text(o, "external_url", req) {
                Ok(x) => x,
                Err(e) => return Err(e),
            };
            let attributes = match find_present(o, "attributes") {
                None => if req {
                    return Err(missing("attributes"));
                } else {
                    None
                },
                Some(Value::List(items)) => {
                    proof {
                        lemma_list_view(*items);
                    }
                    match decode_attributes(items, p) {
                        Ok(xs) => Some(xs),
                        Err(e) => return Err(e),
                    }
                },
                Some(x) => return Err(mismatch("attributes", Kind::List, x.kind())),
            };
            let properties = match find_present(o, "properties") {
                None => if req {
                    return Err(missing("properties"));
                } else {
                    None
                },
                Some(x) => match decode_properties(x, p) {
                    Ok(q) => Some(q),
                    Err(e) => return Err(e),
                },
            };
            Ok(
                Metadata {
                    name,
                    description,
                    image,
                    animation_url,
                    external_url,
                    attributes,
                    properties,
                },
            )
        },
        _ => {
            proof {
                reveal_strlit("");
                assert(""@ =~= Seq::<char>::empty());
            }
            Err(mismatch("", Kind::Object, v.kind()))
        },
    }
}

} // verus!
