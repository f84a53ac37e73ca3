//! Laws that relate the builders, the encoder and the decoder.
use vstd::prelude::*;
use crate::codec::{
    Entries, ErrorV, Policy, asset_file_doc, asset_file_of, attribute_doc, attribute_of,
    distinct_keys, inner_required, metadata_doc, metadata_of, properties_doc, properties_of,
    text_field, top_required,
};
use crate::document::{Doc, kind_of, lemma_lookup_append, lemma_single_lookup, lookup, present};
use crate::schema::{Record, schema_of};
use crate::records::{
    AssetFileV, AttributeV, MetadataV, PropertiesV, cdn_set, empty_asset_file, empty_attribute,
    empty_metadata, empty_properties,
};

verus! {

/// A lookup is blind to an inserted entry whose key differs from the one
/// looked for.
pub proof fn lemma_lookup_insert(o: Entries, i: int, k: Seq<char>, x: Doc, key: Seq<char>)
    requires
        0 <= i <= o.len(),
        k != key,
    ensures
        lookup(o.insert(i, (k, x)), key) == lookup(o, key),
    decreases i,
{
    broadcast use lemma_lookup_append, lemma_single_lookup;
    if i == 0 {
        assert(o.insert(0, (k, x)) =~= seq![(k, x)] + o);
    } else {
        assert(o.insert(i, (k, x)).drop_first() =~= o.drop_first().insert(i - 1, (k, x)));
        lemma_lookup_insert(o.drop_first(), i - 1, k, x, key);
    }
}

pub open spec fn is_metadata_key(k: Seq<char>) -> bool {
    ||| k == "name"@
    ||| k == "description"@
    ||| k == "image"@
    ||| k == "animation_url"@
    ||| k == "external_url"@
    ||| k == "attributes"@
    ||| k == "properties"@
}

pub open spec fn is_attribute_key(k: Seq<char>) -> bool {
    k == "trait_type"@ || k == "value"@
}

pub open spec fn is_properties_key(k: Seq<char>) -> bool {
    k == "files"@ || k == "category"@
}

pub open spec fn is_asset_file_key(k: Seq<char>) -> bool {
    ||| k == "uri"@
    ||| k == "type"@
    ||| k == "cdn"@
    ||| k == "resolution"@
    ||| k == "size"@
}

/// An entry under a key that no field of a metadata record names is
/// ignored: inserting it anywhere leaves the outcome of decoding unchanged.
pub proof fn lemma_metadata_ignores_unknown_key(o: Entries, i: int, k: Seq<char>, x: Doc, p: Policy)
    requires
        0 <= i <= o.len(),
        !is_metadata_key(k),
    ensures
        metadata_of(Doc::Object(o.insert(i, (k, x))), p) == metadata_of(Doc::Object(o), p),
{
    lemma_lookup_insert(o, i, k, x, "name"@);
    lemma_lookup_insert(o, i, k, x, "description"@);
    lemma_lookup_insert(o, i, k, x, "image"@);
    lemma_lookup_insert(o, i, k, x, "animation_url"@);
    lemma_lookup_insert(o, i, k, x, "external_url"@);
    lemma_lookup_insert(o, i, k, x, "attributes"@);
    lemma_lookup_insert(o, i, k, x, "properties"@);
}

/// An entry under a key that no field of an attribute names is ignored.
pub proof fn lemma_attribute_ignores_unknown_key(o: Entries, i: int, k: Seq<char>, x: Doc, p: Policy)
    requires
        0 <= i <= o.len(),
        !is_attribute_key(k),
    ensures
        attribute_of(Doc::Object(o.insert(i, (k, x))), p) == attribute_of(Doc::Object(o), p),
{
    lemma_lookup_insert(o, i, k, x, "trait_type"@);
    lemma_lookup_insert(o, i, k, x, "value"@);
}

/// An entry under a key that no field of a properties bundle names is
/// ignored.
pub proof fn lemma_properties_ignores_unknown_key(o: Entries, i: int, k: Seq<char>, x: Doc, p: Policy)
    requires
        0 <= i <= o.len(),
        !is_properties_key(k),
    ensures
        properties_of(Doc::Object(o.insert(i, (k, x))), p) == properties_of(Doc::Object(o), p),
{
    lemma_lookup_insert(o, i, k, x, "files"@);
    lemma_lookup_insert(o, i, k, x, "category"@);
}

/// An entry under a key that no field of a file reference names is ignored.
pub proof fn lemma_asset_file_ignores_unknown_key(o: Entries, i: int, k: Seq<char>, x: Doc, p: Policy)
    requires
        0 <= i <= o.len(),
        !is_asset_file_key(k),
    ensures
        asset_file_of(Doc::Object(o.insert(i, (k, x))), p) == asset_file_of(Doc::Object(o), p),
{
    lemma_lookup_insert(o, i, k, x, "uri"@);
    lemma_lookup_insert(o, i, k, x, "type"@);
    lemma_lookup_insert(o, i, k, x, "cdn"@);
    lemma_lookup_insert(o, i, k, x, "resolution"@);
    lemma_lookup_insert(o, i, k, x, "size"@);
}

/// Encoding writes a key only for a field that is set: an unset field
/// leaves no entry behind, and a set one always has its entry.
pub proof fn lemma_metadata_unset_fields_omitted(m: MetadataV)
    ensures
        (lookup(metadata_doc(m)->Object_0, "name"@) is Some) == (m.name is Some),
        (lookup(metadata_doc(m)->Object_0, "description"@) is Some) == (m.description is Some),
        (lookup(metadata_doc(m)->Object_0, "image"@) is Some) == (m.image is Some),
        (lookup(metadata_doc(m)->Object_0, "animation_url"@) is Some) == (m.animation_url is Some),
        (lookup(metadata_doc(m)->Object_0, "external_url"@) is Some) == (m.external_url is Some),
        (lookup(metadata_doc(m)->Object_0, "attributes"@) is Some) == (m.attributes is Some),
        (lookup(metadata_doc(m)->Object_0, "properties"@) is Some) == (m.properties is Some),
{
    broadcast use lemma_lookup_append, lemma_single_lookup;
    distinct_keys();
}

/// Encoding a file reference writes a key only for a field that is set.
pub proof fn lemma_asset_file_unset_fields_omitted(f: AssetFileV)
    ensures
        (lookup(asset_file_doc(f)->Object_0, "uri"@) is Some) == (f.uri is Some),
        (lookup(asset_file_doc(f)->Object_0, "type"@) is Some) == (f.file_type is Some),
        (lookup(asset_file_doc(f)->Object_0, "cdn"@) is Some) == (f.cdn is Some),
        (lookup(asset_file_doc(f)->Object_0, "resolution"@) is Some) == (f.resolution is Some),
        (lookup(asset_file_doc(f)->Object_0, "size"@) is Some) == (f.size is Some),
{
    broadcast use lemma_lookup_append, lemma_single_lookup;
    distinct_keys();
}

/// Encoding an attribute writes a key only for a field that is set.
pub proof fn lemma_attribute_unset_fields_omitted(a: AttributeV)
    ensures
        (lookup(attribute_doc(a)->Object_0, "trait_type"@) is Some) == (a.trait_type is Some),
        (lookup(attribute_doc(a)->Object_0, "value"@) is Some) == (a.value is Some),
{
    broadcast use lemma_lookup_append, lemma_single_lookup;
    distinct_keys();
}

/// Encoding a properties bundle writes a key only for a field that is set.
pub proof fn lemma_properties_unset_fields_omitted(q: PropertiesV)
    ensures
        (lookup(properties_doc(q)->Object_0, "files"@) is Some) == (q.files is Some),
        (lookup(properties_doc(q)->Object_0, "category"@) is Some) == (q.category is Some),
{
    broadcast use lemma_lookup_append, lemma_single_lookup;
    distinct_keys();
}

/// Appending a null entry under a key that the object lacks changes no
/// field as decoding sees it.
pub proof fn lemma_present_push_null(o: Entries, k: Seq<char>, key: Seq<char>)
    requires
        lookup(o, k) is None,
    ensures
        present(o.push((k, Doc::Null)), key) == present(o, key),
{
    broadcast use lemma_lookup_append, lemma_single_lookup;
    assert(o.push((k, Doc::Null)) =~= o + seq![(k, Doc::Null)]);
}

/// A null entry reads as an absent one: decoding an object with a null
/// entry added under a key it lacks gives what decoding the object gives.
pub proof fn lemma_metadata_null_is_absent(o: Entries, k: Seq<char>, p: Policy)
    requires
        lookup(o, k) is None,
    ensures
        metadata_of(Doc::Object(o.push((k, Doc::Null))), p) == metadata_of(Doc::Object(o), p),
{
    lemma_present_push_null(o, k, "name"@);
    lemma_present_push_null(o, k, "description"@);
    lemma_present_push_null(o, k, "image"@);
    lemma_present_push_null(o, k, "animation_url"@);
    lemma_present_push_null(o, k, "external_url"@);
    lemma_present_push_null(o, k, "attributes"@);
    lemma_present_push_null(o, k, "properties"@);
}

/// A null entry of a file reference reads as an absent one.
pub proof fn lemma_asset_file_null_is_absent(o: Entries, k: Seq<char>, p: Policy)
    requires
        lookup(o, k) is None,
    ensures
        asset_file_of(Doc::Object(o.push((k, Doc::Null))), p) == asset_file_of(Doc::Object(o), p),
{
    lemma_present_push_null(o, k, "uri"@);
    lemma_present_push_null(o, k, "type"@);
    lemma_present_push_null(o, k, "cdn"@);
    lemma_present_push_null(o, k, "resolution"@);
    lemma_present_push_null(o, k, "size"@);
}

/// A null entry of an attribute reads as an absent one.
pub proof fn lemma_attribute_null_is_absent(o: Entries, k: Seq<char>, p: Policy)
    requires
        lookup(o, k) is None,
    ensures
        attribute_of(Doc::Object(o.push((k, Doc::Null))), p) == attribute_of(Doc::Object(o), p),
{
    lemma_present_push_null(o, k, "trait_type"@);
    lemma_present_push_null(o, k, "value"@);
}

/// A null entry of a properties bundle reads as an absent one.
pub proof fn lemma_properties_null_is_absent(o: Entries, k: Seq<char>, p: Policy)
    requires
        lookup(o, k) is None,
    ensures
        properties_of(Doc::Object(o.push((k, Doc::Null))), p) == properties_of(Doc::Object(o), p),
{
    lemma_present_push_null(o, k, "files"@);
    lemma_present_push_null(o, k, "category"@);
}

/// Where a field is optional, its absence is no error: under a policy that
/// leaves the top-level fields optional, an empty object decodes to the
/// record with every field unset; under the permissive policy the same
/// holds of every record.
pub proof fn lemma_absent_optional_fields_unset(p: Policy)
    ensures
        !top_required(p) ==> metadata_of(Doc::Object(Seq::empty()), p) == Ok::<MetadataV, ErrorV>(
            empty_metadata(),
        ),
        attribute_of(Doc::Object(Seq::empty()), Policy::Permissive) == Ok::<AttributeV, ErrorV>(
            empty_attribute(),
        ),
        properties_of(Doc::Object(Seq::empty()), Policy::Permissive) == Ok::<PropertiesV, ErrorV>(
            empty_properties(),
        ),
        asset_file_of(Doc::Object(Seq::empty()), Policy::Permissive) == Ok::<AssetFileV, ErrorV>(
            empty_asset_file(),
        ),
{
    broadcast use lemma_single_lookup;
}

/// Under a policy that requires the fields of an attribute, a document
/// whose `value` is absent or null fails with a missing `value`, once its
/// `trait_type` is in order; a document lacking either field fails.
pub proof fn lemma_attribute_missing_value(o: Entries, p: Policy)
    requires
        inner_required(p),
    ensures
        present(o, "value"@) is None && text_field(o, "trait_type"@, true) is Ok ==> attribute_of(
            Doc::Object(o),
            p,
        ) == Err::<AttributeV, ErrorV>(ErrorV::MissingField("value"@)),
        present(o, "value"@) is None || present(o, "trait_type"@) is None ==> attribute_of(
            Doc::Object(o),
            p,
        ) is Err,
{
}

/// Under a policy that requires the core fields of a file reference, a
/// document lacking `uri` or `type` fails to decode.
pub proof fn lemma_asset_file_missing_required(o: Entries, p: Policy)
    requires
        inner_required(p),
    ensures
        present(o, "uri"@) is None ==> asset_file_of(Doc::Object(o), p) == Err::<AssetFileV, ErrorV>(
            ErrorV::MissingField("uri"@),
        ),
        present(o, "type"@) is None ==> asset_file_of(Doc::Object(o), p) is Err,
{
}

/// Under a policy that requires the fields of a properties bundle, a
/// document lacking `files` or `category` fails to decode.
pub proof fn lemma_properties_missing_required(o: Entries, p: Policy)
    requires
        inner_required(p),
    ensures
        present(o, "files"@) is None ==> properties_of(Doc::Object(o), p) == Err::<PropertiesV, ErrorV>(
            ErrorV::MissingField("files"@),
        ),
        present(o, "category"@) is None ==> properties_of(Doc::Object(o), p) is Err,
{
}

/// Under the strict policy a metadata document lacking any of its
/// top-level keys fails to decode; one lacking `name` fails with a missing
/// `name`.
pub proof fn lemma_metadata_missing_required(o: Entries, k: Seq<char>)
    requires
        is_metadata_key(k),
        present(o, k) is None,
    ensures
        metadata_of(Doc::Object(o), Policy::Strict) is Err,
        k == "name"@ ==> metadata_of(Doc::Object(o), Policy::Strict) == Err::<MetadataV, ErrorV>(
            ErrorV::MissingField("name"@),
        ),
{
}

/// Setting every field of an empty record through the builders, one after
/// the other, gives the record whose fields hold exactly the values given.
pub proof fn lemma_metadata_builder(
    name: Seq<char>,
    description: Seq<char>,
    image: Seq<char>,
    animation_url: Seq<char>,
    external_url: Seq<char>,
    attributes: Seq<AttributeV>,
    properties: PropertiesV,
)
    ensures
        (MetadataV {
            properties: Some(properties),
            ..(MetadataV {
                attributes: Some(attributes),
                ..(MetadataV {
                    external_url: Some(external_url),
                    ..(MetadataV {
                        animation_url: Some(animation_url),
                        ..(MetadataV {
                            image: Some(image),
                            ..(MetadataV {
                                description: Some(description),
                                ..(MetadataV { name: Some(name), ..empty_metadata() })
                            })
                        })
                    })
                })
            })
        }) == (MetadataV {
            name: Some(name),
            description: Some(description),
            image: Some(image),
            animation_url: Some(animation_url),
            external_url: Some(external_url),
            attributes: Some(attributes),
            properties: Some(properties),
        }),
{
}

/// The CDN flag is overwritten, never merged: the last value set is the
/// one held, and it is always present.
pub proof fn lemma_cdn_overwrites(f: AssetFileV, first: bool, second: bool)
    ensures
        cdn_set(cdn_set(f, first), second) == cdn_set(f, second),
        cdn_set(f, second).cdn == Some(second),
{
}

/// Whether an object decodes as the given record under a policy.
pub open spec fn decodes_as(r: Record, d: Doc, p: Policy) -> bool {
    match r {
        Record::Metadata => metadata_of(d, p) is Ok,
        Record::Attribute => attribute_of(d, p) is Ok,
        Record::Properties => properties_of(d, p) is Ok,
        Record::AssetFile => asset_file_of(d, p) is Ok,
    }
}

/// The schema and the decoder agree: an object fails to decode when it
/// lacks a field that the schema marks required, and when a field holds a
/// node of another shape than the schema gives.
pub proof fn lemma_schema_agrees_with_decoder(r: Record, p: Policy, o: Entries, i: int)
    requires
        0 <= i < schema_of(r, p).len(),
    ensures
        schema_of(r, p)[i].required && present(o, schema_of(r, p)[i].key) is None ==> !decodes_as(
            r,
            Doc::Object(o),
            p,
        ),
        present(o, schema_of(r, p)[i].key) matches Some(d) && kind_of(d) != schema_of(r, p)[i].kind
            ==> !decodes_as(r, Doc::Object(o), p),
{
}

} // verus!
