//! A structural description of the records under a policy: for each field
//! its key, the shape of its node, the record it nests, whether the policy
//! requires it, and its documentation.
use vstd::prelude::*;
use vstd::string::StringExecFns;
use crate::codec::{Policy, inner_required, top_required};
use crate::document::Kind;

verus! {

/// One of the four record types.
#[derive(Clone, Copy, PartialEq, Eq, Structural, Debug)]
pub enum Record {
    Metadata,
    Attribute,
    Properties,
    AssetFile,
}

/// The description of one field of a record.
#[derive(Clone, PartialEq, Debug)]
pub struct FieldSchema {
    /// The key of the field in a document.
    pub key: String,
    /// The shape of the field's node; for a list, the shape of the list.
    pub kind: Kind,
    /// The record that the field holds, or that each element of its list holds.
    pub record: Option<Record>,
    /// Whether a document must carry the field.
    pub required: bool,
    /// What the field means.
    pub description: String,
}

/// Abstract value of a [`FieldSchema`].
pub struct FieldSpec {
    pub key: Seq<char>,
    pub kind: Kind,
    pub record: Option<Record>,
    pub required: bool,
    pub description: Seq<char>,
}

impl View for FieldSchema {
    type V = FieldSpec;

    open spec fn view(&self) -> FieldSpec {
        FieldSpec {
            key: self.key@,
            kind: self.kind,
            record: self.record,
            required: self.required,
            description: self.description@,
        }
    }
}

pub open spec fn field(
    key: Seq<char>,
    kind: Kind,
    record: Option<Record>,
    required: bool,
    description: Seq<char>,
) -> FieldSpec {
    FieldSpec { key, kind, record, required, description }
}

/// The fields of a record under a policy, in declaration order.
pub open spec fn schema_of(r: Record, p: Policy) -> Seq<FieldSpec> {
    match r {
        Record::Metadata => seq![
            field("name"@, Kind::Text, None, top_required(p), "Name of the asset"@),
            field("description"@, Kind::Text, None, top_required(p), "Description of the asset"@),
            field("image"@, Kind::Text, None, top_required(p), "URI pointing to the asset's logo"@),
            field(
                "animation_url"@,
                Kind::Text,
                None,
                top_required(p),
                "URI pointing to the asset's animation"@,
            ),
            field(
                "external_url"@,
                Kind::Text,
                None,
                top_required(p),
                "URI pointing to an external URL defining the asset"@,
            ),
            field(
                "attributes"@,
                Kind::List,
                Some(Record::Attribute),
                top_required(p),
                "Array of attributes defining the characteristics of the asset"@,
            ),
            field(
                "properties"@,
                Kind::Object,
                Some(Record::Properties),
                top_required(p),
                "Additional properties that define the asset"@,
            ),
        ],
        Record::Attribute => seq![
            field("trait_type"@, Kind::Text, None, inner_required(p), "The type of attribute"@),
            field("value"@, Kind::Text, None, inner_required(p), "The value for that attribute"@),
        ],
        Record::Properties => seq![
            field(
                "files"@,
                Kind::List,
                Some(Record::AssetFile),
                inner_required(p),
                "Additional files to include with the asset"@,
            ),
            field("category"@, Kind::Text, None, inner_required(p), "A media category for the asset"@),
        ],
        Record::AssetFile => seq![
            field("uri"@, Kind::Text, None, inner_required(p), "The file's URI"@),
            field("type"@, Kind::Text, None, inner_required(p), "The file's type"@),
            field("cdn"@, Kind::Bool, None, false, "Whether the file is served from a CDN."@),
            field(
                "resolution"@,
                Kind::Text,
                None,
                false,
                "Defines the file's resolution if applicable"@,
            ),
            field("size"@, Kind::Number, None, false, "The files size if applicable"@),
        ],
    }
}

fn push_field(
    out: &mut Vec<FieldSchema>,
    key: &str,
    kind: Kind,
    record: Option<Record>,
    required: bool,
    description: &str,
)
    ensures
        final(out)@.map_values(|f: FieldSchema| f@) == old(out)@.map_values(|f: FieldSchema| f@).push(
            field(key@, kind, record, required, description@),
        ),
{
    let ghost before = out@.map_values(|f: FieldSchema| f@);
    out.push(
        FieldSchema {
            key: String::from_str(key),
            kind,
            record,
            required,
            description: String::from_str(description),
        },
    );
    assert(out@.map_values(|f: FieldSchema| f@) =~= before.push(
        field(key@, kind, record, required, description@),
    ));
}

/// The fields of a record under a policy, in declaration order, each marked
/// required exactly where decoding under that policy demands it.
pub fn schema(r: Record, p: Policy) -> (fields: Vec<FieldSchema>)
    ensures
        fields@.map_values(|f: FieldSchema| f@) == schema_of(r, p),
{
    let mut out: Vec<FieldSchema> = Vec::new();
    assert(out@.map_values(|f: FieldSchema| f@) =~= Seq::<FieldSpec>::empty());
    match r {
        Record::Metadata => {
            let req = p.requires_top_fields();
            push_field(&mut out, "name", Kind::Text, None, req, "Name of the asset");
            push_field(&mut out, "description", Kind::Text, None, req, "Description of the asset");
            push_field(&mut out, "image", Kind::Text, None, req, "URI pointing to the asset's logo");
            push_field(
                &mut out,
                "animation_url",
                Kind::Text,
                None,
                req,
                "URI pointing to the asset's animation",
            );
            push_field(
                &mut out,
                "external_url",
                Kind::Text,
                None,
                req,
                "URI pointing to an external URL defining the asset",
            );
            push_field(
                &mut out,
                "attributes",
                Kind::List,
                Some(Record::Attribute),
                req,
                "Array of attributes defining the characteristics of the asset",
            );
            push_field(
                &mut out,
                "properties",
                Kind::Object,
                Some(Record::Properties),
                req,
                "Additional properties that define the asset",
            );
        },
        Record::Attribute => {
            let req = p.requires_inner_fields();
            push_field(&mut out, "trait_type", Kind::Text, None, req, "The type of attribute");
            push_field(&mut out, "value", Kind::Text, None, req, "The value for that attribute");
        },
        Record::Properties => {
            let req = p.requires_inner_fields();
            push_field(
                &mut out,
                "files",
                Kind::List,
                Some(Record::AssetFile),
                req,
                "Additional files to include with the asset",
            );
            push_field(&mut out, "category", Kind::Text, None, req, "A media category for the asset");
        },
        Record::AssetFile => {
            let req = p.requires_inner_fields();
            push_field(&mut out, "uri", Kind::Text, None, req, "The file's URI");
            push_field(&mut out, "type", Kind::Text, None, req, "The file's type");
            push_field(&mut out, "cdn", Kind::Bool, None, false, "Whether the file is served from a CDN.");
            push_field(
                &mut out,
                "resolution",
                Kind::Text,
                None,
                false,
                "Defines the file's resolution if applicable",
            );
            push_field(&mut out, "size", Kind::Number, None, false, "The files size if applicable");
        },
    }
    proof {
        assert(out@.map_values(|f: FieldSchema| f@) =~= schema_of(r, p));
    }
    out
}

} // verus!
