//! What the gateway sends to the content builder service.

use vstd::prelude::*;
use crate::gateway_specification::{
    is_blank_specification_output, is_specification_of, specification_or_blank,
    SpecificationInput, SpecificationOutput,
};
use crate::hex::hex_lower;
use crate::object_id::ObjectId;

verus! {

pub struct File {
    pub name: String,
    pub src: String,
}

/// A file as a client gives it.
pub struct InputFile {
    pub name: String,
    pub src: String,
}

pub struct Category {
    pub name: String,
    pub description: String,
    pub image: File,
}

pub struct CategoryInput {
    pub name: String,
    pub description: String,
    pub image: InputFile,
}

pub struct CategoryOutput {
    pub id: String,
    pub name: String,
    pub description: String,
    pub image: File,
}

/// A file with an identifier written as text.
pub struct FileWithOutOId {
    pub id: String,
    pub name: String,
    pub src: String,
}

/// A feature to create. Its price is kept as the bit pattern of the IEEE 754
/// double it is, and is only carried through.
pub struct Feature {
    pub name: String,
    pub description: String,
    pub feature_type: String,
    pub image: File,
    pub wireframes: Option<Vec<FileWithOutOId>>,
    pub price: u64,
    pub repo: String,
}

/// A feature as a client gives it.
pub struct FeatureInput {
    pub name: String,
    pub description: String,
    pub feature_type: String,
    pub image: InputFile,
    pub wireframes: Option<Vec<InputFile>>,
    pub price: u64,
    pub repo: String,
}

/// A feature with its identifier, as sent to be changed.
pub struct FeatureOutput {
    pub id: String,
    pub name: String,
    pub description: String,
    pub feature_type: String,
    pub image: File,
    pub wireframes: Option<Vec<FileWithOutOId>>,
    pub price: u64,
    pub repo: String,
}

pub struct UpdateFeatureWireframes {
    pub id: String,
    pub wireframes: Vec<FileWithOutOId>,
}

pub struct FeatureToAnyModel {
    pub id: String,
    pub features_id: Vec<String>,
}

/// Whether the file `o` sent is the file `i` given.
pub open spec fn is_file_of(o: File, i: InputFile) -> bool {
    o.name == i.name && o.src == i.src
}

fn file_of(i: InputFile) -> (res: File)
    ensures
        is_file_of(res, i),
{
    File { name: i.name, src: i.src }
}

/// The category to create, as sent.
pub fn category_creation(category: CategoryInput) -> (res: Category)
    ensures
        res.name == category.name,
        res.description == category.description,
        is_file_of(res.image, category.image),
{
    Category { name: category.name, description: category.description, image: file_of(category.image) }
}

/// The category to change, as sent.
pub fn category_update(id: String, category: CategoryInput) -> (res: CategoryOutput)
    ensures
        res.id == id,
        res.name == category.name,
        res.description == category.description,
        is_file_of(res.image, category.image),
{
    CategoryOutput {
        id,
        name: category.name,
        description: category.description,
        image: file_of(category.image),
    }
}

/// Whether the file `o` is the file `i` given, under a fresh identifier.
pub open spec fn is_fresh_file_of(o: FileWithOutOId, i: InputFile) -> bool {
    &&& o.name == i.name
    &&& o.src == i.src
    &&& exists|b: Seq<u8>| b.len() == 12 && o.id@ == #[trigger] hex_lower(b)
}

/// Whether `os` are the files `is` given, one for one, in order, each under a fresh identifier.
pub open spec fn fresh_files_of(os: Seq<FileWithOutOId>, is: Seq<InputFile>) -> bool {
    &&& os.len() == is.len()
    &&& forall|k: int| 0 <= k < is.len() ==> is_fresh_file_of(#[trigger] os[k], is[k])
}

/// The files given, each under a fresh identifier.
pub fn fresh_files(files: Vec<InputFile>) -> (res: Vec<FileWithOutOId>)
    ensures
        fresh_files_of(res@, files@),
{
    let mut out: Vec<FileWithOutOId> = Vec::new();
    for f in iter: files
        invariant
            out@.len() == iter.index(),
            forall|k: int| 0 <= k < out@.len() ==> is_fresh_file_of(#[trigger] out@[k], iter.seq()[k]),
    {
        let id = ObjectId::generate();
        let text = id.to_hex();
        assert(id@.len() == 12 && text@ == hex_lower(id@));
        out.push(FileWithOutOId { id: text, name: f.name, src: f.src });
    }
    out
}

/// Whether `ws` are the wireframes sent for those given: each under a fresh
/// identifier, or none when none were given.
pub open spec fn is_fresh_wireframes_of(ws: Seq<FileWithOutOId>, given: Option<Vec<InputFile>>) -> bool {
    match given {
        Some(is) => fresh_files_of(ws, is@),
        None => ws.len() == 0,
    }
}

fn fresh_wireframes(given: Option<Vec<InputFile>>) -> (res: Vec<FileWithOutOId>)
    ensures
        is_fresh_wireframes_of(res@, given),
{
    match given {
        Some(files) => fresh_files(files),
        None => Vec::new(),
    }
}

/// The feature to create, as sent: its wireframes each under a fresh identifier.
pub fn feature_creation(feature: FeatureInput) -> (res: Feature)
    ensures
        res.name == feature.name,
        res.description == feature.description,
        res.feature_type == feature.feature_type,
        is_file_of(res.image, feature.image),
        res.wireframes matches Some(ws) && is_fresh_wireframes_of(ws@, feature.wireframes),
        res.price == feature.price,
        res.repo == feature.repo,
{
    let wireframes = fresh_wireframes(feature.wireframes);
    Feature {
        name: feature.name,
        description: feature.description,
        feature_type: feature.feature_type,
        image: file_of(feature.image),
        wireframes: Some(wireframes),
        price: feature.price,
        repo: feature.repo,
    }
}

/// The feature to change, as sent: its wireframes each under a fresh identifier.
pub fn feature_update(id: String, feature: FeatureInput) -> (res: FeatureOutput)
    ensures
        res.id == id,
        res.name == feature.name,
        res.description == feature.description,
        res.feature_type == feature.feature_type,
        is_file_of(res.image, feature.image),
        res.wireframes matches Some(ws) && is_fresh_wireframes_of(ws@, feature.wireframes),
        res.price == feature.price,
        res.repo == feature.repo,
{
    let wireframes = fresh_wireframes(feature.wireframes);
    FeatureOutput {
        id,
        name: feature.name,
        description: feature.description,
        feature_type: feature.feature_type,
        image: file_of(feature.image),
        wireframes: Some(wireframes),
        price: feature.price,
        repo: feature.repo,
    }
}

/// The wireframes to add to the feature `id`, each under a fresh identifier.
pub fn wireframes_addition(id: String, wireframes: Vec<InputFile>) -> (res: UpdateFeatureWireframes)
    ensures
        res.id == id,
        fresh_files_of(res.wireframes@, wireframes@),
{
    UpdateFeatureWireframes { id, wireframes: fresh_files(wireframes) }
}

/// A template to create.
pub struct Template {
    pub name: String,
    pub description: String,
    pub category: String,
    pub features: Option<Vec<String>>,
    pub image: File,
    pub specification: Option<SpecificationOutput>,
}

/// A template as a client gives it to be created.
pub struct TemplateInput {
    pub name: String,
    pub description: String,
    pub category: String,
    pub features: Option<Vec<String>>,
    pub image: InputFile,
    pub specification: Option<SpecificationInput>,
}

/// A template as a client gives it to be changed.
pub struct TemplateUpdateInput {
    pub name: String,
    pub description: String,
    pub category: String,
    pub features: Option<Vec<String>>,
    pub image: InputFile,
}

/// A template with its identifier and the identifiers of its features.
pub struct TemplateDefactoredOutput {
    pub id: String,
    pub name: String,
    pub description: String,
    pub category: String,
    pub features: Option<Vec<String>>,
    pub image: File,
    pub specification: Option<SpecificationOutput>,
}

/// Whether `s` is the specification sent for the one given: a copy, or a blank one.
pub open spec fn is_specification_sent(s: Option<SpecificationOutput>, given: Option<SpecificationInput>) -> bool {
    match (s, given) {
        (Some(o), Some(i)) => is_specification_of(o, i),
        (Some(o), None) => is_blank_specification_output(o),
        _ => false,
    }
}

/// The template to create, as sent: the specification given, or a blank one.
pub fn template_creation(template: TemplateInput) -> (res: Template)
    ensures
        res.name == template.name,
        res.description == template.description,
        res.category == template.category,
        res.features == template.features,
        is_file_of(res.image, template.image),
        is_specification_sent(res.specification, template.specification),
{
    Template {
        name: template.name,
        description: template.description,
        category: template.category,
        features: template.features,
        image: file_of(template.image),
        specification: Some(specification_or_blank(template.specification)),
    }
}

/// The template to change, as sent: no features given means none, and the
/// specification given, or a blank one.
pub fn template_update(id: String, template: TemplateUpdateInput, specification: Option<SpecificationInput>) -> (res: TemplateDefactoredOutput)
    ensures
        res.id == id,
        res.name == template.name,
        res.description == template.description,
        res.category == template.category,
        match template.features {
            Some(fs) => res.features == Some(fs),
            None => res.features matches Some(fs) && fs@.len() == 0,
        },
        is_file_of(res.image, template.image),
        is_specification_sent(res.specification, specification),
{
    let features = match template.features {
        Some(fs) => Some(fs),
        None => Some(Vec::new()),
    };
    TemplateDefactoredOutput {
        id,
        name: template.name,
        description: template.description,
        category: template.category,
        features,
        image: file_of(template.image),
        specification: Some(specification_or_blank(specification)),
    }
}

/// Which way a link between two features of a prototype goes.
#[derive(Clone, Copy, Debug, PartialEq, Eq, Structural)]
pub struct Relations {
    pub back: bool,
    pub forword: bool,
}

#[derive(Clone, Copy, Debug, PartialEq, Eq, Structural)]
pub struct RelationsInput {
    pub back: bool,
    pub forword: bool,
}

pub struct Connections {
    pub to: String,
    pub releations: Relations,
}

pub struct ConnectionsInput {
    pub to: String,
    pub releations: RelationsInput,
}

pub struct ProtoType {
    pub feature_id: String,
    pub connections: Vec<Connections>,
}

pub struct ProtoTypeInput {
    pub feature_id: String,
    pub connections: Vec<ConnectionsInput>,
}

/// A prototype: the links between the features of a template.
pub struct TemplateProtoType {
    pub template_id: String,
    pub prototype: Vec<ProtoType>,
}

/// A prototype as a client gives it.
pub struct TemplateProtoTypeInput {
    pub template_id: String,
    pub prototype: Vec<ProtoTypeInput>,
}

/// Whether the link `o` sent is the link `i` given.
pub open spec fn is_connection_of(o: Connections, i: ConnectionsInput) -> bool {
    o.to == i.to && o.releations.back == i.releations.back && o.releations.forword == i.releations.forword
}

/// Whether the feature links `o` sent are those `i` given.
pub open spec fn is_links_of(o: ProtoType, i: ProtoTypeInput) -> bool {
    &&& o.feature_id == i.feature_id
    &&& o.connections@.len() == i.connections@.len()
    &&& forall|k: int| 0 <= k < i.connections@.len() ==> is_connection_of(#[trigger] o.connections@[k], i.connections@[k])
}

fn links_of(i: ProtoTypeInput) -> (res: ProtoType)
    ensures
        is_links_of(res, i),
{
    let mut connections: Vec<Connections> = Vec::new();
    for c in iter: i.connections
        invariant
            connections@.len() == iter.index(),
            forall|k: int| 0 <= k < connections@.len() ==> is_connection_of(#[trigger] connections@[k], iter.seq()[k]),
    {
        connections.push(Connections {
            to: c.to,
            releations: Relations { back: c.releations.back, forword: c.releations.forword },
        });
    }
    ProtoType { feature_id: i.feature_id, connections }
}

/// The prototype to create or change, as sent.
pub fn prototype_request(prototype: TemplateProtoTypeInput) -> (res: TemplateProtoType)
    ensures
        res.template_id == prototype.template_id,
        res.prototype@.len() == prototype.prototype@.len(),
        forall|k: int| 0 <= k < prototype.prototype@.len() ==> is_links_of(#[trigger] res.prototype@[k], prototype.prototype@[k]),
{
    let mut objects: Vec<ProtoType> = Vec::new();
    for p in iter: prototype.prototype
        invariant
            objects@.len() == iter.index(),
            forall|k: int| 0 <= k < objects@.len() ==> is_links_of(#[trigger] objects@[k], iter.seq()[k]),
    {
        objects.push(links_of(p));
    }
    TemplateProtoType { template_id: prototype.template_id, prototype: objects }
}

} // verus!
