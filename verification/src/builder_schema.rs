//! The records the content builder service reads, stores and answers with,
//! and the conversions between their stored form (identifiers as bytes) and
//! their answered form (identifiers as text).

use vstd::prelude::*;
use crate::hex::{hex_lower, hex_lowercase};
use crate::object_id::{is_object_id_text, lemma_object_id_relower, parsed_object_id, ObjectId};

verus! {

pub struct File {
    pub name: String,
    pub src: String,
}

pub struct ProjectFile {
    pub id: String,
    pub name: String,
    pub src: String,
}

pub struct ProjectFullBuild {
    pub id: String,
    pub url: String,
}

/// A file as stored, with an identifier of its own.
pub struct FileWithId {
    pub _id: ObjectId,
    pub name: String,
    pub src: String,
}

/// A file as answered with, its identifier written as text.
pub struct FileWithOutOId {
    pub id: String,
    pub name: String,
    pub src: String,
}

pub struct SerlizedId {
    pub id: String,
}

pub struct Category {
    pub name: String,
    pub description: String,
    pub image: File,
}

pub struct CategoryResponseModel {
    pub id: String,
    pub name: String,
    pub description: String,
    pub image: File,
}

pub struct CategoryDeserializeModel {
    pub _id: ObjectId,
    pub name: String,
    pub description: String,
    pub image: File,
}

/// Whether `r` is the answer made of the stored category `c`.
pub open spec fn is_category_response(r: CategoryResponseModel, c: CategoryDeserializeModel) -> bool {
    &&& r.id@ == hex_lower(c._id@)
    &&& r.name == c.name
    &&& r.description == c.description
    &&& r.image == c.image
}

impl CategoryResponseModel {
    /// The answer for a stored category.
    pub fn build_category(category: CategoryDeserializeModel) -> (res: CategoryResponseModel)
        ensures
            is_category_response(res, category),
    {
        CategoryResponseModel {
            id: category._id.to_hex(),
            name: category.name,
            description: category.description,
            image: category.image,
        }
    }
}

/// A feature as stored. Its price is kept as the bit pattern of the IEEE 754
/// double it is, and is only carried through.
pub struct FeatureDeserializeModel {
    pub _id: ObjectId,
    pub name: String,
    pub description: String,
    pub feature_type: String,
    pub image: File,
    pub wireframes: Option<Vec<FileWithId>>,
    pub price: u64,
    pub repo: String,
}

pub struct UpdateFeatureWireframesModel {
    pub id: String,
    pub wireframes: Vec<FileWithOutOId>,
}

/// A feature as written to the store.
pub struct Feature {
    pub name: String,
    pub description: String,
    pub feature_type: String,
    pub image: File,
    pub wireframes: Option<Vec<FileWithId>>,
    pub price: u64,
    pub repo: String,
}

/// A feature as sent to be created.
pub struct FeatureObject {
    pub name: String,
    pub description: String,
    pub feature_type: String,
    pub image: File,
    pub wireframes: Option<Vec<FileWithOutOId>>,
    pub price: u64,
    pub repo: String,
}

/// A feature as answered with.
pub struct FeatureResponseModel {
    pub id: String,
    pub name: String,
    pub description: String,
    pub feature_type: String,
    pub image: File,
    pub wireframes: Option<Vec<FileWithOutOId>>,
    pub price: u64,
    pub repo: String,
}

/// Whether `r` is the answer made of the stored file `f`.
pub open spec fn is_file_response(r: FileWithOutOId, f: FileWithId) -> bool {
    &&& r.id@ == hex_lower(f._id@)
    &&& r.name == f.name
    &&& r.src == f.src
}

/// Whether `rs` answers for the stored files `fs`, one for one, in order.
pub open spec fn files_answer(rs: Seq<FileWithOutOId>, fs: Seq<FileWithId>) -> bool {
    &&& rs.len() == fs.len()
    &&& forall|i: int| 0 <= i < fs.len() ==> is_file_response(#[trigger] rs[i], fs[i])
}

/// Whether `s` is the stored form of the file `f`: its identifier read from its text.
pub open spec fn is_stored_file(s: FileWithId, f: FileWithOutOId) -> bool {
    &&& parsed_object_id(f.id@) == Some(s._id@)
    &&& s.name == f.name
    &&& s.src == f.src
}

/// Whether every file of `fs` has an identifier text that reads as an identifier.
pub open spec fn all_file_ids_valid(fs: Seq<FileWithOutOId>) -> bool {
    forall|i: int| 0 <= i < fs.len() ==> is_object_id_text(#[trigger] fs[i].id@)
}

/// Whether `ss` is the stored form of the files `fs`, one for one, in order.
pub open spec fn files_stored(ss: Seq<FileWithId>, fs: Seq<FileWithOutOId>) -> bool {
    &&& ss.len() == fs.len()
    &&& forall|i: int| 0 <= i < fs.len() ==> is_stored_file(#[trigger] ss[i], fs[i])
}

/// The answered form of stored files.
pub fn files_response(files: Vec<FileWithId>) -> (res: Vec<FileWithOutOId>)
    ensures
        files_answer(res@, files@),
{
    let mut out: Vec<FileWithOutOId> = Vec::new();
    for f in iter: files
        invariant
            out@.len() == iter.index(),
            forall|i: int| 0 <= i < out@.len() ==> is_file_response(#[trigger] out@[i], iter.seq()[i]),
    {
        out.push(FileWithOutOId { id: f._id.to_hex(), name: f.name, src: f.src });
    }
    out
}

/// The stored form of files sent with text identifiers; `None` where one of
/// the identifiers is not 24 base16 digits.
pub fn stored_files(files: Vec<FileWithOutOId>) -> (res: Option<Vec<FileWithId>>)
    ensures
        match res {
            Some(ss) => all_file_ids_valid(files@) && files_stored(ss@, files@),
            None => !all_file_ids_valid(files@),
        },
{
    let ghost orig = files@;
    let mut out: Vec<FileWithId> = Vec::new();
    for f in iter: files
        invariant
            iter.seq() == orig,
            out@.len() == iter.index(),
            forall|i: int| 0 <= i < out@.len() ==> is_stored_file(#[trigger] out@[i], orig[i]),
            forall|i: int| 0 <= i < out@.len() ==> is_object_id_text(#[trigger] orig[i].id@),
    {
        match ObjectId::parse(f.id.as_str()) {
            Some(id) => out.push(FileWithId { _id: id, name: f.name, src: f.src }),
            None => {
                let ghost k = out@.len() as int;
                assert(!is_object_id_text(orig[k].id@));
                assert(!all_file_ids_valid(orig));
                return None;
            },
        }
    }
    Some(out)
}

/// Files sent with text identifiers, stored, and answered with again come back
/// as they were sent, each identifier written in lower case.
pub proof fn lemma_stored_files_answer(ss: Seq<FileWithId>, fs: Seq<FileWithOutOId>, rs: Seq<FileWithOutOId>)
    requires
        files_stored(ss, fs),
        files_answer(rs, ss),
    ensures
        rs.len() == fs.len(),
        forall|i: int| 0 <= i < fs.len() ==> {
            &&& (#[trigger] rs[i]).id@ == hex_lowercase(fs[i].id@)
            &&& rs[i].name == fs[i].name
            &&& rs[i].src == fs[i].src
        },
{
    assert forall|i: int| 0 <= i < fs.len() implies (#[trigger] rs[i]).id@ == hex_lowercase(fs[i].id@) by {
        assert(is_stored_file(ss[i], fs[i]));
        assert(is_file_response(rs[i], ss[i]));
        lemma_object_id_relower(fs[i].id@);
    }
    assert forall|i: int| 0 <= i < fs.len() implies (#[trigger] rs[i]).name == fs[i].name && rs[i].src == fs[i].src by {
        assert(is_stored_file(ss[i], fs[i]));
        assert(is_file_response(rs[i], ss[i]));
    }
}

/// Whether `r` is the answer made of the stored feature `f`.
pub open spec fn is_feature_response(r: FeatureResponseModel, f: FeatureDeserializeModel) -> bool {
    &&& r.id@ == hex_lower(f._id@)
    &&& r.name == f.name
    &&& r.description == f.description
    &&& r.feature_type == f.feature_type
    &&& r.image == f.image
    &&& r.price == f.price
    &&& r.repo == f.repo
    &&& match (r.wireframes, f.wireframes) {
        (Some(a), Some(b)) => files_answer(a@, b@),
        (None, None) => true,
        _ => false,
    }
}

impl FeatureResponseModel {
    /// The answer for a stored feature: its identifier and those of its
    /// wireframes written as text.
    pub fn build_feature(feature: FeatureDeserializeModel) -> (res: FeatureResponseModel)
        ensures
            is_feature_response(res, feature),
    {
        let wireframes = match feature.wireframes {
            Some(files) => Some(files_response(files)),
            None => None,
        };
        FeatureResponseModel {
            id: feature._id.to_hex(),
            name: feature.name,
            description: feature.description,
            feature_type: feature.feature_type,
            image: feature.image,
            wireframes,
            price: feature.price,
            repo: feature.repo,
        }
    }
}

/// Whether `rs` answers for the stored features `fs`, one for one, in order.
pub open spec fn features_answer(rs: Seq<FeatureResponseModel>, fs: Seq<FeatureDeserializeModel>) -> bool {
    &&& rs.len() == fs.len()
    &&& forall|i: int| 0 <= i < fs.len() ==> is_feature_response(#[trigger] rs[i], fs[i])
}

/// The answered form of stored features.
pub fn features_response(features: Vec<FeatureDeserializeModel>) -> (res: Vec<FeatureResponseModel>)
    ensures
        features_answer(res@, features@),
{
    let mut out: Vec<FeatureResponseModel> = Vec::new();
    for f in iter: features
        invariant
            out@.len() == iter.index(),
            forall|i: int| 0 <= i < out@.len() ==> is_feature_response(#[trigger] out@[i], iter.seq()[i]),
    {
        out.push(FeatureResponseModel::build_feature(f));
    }
    out
}

/// The wireframes a feature is stored with: those sent, each identifier read
/// from its text, or none when none were sent; `None` where an identifier is invalid.
pub fn stored_wireframes(wireframes: Option<Vec<FileWithOutOId>>) -> (res: Option<Vec<FileWithId>>)
    ensures
        match wireframes {
            None => res matches Some(ss) && ss@.len() == 0,
            Some(fs) => match res {
                Some(ss) => all_file_ids_valid(fs@) && files_stored(ss@, fs@),
                None => !all_file_ids_valid(fs@),
            },
        },
{
    match wireframes {
        Some(files) => stored_files(files),
        None => Some(Vec::new()),
    }
}

/// Whether `s` is the stored form of the feature `f` sent to be created or changed.
pub open spec fn is_stored_feature(s: Feature, name: String, description: String, feature_type: String, image: File, wireframes: Option<Vec<FileWithOutOId>>, price: u64, repo: String) -> bool {
    &&& s.name == name
    &&& s.description == description
    &&& s.feature_type == feature_type
    &&& s.image == image
    &&& s.price == price
    &&& s.repo == repo
    &&& match (s.wireframes, wireframes) {
        (Some(ss), Some(fs)) => files_stored(ss@, fs@),
        (Some(ss), None) => ss@.len() == 0,
        _ => false,
    }
}

/// Whether the wireframes sent with a feature all have valid identifiers.
pub open spec fn wireframe_ids_valid(wireframes: Option<Vec<FileWithOutOId>>) -> bool {
    match wireframes {
        Some(fs) => all_file_ids_valid(fs@),
        None => true,
    }
}

impl FeatureObject {
    /// The stored form of a feature sent to be created; `None` where a wireframe
    /// identifier is not valid.
    pub fn to_feature(self) -> (res: Option<Feature>)
        ensures
            match res {
                Some(f) => is_stored_feature(f, self.name, self.description, self.feature_type, self.image, self.wireframes, self.price, self.repo),
                None => !wireframe_ids_valid(self.wireframes),
            },
    {
        match stored_wireframes(self.wireframes) {
            None => None,
            Some(files) => Some(Feature {
                name: self.name,
                description: self.description,
                feature_type: self.feature_type,
                image: self.image,
                wireframes: Some(files),
                price: self.price,
                repo: self.repo,
            }),
        }
    }
}

impl FeatureResponseModel {
    /// The identifier and stored form of a feature sent to be changed; `None`
    /// where a wireframe identifier is not valid.
    pub fn to_feature(self) -> (res: Option<(String, Feature)>)
        ensures
            match res {
                Some((id, f)) => id == self.id && is_stored_feature(f, self.name, self.description, self.feature_type, self.image, self.wireframes, self.price, self.repo),
                None => !wireframe_ids_valid(self.wireframes),
            },
    {
        match stored_wireframes(self.wireframes) {
            None => None,
            Some(files) => Some((self.id, Feature {
                name: self.name,
                description: self.description,
                feature_type: self.feature_type,
                image: self.image,
                wireframes: Some(files),
                price: self.price,
                repo: self.repo,
            })),
        }
    }
}

} // verus!
