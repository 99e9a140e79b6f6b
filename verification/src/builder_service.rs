//! The decisions of the content builder service. Each request runs as a series
//! of store calls; these functions take what a call gave and decide what comes
//! next: the next call's argument, or the answer.

use vstd::prelude::*;
use crate::builder_content::{
    is_template_id_response, is_template_response, TemplateDeserializeModel,
    TemplateReafactorDeserializeModel, TemplateResponseModel, TemplateResponseRefactorModel,
};
use crate::builder_error::ContentBuilderCustomResponseError as BuilderError;
use crate::builder_project::{
    is_project_response, is_prototype_response, ProjectDeserializeModel, ProjectResponseModel,
    ProtoTypeRefactorDeserializeModel, ProtoTypeResponseModel,
};
use crate::builder_schema::{
    is_category_response, is_feature_response, CategoryDeserializeModel, CategoryResponseModel,
    FeatureDeserializeModel, FeatureResponseModel, FileWithId, FileWithOutOId,
};
use crate::hex::hex_lower;
use crate::object_id::{parsed_object_id, ObjectId};
use crate::store::{Fetched, Inserted};
use crate::text::text_eq;

verus! {

/// Creating a record, middle step: the identifier to read the inserted record
/// back by; a failed insertion, or one that gave no document identifier, is an
/// internal error.
pub fn inserted_id(inserted: Inserted) -> (res: Result<String, BuilderError>)
    ensures
        match inserted {
            Inserted::Id(id) => res matches Ok(t) && t@ == hex_lower(id@),
            _ => res == Err::<String, BuilderError>(BuilderError::InternalError),
        },
{
    match inserted {
        Inserted::Id(id) => Ok(id.to_hex()),
        _ => Err(BuilderError::InternalError),
    }
}

/// The errors a read of one category is answered with, by what the read gave.
pub open spec fn category_read_error(fetched: Fetched<CategoryDeserializeModel>) -> BuilderError {
    match fetched {
        Fetched::Failed => BuilderError::InternalError,
        _ => BuilderError::NotFound,
    }
}

/// Getting, deleting or changing a category, last step: the category the
/// store gave back. Anything but a category read back is "not found", save a
/// failed store call.
pub fn category_answer(fetched: Fetched<CategoryDeserializeModel>) -> (res: Result<CategoryResponseModel, BuilderError>)
    ensures
        match fetched {
            Fetched::Found(c) => res matches Ok(r) && is_category_response(r, c),
            _ => res == Err::<CategoryResponseModel, BuilderError>(category_read_error(fetched)),
        },
{
    match fetched {
        Fetched::Found(c) => Ok(CategoryResponseModel::build_category(c)),
        Fetched::Failed => Err(BuilderError::InternalError),
        _ => Err(BuilderError::NotFound),
    }
}

/// Creating a category, last step: the category read back after insertion.
pub fn created_category(fetched: Fetched<CategoryDeserializeModel>) -> (res: Result<CategoryResponseModel, BuilderError>)
    ensures
        match fetched {
            Fetched::Found(c) => res matches Ok(r) && is_category_response(r, c),
            _ => res == Err::<CategoryResponseModel, BuilderError>(BuilderError::InternalError),
        },
{
    match fetched {
        Fetched::Found(c) => Ok(CategoryResponseModel::build_category(c)),
        _ => Err(BuilderError::InternalError),
    }
}

/// Listing categories: every stored category; `None` where the store call failed.
pub fn categories_listing(categories: Option<Vec<CategoryDeserializeModel>>) -> (res: Result<Vec<CategoryResponseModel>, BuilderError>)
    ensures
        match categories {
            None => res == Err::<Vec<CategoryResponseModel>, BuilderError>(BuilderError::InternalError),
            Some(v) => res matches Ok(r) && r@.len() == v@.len() && forall|i: int|
                0 <= i < v@.len() ==> is_category_response(#[trigger] r@[i], v@[i]),
        },
{
    match categories {
        None => Err(BuilderError::InternalError),
        Some(v) => {
            let mut out: Vec<CategoryResponseModel> = Vec::new();
            for c in iter: v
                invariant
                    out@.len() == iter.index(),
                    forall|i: int| 0 <= i < out@.len() ==> is_category_response(#[trigger] out@[i], iter.seq()[i]),
            {
                out.push(CategoryResponseModel::build_category(c));
            }
            Ok(out)
        },
    }
}

/// Listing features: every stored feature; `None` where the store call failed.
pub fn features_listing(features: Option<Vec<FeatureDeserializeModel>>) -> (res: Result<Vec<FeatureResponseModel>, BuilderError>)
    ensures
        match features {
            None => res == Err::<Vec<FeatureResponseModel>, BuilderError>(BuilderError::InternalError),
            Some(v) => res matches Ok(r) && crate::builder_schema::features_answer(r@, v@),
        },
{
    match features {
        None => Err(BuilderError::InternalError),
        Some(v) => Ok(crate::builder_schema::features_response(v)),
    }
}

/// Getting or deleting a feature, last step: a feature that is not there is
/// "not found"; a failed call or a feature of the wrong shape is an internal error.
pub fn feature_answer(fetched: Fetched<FeatureDeserializeModel>) -> (res: Result<FeatureResponseModel, BuilderError>)
    ensures
        match fetched {
            Fetched::Found(f) => res matches Ok(r) && is_feature_response(r, f),
            Fetched::Missing | Fetched::Empty => res == Err::<FeatureResponseModel, BuilderError>(BuilderError::NotFound),
            _ => res == Err::<FeatureResponseModel, BuilderError>(BuilderError::InternalError),
        },
{
    match fetched {
        Fetched::Found(f) => Ok(FeatureResponseModel::build_feature(f)),
        Fetched::Missing | Fetched::Empty => Err(BuilderError::NotFound),
        _ => Err(BuilderError::InternalError),
    }
}

/// Changing a feature or adding wireframes to it, last step: the feature after
/// the change; no feature with that identifier is "not found".
pub fn changed_feature(fetched: Fetched<FeatureDeserializeModel>) -> (res: Result<FeatureResponseModel, BuilderError>)
    ensures
        match fetched {
            Fetched::Found(f) => res matches Ok(r) && is_feature_response(r, f),
            Fetched::Missing => res == Err::<FeatureResponseModel, BuilderError>(BuilderError::NotFound),
            _ => res == Err::<FeatureResponseModel, BuilderError>(BuilderError::InternalError),
        },
{
    match fetched {
        Fetched::Found(f) => Ok(FeatureResponseModel::build_feature(f)),
        Fetched::Missing => Err(BuilderError::NotFound),
        _ => Err(BuilderError::InternalError),
    }
}

/// Creating a feature, last step: the feature read back after insertion.
pub fn created_feature(fetched: Fetched<FeatureDeserializeModel>) -> (res: Result<FeatureResponseModel, BuilderError>)
    ensures
        match fetched {
            Fetched::Found(f) => res matches Ok(r) && is_feature_response(r, f),
            _ => res == Err::<FeatureResponseModel, BuilderError>(BuilderError::InternalError),
        },
{
    match fetched {
        Fetched::Found(f) => Ok(FeatureResponseModel::build_feature(f)),
        _ => Err(BuilderError::InternalError),
    }
}

/// The position of the first file of `files` whose identifier is `id`.
pub open spec fn first_file_with_id(files: Seq<FileWithOutOId>, id: Seq<char>, k: int) -> bool {
    &&& 0 <= k < files.len()
    &&& files[k].id@ == id
    &&& forall|j: int| 0 <= j < k ==> #[trigger] files[j].id@ != id
}

/// Finds the first file of `files` whose identifier is `id`.
pub fn find_file(files: &Vec<FileWithOutOId>, id: &str) -> (res: Option<usize>)
    ensures
        match res {
            Some(k) => first_file_with_id(files@, id@, k as int),
            None => forall|j: int| 0 <= j < files@.len() ==> #[trigger] files@[j].id@ != id@,
        },
{
    let mut i: usize = 0;
    while i < files.len()
        invariant
            i <= files.len(),
            forall|j: int| 0 <= j < i ==> #[trigger] files@[j].id@ != id@,
        decreases files.len() - i,
    {
        if text_eq(files[i].id.as_str(), id) {
            return Some(i);
        }
        i = i + 1;
    }
    None
}

/// What removing a wireframe leads to: the feature to change and the stored
/// form of the wireframe to take out of it.
pub struct WireframeRemoval {
    pub feature_id: String,
    pub wireframe: FileWithId,
}

/// Removing a wireframe, middle step: of the features holding a wireframe with
/// identifier `wireframe_id`, the last one, and that wireframe in it. No such
/// feature is "not found". Where the feature holds no such wireframe after all
/// (the service stops there), the answer is `Ok(None)`.
pub fn wireframe_removal(features: Vec<FeatureResponseModel>, wireframe_id: &str) -> (res: Result<Option<WireframeRemoval>, BuilderError>)
    ensures
        features@.len() == 0 ==> res == Err::<Option<WireframeRemoval>, BuilderError>(BuilderError::NotFound),
        features@.len() > 0 ==> (res matches Ok(found) && match features@.last().wireframes {
            None => found is None,
            Some(ws) => match found {
                Some(w) => w.feature_id == features@.last().id && exists|k: int| first_file_with_id(ws@, wireframe_id@, k)
                    && parsed_object_id(ws@[k].id@) == Some(w.wireframe._id@) && w.wireframe.name == ws@[k].name && w.wireframe.src == ws@[k].src,
                None => forall|j: int| 0 <= j < ws@.len() ==> parsed_object_id(#[trigger] ws@[j].id@) is None || ws@[j].id@ != wireframe_id@,
            },
        }),
{
    let mut features = features;
    let feature = match features.pop() {
        Some(f) => f,
        None => return Err(BuilderError::NotFound),
    };
    let files = match feature.wireframes {
        Some(ws) => ws,
        None => return Ok(None),
    };
    match find_file(&files, wireframe_id) {
        None => Ok(None),
        Some(k) => {
            let file = &files[k];
            match ObjectId::parse(file.id.as_str()) {
                Some(id) => Ok(Some(WireframeRemoval {
                    feature_id: feature.id,
                    wireframe: FileWithId { _id: id, name: file.name.clone(), src: file.src.clone() },
                })),
                None => Ok(None),
            }
        },
    }
}

/// Removing a wireframe, last step: the feature after the removal. The service
/// stops where no feature comes back, so that case is not taken.
pub fn wireframe_removed(fetched: Fetched<FeatureDeserializeModel>) -> (res: Result<FeatureResponseModel, BuilderError>)
    requires
        !(fetched is Missing),
    ensures
        match fetched {
            Fetched::Found(f) => res matches Ok(r) && is_feature_response(r, f),
            _ => res == Err::<FeatureResponseModel, BuilderError>(BuilderError::InternalError),
        },
{
    created_feature(fetched)
}

/// Listing templates: every stored template with its features; `None` where the
/// store call failed, which this service answers with "bad header data".
pub fn templates_listing(templates: Option<Vec<TemplateReafactorDeserializeModel>>) -> (res: Result<Vec<TemplateResponseRefactorModel>, BuilderError>)
    ensures
        match templates {
            None => res == Err::<Vec<TemplateResponseRefactorModel>, BuilderError>(BuilderError::BadHeaderData),
            Some(v) => res matches Ok(r) && r@.len() == v@.len() && forall|i: int|
                0 <= i < v@.len() ==> is_template_response(#[trigger] r@[i], v@[i]),
        },
{
    match templates {
        None => Err(BuilderError::BadHeaderData),
        Some(v) => {
            let mut out: Vec<TemplateResponseRefactorModel> = Vec::new();
            for t in iter: v
                invariant
                    out@.len() == iter.index(),
                    forall|i: int| 0 <= i < out@.len() ==> is_template_response(#[trigger] out@[i], iter.seq()[i]),
            {
                out.push(TemplateResponseRefactorModel::build_template(t));
            }
            Ok(out)
        },
    }
}

/// Creating or changing a template, last step: of the templates read back by
/// identifier (with their features), the last one, or none; `None` where the
/// store call failed.
pub fn last_template(templates: Option<Vec<TemplateReafactorDeserializeModel>>) -> (res: Result<Option<TemplateResponseRefactorModel>, BuilderError>)
    ensures
        match templates {
            None => res == Err::<Option<TemplateResponseRefactorModel>, BuilderError>(BuilderError::InternalError),
            Some(v) => res matches Ok(last) && if v@.len() == 0 {
                last is None
            } else {
                last matches Some(r) && is_template_response(r, v@.last())
            },
        },
{
    match templates {
        None => Err(BuilderError::InternalError),
        Some(v) => {
            let mut v = v;
            match v.pop() {
                Some(t) => Ok(Some(TemplateResponseRefactorModel::build_template(t))),
                None => Ok(None),
            }
        },
    }
}

/// Getting a template: the last template read by identifier; none is "not found".
pub fn found_template(templates: Option<Vec<TemplateReafactorDeserializeModel>>) -> (res: Result<TemplateResponseRefactorModel, BuilderError>)
    ensures
        match templates {
            None => res == Err::<TemplateResponseRefactorModel, BuilderError>(BuilderError::InternalError),
            Some(v) => if v@.len() == 0 {
                res == Err::<TemplateResponseRefactorModel, BuilderError>(BuilderError::NotFound)
            } else {
                res matches Ok(r) && is_template_response(r, v@.last())
            },
        },
{
    match last_template(templates) {
        Err(e) => Err(e),
        Ok(Some(t)) => Ok(t),
        Ok(None) => Err(BuilderError::NotFound),
    }
}

/// Changing a template, middle step: the identifier of the template the store
/// changed, to read it back by. The service stops where the changed document is
/// empty or has no identifier, so those cases are not taken.
pub fn updated_template_id(fetched: Fetched<ObjectId>) -> (res: Result<String, BuilderError>)
    requires
        !(fetched is Empty) && !(fetched is Malformed),
    ensures
        match fetched {
            Fetched::Found(id) => res matches Ok(t) && t@ == hex_lower(id@),
            Fetched::Missing => res == Err::<String, BuilderError>(BuilderError::NotFound),
            _ => res == Err::<String, BuilderError>(BuilderError::InternalError),
        },
{
    match fetched {
        Fetched::Found(id) => Ok(id.to_hex()),
        Fetched::Missing => Err(BuilderError::NotFound),
        _ => Err(BuilderError::InternalError),
    }
}

/// Changing the features or the specification of a template, middle step: the
/// identifier of the changed template. The service stops where no document,
/// or one without identifier, comes back, so only a failure or an identifier is taken.
pub fn refreshed_template_id(fetched: Fetched<ObjectId>) -> (res: Result<String, BuilderError>)
    requires
        fetched is Failed || fetched is Found,
    ensures
        match fetched {
            Fetched::Found(id) => res matches Ok(t) && t@ == hex_lower(id@),
            _ => res == Err::<String, BuilderError>(BuilderError::InternalError),
        },
{
    match fetched {
        Fetched::Found(id) => Ok(id.to_hex()),
        _ => Err(BuilderError::InternalError),
    }
}

/// Deleting a template, last step: the deleted template, its feature
/// identifiers written as text.
pub fn deleted_template(fetched: Fetched<TemplateDeserializeModel>) -> (res: Result<TemplateResponseModel, BuilderError>)
    ensures
        match fetched {
            Fetched::Found(t) => res matches Ok(r) && is_template_id_response(r, t),
            Fetched::Missing | Fetched::Empty => res == Err::<TemplateResponseModel, BuilderError>(BuilderError::NotFound),
            _ => res == Err::<TemplateResponseModel, BuilderError>(BuilderError::InternalError),
        },
{
    match fetched {
        Fetched::Found(t) => Ok(TemplateResponseModel::build_template(t)),
        Fetched::Missing | Fetched::Empty => Err(BuilderError::NotFound),
        _ => Err(BuilderError::InternalError),
    }
}

/// Creating, getting or changing a prototype, last step: the last prototype
/// read back for the template (with its features); none is "not found".
pub fn prototype_answer(prototypes: Option<Vec<ProtoTypeRefactorDeserializeModel>>) -> (res: Result<ProtoTypeResponseModel, BuilderError>)
    ensures
        match prototypes {
            None => res == Err::<ProtoTypeResponseModel, BuilderError>(BuilderError::InternalError),
            Some(v) => if v@.len() == 0 {
                res == Err::<ProtoTypeResponseModel, BuilderError>(BuilderError::NotFound)
            } else {
                res matches Ok(r) && is_prototype_response(r, v@.last())
            },
        },
{
    match prototypes {
        None => Err(BuilderError::InternalError),
        Some(v) => {
            let mut v = v;
            match v.pop() {
                Some(p) => Ok(ProtoTypeResponseModel::build_prototype(p)),
                None => Err(BuilderError::NotFound),
            }
        },
    }
}

/// Changing a prototype, middle step: whether a prototype was changed; a failed
/// call or no prototype for the template is an internal error.
pub fn prototype_updated<T>(fetched: Fetched<T>) -> (res: Result<(), BuilderError>)
    ensures
        match fetched {
            Fetched::Failed | Fetched::Missing => res == Err::<(), BuilderError>(BuilderError::InternalError),
            _ => res == Ok::<(), BuilderError>(()),
        },
{
    match fetched {
        Fetched::Failed | Fetched::Missing => Err(BuilderError::InternalError),
        _ => Ok(()),
    }
}

/// Creating, getting or changing a project, last step: the last project read
/// back by identifier (with template and features); none is "not found".
pub fn project_answer(projects: Option<Vec<ProjectDeserializeModel>>) -> (res: Result<ProjectResponseModel, BuilderError>)
    ensures
        match projects {
            None => res == Err::<ProjectResponseModel, BuilderError>(BuilderError::InternalError),
            Some(v) => if v@.len() == 0 {
                res == Err::<ProjectResponseModel, BuilderError>(BuilderError::NotFound)
            } else {
                res matches Ok(r) && is_project_response(r, v@.last())
            },
        },
{
    match projects {
        None => Err(BuilderError::InternalError),
        Some(v) => {
            let mut v = v;
            match v.pop() {
                Some(p) => Ok(ProjectResponseModel::build_project(p)),
                None => Err(BuilderError::NotFound),
            }
        },
    }
}

/// Listing projects (all, or those of a client): every project read; `None`
/// where the store call failed.
pub fn projects_listing(projects: Option<Vec<ProjectDeserializeModel>>) -> (res: Result<Vec<ProjectResponseModel>, BuilderError>)
    ensures
        match projects {
            None => res == Err::<Vec<ProjectResponseModel>, BuilderError>(BuilderError::InternalError),
            Some(v) => res matches Ok(r) && r@.len() == v@.len() && forall|i: int|
                0 <= i < v@.len() ==> is_project_response(#[trigger] r@[i], v@[i]),
        },
{
    match projects {
        None => Err(BuilderError::InternalError),
        Some(v) => {
            let mut out: Vec<ProjectResponseModel> = Vec::new();
            for p in iter: v
                invariant
                    out@.len() == iter.index(),
                    forall|i: int| 0 <= i < out@.len() ==> is_project_response(#[trigger] out@[i], iter.seq()[i]),
            {
                out.push(ProjectResponseModel::build_project(p));
            }
            Ok(out)
        },
    }
}

/// Changing a project's state, its build or its proposal, middle step: the
/// identifier of the changed project, to read it back by; no project (or an
/// empty one) is "not found". The service stops where the changed document has
/// no identifier, so that case is not taken.
pub fn updated_project_id(fetched: Fetched<ObjectId>) -> (res: Result<String, BuilderError>)
    requires
        !(fetched is Malformed),
    ensures
        match fetched {
            Fetched::Found(id) => res matches Ok(t) && t@ == hex_lower(id@),
            Fetched::Failed => res == Err::<String, BuilderError>(BuilderError::InternalError),
            _ => res == Err::<String, BuilderError>(BuilderError::NotFound),
        },
{
    match fetched {
        Fetched::Found(id) => Ok(id.to_hex()),
        Fetched::Failed => Err(BuilderError::InternalError),
        _ => Err(BuilderError::NotFound),
    }
}

/// Renaming a project, middle step: the identifier of the changed project; no
/// project is an internal error. The service stops where the changed document
/// is empty or has no identifier, so those cases are not taken.
pub fn renamed_project_id(fetched: Fetched<ObjectId>) -> (res: Result<String, BuilderError>)
    requires
        !(fetched is Empty) && !(fetched is Malformed),
    ensures
        match fetched {
            Fetched::Found(id) => res matches Ok(t) && t@ == hex_lower(id@),
            _ => res == Err::<String, BuilderError>(BuilderError::InternalError),
        },
{
    match fetched {
        Fetched::Found(id) => Ok(id.to_hex()),
        _ => Err(BuilderError::InternalError),
    }
}

/// Adding an MVP or a design to a project, middle step: the identifier of the
/// changed project; an empty document is "not found". The service stops where
/// no document, or one without identifier, comes back, so those cases are not taken.
pub fn delivered_project_id(fetched: Fetched<ObjectId>) -> (res: Result<String, BuilderError>)
    requires
        !(fetched is Missing) && !(fetched is Malformed),
    ensures
        match fetched {
            Fetched::Found(id) => res matches Ok(t) && t@ == hex_lower(id@),
            Fetched::Empty => res == Err::<String, BuilderError>(BuilderError::NotFound),
            _ => res == Err::<String, BuilderError>(BuilderError::InternalError),
        },
{
    match fetched {
        Fetched::Found(id) => Ok(id.to_hex()),
        Fetched::Empty => Err(BuilderError::NotFound),
        _ => Err(BuilderError::InternalError),
    }
}

} // verus!
