//! Templates, prototypes and projects of the content builder service, and the
//! conversions between their stored and answered forms.

use vstd::prelude::*;
use crate::builder_schema::{
    features_answer, features_response, FeatureDeserializeModel, FeatureResponseModel, File,
};
use crate::hex::hex_lower;
use crate::object_id::{is_object_id_text, lemma_object_id_text_roundtrip, parsed_object_id, ObjectId};

verus! {

/// Whether `ts` is the text of the identifiers `ids`, one for one, in order.
pub open spec fn ids_written(ts: Seq<String>, ids: Seq<ObjectId>) -> bool {
    &&& ts.len() == ids.len()
    &&& forall|i: int| 0 <= i < ids.len() ==> #[trigger] ts[i]@ == hex_lower(ids[i]@)
}

/// Whether every text of `ts` reads as an identifier.
pub open spec fn all_ids_valid(ts: Seq<String>) -> bool {
    forall|i: int| 0 <= i < ts.len() ==> is_object_id_text(#[trigger] ts[i]@)
}

/// Whether `ids` are the identifiers the texts `ts` stand for, one for one, in order.
pub open spec fn ids_read(ids: Seq<ObjectId>, ts: Seq<String>) -> bool {
    &&& ids.len() == ts.len()
    &&& forall|i: int| 0 <= i < ts.len() ==> parsed_object_id(#[trigger] ts[i]@) == Some(ids[i]@)
}

/// Identifiers written as text read back as the same identifiers.
pub proof fn lemma_ids_text_roundtrip(ts: Seq<String>, ids: Seq<ObjectId>)
    requires
        ids_written(ts, ids),
    ensures
        all_ids_valid(ts),
        ids_read(ids, ts),
{
    assert forall|i: int| 0 <= i < ts.len() implies is_object_id_text(#[trigger] ts[i]@) && parsed_object_id(ts[i]@) == Some(ids[i]@) by {
        assert(ts[i]@ == hex_lower(ids[i]@));
        lemma_object_id_text_roundtrip(ids[i]@);
    }
}

/// The text of each identifier.
pub fn hex_ids(ids: Vec<ObjectId>) -> (res: Vec<String>)
    ensures
        ids_written(res@, ids@),
{
    let mut out: Vec<String> = Vec::new();
    for id in iter: ids
        invariant
            out@.len() == iter.index(),
            forall|i: int| 0 <= i < out@.len() ==> #[trigger] out@[i]@ == hex_lower(iter.seq()[i]@),
    {
        out.push(id.to_hex());
    }
    out
}

/// The identifier each text stands for; `None` where one of them is not 24 base16 digits.
pub fn parse_ids(ts: &Vec<String>) -> (res: Option<Vec<ObjectId>>)
    ensures
        match res {
            Some(ids) => all_ids_valid(ts@) && ids_read(ids@, ts@),
            None => !all_ids_valid(ts@),
        },
{
    let mut out: Vec<ObjectId> = Vec::new();
    let mut i: usize = 0;
    while i < ts.len()
        invariant
            i <= ts.len(),
            out@.len() == i,
            forall|j: int| 0 <= j < i ==> parsed_object_id(#[trigger] ts@[j]@) == Some(out@[j]@),
            forall|j: int| 0 <= j < i ==> is_object_id_text(#[trigger] ts@[j]@),
        decreases ts.len() - i,
    {
        match ObjectId::parse(ts[i].as_str()) {
            Some(id) => out.push(id),
            None => return None,
        }
        i = i + 1;
    }
    Some(out)
}

/// The requirements specification of a template.
pub struct Specification {
    pub introduction: Introduction,
    pub overall_description: OverallDescription,
    pub non_functional_requirements: NonFunctionalRequirements,
    pub other_requirements: String,
    pub glossary: String,
    pub analysis_models: String,
    pub issues_list: String,
}

pub struct Introduction {
    pub purpose: String,
    pub document_conventions: String,
    pub intended_audience: String,
    pub project_scope: String,
}

pub struct NonFunctionalRequirements {
    pub performance_requirements: String,
    pub safety_requirements: String,
    pub security_requirements: String,
    pub software_quality_attributes: String,
}

pub struct OverallDescription {
    pub perspective: String,
    pub user_characteristics: String,
    pub operating_environment: String,
    pub design_implementation_constraints: String,
    pub user_documentation: String,
    pub assemptions_dependencies: String,
}

/// Whether every part of a specification is empty text.
pub open spec fn is_blank_specification(s: Specification) -> bool {
    &&& s.introduction.purpose@.len() == 0
    &&& s.introduction.document_conventions@.len() == 0
    &&& s.introduction.intended_audience@.len() == 0
    &&& s.introduction.project_scope@.len() == 0
    &&& s.overall_description.perspective@.len() == 0
    &&& s.overall_description.user_characteristics@.len() == 0
    &&& s.overall_description.operating_environment@.len() == 0
    &&& s.overall_description.design_implementation_constraints@.len() == 0
    &&& s.overall_description.user_documentation@.len() == 0
    &&& s.overall_description.assemptions_dependencies@.len() == 0
    &&& s.non_functional_requirements.performance_requirements@.len() == 0
    &&& s.non_functional_requirements.safety_requirements@.len() == 0
    &&& s.non_functional_requirements.security_requirements@.len() == 0
    &&& s.non_functional_requirements.software_quality_attributes@.len() == 0
    &&& s.other_requirements@.len() == 0
    &&& s.glossary@.len() == 0
    &&& s.analysis_models@.len() == 0
    &&& s.issues_list@.len() == 0
}

impl Specification {
    /// A specification with every part empty.
    pub fn new() -> (res: Specification)
        ensures
            is_blank_specification(res),
    {
        Specification {
            introduction: Introduction {
                purpose: String::new(),
                document_conventions: String::new(),
                intended_audience: String::new(),
                project_scope: String::new(),
            },
            overall_description: OverallDescription {
                perspective: String::new(),
                user_characteristics: String::new(),
                operating_environment: String::new(),
                design_implementation_constraints: String::new(),
                user_documentation: String::new(),
                assemptions_dependencies: String::new(),
            },
            non_functional_requirements: NonFunctionalRequirements {
                performance_requirements: String::new(),
                safety_requirements: String::new(),
                security_requirements: String::new(),
                software_quality_attributes: String::new(),
            },
            other_requirements: String::new(),
            glossary: String::new(),
            analysis_models: String::new(),
            issues_list: String::new(),
        }
    }
}

/// The specification a template is stored with: the one sent, or a blank one.
pub fn specification_or_blank(specification: Option<Specification>) -> (res: Specification)
    ensures
        match specification {
            Some(s) => res == s,
            None => is_blank_specification(res),
        },
{
    match specification {
        Some(s) => s,
        None => Specification::new(),
    }
}

/// A template as written to the store.
pub struct Template {
    pub name: String,
    pub description: String,
    pub category: ObjectId,
    pub features: Option<Vec<ObjectId>>,
    pub image: File,
    pub specification: Option<Specification>,
}

/// A template as sent to be created.
pub struct TemplateObject {
    pub name: String,
    pub description: String,
    pub category: String,
    pub features: Option<Vec<String>>,
    pub image: File,
    pub specification: Option<Specification>,
}

/// A template as sent to be changed.
pub struct TemplateObjectWithId {
    pub id: String,
    pub name: String,
    pub description: String,
    pub category: String,
    pub features: Option<Vec<String>>,
    pub image: File,
    pub specification: Option<Specification>,
}

/// A stored template read with its features.
pub struct TemplateReafactorDeserializeModel {
    pub _id: ObjectId,
    pub name: String,
    pub description: String,
    pub category: ObjectId,
    pub features: Option<Vec<FeatureDeserializeModel>>,
    pub image: File,
    pub specification: Option<Specification>,
}

/// A template answered with its features.
pub struct TemplateResponseRefactorModel {
    pub id: String,
    pub name: String,
    pub description: String,
    pub category: String,
    pub features: Option<Vec<FeatureResponseModel>>,
    pub image: File,
    pub specification: Option<Specification>,
}

/// A template answered with the identifiers of its features.
pub struct TemplateResponseModel {
    pub id: String,
    pub name: String,
    pub description: String,
    pub category: String,
    pub features: Option<Vec<String>>,
    pub image: File,
    pub specification: Option<Specification>,
}

pub struct FeatureToAnyModel {
    pub id: String,
    pub features_id: Vec<String>,
}

pub struct CategoiresIds {
    pub categories_id: Vec<String>,
}

/// A stored template with the identifiers of its features.
pub struct TemplateDeserializeModel {
    pub _id: ObjectId,
    pub name: String,
    pub description: String,
    pub category: ObjectId,
    pub features: Option<Vec<ObjectId>>,
    pub image: File,
    pub specification: Option<Specification>,
}

/// Whether `r` is the answer made of the stored template `t` read with its features.
pub open spec fn is_template_response(r: TemplateResponseRefactorModel, t: TemplateReafactorDeserializeModel) -> bool {
    &&& r.id@ == hex_lower(t._id@)
    &&& r.name == t.name
    &&& r.description == t.description
    &&& r.category@ == hex_lower(t.category@)
    &&& r.image == t.image
    &&& r.specification == t.specification
    &&& match (r.features, t.features) {
        (Some(a), Some(b)) => features_answer(a@, b@),
        (None, None) => true,
        _ => false,
    }
}

impl TemplateResponseRefactorModel {
    /// The answer for a stored template read with its features.
    pub fn build_template(template: TemplateReafactorDeserializeModel) -> (res: TemplateResponseRefactorModel)
        ensures
            is_template_response(res, template),
    {
        let features = match template.features {
            Some(fs) => Some(features_response(fs)),
            None => None,
        };
        TemplateResponseRefactorModel {
            id: template._id.to_hex(),
            name: template.name,
            description: template.description,
            category: template.category.to_hex(),
            features,
            image: template.image,
            specification: template.specification,
        }
    }
}

/// Whether `r` is the answer made of the stored template `t`.
pub open spec fn is_template_id_response(r: TemplateResponseModel, t: TemplateDeserializeModel) -> bool {
    &&& r.id@ == hex_lower(t._id@)
    &&& r.name == t.name
    &&& r.description == t.description
    &&& r.category@ == hex_lower(t.category@)
    &&& r.image == t.image
    &&& r.specification == t.specification
    &&& match (r.features, t.features) {
        (Some(a), Some(b)) => ids_written(a@, b@),
        (None, None) => true,
        _ => false,
    }
}

impl TemplateResponseModel {
    /// The answer for a stored template, its feature identifiers written as text.
    pub fn build_template(template: TemplateDeserializeModel) -> (res: TemplateResponseModel)
        ensures
            is_template_id_response(res, template),
    {
        let features = match template.features {
            Some(ids) => Some(hex_ids(ids)),
            None => None,
        };
        TemplateResponseModel {
            id: template._id.to_hex(),
            name: template.name,
            description: template.description,
            category: template.category.to_hex(),
            features,
            image: template.image,
            specification: template.specification,
        }
    }
}

/// Whether the identifiers a template is sent with all read as identifiers.
pub open spec fn template_ids_valid(category: String, features: Option<Vec<String>>) -> bool {
    &&& is_object_id_text(category@)
    &&& match features {
        Some(fs) => all_ids_valid(fs@),
        None => true,
    }
}

/// Whether `t` is the stored form of a template sent with these parts: the
/// category and features read as identifiers (no features when none were
/// sent), and the specification sent or a blank one.
pub open spec fn is_stored_template(
    t: Template,
    name: String,
    description: String,
    category: String,
    features: Option<Vec<String>>,
    image: File,
    specification: Option<Specification>,
) -> bool {
    &&& t.name == name
    &&& t.description == description
    &&& parsed_object_id(category@) == Some(t.category@)
    &&& t.image == image
    &&& match (t.features, features) {
        (Some(ids), Some(fs)) => ids_read(ids@, fs@),
        (Some(ids), None) => ids@.len() == 0,
        _ => false,
    }
    &&& match (t.specification, specification) {
        (Some(s), Some(sent)) => s == sent,
        (Some(s), None) => is_blank_specification(s),
        _ => false,
    }
}

fn stored_template(
    name: String,
    description: String,
    category: String,
    features: Option<Vec<String>>,
    image: File,
    specification: Option<Specification>,
) -> (res: Option<Template>)
    ensures
        match res {
            Some(t) => is_stored_template(t, name, description, category, features, image, specification),
            None => !template_ids_valid(category, features),
        },
{
    let category_id = match ObjectId::parse(category.as_str()) {
        Some(id) => id,
        None => return None,
    };
    let feature_ids = match &features {
        Some(fs) => match parse_ids(fs) {
            Some(ids) => ids,
            None => return None,
        },
        None => Vec::new(),
    };
    Some(Template {
        name,
        description,
        category: category_id,
        features: Some(feature_ids),
        image,
        specification: Some(specification_or_blank(specification)),
    })
}

impl TemplateObject {
    /// The stored form of a template sent to be created; `None` where an
    /// identifier it names is not valid.
    pub fn to_template(self) -> (res: Option<Template>)
        ensures
            match res {
                Some(t) => is_stored_template(t, self.name, self.description, self.category, self.features, self.image, self.specification),
                None => !template_ids_valid(self.category, self.features),
            },
    {
        stored_template(self.name, self.description, self.category, self.features, self.image, self.specification)
    }
}

impl TemplateObjectWithId {
    /// The identifier and stored form of a template sent to be changed; `None`
    /// where an identifier it names is not valid.
    pub fn to_template(self) -> (res: Option<(String, Template)>)
        ensures
            match res {
                Some((id, t)) => id == self.id && is_stored_template(t, self.name, self.description, self.category, self.features, self.image, self.specification),
                None => !template_ids_valid(self.category, self.features),
            },
    {
        match stored_template(self.name, self.description, self.category, self.features, self.image, self.specification) {
            Some(t) => Some((self.id, t)),
            None => None,
        }
    }
}

} // verus!
