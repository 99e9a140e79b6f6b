//! Prototypes and projects of the content builder service, and the conversions
//! between their stored and answered forms.

use vstd::prelude::*;
use crate::builder_content::{
    all_ids_valid, ids_read, parse_ids, is_template_response, TemplateReafactorDeserializeModel,
    TemplateResponseRefactorModel,
};
use crate::builder_schema::{
    features_answer, features_response, is_feature_response, FeatureDeserializeModel,
    FeatureResponseModel, File,
};
use crate::hex::hex_lower;
use crate::object_id::{is_object_id_text, parsed_object_id, ObjectId};

verus! {

/// Which way a link between two features of a prototype goes.
#[derive(Clone, Copy, Debug, PartialEq, Eq, Structural)]
pub struct Relations {
    pub back: bool,
    pub forword: bool,
}

/// A link from a feature of a prototype to another, stored.
pub struct Connections {
    pub to: ObjectId,
    pub releations: Relations,
}

/// A link from a feature of a prototype to another, the target written as text.
pub struct ConnectionsResponseModel {
    pub to: String,
    pub releations: Relations,
}

pub struct ProtoTypeObject {
    pub feature_id: ObjectId,
    pub connections: Vec<Connections>,
}

/// A prototype as written to the store: the links between the features of a template.
pub struct ProtoType {
    pub template_id: ObjectId,
    pub prototype: Vec<ProtoTypeObject>,
}

pub struct ProtoTypeRequestObject {
    pub feature_id: String,
    pub connections: Vec<ConnectionsResponseModel>,
}

/// A prototype as sent to be created or changed.
pub struct ProtoTypeRequest {
    pub template_id: String,
    pub prototype: Vec<ProtoTypeRequestObject>,
}

pub struct ProtoTypeRefactorObject {
    pub feature: FeatureDeserializeModel,
    pub connections: Vec<Connections>,
}

pub struct ProtoTypeObjectResponseModel {
    pub feature: FeatureResponseModel,
    pub connections: Vec<ConnectionsResponseModel>,
}

pub struct ProtoTypeDeserializeModel {
    pub _id: ObjectId,
    pub template_id: ObjectId,
    pub prototype: Vec<ProtoTypeObject>,
}

/// A prototype as answered with, each feature in full.
pub struct ProtoTypeResponseModel {
    pub id: String,
    pub template: String,
    pub prototype: Vec<ProtoTypeObjectResponseModel>,
}

/// A stored prototype read with its features.
pub struct ProtoTypeRefactorDeserializeModel {
    pub _id: ObjectId,
    pub template: ObjectId,
    pub prototype: Vec<ProtoTypeRefactorObject>,
}

/// Whether `r` is the answer for the stored link `c`.
pub open spec fn is_connection_response(r: ConnectionsResponseModel, c: Connections) -> bool {
    r.to@ == hex_lower(c.to@) && r.releations == c.releations
}

/// Whether `rs` answers for the stored links `cs`, one for one, in order.
pub open spec fn connections_answer(rs: Seq<ConnectionsResponseModel>, cs: Seq<Connections>) -> bool {
    &&& rs.len() == cs.len()
    &&& forall|i: int| 0 <= i < cs.len() ==> is_connection_response(#[trigger] rs[i], cs[i])
}

/// Whether `cs` is the stored form of the links `rs`, one for one, in order.
pub open spec fn connections_stored(cs: Seq<Connections>, rs: Seq<ConnectionsResponseModel>) -> bool {
    &&& cs.len() == rs.len()
    &&& forall|i: int|
        0 <= i < rs.len() ==> parsed_object_id(#[trigger] rs[i].to@) == Some(cs[i].to@) && cs[i].releations == rs[i].releations
}

/// Whether every link of `rs` names a valid identifier.
pub open spec fn connection_ids_valid(rs: Seq<ConnectionsResponseModel>) -> bool {
    forall|i: int| 0 <= i < rs.len() ==> is_object_id_text(#[trigger] rs[i].to@)
}

fn connections_response(cs: Vec<Connections>) -> (res: Vec<ConnectionsResponseModel>)
    ensures
        connections_answer(res@, cs@),
{
    let mut out: Vec<ConnectionsResponseModel> = Vec::new();
    for c in iter: cs
        invariant
            out@.len() == iter.index(),
            forall|i: int| 0 <= i < out@.len() ==> is_connection_response(#[trigger] out@[i], iter.seq()[i]),
    {
        out.push(ConnectionsResponseModel { to: c.to.to_hex(), releations: c.releations });
    }
    out
}

fn connections_stored_form(rs: &Vec<ConnectionsResponseModel>) -> (res: Option<Vec<Connections>>)
    ensures
        match res {
            Some(cs) => connection_ids_valid(rs@) && connections_stored(cs@, rs@),
            None => !connection_ids_valid(rs@),
        },
{
    let mut out: Vec<Connections> = Vec::new();
    let mut i: usize = 0;
    while i < rs.len()
        invariant
            i <= rs.len(),
            out@.len() == i,
            forall|j: int|
                0 <= j < i ==> parsed_object_id(#[trigger] rs@[j].to@) == Some(out@[j].to@) && out@[j].releations == rs@[j].releations,
            forall|j: int| 0 <= j < i ==> is_object_id_text(#[trigger] rs@[j].to@),
        decreases rs.len() - i,
    {
        match ObjectId::parse(rs[i].to.as_str()) {
            Some(id) => out.push(Connections { to: id, releations: rs[i].releations }),
            None => return None,
        }
        i = i + 1;
    }
    Some(out)
}

/// Whether `r` is the answer for the stored feature links `o`.
pub open spec fn is_prototype_object_response(r: ProtoTypeObjectResponseModel, o: ProtoTypeRefactorObject) -> bool {
    &&& is_feature_response(r.feature, o.feature)
    &&& connections_answer(r.connections@, o.connections@)
}

/// Whether `r` is the answer made of the stored prototype `p` read with its features.
pub open spec fn is_prototype_response(r: ProtoTypeResponseModel, p: ProtoTypeRefactorDeserializeModel) -> bool {
    &&& r.id@ == hex_lower(p._id@)
    &&& r.template@ == hex_lower(p.template@)
    &&& r.prototype@.len() == p.prototype@.len()
    &&& forall|i: int| 0 <= i < p.prototype@.len() ==> is_prototype_object_response(#[trigger] r.prototype@[i], p.prototype@[i])
}

impl ProtoTypeResponseModel {
    /// The answer for a stored prototype: identifiers written as text, features in full.
    pub fn build_prototype(prototype: ProtoTypeRefactorDeserializeModel) -> (res: ProtoTypeResponseModel)
        ensures
            is_prototype_response(res, prototype),
    {
        let mut objects: Vec<ProtoTypeObjectResponseModel> = Vec::new();
        for o in iter: prototype.prototype
            invariant
                objects@.len() == iter.index(),
                forall|i: int| 0 <= i < objects@.len() ==> is_prototype_object_response(#[trigger] objects@[i], iter.seq()[i]),
        {
            objects.push(ProtoTypeObjectResponseModel {
                feature: FeatureResponseModel::build_feature(o.feature),
                connections: connections_response(o.connections),
            });
        }
        ProtoTypeResponseModel {
            id: prototype._id.to_hex(),
            template: prototype.template.to_hex(),
            prototype: objects,
        }
    }
}

/// Whether the feature and link targets of `o` read as identifiers.
pub open spec fn request_object_valid(o: ProtoTypeRequestObject) -> bool {
    is_object_id_text(o.feature_id@) && connection_ids_valid(o.connections@)
}

/// Whether `s` is the stored form of the feature links `o`.
pub open spec fn is_stored_object(s: ProtoTypeObject, o: ProtoTypeRequestObject) -> bool {
    parsed_object_id(o.feature_id@) == Some(s.feature_id@) && connections_stored(s.connections@, o.connections@)
}

/// Whether every identifier a prototype is sent with reads as an identifier.
pub open spec fn prototype_ids_valid(r: ProtoTypeRequest) -> bool {
    &&& is_object_id_text(r.template_id@)
    &&& forall|i: int| 0 <= i < r.prototype@.len() ==> request_object_valid(#[trigger] r.prototype@[i])
}

/// Whether `p` is the stored form of the prototype `r`: every identifier read from its text.
pub open spec fn is_stored_prototype(p: ProtoType, r: ProtoTypeRequest) -> bool {
    &&& parsed_object_id(r.template_id@) == Some(p.template_id@)
    &&& p.prototype@.len() == r.prototype@.len()
    &&& forall|i: int| 0 <= i < r.prototype@.len() ==> is_stored_object(#[trigger] p.prototype@[i], r.prototype@[i])
}

impl ProtoTypeRequest {
    /// The stored form of a prototype sent to be created or changed; `None`
    /// where an identifier it names is not valid.
    pub fn to_prototype(&self) -> (res: Option<ProtoType>)
        ensures
            match res {
                Some(p) => prototype_ids_valid(*self) && is_stored_prototype(p, *self),
                None => !prototype_ids_valid(*self),
            },
    {
        let template_id = match ObjectId::parse(self.template_id.as_str()) {
            Some(id) => id,
            None => return None,
        };
        let mut objects: Vec<ProtoTypeObject> = Vec::new();
        let mut i: usize = 0;
        while i < self.prototype.len()
            invariant
                i <= self.prototype.len(),
                objects@.len() == i,
                is_object_id_text(self.template_id@),
                parsed_object_id(self.template_id@) == Some(template_id@),
                forall|j: int| 0 <= j < i ==> is_stored_object(#[trigger] objects@[j], self.prototype@[j]),
                forall|j: int| 0 <= j < i ==> request_object_valid(#[trigger] self.prototype@[j]),
            decreases self.prototype.len() - i,
        {
            let object = &self.prototype[i];
            let feature_id = match ObjectId::parse(object.feature_id.as_str()) {
                Some(id) => id,
                None => {
                    assert(!request_object_valid(self.prototype@[i as int]));
                    return None;
                },
            };
            let connections = match connections_stored_form(&object.connections) {
                Some(cs) => cs,
                None => {
                    assert(!request_object_valid(self.prototype@[i as int]));
                    return None;
                },
            };
            objects.push(ProtoTypeObject { feature_id, connections });
            assert(request_object_valid(self.prototype@[i as int]));
            assert(is_stored_object(objects@[i as int], self.prototype@[i as int]));
            i = i + 1;
        }
        Some(ProtoType { template_id, prototype: objects })
    }
}

pub struct Proposal {
    pub devtime: Devtime,
    pub summary: String,
    pub purpose: String,
    pub resources: Vec<Resource>,
}

pub struct PaymentOption {
    pub opt_one: i32,
    pub opt_two: i32,
    pub opt_three: i32,
}

pub struct Devtime {
    pub months: i32,
    pub days: i32,
    pub hours: i32,
}

pub struct Resource {
    pub resource_type: String,
    pub developers: i32,
}

/// What a project delivers: a specification, a build, an MVP and a design.
pub struct Delivrable {
    pub specification: File,
    pub full_build: String,
    pub mvp: File,
    pub design: File,
}

/// A project as written to the store. Its total price is kept as the bit
/// pattern of the IEEE 754 double it is, and is only carried through.
pub struct Project {
    pub client_id: ObjectId,
    pub name: String,
    pub image: File,
    pub platforms: Vec<String>,
    pub template: ObjectId,
    pub features: Vec<ObjectId>,
    pub state: String,
    pub proposal: Option<Proposal>,
    pub payment_option: PaymentOption,
    pub delivrable: Option<Delivrable>,
    pub total_price: u64,
}

/// A stored project read with its template and features.
pub struct ProjectDeserializeModel {
    pub _id: ObjectId,
    pub client_id: ObjectId,
    pub name: String,
    pub image: File,
    pub platforms: Vec<String>,
    pub template: TemplateReafactorDeserializeModel,
    pub features: Vec<FeatureDeserializeModel>,
    pub state: String,
    pub proposal: Option<Proposal>,
    pub payment_option: PaymentOption,
    pub delivrable: Option<Delivrable>,
    pub total_price: u64,
}

/// A project as sent to be created.
pub struct ProjectRequestModel {
    pub client_id: String,
    pub name: String,
    pub image: File,
    pub platforms: Vec<String>,
    pub template: String,
    pub features: Vec<String>,
    pub state: String,
    pub proposal: Option<Proposal>,
    pub payment_option: PaymentOption,
    pub delivrable: Option<Delivrable>,
    pub total_price: u64,
}

pub struct ProjectUpdateModel {
    pub id: String,
    pub name: String,
    pub image: File,
}

pub struct ProjectState {
    pub id: String,
    pub state: String,
}

pub struct ProjectProposal {
    pub id: String,
    pub proposal: Proposal,
}

/// A project as answered with, its template and features in full.
pub struct ProjectResponseModel {
    pub id: String,
    pub client_id: String,
    pub name: String,
    pub image: File,
    pub platforms: Vec<String>,
    pub template: TemplateResponseRefactorModel,
    pub features: Vec<FeatureResponseModel>,
    pub state: String,
    pub proposal: Option<Proposal>,
    pub payment_option: PaymentOption,
    pub delivrable: Option<Delivrable>,
    pub total_price: u64,
}

/// Whether `r` is the answer made of the stored project `p`.
pub open spec fn is_project_response(r: ProjectResponseModel, p: ProjectDeserializeModel) -> bool {
    &&& r.id@ == hex_lower(p._id@)
    &&& r.client_id@ == hex_lower(p.client_id@)
    &&& r.name == p.name
    &&& r.image == p.image
    &&& r.platforms == p.platforms
    &&& is_template_response(r.template, p.template)
    &&& features_answer(r.features@, p.features@)
    &&& r.state == p.state
    &&& r.proposal == p.proposal
    &&& r.payment_option == p.payment_option
    &&& r.delivrable == p.delivrable
    &&& r.total_price == p.total_price
}

impl ProjectResponseModel {
    /// The answer for a stored project.
    pub fn build_project(project: ProjectDeserializeModel) -> (res: ProjectResponseModel)
        ensures
            is_project_response(res, project),
    {
        ProjectResponseModel {
            id: project._id.to_hex(),
            client_id: project.client_id.to_hex(),
            name: project.name,
            image: project.image,
            platforms: project.platforms,
            template: TemplateResponseRefactorModel::build_template(project.template),
            features: features_response(project.features),
            state: project.state,
            proposal: project.proposal,
            payment_option: project.payment_option,
            delivrable: project.delivrable,
            total_price: project.total_price,
        }
    }
}

/// Whether every identifier a project is sent with reads as an identifier.
pub open spec fn project_ids_valid(r: ProjectRequestModel) -> bool {
    &&& is_object_id_text(r.client_id@)
    &&& is_object_id_text(r.template@)
    &&& all_ids_valid(r.features@)
}

/// Whether `p` is the stored form of the project `r`: identifiers read from their text.
pub open spec fn is_stored_project(p: Project, r: ProjectRequestModel) -> bool {
    &&& parsed_object_id(r.client_id@) == Some(p.client_id@)
    &&& parsed_object_id(r.template@) == Some(p.template@)
    &&& ids_read(p.features@, r.features@)
    &&& p.name == r.name
    &&& p.image == r.image
    &&& p.platforms == r.platforms
    &&& p.state == r.state
    &&& p.proposal == r.proposal
    &&& p.payment_option == r.payment_option
    &&& p.delivrable == r.delivrable
    &&& p.total_price == r.total_price
}

impl ProjectRequestModel {
    /// The stored form of a project sent to be created; `None` where an
    /// identifier it names is not valid.
    pub fn to_project(self) -> (res: Option<Project>)
        ensures
            match res {
                Some(p) => project_ids_valid(self) && is_stored_project(p, self),
                None => !project_ids_valid(self),
            },
    {
        let client_id = match ObjectId::parse(self.client_id.as_str()) {
            Some(id) => id,
            None => return None,
        };
        let template = match ObjectId::parse(self.template.as_str()) {
            Some(id) => id,
            None => return None,
        };
        let features = match parse_ids(&self.features) {
            Some(ids) => ids,
            None => return None,
        };
        Some(Project {
            client_id,
            name: self.name,
            image: self.image,
            platforms: self.platforms,
            template,
            features,
            state: self.state,
            proposal: self.proposal,
            payment_option: self.payment_option,
            delivrable: self.delivrable,
            total_price: self.total_price,
        })
    }
}

/// The record of a payment.
pub struct TransactionResult {
    pub trans_id: String,
    pub amount: u64,
    pub created: i64,
    pub status: String,
}

} // verus!
