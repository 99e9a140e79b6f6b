//! The projects the gateway sends to the content builder service.

use vstd::prelude::*;
use crate::gateway_content::{is_file_of, File, InputFile};

verus! {

/// A project as a client gives it. Its total price is kept as the bit pattern
/// of the IEEE 754 double it is, and is only carried through.
pub struct ProjectInput {
    pub client_id: String,
    pub name: String,
    pub image: InputFile,
    pub platforms: Vec<String>,
    pub template: String,
    pub features: Vec<String>,
    pub payment_option: PaymentOptionInput,
    pub delivrable: Option<DelivrableInput>,
    pub total_price: u64,
}

/// A project to create.
pub struct Project {
    pub client_id: String,
    pub name: String,
    pub image: File,
    pub platforms: Vec<String>,
    pub template: String,
    pub features: Vec<String>,
    pub state: String,
    pub proposal: Option<ProposalOutput>,
    pub payment_option: PaymentOptionOutput,
    pub delivrable: Option<DelivrableOutput>,
    pub total_price: u64,
}

pub struct ProjectUpdateModel {
    pub id: String,
    pub name: String,
    pub image: File,
}

pub struct ProjectState {
    pub id: String,
    pub state: String,
}

/// The state of a project.
#[derive(Clone, Copy, Debug, PartialEq, Eq, Structural)]
pub enum State {
    Approved,
    Declined,
    OnReview,
    Archived,
}

pub struct ProjectFullBuild {
    pub id: String,
    pub url: String,
}

pub struct ProjectProposal {
    pub id: String,
    pub proposal: ProposalOutput,
}

pub struct ProposalOutput {
    pub devtime: DevtimeOutput,
    pub summary: String,
    pub purpose: String,
    pub resources: Vec<ResourceOutput>,
}

pub struct ProposalInput {
    pub devtime: DevtimeInput,
    pub summary: String,
    pub purpose: String,
    pub resources: Vec<ResourceInput>,
}

pub struct PaymentOptionInput {
    pub opt_one: i32,
    pub opt_two: i32,
    pub opt_three: i32,
}

pub struct PaymentOptionOutput {
    pub opt_one: i32,
    pub opt_two: i32,
    pub opt_three: i32,
}

pub struct DevtimeOutput {
    pub months: i32,
    pub days: i32,
    pub hours: i32,
}

pub struct DevtimeInput {
    pub months: i32,
    pub days: i32,
    pub hours: i32,
}

pub struct ResourceOutput {
    pub resource_type: String,
    pub developers: i32,
}

pub struct ResourceInput {
    pub resource_type: String,
    pub developers: i32,
}

pub struct DelivrableOutput {
    pub specification: File,
    pub full_build: String,
    pub mvp: File,
    pub design: File,
}

/// Which deliverables a client asks for.
pub struct DelivrableInput {
    pub specification: bool,
    pub full_build: bool,
    pub mvp: bool,
    pub design: bool,
}

pub struct ProjectFileInput {
    pub id: String,
    pub name: String,
    pub src: String,
}

pub struct ProjectFile {
    pub id: String,
    pub name: String,
    pub src: String,
}

pub struct ProjectFullBuildInput {
    pub id: String,
    pub url: String,
}

/// Whether `f` is a file with empty name and source.
pub open spec fn is_empty_file(f: File) -> bool {
    f.name@.len() == 0 && f.src@.len() == 0
}

fn empty_file() -> (res: File)
    ensures
        is_empty_file(res),
{
    File { name: String::new(), src: String::new() }
}

/// The project to create, as sent: on review, with an empty proposal (no time,
/// no text, no resources) and empty deliverables; the deliverables asked for
/// are not passed on.
pub fn project_creation(project: ProjectInput) -> (res: Project)
    ensures
        res.client_id == project.client_id,
        res.name == project.name,
        is_file_of(res.image, project.image),
        res.platforms == project.platforms,
        res.template == project.template,
        res.features == project.features,
        res.state@ == "OnReview"@,
        res.proposal matches Some(p) && p.devtime.months == 0 && p.devtime.days == 0 && p.devtime.hours == 0
            && p.summary@.len() == 0 && p.purpose@.len() == 0 && p.resources@.len() == 0,
        res.payment_option.opt_one == project.payment_option.opt_one,
        res.payment_option.opt_two == project.payment_option.opt_two,
        res.payment_option.opt_three == project.payment_option.opt_three,
        res.delivrable matches Some(d) && is_empty_file(d.specification) && d.full_build@.len() == 0
            && is_empty_file(d.mvp) && is_empty_file(d.design),
        res.total_price == project.total_price,
{
    Project {
        client_id: project.client_id,
        name: project.name,
        image: File { name: project.image.name, src: project.image.src },
        platforms: project.platforms,
        template: project.template,
        features: project.features,
        state: "OnReview".to_owned(),
        proposal: Some(ProposalOutput {
            devtime: DevtimeOutput { months: 0, days: 0, hours: 0 },
            summary: String::new(),
            purpose: String::new(),
            resources: Vec::new(),
        }),
        payment_option: PaymentOptionOutput {
            opt_one: project.payment_option.opt_one,
            opt_two: project.payment_option.opt_two,
            opt_three: project.payment_option.opt_three,
        },
        delivrable: Some(DelivrableOutput {
            specification: empty_file(),
            full_build: String::new(),
            mvp: empty_file(),
            design: empty_file(),
        }),
        total_price: project.total_price,
    }
}

/// The name a state is sent with.
pub open spec fn state_name(state: State) -> Seq<char> {
    match state {
        State::Approved => "Approved"@,
        State::Declined => "Declined"@,
        State::OnReview => "OnReview"@,
        State::Archived => "Archived"@,
    }
}

/// The new state of the project `id`, as sent.
pub fn project_state_change(id: String, state: State) -> (res: ProjectState)
    ensures
        res.id == id,
        res.state@ == state_name(state),
{
    let name = match state {
        State::Approved => "Approved",
        State::Declined => "Declined",
        State::OnReview => "OnReview",
        State::Archived => "Archived",
    };
    ProjectState { id, state: name.to_owned() }
}

/// The new name and image of the project `id`, as sent.
pub fn project_rename(id: String, name: String, image: InputFile) -> (res: ProjectUpdateModel)
    ensures
        res.id == id,
        res.name == name,
        is_file_of(res.image, image),
{
    ProjectUpdateModel { id, name, image: File { name: image.name, src: image.src } }
}

/// Whether the proposal `o` sent holds the proposal `i` given.
pub open spec fn is_proposal_of(o: ProposalOutput, i: ProposalInput) -> bool {
    &&& o.devtime.months == i.devtime.months
    &&& o.devtime.days == i.devtime.days
    &&& o.devtime.hours == i.devtime.hours
    &&& o.summary == i.summary
    &&& o.purpose == i.purpose
    &&& o.resources@.len() == i.resources@.len()
    &&& forall|k: int| 0 <= k < i.resources@.len() ==> #[trigger] o.resources@[k].resource_type == i.resources@[k].resource_type
        && o.resources@[k].developers == i.resources@[k].developers
}

/// The proposal for the project `id`, as sent.
pub fn proposal_addition(id: String, proposal: ProposalInput) -> (res: ProjectProposal)
    ensures
        res.id == id,
        is_proposal_of(res.proposal, proposal),
{
    let mut resources: Vec<ResourceOutput> = Vec::new();
    for r in iter: proposal.resources
        invariant
            resources@.len() == iter.index(),
            forall|k: int| 0 <= k < resources@.len() ==> #[trigger] resources@[k].resource_type == iter.seq()[k].resource_type
                && resources@[k].developers == iter.seq()[k].developers,
    {
        resources.push(ResourceOutput { resource_type: r.resource_type, developers: r.developers });
    }
    ProjectProposal {
        id,
        proposal: ProposalOutput {
            devtime: DevtimeOutput {
                months: proposal.devtime.months,
                days: proposal.devtime.days,
                hours: proposal.devtime.hours,
            },
            summary: proposal.summary,
            purpose: proposal.purpose,
            resources,
        },
    }
}

/// An MVP or design file for a project, as sent.
pub fn project_file(file: ProjectFileInput) -> (res: ProjectFile)
    ensures
        res.id == file.id,
        res.name == file.name,
        res.src == file.src,
{
    ProjectFile { id: file.id, name: file.name, src: file.src }
}

/// The address of a project's build, as sent.
pub fn project_full_build(build: ProjectFullBuildInput) -> (res: ProjectFullBuild)
    ensures
        res.id == build.id,
        res.url == build.url,
{
    ProjectFullBuild { id: build.id, url: build.url }
}

} // verus!
