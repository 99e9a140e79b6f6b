//! The requirements specification the gateway sends with a template.

use vstd::prelude::*;

verus! {

/// A requirements specification, as sent to the content builder.
pub struct SpecificationOutput {
    pub introduction: IntroductionOutput,
    pub overall_description: OverallDescriptionOutput,
    pub non_functional_requirements: NonFunctionalRequirementsOutput,
    pub other_requirements: String,
    pub glossary: String,
    pub analysis_models: String,
    pub issues_list: String,
}

pub struct IntroductionOutput {
    pub purpose: String,
    pub document_conventions: String,
    pub intended_audience: String,
    pub project_scope: String,
}

pub struct OverallDescriptionOutput {
    pub perspective: String,
    pub user_characteristics: String,
    pub operating_environment: String,
    pub design_implementation_constraints: String,
    pub user_documentation: String,
    pub assemptions_dependencies: String,
}

pub struct NonFunctionalRequirementsOutput {
    pub performance_requirements: String,
    pub safety_requirements: String,
    pub security_requirements: String,
    pub software_quality_attributes: String,
}

/// A requirements specification, as a client gives it.
pub struct SpecificationInput {
    pub introduction: IntroductionInput,
    pub overall_description: OverallDescriptionInput,
    pub non_functional_requirements: NonFunctionalRequirementsInput,
    pub other_requirements: String,
    pub glossary: String,
    pub analysis_models: String,
    pub issues_list: String,
}

pub struct IntroductionInput {
    pub purpose: String,
    pub document_conventions: String,
    pub intended_audience: String,
    pub project_scope: String,
}

pub struct OverallDescriptionInput {
    pub perspective: String,
    pub user_characteristics: String,
    pub operating_environment: String,
    pub design_implementation_constraints: String,
    pub user_documentation: String,
    pub assemptions_dependencies: String,
}

pub struct NonFunctionalRequirementsInput {
    pub performance_requirements: String,
    pub safety_requirements: String,
    pub security_requirements: String,
    pub software_quality_attributes: String,
}

/// Whether the specification `o` holds the same text, part for part, as `i`.
pub open spec fn is_specification_of(o: SpecificationOutput, i: SpecificationInput) -> bool {
    &&& o.introduction.purpose == i.introduction.purpose
    &&& o.introduction.document_conventions == i.introduction.document_conventions
    &&& o.introduction.intended_audience == i.introduction.intended_audience
    &&& o.introduction.project_scope == i.introduction.project_scope
    &&& o.overall_description.perspective == i.overall_description.perspective
    &&& o.overall_description.user_characteristics == i.overall_description.user_characteristics
    &&& o.overall_description.operating_environment == i.overall_description.operating_environment
    &&& o.overall_description.design_implementation_constraints == i.overall_description.design_implementation_constraints
    &&& o.overall_description.user_documentation == i.overall_description.user_documentation
    &&& o.overall_description.assemptions_dependencies == i.overall_description.assemptions_dependencies
    &&& o.non_functional_requirements.performance_requirements == i.non_functional_requirements.performance_requirements
    &&& o.non_functional_requirements.safety_requirements == i.non_functional_requirements.safety_requirements
    &&& o.non_functional_requirements.security_requirements == i.non_functional_requirements.security_requirements
    &&& o.non_functional_requirements.software_quality_attributes == i.non_functional_requirements.software_quality_attributes
    &&& o.other_requirements == i.other_requirements
    &&& o.glossary == i.glossary
    &&& o.analysis_models == i.analysis_models
    &&& o.issues_list == i.issues_list
}

/// Whether every part of the specification `o` is empty text.
pub open spec fn is_blank_specification_output(o: SpecificationOutput) -> bool {
    &&& o.introduction.purpose@.len() == 0
    &&& o.introduction.document_conventions@.len() == 0
    &&& o.introduction.intended_audience@.len() == 0
    &&& o.introduction.project_scope@.len() == 0
    &&& o.overall_description.perspective@.len() == 0
    &&& o.overall_description.user_characteristics@.len() == 0
    &&& o.overall_description.operating_environment@.len() == 0
    &&& o.overall_description.design_implementation_constraints@.len() == 0
    &&& o.overall_description.user_documentation@.len() == 0
    &&& o.overall_description.assemptions_dependencies@.len() == 0
    &&& o.non_functional_requirements.performance_requirements@.len() == 0
    &&& o.non_functional_requirements.safety_requirements@.len() == 0
    &&& o.non_functional_requirements.security_requirements@.len() == 0
    &&& o.non_functional_requirements.software_quality_attributes@.len() == 0
    &&& o.other_requirements@.len() == 0
    &&& o.glossary@.len() == 0
    &&& o.analysis_models@.len() == 0
    &&& o.issues_list@.len() == 0
}

impl SpecificationOutput {
    /// The specification to send for the one a client gave.
    pub fn build(specification: SpecificationInput) -> (res: SpecificationOutput)
        ensures
            is_specification_of(res, specification),
    {
        SpecificationOutput {
            introduction: IntroductionOutput {
                purpose: specification.introduction.purpose,
                document_conventions: specification.introduction.document_conventions,
                intended_audience: specification.introduction.intended_audience,
                project_scope: specification.introduction.project_scope,
            },
            overall_description: OverallDescriptionOutput {
                perspective: specification.overall_description.perspective,
                user_characteristics: specification.overall_description.user_characteristics,
                operating_environment: specification.overall_description.operating_environment,
                design_implementation_constraints: specification.overall_description.design_implementation_constraints,
                user_documentation: specification.overall_description.user_documentation,
                assemptions_dependencies: specification.overall_description.assemptions_dependencies,
            },
            non_functional_requirements: NonFunctionalRequirementsOutput {
                performance_requirements: specification.non_functional_requirements.performance_requirements,
                safety_requirements: specification.non_functional_requirements.safety_requirements,
                security_requirements: specification.non_functional_requirements.security_requirements,
                software_quality_attributes: specification.non_functional_requirements.software_quality_attributes,
            },
            other_requirements: specification.other_requirements,
            glossary: specification.glossary,
            analysis_models: specification.analysis_models,
            issues_list: specification.issues_list,
        }
    }

    /// A specification with every part empty.
    pub fn new() -> (res: SpecificationOutput)
        ensures
            is_blank_specification_output(res),
    {
        SpecificationOutput {
            introduction: IntroductionOutput {
                purpose: String::new(),
                document_conventions: String::new(),
                intended_audience: String::new(),
                project_scope: String::new(),
            },
            overall_description: OverallDescriptionOutput {
                perspective: String::new(),
                user_characteristics: String::new(),
                operating_environment: String::new(),
                design_implementation_constraints: String::new(),
                user_documentation: String::new(),
                assemptions_dependencies: String::new(),
            },
            non_functional_requirements: NonFunctionalRequirementsOutput {
                performance_requirements: String::new(),
                safety_requirements: String::new(),
                security_requirements: String::new(),
                software_quality_attributes: String::new(),
            },
            other_requirements: String::new(),
            glossary: String::new(),
            analysis_models: String::new(),
            issues_list: String::new(),
        }
    }
}

/// The specification a template is sent with: the one given, or a blank one.
pub fn specification_or_blank(specification: Option<SpecificationInput>) -> (res: SpecificationOutput)
    ensures
        match specification {
            Some(s) => is_specification_of(res, s),
            None => is_blank_specification_output(res),
        },
{
    match specification {
        Some(s) => SpecificationOutput::build(s),
        None => SpecificationOutput::new(),
    }
}

/// The text fields of the form that adds a specification to the template `id`,
/// name and value, in the order they are sent.
pub open spec fn specification_form_fields(s: SpecificationInput, id: String) -> Seq<(Seq<char>, Seq<char>)> {
    Seq::empty()
        .push(("purpose"@, s.introduction.purpose@))
        .push(("document_conventions"@, s.introduction.document_conventions@))
        .push(("intended_audience"@, s.introduction.intended_audience@))
        .push(("project_scope"@, s.introduction.project_scope@))
        .push(("perspective"@, s.overall_description.perspective@))
        .push(("user_characteristics"@, s.overall_description.user_characteristics@))
        .push(("operating_environment"@, s.overall_description.operating_environment@))
        .push(("design_implementation_constraints"@, s.overall_description.design_implementation_constraints@))
        .push(("user_documentation"@, s.overall_description.user_documentation@))
        .push(("assemptions_dependencies"@, s.overall_description.assemptions_dependencies@))
        .push(("performance_requirements"@, s.non_functional_requirements.performance_requirements@))
        .push(("safety_requirements"@, s.non_functional_requirements.safety_requirements@))
        .push(("security_requirements"@, s.non_functional_requirements.security_requirements@))
        .push(("software_quality_attributes"@, s.non_functional_requirements.software_quality_attributes@))
        .push(("other_requirements"@, s.other_requirements@))
        .push(("glossary"@, s.glossary@))
        .push(("analysis_models"@, s.analysis_models@))
        .push(("issues_list"@, s.issues_list@))
        .push(("id"@, id@))
}

/// The view of a form: each field's name and value as text.
pub open spec fn form_view(form: Seq<(String, String)>) -> Seq<(Seq<char>, Seq<char>)> {
    form.map_values(|f: (String, String)| (f.0@, f.1@))
}

/// The multipart form that adds the specification `s` to the template `id`.
pub fn specification_form(id: String, s: SpecificationInput) -> (res: Vec<(String, String)>)
    ensures
        form_view(res@) == specification_form_fields(s, id),
{
    let ghost s0 = s;
    let ghost id0 = id;
    let mut form: Vec<(String, String)> = Vec::new();
    form.push(("purpose".to_owned(), s.introduction.purpose));
    form.push(("document_conventions".to_owned(), s.introduction.document_conventions));
    form.push(("intended_audience".to_owned(), s.introduction.intended_audience));
    form.push(("project_scope".to_owned(), s.introduction.project_scope));
    form.push(("perspective".to_owned(), s.overall_description.perspective));
    form.push(("user_characteristics".to_owned(), s.overall_description.user_characteristics));
    form.push(("operating_environment".to_owned(), s.overall_description.operating_environment));
    form.push(("design_implementation_constraints".to_owned(), s.overall_description.design_implementation_constraints));
    form.push(("user_documentation".to_owned(), s.overall_description.user_documentation));
    form.push(("assemptions_dependencies".to_owned(), s.overall_description.assemptions_dependencies));
    form.push(("performance_requirements".to_owned(), s.non_functional_requirements.performance_requirements));
    form.push(("safety_requirements".to_owned(), s.non_functional_requirements.safety_requirements));
    form.push(("security_requirements".to_owned(), s.non_functional_requirements.security_requirements));
    form.push(("software_quality_attributes".to_owned(), s.non_functional_requirements.software_quality_attributes));
    form.push(("other_requirements".to_owned(), s.other_requirements));
    form.push(("glossary".to_owned(), s.glossary));
    form.push(("analysis_models".to_owned(), s.analysis_models));
    form.push(("issues_list".to_owned(), s.issues_list));
    form.push(("id".to_owned(), id));
    assert(form_view(form@) =~= specification_form_fields(s0, id0));
    form
}

} // verus!
