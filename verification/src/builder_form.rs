//! Reading the text fields of the multipart form that adds a specification to
//! a template.

use vstd::prelude::*;
use crate::builder_content::{Introduction, NonFunctionalRequirements, OverallDescription, Specification};
use crate::gateway_specification::{form_view, specification_form_fields, SpecificationInput};
use crate::text::text_eq;

verus! {

/// The value a form gives the field `name`: that of the last field so named,
/// as a map built from the fields in order keeps it.
pub open spec fn form_field(fields: Seq<(Seq<char>, Seq<char>)>, name: Seq<char>) -> Option<Seq<char>>
    decreases fields.len(),
{
    if fields.len() == 0 {
        None
    } else if fields.last().0 == name {
        Some(fields.last().1)
    } else {
        form_field(fields.drop_last(), name)
    }
}

/// The value of the field `name`: that of the last field so named.
pub fn form_value(fields: &Vec<(String, String)>, name: &str) -> (res: Option<String>)
    ensures
        match res {
            Some(v) => form_field(form_view(fields@), name@) == Some(v@),
            None => form_field(form_view(fields@), name@) is None,
        },
{
    let mut i: usize = fields.len();
    assert(fields@.take(i as int) =~= fields@);
    while i > 0
        invariant
            i <= fields.len(),
            form_field(form_view(fields@), name@) == form_field(form_view(fields@.take(i as int)), name@),
        decreases i,
    {
        let ghost prefix = form_view(fields@.take(i as int));
        assert(prefix.last() == (fields@[i - 1].0@, fields@[i - 1].1@));
        assert(prefix.drop_last() =~= form_view(fields@.take(i - 1)));
        if text_eq(fields[i - 1].0.as_str(), name) {
            return Some(fields[i - 1].1.clone());
        }
        i = i - 1;
    }
    assert(form_view(fields@.take(0)) =~= Seq::<(Seq<char>, Seq<char>)>::empty());
    None
}

/// The template identifier and the specification that a form holds; `None`
/// where one of the fields is missing.
pub fn specification_from_form(fields: &Vec<(String, String)>) -> (res: Option<(String, Specification)>)
    ensures
        match res {
            Some((id, s)) => {
                &&& form_field(form_view(fields@), "id"@) == Some(id@)
                &&& form_field(form_view(fields@), "purpose"@) == Some(s.introduction.purpose@)
                &&& form_field(form_view(fields@), "document_conventions"@) == Some(s.introduction.document_conventions@)
                &&& form_field(form_view(fields@), "intended_audience"@) == Some(s.introduction.intended_audience@)
                &&& form_field(form_view(fields@), "project_scope"@) == Some(s.introduction.project_scope@)
                &&& form_field(form_view(fields@), "perspective"@) == Some(s.overall_description.perspective@)
                &&& form_field(form_view(fields@), "user_characteristics"@) == Some(s.overall_description.user_characteristics@)
                &&& form_field(form_view(fields@), "operating_environment"@) == Some(s.overall_description.operating_environment@)
                &&& form_field(form_view(fields@), "design_implementation_constraints"@) == Some(s.overall_description.design_implementation_constraints@)
                &&& form_field(form_view(fields@), "user_documentation"@) == Some(s.overall_description.user_documentation@)
                &&& form_field(form_view(fields@), "assemptions_dependencies"@) == Some(s.overall_description.assemptions_dependencies@)
                &&& form_field(form_view(fields@), "performance_requirements"@) == Some(s.non_functional_requirements.performance_requirements@)
                &&& form_field(form_view(fields@), "safety_requirements"@) == Some(s.non_functional_requirements.safety_requirements@)
                &&& form_field(form_view(fields@), "security_requirements"@) == Some(s.non_functional_requirements.security_requirements@)
                &&& form_field(form_view(fields@), "software_quality_attributes"@) == Some(s.non_functional_requirements.software_quality_attributes@)
                &&& form_field(form_view(fields@), "other_requirements"@) == Some(s.other_requirements@)
                &&& form_field(form_view(fields@), "glossary"@) == Some(s.glossary@)
                &&& form_field(form_view(fields@), "analysis_models"@) == Some(s.analysis_models@)
                &&& form_field(form_view(fields@), "issues_list"@) == Some(s.issues_list@)
            },
            None => form_field(form_view(fields@), "purpose"@) is None || form_field(form_view(fields@), "document_conventions"@) is None || form_field(form_view(fields@), "intended_audience"@) is None || form_field(form_view(fields@), "project_scope"@) is None || form_field(form_view(fields@), "perspective"@) is None || form_field(form_view(fields@), "user_characteristics"@) is None || form_field(form_view(fields@), "operating_environment"@) is None || form_field(form_view(fields@), "design_implementation_constraints"@) is None || form_field(form_view(fields@), "user_documentation"@) is None || form_field(form_view(fields@), "assemptions_dependencies"@) is None || form_field(form_view(fields@), "performance_requirements"@) is None || form_field(form_view(fields@), "safety_requirements"@) is None || form_field(form_view(fields@), "security_requirements"@) is None || form_field(form_view(fields@), "software_quality_attributes"@) is None || form_field(form_view(fields@), "other_requirements"@) is None || form_field(form_view(fields@), "glossary"@) is None || form_field(form_view(fields@), "analysis_models"@) is None || form_field(form_view(fields@), "issues_list"@) is None || form_field(form_view(fields@), "id"@) is None,
        },
{
    let purpose = match form_value(fields, "purpose") {
        Some(v) => v,
        None => return None,
    };
    let document_conventions = match form_value(fields, "document_conventions") {
        Some(v) => v,
        None => return None,
    };
    let intended_audience = match form_value(fields, "intended_audience") {
        Some(v) => v,
        None => return None,
    };
    let project_scope = match form_value(fields, "project_scope") {
        Some(v) => v,
        None => return None,
    };
    let perspective = match form_value(fields, "perspective") {
        Some(v) => v,
        None => return None,
    };
    let user_characteristics = match form_value(fields, "user_characteristics") {
        Some(v) => v,
        None => return None,
    };
    let operating_environment = match form_value(fields, "operating_environment") {
        Some(v) => v,
        None => return None,
    };
    let design_implementation_constraints = match form_value(fields, "design_implementation_constraints") {
        Some(v) => v,
        None => return None,
    };
    let user_documentation = match form_value(fields, "user_documentation") {
        Some(v) => v,
        None => return None,
    };
    let assemptions_dependencies = match form_value(fields, "assemptions_dependencies") {
        Some(v) => v,
        None => return None,
    };
    let performance_requirements = match form_value(fields, "performance_requirements") {
        Some(v) => v,
        None => return None,
    };
    let safety_requirements = match form_value(fields, "safety_requirements") {
        Some(v) => v,
        None => return None,
    };
    let security_requirements = match form_value(fields, "security_requirements") {
        Some(v) => v,
        None => return None,
    };
    let software_quality_attributes = match form_value(fields, "software_quality_attributes") {
        Some(v) => v,
        None => return None,
    };
    let other_requirements = match form_value(fields, "other_requirements") {
        Some(v) => v,
        None => return None,
    };
    let glossary = match form_value(fields, "glossary") {
        Some(v) => v,
        None => return None,
    };
    let analysis_models = match form_value(fields, "analysis_models") {
        Some(v) => v,
        None => return None,
    };
    let issues_list = match form_value(fields, "issues_list") {
        Some(v) => v,
        None => return None,
    };
    let id = match form_value(fields, "id") {
        Some(v) => v,
        None => return None,
    };
    Some((id, Specification {
        introduction: Introduction { purpose, document_conventions, intended_audience, project_scope },
        overall_description: OverallDescription {
            perspective,
            user_characteristics,
            operating_environment,
            design_implementation_constraints,
            user_documentation,
            assemptions_dependencies,
        },
        non_functional_requirements: NonFunctionalRequirements {
            performance_requirements,
            safety_requirements,
            security_requirements,
            software_quality_attributes,
        },
        other_requirements,
        glossary,
        analysis_models,
        issues_list,
    }))
}

} // verus!

verus! {

/// Reading a field after one more was added: the new field where it has the
/// name, otherwise what the form held before.
pub broadcast proof fn lemma_form_field_push(fields: Seq<(Seq<char>, Seq<char>)>, field: (Seq<char>, Seq<char>), name: Seq<char>)
    ensures
        #[trigger] form_field(fields.push(field), name) == if field.0 == name {
            Some(field.1)
        } else {
            form_field(fields, name)
        },
{
    assert(fields.push(field).drop_last() =~= fields);
}

/// The form the gateway sends to add a specification to a template reads back,
/// field by field, as that specification and that template.
pub proof fn lemma_specification_form_roundtrip(s: SpecificationInput, id: String)
    ensures
        form_field(specification_form_fields(s, id), "purpose"@) == Some(s.introduction.purpose@),
        form_field(specification_form_fields(s, id), "document_conventions"@) == Some(s.introduction.document_conventions@),
        form_field(specification_form_fields(s, id), "intended_audience"@) == Some(s.introduction.intended_audience@),
        form_field(specification_form_fields(s, id), "project_scope"@) == Some(s.introduction.project_scope@),
        form_field(specification_form_fields(s, id), "perspective"@) == Some(s.overall_description.perspective@),
        form_field(specification_form_fields(s, id), "user_characteristics"@) == Some(s.overall_description.user_characteristics@),
        form_field(specification_form_fields(s, id), "operating_environment"@) == Some(s.overall_description.operating_environment@),
        form_field(specification_form_fields(s, id), "design_implementation_constraints"@) == Some(s.overall_description.design_implementation_constraints@),
        form_field(specification_form_fields(s, id), "user_documentation"@) == Some(s.overall_description.user_documentation@),
        form_field(specification_form_fields(s, id), "assemptions_dependencies"@) == Some(s.overall_description.assemptions_dependencies@),
        form_field(specification_form_fields(s, id), "performance_requirements"@) == Some(s.non_functional_requirements.performance_requirements@),
        form_field(specification_form_fields(s, id), "safety_requirements"@) == Some(s.non_functional_requirements.safety_requirements@),
        form_field(specification_form_fields(s, id), "security_requirements"@) == Some(s.non_functional_requirements.security_requirements@),
        form_field(specification_form_fields(s, id), "software_quality_attributes"@) == Some(s.non_functional_requirements.software_quality_attributes@),
        form_field(specification_form_fields(s, id), "other_requirements"@) == Some(s.other_requirements@),
        form_field(specification_form_fields(s, id), "glossary"@) == Some(s.glossary@),
        form_field(specification_form_fields(s, id), "analysis_models"@) == Some(s.analysis_models@),
        form_field(specification_form_fields(s, id), "issues_list"@) == Some(s.issues_list@),
        form_field(specification_form_fields(s, id), "id"@) == Some(id@),
{
    broadcast use lemma_form_field_push;
    reveal_strlit("purpose");
    reveal_strlit("document_conventions");
    reveal_strlit("intended_audience");
    reveal_strlit("project_scope");
    reveal_strlit("perspective");
    reveal_strlit("user_characteristics");
    reveal_strlit("operating_environment");
    reveal_strlit("design_implementation_constraints");
    reveal_strlit("user_documentation");
    reveal_strlit("assemptions_dependencies");
    reveal_strlit("performance_requirements");
    reveal_strlit("safety_requirements");
    reveal_strlit("security_requirements");
    reveal_strlit("software_quality_attributes");
    reveal_strlit("other_requirements");
    reveal_strlit("glossary");
    reveal_strlit("analysis_models");
    reveal_strlit("issues_list");
    reveal_strlit("id");
    assert("purpose"@.len() == 7);
    assert("document_conventions"@.len() == 20);
    assert("intended_audience"@.len() == 17);
    assert("project_scope"@.len() == 13);
    assert("perspective"@.len() == 11);
    assert("user_characteristics"@.len() == 20);
    assert("operating_environment"@.len() == 21);
    assert("design_implementation_constraints"@.len() == 33);
    assert("user_documentation"@.len() == 18);
    assert("assemptions_dependencies"@.len() == 24);
    assert("performance_requirements"@.len() == 24);
    assert("safety_requirements"@.len() == 19);
    assert("security_requirements"@.len() == 21);
    assert("software_quality_attributes"@.len() == 27);
    assert("other_requirements"@.len() == 18);
    assert("glossary"@.len() == 8);
    assert("analysis_models"@.len() == 15);
    assert("issues_list"@.len() == 11);
    assert("id"@.len() == 2);
    assert("document_conventions"@[0] == 'd');
    assert("user_characteristics"@[0] == 'u');
    assert("operating_environment"@[0] == 'o');
    assert("security_requirements"@[0] == 's');
    assert("user_documentation"@[0] == 'u');
    assert("other_requirements"@[0] == 'o');
    assert("assemptions_dependencies"@[0] == 'a');
    assert("performance_requirements"@[0] == 'p');
    assert("perspective"@[0] == 'p');
    assert("issues_list"@[0] == 'i');
}

} // verus!
