use astrobuild::builder_form::specification_from_form;
use astrobuild::gateway_content::{
    category_creation, category_update, feature_creation, feature_update, fresh_files, prototype_request,
    template_creation, template_update, wireframes_addition, CategoryInput, ConnectionsInput, FeatureInput,
    InputFile, ProtoTypeInput, RelationsInput, TemplateInput, TemplateProtoTypeInput, TemplateUpdateInput,
};
use astrobuild::gateway_error::{
    CategoryCustomResponseError, FeatureCustomResponseError, ProjectCustomResponseError,
    ProtoTypeCustomResponseError, TemplateCustomResponseError, UserCustomResponseError,
};
use astrobuild::gateway_projects::{
    project_creation, project_file, project_full_build, project_rename, project_state_change, proposal_addition,
    DelivrableInput, DevtimeInput, PaymentOptionInput, ProjectFileInput, ProjectFullBuildInput, ProjectInput,
    ProposalInput, ResourceInput, State,
};
use astrobuild::gateway_service::{
    account_mail_answer, authorization_value, resolver_answer, Method, Resolver, Service, ACCOUNT_MAIL_PATH,
};
use astrobuild::gateway_specification::{
    specification_form, specification_or_blank, IntroductionInput, NonFunctionalRequirementsInput,
    OverallDescriptionInput, SpecificationInput, SpecificationOutput,
};
use astrobuild::gateway_users::{
    created_user, password_reset_confirmation, password_update, signup_user, user_info_update, AddressInput,
    PasswordInput, PhoneInput, UpdateUserInput, UserInput,
};
use astrobuild::object_id::ObjectId;

fn input_file(name: &str) -> InputFile {
    InputFile { name: name.to_string(), src: format!("https://cdn/{}", name) }
}

fn specification_input(tag: &str) -> SpecificationInput {
    let t = |s: &str| format!("{}-{}", tag, s);
    SpecificationInput {
        introduction: IntroductionInput {
            purpose: t("purpose"),
            document_conventions: t("conventions"),
            intended_audience: t("audience"),
            project_scope: t("scope"),
        },
        overall_description: OverallDescriptionInput {
            perspective: t("perspective"),
            user_characteristics: t("users"),
            operating_environment: t("environment"),
            design_implementation_constraints: t("constraints"),
            user_documentation: t("documentation"),
            assemptions_dependencies: t("assumptions"),
        },
        non_functional_requirements: NonFunctionalRequirementsInput {
            performance_requirements: t("performance"),
            safety_requirements: t("safety"),
            security_requirements: t("security"),
            software_quality_attributes: t("quality"),
        },
        other_requirements: t("other"),
        glossary: t("glossary"),
        analysis_models: t("models"),
        issues_list: t("issues"),
    }
}

#[test]
fn gateway_error_messages_and_codes() {
    assert_eq!(UserCustomResponseError::NotFound.message(), "Could not find resource");
    assert_eq!(UserCustomResponseError::ServerError.message(), "Server Error");
    assert_eq!(UserCustomResponseError::NotAllowed.message(), "Not Allowed");
    assert_eq!(UserCustomResponseError::Conflict.message(), "Conflict");
    assert_eq!(UserCustomResponseError::NotFound.code(), "NOT_FOUND");
    assert_eq!(UserCustomResponseError::Conflict.code(), "Conflict");
    assert_eq!(UserCustomResponseError::ServerError.code(), "Internal_Server_Error");
    assert_eq!(UserCustomResponseError::NotAllowed.code(), "Not_Allowed");
    assert_eq!(CategoryCustomResponseError::NotFound.code(), "NOT_FOUND");
    assert_eq!(CategoryCustomResponseError::ServerError.code(), "Internal_Server_Error");
    assert_eq!(CategoryCustomResponseError::NotAllowed.message(), "Not Allowed");
    assert_eq!(FeatureCustomResponseError::ServerError.message(), "Server Error");
    assert_eq!(TemplateCustomResponseError::NotFound.message(), "Could not find resource");
    assert_eq!(ProtoTypeCustomResponseError::NotAllowed.message(), "Not Allowed");
    assert_eq!(ProjectCustomResponseError::NotFound.message(), "Could not find resource");
}

#[test]
fn every_resolver_succeeds_on_ok() {
    for r in [Resolver::GetAllUsers, Resolver::Signup, Resolver::Login, Resolver::AddProjectDesign] {
        assert!(resolver_answer(r, 200).is_ok());
    }
}

#[test]
fn signup_resolver_statuses() {
    let e = resolver_answer(Resolver::Signup, 409).err().unwrap();
    assert_eq!(e.kind, UserCustomResponseError::Conflict);
    assert_eq!(e.info, "User Already Exist !");
    assert_eq!(e.message(), "Conflict");
    assert_eq!(e.code(), "Conflict");
    let e = resolver_answer(Resolver::Signup, 404).err().unwrap();
    assert_eq!(e.kind, UserCustomResponseError::NotFound);
    assert_eq!(e.info, "Bad Credentials Or User Dosent Existe !");
    let e = resolver_answer(Resolver::Signup, 403).err().unwrap();
    assert_eq!(e.kind, UserCustomResponseError::ServerError);
    assert_eq!(e.info, "Somthing Wrong Happenend ! ");
    let e = resolver_answer(Resolver::CreateUser, 409).err().unwrap();
    assert_eq!(e.kind, UserCustomResponseError::Conflict);
}

#[test]
fn login_resolver_statuses() {
    let e = resolver_answer(Resolver::Login, 404).err().unwrap();
    assert_eq!(e.kind, UserCustomResponseError::NotFound);
    assert_eq!(e.info, "Bad Credentials !");
    let e = resolver_answer(Resolver::Login, 409).err().unwrap();
    assert_eq!(e.kind, UserCustomResponseError::ServerError);
    let e = resolver_answer(Resolver::Login, 500).err().unwrap();
    assert_eq!(e.kind, UserCustomResponseError::ServerError);
    assert_eq!(e.code(), "Internal_Server_Error");
}

#[test]
fn get_all_users_resolver_statuses() {
    let e = resolver_answer(Resolver::GetAllUsers, 403).err().unwrap();
    assert_eq!(e.kind, UserCustomResponseError::NotAllowed);
    assert_eq!(e.info, "User not ALLowed or Bad Authorization Header !");
    assert_eq!(e.code(), "Not_Allowed");
    let e = resolver_answer(Resolver::GetAllUsers, 404).err().unwrap();
    assert_eq!(e.kind, UserCustomResponseError::NotFound);
    assert_eq!(e.info, "Users Not Found !");
    let e = resolver_answer(Resolver::GetAllUsers, 409).err().unwrap();
    assert_eq!(e.kind, UserCustomResponseError::ServerError);
}

#[test]
fn resolver_routes() {
    assert_eq!(Resolver::GetAllUsers.service(), Service::Auth);
    assert_eq!(Resolver::GetAllUsers.method(), Method::Get);
    assert_eq!(Resolver::GetAllUsers.path(), "/api/v1/users/all");
    assert!(Resolver::GetAllUsers.sends_token());
    assert_eq!(Resolver::Signup.path(), "/api/v1/users/auth/signup");
    assert_eq!(Resolver::CreateUser.path(), "/api/v1/users/auth/signup");
    assert_eq!(Resolver::Signup.method(), Method::Post);
    assert!(!Resolver::Signup.sends_token());
    assert_eq!(Resolver::Login.path(), "/api/v1/users/auth/login");
    assert_eq!(Resolver::GetCategoryById.path(), "/api/v1/builder/category/get");
    assert_eq!(Resolver::GetCategoryById.not_found_info(), "Category Not Found !");
    assert_eq!(Resolver::GetCategoryById.forbidden_info(), Some(" Bad Authorization Header !"));
    assert_eq!(Resolver::Login.conflict_info(), None);
    assert_eq!(Resolver::Signup.conflict_info(), Some("User Already Exist !"));
    assert_eq!(ACCOUNT_MAIL_PATH, "/api/v1/users/auth/send/account");
}

#[test]
fn account_mail_answer_statuses() {
    assert!(account_mail_answer(200).is_ok());
    let e = account_mail_answer(404).err().unwrap();
    assert_eq!(e.kind, UserCustomResponseError::ServerError);
    assert_eq!(e.info, "Somthing Wrong Happenend ! ");
}

#[test]
fn authorization_header_passed_on() {
    assert_eq!(authorization_value(Some("Bearer t")), "Bearer t");
    assert_eq!(authorization_value(None), "Authorization ");
}

#[test]
fn signup_sends_a_blank_client() {
    let u = signup_user("a@b.c".to_string(), "pw".to_string());
    assert_eq!(u.email, "a@b.c");
    assert_eq!(u.password, "pw");
    assert_eq!(u.first_name, "");
    assert_eq!(u.last_name, "");
    assert_eq!(u.phone.prefix, "");
    assert_eq!(u.address.country, "");
    assert_eq!(u.role, "Client");
}

fn phone_input() -> PhoneInput {
    PhoneInput { prefix: "+1".to_string(), number: "555".to_string() }
}

fn address_input() -> AddressInput {
    AddressInput {
        place: "p".to_string(),
        city: "c".to_string(),
        zip: "z".to_string(),
        country: "k".to_string(),
    }
}

#[test]
fn created_user_and_its_account_mail() {
    let (model, account) = created_user(UserInput {
        email: "e@x".to_string(),
        password: "pw".to_string(),
        first_name: "F".to_string(),
        last_name: "L".to_string(),
        phone: phone_input(),
        address: address_input(),
        role: "Developer".to_string(),
    });
    assert_eq!(model.email, "e@x");
    assert_eq!(model.password, "pw");
    assert_eq!(model.first_name, "F");
    assert_eq!(model.phone.number, "555");
    assert_eq!(model.address.zip, "z");
    assert_eq!(model.role, "Developer");
    assert_eq!(account.email, "e@x");
    assert_eq!(account.password, "pw");
    assert_eq!(account.role, "Developer");
}

#[test]
fn user_updates_as_sent() {
    let info = user_info_update(UpdateUserInput {
        id: "id1".to_string(),
        email: "e@x".to_string(),
        first_name: "F".to_string(),
        last_name: "L".to_string(),
        phone: phone_input(),
        address: address_input(),
        role: "Admin".to_string(),
    });
    assert_eq!(info.id, "id1");
    assert_eq!(info.user_info.email, "e@x");
    assert_eq!(info.user_info.phone.prefix, "+1");
    assert_eq!(info.user_info.address.city, "c");

    let pw = password_update(
        "id2".to_string(),
        PasswordInput { old_password: "o".to_string(), new_password: "n".to_string() },
    );
    assert_eq!(pw.id, "id2");
    assert_eq!(pw.set_password.old_password, "o");
    assert_eq!(pw.set_password.new_password, "n");

    let reset = password_reset_confirmation("id3".to_string(), "n2".to_string());
    assert_eq!(reset.id, "id3");
    assert_eq!(reset.set_password.old_password, "");
    assert_eq!(reset.set_password.new_password, "n2");
}

#[test]
fn category_payloads() {
    let c = category_creation(CategoryInput {
        name: "n".to_string(),
        description: "d".to_string(),
        image: input_file("i"),
    });
    assert_eq!(c.name, "n");
    assert_eq!(c.image.src, "https://cdn/i");
    let u = category_update(
        "x".to_string(),
        CategoryInput { name: "n".to_string(), description: "d".to_string(), image: input_file("i") },
    );
    assert_eq!(u.id, "x");
    assert_eq!(u.image.name, "i");
}

#[test]
fn fresh_files_get_distinct_valid_identifiers() {
    let files = fresh_files(vec![input_file("a"), input_file("b")]);
    assert_eq!(files.len(), 2);
    assert_eq!(files[0].name, "a");
    assert_eq!(files[1].src, "https://cdn/b");
    for f in &files {
        assert_eq!(f.id.len(), 24);
        assert!(ObjectId::parse(&f.id).is_some());
        assert_eq!(f.id, f.id.to_lowercase());
    }
    assert_ne!(files[0].id, files[1].id);
}

fn feature_input(wireframes: Option<Vec<InputFile>>) -> FeatureInput {
    FeatureInput {
        name: "f".to_string(),
        description: "d".to_string(),
        feature_type: "t".to_string(),
        image: input_file("img"),
        wireframes,
        price: 12.5f64.to_bits(),
        repo: "r".to_string(),
    }
}

#[test]
fn feature_payloads() {
    let f = feature_creation(feature_input(None));
    assert_eq!(f.wireframes.unwrap().len(), 0);
    assert_eq!(f64::from_bits(f.price), 12.5);
    let f = feature_creation(feature_input(Some(vec![input_file("w")])));
    let ws = f.wireframes.unwrap();
    assert_eq!(ws.len(), 1);
    assert_eq!(ws[0].name, "w");
    assert!(ObjectId::parse(&ws[0].id).is_some());
    let u = feature_update("fid".to_string(), feature_input(None));
    assert_eq!(u.id, "fid");
    assert_eq!(u.repo, "r");
    let w = wireframes_addition("fid".to_string(), vec![input_file("a"), input_file("b")]);
    assert_eq!(w.id, "fid");
    assert_eq!(w.wireframes.len(), 2);
    assert_eq!(w.wireframes[1].name, "b");
}

#[test]
fn template_payloads() {
    let t = template_creation(TemplateInput {
        name: "n".to_string(),
        description: "d".to_string(),
        category: "c".to_string(),
        features: Some(vec!["f1".to_string()]),
        image: input_file("i"),
        specification: None,
    });
    assert_eq!(t.features, Some(vec!["f1".to_string()]));
    let sp = t.specification.unwrap();
    assert_eq!(sp.introduction.purpose, "");
    assert_eq!(sp.issues_list, "");

    let u = template_update(
        "tid".to_string(),
        TemplateUpdateInput {
            name: "n".to_string(),
            description: "d".to_string(),
            category: "c".to_string(),
            features: None,
            image: input_file("i"),
        },
        Some(specification_input("q")),
    );
    assert_eq!(u.id, "tid");
    assert_eq!(u.features.unwrap().len(), 0);
    assert_eq!(u.specification.unwrap().glossary, "q-glossary");
}

#[test]
fn specification_output_or_blank() {
    let blank: SpecificationOutput = specification_or_blank(None);
    assert_eq!(blank.overall_description.perspective, "");
    assert_eq!(blank.non_functional_requirements.safety_requirements, "");
    let built = SpecificationOutput::build(specification_input("b"));
    assert_eq!(built.introduction.project_scope, "b-scope");
    assert_eq!(built.non_functional_requirements.software_quality_attributes, "b-quality");
    let new = SpecificationOutput::new();
    assert_eq!(new.analysis_models, "");
}

#[test]
fn specification_form_reads_back_as_the_specification() {
    let form = specification_form("tid".to_string(), specification_input("r"));
    assert_eq!(form.len(), 19);
    assert_eq!(form[0], ("purpose".to_string(), "r-purpose".to_string()));
    assert_eq!(form[18], ("id".to_string(), "tid".to_string()));
    let (id, s) = specification_from_form(&form).unwrap();
    assert_eq!(id, "tid");
    assert_eq!(s.introduction.purpose, "r-purpose");
    assert_eq!(s.introduction.document_conventions, "r-conventions");
    assert_eq!(s.overall_description.user_characteristics, "r-users");
    assert_eq!(s.overall_description.assemptions_dependencies, "r-assumptions");
    assert_eq!(s.non_functional_requirements.performance_requirements, "r-performance");
    assert_eq!(s.issues_list, "r-issues");
}

#[test]
fn prototype_payload() {
    let p = prototype_request(TemplateProtoTypeInput {
        template_id: "t".to_string(),
        prototype: vec![ProtoTypeInput {
            feature_id: "f".to_string(),
            connections: vec![ConnectionsInput {
                to: "g".to_string(),
                releations: RelationsInput { back: true, forword: true },
            }],
        }],
    });
    assert_eq!(p.template_id, "t");
    assert_eq!(p.prototype[0].feature_id, "f");
    assert_eq!(p.prototype[0].connections[0].to, "g");
    assert!(p.prototype[0].connections[0].releations.back);
    assert!(p.prototype[0].connections[0].releations.forword);
}

#[test]
fn new_project_is_on_review_with_empty_proposal_and_deliverable() {
    let p = project_creation(ProjectInput {
        client_id: "c".to_string(),
        name: "n".to_string(),
        image: input_file("i"),
        platforms: vec!["web".to_string()],
        template: "t".to_string(),
        features: vec!["f".to_string()],
        payment_option: PaymentOptionInput { opt_one: 30, opt_two: 30, opt_three: 40 },
        delivrable: Some(DelivrableInput { specification: true, full_build: false, mvp: false, design: false }),
        total_price: 5,
    });
    assert_eq!(p.state, "OnReview");
    assert_eq!(p.client_id, "c");
    assert_eq!(p.payment_option.opt_three, 40);
    let proposal = p.proposal.unwrap();
    assert_eq!(proposal.devtime.months, 0);
    assert_eq!(proposal.summary, "");
    assert_eq!(proposal.resources.len(), 0);
    let d = p.delivrable.unwrap();
    assert_eq!(d.full_build, "");
    assert_eq!(d.specification.name, "");
    assert_eq!(d.mvp.src, "");
}

#[test]
fn project_state_names() {
    assert_eq!(project_state_change("p".to_string(), State::Approved).state, "Approved");
    assert_eq!(project_state_change("p".to_string(), State::Declined).state, "Declined");
    assert_eq!(project_state_change("p".to_string(), State::OnReview).state, "OnReview");
    let s = project_state_change("p".to_string(), State::Archived);
    assert_eq!(s.state, "Archived");
    assert_eq!(s.id, "p");
}

#[test]
fn project_updates() {
    let r = project_rename("p".to_string(), "new".to_string(), input_file("i"));
    assert_eq!(r.name, "new");
    assert_eq!(r.image.name, "i");
    let pr = proposal_addition(
        "p".to_string(),
        ProposalInput {
            devtime: DevtimeInput { months: 1, days: 2, hours: 3 },
            summary: "s".to_string(),
            purpose: "u".to_string(),
            resources: vec![ResourceInput { resource_type: "dev".to_string(), developers: 2 }],
        },
    );
    assert_eq!(pr.id, "p");
    assert_eq!(pr.proposal.devtime.hours, 3);
    assert_eq!(pr.proposal.resources[0].resource_type, "dev");
    assert_eq!(pr.proposal.resources[0].developers, 2);
    let f = project_file(ProjectFileInput { id: "p".to_string(), name: "n".to_string(), src: "s".to_string() });
    assert_eq!(f.src, "s");
    let b = project_full_build(ProjectFullBuildInput { id: "p".to_string(), url: "u".to_string() });
    assert_eq!(b.url, "u");
}
