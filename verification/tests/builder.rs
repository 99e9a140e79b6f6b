use astrobuild::builder_content::{
    hex_ids, parse_ids, specification_or_blank, Introduction, NonFunctionalRequirements, OverallDescription,
    Specification, TemplateDeserializeModel, TemplateObject, TemplateObjectWithId,
    TemplateReafactorDeserializeModel, TemplateResponseModel, TemplateResponseRefactorModel,
};
use astrobuild::builder_error::ContentBuilderCustomResponseError as BuilderError;
use astrobuild::builder_form::{form_value, specification_from_form};
use astrobuild::builder_project::{
    Connections, ConnectionsResponseModel, PaymentOption, ProjectDeserializeModel, ProjectRequestModel,
    ProjectResponseModel, ProtoTypeRefactorDeserializeModel, ProtoTypeRefactorObject,
    ProtoTypeRequest, ProtoTypeRequestObject, ProtoTypeResponseModel, Relations,
};
use astrobuild::builder_schema::{
    files_response, stored_files, stored_wireframes, CategoryDeserializeModel, CategoryResponseModel,
    FeatureDeserializeModel, FeatureObject, FeatureResponseModel, File, FileWithId, FileWithOutOId,
};
use astrobuild::builder_service::{
    categories_listing, category_answer, changed_feature, created_category, created_feature,
    deleted_template, delivered_project_id, feature_answer, features_listing, find_file, found_template, inserted_id,
    last_template, project_answer, projects_listing, prototype_answer, prototype_updated,
    refreshed_template_id, renamed_project_id, templates_listing, updated_project_id, updated_template_id,
    wireframe_removal, wireframe_removed,
};
use astrobuild::object_id::ObjectId;
use astrobuild::store::{Fetched, Inserted};

const A: &str = "aaaaaaaaaaaaaaaaaaaaaaaa";
const B: &str = "bbbbbbbbbbbbbbbbbbbbbbbb";
const C: &str = "cccccccccccccccccccccccc";

fn oid(t: &str) -> ObjectId {
    ObjectId::parse(t).unwrap()
}

fn file(name: &str) -> File {
    File { name: name.to_string(), src: format!("https://cdn/{}", name) }
}

fn stored_category() -> CategoryDeserializeModel {
    CategoryDeserializeModel {
        _id: oid(A),
        name: "Shop".to_string(),
        description: "E-commerce".to_string(),
        image: file("shop.png"),
    }
}

fn stored_feature(id: &str, wireframes: Option<Vec<FileWithId>>) -> FeatureDeserializeModel {
    FeatureDeserializeModel {
        _id: oid(id),
        name: "Login".to_string(),
        description: "Sign in".to_string(),
        feature_type: "frontend".to_string(),
        image: file("login.png"),
        wireframes,
        price: 150.5f64.to_bits(),
        repo: "git@repo".to_string(),
    }
}

fn wire(id: &str, name: &str) -> FileWithOutOId {
    FileWithOutOId { id: id.to_string(), name: name.to_string(), src: format!("https://cdn/{}", name) }
}

fn text_specification(tag: &str) -> Specification {
    let t = |s: &str| format!("{}-{}", tag, s);
    Specification {
        introduction: Introduction {
            purpose: t("purpose"),
            document_conventions: t("conventions"),
            intended_audience: t("audience"),
            project_scope: t("scope"),
        },
        overall_description: OverallDescription {
            perspective: t("perspective"),
            user_characteristics: t("users"),
            operating_environment: t("environment"),
            design_implementation_constraints: t("constraints"),
            user_documentation: t("documentation"),
            assemptions_dependencies: t("assumptions"),
        },
        non_functional_requirements: NonFunctionalRequirements {
            performance_requirements: t("performance"),
            safety_requirements: t("safety"),
            security_requirements: t("security"),
            software_quality_attributes: t("quality"),
        },
        other_requirements: t("other"),
        glossary: t("glossary"),
        analysis_models: t("models"),
        issues_list: t("issues"),
    }
}

fn stored_template(id: &str, features: Option<Vec<FeatureDeserializeModel>>) -> TemplateReafactorDeserializeModel {
    TemplateReafactorDeserializeModel {
        _id: oid(id),
        name: "Store".to_string(),
        description: "A shop".to_string(),
        category: oid(A),
        features,
        image: file("store.png"),
        specification: Some(text_specification("s")),
    }
}

#[test]
fn builder_error_statuses_and_messages() {
    let cases = [
        (BuilderError::InternalError, 500, "internal error !"),
        (BuilderError::BadHeaderData, 403, "Bad Header Data Forbidden !"),
        (BuilderError::BadClientData, 400, "Bad Client Data !"),
        (BuilderError::NotFound, 404, "Category not Found!"),
        (BuilderError::NotAllowed, 403, "User not Allowed!"),
    ];
    for (e, status, msg) in cases {
        assert_eq!(e.status_code(), status);
        assert_eq!(e.message(), msg);
        let body = e.error_response("500 Internal Server Error".to_string());
        assert_eq!(body.status_code, "500 Internal Server Error");
        assert_eq!(body.msg, msg);
    }
}

#[test]
fn category_answer_writes_the_identifier() {
    let r: CategoryResponseModel = category_answer(Fetched::Found(stored_category())).ok().unwrap();
    assert_eq!(r.id, A);
    assert_eq!(r.name, "Shop");
    assert_eq!(r.image.name, "shop.png");
    assert_eq!(category_answer(Fetched::Missing).err(), Some(BuilderError::NotFound));
    assert_eq!(category_answer(Fetched::Empty).err(), Some(BuilderError::NotFound));
    assert_eq!(category_answer(Fetched::Malformed).err(), Some(BuilderError::NotFound));
    assert_eq!(category_answer(Fetched::Failed).err(), Some(BuilderError::InternalError));
    assert_eq!(created_category(Fetched::Missing).err(), Some(BuilderError::InternalError));
    assert_eq!(created_category(Fetched::Found(stored_category())).ok().unwrap().id, A);
}

#[test]
fn categories_listing_keeps_order() {
    let mut second = stored_category();
    second._id = oid(B);
    let rs = categories_listing(Some(vec![stored_category(), second])).ok().unwrap();
    assert_eq!(rs.len(), 2);
    assert_eq!(rs[0].id, A);
    assert_eq!(rs[1].id, B);
    assert_eq!(categories_listing(None).err(), Some(BuilderError::InternalError));
}

#[test]
fn feature_answer_writes_identifiers_and_keeps_the_price() {
    let f = stored_feature(B, Some(vec![FileWithId { _id: oid(C), name: "w1".to_string(), src: "s1".to_string() }]));
    let r: FeatureResponseModel = feature_answer(Fetched::Found(f)).ok().unwrap();
    assert_eq!(r.id, B);
    assert_eq!(f64::from_bits(r.price), 150.5);
    let ws = r.wireframes.unwrap();
    assert_eq!(ws.len(), 1);
    assert_eq!(ws[0].id, C);
    assert_eq!(ws[0].name, "w1");
    assert_eq!(feature_answer(Fetched::Missing).err(), Some(BuilderError::NotFound));
    assert_eq!(feature_answer(Fetched::Empty).err(), Some(BuilderError::NotFound));
    assert_eq!(feature_answer(Fetched::Malformed).err(), Some(BuilderError::InternalError));
    assert_eq!(changed_feature(Fetched::Missing).err(), Some(BuilderError::NotFound));
    assert_eq!(changed_feature(Fetched::Empty).err(), Some(BuilderError::InternalError));
    assert_eq!(created_feature(Fetched::Missing).err(), Some(BuilderError::InternalError));
    assert!(created_feature(Fetched::Found(stored_feature(A, None))).ok().unwrap().wireframes.is_none());
    assert_eq!(wireframe_removed(Fetched::Failed).err(), Some(BuilderError::InternalError));
}

#[test]
fn features_listing_answers_each() {
    let rs = features_listing(Some(vec![stored_feature(A, None), stored_feature(B, None)])).ok().unwrap();
    assert_eq!(rs.len(), 2);
    assert_eq!(rs[1].id, B);
    assert_eq!(features_listing(None).err(), Some(BuilderError::InternalError));
}

#[test]
fn files_between_stored_and_answered_forms() {
    let stored = stored_files(vec![wire(A, "a"), wire("BBBBBBBBBBBBBBBBBBBBBBBB", "b")]).unwrap();
    assert_eq!(stored.len(), 2);
    assert_eq!(stored[0]._id.bytes, oid(A).bytes);
    assert_eq!(stored[1]._id.to_hex(), B);
    assert_eq!(stored[1].name, "b");
    let answered = files_response(stored);
    assert_eq!(answered[0].id, A);
    assert_eq!(answered[1].id, B);
    assert!(stored_files(vec![wire(A, "a"), wire("nope", "b")]).is_none());
    assert_eq!(stored_wireframes(None).unwrap().len(), 0);
    assert!(stored_wireframes(Some(vec![wire("short", "x")])).is_none());
}

#[test]
fn feature_to_store() {
    let object = FeatureObject {
        name: "Cart".to_string(),
        description: "d".to_string(),
        feature_type: "backend".to_string(),
        image: file("cart.png"),
        wireframes: None,
        price: 10.0f64.to_bits(),
        repo: "r".to_string(),
    };
    let f = object.to_feature().unwrap();
    assert_eq!(f.name, "Cart");
    assert_eq!(f.wireframes.unwrap().len(), 0);
    let bad = FeatureObject {
        name: "Cart".to_string(),
        description: "d".to_string(),
        feature_type: "backend".to_string(),
        image: file("cart.png"),
        wireframes: Some(vec![wire("xyz", "w")]),
        price: 0,
        repo: "r".to_string(),
    };
    assert!(bad.to_feature().is_none());
    let changed = FeatureResponseModel {
        id: B.to_string(),
        name: "Cart".to_string(),
        description: "d".to_string(),
        feature_type: "backend".to_string(),
        image: file("cart.png"),
        wireframes: Some(vec![wire(C, "w")]),
        price: 0,
        repo: "r".to_string(),
    };
    let (id, f) = changed.to_feature().unwrap();
    assert_eq!(id, B);
    assert_eq!(f.wireframes.unwrap()[0]._id.to_hex(), C);
}

#[test]
fn find_file_gives_the_first_match() {
    let files = vec![wire(A, "a"), wire(B, "b"), wire(B, "b2")];
    assert_eq!(find_file(&files, B), Some(1));
    assert_eq!(find_file(&files, A), Some(0));
    assert_eq!(find_file(&files, C), None);
    assert_eq!(find_file(&vec![], A), None);
}

fn answered_feature(id: &str, wireframes: Option<Vec<FileWithOutOId>>) -> FeatureResponseModel {
    FeatureResponseModel {
        id: id.to_string(),
        name: "f".to_string(),
        description: "d".to_string(),
        feature_type: "t".to_string(),
        image: file("i"),
        wireframes,
        price: 0,
        repo: "r".to_string(),
    }
}

#[test]
fn wireframe_removal_looks_in_the_last_feature() {
    assert_eq!(wireframe_removal(vec![], A).err(), Some(BuilderError::NotFound));
    let features = vec![
        answered_feature(A, Some(vec![wire(C, "first")])),
        answered_feature(B, Some(vec![wire(A, "x"), wire(C, "w"), wire(C, "w2")])),
    ];
    let removal = wireframe_removal(features, C).ok().unwrap().unwrap();
    assert_eq!(removal.feature_id, B);
    assert_eq!(removal.wireframe._id.to_hex(), C);
    assert_eq!(removal.wireframe.name, "w");
    let none = wireframe_removal(vec![answered_feature(B, None)], C).ok().unwrap();
    assert!(none.is_none());
    let absent = wireframe_removal(vec![answered_feature(B, Some(vec![wire(A, "x")]))], C).ok().unwrap();
    assert!(absent.is_none());
}

#[test]
fn identifiers_as_text_and_back() {
    let texts = hex_ids(vec![oid(A), oid(B)]);
    assert_eq!(texts, vec![A.to_string(), B.to_string()]);
    let ids = parse_ids(&texts).unwrap();
    assert_eq!(ids[1].bytes, oid(B).bytes);
    assert!(parse_ids(&vec![A.to_string(), "x".to_string()]).is_none());
    assert_eq!(parse_ids(&vec![]).unwrap().len(), 0);
}

#[test]
fn blank_specification_is_all_empty() {
    let s = Specification::new();
    assert_eq!(s.introduction.purpose, "");
    assert_eq!(s.overall_description.assemptions_dependencies, "");
    assert_eq!(s.non_functional_requirements.software_quality_attributes, "");
    assert_eq!(s.other_requirements, "");
    assert_eq!(s.glossary, "");
    assert_eq!(s.analysis_models, "");
    assert_eq!(s.issues_list, "");
    assert_eq!(specification_or_blank(None).issues_list, "");
    assert_eq!(specification_or_blank(Some(text_specification("k"))).glossary, "k-glossary");
}

#[test]
fn template_to_store() {
    let object = TemplateObject {
        name: "Store".to_string(),
        description: "d".to_string(),
        category: A.to_string(),
        features: Some(vec![B.to_string(), C.to_string()]),
        image: file("t"),
        specification: None,
    };
    let t = object.to_template().unwrap();
    assert_eq!(t.category.to_hex(), A);
    let fs = t.features.unwrap();
    assert_eq!(fs.len(), 2);
    assert_eq!(fs[1].to_hex(), C);
    let sp = t.specification.unwrap();
    assert_eq!(sp.introduction.purpose, "");
    assert_eq!(sp.glossary, "");
}

#[test]
fn template_without_features_gets_an_empty_list() {
    let object = TemplateObjectWithId {
        id: C.to_string(),
        name: "Store".to_string(),
        description: "d".to_string(),
        category: A.to_string(),
        features: None,
        image: file("t"),
        specification: Some(text_specification("z")),
    };
    let (id, t) = object.to_template().unwrap();
    assert_eq!(id, C);
    assert_eq!(t.features.unwrap().len(), 0);
    assert_eq!(t.specification.unwrap().glossary, "z-glossary");
}

#[test]
fn template_with_bad_identifier_is_refused() {
    let bad_category = TemplateObject {
        name: "n".to_string(),
        description: "d".to_string(),
        category: "bad".to_string(),
        features: None,
        image: file("t"),
        specification: None,
    };
    assert!(bad_category.to_template().is_none());
    let bad_feature = TemplateObject {
        name: "n".to_string(),
        description: "d".to_string(),
        category: A.to_string(),
        features: Some(vec![B.to_string(), "zz".to_string()]),
        image: file("t"),
        specification: None,
    };
    assert!(bad_feature.to_template().is_none());
}

#[test]
fn template_answers() {
    let r: TemplateResponseRefactorModel =
        TemplateResponseRefactorModel::build_template(stored_template(B, Some(vec![stored_feature(C, None)])));
    assert_eq!(r.id, B);
    assert_eq!(r.category, A);
    assert_eq!(r.features.unwrap()[0].id, C);

    let d = TemplateDeserializeModel {
        _id: oid(C),
        name: "n".to_string(),
        description: "d".to_string(),
        category: oid(A),
        features: Some(vec![oid(B)]),
        image: file("t"),
        specification: None,
    };
    let r: TemplateResponseModel = deleted_template(Fetched::Found(d)).ok().unwrap();
    assert_eq!(r.id, C);
    assert_eq!(r.features.unwrap(), vec![B.to_string()]);
    assert_eq!(deleted_template(Fetched::Missing).err(), Some(BuilderError::NotFound));
    assert_eq!(deleted_template(Fetched::Failed).err(), Some(BuilderError::InternalError));
}

#[test]
fn template_lookups() {
    let all = templates_listing(Some(vec![stored_template(A, None), stored_template(B, None)])).ok().unwrap();
    assert_eq!(all.len(), 2);
    assert_eq!(all[1].id, B);
    assert_eq!(templates_listing(None).err(), Some(BuilderError::BadHeaderData));

    let last = last_template(Some(vec![stored_template(A, None), stored_template(B, None)])).ok().unwrap();
    assert_eq!(last.unwrap().id, B);
    assert!(last_template(Some(vec![])).ok().unwrap().is_none());
    assert_eq!(last_template(None).err(), Some(BuilderError::InternalError));

    assert_eq!(found_template(Some(vec![stored_template(C, None)])).ok().unwrap().id, C);
    assert_eq!(found_template(Some(vec![])).err(), Some(BuilderError::NotFound));
    assert_eq!(found_template(None).err(), Some(BuilderError::InternalError));
}

#[test]
fn changed_identifiers_are_written_as_text() {
    assert_eq!(updated_template_id(Fetched::Found(oid(A))).ok().unwrap(), A);
    assert_eq!(updated_template_id(Fetched::Missing).err(), Some(BuilderError::NotFound));
    assert_eq!(updated_template_id(Fetched::Failed).err(), Some(BuilderError::InternalError));
    assert_eq!(refreshed_template_id(Fetched::Found(oid(B))).ok().unwrap(), B);
    assert_eq!(refreshed_template_id(Fetched::Failed).err(), Some(BuilderError::InternalError));
    assert_eq!(updated_project_id(Fetched::Found(oid(C))).ok().unwrap(), C);
    assert_eq!(renamed_project_id(Fetched::Found(oid(C))).ok().unwrap(), C);
    assert_eq!(delivered_project_id(Fetched::Found(oid(C))).ok().unwrap(), C);
}

#[test]
fn prototype_request_to_store() {
    let request = ProtoTypeRequest {
        template_id: A.to_string(),
        prototype: vec![ProtoTypeRequestObject {
            feature_id: B.to_string(),
            connections: vec![ConnectionsResponseModel {
                to: C.to_string(),
                releations: Relations { back: true, forword: false },
            }],
        }],
    };
    let p = request.to_prototype().unwrap();
    assert_eq!(p.template_id.to_hex(), A);
    assert_eq!(p.prototype.len(), 1);
    assert_eq!(p.prototype[0].feature_id.to_hex(), B);
    assert_eq!(p.prototype[0].connections[0].to.to_hex(), C);
    assert_eq!(p.prototype[0].connections[0].releations, Relations { back: true, forword: false });

    let bad = ProtoTypeRequest {
        template_id: A.to_string(),
        prototype: vec![ProtoTypeRequestObject {
            feature_id: B.to_string(),
            connections: vec![ConnectionsResponseModel {
                to: "bad".to_string(),
                releations: Relations { back: false, forword: false },
            }],
        }],
    };
    assert!(bad.to_prototype().is_none());
}

#[test]
fn prototype_answers() {
    let stored = ProtoTypeRefactorDeserializeModel {
        _id: oid(A),
        template: oid(B),
        prototype: vec![ProtoTypeRefactorObject {
            feature: stored_feature(C, None),
            connections: vec![Connections { to: oid(A), releations: Relations { back: false, forword: true } }],
        }],
    };
    let r: ProtoTypeResponseModel = prototype_answer(Some(vec![stored])).ok().unwrap();
    assert_eq!(r.id, A);
    assert_eq!(r.template, B);
    assert_eq!(r.prototype[0].feature.id, C);
    assert_eq!(r.prototype[0].connections[0].to, A);
    assert_eq!(prototype_answer(Some(vec![])).err(), Some(BuilderError::NotFound));
    assert_eq!(prototype_answer(None).err(), Some(BuilderError::InternalError));
    assert_eq!(prototype_updated::<()>(Fetched::Found(())), Ok(()));
    assert_eq!(prototype_updated::<()>(Fetched::Empty), Ok(()));
    assert_eq!(prototype_updated::<()>(Fetched::Missing), Err(BuilderError::InternalError));
    assert_eq!(prototype_updated::<()>(Fetched::Failed), Err(BuilderError::InternalError));
}

fn payment() -> PaymentOption {
    PaymentOption { opt_one: 1, opt_two: 2, opt_three: 3 }
}

#[test]
fn project_request_to_store() {
    let request = ProjectRequestModel {
        client_id: A.to_string(),
        name: "My app".to_string(),
        image: file("p"),
        platforms: vec!["web".to_string()],
        template: B.to_string(),
        features: vec![C.to_string()],
        state: "OnReview".to_string(),
        proposal: None,
        payment_option: payment(),
        delivrable: None,
        total_price: 99.5f64.to_bits(),
    };
    let p = request.to_project().unwrap();
    assert_eq!(p.client_id.to_hex(), A);
    assert_eq!(p.template.to_hex(), B);
    assert_eq!(p.features[0].to_hex(), C);
    assert_eq!(p.state, "OnReview");
    assert_eq!(f64::from_bits(p.total_price), 99.5);

    let bad = ProjectRequestModel {
        client_id: A.to_string(),
        name: "My app".to_string(),
        image: file("p"),
        platforms: vec![],
        template: B.to_string(),
        features: vec!["nope".to_string()],
        state: "OnReview".to_string(),
        proposal: None,
        payment_option: payment(),
        delivrable: None,
        total_price: 0,
    };
    assert!(bad.to_project().is_none());
}

fn stored_project(id: &str) -> ProjectDeserializeModel {
    ProjectDeserializeModel {
        _id: oid(id),
        client_id: oid(A),
        name: "My app".to_string(),
        image: file("p"),
        platforms: vec!["web".to_string(), "ios".to_string()],
        template: stored_template(B, None),
        features: vec![stored_feature(C, None)],
        state: "Approuved".to_string(),
        proposal: None,
        payment_option: payment(),
        delivrable: None,
        total_price: 7,
    }
}

#[test]
fn project_answers() {
    let r: ProjectResponseModel = project_answer(Some(vec![stored_project(C)])).ok().unwrap();
    assert_eq!(r.id, C);
    assert_eq!(r.client_id, A);
    assert_eq!(r.template.id, B);
    assert_eq!(r.platforms, vec!["web".to_string(), "ios".to_string()]);
    assert_eq!(r.total_price, 7);
    assert_eq!(project_answer(Some(vec![])).err(), Some(BuilderError::NotFound));
    assert_eq!(project_answer(None).err(), Some(BuilderError::InternalError));
    let all = projects_listing(Some(vec![stored_project(A), stored_project(B)])).ok().unwrap();
    assert_eq!(all.len(), 2);
    assert_eq!(all[1].id, B);
    assert_eq!(projects_listing(None).err(), Some(BuilderError::InternalError));
}

fn field(name: &str, value: &str) -> (String, String) {
    (name.to_string(), value.to_string())
}

#[test]
fn form_value_takes_the_last_field_of_a_name() {
    let fields = vec![field("a", "1"), field("b", "2"), field("a", "3")];
    assert_eq!(form_value(&fields, "a"), Some("3".to_string()));
    assert_eq!(form_value(&fields, "b"), Some("2".to_string()));
    assert_eq!(form_value(&fields, "c"), None);
}

fn full_form() -> Vec<(String, String)> {
    vec![
        field("purpose", "p"),
        field("document_conventions", "dc"),
        field("intended_audience", "ia"),
        field("project_scope", "ps"),
        field("perspective", "pe"),
        field("user_characteristics", "uc"),
        field("operating_environment", "oe"),
        field("design_implementation_constraints", "dic"),
        field("user_documentation", "ud"),
        field("assemptions_dependencies", "ad"),
        field("performance_requirements", "pr"),
        field("safety_requirements", "sr"),
        field("security_requirements", "ser"),
        field("software_quality_attributes", "sqa"),
        field("other_requirements", "or"),
        field("glossary", "g"),
        field("analysis_models", "am"),
        field("issues_list", "il"),
        field("id", A),
    ]
}

#[test]
fn specification_form_reads_every_field() {
    let (id, s) = specification_from_form(&full_form()).unwrap();
    assert_eq!(id, A);
    assert_eq!(s.introduction.purpose, "p");
    assert_eq!(s.introduction.document_conventions, "dc");
    assert_eq!(s.overall_description.design_implementation_constraints, "dic");
    assert_eq!(s.overall_description.assemptions_dependencies, "ad");
    assert_eq!(s.non_functional_requirements.security_requirements, "ser");
    assert_eq!(s.other_requirements, "or");
    assert_eq!(s.issues_list, "il");
}

#[test]
fn specification_form_with_a_missing_field_is_refused() {
    let mut form = full_form();
    form.remove(5);
    assert!(specification_from_form(&form).is_none());
    let mut no_id = full_form();
    no_id.pop();
    assert!(specification_from_form(&no_id).is_none());
}

#[test]
fn inserted_identifier_or_internal_error() {
    assert_eq!(inserted_id(Inserted::Id(oid(C))).ok().unwrap(), C);
    assert_eq!(inserted_id(Inserted::Failed).err(), Some(BuilderError::InternalError));
    assert_eq!(inserted_id(Inserted::NotAnObjectId).err(), Some(BuilderError::InternalError));
}
