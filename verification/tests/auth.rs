use astrobuild::auth_error::UserCustomResponseError;
use astrobuild::auth_mail::{
    account_mail, password_reset_mail, ACCOUNT_MAIL_CLOSING, ACCOUNT_MAIL_EMAIL, ACCOUNT_MAIL_OPENING,
    ACCOUNT_MAIL_PASSWORD, RESET_LINK_BASE, RESET_MAIL_CLOSING, RESET_MAIL_MIDDLE, RESET_MAIL_OPENING,
};
use astrobuild::auth_schema::{
    hash_text, AddressModel, DeleteByUserId, PasswordModel, PhoneModel, Role, SendAccountModel,
    UserDeserializeModel, UserLoginModel, UserModel, UserResponseModel,
};
use astrobuild::auth_service::{
    deletion_access, info_update_access, login_response, mail_outcome, password_change_access,
    requester_from, signup_inserted, signup_prepare, signup_response, user_from_lookup,
    user_from_password_update, user_from_update, user_listing, user_listing_access, user_lookup, user_view,
    lookup_needs_target,
};
use astrobuild::auth_token::{authenticate, issue_token};
use astrobuild::auth_schema::TokenPayload;
use astrobuild::object_id::ObjectId;
use astrobuild::store::{Fetched, Inserted};

const ID_TEXT: &str = "60d5ec49f1b2c8a1b4e3d2c1";

fn phone() -> PhoneModel {
    PhoneModel { prefix: "+216".to_string(), number: "12345678".to_string() }
}

fn address() -> AddressModel {
    AddressModel {
        place: "1 rue".to_string(),
        city: "Tunis".to_string(),
        zip: "1000".to_string(),
        country: "TN".to_string(),
    }
}

fn stored_user(role: Role) -> UserDeserializeModel {
    UserDeserializeModel {
        _id: ObjectId::parse(ID_TEXT).unwrap(),
        email: "jane@example.com".to_string(),
        first_name: "Jane".to_string(),
        last_name: "Doe".to_string(),
        phone: phone(),
        address: address(),
        role,
    }
}

fn answered_user(role: Role) -> UserResponseModel {
    UserResponseModel::build_user(stored_user(role))
}

fn new_user(password: &str) -> UserModel {
    UserModel {
        email: "jane@example.com".to_string(),
        password: password.to_string(),
        first_name: "Jane".to_string(),
        last_name: "Doe".to_string(),
        phone: phone(),
        address: address(),
        role: Role::Client,
    }
}

#[test]
fn error_statuses_and_messages() {
    let cases = [
        (UserCustomResponseError::InternalError, 500, "internal error !"),
        (UserCustomResponseError::BadHeaderData, 403, "Bad Header Data Forbidden !"),
        (UserCustomResponseError::BadClientData, 400, "Bad Client Data !"),
        (UserCustomResponseError::NotFound, 404, "User not Found!"),
        (UserCustomResponseError::AlreadyExist, 409, "User Already Exist!"),
        (UserCustomResponseError::NotAllowed, 403, "User not Allowed!"),
    ];
    for (e, status, msg) in cases {
        assert_eq!(e.status_code(), status);
        assert_eq!(e.message(), msg);
        let body = e.error_response("404 Not Found".to_string());
        assert_eq!(body.status_code, "404 Not Found");
        assert_eq!(body.msg, msg);
    }
}

#[test]
fn issued_token_authenticates_its_user() {
    for role in [Role::Admin, Role::Client, Role::ProductOwner, Role::Developer] {
        let token = issue_token(ID_TEXT, role);
        let header = format!("Bearer {}", token);
        let payload = authenticate(Some(&header)).unwrap();
        assert_eq!(payload.id, ID_TEXT);
        assert_eq!(payload.role, role);
    }
}

#[test]
fn issued_token_carries_the_claims() {
    let token = issue_token("abc", Role::Developer);
    assert_eq!(token.split('.').count(), 3);
    assert!(!token.contains(' '));
    let mut validation = jsonwebtoken::Validation::default();
    validation.validate_exp = false;
    validation.required_spec_claims.clear();
    let data = jsonwebtoken::decode::<serde_json::Value>(
        &token,
        &jsonwebtoken::DecodingKey::from_secret(b"secret"),
        &validation,
    )
    .unwrap();
    assert_eq!(data.claims["id"], "abc");
    assert_eq!(data.claims["role"], "Developer");
}

#[test]
fn token_without_bearer_still_authenticates() {
    let token = issue_token("xyz", Role::Admin);
    let payload = authenticate(Some(&token)).unwrap();
    assert_eq!(payload.id, "xyz");
    assert_eq!(payload.role, Role::Admin);
}

#[test]
fn missing_or_bad_header_is_refused() {
    assert_eq!(authenticate(None).err(), Some(UserCustomResponseError::BadHeaderData));
    assert_eq!(authenticate(Some("Bearer garbage")).err(), Some(UserCustomResponseError::BadHeaderData));
    assert_eq!(authenticate(Some("")).err(), Some(UserCustomResponseError::BadHeaderData));
}

fn signed(claims: serde_json::Value, secret: &[u8]) -> String {
    jsonwebtoken::encode(
        &jsonwebtoken::Header::default(),
        &claims,
        &jsonwebtoken::EncodingKey::from_secret(secret),
    )
    .unwrap()
}

#[test]
fn token_under_another_secret_is_refused() {
    let mut claims = serde_json::Map::new();
    claims.insert("id".to_string(), serde_json::Value::String("a".to_string()));
    claims.insert("role".to_string(), serde_json::Value::String("Admin".to_string()));
    let token = signed(serde_json::Value::Object(claims), b"other");
    assert_eq!(
        authenticate(Some(&format!("Bearer {}", token))).err(),
        Some(UserCustomResponseError::BadHeaderData)
    );
}

#[test]
fn token_with_unknown_role_is_refused() {
    let mut claims = serde_json::Map::new();
    claims.insert("id".to_string(), serde_json::Value::String("a".to_string()));
    claims.insert("role".to_string(), serde_json::Value::String("Boss".to_string()));
    let token = signed(serde_json::Value::Object(claims), b"secret");
    assert_eq!(
        authenticate(Some(&format!("Bearer {}", token))).err(),
        Some(UserCustomResponseError::BadHeaderData)
    );
}

#[test]
fn expired_token_is_still_accepted() {
    let mut claims = serde_json::Map::new();
    claims.insert("id".to_string(), serde_json::Value::String("a".to_string()));
    claims.insert("role".to_string(), serde_json::Value::String("Client".to_string()));
    claims.insert("exp".to_string(), serde_json::Value::from(1u64));
    let token = signed(serde_json::Value::Object(claims), b"secret");
    let payload = authenticate(Some(&format!("Bearer {}", token))).unwrap();
    assert_eq!(payload.id, "a");
    assert_eq!(payload.role, Role::Client);
}

#[test]
fn passwords_are_hashed_in_place() {
    let mut user = new_user("abc");
    user.hash_password();
    assert_eq!(user.password, "616263");
    assert_eq!(user.email, "jane@example.com");

    let mut login = UserLoginModel { email: "a@b".to_string(), password: "abc".to_string() };
    login.hash_password();
    assert_eq!(login.password, "616263");
    assert_eq!(login.email, "a@b");

    let mut del = DeleteByUserId { id: ID_TEXT.to_string(), password: "x".to_string() };
    del.hash_password();
    assert_eq!(del.password, "78");
    assert_eq!(del.id, ID_TEXT);

    let mut pw = PasswordModel { old_password: "old".to_string(), new_password: "new".to_string() };
    pw.hash_password();
    assert_eq!(pw.new_password, hash_text("new"));
    assert_eq!(pw.old_password, "old");
}

#[test]
fn user_answer_writes_the_identifier_as_text() {
    let r = answered_user(Role::Developer);
    assert_eq!(r.id, ID_TEXT);
    assert_eq!(r.email, "jane@example.com");
    assert_eq!(r.first_name, "Jane");
    assert_eq!(r.last_name, "Doe");
    assert_eq!(r.phone.number, "12345678");
    assert_eq!(r.address.city, "Tunis");
    assert_eq!(r.role, Role::Developer);
}

#[test]
fn signup_refuses_an_address_in_use() {
    assert_eq!(
        signup_prepare(Fetched::Found(()), new_user("p")).err(),
        Some(UserCustomResponseError::AlreadyExist)
    );
    assert_eq!(
        signup_prepare(Fetched::Malformed, new_user("p")).err(),
        Some(UserCustomResponseError::AlreadyExist)
    );
    assert_eq!(
        signup_prepare(Fetched::Failed, new_user("p")).err(),
        Some(UserCustomResponseError::InternalError)
    );
}

#[test]
fn signup_stores_the_hashed_password() {
    for existing in [Fetched::Missing, Fetched::Empty] {
        let u = signup_prepare(existing, new_user("abc")).ok().unwrap();
        assert_eq!(u.password, "616263");
        assert_eq!(u.email, "jane@example.com");
        assert_eq!(u.role, Role::Client);
    }
}

#[test]
fn signup_reads_the_inserted_identifier() {
    let id = ObjectId::parse(ID_TEXT).unwrap();
    assert_eq!(signup_inserted(Inserted::Id(id)).ok(), Some(ID_TEXT.to_string()));
    assert_eq!(signup_inserted(Inserted::Failed).err(), Some(UserCustomResponseError::InternalError));
    assert_eq!(
        signup_inserted(Inserted::NotAnObjectId).err(),
        Some(UserCustomResponseError::InternalError)
    );
}

#[test]
fn signup_and_login_answer_with_a_working_token() {
    let r = signup_response(Fetched::Found(stored_user(Role::Client))).ok().unwrap();
    assert_eq!(r.user.id, ID_TEXT);
    assert_eq!(r.token, issue_token(ID_TEXT, Role::Client));
    let p = authenticate(Some(&format!("Bearer {}", r.token))).unwrap();
    assert_eq!(p.id, ID_TEXT);
    assert_eq!(p.role, Role::Client);

    let r = login_response(Fetched::Found(stored_user(Role::Admin))).ok().unwrap();
    assert_eq!(r.user.role, Role::Admin);
    assert_eq!(r.token, issue_token(ID_TEXT, Role::Admin));
}

#[test]
fn signup_and_login_errors() {
    assert_eq!(signup_response(Fetched::Missing).err(), Some(UserCustomResponseError::NotFound));
    assert_eq!(signup_response(Fetched::Empty).err(), Some(UserCustomResponseError::InternalError));
    assert_eq!(signup_response(Fetched::Failed).err(), Some(UserCustomResponseError::InternalError));
    assert_eq!(signup_response(Fetched::Malformed).err(), Some(UserCustomResponseError::InternalError));
    assert_eq!(login_response(Fetched::Missing).err(), Some(UserCustomResponseError::NotFound));
    assert_eq!(login_response(Fetched::Empty).err(), Some(UserCustomResponseError::NotFound));
    assert_eq!(login_response(Fetched::Failed).err(), Some(UserCustomResponseError::InternalError));
    assert_eq!(login_response(Fetched::Malformed).err(), Some(UserCustomResponseError::InternalError));
}

#[test]
fn lookups_map_store_outcomes_to_errors() {
    assert_eq!(requester_from(Fetched::Missing).err(), Some(UserCustomResponseError::BadHeaderData));
    assert_eq!(requester_from(Fetched::Empty).err(), Some(UserCustomResponseError::BadHeaderData));
    assert_eq!(requester_from(Fetched::Failed).err(), Some(UserCustomResponseError::InternalError));
    assert_eq!(requester_from(Fetched::Malformed).err(), Some(UserCustomResponseError::InternalError));
    assert_eq!(requester_from(Fetched::Found(stored_user(Role::Client))).ok().unwrap().id, ID_TEXT);

    assert_eq!(user_from_lookup(Fetched::Missing).err(), Some(UserCustomResponseError::NotFound));
    assert_eq!(user_from_lookup(Fetched::Empty).err(), Some(UserCustomResponseError::NotFound));
    assert_eq!(user_from_lookup(Fetched::Failed).err(), Some(UserCustomResponseError::InternalError));

    assert_eq!(user_from_update(Fetched::Failed).err(), Some(UserCustomResponseError::NotFound));
    assert_eq!(user_from_update(Fetched::Malformed).err(), Some(UserCustomResponseError::NotFound));
    assert_eq!(user_from_password_update(Fetched::Missing).err(), Some(UserCustomResponseError::NotFound));
    assert_eq!(
        user_from_password_update(Fetched::Found(stored_user(Role::Client))).ok().unwrap().email,
        "jane@example.com"
    );
}

#[test]
fn only_admins_and_product_owners_list_users() {
    assert_eq!(user_listing_access(Ok(answered_user(Role::Admin))), Ok(()));
    assert_eq!(user_listing_access(Ok(answered_user(Role::ProductOwner))), Ok(()));
    assert_eq!(
        user_listing_access(Ok(answered_user(Role::Client))),
        Err(UserCustomResponseError::NotAllowed)
    );
    assert_eq!(
        user_listing_access(Ok(answered_user(Role::Developer))),
        Err(UserCustomResponseError::NotAllowed)
    );
    assert_eq!(
        user_listing_access(Err(UserCustomResponseError::BadHeaderData)),
        Err(UserCustomResponseError::BadHeaderData)
    );
}

#[test]
fn user_listing_answers_every_user() {
    let users = user_listing(Some(vec![stored_user(Role::Admin), stored_user(Role::Client)])).ok().unwrap();
    assert_eq!(users.len(), 2);
    assert_eq!(users[0].role, Role::Admin);
    assert_eq!(users[1].role, Role::Client);
    assert_eq!(users[1].id, ID_TEXT);
    assert_eq!(user_listing(None).err(), Some(UserCustomResponseError::InternalError));
    assert_eq!(user_listing(Some(vec![])).ok().unwrap().len(), 0);
}

#[test]
fn users_see_themselves_and_admins_see_everyone() {
    let own = user_view(ID_TEXT, Role::Client, Fetched::Found(stored_user(Role::Client)));
    assert_eq!(own.ok().unwrap().id, ID_TEXT);
    let other = user_view("ffffffffffffffffffffffff", Role::Client, Fetched::Found(stored_user(Role::Client)));
    assert_eq!(other.err(), Some(UserCustomResponseError::NotAllowed));
    let admin = user_view("ffffffffffffffffffffffff", Role::Admin, Fetched::Found(stored_user(Role::Client)));
    assert_eq!(admin.ok().unwrap().id, ID_TEXT);
    assert_eq!(
        user_view(ID_TEXT, Role::Admin, Fetched::Missing).err(),
        Some(UserCustomResponseError::NotFound)
    );
    assert_eq!(
        user_view(ID_TEXT, Role::Admin, Fetched::Failed).err(),
        Some(UserCustomResponseError::InternalError)
    );
}

#[test]
fn deletion_rules() {
    assert_eq!(deletion_access("a", Role::Admin, "b"), Ok(()));
    assert_eq!(deletion_access("a", Role::Client, "a"), Ok(()));
    assert_eq!(deletion_access("a", Role::Client, "b"), Err(UserCustomResponseError::NotAllowed));
    assert_eq!(deletion_access("a", Role::Developer, "b"), Err(UserCustomResponseError::NotAllowed));
    assert_eq!(deletion_access("a", Role::ProductOwner, "b"), Err(UserCustomResponseError::BadClientData));
    assert_eq!(deletion_access("a", Role::ProductOwner, "a"), Ok(()));
}

#[test]
fn info_update_rules() {
    assert_eq!(info_update_access("a", Role::Admin, "b"), Ok(()));
    assert_eq!(info_update_access("a", Role::Developer, "a"), Ok(()));
    assert_eq!(info_update_access("a", Role::ProductOwner, "b"), Err(UserCustomResponseError::NotAllowed));
    assert_eq!(info_update_access("a", Role::Client, "b"), Err(UserCustomResponseError::NotAllowed));
}

#[test]
fn password_change_needs_a_known_requester() {
    assert_eq!(password_change_access(Ok(answered_user(Role::Client))), Ok(()));
    assert_eq!(
        password_change_access(Err(UserCustomResponseError::NotFound)),
        Err(UserCustomResponseError::BadHeaderData)
    );
}

#[test]
fn mail_outcome_answers_with_the_user() {
    assert_eq!(mail_outcome(true, answered_user(Role::Client)).ok().unwrap().id, ID_TEXT);
    assert_eq!(
        mail_outcome(false, answered_user(Role::Client)).err(),
        Some(UserCustomResponseError::InternalError)
    );
}

#[test]
fn reset_mail_links_to_the_user() {
    let user = answered_user(Role::Client);
    let mail = password_reset_mail(&user);
    assert_eq!(mail.user_name, "Jane Doe");
    assert_eq!(mail.reset_link, format!("{}{}", RESET_LINK_BASE, ID_TEXT));
    assert_eq!(mail.reset_link, "https://astrobuild.vercel.app/recover-account?code=60d5ec49f1b2c8a1b4e3d2c1");
    assert_eq!(mail.to, "jane@example.com");
    let html = mail.html();
    assert_eq!(
        html,
        format!(
            "{}Jane Doe{}{}{}",
            RESET_MAIL_OPENING, RESET_MAIL_MIDDLE, mail.reset_link, RESET_MAIL_CLOSING
        )
    );
    assert!(html.contains("<h1>Hi, Jane Doe</h1>"));
}

#[test]
fn account_mail_shows_the_sign_in_details() {
    let user = answered_user(Role::Client);
    let account = SendAccountModel {
        email: "jane@example.com".to_string(),
        password: "pw123".to_string(),
        role: "Client".to_string(),
    };
    let mail = account_mail(&user, &account);
    assert_eq!(mail.user_name, "Jane Doe");
    assert_eq!(mail.password, "pw123");
    assert_eq!(mail.role, "Client");
    assert_eq!(mail.to, "jane@example.com");
    let html = mail.html();
    assert_eq!(
        html,
        format!(
            "{}Jane Doe{}jane@example.com{}pw123{}",
            ACCOUNT_MAIL_OPENING, ACCOUNT_MAIL_EMAIL, ACCOUNT_MAIL_PASSWORD, ACCOUNT_MAIL_CLOSING
        )
    );
    assert!(html.contains("<h2>Email: jane@example.com</h2>"));
    assert!(html.contains("<h2>Password: pw123</h2>"));
}

#[test]
fn token_with_an_audience_is_still_accepted() {
    let mut claims = serde_json::Map::new();
    claims.insert("id".to_string(), serde_json::Value::String("a".to_string()));
    claims.insert("role".to_string(), serde_json::Value::String("Admin".to_string()));
    claims.insert("aud".to_string(), serde_json::Value::String("someone".to_string()));
    let token = signed(serde_json::Value::Object(claims), b"secret");
    let payload = authenticate(Some(&format!("Bearer {}", token))).unwrap();
    assert_eq!(payload.id, "a");
    assert_eq!(payload.role, Role::Admin);
}

#[test]
fn token_with_id_not_text_is_refused() {
    let mut claims = serde_json::Map::new();
    claims.insert("id".to_string(), serde_json::Value::from(7u64));
    claims.insert("role".to_string(), serde_json::Value::String("Admin".to_string()));
    let token = signed(serde_json::Value::Object(claims), b"secret");
    assert_eq!(
        authenticate(Some(&format!("Bearer {}", token))).err(),
        Some(UserCustomResponseError::BadHeaderData)
    );
}

#[test]
fn stored_role_decides_a_lookup_not_the_claimed_one() {
    let other = "ffffffffffffffffffffffff";
    for claimed in [Role::Admin, Role::Client] {
        let token = TokenPayload { id: other.to_string(), role: claimed };
        let mut requester = stored_user(Role::Client);
        requester._id = ObjectId::parse(other).unwrap();
        let answer = user_lookup(&token, Fetched::Found(requester), Fetched::Found(stored_user(Role::Client)));
        assert_eq!(answer.err(), Some(UserCustomResponseError::NotAllowed));
    }
    let token = TokenPayload { id: other.to_string(), role: Role::Client };
    let mut admin = stored_user(Role::Admin);
    admin._id = ObjectId::parse(other).unwrap();
    let answer = user_lookup(&token, Fetched::Found(admin), Fetched::Found(stored_user(Role::Client)));
    assert_eq!(answer.ok().unwrap().id, ID_TEXT);
}

#[test]
fn lookup_stops_at_an_unknown_requester() {
    let token = TokenPayload { id: ID_TEXT.to_string(), role: Role::Admin };
    assert!(!lookup_needs_target(&Fetched::Missing));
    assert!(lookup_needs_target(&Fetched::Found(stored_user(Role::Client))));
    assert_eq!(
        user_lookup(&token, Fetched::Missing, Fetched::Missing).err(),
        Some(UserCustomResponseError::BadHeaderData)
    );
    assert_eq!(
        user_lookup(&token, Fetched::Failed, Fetched::Missing).err(),
        Some(UserCustomResponseError::InternalError)
    );
    assert_eq!(
        user_lookup(&token, Fetched::Found(stored_user(Role::Client)), Fetched::Missing).err(),
        Some(UserCustomResponseError::NotFound)
    );
}

#[test]
fn signup_then_login_with_the_same_password() {
    let stored = signup_prepare(Fetched::Missing, new_user("pa55")).ok().unwrap();
    let mut given = UserLoginModel { email: "jane@example.com".to_string(), password: "pa55".to_string() };
    given.hash_password();
    assert_eq!(given.email, stored.email);
    assert_eq!(given.password, stored.password);
    let mut wrong = UserLoginModel { email: "jane@example.com".to_string(), password: "pa56".to_string() };
    wrong.hash_password();
    assert_ne!(wrong.password, stored.password);
    let signed = signup_response(Fetched::Found(stored_user(Role::Client))).ok().unwrap();
    let logged = login_response(Fetched::Found(stored_user(Role::Client))).ok().unwrap();
    assert_eq!(signed.token, logged.token);
    assert_eq!(signed.user.id, logged.user.id);
    assert_eq!(signed.user.role, logged.user.role);
}

fn token_with_role(role: serde_json::Value) -> String {
    let mut claims = serde_json::Map::new();
    claims.insert("id".to_string(), serde_json::Value::String("a".to_string()));
    claims.insert("role".to_string(), role);
    format!("Bearer {}", signed(serde_json::Value::Object(claims), b"secret"))
}

#[test]
fn role_written_as_a_one_key_object_is_accepted() {
    let mut object = serde_json::Map::new();
    object.insert("ProductOwner".to_string(), serde_json::Value::Null);
    let payload = authenticate(Some(&token_with_role(serde_json::Value::Object(object)))).unwrap();
    assert_eq!(payload.id, "a");
    assert_eq!(payload.role, Role::ProductOwner);
}

#[test]
fn role_objects_of_other_shapes_are_refused() {
    let mut not_null = serde_json::Map::new();
    not_null.insert("Admin".to_string(), serde_json::Value::from(1u64));
    let mut two_keys = serde_json::Map::new();
    two_keys.insert("Admin".to_string(), serde_json::Value::Null);
    two_keys.insert("Client".to_string(), serde_json::Value::Null);
    let mut unknown = serde_json::Map::new();
    unknown.insert("Boss".to_string(), serde_json::Value::Null);
    for role in [
        serde_json::Value::Object(not_null),
        serde_json::Value::Object(two_keys),
        serde_json::Value::Object(unknown),
        serde_json::Value::Object(serde_json::Map::new()),
        serde_json::Value::from(3u64),
    ] {
        assert_eq!(
            authenticate(Some(&token_with_role(role))).err(),
            Some(UserCustomResponseError::BadHeaderData)
        );
    }
}
