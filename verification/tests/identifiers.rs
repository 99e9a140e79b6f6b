use astrobuild::auth_schema::{hash_text, Role};
use astrobuild::object_id::ObjectId;
use astrobuild::store::{inserted_id_text, Inserted};
use astrobuild::text::{chars_of, concat2, concat3, string_of, strip_bearer, text_eq};

#[test]
fn object_id_parses_upper_case_and_prints_lower_case() {
    let id = ObjectId::parse("60D5EC49F1B2C8A1B4E3D2C1").unwrap();
    assert_eq!(id.bytes, [0x60, 0xd5, 0xec, 0x49, 0xf1, 0xb2, 0xc8, 0xa1, 0xb4, 0xe3, 0xd2, 0xc1]);
    assert_eq!(id.to_hex(), "60d5ec49f1b2c8a1b4e3d2c1");
}

#[test]
fn object_id_text_round_trip() {
    let text = "0123456789abcdef01234567";
    let id = ObjectId::parse(text).unwrap();
    assert_eq!(id.to_hex(), text);
}

#[test]
fn object_id_rejects_bad_text() {
    assert!(ObjectId::parse("").is_none());
    assert!(ObjectId::parse("60d5ec49f1b2c8a1b4e3d2c").is_none());
    assert!(ObjectId::parse("60d5ec49f1b2c8a1b4e3d2c10").is_none());
    assert!(ObjectId::parse("60d5ec49f1b2c8a1b4e3d2cg").is_none());
    assert!(ObjectId::parse("not an object identifier!").is_none());
}

#[test]
fn generated_object_id_prints_and_parses_back() {
    let id = ObjectId::generate();
    let text = id.to_hex();
    assert_eq!(text.len(), 24);
    assert_eq!(ObjectId::parse(&text).unwrap().bytes, id.bytes);
}

#[test]
fn inserted_identifier_as_text() {
    let id = ObjectId { bytes: [0, 1, 2, 3, 4, 5, 6, 7, 8, 9, 10, 255] };
    assert_eq!(inserted_id_text(Inserted::Id(id)), Some("000102030405060708090aff".to_string()));
    assert_eq!(inserted_id_text(Inserted::Failed), None);
    assert_eq!(inserted_id_text(Inserted::NotAnObjectId), None);
}

#[test]
fn password_is_stored_as_lower_case_base16() {
    assert_eq!(hash_text("abc"), "616263");
    assert_eq!(hash_text(""), "");
    assert_eq!(hash_text("é"), "c3a9");
    assert_eq!(hash_text("Secret1"), "53656372657431");
}

#[test]
fn different_passwords_are_stored_differently() {
    assert_ne!(hash_text("password"), hash_text("Password"));
}

#[test]
fn role_names_read_back() {
    for role in [Role::Admin, Role::Client, Role::ProductOwner, Role::Developer] {
        assert_eq!(Role::from_str(role.name()), Ok(role));
    }
    assert_eq!(Role::Admin.name(), "Admin");
    assert_eq!(Role::ProductOwner.name(), "ProductOwner");
}

#[test]
fn role_unknown_names_are_refused() {
    assert_eq!(Role::from_str("admin"), Err(()));
    assert_eq!(Role::from_str(""), Err(()));
    assert_eq!(Role::from_str("Product Owner"), Err(()));
}

#[test]
fn bearer_is_removed_everywhere() {
    assert_eq!(strip_bearer("Bearer abc.def"), "abc.def");
    assert_eq!(strip_bearer("abc"), "abc");
    assert_eq!(strip_bearer("Bearer Bearer x"), "x");
    assert_eq!(strip_bearer("xBearer y"), "xy");
    assert_eq!(strip_bearer("Bearer"), "Bearer");
    assert_eq!(strip_bearer(""), "");
}

#[test]
fn text_helpers() {
    assert!(text_eq("a", "a"));
    assert!(!text_eq("a", "b"));
    assert_eq!(concat2("ab", "cd"), "abcd");
    assert_eq!(concat3("a", " ", "b"), "a b");
    let cs = chars_of("héllo");
    assert_eq!(cs, vec!['h', 'é', 'l', 'l', 'o']);
    assert_eq!(string_of(&cs), "héllo");
}
