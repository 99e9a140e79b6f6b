//! The records the authentication service reads, stores and answers with.

use vstd::prelude::*;
use vstd::utf8::encode_utf8;
use crate::hex::{hex_lower, lemma_hex_lower_injective};
use crate::object_id::ObjectId;
use crate::text::text_eq;

verus! {

/// `base16::encode_lower`: each byte written as two lower-case base16 digits,
/// high nibble first (the source looks both nibbles up in `b"0123456789abcdef"`).
/// The source panics only when twice the length overflows, which no slice can reach,
/// as a slice never holds more than `isize::MAX` bytes.
#[verifier::external_body]
fn base16_encode_lower(bytes: &[u8]) -> (res: String)
    ensures
        res@ == hex_lower(bytes@),
{
    base16::encode_lower(bytes)
}

/// What the service stores in place of a password: the lower-case base16
/// text of its UTF-8 bytes.
pub open spec fn hashed_password(password: Seq<char>) -> Seq<char> {
    hex_lower(encode_utf8(password))
}

/// The stored form of a password.
pub fn hash_text(password: &str) -> (res: String)
    ensures
        res@ == hashed_password(password@),
{
    base16_encode_lower(password.as_bytes())
}

/// Two passwords are stored alike exactly when they are the same password.
pub proof fn lemma_hashed_password_injective(a: Seq<char>, b: Seq<char>)
    ensures
        hashed_password(a) == hashed_password(b) <==> a == b,
{
    lemma_hex_lower_injective(encode_utf8(a), encode_utf8(b));
    vstd::utf8::encode_utf8_decode_utf8(a);
    vstd::utf8::encode_utf8_decode_utf8(b);
}

/// The role of a user.
#[derive(Clone, Copy, Debug, PartialEq, Eq, Structural)]
pub enum Role {
    Admin,
    Client,
    ProductOwner,
    Developer,
}

/// The name a role is written with.
pub open spec fn role_name(role: Role) -> Seq<char> {
    match role {
        Role::Admin => "Admin"@,
        Role::Client => "Client"@,
        Role::ProductOwner => "ProductOwner"@,
        Role::Developer => "Developer"@,
    }
}

/// The role a name stands for.
pub open spec fn parse_role(s: Seq<char>) -> Result<Role, ()> {
    if s == "Admin"@ {
        Ok(Role::Admin)
    } else if s == "Client"@ {
        Ok(Role::Client)
    } else if s == "ProductOwner"@ {
        Ok(Role::ProductOwner)
    } else if s == "Developer"@ {
        Ok(Role::Developer)
    } else {
        Err(())
    }
}

impl Role {
    /// The role that `input` names; `Err(())` for any other text.
    pub fn from_str(input: &str) -> (res: Result<Role, ()>)
        ensures
            res == parse_role(input@),
    {
        if text_eq(input, "Admin") {
            Ok(Role::Admin)
        } else if text_eq(input, "Client") {
            Ok(Role::Client)
        } else if text_eq(input, "ProductOwner") {
            Ok(Role::ProductOwner)
        } else if text_eq(input, "Developer") {
            Ok(Role::Developer)
        } else {
            Err(())
        }
    }

    /// The name of the role.
    pub fn name(&self) -> (res: &'static str)
        ensures
            res@ == role_name(*self),
    {
        match self {
            Role::Admin => "Admin",
            Role::Client => "Client",
            Role::ProductOwner => "ProductOwner",
            Role::Developer => "Developer",
        }
    }
}

/// A role's name reads back as that role.
pub proof fn lemma_role_name_roundtrip(role: Role)
    ensures
        parse_role(role_name(role)) == Ok::<Role, ()>(role),
{
    reveal_strlit("Admin");
    reveal_strlit("Client");
    reveal_strlit("ProductOwner");
    reveal_strlit("Developer");
    assert("Admin"@.len() == 5);
    assert("Client"@.len() == 6);
    assert("ProductOwner"@.len() == 12);
    assert("Developer"@.len() == 9);
}

pub struct UserId {
    pub id: String,
}

pub struct DeleteByUserId {
    pub id: String,
    pub password: String,
}

impl DeleteByUserId {
    /// Replaces the password by its stored form.
    pub fn hash_password(&mut self)
        ensures
            final(self).password@ == hashed_password(old(self).password@),
            final(self).id == old(self).id,
    {
        self.password = hash_text(self.password.as_str());
    }
}

pub struct PhoneModel {
    pub prefix: String,
    pub number: String,
}

pub struct PasswordModel {
    pub old_password: String,
    pub new_password: String,
}

impl PasswordModel {
    /// Replaces the new password by its stored form.
    pub fn hash_password(&mut self)
        ensures
            final(self).new_password@ == hashed_password(old(self).new_password@),
            final(self).old_password == old(self).old_password,
    {
        self.new_password = hash_text(self.new_password.as_str());
    }
}

pub struct AddressModel {
    pub place: String,
    pub city: String,
    pub zip: String,
    pub country: String,
}

pub struct UserInfo {
    pub first_name: String,
    pub last_name: String,
    pub email: String,
    pub phone: PhoneModel,
    pub address: AddressModel,
}

pub struct EmailModel {
    pub email: String,
}

pub struct SendAccountModel {
    pub email: String,
    pub password: String,
    pub role: String,
}

pub struct UpdateUserInfo {
    pub id: String,
    pub user_info: UserInfo,
}

pub struct UpdateUserPassword {
    pub id: String,
    pub set_password: PasswordModel,
}

/// A user as stored, with its identifier.
pub struct UserDeserializeModel {
    pub _id: ObjectId,
    pub email: String,
    pub first_name: String,
    pub last_name: String,
    pub phone: PhoneModel,
    pub address: AddressModel,
    pub role: Role,
}

/// A user as the service answers with it: the identifier written as text.
pub struct UserResponseModel {
    pub id: String,
    pub email: String,
    pub first_name: String,
    pub last_name: String,
    pub phone: PhoneModel,
    pub address: AddressModel,
    pub role: Role,
}

/// Whether `res` is the answer made of the stored user `user`.
pub open spec fn is_user_response(res: UserResponseModel, user: UserDeserializeModel) -> bool {
    &&& res.id@ == hex_lower(user._id@)
    &&& res.email == user.email
    &&& res.first_name == user.first_name
    &&& res.last_name == user.last_name
    &&& res.phone == user.phone
    &&& res.address == user.address
    &&& res.role == user.role
}

impl UserResponseModel {
    /// The answer for a stored user.
    pub fn build_user(user: UserDeserializeModel) -> (res: UserResponseModel)
        ensures
            is_user_response(res, user),
    {
        UserResponseModel {
            id: user._id.to_hex(),
            email: user.email,
            first_name: user.first_name,
            last_name: user.last_name,
            phone: user.phone,
            address: user.address,
            role: user.role,
        }
    }
}

/// A new user as sent to sign up.
pub struct UserModel {
    pub email: String,
    pub password: String,
    pub first_name: String,
    pub last_name: String,
    pub phone: PhoneModel,
    pub address: AddressModel,
    pub role: Role,
}

impl UserModel {
    /// Replaces the password by its stored form.
    pub fn hash_password(&mut self)
        ensures
            final(self).password@ == hashed_password(old(self).password@),
            final(self).email == old(self).email,
            final(self).first_name == old(self).first_name,
            final(self).last_name == old(self).last_name,
            final(self).phone == old(self).phone,
            final(self).address == old(self).address,
            final(self).role == old(self).role,
    {
        self.password = hash_text(self.password.as_str());
    }
}

/// What a token carries.
pub struct TokenPayload {
    pub id: String,
    pub role: Role,
}

pub struct UserLoginModel {
    pub email: String,
    pub password: String,
}

impl UserLoginModel {
    /// Replaces the password by its stored form.
    pub fn hash_password(&mut self)
        ensures
            final(self).password@ == hashed_password(old(self).password@),
            final(self).email == old(self).email,
    {
        self.password = hash_text(self.password.as_str());
    }
}

/// The answer to a sign-up or a log-in: the user and a token for it.
pub struct AuthResponseModel {
    pub user: UserResponseModel,
    pub token: String,
}

} // verus!
