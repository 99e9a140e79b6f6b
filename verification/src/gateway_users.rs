//! What the gateway sends to the authentication service.

use vstd::prelude::*;

verus! {

/// The token a caller of the gateway sent in its `Authorization` header.
pub struct MyToken(pub String);

pub struct PhoneOutput {
    pub prefix: String,
    pub number: String,
}

pub struct PhoneInput {
    pub prefix: String,
    pub number: String,
}

pub struct AddressOutput {
    pub place: String,
    pub city: String,
    pub zip: String,
    pub country: String,
}

pub struct AddressInput {
    pub place: String,
    pub city: String,
    pub zip: String,
    pub country: String,
}

/// A user to sign up.
pub struct UserModel {
    pub email: String,
    pub password: String,
    pub first_name: String,
    pub last_name: String,
    pub phone: PhoneOutput,
    pub address: AddressOutput,
    pub role: String,
}

/// A user as a client gives it to be created.
pub struct UserInput {
    pub email: String,
    pub password: String,
    pub first_name: String,
    pub last_name: String,
    pub phone: PhoneInput,
    pub address: AddressInput,
    pub role: String,
}

/// A user's details as a client gives them to be changed.
pub struct UpdateUserInput {
    pub id: String,
    pub email: String,
    pub first_name: String,
    pub last_name: String,
    pub phone: PhoneInput,
    pub address: AddressInput,
    pub role: String,
}

pub struct SendAccountModel {
    pub email: String,
    pub password: String,
    pub role: String,
}

pub struct UserLoginModel {
    pub email: String,
    pub password: String,
}

pub struct EmailModel {
    pub email: String,
}

pub struct PasswordInput {
    pub old_password: String,
    pub new_password: String,
}

pub struct PasswordModel {
    pub old_password: String,
    pub new_password: String,
}

pub struct UserInfo {
    pub first_name: String,
    pub last_name: String,
    pub email: String,
    pub phone: PhoneOutput,
    pub address: AddressOutput,
}

pub struct UpdateUserInfo {
    pub id: String,
    pub user_info: UserInfo,
}

pub struct UpdateUserPassword {
    pub id: String,
    pub set_password: PasswordModel,
}

pub struct DeleteUserById {
    pub id: String,
    pub password: String,
}

pub struct UserId {
    pub id: String,
}

pub struct SerlizedId {
    pub id: String,
}

pub struct CategoiresIds {
    pub categories_id: Vec<String>,
}

/// Whether the phone `o` sent holds the number `i` given.
pub open spec fn is_phone_of(o: PhoneOutput, i: PhoneInput) -> bool {
    o.prefix == i.prefix && o.number == i.number
}

/// Whether the address `o` sent holds the address `i` given.
pub open spec fn is_address_of(o: AddressOutput, i: AddressInput) -> bool {
    o.place == i.place && o.city == i.city && o.zip == i.zip && o.country == i.country
}

fn phone_of(i: PhoneInput) -> (res: PhoneOutput)
    ensures
        is_phone_of(res, i),
{
    PhoneOutput { prefix: i.prefix, number: i.number }
}

fn address_of(i: AddressInput) -> (res: AddressOutput)
    ensures
        is_address_of(res, i),
{
    AddressOutput { place: i.place, city: i.city, zip: i.zip, country: i.country }
}

/// The user a sign-up sends: the address and password given, every other
/// detail empty, and the role `"Client"`.
pub fn signup_user(email: String, password: String) -> (res: UserModel)
    ensures
        res.email == email,
        res.password == password,
        res.first_name@.len() == 0,
        res.last_name@.len() == 0,
        res.phone.prefix@.len() == 0 && res.phone.number@.len() == 0,
        res.address.place@.len() == 0 && res.address.city@.len() == 0,
        res.address.zip@.len() == 0 && res.address.country@.len() == 0,
        res.role@ == "Client"@,
{
    UserModel {
        email,
        password,
        first_name: String::new(),
        last_name: String::new(),
        phone: PhoneOutput { prefix: String::new(), number: String::new() },
        address: AddressOutput {
            place: String::new(),
            city: String::new(),
            zip: String::new(),
            country: String::new(),
        },
        role: "Client".to_owned(),
    }
}

/// Creating a user for someone: the user to sign up, with every detail given,
/// and the account details to mail to it afterwards.
pub fn created_user(user: UserInput) -> (res: (UserModel, SendAccountModel))
    ensures
        res.0.email == user.email,
        res.0.password == user.password,
        res.0.first_name == user.first_name,
        res.0.last_name == user.last_name,
        is_phone_of(res.0.phone, user.phone),
        is_address_of(res.0.address, user.address),
        res.0.role == user.role,
        res.1.email == user.email,
        res.1.password == user.password,
        res.1.role == user.role,
{
    let account = SendAccountModel {
        email: user.email.clone(),
        password: user.password.clone(),
        role: user.role.clone(),
    };
    let model = UserModel {
        email: user.email,
        password: user.password,
        first_name: user.first_name,
        last_name: user.last_name,
        phone: phone_of(user.phone),
        address: address_of(user.address),
        role: user.role,
    };
    (model, account)
}

/// The new details of a user, as sent: everything given but the role, which is dropped.
pub fn user_info_update(user: UpdateUserInput) -> (res: UpdateUserInfo)
    ensures
        res.id == user.id,
        res.user_info.first_name == user.first_name,
        res.user_info.last_name == user.last_name,
        res.user_info.email == user.email,
        is_phone_of(res.user_info.phone, user.phone),
        is_address_of(res.user_info.address, user.address),
{
    UpdateUserInfo {
        id: user.id,
        user_info: UserInfo {
            first_name: user.first_name,
            last_name: user.last_name,
            email: user.email,
            phone: phone_of(user.phone),
            address: address_of(user.address),
        },
    }
}

/// A change of password, as sent.
pub fn password_update(id: String, password: PasswordInput) -> (res: UpdateUserPassword)
    ensures
        res.id == id,
        res.set_password.old_password == password.old_password,
        res.set_password.new_password == password.new_password,
{
    UpdateUserPassword {
        id,
        set_password: PasswordModel {
            old_password: password.old_password,
            new_password: password.new_password,
        },
    }
}

/// Confirming a password reset: the new password, with no old one.
pub fn password_reset_confirmation(id: String, password: String) -> (res: UpdateUserPassword)
    ensures
        res.id == id,
        res.set_password.old_password@.len() == 0,
        res.set_password.new_password == password,
{
    UpdateUserPassword {
        id,
        set_password: PasswordModel { old_password: String::new(), new_password: password },
    }
}

} // verus!
