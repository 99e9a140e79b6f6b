//! The mails the authentication service sends: a link to reset a password,
//! and the sign-in details of an account made for someone.

use vstd::prelude::*;
use crate::auth_schema::{SendAccountModel, UserResponseModel};
use crate::text::{concat2, concat3};

verus! {

pub const RESET_MAIL_OPENING: &'static str = "\n\n                    <head>\n    <link rel='preconnect' href='https://fonts.googleapis.com'>\n    <link rel='preconnect' href='https://fonts.gstatic.com' crossorigin>\n    <link href='https://fonts.googleapis.com/css2?family=Inter:wght@400;700&display=swap' rel='stylesheet'>\n</head>\n\n<body style='margin: 0;\npadding: 0;\nbox-sizing: border-box;\nfont-family: Inter, sans-serif;'>\n    <div class='container' style='display: grid;\ngrid-template-columns: 1fr;\nrow-gap: 1rem;\nalign-items: center;\njustify-content: center;\nwidth: 65%;\nmargin: 50px auto;\npadding: 50px;\nborder: 2px solid black;\nborder-radius: 10px;'>\n        <h1>Hi, ";
pub const RESET_MAIL_MIDDLE: &'static str = "</h1>\n        <p> we've received a request to reset your password. if you didn't make the request,just ignore this email.\n     Otherwise ,you can reset your password using this link:</p>\n        <div style='display: grid;\n    grid-template-columns: 1fr;\n    row-gap: 0.25rem;'>\n           \n     <div>\n         <a href=";
pub const RESET_MAIL_CLOSING: &'static str = " >Click here to reset your Password </a>  \n     </div>\n            </pre>\n            <p>Astrobuild &copy Astrolab Agency</p>\n        </div>\n</body>\n         \n     ";
pub const ACCOUNT_MAIL_OPENING: &'static str = "\n                        \n                    <head>\n    <link rel='preconnect' href='https://fonts.googleapis.com'>\n    <link rel='preconnect' href='https://fonts.gstatic.com' crossorigin>\n    <link href='https://fonts.googleapis.com/css2?family=Inter:wght@400;700&display=swap' rel='stylesheet'>\n</head>\n\n<body style='margin: 0;\npadding: 0;\nbox-sizing: border-box;\nfont-family: Inter, sans-serif;'>\n    <div class='container' style='display: grid;\ngrid-template-columns: 1fr;\nrow-gap: 1rem;\nalign-items: center;\njustify-content: center;\nwidth: 65%;\nmargin: 50px auto;\npadding: 50px;\nborder: 2px solid black;\nborder-radius: 10px;'>\n        <h1>Hi, ";
pub const ACCOUNT_MAIL_EMAIL: &'static str = "</h1>\n        <p>You've received a request to create a new account </p>\n        <div style='display: grid;\n    grid-template-columns: 1fr;\n    row-gap: 0.25rem;'>\n            <h2>Email: ";
pub const ACCOUNT_MAIL_PASSWORD: &'static str = "</h2>\n            <h2>Password: ";
pub const ACCOUNT_MAIL_CLOSING: &'static str = "</h2>\n            </pre>\n            <p>Astrobuild &copy Astrolab Agency</p>\n        </div>\n</body>\n     ";

/// Where a user resets a forgotten password; the user's identifier is the code.
pub const RESET_LINK_BASE: &'static str = "https://astrobuild.vercel.app/recover-account?code=";

/// The name a mail greets a user by: first and last name, a space between.
pub open spec fn greeting_name(first: Seq<char>, last: Seq<char>) -> Seq<char> {
    first + " "@ + last
}

/// A mail with a link to reset a password.
pub struct ResetMail {
    pub user_name: String,
    pub reset_link: String,
    pub to: String,
}

/// A mail with the sign-in details of an account.
pub struct AccountMail {
    pub user_name: String,
    pub password: String,
    pub role: String,
    pub to: String,
}

/// The reset mail for `user`: greets the user by name, links to the reset page
/// with the user's identifier, and goes to the user's address.
pub fn password_reset_mail(user: &UserResponseModel) -> (res: ResetMail)
    ensures
        res.user_name@ == greeting_name(user.first_name@, user.last_name@),
        res.reset_link@ == RESET_LINK_BASE@ + user.id@,
        res.to@ == user.email@,
{
    ResetMail {
        user_name: concat3(user.first_name.as_str(), " ", user.last_name.as_str()),
        reset_link: concat2(RESET_LINK_BASE, user.id.as_str()),
        to: user.email.clone(),
    }
}

/// The account mail for `user`, with the password and role that the account was made with.
pub fn account_mail(user: &UserResponseModel, account: &SendAccountModel) -> (res: AccountMail)
    ensures
        res.user_name@ == greeting_name(user.first_name@, user.last_name@),
        res.password@ == account.password@,
        res.role@ == account.role@,
        res.to@ == user.email@,
{
    AccountMail {
        user_name: concat3(user.first_name.as_str(), " ", user.last_name.as_str()),
        password: account.password.clone(),
        role: account.role.clone(),
        to: user.email.clone(),
    }
}

impl ResetMail {
    /// The HTML body of the mail.
    pub fn html(&self) -> (res: String)
        ensures
            res@ == RESET_MAIL_OPENING@ + self.user_name@ + RESET_MAIL_MIDDLE@ + self.reset_link@
                + RESET_MAIL_CLOSING@,
    {
        let mut out = concat3(RESET_MAIL_OPENING, self.user_name.as_str(), RESET_MAIL_MIDDLE);
        out.append(self.reset_link.as_str());
        out.append(RESET_MAIL_CLOSING);
        out
    }
}

impl AccountMail {
    /// The HTML body of the mail: the name, the address the account signs in
    /// with, and its password.
    pub fn html(&self) -> (res: String)
        ensures
            res@ == ACCOUNT_MAIL_OPENING@ + self.user_name@ + ACCOUNT_MAIL_EMAIL@ + self.to@
                + ACCOUNT_MAIL_PASSWORD@ + self.password@ + ACCOUNT_MAIL_CLOSING@,
    {
        let mut out = concat3(ACCOUNT_MAIL_OPENING, self.user_name.as_str(), ACCOUNT_MAIL_EMAIL);
        out.append(self.to.as_str());
        out.append(ACCOUNT_MAIL_PASSWORD);
        out.append(self.password.as_str());
        out.append(ACCOUNT_MAIL_CLOSING);
        out
    }
}

} // verus!
