use vstd::prelude::*;

use crate::utilities::text::{concat3, owned};

verus! {

/// The HTML that opens the confirmation e-mail, up to the link.
pub open spec fn confirmation_opening() -> Seq<char> {
    "\n            <div>\n                <p> Thank you for joining Ndex! Let's verify your email so we can finish creating your account. Your confirmation link is: </p>\n                <p> "@
}

/// The HTML that closes the confirmation e-mail, after the link.
pub open spec fn confirmation_closing() -> Seq<char> {
    " </p>\n\n                <div> This email was sent by Ndex</div>\n            </div>\n    "@
}

/// The HTML body of the e-mail that asks a new user to confirm the address, with the
/// confirmation link in it.
pub fn signup_confirmation_body(confirmation_link: &str) -> (r: String)
    ensures
        r@ == confirmation_opening() + confirmation_link@ + confirmation_closing(),
{
    concat3(
        "\n            <div>\n                <p> Thank you for joining Ndex! Let's verify your email so we can finish creating your account. Your confirmation link is: </p>\n                <p> ",
        confirmation_link,
        " </p>\n\n                <div> This email was sent by Ndex</div>\n            </div>\n    ",
    )
}

/// The subject of the confirmation e-mail.
pub fn signup_confirmation_subject() -> (r: String)
    ensures
        r@ == "Email confirmation - Ndex"@,
{
    owned("Email confirmation - Ndex")
}

} // verus!
