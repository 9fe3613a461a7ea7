//! The message that asks the owner of an address to confirm it.

use vstd::prelude::*;
use crate::components::config::services::ConfigService;
use crate::utils::text::{join, join3};

verus! {

/// A message ready to be handed to a mail transport.
#[derive(Debug)]
pub struct OutgoingMail {
    pub from_name: String,
    pub from_address: String,
    pub to: String,
    pub subject: String,
    pub body: String,
}

/// The link that confirms an address: the public base of the service, the
/// path of the verification route and the token.
pub open spec fn verification_link(port_host: Seq<char>, token: Seq<char>) -> Seq<char> {
    port_host + "/v1/auth/verify/"@ + token
}

/// The text of the verification message.
pub open spec fn verification_body(link: Seq<char>) -> Seq<char> {
    "Please click the following link to verify your email: "@ + link
}

/// Composes the mail the service sends.
#[derive(Debug, Clone, Copy)]
pub struct MailSendService {}

impl MailSendService {
    pub fn new() -> (r: Self) {
        MailSendService {  }
    }

    /// The verification message for `email`, sent in the name of the
    /// service's own address.
    pub fn compose(&self, email: &str, token: &str, config_service: &ConfigService) -> (r:
        OutgoingMail)
        ensures
            r.from_name@ == "Verified email no replay"@,
            r.from_address@ == config_service.email_address@,
            r.to@ == email@,
            r.subject@ == "Verify your email"@,
            r.body@ == verification_body(verification_link(config_service.port_host@, token@)),
    {
        let link = join3(config_service.port_host.as_str(), "/v1/auth/verify/", token);
        OutgoingMail {
            from_name: "Verified email no replay".to_owned(),
            from_address: config_service.email_address.clone(),
            to: email.to_owned(),
            subject: "Verify your email".to_owned(),
            body: join("Please click the following link to verify your email: ", link.as_str()),
        }
    }
}

} // verus!
