//! The mail channel: its settings.

use crate::config::AlertProviderConfig;
use vstd::prelude::*;

verus! {

/// The settings of the mail channel.
#[derive(Clone, Debug)]
pub struct AlertProviderSMTPMail {
    pub to_address: String,
    pub smtp_server: String,
    pub smtp_username: String,
    pub smtp_password: String,
}

impl AlertProviderSMTPMail {
    /// Whether `config` holds all that the channel needs.
    pub open spec fn is_configured(config: &AlertProviderConfig) -> bool {
        &&& config.params.lookup("toAddress"@) is Some
        &&& config.params.lookup("smtpServer"@) is Some
        &&& config.params.lookup("smtpUsername"@) is Some
        &&& config.params.lookup("smtpPassword"@) is Some
    }

    /// The channel as `config` sets it up, where it holds all it needs.
    pub fn new_configure(config: &AlertProviderConfig) -> (r: Option<AlertProviderSMTPMail>)
        ensures
            r is Some == Self::is_configured(config),
            r is Some ==> {
                &&& config.params.lookup("toAddress"@) == Some(r->0.to_address@)
                &&& config.params.lookup("smtpServer"@) == Some(r->0.smtp_server@)
                &&& config.params.lookup("smtpUsername"@) == Some(r->0.smtp_username@)
                &&& config.params.lookup("smtpPassword"@) == Some(r->0.smtp_password@)
            },
    {
        let to_address = match config.get_param_as_string("toAddress") {
            Some(v) => v,
            None => {
                return None;
            },
        };
        let smtp_server = match config.get_param_as_string("smtpServer") {
            Some(v) => v,
            None => {
                return None;
            },
        };
        let smtp_username = match config.get_param_as_string("smtpUsername") {
            Some(v) => v,
            None => {
                return None;
            },
        };
        let smtp_password = match config.get_param_as_string("smtpPassword") {
            Some(v) => v,
            None => {
                return None;
            },
        };
        Some(AlertProviderSMTPMail { to_address, smtp_server, smtp_username, smtp_password })
    }
}

} // verus!
