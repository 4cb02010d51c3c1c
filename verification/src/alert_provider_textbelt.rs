//! The Textbelt channel: its settings and how its answers are read.

use crate::alert_provider::SendAlertError;
use crate::config::AlertProviderConfig;
use vstd::prelude::*;
use vstd::string::StringExecFns;

verus! {

/// The settings of the Textbelt channel.
#[derive(Clone, Debug)]
pub struct AlertProviderTextbelt {
    pub api_key: String,
    pub phone_number: String,
}

/// What the decoded body of an answer says.
#[derive(Clone, Debug)]
pub struct TextbeltReply {
    pub success: bool,
    pub error: Option<String>,
}

impl AlertProviderTextbelt {
    /// Whether `config` holds all that the channel needs.
    pub open spec fn is_configured(config: &AlertProviderConfig) -> bool {
        config.params.lookup("phoneNumber"@) is Some
    }

    /// The key is the free one, `textbelt`, unless the settings name another.
    pub fn new_configure(config: &AlertProviderConfig) -> (r: Option<AlertProviderTextbelt>)
        ensures
            r is Some == Self::is_configured(config),
            r is Some ==> config.params.lookup("phoneNumber"@) == Some(r->0.phone_number@)
                && r->0.api_key@ == (match config.params.lookup("API_KEY"@) {
                Some(k) => k,
                None => "textbelt"@,
            }),
    {
        let api_key = match config.get_param_as_string("API_KEY") {
            Some(custom_key) => custom_key,
            None => String::from_str("textbelt"),
        };
        match config.get_param_as_string("phoneNumber") {
            Some(phone_number) => Some(AlertProviderTextbelt { api_key, phone_number }),
            None => None,
        }
    }

    /// Reads an answer that arrived. `reply` is the decoded body, `None`
    /// where the body could not be decoded; `body` is the body as it came.
    /// A reply that reports failure has to say why.
    pub fn outcome_for_response(reply: Option<TextbeltReply>, body: &str) -> (r: Result<
        (),
        SendAlertError,
    >)
        requires
            reply is Some && !reply->0.success ==> reply->0.error is Some,
        ensures
            r is Ok == (reply is Some && reply->0.success),
            reply is None ==> (r matches Err(SendAlertError::ParseError(m)) && m@
                == "Can't parse: "@ + body@),
            (reply is Some && !reply->0.success) ==> (r matches Err(SendAlertError::OtherError(m))
                && m@ == reply->0.error->0@),
    {
        match reply {
            None => {
                let text = String::from_str("Can't parse: ").concat(body);
                Err(SendAlertError::ParseError(text))
            },
            Some(decoded) => {
                if decoded.success {
                    Ok(())
                } else {
                    match decoded.error {
                        Some(why) => Err(SendAlertError::OtherError(why)),
                        None => Err(SendAlertError::OtherError(String::new())),
                    }
                }
            },
        }
    }
}

} // verus!
