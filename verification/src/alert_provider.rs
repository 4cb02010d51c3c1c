//! What is handed to a delivery channel, and how a delivery can fail.

use vstd::prelude::*;
use vstd::string::StringExecFns;

verus! {

/// Subject and body of one notification.
#[derive(Clone, Debug)]
pub struct AlertMessageParams {
    pub subject: String,
    pub message: String,
}

impl AlertMessageParams {
    pub fn new(subject: &str, message: &str) -> (p: AlertMessageParams)
        ensures
            p.subject@ == subject@,
            p.message@ == message@,
    {
        AlertMessageParams { subject: subject.to_owned(), message: message.to_owned() }
    }
}

/// Why a notification was not delivered.
#[derive(Debug)]
pub enum SendAlertError {
    ConfigError(String),
    CantConnect(String),
    NoResponse(String),
    AuthenticationError(String),
    InvalidAPIParams(String),
    ParseError(String),
    OtherError(String),
    NotImplemented,
}

impl SendAlertError {
    /// The error in words.
    pub open spec fn description(&self) -> Seq<char> {
        match self {
            SendAlertError::ConfigError(e) => "Configuration Error: "@ + e@,
            SendAlertError::CantConnect(e) => "Can't Connect: "@ + e@,
            SendAlertError::NoResponse(e) => "No Response from API server: "@ + e@,
            SendAlertError::AuthenticationError(e) => "Authentication Error: "@ + e@,
            SendAlertError::InvalidAPIParams(e) => "Invalid API params provided: "@ + e@,
            SendAlertError::ParseError(e) => "Error parsing response: "@ + e@,
            SendAlertError::OtherError(e) => "Error with API call: "@ + e@,
            SendAlertError::NotImplemented => "Not implemented"@,
        }
    }

    /// The error in words.
    pub fn describe(&self) -> (r: String)
        ensures
            r@ == self.description(),
    {
        match self {
            SendAlertError::ConfigError(e) => String::from_str("Configuration Error: ").concat(
                e.as_str(),
            ),
            SendAlertError::CantConnect(e) => String::from_str("Can't Connect: ").concat(
                e.as_str(),
            ),
            SendAlertError::NoResponse(e) => String::from_str(
                "No Response from API server: ",
            ).concat(e.as_str()),
            SendAlertError::AuthenticationError(e) => String::from_str(
                "Authentication Error: ",
            ).concat(e.as_str()),
            SendAlertError::InvalidAPIParams(e) => String::from_str(
                "Invalid API params provided: ",
            ).concat(e.as_str()),
            SendAlertError::ParseError(e) => String::from_str("Error parsing response: ").concat(
                e.as_str(),
            ),
            SendAlertError::OtherError(e) => String::from_str("Error with API call: ").concat(
                e.as_str(),
            ),
            SendAlertError::NotImplemented => String::from_str("Not implemented"),
        }
    }
}

/// The error for a request that was refused or never answered: status 401 is
/// an authentication error, everything else an error without a text.
/// `status` is `None` where no answer arrived.
pub fn error_for_failed_request(status: Option<u16>) -> (e: SendAlertError)
    ensures
        status == Some(401u16) ==> (e matches SendAlertError::AuthenticationError(m) && m@.len()
            == 0),
        status != Some(401u16) ==> (e matches SendAlertError::OtherError(m) && m@.len() == 0),
{
    match status {
        Some(code) => {
            if code == 401 {
                SendAlertError::AuthenticationError(String::new())
            } else {
                SendAlertError::OtherError(String::new())
            }
        },
        None => SendAlertError::OtherError(String::new()),
    }
}

/// A delivery channel. A channel that does not say how it sends reports
/// that sending is not implemented.
pub trait AlertProvider {
    fn send_alert(&self, _message_params: AlertMessageParams) -> (r: Result<(), SendAlertError>)
        default_ensures
            r matches Err(SendAlertError::NotImplemented),
    {
        Err(SendAlertError::NotImplemented)
    }
}

} // verus!
