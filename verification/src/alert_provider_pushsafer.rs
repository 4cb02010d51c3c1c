//! The PushSafer channel: its settings and how its answers are read.

use crate::alert_provider::SendAlertError;
use crate::config::AlertProviderConfig;
use vstd::prelude::*;
use vstd::string::StringExecFns;

verus! {

/// The settings of the PushSafer channel.
#[derive(Clone, Debug)]
pub struct AlertProviderPushSafer {
    pub private_key: String,
    pub device_id: String,
}

/// What the service means by a status that is not 200.
pub open spec fn pushsafer_complaint(status: u16) -> Seq<char> {
    if status == 250 {
        "Invalid private key"@
    } else if status == 255 {
        "Invalid private key or empty message"@
    } else if status == 260 {
        "empty message"@
    } else if status == 270 {
        "Invalid device ID"@
    } else if status == 280 {
        "Insufficient API calls remaining"@
    } else {
        "Other error"@
    }
}

impl AlertProviderPushSafer {
    /// Whether `config` holds all that the channel needs.
    pub open spec fn is_configured(config: &AlertProviderConfig) -> bool {
        config.params.lookup("privateKey"@) is Some && config.params.lookup("deviceID"@) is Some
    }

    /// The channel as `config` sets it up, where it holds all it needs.
    pub fn new_configure(config: &AlertProviderConfig) -> (r: Option<AlertProviderPushSafer>)
        ensures
            r is Some == Self::is_configured(config),
            r is Some ==> config.params.lookup("privateKey"@) == Some(r->0.private_key@)
                && config.params.lookup("deviceID"@) == Some(r->0.device_id@),
    {
        let private_key = match config.get_param_as_string("privateKey") {
            Some(v) => v,
            None => {
                return None;
            },
        };
        let device_id = match config.get_param_as_string("deviceID") {
            Some(v) => v,
            None => {
                return None;
            },
        };
        Some(AlertProviderPushSafer { private_key, device_id })
    }

    /// Reads the status of an answer that arrived: only 200 is a delivery,
    /// every other status is a complaint of the service.
    pub fn outcome_for_status(status: u16) -> (r: Result<(), SendAlertError>)
        ensures
            r is Ok == (status == 200),
            status != 200 ==> (r matches Err(SendAlertError::OtherError(m)) && m@
                == pushsafer_complaint(status)),
    {
        if status == 200 {
            Ok(())
        } else if status == 250 {
            Err(SendAlertError::OtherError(String::from_str("Invalid private key")))
        } else if status == 255 {
            Err(SendAlertError::OtherError(String::from_str("Invalid private key or empty message")))
        } else if status == 260 {
            Err(SendAlertError::OtherError(String::from_str("empty message")))
        } else if status == 270 {
            Err(SendAlertError::OtherError(String::from_str("Invalid device ID")))
        } else if status == 280 {
            Err(SendAlertError::OtherError(String::from_str("Insufficient API calls remaining")))
        } else {
            Err(SendAlertError::OtherError(String::from_str("Other error")))
        }
    }
}

} // verus!
