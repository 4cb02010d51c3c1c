//! The Simplepush channel: its settings and how its answers are read.

use crate::alert_provider::SendAlertError;
use crate::config::AlertProviderConfig;
use crate::text::same_text;
use vstd::prelude::*;
use vstd::string::StringExecFns;

verus! {

/// The settings of the Simplepush channel.
#[derive(Clone, Debug)]
pub struct AlertProviderSimplePush {
    pub key: String,
}

impl AlertProviderSimplePush {
    /// Whether `config` holds all that the channel needs.
    pub open spec fn is_configured(config: &AlertProviderConfig) -> bool {
        config.params.lookup("key"@) is Some
    }

    /// The channel as `config` sets it up, where it holds all it needs.
    pub fn new_configure(config: &AlertProviderConfig) -> (r: Option<AlertProviderSimplePush>)
        ensures
            r is Some == Self::is_configured(config),
            r is Some ==> config.params.lookup("key"@) == Some(r->0.key@),
    {
        match config.get_param_as_string("key") {
            Some(key) => Some(AlertProviderSimplePush { key }),
            None => None,
        }
    }

    /// Reads an answer that arrived. `status` is the status field of the
    /// decoded body, `None` where the body could not be decoded; `body` is
    /// the body as it came. Only the status `OK` is a delivery.
    pub fn outcome_for_response(status: Option<&str>, body: &str) -> (r: Result<
        (),
        SendAlertError,
    >)
        ensures
            r is Ok == (status is Some && status->0@ == "OK"@),
            status is None ==> (r matches Err(SendAlertError::ParseError(m)) && m@
                == "Can't parse: "@ + body@),
            (status is Some && status->0@ != "OK"@) ==> (r matches Err(
                SendAlertError::OtherError(m),
            ) && m@ == "Error sending notification request to simplepush.io"@),
    {
        match status {
            None => {
                let text = String::from_str("Can't parse: ").concat(body);
                Err(SendAlertError::ParseError(text))
            },
            Some(s) => {
                if same_text(s, "OK") {
                    Ok(())
                } else {
                    Err(
                        SendAlertError::OtherError(
                            String::from_str("Error sending notification request to simplepush.io"),
                        ),
                    )
                }
            },
        }
    }
}

} // verus!
