//! The delivery channels that are ready for use, each under its name.

use crate::alert_provider_pushsafer::AlertProviderPushSafer;
use crate::alert_provider_simplepush::AlertProviderSimplePush;
use crate::alert_provider_smtp_mail::AlertProviderSMTPMail;
use crate::alert_provider_textbelt::AlertProviderTextbelt;
use crate::config::{AlertConfig, AlertProviderConfig};
use crate::text::same_text;
use vstd::prelude::*;

verus! {

/// A configured channel of one of the known kinds.
#[derive(Clone, Debug)]
pub enum ProviderHandle {
    PushSafer(AlertProviderPushSafer),
    SimplePush(AlertProviderSimplePush),
    Textbelt(AlertProviderTextbelt),
    MailSMTP(AlertProviderSMTPMail),
}

/// A channel under its name.
#[derive(Clone, Debug)]
pub struct RegisteredProvider {
    pub name: String,
    pub handle: ProviderHandle,
}

/// The registered channels; no name occurs twice. Rules refer to a channel
/// by its position here.
#[derive(Clone, Debug)]
pub struct ProviderRegistry {
    pub entries: Vec<RegisteredProvider>,
}

/// The position of the first of `names` at or after `i` that equals `name`,
/// or the length where none does.
pub open spec fn name_position_from(names: Seq<Seq<char>>, name: Seq<char>, i: int) -> int
    decreases names.len() - i,
{
    if i < 0 || i >= names.len() {
        names.len() as int
    } else if names[i] == name {
        i
    } else {
        name_position_from(names, name, i + 1)
    }
}

/// The position found lies between `i` and the length, holds `name` where
/// it is short of the length, and nothing before it does.
pub proof fn lemma_name_position(names: Seq<Seq<char>>, name: Seq<char>, i: int)
    requires
        0 <= i <= names.len(),
    ensures
        i <= name_position_from(names, name, i) <= names.len(),
        name_position_from(names, name, i) < names.len() ==> names[name_position_from(
            names,
            name,
            i,
        )] == name,
        forall|k: int| i <= k < name_position_from(names, name, i) ==> names[k] != name,
    decreases names.len() - i,
{
    if i < names.len() && names[i] != name {
        lemma_name_position(names, name, i + 1);
    }
}

/// Whether a channel called `name` can be built from `config`: the name is
/// one of the known kinds, the kind is available, and its parameters are there.
pub open spec fn can_construct(
    name: Seq<char>,
    config: &AlertProviderConfig,
    smtp_available: bool,
) -> bool {
    if name == "pushsafer"@ {
        AlertProviderPushSafer::is_configured(config)
    } else if name == "simplepush"@ {
        AlertProviderSimplePush::is_configured(config)
    } else if name == "textbelt"@ {
        AlertProviderTextbelt::is_configured(config)
    } else if name == "mailSMTP"@ {
        smtp_available && AlertProviderSMTPMail::is_configured(config)
    } else {
        false
    }
}

impl ProviderHandle {
    /// The handle is of the kind that `name` stands for and holds the
    /// parameters of `config`.
    pub open spec fn built_from(&self, name: Seq<char>, config: &AlertProviderConfig) -> bool {
        match self {
            ProviderHandle::PushSafer(p) => {
                &&& name == "pushsafer"@
                &&& config.params.lookup("privateKey"@) == Some(p.private_key@)
                &&& config.params.lookup("deviceID"@) == Some(p.device_id@)
            },
            ProviderHandle::SimplePush(p) => {
                &&& name != "pushsafer"@
                &&& name == "simplepush"@
                &&& config.params.lookup("key"@) == Some(p.key@)
            },
            ProviderHandle::Textbelt(p) => {
                &&& name != "pushsafer"@
                &&& name != "simplepush"@
                &&& name == "textbelt"@
                &&& config.params.lookup("phoneNumber"@) == Some(p.phone_number@)
            },
            ProviderHandle::MailSMTP(p) => {
                &&& name != "pushsafer"@
                &&& name != "simplepush"@
                &&& name != "textbelt"@
                &&& name == "mailSMTP"@
                &&& config.params.lookup("toAddress"@) == Some(p.to_address@)
                &&& config.params.lookup("smtpServer"@) == Some(p.smtp_server@)
                &&& config.params.lookup("smtpUsername"@) == Some(p.smtp_username@)
                &&& config.params.lookup("smtpPassword"@) == Some(p.smtp_password@)
            },
        }
    }

    /// Builds the channel called `name` from its settings, where that can be done.
    pub fn construct(name: &str, config: &AlertProviderConfig, smtp_available: bool) -> (r: Option<
        ProviderHandle,
    >)
        ensures
            r is Some == can_construct(name@, config, smtp_available),
            r is Some ==> r->0.built_from(name@, config),
    {
        if same_text(name, "pushsafer") {
            match AlertProviderPushSafer::new_configure(config) {
                Some(p) => Some(ProviderHandle::PushSafer(p)),
                None => None,
            }
        } else if same_text(name, "simplepush") {
            match AlertProviderSimplePush::new_configure(config) {
                Some(p) => Some(ProviderHandle::SimplePush(p)),
                None => None,
            }
        } else if same_text(name, "textbelt") {
            match AlertProviderTextbelt::new_configure(config) {
                Some(p) => Some(ProviderHandle::Textbelt(p)),
                None => None,
            }
        } else if same_text(name, "mailSMTP") {
            if !smtp_available {
                return None;
            }
            match AlertProviderSMTPMail::new_configure(config) {
                Some(p) => Some(ProviderHandle::MailSMTP(p)),
                None => None,
            }
        } else {
            None
        }
    }
}

impl ProviderRegistry {
    /// The names of the registered channels, in order of registration.
    pub open spec fn names(&self) -> Seq<Seq<char>> {
        Seq::new(self.entries@.len(), |i: int| self.entries@[i].name@)
    }

    /// No name occurs twice.
    pub open spec fn wf(&self) -> bool {
        forall|i: int, j: int|
            0 <= i < j < self.entries@.len() ==> self.entries@[i].name@ != self.entries@[j].name@
    }

    /// Whether a channel called `name` is registered.
    pub open spec fn is_registered(&self, name: Seq<char>) -> bool {
        name_position_from(self.names(), name, 0) < self.entries@.len()
    }

    /// Every registered channel is of the kind that its name stands for and
    /// holds the parameters that `config` gives under that name.
    pub open spec fn is_built_from(&self, config: &AlertConfig) -> bool {
        forall|i: int|
            0 <= i < self.entries@.len() ==> (#[trigger] self.entries@[i]).handle.built_from(
                self.entries@[i].name@,
                &config.provider(self.entries@[i].name@),
            )
    }

    pub fn new() -> (r: ProviderRegistry)
        ensures
            r.entries@.len() == 0,
            r.wf(),
    {
        ProviderRegistry { entries: Vec::new() }
    }

    /// The position of the channel called `name`, if it is registered.
    pub fn position(&self, name: &str) -> (r: Option<usize>)
        ensures
            match r {
                Some(p) => p < self.entries@.len() && p == name_position_from(
                    self.names(),
                    name@,
                    0,
                ),
                None => !self.is_registered(name@),
            },
    {
        let mut i: usize = 0;
        while i < self.entries.len()
            invariant
                i <= self.entries@.len(),
                name_position_from(self.names(), name@, 0) == name_position_from(
                    self.names(),
                    name@,
                    i as int,
                ),
            decreases self.entries@.len() - i,
        {
            if same_text(self.entries[i].name.as_str(), name) {
                return Some(i);
            }
            i += 1;
        }
        None
    }

    /// Puts `handle` under `name`: in the place of the channel of that name
    /// where there is one, at the end otherwise.
    pub fn insert(&mut self, name: String, handle: ProviderHandle)
        requires
            old(self).wf(),
        ensures
            final(self).wf(),
            final(self).is_registered(name@),
            old(self).is_registered(name@) ==> final(self).names() == old(self).names(),
            !old(self).is_registered(name@) ==> final(self).names() == old(self).names().push(
                name@,
            ),
            final(self).entries@[name_position_from(final(self).names(), name@, 0)].handle
                == handle,
            forall|k: int|
                0 <= k < old(self).entries@.len() && old(self).entries@[k].name@ != name@
                    ==> final(self).entries@[k] == old(self).entries@[k],
    {
        let found = self.position(name.as_str());
        let ghost before = self.names();
        let ghost key = name@;
        proof {
            lemma_name_position(before, key, 0);
        }
        match found {
            Some(p) => {
                self.entries[p] = RegisteredProvider { name, handle };
                proof {
                    assert(before[p as int] == key);
                    assert(self.names() =~= before);
                    assert forall|i: int, j: int| 0 <= i < j < self.entries@.len() implies self.entries@[i].name@
                        != self.entries@[j].name@ by {
                        assert(self.entries@[i].name@ == old(self).entries@[i].name@);
                        assert(self.entries@[j].name@ == old(self).entries@[j].name@);
                    }
                }
            },
            None => {
                self.entries.push(RegisteredProvider { name, handle });
                proof {
                    let after = self.names();
                    assert(after =~= before.push(key));
                    lemma_name_position(after, key, 0);
                    assert(after[after.len() - 1] == key);
                    assert forall|i: int, j: int| 0 <= i < j < self.entries@.len() implies self.entries@[i].name@
                        != self.entries@[j].name@ by {
                        assert(self.entries@[i].name@ == old(self).entries@[i].name@);
                        assert(before[i] == old(self).entries@[i].name@);
                        if j < old(self).entries@.len() {
                            assert(self.entries@[j].name@ == old(self).entries@[j].name@);
                        }
                    }
                }
            },
        }
    }

    /// Registers the channel called `name` if `config` holds settings for it
    /// and it can be built from them; otherwise the registry stays as it
    /// was. A channel without settings counts as switched off.
    pub fn register(&mut self, name: &str, config: &AlertConfig, smtp_available: bool) -> (ok:
        bool)
        requires
            old(self).wf(),
        ensures
            final(self).wf(),
            ok == (config.has_provider(name@) && can_construct(
                name@,
                &config.provider(name@),
                smtp_available,
            )),
            ok ==> final(self).is_registered(name@) && final(self).names() == (if old(self).is_registered(name@) {
                old(self).names()
            } else {
                old(self).names().push(name@)
            }) && final(self).entries@[name_position_from(
                final(self).names(),
                name@,
                0,
            )].handle.built_from(name@, &config.provider(name@)),
            !ok ==> final(self).entries@ == old(self).entries@,
            forall|k: int|
                0 <= k < old(self).entries@.len() && old(self).entries@[k].name@ != name@
                    ==> #[trigger] final(self).entries@[k] == old(self).entries@[k],
            old(self).is_built_from(config) ==> final(self).is_built_from(config),
    {
        match config.find_provider(name) {
            Some(p) => {
                match ProviderHandle::construct(
                    name,
                    &config.alert_provider_configs[p],
                    smtp_available,
                ) {
                    Some(handle) => {
                        self.insert(name.to_owned(), handle);
                        proof {
                            let names = self.names();
                            let before = old(self).names();
                            let place = name_position_from(names, name@, 0);
                            lemma_name_position(names, name@, 0);
                            lemma_name_position(before, name@, 0);
                            if old(self).is_built_from(config) {
                                assert forall|i: int| 0 <= i < self.entries@.len() implies (
                                #[trigger] self.entries@[i]).handle.built_from(
                                    self.entries@[i].name@,
                                    &config.provider(self.entries@[i].name@),
                                ) by {
                                    assert(names[i] == self.entries@[i].name@);
                                    assert(names[place] == self.entries@[place].name@);
                                    if self.entries@[i].name@ == name@ {
                                        assert(i == place);
                                    } else {
                                        assert(i < before.len());
                                        assert(before[i] == old(self).entries@[i].name@);
                                        assert(before[i] == names[i]);
                                        assert(self.entries@[i] == old(self).entries@[i]);
                                    }
                                }
                            }
                        }
                        true
                    },
                    None => false,
                }
            },
            None => false,
        }
    }
}

} // verus!
