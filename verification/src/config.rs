//! The configuration that a run starts with.
//!
//! Where it comes from (the command line, the environment) is the caller's
//! business. What is wrong with it is found here, once, before anything is
//! connected.

use crate::backoff::BackoffPolicy;
use crate::error::ConfigError;
use crate::session::PersistPolicy;
use crate::subscription::{Commitment, SubscriptionSpec, SubscriptionView};
use vstd::prelude::*;

verus! {

/// Everything a run needs to know.
#[derive(Clone, Debug, PartialEq, Eq)]
pub struct Settings {
    /// Address of the feed.
    pub endpoint: String,
    /// Access token for the feed.
    pub x_token: Option<String>,
    /// Connection string of the store.
    pub store_url: String,
    /// What to subscribe to.
    pub subscription: SubscriptionSpec,
    /// How long to wait between attempts.
    pub backoff: BackoffPolicy,
    /// What to do about a record that the store does not take.
    pub persist: PersistPolicy,
}

/// The mathematical content of [`Settings`].
pub struct SettingsView {
    pub endpoint: Seq<char>,
    pub x_token: Option<Seq<char>>,
    pub store_url: Seq<char>,
    pub subscription: SubscriptionView,
    pub backoff: BackoffPolicy,
    pub persist: PersistPolicy,
}

impl View for Settings {
    type V = SettingsView;

    open spec fn view(&self) -> SettingsView {
        SettingsView {
            endpoint: self.endpoint@,
            x_token: match self.x_token {
                Some(token) => Some(token@),
                None => None,
            },
            store_url: self.store_url@,
            subscription: self.subscription@,
            backoff: self.backoff,
            persist: self.persist,
        }
    }
}

/// What is wrong with a configuration, if anything. A missing address of
/// the feed is reported before a missing address of the store, and that
/// before a backoff schedule that is none.
pub open spec fn config_failure(
    endpoint: Seq<char>,
    store_url: Option<Seq<char>>,
    backoff: BackoffPolicy,
) -> Option<ConfigError> {
    if endpoint.len() == 0 {
        Some(ConfigError::MissingEndpoint)
    } else if store_url is None || store_url->0.len() == 0 {
        Some(ConfigError::MissingStoreUrl)
    } else if !backoff.wf() {
        Some(ConfigError::InvalidBackoff)
    } else {
        None
    }
}

impl Settings {
    /// Checks a configuration and fills in what was left open: the most
    /// durable commitment level where none was chosen.
    pub fn check(
        endpoint: String,
        x_token: Option<String>,
        store_url: Option<String>,
        accounts: Vec<String>,
        commitment: Option<Commitment>,
        backoff: BackoffPolicy,
        persist: PersistPolicy,
    ) -> (result: Result<Settings, ConfigError>)
        ensures
            match result {
                Ok(settings) => {
                    &&& config_failure(
                        endpoint@,
                        match store_url {
                            Some(url) => Some(url@),
                            None => None,
                        },
                        backoff,
                    ) is None
                    &&& settings@ == (SettingsView {
                        endpoint: endpoint@,
                        x_token: match x_token {
                            Some(token) => Some(token@),
                            None => None,
                        },
                        store_url: store_url->0@,
                        subscription: SubscriptionView {
                            accounts: accounts.deep_view(),
                            commitment: match commitment {
                                Some(given) => given,
                                None => Commitment::Finalized,
                            },
                        },
                        backoff,
                        persist,
                    })
                },
                Err(error) => config_failure(
                    endpoint@,
                    match store_url {
                        Some(url) => Some(url@),
                        None => None,
                    },
                    backoff,
                ) == Some(error),
            },
    {
        if endpoint.as_str().is_empty() {
            return Err(ConfigError::MissingEndpoint);
        }
        let store_url = match store_url {
            Some(url) => url,
            None => {
                return Err(ConfigError::MissingStoreUrl);
            },
        };
        if store_url.as_str().is_empty() {
            return Err(ConfigError::MissingStoreUrl);
        }
        if !backoff.is_wf() {
            return Err(ConfigError::InvalidBackoff);
        }
        Ok(
            Settings {
                endpoint,
                x_token,
                store_url,
                subscription: SubscriptionSpec::new(accounts, commitment),
                backoff,
                persist,
            },
        )
    }
}

} // verus!
