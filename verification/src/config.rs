//! The settings of a run. All of them are required, and a run that lacks
//! one stops before it reaches the network or the browser.

use vstd::prelude::*;

verus! {

/// One of the settings.
#[derive(Debug, Clone, Copy, PartialEq, Eq, Structural)]
pub enum Setting {
    Username,
    Password,
    ProjectId,
    AccessKey,
    WebhookUrl,
}

/// A required setting is absent.
#[derive(Debug, Clone, Copy, PartialEq, Eq, Structural)]
pub enum ConfigError {
    Missing { setting: Setting },
}

/// The settings of a run.
#[derive(Debug, PartialEq, Eq)]
pub struct Config {
    /// Name of the portal account.
    pub username: String,
    /// Password of the portal account.
    pub password: String,
    /// Identifier of the project that holds the canonical records.
    pub project_id: String,
    /// Key that gives access to the canonical records.
    pub access_key: String,
    /// Address that the enrichment events are posted to.
    pub webhook_url: String,
}

/// The first setting that is absent, in the order username, password,
/// project, access key, webhook.
pub open spec fn first_missing(
    username: Option<String>,
    password: Option<String>,
    project_id: Option<String>,
    access_key: Option<String>,
    webhook_url: Option<String>,
) -> Option<Setting> {
    if username is None {
        Some(Setting::Username)
    } else if password is None {
        Some(Setting::Password)
    } else if project_id is None {
        Some(Setting::ProjectId)
    } else if access_key is None {
        Some(Setting::AccessKey)
    } else if webhook_url is None {
        Some(Setting::WebhookUrl)
    } else {
        None
    }
}

impl Config {
    /// Gathers the settings, each given if the environment holds it. The run
    /// is configured exactly when all five are there; otherwise the error
    /// names the first that is absent.
    pub fn from_values(
        username: Option<String>,
        password: Option<String>,
        project_id: Option<String>,
        access_key: Option<String>,
        webhook_url: Option<String>,
    ) -> (r: Result<Config, ConfigError>)
        ensures
            match r {
                Ok(config) => {
                    &&& username == Some(config.username)
                    &&& password == Some(config.password)
                    &&& project_id == Some(config.project_id)
                    &&& access_key == Some(config.access_key)
                    &&& webhook_url == Some(config.webhook_url)
                },
                Err(error) => first_missing(username, password, project_id, access_key, webhook_url)
                    == Some(error->setting),
            },
    {
        let username = match username {
            Some(value) => value,
            None => {
                return Err(ConfigError::Missing { setting: Setting::Username });
            },
        };
        let password = match password {
            Some(value) => value,
            None => {
                return Err(ConfigError::Missing { setting: Setting::Password });
            },
        };
        let project_id = match project_id {
            Some(value) => value,
            None => {
                return Err(ConfigError::Missing { setting: Setting::ProjectId });
            },
        };
        let access_key = match access_key {
            Some(value) => value,
            None => {
                return Err(ConfigError::Missing { setting: Setting::AccessKey });
            },
        };
        let webhook_url = match webhook_url {
            Some(value) => value,
            None => {
                return Err(ConfigError::Missing { setting: Setting::WebhookUrl });
            },
        };
        Ok(Config { username, password, project_id, access_key, webhook_url })
    }
}

} // verus!
