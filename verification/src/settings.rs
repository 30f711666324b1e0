//! The settings of a run, and the template that stands in for them until an
//! operator has filled them in.

use vstd::prelude::*;

verus! {

/// The credential that the template holds.
pub const TOKEN_PLACEHOLDER: &'static str = "xxxxxxxxxxxxxxxxxxxxxxxxxxxxxxxxxxxxxxxx";

/// The host that the template holds.
pub const WEBSITE_PLACEHOLDER: &'static str = "test.example.com";

/// The zone identifier that the template holds.
pub const ZONE_PLACEHOLDER: &'static str = "xxxxxxxxxxxxxxxxxxxxxxxxxxxxxxxx";

/// What a run is configured with.
#[derive(Clone, Debug)]
pub struct Config {
    /// The credential for the provider.
    pub token: String,
    /// The host whose record is kept right.
    pub website: String,
    /// The zone that the record lies in.
    pub zone_id: String,
}

/// Settings as contracts see them.
pub struct ConfigView {
    pub token: Seq<char>,
    pub website: Seq<char>,
    pub zone_id: Seq<char>,
}

impl View for Config {
    type V = ConfigView;

    open spec fn view(&self) -> ConfigView {
        ConfigView { token: self.token@, website: self.website@, zone_id: self.zone_id@ }
    }
}

/// No settings to run with: the template is to be written out for the operator.
#[derive(Debug)]
pub struct ConfigurationMissing {
    pub template: Config,
}

/// The settings that a fresh settings file holds.
pub open spec fn template() -> ConfigView {
    ConfigView {
        token: TOKEN_PLACEHOLDER@,
        website: WEBSITE_PLACEHOLDER@,
        zone_id: ZONE_PLACEHOLDER@,
    }
}

/// The settings to run with, or the template where there are none: where
/// nothing is stored, or what is stored is still the template.
pub open spec fn settled(stored: Option<ConfigView>) -> Result<ConfigView, ConfigView> {
    match stored {
        Some(config) => if config == template() {
            Err(template())
        } else {
            Ok(config)
        },
        None => Err(template()),
    }
}

impl Config {
    /// The template.
    pub fn template() -> (config: Config)
        ensures
            config@ == template(),
    {
        Config {
            token: TOKEN_PLACEHOLDER.to_owned(),
            website: WEBSITE_PLACEHOLDER.to_owned(),
            zone_id: ZONE_PLACEHOLDER.to_owned(),
        }
    }

    /// Whether these settings are still the template.
    pub fn is_template(&self) -> (unchanged: bool)
        ensures
            unchanged == (self@ == template()),
    {
        let template = Config::template();
        self.token == template.token && self.website == template.website && self.zone_id
            == template.zone_id
    }

    /// Decides what to run with, given what the settings file held, if there
    /// was one. Settings that an operator has filled in are taken as they are.
    /// Otherwise the run is refused, and the template handed out.
    pub fn new(stored: Option<Config>) -> (result: Result<Config, ConfigurationMissing>)
        ensures
            match settled(
                match stored {
                    Some(config) => Some(config@),
                    None => None,
                },
            ) {
                Ok(config) => result matches Ok(taken) && taken@ == config,
                Err(template) => result matches Err(missing) && missing.template@ == template,
            },
    {
        match stored {
            Some(config) => {
                if config.is_template() {
                    Err(ConfigurationMissing { template: config })
                } else {
                    Ok(config)
                }
            },
            None => Err(ConfigurationMissing { template: Config::template() }),
        }
    }
}

} // verus!
