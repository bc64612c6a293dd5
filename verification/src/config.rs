//! Where the backend lives and which client the library says it is.

use vstd::prelude::*;

verus! {

/// The hosts of the backend and the versions that the client reports. A value is handed
/// over when a session is made and never changes after that.
#[derive(Debug, Clone, PartialEq, Eq)]
pub struct Config {
    /// The host of the launcher calls, with its scheme and without a trailing slash.
    pub launcher_endpoint: String,
    /// The host of the game calls.
    pub prod_endpoint: String,
    /// The host of the trading calls.
    pub trading_endpoint: String,
    /// The host of the flea market calls.
    pub ragfair_endpoint: String,
    /// The version of the game client.
    pub game_version: String,
    /// The version of the launcher.
    pub launcher_version: String,
    /// The version of Unity that the game client reports.
    pub unity_version: String,
}

/// The mathematical value of a [`Config`].
pub struct ConfigView {
    pub launcher_endpoint: Seq<char>,
    pub prod_endpoint: Seq<char>,
    pub trading_endpoint: Seq<char>,
    pub ragfair_endpoint: Seq<char>,
    pub game_version: Seq<char>,
    pub launcher_version: Seq<char>,
    pub unity_version: Seq<char>,
}

impl View for Config {
    type V = ConfigView;

    open spec fn view(&self) -> ConfigView {
        ConfigView {
            launcher_endpoint: self.launcher_endpoint@,
            prod_endpoint: self.prod_endpoint@,
            trading_endpoint: self.trading_endpoint@,
            ragfair_endpoint: self.ragfair_endpoint@,
            game_version: self.game_version@,
            launcher_version: self.launcher_version@,
            unity_version: self.unity_version@,
        }
    }
}

/// The live backend and the client versions that it accepts.
pub open spec fn live_config() -> ConfigView {
    ConfigView {
        launcher_endpoint: "https://launcher.escapefromtarkov.com"@,
        prod_endpoint: "https://prod.escapefromtarkov.com"@,
        trading_endpoint: "https://trading.escapefromtarkov.com"@,
        ragfair_endpoint: "https://ragfair.escapefromtarkov.com"@,
        game_version: "0.12.5.7295"@,
        launcher_version: "10.1.0.1116"@,
        unity_version: "2018.4.13f1"@,
    }
}

impl Config {
    /// The live backend.
    pub fn live() -> (config: Config)
        ensures
            config@ == live_config(),
    {
        Config {
            launcher_endpoint: "https://launcher.escapefromtarkov.com".to_owned(),
            prod_endpoint: "https://prod.escapefromtarkov.com".to_owned(),
            trading_endpoint: "https://trading.escapefromtarkov.com".to_owned(),
            ragfair_endpoint: "https://ragfair.escapefromtarkov.com".to_owned(),
            game_version: "0.12.5.7295".to_owned(),
            launcher_version: "10.1.0.1116".to_owned(),
            unity_version: "2018.4.13f1".to_owned(),
        }
    }

    /// A copy of this configuration.
    pub fn duplicate(&self) -> (config: Config)
        ensures
            config@ == self@,
    {
        Config {
            launcher_endpoint: self.launcher_endpoint.clone(),
            prod_endpoint: self.prod_endpoint.clone(),
            trading_endpoint: self.trading_endpoint.clone(),
            ragfair_endpoint: self.ragfair_endpoint.clone(),
            game_version: self.game_version.clone(),
            launcher_version: self.launcher_version.clone(),
            unity_version: self.unity_version.clone(),
        }
    }
}

impl Default for Config {
    fn default() -> (config: Config)
        ensures
            config@ == live_config(),
    {
        Config::live()
    }
}

} // verus!
