use vstd::prelude::*;

use crate::error::Error;
use crate::rate::Rate;

verus! {

/// The rate configuration: the two backing-asset identifiers and the two
/// conversion rates. Written once at setup and immutable afterward; either
/// rate may independently be zero, meaning that backing asset is not
/// required.
#[derive(Clone, Debug)]
pub struct Config {
    /// Identifier of the externally-held backing token asset.
    pub gohm_token: String,
    /// Identifier of the native-style backing asset.
    pub denom: String,
    /// Token collateral required per unit of receipt token.
    pub gohm_rate: Rate,
    /// Native collateral required per unit of receipt token.
    pub denom_rate: Rate,
}

/// Write-once store for the rate configuration: empty until setup saves the
/// record, then read-only.
#[derive(Clone, Debug)]
pub struct ConfigStore {
    pub record: Option<Config>,
}

impl ConfigStore {
    /// A store with nothing saved yet.
    pub fn new() -> (s: ConfigStore)
        ensures
            s.record is None,
    {
        ConfigStore { record: None }
    }

    /// Record the configuration; setup calls this exactly once.
    pub fn save(&mut self, config: Config)
        requires
            old(self).record is None,
        ensures
            final(self).record == Some(config),
    {
        self.record = Some(config);
    }

    /// Read the configuration; fails until setup has saved one.
    pub fn load(&self) -> (r: Result<&Config, Error>)
        ensures
            match r {
                Ok(config) => self.record == Some(*config),
                Err(e) => e == Error::NotInitialized && self.record is None,
            },
    {
        match &self.record {
            Some(config) => Ok(config),
            None => Err(Error::NotInitialized),
        }
    }
}

} // verus!
