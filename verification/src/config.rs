//! Configuration for the model provider: API key, API base URL and model
//! identifier. The values are read from the process environment by the
//! surrounding program and handed in as plain strings; no component here
//! reads ambient state itself.

use vstd::prelude::*;

verus! {

/// Connection settings for the completion provider.
pub struct Config {
    pub api_key: String,
    pub api_base: String,
    pub model: String,
}

impl Config {
    /// Packs the three provider settings into one configuration value.
    pub fn new(api_key: String, api_base: String, model: String) -> (c: Config)
        ensures
            c.api_key == api_key,
            c.api_base == api_base,
            c.model == model,
    {
        Config { api_key, api_base, model }
    }
}

} // verus!
