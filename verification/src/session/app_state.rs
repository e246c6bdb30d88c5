use crate::config::{Config};
use crate::config_loader::{app_settings, to_app_config, with_settings, DorisConfig};
use crate::tools::{registered_be_tools, registered_fe_tools, ToolRegistry};
use vstd::prelude::*;

verus! {

/// What the console holds while it runs: its settings, the reconciled record,
/// and its tools.
#[derive(Debug)]
pub struct AppState {
    pub config: Config,
    pub doris_config: DorisConfig,
    pub registry: ToolRegistry,
}

impl AppState {
    /// The state of a console that starts with a reconciled record.
    pub fn new(doris_config: DorisConfig) -> (r: AppState)
        ensures
            r.doris_config@ == doris_config@,
            r.config@ == app_settings(doris_config@),
            r.registry.fe_view() == registered_fe_tools(),
            r.registry.be_view() == registered_be_tools(),
    {
        let config = to_app_config(doris_config.clone());
        AppState { config, doris_config, registry: ToolRegistry::new() }
    }

    /// Takes new settings: they replace the settings held, and those of the
    /// record. The record is then to be written to disk.
    pub fn update_config(&mut self, new_config: Config)
        ensures
            final(self).config@ == new_config@,
            final(self).doris_config@ == with_settings(old(self).doris_config@, new_config@),
            final(self).registry == old(self).registry,
    {
        let record = self.doris_config.clone();
        self.doris_config = record.with_app_config(&new_config);
        self.config = new_config;
    }

    /// Puts the settings back to those that the console started with.
    pub fn reset_runtime_config(&mut self, fresh: Config)
        ensures
            final(self).config@ == fresh@,
            final(self).doris_config == old(self).doris_config,
            final(self).registry == old(self).registry,
    {
        self.config = fresh;
    }
}

} // verus!
