//! A state object together with the configuration it runs under.
use crate::config::{Config, GameConfig};
use vstd::prelude::*;

verus! {

/// The application's state and its configuration.
pub struct Game<N> {
    pub node: N,
    pub config: GameConfig,
}

impl<N> Game<N> {
    /// A game with the default configuration.
    pub fn new(node: N) -> (r: Game<N>)
        ensures
            r.node == node,
            r.config == GameConfig::spec_default(),
    {
        Game { node, config: GameConfig::new() }
    }

    pub fn with_config(node: N, config: GameConfig) -> (r: Game<N>)
        ensures
            r.node == node,
            r.config == config,
    {
        Game { node, config }
    }

    /// Applies one setting to the configuration.
    pub fn add_config(self, c: Config) -> (r: Game<N>)
        ensures
            r.node == self.node,
            r.config == self.config.with_setting(c),
    {
        let Game { node, config } = self;
        Game { node, config: config.add_config(c) }
    }
}

} // verus!
