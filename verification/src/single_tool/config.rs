//! The configuration of a typed loop.

use vstd::prelude::*;

verus! {

/// How the loop learns the size of the context window, past which it compacts its history.
#[derive(Clone, Copy, Debug, PartialEq, Eq, Structural)]
pub enum CompactPolicy {
    /// Take the window that the client knows, or ask the server for it.
    Discover,
    /// Do not compact.
    NoCompact,
    /// Take this window, in tokens.
    Override(usize),
}

/// The configuration of a typed loop.
#[derive(Clone, Copy, Debug, PartialEq, Eq, Structural)]
pub struct LoopConfig {
    /// How many turns the loop may take; there is no limit where it is not set.
    pub max_iterations: Option<usize>,
    /// How the loop learns the size of the context window.
    pub compact_policy: CompactPolicy,
}

/// Why a configuration cannot be built. Every field has a default, so that a builder never gives
/// this.
#[derive(Clone, Copy, Debug, PartialEq, Eq, Structural)]
pub enum LoopConfigBuilderError {
    UninitializedField,
}

/// Builder for [`LoopConfig`]: a field is `None` until it is set.
#[derive(Clone, Copy, Debug, PartialEq, Eq, Structural)]
pub struct LoopConfigBuilder {
    pub max_iterations: Option<Option<usize>>,
    pub compact_policy: Option<CompactPolicy>,
}

impl Default for LoopConfigBuilder {
    /// A builder in which nothing is set.
    fn default() -> (r: Self)
        ensures
            r == (LoopConfigBuilder { max_iterations: None, compact_policy: None }),
    {
        LoopConfigBuilder { max_iterations: None, compact_policy: None }
    }
}

impl LoopConfigBuilder {
    /// Sets how many turns the loop may take.
    pub fn max_iterations(self, value: Option<usize>) -> (r: Self)
        ensures
            r == (LoopConfigBuilder { max_iterations: Some(value), ..self }),
    {
        LoopConfigBuilder { max_iterations: Some(value), ..self }
    }

    /// Sets how the loop learns the size of the context window.
    pub fn compact_policy(self, value: CompactPolicy) -> (r: Self)
        ensures
            r == (LoopConfigBuilder { compact_policy: Some(value), ..self }),
    {
        LoopConfigBuilder { compact_policy: Some(value), ..self }
    }

    /// Builds the configuration. There is no limit, and the window is discovered, where those are
    /// not set.
    pub fn try_build(self) -> (r: Result<LoopConfig, LoopConfigBuilderError>)
        ensures
            r == Ok::<LoopConfig, LoopConfigBuilderError>(
                LoopConfig {
                    max_iterations: match self.max_iterations {
                        Some(limit) => limit,
                        None => None,
                    },
                    compact_policy: match self.compact_policy {
                        Some(policy) => policy,
                        None => CompactPolicy::Discover,
                    },
                },
            ),
    {
        Ok(
            LoopConfig {
                max_iterations: match self.max_iterations {
                    Some(limit) => limit,
                    None => None,
                },
                compact_policy: match self.compact_policy {
                    Some(policy) => policy,
                    None => CompactPolicy::Discover,
                },
            },
        )
    }
}

} // verus!
