//! The per-thread predicate that gates which events enter the pipeline.

use vstd::prelude::*;

use crate::config::Config;
use crate::event::Event;
use crate::event::level_rank;
use crate::event::level_rank_spec;
use crate::event::Level;

verus! {

/// A per-thread filter: a master switch and a least severity.
#[derive(Clone, Copy, Debug, PartialEq, Eq, Structural)]
pub struct Filters {
    pub enabled: bool,
    pub min_level: Level,
}

/// Whether `f` lets `e` into the pipeline: the filter is enabled and the
/// event is at least as severe as the filter's least severity.
pub open spec fn accepts_spec(f: Filters, e: Event) -> bool {
    f.enabled && level_rank_spec(e.level) >= level_rank_spec(f.min_level)
}

impl Filters {
    /// Derives a filter from the configuration.
    pub fn generate_by_config(config: &Config) -> (f: Filters)
        ensures
            f.enabled == config.log_enabled,
            f.min_level == config.min_level,
    {
        Filters { enabled: config.log_enabled, min_level: config.min_level }
    }

    /// Decides whether `e` enters the pipeline.
    pub fn accepts(&self, e: &Event) -> (b: bool)
        ensures
            b == accepts_spec(*self, *e),
    {
        self.enabled && level_rank(e.level) >= level_rank(self.min_level)
    }

    /// A filter that lets no event through.
    pub fn reject_all() -> (f: Filters)
        ensures
            !f.enabled,
            forall|e: Event| !accepts_spec(f, e),
    {
        Filters { enabled: false, min_level: Level::Error }
    }
}

} // verus!
