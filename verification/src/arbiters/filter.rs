//! The receive-filter arbiter: the user's choice, the transmit mode's
//! default, and the wide filter that a band sweep borrows and gives back.

use vstd::prelude::*;

use crate::types::{FilterType, TransmitMode};

verus! {

/// A request from the controls.
#[derive(PartialEq, Eq, Structural, Clone, Copy, Debug)]
pub enum FilterCommand {
    Cycle,
    SetTo(FilterType),
}

/// Everything the filter arbiter reacts to.
#[derive(PartialEq, Eq, Structural, Clone, Copy, Debug)]
pub enum FilterEvent {
    Command(FilterCommand),
    TransmitModeChanged(TransmitMode),
    SweepActive(bool),
}

/// The filter in use and the user's filter to return to after a sweep.
#[derive(PartialEq, Eq, Structural, Clone, Copy, Debug)]
pub struct FilterArbiter {
    pub filter: FilterType,
    pub user_filter: FilterType,
}

/// The arbiter after an event; the filter in use is published every time.
pub open spec fn filter_step(a: FilterArbiter, ev: FilterEvent) -> FilterArbiter {
    match ev {
        FilterEvent::Command(FilterCommand::Cycle) => {
            let f = match a.filter {
                FilterType::Wide => FilterType::Medium,
                FilterType::Medium => FilterType::Narrow,
                FilterType::Narrow => FilterType::CwNarrow,
                FilterType::CwNarrow => FilterType::Wide,
            };
            FilterArbiter { filter: f, user_filter: f }
        },
        FilterEvent::Command(FilterCommand::SetTo(f)) => FilterArbiter { filter: f, user_filter: f },
        FilterEvent::TransmitModeChanged(m) => {
            let f = match m {
                TransmitMode::Cw => FilterType::CwNarrow,
                TransmitMode::Am => FilterType::Wide,
                _ => FilterType::Narrow,
            };
            FilterArbiter { filter: f, user_filter: f }
        },
        FilterEvent::SweepActive(true) => FilterArbiter { filter: FilterType::Wide, user_filter: a.filter },
        FilterEvent::SweepActive(false) => FilterArbiter { filter: a.user_filter, user_filter: a.user_filter },
    }
}

impl FilterArbiter {
    /// Starts with the narrow filter.
    pub fn new() -> (a: Self)
        ensures
            a == (FilterArbiter { filter: FilterType::Narrow, user_filter: FilterType::Narrow }),
    {
        FilterArbiter { filter: FilterType::Narrow, user_filter: FilterType::Narrow }
    }

    /// Applies one event and returns the filter to publish.
    pub fn handle(&mut self, ev: FilterEvent) -> (published: FilterType)
        ensures
            *final(self) == filter_step(*old(self), ev),
            published == final(self).filter,
    {
        match ev {
            FilterEvent::Command(cmd) => match cmd {
                FilterCommand::Cycle => {
                    self.filter = self.filter.next();
                    self.user_filter = self.filter;
                },
                FilterCommand::SetTo(f) => {
                    self.filter = f;
                    self.user_filter = self.filter;
                },
            },
            FilterEvent::TransmitModeChanged(transmit_mode) => {
                self.filter = FilterType::default_for_mode(transmit_mode);
                self.user_filter = self.filter;
            },
            FilterEvent::SweepActive(active) => {
                if active {
                    self.user_filter = self.filter;
                    self.filter = FilterType::Wide;
                } else {
                    self.filter = self.user_filter;
                }
            },
        }
        self.filter
    }
}

/// A sweep uses the wide filter and, once over, gives back the filter that
/// was in use when it started.
pub proof fn lemma_sweep_restores_filter(a: FilterArbiter)
    ensures
        filter_step(a, FilterEvent::SweepActive(true)).filter == FilterType::Wide,
        filter_step(filter_step(a, FilterEvent::SweepActive(true)), FilterEvent::SweepActive(false)).filter
            == a.filter,
{
}

} // verus!
