//! Server-wide request counters.

use vstd::prelude::*;

verus! {

/// How many requests of each kind the service has answered, and how many
/// anomalies it has reported in all.
#[derive(Clone, Copy, Debug, PartialEq, Eq, Structural)]
pub struct Stats {
    pub total_queries: u64,
    pub total_simulations: u64,
    pub total_anomalies_detected: u64,
    pub total_forecasts: u64,
}

impl Stats {
    /// All counters at zero.
    pub fn new() -> (s: Stats)
        ensures
            s.total_queries == 0,
            s.total_simulations == 0,
            s.total_anomalies_detected == 0,
            s.total_forecasts == 0,
    {
        Stats { total_queries: 0, total_simulations: 0, total_anomalies_detected: 0, total_forecasts: 0 }
    }

    /// Counts one point query.
    pub fn record_query(&mut self)
        requires
            old(self).total_queries < u64::MAX,
        ensures
            *final(self) == (Stats { total_queries: (old(self).total_queries + 1) as u64, ..*old(self) }),
    {
        self.total_queries = self.total_queries + 1;
    }

    /// Counts one simulation.
    pub fn record_simulation(&mut self)
        requires
            old(self).total_simulations < u64::MAX,
        ensures
            *final(self) == (Stats {
                total_simulations: (old(self).total_simulations + 1) as u64,
                ..*old(self)
            }),
    {
        self.total_simulations = self.total_simulations + 1;
    }

    /// Counts the `count` anomalies that one detection reported.
    pub fn record_anomalies(&mut self, count: usize)
        requires
            old(self).total_anomalies_detected + count <= u64::MAX,
        ensures
            *final(self) == (Stats {
                total_anomalies_detected: (old(self).total_anomalies_detected + count) as u64,
                ..*old(self)
            }),
    {
        self.total_anomalies_detected = self.total_anomalies_detected + count as u64;
    }

    /// Counts one forecast.
    pub fn record_forecast(&mut self)
        requires
            old(self).total_forecasts < u64::MAX,
        ensures
            *final(self) == (Stats { total_forecasts: (old(self).total_forecasts + 1) as u64, ..*old(self) }),
    {
        self.total_forecasts = self.total_forecasts + 1;
    }
}

} // verus!
