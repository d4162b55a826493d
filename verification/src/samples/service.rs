//! A service with its settings.

use vstd::prelude::*;

verus! {

/// How a service behaves.
pub struct Config {
    pub max_retries: usize,
    pub timeout_ms: u64,
}

/// A service.
pub struct Service {
    config: Config,
}

/// The sum of eleven numbers.
pub open spec fn sum11(p1: u32, p2: u32, p3: u32, p4: u32, p5: u32, p6: u32, p7: u32, p8: u32, p9: u32, p10: u32, p11: u32) -> int {
    p1 + p2 + p3 + p4 + p5 + p6 + p7 + p8 + p9 + p10 + p11
}

impl Service {
    /// The settings the service runs with.
    pub closed spec fn settings(&self) -> Config {
        self.config
    }

    pub fn new(config: Config) -> (s: Self)
        ensures
            s.settings() == config,
    {
        Self { config }
    }

    /// Whether the service may retry at all.
    pub fn is_ready(&self) -> (r: bool)
        ensures
            r == (self.settings().max_retries > 0),
    {
        self.config.max_retries > 0
    }

    /// Handles an order, sending a notice when asked to.
    pub fn process_order(&self, order_id: u64, notify: bool) {
        if notify {
            self.send_notice(order_id);
        }
    }

    /// Whether `count` stays below the retry limit.
    pub fn check_limit(&self, count: usize) -> (r: bool)
        ensures
            r == (count < self.settings().max_retries),
    {
        if count < self.config.max_retries {
            true
        } else {
            false
        }
    }

    /// Records an audit event.
    pub fn audit(&self) {
        Helper::log("audit event");
    }

    /// The sum of the eleven stages.
    pub fn configure_pipeline(
        &self,
        p1: u32,
        p2: u32,
        p3: u32,
        p4: u32,
        p5: u32,
        p6: u32,
        p7: u32,
        p8: u32,
        p9: u32,
        p10: u32,
        p11: u32,
    ) -> (r: u32)
        requires
            sum11(p1, p2, p3, p4, p5, p6, p7, p8, p9, p10, p11) <= u32::MAX,
        ensures
            r == sum11(p1, p2, p3, p4, p5, p6, p7, p8, p9, p10, p11),
    {
        p1 + p2 + p3 + p4 + p5 + p6 + p7 + p8 + p9 + p10 + p11
    }

    /// A fixed result.
    pub fn compute(&self) -> (r: u32)
        ensures
            r == 100,
    {
        let unused_result: u32 = 42;
        100
    }

    fn send_notice(&self, _order_id: u64) {
    }
}

/// Helpers without state.
pub struct Helper;

impl Helper {
    /// Takes a message and does nothing with it.
    pub fn log(_msg: &str) {
    }
}

} // verus!
