//! The purchase task descriptor: one immutable value per orchestrator run,
//! assembled from operator selections, plus the computation of the instant
//! at which order creation starts.

use vstd::prelude::*;

verus! {

/// Minutes-to-milliseconds factor for the priority window.
pub const MINUTE_MS: i64 = 60000;

/// Everything one snatch run needs: the purchase target, the sale instant,
/// and the timing/retry knobs. Immutable for the lifetime of a run.
pub struct PurchaseTask {
    pub ticket_id: String,
    pub perform_id: String,
    pub sku_id: String,
    /// Tickets per order, 1 to 4.
    pub quantity: u64,
    /// Sale opening instant, milliseconds since the epoch.
    pub sale_time: i64,
    /// Early-entry period before the nominal sale time, 0 to 60 minutes.
    pub priority_window_minutes: i64,
    /// Correction added to the computed wait target, -100 to 1000 ms.
    pub clock_offset_ms: i64,
    /// Mandatory pause between order creation and submission, at least 10 ms.
    pub think_time_ms: u64,
    /// Full create/submit cycles allowed, 1 to 10.
    pub retry_count: u64,
    /// Fixed pause before each retried cycle, 10 to 1000 ms.
    pub retry_interval_ms: u64,
    /// Attendee names submitted with the order, in operator order.
    pub real_names: Vec<String>,
}

impl PurchaseTask {
    /// The ranges the catalog-selection collaborator guarantees; the core
    /// trusts them and every orchestrator operation requires them.
    pub open spec fn valid(&self) -> bool {
        &&& 1 <= self.quantity <= 4
        &&& 0 <= self.sale_time
        &&& self.sale_time + 1000 <= i64::MAX
        &&& 0 <= self.priority_window_minutes <= 60
        &&& -100 <= self.clock_offset_ms <= 1000
        &&& 10 <= self.think_time_ms
        &&& 1 <= self.retry_count <= 10
        &&& 10 <= self.retry_interval_ms <= 1000
    }

    /// Runtime check of `valid`, for callers outside verified code.
    pub fn is_valid(&self) -> (r: bool)
        ensures
            r == self.valid(),
    {
        1 <= self.quantity && self.quantity <= 4
            && 0 <= self.sale_time && self.sale_time <= i64::MAX - 1000
            && 0 <= self.priority_window_minutes && self.priority_window_minutes <= 60
            && -100 <= self.clock_offset_ms && self.clock_offset_ms <= 1000
            && 10 <= self.think_time_ms
            && 1 <= self.retry_count && self.retry_count <= 10
            && 10 <= self.retry_interval_ms && self.retry_interval_ms <= 1000
    }

    /// The instant to wake for order creation:
    /// `sale_time - priority_window_minutes * 60000 + clock_offset_ms`.
    pub open spec fn spec_wait_target(&self) -> int {
        self.sale_time - self.priority_window_minutes * MINUTE_MS + self.clock_offset_ms
    }

    pub fn wait_target(&self) -> (r: i64)
        requires
            self.valid(),
        ensures
            r == self.spec_wait_target(),
    {
        self.sale_time - self.priority_window_minutes * MINUTE_MS + self.clock_offset_ms
    }
}

} // verus!
