use vstd::prelude::*;

use crate::text::{join_url, joined};

verus! {

/// Length of one reconciliation cycle, in milliseconds.
pub const REFRESH_INTERVAL_MS: u64 = 5000;

/// How long the loop sleeps after a cycle that took `elapsed` milliseconds:
/// the rest of the interval, or nothing once the interval is used up.
pub open spec fn sleep_after(interval: nat, elapsed: nat) -> nat {
    if elapsed < interval {
        (interval - elapsed) as nat
    } else {
        0
    }
}

/// The pause before the next cycle: `interval - elapsed`, clamped at zero.
pub fn remaining_sleep_ms(interval: u64, elapsed: u64) -> (r: u64)
    ensures
        r as nat == sleep_after(interval as nat, elapsed as nat),
        r <= interval,
{
    if elapsed < interval {
        interval - elapsed
    } else {
        0
    }
}

/// Where the ResourcePatch collection is listed, relative to the control
/// plane's address.
pub open spec fn resource_patch_list_path() -> Seq<char> {
    "apis/mmilev.io/v1alpha1/resourcepatches"@
}

/// The URL polled each cycle for the ResourcePatch collection.
pub fn resource_patch_list_url(address: &str) -> (r: String)
    ensures
        r@ == joined(address@, resource_patch_list_path()),
{
    proof {
        reveal_strlit("apis/mmilev.io/v1alpha1/resourcepatches");
    }
    join_url(address, "apis/mmilev.io/v1alpha1/resourcepatches")
}

} // verus!
