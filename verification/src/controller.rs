//! Decisions of the control loop.
//!
//! The loop itself lives outside the core: each iteration drains at most
//! one pushed configuration update, polls the debounced button, re-renders
//! the display and sleeps. What it decides on each iteration is computed
//! here: when a polled button counts as a press, and when an accepted
//! configuration update requires the network link to be rebuilt.

use vstd::prelude::*;
use vstd::string::StrSliceExecFns;

use crate::config::InternalConfig;

verus! {

/// How many consecutive pressed polls one press-and-advance cycle spans:
/// holding the button repeats the advance once per cycle.
pub open spec fn press_cycle() -> int {
    5
}

/// One button poll of the control loop: while the button reads pressed the
/// counter runs through its cycle, and the display mode advances exactly
/// when the counter enters 1 — on the first pressed poll of a streak and
/// then once per full cycle while the button is held. Releasing the button
/// resets the counter.
pub fn button_step(counter: u8, pressed: bool) -> (r: (u8, bool))
    requires
        counter < press_cycle(),
    ensures
        r.0 as int == if pressed {
            (counter + 1) % press_cycle()
        } else {
            0
        },
        r.1 == (r.0 == 1),
        r.0 < press_cycle(),
{
    let next: u8 = if pressed {
        (counter + 1) % 5
    } else {
        0
    };
    (next, next == 1)
}

/// Whether two strings hold the same characters.
fn str_eq(a: &str, b: &str) -> (r: bool)
    ensures
        r == (a@ == b@),
{
    let n = a.unicode_len();
    if n != b.unicode_len() {
        return false;
    }
    let mut i: usize = 0;
    while i < n
        invariant
            i <= n,
            n == a@.len(),
            n == b@.len(),
            forall|j: int| 0 <= j < i ==> a@[j] == b@[j],
        decreases n - i,
    {
        if a.get_char(i) != b.get_char(i) {
            return false;
        }
        i = i + 1;
    }
    proof {
        assert(a@ =~= b@);
    }
    true
}

/// Whether applying `next` requires the network link to be rebuilt: it does
/// exactly when the network name or the password differs from what the link
/// was brought up with. A change of time zone or colour alone never
/// restarts the link.
pub fn needs_wifi_restart(current_ssid: &str, current_pass: &str, next: &InternalConfig) -> (r:
    bool)
    ensures
        r == (current_ssid@ != next@.wifi_ssid || current_pass@ != next@.wifi_pass),
{
    !str_eq(current_ssid, next.wifi_ssid()) || !str_eq(current_pass, next.wifi_pass())
}

} // verus!
