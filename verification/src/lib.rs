//! Window, event-loop and graphics-instance bootstrap.
//!
//! The library models the decisions of a minimal windowed application:
//! how each operating-system event changes the loop's control flag and
//! what diagnostic lines it prints, and how the configuration for a
//! Vulkan instance (application descriptor, validation layers, platform
//! extensions, creation flags) is computed. The operating-system calls
//! themselves (opening the window, pumping events, creating the
//! instance) live outside the library and hand it plain values.

pub mod control;
pub mod events;
pub mod instance;

use vstd::prelude::*;
use vstd::string::StringExecFns;

verus! {

/// The character sequences behind a sequence of strings.
pub open spec fn views(v: Seq<String>) -> Seq<Seq<char>> {
    v.map_values(|s: String| s@)
}

/// The fixed title of the one window the process opens.
pub fn window_title() -> (r: String)
    ensures
        r@ == "Triangle Foobar"@,
{
    String::from_str("Triangle Foobar")
}

} // verus!
