//! The settings that client and server start from where none are given.

use vstd::prelude::*;

verus! {

/// Address that the client's virtual interface gets.
pub const DEFAULT_VIRTUAL_IP: &'static str = "10.2.0.2";

/// Netmask of the client's virtual interface. It is not configurable.
pub const NETMASK: &'static str = "255.255.255.0";

/// MTU of the client's virtual interface.
pub const DEFAULT_MTU: i32 = 1400;

/// Address on which the server waits for its one client.
pub const DEFAULT_BIND: &'static str = "0.0.0.0:7000";

/// Port that the server exposes to the public.
pub const DEFAULT_PUBLIC_PORT: u16 = 8080;

} // verus!
