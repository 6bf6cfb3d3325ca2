//! Plain data carried through the management interface.

use vstd::prelude::*;

verus! {

/// The state the user wants the tunnel to be in.
#[derive(Clone, Copy, PartialEq, Eq, Structural, Debug)]
pub enum TargetState {
    /// Traffic must flow through the tunnel.
    Secured,
    /// The tunnel may be down.
    Unsecured,
}

/// The state the tunnel is actually in.
#[derive(Clone, Copy, PartialEq, Eq, Structural, Debug)]
pub enum SecurityState {
    Secured,
    Unsecured,
}

/// Full state of the daemon, as published on the `new_state` topic and
/// returned by `get_state`.
#[derive(Clone, Copy, PartialEq, Eq, Structural, Debug)]
pub struct DaemonState {
    /// The state the tunnel is currently in.
    pub state: SecurityState,
    /// The state the daemon is trying to reach.
    pub target_state: TargetState,
}

/// Identifier of a user account, as entered by the user.
pub type AccountToken = String;

/// Metadata about an account, as reported by the account backend.
#[derive(Clone, PartialEq, Eq, Debug)]
pub struct AccountData {
    /// When the account's paid time runs out.
    pub paid_until: String,
}

/// Transport protocol of a relay endpoint.
#[derive(Clone, Copy, PartialEq, Eq, Structural, Debug)]
pub enum TransportProtocol {
    Udp,
    Tcp,
}

/// A relay endpoint chosen by the user instead of the default relay list.
#[derive(Clone, PartialEq, Eq, Debug)]
pub struct RelayEndpoint {
    /// Host name or address of the relay.
    pub host: String,
    /// Port to connect to.
    pub port: u16,
    /// Protocol to use towards the relay.
    pub protocol: TransportProtocol,
}

/// A two-letter country code.
pub type CountryCode = String;

/// An IPv4 address, one octet per entry.
#[derive(Clone, Copy, PartialEq, Eq, Debug)]
pub struct IpAddress {
    pub octets: [u8; 4],
}

/// A geographical location, with coordinates in whole degrees.
#[derive(Clone, PartialEq, Eq, Debug)]
pub struct Location {
    /// Degrees of latitude, north positive.
    pub latitude: i64,
    /// Degrees of longitude, east positive.
    pub longitude: i64,
    pub country: String,
    pub city: String,
}

} // verus!
