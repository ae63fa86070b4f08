//! Decisions of the UDP multicast broadcaster and listener.
//!
//! Sockets, the tokio runtime and the parsing of address text stay at the
//! program's edge; the edge hands this module a parsed `SocketAddress` and each
//! thing that happens to a running task, and performs the action it gets back.
use vstd::prelude::*;
use crate::config::AppConfig;
use crate::event::{Event, event_json};

verus! {

/// The largest payload that the broadcaster sends, and the size of the
/// listener's receive buffer.
pub const MAX_DATAGRAM_SIZE: usize = 8192;

/// An IP address, by its octets (IPv4) or its 16-bit segments (IPv6).
#[derive(Debug, Clone, Copy, PartialEq, Eq, Structural)]
pub enum IpAddress {
    V4(u8, u8, u8, u8),
    V6(u16, u16, u16, u16, u16, u16, u16, u16),
}

/// A socket address: an IP address and a port.
#[derive(Debug, Clone, Copy, PartialEq, Eq, Structural)]
pub struct SocketAddress {
    pub ip: IpAddress,
    pub port: u16,
}

/// What the network tasks refuse to start with.
#[derive(Debug, Clone, Copy, PartialEq, Eq, Structural)]
pub enum NetworkError {
    /// The broadcaster was configured without folders to watch.
    NoFolders,
    /// The address is not a multicast address.
    NotMulticast,
    /// The address is an IPv6 multicast group, which is not supported.
    Ipv6MulticastUnsupported,
}

/// Multicast addresses: IPv4 224.0.0.0 to 239.255.255.255, IPv6 ff00::/8.
pub open spec fn spec_is_multicast(ip: IpAddress) -> bool {
    match ip {
        IpAddress::V4(a, _, _, _) => 224 <= a <= 239,
        IpAddress::V6(a, _, _, _, _, _, _, _) => 0xff00 <= a,
    }
}

/// Checks if a given socket address is a multicast address (IPv4 or IPv6).
pub fn is_socket_addr_multicast(socket_addr: &SocketAddress) -> (r: bool)
    ensures
        r == spec_is_multicast(socket_addr.ip),
{
    match socket_addr.ip {
        IpAddress::V4(a, _, _, _) => 224 <= a && a <= 239,
        IpAddress::V6(a, _, _, _, _, _, _, _) => 0xff00 <= a,
    }
}

/// The group that the listener joins for a multicast address: its IPv4
/// octets; no group for a non-multicast or an IPv6 address.
pub open spec fn spec_join_group(addr: SocketAddress) -> Result<(u8, u8, u8, u8), NetworkError> {
    if !spec_is_multicast(addr.ip) {
        Err(NetworkError::NotMulticast)
    } else {
        match addr.ip {
            IpAddress::V4(a, b, c, d) => Ok((a, b, c, d)),
            IpAddress::V6(..) => Err(NetworkError::Ipv6MulticastUnsupported),
        }
    }
}

/// The multicast group to join for `addr` (on the unspecified interface).
///
/// Refuses an address that is not multicast, then an IPv6 group.
pub fn multicast_join_group(addr: &SocketAddress) -> (r: Result<(u8, u8, u8, u8), NetworkError>)
    ensures
        r == spec_join_group(*addr),
{
    if !is_socket_addr_multicast(addr) {
        return Err(NetworkError::NotMulticast);
    }
    match addr.ip {
        IpAddress::V4(a, b, c, d) => Ok((a, b, c, d)),
        IpAddress::V6(..) => Err(NetworkError::Ipv6MulticastUnsupported),
    }
}

/// The port that the listener binds on 0.0.0.0: that of its multicast address.
pub open spec fn spec_listener_port(addr: SocketAddress) -> Result<u16, NetworkError> {
    if spec_is_multicast(addr.ip) {
        Ok(addr.port)
    } else {
        Err(NetworkError::NotMulticast)
    }
}

/// The local port the listener binds for its configured address; a
/// non-multicast address is refused before anything is bound.
pub fn listener_bind_port(addr: &SocketAddress) -> (r: Result<u16, NetworkError>)
    ensures
        r == spec_listener_port(*addr),
{
    if is_socket_addr_multicast(addr) {
        Ok(addr.port)
    } else {
        Err(NetworkError::NotMulticast)
    }
}

/// A group that the listener can join belongs to an address the listener
/// binds for, on that address's port; of the addresses it binds for, it joins
/// exactly the IPv4 ones.
pub proof fn law_joinable_groups_are_bound(addr: SocketAddress)
    ensures
        spec_join_group(addr) is Ok ==> spec_listener_port(addr) == Ok::<u16, NetworkError>(
            addr.port,
        ),
        spec_listener_port(addr) is Ok ==> (spec_join_group(addr) is Ok <==> addr.ip is V4),
{
}

/// The broadcaster refuses to run without folders to watch.
pub fn check_broadcaster_config(app_config: &AppConfig) -> (r: Result<(), NetworkError>)
    ensures
        r is Ok <==> app_config.folders_to_watch@.len() > 0,
        r is Err ==> r == Err::<(), NetworkError>(NetworkError::NoFolders),
{
    if app_config.folders_to_watch.len() == 0 {
        Err(NetworkError::NoFolders)
    } else {
        Ok(())
    }
}

/// What happened to the running broadcaster.
#[derive(Debug)]
pub enum BroadcasterInput {
    /// The watcher produced an event.
    Event(Event),
    /// The shutdown signal changed to the given value.
    ShutdownChanged(bool),
    /// Neither the event channel nor the shutdown signal can deliver anything more.
    Closed,
}

/// What the broadcaster does next.
#[derive(Debug)]
pub enum BroadcasterAction {
    /// Send this payload to the multicast address, then wait for the next input.
    Send(Vec<u8>),
    /// Drop an event whose payload of the given length is too large for UDP.
    DropOversized(usize),
    /// Wait for the next input.
    Continue,
    /// Exit the loop.
    Stop,
}

/// One step of the broadcaster: an event becomes its JSON payload, sent when it
/// fits in `MAX_DATAGRAM_SIZE` bytes; a shutdown signal of `true` or the end of
/// all inputs stops the task.
pub fn broadcaster_step(input: BroadcasterInput) -> (r: BroadcasterAction)
    ensures
        match input {
            BroadcasterInput::Event(e) => {
                let payload = event_json(e.path@, e.op@);
                if payload.len() <= MAX_DATAGRAM_SIZE {
                    r matches BroadcasterAction::Send(p) && p@ == payload
                } else {
                    r == BroadcasterAction::DropOversized(payload.len() as usize)
                }
            },
            BroadcasterInput::ShutdownChanged(true) => r is Stop,
            BroadcasterInput::ShutdownChanged(false) => r is Continue,
            BroadcasterInput::Closed => r is Stop,
        },
        r matches BroadcasterAction::Send(p) ==> p@.len() <= MAX_DATAGRAM_SIZE,
{
    match input {
        BroadcasterInput::Event(e) => {
            let payload = e.to_json_bytes();
            if payload.len() > MAX_DATAGRAM_SIZE {
                BroadcasterAction::DropOversized(payload.len())
            } else {
                BroadcasterAction::Send(payload)
            }
        },
        BroadcasterInput::ShutdownChanged(stop) => {
            if stop {
                BroadcasterAction::Stop
            } else {
                BroadcasterAction::Continue
            }
        },
        BroadcasterInput::Closed => BroadcasterAction::Stop,
    }
}

/// What happened to the running listener.
#[derive(Debug)]
pub enum ListenerInput {
    /// A datagram arrived; `Some` with the event it decoded to, `None` when it
    /// did not decode as an event.
    Datagram(Option<Event>),
    /// Receiving failed.
    ReceiveFailed,
    /// The shutdown signal changed to the given value.
    ShutdownChanged(bool),
    /// Neither the socket nor the shutdown signal can deliver anything more.
    Closed,
}

/// What the listener does next.
#[derive(Debug)]
pub enum ListenerAction {
    /// Report the event, and pass it on to the web hub when `forward` is set.
    Deliver { event: Event, forward: bool },
    /// Report a datagram that was not an event, and go on.
    Reject,
    /// Wait this many milliseconds, then go on.
    Pause(u64),
    /// Wait for the next input.
    Continue,
    /// Exit the loop.
    Stop,
}

/// How long the listener waits after a failed receive.
pub const RECEIVE_RETRY_MILLIS: u64 = 100;

/// One step of the listener. `forward_to_web` is whether a web hub channel was
/// given to it.
pub fn listener_step(input: ListenerInput, forward_to_web: bool) -> (r: ListenerAction)
    ensures
        match input {
            ListenerInput::Datagram(Some(e)) => r == ListenerAction::Deliver {
                event: e,
                forward: forward_to_web,
            },
            ListenerInput::Datagram(None) => r is Reject,
            ListenerInput::ReceiveFailed => r == ListenerAction::Pause(RECEIVE_RETRY_MILLIS),
            ListenerInput::ShutdownChanged(true) => r is Stop,
            ListenerInput::ShutdownChanged(false) => r is Continue,
            ListenerInput::Closed => r is Stop,
        },
{
    match input {
        ListenerInput::Datagram(Some(event)) => ListenerAction::Deliver {
            event,
            forward: forward_to_web,
        },
        ListenerInput::Datagram(None) => ListenerAction::Reject,
        ListenerInput::ReceiveFailed => ListenerAction::Pause(RECEIVE_RETRY_MILLIS),
        ListenerInput::ShutdownChanged(stop) => {
            if stop {
                ListenerAction::Stop
            } else {
                ListenerAction::Continue
            }
        },
        ListenerInput::Closed => ListenerAction::Stop,
    }
}

/// An IPv4 address is multicast exactly when its first octet is one of
/// 224 to 239 (the block 224.0.0.0/4), whatever the other octets; an IPv6
/// address exactly when its first segment is ff00 or above (ff00::/8).
pub proof fn law_multicast_ranges(ip: IpAddress)
    ensures
        ip matches IpAddress::V4(a, _, _, _) ==> (spec_is_multicast(ip) <==> (224 <= a
            && a <= 239)),
        ip matches IpAddress::V6(a, _, _, _, _, _, _, _) ==> (spec_is_multicast(ip) <==> 0xff00
            <= a),
{
}

/// The listener joins exactly the configured IPv4 group, octets in order; it
/// refuses an address outside 224.0.0.0/4 and ff00::/8 as not multicast, and
/// an IPv6 multicast address as unsupported.
pub proof fn law_join_group(addr: SocketAddress)
    ensures
        addr.ip matches IpAddress::V4(a, b, c, d) ==> (224 <= a && a <= 239 ==> spec_join_group(
            addr,
        ) == Ok::<(u8, u8, u8, u8), NetworkError>((a, b, c, d))),
        addr.ip matches IpAddress::V4(a, b, c, d) ==> (!(224 <= a && a <= 239) ==> spec_join_group(
            addr,
        ) == Err::<(u8, u8, u8, u8), NetworkError>(NetworkError::NotMulticast)),
        addr.ip matches IpAddress::V6(a, _, _, _, _, _, _, _) ==> (0xff00 <= a ==> spec_join_group(
            addr,
        ) == Err::<(u8, u8, u8, u8), NetworkError>(NetworkError::Ipv6MulticastUnsupported)),
        addr.ip matches IpAddress::V6(a, _, _, _, _, _, _, _) ==> (a < 0xff00 ==> spec_join_group(
            addr,
        ) == Err::<(u8, u8, u8, u8), NetworkError>(NetworkError::NotMulticast)),
{
}

/// The listener binds the configured port for every multicast address, IPv4
/// or IPv6, and refuses every other address before binding.
pub proof fn law_listener_port(addr: SocketAddress)
    ensures
        addr.ip matches IpAddress::V4(a, _, _, _) ==> ((224 <= a && a <= 239) <==> spec_listener_port(
            addr,
        ) == Ok::<u16, NetworkError>(addr.port)),
        addr.ip matches IpAddress::V6(a, _, _, _, _, _, _, _) ==> ((0xff00 <= a)
            <==> spec_listener_port(addr) == Ok::<u16, NetworkError>(addr.port)),
        spec_listener_port(addr) is Err ==> spec_listener_port(addr) == Err::<u16, NetworkError>(
            NetworkError::NotMulticast,
        ),
{
}

/// The datagram limit is 8192 bytes, and the listener waits 100 ms after a
/// failed receive.
pub proof fn law_network_constants()
    ensures
        MAX_DATAGRAM_SIZE == 8192,
        RECEIVE_RETRY_MILLIS == 100,
{
}

} // verus!
