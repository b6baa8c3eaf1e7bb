//! Trusted boundary to renet's in-memory reliable-message client.
//!
//! The [`renet::RenetClient`] owns the per-channel message queues and the
//! connection status of one logical connection. Everything it does here is
//! plain in-memory bookkeeping; the socket work lives with the transport,
//! outside this library. Its state is described to the verifier by the
//! uninterpreted functions below: the contents of the reliable-ordered
//! channel's inbound and outbound queues, and the connection status.

use vstd::prelude::*;

use renet::DefaultChannel;
use renet::RenetClient;
use std::time::Duration;

verus! {

#[verifier::external_type_specification]
#[verifier::external_body]
pub struct ExRenetClient(RenetClient);

/// The inbound messages of the reliable-ordered channel that are ready to be
/// received, oldest first.
pub uninterp spec fn client_inbound(c: RenetClient) -> Seq<Seq<u8>>;

/// The outbound messages queued on the reliable-ordered channel and not yet
/// acknowledged by the server, oldest first.
pub uninterp spec fn client_outbound(c: RenetClient) -> Seq<Seq<u8>>;

/// Whether the client's connection status is `Connected`.
pub uninterp spec fn client_connected(c: RenetClient) -> bool;

/// Whether the client's connection status is `Disconnected`.
pub uninterp spec fn client_disconnected(c: RenetClient) -> bool;

/// Whether the client was built with renet's default channel topology, so
/// that the reliable-ordered channel exists on both the send and the receive
/// side. Channel operations on a client without it panic inside renet.
pub uninterp spec fn client_channels_ready(c: RenetClient) -> bool;

/// The client's accumulated clock, in microseconds: the sum of the elapsed
/// times it has been advanced by since it was built.
pub uninterp spec fn client_clock_micros(c: RenetClient) -> int;

/// Relies on `RenetClient::new` called with `ConnectionConfig::default()`:
/// the fresh client starts in the `Connecting` status with its clock at zero,
/// and its channels are the three default ones (among them the
/// reliable-ordered channel), all empty.
#[verifier::external_body]
pub(crate) fn new_default_client() -> (c: RenetClient)
    ensures
        client_inbound(c) == Seq::<Seq<u8>>::empty(),
        client_outbound(c) == Seq::<Seq<u8>>::empty(),
        !client_connected(c),
        !client_disconnected(c),
        client_channels_ready(c),
        client_clock_micros(c) == 0,
{
    RenetClient::new(renet::ConnectionConfig::default())
}

/// Relies on `RenetClient::update`: it adds the elapsed time to the client's
/// clock and refreshes traffic statistics and the bookkeeping of
/// long-unacknowledged packets; it neither changes the connection status nor
/// adds or removes any channel message. The clock is a `Duration`, whose
/// addition panics on overflow; the bound keeps the accumulated clock within
/// `u64::MAX` microseconds, far below where `Duration` overflows.
#[verifier::external_body]
pub(crate) fn client_update(c: &mut RenetClient, elapsed_micros: u64)
    requires
        client_clock_micros(*old(c)) + elapsed_micros <= u64::MAX,
    ensures
        client_clock_micros(*final(c)) == client_clock_micros(*old(c)) + elapsed_micros,
        client_inbound(*final(c)) == client_inbound(*old(c)),
        client_outbound(*final(c)) == client_outbound(*old(c)),
        client_connected(*final(c)) == client_connected(*old(c)),
        client_disconnected(*final(c)) == client_disconnected(*old(c)),
        client_channels_ready(*final(c)) == client_channels_ready(*old(c)),
{
    c.update(Duration::from_micros(elapsed_micros));
}

/// Relies on `RenetClient::is_connected`: the status is one enum value, so a
/// connected client is in particular not disconnected.
#[verifier::external_body]
pub(crate) fn client_is_connected(c: &RenetClient) -> (r: bool)
    ensures
        r == client_connected(*c),
        r ==> !client_disconnected(*c),
{
    c.is_connected()
}

/// Relies on `RenetClient::receive_message` on the reliable-ordered channel:
/// a disconnected client hands out nothing; otherwise the oldest ready
/// inbound message is removed and returned, and `None` comes back exactly
/// when no message is ready. Nothing else about the client changes.
#[verifier::external_body]
pub(crate) fn client_receive_reliable(c: &mut RenetClient) -> (r: Option<Vec<u8>>)
    requires
        client_channels_ready(*old(c)),
    ensures
        client_outbound(*final(c)) == client_outbound(*old(c)),
        client_connected(*final(c)) == client_connected(*old(c)),
        client_disconnected(*final(c)) == client_disconnected(*old(c)),
        client_channels_ready(*final(c)),
        client_clock_micros(*final(c)) == client_clock_micros(*old(c)),
        client_disconnected(*old(c)) ==> r is None && client_inbound(*final(c))
            == client_inbound(*old(c)),
        !client_disconnected(*old(c)) ==> match r {
            Some(m) => client_inbound(*old(c)).len() > 0 && m@ == client_inbound(*old(c))[0]
                && client_inbound(*final(c)) == client_inbound(*old(c)).subrange(
                1,
                client_inbound(*old(c)).len() as int,
            ),
            None => client_inbound(*old(c)).len() == 0 && client_inbound(*final(c))
                == client_inbound(*old(c)),
        },
{
    match c.receive_message(DefaultChannel::ReliableOrdered) {
        Some(b) => Some(b.to_vec()),
        None => None,
    }
}

/// Relies on `RenetClient::send_message` on the reliable-ordered channel: a
/// disconnected client ignores the message; otherwise the message is either
/// appended to the outbound queue, or — when it would put the channel over
/// its memory bound — dropped while the client becomes disconnected. The
/// inbound queue never changes.
#[verifier::external_body]
pub(crate) fn client_send_reliable(c: &mut RenetClient, message: Vec<u8>)
    requires
        client_channels_ready(*old(c)),
    ensures
        client_inbound(*final(c)) == client_inbound(*old(c)),
        client_channels_ready(*final(c)),
        client_clock_micros(*final(c)) == client_clock_micros(*old(c)),
        client_disconnected(*old(c)) ==> *final(c) == *old(c),
        !client_disconnected(*old(c)) ==> (client_outbound(*final(c)) == client_outbound(
            *old(c),
        ).push(message@) && client_connected(*final(c)) == client_connected(*old(c))
            && !client_disconnected(*final(c))) || (client_outbound(*final(c)) == client_outbound(
            *old(c),
        ) && client_disconnected(*final(c)) && !client_connected(*final(c))),
{
    c.send_message(DefaultChannel::ReliableOrdered, message);
}

} // verus!
