//! The server's link to its (single) client.
//!
//! A client pointer either holds a sink for messages to the connected client
//! or holds nothing.  A fresh pointer holds nothing; connecting a websocket
//! gives it a sink, which it keeps until that connection stops delivering
//! messages.  Messages sent while there is no sink are dropped with a
//! warning.  The websocket plumbing runs outside the library; `link_step`
//! makes each decision.

use vstd::prelude::*;

verus! {

/// Whether the client pointer currently holds a sink.
pub enum Link {
    Detached,
    Attached,
}

/// What happened to the link.
pub enum LinkEvent {
    /// A websocket connection was accepted and a sink made for it.
    Connected,
    /// A message arrived from the client.
    Received,
    /// Receiving from the client failed.
    ReceiveFailed,
    /// The client's stream of messages ended.
    Closed,
    /// A message is to be sent to the client.
    SendRequested,
}

/// What to do about it.
pub enum LinkAction {
    /// Install the new sink (replacing any other), announce the connection,
    /// and start reading from the client.
    Attach,
    /// Log the message and keep reading.
    KeepReading,
    /// Stop reading, drop the sink, and announce the disconnection.
    Detach,
    /// Hand the message to the sink.
    Forward,
    /// Warn that there is no client to write to, and drop the message.
    WarnNoClient,
}

/// The decision that `link_step` makes.
pub open spec fn spec_link_step(link: Link, event: LinkEvent) -> (Link, LinkAction) {
    match event {
        LinkEvent::Connected => (Link::Attached, LinkAction::Attach),
        LinkEvent::Received => (link, LinkAction::KeepReading),
        LinkEvent::ReceiveFailed => (Link::Detached, LinkAction::Detach),
        LinkEvent::Closed => (Link::Detached, LinkAction::Detach),
        LinkEvent::SendRequested => match link {
            Link::Attached => (Link::Attached, LinkAction::Forward),
            Link::Detached => (Link::Detached, LinkAction::WarnNoClient),
        },
    }
}

/// The link of a pointer that is not connected to any client.
pub fn new_link() -> (link: Link)
    ensures
        link == Link::Detached,
{
    Link::Detached
}

/// Decides what to do about `event`, and what the link becomes.
pub fn link_step(link: Link, event: LinkEvent) -> (res: (Link, LinkAction))
    ensures
        res == spec_link_step(link, event),
{
    match event {
        LinkEvent::Connected => (Link::Attached, LinkAction::Attach),
        LinkEvent::Received => (link, LinkAction::KeepReading),
        LinkEvent::ReceiveFailed => (Link::Detached, LinkAction::Detach),
        LinkEvent::Closed => (Link::Detached, LinkAction::Detach),
        LinkEvent::SendRequested => match link {
            Link::Attached => (Link::Attached, LinkAction::Forward),
            Link::Detached => (Link::Detached, LinkAction::WarnNoClient),
        },
    }
}

/// The link after a sequence of events.
pub open spec fn link_after(link: Link, events: Seq<LinkEvent>) -> Link
    decreases events.len(),
{
    if events.len() == 0 {
        link
    } else {
        link_after(spec_link_step(link, events[0]).0, events.drop_first())
    }
}

/// A message is handed to a sink exactly when the pointer holds one; sending
/// never changes the link.
pub proof fn send_forwards_iff_attached(link: Link)
    ensures
        spec_link_step(link, LinkEvent::SendRequested).1 == LinkAction::Forward <==> link
            == Link::Attached,
        spec_link_step(link, LinkEvent::SendRequested).0 == link,
{
}

/// A pointer that no connection has reached holds no sink, whatever else
/// happened to it.
pub proof fn unconnected_stays_detached(events: Seq<LinkEvent>)
    requires
        forall|i: int| 0 <= i < events.len() ==> events[i] != LinkEvent::Connected,
    ensures
        link_after(Link::Detached, events) == Link::Detached,
    decreases events.len(),
{
    if events.len() > 0 {
        assert(events[0] != LinkEvent::Connected);
        unconnected_stays_detached(events.drop_first());
    }
}

/// Once a connection's stream ends or fails, the pointer holds no sink
/// until the next connection.
pub proof fn ended_connection_detaches(link: Link, events: Seq<LinkEvent>)
    requires
        events.len() > 0,
        events[0] == LinkEvent::Closed || events[0] == LinkEvent::ReceiveFailed,
        forall|i: int| 0 <= i < events.len() ==> events[i] != LinkEvent::Connected,
    ensures
        link_after(link, events) == Link::Detached,
{
    assert(events.drop_first().len() < events.len());
    assert forall|i: int| 0 <= i < events.drop_first().len() implies events.drop_first()[i]
        != LinkEvent::Connected by {
        assert(events.drop_first()[i] == events[i + 1]);
    }
    unconnected_stays_detached(events.drop_first());
}

/// After a connection, the pointer stays attached while messages arrive
/// and are sent.
pub proof fn connection_persists(link: Link, events: Seq<LinkEvent>)
    requires
        forall|i: int|
            0 <= i < events.len() ==> events[i] == LinkEvent::Received || events[i]
                == LinkEvent::SendRequested,
    ensures
        link_after(spec_link_step(link, LinkEvent::Connected).0, events) == Link::Attached,
    decreases events.len(),
{
    if events.len() > 0 {
        assert(events[0] == LinkEvent::Received || events[0] == LinkEvent::SendRequested);
        assert forall|i: int| 0 <= i < events.drop_first().len() implies (
        events.drop_first()[i] == LinkEvent::Received || events.drop_first()[i]
            == LinkEvent::SendRequested) by {
            assert(events.drop_first()[i] == events[i + 1]);
        }
        connection_persists(Link::Attached, events.drop_first());
    }
}

/// Connecting always installs the new sink, whether or not another client
/// was attached: the pointer ends up attached.
pub proof fn connecting_always_attaches(link: Link)
    ensures
        spec_link_step(link, LinkEvent::Connected) == (Link::Attached, LinkAction::Attach),
{
}

/// A message from the client is logged and reading goes on; the link is
/// unchanged.
pub proof fn receiving_keeps_reading(link: Link)
    ensures
        spec_link_step(link, LinkEvent::Received) == (link, LinkAction::KeepReading),
{
}

/// When the client's stream ends or fails, reading stops and the sink is
/// dropped, whatever the link was.
pub proof fn stream_end_detaches(link: Link)
    ensures
        spec_link_step(link, LinkEvent::Closed) == (Link::Detached, LinkAction::Detach),
        spec_link_step(link, LinkEvent::ReceiveFailed) == (Link::Detached, LinkAction::Detach),
{
}

/// Sending on a pointer without a sink warns and drops the message.
pub proof fn sending_without_client_warns()
    ensures
        spec_link_step(Link::Detached, LinkEvent::SendRequested) == (
        Link::Detached,
        LinkAction::WarnNoClient,
        ),
{
}

} // verus!
