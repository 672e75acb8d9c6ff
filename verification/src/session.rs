//! One viewer's session on the live feed: what the server does on each
//! thing that reaches the session, and when the session ends.

use vstd::prelude::*;

verus! {

/// Something that reaches a session.
#[derive(Clone, Debug, PartialEq, Eq)]
pub enum SessionEvent {
    /// The viewer has just joined.
    Joined,
    /// The hub delivered a snapshot.
    Update(String),
    /// The session fell so far behind the hub that snapshots were missed.
    Missed,
    /// The hub has closed.
    FeedClosed,
    /// The viewer sent a ping with these bytes.
    Ping(Vec<u8>),
    /// The viewer asked to close.
    Close,
    /// The connection has ended.
    Disconnected,
    /// The viewer sent anything else, or a message could not be read.
    Other,
}

/// What the server does in answer.
#[derive(Clone, Debug, PartialEq, Eq)]
pub enum SessionAction {
    /// Read the whole state now and send it.
    SendSnapshot,
    /// Send this text.
    SendText(String),
    /// Answer the ping with these bytes.
    SendPong(Vec<u8>),
    /// End the session.
    Stop,
    /// Do nothing.
    Nothing,
}

/// The action as plain values.
pub enum ActionView {
    SendSnapshot,
    SendText(Seq<char>),
    SendPong(Seq<u8>),
    Stop,
    Nothing,
}

impl View for SessionAction {
    type V = ActionView;

    open spec fn view(&self) -> ActionView {
        match *self {
            SessionAction::SendSnapshot => ActionView::SendSnapshot,
            SessionAction::SendText(text) => ActionView::SendText(text@),
            SessionAction::SendPong(bytes) => ActionView::SendPong(bytes@),
            SessionAction::Stop => ActionView::Stop,
            SessionAction::Nothing => ActionView::Nothing,
        }
    }
}

/// The answer to an event: a viewer who joins gets a snapshot read at that
/// moment, and so does one who has missed snapshots; every snapshot from
/// the hub is passed on; a ping is answered with its own bytes; the
/// session ends when the hub has closed, the viewer asks to close or the
/// connection ends; all else is passed over.
pub open spec fn answer_to(event: SessionEvent) -> ActionView {
    match event {
        SessionEvent::Joined => ActionView::SendSnapshot,
        SessionEvent::Update(text) => ActionView::SendText(text@),
        SessionEvent::Missed => ActionView::SendSnapshot,
        SessionEvent::FeedClosed => ActionView::Stop,
        SessionEvent::Ping(bytes) => ActionView::SendPong(bytes@),
        SessionEvent::Close => ActionView::Stop,
        SessionEvent::Disconnected => ActionView::Stop,
        SessionEvent::Other => ActionView::Nothing,
    }
}

/// What the server does on an event.
pub fn session_step(event: SessionEvent) -> (action: SessionAction)
    ensures
        action@ == answer_to(event),
{
    match event {
        SessionEvent::Joined => SessionAction::SendSnapshot,
        SessionEvent::Update(text) => SessionAction::SendText(text),
        SessionEvent::Missed => SessionAction::SendSnapshot,
        SessionEvent::FeedClosed => SessionAction::Stop,
        SessionEvent::Ping(bytes) => SessionAction::SendPong(bytes),
        SessionEvent::Close => SessionAction::Stop,
        SessionEvent::Disconnected => SessionAction::Stop,
        SessionEvent::Other => SessionAction::Nothing,
    }
}

/// Whether the session goes on after an action was carried out: it ends
/// on `Stop`, and when a text or a pong could not be sent. A snapshot that
/// could not be sent does not end it.
pub open spec fn goes_on(action: ActionView, carried_out: bool) -> bool {
    match action {
        ActionView::Stop => false,
        ActionView::SendText(_) => carried_out,
        ActionView::SendPong(_) => carried_out,
        ActionView::SendSnapshot => true,
        ActionView::Nothing => true,
    }
}

/// Whether the session goes on after `action`, which was carried out or
/// has failed.
pub fn session_continues(action: &SessionAction, carried_out: bool) -> (r: bool)
    ensures
        r == goes_on(action@, carried_out),
{
    match action {
        SessionAction::Stop => false,
        SessionAction::SendText(_) => carried_out,
        SessionAction::SendPong(_) => carried_out,
        SessionAction::SendSnapshot => true,
        SessionAction::Nothing => true,
    }
}

} // verus!
