//! One client session: the handshake, the rule that a client speaks only in
//! its own name, and the route that each kind of message takes.
//!
//! A session starts in the handshake, becomes authenticated by a connect
//! request, and ends closed. Reading frames, writing frames and keeping the
//! handshake deadline are left to the caller, which reports each of them as a
//! [`SessionEvent`].

use crate::channel::{channel_send, open_channels, Channel};
use crate::directory::{audience, swept, user_ids};
use crate::json::{as_parsed, text_of};
use crate::messages::{
    decode_spec, encode_spec, lemma_decode_inverts_encode, lemma_encoded_field_is_found, parse,
    parse_spec, serialize, serialize_spec, ParseError, WsMessage, WsMessageView,
};
use crate::queue::enqueued;
use crate::state::ServerState;
use crate::text::{lemma_filter_members, str_eq, texts};
use vstd::prelude::*;

verus! {

/// The time that a client has to send its connect request, in seconds.
pub const AUTH_TIMEOUT_SECS: u64 = 10;

/// An envelope with its sender set to the session's user: the one field that
/// says whom the envelope is from is overwritten, and nothing else changes.
pub open spec fn enforce_spec(message: WsMessageView, sender: Seq<char>) -> WsMessageView {
    match message {
        WsMessageView::ChatMessage { id, chat_id, sender_id, sender_name, recipient_id, content, timestamp } => {
            WsMessageView::ChatMessage {
                id,
                chat_id,
                sender_id: sender,
                sender_name,
                recipient_id,
                content,
                timestamp,
            }
        },
        WsMessageView::Typing { chat_id, user_id, is_typing } => WsMessageView::Typing {
            chat_id,
            user_id: sender,
            is_typing,
        },
        WsMessageView::Presence { user_id, is_online, last_seen } => WsMessageView::Presence {
            user_id: sender,
            is_online,
            last_seen,
        },
        WsMessageView::DeliveryReceipt { message_id, chat_id, sender_id, delivered_to } => {
            WsMessageView::DeliveryReceipt { message_id, chat_id, sender_id, delivered_to: sender }
        },
        WsMessageView::ReadReceipt { chat_id, sender_id, user_id, message_ids } => WsMessageView::ReadReceipt {
            chat_id,
            sender_id,
            user_id: sender,
            message_ids,
        },
        WsMessageView::ProfileUpdate { user_id, name, phone, avatar_url, about, avatar_data } => {
            WsMessageView::ProfileUpdate { user_id: sender, name, phone, avatar_url, about, avatar_data }
        },
        WsMessageView::Connect { .. } | WsMessageView::AuthResponse { .. } | WsMessageView::Error { .. } => message,
    }
}

/// The user that an envelope says it is from, for the kinds that clients send
/// to one another.
pub open spec fn claimed_sender(message: WsMessageView) -> Option<Seq<char>> {
    match message {
        WsMessageView::ChatMessage { sender_id, .. } => Some(sender_id),
        WsMessageView::Typing { user_id, .. } => Some(user_id),
        WsMessageView::Presence { user_id, .. } => Some(user_id),
        WsMessageView::DeliveryReceipt { delivered_to, .. } => Some(delivered_to),
        WsMessageView::ReadReceipt { user_id, .. } => Some(user_id),
        WsMessageView::ProfileUpdate { user_id, .. } => Some(user_id),
        WsMessageView::Connect { .. } | WsMessageView::AuthResponse { .. } | WsMessageView::Error { .. } => None,
    }
}

/// Where an envelope goes.
#[derive(Debug, Clone, PartialEq, Eq)]
pub enum Route {
    /// To one user, and into that user's queue if no channel takes it.
    SendOrQueue { to: String },
    /// To everyone who is online but the sender; never queued.
    Broadcast,
    /// Nowhere: the kind is not for clients to send.
    Ignore,
}

/// What a [`Route`] holds.
pub enum RouteView {
    SendOrQueue { to: Seq<char> },
    Broadcast,
    Ignore,
}

impl View for Route {
    type V = RouteView;

    open spec fn view(&self) -> RouteView {
        match self {
            Route::SendOrQueue { to } => RouteView::SendOrQueue { to: to@ },
            Route::Broadcast => RouteView::Broadcast,
            Route::Ignore => RouteView::Ignore,
        }
    }
}

/// The route of each kind: chat messages go to their recipient, receipts go
/// back to the sender of the message they are about, and typing, presence and
/// profile notices go to everyone else. The rest is ignored.
pub open spec fn route_spec(message: WsMessageView) -> RouteView {
    match message {
        WsMessageView::ChatMessage { recipient_id, .. } => RouteView::SendOrQueue { to: recipient_id },
        WsMessageView::DeliveryReceipt { sender_id, .. } => RouteView::SendOrQueue { to: sender_id },
        WsMessageView::ReadReceipt { sender_id, .. } => RouteView::SendOrQueue { to: sender_id },
        WsMessageView::Typing { .. } => RouteView::Broadcast,
        WsMessageView::Presence { .. } => RouteView::Broadcast,
        WsMessageView::ProfileUpdate { .. } => RouteView::Broadcast,
        WsMessageView::Connect { .. } | WsMessageView::AuthResponse { .. } | WsMessageView::Error { .. } => {
            RouteView::Ignore
        },
    }
}

/// Whether a route, taken for a message of the given sender, can reach a user.
pub open spec fn reaches(route: RouteView, sender: Seq<char>, user_id: Seq<char>) -> bool {
    match route {
        RouteView::SendOrQueue { to } => user_id == to,
        RouteView::Broadcast => user_id != sender,
        RouteView::Ignore => false,
    }
}

/// What became of an inbound envelope.
#[derive(Debug, Clone, Copy, PartialEq, Eq, Structural)]
pub enum Outcome {
    /// A channel of the addressee took it.
    Sent,
    /// No channel took it: it waits in the addressee's queue.
    Queued,
    /// It was offered to everyone else who is online.
    Broadcast,
    /// It was of a kind that clients do not send, and was dropped.
    Ignored,
}

/// Overwrites the field that says whom the envelope is from with the
/// session's user.
pub fn enforce_sender(message: WsMessage, sender_id: &str) -> (secured: WsMessage)
    ensures
        secured@ == enforce_spec(message@, sender_id@),
{
    match message {
        WsMessage::ChatMessage { id, chat_id, sender_id: _, sender_name, recipient_id, content, timestamp } => {
            WsMessage::ChatMessage {
                id,
                chat_id,
                sender_id: sender_id.to_owned(),
                sender_name,
                recipient_id,
                content,
                timestamp,
            }
        },
        WsMessage::Typing { chat_id, user_id: _, is_typing } => WsMessage::Typing {
            chat_id,
            user_id: sender_id.to_owned(),
            is_typing,
        },
        WsMessage::Presence { user_id: _, is_online, last_seen } => WsMessage::Presence {
            user_id: sender_id.to_owned(),
            is_online,
            last_seen,
        },
        WsMessage::DeliveryReceipt { message_id, chat_id, sender_id: original_sender, delivered_to: _ } => {
            WsMessage::DeliveryReceipt {
                message_id,
                chat_id,
                sender_id: original_sender,
                delivered_to: sender_id.to_owned(),
            }
        },
        WsMessage::ReadReceipt { chat_id, sender_id: original_sender, user_id: _, message_ids } => {
            WsMessage::ReadReceipt {
                chat_id,
                sender_id: original_sender,
                user_id: sender_id.to_owned(),
                message_ids,
            }
        },
        WsMessage::ProfileUpdate { user_id: _, name, phone, avatar_url, about, avatar_data } => {
            WsMessage::ProfileUpdate { user_id: sender_id.to_owned(), name, phone, avatar_url, about, avatar_data }
        },
        WsMessage::Connect { user_id, token } => WsMessage::Connect { user_id, token },
        WsMessage::AuthResponse { success, message } => WsMessage::AuthResponse { success, message },
        WsMessage::Error { message } => WsMessage::Error { message },
    }
}

/// The route that an envelope takes.
pub fn route_of(message: &WsMessage) -> (route: Route)
    ensures
        route@ == route_spec(message@),
{
    match message {
        WsMessage::ChatMessage { recipient_id, .. } => Route::SendOrQueue { to: recipient_id.clone() },
        WsMessage::DeliveryReceipt { sender_id, .. } => Route::SendOrQueue { to: sender_id.clone() },
        WsMessage::ReadReceipt { sender_id, .. } => Route::SendOrQueue { to: sender_id.clone() },
        WsMessage::Typing { .. } => Route::Broadcast,
        WsMessage::Presence { .. } => Route::Broadcast,
        WsMessage::ProfileUpdate { .. } => Route::Broadcast,
        WsMessage::Connect { .. } => Route::Ignore,
        WsMessage::AuthResponse { .. } => Route::Ignore,
        WsMessage::Error { .. } => Route::Ignore,
    }
}

/// What the state is after an envelope of the given sender was dispatched
/// with the given outcome: only a queued envelope changes anything, and it
/// joins the addressee's queue in the form that carries the session's user.
pub open spec fn dispatched(
    before: ServerState,
    after: ServerState,
    message: WsMessageView,
    sender: Seq<char>,
    outcome: Outcome,
) -> bool {
    &&& after.directory() == before.directory()
    &&& match route_spec(message) {
        RouteView::SendOrQueue { to } => {
            &&& outcome == Outcome::Sent || outcome == Outcome::Queued
            &&& !before.online(to) ==> outcome == Outcome::Queued
            &&& outcome == Outcome::Sent ==> after.pending() == before.pending()
            &&& outcome == Outcome::Queued ==> after.pending() == before.pending().insert(
                to,
                enqueued(before.queued(to), serialize_spec(enforce_spec(message, sender))),
            )
        },
        RouteView::Broadcast => outcome == Outcome::Broadcast && after.pending() == before.pending(),
        RouteView::Ignore => outcome == Outcome::Ignored && after.pending() == before.pending(),
    }
}

/// The route that an inbound envelope takes and the text that it leaves as:
/// the envelope with the session's user as its sender, written out again.
pub fn outbound_form(message: WsMessage, sender_id: &str) -> (form: (Route, String))
    ensures
        form.0@ == route_spec(message@),
        form.1@ == serialize_spec(enforce_spec(message@, sender_id@)),
{
    let secured = enforce_sender(message, sender_id);
    let safe_text = serialize(&secured);
    (route_of(&secured), safe_text)
}

/// Sets the envelope's sender to the session's user, writes it out again, and
/// sends the new text along the envelope's route.
pub fn dispatch(message: WsMessage, sender_id: &str, state: &mut ServerState) -> (outcome: Outcome)
    ensures
        dispatched(*old(state), *final(state), message@, sender_id@, outcome),
{
    let (route, safe_text) = outbound_form(message, sender_id);
    match route {
        Route::SendOrQueue { to } => {
            if state.send_or_queue(to.as_str(), safe_text.as_str()) {
                Outcome::Sent
            } else {
                Outcome::Queued
            }
        },
        Route::Broadcast => {
            state.broadcast(safe_text.as_str(), Some(sender_id));
            Outcome::Broadcast
        },
        Route::Ignore => Outcome::Ignored,
    }
}

/// The name of the field that says whom an envelope is from, for the kinds
/// that clients send to one another.
pub open spec fn sender_field(message: WsMessageView) -> Option<Seq<char>> {
    match message {
        WsMessageView::ChatMessage { .. } => Some("sender_id"@),
        WsMessageView::Typing { .. } => Some("user_id"@),
        WsMessageView::Presence { .. } => Some("user_id"@),
        WsMessageView::DeliveryReceipt { .. } => Some("delivered_to"@),
        WsMessageView::ReadReceipt { .. } => Some("user_id"@),
        WsMessageView::ProfileUpdate { .. } => Some("user_id"@),
        WsMessageView::Connect { .. } | WsMessageView::AuthResponse { .. } | WsMessageView::Error { .. } => None,
    }
}

/// Whatever an envelope said of its sender when it came in, the form that is
/// passed on names the session's user: in the object that is written out, the
/// field that says whom the envelope is from holds the session's user; the
/// object reads back as the envelope with that user as its sender; and it
/// takes the route that the envelope had.
pub proof fn lemma_sender_is_enforced(message: WsMessageView, sender: Seq<char>)
    requires
        !(route_spec(message) is Ignore),
    ensures
        claimed_sender(enforce_spec(message, sender)) == Some(sender),
        sender_field(message) is Some,
        text_of(as_parsed(encode_spec(enforce_spec(message, sender))), sender_field(message)->0) == Some(sender),
        decode_spec(as_parsed(encode_spec(enforce_spec(message, sender)))) == Ok::<WsMessageView, ParseError>(
            enforce_spec(message, sender),
        ),
        route_spec(enforce_spec(message, sender)) == route_spec(message),
{
    let secured = enforce_spec(message, sender);
    lemma_decode_inverts_encode(secured);
    let at: int = match message {
        WsMessageView::ChatMessage { .. } => 3,
        WsMessageView::Typing { .. } => 2,
        WsMessageView::Presence { .. } => 1,
        WsMessageView::DeliveryReceipt { .. } => 4,
        WsMessageView::ReadReceipt { .. } => 3,
        _ => 1,
    };
    lemma_encoded_field_is_found(secured, at);
}

/// Enforcing the sender twice is enforcing it once, and an envelope that
/// already names the session's user is left as it is.
pub proof fn lemma_enforcement_settles(message: WsMessageView, sender: Seq<char>)
    ensures
        enforce_spec(enforce_spec(message, sender), sender) == enforce_spec(message, sender),
        claimed_sender(message) == Some(sender) ==> enforce_spec(message, sender) == message,
{
}

/// No route leads an envelope back to its sender: a broadcast leaves the
/// sender out, and an envelope for one user goes to that user alone, who is
/// the sender only if the envelope is addressed to its own sender.
pub proof fn lemma_sender_not_reached(message: WsMessageView, sender: Seq<char>)
    requires
        match route_spec(message) {
            RouteView::SendOrQueue { to } => to != sender,
            _ => true,
        },
    ensures
        !reaches(route_spec(enforce_spec(message, sender)), sender, sender),
{
}

/// What the state is after a frame of the given sender was handled: a frame
/// that is no envelope changes nothing, and an envelope is dispatched.
pub open spec fn handled(
    before: ServerState,
    after: ServerState,
    parsed: Result<WsMessageView, ParseError>,
    sender: Seq<char>,
) -> bool {
    match parsed {
        Ok(message) => exists|outcome: Outcome| dispatched(before, after, message, sender, outcome),
        Err(_) => after.directory() == before.directory() && after.pending() == before.pending(),
    }
}

/// Handle an incoming message from a connected client.
///
/// A text that is no envelope is dropped, and the reason is returned. An
/// envelope gets the session's user as its sender and is written out again,
/// and that new text, never the one that came in, is sent along the
/// envelope's route; what became of it is returned.
pub fn handle_message(text: &str, sender_id: &str, state: &mut ServerState) -> (result: Result<
    Outcome,
    ParseError,
>)
    ensures
        handled(*old(state), *final(state), parse_spec(text@), sender_id@),
        match result {
            Ok(outcome) => parse_spec(text@) is Ok && dispatched(
                *old(state),
                *final(state),
                parse_spec(text@)->Ok_0,
                sender_id@,
                outcome,
            ),
            Err(error) => parse_spec(text@) == Err::<WsMessageView, ParseError>(error),
        },
{
    match parse(text) {
        Ok(message) => {
            let ghost envelope = message@;
            let outcome = dispatch(message, sender_id, state);
            assert(dispatched(*old(state), *state, envelope, sender_id@, outcome));
            Ok(outcome)
        },
        Err(error) => Err(error),
    }
}

/// The user that a connect request is accepted for, if it is: the request
/// names a user, and carries the access token where one is configured.
pub open spec fn accepted(message: WsMessageView, expected_token: Seq<char>) -> Option<Seq<char>> {
    match message {
        WsMessageView::Connect { user_id, token } => if user_id.len() > 0 && (expected_token.len() == 0 || token
            == Some(expected_token)) {
            Some(user_id)
        } else {
            None
        },
        _ => None,
    }
}

/// The user that the first frame of a session is accepted for, if it is.
pub open spec fn accepted_by_frame(parsed: Result<WsMessageView, ParseError>, expected_token: Seq<char>) -> Option<
    Seq<char>,
> {
    match parsed {
        Ok(message) => accepted(message, expected_token),
        Err(_) => None,
    }
}

/// Whether a user was accepted, and is the one that the rules give.
pub open spec fn accepts(user: Option<String>, expected: Option<Seq<char>>) -> bool {
    match user {
        Some(user_id) => expected == Some(user_id@),
        None => expected is None,
    }
}

/// Checks an envelope as the first of a session: it must be a connect request
/// with a user name that is not empty and, where the expected token is not
/// empty, with that token.
pub fn check_connect(message: &WsMessage, expected_token: &str) -> (user: Option<String>)
    ensures
        accepts(user, accepted(message@, expected_token@)),
{
    match message {
        WsMessage::Connect { user_id, token } => {
            if user_id.as_str().is_empty() {
                return None;
            }
            if !expected_token.is_empty() {
                match token {
                    Some(received_token) => {
                        if !str_eq(received_token.as_str(), expected_token) {
                            return None;
                        }
                    },
                    None => {
                        return None;
                    },
                }
            }
            Some(user_id.clone())
        },
        _ => None,
    }
}

/// Checks the first text frame of a session and gives the user that it is accepted for.
pub fn authenticate(text: &str, expected_token: &str) -> (user: Option<String>)
    ensures
        accepts(user, accepted_by_frame(parse_spec(text@), expected_token@)),
{
    match parse(text) {
        Ok(message) => check_connect(&message, expected_token),
        Err(_) => None,
    }
}

/// The answer that a client gets once it is accepted.
pub open spec fn welcome() -> WsMessageView {
    WsMessageView::AuthResponse { success: true, message: "Connected to server"@ }
}

/// The notice that a user is online.
pub open spec fn online_notice(user_id: Seq<char>) -> WsMessageView {
    WsMessageView::Presence { user_id, is_online: true, last_seen: None }
}

/// The notice that a user went offline at the given time.
pub open spec fn offline_notice(user_id: Seq<char>, now_millis: i64) -> WsMessageView {
    WsMessageView::Presence { user_id, is_online: false, last_seen: Some(now_millis) }
}

/// The text of the answer that a client gets once it is accepted.
pub fn welcome_text() -> (text: String)
    ensures
        text@ == serialize_spec(welcome()),
{
    serialize(&WsMessage::AuthResponse { success: true, message: "Connected to server".to_owned() })
}

/// The text of the notice that a user is online.
pub fn online_notice_text(user_id: &str) -> (text: String)
    ensures
        text@ == serialize_spec(online_notice(user_id@)),
{
    serialize(&WsMessage::Presence { user_id: user_id.to_owned(), is_online: true, last_seen: None })
}

/// The text of the notice that a user went offline at the given time.
pub fn offline_notice_text(user_id: &str, now_millis: i64) -> (text: String)
    ensures
        text@ == serialize_spec(offline_notice(user_id@, now_millis)),
{
    serialize(&WsMessage::Presence { user_id: user_id.to_owned(), is_online: false, last_seen: Some(now_millis) })
}

/// The notices that the given users are online, one for each, in their order.
pub open spec fn notices(users: Seq<Seq<char>>) -> Seq<Seq<char>> {
    users.map_values(|user_id: Seq<char>| serialize_spec(online_notice(user_id)))
}

/// What a new session is sent: the welcome, then a notice for each of the
/// others who are online, then what waited in the user's queue, oldest first.
pub open spec fn greeting_spec(others: Seq<Seq<char>>, queued: Seq<Seq<char>>) -> Seq<Seq<char>> {
    seq![serialize_spec(welcome())] + notices(others) + queued
}

/// Gathers what a new session of the user is sent, and empties the user's queue.
///
/// The others who are online are everyone in the directory but the user, each
/// once; the directory promises no order among them.
pub fn greeting(state: &mut ServerState, user_id: &str) -> (frames: Vec<String>)
    ensures
        final(state).directory() == old(state).directory(),
        final(state).pending() == old(state).pending().remove(user_id@),
        exists|others: Seq<Seq<char>>|
            others.no_duplicates() && others.to_set() == audience(old(state).directory(), Some(user_id@))
                && texts(frames@) == #[trigger] greeting_spec(others, old(state).queued(user_id@)),
{
    let mut frames: Vec<String> = Vec::new();
    frames.push(welcome_text());
    let listed = state.online_users();
    let ghost keep = |other: Seq<char>| other != user_id@;
    let ghost mut others: Seq<Seq<char>> = Seq::empty();
    proof {
        assert(texts(frames@) =~= seq![serialize_spec(welcome())] + notices(others));
    }
    let mut i: usize = 0;
    while i < listed.len()
        invariant
            i <= listed.len(),
            keep == |other: Seq<char>| other != user_id@,
            others == user_ids(listed@).take(i as int).filter(keep),
            texts(frames@) == seq![serialize_spec(welcome())] + notices(others),
        decreases listed.len() - i,
    {
        let other = &listed[i];
        proof {
            let prefix = user_ids(listed@).take(i as int);
            let next = user_ids(listed@).take(i + 1);
            assert(next == prefix.push(other@));
            assert(next.drop_last() == prefix);
            reveal(Seq::filter);
            assert(next.filter(keep) == if keep(other@) {
                prefix.filter(keep).push(other@)
            } else {
                prefix.filter(keep)
            });
        }
        if !str_eq(other.as_str(), user_id) {
            let ghost before = frames@;
            let notice = online_notice_text(other.as_str());
            frames.push(notice);
            proof {
                assert(texts(frames@) =~= texts(before).push(notice@));
                assert(notices(others.push(other@)) =~= notices(others).push(notice@));
                assert(texts(frames@) =~= seq![serialize_spec(welcome())] + notices(others.push(other@)));
                others = others.push(other@);
            }
        }
        i += 1;
    }
    let ghost announced = frames@;
    let mut pending = state.take_pending_messages(user_id);
    let ghost queued = pending@;
    frames.append(&mut pending);
    proof {
        let all = user_ids(listed@);
        assert(all.take(listed@.len() as int) == all);
        lemma_filter_members(all, keep);
        assert(others.to_set() =~= audience(old(state).directory(), Some(user_id@))) by {
            assert forall|other: Seq<char>| others.to_set().contains(other) <==> audience(
                old(state).directory(),
                Some(user_id@),
            ).contains(other) by {
                assert(others.to_set().contains(other) <==> others.contains(other));
            }
        }
        assert(texts(frames@) =~= texts(announced) + texts(queued));
        assert(texts(frames@) == greeting_spec(others, old(state).queued(user_id@)));
    }
    frames
}

/// Brings an accepted session into the relay.
///
/// The session's channel gets the greeting, frame by frame, and only this
/// session gets it. Then the channel joins the user's entry in the directory,
/// and everyone else is told that the user is online.
pub fn open_session(state: &mut ServerState, user_id: &str, outbound: Channel)
    ensures
        final(state).directory() == old(state).directory().insert(
            user_id@,
            old(state).channels(user_id@).push(outbound),
        ),
        final(state).pending() == old(state).pending().remove(user_id@),
{
    let frames = greeting(state, user_id);
    let mut i: usize = 0;
    while i < frames.len()
        invariant
            i <= frames.len(),
        decreases frames.len() - i,
    {
        let _ = channel_send(&outbound, frames[i].clone());
        i += 1;
    }
    state.add_client(user_id.to_owned(), outbound);
    state.broadcast(online_notice_text(user_id).as_str(), Some(user_id));
}

/// Takes a session that ended out of the relay.
///
/// The user's closed channels leave the directory, and the user's entry with
/// the last of them; then everyone who is online is told that the user went
/// offline at the given time.
pub fn close_session(state: &mut ServerState, user_id: &str, now_millis: i64)
    ensures
        final(state).pending() == old(state).pending(),
        exists|closed: Seq<bool>|
            closed.len() == old(state).channels(user_id@).len() && final(state).directory() == swept(
                old(state).directory(),
                user_id@,
                #[trigger] open_channels(old(state).channels(user_id@), closed),
            ),
{
    state.remove_client(user_id);
    state.broadcast(offline_notice_text(user_id, now_millis).as_str(), None);
}

/// What the caller reports of a session's socket, its writer and its clock.
#[derive(Debug, Clone, PartialEq, Eq)]
pub enum SessionEvent {
    /// A text frame came in.
    Text(String),
    /// A binary frame came in.
    Binary,
    /// A ping came in; the socket answers it by itself.
    Ping,
    /// A pong came in.
    Pong,
    /// The client sent a close frame.
    Close,
    /// Reading from the socket failed.
    ReadError,
    /// The socket's stream of frames ended.
    StreamEnded,
    /// The time for the connect request is over.
    DeadlineElapsed,
    /// Writing to the socket failed, or the outbound channel is gone.
    WriterStopped,
}

/// What a [`SessionEvent`] holds.
pub enum SessionEventView {
    Text(Seq<char>),
    Binary,
    Ping,
    Pong,
    Close,
    ReadError,
    StreamEnded,
    DeadlineElapsed,
    WriterStopped,
}

impl View for SessionEvent {
    type V = SessionEventView;

    open spec fn view(&self) -> SessionEventView {
        match self {
            SessionEvent::Text(text) => SessionEventView::Text(text@),
            SessionEvent::Binary => SessionEventView::Binary,
            SessionEvent::Ping => SessionEventView::Ping,
            SessionEvent::Pong => SessionEventView::Pong,
            SessionEvent::Close => SessionEventView::Close,
            SessionEvent::ReadError => SessionEventView::ReadError,
            SessionEvent::StreamEnded => SessionEventView::StreamEnded,
            SessionEvent::DeadlineElapsed => SessionEventView::DeadlineElapsed,
            SessionEvent::WriterStopped => SessionEventView::WriterStopped,
        }
    }
}

/// A client session.
pub enum Session {
    /// The socket is open and no connect request was accepted yet; the
    /// session holds the channel that it will register.
    Handshake { outbound: Channel },
    /// The session speaks for a user and is in the directory.
    Authenticated { user_id: String },
    /// The session is over.
    Closed,
}

/// What a [`Session`] holds.
pub enum SessionView {
    Handshake { outbound: Channel },
    Authenticated { user_id: Seq<char> },
    Closed,
}

impl View for Session {
    type V = SessionView;

    open spec fn view(&self) -> SessionView {
        match self {
            Session::Handshake { outbound } => SessionView::Handshake { outbound: *outbound },
            Session::Authenticated { user_id } => SessionView::Authenticated { user_id: user_id@ },
            Session::Closed => SessionView::Closed,
        }
    }
}

/// Nothing in the directory or in the queues changed.
pub open spec fn untouched(before: ServerState, after: ServerState) -> bool {
    after.directory() == before.directory() && after.pending() == before.pending()
}

/// A session of the user joined the directory with its channel, and the
/// user's queue was drained.
pub open spec fn opened(before: ServerState, after: ServerState, user_id: Seq<char>, outbound: Channel) -> bool {
    &&& after.directory() == before.directory().insert(user_id, before.channels(user_id).push(outbound))
    &&& after.pending() == before.pending().remove(user_id)
}

/// The user's closed channels left the directory, and nothing else changed.
pub open spec fn departed(before: ServerState, after: ServerState, user_id: Seq<char>) -> bool {
    &&& after.pending() == before.pending()
    &&& exists|closed: Seq<bool>|
        closed.len() == before.channels(user_id).len() && after.directory() == swept(
            before.directory(),
            user_id,
            #[trigger] open_channels(before.channels(user_id), closed),
        )
}

/// Whether an event is a frame that a session passes over: anything but text
/// that does not end the session.
pub open spec fn passed_over(event: SessionEventView) -> bool {
    event is Binary || event is Ping || event is Pong
}

/// One step of a session: the session that follows, and what the step did to
/// the relay's state.
///
/// In the handshake a text frame either is accepted for a user, and the
/// session is opened, or closes the session; binary frames, pings and pongs
/// are passed over; anything else closes the session. An authenticated session handles
/// each text frame and stays, passes over what is no text, and is taken out
/// of the relay by a close frame, a read error, the end of the stream or a
/// writer that stopped. A closed session stays closed.
pub open spec fn stepped(
    session: SessionView,
    event: SessionEventView,
    expected_token: Seq<char>,
    next: SessionView,
    before: ServerState,
    after: ServerState,
) -> bool {
    match session {
        SessionView::Handshake { outbound } => match event {
            SessionEventView::Text(text) => match accepted_by_frame(parse_spec(text), expected_token) {
                Some(user_id) => next == (SessionView::Authenticated { user_id }) && opened(
                    before,
                    after,
                    user_id,
                    outbound,
                ),
                None => next is Closed && untouched(before, after),
            },
            _ => untouched(before, after) && if passed_over(event) {
                next == session
            } else {
                next is Closed
            },
        },
        SessionView::Authenticated { user_id } => match event {
            SessionEventView::Text(text) => next == session && handled(before, after, parse_spec(text), user_id),
            SessionEventView::Close
            | SessionEventView::ReadError
            | SessionEventView::StreamEnded
            | SessionEventView::WriterStopped => next is Closed && departed(before, after, user_id),
            _ => next == session && untouched(before, after),
        },
        SessionView::Closed => next is Closed && untouched(before, after),
    }
}

impl Session {
    /// A session in the handshake, with the channel that it will register.
    pub fn new(outbound: Channel) -> (session: Session)
        ensures
            session@ == (SessionView::Handshake { outbound }),
    {
        Session::Handshake { outbound }
    }

    /// Whether the session is over.
    pub fn is_closed(&self) -> (closed: bool)
        ensures
            closed == (self@ is Closed),
    {
        match self {
            Session::Closed => true,
            _ => false,
        }
    }

    /// The user that the session speaks for, once it is authenticated.
    pub fn user_id(&self) -> (user: Option<&String>)
        ensures
            match user {
                Some(user_id) => self@ == (SessionView::Authenticated { user_id: user_id@ }),
                None => !(self@ is Authenticated),
            },
    {
        match self {
            Session::Authenticated { user_id } => Some(user_id),
            _ => None,
        }
    }

    /// Takes one event and gives the session that follows it.
    ///
    /// `expected_token` is the configured access token, empty where none is
    /// asked for; `now_millis` is the time that a departure is announced with.
    pub fn advance(
        self,
        event: &SessionEvent,
        state: &mut ServerState,
        expected_token: &str,
        now_millis: i64,
    ) -> (next: Session)
        ensures
                stepped(self@, event@, expected_token@, next@, *old(state), *final(state)),
    {
        match self {
            Session::Handshake { outbound } => match event {
                SessionEvent::Text(text) => match authenticate(text.as_str(), expected_token) {
                    Some(user_id) => {
                        open_session(state, user_id.as_str(), outbound);
                        Session::Authenticated { user_id }
                    },
                    None => Session::Closed,
                },
                SessionEvent::Binary | SessionEvent::Ping | SessionEvent::Pong => Session::Handshake { outbound },
                _ => Session::Closed,
            },
            Session::Authenticated { user_id } => match event {
                SessionEvent::Text(text) => {
                    let _ = handle_message(text.as_str(), user_id.as_str(), state);
                    Session::Authenticated { user_id }
                },
                SessionEvent::Close
                | SessionEvent::ReadError
                | SessionEvent::StreamEnded
                | SessionEvent::WriterStopped => {
                    close_session(state, user_id.as_str(), now_millis);
                    Session::Closed
                },
                _ => Session::Authenticated { user_id },
            },
            Session::Closed => Session::Closed,
        }
    }
}

} // verus!
