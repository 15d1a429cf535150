//! Outbound channels: the sending halves that sessions register, each of
//! which feeds one session's writer.
//!
//! Whether a channel takes a message, and whether it is closed, is for its
//! receiving half to say. What this module decides is what is done with those
//! answers.

use tokio::sync::mpsc::UnboundedSender;
use vstd::prelude::*;

verus! {

/// The sending half of tokio's unbounded channel. Nothing inside it is visible to
/// proofs. Two handles are taken to be equal when they are clones of one another,
/// that is when they feed the same channel.
#[verifier::external_type_specification]
#[verifier::external_body]
#[verifier::reject_recursive_types(T)]
pub struct ExUnboundedSender<T>(UnboundedSender<T>);

/// An outbound channel: the sending half that a session registers.
pub type Channel = UnboundedSender<String>;

/// `UnboundedSender::send`: whether the channel took the message. That depends on
/// whether the receiving half is still there, so nothing is promised of the answer.
#[verifier::external_body]
pub(crate) fn channel_send(channel: &Channel, message: String) -> (accepted: bool) {
    channel.send(message).is_ok()
}

/// `UnboundedSender::is_closed`: whether the receiving half is gone. That is for
/// the receiving side to decide, so nothing is promised of the answer.
#[verifier::external_body]
fn channel_is_closed(channel: &Channel) -> (closed: bool) {
    channel.is_closed()
}

/// The channels that stay when those flagged as closed are dropped, in their
/// order. The flags go with the channels by position; a channel without a
/// flag stays.
pub open spec fn open_channels(channels: Seq<Channel>, closed: Seq<bool>) -> Seq<Channel>
    decreases channels.len(),
{
    if channels.len() == 0 {
        Seq::empty()
    } else if channels.len() <= closed.len() && closed[channels.len() - 1] {
        open_channels(channels.drop_last(), closed)
    } else {
        open_channels(channels.drop_last(), closed).push(channels.last())
    }
}

/// A sweep keeps the channels that are not flagged closed, so a user stays in
/// the directory until the last of the user's channels is closed: with one of
/// two sessions gone the user is still there, with both gone the user is not.
pub proof fn lemma_sweep_keeps_open(channels: Seq<Channel>, closed: Seq<bool>)
    requires
        channels.len() <= closed.len(),
    ensures
        open_channels(channels, closed).len() <= channels.len(),
        open_channels(channels, closed).len() == 0 <==> forall|i: int| 0 <= i < channels.len() ==> closed[i],
        (forall|i: int| 0 <= i < channels.len() ==> !closed[i]) ==> open_channels(channels, closed) == channels,
    decreases channels.len(),
{
    if channels.len() > 0 {
        let front = channels.drop_last();
        lemma_sweep_keeps_open(front, closed);
        if forall|i: int| 0 <= i < channels.len() ==> !closed[i] {
            assert(front.push(channels.last()) =~= channels);
        }
    }
}

/// Probes each channel once and reports which of them are closed.
pub(crate) fn probe_closed(channels: &Vec<Channel>) -> (closed: Vec<bool>)
    ensures
        closed@.len() == channels@.len(),
{
    let mut closed: Vec<bool> = Vec::new();
    let mut i: usize = 0;
    while i < channels.len()
        invariant
            i <= channels.len(),
            closed@.len() == i,
        decreases channels.len() - i,
    {
        closed.push(channel_is_closed(&channels[i]));
        i += 1;
    }
    closed
}

/// Keeps the channels that are not flagged as closed, in their order.
pub fn retain_open(channels: Vec<Channel>, closed: &Vec<bool>) -> (kept: Vec<Channel>)
    ensures
        kept@ == open_channels(channels@, closed@),
{
    let mut backward: Vec<Channel> = Vec::new();
    let mut rest = channels;
    let ghost all = rest@;
    proof {
        assert(open_channels(all, closed@) + backward@.reverse() == open_channels(all, closed@));
    }
    // Walk from the back so that each channel moves out of the list without a copy.
    while rest.len() > 0
        invariant
            open_channels(all, closed@) == open_channels(rest@, closed@) + backward@.reverse(),
        decreases rest@.len(),
    {
        let ghost before = rest@;
        let channel = rest.pop().unwrap();
        let position = rest.len();
        let flagged = position < closed.len() && closed[position];
        proof {
            assert(before.drop_last() == rest@);
            if !flagged {
                assert((backward@.push(channel)).reverse() == seq![channel] + backward@.reverse());
                assert(open_channels(rest@, closed@).push(channel) + backward@.reverse() == open_channels(
                    rest@,
                    closed@,
                ) + (seq![channel] + backward@.reverse()));
            }
        }
        if !flagged {
            backward.push(channel);
        }
    }
    let mut kept: Vec<Channel> = Vec::new();
    proof {
        assert(kept@ + backward@.reverse() == open_channels(all, closed@));
    }
    while backward.len() > 0
        invariant
            kept@ + backward@.reverse() == open_channels(all, closed@),
        decreases backward@.len(),
    {
        let ghost before = backward@;
        let channel = backward.pop().unwrap();
        kept.push(channel);
        proof {
            assert(before.reverse() == seq![channel] + backward@.reverse());
        }
    }
    proof {
        assert(backward@.reverse() == Seq::<Channel>::empty());
    }
    kept
}

/// Offers the message to each channel in turn and reports which of them took it.
pub(crate) fn deliver(channels: &Vec<Channel>, message: &str) -> (accepted: Vec<bool>)
    ensures
        accepted@.len() == channels@.len(),
{
    let mut accepted: Vec<bool> = Vec::new();
    let mut i: usize = 0;
    while i < channels.len()
        invariant
            i <= channels.len(),
            accepted@.len() == i,
        decreases channels.len() - i,
    {
        accepted.push(channel_send(&channels[i], message.to_owned()));
        i += 1;
    }
    accepted
}

/// Whether at least one of the outcomes is a success.
pub fn any_accepted(accepted: &Vec<bool>) -> (sent: bool)
    ensures
        sent <==> accepted@.contains(true),
{
    let mut i: usize = 0;
    while i < accepted.len()
        invariant
            i <= accepted.len(),
            forall|j: int| 0 <= j < i ==> !accepted@[j],
        decreases accepted.len() - i,
    {
        if accepted[i] {
            return true;
        }
        i += 1;
    }
    false
}

} // verus!
