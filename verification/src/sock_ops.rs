//! Operations on a caller's own socket, which wait where the socket asks for that.

use vstd::prelude::*;
use crate::objects::ObjectId;

verus! {

/// What came of the action before.
#[derive(Clone, Copy, PartialEq, Eq, Debug, Structural)]
pub enum SockEvent {
    Begin,
    /// The call returned this.
    Returned(ObjectId),
    /// The call raised. Whether the socket asks to be waited for.
    Refused { refusal: ObjectId, retryable: bool },
    Ready,
    /// Something else raised.
    Raised(ObjectId),
}

/// What the operation does next.
#[derive(Clone, Copy, PartialEq, Eq, Debug, Structural)]
pub enum SockAction {
    Call,
    WaitReadable,
    Return(ObjectId),
    Fail(ObjectId),
}

/// One step of receiving or accepting: the call is made until it returns or raises for good.
pub open spec fn sock_step(event: SockEvent) -> SockAction {
    match event {
        SockEvent::Begin => SockAction::Call,
        SockEvent::Ready => SockAction::Call,
        SockEvent::Returned(value) => SockAction::Return(value),
        SockEvent::Refused { refusal, retryable } => if retryable {
            SockAction::WaitReadable
        } else {
            SockAction::Fail(refusal)
        },
        SockEvent::Raised(raised) => SockAction::Fail(raised),
    }
}

pub fn receive_step(event: SockEvent) -> (action: SockAction)
    ensures
        action == sock_step(event),
{
    match event {
        SockEvent::Begin => SockAction::Call,
        SockEvent::Ready => SockAction::Call,
        SockEvent::Returned(value) => SockAction::Return(value),
        SockEvent::Refused { refusal, retryable } => {
            if retryable {
                SockAction::WaitReadable
            } else {
                SockAction::Fail(refusal)
            }
        },
        SockEvent::Raised(raised) => SockAction::Fail(raised),
    }
}

/// What came of the action before.
#[derive(Clone, Copy, PartialEq, Eq, Debug, Structural)]
pub enum SendEvent {
    Begin,
    /// The socket took so many bytes.
    Sent(usize),
    /// The call raised. Whether the socket asks to be waited for.
    Refused { refusal: ObjectId, retryable: bool },
    Ready,
    /// Something else raised.
    Raised(ObjectId),
}

/// What sending does next.
#[derive(Clone, Copy, PartialEq, Eq, Debug, Structural)]
pub enum SendAction {
    /// Send the bytes from `from` up to the end, `to`.
    Send { from: usize, to: usize },
    WaitWritable,
    Done,
    Fail(ObjectId),
}

/// Sends all of some data, in as many calls as it takes.
#[derive(Clone, Copy, PartialEq, Eq, Debug, Structural)]
pub struct SendAll {
    pub total: usize,
    pub sent: usize,
}

/// One step of sending.
pub open spec fn send_step(s: SendAll, event: SendEvent) -> (SendAll, SendAction) {
    match event {
        SendEvent::Begin => (s, send_rest(s)),
        SendEvent::Ready => (s, send_rest(s)),
        SendEvent::Sent(n) => {
            let after = SendAll { sent: (s.sent + n) as usize, ..s };
            (
                after,
                if after.sent < after.total {
                    SendAction::WaitWritable
                } else {
                    SendAction::Done
                },
            )
        },
        SendEvent::Refused { refusal, retryable } => (
            s,
            if retryable {
                SendAction::WaitWritable
            } else {
                SendAction::Fail(refusal)
            },
        ),
        SendEvent::Raised(raised) => (s, SendAction::Fail(raised)),
    }
}

/// What is left to send, or the end where that is nothing.
pub open spec fn send_rest(s: SendAll) -> SendAction {
    if s.sent < s.total {
        SendAction::Send { from: s.sent, to: s.total }
    } else {
        SendAction::Done
    }
}

/// Nothing was sent yet.
pub open spec fn fresh_send(total: usize) -> SendAll {
    SendAll { total, sent: 0 }
}

impl SendAll {
    pub fn new(total: usize) -> (sending: Self)
        ensures
            sending == fresh_send(total),
    {
        SendAll { total, sent: 0 }
    }

    fn rest(&self) -> (action: SendAction)
        ensures
            action == send_rest(*self),
    {
        if self.sent < self.total {
            SendAction::Send { from: self.sent, to: self.total }
        } else {
            SendAction::Done
        }
    }

    /// Takes what came of the action before and says what to do next.
    pub fn step(&mut self, event: SendEvent) -> (action: SendAction)
        requires
            event matches SendEvent::Sent(n) ==> old(self).sent + n <= usize::MAX,
        ensures
            (*final(self), action) == send_step(*old(self), event),
    {
        match event {
            SendEvent::Begin => self.rest(),
            SendEvent::Ready => self.rest(),
            SendEvent::Sent(n) => {
                self.sent = self.sent + n;
                if self.sent < self.total {
                    SendAction::WaitWritable
                } else {
                    SendAction::Done
                }
            },
            SendEvent::Refused { refusal, retryable } => {
                if retryable {
                    SendAction::WaitWritable
                } else {
                    SendAction::Fail(refusal)
                }
            },
            SendEvent::Raised(raised) => SendAction::Fail(raised),
        }
    }
}

/// Sending after the socket took these numbers of bytes, one call after the other.
pub open spec fn after_sends(s: SendAll, takes: Seq<usize>) -> SendAll
    decreases takes.len(),
{
    if takes.len() == 0 {
        s
    } else {
        send_step(after_sends(s, takes.drop_last()), SendEvent::Sent(takes.last())).0
    }
}

/// A socket takes no more than it was given.
pub open spec fn takes_what_it_gets(s: SendAll, takes: Seq<usize>) -> bool {
    forall|i: int|
        0 <= i < takes.len() ==> #[trigger] takes[i] <= s.total - after_sends(s, takes.take(i)).sent
}

/// How many bytes were taken.
pub open spec fn total_of(takes: Seq<usize>) -> nat
    decreases takes.len(),
{
    if takes.len() == 0 {
        0
    } else {
        total_of(takes.drop_last()) + takes.last() as nat
    }
}

/// Every byte is sent once, in order: each call starts where the bytes that were taken end, and
/// sending is done exactly when all were taken.
pub proof fn law_sending_covers_the_data(total: usize, takes: Seq<usize>)
    requires
        takes_what_it_gets(SendAll { total, sent: 0 }, takes),
    ensures
        ({
            let s = after_sends(SendAll { total, sent: 0 }, takes);
            &&& s.total == total
            &&& s.sent == total_of(takes)
            &&& s.sent <= total
            &&& send_rest(s) is Done <==> total_of(takes) == total
            &&& send_rest(s) matches SendAction::Send { from, to } ==> from == total_of(takes)
                && to == total
        }),
    decreases takes.len(),
{
    if takes.len() > 0 {
        let start = SendAll { total, sent: 0 };
        let front = takes.drop_last();
        assert forall|i: int| 0 <= i < front.len() implies #[trigger] front[i] <= total
            - after_sends(start, front.take(i)).sent by {
            assert(front[i] == takes[i]);
            assert(front.take(i) =~= takes.take(i));
        }
        law_sending_covers_the_data(total, front);
        assert(takes.take(takes.len() - 1) =~= front);
        assert(takes[takes.len() - 1] == takes.last());
    }
}

} // verus!
