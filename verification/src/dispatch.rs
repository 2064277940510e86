//! Handing a period's operations out to the users: each user first gets
//! one operation, then every result that comes back earns its user the next
//! operation, and once all are handed out the remaining results are awaited.

use vstd::prelude::*;

verus! {

/// What the loop that runs a period does next.
#[derive(Clone, Copy, Debug, PartialEq, Eq)]
pub enum DispatchAction {
    /// Send the operation at `index` to user `user`.
    Send { user: u32, index: usize },
    /// Wait for the next result.
    Receive,
    /// Every result is in (or the results channel closed): tell the users
    /// they are done.
    Finish,
}

/// The state of handing out `total` operations to `users` users.
#[derive(Clone, Copy, Debug, PartialEq, Eq)]
pub struct Dispatcher {
    pub total: usize,
    pub users: u32,
    /// Operations handed out, which are always the first `sent` ones.
    pub sent: usize,
    /// Results received.
    pub received: usize,
    /// Still giving every user its first operation.
    pub filling: bool,
    /// The loop has finished.
    pub finished: bool,
}

impl Dispatcher {
    /// The invariant: users to run the operations, no more handed out than
    /// exist, no more results than handed out, no more outstanding than
    /// users, and after
    /// the first round every user but those beyond the operations is busy
    /// until all are handed out.
    pub open spec fn wf(self) -> bool {
        &&& self.users > 0 || self.total == 0
        &&& self.sent <= self.total
        &&& self.received <= self.sent
        &&& self.sent - self.received <= self.users
        &&& self.filling ==> self.received == 0 && self.sent <= self.users
        &&& !self.filling && !self.finished && self.sent < self.total ==> self.sent - self.received == self.users
    }

    /// What is left to do: two steps for every operation not handed out, one
    /// for every result not received, and the final step.
    pub open spec fn remaining(self) -> nat {
        (2 * (self.total - self.sent) + (self.sent - self.received) + if self.finished { 0int } else { 1int }) as nat
    }

    /// A dispatcher for `total` operations and `users` users, before the
    /// first step.
    pub fn new(total: usize, users: u32) -> (d: Dispatcher)
        requires
            users > 0 || total == 0,
        ensures
            d.wf(),
            d == (Dispatcher { total, users, sent: 0, received: 0, filling: true, finished: false }),
    {
        Dispatcher { total, users, sent: 0, received: 0, filling: true, finished: false }
    }

    /// The next step of the first round: hand out the next operation to the
    /// next user while both last; then wait for a result if any is
    /// outstanding, else finish.
    pub open spec fn fill_step(self) -> (Dispatcher, DispatchAction) {
        if self.sent < self.total && self.sent < self.users {
            (Dispatcher { sent: (self.sent + 1) as usize, ..self },
                DispatchAction::Send { user: self.sent as u32, index: self.sent })
        } else if self.received < self.sent {
            (Dispatcher { filling: false, ..self }, DispatchAction::Receive)
        } else {
            (Dispatcher { filling: false, finished: true, ..self }, DispatchAction::Finish)
        }
    }

    /// The step after an operation was sent: the next step of the first
    /// round, or else the wait for a result while any is outstanding.
    pub open spec fn sent_step(self) -> (Dispatcher, DispatchAction) {
        if self.filling {
            self.fill_step()
        } else if self.received < self.sent {
            (self, DispatchAction::Receive)
        } else {
            (Dispatcher { finished: true, ..self }, DispatchAction::Finish)
        }
    }

    /// The step after a result came back from `user`: while operations
    /// remain, that user gets the next one; otherwise wait for the rest of
    /// the results, or finish once all are in.
    pub open spec fn received_step(self, user: u32) -> (Dispatcher, DispatchAction) {
        let received = (self.received + 1) as usize;
        if self.sent < self.total {
            (Dispatcher { received, sent: (self.sent + 1) as usize, ..self },
                DispatchAction::Send { user, index: self.sent })
        } else if received < self.sent {
            (Dispatcher { received, ..self }, DispatchAction::Receive)
        } else {
            (Dispatcher { received, finished: true, ..self }, DispatchAction::Finish)
        }
    }

    fn advance(&mut self) -> (a: DispatchAction)
        requires
            old(self).wf(),
            !old(self).finished,
            old(self).filling,
        ensures
            (*final(self), a) == old(self).fill_step(),
            final(self).wf(),
            final(self).remaining() <= old(self).remaining(),
            !(a is Receive) ==> final(self).remaining() < old(self).remaining(),
    {
        if self.sent < self.total && self.sent < self.users as usize {
            let index = self.sent;
            self.sent = self.sent + 1;
            return DispatchAction::Send { user: index as u32, index };
        }
        self.filling = false;
        if self.received < self.sent {
            DispatchAction::Receive
        } else {
            self.finished = true;
            DispatchAction::Finish
        }
    }

    /// The first step: the first operation to the first user, or the finish
    /// when there is nothing to run.
    pub fn start(&mut self) -> (a: DispatchAction)
        requires
            old(self).wf(),
            old(self).filling,
            !old(self).finished,
            old(self).sent == 0,
        ensures
            (*final(self), a) == old(self).fill_step(),
            final(self).wf(),
            a matches DispatchAction::Send { user, index } ==> index == 0 && user == 0,
            a is Finish ==> old(self).total == 0,
            !(a is Receive),
            final(self).remaining() < old(self).remaining(),
    {
        self.advance()
    }

    /// The step after an operation was sent.
    pub fn sent(&mut self) -> (a: DispatchAction)
        requires
            old(self).wf(),
            !old(self).finished,
            old(self).sent > 0,
        ensures
            (*final(self), a) == old(self).sent_step(),
            final(self).wf(),
            a matches DispatchAction::Send { user, index } ==> index == old(self).sent && user == old(self).sent,
            a is Finish ==> final(self).sent == final(self).total && final(self).received == final(self).sent,
            final(self).remaining() <= old(self).remaining(),
    {
        if self.filling {
            self.advance()
        } else {
            if self.received < self.sent {
                DispatchAction::Receive
            } else {
                self.finished = true;
                DispatchAction::Finish
            }
        }
    }

    /// The step after a result came back from user `user`.
    pub fn received(&mut self, user: u32) -> (a: DispatchAction)
        requires
            old(self).wf(),
            !old(self).finished,
            !old(self).filling,
            old(self).received < old(self).sent,
        ensures
            (*final(self), a) == old(self).received_step(user),
            final(self).wf(),
            a matches DispatchAction::Send { user: u, index } ==> u == user && index == old(self).sent,
            a is Finish ==> final(self).sent == final(self).total && final(self).received == final(self).sent,
            final(self).remaining() < old(self).remaining(),
    {
        self.received = self.received + 1;
        if self.sent < self.total {
            let index = self.sent;
            self.sent = self.sent + 1;
            DispatchAction::Send { user, index }
        } else if self.received < self.sent {
            DispatchAction::Receive
        } else {
            self.finished = true;
            DispatchAction::Finish
        }
    }

    /// The step after the results channel closed: finish.
    pub fn closed(&mut self) -> (a: DispatchAction)
        requires
            old(self).wf(),
            !old(self).finished,
        ensures
            *final(self) == (Dispatcher { finished: true, ..*old(self) }),
            final(self).wf(),
            a == DispatchAction::Finish,
    {
        self.finished = true;
        DispatchAction::Finish
    }
}

} // verus!
