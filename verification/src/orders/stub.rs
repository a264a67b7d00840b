use crate::orders::command::CmdResult;
use crate::orders::interface::{IMyOrders, OrdersError, Scope};
use std::collections::VecDeque;
use vstd::prelude::*;

verus! {

/// The application's update function, as the replaying back-end calls it.
///
/// `orders` is the dispatcher of the pass in which `msg` is delivered:
/// whatever the reducer issues through it waits in the queue until the
/// reducer has returned.
///
/// A reducer may keep a history of the messages it has been handed. Of one
/// that says it does, the back-end states which messages a drain has
/// handed to it; one that does not say keeps none, and promises nothing.
pub trait Reducer<Ms> {
    /// Whether the reducer keeps the history that `seen` tells.
    open spec fn keeps_history(&self) -> bool {
        false
    }

    /// The messages that the reducer has been handed, oldest first.
    open spec fn seen(&self) -> Seq<Ms> {
        Seq::empty()
    }

    fn reduce(&mut self, msg: Ms, orders: &mut OrdersStub<Ms>)
        requires
            old(orders).wf(),
            old(orders).is_active(),
        ensures
            final(self).keeps_history() == old(self).keeps_history(),
            old(self).keeps_history() ==> final(self).seen() == old(self).seen().push(msg),
    ;
}

/// What `reducer` has been handed since it was `before`, by its own
/// history: the messages `handed`, in that order, if it keeps one.
pub open spec fn handed_to<Ms, R: Reducer<Ms>>(reducer: R, before: R, handed: Seq<Ms>) -> bool {
    &&& reducer.keeps_history() == before.keeps_history()
    &&& before.keeps_history() ==> reducer.seen() == before.seen() + handed
}

/// How a call that may run the reducer ended.
#[derive(Clone, Copy, Debug, PartialEq, Eq)]
pub enum Pass {
    /// The queue is empty: every message produced has been delivered.
    Quiescent,
    /// The limit on deliveries was reached with messages still waiting.
    Exhausted,
    /// A pass was in progress already; the reducer was not called.
    Deferred,
}

/// The replaying back-end: it queues the messages it accepts and hands them
/// to a reducer one at a time, oldest first. It takes a notification as it
/// takes an issued result. It keeps no handlers, and refuses a
/// subscription.
///
/// Besides the queue it keeps two histories for its contracts: every
/// message it ever accepted, and every message it handed to the reducer.
pub struct OrdersStub<Ms> {
    queue: VecDeque<Ms>,
    produced: Ghost<Seq<Ms>>,
    delivered: Ghost<Seq<Ms>>,
    active: bool,
}

impl<Ms> OrdersStub<Ms> {
    /// The messages waiting for delivery, oldest first.
    pub closed spec fn pending(&self) -> Seq<Ms> {
        self.queue@
    }

    /// Every message accepted so far, oldest first.
    pub closed spec fn produced(&self) -> Seq<Ms> {
        self.produced@
    }

    /// Every message handed to the reducer so far, oldest first.
    pub closed spec fn delivered(&self) -> Seq<Ms> {
        self.delivered@
    }

    /// Whether this is the dispatcher of a pass in progress.
    pub closed spec fn is_active(&self) -> bool {
        self.active
    }

    /// What was accepted is what was delivered followed by what waits.
    pub open spec fn inv(&self) -> bool {
        self.produced() == self.delivered() + self.pending()
    }

    /// An idle back-end with nothing queued.
    pub fn new() -> (stub: Self)
        ensures
            stub.inv(),
            !stub.is_active(),
            stub.pending() == Seq::<Ms>::empty(),
            stub.produced() == Seq::<Ms>::empty(),
            stub.delivered() == Seq::<Ms>::empty(),
    {
        OrdersStub {
            queue: VecDeque::new(),
            produced: Ghost(Seq::empty()),
            delivered: Ghost(Seq::empty()),
            active: false,
        }
    }

    /// The dispatcher of one reducer call: active, with nothing queued.
    fn pass() -> (stub: Self)
        ensures
            stub.inv(),
            stub.is_active(),
            stub.pending() == Seq::<Ms>::empty(),
    {
        OrdersStub {
            queue: VecDeque::new(),
            produced: Ghost(Seq::empty()),
            delivered: Ghost(Seq::empty()),
            active: true,
        }
    }

    /// Whether a pass is in progress.
    pub fn active(&self) -> (active: bool)
        ensures
            active == self.is_active(),
    {
        self.active
    }

    /// How many messages wait for delivery.
    pub fn pending_len(&self) -> (n: usize)
        ensures
            n == self.pending().len(),
    {
        self.queue.len()
    }

    /// Puts `msg` at the back of the queue.
    pub fn enqueue(&mut self, msg: Ms)
        requires
            old(self).inv(),
        ensures
            final(self).inv(),
            final(self).is_active() == old(self).is_active(),
            final(self).pending() == old(self).pending().push(msg),
            final(self).produced() == old(self).produced().push(msg),
            final(self).delivered() == old(self).delivered(),
    {
        self.queue.push_back(msg);
        proof {
            self.produced@ = self.produced@.push(msg);
        }
    }

    /// Delivers `msg` and everything that its delivery produces, until the
    /// queue is empty or `limit` messages have been delivered.
    ///
    /// Called on the dispatcher of a pass in progress, it only queues `msg`:
    /// the reducer is never entered a second time.
    pub fn update<R: Reducer<Ms>>(&mut self, reducer: &mut R, msg: Ms, limit: usize) -> (outcome:
        Pass)
        requires
            old(self).inv(),
        ensures
            final(self).inv(),
            final(self).is_active() == old(self).is_active(),
            old(self).produced().push(msg).is_prefix_of(final(self).produced()),
            old(self).delivered().is_prefix_of(final(self).delivered()),
            handed_to(
                *final(reducer),
                *old(reducer),
                final(self).delivered().skip(old(self).delivered().len() as int),
            ),
            old(self).is_active() ==> {
                &&& outcome == Pass::Deferred
                &&& *final(reducer) == *old(reducer)
                &&& final(self).pending() == old(self).pending().push(msg)
                &&& final(self).produced() == old(self).produced().push(msg)
                &&& final(self).delivered() == old(self).delivered()
            },
            !old(self).is_active() ==> outcome != Pass::Deferred,
            outcome == Pass::Quiescent ==> {
                &&& final(self).pending() == Seq::<Ms>::empty()
                &&& final(self).delivered() == final(self).produced()
                &&& final(self).delivered().len() <= old(self).delivered().len() + limit
            },
            outcome == Pass::Exhausted ==> {
                &&& final(self).pending().len() > 0
                &&& final(self).delivered().len() == old(self).delivered().len() + limit
            },
    {
        self.enqueue(msg);
        self.drain(reducer, limit)
    }

    /// Delivers the queued messages in order, and those that their delivery
    /// produces, until the queue is empty or `limit` messages have been
    /// delivered.
    pub fn drain<R: Reducer<Ms>>(&mut self, reducer: &mut R, limit: usize) -> (outcome: Pass)
        requires
            old(self).inv(),
        ensures
            final(self).inv(),
            final(self).is_active() == old(self).is_active(),
            old(self).produced().is_prefix_of(final(self).produced()),
            old(self).delivered().is_prefix_of(final(self).delivered()),
            handed_to(
                *final(reducer),
                *old(reducer),
                final(self).delivered().skip(old(self).delivered().len() as int),
            ),
            old(self).is_active() ==> {
                &&& outcome == Pass::Deferred
                &&& *final(reducer) == *old(reducer)
                &&& *final(self) == *old(self)
            },
            !old(self).is_active() ==> outcome != Pass::Deferred,
            outcome == Pass::Quiescent ==> {
                &&& final(self).pending() == Seq::<Ms>::empty()
                &&& final(self).delivered() == final(self).produced()
                &&& final(self).delivered().len() <= old(self).delivered().len() + limit
            },
            outcome == Pass::Exhausted ==> {
                &&& final(self).pending().len() > 0
                &&& final(self).delivered().len() == old(self).delivered().len() + limit
            },
    {
        assert(self.delivered().skip(self.delivered().len() as int) == Seq::<Ms>::empty());
        assert(reducer.seen() + Seq::<Ms>::empty() == reducer.seen());
        if self.active {
            return Pass::Deferred;
        }
        let mut remaining: usize = limit;
        while remaining > 0 && self.queue.len() > 0
            invariant
                self.inv(),
                !self.is_active(),
                remaining <= limit,
                old(self).produced().is_prefix_of(self.produced()),
                old(self).delivered().is_prefix_of(self.delivered()),
                self.delivered().len() == old(self).delivered().len() + (limit - remaining),
                handed_to(
                    *reducer,
                    *old(reducer),
                    self.delivered().skip(old(self).delivered().len() as int),
                ),
            decreases remaining,
        {
            let ghost before = *self;
            let ghost handed = self.delivered().skip(old(self).delivered().len() as int);
            let next = self.queue.pop_front();
            match next {
                Some(msg) => {
                    proof {
                        self.delivered@ = self.delivered@.push(msg);
                    }
                    let mut pass = OrdersStub::pass();
                    reducer.reduce(msg, &mut pass);
                    let mut fresh = pass.queue;
                    let ghost issued = fresh@;
                    proof {
                        self.produced@ = self.produced@ + issued;
                    }
                    self.queue.append(&mut fresh);
                    assert(self.delivered() + self.pending() =~= (before.delivered()
                        + before.pending()) + issued);
                    assert(self.delivered().skip(old(self).delivered().len() as int)
                        =~= handed.push(msg));
                    assert((old(reducer).seen() + handed).push(msg) =~= old(reducer).seen()
                        + handed.push(msg));
                },
                None => {},
            }
            remaining = remaining - 1;
        }
        if self.queue.len() == 0 {
            Pass::Quiescent
        } else {
            Pass::Exhausted
        }
    }
}

impl<Ms> IMyOrders<Ms> for OrdersStub<Ms> {
    type AppMs = Ms;

    open spec fn wf(&self) -> bool {
        self.inv()
    }

    open spec fn upstream(&self) -> Seq<Ms> {
        self.produced()
    }

    open spec fn delivered(&self) -> Seq<Ms> {
        self.delivered()
    }

    open spec fn scope(&self) -> Scope<Ms, Ms> {
        Scope {
            to_root: |m: Ms| m,
            supports_notify: true,
            supports_subscribe: false,
            in_pass: self.is_active(),
        }
    }

    fn deliver(&mut self, result: CmdResult<Ms>)
        ensures
            final(self).pending() == old(self).pending() + old(self).scope().issued(
                result.message(),
            ),
    {
        match result.coerce() {
            Some(msg) => {
                self.enqueue(msg);
            },
            None => {},
        }
    }

    fn subscribe<SubMs, H: Fn(SubMs) -> CmdResult<Ms>>(&mut self, handler: H) -> (outcome: Result<
        (),
        OrdersError,
    >)
        ensures
            *final(self) == *old(self),
    {
        Err(OrdersError::Unsupported)
    }

    fn notify(&mut self, event: CmdResult<Ms>) -> (outcome: Result<(), OrdersError>)
        ensures
            final(self).pending() == old(self).pending() + old(self).scope().notified(
                event.message(),
            ),
    {
        match event.coerce() {
            Some(msg) => {
                self.enqueue(msg);
            },
            None => {},
        }
        Ok(())
    }
}

} // verus!
