use crate::orders::command::CmdResult;
use crate::orders::interface::{IMyOrders, OrdersError, Scope};
use crate::orders::mock::OrdersMock;
use crate::orders::stub::OrdersStub;
use vstd::prelude::*;

verus! {

/// A back-end chosen at run time.
pub enum OrdersImplementation<Ms> {
    /// Records what it accepts.
    Mock(OrdersMock<Ms>),
    /// Queues what it accepts for a reducer.
    Stub(OrdersStub<Ms>),
}

impl<Ms> IMyOrders<Ms> for OrdersImplementation<Ms> {
    type AppMs = Ms;

    open spec fn wf(&self) -> bool {
        match self {
            OrdersImplementation::Mock(orders) => orders.wf(),
            OrdersImplementation::Stub(orders) => orders.wf(),
        }
    }

    open spec fn upstream(&self) -> Seq<Ms> {
        match self {
            OrdersImplementation::Mock(orders) => orders.upstream(),
            OrdersImplementation::Stub(orders) => orders.upstream(),
        }
    }

    open spec fn delivered(&self) -> Seq<Ms> {
        match self {
            OrdersImplementation::Mock(orders) => orders.delivered(),
            OrdersImplementation::Stub(orders) => orders.delivered(),
        }
    }

    open spec fn scope(&self) -> Scope<Ms, Ms> {
        match self {
            OrdersImplementation::Mock(orders) => orders.scope(),
            OrdersImplementation::Stub(orders) => orders.scope(),
        }
    }

    fn deliver(&mut self, result: CmdResult<Ms>)
        ensures
            *final(self) is Mock <==> *old(self) is Mock,
    {
        match self {
            OrdersImplementation::Mock(orders) => {
                orders.deliver(result);
            },
            OrdersImplementation::Stub(orders) => {
                orders.deliver(result);
            },
        }
    }

    fn subscribe<SubMs, H: Fn(SubMs) -> CmdResult<Ms>>(&mut self, handler: H) -> (outcome: Result<
        (),
        OrdersError,
    >)
        ensures
            *final(self) == *old(self),
    {
        match self {
            OrdersImplementation::Mock(orders) => orders.subscribe(handler),
            OrdersImplementation::Stub(orders) => orders.subscribe(handler),
        }
    }

    fn notify(&mut self, event: CmdResult<Ms>) -> (outcome: Result<(), OrdersError>)
        ensures
            *final(self) is Mock <==> *old(self) is Mock,
    {
        match self {
            OrdersImplementation::Mock(orders) => orders.notify(event),
            OrdersImplementation::Stub(orders) => orders.notify(event),
        }
    }
}

} // verus!
