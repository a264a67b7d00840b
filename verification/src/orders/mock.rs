use crate::orders::command::CmdResult;
use crate::orders::interface::{IMyOrders, OrdersError, Scope};
use vstd::prelude::*;

verus! {

/// The recording back-end: it keeps every message it accepts in a log and
/// never hands one to application code. It keeps no handlers and takes no
/// notifications: it refuses both, and stays as it was.
pub struct OrdersMock<Ms> {
    messages: Vec<Ms>,
}

impl<Ms> View for OrdersMock<Ms> {
    type V = Seq<Ms>;

    /// The log, oldest message first.
    closed spec fn view(&self) -> Seq<Ms> {
        self.messages@
    }
}

impl<Ms> OrdersMock<Ms> {
    pub fn new() -> (mock: Self)
        ensures
            mock@ == Seq::<Ms>::empty(),
    {
        OrdersMock { messages: Vec::new() }
    }

    /// Reads the log. Reading leaves it as it is.
    pub fn messages(&self) -> (log: &Vec<Ms>)
        ensures
            log@ == self@,
    {
        &self.messages
    }
}

impl<Ms> IMyOrders<Ms> for OrdersMock<Ms> {
    type AppMs = Ms;

    open spec fn wf(&self) -> bool {
        true
    }

    open spec fn upstream(&self) -> Seq<Ms> {
        self@
    }

    open spec fn delivered(&self) -> Seq<Ms> {
        Seq::empty()
    }

    open spec fn scope(&self) -> Scope<Ms, Ms> {
        Scope {
            to_root: |m: Ms| m,
            supports_notify: false,
            supports_subscribe: false,
            in_pass: false,
        }
    }

    fn deliver(&mut self, result: CmdResult<Ms>) {
        match result.coerce() {
            Some(msg) => {
                self.messages.push(msg);
            },
            None => {},
        }
    }

    fn subscribe<SubMs, H: Fn(SubMs) -> CmdResult<Ms>>(&mut self, handler: H) -> (outcome: Result<
        (),
        OrdersError,
    >)
        ensures
            *final(self) == *old(self),
    {
        Err(OrdersError::Unsupported)
    }

    fn notify(&mut self, event: CmdResult<Ms>) -> (outcome: Result<(), OrdersError>)
        ensures
            *final(self) == *old(self),
    {
        Err(OrdersError::Unsupported)
    }
}

} // verus!
