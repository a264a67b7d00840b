use crate::orders::command::{resolved_now, CmdResult};
use std::future::Future;
use vstd::future::FutureAdditionalSpecFns;
use vstd::prelude::*;

verus! {

/// Why a dispatcher turned an operation down.
#[derive(Clone, Copy, Debug, PartialEq, Eq)]
pub enum OrdersError {
    /// The back-end of this dispatcher does not offer the operation.
    Unsupported,
}

/// What a dispatcher does with a message, apart from the state of its
/// back-end: what the message becomes on its way to the root, and
/// which of the operations that a back-end may lack its back-end offers.
#[verifier::ext_equal]
#[verifier::reject_recursive_types(Ms)]
#[verifier::reject_recursive_types(AppMs)]
pub struct Scope<Ms, AppMs> {
    /// The root message that stands for a local message.
    pub to_root: spec_fn(Ms) -> AppMs,
    /// Whether the back-end takes notifications.
    pub supports_notify: bool,
    /// Whether the back-end takes subscriptions.
    pub supports_subscribe: bool,
    /// Whether the back-end is in the middle of a pass of its reducer, so
    /// that what it accepts waits until the reducer has returned.
    pub in_pass: bool,
}

impl<Ms, AppMs> Scope<Ms, AppMs> {
    /// What reaches the back-end when a command resolves to `message`.
    pub open spec fn issued(self, message: Option<Ms>) -> Seq<AppMs> {
        match message {
            Some(m) => seq![(self.to_root)(m)],
            None => Seq::empty(),
        }
    }

    /// What reaches the back-end when a command is performed: what `message`
    /// gives if the command resolved before the call returned, and nothing
    /// if it did not.
    pub open spec fn performed(self, resolved: bool, message: Option<Ms>) -> Seq<AppMs> {
        if resolved {
            self.issued(message)
        } else {
            Seq::empty()
        }
    }

    /// What reaches the back-end when commands resolve to `results`, one
    /// after the other.
    pub open spec fn issued_all(self, results: Seq<CmdResult<Ms>>) -> Seq<AppMs>
        decreases results.len(),
    {
        if results.len() == 0 {
            Seq::empty()
        } else {
            self.issued_all(results.drop_last()) + self.issued(results.last().message())
        }
    }

    /// What reaches the back-end when it is notified of `message`: what an
    /// issued message would, if the back-end takes notifications at all.
    pub open spec fn notified(self, message: Option<Ms>) -> Seq<AppMs> {
        if self.supports_notify {
            self.issued(message)
        } else {
            Seq::empty()
        }
    }
}

/// The capability handed to a component: it issues commands, subscribes and
/// notifies in the scope of the component's own message type `Ms`.
///
/// Every dispatcher sits on a back-end that accepts root messages. What the
/// back-end has accepted so far, oldest first, is `upstream`; a local message
/// `m` arrives there as `scope().to_root` makes of it.
pub trait IMyOrders<Ms>: Sized {
    /// The message type of the root component.
    type AppMs;

    /// Whether the dispatcher is fit for use. A dispatcher that does not
    /// say is taken to be.
    open spec fn wf(&self) -> bool {
        true
    }

    /// The root messages that the back-end has accepted, oldest first.
    open spec fn upstream(&self) -> Seq<Self::AppMs> {
        arbitrary()
    }

    /// The root messages that the back-end has handed on to the
    /// application, oldest first. No operation of a dispatcher hands one on:
    /// to issue is never to deliver.
    open spec fn delivered(&self) -> Seq<Self::AppMs> {
        arbitrary()
    }

    /// How this dispatcher treats a message. No operation changes it.
    open spec fn scope(&self) -> Scope<Ms, Self::AppMs> {
        arbitrary()
    }

    /// Takes what a command resolved to: a message is mapped and handed
    /// to the back-end, anything else is dropped.
    fn deliver(&mut self, result: CmdResult<Ms>)
        requires
            old(self).wf(),
        ensures
            final(self).wf(),
            final(self).scope() == old(self).scope(),
            final(self).delivered() == old(self).delivered(),
            final(self).upstream() == old(self).upstream() + old(self).scope().issued(
                result.message(),
            ),
    ;

    /// Performs `cmd` and delivers what it resolves to. The answer says
    /// whether the command resolved before the call returned, so that its
    /// message, if it has one, is upstream already. The back-ends of this
    /// crate poll a command once and drop one that does not resolve on
    /// that poll; a back-end that hands commands to a scheduler answers
    /// `false` and accepts the message later.
    fn perform_cmd<F: Future<Output = CmdResult<Ms>> + 'static>(&mut self, cmd: F) -> (resolved:
        bool)
        requires
            old(self).wf(),
        ensures
            final(self).wf(),
            final(self).scope() == old(self).scope(),
            final(self).delivered() == old(self).delivered(),
            final(self).upstream() == old(self).upstream() + old(self).scope().performed(
                resolved,
                cmd@.message(),
            ),
    {
        let polled = resolved_now(cmd);
        self.settle(polled)
    }

    /// Takes what one poll of a command gave: the result of a command that
    /// has resolved is delivered, and a command that has not resolved
    /// delivers nothing. The answer says which of the two it was.
    fn settle(&mut self, polled: Option<CmdResult<Ms>>) -> (resolved: bool)
        requires
            old(self).wf(),
        ensures
            final(self).wf(),
            final(self).scope() == old(self).scope(),
            final(self).delivered() == old(self).delivered(),
            resolved == polled is Some,
            final(self).upstream() == old(self).upstream() + match polled {
                Some(result) => old(self).scope().issued(result.message()),
                None => Seq::<Self::AppMs>::empty(),
            },
    {
        match polled {
            Some(result) => {
                self.deliver(result);
                true
            },
            None => {
                assert(self.upstream() + Seq::<Self::AppMs>::empty() == self.upstream());
                false
            },
        }
    }

    /// Registers `handler` for a recurring outside event. Registering
    /// delivers nothing by itself. A back-end that keeps no handlers
    /// refuses; whoever holds the handler then hands each occurrence to
    /// `occurred` with it.
    fn subscribe<SubMs, H: Fn(SubMs) -> CmdResult<Ms>>(&mut self, handler: H) -> (outcome: Result<
        (),
        OrdersError,
    >)
        requires
            old(self).wf(),
        ensures
            final(self).wf(),
            final(self).scope() == old(self).scope(),
            final(self).delivered() == old(self).delivered(),
            final(self).upstream() == old(self).upstream(),
            outcome is Ok <==> old(self).scope().supports_subscribe,
            outcome is Err ==> outcome == Err::<(), OrdersError>(OrdersError::Unsupported),
    ;

    /// Takes one occurrence of an outside event: `handler` turns its
    /// `payload` into a result, and the result is delivered as that of an
    /// issued command is.
    fn occurred<SubMs, H: Fn(SubMs) -> CmdResult<Ms>>(&mut self, handler: &H, payload: SubMs)
        requires
            old(self).wf(),
            call_requires(*handler, (payload,)),
        ensures
            final(self).wf(),
            final(self).scope() == old(self).scope(),
            final(self).delivered() == old(self).delivered(),
            exists|result: CmdResult<Ms>|
                {
                    &&& call_ensures(*handler, (payload,), result)
                    &&& final(self).upstream() == old(self).upstream() + old(self).scope().issued(
                        #[trigger] result.message(),
                    )
                },
    {
        let result = handler(payload);
        self.deliver(result);
    }

    /// Notifies the back-end of `event`, which takes the way of an issued
    /// result. A back-end that takes no notifications refuses and stays as
    /// it was; an event without a message is accepted and changes nothing.
    fn notify(&mut self, event: CmdResult<Ms>) -> (outcome: Result<(), OrdersError>)
        requires
            old(self).wf(),
        ensures
            final(self).wf(),
            final(self).scope() == old(self).scope(),
            final(self).delivered() == old(self).delivered(),
            outcome is Ok <==> old(self).scope().supports_notify,
            outcome is Err ==> outcome == Err::<(), OrdersError>(OrdersError::Unsupported),
            final(self).upstream() == old(self).upstream() + old(self).scope().notified(
                event.message(),
            ),
    ;
}

/// A result of the unit shape, and an absent message, leave nothing
/// upstream; a message that is present arrives as the scope maps it.
pub proof fn silent_and_present<Ms, AppMs>(scope: Scope<Ms, AppMs>, m: Ms)
    ensures
        scope.issued(CmdResult::<Ms>::NoMsg.message()) == Seq::<AppMs>::empty(),
        scope.issued(CmdResult::<Ms>::MaybeMsg(None).message()) == Seq::<AppMs>::empty(),
        scope.issued(CmdResult::MaybeMsg(Some(m)).message()) == seq![(scope.to_root)(m)],
        scope.issued(CmdResult::Msg(m).message()) == seq![(scope.to_root)(m)],
{
}

/// Commands issued one after the other leave their messages upstream in
/// the order of issue: if `upstream[i + 1]` is what delivering `results[i]`
/// makes of `upstream[i]`, the last state is the first followed by the
/// messages of all the results, in that order.
pub proof fn issue_order<Ms, AppMs>(
    scope: Scope<Ms, AppMs>,
    results: Seq<CmdResult<Ms>>,
    upstream: Seq<Seq<AppMs>>,
)
    requires
        upstream.len() == results.len() + 1,
        forall|i: int|
            0 <= i < results.len() ==> upstream[i + 1] == upstream[i] + scope.issued(
                (#[trigger] results[i]).message(),
            ),
    ensures
        upstream.last() == upstream[0] + scope.issued_all(results),
    decreases results.len(),
{
    if results.len() > 0 {
        let n = results.len() as int;
        assert forall|i: int| 0 <= i < results.drop_last().len() implies upstream.drop_last()[i
            + 1] == upstream.drop_last()[i] + scope.issued(
            (#[trigger] results.drop_last()[i]).message(),
        ) by {
            assert(results.drop_last()[i] == results[i]);
        }
        issue_order(scope, results.drop_last(), upstream.drop_last());
        assert(results[n - 1] == results.last());
        assert(upstream.drop_last().last() == upstream[n - 1]);
        assert(upstream[0] + scope.issued_all(results) =~= (upstream[0] + scope.issued_all(
            results.drop_last(),
        )) + scope.issued(results.last().message()));
    } else {
        assert(upstream[0] + scope.issued_all(results) =~= upstream[0]);
    }
}

} // verus!
