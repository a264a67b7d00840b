use crate::orders::command::{mapped, AsMsg, CmdResult, Through};
use crate::orders::implementation::OrdersImplementation;
use crate::orders::interface::{IMyOrders, OrdersError, Scope};
use crate::orders::mapper::{Composed, Identity, Mapper};
use crate::orders::mock::OrdersMock;
use crate::orders::stub::OrdersStub;
use std::future::Future;
use std::marker::PhantomData;
use vstd::future::FutureAdditionalSpecFns;
use vstd::prelude::*;

verus! {

/// A dispatcher scoped to the message type `Ms` of one component.
///
/// It holds the back-end that it was made for and the mappers that its
/// ancestors have accumulated: a message issued here goes through the
/// mappers and then to that back-end, however deep the component sits.
///
/// A dispatcher borrows its back-end. A contract says what the back-end is
/// when the dispatcher is done with it by `final(..)` of `implementation`;
/// every operation leaves that unchanged, so that what the last operation
/// left is what the owner of the back-end finds.
#[verifier::reject_recursive_types(Ms)]
#[verifier::reject_recursive_types(BMs)]
#[verifier::reject_recursive_types(B)]
pub struct MyOrders<'a, Ms, BMs, B: IMyOrders<BMs>, T: Mapper<Ms, BMs>> {
    pub implementation: &'a mut B,
    pub mapper: T,
    pub scope: PhantomData<(Ms, BMs)>,
}

/// The dispatcher of a child scope over the replaying back-end: what
/// `proxy` gives when it is called on a dispatcher over an `OrdersStub`.
pub type OrdersStubProxy<'a, ChildMs, Ms, BMs, M, T> = MyOrders<
    'a,
    ChildMs,
    BMs,
    OrdersStub<BMs>,
    Composed<ChildMs, Ms, M, T>,
>;

/// The one message of a command that resolved before it was asked about,
/// and nothing of one that did not.
pub open spec fn if_resolved<Ms>(resolved: bool, msg: Ms) -> Seq<Ms> {
    if resolved {
        seq![msg]
    } else {
        Seq::empty()
    }
}

/// Whether `after` is the dispatcher `before` on a back-end that may have
/// accepted more: same mappers, same scope, nothing delivered meanwhile.
pub open spec fn kept<Ms, BMs, B: IMyOrders<BMs>, T: Mapper<Ms, BMs>>(
    after: MyOrders<'_, Ms, BMs, B, T>,
    before: MyOrders<'_, Ms, BMs, B, T>,
) -> bool {
    &&& after.mapper == before.mapper
    &&& after.mapper.wf()
    &&& after.backend().wf()
    &&& after.backend().scope() == before.backend().scope()
    &&& after.backend().delivered() == before.backend().delivered()
}

/// Whether `after` is `before` once the messages `issued` in its scope
/// have reached the back-end, in that order.
pub open spec fn issued_through<Ms, BMs, B: IMyOrders<BMs>, T: Mapper<Ms, BMs>>(
    after: MyOrders<'_, Ms, BMs, B, T>,
    before: MyOrders<'_, Ms, BMs, B, T>,
    issued: Seq<Ms>,
) -> bool {
    &&& kept(after, before)
    &&& after.backend().upstream() == before.backend().upstream() + issued.map_values(
        |m: Ms| before.arrives_as(m),
    )
}

impl<'a, BMs, B: IMyOrders<BMs>> MyOrders<'a, BMs, BMs, B, Identity<BMs>> {
    /// The dispatcher of the root component over `implementation`.
    pub fn new(implementation: &'a mut B) -> (orders: Self)
        requires
            old(implementation).wf(),
        ensures
            orders.wf(),
            orders.backend() == *old(implementation),
            *final(orders.implementation) == *final(implementation),
    {
        MyOrders { implementation, mapper: Identity { scope: PhantomData }, scope: PhantomData }
    }
}

impl<'a, Ms, BMs, B: IMyOrders<BMs>, T: Mapper<Ms, BMs>> MyOrders<'a, Ms, BMs, B, T> {
    /// The back-end as it stands.
    pub open spec fn backend(&self) -> B {
        *self.implementation
    }

    /// The root message as which a message of this scope arrives upstream.
    pub open spec fn arrives_as(&self, m: Ms) -> B::AppMs {
        (self.backend().scope().to_root)(self.mapper.image(m))
    }

    /// Derives the dispatcher of a child component whose messages `f` wraps
    /// into messages of this scope. The child works on the same back-end:
    /// what it leaves there is what this dispatcher finds.
    pub fn proxy<'b, ChildMs, M: Mapper<ChildMs, Ms>>(&'b mut self, f: M) -> (child: MyOrders<
        'b,
        ChildMs,
        BMs,
        B,
        Composed<ChildMs, Ms, M, T>,
    >)
        requires
            old(self).wf(),
            f.wf(),
        ensures
            child.wf(),
            child.mapper.inner == f,
            child.mapper.outer == old(self).mapper,
            child.backend() == old(self).backend(),
            forall|m: ChildMs| #[trigger] child.arrives_as(m) == old(self).arrives_as(f.image(m)),
            *final(child.implementation) == *final(self).implementation,
            final(self).mapper == old(self).mapper,
            *final(final(self).implementation) == *final(old(self).implementation),
    {
        MyOrders {
            implementation: &mut *self.implementation,
            mapper: Composed { inner: f, outer: self.mapper.duplicate(), scope: PhantomData },
            scope: PhantomData,
        }
    }
}

impl<'a, Ms: 'static, BMs: 'static, B: IMyOrders<BMs>, T: Mapper<Ms, BMs> + 'static> MyOrders<
    'a,
    Ms,
    BMs,
    B,
    T,
> {
    /// Issues a request whose answer `to_msg` turns into a message of this
    /// scope, and says whether the request was answered before the call
    /// returned.
    pub fn request<A: 'static, F: Future<Output = A> + 'static, K: Mapper<A, Ms> + 'static>(
        &mut self,
        request: F,
        to_msg: K,
    ) -> (resolved: bool)
        requires
            old(self).wf(),
            to_msg.wf(),
        ensures
            issued_through(*final(self), *old(self), if_resolved(resolved, to_msg.image(request@))),
            *final(final(self).implementation) == *final(old(self).implementation),
    {
        let answered = mapped(request, to_msg);
        let resolved = self.perform_cmd(mapped(answered, AsMsg { scope: PhantomData }));
        proof {
            if resolved {
                one_issued(*self, *old(self), to_msg.image(request@));
            } else {
                assert(self.backend().upstream() =~= old(self).backend().upstream());
                nothing_issued(*old(self));
            }
        }
        resolved
    }

    /// Notifies the back-end of `event`, an event of the back-end's own
    /// scope, past the mappers of this dispatcher. A back-end that takes no
    /// notifications refuses and stays as it was.
    pub fn notify_root(&mut self, event: CmdResult<BMs>) -> (outcome: Result<(), OrdersError>)
        requires
            old(self).wf(),
        ensures
            kept(*final(self), *old(self)),
            *final(final(self).implementation) == *final(old(self).implementation),
            final(self).backend().upstream() == old(self).backend().upstream() + old(
                self,
            ).backend().scope().notified(event.message()),
            outcome is Ok <==> old(self).backend().scope().supports_notify,
            outcome is Err ==> outcome == Err::<(), OrdersError>(OrdersError::Unsupported),
    {
        self.implementation.notify(event)
    }

    /// Notifies the back-end of `msg`. A back-end that takes notifications
    /// accepts it as it accepts an issued message; another one refuses and
    /// stays as it was.
    pub fn notify_msg(&mut self, msg: Ms) -> (outcome: Result<(), OrdersError>)
        requires
            old(self).wf(),
        ensures
            issued_through(
                *final(self),
                *old(self),
                if old(self).backend().scope().supports_notify {
                    seq![msg]
                } else {
                    Seq::empty()
                },
            ),
            *final(final(self).implementation) == *final(old(self).implementation),
            outcome is Ok <==> old(self).backend().scope().supports_notify,
            outcome is Err ==> outcome == Err::<(), OrdersError>(OrdersError::Unsupported),
    {
        let outcome = self.notify(CmdResult::Msg(msg));
        proof {
            if old(self).backend().scope().supports_notify {
                one_issued(*self, *old(self), msg);
            } else {
                assert(self.backend().upstream() =~= old(self).backend().upstream());
                nothing_issued(*old(self));
            }
        }
        outcome
    }

    /// Issues the message `msg`, as a command would that resolves to it at
    /// once.
    pub fn send(&mut self, msg: Ms)
        requires
            old(self).wf(),
        ensures
            issued_through(*final(self), *old(self), seq![msg]),
            *final(final(self).implementation) == *final(old(self).implementation),
    {
        self.deliver(CmdResult::Msg(msg));
        proof {
            one_issued(*self, *old(self), msg);
        }
    }
}

impl<'a, Ms: 'static, BMs: 'static, B: IMyOrders<BMs>, T: Mapper<Ms, BMs> + 'static> IMyOrders<
    Ms,
> for MyOrders<'a, Ms, BMs, B, T> {
    type AppMs = B::AppMs;

    open spec fn wf(&self) -> bool {
        self.mapper.wf() && self.implementation.wf()
    }

    open spec fn upstream(&self) -> Seq<B::AppMs> {
        self.implementation.upstream()
    }

    open spec fn delivered(&self) -> Seq<B::AppMs> {
        self.implementation.delivered()
    }

    open spec fn scope(&self) -> Scope<Ms, B::AppMs> {
        Scope {
            to_root: |m: Ms| (self.implementation.scope().to_root)(self.mapper.image(m)),
            supports_notify: self.implementation.scope().supports_notify,
            supports_subscribe: self.implementation.scope().supports_subscribe,
            in_pass: self.implementation.scope().in_pass,
        }
    }

    fn deliver(&mut self, result: CmdResult<Ms>)
        ensures
            kept(*final(self), *old(self)),
            *final(final(self).implementation) == *final(old(self).implementation),
    {
        match result.coerce() {
            Some(msg) => {
                let root_message = self.mapper.apply(msg);
                self.implementation.deliver(CmdResult::Msg(root_message));
            },
            None => {},
        }
    }

    fn perform_cmd<F: Future<Output = CmdResult<Ms>> + 'static>(&mut self, cmd: F) -> (resolved:
        bool)
        ensures
            kept(*final(self), *old(self)),
            *final(final(self).implementation) == *final(old(self).implementation),
    {
        let outward = mapped(
            cmd,
            Through { mapper: self.mapper.duplicate(), scope: PhantomData },
        );
        self.implementation.perform_cmd(outward)
    }

    fn subscribe<SubMs, H: Fn(SubMs) -> CmdResult<Ms>>(&mut self, handler: H) -> (outcome: Result<
        (),
        OrdersError,
    >)
        ensures
            kept(*final(self), *old(self)),
            *final(final(self).implementation) == *final(old(self).implementation),
    {
        let mapper = &self.mapper;
        let inward = &handler;
        let outward = |event: SubMs| -> (result: CmdResult<BMs>)
            requires
                call_requires(inward, (event,)),
                mapper.wf(),
            { inward(event).through(mapper) };
        self.implementation.subscribe(outward)
    }

    fn occurred<SubMs, H: Fn(SubMs) -> CmdResult<Ms>>(&mut self, handler: &H, payload: SubMs)
        ensures
            kept(*final(self), *old(self)),
            *final(final(self).implementation) == *final(old(self).implementation),
    {
        let result = handler(payload);
        self.deliver(result);
    }

    fn notify(&mut self, event: CmdResult<Ms>) -> (outcome: Result<(), OrdersError>)
        ensures
            kept(*final(self), *old(self)),
            *final(final(self).implementation) == *final(old(self).implementation),
    {
        let outward = event.through(&self.mapper);
        self.implementation.notify(outward)
    }
}

impl<'a, Ms, BMs, T: Mapper<Ms, BMs>> MyOrders<'a, Ms, BMs, OrdersImplementation<BMs>, T> {
    /// The recording back-end, if this dispatcher sits on one.
    pub fn mock(&self) -> (mock: Option<&OrdersMock<BMs>>)
        ensures
            match self.backend() {
                OrdersImplementation::Mock(orders) => mock == Some(&orders),
                OrdersImplementation::Stub(_) => mock is None,
            },
    {
        match &*self.implementation {
            OrdersImplementation::Mock(orders) => Some(orders),
            OrdersImplementation::Stub(_) => None,
        }
    }

    /// The replaying back-end, if this dispatcher sits on one. What the
    /// caller does to it is done to the back-end of this dispatcher.
    pub fn stub(&mut self) -> (stub: Option<&mut OrdersStub<BMs>>)
        ensures
            final(self).mapper == old(self).mapper,
            *final(final(self).implementation) == *final(old(self).implementation),
            match stub {
                Some(orders) => {
                    &&& old(self).backend() == OrdersImplementation::Stub(*orders)
                    &&& final(self).backend() == OrdersImplementation::Stub(*final(orders))
                },
                None => {
                    &&& old(self).backend() is Mock
                    &&& final(self).backend() == old(self).backend()
                },
            },
    {
        match &mut *self.implementation {
            OrdersImplementation::Mock(_) => None,
            OrdersImplementation::Stub(orders) => Some(orders),
        }
    }
}

/// A dispatcher is what it was once nothing has been issued.
pub proof fn nothing_issued<Ms, BMs, B: IMyOrders<BMs>, T: Mapper<Ms, BMs>>(
    orders: MyOrders<'_, Ms, BMs, B, T>,
)
    requires
        orders.wf(),
    ensures
        issued_through(orders, orders, Seq::<Ms>::empty()),
{
    assert(orders.backend().upstream() + Seq::<Ms>::empty().map_values(
        |m: Ms| orders.arrives_as(m),
    ) == orders.backend().upstream());
}

/// One message issued in a scope arrives upstream as the scope maps it.
pub proof fn one_issued<Ms, BMs, B: IMyOrders<BMs>, T: Mapper<Ms, BMs>>(
    after: MyOrders<'_, Ms, BMs, B, T>,
    before: MyOrders<'_, Ms, BMs, B, T>,
    msg: Ms,
)
    requires
        kept(after, before),
        after.backend().upstream() =~= before.backend().upstream().push(before.arrives_as(msg)),
    ensures
        issued_through(after, before, seq![msg]),
{
    assert(before.backend().upstream() + seq![msg].map_values(|m: Ms| before.arrives_as(m))
        =~= before.backend().upstream().push(before.arrives_as(msg)));
}

/// What is issued in two steps is issued: first the messages of the first
/// step, then those of the second.
pub proof fn issued_in_turn<Ms, BMs, B: IMyOrders<BMs>, T: Mapper<Ms, BMs>>(
    first: MyOrders<'_, Ms, BMs, B, T>,
    middle: MyOrders<'_, Ms, BMs, B, T>,
    last: MyOrders<'_, Ms, BMs, B, T>,
    early: Seq<Ms>,
    late: Seq<Ms>,
)
    requires
        issued_through(middle, first, early),
        issued_through(last, middle, late),
    ensures
        issued_through(last, first, early + late),
{
    assert(late.map_values(|m: Ms| middle.arrives_as(m)) =~= late.map_values(
        |m: Ms| first.arrives_as(m),
    ));
    assert((early + late).map_values(|m: Ms| first.arrives_as(m)) =~= early.map_values(
        |m: Ms| first.arrives_as(m),
    ) + late.map_values(|m: Ms| first.arrives_as(m)));
    assert(last.backend().upstream() =~= first.backend().upstream() + (early + late).map_values(
        |m: Ms| first.arrives_as(m),
    ));
}

/// What a child issues reaches the back-end as if its parent had issued
/// the same messages wrapped by the child's mapper: a message from any
/// depth arrives as the mappers on its way make of it, one after the other.
pub proof fn issued_by_child<ChildMs, Ms, BMs, B: IMyOrders<BMs>, M: Mapper<ChildMs, Ms>, T: Mapper<
    Ms,
    BMs,
>>(
    parent_after: MyOrders<'_, Ms, BMs, B, T>,
    parent_before: MyOrders<'_, Ms, BMs, B, T>,
    child_after: MyOrders<'_, ChildMs, BMs, B, Composed<ChildMs, Ms, M, T>>,
    child_before: MyOrders<'_, ChildMs, BMs, B, Composed<ChildMs, Ms, M, T>>,
    issued: Seq<ChildMs>,
)
    requires
        child_before.mapper.outer == parent_before.mapper,
        child_before.backend() == parent_before.backend(),
        issued_through(child_after, child_before, issued),
        parent_after.mapper == parent_before.mapper,
        parent_after.backend() == child_after.backend(),
    ensures
        issued_through(
            parent_after,
            parent_before,
            issued.map_values(|m: ChildMs| child_before.mapper.inner.image(m)),
        ),
{
    let wrapped = issued.map_values(|m: ChildMs| child_before.mapper.inner.image(m));
    assert(wrapped.map_values(|m: Ms| parent_before.arrives_as(m)) =~= issued.map_values(
        |m: ChildMs| child_before.arrives_as(m),
    ));
}

/// Issues a command that resolves to a message if it resolves, and says
/// whether it resolved before the call returned.
pub fn perform_cmd<Ms: 'static, O: IMyOrders<Ms>, F: Future<Output = Ms> + 'static>(
    orders: &mut O,
    cmd: F,
) -> (resolved: bool)
    requires
        old(orders).wf(),
    ensures
        final(orders).wf(),
        final(orders).scope() == old(orders).scope(),
        final(orders).delivered() == old(orders).delivered(),
        final(orders).upstream() == old(orders).upstream() + old(orders).scope().performed(
            resolved,
            Some(cmd@),
        ),
{
    orders.perform_cmd(mapped(cmd, AsMsg { scope: PhantomData }))
}

} // verus!
