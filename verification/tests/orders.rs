use join_my_ride::orders::command::CmdResult;
use join_my_ride::orders::implementation::OrdersImplementation;
use join_my_ride::orders::interface::{IMyOrders, OrdersError};
use join_my_ride::orders::mapper::{FnMapper, Identity, Mapper};
use join_my_ride::orders::mock::OrdersMock;
use join_my_ride::orders::my_orders::{perform_cmd, MyOrders, OrdersStubProxy};
use join_my_ride::orders::stub::{OrdersStub, Pass, Reducer};

#[derive(Clone, Debug, PartialEq)]
enum GrandchildMsg {
    Z,
}

#[derive(Clone, Debug, PartialEq)]
enum ChildMsg {
    X,
    Y,
    Grandchild(GrandchildMsg),
}

#[derive(Clone, Debug, PartialEq)]
enum Msg {
    A,
    B,
    C,
    D,
    Load,
    Loaded,
    Again,
    Child(ChildMsg),
}

#[test]
fn recording_keeps_three_messages_in_issue_order() {
    let mut mock = OrdersMock::new();
    {
        let mut orders = MyOrders::new(&mut mock);
        orders.perform_cmd(async { CmdResult::Msg(Msg::A) });
        orders.perform_cmd(async { CmdResult::Msg(Msg::B) });
        orders.perform_cmd(async { CmdResult::Msg(Msg::C) });
    }
    assert_eq!(mock.messages(), &vec![Msg::A, Msg::B, Msg::C]);
}

#[test]
fn child_message_reaches_the_parent_log_wrapped() {
    let mut implementation = OrdersImplementation::Mock(OrdersMock::new());
    let mut orders = MyOrders::new(&mut implementation);
    {
        let mut child = orders.proxy(FnMapper::new(Msg::Child));
        child.perform_cmd(async { CmdResult::Msg(ChildMsg::X) });
    }
    assert_eq!(
        orders.mock().unwrap().messages(),
        &vec![Msg::Child(ChildMsg::X)]
    );
}

#[test]
fn grandchild_message_goes_through_both_mappers() {
    let mut mock = OrdersMock::new();
    {
        let mut orders = MyOrders::new(&mut mock);
        let mut child = orders.proxy(FnMapper::new(Msg::Child));
        child.perform_cmd(async { CmdResult::Msg(ChildMsg::Y) });
        {
            let mut grandchild = child.proxy(FnMapper::new(ChildMsg::Grandchild));
            grandchild.perform_cmd(async { CmdResult::Msg(GrandchildMsg::Z) });
            grandchild.send(GrandchildMsg::Z);
        }
        child.send(ChildMsg::X);
        orders.send(Msg::D);
    }
    assert_eq!(
        mock.messages(),
        &vec![
            Msg::Child(ChildMsg::Y),
            Msg::Child(ChildMsg::Grandchild(GrandchildMsg::Z)),
            Msg::Child(ChildMsg::Grandchild(GrandchildMsg::Z)),
            Msg::Child(ChildMsg::X),
            Msg::D,
        ]
    );
}

#[test]
fn composed_mapper_applies_inner_then_outer() {
    let mut mock = OrdersMock::new();
    let mut orders = MyOrders::new(&mut mock);
    let child = orders.proxy(FnMapper::new(|n: u8| if n == 0 { Msg::A } else { Msg::B }));
    assert_eq!(child.mapper.apply(0), Msg::A);
    assert_eq!(child.mapper.apply(7), Msg::B);
    let copy = child.mapper.duplicate();
    assert_eq!(copy.apply(0), Msg::A);
}

struct Model {
    applied: Vec<Msg>,
    depth: usize,
    deepest: usize,
    nested: Vec<Pass>,
}

impl Model {
    fn new() -> Model {
        Model { applied: vec![], depth: 0, deepest: 0, nested: vec![] }
    }
}

impl Reducer<Msg> for Model {
    fn reduce(&mut self, msg: Msg, orders: &mut OrdersStub<Msg>) {
        self.depth += 1;
        if self.depth > self.deepest {
            self.deepest = self.depth;
        }
        match msg {
            Msg::Load => {
                orders.perform_cmd(async { CmdResult::Msg(Msg::Loaded) });
            }
            Msg::A => {
                orders.perform_cmd(async { CmdResult::Msg(Msg::B) });
                orders.perform_cmd(async { CmdResult::Msg(Msg::C) });
            }
            Msg::B => {
                orders.perform_cmd(async { CmdResult::Msg(Msg::D) });
            }
            Msg::Again => {
                let outcome = orders.update(&mut Model::new(), Msg::Loaded, 8);
                self.nested.push(outcome);
                let outcome = orders.drain(&mut Model::new(), 8);
                self.nested.push(outcome);
            }
            _ => {}
        }
        self.applied.push(msg);
        self.depth -= 1;
    }
}

#[test]
fn replaying_applies_load_then_loaded() {
    let mut stub = OrdersStub::new();
    let mut model = Model::new();
    let outcome = stub.update(&mut model, Msg::Load, 16);
    assert_eq!(outcome, Pass::Quiescent);
    assert_eq!(model.applied, vec![Msg::Load, Msg::Loaded]);
    assert_eq!(model.deepest, 1);
    assert_eq!(stub.pending_len(), 0);
    assert!(!stub.active());
}

#[test]
fn replaying_delivers_in_the_order_of_production() {
    let mut stub = OrdersStub::new();
    let mut model = Model::new();
    let outcome = stub.update(&mut model, Msg::A, 16);
    assert_eq!(outcome, Pass::Quiescent);
    assert_eq!(model.applied, vec![Msg::A, Msg::B, Msg::C, Msg::D]);
    assert_eq!(model.deepest, 1);
}

#[test]
fn update_from_within_a_pass_is_deferred() {
    let mut stub = OrdersStub::new();
    let mut model = Model::new();
    let outcome = stub.update(&mut model, Msg::Again, 16);
    assert_eq!(outcome, Pass::Quiescent);
    assert_eq!(model.nested, vec![Pass::Deferred, Pass::Deferred]);
    assert_eq!(model.applied, vec![Msg::Again, Msg::Loaded]);
    assert_eq!(model.deepest, 1);
}

#[test]
fn messages_issued_while_idle_wait_for_the_drain() {
    let mut stub = OrdersStub::new();
    stub.perform_cmd(async { CmdResult::Msg(Msg::C) });
    stub.deliver(CmdResult::Msg(Msg::D));
    assert_eq!(stub.pending_len(), 2);
    let mut model = Model::new();
    assert_eq!(stub.drain(&mut model, 1), Pass::Exhausted);
    assert_eq!(model.applied, vec![Msg::C]);
    assert_eq!(stub.pending_len(), 1);
    assert_eq!(stub.drain(&mut model, 0), Pass::Exhausted);
    assert_eq!(stub.drain(&mut model, 5), Pass::Quiescent);
    assert_eq!(model.applied, vec![Msg::C, Msg::D]);
    assert_eq!(stub.drain(&mut model, 0), Pass::Quiescent);
}

struct Endless {
    seen: usize,
}

impl Reducer<Msg> for Endless {
    fn reduce(&mut self, _msg: Msg, orders: &mut OrdersStub<Msg>) {
        self.seen += 1;
        assert!(orders.active());
        orders.deliver(CmdResult::Msg(Msg::A));
    }
}

#[test]
fn drain_stops_at_the_limit() {
    let mut stub = OrdersStub::new();
    let mut endless = Endless { seen: 0 };
    assert_eq!(stub.update(&mut endless, Msg::A, 5), Pass::Exhausted);
    assert_eq!(endless.seen, 5);
    assert_eq!(stub.pending_len(), 1);
}

#[test]
fn unit_and_absent_results_are_silent() {
    let mut mock = OrdersMock::new();
    mock.perform_cmd(async { CmdResult::<Msg>::NoMsg });
    mock.perform_cmd(async { CmdResult::<Msg>::MaybeMsg(None) });
    assert!(mock.messages().is_empty());
    mock.perform_cmd(async { CmdResult::MaybeMsg(Some(Msg::B)) });
    assert_eq!(mock.messages(), &vec![Msg::B]);

    let mut stub = OrdersStub::new();
    {
        let mut orders = MyOrders::new(&mut stub);
        let mut child = orders.proxy(FnMapper::new(Msg::Child));
        child.perform_cmd(async { CmdResult::<ChildMsg>::NoMsg });
        child.perform_cmd(async { CmdResult::<ChildMsg>::MaybeMsg(None) });
    }
    assert_eq!(stub.pending_len(), 0);
}

#[test]
fn coerce_classifies_the_three_shapes() {
    assert_eq!(CmdResult::Msg(Msg::A).coerce(), Some(Msg::A));
    assert_eq!(CmdResult::MaybeMsg(Some(Msg::B)).coerce(), Some(Msg::B));
    assert_eq!(CmdResult::<Msg>::MaybeMsg(None).coerce(), None);
    assert_eq!(CmdResult::<Msg>::NoMsg.coerce(), None);
}

#[test]
fn through_keeps_the_shape() {
    let wrap = FnMapper::new(Msg::Child);
    assert_eq!(
        CmdResult::Msg(ChildMsg::X).through(&wrap).coerce(),
        Some(Msg::Child(ChildMsg::X))
    );
    assert!(matches!(
        CmdResult::MaybeMsg(Some(ChildMsg::Y)).through(&wrap),
        CmdResult::MaybeMsg(Some(Msg::Child(ChildMsg::Y)))
    ));
    assert!(matches!(
        CmdResult::<ChildMsg>::MaybeMsg(None).through(&wrap),
        CmdResult::MaybeMsg(None)
    ));
    assert!(matches!(CmdResult::<ChildMsg>::NoMsg.through(&wrap), CmdResult::NoMsg));
}

#[test]
fn recording_refuses_notifications() {
    let mut mock = OrdersMock::new();
    let outcome = mock.notify(CmdResult::Msg(Msg::A));
    assert_eq!(outcome, Err(OrdersError::Unsupported));
    assert!(mock.messages().is_empty());
    let mut orders = MyOrders::new(&mut mock);
    let mut child = orders.proxy(FnMapper::new(Msg::Child));
    assert_eq!(child.notify_msg(ChildMsg::X), Err(OrdersError::Unsupported));
    assert_eq!(child.notify(CmdResult::NoMsg), Err(OrdersError::Unsupported));
    drop(child);
    drop(orders);
    assert!(mock.messages().is_empty());
}

#[test]
fn replaying_takes_notifications_like_issued_messages() {
    let mut stub = OrdersStub::new();
    assert_eq!(stub.notify(CmdResult::Msg(Msg::C)), Ok(()));
    assert_eq!(stub.notify(CmdResult::NoMsg), Ok(()));
    {
        let mut orders = MyOrders::new(&mut stub);
        let mut child = orders.proxy(FnMapper::new(Msg::Child));
        assert_eq!(child.notify_msg(ChildMsg::X), Ok(()));
    }
    let mut model = Model::new();
    assert_eq!(stub.drain(&mut model, 8), Pass::Quiescent);
    assert_eq!(model.applied, vec![Msg::C, Msg::Child(ChildMsg::X)]);
}

#[test]
fn back_ends_that_keep_no_handlers_refuse_subscriptions() {
    let mut mock = OrdersMock::new();
    let outcome =
        mock.subscribe(|n: u8| if n == 0 { CmdResult::NoMsg } else { CmdResult::Msg(Msg::A) });
    assert_eq!(outcome, Err(OrdersError::Unsupported));
    assert!(mock.messages().is_empty());
    let mut stub = OrdersStub::<Msg>::new();
    assert_eq!(stub.subscribe(|_: u8| CmdResult::Msg(Msg::A)), Err(OrdersError::Unsupported));
    assert_eq!(stub.pending_len(), 0);
    let mut implementation = OrdersImplementation::Stub(OrdersStub::new());
    let mut orders = MyOrders::new(&mut implementation);
    {
        let mut child = orders.proxy(FnMapper::new(Msg::Child));
        assert_eq!(
            child.subscribe(|_: u8| CmdResult::Msg(ChildMsg::X)),
            Err(OrdersError::Unsupported)
        );
    }
    assert_eq!(orders.stub().unwrap().pending_len(), 0);
}

#[test]
fn an_occurrence_is_coerced_through_the_handler_and_delivered() {
    let handler = |n: u8| match n {
        0 => CmdResult::NoMsg,
        1 => CmdResult::MaybeMsg(None),
        2 => CmdResult::MaybeMsg(Some(Msg::B)),
        _ => CmdResult::Msg(Msg::A),
    };
    let mut mock = OrdersMock::new();
    mock.occurred(&handler, 9);
    mock.occurred(&handler, 0);
    mock.occurred(&handler, 1);
    mock.occurred(&handler, 2);
    assert_eq!(mock.messages(), &vec![Msg::A, Msg::B]);

    let mut stub = OrdersStub::new();
    stub.occurred(&handler, 2);
    stub.occurred(&handler, 0);
    stub.occurred(&handler, 7);
    assert_eq!(stub.pending_len(), 2);
    let mut model = Model::new();
    assert_eq!(stub.drain(&mut model, 8), Pass::Quiescent);
    assert_eq!(model.applied[0], Msg::B);
    assert_eq!(model.applied[1], Msg::A);
}

#[test]
fn an_occurrence_in_a_child_arrives_wrapped() {
    let mut mock = OrdersMock::new();
    {
        let mut orders = MyOrders::new(&mut mock);
        let mut child = orders.proxy(FnMapper::new(Msg::Child));
        let handler = |first: bool| {
            if first {
                CmdResult::Msg(ChildMsg::X)
            } else {
                CmdResult::MaybeMsg(Some(ChildMsg::Y))
            }
        };
        child.occurred(&handler, true);
        child.perform_cmd(async { CmdResult::Msg(ChildMsg::Grandchild(GrandchildMsg::Z)) });
        child.occurred(&handler, false);
        child.occurred(&|_: u8| CmdResult::<ChildMsg>::NoMsg, 3);
    }
    assert_eq!(
        mock.messages(),
        &vec![
            Msg::Child(ChildMsg::X),
            Msg::Child(ChildMsg::Grandchild(GrandchildMsg::Z)),
            Msg::Child(ChildMsg::Y),
        ]
    );
}

#[test]
fn a_child_notifies_the_root_past_its_mapper() {
    let mut stub = OrdersStub::new();
    {
        let mut orders = MyOrders::new(&mut stub);
        let mut child = orders.proxy(FnMapper::new(Msg::Child));
        child.perform_cmd(async { CmdResult::Msg(ChildMsg::X) });
        assert_eq!(child.notify_root(CmdResult::Msg(Msg::D)), Ok(()));
        assert_eq!(child.notify_root(CmdResult::NoMsg), Ok(()));
        assert_eq!(child.notify_root(CmdResult::MaybeMsg(Some(Msg::C))), Ok(()));
    }
    let mut model = Model::new();
    assert_eq!(stub.drain(&mut model, 8), Pass::Quiescent);
    assert_eq!(model.applied, vec![Msg::Child(ChildMsg::X), Msg::D, Msg::C]);

    let mut mock = OrdersMock::new();
    {
        let mut orders = MyOrders::new(&mut mock);
        let mut child = orders.proxy(FnMapper::new(Msg::Child));
        assert_eq!(child.notify_root(CmdResult::Msg(Msg::D)), Err(OrdersError::Unsupported));
    }
    assert!(mock.messages().is_empty());
}

#[test]
fn a_command_that_has_not_resolved_delivers_nothing() {
    let mut mock = OrdersMock::new();
    assert!(mock.perform_cmd(async { CmdResult::Msg(Msg::A) }));
    assert!(!mock.perform_cmd(std::future::pending::<CmdResult<Msg>>()));
    assert!(mock.perform_cmd(async { CmdResult::<Msg>::NoMsg }));
    assert_eq!(mock.messages(), &vec![Msg::A]);
    assert!(!perform_cmd(&mut mock, std::future::pending::<Msg>()));
    assert!(perform_cmd(&mut mock, async { Msg::B }));
    assert_eq!(mock.messages(), &vec![Msg::A, Msg::B]);

    let mut stub = OrdersStub::new();
    {
        let mut orders = MyOrders::new(&mut stub);
        let mut child = orders.proxy(FnMapper::new(Msg::Child));
        assert!(!child.perform_cmd(std::future::pending::<CmdResult<ChildMsg>>()));
        assert!(child.perform_cmd(async { CmdResult::Msg(ChildMsg::Y) }));
        assert!(!child.request(std::future::pending::<u8>(), FnMapper::new(|_: u8| ChildMsg::X)));
        assert!(child.request(async { 4u8 }, FnMapper::new(|_: u8| ChildMsg::X)));
    }
    assert_eq!(stub.pending_len(), 2);
    let mut model = Model::new();
    assert_eq!(stub.drain(&mut model, 8), Pass::Quiescent);
    assert_eq!(model.applied, vec![Msg::Child(ChildMsg::Y), Msg::Child(ChildMsg::X)]);
}

#[test]
fn dispatching_keeps_the_pass_flag() {
    let mut stub = OrdersStub::new();
    assert!(!stub.active());
    stub.perform_cmd(async { CmdResult::Msg(Msg::C) });
    stub.deliver(CmdResult::Msg(Msg::C));
    stub.occurred(&|_: u8| CmdResult::Msg(Msg::C), 1);
    assert_eq!(stub.notify(CmdResult::Msg(Msg::C)), Ok(()));
    assert_eq!(stub.subscribe(|_: u8| CmdResult::Msg(Msg::C)), Err(OrdersError::Unsupported));
    assert!(!stub.active());
    let mut model = Watching { seen_active: vec![] };
    assert_eq!(stub.drain(&mut model, 8), Pass::Quiescent);
    assert_eq!(model.seen_active, vec![true, true, true, true]);
    assert!(!stub.active());
}

struct Watching {
    seen_active: Vec<bool>,
}

impl Reducer<Msg> for Watching {
    fn reduce(&mut self, _msg: Msg, orders: &mut OrdersStub<Msg>) {
        orders.deliver(CmdResult::NoMsg);
        let _ = orders.notify(CmdResult::NoMsg);
        self.seen_active.push(orders.active());
    }
}

#[test]
fn a_back_end_chosen_at_run_time_shows_its_flavour() {
    let mut recording = OrdersImplementation::Mock(OrdersMock::new());
    {
        let mut orders = MyOrders::new(&mut recording);
        orders.perform_cmd(async { CmdResult::Msg(Msg::A) });
        assert!(orders.stub().is_none());
        assert_eq!(orders.mock().unwrap().messages(), &vec![Msg::A]);
        assert_eq!(orders.notify(CmdResult::Msg(Msg::B)), Err(OrdersError::Unsupported));
    }
    let mut replaying = OrdersImplementation::Stub(OrdersStub::new());
    {
        let mut orders = MyOrders::new(&mut replaying);
        orders.perform_cmd(async { CmdResult::Msg(Msg::A) });
        orders.deliver(CmdResult::MaybeMsg(Some(Msg::B)));
        assert!(orders.mock().is_none());
        let stub = orders.stub().unwrap();
        let mut model = Model::new();
        assert_eq!(stub.drain(&mut model, 8), Pass::Quiescent);
        assert_eq!(
            model.applied,
            vec![Msg::A, Msg::B, Msg::B, Msg::C, Msg::D, Msg::D]
        );
    }
}

#[test]
fn free_perform_cmd_wraps_the_message() {
    let mut mock = OrdersMock::new();
    perform_cmd(&mut mock, async { Msg::B });
    {
        let mut orders = MyOrders::new(&mut mock);
        let mut child = orders.proxy(FnMapper::new(Msg::Child));
        perform_cmd(&mut child, async { ChildMsg::Y });
    }
    assert_eq!(mock.messages(), &vec![Msg::B, Msg::Child(ChildMsg::Y)]);
}

#[test]
fn reading_the_log_leaves_it_as_it_is() {
    let mut mock = OrdersMock::new();
    mock.deliver(CmdResult::Msg(Msg::A));
    assert_eq!(mock.messages(), &vec![Msg::A]);
    assert_eq!(mock.messages(), &vec![Msg::A]);
    assert_eq!(mock.messages().len(), 1);
}

#[test]
fn a_child_over_the_replaying_back_end_queues_wrapped_messages() {
    let mut stub = OrdersStub::new();
    {
        let mut orders = MyOrders::new(&mut stub);
        let mut child: OrdersStubProxy<ChildMsg, Msg, Msg, FnMapper<_>, Identity<Msg>> =
            orders.proxy(FnMapper::new(Msg::Child));
        child.perform_cmd(async { CmdResult::Msg(ChildMsg::X) });
        child.perform_cmd(async { CmdResult::MaybeMsg(Some(ChildMsg::Y)) });
    }
    assert_eq!(stub.pending_len(), 2);
    let mut model = Model::new();
    assert_eq!(stub.drain(&mut model, 8), Pass::Quiescent);
    assert_eq!(
        model.applied,
        vec![Msg::Child(ChildMsg::X), Msg::Child(ChildMsg::Y)]
    );
}

#[test]
fn what_one_poll_gave_is_settled() {
    let mut mock = OrdersMock::new();
    assert!(mock.settle(Some(CmdResult::Msg(Msg::A))));
    assert!(!mock.settle(None));
    assert!(mock.settle(Some(CmdResult::NoMsg)));
    assert!(mock.settle(Some(CmdResult::MaybeMsg(Some(Msg::B)))));
    assert_eq!(mock.messages(), &vec![Msg::A, Msg::B]);
    {
        let mut orders = MyOrders::new(&mut mock);
        let mut child = orders.proxy(FnMapper::new(Msg::Child));
        assert!(child.settle(Some(CmdResult::Msg(ChildMsg::X))));
        assert!(!child.settle(None));
    }
    assert_eq!(mock.messages(), &vec![Msg::A, Msg::B, Msg::Child(ChildMsg::X)]);
}
