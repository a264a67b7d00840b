use crate::app::Context;
use crate::atoms::button;
use crate::orders::interface::IMyOrders;
use crate::orders::mapper::Mapper;
use crate::orders::my_orders::{issued_through, MyOrders};
use vstd::prelude::*;

verus! {

pub struct Model {
    pub state: State,
}

pub enum State {
    SignedIn(SignedIn),
    SignedOut,
}

pub struct SignedIn {
    pub username: String,
    pub logout_button: button::Model,
}

pub enum Msg {
    Public(PublicMsg),
    Private(PrivateMsg),
}

pub enum PublicMsg {
    SignedOut,
}

pub enum PrivateMsg {
    LogoutButton(button::Msg),
    SignedOut,
}

/// Whether `model` is the bar as it starts out for `username`: it names a
/// user who is signed in and offers to log out, or it is the bar of a
/// visitor.
pub open spec fn shows(model: Model, username: Option<String>) -> bool {
    match username {
        Some(name) => {
            &&& model.state matches State::SignedIn(signed_in)
            &&& signed_in.username == name
            &&& signed_in.logout_button.name@ == "logout"@
        },
        None => model.state is SignedOut,
    }
}

/// The bar of a user who is signed in under `username`, or of a visitor.
pub fn init(username: Option<String>) -> (model: Model)
    ensures
        shows(model, username),
{
    Model {
        state: match username {
            Some(username) => State::SignedIn(
                SignedIn { username, logout_button: button::init("logout".to_owned()) },
            ),
            None => State::SignedOut,
        },
    }
}

/// The bar `after` and the messages `issued` are what `msg` makes of the
/// bar `before`: a click on the logout button makes the bar tell itself
/// that the user is signed out; told so, it tells its parent.
pub open spec fn updated(before: Model, msg: PrivateMsg, after: Model, issued: Seq<Msg>) -> bool {
    match msg {
        PrivateMsg::LogoutButton(button::Msg::Click) => {
            &&& issued == seq![Msg::Private(PrivateMsg::SignedOut)]
            &&& after == before
        },
        PrivateMsg::SignedOut => {
            &&& issued == seq![Msg::Public(PublicMsg::SignedOut)]
            &&& after.state is SignedOut
        },
    }
}

/// What the bar does with `msg`. Only the message that the user is signed
/// out changes the context: it forgets the user.
pub fn update<BMs: 'static, B: IMyOrders<BMs>, T: Mapper<Msg, BMs> + 'static, K>(
    msg: PrivateMsg,
    model: &mut Model,
    context: &mut Context<K>,
    orders: &mut MyOrders<'_, Msg, BMs, B, T>,
)
    requires
        old(orders).wf(),
    ensures
        *final(final(orders).implementation) == *final(old(orders).implementation),
        final(context).backend == old(context).backend,
        final(context).username == if msg is SignedOut {
            None
        } else {
            old(context).username
        },
        exists|issued: Seq<Msg>|
            {
                &&& #[trigger] issued_through(*final(orders), *old(orders), issued)
                &&& updated(*old(model), msg, *final(model), issued)
            },
{
    match msg {
        PrivateMsg::LogoutButton(button::Msg::Click) => {
            logout(orders);
        },
        PrivateMsg::SignedOut => {
            context.username = None;
            model.state = State::SignedOut;
            notify_logout(orders);
        },
    }
}

/// Signs the user out. There is no session to end, so the answer is at hand.
fn logout<BMs: 'static, B: IMyOrders<BMs>, T: Mapper<Msg, BMs> + 'static>(
    orders: &mut MyOrders<'_, Msg, BMs, B, T>,
)
    requires
        old(orders).wf(),
    ensures
        *final(final(orders).implementation) == *final(old(orders).implementation),
        issued_through(*final(orders), *old(orders), seq![Msg::Private(PrivateMsg::SignedOut)]),
{
    orders.send(Msg::Private(PrivateMsg::SignedOut));
}

/// Tells the parent that the user is signed out.
fn notify_logout<BMs: 'static, B: IMyOrders<BMs>, T: Mapper<Msg, BMs> + 'static>(
    orders: &mut MyOrders<'_, Msg, BMs, B, T>,
)
    requires
        old(orders).wf(),
    ensures
        *final(final(orders).implementation) == *final(old(orders).implementation),
        issued_through(*final(orders), *old(orders), seq![Msg::Public(PublicMsg::SignedOut)]),
{
    orders.send(Msg::Public(PublicMsg::SignedOut));
}

} // verus!
