use crate::app::Context;
use crate::atoms::{button, input};
use crate::orders::interface::IMyOrders;
use crate::orders::mapper::Mapper;
use crate::orders::my_orders::{issued_through, nothing_issued, MyOrders};
use crate::url::Url;
use vstd::prelude::*;

verus! {

pub struct Model {
    pub stage: Stage,
    pub url: Option<Url>,
}

pub enum Stage {
    SignedOut(SignedOut),
    LoggingIn,
    SignedIn,
}

pub struct SignedOut {
    pub username_input: input::Model,
    pub login_button: button::Model,
}

pub enum Msg {
    Public(PublicMsg),
    Private(PrivateMsg),
}

pub enum PublicMsg {
    LoggedIn(String, Option<Url>),
}

pub enum PrivateMsg {
    UsernameInput(input::Msg),
    LoginButton(button::Msg),
    LoggedIn(String),
}

impl SignedOut {
    /// Whether the login button is to be enabled: a name has been typed.
    pub fn can_log_in(&self) -> (enabled: bool)
        ensures
            enabled == (self.username_input.value@.len() > 0),
    {
        !self.username_input.value.as_str().is_empty()
    }
}

/// Whether `copy` shows the same location as `location`, read equally far.
pub open spec fn same_location(copy: Option<Url>, location: Option<Url>) -> bool {
    match (copy, location) {
        (Some(a), Some(b)) => a.parts() == b.parts() && a.consumed() == b.consumed(),
        (None, None) => true,
        _ => false,
    }
}

/// Whether `model` is the page as it starts out for `username`, with
/// `target` as the location to go to after the login: a user who is signed
/// in already has nothing to do, a visitor finds an empty form.
pub open spec fn is_initial(model: Model, target: Option<Url>, username: Option<String>) -> bool {
    &&& model.url == target
    &&& match username {
        Some(_) => model.stage is SignedIn,
        None => {
            &&& model.stage matches Stage::SignedOut(form)
            &&& form.username_input.value@ == Seq::<char>::empty()
            &&& form.username_input.placeholder@ == "username"@
            &&& form.login_button.name@ == "login"@
        },
    }
}

/// Opens the page. A user who is signed in already has nothing to do on
/// it. `target_url` is where to go once the user has signed in.
pub fn init<K>(url: &mut Url, target_url: Option<Url>, context: &Context<K>) -> (model: Model)
    ensures
        *final(url) == *old(url),
        is_initial(model, target_url, context.username),
{
    let stage = match &context.username {
        Some(_) => Stage::SignedIn,
        None => Stage::SignedOut(
            SignedOut {
                username_input: input::init("username".to_owned()),
                login_button: button::init("login".to_owned()),
            },
        ),
    };
    Model { stage, url: target_url }
}

/// The page `after`, its context and the messages `issued` are what `msg`
/// makes of the page `before`.
///
/// While the user is signed out, typing changes the name, and a click on
/// the login button with a name typed starts the login, whose answer the
/// page tells itself at once. Told that the user is logged in, the page
/// records the user in the context and tells its parent, with the location
/// to go to.
pub open spec fn updated<K>(
    before: Model,
    context_before: Context<K>,
    msg: PrivateMsg,
    after: Model,
    context_after: Context<K>,
    issued: Seq<Msg>,
) -> bool {
    &&& context_after.backend == context_before.backend
    &&& after.url == before.url
    &&& match msg {
        PrivateMsg::UsernameInput(input::Msg::ValueChange(value)) => {
            &&& context_after == context_before
            &&& issued == Seq::<Msg>::empty()
            &&& match before.stage {
                Stage::SignedOut(form) => {
                    &&& after.stage matches Stage::SignedOut(typed)
                    &&& typed.username_input.value == value
                    &&& typed.username_input.placeholder == form.username_input.placeholder
                    &&& typed.login_button == form.login_button
                },
                _ => after == before,
            }
        },
        PrivateMsg::LoginButton(button::Msg::Click) => {
            &&& context_after == context_before
            &&& match before.stage {
                Stage::SignedOut(form) if form.username_input.value@.len() > 0 => {
                    &&& after.stage is LoggingIn
                    &&& issued == seq![
                        Msg::Private(PrivateMsg::LoggedIn(form.username_input.value)),
                    ]
                },
                _ => after == before && issued == Seq::<Msg>::empty(),
            }
        },
        PrivateMsg::LoggedIn(username) => {
            &&& context_after.username == Some(username)
            &&& after.stage is SignedIn
            &&& exists|target: Option<Url>|
                {
                    &&& #[trigger] same_location(target, before.url)
                    &&& issued == seq![Msg::Public(PublicMsg::LoggedIn(username, target))]
                }
        },
    }
}

/// What the page does with `msg`.
pub fn update<BMs: 'static, B: IMyOrders<BMs>, T: Mapper<Msg, BMs> + 'static, K>(
    msg: PrivateMsg,
    model: &mut Model,
    context: &mut Context<K>,
    orders: &mut MyOrders<'_, Msg, BMs, B, T>,
)
    requires
        old(orders).wf(),
    ensures
        *final(final(orders).implementation) == *final(old(orders).implementation),
        exists|issued: Seq<Msg>|
            {
                &&& #[trigger] issued_through(*final(orders), *old(orders), issued)
                &&& updated(
                    *old(model),
                    *old(context),
                    msg,
                    *final(model),
                    *final(context),
                    issued,
                )
            },
{
    match msg {
        PrivateMsg::UsernameInput(msg) => {
            username_input_msg(msg, model);
            proof {
                nothing_issued(*orders);
            }
        },
        PrivateMsg::LoginButton(msg) => login_button_msg(msg, model, context, orders),
        PrivateMsg::LoggedIn(username) => logged_in_msg(username, model, context, orders),
    }
}

fn username_input_msg(msg: input::Msg, model: &mut Model)
    ensures
        final(model).url == old(model).url,
        msg matches input::Msg::ValueChange(value) && match old(model).stage {
            Stage::SignedOut(form) => {
                &&& final(model).stage matches Stage::SignedOut(typed)
                &&& typed.username_input.value == value
                &&& typed.username_input.placeholder == form.username_input.placeholder
                &&& typed.login_button == form.login_button
            },
            _ => *final(model) == *old(model),
        },
{
    match &mut model.stage {
        Stage::SignedOut(form) => match msg {
            input::Msg::ValueChange(value) => {
                form.username_input.value = value;
            },
        },
        Stage::LoggingIn => {},
        Stage::SignedIn => {},
    }
}

fn login_button_msg<BMs: 'static, B: IMyOrders<BMs>, T: Mapper<Msg, BMs> + 'static, K>(
    msg: button::Msg,
    model: &mut Model,
    context: &mut Context<K>,
    orders: &mut MyOrders<'_, Msg, BMs, B, T>,
)
    requires
        old(orders).wf(),
    ensures
        *final(final(orders).implementation) == *final(old(orders).implementation),
        exists|issued: Seq<Msg>|
            {
                &&& #[trigger] issued_through(*final(orders), *old(orders), issued)
                &&& updated(
                    *old(model),
                    *old(context),
                    PrivateMsg::LoginButton(msg),
                    *final(model),
                    *final(context),
                    issued,
                )
            },
{
    match &model.stage {
        Stage::SignedOut(form) => match msg {
            button::Msg::Click => {
                if !form.can_log_in() {
                    proof {
                        nothing_issued(*orders);
                    }
                } else {
                    login(form.username_input.value.clone(), orders);
                    model.stage = Stage::LoggingIn;
                }
            },
        },
        _ => {
            proof {
                nothing_issued(*orders);
            }
        },
    }
}

fn logged_in_msg<BMs: 'static, B: IMyOrders<BMs>, T: Mapper<Msg, BMs> + 'static, K>(
    username: String,
    model: &mut Model,
    context: &mut Context<K>,
    orders: &mut MyOrders<'_, Msg, BMs, B, T>,
)
    requires
        old(orders).wf(),
    ensures
        *final(final(orders).implementation) == *final(old(orders).implementation),
        exists|issued: Seq<Msg>|
            {
                &&& #[trigger] issued_through(*final(orders), *old(orders), issued)
                &&& updated(
                    *old(model),
                    *old(context),
                    PrivateMsg::LoggedIn(username),
                    *final(model),
                    *final(context),
                    issued,
                )
            },
{
    context.username = Some(username.clone());
    model.stage = Stage::SignedIn;
    let target = match &model.url {
        Some(url) => Some(url.duplicate()),
        None => None,
    };
    assert(same_location(target, model.url));
    notify_login(username, target, orders);
}

/// Logs the user in. There is no session to open, so the answer is at hand.
fn login<BMs: 'static, B: IMyOrders<BMs>, T: Mapper<Msg, BMs> + 'static>(
    username: String,
    orders: &mut MyOrders<'_, Msg, BMs, B, T>,
)
    requires
        old(orders).wf(),
    ensures
        *final(final(orders).implementation) == *final(old(orders).implementation),
        issued_through(
            *final(orders),
            *old(orders),
            seq![Msg::Private(PrivateMsg::LoggedIn(username))],
        ),
{
    orders.send(Msg::Private(PrivateMsg::LoggedIn(username)));
}

/// Tells the parent that the user is logged in, and where to go next.
fn notify_login<BMs: 'static, B: IMyOrders<BMs>, T: Mapper<Msg, BMs> + 'static>(
    username: String,
    url: Option<Url>,
    orders: &mut MyOrders<'_, Msg, BMs, B, T>,
)
    requires
        old(orders).wf(),
    ensures
        *final(final(orders).implementation) == *final(old(orders).implementation),
        issued_through(
            *final(orders),
            *old(orders),
            seq![Msg::Public(PublicMsg::LoggedIn(username, url))],
        ),
{
    orders.send(Msg::Public(PublicMsg::LoggedIn(username, url)));
}

} // verus!
