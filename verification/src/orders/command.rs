use crate::orders::mapper::Mapper;
use std::future::Future;
use std::marker::PhantomData;
use vstd::future::FutureAdditionalSpecFns;
use vstd::prelude::*;

verus! {

/// What a command resolves to, as seen by the dispatcher that issued it.
///
/// A command declares one of three shapes: it always produces a message, it
/// may produce one, or it never does. The dispatcher looks at nothing else.
pub enum CmdResult<Ms> {
    /// The command produced this message.
    Msg(Ms),
    /// The command produced a message only if one is present.
    MaybeMsg(Option<Ms>),
    /// The command ran for its effect alone.
    NoMsg,
}

impl<Ms> CmdResult<Ms> {
    /// The message to deliver, if any.
    pub open spec fn message(self) -> Option<Ms> {
        match self {
            CmdResult::Msg(m) => Some(m),
            CmdResult::MaybeMsg(m) => m,
            CmdResult::NoMsg => None,
        }
    }

    /// The same shape with the message, if there is one, seen through `mapper`.
    pub open spec fn seen_through<AppMs, T: Mapper<Ms, AppMs>>(self, mapper: T) -> CmdResult<
        AppMs,
    > {
        match self {
            CmdResult::Msg(m) => CmdResult::Msg(mapper.image(m)),
            CmdResult::MaybeMsg(Some(m)) => CmdResult::MaybeMsg(Some(mapper.image(m))),
            CmdResult::MaybeMsg(None) => CmdResult::MaybeMsg(None),
            CmdResult::NoMsg => CmdResult::NoMsg,
        }
    }

    /// Maps the message, if there is one, and keeps the shape.
    pub fn through<AppMs, T: Mapper<Ms, AppMs>>(self, mapper: &T) -> (outer: CmdResult<AppMs>)
        requires
            mapper.wf(),
        ensures
            outer == self.seen_through(*mapper),
    {
        match self {
            CmdResult::Msg(m) => CmdResult::Msg(mapper.apply(m)),
            CmdResult::MaybeMsg(Some(m)) => CmdResult::MaybeMsg(Some(mapper.apply(m))),
            CmdResult::MaybeMsg(None) => CmdResult::MaybeMsg(None),
            CmdResult::NoMsg => CmdResult::NoMsg,
        }
    }

    /// Classifies the result: a message is forwarded, an absent one and the
    /// unit shape are dropped.
    pub fn coerce(self) -> (message: Option<Ms>)
        ensures
            message == self.message(),
    {
        match self {
            CmdResult::Msg(m) => Some(m),
            CmdResult::MaybeMsg(m) => m,
            CmdResult::NoMsg => None,
        }
    }
}

/// Polls `cmd` once with `futures::FutureExt::now_or_never` and hands back
/// its output if the command resolved on that poll.
///
/// Trusted: an output that comes back is the value the future resolves to,
/// which is what `cmd@` stands for. Whether one comes back is for the
/// future to decide: nothing is said of it.
#[verifier::external_body]
pub(crate) fn resolved_now<R, F: Future<Output = R>>(cmd: F) -> (result: Option<R>)
    ensures
        result matches Some(output) ==> output == cmd@,
{
    futures::FutureExt::now_or_never(cmd)
}

/// Puts `mapper` behind a future with `futures::FutureExt::map`: the new
/// future resolves when `cmd` does.
///
/// Trusted: what the new future resolves to is the image under `mapper` of
/// what `cmd` resolves to.
#[verifier::external_body]
pub(crate) fn mapped<A: 'static, B: 'static, F, T>(cmd: F, mapper: T) -> (wrapped: impl Future<
    Output = B,
> + 'static) where F: Future<Output = A> + 'static, T: Mapper<A, B> + 'static
    requires
        mapper.wf(),
    ensures
        wrapped@ == mapper.image(cmd@),
{
    futures::FutureExt::map(cmd, move |output: A| mapper.apply(output))
}

/// Marks every message as the result of a command that always has one.
pub struct AsMsg<Ms> {
    pub scope: PhantomData<Ms>,
}

impl<Ms> Mapper<Ms, CmdResult<Ms>> for AsMsg<Ms> {
    open spec fn wf(&self) -> bool {
        true
    }

    open spec fn image(&self, m: Ms) -> CmdResult<Ms> {
        CmdResult::Msg(m)
    }

    fn apply(&self, m: Ms) -> (outer: CmdResult<Ms>) {
        CmdResult::Msg(m)
    }

    fn duplicate(&self) -> (copy: Self) {
        AsMsg { scope: PhantomData }
    }
}

/// Shows the result of a command through the mapper of a scope.
pub struct Through<Ms, T> {
    pub mapper: T,
    pub scope: PhantomData<Ms>,
}

impl<Ms, AppMs, T: Mapper<Ms, AppMs>> Mapper<CmdResult<Ms>, CmdResult<AppMs>> for Through<Ms, T> {
    open spec fn wf(&self) -> bool {
        self.mapper.wf()
    }

    open spec fn image(&self, result: CmdResult<Ms>) -> CmdResult<AppMs> {
        result.seen_through(self.mapper)
    }

    fn apply(&self, result: CmdResult<Ms>) -> (outer: CmdResult<AppMs>) {
        result.through(&self.mapper)
    }

    fn duplicate(&self) -> (copy: Self) {
        Through { mapper: self.mapper.duplicate(), scope: PhantomData }
    }
}

} // verus!
