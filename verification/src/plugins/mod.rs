//! The command handlers, and the protocol by which the runtime drives them.

pub mod archive;
pub mod echo;
pub mod hokp;
pub mod integral;
pub mod question;
pub mod randint;
pub mod repeat;
pub mod sauce;

pub use archive::{ArchivePlugin, ArchivePluginConfig};
pub use echo::{EchoPlugin, EchoPluginConfig};
pub use hokp::{HOKpPlugin, HOKpPluginConfig};
pub use integral::{IntegralPlugin, IntegralPluginConfig};
pub use question::{QuestionPlugin, QuestionPluginConfig};
pub use randint::{RandintPlugin, RandintPluginConfig};
pub use repeat::{RepeatPlugin, RepeatPluginConfig};
pub use sauce::{SaucePlugin, SaucePluginConfig};

use vstd::prelude::*;
use crate::gateway::{ApiRequest, ApiRequestView};
use crate::matching::unix_now;
use crate::models::{CQEvent, Plugin, PluginEntry, PluginSenario};
use crate::gateway::views_of;
use crate::plugins::archive::MemberInfo;
use crate::plugins::integral::{integral_began, CardWrite};
use crate::plugins::randint::randint_bounds;
use crate::plugins::sauce::SauceResult;

verus! {

/// A command of the punch-card handler.
#[derive(Clone, Copy, Debug, PartialEq, Eq, Structural)]
pub enum Cmd {
    Punch,
    Status,
    Derivative,
    Ranking,
}

/// Work beyond the gateway that a handler asks its driver for.
#[derive(Clone, Debug, PartialEq, Eq)]
pub enum Task {
    /// Search for the source of the image at `img_url`; the answer is the
    /// list of hits.
    Sauce { api_key: String, img_url: String },
    /// Read when the member's card was last punched; the answer is that
    /// time.
    ReadUpdated { user_id: i64 },
    /// Read when the member's period started; the answer is that time.
    ReadStarted { user_id: i64 },
    /// Change the member's card as of the time `at`.
    Write { write: CardWrite, user_id: i64, at: i64 },
}

/// The mathematical content of a [`Task`].
pub enum TaskView {
    Sauce { api_key: Seq<char>, img_url: Seq<char> },
    ReadUpdated { user_id: i64 },
    ReadStarted { user_id: i64 },
    Write { write: CardWrite, user_id: i64, at: i64 },
}

/// What came back for a call or task.
#[derive(Clone, Debug, PartialEq, Eq)]
pub enum Outcome {
    /// It failed: the service was out of reach, or its answer unreadable.
    Refused,
    /// It succeeded, with nothing to read.
    Delivered,
    /// The gateway's record of a group member.
    Member(MemberInfo),
    /// The gateway's record of a message.
    Message { message: Option<String>, time: Option<i32> },
    /// The hits of an image search.
    Hits(Vec<SauceResult>),
    /// The members of a group.
    Members(Vec<i64>),
    /// A time read from the store, in seconds since the Unix epoch.
    Time(i64),
}

impl Outcome {
    /// Whether the call or task succeeded.
    pub open spec fn succeeded(self) -> bool {
        !(self is Refused)
    }

    /// Whether the call or task succeeded.
    pub fn is_success(&self) -> (r: bool)
        ensures
            r == self.succeeded(),
    {
        match self {
            Outcome::Refused => false,
            _ => true,
        }
    }
}

impl View for Task {
    type V = TaskView;

    open spec fn view(&self) -> TaskView {
        match *self {
            Task::Sauce { api_key, img_url } => TaskView::Sauce { api_key: api_key@, img_url: img_url@ },
            Task::ReadUpdated { user_id } => TaskView::ReadUpdated { user_id },
            Task::ReadStarted { user_id } => TaskView::ReadStarted { user_id },
            Task::Write { write, user_id, at } => TaskView::Write { write, user_id, at },
        }
    }
}

/// What a handler wants next.
#[derive(Clone, Debug, PartialEq, Eq)]
pub enum Step {
    /// The handler is through with the event.
    Done,
    /// The handler gave up on the event.
    Failed,
    /// The handler waits for the outcome of a gateway call.
    Call(ApiRequest),
    /// The handler waits for the outcome of a task.
    Run(Task),
}

/// The mathematical content of a [`Step`].
pub enum StepView {
    Done,
    Failed,
    Call(ApiRequestView),
    Run(TaskView),
}

impl View for Step {
    type V = StepView;

    open spec fn view(&self) -> StepView {
        match *self {
            Step::Done => StepView::Done,
            Step::Failed => StepView::Failed,
            Step::Call(request) => StepView::Call(request@),
            Step::Run(task) => StepView::Run(task@),
        }
    }
}

impl StepView {
    /// Whether the handler waits for an outcome.
    pub open spec fn waits(self) -> bool {
        self is Call || self is Run
    }

    /// A group message with the text `message`.
    pub open spec fn group_msg(group_id: i64, message: Seq<char>) -> StepView {
        StepView::Call(ApiRequestView::SendGroupMsg { group_id, message })
    }
}

impl Step {
    /// Whether the handler waits for an outcome.
    pub fn is_waiting(&self) -> (r: bool)
        ensures
            r == self@.waits(),
    {
        match self {
            Step::Call(_) => true,
            Step::Run(_) => true,
            _ => false,
        }
    }
}

/// How a handler without state of its own ends after the one outcome it
/// waited for.
pub open spec fn settled(delivered: bool) -> StepView {
    if delivered {
        StepView::Done
    } else {
        StepView::Failed
    }
}

/// How a handler without state of its own ends after the one outcome it
/// waited for.
pub fn settle(delivered: bool) -> (r: Step)
    ensures
        r@ == settled(delivered),
{
    if delivered {
        Step::Done
    } else {
        Step::Failed
    }
}

/// A handler of any of the kinds that the runtime knows.
#[derive(Clone, Debug)]
pub enum AnyPlugin {
    Echo(EchoPlugin),
    Question(QuestionPlugin),
    Archive(ArchivePlugin),
    Sauce(SaucePlugin),
    Randint(RandintPlugin),
    HOKp(HOKpPlugin),
    Repeat(RepeatPlugin),
    Integral(IntegralPlugin),
}

impl AnyPlugin {
    /// Whether offering `event` at `now` may turn this handler into `next`
    /// and make it want `step`: what its kind says of it. The relation
    /// speaks of this handler alone.
    pub open spec fn begins(&self, event: &CQEvent, now: i64, next: &AnyPlugin, step: StepView) -> bool {
        match (*self, *next) {
            (AnyPlugin::Echo(p), AnyPlugin::Echo(q)) => p.handles(event, now, &q, step),
            (AnyPlugin::Question(p), AnyPlugin::Question(q)) => p.handles(event, now, &q, step),
            (AnyPlugin::Archive(p), AnyPlugin::Archive(q)) => p.handles(event, now, &q, step),
            (AnyPlugin::Sauce(p), AnyPlugin::Sauce(q)) => p.handles(event, now, &q, step),
            (AnyPlugin::Randint(p), AnyPlugin::Randint(q)) => p.handles(event, now, &q, step),
            (AnyPlugin::HOKp(p), AnyPlugin::HOKp(q)) => p.handles(event, now, &q, step),
            (AnyPlugin::Repeat(p), AnyPlugin::Repeat(q)) => p.handles(event, now, &q, step),
            (AnyPlugin::Integral(p), AnyPlugin::Integral(q)) => p.handles(event, now, &q, step),
            _ => false,
        }
    }

    /// Whether learning at `now` what came back for the call or task under
    /// way may turn this handler into `next` and make it want `step`.
    pub open spec fn resumes(&self, outcome: Outcome, now: i64, next: &AnyPlugin, step: StepView) -> bool {
        match (*self, *next) {
            (AnyPlugin::Echo(p), AnyPlugin::Echo(q)) => p.follows(outcome, now, &q, step),
            (AnyPlugin::Question(p), AnyPlugin::Question(q)) => p.follows(outcome, now, &q, step),
            (AnyPlugin::Archive(p), AnyPlugin::Archive(q)) => p.follows(outcome, now, &q, step),
            (AnyPlugin::Sauce(p), AnyPlugin::Sauce(q)) => p.follows(outcome, now, &q, step),
            (AnyPlugin::Randint(p), AnyPlugin::Randint(q)) => p.follows(outcome, now, &q, step),
            (AnyPlugin::HOKp(p), AnyPlugin::HOKp(q)) => p.follows(outcome, now, &q, step),
            (AnyPlugin::Repeat(p), AnyPlugin::Repeat(q)) => p.follows(outcome, now, &q, step),
            (AnyPlugin::Integral(p), AnyPlugin::Integral(q)) => p.follows(outcome, now, &q, step),
            _ => false,
        }
    }

    /// Whether two handlers are of one kind, configured alike and in the
    /// same state.
    pub open spec fn same_as(&self, other: &AnyPlugin) -> bool {
        match (*self, *other) {
            (AnyPlugin::Echo(p), AnyPlugin::Echo(q)) => true,
            (AnyPlugin::Question(p), AnyPlugin::Question(q)) => p == q,
            (AnyPlugin::Archive(p), AnyPlugin::Archive(q)) => p.phase@ == q.phase@,
            (AnyPlugin::Sauce(p), AnyPlugin::Sauce(q)) => p.config == q.config && p.phase == q.phase && views_of(
                p.queue@,
            ) == views_of(q.queue@),
            (AnyPlugin::Randint(p), AnyPlugin::Randint(q)) => true,
            (AnyPlugin::HOKp(p), AnyPlugin::HOKp(q)) => p.state == q.state && p.config == q.config,
            (AnyPlugin::Repeat(p), AnyPlugin::Repeat(q)) => p.state@ == q.state@ && p.config == q.config,
            (AnyPlugin::Integral(p), AnyPlugin::Integral(q)) => p.state@ == q.state@ && p.config == q.config,
            _ => false,
        }
    }

    /// Whether the handler, the event and the time decide what the handler
    /// makes of `event`: so it is for every handler but the one that draws a
    /// number, and for that one unless it has several numbers to draw from.
    pub open spec fn decides(&self, event: &CQEvent) -> bool {
        self is Randint ==> match randint_bounds(event) {
            Some((g, lo, hi)) => lo >= hi,
            None => true,
        }
    }

    /// Whether it makes no difference to what the handler makes of `event`
    /// which of the two times it is. A handler without a cooldown does not
    /// look at the time; one with a cooldown is steady where both times
    /// stand on the same side of it; the punch card records the time at
    /// which a status is asked for, and is steady where no status is asked
    /// for.
    pub open spec fn steady(&self, event: &CQEvent, one: i64, other: i64) -> bool {
        one == other || match *self {
            AnyPlugin::Echo(p) => true,
            AnyPlugin::Archive(p) => true,
            AnyPlugin::Sauce(p) => true,
            AnyPlugin::Randint(p) => true,
            AnyPlugin::Question(p) => p.state.cooldown.allows(one, p.config.sleep_seconds)
                == p.state.cooldown.allows(other, p.config.sleep_seconds),
            AnyPlugin::HOKp(p) => p.state.cooldown.allows(one, p.config.sleep_seconds) == p.state.cooldown.allows(
                other,
                p.config.sleep_seconds,
            ),
            AnyPlugin::Repeat(p) => p.state.cooldown.allows(one, p.config.sleep_seconds)
                == p.state.cooldown.allows(other, p.config.sleep_seconds),
            AnyPlugin::Integral(p) => integral_began(p.state@, event, one) == integral_began(p.state@, event, other),
        }
    }

    /// Offers `event` to the handler at `now`.
    pub fn begin_at(&mut self, event: &CQEvent, now: i64) -> (r: Step)
        ensures
            old(self).begins(event, now, final(self), r@),
            final(self).entry() == old(self).entry(),
    {
        match self {
            AnyPlugin::Echo(p) => p.handle(event, now),
            AnyPlugin::Question(p) => p.handle(event, now),
            AnyPlugin::Archive(p) => p.handle(event, now),
            AnyPlugin::Sauce(p) => p.handle(event, now),
            AnyPlugin::Randint(p) => p.handle(event, now),
            AnyPlugin::HOKp(p) => p.handle(event, now),
            AnyPlugin::Repeat(p) => p.handle(event, now),
            AnyPlugin::Integral(p) => p.handle(event, now),
        }
    }

    /// Tells the handler at `now` what came back for the call or task it
    /// waited for.
    pub fn resume_at(&mut self, outcome: &Outcome, now: i64) -> (r: Step)
        ensures
            old(self).resumes(*outcome, now, final(self), r@),
            final(self).entry() == old(self).entry(),
    {
        match self {
            AnyPlugin::Echo(p) => p.follow_up(outcome, now),
            AnyPlugin::Question(p) => p.follow_up(outcome, now),
            AnyPlugin::Archive(p) => p.follow_up(outcome, now),
            AnyPlugin::Sauce(p) => p.follow_up(outcome, now),
            AnyPlugin::Randint(p) => p.follow_up(outcome, now),
            AnyPlugin::HOKp(p) => p.follow_up(outcome, now),
            AnyPlugin::Repeat(p) => p.follow_up(outcome, now),
            AnyPlugin::Integral(p) => p.follow_up(outcome, now),
        }
    }

    /// Offers `event` to the handler at the time the clock shows.
    pub fn handle_now(&mut self, event: &CQEvent) -> (r: Step)
        ensures
            exists|now: i64| old(self).begins(event, now, final(self), r@),
            final(self).entry() == old(self).entry(),
    {
        let now = unix_now();
        self.begin_at(event, now)
    }
}

impl Plugin for AnyPlugin {
    open spec fn entry(&self) -> PluginEntry {
        match *self {
            AnyPlugin::Echo(p) => p.entry(),
            AnyPlugin::Question(p) => p.entry(),
            AnyPlugin::Archive(p) => p.entry(),
            AnyPlugin::Sauce(p) => p.entry(),
            AnyPlugin::Randint(p) => p.entry(),
            AnyPlugin::HOKp(p) => p.entry(),
            AnyPlugin::Repeat(p) => p.entry(),
            AnyPlugin::Integral(p) => p.entry(),
        }
    }

    fn name(&self) -> &'static str {
        match self {
            AnyPlugin::Echo(p) => p.name(),
            AnyPlugin::Question(p) => p.name(),
            AnyPlugin::Archive(p) => p.name(),
            AnyPlugin::Sauce(p) => p.name(),
            AnyPlugin::Randint(p) => p.name(),
            AnyPlugin::HOKp(p) => p.name(),
            AnyPlugin::Repeat(p) => p.name(),
            AnyPlugin::Integral(p) => p.name(),
        }
    }

    fn description(&self) -> &'static str {
        match self {
            AnyPlugin::Echo(p) => p.description(),
            AnyPlugin::Question(p) => p.description(),
            AnyPlugin::Archive(p) => p.description(),
            AnyPlugin::Sauce(p) => p.description(),
            AnyPlugin::Randint(p) => p.description(),
            AnyPlugin::HOKp(p) => p.description(),
            AnyPlugin::Repeat(p) => p.description(),
            AnyPlugin::Integral(p) => p.description(),
        }
    }

    fn help(&self) -> &'static str {
        match self {
            AnyPlugin::Echo(p) => p.help(),
            AnyPlugin::Question(p) => p.help(),
            AnyPlugin::Archive(p) => p.help(),
            AnyPlugin::Sauce(p) => p.help(),
            AnyPlugin::Randint(p) => p.help(),
            AnyPlugin::HOKp(p) => p.help(),
            AnyPlugin::Repeat(p) => p.help(),
            AnyPlugin::Integral(p) => p.help(),
        }
    }

    fn senario(&self) -> PluginSenario {
        match self {
            AnyPlugin::Echo(p) => p.senario(),
            AnyPlugin::Question(p) => p.senario(),
            AnyPlugin::Archive(p) => p.senario(),
            AnyPlugin::Sauce(p) => p.senario(),
            AnyPlugin::Randint(p) => p.senario(),
            AnyPlugin::HOKp(p) => p.senario(),
            AnyPlugin::Repeat(p) => p.senario(),
            AnyPlugin::Integral(p) => p.senario(),
        }
    }
    open spec fn handles(&self, event: &CQEvent, now: i64, next: &Self, step: StepView) -> bool {
        self.begins(event, now, next, step)
    }

    open spec fn follows(&self, outcome: Outcome, now: i64, next: &Self, step: StepView) -> bool {
        self.resumes(outcome, now, next, step)
    }

    fn handle(&mut self, event: &CQEvent, now: i64) -> (r: Step) {
        self.begin_at(event, now)
    }

    fn follow_up(&mut self, outcome: &Outcome, now: i64) -> (r: Step) {
        self.resume_at(outcome, now)
    }
}

/// What the handlers in `plugins` say of themselves.
pub open spec fn entries_of(plugins: Seq<AnyPlugin>) -> Seq<PluginEntry> {
    Seq::new(plugins.len(), |i: int| plugins[i].entry())
}

/// What a handler makes of an event is its own: offered the same event,
/// at times between which it is steady, the same handler wants the same and
/// ends in the same state, whatever else goes on in the round.
pub proof fn lemma_reaction_is_decided(
    handler: AnyPlugin,
    event: &CQEvent,
    now_one: i64,
    one: AnyPlugin,
    step_one: StepView,
    now_other: i64,
    other: AnyPlugin,
    step_other: StepView,
)
    requires
        handler.begins(event, now_one, &one, step_one),
        handler.begins(event, now_other, &other, step_other),
        handler.decides(event),
        handler.steady(event, now_one, now_other),
    ensures
        step_one == step_other,
        one.same_as(&other),
{
    match (handler, one, other) {
        (AnyPlugin::Sauce(p), AnyPlugin::Sauce(q), AnyPlugin::Sauce(r)) => {
            assert(views_of(q.queue@) =~= views_of(r.queue@));
        },
        _ => {},
    }
}

} // verus!
