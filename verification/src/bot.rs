//! The dispatch runtime: the registry of handlers and the state machine that
//! offers each event to the help and to every handler in turn.

use vstd::prelude::*;
use vstd::string::StringExecFns;
use crate::gateway::{api_url, endpoint, ApiRequest, ApiRequestView};
use crate::help::{handle_help, help_asked, help_reaction, is_registered, names_differ, opt_request};
use crate::matching::{text_eq, unix_now};
use crate::models::{CQEvent, Plugin, PluginEntry};
use crate::plugins::{entries_of, lemma_reaction_is_decided, AnyPlugin, Outcome, Step, StepView, Task, TaskView};

verus! {

/// Where the runtime listens for events and where it reaches the gateway.
#[derive(Clone, Debug)]
pub struct BotConfig {
    pub listen_addr: String,
    pub cq_addr: String,
}

impl Default for BotConfig {
    fn default() -> (r: BotConfig)
        ensures
            r.listen_addr@ == "127.0.0.1:5701"@,
            r.cq_addr@ == "127.0.0.1:5700"@,
    {
        BotConfig { listen_addr: String::from_str("127.0.0.1:5701"), cq_addr: String::from_str("127.0.0.1:5700") }
    }
}

/// What the runtime asks of its driver.
#[derive(Clone, Debug, PartialEq, Eq)]
pub enum Command {
    /// Wait for the next event and hand it over.
    Receive,
    /// Make this gateway call and report how it went.
    Call(ApiRequest),
    /// Carry out the work described and report how it went.
    Run(Task),
}

/// The mathematical content of a [`Command`].
pub enum CommandView {
    Receive,
    Call(ApiRequestView),
    Run(TaskView),
}

impl View for Command {
    type V = CommandView;

    open spec fn view(&self) -> CommandView {
        match *self {
            Command::Receive => CommandView::Receive,
            Command::Call(request) => CommandView::Call(request@),
            Command::Run(task) => CommandView::Run(task@),
        }
    }
}

/// What the driver reports to the runtime.
#[derive(Clone, Debug)]
pub enum Signal {
    /// The next event of the queue.
    Arrived(CQEvent),
    /// The call or task asked for succeeded.
    Delivered,
    /// The call or task asked for failed.
    Refused,
    /// The call or task asked for succeeded, with this answer.
    Answered(Outcome),
}

/// What a report says came back. An arrival is no answer to anything.
pub open spec fn outcome_of(signal: Signal) -> Outcome {
    match signal {
        Signal::Delivered => Outcome::Delivered,
        Signal::Answered(outcome) => outcome,
        _ => Outcome::Refused,
    }
}

/// Whose turn it is in the round of the event in flight.
#[derive(Clone, Copy, Debug, PartialEq, Eq, Structural)]
pub enum Turn {
    /// No event is in flight.
    Idle,
    /// The help handler waits for its reply to be sent.
    Help,
    /// The handler with this index waits for a call or task.
    Plugin(usize),
}

/// One offer of an event to a handler: the handler by its place in the
/// round (0 for the help, `i + 1` for the handler registered `i`-th), the
/// event by its place among the arrivals.
pub struct Offer {
    pub handler: int,
    pub arrival: int,
}

/// The command that passes on what a waiting handler wants.
pub open spec fn command_of(step: StepView) -> CommandView {
    match step {
        StepView::Call(request) => CommandView::Call(request),
        StepView::Run(task) => CommandView::Run(task),
        _ => CommandView::Receive,
    }
}

/// Whether `after` directly follows `before` in a run of rounds over
/// `count` handlers: the next handler of the same arrival, or the help of
/// the next arrival after the last handler.
pub open spec fn follows(before: Offer, after: Offer, count: int) -> bool {
    ||| after.arrival == before.arrival && after.handler == before.handler + 1
    ||| before.handler == count && after.handler == 0 && after.arrival == before.arrival + 1
}

/// Whether the offer at index `k` is in its place: it is for one of the
/// handlers, and follows the offer before it, if there is one.
pub open spec fn in_place(offers: Seq<Offer>, k: int, count: int) -> bool {
    &&& 0 <= offers[k].handler <= count
    &&& k > 0 ==> follows(offers[k - 1], offers[k], count)
}

/// Whether `offers` is a run of rounds over `count` handlers: it starts
/// with the help of the first arrival, and each offer follows the one
/// before it.
#[verifier::opaque]
pub open spec fn orderly(offers: Seq<Offer>, count: int) -> bool {
    &&& offers.len() > 0 ==> offers[0] == (Offer { handler: 0, arrival: 0 })
    &&& forall|k: int| 0 <= k < offers.len() ==> #[trigger] in_place(offers, k, count)
}

/// The offers of one arrival to the handlers `first` to `last`, in order.
pub open spec fn span(first: int, last: int, arrival: int) -> Seq<Offer> {
    Seq::new((last - first + 1) as nat, |k: int| Offer { handler: first + k, arrival })
}

/// Whether the handler `before` was offered `event` at `now`, became
/// `after`, and was through with it at once: by giving up where `failed`,
/// else by being done.
pub open spec fn passed(before: AnyPlugin, after: AnyPlugin, event: &CQEvent, now: i64, failed: bool) -> bool {
    exists|step: StepView|
        before.begins(event, now, &after, step) && !step.waits() && (step is Failed) == failed
}

/// Whether the handler `before` was offered `event` at `now`, became
/// `after`, and now waits for what `command` asks.
pub open spec fn halted(before: AnyPlugin, after: AnyPlugin, event: &CQEvent, now: i64, command: CommandView) -> bool {
    exists|step: StepView| before.begins(event, now, &after, step) && step.waits() && command == command_of(step)
}

/// Whether the handler `before` learnt at `now` what came back, became
/// `after`, and now waits for what `command` asks.
pub open spec fn rehalted(before: AnyPlugin, after: AnyPlugin, outcome: Outcome, now: i64, command: CommandView) -> bool {
    exists|step: StepView| before.resumes(outcome, now, &after, step) && step.waits() && command == command_of(step)
}

/// Whether the handler `before` learnt at `now` what came back, became
/// `after`, and was through with the event: by giving up where `failed`,
/// else by being done.
pub open spec fn finished(before: AnyPlugin, after: AnyPlugin, outcome: Outcome, now: i64, failed: bool) -> bool {
    exists|step: StepView|
        before.resumes(outcome, now, &after, step) && !step.waits() && (step is Failed) == failed
}

/// The command that passes on what a waiting handler wants.
pub fn pass_on(step: Step) -> (r: Command)
    ensures
        r@ == command_of(step@),
{
    match step {
        Step::Call(request) => Command::Call(request),
        Step::Run(task) => Command::Run(task),
        _ => Command::Receive,
    }
}

/// Offers `event` to the handlers from index `from` on, in registration
/// order, up to the first that waits for a call or task. Gives the index of
/// that handler with what it asks, or the number of handlers with
/// `Receive` where none waits. A handler that gives up is passed like one
/// that is done, and its index is added to `failures`.
fn offer_from(
    plugins: &mut Vec<AnyPlugin>,
    event: &CQEvent,
    from: usize,
    now: i64,
    failures: &mut Vec<usize>,
) -> (r: (usize, Command))
    requires
        from <= old(plugins)@.len(),
        forall|k: int| 0 <= k < old(failures)@.len() ==> old(failures)@[k] < from,
    ensures
        final(plugins)@.len() == old(plugins)@.len(),
        entries_of(final(plugins)@) == entries_of(old(plugins)@),
        from <= r.0 <= old(plugins)@.len(),
        r.1@ is Receive <==> r.0 == old(plugins)@.len(),
        forall|j: int|
            from <= j < r.0 ==> passed(
                old(plugins)@[j],
                #[trigger] final(plugins)@[j],
                event,
                now,
                final(failures)@.contains(j as usize),
            ),
        r.0 < old(plugins)@.len() ==> halted(old(plugins)@[r.0 as int], final(plugins)@[r.0 as int], event, now, r.1@),
        forall|j: int|
            0 <= j < old(plugins)@.len() && (j < from || j > r.0) ==> #[trigger] final(plugins)@[j] == old(plugins)@[j],
        forall|k: int| 0 <= k < final(failures)@.len() ==> final(failures)@[k] < r.0,
        forall|k: int| old(failures)@.len() <= k < final(failures)@.len() ==> final(failures)@[k] >= from,
        forall|j: usize| j < from ==> final(failures)@.contains(j) == old(failures)@.contains(j),
{
    let ghost start = plugins@;
    let mut i: usize = from;
    while i < plugins.len()
        invariant
            from <= i <= plugins@.len(),
            plugins@.len() == start.len(),
            start == old(plugins)@,
            entries_of(plugins@) =~= entries_of(start),
            forall|j: int|
                from <= j < i ==> passed(start[j], #[trigger] plugins@[j], event, now, failures@.contains(j as usize)),
            forall|j: int| 0 <= j < start.len() && (j < from || j >= i) ==> #[trigger] plugins@[j] == start[j],
            forall|k: int| 0 <= k < failures@.len() ==> failures@[k] < i,
            old(failures)@.len() <= failures@.len(),
            forall|k: int| old(failures)@.len() <= k < failures@.len() ==> failures@[k] >= from,
            forall|j: usize| j < from ==> failures@.contains(j) == old(failures)@.contains(j),
        decreases plugins@.len() - i,
    {
        let ghost before = plugins@;
        let ghost noted = failures@;
        let step = plugins[i].begin_at(event, now);
        proof {
            assert(plugins@ == before.update(i as int, plugins@[i as int]));
            assert(start[i as int].begins(event, now, &plugins@[i as int], step@));
            assert(entries_of(plugins@) =~= entries_of(start));
        }
        if step.is_waiting() {
            let command = pass_on(step);
            return (i, command);
        }
        let gave_up = match step {
            Step::Failed => true,
            _ => false,
        };
        if gave_up {
            failures.push(i);
        }
        proof {
            assert forall|j: usize| failures@.contains(j) == (noted.contains(j) || (gave_up && j == i)) by {
                if gave_up {
                    assert(failures@ == noted.push(i));
                    if noted.contains(j) {
                        let k = choose|k: int| 0 <= k < noted.len() && noted[k] == j;
                        assert(failures@[k] == j);
                    }
                    if j == i {
                        assert(failures@[noted.len() as int] == i);
                    }
                }
            }
            assert(!noted.contains(i));
        }
        i = i + 1;
    }
    (i, Command::Receive)
}

/// The dispatch runtime.
pub struct Bot {
    pub plugins: Vec<AnyPlugin>,
    pub config: BotConfig,
    pub turn: Turn,
    pub event: Option<CQEvent>,
    pub started: bool,
    /// The indices of the handlers that gave up in the latest step.
    pub failures: Vec<usize>,
    pub arrivals: Ghost<Seq<CQEvent>>,
    pub offers: Ghost<Seq<Offer>>,
}

impl Bot {
    /// What the registered handlers say of themselves, in registration
    /// order.
    pub open spec fn entries(&self) -> Seq<PluginEntry> {
        entries_of(self.plugins@)
    }

    /// The place in the round of the handler that was offered the event
    /// last: with no event in flight, that of the last handler.
    pub open spec fn position(&self) -> int {
        match self.turn {
            Turn::Idle => self.plugins@.len() as int,
            Turn::Help => 0,
            Turn::Plugin(i) => i + 1,
        }
    }

    /// The runtime's invariant: no two handlers have the same name; an event
    /// is in flight exactly when a handler waits; the offers made so far are a run of rounds, one round for each
    /// arrival in the order of arrival, each round going through the help
    /// and then the handlers in registration order; and the last offer is
    /// that of the latest arrival to the handler whose turn it is.
    pub open spec fn wf(&self) -> bool {
        &&& self.turn matches Turn::Plugin(i) ==> i < self.plugins@.len()
        &&& self.turn is Idle <==> self.event is None
        &&& self.event matches Some(e) ==> self.arrivals@.len() > 0 && self.arrivals@.last() == e
        &&& self.started <==> self.arrivals@.len() > 0
        &&& names_differ(self.entries())
        &&& orderly(self.offers@, self.plugins@.len() as int)
        &&& if self.arrivals@.len() == 0 {
            self.offers@.len() == 0
        } else {
            self.offers@.len() > 0 && self.offers@.last() == (Offer {
                handler: self.position(),
                arrival: self.arrivals@.len() - 1,
            })
        }
    }

    /// A runtime without handlers, before its first event.
    pub fn new(cfg: BotConfig) -> (r: Bot)
        ensures
            r.wf(),
            r.plugins@.len() == 0,
            r.config == cfg,
            r.turn is Idle,
            !r.started,
            r.event is None,
            r.failures@.len() == 0,
            r.arrivals@.len() == 0,
            r.offers@.len() == 0,
    {
        proof {
            reveal(orderly);
        }
        Bot {
            plugins: Vec::new(),
            config: cfg,
            turn: Turn::Idle,
            event: None,
            started: false,
            failures: Vec::new(),
            arrivals: Ghost(Seq::empty()),
            offers: Ghost(Seq::empty()),
        }
    }

    /// Whether a handler called `name` is registered.
    pub fn has_plugin(&self, name: &str) -> (r: bool)
        ensures
            r == is_registered(self.entries(), name@),
    {
        let mut i: usize = 0;
        while i < self.plugins.len()
            invariant
                i <= self.plugins@.len(),
                forall|j: int| 0 <= j < i ==> (#[trigger] self.entries()[j]).name != name@,
            decreases self.plugins@.len() - i,
        {
            if text_eq(self.plugins[i].name(), name) {
                assert(self.entries()[i as int].name == name@);
                return true;
            }
            i = i + 1;
        }
        false
    }

    /// Adds `plugin` behind the handlers registered so far. Handlers are
    /// registered before the first event only, and each under a name of its
    /// own: otherwise the registry is left as it is, and the answer is
    /// `false`.
    pub fn register_plugin(&mut self, plugin: AnyPlugin) -> (accepted: bool)
        requires
            old(self).wf(),
        ensures
            final(self).wf(),
            accepted == (!old(self).started && !is_registered(old(self).entries(), plugin.entry().name)),
            accepted ==> final(self).plugins@ == old(self).plugins@.push(plugin),
            !accepted ==> final(self).plugins@ == old(self).plugins@,
            final(self).config == old(self).config,
            final(self).turn == old(self).turn,
            final(self).event == old(self).event,
            final(self).started == old(self).started,
            final(self).failures == old(self).failures,
            final(self).arrivals@ == old(self).arrivals@,
            final(self).offers@ == old(self).offers@,
    {
        if self.started || self.has_plugin(plugin.name()) {
            return false;
        }
        proof {
            reveal(orderly);
            assert(entries_of(self.plugins@.push(plugin)) =~= self.entries().push(plugin.entry()));
        }
        self.plugins.push(plugin);
        true
    }

    /// Whether the runtime waits for the next event.
    pub fn is_idle(&self) -> (r: bool)
        ensures
            r == (self.turn is Idle),
    {
        match self.turn {
            Turn::Idle => true,
            _ => false,
        }
    }

    /// The address that a call of `api` is posted to.
    pub fn api_request(&self, api: &str) -> (r: String)
        ensures
            r@ == endpoint(self.config.cq_addr@, api@),
    {
        api_url(self.config.cq_addr.as_str(), api)
    }

    /// What the help handler replies to `event`.
    pub fn handle_help(&self, event: &CQEvent) -> (r: Option<ApiRequest>)
        ensures
            opt_request(r) == help_reaction(self.entries(), event),
            r is Some <==> help_asked(event),
    {
        handle_help(&self.plugins, event)
    }
}

/// Whether the round of `event` went on from the handler with index `from`
/// to the state with the turn `turn`: every handler from there up to the one
/// that waits (or to the last) was offered the event and is by itself what
/// the offer made of it, whatever the handlers before it did; the handlers
/// behind the one that waits are untouched; and `failures` holds the
/// indices of those that gave up.
pub open spec fn dispatched(
    before: Seq<AnyPlugin>,
    after: Seq<AnyPlugin>,
    event: &CQEvent,
    from: int,
    now: i64,
    turn: Turn,
    command: CommandView,
    failures: Seq<usize>,
) -> bool {
    let stop = match turn {
        Turn::Plugin(i) => i as int,
        _ => before.len() as int,
    };
    &&& !(turn is Help)
    &&& from <= stop <= before.len()
    &&& turn is Idle ==> command is Receive
    &&& forall|j: int|
        from <= j < stop ==> passed(before[j], #[trigger] after[j], event, now, failures.contains(j as usize))
    &&& forall|k: int| 0 <= k < failures.len() ==> failures[k] < stop
    &&& stop < before.len() ==> halted(before[stop], after[stop], event, now, command)
    &&& forall|j: int| stop < j < before.len() ==> #[trigger] after[j] == before[j]
}

/// Whether the handlers with an index below `below` are the same in `after`
/// as in `before`.
pub open spec fn untouched_below(before: Seq<AnyPlugin>, after: Seq<AnyPlugin>, below: int) -> bool {
    forall|j: int| 0 <= j < below && j < before.len() ==> #[trigger] after[j] == before[j]
}

/// A round goes on in order: behind the offer to the handler `last.handler`
/// the offers of the same arrival to the handlers up to `upto`.
pub proof fn lemma_round_continues(offers: Seq<Offer>, count: int, upto: int)
    requires
        orderly(offers, count),
        offers.len() > 0,
        offers.last().handler <= upto <= count,
    ensures
        orderly(offers + span(offers.last().handler + 1, upto, offers.last().arrival), count),
        (offers + span(offers.last().handler + 1, upto, offers.last().arrival)).last() == (Offer {
            handler: upto,
            arrival: offers.last().arrival,
        }),
{
    reveal(orderly);
    let more = span(offers.last().handler + 1, upto, offers.last().arrival);
    let all = offers + more;
    assert(in_place(offers, offers.len() - 1, count));
    assert forall|k: int| 0 <= k < all.len() implies #[trigger] in_place(all, k, count) by {
        if k < offers.len() {
            assert(in_place(offers, k, count));
            assert(all[k] == offers[k]);
            if k > 0 {
                assert(all[k - 1] == offers[k - 1]);
            }
        } else if k == offers.len() {
            assert(all[k - 1] == offers.last());
            assert(all[k] == more[0]);
        } else {
            assert(all[k] == more[k - offers.len()]);
            assert(all[k - 1] == more[k - 1 - offers.len()]);
        }
    }
    assert(all[0] == offers[0]);
    if more.len() > 0 {
        assert(all.last() == more.last());
    } else {
        assert(all =~= offers);
    }
}

/// A new round starts in order: behind the offer to the last handler, or
/// behind nothing, the offer of the next arrival to the help.
pub proof fn lemma_round_starts(offers: Seq<Offer>, count: int, arrival: int)
    requires
        orderly(offers, count),
        count >= 0,
        if offers.len() == 0 {
            arrival == 0
        } else {
            offers.last() == (Offer { handler: count, arrival: arrival - 1 })
        },
    ensures
        orderly(offers.push(Offer { handler: 0, arrival }), count),
{
    reveal(orderly);
    let all = offers.push(Offer { handler: 0, arrival });
    assert forall|k: int| 0 <= k < all.len() implies #[trigger] in_place(all, k, count) by {
        if k < offers.len() {
            assert(in_place(offers, k, count));
            assert(all[k] == offers[k]);
            if k > 0 {
                assert(all[k - 1] == offers[k - 1]);
            }
        } else if k > 0 {
            assert(all[k - 1] == offers.last());
        }
    }
}

impl Bot {
    /// Whether the report `signal`, taken at `now`, turns this runtime
    /// into `next` and makes it ask for `command`.
    ///
    /// An arrival is offered to the help handler first; where that replies,
    /// the round pauses on the reply. Otherwise, and after each report, the
    /// round goes on through the handlers in registration order up to the
    /// first that waits. What becomes of a handler depends on that handler
    /// and the event alone.
    pub open spec fn stepped(&self, signal: Signal, now: i64, next: &Bot, command: CommandView) -> bool {
        &&& next.started
        &&& next.config == self.config
        &&& next.plugins@.len() == self.plugins@.len()
        &&& next.entries() == self.entries()
        &&& next.arrivals@ == match signal {
            Signal::Arrived(e) => self.arrivals@.push(e),
            _ => self.arrivals@,
        }
        &&& next.offers@ == self.offers@ + span(
            if signal is Arrived {
                0
            } else {
                self.position() + 1
            },
            next.position(),
            next.arrivals@.len() - 1,
        )
        &&& command is Receive <==> next.turn is Idle
        &&& match signal {
            Signal::Arrived(e) => match help_reaction(self.entries(), &e) {
                Some(reply) => {
                    &&& next.turn is Help
                    &&& command == CommandView::Call(reply)
                    &&& next.plugins@ == self.plugins@
                    &&& next.failures@.len() == 0
                },
                None => dispatched(self.plugins@, next.plugins@, &e, 0, now, next.turn, command, next.failures@),
            },
            _ => match self.turn {
                Turn::Plugin(i) => {
                    &&& untouched_below(self.plugins@, next.plugins@, i as int)
                    &&& if next.turn == Turn::Plugin(i) {
                        &&& rehalted(
                            self.plugins@[i as int],
                            next.plugins@[i as int],
                            outcome_of(signal),
                            now,
                            command,
                        )
                        &&& forall|j: int|
                            i < j < self.plugins@.len() ==> #[trigger] next.plugins@[j] == self.plugins@[j]
                        &&& next.failures@.len() == 0
                    } else {
                        &&& finished(
                            self.plugins@[i as int],
                            next.plugins@[i as int],
                            outcome_of(signal),
                            now,
                            next.failures@.contains(i),
                        )
                        &&& forall|k: int| 0 <= k < next.failures@.len() ==> next.failures@[k] >= i
                        &&& dispatched(
                            self.plugins@,
                            next.plugins@,
                            &self.event->0,
                            i + 1,
                            now,
                            next.turn,
                            command,
                            next.failures@,
                        )
                    }
                },
                _ => dispatched(
                    self.plugins@,
                    next.plugins@,
                    &self.event->0,
                    0,
                    now,
                    next.turn,
                    command,
                    next.failures@,
                ),
            },
        }
    }

    /// Takes the driver's report at the time `now` and says what to do
    /// next.
    ///
    /// An arrival opens a round: the help handler is offered the event
    /// first, then the handlers in registration order. Whenever a handler
    /// wants a call or a task, the round pauses on it; the report on that
    /// call resumes it. A handler that fails, or whose call is refused, is
    /// passed, and the round goes on with the next. After the last handler
    /// the runtime asks for the next event.
    pub fn step_at(&mut self, signal: Signal, now: i64) -> (r: Command)
        requires
            old(self).wf(),
            signal is Arrived <==> old(self).turn is Idle,
        ensures
            final(self).wf(),
            old(self).stepped(signal, now, final(self), r@),
    {
        let from: usize;
        let count = self.plugins.len();
        match signal {
            Signal::Arrived(e) => {
                match self.open_round(e) {
                    Some(request) => {
                        return Command::Call(request);
                    },
                    None => {
                        from = 0;
                    },
                }
            },
            other => {
                let outcome = match other {
                    Signal::Delivered => Outcome::Delivered,
                    Signal::Answered(outcome) => outcome,
                    _ => Outcome::Refused,
                };
                match self.turn {
                    Turn::Plugin(i) => {
                        assert(i < count);
                        match self.resume_turn(i, &outcome, now) {
                            Some(command) => {
                                proof {
                                    assert(span(i + 2, i + 1, self.arrivals@.len() - 1) =~= Seq::<Offer>::empty());
                                    assert(self.offers@ + Seq::<Offer>::empty() =~= self.offers@);
                                }
                                return command;
                            },
                            None => {
                                from = i + 1;
                            },
                        }
                    },
                    _ => {
                        self.failures = Vec::new();
                        from = 0;
                    },
                }
            },
        }
        let ghost paused = self.offers@;
        let ghost noted = self.failures@;
        let command = self.continue_round(from, now);
        proof {
            assert forall|k: int| 0 <= k < self.failures@.len() implies self.failures@[k] >= from - 1 by {
                if k < noted.len() {
                    assert(self.failures@.contains(self.failures@[k]));
                    if self.failures@[k] < from {
                        assert(noted.contains(self.failures@[k]));
                    }
                }
            }
            if signal is Arrived {
                let a = self.arrivals@.len() - 1;
                assert(span(0, 0, a) + span(1, self.position(), a) =~= span(0, self.position(), a));
                assert(self.offers@ =~= old(self).offers@ + (span(0, 0, a) + span(1, self.position(), a)));
            }
        }
        command
    }

    /// Opens the round of the arrival `e`: the help handler is offered the
    /// event, and its reply, where it has one, is given back.
    fn open_round(&mut self, e: CQEvent) -> (r: Option<ApiRequest>)
        requires
            old(self).wf(),
            old(self).turn is Idle,
        ensures
            final(self).wf(),
            final(self).started,
            final(self).turn is Help,
            final(self).event == Some(e),
            final(self).config == old(self).config,
            final(self).plugins == old(self).plugins,
            final(self).arrivals@ == old(self).arrivals@.push(e),
            final(self).offers@ == old(self).offers@ + span(0, 0, final(self).arrivals@.len() - 1),
            final(self).failures@.len() == 0,
            opt_request(r) == help_reaction(old(self).entries(), &e),
    {
        proof {
            lemma_round_starts(self.offers@, self.plugins@.len() as int, self.arrivals@.len() as int);
            assert(span(0, 0, self.arrivals@.len() as int) =~= seq![
                Offer { handler: 0, arrival: self.arrivals@.len() as int },
            ]);
            self.offers@ = self.offers@.push(Offer { handler: 0, arrival: self.arrivals@.len() as int });
            self.arrivals@ = self.arrivals@.push(e);
            assert(self.offers@ =~= old(self).offers@ + span(0, 0, self.arrivals@.len() - 1));
        }
        self.started = true;
        self.failures = Vec::new();
        let reply = handle_help(&self.plugins, &e);
        self.event = Some(e);
        self.turn = Turn::Help;
        reply
    }

    /// Tells the handler whose turn it is how its call went, and gives back
    /// what it asks next, where it waits again.
    fn resume_turn(&mut self, i: usize, outcome: &Outcome, now: i64) -> (r: Option<Command>)
        requires
            old(self).wf(),
            old(self).turn == Turn::Plugin(i),
        ensures
            final(self).wf(),
            final(self).started == old(self).started,
            final(self).turn == old(self).turn,
            final(self).event == old(self).event,
            final(self).config == old(self).config,
            final(self).plugins@.len() == old(self).plugins@.len(),
            final(self).entries() == old(self).entries(),
            final(self).arrivals@ == old(self).arrivals@,
            final(self).offers@ == old(self).offers@,
            forall|j: int|
                0 <= j < old(self).plugins@.len() && j != i ==> #[trigger] final(self).plugins@[j] == old(self).plugins@[j],
            match r {
                Some(command) => !(command@ is Receive) && rehalted(
                    old(self).plugins@[i as int],
                    final(self).plugins@[i as int],
                    *outcome,
                    now,
                    command@,
                ),
                None => finished(
                    old(self).plugins@[i as int],
                    final(self).plugins@[i as int],
                    *outcome,
                    now,
                    final(self).failures@.contains(i),
                ),
            },
            forall|k: int| 0 <= k < final(self).failures@.len() ==> final(self).failures@[k] == i,
            final(self).failures@.len() <= 1,
            r is Some ==> final(self).failures@.len() == 0,
    {
        let ghost before = self.plugins@;
        self.failures = Vec::new();
        let step = self.plugins[i].resume_at(outcome, now);
        proof {
            assert(self.plugins@ == before.update(i as int, self.plugins@[i as int]));
            assert(before[i as int].resumes(*outcome, now, &self.plugins@[i as int], step@));
            assert(entries_of(self.plugins@) =~= entries_of(before));
        }
        if step.is_waiting() {
            Some(pass_on(step))
        } else {
            match step {
                Step::Failed => {
                    self.failures.push(i);
                    assert(self.failures@[0] == i);
                },
                _ => {},
            }
            None
        }
    }

    /// Goes on with the round from the handler with index `from`.
    fn continue_round(&mut self, from: usize, now: i64) -> (r: Command)
        requires
            old(self).wf(),
            !(old(self).turn is Idle),
            from == old(self).position(),
            forall|k: int| 0 <= k < old(self).failures@.len() ==> old(self).failures@[k] < from,
        ensures
            final(self).wf(),
            final(self).started == old(self).started,
            final(self).config == old(self).config,
            final(self).plugins@.len() == old(self).plugins@.len(),
            final(self).entries() == old(self).entries(),
            final(self).arrivals@ == old(self).arrivals@,
            final(self).offers@ == old(self).offers@ + span(
                from + 1,
                final(self).position(),
                final(self).arrivals@.len() - 1,
            ),
            r@ is Receive <==> final(self).turn is Idle,
            untouched_below(old(self).plugins@, final(self).plugins@, from as int),
            dispatched(
                old(self).plugins@,
                final(self).plugins@,
                &old(self).event->0,
                from as int,
                now,
                final(self).turn,
                r@,
                final(self).failures@,
            ),
            forall|j: usize| j < from ==> final(self).failures@.contains(j) == old(self).failures@.contains(j),
            forall|k: int|
                old(self).failures@.len() <= k < final(self).failures@.len() ==> final(self).failures@[k] >= from,
    {
        let ghost paused = self.offers@;
        let (stop, command) = match &self.event {
            Some(e) => offer_from(&mut self.plugins, e, from, now, &mut self.failures),
            None => (self.plugins.len(), Command::Receive),
        };
        if stop < self.plugins.len() {
            self.turn = Turn::Plugin(stop);
        } else {
            self.turn = Turn::Idle;
            self.event = None;
        }
        proof {
            let upto = self.position();
            lemma_round_continues(paused, self.plugins@.len() as int, upto);
            self.offers@ = paused + span(from as int + 1, upto, self.arrivals@.len() - 1);
        }
        command
    }

    /// Takes the driver's report at the time the clock shows and says what
    /// to do next: one step of the runtime's loop, whose waiting and calling
    /// the driver does.
    pub fn run(&mut self, signal: Signal) -> (r: Command)
        requires
            old(self).wf(),
            signal is Arrived <==> old(self).turn is Idle,
        ensures
            final(self).wf(),
            exists|now: i64| old(self).stepped(signal, now, final(self), r@),
    {
        let now = unix_now();
        self.step_at(signal, now)
    }
}

/// Whether the offer `a` comes before the offer `b` in the order of
/// dispatch: an earlier arrival, or the same arrival to an earlier handler.
pub open spec fn precedes(a: Offer, b: Offer) -> bool {
    a.arrival < b.arrival || (a.arrival == b.arrival && a.handler < b.handler)
}

/// In a run of rounds an earlier offer precedes a later one.
pub proof fn lemma_orderly_is_sorted(offers: Seq<Offer>, count: int, k1: int, k2: int)
    requires
        orderly(offers, count),
        0 <= k1 < k2 < offers.len(),
    ensures
        precedes(offers[k1], offers[k2]),
    decreases k2 - k1,
{
    reveal(orderly);
    assert(in_place(offers, k2, count));
    assert(in_place(offers, k2 - 1, count));
    if k1 < k2 - 1 {
        lemma_orderly_is_sorted(offers, count, k1, k2 - 1);
    }
}

/// In a run of rounds no offer is left out: every handler's offer of every
/// arrival is there, up to the last offer made.
pub proof fn lemma_orderly_is_complete(offers: Seq<Offer>, count: int, handler: int, arrival: int)
    requires
        orderly(offers, count),
        offers.len() > 0,
        0 <= handler <= count,
        0 <= arrival,
        arrival < offers.last().arrival || (arrival == offers.last().arrival && handler <= offers.last().handler),
    ensures
        exists|k: int| 0 <= k < offers.len() && offers[k] == (Offer { handler, arrival }),
    decreases offers.last().arrival - arrival, count - handler,
{
    reveal(orderly);
    let last = offers.last();
    assert(in_place(offers, offers.len() - 1, count));
    if arrival == last.arrival && handler == last.handler {
        assert(offers[offers.len() - 1] == (Offer { handler, arrival }));
    } else if handler < count && (arrival < last.arrival || handler + 1 <= last.handler) {
        lemma_orderly_is_complete(offers, count, handler + 1, arrival);
        let k = choose|k: int| 0 <= k < offers.len() && offers[k] == (Offer { handler: handler + 1, arrival });
        assert(in_place(offers, k, count));
        assert(offers[k - 1] == (Offer { handler, arrival }));
    } else {
        lemma_orderly_is_complete(offers, count, 0, arrival + 1);
        let k = choose|k: int| 0 <= k < offers.len() && offers[k] == (Offer { handler: 0, arrival: arrival + 1 });
        assert(in_place(offers, k, count));
        assert(in_place(offers, k - 1, count));
        assert(offers[k - 1] == (Offer { handler, arrival }));
    }
}

/// Events are dispatched in the order of their arrival, and within the
/// round of one event the help handler comes first and the handlers follow
/// in registration order: of two offers that the runtime made, the one
/// made earlier is that of the earlier arrival, or of the same arrival to
/// the handler with the earlier place. So every handler sees the events in
/// the order in which they were enqueued, and the same order as every other
/// handler.
pub proof fn lemma_dispatch_order(bot: Bot, k1: int, k2: int)
    requires
        bot.wf(),
        0 <= k1 < bot.offers@.len(),
        0 <= k2 < bot.offers@.len(),
    ensures
        k1 < k2 <==> precedes(bot.offers@[k1], bot.offers@[k2]),
        0 <= bot.offers@[k1].handler <= bot.plugins@.len(),
        0 <= bot.offers@[k1].arrival < bot.arrivals@.len(),
{
    let offers = bot.offers@;
    let count = bot.plugins@.len() as int;
    if k1 < k2 {
        lemma_orderly_is_sorted(offers, count, k1, k2);
    } else if k2 < k1 {
        lemma_orderly_is_sorted(offers, count, k2, k1);
    }
    if k1 < offers.len() - 1 {
        lemma_orderly_is_sorted(offers, count, k1, offers.len() - 1);
    }
    if 0 < k1 {
        lemma_orderly_is_sorted(offers, count, 0, k1);
    }
    assert(offers[0] == (Offer { handler: 0, arrival: 0 })) by {
        reveal(orderly);
    }
    assert(in_place(offers, k1, count)) by {
        reveal(orderly);
    }
}

/// No handler is skipped, whatever the handlers before it did: once the
/// runtime is idle again, every arrival has been offered to the help
/// handler and to every registered handler; and while a round is under
/// way, the event in flight has been offered to every handler up to the one
/// whose turn it is. A handler that failed, or whose call was refused, does
/// not keep the event from those behind it.
pub proof fn lemma_no_handler_is_skipped(bot: Bot, handler: int, arrival: int)
    requires
        bot.wf(),
        0 <= arrival < bot.arrivals@.len(),
        0 <= handler <= bot.plugins@.len(),
        arrival == bot.arrivals@.len() - 1 ==> handler <= bot.position(),
    ensures
        exists|k: int| 0 <= k < bot.offers@.len() && bot.offers@[k] == (Offer { handler, arrival }),
{
    lemma_orderly_is_complete(bot.offers@, bot.plugins@.len() as int, handler, arrival);
}

/// A handler that gives up takes nothing from those behind it: when the
/// handler whose turn it was gave up in a step, every handler behind it, up
/// to the one that the round now waits for, was offered the very event, and
/// its new state and its wish are what its own reaction to that event makes
/// them.
pub proof fn lemma_failure_is_isolated(
    before: Bot,
    signal: Signal,
    now: i64,
    after: Bot,
    command: CommandView,
    failed: usize,
    behind: int,
)
    requires
        before.wf(),
        before.turn == Turn::Plugin(failed),
        !(signal is Arrived),
        before.stepped(signal, now, &after, command),
        after.failures@.contains(failed),
        failed < behind < before.plugins@.len(),
        after.turn matches Turn::Plugin(waiting) ==> behind <= waiting,
    ensures
        exists|step: StepView|
            before.plugins@[behind].begins(&before.event->0, now, &after.plugins@[behind], step),
{
    if after.turn == Turn::Plugin(failed) {
        assert(after.failures@.len() == 0);
    } else {
        let stop = match after.turn {
            Turn::Plugin(waiting) => waiting as int,
            _ => before.plugins@.len() as int,
        };
        if behind < stop {
            assert(passed(
                before.plugins@[behind],
                after.plugins@[behind],
                &before.event->0,
                now,
                after.failures@.contains(behind as usize),
            ));
        } else {
            assert(halted(before.plugins@[behind], after.plugins@[behind], &before.event->0, now, command));
        }
    }
}

/// Two rounds of one event that go on from the same handler, over handlers
/// that are the same in both from there on, go the same way: they pause on
/// the same handler with the same command, the same handlers give up, and
/// every handler from there on ends in the same state. What the handlers
/// before did, and how they differ between the rounds, plays no part; nor
/// does the time, as far as the handlers are steady between the two times.
pub proof fn lemma_rounds_agree(
    before_one: Seq<AnyPlugin>,
    after_one: Seq<AnyPlugin>,
    turn_one: Turn,
    command_one: CommandView,
    failures_one: Seq<usize>,
    now_one: i64,
    before_other: Seq<AnyPlugin>,
    after_other: Seq<AnyPlugin>,
    turn_other: Turn,
    command_other: CommandView,
    failures_other: Seq<usize>,
    now_other: i64,
    event: &CQEvent,
    from: int,
)
    requires
        0 <= from,
        before_one.len() == before_other.len(),
        turn_one matches Turn::Plugin(i) ==> i < before_one.len(),
        turn_other matches Turn::Plugin(i) ==> i < before_other.len(),
        dispatched(before_one, after_one, event, from, now_one, turn_one, command_one, failures_one),
        dispatched(before_other, after_other, event, from, now_other, turn_other, command_other, failures_other),
        forall|j: int|
            from <= j < before_one.len() ==> (#[trigger] before_one[j]) == before_other[j] && before_one[j].decides(
                event,
            ) && before_one[j].steady(event, now_one, now_other),
    ensures
        turn_one == turn_other,
        command_one == command_other,
        forall|j: int| from <= j < before_one.len() ==> (#[trigger] after_one[j]).same_as(&after_other[j]),
        forall|j: usize|
            from <= j < before_one.len() ==> #[trigger] failures_one.contains(j) == failures_other.contains(j),
{
    let count = before_one.len() as int;
    let stop_one = match turn_one {
        Turn::Plugin(i) => i as int,
        _ => count,
    };
    let stop_other = match turn_other {
        Turn::Plugin(i) => i as int,
        _ => count,
    };
    if stop_one < stop_other {
        let at = stop_one;
        assert(before_other[at] == before_one[at]);
        let f = failures_other.contains(at as usize);
        assert(passed(before_one[at], after_other[at], event, now_other, f));
        lemma_pause_is_decided(before_one[at], after_one[at], now_one, after_other[at], now_other, event, command_one, f);
    } else if stop_other < stop_one {
        let at = stop_other;
        assert(before_other[at] == before_one[at]);
        let f = failures_one.contains(at as usize);
        assert(passed(before_one[at], after_one[at], event, now_one, f));
        lemma_steady_both_ways(before_one[at], event, now_one, now_other);
        lemma_pause_is_decided(before_one[at], after_other[at], now_other, after_one[at], now_one, event, command_other, f);
    }
    assert(stop_one == stop_other);
    if stop_one < count {
        let at = stop_one;
        assert(before_other[at] == before_one[at]);
        let a = choose|step: StepView|
            before_one[at].begins(event, now_one, &after_one[at], step) && step.waits() && command_one == command_of(
                step,
            );
        let b = choose|step: StepView|
            before_one[at].begins(event, now_other, &after_other[at], step) && step.waits() && command_other
                == command_of(step);
        lemma_reaction_is_decided(before_one[at], event, now_one, after_one[at], a, now_other, after_other[at], b);
    }
    assert forall|i: usize| from <= i < count implies #[trigger] failures_one.contains(i)
        == failures_other.contains(i) by {
        let j = i as int;
        assert(before_other[j] == before_one[j]);
        if j < stop_one {
            lemma_passing_is_decided(
                before_one[j],
                after_one[j],
                now_one,
                failures_one.contains(i),
                after_other[j],
                now_other,
                failures_other.contains(i),
                event,
            );
        } else {
            if failures_one.contains(i) {
                let k = choose|k: int| 0 <= k < failures_one.len() && failures_one[k] == i;
                assert(failures_one[k] < stop_one);
            }
            if failures_other.contains(i) {
                let k = choose|k: int| 0 <= k < failures_other.len() && failures_other[k] == i;
                assert(failures_other[k] < stop_other);
            }
        }
    }
    assert forall|j: int| from <= j < count implies (#[trigger] after_one[j]).same_as(&after_other[j]) by {
        assert(before_other[j] == before_one[j]);
        if j < stop_one {
            lemma_passing_is_decided(
                before_one[j],
                after_one[j],
                now_one,
                failures_one.contains(j as usize),
                after_other[j],
                now_other,
                failures_other.contains(j as usize),
                event,
            );
        } else if j > stop_one {
            assert(after_one[j] == before_one[j]);
            assert(after_other[j] == before_one[j]);
            lemma_same_as_itself(before_one[j]);
        }
    }
}

/// A round that went on from one handler, and passed it, went on from the
/// next as well.
pub proof fn lemma_round_goes_on_behind(
    before: Seq<AnyPlugin>,
    after: Seq<AnyPlugin>,
    event: &CQEvent,
    from: int,
    now: i64,
    turn: Turn,
    command: CommandView,
    failures: Seq<usize>,
)
    requires
        dispatched(before, after, event, from, now, turn, command, failures),
        from < before.len(),
        turn matches Turn::Plugin(i) ==> from < i,
    ensures
        dispatched(before, after, event, from + 1, now, turn, command, failures),
{
}

/// A handler that is passed in two rounds which offer it the same event, at
/// times between which it is steady, gives up in both or in neither, and
/// ends in the same state.
proof fn lemma_passing_is_decided(
    handler: AnyPlugin,
    one: AnyPlugin,
    now_one: i64,
    failed_one: bool,
    other: AnyPlugin,
    now_other: i64,
    failed_other: bool,
    event: &CQEvent,
)
    requires
        handler.decides(event),
        handler.steady(event, now_one, now_other),
        passed(handler, one, event, now_one, failed_one),
        passed(handler, other, event, now_other, failed_other),
    ensures
        failed_one == failed_other,
        one.same_as(&other),
{
    let a = choose|step: StepView|
        handler.begins(event, now_one, &one, step) && !step.waits() && (step is Failed) == failed_one;
    let b = choose|step: StepView|
        handler.begins(event, now_other, &other, step) && !step.waits() && (step is Failed) == failed_other;
    lemma_reaction_is_decided(handler, event, now_one, one, a, now_other, other, b);
}

/// A handler that waits in one round is not passed in another that offers
/// it the same event at a time between which and the first it is steady.
proof fn lemma_pause_is_decided(
    handler: AnyPlugin,
    waiting: AnyPlugin,
    now_waiting: i64,
    passing: AnyPlugin,
    now_passing: i64,
    event: &CQEvent,
    command: CommandView,
    failed: bool,
)
    requires
        handler.decides(event),
        handler.steady(event, now_waiting, now_passing),
        halted(handler, waiting, event, now_waiting, command),
    ensures
        !passed(handler, passing, event, now_passing, failed),
{
    if passed(handler, passing, event, now_passing, failed) {
        let a = choose|step: StepView|
            handler.begins(event, now_waiting, &waiting, step) && step.waits() && command == command_of(step);
        let b = choose|step: StepView|
            handler.begins(event, now_passing, &passing, step) && !step.waits() && (step is Failed) == failed;
        lemma_reaction_is_decided(handler, event, now_waiting, waiting, a, now_passing, passing, b);
    }
}

/// A handler that is steady between two times is so in either order.
proof fn lemma_steady_both_ways(handler: AnyPlugin, event: &CQEvent, one: i64, other: i64)
    requires
        handler.steady(event, one, other),
    ensures
        handler.steady(event, other, one),
{
}

/// Every handler is in the same state as itself.
proof fn lemma_same_as_itself(handler: AnyPlugin)
    ensures
        handler.same_as(&handler),
{
}

/// Whether one handler gives up or does its work makes no difference to
/// those behind it. Take two runs that stand at the same handler with the
/// same event, and whose handlers behind it are the same: if that handler
/// gives up in one run and is done in the other, both runs go on the same
/// way. They pause on the same handler with the same command, and every
/// handler behind ends in the same state in both. The two runs may go by
/// different times, as far as the handlers behind are steady between them.
pub proof fn lemma_failure_changes_nothing_behind(
    failing: Bot,
    failed: Bot,
    signal_failing: Signal,
    command_failing: CommandView,
    now_failing: i64,
    working: Bot,
    worked: Bot,
    signal_working: Signal,
    command_working: CommandView,
    now_working: i64,
    at: usize,
)
    requires
        failing.wf(),
        working.wf(),
        failed.wf(),
        worked.wf(),
        failing.turn == Turn::Plugin(at),
        working.turn == Turn::Plugin(at),
        !(signal_failing is Arrived),
        !(signal_working is Arrived),
        failing.event == working.event,
        failing.plugins@.len() == working.plugins@.len(),
        forall|j: int|
            at < j < failing.plugins@.len() ==> (#[trigger] failing.plugins@[j]) == working.plugins@[j]
                && failing.plugins@[j].decides(&failing.event->0) && failing.plugins@[j].steady(
                &failing.event->0,
                now_failing,
                now_working,
            ),
        failing.stepped(signal_failing, now_failing, &failed, command_failing),
        working.stepped(signal_working, now_working, &worked, command_working),
        failed.failures@.contains(at),
        worked.turn != Turn::Plugin(at),
        !worked.failures@.contains(at),
    ensures
        failed.turn == worked.turn,
        command_failing == command_working,
        forall|j: int| at < j < failing.plugins@.len() ==> (#[trigger] failed.plugins@[j]).same_as(&worked.plugins@[j]),
        forall|j: usize|
            at < j < failing.plugins@.len() ==> #[trigger] failed.failures@.contains(j) == worked.failures@.contains(j),
{
    if failed.turn == Turn::Plugin(at) {
        assert(failed.failures@.len() == 0);
    } else {
        lemma_rounds_agree(
            failing.plugins@,
            failed.plugins@,
            failed.turn,
            command_failing,
            failed.failures@,
            now_failing,
            working.plugins@,
            worked.plugins@,
            worked.turn,
            command_working,
            worked.failures@,
            now_working,
            &failing.event->0,
            at + 1,
        );
    }
}

} // verus!
