//! Joins in when a group repeats one message: once the same text has been
//! seen a configured number of times in a row, the handler says it too.

use vstd::prelude::*;
use crate::debounce::{lemma_replies_every_nth, run_ending, Cooldown, RepeatTracker, Streak};
use crate::gateway::send_group;
use crate::models::{CQEvent, Plugin, PluginEntry, PluginSenario};
use crate::plugins::{Outcome, Step, StepView};

verus! {

/// How many times in a row a message must be seen, and how long the handler
/// keeps quiet after it joined in.
#[derive(Clone, Copy, Debug, Default)]
pub struct RepeatPluginConfig {
    pub threshold: i64,
    pub sleep_seconds: i64,
}

/// The streak that the handler follows, when it last joined in, and whether
/// a reply is under way.
#[derive(Clone, Debug)]
pub struct RepeatPluginState {
    pub tracker: RepeatTracker,
    pub cooldown: Cooldown,
    pub awaiting: bool,
}

/// The mathematical content of a [`RepeatPluginState`].
pub struct RepeatStateView {
    pub streak: Streak,
    pub cooldown: Cooldown,
    pub awaiting: bool,
}

impl View for RepeatPluginState {
    type V = RepeatStateView;

    open spec fn view(&self) -> RepeatStateView {
        RepeatStateView { streak: self.tracker@, cooldown: self.cooldown, awaiting: self.awaiting }
    }
}

/// The repeating handler.
#[derive(Clone, Debug)]
pub struct RepeatPlugin {
    pub state: RepeatPluginState,
    pub config: RepeatPluginConfig,
}

/// The group and text of `event`, where it is a group message that has both.
pub open spec fn heard_in_group(event: &CQEvent) -> Option<(i64, Seq<char>)> {
    match (event.group_id, event.raw_message) {
        (Some(g), Some(msg)) if event.is_group_message() => Some((g, msg@)),
        _ => None,
    }
}

impl RepeatStateView {
    /// Whether the handler joins in on `text`, seen at `now`: it is outside
    /// its cooldown and the streak, `text` included, has reached the
    /// threshold.
    pub open spec fn joins(self, config: RepeatPluginConfig, text: Seq<char>, now: i64) -> bool {
        self.cooldown.allows(now, config.sleep_seconds) && self.streak.observed(text).fires(
            text,
            config.threshold,
        )
    }

    /// The state after `text` was seen at `now`.
    pub open spec fn noted(self, config: RepeatPluginConfig, text: Seq<char>, now: i64) -> RepeatStateView {
        RepeatStateView {
            streak: self.streak.observed(text),
            cooldown: self.cooldown,
            awaiting: self.joins(config, text, now),
        }
    }

    /// The state after `event` was offered at `now`: a group message with
    /// its text and group is taken note of.
    pub open spec fn began(self, config: RepeatPluginConfig, event: &CQEvent, now: i64) -> RepeatStateView {
        match heard_in_group(event) {
            Some((g, text)) => self.noted(config, text, now),
            None => RepeatStateView { awaiting: false, ..self },
        }
    }

    /// What the handler wants when `event` is offered at `now`: where it
    /// joins in, the text of the message for the group it came from, and
    /// nothing otherwise.
    pub open spec fn reaction(self, config: RepeatPluginConfig, event: &CQEvent, now: i64) -> StepView {
        match heard_in_group(event) {
            Some((g, text)) if self.joins(config, text, now) => StepView::group_msg(g, text),
            _ => StepView::Done,
        }
    }

    /// The state after the reply under way came back at `now`: a delivered
    /// reply ends the streak and starts the cooldown.
    pub open spec fn resumed(self, delivered: bool, now: i64) -> RepeatStateView {
        if self.awaiting && delivered {
            RepeatStateView { streak: Streak::empty(), cooldown: self.cooldown.stamped(now), awaiting: false }
        } else {
            RepeatStateView { awaiting: false, ..self }
        }
    }

    /// What the handler wants after the reply under way came back.
    pub open spec fn conclusion(self, delivered: bool) -> StepView {
        if self.awaiting && !delivered {
            StepView::Failed
        } else {
            StepView::Done
        }
    }
}

impl RepeatPlugin {
    /// The state after `event` was offered at `now`.
    pub open spec fn began(&self, event: &CQEvent, now: i64) -> RepeatStateView {
        self.state@.began(self.config, event, now)
    }

    /// What the handler wants when `event` is offered at `now`.
    pub open spec fn reaction(&self, event: &CQEvent, now: i64) -> StepView {
        self.state@.reaction(self.config, event, now)
    }

    /// A handler that follows no streak yet. Without a configuration the
    /// threshold and the cooldown are zero.
    pub fn new(config: Option<RepeatPluginConfig>) -> (r: RepeatPlugin)
        ensures
            r.state@ == (RepeatStateView {
                streak: Streak::empty(),
                cooldown: Cooldown { last_action_timestamp: 0 },
                awaiting: false,
            }),
            r.config == match config {
                Some(c) => c,
                None => RepeatPluginConfig { threshold: 0, sleep_seconds: 0 },
            },
    {
        RepeatPlugin {
            state: RepeatPluginState { tracker: RepeatTracker::new(), cooldown: Cooldown::new(), awaiting: false },
            config: match config {
                Some(c) => c,
                None => RepeatPluginConfig { threshold: 0, sleep_seconds: 0 },
            },
        }
    }

    /// Takes note of the message `text`: the streak grows by one where the
    /// text continues it, and starts anew at one otherwise. Nothing else
    /// changes, and nothing is asked for.
    pub fn set_state(&mut self, text: &str)
        ensures
            final(self).state@ == (RepeatStateView {
                streak: old(self).state@.streak.observed(text@),
                ..old(self).state@
            }),
            final(self).config == old(self).config,
    {
        self.state.tracker.observe(text);
    }

    /// Joins in on the message `text` from the group `group_id` where the
    /// streak of that text has reached the threshold: the reply is the text
    /// itself, and the handler waits for it to be sent. What follows the
    /// send is told with `resume_at`.
    pub fn do_repeat(&mut self, group_id: i64, text: &str) -> (r: Step)
        ensures
            final(self).state@ == (RepeatStateView {
                awaiting: old(self).state@.streak.fires(text@, old(self).config.threshold),
                ..old(self).state@
            }),
            final(self).config == old(self).config,
            r@ == if old(self).state@.streak.fires(text@, old(self).config.threshold) {
                StepView::group_msg(group_id, text@)
            } else {
                StepView::Done
            },
    {
        if self.state.tracker.is_due(text, self.config.threshold) {
            self.state.awaiting = true;
            Step::Call(send_group(group_id, text))
        } else {
            self.state.awaiting = false;
            Step::Done
        }
    }

    /// Offers `event` to the handler at `now`: a group message is taken
    /// note of, and outside the cooldown the handler joins in where the
    /// streak has reached the threshold.
    pub fn begin_at(&mut self, event: &CQEvent, now: i64) -> (r: Step)
        ensures
            final(self).state@ == old(self).began(event, now),
            final(self).config == old(self).config,
            r@ == old(self).reaction(event, now),
    {
        self.state.awaiting = false;
        if !event.is_group_message_event() {
            return Step::Done;
        }
        match (event.group_id, &event.raw_message) {
            (Some(g), Some(msg)) => {
                self.set_state(msg.as_str());
                if !self.state.cooldown.is_ready(now, self.config.sleep_seconds) {
                    return Step::Done;
                }
                self.do_repeat(g, msg.as_str())
            },
            _ => Step::Done,
        }
    }

    /// Tells the handler at `now` how its reply went: where it was
    /// delivered, the streak is forgotten and the cooldown starts at `now`.
    pub fn resume_at(&mut self, delivered: bool, now: i64) -> (r: Step)
        ensures
            final(self).state@ == old(self).state@.resumed(delivered, now),
            final(self).config == old(self).config,
            r@ == old(self).state@.conclusion(delivered),
    {
        if !self.state.awaiting {
            return Step::Done;
        }
        self.state.awaiting = false;
        if delivered {
            self.state.tracker.clear();
            self.state.cooldown.stamp(now);
            Step::Done
        } else {
            Step::Failed
        }
    }
}

/// The state after the events were offered in turn, each at its time in
/// `heard_at`, every reply being delivered at its time in `delivered_at`.
pub open spec fn after_events(
    start: RepeatStateView,
    config: RepeatPluginConfig,
    events: Seq<CQEvent>,
    heard_at: Seq<i64>,
    delivered_at: Seq<i64>,
) -> RepeatStateView
    decreases events.len(),
{
    if events.len() == 0 {
        start
    } else {
        let last = events.len() - 1;
        after_events(start, config, events.drop_last(), heard_at, delivered_at).began(
            config,
            &events[last],
            heard_at[last],
        ).resumed(true, delivered_at[last])
    }
}

/// Whether the cooldown is not active at any of the events: each is offered
/// when the handler is outside its cooldown.
pub open spec fn outside_cooldown(
    start: RepeatStateView,
    config: RepeatPluginConfig,
    events: Seq<CQEvent>,
    heard_at: Seq<i64>,
    delivered_at: Seq<i64>,
) -> bool
    decreases events.len(),
{
    events.len() == 0 || (outside_cooldown(start, config, events.drop_last(), heard_at, delivered_at) && after_events(
        start,
        config,
        events.drop_last(),
        heard_at,
        delivered_at,
    ).cooldown.allows(heard_at[events.len() - 1], config.sleep_seconds))
}

/// Whether every one of the events is a group message with its text and
/// group.
pub open spec fn all_heard(events: Seq<CQEvent>) -> bool {
    forall|i: int| 0 <= i < events.len() ==> heard_in_group(&#[trigger] events[i]) is Some
}

/// The text of `event`, where it is a group message that has one.
pub open spec fn text_heard(event: &CQEvent) -> Seq<char> {
    match heard_in_group(event) {
        Some((g, text)) => text,
        None => Seq::empty(),
    }
}

/// The texts of the events, in their order.
pub open spec fn texts_of(events: Seq<CQEvent>) -> Seq<Seq<char>> {
    Seq::new(events.len(), |i: int| text_heard(&events[i]))
}

/// While the cooldown is not active, the handler follows the
/// repeat-detection rule: after group messages, each reply delivered, it is
/// left with the streak that [`Streak::heard_all`] describes for their
/// texts, whatever the times at which they came.
pub proof fn lemma_repeat_follows_streak(
    start: RepeatStateView,
    config: RepeatPluginConfig,
    events: Seq<CQEvent>,
    heard_at: Seq<i64>,
    delivered_at: Seq<i64>,
)
    requires
        events.len() <= heard_at.len(),
        events.len() <= delivered_at.len(),
        all_heard(events),
        outside_cooldown(start, config, events, heard_at, delivered_at),
    ensures
        after_events(start, config, events, heard_at, delivered_at).streak == start.streak.heard_all(
            texts_of(events),
            config.threshold,
        ),
    decreases events.len(),
{
    if events.len() > 0 {
        let rest = events.drop_last();
        let last = events.len() - 1;
        assert(all_heard(rest)) by {
            assert forall|i: int| 0 <= i < rest.len() implies heard_in_group(&#[trigger] rest[i]) is Some by {
                assert(rest[i] == events[i]);
            }
        }
        lemma_repeat_follows_streak(start, config, rest, heard_at, delivered_at);
        assert(texts_of(events).drop_last() =~= texts_of(rest));
        assert(texts_of(events).last() == text_heard(&events[last]));
        assert(heard_in_group(&events[last]) is Some);
    }
}

/// Without a cooldown to wait for, the cooldown is never active as long as
/// the clock does not run backwards: no event comes before the last stamp
/// that the handler started with, nor before an earlier reply was
/// delivered.
pub proof fn lemma_no_cooldown_is_never_active(
    start: RepeatStateView,
    config: RepeatPluginConfig,
    events: Seq<CQEvent>,
    heard_at: Seq<i64>,
    delivered_at: Seq<i64>,
)
    requires
        config.sleep_seconds <= 0,
        events.len() <= heard_at.len(),
        events.len() <= delivered_at.len(),
        forall|i: int| 0 <= i < events.len() ==> start.cooldown.last_action_timestamp <= #[trigger] heard_at[i],
        forall|i: int, j: int| 0 <= j < i < events.len() ==> #[trigger] delivered_at[j] <= #[trigger] heard_at[i],
    ensures
        outside_cooldown(start, config, events, heard_at, delivered_at),
        ({
            let stamp = after_events(start, config, events, heard_at, delivered_at).cooldown.last_action_timestamp;
            stamp == start.cooldown.last_action_timestamp || exists|j: int|
                0 <= j < events.len() && stamp == #[trigger] delivered_at[j]
        }),
    decreases events.len(),
{
    if events.len() > 0 {
        let rest = events.drop_last();
        let last = events.len() - 1;
        lemma_no_cooldown_is_never_active(start, config, rest, heard_at, delivered_at);
        let before = after_events(start, config, rest, heard_at, delivered_at);
        let stamp = before.cooldown.last_action_timestamp;
        assert(stamp <= heard_at[last]) by {
            if stamp != start.cooldown.last_action_timestamp {
                let j = choose|j: int| 0 <= j < rest.len() && stamp == #[trigger] delivered_at[j];
                assert(delivered_at[j] <= heard_at[last]);
            }
        }
        let after = after_events(start, config, events, heard_at, delivered_at);
        if after.cooldown.last_action_timestamp != stamp {
            assert(after.cooldown.last_action_timestamp == delivered_at[last]);
        } else if stamp != start.cooldown.last_action_timestamp {
            let j = choose|j: int| 0 <= j < rest.len() && stamp == #[trigger] delivered_at[j];
            assert(0 <= j < events.len() && after.cooldown.last_action_timestamp == delivered_at[j]);
        }
    }
}

/// Repeat detection by the handler, for a threshold of at least one and
/// while the cooldown is not active: after group messages heard from
/// nothing on, each reply delivered, the handler joins in on a message if
/// and only if the message completes a run of equal texts whose length is a
/// multiple of the threshold, that is, a run of exactly the threshold
/// counted from behind its last reply or the last different text. Its reply
/// is then the text of the message, to the group the message came from; on
/// every other message it wants nothing. The times may be any.
pub proof fn lemma_repeat_joins_every_nth(
    start: RepeatStateView,
    config: RepeatPluginConfig,
    events: Seq<CQEvent>,
    heard_at: Seq<i64>,
    delivered_at: Seq<i64>,
)
    requires
        config.threshold >= 1,
        start.streak == Streak::empty(),
        events.len() > 0,
        heard_at.len() == events.len(),
        delivered_at.len() == events.len(),
        all_heard(events),
        outside_cooldown(start, config, events, heard_at, delivered_at),
    ensures
        after_events(start, config, events.drop_last(), heard_at, delivered_at).reaction(
            config,
            &events.last(),
            heard_at.last(),
        ) == (if run_ending(texts_of(events)) % (config.threshold as nat) == 0 {
            StepView::group_msg(events.last().group_id->0, events.last().raw_message->0@)
        } else {
            StepView::Done
        }),
{
    let rest = events.drop_last();
    let last = events.len() - 1;
    assert(all_heard(rest)) by {
        assert forall|i: int| 0 <= i < rest.len() implies heard_in_group(&#[trigger] rest[i]) is Some by {
            assert(rest[i] == events[i]);
        }
    }
    lemma_repeat_follows_streak(start, config, rest, heard_at, delivered_at);
    assert(texts_of(events).drop_last() =~= texts_of(rest));
    assert(texts_of(events).last() == text_heard(&events[last]));
    assert(heard_in_group(&events[last]) is Some);
    lemma_replies_every_nth(texts_of(events), config.threshold);
}

impl Plugin for RepeatPlugin {
    open spec fn entry(&self) -> PluginEntry {
        PluginEntry { name: "repeat"@, description: "人云亦云"@, help: ""@, senario: PluginSenario::Group }
    }

    fn name(&self) -> &'static str {
        "repeat"
    }

    fn description(&self) -> &'static str {
        "人云亦云"
    }

    fn help(&self) -> &'static str {
        ""
    }

    fn senario(&self) -> PluginSenario {
        PluginSenario::Group
    }

    open spec fn handles(&self, event: &CQEvent, now: i64, next: &Self, step: StepView) -> bool {
        next.state@ == self.began(event, now) && next.config == self.config && step == self.reaction(event, now)
    }

    open spec fn follows(&self, outcome: Outcome, now: i64, next: &Self, step: StepView) -> bool {
        next.state@ == self.state@.resumed(outcome.succeeded(), now) && next.config == self.config && step
            == self.state@.conclusion(outcome.succeeded())
    }

    fn handle(&mut self, event: &CQEvent, now: i64) -> (r: Step) {
        self.begin_at(event, now)
    }

    fn follow_up(&mut self, outcome: &Outcome, now: i64) -> (r: Step) {
        self.resume_at(outcome.is_success(), now)
    }
}

} // verus!
