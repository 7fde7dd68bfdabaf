//! Answers a message made of question marks with the same message, at most
//! once per cooldown.

use vstd::prelude::*;
use crate::debounce::Cooldown;
use crate::gateway::send_group;
use crate::matching::{is_match, regex_is_match, unix_now};
use crate::models::{CQEvent, Plugin, PluginEntry, PluginSenario};
use crate::plugins::{Outcome, Step, StepView};

verus! {

/// How long the handler keeps quiet after an answer.
#[derive(Clone, Copy, Debug, Default)]
pub struct QuestionPluginConfig {
    pub sleep_seconds: i64,
}

/// When the handler last answered, and whether an answer is under way.
#[derive(Clone, Copy, Debug)]
pub struct QuestionPluginState {
    pub cooldown: Cooldown,
    pub awaiting: bool,
}

/// The question-mark handler.
#[derive(Clone, Copy, Debug)]
pub struct QuestionPlugin {
    pub state: QuestionPluginState,
    pub config: QuestionPluginConfig,
}

/// The pattern of a message made of question marks only.
pub open spec fn question_pattern() -> Seq<char> {
    r"^[\?？¿⁇❓❔]+$"@
}

/// Whether `event` is a question: a group message, with a group to reply
/// to, whose text the pattern matches.
pub open spec fn is_question(event: &CQEvent) -> bool {
    event.is_group_message() && event.group_id is Some && match event.raw_message {
        Some(msg) => regex_is_match(question_pattern(), msg@) == Some(true),
        None => false,
    }
}

impl QuestionPlugin {
    /// Whether the handler answers a message `text` to `group_id` at `now`,
    /// given what the pattern said of it.
    pub open spec fn answers(self, group_id: Option<i64>, matched: Option<bool>, now: i64) -> bool {
        group_id is Some && matched == Some(true) && self.state.cooldown.allows(now, self.config.sleep_seconds)
    }

    /// The handler after such a message.
    pub open spec fn asked(self, group_id: Option<i64>, matched: Option<bool>, now: i64) -> QuestionPlugin {
        if self.answers(group_id, matched, now) {
            QuestionPlugin { state: QuestionPluginState { cooldown: self.state.cooldown, awaiting: true }, ..self }
        } else {
            self
        }
    }

    /// What the handler wants after such a message.
    pub open spec fn asking(self, group_id: Option<i64>, text: Seq<char>, matched: Option<bool>, now: i64) -> StepView {
        if self.answers(group_id, matched, now) {
            StepView::group_msg(group_id->0, text)
        } else {
            StepView::Done
        }
    }

    /// The handler after `event` was offered to it at `now`.
    pub open spec fn began(self, event: &CQEvent, now: i64) -> QuestionPlugin {
        match event.raw_message {
            Some(msg) if event.is_group_message() => self.asked(
                event.group_id,
                regex_is_match(question_pattern(), msg@),
                now,
            ),
            _ => self,
        }
    }

    /// What the handler wants when `event` is offered to it at `now`.
    pub open spec fn reaction(self, event: &CQEvent, now: i64) -> StepView {
        match event.raw_message {
            Some(msg) if event.is_group_message() => self.asking(
                event.group_id,
                msg@,
                regex_is_match(question_pattern(), msg@),
                now,
            ),
            _ => StepView::Done,
        }
    }

    /// The handler after it learnt at `now` how its call went: a delivered
    /// answer starts the cooldown.
    pub open spec fn resumed(self, delivered: bool, now: i64) -> QuestionPlugin {
        if self.state.awaiting {
            QuestionPlugin {
                state: QuestionPluginState {
                    cooldown: if delivered {
                        self.state.cooldown.stamped(now)
                    } else {
                        self.state.cooldown
                    },
                    awaiting: false,
                },
                ..self
            }
        } else {
            self
        }
    }

    /// What the handler wants after it learnt how its call went.
    pub open spec fn conclusion(self, delivered: bool) -> StepView {
        if self.state.awaiting && !delivered {
            StepView::Failed
        } else {
            StepView::Done
        }
    }

    /// A handler that has not answered yet. Without a configuration there is
    /// no cooldown.
    pub fn new(config: Option<QuestionPluginConfig>) -> (r: QuestionPlugin)
        ensures
            r.state.cooldown.last_action_timestamp == 0,
            !r.state.awaiting,
            r.config.sleep_seconds == match config {
                Some(c) => c.sleep_seconds,
                None => 0,
            },
    {
        QuestionPlugin {
            state: QuestionPluginState { cooldown: Cooldown::new(), awaiting: false },
            config: match config {
                Some(c) => c,
                None => QuestionPluginConfig { sleep_seconds: 0 },
            },
        }
    }

    /// Decides on a message `text` to `group_id` at `now`, given what the
    /// pattern said of it.
    pub fn question(&mut self, group_id: Option<i64>, text: &str, matched: Option<bool>, now: i64) -> (r: Step)
        ensures
            *final(self) == old(self).asked(group_id, matched, now),
            r@ == old(self).asking(group_id, text@, matched, now),
    {
        match (group_id, matched) {
            (Some(g), Some(true)) => {
                if self.state.cooldown.is_ready(now, self.config.sleep_seconds) {
                    self.state.awaiting = true;
                    Step::Call(send_group(g, text))
                } else {
                    Step::Done
                }
            },
            _ => Step::Done,
        }
    }

    /// Offers `event` to the handler at `now`.
    pub fn begin_at(&mut self, event: &CQEvent, now: i64) -> (r: Step)
        ensures
            *final(self) == old(self).began(event, now),
            r@ == old(self).reaction(event, now),
    {
        if !event.is_group_message_event() {
            return Step::Done;
        }
        match &event.raw_message {
            Some(msg) => {
                let matched = is_match(r"^[\?？¿⁇❓❔]+$", msg.as_str());
                self.question(event.group_id, msg.as_str(), matched, now)
            },
            None => Step::Done,
        }
    }

    /// Tells the handler at `now` how its call went.
    pub fn resume_at(&mut self, delivered: bool, now: i64) -> (r: Step)
        ensures
            *final(self) == old(self).resumed(delivered, now),
            r@ == old(self).conclusion(delivered),
    {
        if !self.state.awaiting {
            return Step::Done;
        }
        self.state.awaiting = false;
        if delivered {
            self.state.cooldown.stamp(now);
            Step::Done
        } else {
            Step::Failed
        }
    }

    /// Offers `event` to the handler at the time the clock shows.
    pub fn begin(&mut self, event: &CQEvent) -> (r: Step)
        ensures
            exists|now: i64|
                *final(self) == old(self).began(event, now) && r@ == old(self).reaction(event, now),
    {
        let now = unix_now();
        self.begin_at(event, now)
    }

    /// Tells the handler how its call went, at the time the clock shows.
    pub fn resume(&mut self, delivered: bool) -> (r: Step)
        ensures
            r@ == old(self).conclusion(delivered),
            exists|now: i64| *final(self) == old(self).resumed(delivered, now),
    {
        let now = unix_now();
        self.resume_at(delivered, now)
    }
}

/// A question outside the cooldown is answered. After the answer to a
/// question asked at `first` was delivered, a question less than the
/// cooldown later gets none, provided the clock did not run backwards while
/// the answer was sent; and a question exactly one cooldown after the answer
/// was delivered is answered again.
pub proof fn lemma_question_debounce(
    start: QuestionPlugin,
    one: &CQEvent,
    first: i64,
    delivered_at: i64,
    two: &CQEvent,
    second: i64,
)
    requires
        is_question(one),
        start.state.cooldown.allows(first, start.config.sleep_seconds),
        first <= delivered_at,
    ensures
        start.reaction(one, first) is Call,
        second - first < start.config.sleep_seconds ==> start.began(one, first).resumed(
            true,
            delivered_at,
        ).reaction(two, second) == StepView::Done,
        is_question(two) && second - delivered_at == start.config.sleep_seconds ==> start.began(
            one,
            first,
        ).resumed(true, delivered_at).reaction(two, second) is Call,
{
}

impl Plugin for QuestionPlugin {
    open spec fn entry(&self) -> PluginEntry {
        PluginEntry {
            name: "question"@,
            description: "自动复读问号"@,
            help: ""@,
            senario: PluginSenario::Group,
        }
    }

    fn name(&self) -> &'static str {
        "question"
    }

    fn description(&self) -> &'static str {
        "自动复读问号"
    }

    fn help(&self) -> &'static str {
        ""
    }

    fn senario(&self) -> PluginSenario {
        PluginSenario::Group
    }

    open spec fn handles(&self, event: &CQEvent, now: i64, next: &Self, step: StepView) -> bool {
        *next == self.began(event, now) && step == self.reaction(event, now)
    }

    open spec fn follows(&self, outcome: Outcome, now: i64, next: &Self, step: StepView) -> bool {
        *next == self.resumed(outcome.succeeded(), now) && step == self.conclusion(outcome.succeeded())
    }

    fn handle(&mut self, event: &CQEvent, now: i64) -> (r: Step) {
        self.begin_at(event, now)
    }

    fn follow_up(&mut self, outcome: &Outcome, now: i64) -> (r: Step) {
        self.resume_at(outcome.is_success(), now)
    }
}

} // verus!
