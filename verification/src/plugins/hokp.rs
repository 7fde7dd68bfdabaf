//! Teases a whitelisted group about a certain game: one line where a message
//! matches one list of patterns, another where it matches a second list, and
//! then silence for a cooldown.

use vstd::prelude::*;
use crate::debounce::Cooldown;
use crate::gateway::send_group;
use crate::matching::{is_match, regex_is_match};
use crate::models::{CQEvent, Plugin, PluginEntry, PluginSenario};
use crate::plugins::{Outcome, Step, StepView};

verus! {

/// The two pattern lists, the groups that the handler serves, and how long
/// it keeps quiet after a line.
#[derive(Clone, Debug)]
pub struct HOKpPluginConfig {
    pub not_hokp_patterns: Vec<String>,
    pub hokp_patterns: Vec<String>,
    pub whitelist: Vec<i64>,
    pub sleep_seconds: i64,
}

/// Where the handler stands with the event in flight.
#[derive(Clone, Copy, Debug, PartialEq, Eq, Structural)]
pub enum HOKpPhase {
    /// No call is under way.
    Idle,
    /// The first line is under way; `then` says whether the second list
    /// matched too (`None`: one of its patterns does not compile).
    First { group_id: i64, then: Option<bool> },
    /// The second line is under way.
    Second,
}

/// When the handler last spoke, and where it stands.
#[derive(Clone, Copy, Debug)]
pub struct HOKpPluginState {
    pub cooldown: Cooldown,
    pub phase: HOKpPhase,
}

/// The teasing handler.
#[derive(Clone, Debug)]
pub struct HOKpPlugin {
    pub state: HOKpPluginState,
    pub config: HOKpPluginConfig,
}

/// Whether one of `patterns`, from index `from` on, matches `text`: the
/// patterns are tried in order up to the first that matches, and `None`
/// stands for a pattern, met on the way, that does not compile.
pub open spec fn any_match(patterns: Seq<String>, text: Seq<char>, from: int) -> Option<bool>
    decreases patterns.len() - from,
{
    if from < 0 || from >= patterns.len() {
        Some(false)
    } else {
        match regex_is_match(patterns[from]@, text) {
            None => None,
            Some(true) => Some(true),
            Some(false) => any_match(patterns, text, from + 1),
        }
    }
}

/// The line for a message that matches the first list.
pub open spec fn first_line() -> Seq<char> {
    "要不咱玩农吧"@
}

/// The line for a message that matches the second list.
pub open spec fn second_line() -> Seq<char> {
    "农批收收味"@
}

/// The phase that a message to `group_id` leaves the handler in, given what
/// the two lists said of it.
pub open spec fn planned_phase(group_id: i64, first: Option<bool>, second: Option<bool>) -> HOKpPhase {
    match first {
        None => HOKpPhase::Idle,
        Some(true) => HOKpPhase::First { group_id, then: second },
        Some(false) => if second == Some(true) {
            HOKpPhase::Second
        } else {
            HOKpPhase::Idle
        },
    }
}

/// What the handler wants on a message to `group_id`, given what the two
/// lists said of it.
pub open spec fn planned_step(group_id: i64, first: Option<bool>, second: Option<bool>) -> StepView {
    match first {
        None => StepView::Failed,
        Some(true) => StepView::group_msg(group_id, first_line()),
        Some(false) => match second {
            None => StepView::Failed,
            Some(true) => StepView::group_msg(group_id, second_line()),
            Some(false) => StepView::Done,
        },
    }
}

impl HOKpPluginState {
    /// The state after the call under way came back at `now`: a delivered
    /// line starts the cooldown.
    pub open spec fn resumed(self, delivered: bool, now: i64) -> HOKpPluginState {
        match self.phase {
            HOKpPhase::Idle => self,
            HOKpPhase::First { group_id, then } => HOKpPluginState {
                cooldown: if delivered {
                    self.cooldown.stamped(now)
                } else {
                    self.cooldown
                },
                phase: if delivered && then == Some(true) {
                    HOKpPhase::Second
                } else {
                    HOKpPhase::Idle
                },
            },
            HOKpPhase::Second => HOKpPluginState {
                cooldown: if delivered {
                    self.cooldown.stamped(now)
                } else {
                    self.cooldown
                },
                phase: HOKpPhase::Idle,
            },
        }
    }

    /// What the handler wants after the call under way came back.
    pub open spec fn conclusion(self, delivered: bool) -> StepView {
        match self.phase {
            HOKpPhase::Idle => StepView::Done,
            HOKpPhase::First { group_id, then } => if !delivered {
                StepView::Failed
            } else {
                match then {
                    None => StepView::Failed,
                    Some(true) => StepView::group_msg(group_id, second_line()),
                    Some(false) => StepView::Done,
                }
            },
            HOKpPhase::Second => if delivered {
                StepView::Done
            } else {
                StepView::Failed
            },
        }
    }
}

impl HOKpPlugin {
    /// The group and text of `event`, where the handler considers it at
    /// `now`: a message with a text, from a whitelisted group, outside the
    /// cooldown.
    pub open spec fn considers(&self, event: &CQEvent, now: i64) -> Option<(i64, Seq<char>)> {
        match (event.group_id, event.raw_message) {
            (Some(g), Some(msg)) if event.is_group_message() && self.config.whitelist@.contains(g)
                && self.state.cooldown.allows(now, self.config.sleep_seconds) => Some((g, msg@)),
            _ => None,
        }
    }

    /// The state after `event` was offered at `now`.
    pub open spec fn began(&self, event: &CQEvent, now: i64) -> HOKpPluginState {
        match self.considers(event, now) {
            Some((g, text)) => HOKpPluginState {
                cooldown: self.state.cooldown,
                phase: planned_phase(
                    g,
                    any_match(self.config.not_hokp_patterns@, text, 0),
                    any_match(self.config.hokp_patterns@, text, 0),
                ),
            },
            None => self.state,
        }
    }

    /// What the handler wants when `event` is offered at `now`.
    pub open spec fn reaction(&self, event: &CQEvent, now: i64) -> StepView {
        match self.considers(event, now) {
            Some((g, text)) => planned_step(
                g,
                any_match(self.config.not_hokp_patterns@, text, 0),
                any_match(self.config.hokp_patterns@, text, 0),
            ),
            None => StepView::Done,
        }
    }

    /// A handler that has not spoken yet. Without a configuration it serves
    /// no group.
    pub fn new(config: Option<HOKpPluginConfig>) -> (r: HOKpPlugin)
        ensures
            r.state.cooldown.last_action_timestamp == 0,
            r.state.phase == HOKpPhase::Idle,
            match config {
                Some(c) => r.config == c,
                None => r.config.not_hokp_patterns@.len() == 0 && r.config.hokp_patterns@.len() == 0
                    && r.config.whitelist@.len() == 0 && r.config.sleep_seconds == 0,
            },
    {
        HOKpPlugin {
            state: HOKpPluginState { cooldown: Cooldown::new(), phase: HOKpPhase::Idle },
            config: match config {
                Some(c) => c,
                None => HOKpPluginConfig {
                    not_hokp_patterns: Vec::new(),
                    hokp_patterns: Vec::new(),
                    whitelist: Vec::new(),
                    sleep_seconds: 0,
                },
            },
        }
    }

    /// Whether the handler serves the group `group_id`.
    pub fn filter(&self, group_id: i64) -> (r: bool)
        ensures
            r == self.config.whitelist@.contains(group_id),
    {
        let mut i: usize = 0;
        while i < self.config.whitelist.len()
            invariant
                i <= self.config.whitelist@.len(),
                forall|j: int| 0 <= j < i ==> self.config.whitelist@[j] != group_id,
            decreases self.config.whitelist@.len() - i,
        {
            if self.config.whitelist[i] == group_id {
                return true;
            }
            i = i + 1;
        }
        false
    }

    /// Plans the lines for a message to `group_id`, given what the two
    /// pattern lists said of it.
    pub fn plan(&mut self, group_id: i64, first: Option<bool>, second: Option<bool>) -> (r: Step)
        ensures
            final(self).state.cooldown == old(self).state.cooldown,
            final(self).state.phase == planned_phase(group_id, first, second),
            final(self).config == old(self).config,
            r@ == planned_step(group_id, first, second),
    {
        match first {
            None => {
                self.state.phase = HOKpPhase::Idle;
                Step::Failed
            },
            Some(true) => {
                self.state.phase = HOKpPhase::First { group_id, then: second };
                Step::Call(send_group(group_id, "要不咱玩农吧"))
            },
            Some(false) => match second {
                None => {
                    self.state.phase = HOKpPhase::Idle;
                    Step::Failed
                },
                Some(true) => {
                    self.state.phase = HOKpPhase::Second;
                    Step::Call(send_group(group_id, "农批收收味"))
                },
                Some(false) => {
                    self.state.phase = HOKpPhase::Idle;
                    Step::Done
                },
            },
        }
    }

    /// Offers `event` to the handler at `now`.
    pub fn begin_at(&mut self, event: &CQEvent, now: i64) -> (r: Step)
        ensures
            final(self).state == old(self).began(event, now),
            final(self).config == old(self).config,
            r@ == old(self).reaction(event, now),
    {
        if !event.is_group_message_event() {
            return Step::Done;
        }
        match (event.group_id, &event.raw_message) {
            (Some(g), Some(msg)) => {
                if !self.filter(g) || !self.state.cooldown.is_ready(now, self.config.sleep_seconds) {
                    return Step::Done;
                }
                let first = matches_any(&self.config.not_hokp_patterns, msg.as_str());
                let second = matches_any(&self.config.hokp_patterns, msg.as_str());
                self.plan(g, first, second)
            },
            _ => Step::Done,
        }
    }

    /// Tells the handler at `now` how the call under way went.
    pub fn resume_at(&mut self, delivered: bool, now: i64) -> (r: Step)
        ensures
            final(self).state == old(self).state.resumed(delivered, now),
            final(self).config == old(self).config,
            r@ == old(self).state.conclusion(delivered),
    {
        let phase = self.state.phase;
        match phase {
            HOKpPhase::Idle => Step::Done,
            HOKpPhase::First { group_id, then } => {
                self.state.phase = HOKpPhase::Idle;
                if !delivered {
                    return Step::Failed;
                }
                self.state.cooldown.stamp(now);
                match then {
                    None => Step::Failed,
                    Some(true) => {
                        self.state.phase = HOKpPhase::Second;
                        Step::Call(send_group(group_id, "农批收收味"))
                    },
                    Some(false) => Step::Done,
                }
            },
            HOKpPhase::Second => {
                self.state.phase = HOKpPhase::Idle;
                if delivered {
                    self.state.cooldown.stamp(now);
                    Step::Done
                } else {
                    Step::Failed
                }
            },
        }
    }
}

/// Whether one of `patterns` matches `text`, trying them in order.
pub fn matches_any(patterns: &Vec<String>, text: &str) -> (r: Option<bool>)
    ensures
        r == any_match(patterns@, text@, 0),
{
    let mut i: usize = 0;
    while i < patterns.len()
        invariant
            i <= patterns@.len(),
            any_match(patterns@, text@, 0) == any_match(patterns@, text@, i as int),
        decreases patterns@.len() - i,
    {
        match is_match(patterns[i].as_str(), text) {
            None => {
                return None;
            },
            Some(true) => {
                return Some(true);
            },
            Some(false) => {},
        }
        i = i + 1;
    }
    Some(false)
}

/// Once a line was delivered at `delivered_at`, the handler considers no
/// event that comes less than the cooldown later; one that comes exactly the
/// cooldown later is considered as if nothing had been said before.
pub proof fn lemma_hokp_debounce(plugin: HOKpPlugin, after: HOKpPlugin, delivered_at: i64, event: &CQEvent, now: i64)
    requires
        plugin.state.phase is First || plugin.state.phase is Second,
        after.state == plugin.state.resumed(true, delivered_at),
        after.config == plugin.config,
    ensures
        now - delivered_at < plugin.config.sleep_seconds ==> after.considers(event, now) is None && after.reaction(
            event,
            now,
        ) == StepView::Done,
        now - delivered_at == plugin.config.sleep_seconds ==> after.state.cooldown.allows(
            now,
            plugin.config.sleep_seconds,
        ),
{
}

impl Plugin for HOKpPlugin {
    open spec fn entry(&self) -> PluginEntry {
        PluginEntry { name: "hokp"@, description: "农批"@, help: ""@, senario: PluginSenario::Group }
    }

    fn name(&self) -> &'static str {
        "hokp"
    }

    fn description(&self) -> &'static str {
        "农批"
    }

    fn help(&self) -> &'static str {
        ""
    }

    fn senario(&self) -> PluginSenario {
        PluginSenario::Group
    }

    open spec fn handles(&self, event: &CQEvent, now: i64, next: &Self, step: StepView) -> bool {
        next.state == self.began(event, now) && next.config == self.config && step == self.reaction(event, now)
    }

    open spec fn follows(&self, outcome: Outcome, now: i64, next: &Self, step: StepView) -> bool {
        next.state == self.state.resumed(outcome.succeeded(), now) && next.config == self.config && step
            == self.state.conclusion(outcome.succeeded())
    }

    fn handle(&mut self, event: &CQEvent, now: i64) -> (r: Step) {
        self.begin_at(event, now)
    }

    fn follow_up(&mut self, outcome: &Outcome, now: i64) -> (r: Step) {
        self.resume_at(outcome.is_success(), now)
    }
}

} // verus!
