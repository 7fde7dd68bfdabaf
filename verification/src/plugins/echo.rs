//! `>echo <text>`: says the text back to the group.

use vstd::prelude::*;
use crate::gateway::send_group;
use crate::matching::{capture, captured, opt_text, regex_is_match};
use crate::models::{CQEvent, Plugin, PluginEntry, PluginSenario};
use crate::plugins::{settle, settled, Outcome, Step, StepView};

verus! {

/// The echo handler has nothing to configure.
#[derive(Clone, Copy, Debug, Default)]
pub struct EchoPluginConfig;

/// The echo handler.
#[derive(Clone, Copy, Debug)]
pub struct EchoPlugin {
    pub _config: EchoPluginConfig,
}

/// The command's pattern: the text to echo is its group `content`.
pub open spec fn echo_pattern() -> Seq<char> {
    r"^>echo\s+(?P<content>.+)$"@
}

/// What the handler does with a message to `group_id` from which the
/// command pattern captured `content`.
pub open spec fn echo_step(group_id: Option<i64>, content: Option<Seq<char>>) -> StepView {
    match (group_id, content) {
        (Some(g), Some(c)) => StepView::group_msg(g, c),
        _ => StepView::Done,
    }
}

/// Whether `event` carries the command: a group message with a text that
/// the command pattern matches, and with a group to reply to.
pub open spec fn echo_asked(event: &CQEvent) -> bool {
    event.is_group_message() && event.group_id is Some && match event.raw_message {
        Some(msg) => regex_is_match(echo_pattern(), msg@) == Some(true),
        None => false,
    }
}

/// What the handler does with `event`.
pub open spec fn echo_reaction(event: &CQEvent) -> StepView {
    match event.raw_message {
        Some(msg) if event.is_group_message() => echo_step(
            event.group_id,
            captured(echo_pattern(), msg@, "$content"@),
        ),
        _ => StepView::Done,
    }
}

/// Replies to the group with what the command captured; does nothing where
/// the command did not match or the event names no group.
pub fn echo_reply(group_id: Option<i64>, content: Option<String>) -> (r: Step)
    ensures
        r@ == echo_step(group_id, opt_text(content)),
{
    match (group_id, content) {
        (Some(g), Some(c)) => Step::Call(send_group(g, c.as_str())),
        _ => Step::Done,
    }
}

impl EchoPlugin {
    /// A handler; its configuration holds nothing.
    pub fn new(config: Option<EchoPluginConfig>) -> (r: EchoPlugin)
        ensures
            r == (EchoPlugin { _config: EchoPluginConfig }),
    {
        EchoPlugin {
            _config: match config {
                Some(c) => c,
                None => EchoPluginConfig,
            },
        }
    }

    /// Offers `event` to the handler.
    pub fn begin(&self, event: &CQEvent) -> (r: Step)
        ensures
            r@ == echo_reaction(event),
            r@ is Call <==> echo_asked(event),
            !(r@ is Failed) && !(r@ is Run),
    {
        if !event.is_group_message_event() {
            return Step::Done;
        }
        match &event.raw_message {
            Some(msg) => {
                let content = capture(r"^>echo\s+(?P<content>.+)$", msg.as_str(), "$content");
                echo_reply(event.group_id, content)
            },
            None => Step::Done,
        }
    }

    /// Tells the handler how its call went.
    pub fn resume(&self, delivered: bool) -> (r: Step)
        ensures
            r@ == settled(delivered),
    {
        settle(delivered)
    }
}

impl Plugin for EchoPlugin {
    open spec fn entry(&self) -> PluginEntry {
        PluginEntry {
            name: "echo"@,
            description: "复读机"@,
            help: "用法:\r\n>echo <复读内容>"@,
            senario: PluginSenario::Group,
        }
    }

    fn name(&self) -> &'static str {
        "echo"
    }

    fn description(&self) -> &'static str {
        "复读机"
    }

    fn help(&self) -> &'static str {
        "用法:\r\n>echo <复读内容>"
    }

    fn senario(&self) -> PluginSenario {
        PluginSenario::Group
    }

    open spec fn handles(&self, event: &CQEvent, now: i64, next: &Self, step: StepView) -> bool {
        step == echo_reaction(event)
    }

    open spec fn follows(&self, outcome: Outcome, now: i64, next: &Self, step: StepView) -> bool {
        step == settled(outcome.succeeded())
    }

    fn handle(&mut self, event: &CQEvent, now: i64) -> (r: Step) {
        self.begin(event)
    }

    fn follow_up(&mut self, outcome: &Outcome, now: i64) -> (r: Step) {
        self.resume(outcome.is_success())
    }
}

} // verus!
