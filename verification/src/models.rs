//! The event record that the gateway delivers, and what every handler says
//! of itself.

use vstd::prelude::*;
use crate::bot::BotConfig;
use crate::matching::text_eq;
use crate::plugins::{
    ArchivePluginConfig, EchoPluginConfig, HOKpPluginConfig, IntegralPluginConfig, Outcome, QuestionPluginConfig,
    RandintPluginConfig, RepeatPluginConfig, SaucePluginConfig, Step, StepView,
};

verus! {

/// The configuration block of each handler; a handler whose block is absent
/// runs on its defaults.
#[derive(Clone, Debug)]
pub struct PluginsConfig {
    pub archive: Option<ArchivePluginConfig>,
    pub echo: Option<EchoPluginConfig>,
    pub question: Option<QuestionPluginConfig>,
    pub sauce: Option<SaucePluginConfig>,
    pub randint: Option<RandintPluginConfig>,
    pub hokp: Option<HOKpPluginConfig>,
    pub repeat: Option<RepeatPluginConfig>,
    pub integral: Option<IntegralPluginConfig>,
}

impl Default for PluginsConfig {
    fn default() -> (r: PluginsConfig)
        ensures
            r.archive is None,
            r.echo is None,
            r.question is None,
            r.sauce is None,
            r.randint is None,
            r.hokp is None,
            r.repeat is None,
            r.integral is None,
    {
        PluginsConfig {
            archive: None,
            echo: None,
            question: None,
            sauce: None,
            randint: None,
            hokp: None,
            repeat: None,
            integral: None,
        }
    }
}

/// The whole configuration document.
#[derive(Clone, Debug)]
pub struct AppConfig {
    pub bot: BotConfig,
    pub plugins: PluginsConfig,
}

impl Default for AppConfig {
    fn default() -> (r: AppConfig)
        ensures
            r.bot.listen_addr@ == "127.0.0.1:5701"@,
            r.bot.cq_addr@ == "127.0.0.1:5700"@,
            r.plugins.archive is None,
            r.plugins.echo is None,
            r.plugins.question is None,
            r.plugins.sauce is None,
            r.plugins.randint is None,
            r.plugins.hokp is None,
            r.plugins.repeat is None,
            r.plugins.integral is None,
    {
        AppConfig { bot: BotConfig::default(), plugins: PluginsConfig::default() }
    }
}

/// One gateway callback. The record is flat, as the wire format is: which of
/// the optional fields are present depends on `post_type` and on the
/// subtype fields, and a handler tests for a field before it reads it.
#[derive(Clone, Debug)]
pub struct CQEvent {
    pub time: i64,
    pub self_id: i64,
    pub post_type: String,
    pub message_type: Option<String>,
    pub request_type: Option<String>,
    pub notice_type: Option<String>,
    pub meta_event_type: Option<String>,
    pub sub_type: Option<String>,
    pub message_id: Option<i32>,
    pub user_id: Option<i64>,
    pub raw_message: Option<String>,
    pub font: Option<i64>,
    pub group_id: Option<i64>,
    pub operator_id: Option<i64>,
}

/// The four kinds of event that the gateway reports.
#[derive(Clone, Copy, Debug, PartialEq, Eq, Structural)]
pub enum EventKind {
    Message,
    Notice,
    Request,
    MetaEvent,
}

/// Where a handler is available: private chats, group chats, or both.
#[derive(Clone, Copy, Debug, PartialEq, Eq, Structural)]
pub enum PluginSenario {
    Private,
    Group,
    Both,
}

impl PluginSenario {
    /// Whether a handler of this scope is offered in a chat of kind `chat`.
    pub open spec fn covers(self, chat: PluginSenario) -> bool {
        self == chat || self == PluginSenario::Both
    }

    /// Whether a handler of this scope is offered in a chat of kind `chat`.
    pub fn is_available_in(self, chat: PluginSenario) -> (r: bool)
        ensures
            r == self.covers(chat),
    {
        self == chat || self == PluginSenario::Both
    }
}

/// The kind that a `post_type` string stands for.
pub open spec fn kind_of(post_type: Seq<char>) -> Option<EventKind> {
    if post_type == "message"@ {
        Some(EventKind::Message)
    } else if post_type == "notice"@ {
        Some(EventKind::Notice)
    } else if post_type == "request"@ {
        Some(EventKind::Request)
    } else if post_type == "meta_event"@ {
        Some(EventKind::MetaEvent)
    } else {
        None
    }
}

/// The chat that a `message_type` string stands for.
pub open spec fn chat_of(message_type: Option<String>) -> Option<PluginSenario> {
    match message_type {
        Some(s) => if s@ == "private"@ {
            Some(PluginSenario::Private)
        } else if s@ == "group"@ {
            Some(PluginSenario::Group)
        } else {
            None
        },
        None => None,
    }
}

impl CQEvent {
    /// The event's kind, where `post_type` names one.
    pub open spec fn spec_kind(&self) -> Option<EventKind> {
        kind_of(self.post_type@)
    }

    /// Whether this is a message event.
    pub open spec fn is_message(&self) -> bool {
        self.post_type@ == "message"@
    }

    /// The chat a message event came from: `None` for any other event, and
    /// for a message whose subtype is absent or unknown.
    pub open spec fn spec_chat(&self) -> Option<PluginSenario> {
        if self.is_message() {
            chat_of(self.message_type)
        } else {
            None
        }
    }

    /// Whether this is a message from a group chat.
    pub open spec fn is_group_message(&self) -> bool {
        self.spec_chat() == Some(PluginSenario::Group)
    }

    /// Whether the ingress puts the event on the queue: everything but meta
    /// events.
    pub open spec fn is_actionable(&self) -> bool {
        self.post_type@ != "meta_event"@
    }

    /// The event's kind, where `post_type` names one.
    pub fn kind(&self) -> (r: Option<EventKind>)
        ensures
            r == self.spec_kind(),
    {
        let p = self.post_type.as_str();
        if text_eq(p, "message") {
            Some(EventKind::Message)
        } else if text_eq(p, "notice") {
            Some(EventKind::Notice)
        } else if text_eq(p, "request") {
            Some(EventKind::Request)
        } else if text_eq(p, "meta_event") {
            Some(EventKind::MetaEvent)
        } else {
            None
        }
    }

    /// The chat a message event came from.
    pub fn chat(&self) -> (r: Option<PluginSenario>)
        ensures
            r == self.spec_chat(),
    {
        if !text_eq(self.post_type.as_str(), "message") {
            return None;
        }
        match &self.message_type {
            Some(s) => {
                if text_eq(s.as_str(), "private") {
                    Some(PluginSenario::Private)
                } else if text_eq(s.as_str(), "group") {
                    Some(PluginSenario::Group)
                } else {
                    None
                }
            },
            None => None,
        }
    }

    /// Whether this is a message event.
    pub fn is_message_event(&self) -> (r: bool)
        ensures
            r == self.is_message(),
    {
        text_eq(self.post_type.as_str(), "message")
    }

    /// Whether this is a message from a group chat.
    pub fn is_group_message_event(&self) -> (r: bool)
        ensures
            r == self.is_group_message(),
    {
        match self.chat() {
            Some(PluginSenario::Group) => true,
            _ => false,
        }
    }

    /// Whether the ingress puts the event on the queue.
    pub fn should_enqueue(&self) -> (r: bool)
        ensures
            r == self.is_actionable(),
    {
        !text_eq(self.post_type.as_str(), "meta_event")
    }
}

/// What a handler says of itself: the registration entry that the help
/// listing is built from.
pub struct PluginEntry {
    pub name: Seq<char>,
    pub description: Seq<char>,
    pub help: Seq<char>,
    pub senario: PluginSenario,
}

/// The capability that every handler offers to the runtime.
pub trait Plugin {
    /// The handler's registration entry.
    spec fn entry(&self) -> PluginEntry;

    /// The unique name by which the handler is addressed.
    fn name(&self) -> (r: &'static str)
        ensures
            r@ == self.entry().name,
    ;

    /// One line on what the handler does.
    fn description(&self) -> (r: &'static str)
        ensures
            r@ == self.entry().description,
    ;

    /// The handler's usage text.
    fn help(&self) -> (r: &'static str)
        ensures
            r@ == self.entry().help,
    ;

    /// The chats in which the handler is offered.
    fn senario(&self) -> (r: PluginSenario)
        ensures
            r == self.entry().senario,
    ;

    /// Whether offering `event` at `now` may turn this handler into `next`
    /// and make it want `step`.
    spec fn handles(&self, event: &CQEvent, now: i64, next: &Self, step: StepView) -> bool;

    /// Whether learning at `now` what came back for the call or task under
    /// way may turn this handler into `next` and make it want `step`.
    spec fn follows(&self, outcome: Outcome, now: i64, next: &Self, step: StepView) -> bool;

    /// Offers `event` to the handler at `now`. The handler says what it
    /// wants: nothing more, or a call or task whose outcome it waits for.
    fn handle(&mut self, event: &CQEvent, now: i64) -> (r: Step)
        ensures
            old(self).handles(event, now, final(self), r@),
            final(self).entry() == old(self).entry(),
    ;

    /// Tells the handler at `now` what came back for the call or task it
    /// waited for.
    fn follow_up(&mut self, outcome: &Outcome, now: i64) -> (r: Step)
        ensures
            old(self).follows(*outcome, now, final(self), r@),
            final(self).entry() == old(self).entry(),
    ;
}

} // verus!
