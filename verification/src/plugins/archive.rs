//! Reposts a message that was recalled in a group, with a notice on who
//! recalled whose message.

use vstd::prelude::*;
use vstd::string::StringExecFns;
use crate::gateway::{send_group, ApiRequest, ApiRequestView};
use crate::matching::{local_time_text, opt_text, text_eq};
use crate::models::{CQEvent, Plugin, PluginEntry, PluginSenario};
use crate::plugins::{Outcome, Step, StepView};

verus! {

/// The archive handler has nothing to configure.
#[derive(Clone, Copy, Debug, Default)]
pub struct ArchivePluginConfig;

/// What the gateway knows of a group member.
#[derive(Clone, Debug, PartialEq, Eq)]
pub struct MemberInfo {
    pub nickname: Option<String>,
    pub card: Option<String>,
}

/// Where the handler stands with the recall in flight.
#[derive(Clone, Debug, PartialEq, Eq)]
pub enum ArchivePhase {
    /// No recall is in flight.
    Idle,
    /// The operator's names are being looked up.
    Operator { group_id: i64, message_id: i32, user_id: i64, operator_id: i64 },
    /// The author's names are being looked up; `own` says that the author
    /// is the operator.
    Author { group_id: i64, message_id: i32, own: bool, operator: String },
    /// The recalled message is being looked up.
    Message { group_id: i64, operator: String, author: String },
    /// The notice is being sent; the recalled text follows.
    Notice { group_id: i64, text: String },
    /// The recalled text is being sent.
    Repost,
}

/// The mathematical content of an [`ArchivePhase`].
pub enum ArchivePhaseView {
    Idle,
    Operator { group_id: i64, message_id: i32, user_id: i64, operator_id: i64 },
    Author { group_id: i64, message_id: i32, own: bool, operator: Seq<char> },
    Message { group_id: i64, operator: Seq<char>, author: Seq<char> },
    Notice { group_id: i64, text: Seq<char> },
    Repost,
}

impl View for ArchivePhase {
    type V = ArchivePhaseView;

    open spec fn view(&self) -> ArchivePhaseView {
        match *self {
            ArchivePhase::Idle => ArchivePhaseView::Idle,
            ArchivePhase::Operator { group_id, message_id, user_id, operator_id } => ArchivePhaseView::Operator {
                group_id,
                message_id,
                user_id,
                operator_id,
            },
            ArchivePhase::Author { group_id, message_id, own, operator } => ArchivePhaseView::Author {
                group_id,
                message_id,
                own,
                operator: operator@,
            },
            ArchivePhase::Message { group_id, operator, author } => ArchivePhaseView::Message {
                group_id,
                operator: operator@,
                author: author@,
            },
            ArchivePhase::Notice { group_id, text } => ArchivePhaseView::Notice { group_id, text: text@ },
            ArchivePhase::Repost => ArchivePhaseView::Repost,
        }
    }
}

/// The archive handler.
#[derive(Clone, Debug)]
pub struct ArchivePlugin {
    pub _config: ArchivePluginConfig,
    pub phase: ArchivePhase,
}

/// Whether `event` reports that a message was recalled in a group.
pub open spec fn is_group_recall(event: &CQEvent) -> bool {
    event.post_type@ == "notice"@ && match event.notice_type {
        Some(t) => t@ == "group_recall"@,
        None => false,
    }
}

/// The phase that `event` puts the handler in: the lookup of the operator
/// for a recall that names group, message, author and operator.
pub open spec fn archive_began(event: &CQEvent) -> ArchivePhaseView {
    match (event.group_id, event.message_id, event.user_id, event.operator_id) {
        (Some(group_id), Some(message_id), Some(user_id), Some(operator_id)) if is_group_recall(event) => {
            ArchivePhaseView::Operator { group_id, message_id, user_id, operator_id }
        },
        _ => ArchivePhaseView::Idle,
    }
}

/// What the handler wants when `event` is offered.
pub open spec fn archive_reaction(event: &CQEvent) -> StepView {
    match (event.group_id, event.message_id, event.user_id, event.operator_id) {
        (Some(group_id), Some(message_id), Some(user_id), Some(operator_id)) if is_group_recall(event) => {
            StepView::Call(ApiRequestView::GetGroupMemberInfo { group_id, user_id: operator_id })
        },
        _ => StepView::Done,
    }
}

/// The name a member goes by: the group card, or the nickname where the
/// card is empty or absent.
pub open spec fn shown_name(info: &MemberInfo) -> Option<Seq<char>> {
    match info.card {
        Some(card) if card@.len() > 0 => Some(card@),
        _ => match info.nickname {
            Some(nick) => Some(nick@),
            None => None,
        },
    }
}

/// The notice that `operator` recalled the message `author` sent at
/// `sent_at`.
pub open spec fn recall_notice(operator: Seq<char>, author: Seq<char>, sent_at: Seq<char>) -> Seq<char> {
    operator + " 撤回了 "@ + author + " 于 "@ + sent_at + " 发送的消息："@
}

/// How the author is called in the notice: by name, or as "oneself" where
/// the author recalled the message.
pub open spec fn author_name(own: bool, name: Seq<char>) -> Seq<char> {
    if own {
        "自己"@
    } else {
        name
    }
}

/// The phase after `outcome` came back, where `sent_at` is the local time at
/// which the recalled message was sent. Anything but the answer that the
/// phase waits for ends the recall.
pub open spec fn archive_resumed(phase: ArchivePhaseView, outcome: Outcome, sent_at: Option<Seq<char>>) -> ArchivePhaseView {
    match (phase, outcome) {
        (ArchivePhaseView::Operator { group_id, message_id, user_id, operator_id }, Outcome::Member(info)) => {
            match shown_name(&info) {
                Some(name) => ArchivePhaseView::Author {
                    group_id,
                    message_id,
                    own: operator_id == user_id,
                    operator: name,
                },
                None => ArchivePhaseView::Idle,
            }
        },
        (ArchivePhaseView::Author { group_id, message_id, own, operator }, Outcome::Member(info)) => {
            match shown_name(&info) {
                Some(name) => ArchivePhaseView::Message { group_id, operator, author: author_name(own, name) },
                None => ArchivePhaseView::Idle,
            }
        },
        (
            ArchivePhaseView::Message { group_id, operator, author },
            Outcome::Message { message: Some(text), time: Some(t) },
        ) => match sent_at {
            Some(s) => ArchivePhaseView::Notice { group_id, text: text@ },
            None => ArchivePhaseView::Idle,
        },
        (ArchivePhaseView::Notice { group_id, text }, Outcome::Delivered) => ArchivePhaseView::Repost,
        _ => ArchivePhaseView::Idle,
    }
}

/// What the handler wants after `outcome` came back: the next lookup, the
/// notice, the recalled text, or nothing more. It gives up on anything but
/// the answer that the phase waits for, on a member without a name, and on
/// a message without text or time.
pub open spec fn archive_conclusion(phase: ArchivePhaseView, outcome: Outcome, sent_at: Option<Seq<char>>) -> StepView {
    match (phase, outcome) {
        (ArchivePhaseView::Idle, _) => StepView::Done,
        (ArchivePhaseView::Operator { group_id, message_id, user_id, operator_id }, Outcome::Member(info)) => {
            match shown_name(&info) {
                Some(name) => StepView::Call(ApiRequestView::GetGroupMemberInfo { group_id, user_id }),
                None => StepView::Failed,
            }
        },
        (ArchivePhaseView::Author { group_id, message_id, own, operator }, Outcome::Member(info)) => {
            match shown_name(&info) {
                Some(name) => StepView::Call(ApiRequestView::GetMsg { message_id }),
                None => StepView::Failed,
            }
        },
        (
            ArchivePhaseView::Message { group_id, operator, author },
            Outcome::Message { message: Some(text), time: Some(t) },
        ) => match sent_at {
            Some(s) => StepView::group_msg(group_id, recall_notice(operator, author, s)),
            None => StepView::Failed,
        },
        (ArchivePhaseView::Notice { group_id, text }, Outcome::Delivered) => StepView::group_msg(group_id, text),
        (ArchivePhaseView::Repost, Outcome::Delivered) => StepView::Done,
        _ => StepView::Failed,
    }
}

/// Whether `outcome` is a message with the time at which it was sent.
pub open spec fn is_timed(outcome: Outcome) -> bool {
    match outcome {
        Outcome::Message { message, time: Some(t) } => true,
        _ => false,
    }
}

/// Whether `outcome`, coming back at `phase`, may turn the phase into
/// `next` and make the handler want `step`: for a message with its time,
/// the time is there in local terms, whatever the zone makes of it.
pub open spec fn archive_follows(phase: ArchivePhaseView, outcome: Outcome, next: ArchivePhaseView, step: StepView) -> bool {
    exists|sent_at: Option<Seq<char>>|
        (is_timed(outcome) ==> sent_at is Some) && next == #[trigger] archive_resumed(phase, outcome, sent_at)
            && step == archive_conclusion(phase, outcome, sent_at)
}

/// The name a member goes by.
pub fn display_name(info: &MemberInfo) -> (r: Option<&str>)
    ensures
        match r {
            Some(name) => shown_name(info) == Some(name@),
            None => shown_name(info) is None,
        },
{
    match &info.card {
        Some(card) if !card.as_str().is_empty() => Some(card.as_str()),
        _ => match &info.nickname {
            Some(nick) => Some(nick.as_str()),
            None => None,
        },
    }
}

/// The notice that `operator` recalled the message `author` sent at
/// `sent_at`.
pub fn notice_text(operator: &str, author: &str, sent_at: &str) -> (r: String)
    ensures
        r@ == recall_notice(operator@, author@, sent_at@),
{
    let mut notice = String::from_str(operator);
    notice.append(" 撤回了 ");
    notice.append(author);
    notice.append(" 于 ");
    notice.append(sent_at);
    notice.append(" 发送的消息：");
    notice
}

impl ArchivePlugin {
    /// A handler with no recall in flight; its configuration holds nothing.
    pub fn new(config: Option<ArchivePluginConfig>) -> (r: ArchivePlugin)
        ensures
            r.phase@ == ArchivePhaseView::Idle,
    {
        ArchivePlugin {
            _config: match config {
                Some(c) => c,
                None => ArchivePluginConfig,
            },
            phase: ArchivePhase::Idle,
        }
    }

    /// Offers `event` to the handler.
    pub fn begin(&mut self, event: &CQEvent) -> (r: Step)
        ensures
            final(self).phase@ == archive_began(event),
            r@ == archive_reaction(event),
    {
        self.phase = ArchivePhase::Idle;
        if !text_eq(event.post_type.as_str(), "notice") {
            return Step::Done;
        }
        let recall = match &event.notice_type {
            Some(t) => text_eq(t.as_str(), "group_recall"),
            None => false,
        };
        if !recall {
            return Step::Done;
        }
        match (event.group_id, event.message_id, event.user_id, event.operator_id) {
            (Some(group_id), Some(message_id), Some(user_id), Some(operator_id)) => {
                self.phase = ArchivePhase::Operator { group_id, message_id, user_id, operator_id };
                Step::Call(ApiRequest::GetGroupMemberInfo { group_id, user_id: operator_id })
            },
            _ => Step::Done,
        }
    }

    /// Goes on with the recall in flight after `outcome` came back, where
    /// `sent_at` is the local time at which the recalled message was sent.
    pub fn archive(&mut self, outcome: &Outcome, sent_at: Option<String>) -> (r: Step)
        ensures
            final(self).phase@ == archive_resumed(old(self).phase@, *outcome, opt_text(sent_at)),
            r@ == archive_conclusion(old(self).phase@, *outcome, opt_text(sent_at)),
    {
        let mut phase = ArchivePhase::Idle;
        core::mem::swap(&mut self.phase, &mut phase);
        match phase {
            ArchivePhase::Idle => Step::Done,
            ArchivePhase::Operator { group_id, message_id, user_id, operator_id } => match outcome {
                Outcome::Member(info) => match display_name(info) {
                    Some(name) => {
                        self.phase = ArchivePhase::Author {
                            group_id,
                            message_id,
                            own: operator_id == user_id,
                            operator: String::from_str(name),
                        };
                        Step::Call(ApiRequest::GetGroupMemberInfo { group_id, user_id })
                    },
                    None => Step::Failed,
                },
                _ => Step::Failed,
            },
            ArchivePhase::Author { group_id, message_id, own, operator } => match outcome {
                Outcome::Member(info) => match display_name(info) {
                    Some(name) => {
                        let author = String::from_str(if own { "自己" } else { name });
                        self.phase = ArchivePhase::Message { group_id, operator, author };
                        Step::Call(ApiRequest::GetMsg { message_id })
                    },
                    None => Step::Failed,
                },
                _ => Step::Failed,
            },
            ArchivePhase::Message { group_id, operator, author } => match (outcome, sent_at) {
                (Outcome::Message { message: Some(text), time: Some(_) }, Some(s)) => {
                    let notice = notice_text(operator.as_str(), author.as_str(), s.as_str());
                    self.phase = ArchivePhase::Notice { group_id, text: String::from_str(text.as_str()) };
                    Step::Call(send_group(group_id, notice.as_str()))
                },
                _ => Step::Failed,
            },
            ArchivePhase::Notice { group_id, text } => match outcome {
                Outcome::Delivered => {
                    self.phase = ArchivePhase::Repost;
                    Step::Call(send_group(group_id, text.as_str()))
                },
                _ => Step::Failed,
            },
            ArchivePhase::Repost => match outcome {
                Outcome::Delivered => Step::Done,
                _ => Step::Failed,
            },
        }
    }

    /// Tells the handler what came back for the call it waited for. Once
    /// the recalled message is there with its text and time, the notice is
    /// sent.
    pub fn resume(&mut self, outcome: &Outcome) -> (r: Step)
        ensures
            archive_follows(old(self).phase@, *outcome, final(self).phase@, r@),
            old(self).phase is Message && (*outcome matches Outcome::Message { message: Some(text), time: Some(t) })
                ==> r@ is Call && final(self).phase is Notice,
    {
        let sent_at = match outcome {
            Outcome::Message { message: _, time: Some(t) } => local_time_text(*t),
            _ => None,
        };
        self.archive(outcome, sent_at)
    }
}

impl Plugin for ArchivePlugin {
    open spec fn entry(&self) -> PluginEntry {
        PluginEntry {
            name: "archive"@,
            description: "自动复读已撤回的消息"@,
            help: ""@,
            senario: PluginSenario::Group,
        }
    }

    fn name(&self) -> &'static str {
        "archive"
    }

    fn description(&self) -> &'static str {
        "自动复读已撤回的消息"
    }

    fn help(&self) -> &'static str {
        ""
    }

    fn senario(&self) -> PluginSenario {
        PluginSenario::Group
    }

    open spec fn handles(&self, event: &CQEvent, now: i64, next: &Self, step: StepView) -> bool {
        next.phase@ == archive_began(event) && step == archive_reaction(event)
    }

    open spec fn follows(&self, outcome: Outcome, now: i64, next: &Self, step: StepView) -> bool {
        archive_follows(self.phase@, outcome, next.phase@, step)
    }

    fn handle(&mut self, event: &CQEvent, now: i64) -> (r: Step) {
        self.begin(event)
    }

    fn follow_up(&mut self, outcome: &Outcome, now: i64) -> (r: Step) {
        self.resume(outcome)
    }
}

} // verus!
