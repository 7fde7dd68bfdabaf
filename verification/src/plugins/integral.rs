//! `>integral <cmd>`: a punch card that counts how long a member has kept
//! at it.

use vstd::prelude::*;
use vstd::string::StringExecFns;
use crate::gateway::{send_group, ApiRequest, ApiRequestView};
use crate::matching::{
    align_left, align_right, capture, captured, decimal_text, i64_padded2, left_aligned, padded2_text,
    regex_is_match, right_aligned, text_eq, u128_text,
};
use crate::models::{CQEvent, Plugin, PluginEntry, PluginSenario};
use crate::plugins::archive::MemberInfo;
use crate::plugins::{Cmd, Outcome, Step, StepView, Task, TaskView};

verus! {

/// Where the punch cards are stored.
#[derive(Clone, Debug, Default)]
pub struct IntegralPluginConfig {
    pub db_url: String,
}

/// Where the handler stands with the command in flight.
#[derive(Clone, Copy, Debug, PartialEq, Eq, Structural)]
pub enum IntegralPhase {
    /// No command is in flight.
    Idle,
    /// The group's members are being listed.
    Listing,
    /// The last punch of the member in turn is being read.
    Updated,
    /// The change that the member's status calls for is being written.
    Settling,
    /// The start of the member's period is being read.
    Started,
    /// The change that the command itself calls for is being written.
    Marking,
    /// The names of the member in turn are being looked up.
    Naming,
    /// The reply is being sent.
    Replying,
}

/// The command in flight and what has been gathered for it.
#[derive(Clone, Debug)]
pub struct IntegralState {
    pub phase: IntegralPhase,
    pub cmd: Cmd,
    pub group_id: i64,
    pub user_id: i64,
    /// When the status of the member in turn was asked for.
    pub asked_at: i64,
    /// The sender's score.
    pub score: i64,
    /// The group's members, for the ranking.
    pub members: Vec<i64>,
    /// The member or entry in turn.
    pub next: usize,
    /// The members with their scores.
    pub list: Vec<RankingListEntry>,
    /// The place of each entry of the list.
    pub places: Vec<usize>,
    /// The ranking as far as it is written.
    pub text: String,
}

/// The mathematical content of an [`IntegralState`].
pub struct IntegralStateView {
    pub phase: IntegralPhase,
    pub cmd: Cmd,
    pub group_id: i64,
    pub user_id: i64,
    pub asked_at: i64,
    pub score: i64,
    pub members: Seq<i64>,
    pub next: usize,
    pub list: Seq<RankingListEntry>,
    pub places: Seq<usize>,
    pub text: Seq<char>,
}

impl View for IntegralState {
    type V = IntegralStateView;

    open spec fn view(&self) -> IntegralStateView {
        IntegralStateView {
            phase: self.phase,
            cmd: self.cmd,
            group_id: self.group_id,
            user_id: self.user_id,
            asked_at: self.asked_at,
            score: self.score,
            members: self.members@,
            next: self.next,
            list: self.list@,
            places: self.places@,
            text: self.text@,
        }
    }
}

/// The punch-card handler.
#[derive(Clone, Debug)]
pub struct IntegralPlugin {
    pub config: IntegralPluginConfig,
    pub state: IntegralState,
}

/// The command's pattern: the command word is its group `cmd`.
pub open spec fn integral_pattern() -> Seq<char> {
    r"^>integral\s+(?P<cmd>\S+)\s*$"@
}

/// The command that a word stands for.
pub open spec fn cmd_named(word: Seq<char>) -> Option<Cmd> {
    if word == "punch"@ {
        Some(Cmd::Punch)
    } else if word == "status"@ {
        Some(Cmd::Status)
    } else if word == "derivative"@ {
        Some(Cmd::Derivative)
    } else if word == "ranking"@ {
        Some(Cmd::Ranking)
    } else {
        None
    }
}

/// The command that a message asks for: the command that the word behind
/// the prefix names, where the message matches the command pattern. A
/// message without the prefix asks for nothing.
pub open spec fn resolved(text: Seq<char>) -> Option<Cmd> {
    match captured(integral_pattern(), text, "$cmd"@) {
        Some(word) => cmd_named(word),
        None => None,
    }
}

/// Division that rounds towards zero.
pub open spec fn whole(a: int, unit: int) -> int
    recommends
        unit > 0,
{
    if a >= 0 {
        a / unit
    } else {
        -((-a) / unit)
    }
}

/// One unit of a duration: nothing where its count is zero.
pub open spec fn unit_text(count: int, unit: Seq<char>) -> Seq<char> {
    if count == 0 {
        Seq::empty()
    } else {
        padded2_text(count) + unit
    }
}

/// A duration of `seconds` in weeks, days, hours, minutes and seconds: each
/// count in two digits before its unit letter, units with a count of zero
/// left out, seconds always shown.
pub open spec fn duration_text(seconds: int) -> Seq<char> {
    unit_text(whole(seconds, 604800), "w"@) + unit_text(whole(seconds, 86400) - 7 * whole(seconds, 604800), "d"@)
        + unit_text(whole(seconds, 3600) - 24 * whole(seconds, 86400), "h"@) + unit_text(
        whole(seconds, 60) - 60 * whole(seconds, 3600),
        "m"@,
    ) + padded2_text(seconds - 60 * whole(seconds, 60)) + "s"@
}

/// What a status query does to a member's card.
#[derive(Clone, Copy, Debug, PartialEq, Eq, Structural)]
pub enum StatusPlan {
    /// The member has no card yet: add one; the score is zero.
    Enrol,
    /// The last punch is a day or more ago: the period starts anew; the
    /// score is zero.
    Restart,
    /// The period runs: the score is the time since it started.
    Running,
}

/// A change to a member's card.
#[derive(Clone, Copy, Debug, PartialEq, Eq, Structural)]
pub enum CardWrite {
    /// Add a card whose period starts now and that was never punched.
    Enrol,
    /// Let the period start now.
    RestartPeriod,
    /// Record a punch now.
    Punch,
}

/// The change that a status query makes to the card.
pub open spec fn write_of_plan(plan: StatusPlan) -> Option<CardWrite> {
    match plan {
        StatusPlan::Enrol => Some(CardWrite::Enrol),
        StatusPlan::Restart => Some(CardWrite::RestartPeriod),
        StatusPlan::Running => None,
    }
}

/// The change that a command makes to the sender's card once their status
/// was brought up to date: a punch is recorded, and giving up starts the
/// period anew.
pub open spec fn write_of_command(cmd: Cmd) -> Option<CardWrite> {
    match cmd {
        Cmd::Punch => Some(CardWrite::Punch),
        Cmd::Derivative => Some(CardWrite::RestartPeriod),
        Cmd::Status => None,
        Cmd::Ranking => None,
    }
}

/// The plan for a member whose card was last punched at `updated_at`.
pub open spec fn status_plan(now: i64, updated_at: Option<i64>) -> StatusPlan {
    match updated_at {
        None => StatusPlan::Enrol,
        Some(t) => if now - t >= 86400 {
            StatusPlan::Restart
        } else {
            StatusPlan::Running
        },
    }
}

/// The seconds from `started_at` to `now`, kept within the range of `i64`.
pub open spec fn elapsed(now: i64, started_at: i64) -> int {
    if now - started_at > i64::MAX {
        i64::MAX as int
    } else if now - started_at < i64::MIN {
        i64::MIN as int
    } else {
        now - started_at
    }
}

/// The name a member goes by on the punch card: the group card where there
/// is one, else the nickname.
pub open spec fn card_name(info: &MemberInfo) -> Option<Seq<char>> {
    match info.card {
        Some(card) => Some(card@),
        None => match info.nickname {
            Some(nick) => Some(nick@),
            None => None,
        },
    }
}

/// The reply to the command that resets a member's period.
pub open spec fn derivative_line() -> Seq<char> {
    "不准导！积回去！"@
}

/// The reply that reports a member's score.
pub open spec fn score_line(name: Seq<char>, seconds: int) -> Seq<char> {
    name + " 已戒导 "@ + duration_text(seconds)
}

/// A member and the score on that member's card, in seconds.
#[derive(Clone, Copy, Debug, PartialEq, Eq, Structural)]
pub struct RankingListEntry {
    pub user_id: i64,
    pub score: i64,
}

/// Whether `list` goes from the best score down.
pub open spec fn descending(list: Seq<RankingListEntry>) -> bool {
    forall|i: int, j: int| 0 <= i < j < list.len() ==> list[i].score >= list[j].score
}

/// The index, from `from` on, of the first entry with a score below
/// `score`, or the length where there is none.
pub open spec fn slot(list: Seq<RankingListEntry>, score: i64, from: int) -> int
    decreases list.len() - from,
{
    if from < 0 || from >= list.len() {
        list.len() as int
    } else if list[from].score < score {
        from
    } else {
        slot(list, score, from + 1)
    }
}

/// The ranking of `list`: its entries from the best score down, entries
/// with the same score in the order in which they came.
pub open spec fn ranked(list: Seq<RankingListEntry>) -> Seq<RankingListEntry>
    decreases list.len(),
{
    if list.len() == 0 {
        Seq::empty()
    } else {
        let before = ranked(list.drop_last());
        before.insert(slot(before, list.last().score, 0), list.last())
    }
}

/// The place of the entry at index `i` in a list ordered from the best
/// down: an entry shares the place of the one before it where their scores
/// are equal, and otherwise takes its index.
pub open spec fn place(list: Seq<RankingListEntry>, i: int) -> int
    decreases i,
{
    if i <= 0 {
        0
    } else if list[i].score != list[i - 1].score {
        i
    } else {
        place(list, i - 1)
    }
}

/// The place of every entry of `list`.
pub open spec fn places_of(list: Seq<RankingListEntry>) -> Seq<usize> {
    Seq::new(list.len(), |i: int| place(list, i) as usize)
}

/// One entry of the ranking: the place in a column of five, the name in a
/// column of twenty, and on a line of its own the score in a column of
/// fifteen.
pub open spec fn ranking_entry(place: nat, name: Seq<char>, seconds: int) -> Seq<char> {
    right_aligned(decimal_text(place), 5) + ". "@ + left_aligned(name, 20) + "\r\n\t\t\t"@ + right_aligned(
        duration_text(seconds),
        15,
    ) + "\r\n\r\n"@
}

/// The command that a word stands for.
pub fn cmd_of(word: &str) -> (r: Option<Cmd>)
    ensures
        r == cmd_named(word@),
{
    if text_eq(word, "punch") {
        Some(Cmd::Punch)
    } else if text_eq(word, "status") {
        Some(Cmd::Status)
    } else if text_eq(word, "derivative") {
        Some(Cmd::Derivative)
    } else if text_eq(word, "ranking") {
        Some(Cmd::Ranking)
    } else {
        None
    }
}

/// The plan for a member whose card was last punched at `updated_at`.
pub fn plan_status(now: i64, updated_at: Option<i64>) -> (r: StatusPlan)
    ensures
        r == status_plan(now, updated_at),
{
    match updated_at {
        None => StatusPlan::Enrol,
        Some(t) => if now as i128 - t as i128 >= 86400 {
            StatusPlan::Restart
        } else {
            StatusPlan::Running
        },
    }
}

/// The change that a status query makes to the card.
pub fn status_write(plan: StatusPlan) -> (r: Option<CardWrite>)
    ensures
        r == write_of_plan(plan),
{
    match plan {
        StatusPlan::Enrol => Some(CardWrite::Enrol),
        StatusPlan::Restart => Some(CardWrite::RestartPeriod),
        StatusPlan::Running => None,
    }
}

/// The change that a command makes to the sender's card once their status
/// was brought up to date.
pub fn command_write(cmd: Cmd) -> (r: Option<CardWrite>)
    ensures
        r == write_of_command(cmd),
{
    match cmd {
        Cmd::Punch => Some(CardWrite::Punch),
        Cmd::Derivative => Some(CardWrite::RestartPeriod),
        Cmd::Status => None,
        Cmd::Ranking => None,
    }
}

/// The score of a running period that started at `started_at`.
pub fn score(now: i64, started_at: i64) -> (r: i64)
    ensures
        r == elapsed(now, started_at),
{
    let d: i128 = now as i128 - started_at as i128;
    if d > i64::MAX as i128 {
        i64::MAX
    } else if d < i64::MIN as i128 {
        i64::MIN
    } else {
        d as i64
    }
}

/// The name a member goes by on the punch card.
pub fn member_name(info: &MemberInfo) -> (r: Option<&str>)
    ensures
        match r {
            Some(name) => card_name(info) == Some(name@),
            None => card_name(info) is None,
        },
{
    match &info.card {
        Some(card) => Some(card.as_str()),
        None => match &info.nickname {
            Some(nick) => Some(nick.as_str()),
            None => None,
        },
    }
}

/// Appends one unit of a duration, unless its count is zero.
fn push_unit(out: &mut String, count: i64, unit: &str)
    ensures
        final(out)@ == old(out)@ + unit_text(count as int, unit@),
{
    if count != 0 {
        let digits = i64_padded2(count);
        out.append(digits.as_str());
        out.append(unit);
        assert(final(out)@ == old(out)@ + (padded2_text(count as int) + unit@));
    } else {
        assert(out@ + Seq::<char>::empty() == out@);
    }
}

impl IntegralPlugin {
    /// A handler for the store that the configuration names.
    pub fn new(config: Option<IntegralPluginConfig>) -> (r: IntegralPlugin)
        ensures
            match config {
                Some(c) => r.config == c,
                None => r.config.db_url@.len() == 0,
            },
            r.state.phase == IntegralPhase::Idle,
    {
        IntegralPlugin {
            config: match config {
                Some(c) => c,
                None => IntegralPluginConfig { db_url: String::new() },
            },
            state: IntegralState {
                phase: IntegralPhase::Idle,
                cmd: Cmd::Status,
                group_id: 0,
                user_id: 0,
                asked_at: 0,
                score: 0,
                members: Vec::new(),
                next: 0,
                list: Vec::new(),
                places: Vec::new(),
                text: String::new(),
            },
        }
    }

    /// The command that a message asks for: none, unless the message
    /// matches the command pattern.
    pub fn resolve(msg: &str) -> (r: Option<Cmd>)
        ensures
            r == resolved(msg@),
            r is Some ==> regex_is_match(integral_pattern(), msg@) == Some(true),
    {
        match capture(r"^>integral\s+(?P<cmd>\S+)\s*$", msg, "$cmd") {
            Some(word) => cmd_of(word.as_str()),
            None => None,
        }
    }

    /// A duration of `seconds`, written in weeks, days, hours, minutes and
    /// seconds.
    pub fn duration_to_string(seconds: i64) -> (r: String)
        ensures
            r@ == duration_text(seconds as int),
    {
        let weeks = seconds / 604800;
        let days = seconds / 86400 - 7 * (seconds / 604800);
        let hours = seconds / 3600 - 24 * (seconds / 86400);
        let minutes = seconds / 60 - 60 * (seconds / 3600);
        let rest = seconds - 60 * (seconds / 60);
        let mut ret = String::new();
        push_unit(&mut ret, weeks, "w");
        push_unit(&mut ret, days, "d");
        push_unit(&mut ret, hours, "h");
        push_unit(&mut ret, minutes, "m");
        let digits = i64_padded2(rest);
        ret.append(digits.as_str());
        ret.append("s");
        assert(ret@ == duration_text(seconds as int)) by {
            let w = unit_text(weeks as int, "w"@);
            let d = unit_text(days as int, "d"@);
            let h = unit_text(hours as int, "h"@);
            let m = unit_text(minutes as int, "m"@);
            assert(ret@ == Seq::<char>::empty() + w + d + h + m + padded2_text(rest as int) + "s"@);
            assert(Seq::<char>::empty() + w == w);
        }
        ret
    }
}

/// The reply to the command that resets a member's period.
pub fn derivative_reply(group_id: i64) -> (r: ApiRequest)
    ensures
        r@ == (ApiRequestView::SendGroupMsg { group_id, message: derivative_line() }),
{
    send_group(group_id, "不准导！积回去！")
}

/// The reply that reports the score of the member called `name`.
pub fn score_reply(group_id: i64, name: &str, seconds: i64) -> (r: ApiRequest)
    ensures
        r@ == (ApiRequestView::SendGroupMsg { group_id, message: score_line(name@, seconds as int) }),
{
    let mut msg = String::from_str(name);
    msg.append(" 已戒导 ");
    let duration = IntegralPlugin::duration_to_string(seconds);
    msg.append(duration.as_str());
    send_group(group_id, msg.as_str())
}

/// Where an entry with `score` goes in a list that goes from the best score
/// down: behind every entry that is at least as good.
proof fn lemma_slot(list: Seq<RankingListEntry>, score: i64, from: int)
    requires
        descending(list),
        0 <= from <= list.len(),
    ensures
        from <= slot(list, score, from) <= list.len(),
        forall|k: int| from <= k < slot(list, score, from) ==> list[k].score >= score,
        forall|k: int| slot(list, score, from) <= k < list.len() ==> list[k].score < score,
    decreases list.len() - from,
{
    if from < list.len() && list[from].score >= score {
        lemma_slot(list, score, from + 1);
    }
}

/// The ranking holds the entries of the list, each as often as the list
/// does, and goes from the best score down.
pub proof fn lemma_ranked_is_sorted(list: Seq<RankingListEntry>)
    ensures
        descending(ranked(list)),
        ranked(list).to_multiset() == list.to_multiset(),
        ranked(list).len() == list.len(),
    decreases list.len(),
{
    if list.len() == 0 {
        assert(ranked(list) =~= list);
    } else {
        let rest = list.drop_last();
        let last = list.last();
        lemma_ranked_is_sorted(rest);
        let before = ranked(rest);
        lemma_slot(before, last.score, 0);
        let at = slot(before, last.score, 0);
        vstd::seq_lib::to_multiset_insert(before, at, last);
        vstd::seq_lib::to_multiset_build(rest, last);
        assert(rest.push(last) =~= list);
        let after = before.insert(at, last);
        assert forall|i: int, j: int| 0 <= i < j < after.len() implies after[i].score >= after[j].score by {
            if j < at {
                assert(after[i] == before[i] && after[j] == before[j]);
            } else if j == at {
                assert(after[i] == before[i]);
            } else if i < at {
                assert(after[i] == before[i] && after[j] == before[j - 1]);
            } else if i == at {
                assert(after[j] == before[j - 1]);
            } else {
                assert(after[i] == before[i - 1] && after[j] == before[j - 1]);
            }
        }
    }
}

/// Orders `list` from the best score down, entries with the same score in
/// the order in which they came.
pub fn sort_ranking(list: &Vec<RankingListEntry>) -> (r: Vec<RankingListEntry>)
    ensures
        r@ == ranked(list@),
        descending(r@),
        r@.to_multiset() == list@.to_multiset(),
        r@.len() == list@.len(),
{
    let mut out: Vec<RankingListEntry> = Vec::new();
    let mut i: usize = 0;
    while i < list.len()
        invariant
            i <= list@.len(),
            out@ == ranked(list@.take(i as int)),
        decreases list@.len() - i,
    {
        let entry = list[i];
        proof {
            lemma_ranked_is_sorted(list@.take(i as int));
            assert(list@.take(i + 1).drop_last() == list@.take(i as int));
        }
        let mut j: usize = 0;
        while j < out.len() && out[j].score >= entry.score
            invariant
                j <= out@.len(),
                slot(out@, entry.score, 0) == slot(out@, entry.score, j as int),
            decreases out@.len() - j,
        {
            j = j + 1;
        }
        out.insert(j, entry);
        i = i + 1;
    }
    proof {
        assert(list@.take(list@.len() as int) == list@);
        lemma_ranked_is_sorted(list@);
    }
    out
}

/// One entry of the ranking, for the member called `name` at `place`.
pub fn ranking_line(place: usize, name: &str, seconds: i64) -> (r: String)
    ensures
        r@ == ranking_entry(place as nat, name@, seconds as int),
{
    let number = u128_text(place as u128);
    let mut out = align_right(number.as_str(), 5);
    out.append(". ");
    let column = align_left(name, 20);
    out.append(column.as_str());
    out.append("\r\n\t\t\t");
    let duration = IntegralPlugin::duration_to_string(seconds);
    let points = align_right(duration.as_str(), 15);
    out.append(points.as_str());
    out.append("\r\n\r\n");
    out
}

/// The place of every entry of a list ordered from the best down.
pub fn rank_numbers(list: &Vec<RankingListEntry>) -> (r: Vec<usize>)
    ensures
        r@ == places_of(list@),
{
    let mut out: Vec<usize> = Vec::new();
    let mut ranking: usize = 0;
    let mut i: usize = 0;
    while i < list.len()
        invariant
            i <= list@.len(),
            out@.len() == i,
            i > 0 ==> ranking == place(list@, i - 1),
            i == 0 ==> ranking == 0,
            forall|j: int| 0 <= j < i ==> #[trigger] out@[j] == place(list@, j),
        decreases list@.len() - i,
    {
        if i > 0 && list[i].score != list[i - 1].score {
            ranking = i;
        }
        out.push(ranking);
        i = i + 1;
    }
    assert(out@ =~= places_of(list@));
    out
}

/// The member whose status is in turn: for the ranking the member at
/// `next`, else the sender.
pub open spec fn subject(v: IntegralStateView) -> Option<i64> {
    if v.cmd is Ranking {
        if v.next < v.members.len() {
            Some(v.members[v.next as int])
        } else {
            None
        }
    } else {
        Some(v.user_id)
    }
}

/// The state with no command in flight.
pub open spec fn at_rest(v: IntegralStateView) -> IntegralStateView {
    IntegralStateView { phase: IntegralPhase::Idle, ..v }
}

/// Asks for the status of the member in turn: first for the last punch.
pub open spec fn ask_status(v: IntegralStateView, now: i64) -> (IntegralStateView, StepView) {
    match subject(v) {
        Some(user_id) => (
            IntegralStateView { phase: IntegralPhase::Updated, asked_at: now, ..v },
            StepView::Run(TaskView::ReadUpdated { user_id }),
        ),
        None => (at_rest(v), StepView::Failed),
    }
}

/// Goes on once the command's own change is written: giving up is
/// answered at once, a score with the sender's name.
pub open spec fn after_mark(v: IntegralStateView) -> (IntegralStateView, StepView) {
    if v.cmd is Derivative {
        (
            IntegralStateView { phase: IntegralPhase::Replying, ..v },
            StepView::group_msg(v.group_id, derivative_line()),
        )
    } else {
        (
            IntegralStateView { phase: IntegralPhase::Naming, ..v },
            StepView::Call(ApiRequestView::GetGroupMemberInfo { group_id: v.group_id, user_id: v.user_id }),
        )
    }
}

/// Goes on once every member has a score: the list is ordered and placed,
/// and the names are looked up from the top; an empty ranking is sent at
/// once.
pub open spec fn after_list(v: IntegralStateView) -> (IntegralStateView, StepView) {
    let list = ranked(v.list);
    let w = IntegralStateView { list, places: places_of(list), next: 0, text: Seq::empty(), ..v };
    if list.len() == 0 {
        (IntegralStateView { phase: IntegralPhase::Replying, ..w }, StepView::group_msg(v.group_id, Seq::empty()))
    } else {
        (
            IntegralStateView { phase: IntegralPhase::Naming, ..w },
            StepView::Call(ApiRequestView::GetGroupMemberInfo { group_id: v.group_id, user_id: list[0].user_id }),
        )
    }
}

/// Goes on once the member in turn has the score `score`: for the ranking
/// with the next member, or with the list once it is full; else with the
/// change that the command calls for.
pub open spec fn after_score(v: IntegralStateView, score: i64, now: i64) -> (IntegralStateView, StepView) {
    if v.cmd is Ranking {
        match subject(v) {
            Some(user_id) => {
                let w = IntegralStateView {
                    list: v.list.push(RankingListEntry { user_id, score }),
                    next: (v.next + 1) as usize,
                    ..v
                };
                if w.next < w.members.len() {
                    ask_status(w, now)
                } else {
                    after_list(w)
                }
            },
            None => (at_rest(v), StepView::Failed),
        }
    } else {
        let w = IntegralStateView { score, ..v };
        match write_of_command(v.cmd) {
            Some(write) => (
                IntegralStateView { phase: IntegralPhase::Marking, ..w },
                StepView::Run(TaskView::Write { write, user_id: v.user_id, at: now }),
            ),
            None => after_mark(w),
        }
    }
}

/// Goes on once the names of the member in turn are there: with the reply
/// to the sender, or with the next entry of the ranking.
pub open spec fn after_name(v: IntegralStateView, name: Seq<char>) -> (IntegralStateView, StepView) {
    if v.cmd is Ranking {
        if v.next < v.list.len() && v.next < v.places.len() {
            let w = IntegralStateView {
                text: v.text + ranking_entry(
                    v.places[v.next as int] as nat,
                    name,
                    v.list[v.next as int].score as int,
                ),
                next: (v.next + 1) as usize,
                ..v
            };
            if w.next < w.list.len() {
                (
                    w,
                    StepView::Call(
                        ApiRequestView::GetGroupMemberInfo {
                            group_id: v.group_id,
                            user_id: w.list[w.next as int].user_id,
                        },
                    ),
                )
            } else {
                (IntegralStateView { phase: IntegralPhase::Replying, ..w }, StepView::group_msg(v.group_id, w.text))
            }
        } else {
            (at_rest(v), StepView::Failed)
        }
    } else {
        (
            IntegralStateView { phase: IntegralPhase::Replying, ..v },
            StepView::group_msg(v.group_id, score_line(name, v.score as int)),
        )
    }
}

/// The time that a read of the store gave, if it gave one.
pub open spec fn time_read(outcome: Outcome) -> Option<i64> {
    match outcome {
        Outcome::Time(t) => Some(t),
        _ => None,
    }
}

/// The state and the wish of the handler when `event` is offered at `now`:
/// the command of a group message that names its sender starts with the
/// list of members for the ranking, and with the sender's status
/// otherwise.
pub open spec fn integral_began(v: IntegralStateView, event: &CQEvent, now: i64) -> (IntegralStateView, StepView) {
    match (event.raw_message, event.user_id, event.group_id) {
        (Some(msg), Some(user_id), Some(group_id)) if event.is_group_message() => match resolved(msg@) {
            Some(cmd) => {
                let w = IntegralStateView { cmd, group_id, user_id, score: 0, next: 0, ..v };
                if cmd is Ranking {
                    (
                        IntegralStateView { phase: IntegralPhase::Listing, ..w },
                        StepView::Call(ApiRequestView::GetGroupMemberList { group_id }),
                    )
                } else {
                    ask_status(w, now)
                }
            },
            None => (at_rest(v), StepView::Done),
        },
        _ => (at_rest(v), StepView::Done),
    }
}

/// The state and the wish of the handler after `outcome` came back at
/// `now`.
///
/// A member's status starts with the last punch: a member without one gets
/// a card, one whose last punch is a day old starts anew, and both score
/// zero; otherwise the score is the time since the period started. What
/// comes back for a change to a card is not looked at. The handler gives up
/// where a lookup fails, a member has no name, or a running period has no
/// start.
pub open spec fn integral_resumed(v: IntegralStateView, outcome: Outcome, now: i64) -> (
    IntegralStateView,
    StepView,
) {
    match v.phase {
        IntegralPhase::Idle => (v, StepView::Done),
        IntegralPhase::Listing => match outcome {
            Outcome::Members(ids) => {
                let w = IntegralStateView { members: ids@, list: Seq::empty(), next: 0, ..v };
                if ids@.len() == 0 {
                    after_list(w)
                } else {
                    ask_status(w, now)
                }
            },
            _ => (at_rest(v), StepView::Failed),
        },
        IntegralPhase::Updated => match subject(v) {
            Some(user_id) => match write_of_plan(status_plan(v.asked_at, time_read(outcome))) {
                Some(write) => (
                    IntegralStateView { phase: IntegralPhase::Settling, ..v },
                    StepView::Run(TaskView::Write { write, user_id, at: now }),
                ),
                None => (
                    IntegralStateView { phase: IntegralPhase::Started, ..v },
                    StepView::Run(TaskView::ReadStarted { user_id }),
                ),
            },
            None => (at_rest(v), StepView::Failed),
        },
        IntegralPhase::Settling => after_score(v, 0, now),
        IntegralPhase::Started => match outcome {
            Outcome::Time(started_at) => after_score(v, elapsed(v.asked_at, started_at) as i64, now),
            _ => (at_rest(v), StepView::Failed),
        },
        IntegralPhase::Marking => after_mark(v),
        IntegralPhase::Naming => match outcome {
            Outcome::Member(info) => match card_name(&info) {
                Some(name) => after_name(v, name),
                None => (at_rest(v), StepView::Failed),
            },
            _ => (at_rest(v), StepView::Failed),
        },
        IntegralPhase::Replying => match outcome {
            Outcome::Delivered => (at_rest(v), StepView::Done),
            _ => (at_rest(v), StepView::Failed),
        },
    }
}

impl IntegralPlugin {
    /// The member whose status is in turn.
    fn subject(&self) -> (r: Option<i64>)
        ensures
            r == subject(self.state@),
    {
        match self.state.cmd {
            Cmd::Ranking => if self.state.next < self.state.members.len() {
                Some(self.state.members[self.state.next])
            } else {
                None
            },
            _ => Some(self.state.user_id),
        }
    }

    /// Ends the command in flight without a reply.
    fn give_up(&mut self) -> (r: Step)
        ensures
            final(self).config == old(self).config,
            final(self).state@ == at_rest(old(self).state@),
            r@ == StepView::Failed,
    {
        self.state.phase = IntegralPhase::Idle;
        Step::Failed
    }

    /// Asks for the status of the member in turn.
    fn ask_status(&mut self, now: i64) -> (r: Step)
        ensures
            final(self).config == old(self).config,
            (final(self).state@, r@) == ask_status(old(self).state@, now),
    {
        match self.subject() {
            Some(user_id) => {
                self.state.phase = IntegralPhase::Updated;
                self.state.asked_at = now;
                Step::Run(Task::ReadUpdated { user_id })
            },
            None => self.give_up(),
        }
    }

    /// Goes on once the command's own change is written.
    fn after_mark(&mut self) -> (r: Step)
        ensures
            final(self).config == old(self).config,
            (final(self).state@, r@) == after_mark(old(self).state@),
    {
        match self.state.cmd {
            Cmd::Derivative => {
                self.state.phase = IntegralPhase::Replying;
                Step::Call(derivative_reply(self.state.group_id))
            },
            _ => {
                self.state.phase = IntegralPhase::Naming;
                Step::Call(
                    ApiRequest::GetGroupMemberInfo { group_id: self.state.group_id, user_id: self.state.user_id },
                )
            },
        }
    }

    /// Goes on once every member has a score.
    fn after_list(&mut self) -> (r: Step)
        ensures
            final(self).config == old(self).config,
            (final(self).state@, r@) == after_list(old(self).state@),
    {
        let list = sort_ranking(&self.state.list);
        self.state.places = rank_numbers(&list);
        self.state.list = list;
        self.state.next = 0;
        self.state.text = String::new();
        if self.state.list.len() == 0 {
            self.state.phase = IntegralPhase::Replying;
            proof {
                reveal_strlit("");
                assert(""@ =~= Seq::<char>::empty());
            }
            Step::Call(send_group(self.state.group_id, ""))
        } else {
            self.state.phase = IntegralPhase::Naming;
            Step::Call(
                ApiRequest::GetGroupMemberInfo {
                    group_id: self.state.group_id,
                    user_id: self.state.list[0].user_id,
                },
            )
        }
    }

    /// Goes on once the member in turn has the score `score`.
    fn after_score(&mut self, score: i64, now: i64) -> (r: Step)
        ensures
            final(self).config == old(self).config,
            (final(self).state@, r@) == after_score(old(self).state@, score, now),
    {
        match self.state.cmd {
            Cmd::Ranking => match self.subject() {
                Some(user_id) => {
                    let count = self.state.members.len();
                    assert(self.state.next < count);
                    let following = self.state.next + 1;
                    self.state.list.push(RankingListEntry { user_id, score });
                    self.state.next = following;
                    if self.state.next < self.state.members.len() {
                        self.ask_status(now)
                    } else {
                        self.after_list()
                    }
                },
                None => self.give_up(),
            },
            _ => {
                self.state.score = score;
                match command_write(self.state.cmd) {
                    Some(write) => {
                        self.state.phase = IntegralPhase::Marking;
                        Step::Run(Task::Write { write, user_id: self.state.user_id, at: now })
                    },
                    None => self.after_mark(),
                }
            },
        }
    }

    /// Goes on once the names of the member in turn are there.
    fn after_name(&mut self, name: &str) -> (r: Step)
        ensures
            final(self).config == old(self).config,
            (final(self).state@, r@) == after_name(old(self).state@, name@),
    {
        match self.state.cmd {
            Cmd::Ranking => {
                let next = self.state.next;
                if next < self.state.list.len() && next < self.state.places.len() {
                    let line = ranking_line(self.state.places[next], name, self.state.list[next].score);
                    self.state.text.append(line.as_str());
                    self.state.next = next + 1;
                    if self.state.next < self.state.list.len() {
                        Step::Call(
                            ApiRequest::GetGroupMemberInfo {
                                group_id: self.state.group_id,
                                user_id: self.state.list[self.state.next].user_id,
                            },
                        )
                    } else {
                        self.state.phase = IntegralPhase::Replying;
                        Step::Call(send_group(self.state.group_id, self.state.text.as_str()))
                    }
                } else {
                    self.give_up()
                }
            },
            _ => {
                self.state.phase = IntegralPhase::Replying;
                Step::Call(score_reply(self.state.group_id, name, self.state.score))
            },
        }
    }

    /// Takes up the command `cmd` that `user_id` gave in the group
    /// `group_id` at `now`.
    pub fn integral(&mut self, cmd: Cmd, user_id: i64, group_id: i64, now: i64) -> (r: Step)
        ensures
            final(self).config == old(self).config,
            (final(self).state@, r@) == ({
                let w = IntegralStateView { cmd, group_id, user_id, score: 0, next: 0, ..old(self).state@ };
                if cmd is Ranking {
                    (
                        IntegralStateView { phase: IntegralPhase::Listing, ..w },
                        StepView::Call(ApiRequestView::GetGroupMemberList { group_id }),
                    )
                } else {
                    ask_status(w, now)
                }
            }),
    {
        self.state.cmd = cmd;
        self.state.group_id = group_id;
        self.state.user_id = user_id;
        self.state.score = 0;
        self.state.next = 0;
        match cmd {
            Cmd::Ranking => {
                self.state.phase = IntegralPhase::Listing;
                Step::Call(ApiRequest::GetGroupMemberList { group_id })
            },
            _ => self.ask_status(now),
        }
    }

    /// Offers `event` to the handler at `now`.
    pub fn begin_at(&mut self, event: &CQEvent, now: i64) -> (r: Step)
        ensures
            final(self).config == old(self).config,
            (final(self).state@, r@) == integral_began(old(self).state@, event, now),
    {
        self.state.phase = IntegralPhase::Idle;
        if !event.is_group_message_event() {
            return Step::Done;
        }
        match (&event.raw_message, event.user_id, event.group_id) {
            (Some(msg), Some(user_id), Some(group_id)) => match IntegralPlugin::resolve(msg.as_str()) {
                Some(cmd) => self.integral(cmd, user_id, group_id, now),
                None => Step::Done,
            },
            _ => Step::Done,
        }
    }

    /// Tells the handler at `now` what came back for the call or task it
    /// waited for.
    pub fn resume_at(&mut self, outcome: &Outcome, now: i64) -> (r: Step)
        ensures
            final(self).config == old(self).config,
            (final(self).state@, r@) == integral_resumed(old(self).state@, *outcome, now),
    {
        match self.state.phase {
            IntegralPhase::Idle => Step::Done,
            IntegralPhase::Listing => match outcome {
                Outcome::Members(ids) => {
                    self.state.members = copy_ids(ids);
                    self.state.list = Vec::new();
                    self.state.next = 0;
                    if ids.len() == 0 {
                        self.after_list()
                    } else {
                        self.ask_status(now)
                    }
                },
                _ => self.give_up(),
            },
            IntegralPhase::Updated => {
                let read = match outcome {
                    Outcome::Time(t) => Some(*t),
                    _ => None,
                };
                match self.subject() {
                    Some(user_id) => match status_write(plan_status(self.state.asked_at, read)) {
                        Some(write) => {
                            self.state.phase = IntegralPhase::Settling;
                            Step::Run(Task::Write { write, user_id, at: now })
                        },
                        None => {
                            self.state.phase = IntegralPhase::Started;
                            Step::Run(Task::ReadStarted { user_id })
                        },
                    },
                    None => self.give_up(),
                }
            },
            IntegralPhase::Settling => self.after_score(0, now),
            IntegralPhase::Started => match outcome {
                Outcome::Time(started_at) => {
                    let seconds = score(self.state.asked_at, *started_at);
                    self.after_score(seconds, now)
                },
                _ => self.give_up(),
            },
            IntegralPhase::Marking => self.after_mark(),
            IntegralPhase::Naming => match outcome {
                Outcome::Member(info) => match member_name(info) {
                    Some(name) => self.after_name(name),
                    None => self.give_up(),
                },
                _ => self.give_up(),
            },
            IntegralPhase::Replying => {
                self.state.phase = IntegralPhase::Idle;
                match outcome {
                    Outcome::Delivered => Step::Done,
                    _ => Step::Failed,
                }
            },
        }
    }
}

/// The same numbers in a list of their own.
pub fn copy_ids(ids: &Vec<i64>) -> (r: Vec<i64>)
    ensures
        r@ == ids@,
{
    let mut out: Vec<i64> = Vec::new();
    let mut i: usize = 0;
    while i < ids.len()
        invariant
            i <= ids@.len(),
            out@ == ids@.take(i as int),
        decreases ids@.len() - i,
    {
        out.push(ids[i]);
        assert(ids@.take(i + 1) == ids@.take(i as int).push(ids@[i as int]));
        i = i + 1;
    }
    assert(ids@.take(ids@.len() as int) == ids@);
    out
}

impl Plugin for IntegralPlugin {
    open spec fn entry(&self) -> PluginEntry {
        PluginEntry {
            name: "integral"@,
            description: "阻冲之"@,
            help: "用法:\r\n>integral <cmd>\r\n\r\ncmd列表:\r\n\tderivative\t破戒\r\n\tpunch\t\t打卡\r\n\tranking\t查看群内排名\r\n\tstatus\t\t查看状态\r\n\r\n24小时内未打卡会导致计时清零"@,
            senario: PluginSenario::Group,
        }
    }

    fn name(&self) -> &'static str {
        "integral"
    }

    fn description(&self) -> &'static str {
        "阻冲之"
    }

    fn help(&self) -> &'static str {
        "用法:\r\n>integral <cmd>\r\n\r\ncmd列表:\r\n\tderivative\t破戒\r\n\tpunch\t\t打卡\r\n\tranking\t查看群内排名\r\n\tstatus\t\t查看状态\r\n\r\n24小时内未打卡会导致计时清零"
    }

    fn senario(&self) -> PluginSenario {
        PluginSenario::Group
    }

    open spec fn handles(&self, event: &CQEvent, now: i64, next: &Self, step: StepView) -> bool {
        next.config == self.config && (next.state@, step) == integral_began(self.state@, event, now)
    }

    open spec fn follows(&self, outcome: Outcome, now: i64, next: &Self, step: StepView) -> bool {
        next.config == self.config && (next.state@, step) == integral_resumed(self.state@, outcome, now)
    }

    fn handle(&mut self, event: &CQEvent, now: i64) -> (r: Step) {
        self.begin_at(event, now)
    }

    fn follow_up(&mut self, outcome: &Outcome, now: i64) -> (r: Step) {
        self.resume_at(outcome, now)
    }
}

} // verus!
