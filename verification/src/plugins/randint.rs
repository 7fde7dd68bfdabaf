//! `>randint <min> <max>`: replies with a random number between the two.

use vstd::prelude::*;
use crate::gateway::send_group;
use crate::matching::{
    capture, captured, decimal_text, opt_text, parse_u128, parsed_u128, random_between, u128_text,
};
use crate::models::{CQEvent, Plugin, PluginEntry, PluginSenario};
use crate::plugins::{settle, settled, Outcome, Step, StepView};

verus! {

/// The random-number handler has nothing to configure.
#[derive(Clone, Copy, Debug, Default)]
pub struct RandintPluginConfig;

/// The random-number handler.
#[derive(Clone, Copy, Debug)]
pub struct RandintPlugin;

/// The command's pattern: the bounds are its groups `min` and `max`.
pub open spec fn randint_pattern() -> Seq<char> {
    r"^>randint\s+(?P<min>\d+)\s+(?P<max>\d+)\s*$"@
}

/// The reply to bounds in the wrong order.
pub open spec fn wrong_order_line() -> Seq<char> {
    "homo特有的10比9大"@
}

/// The number that a captured bound denotes.
pub open spec fn bound_of(word: Option<Seq<char>>) -> Option<u128> {
    match word {
        Some(w) => parsed_u128(w),
        None => None,
    }
}

/// The group and the two bounds that `event` asks for.
pub open spec fn randint_bounds(event: &CQEvent) -> Option<(i64, u128, u128)> {
    match (event.group_id, event.raw_message) {
        (Some(g), Some(msg)) if event.is_group_message() => match (
            bound_of(captured(randint_pattern(), msg@, "$min"@)),
            bound_of(captured(randint_pattern(), msg@, "$max"@)),
        ) {
            (Some(lo), Some(hi)) => Some((g, lo, hi)),
            _ => None,
        },
        _ => None,
    }
}

/// The reply to the bounds `lo` and `hi`, where `pick` is the number drawn.
pub open spec fn randint_step(group_id: i64, lo: u128, hi: u128, pick: u128) -> StepView {
    if lo > hi {
        StepView::group_msg(group_id, wrong_order_line())
    } else {
        StepView::group_msg(group_id, decimal_text(pick as nat))
    }
}

/// Whether `step` is what the handler may want when `event` is offered: the
/// complaint, a number within the bounds, or nothing for any other event.
pub open spec fn randint_reaction(event: &CQEvent, step: StepView) -> bool {
    match randint_bounds(event) {
        Some((g, lo, hi)) => if lo > hi {
            step == StepView::group_msg(g, wrong_order_line())
        } else {
            exists|pick: u128| lo <= pick <= hi && step == StepView::group_msg(g, decimal_text(pick as nat))
        },
        None => step == StepView::Done,
    }
}

/// Replies to the group with the number drawn, or with a complaint where
/// the bounds are in the wrong order.
pub fn randint_reply(group_id: i64, lo: u128, hi: u128, pick: u128) -> (r: Step)
    ensures
        r@ == randint_step(group_id, lo, hi, pick),
{
    if lo > hi {
        Step::Call(send_group(group_id, "homo特有的10比9大"))
    } else {
        let text = u128_text(pick);
        Step::Call(send_group(group_id, text.as_str()))
    }
}

/// Reads a bound that the command pattern captured.
pub fn read_bound(word: Option<String>) -> (r: Option<u128>)
    ensures
        r == bound_of(opt_text(word)),
{
    match word {
        Some(w) => parse_u128(w.as_str()),
        None => None,
    }
}

impl RandintPlugin {
    /// A handler; it keeps no state.
    pub fn new() -> (r: RandintPlugin)
        ensures
            r == RandintPlugin,
    {
        RandintPlugin
    }

    /// Draws a number between the bounds and replies with it; complains
    /// where the bounds are in the wrong order.
    pub fn randint(&self, group_id: i64, lo: u128, hi: u128) -> (r: Step)
        ensures
            lo > hi ==> r@ == StepView::group_msg(group_id, wrong_order_line()),
            lo <= hi ==> exists|pick: u128|
                lo <= pick <= hi && r@ == StepView::group_msg(group_id, decimal_text(pick as nat)),
    {
        if lo > hi {
            randint_reply(group_id, lo, hi, lo)
        } else {
            let pick = random_between(lo, hi);
            randint_reply(group_id, lo, hi, pick)
        }
    }

    /// Offers `event` to the handler.
    pub fn begin(&self, event: &CQEvent) -> (r: Step)
        ensures
            randint_reaction(event, r@),
    {
        if !event.is_group_message_event() {
            return Step::Done;
        }
        match (event.group_id, &event.raw_message) {
            (Some(g), Some(msg)) => {
                let pattern = r"^>randint\s+(?P<min>\d+)\s+(?P<max>\d+)\s*$";
                let lo = read_bound(capture(pattern, msg.as_str(), "$min"));
                let hi = read_bound(capture(pattern, msg.as_str(), "$max"));
                match (lo, hi) {
                    (Some(lo), Some(hi)) => self.randint(g, lo, hi),
                    _ => Step::Done,
                }
            },
            _ => Step::Done,
        }
    }

    /// Tells the handler how its call went.
    pub fn resume(&self, delivered: bool) -> (r: Step)
        ensures
            r@ == settled(delivered),
    {
        settle(delivered)
    }
}

impl Plugin for RandintPlugin {
    open spec fn entry(&self) -> PluginEntry {
        PluginEntry {
            name: "randint"@,
            description: "随机非负整数"@,
            help: "用法:\r\n>randint <min> <max>\r\n\tmin: 最小值\r\n\tmax: 最大值\r\n\r\n返回一个[min, max]之间的随机非负整数\r\n注意: min, max在u128范围内"@,
            senario: PluginSenario::Group,
        }
    }

    fn name(&self) -> &'static str {
        "randint"
    }

    fn description(&self) -> &'static str {
        "随机非负整数"
    }

    fn help(&self) -> &'static str {
        "用法:\r\n>randint <min> <max>\r\n\tmin: 最小值\r\n\tmax: 最大值\r\n\r\n返回一个[min, max]之间的随机非负整数\r\n注意: min, max在u128范围内"
    }

    fn senario(&self) -> PluginSenario {
        PluginSenario::Group
    }

    open spec fn handles(&self, event: &CQEvent, now: i64, next: &Self, step: StepView) -> bool {
        randint_reaction(event, step)
    }

    open spec fn follows(&self, outcome: Outcome, now: i64, next: &Self, step: StepView) -> bool {
        step == settled(outcome.succeeded())
    }

    fn handle(&mut self, event: &CQEvent, now: i64) -> (r: Step) {
        self.begin(event)
    }

    fn follow_up(&mut self, outcome: &Outcome, now: i64) -> (r: Step) {
        self.resume(outcome.is_success())
    }
}

} // verus!
