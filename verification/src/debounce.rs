//! The state that rate-limited handlers keep between events: a cooldown
//! stamp, a tracker of repeated messages, and an on/off switch.

use vstd::prelude::*;
use crate::gateway::{send_group, ApiRequest, ApiRequestView};
use crate::matching::text_eq;

verus! {

/// The time of the last action, against which a cooldown is measured.
#[derive(Clone, Copy, Debug)]
pub struct Cooldown {
    pub last_action_timestamp: i64,
}

impl Cooldown {
    /// Whether an action is allowed at `now`: at least `cooldown_seconds`
    /// have passed since the last one.
    pub open spec fn allows(self, now: i64, cooldown_seconds: i64) -> bool {
        now - self.last_action_timestamp >= cooldown_seconds
    }

    /// The state after an action at `now`.
    pub open spec fn stamped(self, now: i64) -> Cooldown {
        Cooldown { last_action_timestamp: now }
    }

    /// The state after one read-check-act-update cycle at `now`.
    pub open spec fn reacted(self, now: i64, cooldown_seconds: i64) -> Cooldown {
        if self.allows(now, cooldown_seconds) {
            self.stamped(now)
        } else {
            self
        }
    }

    /// A cooldown that has never seen an action: its stamp is the epoch.
    pub fn new() -> (r: Cooldown)
        ensures
            r.last_action_timestamp == 0,
    {
        Cooldown { last_action_timestamp: 0 }
    }

    /// Whether an action is allowed at `now`.
    pub fn is_ready(&self, now: i64, cooldown_seconds: i64) -> (r: bool)
        ensures
            r == self.allows(now, cooldown_seconds),
    {
        now as i128 - self.last_action_timestamp as i128 >= cooldown_seconds as i128
    }

    /// Records an action at `now`.
    pub fn stamp(&mut self, now: i64)
        ensures
            *final(self) == old(self).stamped(now),
    {
        self.last_action_timestamp = now;
    }

    /// One read-check-act-update cycle: says whether the action is allowed
    /// at `now`, and if so records it.
    pub fn react(&mut self, now: i64, cooldown_seconds: i64) -> (fired: bool)
        ensures
            fired == old(self).allows(now, cooldown_seconds),
            *final(self) == old(self).reacted(now, cooldown_seconds),
    {
        if self.is_ready(now, cooldown_seconds) {
            self.stamp(now);
            true
        } else {
            false
        }
    }
}

/// Of two events less than the cooldown apart at most one is acted on, and
/// an event exactly one cooldown after an action is acted on again.
pub proof fn lemma_cooldown_window(start: Cooldown, cooldown_seconds: i64, first: i64, second: i64)
    ensures
        second - first < cooldown_seconds ==> !(start.allows(first, cooldown_seconds)
            && start.reacted(first, cooldown_seconds).allows(second, cooldown_seconds)),
        start.allows(first, cooldown_seconds) && second - first == cooldown_seconds
            ==> start.reacted(first, cooldown_seconds).allows(second, cooldown_seconds),
{
}

/// The message that is being repeated in a chat, and how often it has been
/// seen in a row.
#[derive(Clone, Debug)]
pub struct RepeatTracker {
    pub target_msg: Option<String>,
    pub target_cnt: i64,
}

/// The mathematical content of a [`RepeatTracker`].
pub struct Streak {
    pub text: Option<Seq<char>>,
    pub count: int,
}

impl Streak {
    /// Nothing tracked.
    pub open spec fn empty() -> Streak {
        Streak { text: None, count: 0 }
    }

    /// The streak after `msg` was seen: one longer where `msg` continues it,
    /// else a new streak of one. The count stops at the largest `i64`.
    pub open spec fn observed(self, msg: Seq<char>) -> Streak {
        if self.text == Some(msg) {
            Streak { text: self.text, count: if self.count < i64::MAX { self.count + 1 } else { self.count } }
        } else {
            Streak { text: Some(msg), count: 1 }
        }
    }

    /// Whether the streak of `msg` has reached `threshold`.
    pub open spec fn fires(self, msg: Seq<char>, threshold: i64) -> bool {
        self.text == Some(msg) && self.count >= threshold
    }

    /// The streak after `msg` was heard and, where the threshold was
    /// reached, answered.
    pub open spec fn heard(self, msg: Seq<char>, threshold: i64) -> Streak {
        if self.observed(msg).fires(msg, threshold) {
            Streak::empty()
        } else {
            self.observed(msg)
        }
    }

    /// The streak after all of `msgs` were heard in turn.
    pub open spec fn heard_all(self, msgs: Seq<Seq<char>>, threshold: i64) -> Streak
        decreases msgs.len(),
    {
        if msgs.len() == 0 {
            self
        } else {
            self.heard_all(msgs.drop_last(), threshold).heard(msgs.last(), threshold)
        }
    }

    /// How many of `msgs`, heard in turn, were answered.
    pub open spec fn replies(self, msgs: Seq<Seq<char>>, threshold: i64) -> nat
        decreases msgs.len(),
    {
        if msgs.len() == 0 {
            0
        } else {
            let before = self.heard_all(msgs.drop_last(), threshold);
            let earlier = self.replies(msgs.drop_last(), threshold);
            if before.observed(msgs.last()).fires(msgs.last(), threshold) {
                earlier + 1
            } else {
                earlier
            }
        }
    }
}

/// `len` copies of `msg` in a row.
pub open spec fn run_of(msg: Seq<char>, len: nat) -> Seq<Seq<char>> {
    Seq::new(len, |i: int| msg)
}

impl View for RepeatTracker {
    type V = Streak;

    open spec fn view(&self) -> Streak {
        Streak {
            text: match self.target_msg {
                Some(s) => Some(s@),
                None => None,
            },
            count: self.target_cnt as int,
        }
    }
}

impl RepeatTracker {
    /// A tracker that has seen nothing.
    pub fn new() -> (r: RepeatTracker)
        ensures
            r@ == Streak::empty(),
    {
        RepeatTracker { target_msg: None, target_cnt: 0 }
    }

    /// Takes note of `msg`: the streak grows where `msg` continues it, and
    /// starts anew otherwise.
    pub fn observe(&mut self, msg: &str)
        ensures
            final(self)@ == old(self)@.observed(msg@),
    {
        let same = match &self.target_msg {
            Some(t) => text_eq(t.as_str(), msg),
            None => false,
        };
        if same {
            if self.target_cnt < i64::MAX {
                self.target_cnt = self.target_cnt + 1;
            }
        } else {
            self.target_msg = Some(msg.to_owned());
            self.target_cnt = 1;
        }
    }

    /// Whether the streak of `msg` has reached `threshold`.
    pub fn is_due(&self, msg: &str, threshold: i64) -> (r: bool)
        ensures
            r == self@.fires(msg@, threshold),
    {
        match &self.target_msg {
            Some(t) => text_eq(t.as_str(), msg) && self.target_cnt >= threshold,
            None => false,
        }
    }

    /// Forgets the streak, so that it cannot fire again.
    pub fn clear(&mut self)
        ensures
            final(self)@ == Streak::empty(),
    {
        self.target_msg = None;
        self.target_cnt = 0;
    }

    /// Hears `msg`: takes note of it and says whether it is to be answered,
    /// in which case the streak is forgotten.
    pub fn hear(&mut self, msg: &str, threshold: i64) -> (fired: bool)
        ensures
            fired == old(self)@.observed(msg@).fires(msg@, threshold),
            final(self)@ == old(self)@.heard(msg@, threshold),
    {
        self.observe(msg);
        if self.is_due(msg, threshold) {
            self.clear();
            true
        } else {
            false
        }
    }
}

/// A run of fewer than `threshold` copies of `msg`, begun while another text
/// or none was tracked, is not answered, and is tracked at its full length.
pub proof fn lemma_short_run_is_silent(start: Streak, msg: Seq<char>, len: nat, threshold: i64)
    requires
        start.text != Some(msg),
        len < threshold,
    ensures
        start.replies(run_of(msg, len), threshold) == 0,
        start.heard_all(run_of(msg, len), threshold) == if len == 0 {
            start
        } else {
            Streak { text: Some(msg), count: len as int }
        },
    decreases len,
{
    if len > 0 {
        let shorter = (len - 1) as nat;
        lemma_short_run_is_silent(start, msg, shorter, threshold);
        assert(run_of(msg, len).drop_last() == run_of(msg, shorter));
        assert(run_of(msg, len).last() == msg);
    }
}

/// With a threshold of at least two and a streak of another text (or none)
/// before it: a run one short of the threshold, followed by a different
/// message, is never answered; a run of exactly the threshold is answered
/// once; and one more copy in the same run is not answered again.
pub proof fn lemma_repeat_detection(start: Streak, msg: Seq<char>, other: Seq<char>, threshold: i64)
    requires
        threshold >= 2,
        start.text != Some(msg),
        other != msg,
    ensures
        start.replies(run_of(msg, (threshold - 1) as nat).push(other), threshold) == 0,
        start.replies(run_of(msg, threshold as nat), threshold) == 1,
        start.replies(run_of(msg, (threshold + 1) as nat), threshold) == 1,
{
    let below = (threshold - 1) as nat;
    let exact = threshold as nat;
    let above = (threshold + 1) as nat;
    lemma_short_run_is_silent(start, msg, below, threshold);
    assert(run_of(msg, below).push(other).drop_last() == run_of(msg, below));
    assert(run_of(msg, below).push(other).last() == other);
    let short = start.heard_all(run_of(msg, below), threshold);
    assert(short == Streak { text: Some(msg), count: below as int });
    assert(!short.observed(other).fires(other, threshold));
    assert(start.replies(run_of(msg, below).push(other), threshold) == 0);
    assert(run_of(msg, exact).drop_last() == run_of(msg, below));
    assert(run_of(msg, exact).last() == msg);
    assert(short.observed(msg).fires(msg, threshold));
    assert(start.replies(run_of(msg, exact), threshold) == 1);
    assert(start.heard_all(run_of(msg, exact), threshold) == Streak::empty());
    assert(run_of(msg, above).drop_last() == run_of(msg, exact));
    assert(run_of(msg, above).last() == msg);
    assert(!Streak::empty().observed(msg).fires(msg, threshold));
    assert(start.replies(run_of(msg, above), threshold) == 1);
}

/// The length of the run of equal messages that ends `msgs`.
pub open spec fn run_ending(msgs: Seq<Seq<char>>) -> nat
    decreases msgs.len(),
{
    if msgs.len() == 0 {
        0
    } else if msgs.len() >= 2 && msgs[msgs.len() - 2] == msgs.last() {
        run_ending(msgs.drop_last()) + 1
    } else {
        1
    }
}

/// What is tracked after messages that end in a run of `run` copies of
/// `text`, heard from nothing on: the part of the run that has not been
/// answered yet.
pub open spec fn unanswered(text: Seq<char>, run: nat, threshold: i64) -> Streak {
    if run % (threshold as nat) == 0 {
        Streak::empty()
    } else {
        Streak { text: Some(text), count: (run % (threshold as nat)) as int }
    }
}

/// The remainder of a number's successor.
proof fn lemma_next_residue(l: int, n: int)
    requires
        l >= 0,
        n >= 1,
    ensures
        0 <= l % n < n,
        (l + 1) % n == (if l % n + 1 == n {
            0
        } else {
            l % n + 1
        }),
{
    vstd::arithmetic::div_mod::lemma_mod_pos_bound(l, n);
    vstd::arithmetic::div_mod::lemma_fundamental_div_mod(l, n);
    let q = l / n;
    let r = l % n;
    assert(l == q * n + r) by (nonlinear_arith)
        requires
            l == n * q + r,
    ;
    if r + 1 == n {
        assert(l + 1 == (q + 1) * n + 0) by (nonlinear_arith)
            requires
                l == q * n + r,
                r + 1 == n,
        ;
        vstd::arithmetic::div_mod::lemma_fundamental_div_mod_converse(l + 1, n, q + 1, 0);
    } else {
        vstd::arithmetic::div_mod::lemma_fundamental_div_mod_converse(l + 1, n, q, r + 1);
    }
}

/// Repeat detection over any messages, heard from nothing on, with a
/// threshold of at least one: a message is answered if and only if it
/// completes a run of equal messages whose length is a multiple of the
/// threshold, that is, a run of exactly the threshold counted from behind
/// the last answer or the last different message; and what is tracked
/// afterwards is the part of the run that has not been answered.
pub proof fn lemma_replies_every_nth(msgs: Seq<Seq<char>>, threshold: i64)
    requires
        threshold >= 1,
        msgs.len() > 0,
    ensures
        run_ending(msgs) >= 1,
        Streak::empty().heard_all(msgs.drop_last(), threshold).observed(msgs.last()).fires(msgs.last(), threshold)
            <==> run_ending(msgs) % (threshold as nat) == 0,
        Streak::empty().heard_all(msgs, threshold) == unanswered(msgs.last(), run_ending(msgs), threshold),
    decreases msgs.len(),
{
    let rest = msgs.drop_last();
    let last = msgs.last();
    let n = threshold as int;
    lemma_next_residue(0, n);
    if rest.len() == 0 {
        assert(Streak::empty().heard_all(rest, threshold) == Streak::empty());
    } else {
        lemma_replies_every_nth(rest, threshold);
        assert(rest.last() == msgs[msgs.len() - 2]);
        if rest.last() == last {
            lemma_next_residue(run_ending(rest) as int, n);
        }
    }
}

/// A feature's on/off switch.
#[derive(Clone, Copy, Debug)]
pub struct Toggle {
    pub enabled: bool,
}

impl Toggle {
    /// The switch in the other position.
    pub open spec fn flipped(self) -> Toggle {
        Toggle { enabled: !self.enabled }
    }

    /// The text that confirms a transition into the position `enabled`.
    pub open spec fn confirmation(enabled: bool) -> Seq<char> {
        if enabled {
            "enabled"@
        } else {
            "disabled"@
        }
    }

    /// A switch in the given position.
    pub fn new(enabled: bool) -> (r: Toggle)
        ensures
            r.enabled == enabled,
    {
        Toggle { enabled }
    }

    /// Whether the feature is on.
    pub fn is_enabled(&self) -> (r: bool)
        ensures
            r == self.enabled,
    {
        self.enabled
    }

    /// The reply to the toggle command from the group `group_id`: it
    /// confirms the position that the command brings about.
    pub open spec fn reply(self, group_id: i64) -> ApiRequestView {
        ApiRequestView::SendGroupMsg { group_id, message: Toggle::confirmation(!self.enabled) }
    }

    /// Flips the switch on the toggle command from the group `group_id`, and
    /// gives the reply that confirms the new position.
    pub fn toggle(&mut self, group_id: i64) -> (reply: ApiRequest)
        ensures
            *final(self) == old(self).flipped(),
            reply@ == old(self).reply(group_id),
    {
        self.enabled = !self.enabled;
        if self.enabled {
            send_group(group_id, "enabled")
        } else {
            send_group(group_id, "disabled")
        }
    }
}

/// Two toggle commands in a row leave the feature as it was, and each is
/// answered: the first reply confirms the other position, the second the
/// position that the feature had and has again.
pub proof fn lemma_toggle_twice(start: Toggle, group_id: i64)
    ensures
        start.flipped().flipped() == start,
        start.reply(group_id) == (ApiRequestView::SendGroupMsg {
            group_id,
            message: Toggle::confirmation(!start.enabled),
        }),
        start.flipped().reply(group_id) == (ApiRequestView::SendGroupMsg {
            group_id,
            message: Toggle::confirmation(start.enabled),
        }),
        start.reply(group_id) != start.flipped().reply(group_id),
{
    reveal_strlit("enabled");
    reveal_strlit("disabled");
    assert("enabled"@.len() != "disabled"@.len());
}

} // verus!
