use cq_bot::debounce::{Cooldown, RepeatTracker, Toggle};
use cq_bot::gateway::ApiRequest;
use cq_bot::models::CQEvent;
use cq_bot::plugins::hokp::{matches_any, HOKpPhase};
use cq_bot::plugins::{
    HOKpPlugin, HOKpPluginConfig, QuestionPlugin, QuestionPluginConfig, RepeatPlugin, RepeatPluginConfig, Step,
};

fn said(text: &str, group_id: i64) -> CQEvent {
    CQEvent {
        time: 0,
        self_id: 1,
        post_type: "message".to_string(),
        message_type: Some("group".to_string()),
        request_type: None,
        notice_type: None,
        meta_event_type: None,
        sub_type: None,
        message_id: Some(1),
        user_id: Some(7),
        raw_message: Some(text.to_string()),
        font: None,
        group_id: Some(group_id),
        operator_id: None,
    }
}

fn to_group(group_id: i64, message: &str) -> Step {
    Step::Call(ApiRequest::SendGroupMsg { group_id, message: message.to_string() })
}

#[test]
fn cooldown_blocks_within_the_window_and_opens_at_its_end() {
    let mut c = Cooldown::new();
    assert!(c.react(1000, 30));
    assert_eq!(c.last_action_timestamp, 1000);
    assert!(!c.react(1001, 30));
    assert!(!c.react(1029, 30));
    assert_eq!(c.last_action_timestamp, 1000);
    assert!(c.react(1030, 30));
    assert_eq!(c.last_action_timestamp, 1030);
}

#[test]
fn cooldown_at_the_limits_of_the_clock() {
    let c = Cooldown { last_action_timestamp: i64::MIN };
    assert!(c.is_ready(i64::MAX, i64::MAX));
    let d = Cooldown { last_action_timestamp: i64::MAX };
    assert!(!d.is_ready(i64::MIN, 0));
    assert!(!d.is_ready(i64::MIN, i64::MIN));
    assert!(d.is_ready(i64::MAX, 0));
}

#[test]
fn cooldown_stamp_records_the_time() {
    let mut c = Cooldown::new();
    c.stamp(77);
    assert_eq!(c.last_action_timestamp, 77);
    assert!(!c.is_ready(80, 5));
    assert!(c.is_ready(82, 5));
}

#[test]
fn run_one_short_of_the_threshold_is_silent() {
    let mut t = RepeatTracker::new();
    assert!(!t.hear("a", 3));
    assert!(!t.hear("a", 3));
    assert!(!t.hear("b", 3));
    assert_eq!(t.target_msg.as_deref(), Some("b"));
    assert_eq!(t.target_cnt, 1);
}

#[test]
fn run_of_the_threshold_fires_once() {
    let mut t = RepeatTracker::new();
    let fired: Vec<bool> = (0..4).map(|_| t.hear("a", 3)).collect();
    assert_eq!(fired, vec![false, false, true, false]);
    assert_eq!(t.target_cnt, 1);
}

#[test]
fn tracker_counts_and_clears() {
    let mut t = RepeatTracker::new();
    t.observe("x");
    t.observe("x");
    assert_eq!(t.target_cnt, 2);
    assert!(t.is_due("x", 2));
    assert!(!t.is_due("x", 3));
    assert!(!t.is_due("y", 1));
    t.clear();
    assert_eq!(t.target_msg, None);
    assert_eq!(t.target_cnt, 0);
    assert!(!t.is_due("x", 0));
}

#[test]
fn tracker_count_stops_at_the_largest_number() {
    let mut t = RepeatTracker { target_msg: Some("x".to_string()), target_cnt: i64::MAX };
    t.observe("x");
    assert_eq!(t.target_cnt, i64::MAX);
}

#[test]
fn toggle_twice_returns_to_the_start() {
    let mut t = Toggle::new(false);
    let on = t.toggle(5);
    assert!(t.is_enabled());
    assert_eq!(on, ApiRequest::SendGroupMsg { group_id: 5, message: "enabled".to_string() });
    let off = t.toggle(5);
    assert!(!t.is_enabled());
    assert_eq!(off, ApiRequest::SendGroupMsg { group_id: 5, message: "disabled".to_string() });
}

#[test]
fn question_is_answered_once_per_cooldown() {
    let mut q = QuestionPlugin::new(Some(QuestionPluginConfig { sleep_seconds: 10 }));
    assert_eq!(q.begin_at(&said("???", 2), 100), to_group(2, "???"));
    assert_eq!(q.resume_at(true, 101), Step::Done);
    assert_eq!(q.state.cooldown.last_action_timestamp, 101);
    assert_eq!(q.begin_at(&said("？", 2), 105), Step::Done);
    assert_eq!(q.begin_at(&said("？", 2), 110), Step::Done);
    assert_eq!(q.begin_at(&said("？", 2), 111), to_group(2, "？"));
}

#[test]
fn question_that_was_not_delivered_starts_no_cooldown() {
    let mut q = QuestionPlugin::new(Some(QuestionPluginConfig { sleep_seconds: 10 }));
    assert_eq!(q.begin_at(&said("?", 2), 100), to_group(2, "?"));
    assert_eq!(q.resume_at(false, 101), Step::Failed);
    assert_eq!(q.state.cooldown.last_action_timestamp, 0);
    assert_eq!(q.begin_at(&said("?", 2), 102), to_group(2, "?"));
}

#[test]
fn question_ignores_other_text_and_other_chats() {
    let mut q = QuestionPlugin::new(None);
    assert_eq!(q.begin_at(&said("what?", 2), 100), Step::Done);
    let mut private = said("?", 2);
    private.message_type = Some("private".to_string());
    assert_eq!(q.begin_at(&private, 100), Step::Done);
    assert_eq!(q.question(None, "?", Some(true), 100), Step::Done);
    assert_eq!(q.question(Some(1), "?", Some(false), 100), Step::Done);
    assert_eq!(q.question(Some(1), "?", None, 100), Step::Done);
    assert_eq!(q.resume_at(true, 100), Step::Done);
    assert_eq!(q.state.cooldown.last_action_timestamp, 0);
}

#[test]
fn question_reads_the_clock() {
    let mut q = QuestionPlugin::new(Some(QuestionPluginConfig { sleep_seconds: 1 }));
    assert_eq!(q.begin(&said("?", 2)), to_group(2, "?"));
    assert_eq!(q.resume(true), Step::Done);
    assert!(q.state.cooldown.last_action_timestamp > 1_600_000_000);
}

#[test]
fn repeat_joins_in_at_the_threshold_and_not_again() {
    let mut r = RepeatPlugin::new(Some(RepeatPluginConfig { threshold: 3, sleep_seconds: 0 }));
    assert_eq!(r.begin_at(&said("lol", 6), 10), Step::Done);
    assert_eq!(r.begin_at(&said("lol", 6), 11), Step::Done);
    assert_eq!(r.begin_at(&said("lol", 6), 12), to_group(6, "lol"));
    assert_eq!(r.resume_at(true, 12), Step::Done);
    assert_eq!(r.state.tracker.target_msg, None);
    assert_eq!(r.state.cooldown.last_action_timestamp, 12);
    assert_eq!(r.begin_at(&said("lol", 6), 13), Step::Done);
    assert_eq!(r.state.tracker.target_cnt, 1);
}

#[test]
fn repeat_starts_over_on_another_message() {
    let mut r = RepeatPlugin::new(Some(RepeatPluginConfig { threshold: 3, sleep_seconds: 0 }));
    assert_eq!(r.begin_at(&said("a", 6), 10), Step::Done);
    assert_eq!(r.begin_at(&said("a", 6), 10), Step::Done);
    assert_eq!(r.begin_at(&said("b", 6), 10), Step::Done);
    assert_eq!(r.begin_at(&said("a", 6), 10), Step::Done);
    assert_eq!(r.state.tracker.target_cnt, 1);
}

#[test]
fn repeat_keeps_quiet_during_its_cooldown_but_counts() {
    let mut r = RepeatPlugin::new(Some(RepeatPluginConfig { threshold: 2, sleep_seconds: 100 }));
    assert_eq!(r.begin_at(&said("a", 6), 1000), Step::Done);
    assert_eq!(r.begin_at(&said("a", 6), 1001), to_group(6, "a"));
    assert_eq!(r.resume_at(true, 1002), Step::Done);
    assert_eq!(r.begin_at(&said("b", 6), 1003), Step::Done);
    assert_eq!(r.begin_at(&said("b", 6), 1004), Step::Done);
    assert_eq!(r.state.tracker.target_cnt, 2);
    assert!(!r.state.awaiting);
    assert_eq!(r.begin_at(&said("b", 6), 1101), Step::Done);
    assert_eq!(r.state.tracker.target_cnt, 3);
    assert_eq!(r.begin_at(&said("b", 6), 1102), to_group(6, "b"));
}

#[test]
fn set_state_only_takes_note_of_the_message() {
    let mut r = RepeatPlugin::new(Some(RepeatPluginConfig { threshold: 2, sleep_seconds: 0 }));
    r.state.cooldown.stamp(77);
    r.set_state("x");
    assert_eq!(r.state.tracker.target_msg.as_deref(), Some("x"));
    assert_eq!(r.state.tracker.target_cnt, 1);
    r.set_state("x");
    r.set_state("x");
    assert_eq!(r.state.tracker.target_msg.as_deref(), Some("x"));
    assert_eq!(r.state.tracker.target_cnt, 3);
    r.set_state("y");
    assert_eq!(r.state.tracker.target_msg.as_deref(), Some("y"));
    assert_eq!(r.state.tracker.target_cnt, 1);
    assert_eq!(r.state.cooldown.last_action_timestamp, 77);
    assert!(!r.state.awaiting);
    assert_eq!(r.config.threshold, 2);
}

#[test]
fn do_repeat_joins_in_once_the_streak_is_long_enough() {
    let mut r = RepeatPlugin::new(Some(RepeatPluginConfig { threshold: 2, sleep_seconds: 1000 }));
    assert_eq!(r.do_repeat(6, "x"), Step::Done);
    r.set_state("x");
    assert_eq!(r.do_repeat(6, "x"), Step::Done);
    assert!(!r.state.awaiting);
    r.set_state("x");
    assert_eq!(r.do_repeat(6, "y"), Step::Done);
    assert_eq!(r.do_repeat(6, "x"), to_group(6, "x"));
    assert!(r.state.awaiting);
    assert_eq!(r.state.tracker.target_cnt, 2);
    assert_eq!(r.state.cooldown.last_action_timestamp, 0);
    assert_eq!(r.resume_at(true, 50), Step::Done);
    assert_eq!(r.state.tracker.target_msg, None);
    assert_eq!(r.state.tracker.target_cnt, 0);
    assert_eq!(r.state.cooldown.last_action_timestamp, 50);
}

#[test]
fn repeat_that_was_not_delivered_keeps_its_streak() {
    let mut r = RepeatPlugin::new(Some(RepeatPluginConfig { threshold: 2, sleep_seconds: 0 }));
    r.begin_at(&said("a", 6), 10);
    assert_eq!(r.begin_at(&said("a", 6), 10), to_group(6, "a"));
    assert_eq!(r.resume_at(false, 10), Step::Failed);
    assert_eq!(r.state.tracker.target_cnt, 2);
    assert_eq!(r.state.cooldown.last_action_timestamp, 0);
}

#[test]
fn repeat_without_configuration_repeats_everything() {
    let mut r = RepeatPlugin::new(None);
    assert_eq!(r.config.threshold, 0);
    assert_eq!(r.begin_at(&said("a", 6), 10), to_group(6, "a"));
}

fn hokp(sleep_seconds: i64) -> HOKpPlugin {
    HOKpPlugin::new(Some(HOKpPluginConfig {
        not_hokp_patterns: vec!["原神".to_string(), "^play$".to_string()],
        hokp_patterns: vec!["王者".to_string(), "play".to_string()],
        whitelist: vec![1, 2],
        sleep_seconds,
    }))
}

#[test]
fn hokp_speaks_both_lines_in_turn() {
    let mut p = hokp(60);
    assert_eq!(p.begin_at(&said("play", 1), 1000), to_group(1, "要不咱玩农吧"));
    assert_eq!(p.state.phase, HOKpPhase::First { group_id: 1, then: Some(true) });
    assert_eq!(p.resume_at(true, 1001), to_group(1, "农批收收味"));
    assert_eq!(p.state.cooldown.last_action_timestamp, 1001);
    assert_eq!(p.resume_at(true, 1002), Step::Done);
    assert_eq!(p.state.cooldown.last_action_timestamp, 1002);
    assert_eq!(p.state.phase, HOKpPhase::Idle);
    assert_eq!(p.begin_at(&said("play", 1), 1061), Step::Done);
    assert_eq!(p.begin_at(&said("play", 1), 1062), to_group(1, "要不咱玩农吧"));
}

#[test]
fn hokp_second_line_alone() {
    let mut p = hokp(60);
    assert_eq!(p.begin_at(&said("来把王者", 2), 1000), to_group(2, "农批收收味"));
    assert_eq!(p.state.phase, HOKpPhase::Second);
    assert_eq!(p.resume_at(false, 1000), Step::Failed);
    assert_eq!(p.state.cooldown.last_action_timestamp, 0);
    assert_eq!(p.state.phase, HOKpPhase::Idle);
}

#[test]
fn hokp_first_line_refused_ends_the_event() {
    let mut p = hokp(60);
    assert_eq!(p.begin_at(&said("play", 1), 1000), to_group(1, "要不咱玩农吧"));
    assert_eq!(p.resume_at(false, 1000), Step::Failed);
    assert_eq!(p.state.phase, HOKpPhase::Idle);
    assert_eq!(p.resume_at(true, 1000), Step::Done);
}

#[test]
fn hokp_serves_whitelisted_groups_only() {
    let mut p = hokp(0);
    assert!(p.filter(1));
    assert!(p.filter(2));
    assert!(!p.filter(3));
    assert_eq!(p.begin_at(&said("play", 3), 1000), Step::Done);
    assert_eq!(p.begin_at(&said("nothing", 1), 1000), Step::Done);
}

#[test]
fn hokp_pattern_that_does_not_compile() {
    let patterns = vec!["a".to_string(), "(".to_string(), "b".to_string()];
    assert_eq!(matches_any(&patterns, "xax"), Some(true));
    assert_eq!(matches_any(&patterns, "b"), None);
    assert_eq!(matches_any(&vec!["a".to_string(), "b".to_string()], "c"), Some(false));
    assert_eq!(matches_any(&Vec::new(), "c"), Some(false));
    let mut p = HOKpPlugin::new(Some(HOKpPluginConfig {
        not_hokp_patterns: vec!["x".to_string()],
        hokp_patterns: vec!["[".to_string()],
        whitelist: vec![1],
        sleep_seconds: 0,
    }));
    assert_eq!(p.begin_at(&said("y", 1), 5), Step::Failed);
    assert_eq!(p.begin_at(&said("x", 1), 5), to_group(1, "要不咱玩农吧"));
    assert_eq!(p.resume_at(true, 6), Step::Failed);
    assert_eq!(p.state.cooldown.last_action_timestamp, 6);
}

#[test]
fn hokp_plan_for_each_outcome() {
    let mut p = hokp(0);
    assert_eq!(p.plan(1, None, Some(true)), Step::Failed);
    assert_eq!(p.plan(1, Some(false), None), Step::Failed);
    assert_eq!(p.plan(1, Some(false), Some(false)), Step::Done);
    assert_eq!(p.plan(1, Some(true), Some(false)), to_group(1, "要不咱玩农吧"));
    assert_eq!(p.resume_at(true, 3), Step::Done);
}

#[test]
fn every_run_of_the_threshold_is_answered_once() {
    let mut t = RepeatTracker::new();
    let heard = ["a", "a", "a", "a", "a", "a", "a", "b", "b", "a", "a", "a", "c", "c", "c", "c"];
    let fired: Vec<bool> = heard.iter().map(|m| t.hear(m, 3)).collect();
    // the length of the run that each message ends: 1..7, 1, 2, 1, 2, 3, 1..4
    let runs = [1, 2, 3, 4, 5, 6, 7, 1, 2, 1, 2, 3, 1, 2, 3, 4];
    let expected: Vec<bool> = runs.iter().map(|r| r % 3 == 0).collect();
    assert_eq!(fired, expected);
    assert_eq!(t.target_msg.as_deref(), Some("c"));
    assert_eq!(t.target_cnt, 1);
}

#[test]
fn threshold_of_one_answers_every_message() {
    let mut t = RepeatTracker::new();
    assert!(t.hear("a", 1));
    assert!(t.hear("a", 1));
    assert!(t.hear("b", 1));
    assert_eq!(t.target_msg, None);
}

#[test]
fn repeat_handler_answers_every_run_of_the_threshold() {
    let mut r = RepeatPlugin::new(Some(RepeatPluginConfig { threshold: 2, sleep_seconds: 0 }));
    let heard = ["x", "x", "x", "y", "x", "x", "x", "x"];
    let mut replies: Vec<bool> = Vec::new();
    for text in heard {
        let step = r.begin_at(&said(text, 6), 10);
        replies.push(step == to_group(6, text));
        if step != Step::Done {
            assert_eq!(r.resume_at(true, 10), Step::Done);
        }
    }
    assert_eq!(replies, vec![false, true, false, false, false, true, false, true]);
}

#[test]
fn repeat_handler_answers_every_run_whatever_the_times() {
    let mut r = RepeatPlugin::new(Some(RepeatPluginConfig { threshold: 3, sleep_seconds: 0 }));
    let heard = ["x", "x", "x", "x", "y", "y", "y", "y", "y", "y", "x"];
    let runs = [1, 2, 3, 4, 1, 2, 3, 4, 5, 6, 1];
    let mut now = 1_000;
    for (text, run) in heard.iter().zip(runs.iter()) {
        now += 37;
        let step = r.begin_at(&said(text, 6), now);
        if run % 3 == 0 {
            assert_eq!(step, to_group(6, text), "at a run of {}", run);
            now += 5;
            assert_eq!(r.resume_at(true, now), Step::Done);
            assert_eq!(r.state.cooldown.last_action_timestamp, now);
        } else {
            assert_eq!(step, Step::Done, "at a run of {}", run);
        }
    }
}
