use cq_bot::bot::{Bot, BotConfig, Command, Signal, Turn};
use cq_bot::gateway::ApiRequest;
use cq_bot::models::CQEvent;
use cq_bot::plugins::archive::MemberInfo;
use cq_bot::plugins::integral::CardWrite;
use cq_bot::plugins::{
    AnyPlugin, EchoPlugin, HOKpPlugin, HOKpPluginConfig, IntegralPlugin, Outcome, RandintPlugin, RepeatPlugin,
    RepeatPluginConfig, SaucePlugin, Task,
};

fn group_message(text: &str, group_id: i64) -> CQEvent {
    CQEvent {
        time: 1_700_000_000,
        self_id: 10,
        post_type: "message".to_string(),
        message_type: Some("group".to_string()),
        request_type: None,
        notice_type: None,
        meta_event_type: None,
        sub_type: Some("normal".to_string()),
        message_id: Some(77),
        user_id: Some(42),
        raw_message: Some(text.to_string()),
        font: Some(0),
        group_id: Some(group_id),
        operator_id: None,
    }
}

fn send_group(group_id: i64, message: &str) -> Command {
    Command::Call(ApiRequest::SendGroupMsg { group_id, message: message.to_string() })
}

fn bot_with(plugins: Vec<AnyPlugin>) -> Bot {
    let mut bot = Bot::new(BotConfig::default());
    for plugin in plugins {
        assert!(bot.register_plugin(plugin));
    }
    bot
}

fn teaser(pattern: &str, group_id: i64) -> AnyPlugin {
    AnyPlugin::HOKp(HOKpPlugin::new(Some(HOKpPluginConfig {
        not_hokp_patterns: vec![pattern.to_string()],
        hokp_patterns: vec![],
        whitelist: vec![group_id],
        sleep_seconds: 0,
    })))
}

fn repeat_after(threshold: i64) -> AnyPlugin {
    AnyPlugin::Repeat(RepeatPlugin::new(Some(RepeatPluginConfig { threshold, sleep_seconds: 0 })))
}

#[test]
fn echo_round_trip_sends_one_group_message() {
    let mut bot = bot_with(vec![AnyPlugin::Echo(EchoPlugin::new(None))]);
    let first = bot.step_at(Signal::Arrived(group_message(">echo hi", 1)), 100);
    assert_eq!(first, send_group(1, "hi"));
    assert_eq!(bot.turn, Turn::Plugin(0));
    let second = bot.step_at(Signal::Delivered, 100);
    assert_eq!(second, Command::Receive);
    assert!(bot.is_idle());
}

#[test]
fn echo_keeps_the_text_behind_the_command() {
    let mut bot = bot_with(vec![AnyPlugin::Echo(EchoPlugin::new(None))]);
    let first = bot.step_at(Signal::Arrived(group_message(">echo   a b  c", 5)), 0);
    assert_eq!(first, send_group(5, "a b  c"));
}

#[test]
fn event_without_a_taker_ends_the_round_at_once() {
    let mut bot = bot_with(vec![AnyPlugin::Echo(EchoPlugin::new(None)), AnyPlugin::Randint(RandintPlugin::new())]);
    let command = bot.step_at(Signal::Arrived(group_message("good morning", 1)), 100);
    assert_eq!(command, Command::Receive);
    assert!(bot.is_idle());
    assert!(bot.event.is_none());
}

#[test]
fn handlers_are_offered_the_event_in_registration_order() {
    let mut bot = bot_with(vec![repeat_after(1), AnyPlugin::Echo(EchoPlugin::new(None)), teaser("echo", 3)]);
    let a = bot.step_at(Signal::Arrived(group_message(">echo x", 3)), 50);
    assert_eq!(a, send_group(3, ">echo x"));
    assert_eq!(bot.turn, Turn::Plugin(0));
    let b = bot.step_at(Signal::Delivered, 50);
    assert_eq!(b, send_group(3, "x"));
    assert_eq!(bot.turn, Turn::Plugin(1));
    let c = bot.step_at(Signal::Delivered, 50);
    assert_eq!(c, send_group(3, "要不咱玩农吧"));
    assert_eq!(bot.turn, Turn::Plugin(2));
    let d = bot.step_at(Signal::Delivered, 50);
    assert_eq!(d, Command::Receive);
    assert_eq!(bot.turn, Turn::Idle);
}

#[test]
fn help_is_offered_the_event_before_any_handler() {
    let mut bot = bot_with(vec![repeat_after(1)]);
    let a = bot.step_at(Signal::Arrived(group_message(">help", 3)), 50);
    assert_eq!(bot.turn, Turn::Help);
    assert_eq!(a, send_group(3, "用法:\r\n>help [插件名]\r\n\r\n插件列表:\r\nrepeat: 人云亦云\r\n"));
    let b = bot.step_at(Signal::Delivered, 50);
    assert_eq!(bot.turn, Turn::Plugin(0));
    assert_eq!(b, send_group(3, ">help"));
    let c = bot.step_at(Signal::Delivered, 50);
    assert_eq!(c, Command::Receive);
}

#[test]
fn refused_help_reply_does_not_abort_the_round() {
    let mut bot = bot_with(vec![repeat_after(1)]);
    bot.step_at(Signal::Arrived(group_message(">help", 3)), 50);
    let next = bot.step_at(Signal::Refused, 50);
    assert_eq!(next, send_group(3, ">help"));
    assert_eq!(bot.turn, Turn::Plugin(0));
}

#[test]
fn failure_of_one_handler_leaves_the_others_their_turn() {
    // A's call is refused; B and C are offered the event all the same.
    let registry = || vec![AnyPlugin::Echo(EchoPlugin::new(None)), repeat_after(2), teaser("hi", 9)];
    let mut failing = bot_with(registry());
    let mut passing = bot_with(registry());
    let a1 = failing.step_at(Signal::Arrived(group_message(">echo hi", 9)), 10);
    let a2 = passing.step_at(Signal::Arrived(group_message(">echo hi", 9)), 10);
    assert_eq!(a1, send_group(9, "hi"));
    assert_eq!(a1, a2);
    let b1 = failing.step_at(Signal::Refused, 10);
    let b2 = passing.step_at(Signal::Delivered, 10);
    assert_eq!(b1, send_group(9, "要不咱玩农吧"));
    assert_eq!(b1, b2);
    assert_eq!(failing.turn, Turn::Plugin(2));
    assert_eq!(failing.failures, vec![0]);
    assert_eq!(passing.failures, Vec::<usize>::new());
    let c1 = failing.step_at(Signal::Delivered, 10);
    let c2 = passing.step_at(Signal::Delivered, 10);
    assert_eq!(c1, Command::Receive);
    assert_eq!(c1, c2);
    assert_eq!(failing.failures, Vec::<usize>::new());
    // B has counted the message once in both runs: a second copy makes it join in.
    let d1 = failing.step_at(Signal::Arrived(group_message(">echo hi", 9)), 11);
    assert_eq!(d1, send_group(9, "hi"));
    let e1 = failing.step_at(Signal::Delivered, 11);
    assert_eq!(e1, send_group(9, ">echo hi"));
    assert_eq!(failing.turn, Turn::Plugin(1));
    let f1 = failing.step_at(Signal::Delivered, 11);
    assert_eq!(f1, send_group(9, "要不咱玩农吧"));
    assert_eq!(failing.turn, Turn::Plugin(2));
}

#[test]
fn handler_that_gives_up_is_passed() {
    let bad = HOKpPluginConfig {
        not_hokp_patterns: vec!["(".to_string()],
        hokp_patterns: vec![],
        whitelist: vec![4],
        sleep_seconds: 0,
    };
    let mut bot = bot_with(vec![AnyPlugin::HOKp(HOKpPlugin::new(Some(bad))), AnyPlugin::Echo(EchoPlugin::new(None))]);
    let command = bot.step_at(Signal::Arrived(group_message(">echo on", 4)), 10);
    assert_eq!(command, send_group(4, "on"));
    assert_eq!(bot.turn, Turn::Plugin(1));
    assert_eq!(bot.failures, vec![0]);
}

#[test]
fn handlers_that_give_up_are_recorded_for_the_step() {
    let mut bot = bot_with(vec![
        teaser("(", 4),
        AnyPlugin::Sauce(SaucePlugin::new(None)),
        AnyPlugin::Echo(EchoPlugin::new(None)),
    ]);
    let text = ">sauce [CQ:image,file=a,url=https://x.test/a.png]";
    assert_eq!(bot.step_at(Signal::Arrived(group_message(text, 4)), 10), Command::Receive);
    assert_eq!(bot.failures, vec![0, 1]);
    assert_eq!(bot.step_at(Signal::Arrived(group_message("hello", 5)), 10), Command::Receive);
    assert_eq!(bot.failures, Vec::<usize>::new());
}

#[test]
fn each_handler_is_registered_under_a_name_of_its_own() {
    let mut bot = bot_with(vec![AnyPlugin::Echo(EchoPlugin::new(None)), repeat_after(3)]);
    assert!(bot.has_plugin("echo"));
    assert!(bot.has_plugin("repeat"));
    assert!(!bot.has_plugin("randint"));
    assert!(!bot.register_plugin(repeat_after(5)));
    assert!(!bot.register_plugin(AnyPlugin::Echo(EchoPlugin::new(None))));
    assert_eq!(bot.plugins.len(), 2);
    assert!(bot.register_plugin(AnyPlugin::Randint(RandintPlugin::new())));
    assert_eq!(bot.plugins.len(), 3);
}

#[test]
fn events_are_dispatched_one_after_the_other() {
    let mut bot = bot_with(vec![AnyPlugin::Echo(EchoPlugin::new(None))]);
    let texts = [">echo 1", ">echo 2", ">echo 3"];
    let mut seen: Vec<String> = Vec::new();
    for text in texts {
        assert!(bot.is_idle());
        match bot.step_at(Signal::Arrived(group_message(text, 1)), 0) {
            Command::Call(ApiRequest::SendGroupMsg { message, .. }) => seen.push(message),
            other => panic!("unexpected {:?}", other),
        }
        assert_eq!(bot.step_at(Signal::Delivered, 0), Command::Receive);
    }
    assert_eq!(seen, vec!["1".to_string(), "2".to_string(), "3".to_string()]);
}

#[test]
fn registry_is_closed_once_the_first_event_arrived() {
    let mut bot = bot_with(vec![AnyPlugin::Echo(EchoPlugin::new(None))]);
    assert!(!bot.started);
    bot.step_at(Signal::Arrived(group_message("hello", 1)), 0);
    assert!(bot.started);
    assert!(!bot.register_plugin(AnyPlugin::Randint(RandintPlugin::new())));
    assert_eq!(bot.plugins.len(), 1);
}

#[test]
fn work_of_a_handler_is_passed_to_the_driver_step_by_step() {
    let mut bot = bot_with(vec![AnyPlugin::Integral(IntegralPlugin::new(None)), AnyPlugin::Echo(EchoPlugin::new(None))]);
    let a = bot.step_at(Signal::Arrived(group_message(">integral punch", 8)), 1000);
    assert_eq!(a, Command::Run(Task::ReadUpdated { user_id: 42 }));
    let b = bot.step_at(Signal::Refused, 1001);
    assert_eq!(b, Command::Run(Task::Write { write: CardWrite::Enrol, user_id: 42, at: 1001 }));
    let c = bot.step_at(Signal::Delivered, 1002);
    assert_eq!(c, Command::Run(Task::Write { write: CardWrite::Punch, user_id: 42, at: 1002 }));
    let d = bot.step_at(Signal::Answered(Outcome::Delivered), 1003);
    assert_eq!(d, Command::Call(ApiRequest::GetGroupMemberInfo { group_id: 8, user_id: 42 }));
    assert_eq!(bot.turn, Turn::Plugin(0));
    let info = MemberInfo { nickname: Some("Nick".to_string()), card: None };
    let e = bot.step_at(Signal::Answered(Outcome::Member(info)), 1004);
    assert_eq!(e, send_group(8, "Nick 已戒导 00s"));
    let f = bot.step_at(Signal::Delivered, 1005);
    assert_eq!(f, Command::Receive);
    assert!(bot.failures.is_empty());
}

#[test]
fn answer_that_a_handler_cannot_read_makes_it_give_up() {
    let mut bot = bot_with(vec![AnyPlugin::Integral(IntegralPlugin::new(None)), AnyPlugin::Echo(EchoPlugin::new(None))]);
    bot.step_at(Signal::Arrived(group_message(">integral ranking", 8)), 1000);
    let next = bot.step_at(Signal::Delivered, 1001);
    assert_eq!(next, Command::Receive);
    assert_eq!(bot.failures, vec![0]);
}

#[test]
fn run_reads_the_clock_and_steps() {
    let mut bot = bot_with(vec![AnyPlugin::Echo(EchoPlugin::new(None))]);
    assert_eq!(bot.run(Signal::Arrived(group_message(">echo now", 2))), send_group(2, "now"));
    assert_eq!(bot.run(Signal::Delivered), Command::Receive);
}

#[test]
fn api_request_goes_to_the_configured_gateway() {
    let bot = Bot::new(BotConfig { listen_addr: "0.0.0.0:1".to_string(), cq_addr: "10.0.0.2:5700".to_string() });
    assert_eq!(bot.api_request("send_group_msg"), "http://10.0.0.2:5700/send_group_msg");
    let request = ApiRequest::GetMsg { message_id: 3 };
    assert_eq!(bot.api_request(request.api_name()), "http://10.0.0.2:5700/get_msg");
}

#[test]
fn default_addresses() {
    let cfg = BotConfig::default();
    assert_eq!(cfg.listen_addr, "127.0.0.1:5701");
    assert_eq!(cfg.cq_addr, "127.0.0.1:5700");
}

#[test]
fn recall_is_archived_through_the_gateway() {
    let mut bot = bot_with(vec![AnyPlugin::Archive(cq_bot::plugins::ArchivePlugin::new(None))]);
    let mut recall = group_message("", 3);
    recall.post_type = "notice".to_string();
    recall.message_type = None;
    recall.raw_message = None;
    recall.notice_type = Some("group_recall".to_string());
    recall.operator_id = Some(42);
    let a = bot.step_at(Signal::Arrived(recall), 0);
    assert_eq!(a, Command::Call(ApiRequest::GetGroupMemberInfo { group_id: 3, user_id: 42 }));
    let bob = MemberInfo { nickname: Some("Bob".to_string()), card: Some(String::new()) };
    let b = bot.step_at(Signal::Answered(Outcome::Member(bob.clone())), 0);
    assert_eq!(b, Command::Call(ApiRequest::GetGroupMemberInfo { group_id: 3, user_id: 42 }));
    let c = bot.step_at(Signal::Answered(Outcome::Member(bob)), 0);
    assert_eq!(c, Command::Call(ApiRequest::GetMsg { message_id: 77 }));
    let d = bot.step_at(Signal::Answered(Outcome::Message { message: Some("oops".to_string()), time: Some(0) }), 0);
    match d {
        Command::Call(ApiRequest::SendGroupMsg { group_id: 3, message }) => {
            assert!(message.starts_with("Bob 撤回了 自己 于 "), "{}", message);
        },
        other => panic!("unexpected {:?}", other),
    }
    let e = bot.step_at(Signal::Delivered, 0);
    assert_eq!(e, send_group(3, "oops"));
    assert_eq!(bot.step_at(Signal::Delivered, 0), Command::Receive);
}

#[test]
fn search_is_answered_with_its_hits() {
    let key = cq_bot::plugins::SaucePluginConfig { api_key: Some("k".to_string()) };
    let mut bot = bot_with(vec![AnyPlugin::Sauce(SaucePlugin::new(Some(key)))]);
    let text = ">sauce [CQ:image,file=a,url=https://x.test/a.png]";
    let a = bot.step_at(Signal::Arrived(group_message(text, 4)), 10);
    assert_eq!(a, Command::Run(Task::Sauce { api_key: "k".to_string(), img_url: "https://x.test/a.png".to_string() }));
    let b = bot.step_at(Signal::Answered(Outcome::Hits(Vec::new())), 10);
    assert_eq!(b, send_group(4, "没有找到结果"));
    assert_eq!(bot.step_at(Signal::Delivered, 10), Command::Receive);
}

#[test]
fn failure_of_one_handler_changes_nothing_behind_at_another_time() {
    let registry = || vec![AnyPlugin::Echo(EchoPlugin::new(None)), repeat_after(1), teaser("hi", 9)];
    let mut failing = bot_with(registry());
    let mut working = bot_with(registry());
    failing.step_at(Signal::Arrived(group_message(">echo hi", 9)), 10);
    working.step_at(Signal::Arrived(group_message(">echo hi", 9)), 500);
    let a = failing.step_at(Signal::Refused, 11);
    let b = working.step_at(Signal::Delivered, 777);
    assert_eq!(a, send_group(9, ">echo hi"));
    assert_eq!(a, b);
    assert_eq!(failing.turn, working.turn);
    assert_eq!(failing.failures, vec![0]);
    assert!(working.failures.is_empty());
    let c = failing.step_at(Signal::Delivered, 12);
    let d = working.step_at(Signal::Delivered, 778);
    assert_eq!(c, send_group(9, "要不咱玩农吧"));
    assert_eq!(c, d);
}
