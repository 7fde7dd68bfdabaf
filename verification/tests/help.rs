use cq_bot::help::{handle_help, help_detail, help_overview, help_request, help_text};
use cq_bot::gateway::ApiRequest;
use cq_bot::models::{CQEvent, Plugin, PluginSenario};
use cq_bot::plugins::{AnyPlugin, EchoPlugin, HOKpPlugin, RandintPlugin, SaucePlugin};

fn message(chat: &str, text: &str) -> CQEvent {
    CQEvent {
        time: 0,
        self_id: 1,
        post_type: "message".to_string(),
        message_type: Some(chat.to_string()),
        request_type: None,
        notice_type: None,
        meta_event_type: None,
        sub_type: None,
        message_id: Some(1),
        user_id: Some(7),
        raw_message: Some(text.to_string()),
        font: None,
        group_id: if chat == "group" { Some(3) } else { None },
        operator_id: None,
    }
}

fn registry() -> Vec<AnyPlugin> {
    vec![
        AnyPlugin::Echo(EchoPlugin::new(None)),
        AnyPlugin::Sauce(SaucePlugin::new(None)),
        AnyPlugin::HOKp(HOKpPlugin::new(None)),
    ]
}

const BANNER: &str = "用法:\r\n>help [插件名]\r\n\r\n插件列表:\r\n";

#[test]
fn overview_lists_every_group_handler_in_a_group() {
    let text = help_overview(&registry(), PluginSenario::Group);
    assert_eq!(text, format!("{}echo: 复读机\r\nsauce: SauceNAO以图搜图\r\nhokp: 农批\r\n", BANNER));
}

#[test]
fn overview_omits_group_handlers_in_a_private_chat() {
    let text = help_overview(&registry(), PluginSenario::Private);
    assert_eq!(text, format!("{}没有可用的插件", BANNER));
}

#[test]
fn overview_of_an_empty_registry() {
    let text = help_overview(&Vec::new(), PluginSenario::Group);
    assert_eq!(text, format!("{}没有可用的插件", BANNER));
}

#[test]
fn detail_of_a_known_handler() {
    let text = help_detail(&registry(), PluginSenario::Group, "echo");
    assert_eq!(text, "echo: 复读机\n\n用法:\r\n>echo <复读内容>");
}

#[test]
fn detail_of_an_unknown_handler() {
    assert_eq!(help_detail(&registry(), PluginSenario::Group, "nope"), "未找到插件或插件不可用");
}

#[test]
fn detail_of_a_handler_outside_its_scope() {
    assert_eq!(help_detail(&registry(), PluginSenario::Private, "echo"), "未找到插件或插件不可用");
}

#[test]
fn help_text_picks_overview_or_detail() {
    assert_eq!(help_text(&registry(), PluginSenario::Group, ""), help_overview(&registry(), PluginSenario::Group));
    assert_eq!(
        help_text(&registry(), PluginSenario::Group, "sauce"),
        "sauce: SauceNAO以图搜图\n\n用法:\r\n>sauce <图片>"
    );
}

#[test]
fn help_in_a_group_goes_to_the_group() {
    let reply = handle_help(&registry(), &message("group", ">help"));
    assert_eq!(
        reply,
        Some(ApiRequest::SendGroupMsg { group_id: 3, message: help_overview(&registry(), PluginSenario::Group) })
    );
}

#[test]
fn help_in_a_private_chat_goes_to_the_user() {
    let reply = handle_help(&registry(), &message("private", ">help echo"));
    assert_eq!(
        reply,
        Some(ApiRequest::SendMsg { user_id: 7, message: "未找到插件或插件不可用".to_string() })
    );
}

#[test]
fn help_with_an_argument_names_the_handler() {
    let reply = handle_help(&registry(), &message("group", ">help   hokp"));
    assert_eq!(reply, Some(ApiRequest::SendGroupMsg { group_id: 3, message: "hokp: 农批\n\n".to_string() }));
}

#[test]
fn help_ignores_other_text() {
    assert_eq!(handle_help(&registry(), &message("group", ">helpme")), None);
    assert_eq!(handle_help(&registry(), &message("group", "say >help")), None);
    assert_eq!(handle_help(&registry(), &message("group", "hello")), None);
}

#[test]
fn help_ignores_events_that_are_no_messages() {
    let mut event = message("group", ">help");
    event.post_type = "notice".to_string();
    assert_eq!(handle_help(&registry(), &event), None);
}

#[test]
fn help_ignores_a_message_of_unknown_subtype() {
    let mut event = message("group", ">help");
    event.message_type = None;
    assert_eq!(handle_help(&registry(), &event), None);
    event.message_type = Some("channel".to_string());
    assert_eq!(handle_help(&registry(), &event), None);
}

#[test]
fn help_ignores_a_message_without_an_address() {
    let mut event = message("group", ">help");
    event.group_id = None;
    assert_eq!(handle_help(&registry(), &event), None);
}

#[test]
fn help_request_without_a_match_is_none() {
    assert_eq!(help_request(&registry(), Some(PluginSenario::Group), Some(1), Some(2), None), None);
    assert_eq!(help_request(&registry(), None, Some(1), Some(2), Some(String::new())), None);
    assert_eq!(help_request(&registry(), Some(PluginSenario::Both), Some(1), Some(2), Some(String::new())), None);
}

#[test]
fn every_handler_describes_itself() {
    let plugin = AnyPlugin::Randint(RandintPlugin::new());
    assert_eq!(plugin.name(), "randint");
    assert_eq!(plugin.description(), "随机非负整数");
    assert!(plugin.help().starts_with("用法:\r\n>randint <min> <max>"));
    assert_eq!(plugin.senario(), PluginSenario::Group);
    assert!(PluginSenario::Both.is_available_in(PluginSenario::Private));
    assert!(PluginSenario::Group.is_available_in(PluginSenario::Group));
    assert!(!PluginSenario::Group.is_available_in(PluginSenario::Private));
    assert!(!PluginSenario::Private.is_available_in(PluginSenario::Both));
}

#[test]
fn help_about_one_handler_gives_name_description_and_usage() {
    let plugins = vec![AnyPlugin::Echo(EchoPlugin::new(None))];
    let mut event = message("group", ">help echo");
    event.group_id = Some(1);
    assert_eq!(
        handle_help(&plugins, &event),
        Some(ApiRequest::SendGroupMsg { group_id: 1, message: "echo: 复读机\n\n用法:\r\n>echo <复读内容>".to_string() })
    );
}
