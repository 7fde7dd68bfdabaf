//! The built-in help: a list of the handlers that are offered in a chat, or
//! the usage of one of them.

use vstd::prelude::*;
use vstd::string::StringExecFns;
use crate::gateway::{send_group, send_private, ApiRequest, ApiRequestView};
use crate::matching::{capture, captured, opt_text, regex_is_match, text_eq};
use crate::models::{CQEvent, Plugin, PluginEntry, PluginSenario};
use crate::plugins::{entries_of, AnyPlugin};

verus! {

/// The help command's pattern: the handler asked about is its group
/// `content`.
pub open spec fn help_pattern() -> Seq<char> {
    r"^(?P<cmd>>help)($|\s+(?P<content>.*)$)"@
}

/// The banner above the list of handlers.
pub open spec fn usage_banner() -> Seq<char> {
    "用法:\r\n>help [插件名]\r\n\r\n插件列表:\r\n"@
}

/// The reply where no handler is offered in the chat.
pub open spec fn none_available_line() -> Seq<char> {
    "没有可用的插件"@
}

/// The reply where the handler asked about is unknown or not offered in the
/// chat.
pub open spec fn not_found_line() -> Seq<char> {
    "未找到插件或插件不可用"@
}

/// The entries of `entries` that are offered in `chat`, in their order.
pub open spec fn visible(entries: Seq<PluginEntry>, chat: PluginSenario) -> Seq<PluginEntry>
    decreases entries.len(),
{
    if entries.len() == 0 {
        Seq::empty()
    } else if entries.last().senario.covers(chat) {
        visible(entries.drop_last(), chat).push(entries.last())
    } else {
        visible(entries.drop_last(), chat)
    }
}

/// The line that lists one handler.
pub open spec fn entry_line(entry: PluginEntry) -> Seq<char> {
    entry.name + ": "@ + entry.description + "\r\n"@
}

/// One line for each of `entries`, in their order.
pub open spec fn listing(entries: Seq<PluginEntry>) -> Seq<char>
    decreases entries.len(),
{
    if entries.len() == 0 {
        Seq::empty()
    } else {
        listing(entries.drop_last()) + entry_line(entries.last())
    }
}

/// The answer to `>help` without an argument in `chat`.
pub open spec fn overview(entries: Seq<PluginEntry>, chat: PluginSenario) -> Seq<char> {
    if visible(entries, chat).len() == 0 {
        usage_banner() + none_available_line()
    } else {
        usage_banner() + listing(visible(entries, chat))
    }
}

/// The first entry, from index `from` on, that is called `name` and offered
/// in `chat`.
pub open spec fn find_entry(entries: Seq<PluginEntry>, chat: PluginSenario, name: Seq<char>, from: int) -> Option<
    PluginEntry,
>
    decreases entries.len() - from,
{
    if from < 0 || from >= entries.len() {
        None
    } else if entries[from].name == name && entries[from].senario.covers(chat) {
        Some(entries[from])
    } else {
        find_entry(entries, chat, name, from + 1)
    }
}

/// What the help says of one handler: its name and description, a blank
/// line, and its usage text.
pub open spec fn entry_detail(entry: PluginEntry) -> Seq<char> {
    entry.name + ": "@ + entry.description + "\n\n"@ + entry.help
}

/// The answer to `>help <name>` in `chat`.
pub open spec fn detail(entries: Seq<PluginEntry>, chat: PluginSenario, name: Seq<char>) -> Seq<char> {
    match find_entry(entries, chat, name, 0) {
        Some(entry) => entry_detail(entry),
        None => not_found_line(),
    }
}

/// The answer to the help command in `chat`, where `content` is the
/// command's argument.
pub open spec fn help_answer(entries: Seq<PluginEntry>, chat: PluginSenario, content: Seq<char>) -> Seq<char> {
    if content.len() == 0 {
        overview(entries, chat)
    } else {
        detail(entries, chat, content)
    }
}

/// The reply to the help command in an event from `chat`, where `content`
/// is what the command pattern captured: sent to the user in a private chat
/// and to the group in a group chat, and to nobody where the command did not
/// match, the chat is unknown or its address is missing.
pub open spec fn help_reply(
    entries: Seq<PluginEntry>,
    chat: Option<PluginSenario>,
    user_id: Option<i64>,
    group_id: Option<i64>,
    content: Option<Seq<char>>,
) -> Option<ApiRequestView> {
    match (content, chat) {
        (Some(c), Some(PluginSenario::Private)) => match user_id {
            Some(u) => Some(
                ApiRequestView::SendMsg { user_id: u, message: help_answer(entries, PluginSenario::Private, c) },
            ),
            None => None,
        },
        (Some(c), Some(PluginSenario::Group)) => match group_id {
            Some(g) => Some(
                ApiRequestView::SendGroupMsg {
                    group_id: g,
                    message: help_answer(entries, PluginSenario::Group, c),
                },
            ),
            None => None,
        },
        _ => None,
    }
}

/// Whether `event` asks for help: a message from a private chat with its
/// user, or from a group chat with its group, whose text the help pattern
/// matches.
pub open spec fn help_asked(event: &CQEvent) -> bool {
    &&& match event.spec_chat() {
        Some(PluginSenario::Private) => event.user_id is Some,
        Some(PluginSenario::Group) => event.group_id is Some,
        _ => false,
    }
    &&& match event.raw_message {
        Some(msg) => regex_is_match(help_pattern(), msg@) == Some(true),
        None => false,
    }
}

/// What the help handler replies to `event`.
pub open spec fn help_reaction(entries: Seq<PluginEntry>, event: &CQEvent) -> Option<ApiRequestView> {
    match event.raw_message {
        Some(msg) if event.is_message() => help_reply(
            entries,
            event.spec_chat(),
            event.user_id,
            event.group_id,
            captured(help_pattern(), msg@, "$content"@),
        ),
        _ => None,
    }
}

/// The view of an optional request.
pub open spec fn opt_request(r: Option<ApiRequest>) -> Option<ApiRequestView> {
    match r {
        Some(request) => Some(request@),
        None => None,
    }
}

/// Whether no two of `entries` have the same name.
pub open spec fn names_differ(entries: Seq<PluginEntry>) -> bool {
    forall|i: int, j: int| 0 <= i < j < entries.len() ==> entries[i].name != entries[j].name
}

/// Whether one of `entries` is called `name`.
pub open spec fn is_registered(entries: Seq<PluginEntry>, name: Seq<char>) -> bool {
    exists|i: int| 0 <= i < entries.len() && (#[trigger] entries[i]).name == name
}

/// Where names are unique, asking the help about a registered handler gives
/// that handler's entry where its scope covers the chat, and nothing
/// otherwise.
pub proof fn lemma_detail_finds_the_handler(entries: Seq<PluginEntry>, chat: PluginSenario, at: int, from: int)
    requires
        names_differ(entries),
        0 <= from <= at < entries.len(),
    ensures
        find_entry(entries, chat, entries[at].name, from) == if entries[at].senario.covers(chat) {
            Some(entries[at])
        } else {
            None
        },
    decreases entries.len() - from,
{
    if from < at {
        lemma_detail_finds_the_handler(entries, chat, at, from + 1);
    } else {
        lemma_no_entry_behind(entries, chat, at, at + 1);
    }
}

/// Where names are unique, no entry behind the one at `at` has its name.
proof fn lemma_no_entry_behind(entries: Seq<PluginEntry>, chat: PluginSenario, at: int, from: int)
    requires
        names_differ(entries),
        0 <= at < from <= entries.len(),
    ensures
        find_entry(entries, chat, entries[at].name, from) is None,
    decreases entries.len() - from,
{
    if from < entries.len() {
        lemma_no_entry_behind(entries, chat, at, from + 1);
    }
}

/// The overview lists exactly the handlers that are offered in the chat: an
/// entry is among the listed ones if and only if it is registered and its
/// scope covers the chat.
pub proof fn lemma_overview_lists_exactly(entries: Seq<PluginEntry>, chat: PluginSenario)
    ensures
        forall|e: PluginEntry|
            #[trigger] visible(entries, chat).contains(e) <==> entries.contains(e) && e.senario.covers(chat),
        visible(entries, chat).len() <= entries.len(),
    decreases entries.len(),
{
    if entries.len() > 0 {
        let rest = entries.drop_last();
        let last = entries.last();
        lemma_overview_lists_exactly(rest, chat);
        assert forall|e: PluginEntry|
            #[trigger] visible(entries, chat).contains(e) <==> entries.contains(e) && e.senario.covers(chat) by {
            if visible(entries, chat).contains(e) {
                let k = choose|k: int| 0 <= k < visible(entries, chat).len() && visible(entries, chat)[k] == e;
                if last.senario.covers(chat) && k == visible(rest, chat).len() {
                    assert(entries[entries.len() - 1] == e);
                } else {
                    assert(visible(rest, chat)[k] == e);
                    assert(visible(rest, chat).contains(e));
                    let j = choose|j: int| 0 <= j < rest.len() && rest[j] == e;
                    assert(entries[j] == e);
                }
            }
            if entries.contains(e) && e.senario.covers(chat) {
                let j = choose|j: int| 0 <= j < entries.len() && entries[j] == e;
                if j == entries.len() - 1 {
                    assert(visible(entries, chat)[visible(rest, chat).len() as int] == e);
                } else {
                    assert(rest[j] == e);
                    assert(rest.contains(e));
                    assert(visible(rest, chat).contains(e));
                    let k = choose|k: int| 0 <= k < visible(rest, chat).len() && visible(rest, chat)[k] == e;
                    assert(visible(entries, chat)[k] == e);
                }
            }
        }
    }
}

/// The answer to `>help` without an argument in `chat`.
pub fn help_overview(plugins: &Vec<AnyPlugin>, chat: PluginSenario) -> (r: String)
    ensures
        r@ == overview(entries_of(plugins@), chat),
{
    let ghost entries = entries_of(plugins@);
    let mut resp = String::new();
    let mut i: usize = 0;
    while i < plugins.len()
        invariant
            i <= plugins@.len(),
            entries == entries_of(plugins@),
            resp@ == listing(visible(entries.take(i as int), chat)),
        decreases plugins@.len() - i,
    {
        let plugin = &plugins[i];
        proof {
            assert(entries.take(i + 1).drop_last() == entries.take(i as int));
            assert(entries.take(i + 1).last() == plugin.entry());
        }
        if plugin.senario().is_available_in(chat) {
            let ghost before = visible(entries.take(i as int), chat);
            proof {
                assert(before.push(plugin.entry()).drop_last() == before);
            }
            resp.append(plugin.name());
            resp.append(": ");
            resp.append(plugin.description());
            resp.append("\r\n");
            assert(resp@ == listing(before) + entry_line(plugin.entry()));
        }
        i = i + 1;
    }
    proof {
        assert(entries.take(plugins@.len() as int) == entries);
        lemma_listing_is_empty(visible(entries, chat));
    }
    let mut out = String::from_str("用法:\r\n>help [插件名]\r\n\r\n插件列表:\r\n");
    if resp.as_str().is_empty() {
        out.append("没有可用的插件");
    } else {
        out.append(resp.as_str());
    }
    out
}

/// A listing is empty only where nothing is listed.
pub proof fn lemma_listing_is_empty(entries: Seq<PluginEntry>)
    ensures
        listing(entries).len() == 0 <==> entries.len() == 0,
{
    reveal_strlit(": ");
    if entries.len() > 0 {
        assert(entry_line(entries.last()).len() >= 2);
    }
}

/// The answer to `>help <name>` in `chat`.
pub fn help_detail(plugins: &Vec<AnyPlugin>, chat: PluginSenario, name: &str) -> (r: String)
    ensures
        r@ == detail(entries_of(plugins@), chat, name@),
{
    let ghost entries = entries_of(plugins@);
    let mut i: usize = 0;
    while i < plugins.len()
        invariant
            i <= plugins@.len(),
            entries == entries_of(plugins@),
            find_entry(entries, chat, name@, 0) == find_entry(entries, chat, name@, i as int),
        decreases plugins@.len() - i,
    {
        let plugin = &plugins[i];
        if plugin.senario().is_available_in(chat) && text_eq(plugin.name(), name) {
            let mut resp = String::from_str(plugin.name());
            resp.append(": ");
            resp.append(plugin.description());
            resp.append("\n\n");
            resp.append(plugin.help());
            return resp;
        }
        i = i + 1;
    }
    String::from_str("未找到插件或插件不可用")
}

/// The answer to the help command in `chat`, where `content` is the
/// command's argument.
pub fn help_text(plugins: &Vec<AnyPlugin>, chat: PluginSenario, content: &str) -> (r: String)
    ensures
        r@ == help_answer(entries_of(plugins@), chat, content@),
{
    if content.is_empty() {
        help_overview(plugins, chat)
    } else {
        help_detail(plugins, chat, content)
    }
}

/// The reply to the help command in an event from `chat`, where `content`
/// is what the command pattern captured.
pub fn help_request(
    plugins: &Vec<AnyPlugin>,
    chat: Option<PluginSenario>,
    user_id: Option<i64>,
    group_id: Option<i64>,
    content: Option<String>,
) -> (r: Option<ApiRequest>)
    ensures
        opt_request(r) == help_reply(entries_of(plugins@), chat, user_id, group_id, opt_text(content)),
{
    match (content, chat) {
        (Some(c), Some(PluginSenario::Private)) => match user_id {
            Some(u) => {
                let text = help_text(plugins, PluginSenario::Private, c.as_str());
                Some(send_private(u, text.as_str()))
            },
            None => None,
        },
        (Some(c), Some(PluginSenario::Group)) => match group_id {
            Some(g) => {
                let text = help_text(plugins, PluginSenario::Group, c.as_str());
                Some(send_group(g, text.as_str()))
            },
            None => None,
        },
        _ => None,
    }
}

/// What the help handler replies to `event`.
pub fn handle_help(plugins: &Vec<AnyPlugin>, event: &CQEvent) -> (r: Option<ApiRequest>)
    ensures
        opt_request(r) == help_reaction(entries_of(plugins@), event),
        r is Some <==> help_asked(event),
{
    if !event.is_message_event() {
        return None;
    }
    match &event.raw_message {
        Some(msg) => {
            let content = capture(r"^(?P<cmd>>help)($|\s+(?P<content>.*)$)", msg.as_str(), "$content");
            help_request(plugins, event.chat(), event.user_id, event.group_id, content)
        },
        None => None,
    }
}

} // verus!
