//! `>sauce <image>`: looks the image up in a reverse image search and
//! reports what was found.

use vstd::prelude::*;
use vstd::string::StringExecFns;
use crate::gateway::{copy_request, send_group, views_of, ApiRequest, ApiRequestView};
use crate::matching::{capture, captured, join, joined, opt_text, regex_is_match};
use crate::models::{CQEvent, Plugin, PluginEntry, PluginSenario};
use crate::plugins::{Outcome, Step, StepView, Task, TaskView};

verus! {

/// The key for the search service.
#[derive(Clone, Debug, Default)]
pub struct SaucePluginConfig {
    pub api_key: Option<String>,
}

/// Where the handler stands with the search in flight.
#[derive(Clone, Copy, Debug, PartialEq, Eq, Structural)]
pub enum SaucePhase {
    /// No search is in flight.
    Idle,
    /// The search is under way; its report goes to this group.
    Searching { group_id: i64 },
    /// The report is being sent: the message before `next` is under way.
    Sending { next: usize },
}

/// The image-search handler, with the messages of the report in flight.
#[derive(Clone, Debug)]
pub struct SaucePlugin {
    pub config: SaucePluginConfig,
    pub phase: SaucePhase,
    pub queue: Vec<ApiRequest>,
}

/// One hit of the search.
#[derive(Clone, Debug, PartialEq, Eq)]
pub struct SauceResult {
    pub similarity: String,
    pub thumbnail: String,
    pub ext_urls: Option<Vec<String>>,
}

/// The command's pattern: the image's address is its group `img_url`.
pub open spec fn sauce_pattern() -> Seq<char> {
    r"^>sauce\s*\[CQ:image,[^\]]*url=(?P<img_url>[^,\]]+)[^\]]*\]\s*$"@
}

/// The reply to a search without hits.
pub open spec fn no_result_line() -> Seq<char> {
    "没有找到结果"@
}

/// The addresses of a hit, one per line.
pub open spec fn hit_urls(hit: &SauceResult) -> Seq<char> {
    match hit.ext_urls {
        Some(urls) => joined(urls@, "\r\n"@, urls@.len() as int),
        None => Seq::empty(),
    }
}

/// The message that reports one hit.
pub open spec fn hit_text(hit: &SauceResult) -> Seq<char> {
    "相似度 "@ + hit.similarity@ + "\r\n[CQ:image,file="@ + hit.thumbnail@ + "]\r\n"@ + hit_urls(hit)
}

/// What the handler wants for a message from which the command pattern
/// captured `img_url`: the search task, or failure where no key is
/// configured.
pub open spec fn sauce_step(api_key: Option<String>, group_id: Option<i64>, img_url: Option<Seq<char>>) -> StepView {
    match (group_id, img_url) {
        (Some(g), Some(url)) => match api_key {
            Some(key) => StepView::Run(TaskView::Sauce { api_key: key@, img_url: url }),
            None => StepView::Failed,
        },
        _ => StepView::Done,
    }
}

/// Whether `event` carries the command: a group message with a text that
/// the command pattern matches, and with a group to reply to.
pub open spec fn sauce_asked(event: &CQEvent) -> bool {
    event.is_group_message() && event.group_id is Some && match event.raw_message {
        Some(msg) => regex_is_match(sauce_pattern(), msg@) == Some(true),
        None => false,
    }
}

/// What the handler with the key `api_key` wants when `event` is offered.
pub open spec fn sauce_reaction(api_key: Option<String>, event: &CQEvent) -> StepView {
    match event.raw_message {
        Some(msg) if event.is_group_message() => sauce_step(
            api_key,
            event.group_id,
            captured(sauce_pattern(), msg@, "$img_url"@),
        ),
        _ => StepView::Done,
    }
}

/// The phase that `event` puts the handler with the key `api_key` in.
pub open spec fn sauce_began(api_key: Option<String>, event: &CQEvent) -> SaucePhase {
    if sauce_reaction(api_key, event) is Run && event.group_id is Some {
        SaucePhase::Searching { group_id: event.group_id->0 }
    } else {
        SaucePhase::Idle
    }
}

/// The messages that report the hits `results` to the group: one per hit,
/// in order, or a single line where there is none.
pub open spec fn hit_requests(group_id: i64, results: Seq<SauceResult>) -> Seq<ApiRequestView> {
    if results.len() == 0 {
        seq![ApiRequestView::SendGroupMsg { group_id, message: no_result_line() }]
    } else {
        Seq::new(results.len(), |i: int| ApiRequestView::SendGroupMsg { group_id, message: hit_text(&results[i]) })
    }
}

/// The phase after `outcome` came back: the hits start the report, each
/// delivered message lets the next follow, and anything else ends it.
pub open spec fn sauce_resumed(phase: SaucePhase, queue: Seq<ApiRequestView>, outcome: Outcome) -> SaucePhase {
    match (phase, outcome) {
        (SaucePhase::Searching { group_id }, Outcome::Hits(results)) => SaucePhase::Sending { next: 1 },
        (SaucePhase::Sending { next }, Outcome::Delivered) => if next < queue.len() {
            SaucePhase::Sending { next: (next + 1) as usize }
        } else {
            SaucePhase::Idle
        },
        _ => SaucePhase::Idle,
    }
}

/// The messages of the report after `outcome` came back.
pub open spec fn sauce_queued(phase: SaucePhase, queue: Seq<ApiRequestView>, outcome: Outcome) -> Seq<
    ApiRequestView,
> {
    match (phase, outcome) {
        (SaucePhase::Searching { group_id }, Outcome::Hits(results)) => hit_requests(group_id, results@),
        (SaucePhase::Sending { next }, Outcome::Delivered) => if next < queue.len() {
            queue
        } else {
            Seq::empty()
        },
        _ => Seq::empty(),
    }
}

/// What the handler wants after `outcome` came back: the first message of
/// the report once the hits are there, the next message once one was
/// delivered, nothing more after the last. It gives up on anything else.
pub open spec fn sauce_conclusion(phase: SaucePhase, queue: Seq<ApiRequestView>, outcome: Outcome) -> StepView {
    match (phase, outcome) {
        (SaucePhase::Idle, _) => StepView::Done,
        (SaucePhase::Searching { group_id }, Outcome::Hits(results)) => StepView::Call(
            hit_requests(group_id, results@)[0],
        ),
        (SaucePhase::Sending { next }, Outcome::Delivered) => if next < queue.len() {
            StepView::Call(queue[next as int])
        } else {
            StepView::Done
        },
        _ => StepView::Failed,
    }
}

/// The address of the search service.
pub open spec fn search_address() -> Seq<char> {
    "https://saucenao.com/search.php"@
}

/// Whether the parameter at index `i` of `query` is `key` with `value`.
pub open spec fn is_parameter(query: Seq<(String, String)>, i: int, key: Seq<char>, value: Seq<char>) -> bool {
    query[i].0@ == key && query[i].1@ == value
}

/// The address of the search service.
pub fn sauce_endpoint() -> (r: &'static str)
    ensures
        r@ == search_address(),
{
    "https://saucenao.com/search.php"
}

/// The parameters of a search for the image at `img_url`: every index of
/// the service, answers in its second format, one hit.
pub fn sauce_query(api_key: &str, img_url: &str) -> (r: Vec<(String, String)>)
    ensures
        r@.len() == 5,
        is_parameter(r@, 0, "db"@, "999"@),
        is_parameter(r@, 1, "output_type"@, "2"@),
        is_parameter(r@, 2, "numres"@, "1"@),
        is_parameter(r@, 3, "api_key"@, api_key@),
        is_parameter(r@, 4, "url"@, img_url@),
{
    let mut query: Vec<(String, String)> = Vec::new();
    query.push((String::from_str("db"), String::from_str("999")));
    query.push((String::from_str("output_type"), String::from_str("2")));
    query.push((String::from_str("numres"), String::from_str("1")));
    query.push((String::from_str("api_key"), String::from_str(api_key)));
    query.push((String::from_str("url"), String::from_str(img_url)));
    query
}

/// The message that reports one hit.
pub fn sauce_line(hit: &SauceResult) -> (r: String)
    ensures
        r@ == hit_text(hit),
{
    let mut out = String::from_str("相似度 ");
    out.append(hit.similarity.as_str());
    out.append("\r\n[CQ:image,file=");
    out.append(hit.thumbnail.as_str());
    out.append("]\r\n");
    match &hit.ext_urls {
        Some(urls) => {
            let lines = join(urls, "\r\n");
            out.append(lines.as_str());
        },
        None => {
            assert(out@ + Seq::<char>::empty() == out@);
        },
    }
    out
}

/// The messages that report the hits of a search to the group: one per hit,
/// in order, or a single line where there is none.
pub fn sauce_replies(group_id: i64, results: &Vec<SauceResult>) -> (r: Vec<ApiRequest>)
    ensures
        views_of(r@) == hit_requests(group_id, results@),
        r@.len() >= 1,
{
    let mut out: Vec<ApiRequest> = Vec::new();
    if results.len() == 0 {
        out.push(send_group(group_id, "没有找到结果"));
        assert(views_of(out@) =~= hit_requests(group_id, results@));
        return out;
    }
    let mut i: usize = 0;
    while i < results.len()
        invariant
            i <= results@.len(),
            out@.len() == i,
            forall|j: int|
                0 <= j < i ==> (#[trigger] out@[j])@ == (ApiRequestView::SendGroupMsg {
                    group_id,
                    message: hit_text(&results@[j]),
                }),
        decreases results@.len() - i,
    {
        let line = sauce_line(&results[i]);
        out.push(send_group(group_id, line.as_str()));
        i = i + 1;
    }
    assert(views_of(out@) =~= hit_requests(group_id, results@));
    out
}

impl SaucePlugin {
    /// A handler with the given key, or with none, and no search in flight.
    pub fn new(config: Option<SaucePluginConfig>) -> (r: SaucePlugin)
        ensures
            match config {
                Some(c) => r.config == c,
                None => r.config.api_key is None,
            },
            r.phase == SaucePhase::Idle,
            r.queue@.len() == 0,
    {
        SaucePlugin {
            config: match config {
                Some(c) => c,
                None => SaucePluginConfig { api_key: None },
            },
            phase: SaucePhase::Idle,
            queue: Vec::new(),
        }
    }

    /// Asks for the search of the image at `img_url`.
    pub fn sauce(&self, group_id: Option<i64>, img_url: Option<String>) -> (r: Step)
        ensures
            r@ == sauce_step(self.config.api_key, group_id, opt_text(img_url)),
    {
        match (group_id, img_url) {
            (Some(g), Some(url)) => match &self.config.api_key {
                Some(key) => Step::Run(Task::Sauce { api_key: key.clone(), img_url: url }),
                None => Step::Failed,
            },
            _ => Step::Done,
        }
    }

    /// Offers `event` to the handler.
    pub fn begin(&mut self, event: &CQEvent) -> (r: Step)
        ensures
            final(self).config == old(self).config,
            final(self).phase == sauce_began(old(self).config.api_key, event),
            final(self).queue@.len() == 0,
            r@ == sauce_reaction(old(self).config.api_key, event),
            !(r@ is Done) <==> sauce_asked(event),
            !(r@ is Call),
            r@ is Failed ==> old(self).config.api_key is None,
    {
        self.phase = SaucePhase::Idle;
        self.queue = Vec::new();
        if !event.is_group_message_event() {
            return Step::Done;
        }
        match &event.raw_message {
            Some(msg) => {
                let url = capture(
                    r"^>sauce\s*\[CQ:image,[^\]]*url=(?P<img_url>[^,\]]+)[^\]]*\]\s*$",
                    msg.as_str(),
                    "$img_url",
                );
                let step = self.sauce(event.group_id, url);
                match (&step, event.group_id) {
                    (Step::Run(_), Some(group_id)) => {
                        self.phase = SaucePhase::Searching { group_id };
                    },
                    _ => {},
                }
                step
            },
            None => Step::Done,
        }
    }

    /// Tells the handler what came back for the search or the message it
    /// waited for.
    pub fn resume(&mut self, outcome: &Outcome) -> (r: Step)
        ensures
            final(self).config == old(self).config,
            final(self).phase == sauce_resumed(old(self).phase, views_of(old(self).queue@), *outcome),
            views_of(final(self).queue@) == sauce_queued(old(self).phase, views_of(old(self).queue@), *outcome),
            r@ == sauce_conclusion(old(self).phase, views_of(old(self).queue@), *outcome),
    {
        let phase = self.phase;
        self.phase = SaucePhase::Idle;
        match (phase, outcome) {
            (SaucePhase::Idle, _) => {
                self.queue = Vec::new();
                assert(views_of(self.queue@) =~= Seq::<ApiRequestView>::empty());
                Step::Done
            },
            (SaucePhase::Searching { group_id }, Outcome::Hits(results)) => {
                self.queue = sauce_replies(group_id, results);
                self.phase = SaucePhase::Sending { next: 1 };
                Step::Call(copy_request(&self.queue[0]))
            },
            (SaucePhase::Sending { next }, Outcome::Delivered) => {
                if next < self.queue.len() {
                    self.phase = SaucePhase::Sending { next: next + 1 };
                    Step::Call(copy_request(&self.queue[next]))
                } else {
                    self.queue = Vec::new();
                    assert(views_of(self.queue@) =~= Seq::<ApiRequestView>::empty());
                    Step::Done
                }
            },
            _ => {
                self.queue = Vec::new();
                assert(views_of(self.queue@) =~= Seq::<ApiRequestView>::empty());
                Step::Failed
            },
        }
    }
}

impl Plugin for SaucePlugin {
    open spec fn entry(&self) -> PluginEntry {
        PluginEntry {
            name: "sauce"@,
            description: "SauceNAO以图搜图"@,
            help: "用法:\r\n>sauce <图片>"@,
            senario: PluginSenario::Group,
        }
    }

    fn name(&self) -> &'static str {
        "sauce"
    }

    fn description(&self) -> &'static str {
        "SauceNAO以图搜图"
    }

    fn help(&self) -> &'static str {
        "用法:\r\n>sauce <图片>"
    }

    fn senario(&self) -> PluginSenario {
        PluginSenario::Group
    }

    open spec fn handles(&self, event: &CQEvent, now: i64, next: &Self, step: StepView) -> bool {
        next.config == self.config && next.phase == sauce_began(self.config.api_key, event) && next.queue@.len() == 0
            && step == sauce_reaction(self.config.api_key, event)
    }

    open spec fn follows(&self, outcome: Outcome, now: i64, next: &Self, step: StepView) -> bool {
        next.config == self.config && next.phase == sauce_resumed(self.phase, views_of(self.queue@), outcome)
            && views_of(next.queue@) == sauce_queued(self.phase, views_of(self.queue@), outcome) && step
            == sauce_conclusion(self.phase, views_of(self.queue@), outcome)
    }

    fn handle(&mut self, event: &CQEvent, now: i64) -> (r: Step) {
        self.begin(event)
    }

    fn follow_up(&mut self, outcome: &Outcome, now: i64) -> (r: Step) {
        self.resume(outcome)
    }
}

} // verus!
