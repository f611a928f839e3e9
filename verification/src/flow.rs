//! From an address to a saved adapter: the server is searched, the user chooses, and where nothing
//! fits a new adapter is generated. The work is done outside; what is done next is decided here.

use vstd::prelude::*;
use vstd::string::*;

use crate::adapters::{
    chosen_match, field_or, first_named, full_address, full_url, label_of, labels_of, match_views,
    option_labels, regenerate_label, yaml_field, AdapterMatch, MatchView, REGENERATE_MARK,
};
use crate::http::{CallEvent, CallStage, FORBIDDEN};
use crate::json::text_view;
use crate::language::Language;
use crate::page::opt_text;
use crate::report::{
    error_lines, line_views, print_error, report_token_expired, report_token_missing,
    token_expired, token_missing, Line, LineView,
};
use crate::server::{
    found_view, require_token, upload_accepts, upload_next, usable, UploadProgress,
    UploadProgressView,
};
use crate::text::{starts_with, strip_prefix, views};

verus! {

/// What the user has asked for.
#[derive(Debug, Clone, Copy, PartialEq, Eq, Structural)]
pub enum Purpose {
    /// An adapter that the server has.
    Search,
    /// An adapter that is made by fixed rules.
    GenerateByRules,
    /// An adapter that the server has, or else one that a model makes.
    GenerateByAi,
}

/// What a flow does on its way.
#[derive(Debug, PartialEq, Eq)]
pub enum Effect {
    Say(Line),
    ClosePage,
    Save { site: String, name: String, yaml: String },
}

/// The mathematical value of an [`Effect`].
pub ghost enum EffectView {
    Say(LineView),
    ClosePage,
    Save { site: Seq<char>, name: Seq<char>, yaml: Seq<char> },
}

impl View for Effect {
    type V = EffectView;

    open spec fn view(&self) -> EffectView {
        match self {
            Effect::Say(line) => EffectView::Say(line@),
            Effect::ClosePage => EffectView::ClosePage,
            Effect::Save { site, name, yaml } => EffectView::Save {
                site: site@,
                name: name@,
                yaml: yaml@,
            },
        }
    }
}

pub open spec fn effect_views(effects: Seq<Effect>) -> Seq<EffectView> {
    effects.map_values(|effect: Effect| effect@)
}

/// Where a flow stands.
#[derive(Debug, PartialEq, Eq)]
pub enum FlowStage {
    /// The server is searched.
    Searching,
    /// The user chooses one of the adapters.
    Choosing(Vec<AdapterMatch>),
    /// An adapter is fetched, which the server calls by these names.
    Fetching { site: String, name: String },
    /// An adapter is generated.
    Generating,
    /// An adapter is uploaded.
    Uploading,
}

/// The mathematical value of a [`FlowStage`].
pub ghost enum FlowStageView {
    Searching,
    Choosing(Seq<MatchView>),
    Fetching { site: Seq<char>, name: Seq<char> },
    Generating,
    Uploading,
}

impl View for FlowStage {
    type V = FlowStageView;

    open spec fn view(&self) -> FlowStageView {
        match self {
            FlowStage::Searching => FlowStageView::Searching,
            FlowStage::Choosing(list) => FlowStageView::Choosing(match_views(list@)),
            FlowStage::Fetching { site, name } => FlowStageView::Fetching {
                site: site@,
                name: name@,
            },
            FlowStage::Generating => FlowStageView::Generating,
            FlowStage::Uploading => FlowStageView::Uploading,
        }
    }
}

/// What a flow asks for.
#[derive(Debug, PartialEq, Eq)]
pub enum FlowAction {
    /// Search the server for adapters of an address.
    Search { url: String },
    /// Let the user choose one of the lines.
    Select { prompt: String, options: Vec<String> },
    /// Fetch the adapter with this id.
    Fetch { uuid: String },
    /// Generate an adapter that reaches the goal.
    Generate { goal: String },
    /// Upload an adapter.
    Upload { yaml: String },
}

/// The mathematical value of a [`FlowAction`].
pub ghost enum FlowActionView {
    Search { url: Seq<char> },
    Select { prompt: Seq<char>, options: Seq<Seq<char>> },
    Fetch { uuid: Seq<char> },
    Generate { goal: Seq<char> },
    Upload { yaml: Seq<char> },
}

impl View for FlowAction {
    type V = FlowActionView;

    open spec fn view(&self) -> FlowActionView {
        match self {
            FlowAction::Search { url } => FlowActionView::Search { url: url@ },
            FlowAction::Select { prompt, options } => FlowActionView::Select {
                prompt: prompt@,
                options: views(options@),
            },
            FlowAction::Fetch { uuid } => FlowActionView::Fetch { uuid: uuid@ },
            FlowAction::Generate { goal } => FlowActionView::Generate { goal: goal@ },
            FlowAction::Upload { yaml } => FlowActionView::Upload { yaml: yaml@ },
        }
    }
}

/// What comes of it.
#[derive(Debug, PartialEq, Eq)]
pub enum FlowEvent {
    /// The search has ended.
    Found(Result<Vec<AdapterMatch>, String>),
    /// The server refuses the token.
    Expired,
    /// The user has chosen a line.
    Chosen(String),
    /// The user has chosen nothing.
    Cancelled,
    /// The fetching has ended.
    Config(Result<String, String>),
    /// An adapter was generated.
    Adapter { site: String, name: String, yaml: String },
    /// No adapter was generated.
    Failed { icon: String, shown: String, suggestions: Vec<String> },
    /// There is no token to upload with.
    NoToken,
    /// The upload has ended, and this is said of it.
    Uploaded(Vec<Line>),
}

/// The mathematical value of a [`FlowEvent`].
pub ghost enum FlowEventView {
    Found(Result<Seq<MatchView>, Seq<char>>),
    Expired,
    Chosen(Seq<char>),
    Cancelled,
    Config(Result<Seq<char>, Seq<char>>),
    Adapter { site: Seq<char>, name: Seq<char>, yaml: Seq<char> },
    Failed { icon: Seq<char>, shown: Seq<char>, suggestions: Seq<Seq<char>> },
    NoToken,
    Uploaded(Seq<LineView>),
}

impl View for FlowEvent {
    type V = FlowEventView;

    open spec fn view(&self) -> FlowEventView {
        match self {
            FlowEvent::Found(r) => FlowEventView::Found(found_view(*r)),
            FlowEvent::Expired => FlowEventView::Expired,
            FlowEvent::Chosen(line) => FlowEventView::Chosen(line@),
            FlowEvent::Cancelled => FlowEventView::Cancelled,
            FlowEvent::Config(r) => FlowEventView::Config(text_view(*r)),
            FlowEvent::Adapter { site, name, yaml } => FlowEventView::Adapter {
                site: site@,
                name: name@,
                yaml: yaml@,
            },
            FlowEvent::Failed { icon, shown, suggestions } => FlowEventView::Failed {
                icon: icon@,
                shown: shown@,
                suggestions: views(suggestions@),
            },
            FlowEvent::NoToken => FlowEventView::NoToken,
            FlowEvent::Uploaded(lines) => FlowEventView::Uploaded(line_views(lines@)),
        }
    }
}

/// How a flow goes on.
#[derive(Debug, PartialEq, Eq)]
pub enum FlowNext {
    Ask(FlowStage, FlowAction),
    /// The flow is over, and the program ends with this code.
    End(i32),
}

/// What a flow does, and how it goes on then.
#[derive(Debug, PartialEq, Eq)]
pub struct FlowProgress {
    pub effects: Vec<Effect>,
    pub next: FlowNext,
}

/// The mathematical value of a [`FlowNext`].
pub ghost enum FlowNextView {
    Ask(FlowStageView, FlowActionView),
    End(i32),
}

/// The mathematical value of a [`FlowProgress`].
pub ghost struct FlowProgressView {
    pub effects: Seq<EffectView>,
    pub next: FlowNextView,
}

impl View for FlowProgress {
    type V = FlowProgressView;

    open spec fn view(&self) -> FlowProgressView {
        FlowProgressView {
            effects: effect_views(self.effects@),
            next: match self.next {
                FlowNext::Ask(stage, action) => FlowNextView::Ask(stage@, action@),
                FlowNext::End(code) => FlowNextView::End(code),
            },
        }
    }
}

/// A flow: in which language it speaks, what it is for, and the goal that the user has named.
#[derive(Debug, PartialEq, Eq)]
pub struct Flow {
    pub language: Language,
    pub purpose: Purpose,
    pub goal: Option<String>,
}

pub open spec fn says(lines: Seq<LineView>) -> Seq<EffectView> {
    lines.map_values(|line: LineView| EffectView::Say(line))
}

pub open spec fn say(text: Seq<char>) -> EffectView {
    EffectView::Say(LineView::Note(text))
}

impl FlowStageView {
    /// The events that can come at this stage.
    pub open spec fn accepts(self, event: FlowEventView) -> bool {
        match event {
            FlowEventView::Found(_) => self is Searching,
            FlowEventView::Expired => self is Fetching || self is Uploading,
            FlowEventView::Chosen(_) | FlowEventView::Cancelled => self is Choosing,
            FlowEventView::Config(_) => self is Fetching,
            FlowEventView::Adapter { .. } | FlowEventView::Failed { .. } => self is Generating,
            FlowEventView::NoToken | FlowEventView::Uploaded(_) => self is Uploading,
        }
    }
}

/// The events that can come of an action.
pub open spec fn outcome_of(action: FlowActionView, event: FlowEventView) -> bool {
    match event {
        FlowEventView::Found(_) => action is Search,
        FlowEventView::Expired => action is Fetch || action is Upload,
        FlowEventView::Chosen(_) | FlowEventView::Cancelled => action is Select,
        FlowEventView::Config(_) => action is Fetch,
        FlowEventView::Adapter { .. } | FlowEventView::Failed { .. } => action is Generate,
        FlowEventView::NoToken | FlowEventView::Uploaded(_) => action is Upload,
    }
}

impl Flow {
    /// A flow that generates holds a page open.
    pub open spec fn has_page(self) -> bool {
        self.purpose != Purpose::Search
    }

    /// The closing of the page, where there is one.
    pub open spec fn closing(self) -> Seq<EffectView> {
        if self.has_page() {
            seq![EffectView::ClosePage]
        } else {
            Seq::empty()
        }
    }

    /// The goal of a new adapter. A model that is told none looks for what is hot.
    pub open spec fn goal_text(self) -> Seq<char> {
        match self.goal {
            Some(goal) => goal@,
            None => if self.purpose == Purpose::GenerateByAi {
                "hot"@
            } else {
                ""@
            },
        }
    }

    pub open spec fn generates(self, effects: Seq<EffectView>) -> FlowProgressView {
        FlowProgressView {
            effects,
            next: FlowNextView::Ask(
                FlowStageView::Generating,
                FlowActionView::Generate { goal: self.goal_text() },
            ),
        }
    }

    pub open spec fn ends(self, effects: Seq<EffectView>, code: i32) -> FlowProgressView {
        FlowProgressView { effects, next: FlowNextView::End(code) }
    }

    /// The lines that the user can choose.
    pub open spec fn choices(self, list: Seq<MatchView>) -> Seq<Seq<char>> {
        if self.has_page() {
            labels_of(list).push(regenerate_label(self.language))
        } else {
            labels_of(list)
        }
    }

    pub open spec fn prompt(self) -> Seq<char> {
        if self.has_page() {
            self.language.says(
                "找到以下已有配置，请选择:"@,
                "Existing adapters found, please select:"@,
            )
        } else {
            self.language.says("找到以下配置，请选择:"@, "Adapters found, please select:"@)
        }
    }

    /// How the flow begins. A flow by rules needs neither the server nor a token.
    pub open spec fn first(self, url: Seq<char>, token: Option<Seq<char>>) -> FlowProgressView {
        if self.purpose == Purpose::GenerateByRules {
            self.generates(Seq::empty())
        } else if !usable(token) {
            self.ends(says(token_missing(self.language)), 1)
        } else {
            FlowProgressView {
                effects: Seq::empty(),
                next: FlowNextView::Ask(
                    FlowStageView::Searching,
                    FlowActionView::Search {
                        url: if self.has_page() {
                            url
                        } else {
                            full_address(url)
                        },
                    },
                ),
            }
        }
    }

    pub open spec fn after_search(
        self,
        found: Result<Seq<MatchView>, Seq<char>>,
    ) -> FlowProgressView {
        match found {
            Err(e) => self.ends(seq![say(e)] + self.closing(), 1),
            Ok(list) => if list.len() > 0 {
                FlowProgressView {
                    effects: Seq::empty(),
                    next: FlowNextView::Ask(
                        FlowStageView::Choosing(list),
                        FlowActionView::Select {
                            prompt: self.prompt(),
                            options: self.choices(list),
                        },
                    ),
                }
            } else if self.has_page() {
                self.generates(
                    seq![
                        say(
                            self.language.says(
                                "📭 未找到已有配置，开始 AI 生成..."@,
                                "📭 No existing adapter found, starting AI generation..."@,
                            ),
                        ),
                    ],
                )
            } else {
                self.ends(
                    seq![
                        say(
                            self.language.says(
                                "📭 未找到匹配的配置"@,
                                "📭 No matching adapters found"@,
                            ),
                        ),
                    ],
                    0,
                )
            },
        }
    }

    pub open spec fn after_choice(self, list: Seq<MatchView>, chosen: Seq<char>) -> FlowProgressView {
        if self.has_page() && strip_prefix(chosen, REGENERATE_MARK@) is Some {
            self.generates(Seq::empty())
        } else {
            match first_named(list, chosen) {
                Some(i) => FlowProgressView {
                    effects: seq![
                        say(
                            self.language.says("📥 正在下载配置..."@, "📥 Downloading config..."@),
                        ),
                    ],
                    next: FlowNextView::Ask(
                        FlowStageView::Fetching { site: list[i].site_name, name: list[i].cmd_name },
                        FlowActionView::Fetch { uuid: list[i].command_uuid },
                    ),
                },
                None => if self.has_page() {
                    self.generates(Seq::empty())
                } else {
                    self.ends(Seq::empty(), 0)
                },
            }
        }
    }

    /// An adapter is saved under the names that it gives itself; where it gives none, under those
    /// that the server calls it by.
    pub open spec fn after_fetch(
        self,
        site: Seq<char>,
        name: Seq<char>,
        config: Result<Seq<char>, Seq<char>>,
    ) -> FlowProgressView {
        match config {
            Ok(yaml) => self.ends(
                seq![
                    EffectView::Save {
                        site: field_or(yaml, "site:"@, site),
                        name: field_or(yaml, "name:"@, name),
                        yaml,
                    },
                ] + self.closing(),
                0,
            ),
            Err(e) => self.ends(
                seq![say(e)] + self.closing(),
                if self.has_page() {
                    1
                } else {
                    0
                },
            ),
        }
    }

    /// What an event makes of the flow.
    pub open spec fn next(self, stage: FlowStageView, event: FlowEventView) -> FlowProgressView {
        match event {
            FlowEventView::Found(found) => self.after_search(found),
            FlowEventView::Expired => self.ends(says(token_expired(self.language)), 1),
            FlowEventView::Chosen(chosen) => self.after_choice(stage->Choosing_0, chosen),
            FlowEventView::Cancelled => self.ends(
                seq![say(self.language.says("已取消"@, "Cancelled"@))] + self.closing(),
                0,
            ),
            FlowEventView::Config(config) => self.after_fetch(stage->site, stage->name, config),
            FlowEventView::Adapter { site, name, yaml } => FlowProgressView {
                effects: self.closing() + seq![EffectView::Save { site, name, yaml }],
                next: if self.purpose == Purpose::GenerateByAi {
                    FlowNextView::Ask(FlowStageView::Uploading, FlowActionView::Upload { yaml })
                } else {
                    FlowNextView::End(0)
                },
            },
            FlowEventView::Failed { icon, shown, suggestions } => self.ends(
                self.closing() + says(error_lines(icon, shown, suggestions)),
                1,
            ),
            FlowEventView::NoToken => self.ends(says(token_missing(self.language)), 1),
            FlowEventView::Uploaded(lines) => self.ends(says(lines), 0),
        }
    }
}

fn push_effect(effects: &mut Vec<Effect>, effect: Effect)
    ensures
        effect_views(final(effects)@) == effect_views(old(effects)@).push(effect@),
{
    effects.push(effect);
    proof {
        assert(effect_views(effects@) =~= effect_views(old(effects)@).push(effect@));
    }
}

fn add_note(effects: &mut Vec<Effect>, text: &str)
    ensures
        effect_views(final(effects)@) == effect_views(old(effects)@).push(say(text@)),
{
    push_effect(effects, Effect::Say(Line::Note(text.to_owned())));
}

fn add_lines(effects: &mut Vec<Effect>, lines: Vec<Line>)
    ensures
        effect_views(final(effects)@) == effect_views(old(effects)@) + says(line_views(lines@)),
{
    let ghost before = effect_views(effects@);
    let ghost all = says(line_views(lines@));
    proof {
        assert(before + all.take(0) =~= before);
    }
    for line in iter: lines
        invariant
            iter.seq() == lines@,
            all == says(line_views(lines@)),
            effect_views(effects@) == before + all.take(iter.index()),
    {
        push_effect(effects, Effect::Say(line));
        proof {
            assert(before + all.take(iter.index() + 1) =~= (before + all.take(iter.index())).push(
                EffectView::Say(line@),
            ));
        }
    }
    proof {
        assert(all.take(lines@.len() as int) =~= all);
    }
}

impl Flow {
    fn close(&self, effects: &mut Vec<Effect>)
        ensures
            effect_views(final(effects)@) == effect_views(old(effects)@) + self.closing(),
    {
        match self.purpose {
            Purpose::Search => {
                proof {
                    assert(effect_views(effects@) =~= effect_views(effects@) + self.closing());
                }
            },
            _ => {
                push_effect(effects, Effect::ClosePage);
                proof {
                    assert(effect_views(effects@) =~= effect_views(old(effects)@)
                        + self.closing());
                }
            },
        }
    }

    fn holds_page(&self) -> (r: bool)
        ensures
            r == self.has_page(),
    {
        match self.purpose {
            Purpose::Search => false,
            _ => true,
        }
    }

    fn uses_ai(&self) -> (r: bool)
        ensures
            r == (self.purpose == Purpose::GenerateByAi),
    {
        match self.purpose {
            Purpose::GenerateByAi => true,
            _ => false,
        }
    }

    /// Asks for a new adapter.
    fn generate(&self, effects: Vec<Effect>) -> (r: FlowProgress)
        ensures
            r@ == self.generates(effect_views(effects@)),
    {
        let goal = match &self.goal {
            Some(goal) => goal.as_str().to_owned(),
            None => if self.uses_ai() {
                "hot".to_owned()
            } else {
                "".to_owned()
            },
        };
        FlowProgress {
            effects,
            next: FlowNext::Ask(FlowStage::Generating, FlowAction::Generate { goal }),
        }
    }

    /// Begins the flow for an address that the user has given.
    pub fn start(&self, url: &str, token: Option<String>) -> (r: FlowProgress)
        ensures
            r@ == self.first(url@, opt_text(token)),
    {
        let mut effects: Vec<Effect> = Vec::new();
        proof {
            assert(effect_views(effects@) =~= Seq::empty());
        }
        match self.purpose {
            Purpose::GenerateByRules => {
                return self.generate(effects);
            },
            _ => {},
        }
        match require_token(self.language, token) {
            Err(lines) => {
                add_lines(&mut effects, lines);
                proof {
                    assert(effect_views(effects@) =~= says(token_missing(self.language)));
                }
                FlowProgress { effects, next: FlowNext::End(1) }
            },
            Ok(_) => {
                let url = if self.holds_page() {
                    url.to_owned()
                } else {
                    full_url(url)
                };
                FlowProgress {
                    effects,
                    next: FlowNext::Ask(FlowStage::Searching, FlowAction::Search { url }),
                }
            },
        }
    }

    fn searched(&self, found: Result<Vec<AdapterMatch>, String>) -> (r: FlowProgress)
        ensures
            r@ == self.after_search(found_view(found)),
    {
        let mut effects: Vec<Effect> = Vec::new();
        proof {
            assert(effect_views(effects@) =~= Seq::empty());
        }
        match found {
            Err(e) => {
                add_note(&mut effects, e.as_str());
                proof {
                    assert(effect_views(effects@) =~= seq![say(e@)]);
                }
                self.close(&mut effects);
                FlowProgress { effects, next: FlowNext::End(1) }
            },
            Ok(list) => {
                if list.len() > 0 {
                    let mut options = option_labels(&list);
                    let ghost labels = views(options@);
                    let prompt = if self.holds_page() {
                        options.push(
                            self.language.t(
                                "🔄 重新生成 (使用 AI 分析)",
                                "🔄 Regenerate (using AI)",
                            ).to_owned(),
                        );
                        proof {
                            assert(views(options@) =~= labels.push(
                                regenerate_label(self.language),
                            ));
                        }
                        self.language.t(
                            "找到以下已有配置，请选择:",
                            "Existing adapters found, please select:",
                        )
                    } else {
                        self.language.t("找到以下配置，请选择:", "Adapters found, please select:")
                    };
                    FlowProgress {
                        effects,
                        next: FlowNext::Ask(
                            FlowStage::Choosing(list),
                            FlowAction::Select { prompt: prompt.to_owned(), options },
                        ),
                    }
                } else if self.holds_page() {
                    add_note(
                        &mut effects,
                        self.language.t(
                            "📭 未找到已有配置，开始 AI 生成...",
                            "📭 No existing adapter found, starting AI generation...",
                        ),
                    );
                    proof {
                        assert(effect_views(effects@) =~= seq![
                            say(
                                self.language.says(
                                    "📭 未找到已有配置，开始 AI 生成..."@,
                                    "📭 No existing adapter found, starting AI generation..."@,
                                ),
                            ),
                        ]);
                    }
                    self.generate(effects)
                } else {
                    add_note(
                        &mut effects,
                        self.language.t("📭 未找到匹配的配置", "📭 No matching adapters found"),
                    );
                    proof {
                        assert(effect_views(effects@) =~= seq![
                            say(
                                self.language.says(
                                    "📭 未找到匹配的配置"@,
                                    "📭 No matching adapters found"@,
                                ),
                            ),
                        ]);
                    }
                    FlowProgress { effects, next: FlowNext::End(0) }
                }
            },
        }
    }

    fn chosen(&self, list: &Vec<AdapterMatch>, chosen: &str) -> (r: FlowProgress)
        ensures
            r@ == self.after_choice(match_views(list@), chosen@),
    {
        let mut effects: Vec<Effect> = Vec::new();
        proof {
            assert(effect_views(effects@) =~= Seq::empty());
        }
        if self.holds_page() && starts_with(chosen, REGENERATE_MARK) {
            return self.generate(effects);
        }
        match chosen_match(list, chosen) {
            Some(i) => {
                add_note(
                    &mut effects,
                    self.language.t("📥 正在下载配置...", "📥 Downloading config..."),
                );
                proof {
                    assert(effect_views(effects@) =~= seq![
                        say(
                            self.language.says("📥 正在下载配置..."@, "📥 Downloading config..."@),
                        ),
                    ]);
                }
                FlowProgress {
                    effects,
                    next: FlowNext::Ask(
                        FlowStage::Fetching {
                            site: list[i].site_name.as_str().to_owned(),
                            name: list[i].cmd_name.as_str().to_owned(),
                        },
                        FlowAction::Fetch { uuid: list[i].command_uuid.as_str().to_owned() },
                    ),
                }
            },
            None => if self.holds_page() {
                self.generate(effects)
            } else {
                FlowProgress { effects, next: FlowNext::End(0) }
            },
        }
    }

    fn fetched(&self, site: &str, name: &str, config: Result<String, String>) -> (r: FlowProgress)
        ensures
            r@ == self.after_fetch(site@, name@, text_view(config)),
    {
        let mut effects: Vec<Effect> = Vec::new();
        match config {
            Ok(yaml) => {
                let site = yaml_field(yaml.as_str(), "site:", site);
                let name = yaml_field(yaml.as_str(), "name:", name);
                let ghost save = EffectView::Save { site: site@, name: name@, yaml: yaml@ };
                push_effect(&mut effects, Effect::Save { site, name, yaml });
                proof {
                    assert(effect_views(effects@) =~= seq![save]);
                }
                self.close(&mut effects);
                FlowProgress { effects, next: FlowNext::End(0) }
            },
            Err(e) => {
                add_note(&mut effects, e.as_str());
                proof {
                    assert(effect_views(effects@) =~= seq![say(e@)]);
                }
                self.close(&mut effects);
                let code: i32 = if self.holds_page() {
                    1
                } else {
                    0
                };
                FlowProgress { effects, next: FlowNext::End(code) }
            },
        }
    }

    /// Takes the flow on by one event.
    pub fn resume(&self, stage: FlowStage, event: FlowEvent) -> (r: FlowProgress)
        requires
            stage@.accepts(event@),
        ensures
            r@ == self.next(stage@, event@),
    {
        let mut effects: Vec<Effect> = Vec::new();
        proof {
            assert(effect_views(effects@) =~= Seq::empty());
        }
        match event {
            FlowEvent::Found(found) => self.searched(found),
            FlowEvent::Chosen(chosen) => match stage {
                FlowStage::Choosing(list) => self.chosen(&list, chosen.as_str()),
                _ => FlowProgress { effects, next: FlowNext::End(0) },
            },
            FlowEvent::Config(config) => match stage {
                FlowStage::Fetching { site, name } => self.fetched(
                    site.as_str(),
                    name.as_str(),
                    config,
                ),
                _ => FlowProgress { effects, next: FlowNext::End(0) },
            },
            FlowEvent::Expired => {
                add_lines(&mut effects, report_token_expired(self.language));
                proof {
                    assert(effect_views(effects@) =~= says(token_expired(self.language)));
                }
                FlowProgress { effects, next: FlowNext::End(1) }
            },
            FlowEvent::Cancelled => {
                add_note(&mut effects, self.language.t("已取消", "Cancelled"));
                proof {
                    assert(effect_views(effects@) =~= seq![
                        say(self.language.says("已取消"@, "Cancelled"@)),
                    ]);
                }
                self.close(&mut effects);
                FlowProgress { effects, next: FlowNext::End(0) }
            },
            FlowEvent::Adapter { site, name, yaml } => {
                let ghost save = EffectView::Save { site: site@, name: name@, yaml: yaml@ };
                let copy = yaml.as_str().to_owned();
                self.close(&mut effects);
                push_effect(&mut effects, Effect::Save { site, name, yaml });
                proof {
                    assert(effect_views(effects@) =~= self.next(stage@, event@).effects);
                }
                if self.uses_ai() {
                    FlowProgress {
                        effects,
                        next: FlowNext::Ask(
                            FlowStage::Uploading,
                            FlowAction::Upload { yaml: copy },
                        ),
                    }
                } else {
                    FlowProgress { effects, next: FlowNext::End(0) }
                }
            },
            FlowEvent::Failed { icon, shown, suggestions } => {
                self.close(&mut effects);
                add_lines(&mut effects, print_error(icon.as_str(), shown.as_str(), &suggestions));
                proof {
                    assert(effect_views(effects@) =~= self.next(stage@, event@).effects);
                }
                FlowProgress { effects, next: FlowNext::End(1) }
            },
            FlowEvent::NoToken => {
                add_lines(&mut effects, report_token_missing(self.language));
                proof {
                    assert(effect_views(effects@) =~= says(token_missing(self.language)));
                }
                FlowProgress { effects, next: FlowNext::End(1) }
            },
            FlowEvent::Uploaded(lines) => {
                add_lines(&mut effects, lines);
                proof {
                    assert(effect_views(effects@) =~= self.next(stage@, event@).effects);
                }
                FlowProgress { effects, next: FlowNext::End(0) }
            },
        }
    }
}

/// What an upload means for the flow, once it has ended.
pub open spec fn upload_means(progress: UploadProgressView) -> Option<FlowEventView> {
    match progress {
        UploadProgressView::ReadBody(_) => None,
        UploadProgressView::Expired => Some(FlowEventView::Expired),
        UploadProgressView::Done(lines) => Some(FlowEventView::Uploaded(lines)),
    }
}

pub fn upload_event(progress: UploadProgress) -> (r: Option<FlowEvent>)
    ensures
        match r {
            Some(event) => upload_means(progress@) == Some(event@),
            None => upload_means(progress@) is None,
        },
{
    match progress {
        UploadProgress::ReadBody(_) => None,
        UploadProgress::Expired => Some(FlowEvent::Expired),
        UploadProgress::Done(lines) => Some(FlowEvent::Uploaded(lines)),
    }
}

/// Whatever comes of what a flow asks for, it can go on with it.
pub proof fn flow_can_go_on(
    flow: Flow,
    before: FlowStageView,
    event: FlowEventView,
    stage: FlowStageView,
    action: FlowActionView,
    outcome: FlowEventView,
)
    requires
        before.accepts(event),
        flow.next(before, event).next == FlowNextView::Ask(stage, action),
        outcome_of(action, outcome),
    ensures
        stage.accepts(outcome),
{
}

/// The same holds of what a flow asks for first.
pub proof fn flow_can_begin(
    flow: Flow,
    url: Seq<char>,
    token: Option<Seq<char>>,
    stage: FlowStageView,
    action: FlowActionView,
    outcome: FlowEventView,
)
    requires
        flow.first(url, token).next == FlowNextView::Ask(stage, action),
        outcome_of(action, outcome),
    ensures
        stage.accepts(outcome),
{
}

/// How many events a flow can still take at a stage.
pub open spec fn events_left(stage: FlowStageView) -> nat {
    match stage {
        FlowStageView::Searching => 4,
        FlowStageView::Choosing(_) => 3,
        FlowStageView::Generating => 2,
        FlowStageView::Fetching { .. } => 1,
        FlowStageView::Uploading => 1,
    }
}

/// Every event takes a flow nearer to its end.
pub proof fn flow_ends(flow: Flow, stage: FlowStageView, event: FlowEventView)
    requires
        stage.accepts(event),
    ensures
        match flow.next(stage, event).next {
            FlowNextView::Ask(later, _) => events_left(later) < events_left(stage),
            FlowNextView::End(_) => true,
        },
{
}

/// A flow has done with the page that it holds when it ends, or goes on to an upload.
pub open spec fn done_with_page(next: FlowNextView) -> bool {
    match next {
        FlowNextView::End(_) => true,
        FlowNextView::Ask(stage, _) => stage is Uploading,
    }
}

/// A flow closes the page that it holds as soon as it has done with it, and not before, and not
/// twice, unless the server refuses the token for an adapter: then the program ends at once.
pub proof fn page_is_closed_once(flow: Flow, stage: FlowStageView, event: FlowEventView)
    requires
        stage.accepts(event),
        !(stage is Fetching && event is Expired),
    ensures
        flow.next(stage, event).effects.contains(EffectView::ClosePage) <==> (flow.has_page()
            && !(stage is Uploading) && done_with_page(flow.next(stage, event).next)),
{
    let r = flow.next(stage, event);
    if flow.has_page() && !(stage is Uploading) && done_with_page(r.next) {
        match event {
            FlowEventView::Found(Err(_)) => assert(r.effects[1] == EffectView::ClosePage),
            FlowEventView::Cancelled => assert(r.effects[1] == EffectView::ClosePage),
            FlowEventView::Config(_) => assert(r.effects[1] == EffectView::ClosePage),
            FlowEventView::Adapter { .. } => assert(r.effects[0] == EffectView::ClosePage),
            FlowEventView::Failed { .. } => assert(r.effects[0] == EffectView::ClosePage),
            _ => {},
        }
    }
}

/// What a model has made is uploaded, once it was saved, and nothing else is.
pub proof fn only_new_ai_adapters_are_uploaded(
    flow: Flow,
    stage: FlowStageView,
    event: FlowEventView,
    yaml: Seq<char>,
)
    requires
        stage.accepts(event),
    ensures
        flow.next(stage, event).next == FlowNextView::Ask(
            FlowStageView::Uploading,
            FlowActionView::Upload { yaml },
        ) <==> (flow.purpose == Purpose::GenerateByAi && (event matches FlowEventView::Adapter {
            yaml: made,
            ..
        } && made == yaml)),
        flow.next(stage, event).next matches FlowNextView::Ask(FlowStageView::Uploading, _) ==> (
        event matches FlowEventView::Adapter { site, name, yaml: made } && flow.next(
            stage,
            event,
        ).effects.last() == EffectView::Save { site, name, yaml: made }),
{
}

/// An upload without a token, or one whose token the server refuses, ends the program with code 1;
/// any other upload ends it with 0, whether it has succeeded or not.
pub proof fn upload_decides_the_code(flow: Flow, event: FlowEventView)
    requires
        FlowStageView::Uploading.accepts(event),
    ensures
        flow.next(FlowStageView::Uploading, event).next == FlowNextView::End(
            if event is NoToken || event is Expired {
                1
            } else {
                0
            },
        ),
{
}

/// Of all that can come of the request of an upload, only a refused token ends the program with
/// code 1.
pub proof fn only_a_refused_token_fails_an_upload(flow: Flow, event: CallEvent)
    requires
        upload_accepts(CallStage::Sent, event),
    ensures
        upload_means(upload_next(flow.language, CallStage::Sent, event)) matches Some(outcome) ==> {
            &&& FlowStageView::Uploading.accepts(outcome)
            &&& flow.next(FlowStageView::Uploading, outcome).next == FlowNextView::End(
                if event == CallEvent::Status(FORBIDDEN) {
                    1
                } else {
                    0
                },
            )
        },
{
}

/// A search that the server refuses is said, the page is closed, and the program ends with 1.
pub proof fn failed_search_closes_the_page(flow: Flow, message: Seq<char>)
    requires
        flow.has_page(),
    ensures
        flow.next(FlowStageView::Searching, FlowEventView::Found(Err(message)))
            == (FlowProgressView {
            effects: seq![say(message), EffectView::ClosePage],
            next: FlowNextView::End(1),
        }),
{
    assert(seq![say(message)] + flow.closing() =~= seq![say(message), EffectView::ClosePage]);
}

/// A search asks for nothing to be generated.
pub proof fn search_generates_nothing(flow: Flow, stage: FlowStageView, event: FlowEventView)
    requires
        stage.accepts(event),
        flow.purpose == Purpose::Search,
    ensures
        !(flow.next(stage, event).next matches FlowNextView::Ask(FlowStageView::Generating, _)),
{
}

/// Whoever chooses a line gets what it offers: a new adapter where the line offers that, and
/// otherwise the adapter that the line names first.
pub proof fn offered_lines_can_be_chosen(flow: Flow, list: Seq<MatchView>, i: int)
    requires
        0 <= i < flow.choices(list).len(),
    ensures
        i == list.len() ==> flow.after_choice(list, flow.choices(list)[i]) == flow.generates(
            Seq::empty(),
        ),
        i < list.len() ==> exists|j: int|
            0 <= j <= i && #[trigger] crate::adapters::names(label_of(list[i]), list[j])
                && flow.after_choice(list, flow.choices(list)[i]).next == FlowNextView::Ask(
                FlowStageView::Fetching { site: list[j].site_name, name: list[j].cmd_name },
                FlowActionView::Fetch { uuid: list[j].command_uuid },
            ),
{
    if i == list.len() {
        crate::adapters::regenerate_label_stands_out(flow.language, arbitrary());
    } else {
        crate::adapters::regenerate_label_stands_out(flow.language, list[i]);
        crate::adapters::chosen_label_is_found(list, i);
        let j = first_named(list, label_of(list[i]))->0;
        assert(crate::adapters::names(label_of(list[i]), list[j]));
    }
}

/// Nothing is asked of the server without a token.
pub proof fn no_search_without_token(flow: Flow, url: Seq<char>, token: Option<Seq<char>>)
    ensures
        flow.first(url, token).next matches FlowNextView::Ask(FlowStageView::Searching, _)
            ==> usable(token),
{
}

} // verus!
