//! What holds of a flow from an address to an adapter, step by step.

use vstd::prelude::*;

use crate::adapters::{field_or, label_of, MatchView};
use crate::flow::{
    EffectView, Flow, FlowActionView, FlowEventView, FlowNextView, FlowProgressView, FlowStageView,
    Purpose,
};
use crate::language::Language;
use crate::report::{error_lines, token_expired, token_missing, LineView};
use crate::text::contains;

verus! {

/// A goal that the user has named is the goal of every generation, by rules and by a model alike.
/// Only where none was named does a model look for what is hot, and do the rules get none.
pub proof fn named_goal_is_the_goal(
    flow: Flow,
    stage: FlowStageView,
    event: FlowEventView,
    url: Seq<char>,
    token: Option<Seq<char>>,
    goal: Seq<char>,
    later: FlowStageView,
)
    requires
        stage.accepts(event),
        ({
            let asked = FlowNextView::Ask(later, FlowActionView::Generate { goal });
            flow.next(stage, event).next == asked || flow.first(url, token).next == asked
        }),
    ensures
        flow.goal matches Some(named) ==> goal == named@,
        flow.goal is None && flow.purpose == Purpose::GenerateByAi ==> goal == "hot"@,
        flow.goal is None && flow.purpose == Purpose::GenerateByRules ==> goal.len() == 0,
        later == FlowStageView::Generating,
{
    reveal_strlit("");
}

/// Rules begin at once. The others need a token that is not empty, and then search: for the address
/// as it was given where an adapter is to be generated, and otherwise for the completed one.
pub proof fn flows_begin(flow: Flow, url: Seq<char>, token: Option<Seq<char>>)
    ensures
        flow.purpose == Purpose::GenerateByRules ==> flow.first(url, token).effects.len() == 0
            && flow.first(url, token).next is Ask && flow.first(url, token).next->Ask_0
            == FlowStageView::Generating,
        flow.purpose != Purpose::GenerateByRules ==> match token {
            Some(t) => if t.len() > 0 {
                &&& flow.first(url, token).effects.len() == 0
                &&& flow.first(url, token).next matches FlowNextView::Ask(
                    FlowStageView::Searching,
                    FlowActionView::Search { url: asked },
                ) && asked == if flow.purpose == Purpose::GenerateByAi {
                    url
                } else {
                    crate::adapters::full_address(url)
                }
            } else {
                gives_up(flow.first(url, token), token_missing(flow.language))
            },
            None => gives_up(flow.first(url, token), token_missing(flow.language)),
        },
{
}

/// The flow says these lines and ends with code 1.
pub open spec fn gives_up(progress: FlowProgressView, lines: Seq<LineView>) -> bool {
    &&& progress.next == FlowNextView::End(1)
    &&& progress.effects.len() == lines.len()
    &&& forall|i: int|
        0 <= i < lines.len() ==> #[trigger] progress.effects[i] == EffectView::Say(lines[i])
}

/// Adapters that were found are offered, each by its own line and in their order, and where one
/// could be generated, that is offered last. Nothing is said or done before.
pub proof fn found_adapters_are_offered(flow: Flow, list: Seq<MatchView>, i: int)
    requires
        list.len() > 0,
        0 <= i < list.len(),
    ensures
        ({
            let r = flow.next(FlowStageView::Searching, FlowEventView::Found(Ok(list)));
            &&& r.effects.len() == 0
            &&& r.next matches FlowNextView::Ask(
                FlowStageView::Choosing(kept),
                FlowActionView::Select { prompt, options },
            ) && {
                &&& kept == list
                &&& options[i] == label_of(list[i])
                &&& flow.purpose == Purpose::Search ==> options.len() == list.len()
                &&& flow.purpose != Purpose::Search ==> options.len() == list.len() + 1
                &&& flow.purpose != Purpose::Search && flow.language == Language::English
                    ==> options.last() == "🔄 Regenerate (using AI)"@ && prompt
                    == "Existing adapters found, please select:"@
                &&& flow.purpose != Purpose::Search && flow.language == Language::Chinese
                    ==> options.last() == "🔄 重新生成 (使用 AI 分析)"@ && prompt
                    == "找到以下已有配置，请选择:"@
                &&& flow.purpose == Purpose::Search && flow.language == Language::English ==> prompt
                    == "Adapters found, please select:"@
                &&& flow.purpose == Purpose::Search && flow.language == Language::Chinese ==> prompt
                    == "找到以下配置，请选择:"@
            }
        }),
{
}

/// Where nothing was found, a search says so and ends well; a generation says so and begins.
pub proof fn nothing_found_is_said(flow: Flow)
    ensures
        ({
            let r = flow.next(
                FlowStageView::Searching,
                FlowEventView::Found(Ok(Seq::<MatchView>::empty())),
            );
            let text = if flow.purpose == Purpose::Search {
                flow.language.says("📭 未找到匹配的配置"@, "📭 No matching adapters found"@)
            } else {
                flow.language.says(
                    "📭 未找到已有配置，开始 AI 生成..."@,
                    "📭 No existing adapter found, starting AI generation..."@,
                )
            };
            &&& r.effects == seq![EffectView::Say(LineView::Note(text))]
            &&& flow.purpose == Purpose::Search ==> r.next == FlowNextView::End(0)
            &&& flow.purpose != Purpose::Search ==> r.next is Ask && r.next->Ask_0
                == FlowStageView::Generating
        }),
{
}

/// A search that failed is said; a page that is open is closed; the program ends with code 1.
pub proof fn failed_search_is_said(flow: Flow, message: Seq<char>)
    ensures
        ({
            let r = flow.next(FlowStageView::Searching, FlowEventView::Found(Err(message)));
            let said = EffectView::Say(LineView::Note(message));
            &&& r.next == FlowNextView::End(1)
            &&& r.effects == if flow.purpose == Purpose::Search {
                seq![said]
            } else {
                seq![said, EffectView::ClosePage]
            }
        }),
{
    let r = flow.next(FlowStageView::Searching, FlowEventView::Found(Err(message)));
    let said = EffectView::Say(LineView::Note(message));
    assert(r.effects =~= if flow.purpose == Purpose::Search {
        seq![said]
    } else {
        seq![said, EffectView::ClosePage]
    });
}

/// A choice leads to a generation exactly where one can be generated and the line either asks for
/// it or names no adapter.
pub proof fn choices_lead_to_generations(flow: Flow, list: Seq<MatchView>, line: Seq<char>)
    ensures
        ({
            let r = flow.next(FlowStageView::Choosing(list), FlowEventView::Chosen(line));
            let unnamed = forall|j: int|
                0 <= j < list.len() ==> !contains(line, (#[trigger] list[j]).site_name)
                    || !contains(line, list[j].cmd_name);
            (r.next is Ask && r.next->Ask_0 == FlowStageView::Generating) <==> (flow.purpose
                != Purpose::Search && ("🔄"@.is_prefix_of(line) || unnamed))
        }),
{
    crate::adapter_laws::first_named_adapter_is_found(list, line);
}

/// A choice that leads to no generation leads to the first adapter that the line names, if there is
/// one: it is fetched by its id, and remembered by its names. If there is none, a search ends well.
pub proof fn choices_lead_to_adapters(flow: Flow, list: Seq<MatchView>, line: Seq<char>, i: int)
    requires
        flow.purpose == Purpose::Search || !"🔄"@.is_prefix_of(line),
    ensures
        ({
            let r = flow.next(FlowStageView::Choosing(list), FlowEventView::Chosen(line));
            &&& (0 <= i < list.len() && contains(line, list[i].site_name) && contains(
                line,
                list[i].cmd_name,
            ) && (forall|j: int|
                0 <= j < i ==> !contains(line, (#[trigger] list[j]).site_name) || !contains(
                    line,
                    list[j].cmd_name,
                ))) ==> {
                &&& r.next == FlowNextView::Ask(
                    FlowStageView::Fetching { site: list[i].site_name, name: list[i].cmd_name },
                    FlowActionView::Fetch { uuid: list[i].command_uuid },
                )
                &&& r.effects == seq![
                    EffectView::Say(
                        LineView::Note(
                            flow.language.says("📥 正在下载配置..."@, "📥 Downloading config..."@),
                        ),
                    ),
                ]
            }
            &&& flow.purpose == Purpose::Search && (forall|j: int|
                0 <= j < list.len() ==> !contains(line, (#[trigger] list[j]).site_name)
                    || !contains(line, list[j].cmd_name)) ==> r.next == FlowNextView::End(0)
                && r.effects.len() == 0
        }),
{
    crate::adapter_laws::first_named_adapter_is_found(list, line);
    let found = crate::adapters::first_named(list, line);
    if 0 <= i < list.len() && contains(line, list[i].site_name) && contains(line, list[i].cmd_name)
        && (forall|j: int|
        0 <= j < i ==> !contains(line, (#[trigger] list[j]).site_name) || !contains(
            line,
            list[j].cmd_name,
        )) {
        if let Some(k) = found {
            if k < i {
                assert(!contains(line, list[k].site_name) || !contains(line, list[k].cmd_name));
            }
            if i < k {
                assert(!contains(line, list[i].site_name) || !contains(line, list[i].cmd_name));
            }
        } else {
            assert(!contains(line, list[i].site_name) || !contains(line, list[i].cmd_name));
        }
    }
}

/// An adapter that was fetched is saved, all of it, under the names that it gives itself or else
/// those of the server; a page that is open is closed; and the program ends well.
pub proof fn fetched_adapters_are_saved(
    flow: Flow,
    site: Seq<char>,
    name: Seq<char>,
    yaml: Seq<char>,
)
    ensures
        ({
            let r = flow.next(FlowStageView::Fetching { site, name }, FlowEventView::Config(Ok(yaml)));
            let save = EffectView::Save {
                site: field_or(yaml, "site:"@, site),
                name: field_or(yaml, "name:"@, name),
                yaml,
            };
            &&& r.next == FlowNextView::End(0)
            &&& r.effects == if flow.purpose == Purpose::Search {
                seq![save]
            } else {
                seq![save, EffectView::ClosePage]
            }
        }),
{
    let r = flow.next(FlowStageView::Fetching { site, name }, FlowEventView::Config(Ok(yaml)));
    let save = EffectView::Save {
        site: field_or(yaml, "site:"@, site),
        name: field_or(yaml, "name:"@, name),
        yaml,
    };
    assert(r.effects =~= if flow.purpose == Purpose::Search {
        seq![save]
    } else {
        seq![save, EffectView::ClosePage]
    });
}

/// An adapter that could not be fetched is said; that is a failure of a generation, and none of a
/// search.
pub proof fn failed_fetch_is_said(
    flow: Flow,
    site: Seq<char>,
    name: Seq<char>,
    message: Seq<char>,
)
    ensures
        ({
            let r = flow.next(
                FlowStageView::Fetching { site, name },
                FlowEventView::Config(Err(message)),
            );
            let said = EffectView::Say(LineView::Note(message));
            &&& flow.purpose == Purpose::Search ==> r.next == FlowNextView::End(0) && r.effects
                == seq![said]
            &&& flow.purpose != Purpose::Search ==> r.next == FlowNextView::End(1) && r.effects
                == seq![said, EffectView::ClosePage]
        }),
{
    let r = flow.next(FlowStageView::Fetching { site, name }, FlowEventView::Config(Err(message)));
    let said = EffectView::Say(LineView::Note(message));
    assert(r.effects =~= if flow.purpose == Purpose::Search {
        seq![said]
    } else {
        seq![said, EffectView::ClosePage]
    });
}

/// Whoever chooses nothing is told so, and the program ends well.
pub proof fn cancelling_ends_well(flow: Flow, list: Seq<MatchView>)
    ensures
        ({
            let r = flow.next(FlowStageView::Choosing(list), FlowEventView::Cancelled);
            let said = EffectView::Say(
                LineView::Note(flow.language.says("已取消"@, "Cancelled"@)),
            );
            &&& r.next == FlowNextView::End(0)
            &&& r.effects == if flow.purpose == Purpose::Search {
                seq![said]
            } else {
                seq![said, EffectView::ClosePage]
            }
        }),
{
    let r = flow.next(FlowStageView::Choosing(list), FlowEventView::Cancelled);
    let said = EffectView::Say(LineView::Note(flow.language.says("已取消"@, "Cancelled"@)));
    assert(r.effects =~= if flow.purpose == Purpose::Search {
        seq![said]
    } else {
        seq![said, EffectView::ClosePage]
    });
}

/// An adapter that was generated is saved as it is, once the page was closed. That ends a generation
/// by rules; what a model made is then uploaded as it is.
pub proof fn generated_adapters_are_saved(
    flow: Flow,
    site: Seq<char>,
    name: Seq<char>,
    yaml: Seq<char>,
)
    requires
        flow.purpose != Purpose::Search,
    ensures
        ({
            let r = flow.next(
                FlowStageView::Generating,
                FlowEventView::Adapter { site, name, yaml },
            );
            &&& r.effects == seq![EffectView::ClosePage, EffectView::Save { site, name, yaml }]
            &&& flow.purpose == Purpose::GenerateByRules ==> r.next == FlowNextView::End(0)
            &&& flow.purpose == Purpose::GenerateByAi ==> r.next == FlowNextView::Ask(
                FlowStageView::Uploading,
                FlowActionView::Upload { yaml },
            )
        }),
{
    let r = flow.next(FlowStageView::Generating, FlowEventView::Adapter { site, name, yaml });
    assert(r.effects =~= seq![EffectView::ClosePage, EffectView::Save { site, name, yaml }]);
}

/// A generation that failed closes the page, shows the error and ends with code 1.
pub proof fn failed_generation_is_shown(
    flow: Flow,
    icon: Seq<char>,
    shown: Seq<char>,
    suggestions: Seq<Seq<char>>,
    i: int,
)
    requires
        flow.purpose != Purpose::Search,
        0 <= i < error_lines(icon, shown, suggestions).len(),
    ensures
        ({
            let r = flow.next(
                FlowStageView::Generating,
                FlowEventView::Failed { icon, shown, suggestions },
            );
            &&& r.next == FlowNextView::End(1)
            &&& r.effects.len() == error_lines(icon, shown, suggestions).len() + 1
            &&& r.effects[0] == EffectView::ClosePage
            &&& r.effects[i + 1] == EffectView::Say(error_lines(icon, shown, suggestions)[i])
        }),
{
}

/// A token that the server refuses, for an adapter or for an upload, and one that is missing for an
/// upload, are said, and the program ends with code 1.
pub proof fn tokens_end_the_flow(flow: Flow, stage: FlowStageView)
    ensures
        stage.accepts(FlowEventView::Expired) ==> gives_up(
            flow.next(stage, FlowEventView::Expired),
            token_expired(flow.language),
        ),
        stage.accepts(FlowEventView::NoToken) ==> gives_up(
            flow.next(stage, FlowEventView::NoToken),
            token_missing(flow.language),
        ),
{
}

/// What an upload says is said, line by line, and the program ends well.
pub proof fn uploads_are_said(flow: Flow, lines: Seq<LineView>, i: int)
    requires
        0 <= i < lines.len(),
    ensures
        ({
            let r = flow.next(FlowStageView::Uploading, FlowEventView::Uploaded(lines));
            &&& r.next == FlowNextView::End(0)
            &&& r.effects.len() == lines.len()
            &&& r.effects[i] == EffectView::Say(lines[i])
        }),
{
}

} // verus!
