//! What holds of every browser step, from its start to its end.

use vstd::prelude::*;

use crate::error::ErrorView;
use crate::json::{quoted, quoted_text_is_read_back, JsonView};
use crate::page::{answers, ActionView, ReplyView};
use crate::registry::BrowserStep;
use crate::steps::{
    failed, press_script, wait_script, ProgressView, StageView, StepHandler, Target, KEY_DOWN,
    KEY_END, KEY_UP, NO_PAGE, WAIT_SCRIPT_HEAD, WAIT_SCRIPT_TAIL,
};

verus! {

/// Without a page every step ends at once with the same error, and asks for nothing.
pub proof fn steps_need_a_page(step: BrowserStep, params: JsonView)
    ensures
        step.plan(false, params) == failed(NO_PAGE@),
{
}

/// A step that has a page ends at once only with an error about its parameters.
pub proof fn steps_start_or_refuse(step: BrowserStep, params: JsonView)
    ensures
        match step.plan(true, params) {
            ProgressView::Ask(_, _) => true,
            ProgressView::Done(r) => r is Err,
        },
{
}

/// Whatever answers what a step asked for, the step can go on with it: at its start...
pub proof fn first_reply_is_accepted(
    step: BrowserStep,
    page: bool,
    params: JsonView,
    stage: StageView,
    action: ActionView,
    reply: ReplyView,
)
    requires
        step.plan(page, params) == ProgressView::Ask(stage, action),
        answers(action, reply),
    ensures
        stage.accepts(reply),
{
}

/// ...and later.
pub proof fn later_reply_is_accepted(
    before: StageView,
    answer: ReplyView,
    data: JsonView,
    stage: StageView,
    action: ActionView,
    reply: ReplyView,
)
    requires
        before.accepts(answer),
        before.next(answer, data) == ProgressView::Ask(stage, action),
        answers(action, reply),
    ensures
        stage.accepts(reply),
{
}

/// How far a step comes with these replies, one after the other. What is left over when the step
/// has ended is not looked at.
pub open spec fn run(from: ProgressView, replies: Seq<ReplyView>, data: JsonView) -> ProgressView
    decreases replies.len(),
{
    match from {
        ProgressView::Ask(stage, _) => if replies.len() > 0 {
            run(stage.next(replies[0], data), replies.drop_first(), data)
        } else {
            from
        },
        ProgressView::Done(_) => from,
    }
}

/// Each of the replies answers what the step asks for when it comes.
pub open spec fn answered(from: ProgressView, replies: Seq<ReplyView>, data: JsonView) -> bool
    decreases replies.len(),
{
    match from {
        ProgressView::Ask(stage, action) => replies.len() > 0 ==> answers(action, replies[0])
            && answered(stage.next(replies[0], data), replies.drop_first(), data),
        ProgressView::Done(_) => true,
    }
}

/// What a step asks for and where it goes on from belong together.
pub open spec fn in_step(from: ProgressView) -> bool {
    from matches ProgressView::Ask(stage, action) ==> forall|reply: ReplyView|
        #[trigger] answers(action, reply) ==> stage.accepts(reply)
}

/// How many replies a stage waits for at most.
pub open spec fn replies_left(stage: StageView) -> nat {
    match stage {
        StageView::TypeSelector { .. } => 3,
        StageView::Rendered(_)
        | StageView::TypeText { .. }
        | StageView::ScrollCount
        | StageView::Collect { .. } => 2,
        _ => 1,
    }
}

proof fn lemma_run_ends(from: ProgressView, replies: Seq<ReplyView>, data: JsonView)
    requires
        in_step(from),
        answered(from, replies, data),
        from matches ProgressView::Ask(stage, _) ==> replies.len() >= replies_left(stage),
    ensures
        run(from, replies, data) is Done,
    decreases replies.len(),
{
    if let ProgressView::Ask(stage, action) = from {
        let reply = replies[0];
        assert(answers(action, reply));
        assert(stage.accepts(reply));
        lemma_run_ends(stage.next(reply, data), replies.drop_first(), data);
    }
}

/// Every step has ended after three replies.
pub proof fn steps_end(
    step: BrowserStep,
    page: bool,
    params: JsonView,
    replies: Seq<ReplyView>,
    data: JsonView,
)
    requires
        replies.len() >= 3,
        answered(step.plan(page, params), replies, data),
    ensures
        run(step.plan(page, params), replies, data) is Done,
{
    lemma_run_ends(step.plan(page, params), replies, data);
}

/// What fails for the page or the template fails for the step, with the same error.
pub proof fn failure_is_passed_on(before: StageView, error: ErrorView, data: JsonView)
    ensures
        before.accepts(ReplyView::Failed(error)),
        before.next(ReplyView::Failed(error), data) == ProgressView::Done(Err(error)),
{
}

/// The steps that act on the page and leave the data alone.
pub open spec fn acts_only(step: BrowserStep) -> bool {
    match step {
        BrowserStep::Navigate(_)
        | BrowserStep::Click(_)
        | BrowserStep::Type(_)
        | BrowserStep::Wait(_)
        | BrowserStep::Press(_)
        | BrowserStep::Scroll(_) => true,
        _ => false,
    }
}

/// The stages of those steps.
pub open spec fn keeps_data(stage: StageView) -> bool {
    match stage {
        StageView::Rendered(target) => target != Target::Evaluate,
        StageView::TypeSelector { .. }
        | StageView::TypeText { .. }
        | StageView::ScrollCount
        | StageView::Keep => true,
        _ => false,
    }
}

proof fn lemma_run_keeps_data(from: ProgressView, replies: Seq<ReplyView>, data: JsonView)
    requires
        in_step(from),
        answered(from, replies, data),
        match from {
            ProgressView::Ask(stage, _) => keeps_data(stage),
            ProgressView::Done(Ok(v)) => v == data,
            ProgressView::Done(Err(_)) => true,
        },
    ensures
        run(from, replies, data) matches ProgressView::Done(Ok(v)) ==> v == data,
    decreases replies.len(),
{
    if let ProgressView::Ask(stage, action) = from {
        if replies.len() > 0 {
            let reply = replies[0];
            assert(answers(action, reply));
            assert(stage.accepts(reply));
            lemma_run_keeps_data(stage.next(reply, data), replies.drop_first(), data);
        }
    }
}

/// A step that only acts on the page hands its data on unchanged, whatever the page and the
/// templates answer, unless it fails.
pub proof fn acting_steps_keep_data(
    step: BrowserStep,
    page: bool,
    params: JsonView,
    replies: Seq<ReplyView>,
    data: JsonView,
)
    requires
        acts_only(step),
        answered(step.plan(page, params), replies, data),
    ensures
        run(step.plan(page, params), replies, data) matches ProgressView::Done(Ok(v)) ==> v == data,
{
    lemma_run_keeps_data(step.plan(page, params), replies, data);
}

/// A snapshot gives data in any case: what was seen, or what was there before.
pub proof fn snapshot_never_gives_null(seen: JsonView, data: JsonView)
    requires
        data != JsonView::Null,
    ensures
        StageView::Snapshot.next(ReplyView::Value(seen), data) matches ProgressView::Done(Ok(v)) && v
            != JsonView::Null,
{
}

/// The script that waits for a text looks for that very text: two texts never share a script.
pub proof fn wait_scripts_differ(a: Seq<char>, b: Seq<char>)
    requires
        wait_script(a) == wait_script(b),
    ensures
        a == b,
{
    let n = WAIT_SCRIPT_HEAD@.len() as int;
    assert(wait_script(a).skip(n) =~= quoted(a) + WAIT_SCRIPT_TAIL@);
    assert(wait_script(b).skip(n) =~= quoted(b) + WAIT_SCRIPT_TAIL@);
    quoted_text_is_read_back(a, b, WAIT_SCRIPT_TAIL@, WAIT_SCRIPT_TAIL@);
}

/// The script that presses a key presses that very key: two keys never share a script.
pub proof fn press_scripts_differ(a: Seq<char>, b: Seq<char>)
    requires
        press_script(a) == press_script(b),
    ensures
        a == b,
{
    let n = KEY_DOWN@.len() as int;
    let x = KEY_UP@ + quoted(a) + KEY_END@;
    let y = KEY_UP@ + quoted(b) + KEY_END@;
    assert(press_script(a).skip(n) =~= quoted(a) + x);
    assert(press_script(b).skip(n) =~= quoted(b) + y);
    quoted_text_is_read_back(a, b, x, y);
}

} // verus!
