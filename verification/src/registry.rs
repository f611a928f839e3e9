//! The steps that pipelines can call by their names.

use vstd::prelude::*;

use crate::json::{Json, JsonView};
use crate::steps::{
    ClickStep, CollectStep, EvaluateStep, NavigateStep, PressStep, Progress, ProgressView,
    ScreenshotStep, ScrollStep, SnapshotStep, StepHandler, TypeStep, WaitStep,
};
use crate::text::same_text;

verus! {

/// Any one of the browser steps.
#[derive(Debug, Clone, Copy, PartialEq, Eq, Structural)]
pub enum BrowserStep {
    Navigate(NavigateStep),
    Click(ClickStep),
    Type(TypeStep),
    Wait(WaitStep),
    Press(PressStep),
    Evaluate(EvaluateStep),
    Snapshot(SnapshotStep),
    Screenshot(ScreenshotStep),
    Scroll(ScrollStep),
    Collect(CollectStep),
}

impl StepHandler for BrowserStep {
    open spec fn step_name(&self) -> Seq<char> {
        match self {
            BrowserStep::Navigate(s) => s.step_name(),
            BrowserStep::Click(s) => s.step_name(),
            BrowserStep::Type(s) => s.step_name(),
            BrowserStep::Wait(s) => s.step_name(),
            BrowserStep::Press(s) => s.step_name(),
            BrowserStep::Evaluate(s) => s.step_name(),
            BrowserStep::Snapshot(s) => s.step_name(),
            BrowserStep::Screenshot(s) => s.step_name(),
            BrowserStep::Scroll(s) => s.step_name(),
            BrowserStep::Collect(s) => s.step_name(),
        }
    }

    open spec fn in_browser(&self) -> bool {
        true
    }

    open spec fn plan(&self, page: bool, params: JsonView) -> ProgressView {
        match self {
            BrowserStep::Navigate(s) => s.plan(page, params),
            BrowserStep::Click(s) => s.plan(page, params),
            BrowserStep::Type(s) => s.plan(page, params),
            BrowserStep::Wait(s) => s.plan(page, params),
            BrowserStep::Press(s) => s.plan(page, params),
            BrowserStep::Evaluate(s) => s.plan(page, params),
            BrowserStep::Snapshot(s) => s.plan(page, params),
            BrowserStep::Screenshot(s) => s.plan(page, params),
            BrowserStep::Scroll(s) => s.plan(page, params),
            BrowserStep::Collect(s) => s.plan(page, params),
        }
    }

    fn name(&self) -> (r: &'static str) {
        match self {
            BrowserStep::Navigate(s) => s.name(),
            BrowserStep::Click(s) => s.name(),
            BrowserStep::Type(s) => s.name(),
            BrowserStep::Wait(s) => s.name(),
            BrowserStep::Press(s) => s.name(),
            BrowserStep::Evaluate(s) => s.name(),
            BrowserStep::Snapshot(s) => s.name(),
            BrowserStep::Screenshot(s) => s.name(),
            BrowserStep::Scroll(s) => s.name(),
            BrowserStep::Collect(s) => s.name(),
        }
    }

    fn is_browser_step(&self) -> (r: bool) {
        true
    }

    fn execute(&self, page: bool, params: &Json) -> (r: Progress) {
        match self {
            BrowserStep::Navigate(s) => s.execute(page, params),
            BrowserStep::Click(s) => s.execute(page, params),
            BrowserStep::Type(s) => s.execute(page, params),
            BrowserStep::Wait(s) => s.execute(page, params),
            BrowserStep::Press(s) => s.execute(page, params),
            BrowserStep::Evaluate(s) => s.execute(page, params),
            BrowserStep::Snapshot(s) => s.execute(page, params),
            BrowserStep::Screenshot(s) => s.execute(page, params),
            BrowserStep::Scroll(s) => s.execute(page, params),
            BrowserStep::Collect(s) => s.execute(page, params),
        }
    }
}

/// Steps by their names. A step that is registered hides an earlier one with the same name.
#[derive(Debug)]
pub struct StepRegistry {
    steps: Vec<BrowserStep>,
}

/// The step of that name.
pub open spec fn step_named(steps: Seq<BrowserStep>, name: Seq<char>) -> Option<BrowserStep>
    decreases steps.len(),
{
    if steps.len() == 0 {
        None
    } else if steps.last().step_name() == name {
        Some(steps.last())
    } else {
        step_named(steps.drop_last(), name)
    }
}

impl View for StepRegistry {
    type V = Map<Seq<char>, BrowserStep>;

    closed spec fn view(&self) -> Map<Seq<char>, BrowserStep> {
        Map::new(
            |name: Seq<char>| step_named(self.steps@, name) is Some,
            |name: Seq<char>| step_named(self.steps@, name)->0,
        )
    }
}

impl StepRegistry {
    pub fn new() -> (r: StepRegistry)
        ensures
            r@ == Map::<Seq<char>, BrowserStep>::empty(),
    {
        let r = StepRegistry { steps: Vec::new() };
        proof {
            assert(r@ =~= Map::<Seq<char>, BrowserStep>::empty());
        }
        r
    }

    /// Adds a step under its name.
    pub fn register(&mut self, step: BrowserStep)
        ensures
            final(self)@ == old(self)@.insert(step.step_name(), step),
    {
        let ghost before = self.steps@;
        self.steps.push(step);
        proof {
            assert(self.steps@.drop_last() =~= before);
            assert forall|name: Seq<char>| #[trigger]
                step_named(self.steps@, name) == (if name == step.step_name() {
                Some(step)
            } else {
                step_named(before, name)
            }) by {
                assert(self.steps@.last() == step);
            }
            assert(self@ =~= old(self)@.insert(step.step_name(), step));
        }
    }

    /// The step of that name.
    pub fn get(&self, name: &str) -> (r: Option<BrowserStep>)
        ensures
            r == (if self@.dom().contains(name@) {
                Some(self@[name@])
            } else {
                None
            }),
    {
        let mut i: usize = self.steps.len();
        proof {
            assert(self.steps@.take(i as int) =~= self.steps@);
        }
        while i > 0
            invariant
                i <= self.steps@.len(),
                step_named(self.steps@, name@) == step_named(self.steps@.take(i as int), name@),
            decreases i,
        {
            proof {
                assert(self.steps@.take(i as int).last() == self.steps@[i - 1]);
                assert(self.steps@.take(i as int).drop_last() =~= self.steps@.take(i - 1));
            }
            let step = self.steps[i - 1];
            if same_text(step.name(), name) {
                return Some(step);
            }
            i -= 1;
        }
        None
    }
}

/// The browser steps, each under its name.
pub open spec fn with_browser_steps(
    steps: Map<Seq<char>, BrowserStep>,
) -> Map<Seq<char>, BrowserStep> {
    steps.insert("navigate"@, BrowserStep::Navigate(NavigateStep)).insert(
        "click"@,
        BrowserStep::Click(ClickStep),
    ).insert("type"@, BrowserStep::Type(TypeStep)).insert(
        "wait"@,
        BrowserStep::Wait(WaitStep),
    ).insert("press"@, BrowserStep::Press(PressStep)).insert(
        "evaluate"@,
        BrowserStep::Evaluate(EvaluateStep),
    ).insert("snapshot"@, BrowserStep::Snapshot(SnapshotStep)).insert(
        "screenshot"@,
        BrowserStep::Screenshot(ScreenshotStep),
    ).insert("scroll"@, BrowserStep::Scroll(ScrollStep)).insert(
        "collect"@,
        BrowserStep::Collect(CollectStep),
    )
}

/// Adds the browser steps to a registry.
pub fn register_browser_steps(registry: &mut StepRegistry)
    ensures
        final(registry)@ == with_browser_steps(old(registry)@),
{
    registry.register(BrowserStep::Navigate(NavigateStep));
    registry.register(BrowserStep::Click(ClickStep));
    registry.register(BrowserStep::Type(TypeStep));
    registry.register(BrowserStep::Wait(WaitStep));
    registry.register(BrowserStep::Press(PressStep));
    registry.register(BrowserStep::Evaluate(EvaluateStep));
    registry.register(BrowserStep::Snapshot(SnapshotStep));
    registry.register(BrowserStep::Screenshot(ScreenshotStep));
    registry.register(BrowserStep::Scroll(ScrollStep));
    registry.register(BrowserStep::Collect(CollectStep));
}

proof fn lemma_names()
    ensures
        forall|a: BrowserStep, b: BrowserStep| #[trigger]
            a.step_name() == #[trigger] b.step_name() ==> a == b,
{
    reveal_strlit("navigate");
    reveal_strlit("click");
    reveal_strlit("type");
    reveal_strlit("wait");
    reveal_strlit("press");
    reveal_strlit("evaluate");
    reveal_strlit("snapshot");
    reveal_strlit("screenshot");
    reveal_strlit("scroll");
    reveal_strlit("collect");
    assert forall|a: BrowserStep, b: BrowserStep| #[trigger]
        a.step_name() == #[trigger] b.step_name() implies a == b by {
        let (m, n) = (a.step_name(), b.step_name());
        assert(m[0] == n[0] && m[1] == n[1] && m[2] == n[2] && m.len() == n.len());
    }
}

/// No two steps have the same name.
pub proof fn step_names_differ(a: BrowserStep, b: BrowserStep)
    requires
        a.step_name() == b.step_name(),
    ensures
        a == b,
{
    lemma_names();
}

/// Once the browser steps are registered, each is found under its own name, whatever was
/// registered before; and nothing else has changed.
pub proof fn registered_steps_are_found(
    before: Map<Seq<char>, BrowserStep>,
    step: BrowserStep,
    other: Seq<char>,
)
    ensures
        with_browser_steps(before).dom().contains(step.step_name()),
        with_browser_steps(before)[step.step_name()] == step,
        (forall|s: BrowserStep| #[trigger] s.step_name() != other)
            ==> with_browser_steps(before).dom().contains(other) == before.dom().contains(other),
        (forall|s: BrowserStep| #[trigger] s.step_name() != other) && before.dom().contains(other)
            ==> with_browser_steps(before)[other] == before[other],
{
    let steps = seq![
        BrowserStep::Navigate(NavigateStep),
        BrowserStep::Click(ClickStep),
        BrowserStep::Type(TypeStep),
        BrowserStep::Wait(WaitStep),
        BrowserStep::Press(PressStep),
        BrowserStep::Evaluate(EvaluateStep),
        BrowserStep::Snapshot(SnapshotStep),
        BrowserStep::Screenshot(ScreenshotStep),
        BrowserStep::Scroll(ScrollStep),
        BrowserStep::Collect(CollectStep),
    ];
    assert(steps[0].step_name() == "navigate"@);
    assert(steps[1].step_name() == "click"@);
    assert(steps[2].step_name() == "type"@);
    assert(steps[3].step_name() == "wait"@);
    assert(steps[4].step_name() == "press"@);
    assert(steps[5].step_name() == "evaluate"@);
    assert(steps[6].step_name() == "snapshot"@);
    assert(steps[7].step_name() == "screenshot"@);
    assert(steps[8].step_name() == "scroll"@);
    assert(steps[9].step_name() == "collect"@);
    lemma_names();
}

} // verus!
