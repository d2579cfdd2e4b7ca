//! Turning the actions a planner asks for into the mouse and keyboard steps
//! that carry them out.  A "click" moves the pointer to the action's point
//! and clicks the left button; a "type" with a text does the same, waits a
//! moment for the field to take focus and types the text; anything else is
//! reported as unsupported.  Every action is followed by a short pause that
//! lets the interface react.
use vstd::prelude::*;

verus! {

/// Milliseconds waited between focusing a field and typing into it.
pub const FOCUS_SETTLE_MILLIS: u64 = 50;

/// Milliseconds waited after every action.
pub const ACTION_SPACING_MILLIS: u64 = 100;

/// One action the planner asks for.
#[derive(Clone, Debug, PartialEq, Eq)]
pub struct Action {
    /// "click", "type", or another word the executor does not know.
    pub action_type: String,
    /// Horizontal screen coordinate of the target.
    pub x: i32,
    /// Vertical screen coordinate of the target.
    pub y: i32,
    /// The text to type, for a "type" action.
    pub text: Option<String>,
}

/// One thing the executor does with the mouse, the keyboard or the clock.
#[derive(Debug, PartialEq, Eq)]
pub enum Step {
    /// Move the pointer to the absolute screen position.
    MoveMouse { x: i32, y: i32 },
    /// Press and release the left mouse button.
    ClickLeft,
    /// Wait this many milliseconds.
    Pause { millis: u64 },
    /// Type this text.
    TypeText { text: String },
    /// An action of this unknown type was skipped.
    Unsupported { action_type: String },
}

/// What an action says, its texts as character sequences.
pub struct ActionView {
    pub action_type: Seq<char>,
    pub x: i32,
    pub y: i32,
    pub text: Option<Seq<char>>,
}

/// What a step says, its texts as character sequences.
pub enum StepView {
    MoveMouse { x: i32, y: i32 },
    ClickLeft,
    Pause { millis: u64 },
    TypeText { text: Seq<char> },
    Unsupported { action_type: Seq<char> },
}

impl View for Action {
    type V = ActionView;

    open spec fn view(&self) -> ActionView {
        ActionView {
            action_type: self.action_type@,
            x: self.x,
            y: self.y,
            text: match self.text {
                Some(t) => Some(t@),
                None => None,
            },
        }
    }
}

impl View for Step {
    type V = StepView;

    open spec fn view(&self) -> StepView {
        match self {
            Step::MoveMouse { x, y } => StepView::MoveMouse { x: *x, y: *y },
            Step::ClickLeft => StepView::ClickLeft,
            Step::Pause { millis } => StepView::Pause { millis: *millis },
            Step::TypeText { text } => StepView::TypeText { text: text@ },
            Step::Unsupported { action_type } => StepView::Unsupported { action_type: action_type@ },
        }
    }
}

/// The views of a sequence of actions.
pub open spec fn actions_view(actions: Seq<Action>) -> Seq<ActionView> {
    actions.map_values(|a: Action| a@)
}

/// The views of a sequence of steps.
pub open spec fn steps_view(steps: Seq<Step>) -> Seq<StepView> {
    steps.map_values(|s: Step| s@)
}

/// The steps that carry out one action, the closing pause included.
pub open spec fn action_steps(a: ActionView) -> Seq<StepView> {
    let spacing = StepView::Pause { millis: ACTION_SPACING_MILLIS };
    if a.action_type == "click"@ {
        seq![StepView::MoveMouse { x: a.x, y: a.y }, StepView::ClickLeft, spacing]
    } else if a.action_type == "type"@ {
        match a.text {
            Some(t) => seq![
                StepView::MoveMouse { x: a.x, y: a.y },
                StepView::ClickLeft,
                StepView::Pause { millis: FOCUS_SETTLE_MILLIS },
                StepView::TypeText { text: t },
                spacing,
            ],
            None => seq![spacing],
        }
    } else {
        seq![StepView::Unsupported { action_type: a.action_type }, spacing]
    }
}

/// The steps that carry out a batch of actions: those of each action, in
/// the order of the actions.
pub open spec fn batch_steps(actions: Seq<ActionView>) -> Seq<StepView>
    decreases actions.len(),
{
    if actions.len() == 0 {
        Seq::empty()
    } else {
        batch_steps(actions.drop_last()) + action_steps(actions.last())
    }
}

/// The steps that carry out `action`.
pub fn action_plan(action: &Action) -> (steps: Vec<Step>)
    ensures
        steps_view(steps@) == action_steps(action@),
{
    let mut steps: Vec<Step> = Vec::new();
    let is_click = action.action_type == String::from_str("click");
    let is_type = action.action_type == String::from_str("type");
    if is_click {
        steps.push(Step::MoveMouse { x: action.x, y: action.y });
        steps.push(Step::ClickLeft);
    } else if is_type {
        match &action.text {
            Some(t) => {
                steps.push(Step::MoveMouse { x: action.x, y: action.y });
                steps.push(Step::ClickLeft);
                steps.push(Step::Pause { millis: FOCUS_SETTLE_MILLIS });
                steps.push(Step::TypeText { text: t.clone() });
            },
            None => {},
        }
    } else {
        steps.push(Step::Unsupported { action_type: action.action_type.clone() });
    }
    steps.push(Step::Pause { millis: ACTION_SPACING_MILLIS });
    assert(steps_view(steps@) =~= action_steps(action@));
    steps
}

/// The steps that carry out a batch of actions, one action after the
/// other.
pub fn perform_actions(actions: Vec<Action>) -> (steps: Vec<Step>)
    ensures
        steps_view(steps@) == batch_steps(actions_view(actions@)),
{
    let mut steps: Vec<Step> = Vec::new();
    let mut i: usize = 0;
    while i < actions.len()
        invariant
            i <= actions.len(),
            steps_view(steps@) == batch_steps(actions_view(actions@.take(i as int))),
        decreases actions.len() - i,
    {
        let mut more = action_plan(&actions[i]);
        let ghost before = steps@;
        let ghost added = more@;
        steps.append(&mut more);
        proof {
            assert(actions_view(actions@.take(i as int + 1)).drop_last()
                =~= actions_view(actions@.take(i as int)));
            assert(actions_view(actions@.take(i as int + 1)).last() == actions@[i as int]@);
            assert(steps_view(steps@) =~= steps_view(before) + steps_view(added));
        }
        i = i + 1;
    }
    assert(actions@.take(actions.len() as int) =~= actions@);
    steps
}

/// The view of the action given by its parts.
pub open spec fn action_of(action_type: Seq<char>, x: i32, y: i32, text: Option<Seq<char>>) -> ActionView {
    ActionView { action_type, x, y, text }
}

/// The view of an optional text.
pub open spec fn optional_text(text: Option<&str>) -> Option<Seq<char>> {
    match text {
        Some(t) => Some(t@),
        None => None,
    }
}

/// The steps that carry out the single action given by its parts: the same
/// as for a batch that holds only that action.
pub fn perform_action(action_type: &str, x: i32, y: i32, text: Option<&str>) -> (steps: Vec<Step>)
    ensures
        steps_view(steps@) == batch_steps(seq![action_of(action_type@, x, y, optional_text(text))]),
        steps_view(steps@) == action_steps(action_of(action_type@, x, y, optional_text(text))),
{
    let owned_text = match text {
        Some(t) => Some(String::from_str(t)),
        None => None,
    };
    let action = Action { action_type: String::from_str(action_type), x, y, text: owned_text };
    let ghost view = action@;
    let batch = vec![action];
    proof {
        assert(view == action_of(action_type@, x, y, optional_text(text)));
        assert(actions_view(batch@) =~= seq![view]);
        assert(seq![view].drop_last() =~= Seq::<ActionView>::empty());
        assert(batch_steps(Seq::<ActionView>::empty()) =~= Seq::<StepView>::empty());
        assert(Seq::<StepView>::empty() + action_steps(view) =~= action_steps(view));
        assert(batch_steps(seq![view]) =~= action_steps(view));
    }
    let steps = perform_actions(batch);
    steps
}

/// Carrying out two batches one after the other takes the steps of the
/// first batch followed by those of the second.
pub proof fn lemma_batches_concatenate(first: Seq<ActionView>, second: Seq<ActionView>)
    ensures
        batch_steps(first + second) == batch_steps(first) + batch_steps(second),
    decreases second.len(),
{
    if second.len() == 0 {
        assert(first + second =~= first);
        assert(batch_steps(first) + batch_steps(second) =~= batch_steps(first));
    } else {
        lemma_batches_concatenate(first, second.drop_last());
        assert((first + second).drop_last() =~= first + second.drop_last());
        assert(batch_steps(first + second) =~= batch_steps(first) + batch_steps(second));
    }
}

/// Every action ends with the pause that lets the interface react.
pub proof fn lemma_action_ends_with_pause(a: ActionView)
    ensures
        action_steps(a).len() >= 1,
        action_steps(a).last() == (StepView::Pause { millis: ACTION_SPACING_MILLIS }),
        action_steps(a).last() == (StepView::Pause { millis: 100 }),
{
}

/// A batch takes at least one step per action.
pub proof fn lemma_batch_at_least_one_step_each(actions: Seq<ActionView>)
    ensures
        batch_steps(actions).len() >= actions.len(),
    decreases actions.len(),
{
    if actions.len() > 0 {
        lemma_batch_at_least_one_step_each(actions.drop_last());
    }
}

/// An action that is neither a click nor a typing touches neither the mouse
/// nor the keyboard.
pub proof fn lemma_unknown_action_is_inert(a: ActionView)
    requires
        a.action_type != "click"@,
        a.action_type != "type"@,
    ensures
        forall|i: int|
            0 <= i < action_steps(a).len() ==> !(action_steps(a)[i] is MoveMouse)
                && !(action_steps(a)[i] is ClickLeft) && !(action_steps(a)[i] is TypeText),
{
}

/// Typing an action's text types the whole text, once: the steps of a
/// "type" action with a text hold exactly one typing step, and it types
/// that text, whatever its length.
pub proof fn lemma_typing_types_whole_text(a: ActionView, t: Seq<char>)
    requires
        a.action_type == "type"@,
        a.text == Some(t),
    ensures
        exists|i: int|
            0 <= i < action_steps(a).len() && action_steps(a)[i] == (StepView::TypeText { text: t }),
        forall|i: int, j: int|
            0 <= i < action_steps(a).len() && 0 <= j < action_steps(a).len() && action_steps(a)[i] is TypeText
                && action_steps(a)[j] is TypeText ==> i == j,
        forall|i: int|
            0 <= i < action_steps(a).len() && #[trigger] action_steps(a)[i] is TypeText ==> {
                &&& 3 <= i
                &&& action_steps(a)[i - 3] == (StepView::MoveMouse { x: a.x, y: a.y })
                &&& action_steps(a)[i - 2] == StepView::ClickLeft
                &&& action_steps(a)[i - 1] == (StepView::Pause { millis: 50 })
            },
{
    reveal_strlit("type");
    reveal_strlit("click");
    assert("type"@[0] != "click"@[0]);
    assert(action_steps(a)[3] == (StepView::TypeText { text: t }));
}

/// Only a "type" action with a text types, and what it types is its own
/// text; every pointer move of an action goes to the action's point.
pub proof fn lemma_steps_follow_the_action(a: ActionView)
    ensures
        forall|i: int|
            0 <= i < action_steps(a).len() && #[trigger] action_steps(a)[i] is TypeText ==> (
            a.action_type == "type"@ && a.text == Some(action_steps(a)[i]->TypeText_text)),
        forall|i: int|
            0 <= i < action_steps(a).len() && #[trigger] action_steps(a)[i] is MoveMouse ==> (
            action_steps(a)[i]->MoveMouse_x == a.x && action_steps(a)[i]->MoveMouse_y == a.y),
        forall|i: int|
            0 <= i < action_steps(a).len() && #[trigger] action_steps(a)[i] is Unsupported ==> (
            a.action_type != "click"@ && a.action_type != "type"@
                && action_steps(a)[i]->Unsupported_action_type == a.action_type),
{
}

/// A click moves the pointer to the action's point and clicks there, once,
/// and types nothing.
pub proof fn lemma_click_clicks_once(a: ActionView)
    requires
        a.action_type == "click"@,
    ensures
        exists|i: int|
            0 <= i + 1 < action_steps(a).len() && #[trigger] action_steps(a)[i] == (StepView::MoveMouse {
                x: a.x,
                y: a.y,
            }) && action_steps(a)[i + 1] == StepView::ClickLeft,
        forall|i: int, j: int|
            0 <= i < action_steps(a).len() && 0 <= j < action_steps(a).len() && action_steps(a)[i] is ClickLeft
                && action_steps(a)[j] is ClickLeft ==> i == j,
        forall|i: int| 0 <= i < action_steps(a).len() ==> !(action_steps(a)[i] is TypeText),
{
    assert(action_steps(a)[0] == (StepView::MoveMouse { x: a.x, y: a.y }));
}

} // verus!
