use openvy::automation::{action_plan, perform_action, perform_actions, Action, Step};

fn action(kind: &str, x: i32, y: i32, text: Option<&str>) -> Action {
    Action { action_type: kind.to_string(), x, y, text: text.map(|t| t.to_string()) }
}

#[test]
fn click_moves_clicks_and_pauses() {
    assert_eq!(
        action_plan(&action("click", 100, 200, None)),
        vec![Step::MoveMouse { x: 100, y: 200 }, Step::ClickLeft, Step::Pause { millis: 100 }]
    );
}

#[test]
fn type_focuses_waits_and_types() {
    assert_eq!(
        action_plan(&action("type", 7, 8, Some("Hello World"))),
        vec![
            Step::MoveMouse { x: 7, y: 8 },
            Step::ClickLeft,
            Step::Pause { millis: 50 },
            Step::TypeText { text: "Hello World".to_string() },
            Step::Pause { millis: 100 },
        ]
    );
}

#[test]
fn type_without_text_only_pauses() {
    assert_eq!(action_plan(&action("type", 7, 8, None)), vec![Step::Pause { millis: 100 }]);
}

#[test]
fn unknown_action_is_reported_and_skipped() {
    assert_eq!(
        action_plan(&action("scroll", 1, 2, Some("x"))),
        vec![Step::Unsupported { action_type: "scroll".to_string() }, Step::Pause { millis: 100 }]
    );
    assert_eq!(
        action_plan(&action("Click", 1, 2, None)),
        vec![Step::Unsupported { action_type: "Click".to_string() }, Step::Pause { millis: 100 }]
    );
}

#[test]
fn click_ignores_text() {
    assert_eq!(
        action_plan(&action("click", 3, 4, Some("ignored"))),
        vec![Step::MoveMouse { x: 3, y: 4 }, Step::ClickLeft, Step::Pause { millis: 100 }]
    );
}

#[test]
fn batch_runs_actions_in_order() {
    let steps = perform_actions(vec![
        action("click", 100, 200, None),
        action("type", 10, 20, Some("Hello")),
    ]);
    assert_eq!(
        steps,
        vec![
            Step::MoveMouse { x: 100, y: 200 },
            Step::ClickLeft,
            Step::Pause { millis: 100 },
            Step::MoveMouse { x: 10, y: 20 },
            Step::ClickLeft,
            Step::Pause { millis: 50 },
            Step::TypeText { text: "Hello".to_string() },
            Step::Pause { millis: 100 },
        ]
    );
}

#[test]
fn empty_batch_does_nothing() {
    assert!(perform_actions(vec![]).is_empty());
}

#[test]
fn batches_concatenate() {
    let first = vec![action("click", 1, 1, None), action("noop", 0, 0, None)];
    let second = vec![action("type", 2, 2, Some("a")), action("type", 3, 3, None)];
    let mut both = first.clone();
    both.extend(second.clone());
    let mut expected = perform_actions(first);
    expected.extend(perform_actions(second));
    assert_eq!(perform_actions(both), expected);
}

#[test]
fn single_action_is_a_batch_of_one() {
    assert_eq!(
        perform_action("type", 5, 6, Some("abc")),
        perform_actions(vec![action("type", 5, 6, Some("abc"))])
    );
    assert_eq!(
        perform_action("click", -5, 6, None),
        vec![Step::MoveMouse { x: -5, y: 6 }, Step::ClickLeft, Step::Pause { millis: 100 }]
    );
}

#[test]
fn every_action_ends_with_the_spacing_pause() {
    for a in [
        action("click", 0, 0, None),
        action("type", 0, 0, Some("t")),
        action("type", 0, 0, None),
        action("drag", 0, 0, None),
    ] {
        let steps = action_plan(&a);
        assert_eq!(steps.last(), Some(&Step::Pause { millis: 100 }));
    }
}
