use op1nput::keyboard::Key;
use op1nput::output::{
    handle_action, handle_control, press, release, sequence, sleep, tap, unit_effects, Action,
    Control, Effect, Outcome, TAP_HOLD_MS,
};

fn tap_of(key: Key) -> Effect {
    Effect::Spawn(vec![Effect::Press(key), Effect::Sleep(20), Effect::Release(key)])
}

#[test]
fn leaf_effects() {
    assert_eq!(sleep(250), Effect::Sleep(250));
    assert_eq!(press(Key::Q), Effect::Press(Key::Q));
    assert_eq!(release(Key::Q), Effect::Release(Key::Q));
}

#[test]
fn tap_presses_holds_and_releases_once() {
    assert_eq!(TAP_HOLD_MS, 20);
    let effect = tap(Key::K);
    assert_eq!(
        effect,
        Effect::Spawn(vec![Effect::Press(Key::K), Effect::Sleep(20), Effect::Release(Key::K)])
    );
    assert_eq!(handle_action(&Action::Tap(Key::K)), vec![effect]);
}

#[test]
fn nothing_asks_for_nothing() {
    assert_eq!(handle_action(&Action::Nothing), Vec::<Effect>::new());
}

#[test]
fn press_and_release_ask_for_one_effect_of_the_caller() {
    assert_eq!(handle_action(&Action::Press(Key::Z)), vec![Effect::Press(Key::Z)]);
    assert_eq!(handle_action(&Action::Release(Key::Z)), vec![Effect::Release(Key::Z)]);
    assert_eq!(unit_effects(&Action::Press(Key::Z)), vec![Effect::Press(Key::Z)]);
    assert_eq!(unit_effects(&Action::Release(Key::Z)), vec![Effect::Release(Key::Z)]);
}

#[test]
fn a_delay_holds_up_a_unit_but_never_the_dispatcher() {
    assert_eq!(unit_effects(&Action::Delay(7)), vec![Effect::Sleep(7)]);
    assert_eq!(unit_effects(&Action::Delay(0)), vec![Effect::Sleep(0)]);
    assert_eq!(unit_effects(&Action::Delay(u64::MAX)), vec![Effect::Sleep(u64::MAX)]);
    assert_eq!(handle_action(&Action::Delay(7)), vec![Effect::Spawn(vec![Effect::Sleep(7)])]);
    assert_eq!(
        handle_action(&Action::Delay(u64::MAX)),
        vec![Effect::Spawn(vec![Effect::Sleep(u64::MAX)])]
    );
}

#[test]
fn all_but_a_delay_is_the_same_for_a_unit_and_for_the_dispatcher() {
    let actions = [
        Action::Nothing,
        Action::Tap(Key::A),
        Action::Press(Key::A),
        Action::Release(Key::A),
        Action::Sequence(vec![Action::Delay(4), Action::Tap(Key::B)]),
    ];
    for action in actions.iter() {
        assert_eq!(handle_action(action), unit_effects(action));
    }
}

#[test]
fn the_dispatcher_never_sleeps() {
    let long = Action::Sequence(vec![Action::Delay(1000), Action::Press(Key::A)]);
    let controls = [
        Control::Knob(Key::A, Key::B),
        Control::Button(Key::A),
        Control::Note(Key::A),
        Control::CustomKnob(Action::Delay(1000), long.clone()),
        Control::CustomButton(long.clone(), Action::Delay(1)),
        Control::CustomNote(Action::Delay(u64::MAX), Action::Nothing),
    ];
    for control in controls.iter() {
        for value in 0..=255u8 {
            if let Outcome::Run(effects) = handle_control(control, value) {
                assert!(effects.len() <= 1);
                assert!(effects.iter().all(|effect| !matches!(effect, Effect::Sleep(_))));
            }
        }
    }
}

#[test]
fn sequence_of_two_presses_keeps_their_order() {
    let action = Action::Sequence(vec![Action::Press(Key::A), Action::Press(Key::B)]);
    assert_eq!(
        handle_action(&action),
        vec![Effect::Spawn(vec![Effect::Press(Key::A), Effect::Press(Key::B)])]
    );
}

#[test]
fn sequence_of_any_length_keeps_the_order() {
    let keys = [
        Key::A, Key::B, Key::C, Key::D, Key::E, Key::F, Key::G, Key::H, Key::I, Key::J, Key::K,
    ];
    for length in 0..=keys.len() {
        let actions: Vec<Action> = keys[..length].iter().map(|key| Action::Press(*key)).collect();
        let expected: Vec<Effect> = keys[..length].iter().map(|key| Effect::Press(*key)).collect();
        assert_eq!(sequence(&actions), Effect::Spawn(expected));
    }
}

#[test]
fn empty_sequence_is_an_empty_unit() {
    assert_eq!(sequence(&Vec::new()), Effect::Spawn(Vec::new()));
    assert_eq!(handle_action(&Action::Sequence(Vec::new())), vec![Effect::Spawn(Vec::new())]);
}

#[test]
fn sequence_honours_delays_and_skips_nothing() {
    let action = Action::Sequence(vec![
        Action::Press(Key::Shift),
        Action::Nothing,
        Action::Delay(50),
        Action::Press(Key::A),
        Action::Delay(5),
        Action::Release(Key::A),
        Action::Release(Key::Shift),
    ]);
    assert_eq!(
        handle_action(&action),
        vec![Effect::Spawn(vec![
            Effect::Press(Key::Shift),
            Effect::Sleep(50),
            Effect::Press(Key::A),
            Effect::Sleep(5),
            Effect::Release(Key::A),
            Effect::Release(Key::Shift),
        ])]
    );
}

#[test]
fn taps_and_sequences_inside_a_sequence_get_units_of_their_own() {
    let action = Action::Sequence(vec![
        Action::Tap(Key::X),
        Action::Sequence(vec![Action::Delay(1), Action::Tap(Key::Y)]),
        Action::Press(Key::Z),
    ]);
    assert_eq!(
        handle_action(&action),
        vec![Effect::Spawn(vec![
            tap_of(Key::X),
            Effect::Spawn(vec![Effect::Sleep(1), tap_of(Key::Y)]),
            Effect::Press(Key::Z),
        ])]
    );
}

#[test]
fn knob_over_every_value() {
    let knob = Control::Knob(Key::Minus, Key::Equals);
    for value in 0..=255u8 {
        let outcome = handle_control(&knob, value);
        if value == 127 {
            assert_eq!(outcome, Outcome::Run(vec![tap_of(Key::Equals)]));
        } else if value <= 1 {
            assert_eq!(outcome, Outcome::Run(vec![tap_of(Key::Minus)]));
        } else {
            assert_eq!(outcome, Outcome::UnknownValue);
        }
    }
}

#[test]
fn custom_knob_over_every_value() {
    let low = Action::Sequence(vec![Action::Press(Key::Alt), Action::Tap(Key::Left)]);
    let high = Action::Delay(3);
    let knob = Control::CustomKnob(low.clone(), high.clone());
    for value in 0..=255u8 {
        let outcome = handle_control(&knob, value);
        if value == 127 {
            assert_eq!(outcome, Outcome::Run(handle_action(&high)));
            assert_eq!(outcome, Outcome::Run(vec![Effect::Spawn(vec![Effect::Sleep(3)])]));
        } else if value <= 1 {
            assert_eq!(outcome, Outcome::Run(handle_action(&low)));
            assert_eq!(
                outcome,
                Outcome::Run(vec![Effect::Spawn(vec![
                    Effect::Press(Key::Alt),
                    tap_of(Key::Left)
                ])])
            );
        } else {
            assert_eq!(outcome, Outcome::UnknownValue);
        }
    }
}

#[test]
fn button_over_every_value() {
    let button = Control::Button(Key::F1);
    for value in 0..=255u8 {
        let outcome = handle_control(&button, value);
        if value == 127 {
            assert_eq!(outcome, Outcome::Run(vec![Effect::Press(Key::F1)]));
        } else if value <= 1 {
            assert_eq!(outcome, Outcome::Run(vec![Effect::Release(Key::F1)]));
        } else {
            assert_eq!(outcome, Outcome::UnknownValue);
        }
    }
}

#[test]
fn custom_button_over_every_value() {
    let button = Control::CustomButton(Action::Tap(Key::M), Action::Nothing);
    for value in 0..=255u8 {
        let outcome = handle_control(&button, value);
        if value == 127 {
            assert_eq!(outcome, Outcome::Run(vec![tap_of(Key::M)]));
        } else if value <= 1 {
            assert_eq!(outcome, Outcome::Run(Vec::new()));
        } else {
            assert_eq!(outcome, Outcome::UnknownValue);
        }
    }
}

#[test]
fn note_over_every_value() {
    let note = Control::Note(Key::A);
    for value in 0..=255u8 {
        let outcome = handle_control(&note, value);
        if value > 72 {
            assert_eq!(outcome, Outcome::Run(vec![Effect::Press(Key::A)]));
        } else {
            assert_eq!(outcome, Outcome::Run(vec![Effect::Release(Key::A)]));
        }
    }
}

#[test]
fn note_threshold_is_between_72_and_73() {
    let note = Control::Note(Key::T);
    assert_eq!(handle_control(&note, 72), Outcome::Run(vec![Effect::Release(Key::T)]));
    assert_eq!(handle_control(&note, 73), Outcome::Run(vec![Effect::Press(Key::T)]));
}

#[test]
fn custom_note_over_every_value() {
    let note = Control::CustomNote(Action::Press(Key::Up), Action::Release(Key::Up));
    for value in 0..=255u8 {
        let outcome = handle_control(&note, value);
        if value > 72 {
            assert_eq!(outcome, Outcome::Run(vec![Effect::Press(Key::Up)]));
        } else {
            assert_eq!(outcome, Outcome::Run(vec![Effect::Release(Key::Up)]));
        }
    }
}

#[test]
fn knob_edges() {
    let knob = Control::Knob(Key::Comma, Key::Period);
    assert_eq!(handle_control(&knob, 0), Outcome::Run(vec![tap_of(Key::Comma)]));
    assert_eq!(handle_control(&knob, 1), Outcome::Run(vec![tap_of(Key::Comma)]));
    assert_eq!(handle_control(&knob, 2), Outcome::UnknownValue);
    assert_eq!(handle_control(&knob, 126), Outcome::UnknownValue);
    assert_eq!(handle_control(&knob, 127), Outcome::Run(vec![tap_of(Key::Period)]));
    assert_eq!(handle_control(&knob, 128), Outcome::UnknownValue);
}

#[test]
fn knob_behaves_as_the_custom_knob_of_two_taps() {
    let knob = Control::Knob(Key::Left, Key::Right);
    let custom = Control::CustomKnob(Action::Tap(Key::Left), Action::Tap(Key::Right));
    for value in 0..=255u8 {
        assert_eq!(handle_control(&knob, value), handle_control(&custom, value));
    }
}

#[test]
fn copies_are_equal_to_what_they_copy() {
    let action = Action::Sequence(vec![
        Action::Nothing,
        Action::Delay(9),
        Action::Tap(Key::A),
        Action::Sequence(vec![Action::Press(Key::B), Action::Release(Key::B)]),
    ]);
    assert_eq!(action.clone(), action);
    let control = Control::CustomNote(action.clone(), Action::Nothing);
    assert_eq!(control.clone(), control);
    assert_eq!(Control::Knob(Key::A, Key::B).clone(), Control::Knob(Key::A, Key::B));
    let effects = handle_action(&action);
    assert_eq!(effects.clone(), effects);
    let outcome = Outcome::Run(effects);
    assert_eq!(outcome.clone(), outcome);
    assert_eq!(Outcome::UnknownValue.clone(), Outcome::UnknownValue);
    assert_eq!(Outcome::Unmapped.clone(), Outcome::Unmapped);
}
