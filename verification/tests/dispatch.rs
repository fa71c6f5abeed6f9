use op1nput::dispatch::{on_tray, Dispatcher, MappingTable, Reaction, CONTROL_CHANGE, EXIT_OK};
use op1nput::keyboard::Key;
use op1nput::midi::MidiMessage;
use op1nput::output::{Action, Control, Effect, Outcome};
use op1nput::tray::TrayMessage;

fn tap_of(key: Key) -> Effect {
    Effect::Spawn(vec![Effect::Press(key), Effect::Sleep(20), Effect::Release(key)])
}

fn one_knob_one_note() -> Dispatcher {
    Dispatcher::new(
        MappingTable::from_pairs(vec![(1, Control::Knob(Key::Minus, Key::Equals))]),
        MappingTable::from_pairs(vec![(53, Control::Note(Key::A))]),
    )
}

#[test]
fn empty_table_binds_nothing() {
    let table = MappingTable::new();
    for id in 0..=255u8 {
        assert_eq!(table.lookup(id), None);
    }
}

#[test]
fn lookup_finds_what_was_bound() {
    let mut table = MappingTable::new();
    table.bind(7, Control::Button(Key::Num7));
    table.bind(8, Control::Button(Key::Num8));
    assert_eq!(table.lookup(7), Some(&Control::Button(Key::Num7)));
    assert_eq!(table.lookup(8), Some(&Control::Button(Key::Num8)));
    assert_eq!(table.lookup(9), None);
}

#[test]
fn a_later_binding_replaces_an_earlier_one() {
    let table = MappingTable::from_pairs(vec![
        (3, Control::Button(Key::A)),
        (4, Control::Button(Key::B)),
        (3, Control::Note(Key::C)),
    ]);
    assert_eq!(table.lookup(3), Some(&Control::Note(Key::C)));
    assert_eq!(table.lookup(4), Some(&Control::Button(Key::B)));
    let mut bound = MappingTable::new();
    bound.bind(3, Control::Button(Key::A));
    bound.bind(3, Control::Note(Key::C));
    assert_eq!(bound.lookup(3), Some(&Control::Note(Key::C)));
}

#[test]
fn table_of_no_pairs_is_empty() {
    let table = MappingTable::from_pairs(Vec::new());
    assert_eq!(table.lookup(0), None);
    assert_eq!(table.lookup(127), None);
}

#[test]
fn control_change_channel_is_176() {
    assert_eq!(CONTROL_CHANGE, 176);
}

#[test]
fn knob_scenario_end_to_end() {
    let dispatcher = one_knob_one_note();
    assert_eq!(dispatcher.dispatch(176, 1, 127), Outcome::Run(vec![tap_of(Key::Equals)]));
    assert_eq!(dispatcher.dispatch(176, 1, 0), Outcome::Run(vec![tap_of(Key::Minus)]));
    assert_eq!(dispatcher.dispatch(176, 1, 64), Outcome::UnknownValue);
}

#[test]
fn note_scenario_end_to_end() {
    let dispatcher = one_knob_one_note();
    // The press carries no release: the key stays down ...
    assert_eq!(dispatcher.dispatch(0, 53, 90), Outcome::Run(vec![Effect::Press(Key::A)]));
    // ... until a later event with a value of at most 72 arrives.
    assert_eq!(dispatcher.dispatch(0, 53, 72), Outcome::Run(vec![Effect::Release(Key::A)]));
    assert_eq!(dispatcher.dispatch(0, 53, 0), Outcome::Run(vec![Effect::Release(Key::A)]));
}

#[test]
fn the_channel_alone_picks_the_table() {
    let dispatcher = one_knob_one_note();
    // 53 is bound among the notes only.
    assert_eq!(dispatcher.dispatch(176, 53, 90), Outcome::Unmapped);
    // 1 is bound among the controls only.
    for channel in 0..=255u8 {
        if channel != 176 {
            assert_eq!(dispatcher.dispatch(channel, 1, 127), Outcome::Unmapped);
            assert_eq!(
                dispatcher.dispatch(channel, 53, 90),
                Outcome::Run(vec![Effect::Press(Key::A)])
            );
        }
    }
}

#[test]
fn the_same_identifier_may_be_bound_in_both_tables() {
    let dispatcher = Dispatcher::new(
        MappingTable::from_pairs(vec![(64, Control::Button(Key::F1))]),
        MappingTable::from_pairs(vec![(64, Control::Note(Key::L))]),
    );
    assert_eq!(dispatcher.dispatch(176, 64, 127), Outcome::Run(vec![Effect::Press(Key::F1)]));
    assert_eq!(dispatcher.dispatch(144, 64, 127), Outcome::Run(vec![Effect::Press(Key::L)]));
    assert_eq!(dispatcher.dispatch(176, 64, 64), Outcome::UnknownValue);
    assert_eq!(dispatcher.dispatch(144, 64, 64), Outcome::Run(vec![Effect::Release(Key::L)]));
}

#[test]
fn identifiers_beyond_the_range_are_unmapped() {
    let dispatcher = one_knob_one_note();
    for id in 128..=255u8 {
        for channel in [0u8, 144, 176, 255] {
            assert_eq!(dispatcher.dispatch(channel, id, 127), Outcome::Unmapped);
        }
    }
    assert_eq!(dispatcher.dispatch(176, 200, 0), Outcome::Unmapped);
}

#[test]
fn repeated_delivery_gives_the_same_outcome() {
    let dispatcher = one_knob_one_note();
    for (channel, id, value) in [(176u8, 1u8, 127u8), (176, 1, 64), (176, 200, 5), (0, 53, 90)] {
        let first = dispatcher.dispatch(channel, id, value);
        for _ in 0..50 {
            assert_eq!(dispatcher.dispatch(channel, id, value), first);
        }
    }
}

#[test]
fn custom_button_runs_its_sequences() {
    let dispatcher = Dispatcher::new(
        MappingTable::from_pairs(vec![(
            64,
            Control::CustomButton(
                Action::Sequence(vec![Action::Press(Key::Shift), Action::Press(Key::Minus)]),
                Action::Sequence(vec![Action::Release(Key::Shift), Action::Release(Key::Minus)]),
            ),
        )]),
        MappingTable::new(),
    );
    assert_eq!(
        dispatcher.dispatch(176, 64, 127),
        Outcome::Run(vec![Effect::Spawn(vec![
            Effect::Press(Key::Shift),
            Effect::Press(Key::Minus)
        ])])
    );
    assert_eq!(
        dispatcher.dispatch(176, 64, 1),
        Outcome::Run(vec![Effect::Spawn(vec![
            Effect::Release(Key::Shift),
            Effect::Release(Key::Minus)
        ])])
    );
}

#[test]
fn connection_is_passed_on_to_the_icon() {
    let dispatcher = one_knob_one_note();
    assert_eq!(
        dispatcher.on_midi(MidiMessage::Connected),
        Reaction::Notify(TrayMessage::Connected)
    );
}

#[test]
fn data_is_dispatched() {
    let dispatcher = one_knob_one_note();
    assert_eq!(
        dispatcher.on_midi(MidiMessage::Data(176, 1, 127)),
        Reaction::Dispatch(Outcome::Run(vec![tap_of(Key::Equals)]))
    );
    assert_eq!(
        dispatcher.on_midi(MidiMessage::Data(176, 1, 50)),
        Reaction::Dispatch(Outcome::UnknownValue)
    );
    assert_eq!(
        dispatcher.on_midi(MidiMessage::Data(176, 2, 127)),
        Reaction::Dispatch(Outcome::Unmapped)
    );
}

#[test]
fn only_quit_ends_the_process() {
    assert_eq!(EXIT_OK, 0);
    assert_eq!(on_tray(TrayMessage::Quit), Reaction::Exit(0));
    assert_eq!(on_tray(TrayMessage::Connected), Reaction::Ignore);
    assert_eq!(on_tray(TrayMessage::Disconnected), Reaction::Ignore);
}
