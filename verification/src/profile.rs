use crate::dispatch::{Dispatcher, MappingTable};
use crate::keyboard::Key;
use crate::output::{Action, ActionView, Control, ControlView};
use vstd::prelude::*;

verus! {

/// The value of a chord button: going down it presses `modifier` and then
/// `key`, coming up it releases `modifier` and then `key`.
pub open spec fn chord_view(modifier: Key, key: Key) -> ControlView {
    ControlView::CustomButton(
        ActionView::Sequence(seq![ActionView::Press(modifier), ActionView::Press(key)]),
        ActionView::Sequence(seq![ActionView::Release(modifier), ActionView::Release(key)]),
    )
}

/// A button that holds down `modifier` and `key` together while it is down.
pub fn chord(modifier: Key, key: Key) -> (control: Control)
    ensures
        control@ == chord_view(modifier, key),
{
    let down = vec![Action::Press(modifier), Action::Press(key)];
    let up = vec![Action::Release(modifier), Action::Release(key)];
    proof {
        crate::output::lemma_sequence_view(down);
        crate::output::lemma_sequence_view(up);
        assert(crate::output::action_views(down@) =~= seq![
            ActionView::Press(modifier),
            ActionView::Press(key),
        ]);
        assert(crate::output::action_views(up@) =~= seq![
            ActionView::Release(modifier),
            ActionView::Release(key),
        ]);
    }
    Control::CustomButton(Action::Sequence(down), Action::Sequence(up))
}

/// The control that the OP-1 profile binds to `id` in control-change
/// traffic, if it binds one.
pub open spec fn op1_control(id: u8) -> Option<ControlView> {
    match id {
        // The encoders, and each encoder pressed down
        1 => Some(ControlView::Knob(Key::Minus, Key::Equals)),
        64 => Some(chord_view(Key::Shift, Key::Minus)),
        2 => Some(ControlView::Knob(Key::BracketLeft, Key::BracketRight)),
        65 => Some(chord_view(Key::Shift, Key::BracketLeft)),
        3 => Some(ControlView::Knob(Key::SemiColon, Key::Quote)),
        66 => Some(chord_view(Key::Shift, Key::SemiColon)),
        4 => Some(ControlView::Knob(Key::Comma, Key::Period)),
        67 => Some(chord_view(Key::Shift, Key::Comma)),
        // The numbered row below the encoders
        50 => Some(ControlView::Button(Key::F1)),
        51 => Some(ControlView::Button(Key::F2)),
        52 => Some(ControlView::Button(Key::F3)),
        21 => Some(ControlView::Button(Key::F4)),
        22 => Some(ControlView::Button(Key::F5)),
        23 => Some(ControlView::Button(Key::F6)),
        24 => Some(ControlView::Button(Key::F7)),
        25 => Some(ControlView::Button(Key::F8)),
        // Microphone, COM and dots, to the right of the encoders
        48 => Some(ControlView::Button(Key::F12)),
        49 => Some(ControlView::Button(Key::F11)),
        26 => Some(ControlView::Button(Key::F10)),
        // The numbers under the screen
        11 => Some(ControlView::Button(Key::Num1)),
        12 => Some(ControlView::Button(Key::Num2)),
        13 => Some(ControlView::Button(Key::Num3)),
        14 => Some(ControlView::Button(Key::Num4)),
        // The arrows to the left of shift
        41 => Some(chord_view(Key::Shift, Key::Tab)),
        42 => Some(ControlView::Button(Key::Tab)),
        // The grid of nine on the left, laid out as a number pad
        7 => Some(ControlView::Button(Key::Num7)),
        8 => Some(ControlView::Button(Key::Num8)),
        9 => Some(ControlView::Button(Key::Num9)),
        15 => Some(ControlView::Button(Key::Num4)),
        16 => Some(ControlView::Button(Key::Num5)),
        17 => Some(ControlView::Button(Key::Num6)),
        38 => Some(ControlView::Button(Key::Num1)),
        39 => Some(ControlView::Button(Key::Num2)),
        40 => Some(ControlView::Button(Key::Num3)),
        // The keys under the volume knob
        10 => Some(ControlView::Button(Key::Num0)),
        5 => Some(ControlView::Button(Key::NumpadMinus)),
        6 => Some(ControlView::Button(Key::NumpadPlus)),
        _ => None,
    }
}

/// The control that the OP-1 profile binds to `id` in note traffic, if it
/// binds one: the keys of the device's keyboard are the letters from A on.
pub open spec fn op1_note(id: u8) -> Option<ControlView> {
    match id {
        53 => Some(ControlView::Note(Key::A)),
        54 => Some(ControlView::Note(Key::B)),
        55 => Some(ControlView::Note(Key::C)),
        56 => Some(ControlView::Note(Key::D)),
        57 => Some(ControlView::Note(Key::E)),
        58 => Some(ControlView::Note(Key::F)),
        59 => Some(ControlView::Note(Key::G)),
        60 => Some(ControlView::Note(Key::H)),
        61 => Some(ControlView::Note(Key::I)),
        62 => Some(ControlView::Note(Key::J)),
        63 => Some(ControlView::Note(Key::K)),
        64 => Some(ControlView::Note(Key::L)),
        65 => Some(ControlView::Note(Key::M)),
        66 => Some(ControlView::Note(Key::N)),
        67 => Some(ControlView::Note(Key::O)),
        68 => Some(ControlView::Note(Key::P)),
        69 => Some(ControlView::Note(Key::Q)),
        70 => Some(ControlView::Note(Key::R)),
        71 => Some(ControlView::Note(Key::S)),
        72 => Some(ControlView::Note(Key::T)),
        73 => Some(ControlView::Note(Key::U)),
        74 => Some(ControlView::Note(Key::V)),
        75 => Some(ControlView::Note(Key::W)),
        76 => Some(ControlView::Note(Key::X)),
        _ => None,
    }
}

/// The table whose bindings `binding` gives, identifier by identifier.
pub open spec fn table_of(binding: spec_fn(u8) -> Option<ControlView>) -> Map<u8, ControlView> {
    Map::new(|id: u8| binding(id) is Some, |id: u8| binding(id)->Some_0)
}

/// Builds the OP-1 profile's table of controls.
pub fn op1_controls() -> (table: MappingTable)
    ensures
        table@ == table_of(|id: u8| op1_control(id)),
{
    let mut table = MappingTable::new();
    // The encoders, and each encoder pressed down
    table.bind(1, Control::Knob(Key::Minus, Key::Equals));
    table.bind(64, chord(Key::Shift, Key::Minus));
    table.bind(2, Control::Knob(Key::BracketLeft, Key::BracketRight));
    table.bind(65, chord(Key::Shift, Key::BracketLeft));
    table.bind(3, Control::Knob(Key::SemiColon, Key::Quote));
    table.bind(66, chord(Key::Shift, Key::SemiColon));
    table.bind(4, Control::Knob(Key::Comma, Key::Period));
    table.bind(67, chord(Key::Shift, Key::Comma));
    // The numbered row below the encoders
    table.bind(50, Control::Button(Key::F1));
    table.bind(51, Control::Button(Key::F2));
    table.bind(52, Control::Button(Key::F3));
    table.bind(21, Control::Button(Key::F4));
    table.bind(22, Control::Button(Key::F5));
    table.bind(23, Control::Button(Key::F6));
    table.bind(24, Control::Button(Key::F7));
    table.bind(25, Control::Button(Key::F8));
    // Microphone, COM and dots, to the right of the encoders
    table.bind(48, Control::Button(Key::F12));
    table.bind(49, Control::Button(Key::F11));
    table.bind(26, Control::Button(Key::F10));
    // The numbers under the screen
    table.bind(11, Control::Button(Key::Num1));
    table.bind(12, Control::Button(Key::Num2));
    table.bind(13, Control::Button(Key::Num3));
    table.bind(14, Control::Button(Key::Num4));
    // The arrows to the left of shift
    table.bind(41, chord(Key::Shift, Key::Tab));
    table.bind(42, Control::Button(Key::Tab));
    // The grid of nine on the left, laid out as a number pad
    table.bind(7, Control::Button(Key::Num7));
    table.bind(8, Control::Button(Key::Num8));
    table.bind(9, Control::Button(Key::Num9));
    table.bind(15, Control::Button(Key::Num4));
    table.bind(16, Control::Button(Key::Num5));
    table.bind(17, Control::Button(Key::Num6));
    table.bind(38, Control::Button(Key::Num1));
    table.bind(39, Control::Button(Key::Num2));
    table.bind(40, Control::Button(Key::Num3));
    // The keys under the volume knob
    table.bind(10, Control::Button(Key::Num0));
    table.bind(5, Control::Button(Key::NumpadMinus));
    table.bind(6, Control::Button(Key::NumpadPlus));
    proof {
        assert(table@ =~= table_of(|id: u8| op1_control(id)));
    }
    table
}

/// Builds the OP-1 profile's table of notes.
pub fn op1_notes() -> (table: MappingTable)
    ensures
        table@ == table_of(|id: u8| op1_note(id)),
{
    let mut table = MappingTable::new();
    table.bind(53, Control::Note(Key::A));
    table.bind(54, Control::Note(Key::B));
    table.bind(55, Control::Note(Key::C));
    table.bind(56, Control::Note(Key::D));
    table.bind(57, Control::Note(Key::E));
    table.bind(58, Control::Note(Key::F));
    table.bind(59, Control::Note(Key::G));
    table.bind(60, Control::Note(Key::H));
    table.bind(61, Control::Note(Key::I));
    table.bind(62, Control::Note(Key::J));
    table.bind(63, Control::Note(Key::K));
    table.bind(64, Control::Note(Key::L));
    table.bind(65, Control::Note(Key::M));
    table.bind(66, Control::Note(Key::N));
    table.bind(67, Control::Note(Key::O));
    table.bind(68, Control::Note(Key::P));
    table.bind(69, Control::Note(Key::Q));
    table.bind(70, Control::Note(Key::R));
    table.bind(71, Control::Note(Key::S));
    table.bind(72, Control::Note(Key::T));
    table.bind(73, Control::Note(Key::U));
    table.bind(74, Control::Note(Key::V));
    table.bind(75, Control::Note(Key::W));
    table.bind(76, Control::Note(Key::X));
    proof {
        assert(table@ =~= table_of(|id: u8| op1_note(id)));
    }
    table
}

/// Builds the dispatcher of the OP-1 profile.
pub fn op1() -> (dispatcher: Dispatcher)
    ensures
        dispatcher.controls@ == table_of(|id: u8| op1_control(id)),
        dispatcher.notes@ == table_of(|id: u8| op1_note(id)),
{
    Dispatcher::new(op1_controls(), op1_notes())
}

/// The OP-1 profile binds identifiers of the device's range only, which ends
/// at 127. So an event with an identifier beyond it is unmapped on every
/// channel.
pub proof fn lemma_op1_in_range(channel: u8, id: u8, value: u8)
    ensures
        op1_control(id) is Some ==> 1 <= id <= 67,
        op1_note(id) is Some <==> 53 <= id <= 76,
        id > 127 ==> crate::dispatch::dispatched(
            table_of(|id: u8| op1_control(id)),
            table_of(|id: u8| op1_note(id)),
            channel,
            id,
            value,
        ) == crate::output::OutcomeView::Unmapped,
{
}

} // verus!
