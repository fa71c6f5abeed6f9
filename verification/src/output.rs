use crate::keyboard::Key;
use vstd::prelude::*;

verus! {

/// How long a tap holds its key down, in milliseconds: long enough for the
/// host to see the press as distinct from the release.
pub const TAP_HOLD_MS: u64 = 20;

/// The value with which a knob reports a tick to its high side and a button
/// reports that it went down.
pub const VALUE_HIGH: u8 = 127;

/// The largest value with which a knob reports a tick to its low side and a
/// button reports that it came up.
pub const VALUE_LOW_MAX: u8 = 1;

/// A note pad counts as down when its value is above this, as up otherwise.
pub const NOTE_THRESHOLD: u8 = 72;

/// An instruction to the keyboard, or an ordered composite of them.
#[derive(Debug, PartialEq, Eq)]
pub enum Action {
    /// Does nothing.
    Nothing,
    /// Suspends the unit that executes it for so many milliseconds.
    Delay(u64),
    /// Presses the key and releases it `TAP_HOLD_MS` later, in a unit of its own.
    Tap(Key),
    /// Presses the key, at once.
    Press(Key),
    /// Releases the key, at once.
    Release(Key),
    /// Executes the actions in order, in a unit of its own.
    Sequence(Vec<Action>),
}

/// The mathematical value of an [`Action`].
pub enum ActionView {
    Nothing,
    Delay(u64),
    Tap(Key),
    Press(Key),
    Release(Key),
    Sequence(Seq<ActionView>),
}

impl View for Action {
    type V = ActionView;

    open spec fn view(&self) -> ActionView
        decreases self,
    {
        match self {
            Action::Nothing => ActionView::Nothing,
            Action::Delay(ms) => ActionView::Delay(*ms),
            Action::Tap(key) => ActionView::Tap(*key),
            Action::Press(key) => ActionView::Press(*key),
            Action::Release(key) => ActionView::Release(*key),
            // The bounds are there for the termination check: they show
            // that only children are asked for their values.
            Action::Sequence(list) => ActionView::Sequence(
                Seq::new(
                    list@.len(),
                    |i: int|
                        if 0 <= i < list@.len() {
                            list@[i].view()
                        } else {
                            ActionView::Nothing
                        },
                ),
            ),
        }
    }
}

/// The values of a list of actions, one by one.
pub open spec fn action_views(list: Seq<Action>) -> Seq<ActionView> {
    list.map_values(|action: Action| action@)
}

/// The value of a sequence is the sequence of its children's values.
pub proof fn lemma_sequence_view(list: Vec<Action>)
    ensures
        Action::Sequence(list)@ == ActionView::Sequence(action_views(list@)),
{
    reveal_with_fuel(<Action as View>::view, 2);
    assert(Action::Sequence(list)@->Sequence_0 =~= action_views(list@));
}

/// One thing that the host does for the executor. Unlike an [`Action`] it
/// leaves nothing to decide.
#[derive(Debug, PartialEq, Eq)]
pub enum Effect {
    /// Suspend the unit that performs this effect for so many milliseconds.
    Sleep(u64),
    /// Inject a press of the key and go on when the system has taken it.
    Press(Key),
    /// Inject a release of the key and go on when the system has taken it.
    Release(Key),
    /// Start a unit of concurrency that performs these effects in order, and
    /// go on at once, without waiting for it.
    Spawn(Vec<Effect>),
}

/// The mathematical value of an [`Effect`].
pub enum EffectView {
    Sleep(u64),
    Press(Key),
    Release(Key),
    Spawn(Seq<EffectView>),
}

impl View for Effect {
    type V = EffectView;

    open spec fn view(&self) -> EffectView
        decreases self,
    {
        match self {
            Effect::Sleep(ms) => EffectView::Sleep(*ms),
            Effect::Press(key) => EffectView::Press(*key),
            Effect::Release(key) => EffectView::Release(*key),
            // The bounds are there for the termination check only.
            Effect::Spawn(body) => EffectView::Spawn(
                Seq::new(
                    body@.len(),
                    |i: int|
                        if 0 <= i < body@.len() {
                            body@[i].view()
                        } else {
                            EffectView::Sleep(0)
                        },
                ),
            ),
        }
    }
}

/// The values of a list of effects, one by one.
pub open spec fn effect_views(list: Seq<Effect>) -> Seq<EffectView> {
    list.map_values(|effect: Effect| effect@)
}

/// The value of a spawned unit is the sequence of its effects' values.
pub proof fn lemma_spawn_view(body: Vec<Effect>)
    ensures
        Effect::Spawn(body)@ == EffectView::Spawn(effect_views(body@)),
{
    reveal_with_fuel(<Effect as View>::view, 2);
    assert(Effect::Spawn(body)@->Spawn_0 =~= effect_views(body@));
}

/// The unit that a tap of `key` starts: press, hold for `TAP_HOLD_MS`, release.
pub open spec fn tap_effect(key: Key) -> EffectView {
    EffectView::Spawn(
        seq![EffectView::Press(key), EffectView::Sleep(TAP_HOLD_MS), EffectView::Release(key)],
    )
}

/// What the actions of `list` ask of one unit that executes them in order:
/// the effects of the first, then those of the second, and so on.
pub open spec fn effects_in_order(list: Seq<ActionView>) -> Seq<EffectView>
    decreases list,
{
    if list.len() == 0 {
        Seq::empty()
    } else {
        effects_in_order(list.drop_last()) + list.last().effects()
    }
}

impl ActionView {
    /// What executing the action asks of the unit that executes it, in
    /// order. A tap and a sequence ask for one thing only, a unit of their
    /// own, so that neither holds up who executes them.
    pub open spec fn effects(self) -> Seq<EffectView>
        decreases self,
    {
        match self {
            ActionView::Nothing => Seq::empty(),
            ActionView::Delay(ms) => seq![EffectView::Sleep(ms)],
            ActionView::Tap(key) => seq![tap_effect(key)],
            ActionView::Press(key) => seq![EffectView::Press(key)],
            ActionView::Release(key) => seq![EffectView::Release(key)],
            ActionView::Sequence(list) => seq![EffectView::Spawn(effects_in_order(list))],
        }
    }

    /// What executing the action asks of the dispatcher itself, in order.
    /// The dispatcher must never sleep, so for it a delay is a unit of its
    /// own that sleeps, and everything else is as in `effects`.
    pub open spec fn dispatcher_effects(self) -> Seq<EffectView> {
        match self {
            ActionView::Delay(ms) => seq![EffectView::Spawn(seq![EffectView::Sleep(ms)])],
            _ => self.effects(),
        }
    }
}

/// The values of two lists of effects, joined, are the values of the joined
/// list.
proof fn lemma_effect_views_concat(first: Seq<Effect>, second: Seq<Effect>)
    ensures
        effect_views(first + second) == effect_views(first) + effect_views(second),
{
    assert(effect_views(first + second) =~= effect_views(first) + effect_views(second));
}

/// The effect that suspends the unit that performs it for `ms` milliseconds.
pub fn sleep(ms: u64) -> (effect: Effect)
    ensures
        effect@ == EffectView::Sleep(ms),
{
    Effect::Sleep(ms)
}

/// The effect that presses `key`.
pub fn press(key: Key) -> (effect: Effect)
    ensures
        effect@ == EffectView::Press(key),
{
    Effect::Press(key)
}

/// The effect that releases `key`.
pub fn release(key: Key) -> (effect: Effect)
    ensures
        effect@ == EffectView::Release(key),
{
    Effect::Release(key)
}

/// The effect of a tap of `key`: a unit of its own that presses the key,
/// holds it for `TAP_HOLD_MS` and releases it.
pub fn tap(key: Key) -> (effect: Effect)
    ensures
        effect@ == tap_effect(key),
{
    let body = vec![press(key), sleep(TAP_HOLD_MS), release(key)];
    proof {
        lemma_spawn_view(body);
        assert(effect_views(body@) =~= tap_effect(key)->Spawn_0);
    }
    Effect::Spawn(body)
}

/// The effect of a sequence: a unit of its own that performs what the
/// actions of `seq` ask for, action by action, in the order of `seq`.
pub fn sequence(seq: &Vec<Action>) -> (effect: Effect)
    ensures
        effect@ == EffectView::Spawn(effects_in_order(action_views(seq@))),
    decreases seq,
{
    let ghost views = action_views(seq@);
    let mut body: Vec<Effect> = Vec::new();
    let mut i: usize = 0;
    proof {
        assert(effect_views(body@) =~= Seq::empty());
    }
    while i < seq.len()
        invariant
            i <= seq.len(),
            views == action_views(seq@),
            effect_views(body@) == effects_in_order(views.take(i as int)),
        decreases seq.len() - i,
    {
        let mut step = unit_effects(&seq[i]);
        proof {
            lemma_effect_views_concat(body@, step@);
            assert(views.take(i + 1).drop_last() =~= views.take(i as int));
            assert(views.take(i + 1).last() == seq[i as int]@);
        }
        body.append(&mut step);
        i += 1;
    }
    proof {
        assert(views.take(i as int) =~= views);
        lemma_spawn_view(body);
    }
    Effect::Spawn(body)
}

/// Decides what executing `action` asks of a unit that executes it as one
/// of its steps. The unit performs the effects in order, so a delay holds up
/// the unit, and only the unit.
pub fn unit_effects(action: &Action) -> (effects: Vec<Effect>)
    ensures
        effect_views(effects@) == action@.effects(),
    decreases action,
{
    let effects = match action {
        Action::Nothing => Vec::new(),
        Action::Delay(ms) => vec![sleep(*ms)],
        Action::Tap(key) => vec![tap(*key)],
        Action::Press(key) => vec![press(*key)],
        Action::Release(key) => vec![release(*key)],
        Action::Sequence(seq) => {
            proof {
                lemma_sequence_view(*seq);
            }
            vec![sequence(seq)]
        },
    };
    proof {
        assert(effect_views(effects@) =~= action@.effects());
    }
    effects
}

/// Decides what executing `action` asks of the dispatcher. The host performs
/// the effects in order and at once: none of them is a sleep, so executing
/// an action never holds up the dispatcher.
pub fn handle_action(action: &Action) -> (effects: Vec<Effect>)
    ensures
        effect_views(effects@) == action@.dispatcher_effects(),
{
    match action {
        Action::Delay(ms) => {
            let body = vec![sleep(*ms)];
            let effects = vec![Effect::Spawn(body)];
            proof {
                lemma_spawn_view(body);
                assert(effect_views(body@) =~= seq![EffectView::Sleep(*ms)]);
                assert(effect_views(effects@) =~= action@.dispatcher_effects());
            }
            effects
        },
        _ => unit_effects(action),
    }
}

/// One physical control of the device, with the two actions that it can
/// trigger.
#[derive(Debug, PartialEq, Eq)]
pub enum Control {
    /// A rotary encoder: a tick to the low side taps the first key, a tick to
    /// the high side taps the second.
    Knob(Key, Key),
    /// A button: holds the key down while it is down.
    Button(Key),
    /// A note pad: holds the key down while it is down.
    Note(Key),
    /// A rotary encoder with the action of its low side and that of its high
    /// side.
    CustomKnob(Action, Action),
    /// A button with the action for going down and that for coming up.
    CustomButton(Action, Action),
    /// A note pad with the action for going down and that for coming up.
    CustomNote(Action, Action),
}

/// The mathematical value of a [`Control`].
pub enum ControlView {
    Knob(Key, Key),
    Button(Key),
    Note(Key),
    CustomKnob(ActionView, ActionView),
    CustomButton(ActionView, ActionView),
    CustomNote(ActionView, ActionView),
}

impl View for Control {
    type V = ControlView;

    open spec fn view(&self) -> ControlView {
        match self {
            Control::Knob(low, high) => ControlView::Knob(*low, *high),
            Control::Button(key) => ControlView::Button(*key),
            Control::Note(key) => ControlView::Note(*key),
            Control::CustomKnob(low, high) => ControlView::CustomKnob(low@, high@),
            Control::CustomButton(down, up) => ControlView::CustomButton(down@, up@),
            Control::CustomNote(down, up) => ControlView::CustomNote(down@, up@),
        }
    }
}

/// What the dispatcher decided for one event.
#[derive(Debug, PartialEq, Eq)]
pub enum Outcome {
    /// The event selected an action: the host performs these effects, in
    /// order.
    Run(Vec<Effect>),
    /// The control is known, but the value selects neither of its actions.
    /// Nothing is to be done but, if the host likes, to log it.
    UnknownValue,
    /// No control is bound to the identifier. Nothing is to be done.
    Unmapped,
}

/// The mathematical value of an [`Outcome`].
pub enum OutcomeView {
    Run(Seq<EffectView>),
    UnknownValue,
    Unmapped,
}

impl View for Outcome {
    type V = OutcomeView;

    open spec fn view(&self) -> OutcomeView {
        match self {
            Outcome::Run(effects) => OutcomeView::Run(effect_views(effects@)),
            Outcome::UnknownValue => OutcomeView::UnknownValue,
            Outcome::Unmapped => OutcomeView::Unmapped,
        }
    }
}

impl OutcomeView {
    /// What the host performs for the outcome: nothing, unless an action was
    /// selected.
    pub open spec fn effects(self) -> Seq<EffectView> {
        match self {
            OutcomeView::Run(effects) => effects,
            _ => Seq::empty(),
        }
    }

    /// Whether the event was not recognized, for want of a control or of a
    /// rule for its value.
    pub open spec fn unrecognized(self) -> bool {
        !(self is Run)
    }
}

impl ControlView {
    /// Whether the control is a note pad, which reads its value against
    /// `NOTE_THRESHOLD`. The other controls know a high and a low value.
    pub open spec fn is_note(self) -> bool {
        self is Note || self is CustomNote
    }

    /// The action of the high side: of a knob's high side, or of a button or
    /// a note pad going down.
    pub open spec fn high_action(self) -> ActionView {
        match self {
            ControlView::Knob(_, high) => ActionView::Tap(high),
            ControlView::Button(key) => ActionView::Press(key),
            ControlView::Note(key) => ActionView::Press(key),
            ControlView::CustomKnob(_, high) => high,
            ControlView::CustomButton(down, _) => down,
            ControlView::CustomNote(down, _) => down,
        }
    }

    /// The action of the low side: of a knob's low side, or of a button or a
    /// note pad coming up.
    pub open spec fn low_action(self) -> ActionView {
        match self {
            ControlView::Knob(low, _) => ActionView::Tap(low),
            ControlView::Button(key) => ActionView::Release(key),
            ControlView::Note(key) => ActionView::Release(key),
            ControlView::CustomKnob(low, _) => low,
            ControlView::CustomButton(_, up) => up,
            ControlView::CustomNote(_, up) => up,
        }
    }

    /// The action that `value` selects, if it selects one.
    pub open spec fn selected(self, value: u8) -> Option<ActionView> {
        if self.is_note() {
            if value > NOTE_THRESHOLD {
                Some(self.high_action())
            } else {
                Some(self.low_action())
            }
        } else if value == VALUE_HIGH {
            Some(self.high_action())
        } else if value <= VALUE_LOW_MAX {
            Some(self.low_action())
        } else {
            None
        }
    }

    /// The outcome of an event with `value` on the control: the effects of
    /// the selected action, or that the value is unknown.
    pub open spec fn outcome(self, value: u8) -> OutcomeView {
        match self.selected(value) {
            Some(action) => OutcomeView::Run(action.dispatcher_effects()),
            None => OutcomeView::UnknownValue,
        }
    }
}

/// Decides what an event with the value `data` on `control` asks for.
pub fn handle_control(control: &Control, data: u8) -> (outcome: Outcome)
    ensures
        outcome@ == control@.outcome(data),
{
    match control {
        Control::Knob(low_key, high_key) => {
            if data == VALUE_HIGH {
                run(vec![tap(*high_key)])
            } else if data <= VALUE_LOW_MAX {
                run(vec![tap(*low_key)])
            } else {
                Outcome::UnknownValue
            }
        },
        Control::Button(key) => {
            if data == VALUE_HIGH {
                run(vec![press(*key)])
            } else if data <= VALUE_LOW_MAX {
                run(vec![release(*key)])
            } else {
                Outcome::UnknownValue
            }
        },
        Control::Note(key) => {
            if data > NOTE_THRESHOLD {
                run(vec![press(*key)])
            } else {
                run(vec![release(*key)])
            }
        },
        Control::CustomKnob(low, high) => {
            if data == VALUE_HIGH {
                Outcome::Run(handle_action(high))
            } else if data <= VALUE_LOW_MAX {
                Outcome::Run(handle_action(low))
            } else {
                Outcome::UnknownValue
            }
        },
        Control::CustomButton(down, up) => {
            if data == VALUE_HIGH {
                Outcome::Run(handle_action(down))
            } else if data <= VALUE_LOW_MAX {
                Outcome::Run(handle_action(up))
            } else {
                Outcome::UnknownValue
            }
        },
        Control::CustomNote(down, up) => {
            if data > NOTE_THRESHOLD {
                Outcome::Run(handle_action(down))
            } else {
                Outcome::Run(handle_action(up))
            }
        },
    }
}

impl Clone for Action {
    /// A copy with the same value.
    fn clone(&self) -> (copy: Action)
        ensures
            copy@ == self@,
        decreases self,
    {
        match self {
            Action::Nothing => Action::Nothing,
            Action::Delay(ms) => Action::Delay(*ms),
            Action::Tap(key) => Action::Tap(*key),
            Action::Press(key) => Action::Press(*key),
            Action::Release(key) => Action::Release(*key),
            Action::Sequence(list) => {
                let copies = clone_actions(list);
                proof {
                    lemma_sequence_view(*list);
                    lemma_sequence_view(copies);
                }
                Action::Sequence(copies)
            },
        }
    }
}

/// A copy of a list of actions, with the same values in the same order.
pub fn clone_actions(list: &Vec<Action>) -> (copies: Vec<Action>)
    ensures
        action_views(copies@) == action_views(list@),
    decreases list,
{
    let mut copies: Vec<Action> = Vec::new();
    let mut i: usize = 0;
    while i < list.len()
        invariant
            i <= list.len(),
            copies@.len() == i,
            forall|j: int| 0 <= j < i ==> copies@[j]@ == list@[j]@,
        decreases list.len() - i,
    {
        copies.push(list[i].clone());
        i += 1;
    }
    proof {
        assert(action_views(copies@) =~= action_views(list@));
    }
    copies
}

impl Clone for Effect {
    /// A copy with the same value.
    fn clone(&self) -> (copy: Effect)
        ensures
            copy@ == self@,
        decreases self,
    {
        match self {
            Effect::Sleep(ms) => Effect::Sleep(*ms),
            Effect::Press(key) => Effect::Press(*key),
            Effect::Release(key) => Effect::Release(*key),
            Effect::Spawn(body) => {
                let copies = clone_effects(body);
                proof {
                    lemma_spawn_view(*body);
                    lemma_spawn_view(copies);
                }
                Effect::Spawn(copies)
            },
        }
    }
}

/// A copy of a list of effects, with the same values in the same order.
pub fn clone_effects(list: &Vec<Effect>) -> (copies: Vec<Effect>)
    ensures
        effect_views(copies@) == effect_views(list@),
    decreases list,
{
    let mut copies: Vec<Effect> = Vec::new();
    let mut i: usize = 0;
    while i < list.len()
        invariant
            i <= list.len(),
            copies@.len() == i,
            forall|j: int| 0 <= j < i ==> copies@[j]@ == list@[j]@,
        decreases list.len() - i,
    {
        copies.push(list[i].clone());
        i += 1;
    }
    proof {
        assert(effect_views(copies@) =~= effect_views(list@));
    }
    copies
}

impl Clone for Control {
    /// A copy with the same value.
    fn clone(&self) -> (copy: Control)
        ensures
            copy@ == self@,
    {
        match self {
            Control::Knob(low, high) => Control::Knob(*low, *high),
            Control::Button(key) => Control::Button(*key),
            Control::Note(key) => Control::Note(*key),
            Control::CustomKnob(low, high) => Control::CustomKnob(low.clone(), high.clone()),
            Control::CustomButton(down, up) => Control::CustomButton(down.clone(), up.clone()),
            Control::CustomNote(down, up) => Control::CustomNote(down.clone(), up.clone()),
        }
    }
}

impl Clone for Outcome {
    /// A copy with the same value.
    fn clone(&self) -> (copy: Outcome)
        ensures
            copy@ == self@,
    {
        match self {
            Outcome::Run(effects) => Outcome::Run(clone_effects(effects)),
            Outcome::UnknownValue => Outcome::UnknownValue,
            Outcome::Unmapped => Outcome::Unmapped,
        }
    }
}

/// A knob reads two values only. 127 selects the action of its high side: a
/// tap of the second key, or the second action. A value up to 1 selects the
/// action of its low side: a tap of the first key, or the first action. On
/// every other value nothing is done.
pub proof fn lemma_knob_selection(control: ControlView, value: u8)
    requires
        control is Knob || control is CustomKnob,
    ensures
        control matches ControlView::Knob(low, high) ==> control.low_action() == ActionView::Tap(
            low,
        ) && control.high_action() == ActionView::Tap(high),
        control matches ControlView::CustomKnob(low, high) ==> control.low_action() == low
            && control.high_action() == high,
        value == 127 ==> control.selected(value) == Some(control.high_action()),
        value <= 1 ==> control.selected(value) == Some(control.low_action()),
        1 < value && value != 127 ==> control.selected(value) is None,
        control.selected(value) is None ==> control.outcome(value) == OutcomeView::UnknownValue
            && control.outcome(value).effects() == Seq::<EffectView>::empty(),
        control.selected(value) matches Some(action) ==> control.outcome(value).effects()
            == action.dispatcher_effects(),
{
}

/// A button reads two values only. 127 selects the action for going down: a
/// press of the key, or the first action. A value up to 1 selects the action
/// for coming up: a release of the key, or the second action. On every other
/// value nothing is done.
pub proof fn lemma_button_selection(control: ControlView, value: u8)
    requires
        control is Button || control is CustomButton,
    ensures
        control matches ControlView::Button(key) ==> control.high_action() == ActionView::Press(
            key,
        ) && control.low_action() == ActionView::Release(key),
        control matches ControlView::CustomButton(down, up) ==> control.high_action() == down
            && control.low_action() == up,
        value == 127 ==> control.selected(value) == Some(control.high_action()),
        value <= 1 ==> control.selected(value) == Some(control.low_action()),
        1 < value && value != 127 ==> control.selected(value) is None,
        control.selected(value) is None ==> control.outcome(value) == OutcomeView::UnknownValue
            && control.outcome(value).effects() == Seq::<EffectView>::empty(),
        control.selected(value) matches Some(action) ==> control.outcome(value).effects()
            == action.dispatcher_effects(),
{
}

/// A note pad reads every value. A value above 72 selects the action for
/// going down: a press of the key, or the first action. Every other value
/// selects the action for coming up: a release of the key, or the second
/// action. No value is left without an action.
pub proof fn lemma_note_selection(control: ControlView, value: u8)
    requires
        control is Note || control is CustomNote,
    ensures
        control matches ControlView::Note(key) ==> control.high_action() == ActionView::Press(key)
            && control.low_action() == ActionView::Release(key),
        control matches ControlView::CustomNote(down, up) ==> control.high_action() == down
            && control.low_action() == up,
        value > 72 ==> control.selected(value) == Some(control.high_action()),
        value <= 72 ==> control.selected(value) == Some(control.low_action()),
        control.selected(value) is Some,
        control.outcome(value) is Run,
        control.selected(value) matches Some(action) ==> control.outcome(value).effects()
            == action.dispatcher_effects(),
{
}

/// Whatever the control and the value, none of the effects that the
/// dispatcher performs itself is a sleep: all waiting is done by spawned
/// units, and the dispatcher is free for the next event at once.
pub proof fn lemma_dispatcher_never_sleeps(control: ControlView, value: u8, index: int)
    requires
        0 <= index < control.outcome(value).effects().len(),
    ensures
        !(control.outcome(value).effects()[index] is Sleep),
        control.outcome(value).effects().len() <= 1,
{
}

/// A tap of a key is one unit of its own that presses the key once, holds it
/// for 20 milliseconds and releases it once. It asks nothing else of who
/// executes it, and nothing that happens elsewhere changes it.
pub proof fn lemma_tap(key: Key)
    ensures
        ActionView::Tap(key).dispatcher_effects() == ActionView::Tap(key).effects(),
        ActionView::Tap(key).effects() == seq![
            EffectView::Spawn(
                seq![EffectView::Press(key), EffectView::Sleep(20), EffectView::Release(key)],
            ),
        ],
{
}

/// A sequence is one unit of its own that performs what its children ask
/// for, and it asks nothing else of who executes it.
pub proof fn lemma_sequence(list: Seq<ActionView>)
    ensures
        ActionView::Sequence(list).dispatcher_effects() == ActionView::Sequence(list).effects(),
        ActionView::Sequence(list).effects() == seq![EffectView::Spawn(effects_in_order(list))],
{
}

/// Where the effects of the action at `index` begin among the effects of
/// `list`: behind those of all the actions before it.
pub open spec fn start_of(list: Seq<ActionView>, index: int) -> int {
    effects_in_order(list.take(index)).len() as int
}

/// The effects of a list are those of any front part of it, then those of
/// the rest.
pub proof fn lemma_effects_split(list: Seq<ActionView>, at: int)
    requires
        0 <= at <= list.len(),
    ensures
        effects_in_order(list) == effects_in_order(list.take(at)) + effects_in_order(
            list.skip(at),
        ),
    decreases list.len(),
{
    if at == list.len() {
        assert(list.take(at) =~= list);
        assert(effects_in_order(list.skip(at)) =~= Seq::empty());
        assert(effects_in_order(list) =~= effects_in_order(list) + Seq::empty());
    } else {
        lemma_effects_split(list.drop_last(), at);
        assert(list.drop_last().take(at) =~= list.take(at));
        assert(list.drop_last().skip(at) =~= list.skip(at).drop_last());
        assert(list.skip(at).last() == list.last());
        assert(effects_in_order(list) =~= effects_in_order(list.take(at)) + effects_in_order(
            list.skip(at),
        ));
    }
}

/// Within a sequence the effects of the action at `index` stand together, as
/// that action asks for them, from `start_of(list, index)` on, and the
/// effects of the next action begin right behind them.
pub proof fn lemma_effects_block(list: Seq<ActionView>, index: int)
    requires
        0 <= index < list.len(),
    ensures
        start_of(list, index + 1) == start_of(list, index) + list[index].effects().len(),
        start_of(list, index + 1) <= effects_in_order(list).len(),
        effects_in_order(list).subrange(start_of(list, index), start_of(list, index + 1))
            == list[index].effects(),
{
    let front = list.take(index + 1);
    assert(front.drop_last() =~= list.take(index));
    assert(front.last() == list[index]);
    lemma_effects_split(list, index + 1);
    assert(effects_in_order(list).subrange(start_of(list, index), start_of(list, index + 1))
        =~= list[index].effects());
}

/// The effects of a later action never begin before those of an earlier one.
pub proof fn lemma_start_monotone(list: Seq<ActionView>, earlier: int, later: int)
    requires
        0 <= earlier <= later <= list.len(),
    ensures
        start_of(list, earlier) <= start_of(list, later),
{
    lemma_effects_split(list.take(later), earlier);
    assert(list.take(later).take(earlier) =~= list.take(earlier));
}

/// A sequence keeps the order of its children, whatever its length: in the
/// unit that it starts, all that an earlier child asks for comes before all
/// that a later child asks for, and each child's effects stand there
/// unchanged.
pub proof fn lemma_sequence_order(list: Seq<ActionView>, earlier: int, later: int)
    requires
        0 <= earlier < later < list.len(),
    ensures
        ({
            let body = effects_in_order(list);
            let first = list[earlier].effects();
            let second = list[later].effects();
            &&& ActionView::Sequence(list).effects() == seq![EffectView::Spawn(body)]
            &&& start_of(list, earlier) + first.len() <= start_of(list, later)
            &&& start_of(list, later) + second.len() <= body.len()
            &&& body.subrange(start_of(list, earlier), start_of(list, earlier) + first.len())
                == first
            &&& body.subrange(start_of(list, later), start_of(list, later) + second.len())
                == second
        }),
{
    lemma_effects_block(list, earlier);
    lemma_effects_block(list, later);
    lemma_start_monotone(list, earlier + 1, later);
}

/// Where every child asks for one effect (every action but `Nothing` does),
/// the unit of a sequence performs exactly one effect for each child, in the
/// children's order. So `Sequence([Press(a), Press(b)])` presses `a` and
/// then `b`.
pub proof fn lemma_sequence_one_to_one(list: Seq<ActionView>)
    requires
        forall|i: int| 0 <= i < list.len() ==> !(#[trigger] list[i] is Nothing),
    ensures
        effects_in_order(list).len() == list.len(),
        forall|i: int|
            0 <= i < list.len() ==> #[trigger] effects_in_order(list)[i] == list[i].effects()[0],
        forall|i: int|
            0 <= i < list.len() && list[i] is Press ==> #[trigger] effects_in_order(list)[i]
                == EffectView::Press(list[i]->Press_0),
    decreases list.len(),
{
    if list.len() > 0 {
        lemma_sequence_one_to_one(list.drop_last());
        assert(list.last().effects().len() == 1);
    }
}

/// The outcome that runs the one effect of `effects`.
fn run(effects: Vec<Effect>) -> (outcome: Outcome)
    requires
        effects@.len() == 1,
    ensures
        outcome@ == OutcomeView::Run(seq![effects@[0]@]),
{
    proof {
        assert(effect_views(effects@) =~= seq![effects@[0]@]);
    }
    Outcome::Run(effects)
}

} // verus!
