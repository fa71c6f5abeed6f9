use crate::midi::MidiMessage;
use crate::output::{handle_control, Control, ControlView, EffectView, Outcome, OutcomeView};
use crate::tray::TrayMessage;
use std::collections::HashMap;
use vstd::prelude::*;

verus! {

/// The channel of control-change traffic, which goes through the table of
/// controls. Every other channel is note traffic and goes through the table
/// of notes.
pub const CONTROL_CHANGE: u8 = 176;

/// The exit status of a quit that the user asked for.
pub const EXIT_OK: i32 = 0;

/// The controls that are bound to the identifiers of one kind of traffic.
pub struct MappingTable {
    bindings: HashMap<u8, Control>,
}

/// The values of a list of bindings, one by one.
pub open spec fn pair_views(pairs: Seq<(u8, Control)>) -> Seq<(u8, ControlView)> {
    pairs.map_values(|pair: (u8, Control)| (pair.0, pair.1@))
}

/// The table that a list of bindings makes: each identifier is bound to the
/// control of its last pair in the list.
pub open spec fn bindings_of(pairs: Seq<(u8, ControlView)>) -> Map<u8, ControlView>
    decreases pairs.len(),
{
    if pairs.len() == 0 {
        Map::empty()
    } else {
        bindings_of(pairs.drop_last()).insert(pairs.last().0, pairs.last().1)
    }
}

/// The last pair of an identifier counts: the table binds the identifier to
/// that pair's control, whatever stands before it in the list.
pub proof fn lemma_last_binding_counts(pairs: Seq<(u8, ControlView)>, index: int)
    requires
        0 <= index < pairs.len(),
        forall|later: int|
            index < later < pairs.len() ==> (#[trigger] pairs[later]).0 != pairs[index].0,
    ensures
        bindings_of(pairs).contains_key(pairs[index].0),
        bindings_of(pairs)[pairs[index].0] == pairs[index].1,
    decreases pairs.len(),
{
    if index < pairs.len() - 1 {
        assert(pairs.drop_last()[index] == pairs[index]);
        let front = pairs.drop_last();
        assert forall|later: int| index < later < front.len() implies (#[trigger] front[later]).0
            != front[index].0 by {
            assert(front[later] == pairs[later]);
        }
        lemma_last_binding_counts(front, index);
    }
}

/// An identifier that no pair of the list names is not bound.
pub proof fn lemma_unnamed_is_unbound(pairs: Seq<(u8, ControlView)>, id: u8)
    requires
        forall|index: int| 0 <= index < pairs.len() ==> (#[trigger] pairs[index]).0 != id,
    ensures
        !bindings_of(pairs).contains_key(id),
    decreases pairs.len(),
{
    if pairs.len() > 0 {
        assert(pairs.last() == pairs[pairs.len() - 1]);
        let front = pairs.drop_last();
        assert forall|index: int| 0 <= index < front.len() implies (#[trigger] front[index]).0
            != id by {
            assert(front[index] == pairs[index]);
        }
        lemma_unnamed_is_unbound(front, id);
    }
}

impl View for MappingTable {
    type V = Map<u8, ControlView>;

    closed spec fn view(&self) -> Map<u8, ControlView> {
        self.bindings@.map_values(|control: Control| control@)
    }
}

impl MappingTable {
    /// The table that binds nothing.
    pub fn new() -> (table: MappingTable)
        ensures
            table@ == Map::<u8, ControlView>::empty(),
    {
        let table = MappingTable { bindings: HashMap::new() };
        proof {
            assert(table@ =~= Map::<u8, ControlView>::empty());
        }
        table
    }

    /// Binds `control` to `id`, in place of what was bound to it before.
    pub fn bind(&mut self, id: u8, control: Control)
        ensures
            final(self)@ == old(self)@.insert(id, control@),
    {
        self.bindings.insert(id, control);
        proof {
            assert(self@ =~= old(self)@.insert(id, control@));
        }
    }

    /// The table that binds each identifier of `pairs` to its control. Where
    /// an identifier occurs more than once, its last pair counts.
    pub fn from_pairs(pairs: Vec<(u8, Control)>) -> (table: MappingTable)
        ensures
            table@ == bindings_of(pair_views(pairs@)),
    {
        let ghost all = pair_views(pairs@);
        let mut table = MappingTable::new();
        for pair in it: pairs.into_iter()
            invariant
                all == pair_views(it.seq()),
                table@ == bindings_of(all.take(it.index())),
        {
            let ghost done = it.index();
            proof {
                assert(all.take(done + 1).drop_last() =~= all.take(done));
                assert(all.take(done + 1).last() == (pair.0, pair.1@));
            }
            table.bind(pair.0, pair.1);
        }
        proof {
            assert(all.take(all.len() as int) =~= all);
        }
        table
    }

    /// Looks up the control that is bound to `id`. That none is bound is an
    /// ordinary answer, no failure.
    pub fn lookup(&self, id: u8) -> (found: Option<&Control>)
        ensures
            match found {
                Some(control) => self@.contains_key(id) && self@[id] == control@,
                None => !self@.contains_key(id),
            },
    {
        self.bindings.get(&id)
    }
}

/// The outcome of an event on channel `channel`, for the control `id`, with
/// `value`: the channel picks the table, the identifier the control in it,
/// and the control reads the value.
pub open spec fn dispatched(
    controls: Map<u8, ControlView>,
    notes: Map<u8, ControlView>,
    channel: u8,
    id: u8,
    value: u8,
) -> OutcomeView {
    let table = if channel == CONTROL_CHANGE {
        controls
    } else {
        notes
    };
    if table.contains_key(id) {
        table[id].outcome(value)
    } else {
        OutcomeView::Unmapped
    }
}

/// How many notices of an unrecognized event the host may log for an
/// outcome.
pub open spec fn notices(outcome: OutcomeView) -> nat {
    if outcome.unrecognized() {
        1
    } else {
        0
    }
}

/// What the event loop does about one message.
#[derive(Debug, PartialEq, Eq)]
pub enum Reaction {
    /// Tell the status icon this.
    Notify(TrayMessage),
    /// An event of the device was dispatched, with this outcome.
    Dispatch(Outcome),
    /// End the process with this status, at once.
    Exit(i32),
    /// Nothing.
    Ignore,
}

/// The mathematical value of a [`Reaction`].
pub enum ReactionView {
    Notify(TrayMessage),
    Dispatch(OutcomeView),
    Exit(i32),
    Ignore,
}

impl View for Reaction {
    type V = ReactionView;

    open spec fn view(&self) -> ReactionView {
        match self {
            Reaction::Notify(message) => ReactionView::Notify(*message),
            Reaction::Dispatch(outcome) => ReactionView::Dispatch(outcome@),
            Reaction::Exit(status) => ReactionView::Exit(*status),
            Reaction::Ignore => ReactionView::Ignore,
        }
    }
}

/// The reaction to a message of the transport: the status icon learns of a
/// connection, and an event of the device is dispatched.
pub open spec fn midi_reaction(
    controls: Map<u8, ControlView>,
    notes: Map<u8, ControlView>,
    message: MidiMessage,
) -> ReactionView {
    match message {
        MidiMessage::Connected => ReactionView::Notify(TrayMessage::Connected),
        MidiMessage::Data(channel, id, value) => ReactionView::Dispatch(
            dispatched(controls, notes, channel, id, value),
        ),
    }
}

/// The reaction to a message of the status icon: a quit ends the process
/// with `EXIT_OK`, nothing else matters.
pub open spec fn tray_reaction(message: TrayMessage) -> ReactionView {
    match message {
        TrayMessage::Quit => ReactionView::Exit(EXIT_OK),
        _ => ReactionView::Ignore,
    }
}

/// The two mapping tables of a device, which uses the same identifiers for
/// its controls and for its notes. The dispatcher only reads them.
pub struct Dispatcher {
    /// The controls of control-change traffic.
    pub controls: MappingTable,
    /// The controls of note traffic.
    pub notes: MappingTable,
}

impl Dispatcher {
    /// The dispatcher over the two tables.
    pub fn new(controls: MappingTable, notes: MappingTable) -> (dispatcher: Dispatcher)
        ensures
            dispatcher.controls@ == controls@,
            dispatcher.notes@ == notes@,
    {
        Dispatcher { controls, notes }
    }

    /// Decides what one event of the device asks for. Every event has an
    /// outcome, whatever its bytes, and the dispatcher is as it was.
    pub fn dispatch(&self, channel: u8, id: u8, value: u8) -> (outcome: Outcome)
        ensures
            outcome@ == dispatched(self.controls@, self.notes@, channel, id, value),
    {
        let found = if channel == CONTROL_CHANGE {
            self.controls.lookup(id)
        } else {
            self.notes.lookup(id)
        };
        match found {
            Some(control) => handle_control(control, value),
            None => Outcome::Unmapped,
        }
    }

    /// Decides what the event loop does about a message of the transport.
    pub fn on_midi(&self, message: MidiMessage) -> (reaction: Reaction)
        ensures
            reaction@ == midi_reaction(self.controls@, self.notes@, message),
    {
        match message {
            MidiMessage::Connected => Reaction::Notify(TrayMessage::Connected),
            MidiMessage::Data(channel, id, value) => Reaction::Dispatch(
                self.dispatch(channel, id, value),
            ),
        }
    }
}

/// Decides what the event loop does about a message of the status icon.
pub fn on_tray(message: TrayMessage) -> (reaction: Reaction)
    ensures
        reaction@ == tray_reaction(message),
        message == TrayMessage::Quit ==> reaction@ == ReactionView::Exit(0),
        message != TrayMessage::Quit ==> reaction@ == ReactionView::Ignore,
{
    match message {
        TrayMessage::Quit => Reaction::Exit(EXIT_OK),
        _ => Reaction::Ignore,
    }
}

/// The channel alone picks the table. On channel 176 an identifier that
/// only the notes bind dispatches nothing, and on any other channel an
/// identifier that only the controls bind dispatches nothing. Where the
/// picked table binds the identifier, the other table has no say.
pub proof fn lemma_routing(
    controls: Map<u8, ControlView>,
    notes: Map<u8, ControlView>,
    channel: u8,
    id: u8,
    value: u8,
)
    ensures
        channel == 176 && !controls.contains_key(id) ==> dispatched(
            controls,
            notes,
            channel,
            id,
            value,
        ) == OutcomeView::Unmapped,
        channel != 176 && !notes.contains_key(id) ==> dispatched(
            controls,
            notes,
            channel,
            id,
            value,
        ) == OutcomeView::Unmapped,
        channel == 176 && controls.contains_key(id) ==> dispatched(
            controls,
            notes,
            channel,
            id,
            value,
        ) == controls[id].outcome(value),
        channel != 176 && notes.contains_key(id) ==> dispatched(
            controls,
            notes,
            channel,
            id,
            value,
        ) == notes[id].outcome(value),
        dispatched(controls, notes, channel, id, value) == OutcomeView::Unmapped ==> dispatched(
            controls,
            notes,
            channel,
            id,
            value,
        ).effects() == Seq::<EffectView>::empty(),
{
}

/// Whatever the tables and the event, none of the effects that the
/// dispatcher performs itself is a sleep, so no event holds up the next one.
pub proof fn lemma_dispatch_never_sleeps(
    controls: Map<u8, ControlView>,
    notes: Map<u8, ControlView>,
    channel: u8,
    id: u8,
    value: u8,
    index: int,
)
    requires
        0 <= index < dispatched(controls, notes, channel, id, value).effects().len(),
    ensures
        !(dispatched(controls, notes, channel, id, value).effects()[index] is Sleep),
{
    let table = if channel == CONTROL_CHANGE {
        controls
    } else {
        notes
    };
    crate::output::lemma_dispatcher_never_sleeps(table[id], value, index);
}

/// An event is unrecognized at most once. It either runs the effects of one
/// action or is unrecognized, and then it does nothing. An identifier that
/// the picked table does not bind, in the device's range or beyond it, is
/// unrecognized, and every delivery of the same event has the same outcome.
pub proof fn lemma_unrecognized_once(
    controls: Map<u8, ControlView>,
    notes: Map<u8, ControlView>,
    channel: u8,
    id: u8,
    value: u8,
)
    ensures
        ({
            let outcome = dispatched(controls, notes, channel, id, value);
            &&& notices(outcome) <= 1
            &&& notices(outcome) == 1 <==> !(outcome is Run)
            &&& notices(outcome) == 1 ==> outcome.effects() == Seq::<EffectView>::empty()
            &&& !controls.contains_key(id) && !notes.contains_key(id) ==> outcome
                == OutcomeView::Unmapped
        }),
{
}

} // verus!
