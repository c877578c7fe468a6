//! The trigger: key presses on an input device become `Play` commands.
//!
//! The program opens the device and fetches its events in batches; each
//! batch goes through [`run_actor`], and the commands it returns are sent to
//! the audio actor in order.
use vstd::prelude::*;

use crate::actor::AudioCommand;
use crate::audio::playback::{apply_command, PlaybackView};
use crate::config::TriggerConfig;

verus! {

/// One input event as the kernel reports it.
#[derive(Debug, Clone, Copy, PartialEq, Eq, Structural)]
pub struct InputEventInfo {
    pub event_type: u16,
    pub code: u16,
    pub value: i32,
}

/// The key event type of the input subsystem.
pub open spec fn ev_key() -> u16 {
    1
}

/// `evdev::InputEvent::new(type, code, value).destructure()`, told apart
/// into its `EventSummary::Key` variant. In the crate's source an event is a
/// key event exactly when its type is `EventType::KEY` (1), and the variant
/// then carries the event's code as the key and its value.
#[verifier::external_body]
fn key_event_parts(e: &InputEventInfo) -> (r: Option<(u16, i32)>)
    ensures
        r == (if e.event_type == ev_key() {
            Some((e.code, e.value))
        } else {
            None::<(u16, i32)>
        }),
{
    match ::evdev::InputEvent::new(e.event_type, e.code, e.value).destructure() {
        ::evdev::EventSummary::Key(_, key, value) => Some((key.0, value)),
        _ => None,
    }
}

/// Whether an event is a press (value 1) of the key `target`.
pub open spec fn is_trigger(target: u16, e: InputEventInfo) -> bool {
    e.event_type == ev_key() && e.code == target && e.value == 1
}

/// The commands a run of events gives: one `Play` per press of the target
/// key, in order.
pub open spec fn commands_for(target: u16, events: Seq<InputEventInfo>) -> Seq<AudioCommand>
    decreases events.len(),
{
    if events.len() == 0 {
        Seq::empty()
    } else {
        let prev = commands_for(target, events.drop_last());
        if is_trigger(target, events.last()) {
            prev.push(AudioCommand::Play)
        } else {
            prev
        }
    }
}

/// The command, if any, that one event gives.
pub fn command_for_event(config: &TriggerConfig, e: &InputEventInfo) -> (c: Option<AudioCommand>)
    ensures
        c == (if is_trigger(config.keycode.0, *e) {
            Some(AudioCommand::Play)
        } else {
            None::<AudioCommand>
        }),
        c is Some <==> (e.event_type == 1 && e.code == config.keycode.0 && e.value == 1),
        c is Some ==> c == Some(AudioCommand::Play),
        e.value != 1 ==> c is None,
{
    match key_event_parts(e) {
        Some((key, value)) => {
            if value == 1 && key == config.keycode.code() {
                Some(AudioCommand::Play)
            } else {
                None
            }
        },
        None => None,
    }
}

/// Handles one batch of events from the trigger device: the commands to
/// send to the audio actor, in order.
pub fn run_actor(config: &TriggerConfig, events: &Vec<InputEventInfo>) -> (cmds: Vec<AudioCommand>)
    ensures
        cmds@ == commands_for(config.keycode.0, events@),
{
    let mut cmds: Vec<AudioCommand> = Vec::new();
    let mut i: usize = 0;
    while i < events.len()
        invariant
            i <= events@.len(),
            cmds@ == commands_for(config.keycode.0, events@.take(i as int)),
        decreases events@.len() - i,
    {
        assert(events@.take(i + 1).drop_last() =~= events@.take(i as int));
        match command_for_event(config, &events[i]) {
            Some(c) => cmds.push(c),
            None => {},
        }
        i = i + 1;
    }
    assert(events@.take(events@.len() as int) =~= events@);
    cmds
}

/// Commands do not depend on how events are split into batches: handling
/// two batches one after the other sends what handling them as one would.
pub proof fn lemma_commands_batch_split(
    target: u16,
    a: Seq<InputEventInfo>,
    b: Seq<InputEventInfo>,
)
    ensures
        commands_for(target, a + b) == commands_for(target, a) + commands_for(target, b),
    decreases b.len(),
{
    if b.len() == 0 {
        assert(a + b =~= a);
        assert(commands_for(target, a) + Seq::<AudioCommand>::empty() =~= commands_for(target, a));
    } else {
        lemma_commands_batch_split(target, a, b.drop_last());
        assert((a + b).drop_last() =~= a + b.drop_last());
        assert((a + b).last() == b.last());
        let ca = commands_for(target, a);
        let cb = commands_for(target, b.drop_last());
        assert((ca + cb).push(AudioCommand::Play) =~= ca + cb.push(AudioCommand::Play));
    }
}

/// Every command the trigger sends is `Play`, and there is one per press of
/// the target key: releases, repeats, other keys and other event types send
/// nothing.
pub proof fn lemma_commands_are_presses(target: u16, events: Seq<InputEventInfo>)
    ensures
        forall|i: int|
            0 <= i < commands_for(target, events).len() ==> #[trigger] commands_for(
                target,
                events,
            )[i] == AudioCommand::Play,
        commands_for(target, events).len() == events.filter(|e: InputEventInfo| is_trigger(target, e)).len(),
    decreases events.len(),
{
    reveal_with_fuel(Seq::<_>::filter, 1);
    if events.len() > 0 {
        lemma_commands_are_presses(target, events.drop_last());
    }
}

/// A press of the configured key restarts playback from the first point of
/// the sample, whatever the stream was doing: the batch holding only that
/// press sends one `Play`, and the audio actor applies it.
pub proof fn lemma_press_restarts_playback(target: u16, e: InputEventInfo, s: PlaybackView)
    requires
        is_trigger(target, e),
    ensures
        commands_for(target, seq![e]) == seq![AudioCommand::Play],
        apply_command(s, commands_for(target, seq![e])[0]) == (PlaybackView {
            len: s.len,
            playing: true,
            index: 0,
        }),
{
    assert(seq![e].drop_last() =~= Seq::<InputEventInfo>::empty());
    assert(seq![e].last() == e);
    assert(commands_for(target, Seq::<InputEventInfo>::empty()) == Seq::<AudioCommand>::empty());
    assert(Seq::<AudioCommand>::empty().push(AudioCommand::Play) =~= seq![AudioCommand::Play]);
}

/// An event triggers exactly when it is a key event (type 1) of the target
/// key with value 1, a press: releases (0) and autorepeats (2) never do.
pub proof fn lemma_trigger_only_on_press(target: u16, e: InputEventInfo)
    ensures
        is_trigger(target, e) <==> (e.event_type == 1 && e.code == target && e.value == 1),
        e.value == 0 ==> commands_for(target, seq![e]).len() == 0,
        e.value == 2 ==> commands_for(target, seq![e]).len() == 0,
        (e.event_type == 1 && e.code == target && e.value == 1) ==> commands_for(
            target,
            seq![e],
        ) == seq![AudioCommand::Play],
{
    assert(seq![e].drop_last() =~= Seq::<InputEventInfo>::empty());
    assert(seq![e].last() == e);
    assert(commands_for(target, Seq::<InputEventInfo>::empty()) == Seq::<AudioCommand>::empty());
    assert(Seq::<AudioCommand>::empty().push(AudioCommand::Play) =~= seq![AudioCommand::Play]);
}

/// Holding a key sends one command: a press followed by any number of
/// autorepeats and a release gives a single `Play`.
pub proof fn lemma_held_key_plays_once(target: u16, repeats: nat)
    ensures
        ({
            let press = InputEventInfo { event_type: 1, code: target, value: 1 };
            let repeat = InputEventInfo { event_type: 1, code: target, value: 2 };
            let release = InputEventInfo { event_type: 1, code: target, value: 0 };
            commands_for(
                target,
                seq![press] + Seq::new(repeats, |i: int| repeat) + seq![release],
            ) == seq![AudioCommand::Play]
        }),
    decreases repeats,
{
    let press = InputEventInfo { event_type: 1, code: target, value: 1 };
    let repeat = InputEventInfo { event_type: 1, code: target, value: 2 };
    let release = InputEventInfo { event_type: 1, code: target, value: 0 };
    lemma_trigger_only_on_press(target, press);
    lemma_trigger_only_on_press(target, repeat);
    lemma_trigger_only_on_press(target, release);
    lemma_repeats_send_nothing(target, repeats);
    let rs = Seq::new(repeats, |i: int| repeat);
    lemma_commands_batch_split(target, seq![press] + rs, seq![release]);
    lemma_commands_batch_split(target, seq![press], rs);
    assert(seq![AudioCommand::Play] + Seq::<AudioCommand>::empty() =~= seq![AudioCommand::Play]);
}

/// Autorepeat events of any key send nothing.
proof fn lemma_repeats_send_nothing(target: u16, repeats: nat)
    ensures
        commands_for(
            target,
            Seq::new(repeats, |i: int| InputEventInfo { event_type: 1, code: target, value: 2 }),
        ) == Seq::<AudioCommand>::empty(),
    decreases repeats,
{
    let repeat = InputEventInfo { event_type: 1, code: target, value: 2 };
    if repeats > 0 {
        lemma_repeats_send_nothing(target, (repeats - 1) as nat);
        assert(Seq::new(repeats, |i: int| repeat).drop_last() =~= Seq::new(
            (repeats - 1) as nat,
            |i: int| repeat,
        ));
    }
}

} // verus!
