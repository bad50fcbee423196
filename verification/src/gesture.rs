//! The gesture detector: from raw key events to switch intents.
//!
//! Two gestures are recognised. The chord is a press of the chord key while
//! control is down; it asks for the primary engine at once. The combo is the
//! primary modifier held across a press of the secondary key; it is complete
//! only when the modifier is let go, and then asks for reconciliation.

use crate::engine::{Config, ConfigView, Intent, IntentView, intent_view};
use crate::keys::{Key, KeyEvent, Modifier, ModifierState, modifier_held, modifier_of, record_spec};
use vstd::prelude::*;

verus! {

/// How far the combo has come.
#[derive(Clone, Copy, Debug, PartialEq, Eq, Structural)]
pub enum GestureState {
    /// The primary modifier has not been pressed since the last release.
    Idle,
    /// The primary modifier is down and the secondary key has not been pressed yet.
    ComboModifierHeld,
    /// The secondary key was pressed while the primary modifier was down.
    ComboDetected,
}

/// What the detector knows: the modifier keys that are down and the state of the combo.
pub struct KeyboardView {
    pub held: Set<Key>,
    pub gesture: GestureState,
}

/// Whether `key` is one of the two physical keys of the primary modifier.
pub open spec fn is_primary_key(config: ConfigView, key: Key) -> bool {
    modifier_of(key) == Some(config.primary_modifier)
}

/// Whether `key` matters to the detector at all: a modifier key, the
/// secondary key or the chord key.
pub open spec fn is_tracked_key(config: ConfigView, key: Key) -> bool {
    modifier_of(key) is Some || key == config.secondary_key || key == config.chord_key
}

/// Whether `event` lets go of the primary modifier.
pub open spec fn releases_primary(config: ConfigView, event: KeyEvent) -> bool {
    !event.pressed && is_primary_key(config, event.key)
}

/// The state of the combo after `event`.
pub open spec fn gesture_after(config: ConfigView, gesture: GestureState, event: KeyEvent)
    -> GestureState {
    match gesture {
        GestureState::Idle => if event.pressed && is_primary_key(config, event.key) {
            GestureState::ComboModifierHeld
        } else {
            GestureState::Idle
        },
        GestureState::ComboModifierHeld => if releases_primary(config, event) {
            GestureState::Idle
        } else if event.pressed && event.key == config.secondary_key {
            GestureState::ComboDetected
        } else {
            GestureState::ComboModifierHeld
        },
        GestureState::ComboDetected => if releases_primary(config, event) {
            GestureState::Idle
        } else {
            GestureState::ComboDetected
        },
    }
}

/// Whether `event` is a press of the chord key with control down.
pub open spec fn strikes_chord(config: ConfigView, held: Set<Key>, event: KeyEvent) -> bool {
    event.pressed && event.key == config.chord_key && modifier_held(held, Modifier::Control)
}

/// Whether `event` completes a detected combo.
pub open spec fn completes_combo(config: ConfigView, gesture: GestureState, event: KeyEvent)
    -> bool {
    gesture == GestureState::ComboDetected && releases_primary(config, event)
}

/// The intent that `event` gives rise to, if any. A chord is a press and a
/// combo ends on a release, so no event gives rise to both.
pub open spec fn key_intent(config: ConfigView, keyboard: KeyboardView, event: KeyEvent) -> Option<
    IntentView,
> {
    if strikes_chord(config, keyboard.held, event) {
        Some(IntentView::ForceSwitch(config.primary_engine))
    } else if completes_combo(config, keyboard.gesture, event) {
        Some(IntentView::ReconcilePending)
    } else {
        None
    }
}

/// What the detector knows after `event`.
pub open spec fn keyboard_after(config: ConfigView, keyboard: KeyboardView, event: KeyEvent)
    -> KeyboardView {
    KeyboardView {
        held: record_spec(keyboard.held, event.key, event.pressed),
        gesture: gesture_after(config, keyboard.gesture, event),
    }
}

/// What the detector knows after a whole series of events.
pub open spec fn keyboard_after_all(
    config: ConfigView,
    keyboard: KeyboardView,
    events: Seq<KeyEvent>,
) -> KeyboardView
    decreases events.len(),
{
    if events.len() == 0 {
        keyboard
    } else {
        keyboard_after(
            config,
            keyboard_after_all(config, keyboard, events.drop_last()),
            events.last(),
        )
    }
}

/// The intents that a series of events gives rise to, one entry per event.
pub open spec fn key_intents(config: ConfigView, keyboard: KeyboardView, events: Seq<KeyEvent>)
    -> Seq<Option<IntentView>> {
    Seq::new(
        events.len(),
        |i: int| key_intent(config, keyboard_after_all(config, keyboard, events.take(i)), events[i]),
    )
}

/// A combo can only be under way while the primary modifier is down.
pub open spec fn keyboard_consistent(config: ConfigView, keyboard: KeyboardView) -> bool {
    keyboard.gesture != GestureState::Idle ==> modifier_held(keyboard.held, config.primary_modifier)
}

/// The gesture detector, layered on the modifier tracker.
#[derive(Clone, Copy, Debug)]
pub struct GestureDetector {
    modifiers: ModifierState,
    gesture: GestureState,
}

impl View for GestureDetector {
    type V = KeyboardView;

    closed spec fn view(&self) -> KeyboardView {
        KeyboardView { held: self.modifiers@, gesture: self.gesture }
    }
}

impl GestureDetector {
    /// A detector that has seen no event: no key down, no combo under way.
    pub fn new() -> (detector: GestureDetector)
        ensures
            detector@ == (KeyboardView { held: Set::<Key>::empty(), gesture: GestureState::Idle }),
    {
        GestureDetector { modifiers: ModifierState::new(), gesture: GestureState::Idle }
    }

    /// The state of the combo.
    pub fn gesture(&self) -> (gesture: GestureState)
        ensures
            gesture == self@.gesture,
    {
        self.gesture
    }

    /// The modifier tracker.
    pub fn modifiers(&self) -> (modifiers: &ModifierState)
        ensures
            modifiers@ == self@.held,
    {
        &self.modifiers
    }

    /// Takes one key event and says which intent, if any, it gives rise to.
    ///
    /// A key that is not tracked changes nothing and gives rise to nothing.
    pub fn on_key(&mut self, config: &Config, event: KeyEvent) -> (intent: Option<Intent>)
        ensures
            final(self)@ == keyboard_after(config@, old(self)@, event),
            intent_view(intent) == key_intent(config@, old(self)@, event),
            !is_tracked_key(config@, event.key) ==> final(self)@ == old(self)@ && intent is None,
            keyboard_consistent(config@, old(self)@) ==> keyboard_consistent(
                config@,
                final(self)@,
            ),
    {
        let primary = match event.key.modifier() {
            Some(m) => m == config.primary_modifier,
            None => false,
        };
        let chord = event.pressed && event.key == config.chord_key && self.modifiers.is_held(
            Modifier::Control,
        );
        let release = !event.pressed && primary;
        let combo = release && self.gesture == GestureState::ComboDetected;
        let next = match self.gesture {
            GestureState::Idle => if event.pressed && primary {
                GestureState::ComboModifierHeld
            } else {
                GestureState::Idle
            },
            GestureState::ComboModifierHeld => if release {
                GestureState::Idle
            } else if event.pressed && event.key == config.secondary_key {
                GestureState::ComboDetected
            } else {
                GestureState::ComboModifierHeld
            },
            GestureState::ComboDetected => if release {
                GestureState::Idle
            } else {
                GestureState::ComboDetected
            },
        };
        self.modifiers.record(event.key, event.pressed);
        self.gesture = next;
        proof {
            if !is_tracked_key(config@, event.key) {
                lemma_untracked_key(config@, old(self)@, event);
            }
            lemma_consistency_kept(config@, old(self)@, event);
        }
        if chord {
            Some(Intent::ForceSwitch(config.primary_engine.clone()))
        } else if combo {
            Some(Intent::ReconcilePending)
        } else {
            None
        }
    }
}

/// An event on a key that is not tracked leaves the detector as it was and
/// gives rise to no intent.
pub proof fn lemma_untracked_key(config: ConfigView, keyboard: KeyboardView, event: KeyEvent)
    requires
        !is_tracked_key(config, event.key),
    ensures
        keyboard_after(config, keyboard, event) == keyboard,
        key_intent(config, keyboard, event) is None,
{
}

/// No series of events on keys that are not tracked changes the pressed
/// modifiers or the state of the combo, and none of them gives rise to an intent.
pub proof fn lemma_untracked_keys(config: ConfigView, keyboard: KeyboardView, events: Seq<KeyEvent>)
    requires
        forall|i: int| 0 <= i < events.len() ==> !is_tracked_key(config, (#[trigger] events[i]).key),
    ensures
        keyboard_after_all(config, keyboard, events) == keyboard,
        forall|i: int|
            0 <= i < events.len() ==> (#[trigger] key_intents(config, keyboard, events)[i]) is None,
    decreases events.len(),
{
    if events.len() > 0 {
        lemma_untracked_keys(config, keyboard, events.drop_last());
        lemma_untracked_key(config, keyboard, events.last());
    }
    assert forall|i: int| 0 <= i < events.len() implies (#[trigger] key_intents(
        config,
        keyboard,
        events,
    )[i]) is None by {
        let prefix = events.take(i);
        assert forall|j: int| 0 <= j < prefix.len() implies !is_tracked_key(
            config,
            (#[trigger] prefix[j]).key,
        ) by {
            assert(prefix[j] == events[j]);
        }
        lemma_untracked_keys(config, keyboard, prefix);
        lemma_untracked_key(config, keyboard, events[i]);
    }
}

/// Pressing the chord key while control is down gives rise to exactly the
/// intent to force the primary engine, whatever the state of the combo, and
/// no other event gives rise to that intent. Unless the chord key doubles as a
/// key of the combo, the chord leaves the state of the combo alone.
pub proof fn lemma_chord(config: ConfigView, keyboard: KeyboardView, event: KeyEvent)
    ensures
        strikes_chord(config, keyboard.held, event) ==> key_intent(config, keyboard, event)
            == Some(IntentView::ForceSwitch(config.primary_engine)),
        key_intent(config, keyboard, event) is Some && key_intent(config, keyboard, event)->Some_0
            is ForceSwitch ==> strikes_chord(config, keyboard.held, event),
        forall|gesture: GestureState|
            strikes_chord(config, keyboard.held, event) ==> #[trigger] key_intent(
                config,
                KeyboardView { held: keyboard.held, gesture },
                event,
            ) == Some(IntentView::ForceSwitch(config.primary_engine)),
        strikes_chord(config, keyboard.held, event) && event.key != config.secondary_key
            && !is_primary_key(config, event.key) ==> keyboard_after(
            config,
            keyboard,
            event,
        ).gesture == keyboard.gesture,
{
}

/// In a series of events, the entries that ask to force the primary engine
/// are exactly those of the events that press the chord key with control down.
pub proof fn lemma_chord_per_press(
    config: ConfigView,
    keyboard: KeyboardView,
    events: Seq<KeyEvent>,
    i: int,
)
    requires
        0 <= i < events.len(),
    ensures
        ({
            let before = keyboard_after_all(config, keyboard, events.take(i));
            let intent = key_intents(config, keyboard, events)[i];
            &&& strikes_chord(config, before.held, events[i]) <==> intent == Some(
                IntentView::ForceSwitch(config.primary_engine),
            )
            &&& !strikes_chord(config, before.held, events[i]) ==> intent is None || intent
                == Some(IntentView::ReconcilePending)
        }),
{
}

/// The whole combo: from idle, pressing the primary modifier, then the
/// secondary key, then letting go of the modifier passes through the three
/// states in order and asks for reconciliation exactly once, on the release.
pub proof fn lemma_combo(config: ConfigView, keyboard: KeyboardView, modifier_key: Key)
    requires
        keyboard.gesture == GestureState::Idle,
        is_primary_key(config, modifier_key),
    ensures
        ({
            let press = KeyEvent { key: modifier_key, pressed: true };
            let strike = KeyEvent { key: config.secondary_key, pressed: true };
            let release = KeyEvent { key: modifier_key, pressed: false };
            let first = keyboard_after(config, keyboard, press);
            let second = keyboard_after(config, first, strike);
            let third = keyboard_after(config, second, release);
            &&& first.gesture == GestureState::ComboModifierHeld
            &&& second.gesture == GestureState::ComboDetected
            &&& third.gesture == GestureState::Idle
            &&& key_intent(config, keyboard, press) != Some(IntentView::ReconcilePending)
            &&& key_intent(config, first, strike) != Some(IntentView::ReconcilePending)
            &&& key_intent(config, second, release) == Some(IntentView::ReconcilePending)
        }),
{
}

/// A bare tap: letting go of the primary modifier without the secondary key
/// having been pressed returns to idle and gives rise to no intent.
pub proof fn lemma_bare_tap(config: ConfigView, keyboard: KeyboardView, modifier_key: Key)
    requires
        keyboard.gesture == GestureState::Idle,
        is_primary_key(config, modifier_key),
    ensures
        ({
            let press = KeyEvent { key: modifier_key, pressed: true };
            let release = KeyEvent { key: modifier_key, pressed: false };
            let first = keyboard_after(config, keyboard, press);
            let second = keyboard_after(config, first, release);
            &&& first.gesture == GestureState::ComboModifierHeld
            &&& second.gesture == GestureState::Idle
            &&& key_intent(config, keyboard, press) != Some(IntentView::ReconcilePending)
            &&& key_intent(config, first, release) is None
        }),
{
}

/// The combo is detected only out of a held modifier, and whenever a combo is
/// under way the primary modifier is still down.
pub proof fn lemma_consistency_kept(config: ConfigView, keyboard: KeyboardView, event: KeyEvent)
    ensures
        keyboard_consistent(config, keyboard) ==> keyboard_consistent(
            config,
            keyboard_after(config, keyboard, event),
        ),
        keyboard_after(config, keyboard, event).gesture == GestureState::ComboDetected
            ==> keyboard.gesture != GestureState::Idle,
        releases_primary(config, event) ==> keyboard_after(config, keyboard, event).gesture
            == GestureState::Idle,
{
}

} // verus!
