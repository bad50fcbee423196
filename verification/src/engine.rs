//! Engine identities, switch intents and the configuration shared by all parts.

use crate::keys::{Key, Modifier};
use vstd::prelude::*;

verus! {

/// The name by which the desktop knows an input-method engine.
///
/// Two identities are the same engine exactly when their names are equal;
/// the view of an identity is its name.
#[derive(Debug, PartialEq, Eq)]
pub struct EngineId {
    name: String,
}

impl View for EngineId {
    type V = Seq<char>;

    closed spec fn view(&self) -> Seq<char> {
        self.name@
    }
}

impl Clone for EngineId {
    fn clone(&self) -> (copy: EngineId)
        ensures
            copy@ == self@,
    {
        EngineId { name: self.name.clone() }
    }
}

impl EngineId {
    /// The engine called `name`.
    pub fn new(name: &str) -> (id: EngineId)
        ensures
            id@ == name@,
    {
        EngineId { name: name.to_owned() }
    }

    /// The engine's name.
    pub fn name(&self) -> (name: &str)
        ensures
            name@ == self@,
    {
        self.name.as_str()
    }

    /// Whether both identities name the same engine.
    pub fn same_as(&self, other: &EngineId) -> (same: bool)
        ensures
            same == (self@ == other@),
    {
        self.name == other.name
    }
}

/// A request to change the active engine, as one of the sources submits it.
#[derive(Debug, PartialEq, Eq)]
pub enum Intent {
    /// Bring the desktop back to the engine it is known to have reverted to.
    ReconcilePending,
    /// Switch to the given engine, whatever is active now.
    ForceSwitch(EngineId),
    /// Switch to whichever of the two configured engines is not the current one.
    Toggle,
}

/// An [`Intent`] with the engine given by its name.
pub enum IntentView {
    ReconcilePending,
    ForceSwitch(Seq<char>),
    Toggle,
}

impl View for Intent {
    type V = IntentView;

    open spec fn view(&self) -> IntentView {
        match *self {
            Intent::ReconcilePending => IntentView::ReconcilePending,
            Intent::ForceSwitch(engine) => IntentView::ForceSwitch(engine@),
            Intent::Toggle => IntentView::Toggle,
        }
    }
}

impl Clone for Intent {
    fn clone(&self) -> (copy: Intent)
        ensures
            copy@ == self@,
    {
        match self {
            Intent::ReconcilePending => Intent::ReconcilePending,
            Intent::ForceSwitch(engine) => Intent::ForceSwitch(engine.clone()),
            Intent::Toggle => Intent::Toggle,
        }
    }
}

/// The view of an optional intent.
pub open spec fn intent_view(intent: Option<Intent>) -> Option<IntentView> {
    match intent {
        Some(i) => Some(i@),
        None => None,
    }
}

/// The view of an optional engine.
pub open spec fn engine_view(engine: Option<EngineId>) -> Option<Seq<char>> {
    match engine {
        Some(e) => Some(e@),
        None => None,
    }
}

/// Everything that is fixed at startup and handed to each part.
#[derive(Debug, PartialEq, Eq)]
pub struct Config {
    /// The engine every newly focused window and the chord switch to.
    pub primary_engine: EngineId,
    /// The engine a toggle leaves the primary one for.
    pub secondary_engine: EngineId,
    /// The modifier that is held through a combo.
    pub primary_modifier: Modifier,
    /// The key whose press, while the primary modifier is held, makes the combo.
    pub secondary_key: Key,
    /// The key whose press, while control is held, forces the primary engine.
    pub chord_key: Key,
    /// How long a reconciliation waits before the engine is invoked, in milliseconds.
    pub reconcile_delay_ms: u64,
    /// How long the focus watcher sleeps between two readings, in milliseconds.
    pub poll_interval_ms: u64,
    /// The local port the control channel listens on.
    pub control_port: u16,
}

/// A [`Config`] with the engines given by their names.
pub struct ConfigView {
    pub primary_engine: Seq<char>,
    pub secondary_engine: Seq<char>,
    pub primary_modifier: Modifier,
    pub secondary_key: Key,
    pub chord_key: Key,
    pub reconcile_delay_ms: u64,
    pub poll_interval_ms: u64,
    pub control_port: u16,
}

impl View for Config {
    type V = ConfigView;

    open spec fn view(&self) -> ConfigView {
        ConfigView {
            primary_engine: self.primary_engine@,
            secondary_engine: self.secondary_engine@,
            primary_modifier: self.primary_modifier,
            secondary_key: self.secondary_key,
            chord_key: self.chord_key,
            reconcile_delay_ms: self.reconcile_delay_ms,
            poll_interval_ms: self.poll_interval_ms,
            control_port: self.control_port,
        }
    }
}

impl Clone for Config {
    fn clone(&self) -> (copy: Config)
        ensures
            copy@ == self@,
    {
        Config {
            primary_engine: self.primary_engine.clone(),
            secondary_engine: self.secondary_engine.clone(),
            primary_modifier: self.primary_modifier,
            secondary_key: self.secondary_key,
            chord_key: self.chord_key,
            reconcile_delay_ms: self.reconcile_delay_ms,
            poll_interval_ms: self.poll_interval_ms,
            control_port: self.control_port,
        }
    }
}

/// The name of the Latin engine of the stock configuration.
pub const ENGLISH: &'static str = "xkb:us::eng";

/// The name of the native-script engine of the stock configuration.
pub const CHINESE: &'static str = "rime";

/// The control channel's port in the stock configuration.
pub const PORT: u16 = 14568;

impl Config {
    /// The stock configuration: the US keyboard layout as the primary engine
    /// and Rime as the secondary one; super held across space as the combo,
    /// control with the left bracket as the chord; a reconciliation delay of
    /// 50 ms, a focus reading every 200 ms, and port 14568.
    pub fn standard() -> (config: Config)
        ensures
            config@ == (ConfigView {
                primary_engine: ENGLISH@,
                secondary_engine: CHINESE@,
                primary_modifier: Modifier::Super,
                secondary_key: Key::Space,
                chord_key: Key::LeftBracket,
                reconcile_delay_ms: 50,
                poll_interval_ms: 200,
                control_port: PORT,
            }),
    {
        Config {
            primary_engine: EngineId::new(ENGLISH),
            secondary_engine: EngineId::new(CHINESE),
            primary_modifier: Modifier::Super,
            secondary_key: Key::Space,
            chord_key: Key::LeftBracket,
            reconcile_delay_ms: 50,
            poll_interval_ms: 200,
            control_port: PORT,
        }
    }
}

} // verus!
