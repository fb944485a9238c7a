//! What a frame brings in from the outside: keys and time.

use super::resources::assets::Asset;
use vstd::prelude::*;

verus! {

/// A key of the keyboard.
///
/// The keys that the match binds by default have a name; any other key is
/// `Other` with a code of the front end's choosing.
#[derive(Debug, Clone, Copy, PartialEq, Eq, Hash, Structural)]
pub enum KeyCode {
    KeyS,
    KeyD,
    KeyF,
    KeyJ,
    KeyK,
    KeyL,
    Space,
    Enter,
    Other(u32),
}

/// How far the front end is with loading an asset.
#[derive(Debug, Clone, Copy, PartialEq, Eq, Structural)]
pub enum LoadState {
    NotLoaded,
    Loading,
    Loaded,
    Failed,
}

/// What the front end hands to a frame.
#[derive(Debug, Clone, PartialEq, Eq)]
pub struct Input {
    /// The keys that went down since the last frame, in their order.
    pub keys: Vec<KeyCode>,
    /// The time since the last frame, in nanoseconds.
    pub delta: u64,
    /// For each tick on the screen, whether it has faded out.
    pub ticks_faded: Vec<bool>,
    /// How far the front end is with each asset that it knows of. Where an
    /// asset is reported more than once, the first report counts.
    pub load_states: Vec<(Asset, LoadState)>,
}

impl Input {
    /// Whether `key` went down since the last frame.
    pub open spec fn spec_pressed(&self, key: KeyCode) -> bool {
        self.keys@.contains(key)
    }

    #[verifier::when_used_as_spec(spec_pressed)]
    pub fn pressed(&self, key: KeyCode) -> (found: bool)
        ensures
            found == self.spec_pressed(key),
    {
        let mut i: usize = 0;
        while i < self.keys.len()
            invariant
                i <= self.keys.len(),
                forall|j: int| 0 <= j < i ==> self.keys@[j] != key,
            decreases self.keys.len() - i,
        {
            if self.keys[i] == key {
                return true;
            }
            i = i + 1;
        }
        false
    }
}

} // verus!
