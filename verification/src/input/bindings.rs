//! The key-binding table: an immutable mapping from physical keys to logical
//! key functions.  The table is an injected configuration value, so several
//! control schemes can coexist; a default scheme is provided.

use vstd::prelude::*;

use crate::input::keyboard::KeyFunction;

verus! {

/// A physical key the control scheme can bind.
#[derive(Copy, Clone, Debug, PartialEq, Eq, Structural)]
pub enum Key {
    W,
    A,
    S,
    D,
    Q,
    E,
    Up,
    Down,
    Left,
    Right,
    PageUp,
    PageDown,
    Space,
    Tab,
    Home,
    End,
}

/// The first key function bound to `key` in `entries`, searching from the
/// front, or `None` where no entry binds it.
pub open spec fn lookup_in(entries: Seq<(Key, KeyFunction)>, key: Key) -> Option<KeyFunction>
    decreases entries.len(),
{
    if entries.len() == 0 {
        None
    } else if entries[0].0 == key {
        Some(entries[0].1)
    } else {
        lookup_in(entries.drop_first(), key)
    }
}

/// The default binding table, as a sequence of key/function pairs.
pub open spec fn default_entries() -> Seq<(Key, KeyFunction)> {
    seq![
        (Key::W, KeyFunction::Accelerate),
        (Key::S, KeyFunction::Decelerate),
        (Key::A, KeyFunction::YawLeft),
        (Key::D, KeyFunction::YawRight),
        (Key::Up, KeyFunction::PitchDown),
        (Key::Down, KeyFunction::PitchUp),
        (Key::Left, KeyFunction::StrafeLeft),
        (Key::Right, KeyFunction::StrafeRight),
        (Key::Q, KeyFunction::RollLeft),
        (Key::E, KeyFunction::RollRight),
        (Key::PageUp, KeyFunction::Ascend),
        (Key::PageDown, KeyFunction::Descend),
    ]
}

/// The default control scheme, stated per key: WASD for thrust and yaw,
/// arrow keys for pitch and strafe, Q/E for roll, page up/down for ascend
/// and descend; every other key is unbound.
pub open spec fn spec_default_binding(key: Key) -> Option<KeyFunction> {
    match key {
        Key::W => Some(KeyFunction::Accelerate),
        Key::S => Some(KeyFunction::Decelerate),
        Key::A => Some(KeyFunction::YawLeft),
        Key::D => Some(KeyFunction::YawRight),
        Key::Up => Some(KeyFunction::PitchDown),
        Key::Down => Some(KeyFunction::PitchUp),
        Key::Left => Some(KeyFunction::StrafeLeft),
        Key::Right => Some(KeyFunction::StrafeRight),
        Key::Q => Some(KeyFunction::RollLeft),
        Key::E => Some(KeyFunction::RollRight),
        Key::PageUp => Some(KeyFunction::Ascend),
        Key::PageDown => Some(KeyFunction::Descend),
        Key::Space => None,
        Key::Tab => None,
        Key::Home => None,
        Key::End => None,
    }
}

/// A lookup in the default entries follows the default control scheme.
pub proof fn lemma_default_lookup(key: Key)
    ensures
        lookup_in(default_entries(), key) == spec_default_binding(key),
{
    reveal_with_fuel(lookup_in, 13);
}

/// A mapping from physical keys to logical key functions, fixed after
/// construction.
pub struct Bindings {
    /// The key/function pairs; a lookup takes the first match.
    pub entries: Vec<(Key, KeyFunction)>,
}

impl Bindings {
    /// The function bound to `key`, or `None` where the key is unbound.
    pub open spec fn spec_lookup(self, key: Key) -> Option<KeyFunction> {
        lookup_in(self.entries@, key)
    }

    /// Returns a binding table made of the given key/function pairs.
    pub fn new(entries: Vec<(Key, KeyFunction)>) -> (b: Bindings)
        ensures
            b.entries == entries,
    {
        Bindings { entries }
    }

    /// Returns the key function bound to `key`, or `None` where the key is
    /// unbound.  A pure lookup, total over all keys.
    pub fn map(&self, key: Key) -> (r: Option<KeyFunction>)
        ensures
            r == self.spec_lookup(key),
    {
        let n = self.entries.len();
        let mut i: usize = 0;
        proof {
            assert(self.entries@.subrange(0, n as int) =~= self.entries@);
        }
        while i < n
            invariant
                i <= n,
                n == self.entries@.len(),
                lookup_in(self.entries@, key) == lookup_in(
                    self.entries@.subrange(i as int, n as int),
                    key,
                ),
            decreases n - i,
        {
            let entry = self.entries[i];
            proof {
                let rest = self.entries@.subrange(i as int, n as int);
                assert(rest[0] == self.entries@[i as int]);
                assert(rest.drop_first() =~= self.entries@.subrange(i + 1, n as int));
            }
            if entry.0 == key {
                return Some(entry.1);
            }
            i += 1;
        }
        proof {
            assert(self.entries@.subrange(i as int, n as int).len() == 0);
        }
        None
    }
}

impl Default for Bindings {
    /// Returns the default binding table: WASD race controls for thrust and
    /// yaw, arrow keys for pitch and strafe, Q/E for roll, and page up/down
    /// for ascending and descending.
    fn default() -> (b: Bindings)
        ensures
            b.entries@ == default_entries(),
    {
        let mut entries: Vec<(Key, KeyFunction)> = Vec::new();
        entries.push((Key::W, KeyFunction::Accelerate));
        entries.push((Key::S, KeyFunction::Decelerate));
        entries.push((Key::A, KeyFunction::YawLeft));
        entries.push((Key::D, KeyFunction::YawRight));
        entries.push((Key::Up, KeyFunction::PitchDown));
        entries.push((Key::Down, KeyFunction::PitchUp));
        entries.push((Key::Left, KeyFunction::StrafeLeft));
        entries.push((Key::Right, KeyFunction::StrafeRight));
        entries.push((Key::Q, KeyFunction::RollLeft));
        entries.push((Key::E, KeyFunction::RollRight));
        entries.push((Key::PageUp, KeyFunction::Ascend));
        entries.push((Key::PageDown, KeyFunction::Descend));
        proof {
            assert(entries@ =~= default_entries());
        }
        Bindings { entries }
    }
}

} // verus!
