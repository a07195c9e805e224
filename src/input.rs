//! Keyboard state handed over by the native window layer, and the
//! application's per-frame entry points.

use vstd::prelude::*;

verus! {

/// A set of keys, one bit per key.
#[derive(Clone, Copy, Debug, PartialEq, Eq, PartialOrd, Ord, Hash, Structural)]
pub struct Key {
    pub bits: u64,
}

/// The bit of each named key.
pub const ARROW_UP: u64 = 1;
pub const ARROW_RIGHT: u64 = 2;
pub const ARROW_DOWN: u64 = 4;
pub const ARROW_LEFT: u64 = 8;
pub const SHIFT: u64 = 16;
pub const CAPS_LOCK: u64 = 32;
pub const COMMAND: u64 = 64;
pub const CONTROL: u64 = 128;
pub const KEY_A: u64 = 1024;
pub const KEY_D: u64 = 2048;
pub const KEY_S: u64 = 4096;
pub const KEY_W: u64 = 8192;

impl Key {
    /// The set that holds exactly the given bits, named or not.
    pub fn from_bits_retain(bits: u64) -> (r: Key)
        ensures
            r.bits == bits,
    {
        Key { bits }
    }

    /// Whether every key of `other` is in this set.
    pub open spec fn spec_contains(self, other: Key) -> bool {
        self.bits & other.bits == other.bits
    }

    /// Whether every key of `other` is in this set.
    pub fn contains(self, other: Key) -> (r: bool)
        ensures
            r == self.spec_contains(other),
    {
        self.bits & other.bits == other.bits
    }
}

/// The bits of the named keys, in the order in which they are declared.
pub open spec fn named_key_bits() -> Seq<u64> {
    seq![1, 2, 4, 8, 16, 32, 64, 128, 1024, 2048, 4096, 8192]
}

/// The bits of all named keys together.
pub const NAMED_KEYS_MASK: u64 = ARROW_UP | ARROW_RIGHT | ARROW_DOWN | ARROW_LEFT | SHIFT
    | CAPS_LOCK | COMMAND | CONTROL | KEY_A | KEY_D | KEY_S | KEY_W;

/// The named keys among `names` that `held` holds, in the order of `names`.
pub open spec fn held_named(held: u64, names: Seq<u64>) -> Seq<Key>
    decreases names.len(),
{
    if names.len() == 0 {
        Seq::empty()
    } else if held & names.last() == names.last() {
        held_named(held, names.drop_last()).push(Key { bits: names.last() })
    } else {
        held_named(held, names.drop_last())
    }
}

/// The keys held during one frame.
pub struct KeyInput {
    bits: Key,
}

impl KeyInput {
    pub closed spec fn spec_keys(self) -> Key {
        self.bits
    }

    pub fn new(bits: Key) -> (r: KeyInput)
        ensures
            r.spec_keys() == bits,
    {
        KeyInput { bits }
    }

    /// Whether all keys of `key` are held.
    pub fn is_held(self, key: Key) -> (r: bool)
        ensures
            r == self.spec_keys().spec_contains(key),
    {
        self.bits.contains(key)
    }

    /// The held named keys one by one, in declaration order, followed by one
    /// value that carries whatever held bits no named key has, if there are any.
    pub fn all_pressed(self) -> (r: Vec<Key>)
        ensures
            r@ == held_named(self.spec_keys().bits, named_key_bits()) + (if self.spec_keys().bits
                & !NAMED_KEYS_MASK == 0 {
                Seq::<Key>::empty()
            } else {
                seq![Key { bits: self.spec_keys().bits & !NAMED_KEYS_MASK }]
            }),
    {
        let names: Vec<u64> = vec![1, 2, 4, 8, 16, 32, 64, 128, 1024, 2048, 4096, 8192];
        assert(names@ == named_key_bits());
        let held = self.bits.bits;
        let mut out: Vec<Key> = Vec::new();
        let mut i: usize = 0;
        while i < names.len()
            invariant
                names@ == named_key_bits(),
                0 <= i <= names@.len(),
                out@ == held_named(held, names@.take(i as int)),
            decreases names.len() - i,
        {
            let name = names[i];
            assert(names@.take(i + 1).drop_last() == names@.take(i as int));
            if held & name == name {
                out.push(Key { bits: name });
            }
            i = i + 1;
        }
        assert(names@.take(i as int) == names@);
        let rest = held & !NAMED_KEYS_MASK;
        if rest != 0 {
            out.push(Key { bits: rest });
        }
        assert(out@ =~= held_named(held, named_key_bits()) + (if held & !NAMED_KEYS_MASK == 0 {
            Seq::<Key>::empty()
        } else {
            seq![Key { bits: held & !NAMED_KEYS_MASK }]
        }));
        out
    }
}

/// What one tick of the application is given.
pub struct TickInput {}

/// The application driven by the native event loop. It holds no state yet:
/// ticking and rendering change nothing.
pub struct Application {}

impl Application {
    /// Advances the application by one tick.
    pub fn on_tick(&self) {
    }

    /// Draws one frame.
    pub fn render_frame(&self) {
    }
}

} // verus!
