use vstd::prelude::*;

verus! {

pub const MOD_LCTRL: u16 = 0x0001;

pub const MOD_LSYS: u16 = 0x0002;

pub const MOD_LALT: u16 = 0x0004;

pub const MOD_LSHIFT: u16 = 0x0008;

pub const MOD_RSHIFT: u16 = 0x0010;

pub const MOD_RALT: u16 = 0x0020;

pub const MOD_RSYS: u16 = 0x0040;

pub const MOD_RCTRL: u16 = 0x0080;

pub const MOD_CAPSLOCK: u16 = 0x0100;

pub const MOD_NUMLOCK: u16 = 0x0200;

pub const MOD_SCRLOCK: u16 = 0x0400;

/// The set of keyboard modifiers currently in effect, one bit per key.
#[derive(Copy, Clone, Debug, PartialEq, Eq, Structural)]
pub struct Modifiers {
    pub bits: u16,
}

/// Whether `k` is a lock key, whose bit toggles on each press.
pub open spec fn is_lock_flag(k: u16) -> bool {
    k == MOD_CAPSLOCK || k == MOD_NUMLOCK
}

/// The modifier set after one press (`down`) or release of the key whose flag is `k`:
/// lock keys toggle on press and ignore release; the other keys are held while down.
pub open spec fn modifiers_after(m: u16, k: u16, down: bool) -> u16 {
    if is_lock_flag(k) {
        if down {
            m ^ k
        } else {
            m
        }
    } else if down {
        m | k
    } else {
        m & !k
    }
}

/// Whether the shift bit is set for character translation: a shift key is
/// held, or caps lock is on, but not both.
pub open spec fn shift_active(m: u16) -> bool {
    (m & (MOD_LSHIFT | MOD_RSHIFT) != 0) != (m & MOD_CAPSLOCK != 0)
}

impl Modifiers {
    /// No modifier.
    pub fn empty() -> (r: Modifiers)
        ensures
            r.bits == 0,
    {
        Modifiers { bits: 0 }
    }

    /// The modifier set with exactly the bits of `bits`.
    pub fn from_bits(bits: u16) -> (r: Modifiers)
        ensures
            r.bits == bits,
    {
        Modifiers { bits }
    }

    pub fn bits(&self) -> (r: u16)
        ensures
            r == self.bits,
    {
        self.bits
    }

    /// Whether every modifier of `other` is in `self`.
    pub fn contains(&self, other: Modifiers) -> (r: bool)
        ensures
            r == (self.bits & other.bits == other.bits),
    {
        self.bits & other.bits == other.bits
    }

    /// Records a press or release of the modifier key whose flag is `k`.
    pub fn apply_key(&self, k: Modifiers, down: bool) -> (r: Modifiers)
        ensures
            r.bits == modifiers_after(self.bits, k.bits, down),
    {
        if k.bits == MOD_CAPSLOCK || k.bits == MOD_NUMLOCK {
            if down {
                Modifiers { bits: self.bits ^ k.bits }
            } else {
                Modifiers { bits: self.bits }
            }
        } else if down {
            Modifiers { bits: self.bits | k.bits }
        } else {
            Modifiers { bits: self.bits & !k.bits }
        }
    }

    /// Whether the shift state used to translate a key into a character is on.
    pub fn shift_active(&self) -> (r: bool)
        ensures
            r == shift_active(self.bits),
    {
        let shift = self.bits & (MOD_LSHIFT | MOD_RSHIFT) != 0;
        let caps = self.bits & MOD_CAPSLOCK != 0;
        shift != caps
    }
}

/// Pressing and releasing a lock key twice in a row gives back the modifier set
/// it started from.
pub proof fn lemma_lock_toggle_twice(m: u16, k: u16)
    requires
        is_lock_flag(k),
    ensures
        modifiers_after(
            modifiers_after(modifiers_after(modifiers_after(m, k, true), k, false), k, true),
            k,
            false,
        ) == m,
{
    assert(m ^ k ^ k == m) by (bit_vector);
}

/// Holding a shift key and releasing it clears its bit, whatever the lock keys
/// were, and leaves every other bit as it was before the press.
pub proof fn lemma_shift_release_clears(m: u16, k: u16)
    requires
        k == MOD_LSHIFT || k == MOD_RSHIFT,
    ensures
        modifiers_after(modifiers_after(m, k, true), k, false) & k == 0,
        modifiers_after(modifiers_after(m, k, true), k, false) & !k == m & !k,
{
    assert(((m | k) & !k) & k == 0) by (bit_vector);
    assert(((m | k) & !k) & !k == m & !k) by (bit_vector);
}

} // verus!
