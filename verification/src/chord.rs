//! Key chords: a set of modifiers held together with one key symbol.

use vstd::prelude::*;

verus! {

/// The Shift modifier.
pub const SHIFT: u32 = 0x01;

/// The CapsLock modifier.
pub const LOCK: u32 = 0x02;

/// The Ctrl modifier.
pub const CTRL: u32 = 0x04;

/// The Alt modifier, also known as Mod1.
pub const ALT: u32 = 0x08;

/// The NumLock modifier, also known as Mod2.
pub const NUM: u32 = 0x10;

/// The Mod3 modifier.
pub const MOD3: u32 = 0x20;

/// The Logo modifier, also known as Mod4.
pub const MOD4: u32 = 0x40;

/// The Mod5 modifier.
pub const MOD5: u32 = 0x80;

/// The Return key.
pub const KEY_RETURN: u32 = 0xff0d;

/// The key `/`.
pub const KEY_SLASH: u32 = 0x2f;

/// The digit key `1` of the top row.
pub const KEY_1: u32 = 0x31;

/// The digit key `2` of the top row.
pub const KEY_2: u32 = 0x32;

/// The digit key `3` of the top row.
pub const KEY_3: u32 = 0x33;

/// The digit key `4` of the top row.
pub const KEY_4: u32 = 0x34;

/// The digit key `5` of the top row.
pub const KEY_5: u32 = 0x35;

/// The digit key `6` of the top row.
pub const KEY_6: u32 = 0x36;

/// The key `[`.
pub const KEY_BRACKETLEFT: u32 = 0x5b;

/// The key `]`.
pub const KEY_BRACKETRIGHT: u32 = 0x5d;

/// The key `b`.
pub const KEY_B: u32 = 0x62;

/// The key `d`.
pub const KEY_D: u32 = 0x64;

/// The key `f`.
pub const KEY_F: u32 = 0x66;

/// The key `h`.
pub const KEY_H: u32 = 0x68;

/// The key `i`.
pub const KEY_I: u32 = 0x69;

/// The key `j`.
pub const KEY_J: u32 = 0x6a;

/// The key `k`.
pub const KEY_K: u32 = 0x6b;

/// The key `l`.
pub const KEY_L: u32 = 0x6c;

/// The key `m`.
pub const KEY_M: u32 = 0x6d;

/// The key `p`.
pub const KEY_P: u32 = 0x70;

/// The key `q`.
pub const KEY_Q: u32 = 0x71;

/// The key `r`.
pub const KEY_R: u32 = 0x72;

/// The key `t`.
pub const KEY_T: u32 = 0x74;

/// The key `u`.
pub const KEY_U: u32 = 0x75;

/// The key `v`.
pub const KEY_V: u32 = 0x76;

/// The key `x`.
pub const KEY_X: u32 = 0x78;

/// The key `y`.
pub const KEY_Y: u32 = 0x79;

/// The first function key; the twelve of them are numbered consecutively.
pub const KEY_F1: u32 = 0xffbe;

/// A binding key: a bit set of modifiers and a key symbol.
#[derive(Clone, Copy, Debug, PartialEq, Eq, Hash, Structural)]
pub struct Chord {
    pub mods: u32,
    pub sym: u32,
}

impl Chord {
    /// The chord of a symbol under a set of modifiers.
    pub fn new(mods: u32, sym: u32) -> (r: Chord)
        ensures
            r == (Chord { mods, sym }),
    {
        Chord { mods, sym }
    }

    /// The same key with Shift held as well.
    pub open spec fn shifted_spec(self) -> Chord {
        Chord { mods: self.mods | SHIFT, sym: self.sym }
    }

    /// The same key with Shift held as well.
    pub fn shifted(self) -> (r: Chord)
        ensures
            r == self.shifted_spec(),
    {
        Chord { mods: self.mods | SHIFT, sym: self.sym }
    }
}

/// The symbol of function key `n`, counted from one.
pub open spec fn function_key_spec(n: int) -> u32
    recommends
        1 <= n <= 12,
{
    (KEY_F1 + n - 1) as u32
}

/// The symbol of function key `n`, counted from one.
pub fn function_key(n: u32) -> (r: u32)
    requires
        1 <= n <= 12,
    ensures
        r == function_key_spec(n as int),
{
    KEY_F1 + (n - 1)
}

/// The symbol of the digit key `n` of the top row.
pub open spec fn digit_key_spec(n: int) -> u32
    recommends
        0 <= n <= 9,
{
    (0x30 + n) as u32
}

/// The symbol of the digit key `n` of the top row.
pub fn digit_key(n: u32) -> (r: u32)
    requires
        n <= 9,
    ensures
        r == digit_key_spec(n as int),
{
    0x30 + n
}

} // verus!
