//! The sixteen-key hexadecimal keypad.
//!
//! The interpreter sees the keypad as a snapshot: for each of the keys
//! `0..=0xF`, whether it is down. The host takes the snapshot from its own
//! keyboard, on which each keypad key is played by the key that
//! [`Keyboard::host_key`] names.

use vstd::prelude::*;

verus! {

/// A key of the host keyboard that plays a key of the keypad.
#[derive(Debug, Clone, Copy, PartialEq, Eq, Structural)]
pub enum HostKey {
    Num1,
    Num2,
    Num3,
    Num4,
    Q,
    W,
    E,
    R,
    A,
    S,
    D,
    F,
    Z,
    X,
    C,
}

/// A snapshot of the keypad.
#[derive(Debug, Clone, Copy, PartialEq, Eq)]
pub struct Keyboard {
    /// For each keypad key, by its number, whether it is down.
    pub keys: [bool; 16],
}

impl View for Keyboard {
    type V = Seq<bool>;

    /// For each keypad key, by its number, whether it is down.
    open spec fn view(&self) -> Seq<bool> {
        self.keys@
    }
}

/// The lowest-numbered key from `from` on that is down in `keys`.
pub open spec fn first_down(keys: Seq<bool>, from: int) -> Option<u8>
    decreases keys.len() - from,
{
    if from < 0 || from >= keys.len() {
        None
    } else if keys[from] {
        Some(from as u8)
    } else {
        first_down(keys, from + 1)
    }
}

/// `first_down` finds a key that is down and has none below it, and finds
/// none only where no key is down.
pub proof fn lemma_first_down(keys: Seq<bool>, from: int)
    requires
        0 <= from <= keys.len() <= 256,
    ensures
        match first_down(keys, from) {
            Some(k) => from <= k < keys.len() && keys[k as int] && forall|j: int|
                from <= j < k ==> !keys[j],
            None => forall|j: int| from <= j < keys.len() ==> !keys[j],
        },
    decreases keys.len() - from,
{
    if from < keys.len() && !keys[from] {
        lemma_first_down(keys, from + 1);
    }
}

impl Keyboard {
    /// The host key that plays the keypad key `k`.
    pub open spec fn host_key_of(k: u8) -> HostKey {
        if k == 0x1 {
            HostKey::Num1
        } else if k == 0x2 {
            HostKey::Num2
        } else if k == 0x3 {
            HostKey::Num3
        } else if k == 0xC {
            HostKey::Num4
        } else if k == 0x4 {
            HostKey::Q
        } else if k == 0x5 {
            HostKey::W
        } else if k == 0x6 {
            HostKey::E
        } else if k == 0xD {
            HostKey::R
        } else if k == 0x7 {
            HostKey::A
        } else if k == 0x8 {
            HostKey::S
        } else if k == 0x9 {
            HostKey::D
        } else if k == 0xE {
            HostKey::F
        } else if k == 0xA {
            HostKey::Z
        } else if k == 0x0 {
            HostKey::X
        } else if k == 0xB {
            HostKey::C
        } else {
            HostKey::F
        }
    }

    /// A snapshot in which the key `k` is down exactly if `keys[k]` holds.
    pub fn new(keys: [bool; 16]) -> (out: Keyboard)
        ensures
            out@ == keys@,
    {
        Keyboard { keys }
    }

    /// A snapshot in which no key is down.
    pub fn released() -> (out: Keyboard)
        ensures
            out@ == Seq::new(16, |k: int| false),
    {
        Keyboard { keys: [false; 16] }
    }

    /// The host key that plays the keypad key `k`. The keypad has the layout
    /// of the left-hand block of a keyboard, `1234` over `QWER` over `ASDF`
    /// over `ZXCV`; the keys `E` and `F` of the keypad are both played by the
    /// host key `F`.
    pub fn host_key(k: u8) -> (out: HostKey)
        requires
            k < 16,
        ensures
            out == Keyboard::host_key_of(k),
    {
        match k {
            0x1 => HostKey::Num1,
            0x2 => HostKey::Num2,
            0x3 => HostKey::Num3,
            0xC => HostKey::Num4,
            0x4 => HostKey::Q,
            0x5 => HostKey::W,
            0x6 => HostKey::E,
            0xD => HostKey::R,
            0x7 => HostKey::A,
            0x8 => HostKey::S,
            0x9 => HostKey::D,
            0xE => HostKey::F,
            0xA => HostKey::Z,
            0x0 => HostKey::X,
            0xB => HostKey::C,
            _ => HostKey::F,
        }
    }

    /// Whether the keypad key `k` is down.
    pub fn is_pressed(&self, k: u8) -> (out: bool)
        requires
            k < 16,
        ensures
            out == self@[k as int],
    {
        self.keys[k as usize]
    }

    /// The lowest-numbered key that is down, if any is.
    pub fn first_pressed(&self) -> (out: Option<u8>)
        ensures
            out == first_down(self@, 0),
            match out {
                Some(k) => k < 16 && self@[k as int] && forall|j: int| 0 <= j < k ==> !self@[j],
                None => forall|j: int| 0 <= j < 16 ==> !self@[j],
            },
    {
        let mut k: u8 = 0;
        while k < 16
            invariant
                k <= 16,
                first_down(self@, 0) == first_down(self@, k as int),
            decreases 16 - k,
        {
            if self.keys[k as usize] {
                proof {
                    lemma_first_down(self@, 0);
                }
                return Some(k);
            }
            k += 1;
        }
        proof {
            lemma_first_down(self@, 0);
        }
        None
    }
}

} // verus!
