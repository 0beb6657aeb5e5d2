//! The shared key state and the input collaborator's bookkeeping.
//!
//! The physical input device is polled outside the library; what is verified
//! here is the pure part of the input collaborator: mapping a physical scan
//! code to one of the sixteen logical keys and toggling its bit in the live
//! bitmask.

use vstd::prelude::*;

verus! {

/// A snapshot of the shared key state: the live 16-key bitmask and the most
/// recent transition (key index and direction). Written by the input
/// collaborator under mutual exclusion, read by the interpreter's
/// key-dependent instructions.
#[derive(Clone, Debug)]
pub struct State {
    pub key: usize,
    pub pressed: bool,
    pub state: u16,
}

/// The fixed scan-code table of the sixteen logical keys: entry `i` is the
/// physical code that maps to logical key `i`.
pub open spec fn keymap() -> Seq<u32> {
    seq![45u32, 2, 3, 4, 16, 17, 18, 30, 31, 32, 44, 46, 5, 19, 33, 47]
}

/// One keyboard event as the input collaborator records it: if the scan code
/// maps to a logical key, its bit in the bitmask toggles and the transition
/// is recorded; an event for any other code is ignored.
pub fn key_transition(mask: u16, code: u32, pressed: bool) -> (r: Option<State>)
    ensures
        match r {
            Some(s) => {
                &&& s.key < 16
                &&& keymap()[s.key as int] == code
                &&& s.state == mask ^ (1u16 << (s.key as u16))
                &&& s.pressed == pressed
            },
            None => forall|i: int| 0 <= i < 16 ==> keymap()[i] != code,
        },
{
    let table: [u32; 16] = [45, 2, 3, 4, 16, 17, 18, 30, 31, 32, 44, 46, 5, 19, 33, 47];
    proof {
        assert(table@ =~= keymap());
    }
    let mut i: usize = 0;
    while i < 16
        invariant
            i <= 16,
            table@ == keymap(),
            forall|j: int| 0 <= j < i ==> keymap()[j] != code,
        decreases 16 - i,
    {
        if table[i] == code {
            return Some(State { key: i, pressed, state: mask ^ (1u16 << (i as u16)) });
        }
        i += 1;
    }
    None
}

} // verus!
