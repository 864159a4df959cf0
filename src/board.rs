//! The boards that the native layer can be set up for, and the codes of
//! optional pins in its settings.

use vstd::prelude::*;

verus! {

/// A board that the native layer can be told to work with.
#[derive(Debug, Clone, Copy, PartialEq, Eq, Structural)]
pub enum BelaHw {
    NoHw,
    Bela,
    BelaMini,
    Salt,
    CtagFace,
    CtagBeast,
    CtagFaceBela,
    CtagBeastBela,
}

/// The native layer's code for a board.
pub open spec fn hw_code(hw: BelaHw) -> i32 {
    match hw {
        BelaHw::NoHw => -1i32,
        BelaHw::Bela => 0,
        BelaHw::BelaMini => 1,
        BelaHw::Salt => 4,
        BelaHw::CtagFace => 5,
        BelaHw::CtagBeast => 6,
        BelaHw::CtagFaceBela => 7,
        BelaHw::CtagBeastBela => 8,
    }
}

impl BelaHw {
    /// The board with native code `v`, if there is one.
    pub fn from_i32(v: i32) -> (r: Option<BelaHw>)
        ensures
            r is Some <==> exists|hw: BelaHw| hw_code(hw) == v,
            r is Some ==> hw_code(r->0) == v,
    {
        let r = match v {
            -1 => Some(BelaHw::NoHw),
            0 => Some(BelaHw::Bela),
            1 => Some(BelaHw::BelaMini),
            4 => Some(BelaHw::Salt),
            5 => Some(BelaHw::CtagFace),
            6 => Some(BelaHw::CtagBeast),
            7 => Some(BelaHw::CtagFaceBela),
            8 => Some(BelaHw::CtagBeastBela),
            _ => None,
        };
        proof {
            if r is Some {
                assert(hw_code(r->0) == v);
            } else {
                assert forall|hw: BelaHw| hw_code(hw) != v by {
                    match hw {
                        BelaHw::NoHw => {},
                        BelaHw::Bela => {},
                        BelaHw::BelaMini => {},
                        BelaHw::Salt => {},
                        BelaHw::CtagFace => {},
                        BelaHw::CtagBeast => {},
                        BelaHw::CtagFaceBela => {},
                        BelaHw::CtagBeastBela => {},
                    }
                }
            }
        }
        r
    }

    /// The native code of this board.
    pub fn to_i32(self) -> (r: i32)
        ensures
            r == hw_code(self),
    {
        match self {
            BelaHw::NoHw => -1,
            BelaHw::Bela => 0,
            BelaHw::BelaMini => 1,
            BelaHw::Salt => 4,
            BelaHw::CtagFace => 5,
            BelaHw::CtagBeast => 6,
            BelaHw::CtagFaceBela => 7,
            BelaHw::CtagBeastBela => 8,
        }
    }
}

/// The pin that a settings code names: codes `0..=127` name that pin, any
/// other code names none.
pub open spec fn pin_of_code(code: i32) -> Option<i8> {
    if 0 <= code <= 127 {
        Some(code as i8)
    } else {
        None
    }
}

/// The pin that a settings code names.
pub fn pin_from_code(code: i32) -> (r: Option<i8>)
    ensures
        r == pin_of_code(code),
{
    if 0 <= code && code <= 127 {
        Some(code as i8)
    } else {
        None
    }
}

/// The settings code for an optional pin: a pin's own number, or `-1` for no
/// pin (a negative number names no pin either).
pub fn pin_to_code(pin: Option<i8>) -> (r: i32)
    ensures
        r == (match pin {
            Some(v) => if v >= 0 {
                v as i32
            } else {
                -1i32
            },
            None => -1i32,
        }),
        pin_of_code(r) == (match pin {
            Some(v) => if v >= 0 {
                Some(v)
            } else {
                None::<i8>
            },
            None => None::<i8>,
        }),
{
    match pin {
        Some(v) => if v >= 0 {
            v as i32
        } else {
            -1
        },
        None => -1,
    }
}

} // verus!
