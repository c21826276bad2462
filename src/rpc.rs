//! The values that the remote-procedure interface exchanges with the core:
//! error codes, electrode index lists and direction names.
use vstd::prelude::*;
use vstd::string::StringSliceAdditionalSpecFns;

use crate::location::Direction;
use crate::N_PINS;

verus! {

/// An error reported to a remote caller: an integer code and a message.
#[derive(Debug)]
pub struct RpcError {
    pub code: i32,
    pub message: String,
}

impl RpcError {
    pub fn new(code: i32, message: String) -> (e: RpcError)
        ensures
            e.code == code,
            e.message@ == message@,
    {
        RpcError { code, message }
    }
}

/// The direction argument of a move names no direction.
pub const INVALID_DIRECTION: i32 = -1;

/// The move itself failed.
pub const MOVE_FAILED: i32 = -2;

/// No full-array capacitance is available.
pub const BULK_CAPACITANCE_UNAVAILABLE: i32 = -3;

/// No temperature readings are available.
pub const TEMPERATURES_UNAVAILABLE: i32 = -4;

/// The PWM output could not be set.
pub const PWM_FAILED: i32 = -5;

/// No active capacitance is available.
pub const ACTIVE_CAPACITANCE_UNAVAILABLE: i32 = -6;

/// An electrode index is beyond the array.
pub const INVALID_PIN: i32 = -7;

/// The electrode states could not be transmitted to the backend.
pub const OUTPUT_FAILED: i32 = -8;

/// Every index of `pins` names an electrode of the array.
pub open spec fn all_pins_valid(pins: Seq<u32>) -> bool {
    forall|k: int| 0 <= k < pins.len() ==> #[trigger] pins[k] < N_PINS
}

/// The 128 electrode states in which exactly the electrodes listed in `pins`
/// are enabled, or `None` where an index is beyond the array.
pub fn electrode_pins(pins: &[u32]) -> (r: Option<Vec<bool>>)
    ensures
        r is Some <==> all_pins_valid(pins@),
        r matches Some(v) ==> v@.len() == N_PINS && forall|i: int|
            0 <= i < N_PINS ==> (#[trigger] v@[i] <==> exists|k: int|
                0 <= k < pins@.len() && pins@[k] == i),
{
    let mut k: usize = 0;
    while k < pins.len()
        invariant
            k <= pins@.len(),
            forall|j: int| 0 <= j < k ==> #[trigger] pins@[j] < N_PINS,
        decreases pins@.len() - k,
    {
        if pins[k] as usize >= N_PINS {
            return None;
        }
        k = k + 1;
    }
    let mut v: Vec<bool> = Vec::new();
    let mut i: usize = 0;
    while i < N_PINS
        invariant
            i <= N_PINS,
            v@ == Seq::new(i as nat, |j: int| false),
        decreases N_PINS - i,
    {
        v.push(false);
        i = i + 1;
    }
    let mut k: usize = 0;
    while k < pins.len()
        invariant
            k <= pins@.len(),
            all_pins_valid(pins@),
            v@.len() == N_PINS,
            forall|i: int|
                0 <= i < N_PINS ==> (#[trigger] v@[i] <==> exists|j: int|
                    0 <= j < k && pins@[j] == i),
        decreases pins@.len() - k,
    {
        let p = pins[k] as usize;
        v.set(p, true);
        proof {
            assert forall|i: int| 0 <= i < N_PINS implies (#[trigger] v@[i] <==> exists|j: int|
                0 <= j < k + 1 && pins@[j] == i) by {
                if i == p {
                    assert(pins@[k as int] == i);
                } else {
                    if exists|j: int| 0 <= j < k + 1 && pins@[j] == i {
                        let j = choose|j: int| 0 <= j < k + 1 && pins@[j] == i;
                        assert(j < k);
                    }
                }
            }
        }
        k = k + 1;
    }
    Some(v)
}

/// ASCII letters folded to lower case; other bytes unchanged.
pub open spec fn ascii_lower(b: u8) -> u8 {
    if 65 <= b <= 90 {
        (b + 32) as u8
    } else {
        b
    }
}

/// The lower-case name of a direction, in bytes.
pub open spec fn direction_name(d: Direction) -> Seq<u8> {
    match d {
        Direction::Up => seq![117u8, 112u8],
        Direction::Down => seq![100u8, 111u8, 119u8, 110u8],
        Direction::Left => seq![108u8, 101u8, 102u8, 116u8],
        Direction::Right => seq![114u8, 105u8, 103u8, 104u8, 116u8],
    }
}

/// `bytes` spell the name of `d`, in any mix of upper and lower case.
pub open spec fn names_direction(bytes: Seq<u8>, d: Direction) -> bool {
    bytes.len() == direction_name(d).len() && forall|i: int|
        0 <= i < bytes.len() ==> ascii_lower(#[trigger] bytes[i]) == direction_name(d)[i]
}

fn lower_byte(b: u8) -> (r: u8)
    ensures
        r == ascii_lower(b),
{
    if 65 <= b && b <= 90 {
        b + 32
    } else {
        b
    }
}

fn spells(bytes: &[u8], name: &[u8]) -> (r: bool)
    ensures
        r == (bytes@.len() == name@.len() && forall|i: int|
            0 <= i < bytes@.len() ==> ascii_lower(#[trigger] bytes@[i]) == name@[i]),
{
    if bytes.len() != name.len() {
        return false;
    }
    let mut i: usize = 0;
    while i < bytes.len()
        invariant
            i <= bytes@.len(),
            bytes@.len() == name@.len(),
            forall|j: int| 0 <= j < i ==> ascii_lower(#[trigger] bytes@[j]) == name@[j],
        decreases bytes@.len() - i,
    {
        if lower_byte(bytes[i]) != name[i] {
            return false;
        }
        i = i + 1;
    }
    true
}

/// The direction that `s` names: `up`, `down`, `left` or `right`, in any
/// case; `None` for anything else.
pub fn parse_direction(s: &str) -> (r: Option<Direction>)
    ensures
        r matches Some(d) ==> names_direction(s.spec_bytes(), d),
        r is None ==> forall|d: Direction| !names_direction(s.spec_bytes(), d),
{
    let bytes = s.as_bytes();
    let up: [u8; 2] = [117, 112];
    let down: [u8; 4] = [100, 111, 119, 110];
    let left: [u8; 4] = [108, 101, 102, 116];
    let right: [u8; 5] = [114, 105, 103, 104, 116];
    assert(up@ =~= direction_name(Direction::Up));
    assert(down@ =~= direction_name(Direction::Down));
    assert(left@ =~= direction_name(Direction::Left));
    assert(right@ =~= direction_name(Direction::Right));
    if spells(bytes, up.as_slice()) {
        Some(Direction::Up)
    } else if spells(bytes, down.as_slice()) {
        Some(Direction::Down)
    } else if spells(bytes, left.as_slice()) {
        Some(Direction::Left)
    } else if spells(bytes, right.as_slice()) {
        Some(Direction::Right)
    } else {
        proof {
            assert forall|d: Direction| !names_direction(s.spec_bytes(), d) by {
                match d {
                    Direction::Up => {},
                    Direction::Down => {},
                    Direction::Left => {},
                    Direction::Right => {},
                }
            }
        }
        None
    }
}

} // verus!
