//! Bit-packing of electrode on/off patterns into the 16-byte payload of an
//! electrode-enable command.
use vstd::prelude::*;

use crate::N_PINS;

verus! {

/// Number of payload bytes in an electrode-enable command.
pub const PAYLOAD_LEN: usize = 16;

/// Whether bit `k` (0 is the least significant) of `b` is set.
pub open spec fn bit_set(b: u8, k: u8) -> bool {
    (b >> k) & 1u8 == 1u8
}

/// The state of electrode `i` as carried by a payload: bit `7 - i % 8` of byte
/// `i / 8`, so that each byte holds eight electrodes most significant bit first.
pub open spec fn payload_pin(payload: Seq<u8>, i: int) -> bool {
    bit_set(payload[i / 8], (7 - i % 8) as u8)
}

/// `payload` is the packed form of the 128 electrode states `pins`.
pub open spec fn encodes(payload: Seq<u8>, pins: Seq<bool>) -> bool {
    &&& payload.len() == PAYLOAD_LEN
    &&& pins.len() == N_PINS
    &&& forall|i: int| 0 <= i < N_PINS ==> #[trigger] payload_pin(payload, i) == pins[i]
}

proof fn lemma_set_msb_first(b: u8, j: u8, k: u8)
    requires
        j < 8,
        k < 8,
    ensures
        bit_set(b | (0x80u8 >> j), (7 - k) as u8) == (k == j || bit_set(b, (7 - k) as u8)),
{
    assert(((b | (0x80u8 >> j)) >> ((7 - k) as u8)) & 1u8 == 1u8 <==> (k == j || (b >> ((7
        - k) as u8)) & 1u8 == 1u8)) by (bit_vector)
        requires
            j < 8,
            k < 8,
    ;
}

proof fn lemma_zero_byte(k: u8)
    requires
        k < 8,
    ensures
        !bit_set(0u8, k),
{
    assert((0u8 >> k) & 1u8 != 1u8) by (bit_vector);
}

/// Packs eight electrode states, the first in the most significant bit.
fn pack_byte(pins: &[bool], start: usize) -> (b: u8)
    requires
        start + 8 <= pins@.len() <= usize::MAX,
    ensures
        forall|k: u8| k < 8 ==> #[trigger] bit_set(b, (7 - k) as u8) == pins@[start + k],
{
    let mut b: u8 = 0;
    let mut j: u8 = 0;
    proof {
        assert forall|k: u8| 0 <= k < 8 implies !#[trigger] bit_set(0u8, (7 - k) as u8) by {
            lemma_zero_byte((7 - k) as u8);
        }
    }
    while j < 8
        invariant
            j <= 8,
            start + 8 <= pins@.len() <= usize::MAX,
            forall|k: u8| k < j ==> #[trigger] bit_set(b, (7 - k) as u8) == pins@[start + k],
            forall|k: u8| j <= k < 8 ==> !#[trigger] bit_set(b, (7 - k) as u8),
        decreases 8 - j,
    {
        if pins[start + j as usize] {
            proof {
                assert forall|k: u8| k < 8 implies #[trigger] bit_set(b | (0x80u8 >> j), (7
                    - k) as u8) == (k == j || bit_set(b, (7 - k) as u8)) by {
                    lemma_set_msb_first(b, j, k);
                }
            }
            b = b | (0x80u8 >> j);
        }
        j = j + 1;
    }
    b
}

/// Packs the 128 electrode states into the 16 payload bytes of an
/// electrode-enable command: electrode `i` is bit `7 - i % 8` of byte `i / 8`.
pub fn pack_electrodes(pins: &[bool]) -> (payload: Vec<u8>)
    requires
        pins@.len() == N_PINS,
    ensures
        encodes(payload@, pins@),
{
    let mut payload: Vec<u8> = Vec::new();
    let mut w: usize = 0;
    while w < PAYLOAD_LEN
        invariant
            w <= PAYLOAD_LEN,
            pins@.len() == N_PINS,
            payload@.len() == w,
            forall|i: int| 0 <= i < 8 * w ==> #[trigger] payload_pin(payload@, i) == pins@[i],
        decreases PAYLOAD_LEN - w,
    {
        let b = pack_byte(pins, 8 * w);
        let ghost prev = payload@;
        payload.push(b);
        proof {
            assert forall|i: int| 0 <= i < 8 * (w + 1) implies #[trigger] payload_pin(
                payload@,
                i,
            ) == pins@[i] by {
                if i < 8 * w {
                    assert(i / 8 < w) by (nonlinear_arith)
                        requires
                            0 <= i < 8 * w,
                    ;
                    assert(payload@[i / 8] == prev[i / 8]);
                    assert(payload_pin(prev, i) == pins@[i]);
                } else {
                    let k = (i - 8 * w) as u8;
                    assert(i / 8 == w as int && i % 8 == k) by (nonlinear_arith)
                        requires
                            8 * w <= i < 8 * (w + 1),
                            k == i - 8 * w,
                    ;
                    assert(payload@[i / 8] == b);
                    assert(bit_set(b, (7 - k) as u8) == pins@[8 * w + k]);
                }
            }
        }
        w = w + 1;
    }
    payload
}

/// Unpacks the 16 payload bytes of an electrode-enable command into the 128
/// electrode states they carry.
pub fn unpack_electrodes(payload: &[u8]) -> (pins: Vec<bool>)
    requires
        payload@.len() == PAYLOAD_LEN,
    ensures
        pins@.len() == N_PINS,
        forall|i: int| 0 <= i < N_PINS ==> pins@[i] == #[trigger] payload_pin(payload@, i),
{
    let mut pins: Vec<bool> = Vec::new();
    let mut i: usize = 0;
    while i < N_PINS
        invariant
            i <= N_PINS,
            payload@.len() == PAYLOAD_LEN,
            pins@.len() == i,
            forall|j: int| 0 <= j < i ==> pins@[j] == #[trigger] payload_pin(payload@, j),
        decreases N_PINS - i,
    {
        let shift: u8 = (7 - i % 8) as u8;
        pins.push((payload[i / 8] >> shift) & 1u8 == 1u8);
        i = i + 1;
    }
    pins
}

/// The electrode states in which exactly the electrodes of `s` are enabled.
pub open spec fn pins_of_set(s: Set<int>) -> Seq<bool> {
    Seq::new(N_PINS as nat, |i: int| s.contains(i))
}

/// The set of electrodes that a payload enables.
pub open spec fn decoded_pins(payload: Seq<u8>) -> Set<int> {
    Set::new(|i: int| 0 <= i < N_PINS && payload_pin(payload, i))
}

/// Packing the electrode states of a set of pins and reading the payload back
/// yields exactly that set.
pub proof fn lemma_electrode_round_trip(s: Set<int>, payload: Seq<u8>)
    requires
        forall|i: int| #[trigger] s.contains(i) ==> 0 <= i < N_PINS,
        encodes(payload, pins_of_set(s)),
    ensures
        decoded_pins(payload) == s,
{
    assert forall|i: int| #[trigger] decoded_pins(payload).contains(i) == s.contains(i) by {
        if 0 <= i < N_PINS {
            assert(payload_pin(payload, i) == pins_of_set(s)[i]);
        }
    }
    assert(decoded_pins(payload) =~= s);
}

} // verus!
