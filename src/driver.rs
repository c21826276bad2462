//! The backends that drive the electrode array: their electrode states, the
//! events a backend with feedback reports to a move in progress, and its
//! latest capacitance readings.
use vstd::prelude::*;

use crate::electrodes::{encodes, pack_electrodes};
use crate::N_PINS;

verus! {

/// An event of the sensor stream: the acknowledgement of an electrode-enable
/// command, an active-capacitance measurement in calibrated units, or the
/// acknowledgement of a stepper move.
#[derive(Clone, Copy, Debug, PartialEq, Eq, Structural)]
pub enum CapacitanceEvent {
    Ack,
    Measurement(i32),
    StepperAck,
}

/// 128 electrode states, changed one by one and then transmitted as a
/// whole.
pub struct ElectrodeBank {
    pins: Vec<bool>,
}

impl View for ElectrodeBank {
    type V = Seq<bool>;

    closed spec fn view(&self) -> Seq<bool> {
        self.pins@
    }
}

impl ElectrodeBank {
    pub open spec fn wf(&self) -> bool {
        self@.len() == N_PINS
    }

    /// Every electrode off.
    pub fn new() -> (d: ElectrodeBank)
        ensures
            d.wf(),
            d@ == Seq::new(N_PINS as nat, |i: int| false),
    {
        let mut pins: Vec<bool> = Vec::new();
        let mut i: usize = 0;
        while i < N_PINS
            invariant
                i <= N_PINS,
                pins@ == Seq::new(i as nat, |j: int| false),
            decreases N_PINS - i,
        {
            pins.push(false);
            i = i + 1;
        }
        ElectrodeBank { pins }
    }

    /// Sets every electrode inactive.
    pub fn clear_pins(&mut self)
        requires
            old(self).wf(),
        ensures
            final(self)@ == Seq::new(N_PINS as nat, |i: int| false),
    {
        let mut i: usize = 0;
        while i < N_PINS
            invariant
                i <= N_PINS,
                self.pins@.len() == N_PINS,
                forall|j: int| 0 <= j < i ==> !#[trigger] self.pins@[j],
            decreases N_PINS - i,
        {
            self.pins.set(i, false);
            i = i + 1;
        }
        assert(self.pins@ =~= Seq::new(N_PINS as nat, |i: int| false));
    }

    /// Sets electrode `pin` to `value`.
    pub fn set_pin(&mut self, pin: usize, value: bool)
        requires
            old(self).wf(),
            pin < N_PINS,
        ensures
            final(self)@ == old(self)@.update(pin as int, value),
    {
        self.pins.set(pin, value);
    }

    /// Enables electrode `pin`.
    pub fn set_pin_hi(&mut self, pin: usize)
        requires
            old(self).wf(),
            pin < N_PINS,
        ensures
            final(self)@ == old(self)@.update(pin as int, true),
    {
        self.pins.set(pin, true);
    }

    /// Disables electrode `pin`.
    pub fn set_pin_lo(&mut self, pin: usize)
        requires
            old(self).wf(),
            pin < N_PINS,
        ensures
            final(self)@ == old(self)@.update(pin as int, false),
    {
        self.pins.set(pin, false);
    }

    /// The payload of the electrode-enable command that transmits the
    /// current electrode states.
    pub fn shift_and_latch(&self) -> (payload: Vec<u8>)
        requires
            self.wf(),
        ensures
            encodes(payload@, self@),
    {
        pack_electrodes(self.pins.as_slice())
    }
}

/// The capabilities through which electrode output and moves drive a
/// backend, whatever its hardware.
pub trait Driver {
    /// The electrode states held for the next transmission.
    spec fn pins(&self) -> Seq<bool>;

    /// Whether the backend reports capacitance feedback.
    spec fn feedback(&self) -> bool;

    /// Sets the electrode drive frequency; a backend without a variable drive
    /// frequency ignores it.
    fn set_frequency(&mut self, frequency_hz: u32) -> (r: Result<(), Unsupported>)
        ensures
            final(self).pins() == old(self).pins(),
            final(self).feedback() == old(self).feedback(),
    ;

    /// Sets every electrode inactive.
    fn clear_pins(&mut self)
        requires
            old(self).pins().len() == N_PINS,
        ensures
            final(self).pins() == Seq::new(N_PINS as nat, |i: int| false),
            final(self).feedback() == old(self).feedback(),
    ;

    /// Sets electrode `pin` to `value`.
    fn set_pin(&mut self, pin: usize, value: bool)
        requires
            old(self).pins().len() == N_PINS,
            pin < N_PINS,
        ensures
            final(self).pins() == old(self).pins().update(pin as int, value),
            final(self).feedback() == old(self).feedback(),
    ;

    /// Enables electrode `pin`.
    fn set_pin_hi(&mut self, pin: usize)
        requires
            old(self).pins().len() == N_PINS,
            pin < N_PINS,
        ensures
            final(self).pins() == old(self).pins().update(pin as int, true),
            final(self).feedback() == old(self).feedback(),
    ;

    /// Disables electrode `pin`.
    fn set_pin_lo(&mut self, pin: usize)
        requires
            old(self).pins().len() == N_PINS,
            pin < N_PINS,
        ensures
            final(self).pins() == old(self).pins().update(pin as int, false),
            final(self).feedback() == old(self).feedback(),
    ;

    /// The payload of the electrode-enable command that transmits the
    /// current electrode states.
    fn shift_and_latch(&self) -> (payload: Vec<u8>)
        requires
            self.pins().len() == N_PINS,
        ensures
            encodes(payload@, self.pins()),
    ;

    /// Whether the backend reports capacitance feedback.
    fn has_capacitance_feedback(&self) -> (r: bool)
        ensures
            r == self.feedback(),
    ;
}

/// The serial-link backend, which reports capacitance feedback.
pub struct PdDriver {
    bank: ElectrodeBank,
}

/// A backend without capacitance feedback: moves on it are open-loop.
pub struct OpenLoopDriver {
    bank: ElectrodeBank,
}

impl PdDriver {
    /// A serial-link backend with every electrode off.
    pub fn new() -> (d: PdDriver)
        ensures
            d.pins() == Seq::new(N_PINS as nat, |i: int| false),
            d.feedback(),
    {
        PdDriver { bank: ElectrodeBank::new() }
    }
}

impl OpenLoopDriver {
    /// A backend without feedback with every electrode off.
    pub fn new() -> (d: OpenLoopDriver)
        ensures
            d.pins() == Seq::new(N_PINS as nat, |i: int| false),
            !d.feedback(),
    {
        OpenLoopDriver { bank: ElectrodeBank::new() }
    }
}

impl Driver for PdDriver {
    closed spec fn pins(&self) -> Seq<bool> {
        self.bank@
    }

    closed spec fn feedback(&self) -> bool {
        true
    }

    fn set_frequency(&mut self, _frequency_hz: u32) -> (r: Result<(), Unsupported>) {
        Ok(())
    }

    fn clear_pins(&mut self) {
        self.bank.clear_pins();
    }

    fn set_pin(&mut self, pin: usize, value: bool) {
        self.bank.set_pin(pin, value);
    }

    fn set_pin_hi(&mut self, pin: usize) {
        self.bank.set_pin_hi(pin);
    }

    fn set_pin_lo(&mut self, pin: usize) {
        self.bank.set_pin_lo(pin);
    }

    fn shift_and_latch(&self) -> (payload: Vec<u8>) {
        self.bank.shift_and_latch()
    }

    fn has_capacitance_feedback(&self) -> (r: bool) {
        true
    }
}

impl Driver for OpenLoopDriver {
    closed spec fn pins(&self) -> Seq<bool> {
        self.bank@
    }

    closed spec fn feedback(&self) -> bool {
        false
    }

    fn set_frequency(&mut self, _frequency_hz: u32) -> (r: Result<(), Unsupported>) {
        Ok(())
    }

    fn clear_pins(&mut self) {
        self.bank.clear_pins();
    }

    fn set_pin(&mut self, pin: usize, value: bool) {
        self.bank.set_pin(pin, value);
    }

    fn set_pin_hi(&mut self, pin: usize) {
        self.bank.set_pin_hi(pin);
    }

    fn set_pin_lo(&mut self, pin: usize) {
        self.bank.set_pin_lo(pin);
    }

    fn shift_and_latch(&self) -> (payload: Vec<u8>) {
        self.bank.shift_and_latch()
    }

    fn has_capacitance_feedback(&self) -> (r: bool) {
        false
    }
}

/// Replaces the electrode states of `driver` by `pins`, on all electrodes at
/// once, and returns the payload that transmits them.
pub fn output_pins<D: Driver>(driver: &mut D, pins: &[bool]) -> (payload: Vec<u8>)
    requires
        old(driver).pins().len() == N_PINS,
        pins@.len() == N_PINS,
    ensures
        final(driver).pins() == pins@,
        final(driver).feedback() == old(driver).feedback(),
        encodes(payload@, pins@),
{
    driver.clear_pins();
    let mut i: usize = 0;
    while i < N_PINS
        invariant
            i <= N_PINS,
            pins@.len() == N_PINS,
            driver.pins().len() == N_PINS,
            driver.feedback() == old(driver).feedback(),
            forall|j: int| 0 <= j < N_PINS ==> #[trigger] driver.pins()[j] == (j < i && pins@[j]),
        decreases N_PINS - i,
    {
        if pins[i] {
            driver.set_pin_hi(i);
        }
        i = i + 1;
    }
    assert(driver.pins() =~= pins@);
    driver.shift_and_latch()
}

/// The latest readings of a backend with capacitance feedback: a full-array
/// sample, only ever replaced as a whole, and the latest active capacitance.
pub struct CapacitanceCache {
    bulk: Vec<i32>,
    active: i32,
}

impl View for CapacitanceCache {
    type V = (Seq<i32>, i32);

    closed spec fn view(&self) -> (Seq<i32>, i32) {
        (self.bulk@, self.active)
    }
}

impl CapacitanceCache {
    pub open spec fn wf(&self) -> bool {
        self@.0.len() == N_PINS
    }

    /// A cache of zero readings.
    pub fn new() -> (c: CapacitanceCache)
        ensures
            c.wf(),
            c@.0 == Seq::new(N_PINS as nat, |i: int| 0i32),
            c@.1 == 0,
    {
        let mut bulk: Vec<i32> = Vec::new();
        let mut i: usize = 0;
        while i < N_PINS
            invariant
                i <= N_PINS,
                bulk@ == Seq::new(i as nat, |j: int| 0i32),
            decreases N_PINS - i,
        {
            bulk.push(0);
            i = i + 1;
        }
        CapacitanceCache { bulk, active: 0 }
    }

    /// Replaces the full-array sample.
    pub fn store_bulk(&mut self, sample: Vec<i32>)
        requires
            sample@.len() == N_PINS,
        ensures
            final(self).wf(),
            final(self)@ == (sample@, old(self)@.1),
    {
        self.bulk = sample;
    }

    /// Replaces the active capacitance.
    pub fn store_active(&mut self, value: i32)
        ensures
            final(self)@ == (old(self)@.0, value),
    {
        self.active = value;
    }

    /// A copy of the latest full-array sample.
    pub fn bulk_capacitance(&self) -> (r: Vec<i32>)
        ensures
            r@ == self@.0,
    {
        let r = self.bulk.clone();
        assert(r@ =~= self.bulk@);
        r
    }

    /// The latest active capacitance.
    pub fn active_capacitance(&self) -> (r: i32)
        ensures
            r == self@.1,
    {
        self.active
    }
}

/// The backend has no capacitance feedback.
#[derive(Clone, Copy, Debug, PartialEq, Eq, Structural)]
pub struct Unsupported;

/// The latest full-array sample of a backend; `cache` is `None` for a
/// backend without capacitance feedback, which has none.
pub fn feedback_bulk_capacitance(cache: Option<&CapacitanceCache>) -> (r: Result<Vec<i32>, Unsupported>)
    ensures
        cache is None <==> r is Err,
        cache matches Some(c) ==> (r matches Ok(v) && v@ == c@.0),
{
    match cache {
        Some(c) => Ok(c.bulk_capacitance()),
        None => Err(Unsupported),
    }
}

/// The latest active capacitance of a backend; `cache` is `None` for a
/// backend without capacitance feedback, which has none.
pub fn feedback_active_capacitance(cache: Option<&CapacitanceCache>) -> (r: Result<i32, Unsupported>)
    ensures
        cache is None <==> r is Err,
        cache matches Some(c) ==> r == Ok::<i32, Unsupported>(c@.1),
{
    match cache {
        Some(c) => Ok(c.active_capacitance()),
        None => Err(Unsupported),
    }
}

} // verus!
