//! What the serial reader loop does with each decoded message: which sensor
//! event it publishes, which readings it stores, and when a full-array sample
//! is complete.
use vstd::prelude::*;

use crate::collector::{
    collector_step, write_in_range, BulkMeasurementCollector, CAP_OFFSET,
    CollectorError, CollectorModel,
};
use crate::driver::CapacitanceEvent;

verus! {

/// A message decoded from the serial link, in raw sensor units.
#[derive(Debug)]
pub enum WireMessage {
    /// A single-channel report: the channel's baseline and its measurement.
    ActiveCapacitance { baseline: u16, measurement: u16 },
    /// Part of a full-array report: the raw values from channel `start_index` on.
    BulkCapacitance { start_index: u8, values: Vec<u16> },
    /// The acknowledgement of the command with message id `acked_id`.
    CommandAck { acked_id: u8 },
    /// The acknowledgement of a stepper-motor move.
    StepperAck,
    /// Any other message, which the loop does not act on.
    Other,
}

/// Calibrated active capacitance of a single-channel report.
pub open spec fn active_value(baseline: u16, measurement: u16) -> i32 {
    (measurement - baseline + CAP_OFFSET) as i32
}

/// What the loop does with one message.
#[derive(Debug)]
pub enum Routed {
    /// Publish `Measurement(c)` on the sensor channel and store `c` as the
    /// active capacitance.
    Active(i32),
    /// Store the completed full-array sample and publish it to the broker.
    Bulk(Vec<i32>),
    /// Publish the event on the sensor channel.
    Sensor(CapacitanceEvent),
    /// Nothing to do.
    Nothing,
    /// A partial report that does not fit the array; it is dropped.
    Rejected(CollectorError),
}

/// The decoding state of one serial link past the framing layer.
pub struct SerialReader {
    collector: BulkMeasurementCollector,
    electrode_enable_id: u8,
}

impl SerialReader {
    pub open spec fn wf(&self) -> bool {
        self.collector_state().values.len() == crate::N_PINS
            && self.collector_state().covered.len() == crate::N_PINS
    }

    /// The state of the bulk-measurement collector.
    pub closed spec fn collector_state(&self) -> CollectorModel {
        self.collector@
    }

    /// The message id of the electrode-enable command, whose acknowledgement
    /// is reported to moves.
    pub closed spec fn enable_id(&self) -> u8 {
        self.electrode_enable_id
    }

    /// A reader with an empty collector; `electrode_enable_id` is the message id
    /// of the electrode-enable command on this link.
    pub fn new(electrode_enable_id: u8) -> (r: SerialReader)
        ensures
            r.wf(),
            r.enable_id() == electrode_enable_id,
            r.collector_state().covered == Seq::new(crate::N_PINS as nat, |i: int| false),
    {
        SerialReader { collector: BulkMeasurementCollector::new(), electrode_enable_id }
    }

    /// Routes one decoded message.
    pub fn route(&mut self, msg: WireMessage) -> (r: Routed)
        requires
            old(self).wf(),
        ensures
            final(self).wf(),
            final(self).enable_id() == old(self).enable_id(),
            match msg {
                WireMessage::ActiveCapacitance { baseline, measurement } => {
                    &&& r matches Routed::Active(c) && c == active_value(baseline, measurement)
                    &&& final(self).collector_state() == old(self).collector_state()
                },
                WireMessage::BulkCapacitance { start_index, values } => {
                    if write_in_range(start_index as int, values@) {
                        let (m, out) = collector_step(
                            old(self).collector_state(),
                            start_index as int,
                            values@,
                        );
                        &&& final(self).collector_state() == m
                        &&& match out {
                            Some(sample) => r matches Routed::Bulk(v) && v@ == sample,
                            None => r is Nothing,
                        }
                    } else {
                        &&& r matches Routed::Rejected(e) && e == CollectorError::OutOfRange
                        &&& final(self).collector_state() == old(self).collector_state()
                    }
                },
                WireMessage::CommandAck { acked_id } => {
                    &&& acked_id == old(self).enable_id() ==> (r matches Routed::Sensor(e) && e
                        == CapacitanceEvent::Ack)
                    &&& acked_id != old(self).enable_id() ==> r is Nothing
                    &&& final(self).collector_state() == old(self).collector_state()
                },
                WireMessage::StepperAck => {
                    &&& r matches Routed::Sensor(e) && e == CapacitanceEvent::StepperAck
                    &&& final(self).collector_state() == old(self).collector_state()
                },
                WireMessage::Other => {
                    &&& r is Nothing
                    &&& final(self).collector_state() == old(self).collector_state()
                },
            },
    {
        match msg {
            WireMessage::ActiveCapacitance { baseline, measurement } => {
                Routed::Active(measurement as i32 - baseline as i32 + CAP_OFFSET)
            },
            WireMessage::BulkCapacitance { start_index, values } => {
                match self.collector.add_measurements(start_index as usize, values) {
                    Ok(Some(sample)) => Routed::Bulk(sample),
                    Ok(None) => Routed::Nothing,
                    Err(e) => Routed::Rejected(e),
                }
            },
            WireMessage::CommandAck { acked_id } => {
                if acked_id == self.electrode_enable_id {
                    Routed::Sensor(CapacitanceEvent::Ack)
                } else {
                    Routed::Nothing
                }
            },
            WireMessage::StepperAck => Routed::Sensor(CapacitanceEvent::StepperAck),
            WireMessage::Other => Routed::Nothing,
        }
    }
}

} // verus!
