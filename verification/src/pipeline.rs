//! The pipeline driver: what one broadcast leads to.
//!
//! The driver owns the identity lock and the one-shot flags of a run. For each broadcast
//! it says what is to be sent; the caller transmits and reports back.

use vstd::prelude::*;
use vstd::pervasive::unreached;
use crate::advertisement::{AdvertisementEvent, AdvertisementView};
use crate::codec::{
    connection_status_message, connection_status_packet, heart_rate_message, heart_rate_packet,
    Argument, ProtocolMessage, ProtocolMessageView,
};
use crate::config::HEART_RATE_DATA_INDEX;
use crate::decoder::{decode, decoded, HeartRateReading};
use crate::gate::{
    accepts, display_name, lock_after, resolved_name, vendor_matches, IdentityLock,
};
use crate::sink::{logged_after, report_for, EmissionLogState, MessageKind, Report};

verus! {

/// What one broadcast leads to.
#[derive(Clone, Debug, PartialEq, Eq)]
pub enum Step {
    /// The identity gate rejected the broadcast: nothing to do.
    Rejected,
    /// The device passed, but its payload is too short to hold a heart rate: nothing is
    /// sent, and the two lengths are worth a log line.
    InsufficientData {
        device_name: String,
        signal_strength: i16,
        first_sighting: bool,
        observed_len: usize,
        required_len: usize,
    },
    /// The device passed and its heart rate was decoded: both messages are to be sent,
    /// the heart rate first.
    Forward {
        device_name: String,
        signal_strength: i16,
        first_sighting: bool,
        reading: HeartRateReading,
        heart_rate: ProtocolMessage,
        connection_status: ProtocolMessage,
    },
}

/// Mathematical model of [`Step`].
#[verifier::ext_equal]
pub enum StepView {
    Rejected,
    InsufficientData {
        device_name: Seq<char>,
        signal_strength: i16,
        first_sighting: bool,
        observed_len: nat,
        required_len: nat,
    },
    Forward {
        device_name: Seq<char>,
        signal_strength: i16,
        first_sighting: bool,
        reading: HeartRateReading,
        heart_rate: ProtocolMessageView,
        connection_status: ProtocolMessageView,
    },
}

impl View for Step {
    type V = StepView;

    open spec fn view(&self) -> StepView {
        match self {
            Step::Rejected => StepView::Rejected,
            Step::InsufficientData {
                device_name,
                signal_strength,
                first_sighting,
                observed_len,
                required_len,
            } => StepView::InsufficientData {
                device_name: device_name@,
                signal_strength: *signal_strength,
                first_sighting: *first_sighting,
                observed_len: *observed_len as nat,
                required_len: *required_len as nat,
            },
            Step::Forward {
                device_name,
                signal_strength,
                first_sighting,
                reading,
                heart_rate,
                connection_status,
            } => StepView::Forward {
                device_name: device_name@,
                signal_strength: *signal_strength,
                first_sighting: *first_sighting,
                reading: *reading,
                heart_rate: heart_rate@,
                connection_status: connection_status@,
            },
        }
    }
}

/// The manufacturer payload of a broadcast; empty where it has none.
pub open spec fn payload_of(event: AdvertisementView) -> Seq<u8> {
    match event.manufacturer {
        Some(data) => data.bytes,
        None => Seq::empty(),
    }
}

/// The signal strength to log for a broadcast: zero where it reports none.
pub open spec fn strength_of(event: AdvertisementView) -> i16 {
    match event.signal_strength {
        Some(strength) => strength,
        None => 0,
    }
}

/// What a broadcast leads to while `lock` is the locked name.
pub open spec fn step_for(lock: Option<Seq<char>>, event: AdvertisementView) -> StepView {
    if !accepts(lock, event) {
        StepView::Rejected
    } else {
        match decoded(payload_of(event)) {
            Some(reading) => StepView::Forward {
                device_name: resolved_name(event),
                signal_strength: strength_of(event),
                first_sighting: lock is None,
                reading,
                heart_rate: heart_rate_packet(reading),
                connection_status: connection_status_packet(),
            },
            None => StepView::InsufficientData {
                device_name: resolved_name(event),
                signal_strength: strength_of(event),
                first_sighting: lock is None,
                observed_len: payload_of(event).len(),
                required_len: (HEART_RATE_DATA_INDEX + 1) as nat,
            },
        }
    }
}

/// The state of one run: the identity lock and the one-shot flags.
#[derive(Clone, Debug, PartialEq, Eq)]
pub struct Pipeline {
    lock: IdentityLock,
    log: EmissionLogState,
}

impl Pipeline {
    /// The locked device name.
    pub closed spec fn locked_name(&self) -> Option<Seq<char>> {
        self.lock@
    }

    /// Whether a delivery of the given kind has been confirmed.
    pub closed spec fn logged(&self, kind: MessageKind) -> bool {
        self.log.logged(kind)
    }

    /// The state a run starts with: no device locked, nothing confirmed.
    pub fn new() -> (pipeline: Pipeline)
        ensures
            pipeline.locked_name() is None,
            !pipeline.logged(MessageKind::HeartRate),
            !pipeline.logged(MessageKind::ConnectionStatus),
    {
        Pipeline { lock: IdentityLock::new(), log: EmissionLogState::new() }
    }

    /// The identity lock.
    pub fn lock(&self) -> (lock: &IdentityLock)
        ensures
            lock@ == self.locked_name(),
    {
        &self.lock
    }

    /// The one-shot flags.
    pub fn log(&self) -> (log: &EmissionLogState)
        ensures
            forall|kind: MessageKind| log.logged(kind) == self.logged(kind),
    {
        &self.log
    }

    /// Takes one broadcast through the identity gate and the decoder, and says what is
    /// to be sent. The one-shot flags are left alone: they change when a send is
    /// reported.
    pub fn process(&mut self, event: &AdvertisementEvent) -> (step: Step)
        ensures
            step@ == step_for(old(self).locked_name(), event@),
            final(self).locked_name() == lock_after(old(self).locked_name(), event@),
            forall|kind: MessageKind| final(self).logged(kind) == old(self).logged(kind),
    {
        let first_sighting = !self.lock.is_set();
        if !self.lock.accept(event) {
            return Step::Rejected;
        }
        let device_name = display_name(event);
        let signal_strength: i16 = match event.signal_strength {
            Some(strength) => strength,
            None => 0,
        };
        match &event.manufacturer {
            Some(data) => {
                match decode(data.bytes.as_slice()) {
                    Some(reading) => Step::Forward {
                        device_name,
                        signal_strength,
                        first_sighting,
                        reading,
                        heart_rate: heart_rate_message(&reading),
                        connection_status: connection_status_message(),
                    },
                    None => Step::InsufficientData {
                        device_name,
                        signal_strength,
                        first_sighting,
                        observed_len: data.bytes.len(),
                        required_len: HEART_RATE_DATA_INDEX + 1,
                    },
                }
            },
            // a broadcast without a payload has not passed
            None => unreached(),
        }
    }

    /// Takes note of one attempted send of the given kind, and says what to report.
    /// The identity lock and the flag of the other kind are left alone.
    pub fn record(&mut self, kind: MessageKind, delivered: bool) -> (report: Report)
        ensures
            report == report_for(old(self).logged(kind), delivered),
            final(self).logged(kind) == logged_after(old(self).logged(kind), delivered),
            forall|other: MessageKind|
                other != kind ==> final(self).logged(other) == old(self).logged(other),
            final(self).locked_name() == old(self).locked_name(),
    {
        self.log.record(kind, delivered)
    }
}

/// What a broadcast leads to is settled by the identity gate and the length of the
/// payload: nothing if it is rejected, a note on the lengths if it passes with fewer
/// than four bytes, both messages if it passes with four or more.
pub proof fn lemma_step_kinds(lock: Option<Seq<char>>, event: AdvertisementView)
    ensures
        step_for(lock, event) is Rejected <==> !accepts(lock, event),
        step_for(lock, event) is InsufficientData <==> accepts(lock, event) && payload_of(
            event,
        ).len() < 4,
        step_for(lock, event) is Forward <==> accepts(lock, event) && payload_of(event).len() >= 4,
{
}

/// A payload of fewer than four bytes leads to no message, whatever else the broadcast
/// holds. The lock changes on such a broadcast only by being set: when it was empty and
/// the vendor is the one looked for.
pub proof fn lemma_short_payload_sends_nothing(lock: Option<Seq<char>>, event: AdvertisementView)
    requires
        payload_of(event).len() < 4,
    ensures
        !(step_for(lock, event) is Forward),
        lock_after(lock, event) != lock ==> lock is None && vendor_matches(event) && lock_after(
            lock,
            event,
        ) == Some(resolved_name(event)),
{
}

/// Where messages are sent, they are the heart-rate message of the payload's fourth
/// byte and the connection-status message, whose one argument is always true.
pub proof fn lemma_forwarded_messages(lock: Option<Seq<char>>, event: AdvertisementView)
    requires
        step_for(lock, event) is Forward,
    ensures
        step_for(lock, event)->reading == HeartRateReading::of(payload_of(event)[3]),
        step_for(lock, event)->heart_rate == heart_rate_packet(step_for(lock, event)->reading),
        step_for(lock, event)->connection_status == connection_status_packet(),
        connection_status_packet().args == seq![Argument::Bool(true)],
{
}

/// A broadcast that is rejected leads to nothing and leaves the lock as it was.
pub proof fn lemma_rejected_changes_nothing(lock: Option<Seq<char>>, event: AdvertisementView)
    requires
        !accepts(lock, event),
    ensures
        step_for(lock, event) is Rejected,
        lock_after(lock, event) == lock,
{
}

} // verus!
