//! The emission sink: what to transmit, and which sends are worth a log line.
//!
//! The sink never touches a socket. It hands out the bytes to transmit and is told
//! afterwards whether they were delivered.

use vstd::prelude::*;
use crate::codec::{encode, wire_bytes, EncodeError, ProtocolMessage};

verus! {

/// The two kinds of message that the bridge sends.
#[derive(Clone, Copy, Debug, PartialEq, Eq)]
pub enum MessageKind {
    HeartRate,
    ConnectionStatus,
}

/// What to do with a message.
#[derive(Clone, Debug, PartialEq, Eq)]
pub enum Dispatch {
    /// Send these bytes to the target.
    Transmit(Vec<u8>),
    /// The message has no encoding: report that, and send nothing.
    EncodingFailed(EncodeError),
}

/// Mathematical model of [`Dispatch`].
#[verifier::ext_equal]
pub enum DispatchView {
    Transmit(Seq<u8>),
    EncodingFailed(EncodeError),
}

impl View for Dispatch {
    type V = DispatchView;

    open spec fn view(&self) -> DispatchView {
        match self {
            Dispatch::Transmit(bytes) => DispatchView::Transmit(bytes@),
            Dispatch::EncodingFailed(error) => DispatchView::EncodingFailed(*error),
        }
    }
}

/// What to tell the operator once a send has been attempted.
#[derive(Clone, Copy, Debug, PartialEq, Eq)]
pub enum Report {
    /// The first delivery of this kind of message: confirm it.
    Confirmation,
    /// A later delivery: say nothing.
    Silent,
    /// The send failed: report the failure.
    SendFailure,
}

/// What follows from the outcome of encoding: the bytes go out, or the failure is reported.
pub open spec fn dispatch_of(encoded: Result<Seq<u8>, EncodeError>) -> DispatchView {
    match encoded {
        Ok(bytes) => DispatchView::Transmit(bytes),
        Err(error) => DispatchView::EncodingFailed(error),
    }
}

/// The report on one attempted send, given whether a delivery of that kind was
/// confirmed before.
pub open spec fn report_for(logged: bool, delivered: bool) -> Report {
    if !delivered {
        Report::SendFailure
    } else if logged {
        Report::Silent
    } else {
        Report::Confirmation
    }
}

/// Whether a delivery has been confirmed once a send has been attempted.
pub open spec fn logged_after(logged: bool, delivered: bool) -> bool {
    logged || delivered
}

/// Whether a delivery has been confirmed after a run of attempted sends, oldest first.
pub open spec fn logged_after_all(logged: bool, outcomes: Seq<bool>) -> bool
    decreases outcomes.len(),
{
    if outcomes.len() == 0 {
        logged
    } else {
        logged_after(logged_after_all(logged, outcomes.drop_last()), outcomes.last())
    }
}

/// The report on the send at position `turn` of a run of attempted sends.
pub open spec fn report_at(logged: bool, outcomes: Seq<bool>, turn: int) -> Report {
    report_for(logged_after_all(logged, outcomes.take(turn)), outcomes[turn])
}

/// How many confirmations a run of attempted sends gives rise to.
pub open spec fn confirmations(logged: bool, outcomes: Seq<bool>) -> nat
    decreases outcomes.len(),
{
    if outcomes.len() == 0 {
        0
    } else {
        let earlier = outcomes.drop_last();
        let last = report_at(logged, outcomes, outcomes.len() - 1);
        confirmations(logged, earlier) + if last == Report::Confirmation {
            1nat
        } else {
            0nat
        }
    }
}

/// The one-shot flags: whether a delivery of each kind of message has been confirmed.
#[derive(Clone, Copy, Debug, PartialEq, Eq)]
pub struct EmissionLogState {
    hr_logged: bool,
    conn_logged: bool,
}

impl EmissionLogState {
    /// Whether a delivery of the given kind has been confirmed.
    pub closed spec fn logged(&self, kind: MessageKind) -> bool {
        match kind {
            MessageKind::HeartRate => self.hr_logged,
            MessageKind::ConnectionStatus => self.conn_logged,
        }
    }

    /// The state a run starts with: nothing confirmed yet.
    pub fn new() -> (state: EmissionLogState)
        ensures
            !state.logged(MessageKind::HeartRate),
            !state.logged(MessageKind::ConnectionStatus),
    {
        EmissionLogState { hr_logged: false, conn_logged: false }
    }

    /// Whether a delivery of the given kind has been confirmed.
    pub fn is_logged(&self, kind: MessageKind) -> (logged: bool)
        ensures
            logged == self.logged(kind),
    {
        match kind {
            MessageKind::HeartRate => self.hr_logged,
            MessageKind::ConnectionStatus => self.conn_logged,
        }
    }

    /// Takes note of one attempted send of the given kind, and says what to report.
    ///
    /// The flag of the other kind is left alone.
    pub fn record(&mut self, kind: MessageKind, delivered: bool) -> (report: Report)
        ensures
            report == report_for(old(self).logged(kind), delivered),
            final(self).logged(kind) == logged_after(old(self).logged(kind), delivered),
            forall|other: MessageKind|
                other != kind ==> final(self).logged(other) == old(self).logged(other),
    {
        match kind {
            MessageKind::HeartRate => settle(&mut self.hr_logged, delivered),
            MessageKind::ConnectionStatus => settle(&mut self.conn_logged, delivered),
        }
    }
}

/// Encodes a message and says what to do with it. Whether a delivery was confirmed
/// before plays no part: every message that has an encoding is transmitted.
pub fn dispatch(message: &ProtocolMessage) -> (action: Dispatch)
    ensures
        action@ == DispatchView::Transmit(wire_bytes(message@)),
{
    after_encoding(encode(message))
}

/// What to do once encoding has succeeded or failed.
pub fn after_encoding(encoded: Result<Vec<u8>, EncodeError>) -> (action: Dispatch)
    ensures
        action@ == dispatch_of(
            match encoded {
                Ok(bytes) => Ok(bytes@),
                Err(error) => Err(error),
            },
        ),
{
    match encoded {
        Ok(bytes) => Dispatch::Transmit(bytes),
        Err(error) => Dispatch::EncodingFailed(error),
    }
}

/// Takes note of one attempted send against a one-shot flag, and says what to report:
/// a failure, the confirmation of the first delivery, or nothing.
pub fn settle(logged: &mut bool, delivered: bool) -> (report: Report)
    ensures
        report == report_for(*old(logged), delivered),
        *final(logged) == logged_after(*old(logged), delivered),
{
    if !delivered {
        Report::SendFailure
    } else if *logged {
        Report::Silent
    } else {
        *logged = true;
        Report::Confirmation
    }
}

/// A flag that is set stays set, whatever is sent afterwards.
pub proof fn lemma_flag_is_permanent(outcomes: Seq<bool>)
    ensures
        logged_after_all(true, outcomes),
        confirmations(true, outcomes) == 0,
    decreases outcomes.len(),
{
    if outcomes.len() > 0 {
        lemma_flag_is_permanent(outcomes.drop_last());
        assert(outcomes.take(outcomes.len() - 1) =~= outcomes.drop_last());
    }
}

/// The flag is set exactly when some send has been delivered.
pub proof fn lemma_flag_set_by_delivery(logged: bool, outcomes: Seq<bool>)
    ensures
        logged_after_all(logged, outcomes) == (logged || outcomes.contains(true)),
    decreases outcomes.len(),
{
    if outcomes.len() > 0 {
        let earlier = outcomes.drop_last();
        lemma_flag_set_by_delivery(logged, earlier);
        if earlier.contains(true) {
            let i = choose|i: int| 0 <= i < earlier.len() && earlier[i] == true;
            assert(outcomes[i] == true);
        }
        if outcomes.last() {
            assert(outcomes[outcomes.len() - 1] == true);
        }
        if outcomes.contains(true) && !outcomes.last() {
            let i = choose|i: int| 0 <= i < outcomes.len() && outcomes[i] == true;
            assert(earlier[i] == true);
        }
    }
}

/// In a run of sends, a failed one is reported as failed, the first delivered one is
/// confirmed unless one was confirmed before the run, and every other is passed over in
/// silence.
pub proof fn lemma_first_delivery_is_confirmed(logged: bool, outcomes: Seq<bool>, turn: int)
    requires
        0 <= turn < outcomes.len(),
    ensures
        report_at(logged, outcomes, turn) == Report::SendFailure <==> !outcomes[turn],
        report_at(logged, outcomes, turn) == Report::Confirmation <==> outcomes[turn] && !logged
            && forall|i: int| 0 <= i < turn ==> !outcomes[i],
{
    let before = outcomes.take(turn);
    lemma_flag_set_by_delivery(logged, before);
    if before.contains(true) {
        let i = choose|i: int| 0 <= i < before.len() && before[i] == true;
        assert(outcomes[i]);
    } else {
        assert forall|i: int| 0 <= i < turn implies !outcomes[i] by {
            assert(before[i] == outcomes[i]);
        }
    }
}

/// However many sends are delivered, the first delivery is confirmed and no other: a
/// run of sends gives one confirmation if any of them is delivered, and none if not.
pub proof fn lemma_one_confirmation(outcomes: Seq<bool>)
    ensures
        confirmations(false, outcomes) == if outcomes.contains(true) {
            1nat
        } else {
            0nat
        },
    decreases outcomes.len(),
{
    if outcomes.len() > 0 {
        let earlier = outcomes.drop_last();
        lemma_one_confirmation(earlier);
        lemma_flag_set_by_delivery(false, earlier);
        lemma_flag_set_by_delivery(false, outcomes);
        assert(outcomes.take(outcomes.len() - 1) =~= earlier);
    }
}

} // verus!
