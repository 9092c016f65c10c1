//! Reassembly of a burst of scanned-data reports into one barcode payload.
//!
//! A [`Reassembler`] owns the bytes gathered so far in the current burst.
//! Each well-formed report appends its data fragment; the report whose
//! continuation flag is zero hands the gathered bytes out and leaves the
//! reassembler empty for the next barcode. A rejected report changes
//! nothing, so a burst survives malformed reports in its midst.

use vstd::prelude::*;
use vstd::utf8::valid_utf8;
use crate::report::{
    continues, fragment, rejection, symbology_bytes, validate, well_formed, Rejection,
    CONTINUATION_OFFSET, DATA_OFFSET, MAX_DATA_LEN, REPORT_LEN, SCANNED_DATA_REPORT_ID,
    SYMBOLOGY_OFFSET,
};

verus! {

/// What processing one report gave.
#[derive(Debug, PartialEq, Eq)]
pub enum ReportOutcome {
    /// The report was accepted and more reports of the burst follow.
    Continuing,
    /// The report was accepted and ended the burst: the whole payload.
    Complete(Vec<u8>),
    /// The report was discarded for the given reason.
    Rejected(Rejection),
}

/// The mathematical value of a [`ReportOutcome`].
pub ghost enum Outcome {
    /// Accepted, and the burst goes on.
    Continuing,
    /// Accepted, and the burst ended with this payload.
    Complete(Seq<u8>),
    /// Discarded for this reason.
    Rejected(Rejection),
}

impl View for ReportOutcome {
    type V = Outcome;

    open spec fn view(&self) -> Outcome {
        match self {
            ReportOutcome::Continuing => Outcome::Continuing,
            ReportOutcome::Complete(payload) => Outcome::Complete(payload@),
            ReportOutcome::Rejected(reason) => Outcome::Rejected(*reason),
        }
    }
}

/// The two logical states of a reassembler.
#[derive(Clone, Copy, Debug, PartialEq, Eq, Structural)]
pub enum BurstState {
    /// Nothing gathered: waiting for the first fragment of a barcode.
    Idle,
    /// Bytes gathered: in the midst of a burst.
    Accumulating,
}

/// The state that goes with the gathered bytes `acc`.
pub open spec fn state_of(acc: Seq<u8>) -> BurstState {
    if acc.len() == 0 {
        BurstState::Idle
    } else {
        BurstState::Accumulating
    }
}

/// The outcome of processing `raw` with `acc` gathered so far.
pub open spec fn outcome_of(acc: Seq<u8>, raw: Seq<u8>) -> Outcome {
    match rejection(raw) {
        Some(reason) => Outcome::Rejected(reason),
        None => if continues(raw) {
            Outcome::Continuing
        } else {
            Outcome::Complete(acc + fragment(raw))
        },
    }
}

/// The bytes gathered after processing `raw` with `acc` gathered so far.
pub open spec fn gathered_after(acc: Seq<u8>, raw: Seq<u8>) -> Seq<u8> {
    match rejection(raw) {
        Some(_) => acc,
        None => if continues(raw) {
            acc + fragment(raw)
        } else {
            Seq::empty()
        },
    }
}

/// The bytes gathered after processing each of `reports` in turn, starting
/// with `acc`.
pub open spec fn gathered_after_all(acc: Seq<u8>, reports: Seq<Seq<u8>>) -> Seq<u8>
    decreases reports.len(),
{
    if reports.len() == 0 {
        acc
    } else {
        gathered_after(gathered_after_all(acc, reports.drop_last()), reports.last())
    }
}

/// The barcode data assembled so far across one burst of reports.
#[derive(Debug)]
pub struct Reassembler {
    accumulator: Vec<u8>,
}

impl View for Reassembler {
    type V = Seq<u8>;

    /// The bytes gathered so far, in the order in which they arrived.
    closed spec fn view(&self) -> Seq<u8> {
        self.accumulator@
    }
}

impl Default for Reassembler {
    /// A reassembler that has gathered nothing.
    fn default() -> (r: Reassembler)
        ensures
            r@ == Seq::<u8>::empty(),
    {
        Reassembler::new()
    }
}

impl Reassembler {
    /// A reassembler that has gathered nothing.
    pub fn new() -> (r: Reassembler)
        ensures
            r@ == Seq::<u8>::empty(),
    {
        Reassembler { accumulator: Vec::new() }
    }

    /// The bytes gathered so far in the current burst.
    pub fn pending(&self) -> (bytes: &[u8])
        ensures
            bytes@ == self@,
    {
        self.accumulator.as_slice()
    }

    /// Whether the reassembler is idle or in the midst of a burst.
    pub fn state(&self) -> (s: BurstState)
        ensures
            s == state_of(self@),
    {
        if self.accumulator.len() == 0 {
            BurstState::Idle
        } else {
            BurstState::Accumulating
        }
    }

    /// Processes one incoming report.
    ///
    /// A buffer that fails a framing check is rejected with the reason and
    /// leaves the gathered bytes as they were. A well-formed report appends
    /// its data fragment. If its continuation flag is nonzero the burst goes
    /// on; if it is zero the outcome carries everything gathered, this
    /// report's fragment included, and the reassembler is empty again.
    pub fn process_report(&mut self, raw: &[u8]) -> (outcome: ReportOutcome)
        ensures
            outcome@ == outcome_of(old(self)@, raw@),
            final(self)@ == gathered_after(old(self)@, raw@),
    {
        match validate(raw) {
            Err(reason) => ReportOutcome::Rejected(reason),
            Ok(n) => {
                self.accumulator.extend_from_slice(&raw[DATA_OFFSET..DATA_OFFSET + n]);
                assert(self.accumulator@ =~= old(self).accumulator@ + fragment(raw@));
                if raw[CONTINUATION_OFFSET] == 0 {
                    let mut payload: Vec<u8> = Vec::new();
                    std::mem::swap(&mut self.accumulator, &mut payload);
                    ReportOutcome::Complete(payload)
                } else {
                    ReportOutcome::Continuing
                }
            },
        }
    }
}

/// A buffer whose length is not 64 is rejected for its length, whatever it
/// holds, and nothing is gathered from it.
pub proof fn lemma_wrong_length_is_rejected(acc: Seq<u8>, raw: Seq<u8>)
    requires
        raw.len() != REPORT_LEN,
    ensures
        outcome_of(acc, raw) == Outcome::Rejected(Rejection::BadLength),
        gathered_after(acc, raw) == acc,
{
}

/// A buffer of 64 bytes whose first byte is not the scanned-data report id
/// is rejected with that byte, and nothing is gathered from it.
pub proof fn lemma_foreign_report_id_is_rejected(acc: Seq<u8>, raw: Seq<u8>)
    requires
        raw.len() == REPORT_LEN,
        raw[0] != SCANNED_DATA_REPORT_ID,
    ensures
        outcome_of(acc, raw) == Outcome::Rejected(Rejection::UnexpectedReportId(raw[0])),
        gathered_after(acc, raw) == acc,
{
}

/// A scanned-data report that declares more than 56 data bytes is rejected
/// with the declared length, and nothing is gathered from it.
pub proof fn lemma_data_length_overflow_is_rejected(acc: Seq<u8>, raw: Seq<u8>)
    requires
        raw.len() == REPORT_LEN,
        raw[0] == SCANNED_DATA_REPORT_ID,
        raw[1] > MAX_DATA_LEN,
    ensures
        outcome_of(acc, raw) == Outcome::Rejected(Rejection::DataLengthOverflow(raw[1])),
        gathered_after(acc, raw) == acc,
{
}

/// Feeding the same malformed report twice gives the same rejection twice
/// and gathers nothing either time.
pub proof fn lemma_rejection_is_idempotent(acc: Seq<u8>, raw: Seq<u8>)
    requires
        !well_formed(raw),
    ensures
        outcome_of(acc, raw) == Outcome::Rejected(rejection(raw).unwrap()),
        outcome_of(gathered_after(acc, raw), raw) == outcome_of(acc, raw),
        gathered_after(acc, raw) == acc,
        gathered_after(gathered_after(acc, raw), raw) == acc,
{
}

/// A malformed report between two fragments of a burst contributes nothing:
/// the burst completes with what was gathered before, then the data of the
/// report before it, then the data of the report after it.
pub proof fn lemma_malformed_report_is_skipped(
    acc: Seq<u8>,
    before: Seq<u8>,
    malformed: Seq<u8>,
    after: Seq<u8>,
)
    requires
        well_formed(before),
        continues(before),
        !well_formed(malformed),
        well_formed(after),
        !continues(after),
    ensures
        outcome_of(acc, before) == Outcome::Continuing,
        outcome_of(gathered_after(acc, before), malformed) is Rejected,
        outcome_of(gathered_after(gathered_after(acc, before), malformed), after)
            == Outcome::Complete(acc + fragment(before) + fragment(after)),
        gathered_after(gathered_after(gathered_after(acc, before), malformed), after)
            == Seq::<u8>::empty(),
{
}

/// Symbology bytes that are not text do not stand in the way: a report
/// that passes the framing checks is accepted and its fragment gathered.
pub proof fn lemma_undecodable_symbology_is_accepted(acc: Seq<u8>, raw: Seq<u8>)
    requires
        well_formed(raw),
        !valid_utf8(symbology_bytes(raw)),
    ensures
        outcome_of(acc, raw) == if continues(raw) {
            Outcome::Continuing
        } else {
            Outcome::Complete(acc + fragment(raw))
        },
        gathered_after(acc, raw) == if continues(raw) {
            acc + fragment(raw)
        } else {
            Seq::<u8>::empty()
        },
{
}

/// The symbology bytes are diagnostic, not structural: two buffers that
/// differ in those three bytes only are processed alike.
pub proof fn lemma_symbology_is_not_structural(acc: Seq<u8>, raw: Seq<u8>, other: Seq<u8>)
    requires
        raw.len() == other.len(),
        forall|i: int|
            0 <= i < raw.len() && !(SYMBOLOGY_OFFSET <= i < DATA_OFFSET) ==> raw[i] == other[i],
    ensures
        outcome_of(acc, raw) == outcome_of(acc, other),
        gathered_after(acc, raw) == gathered_after(acc, other),
{
    if raw.len() == REPORT_LEN {
        assert(raw[0] == other[0]);
        assert(raw[1] == other[1]);
        assert(raw[63] == other[63]);
        if well_formed(raw) {
            assert(fragment(raw) =~= fragment(other));
        }
    }
}

/// The transitions between the two states. A rejected report keeps the
/// state. A report that ends the burst leads to `Idle`. A report that
/// continues it leads to `Accumulating` as soon as a single data byte has
/// been gathered; a continuing report without data changes nothing.
pub proof fn lemma_state_transitions(acc: Seq<u8>, raw: Seq<u8>)
    ensures
        state_of(gathered_after(acc, raw)) == if !well_formed(raw) {
            state_of(acc)
        } else if !continues(raw) {
            BurstState::Idle
        } else if fragment(raw).len() > 0 {
            BurstState::Accumulating
        } else {
            state_of(acc)
        },
{
    if well_formed(raw) && continues(raw) && fragment(raw).len() == 0 {
        assert(acc + fragment(raw) =~= acc);
    }
}

/// One report adds at most 56 bytes to what is gathered.
pub proof fn lemma_one_report_adds_at_most_a_window(acc: Seq<u8>, raw: Seq<u8>)
    ensures
        gathered_after(acc, raw).len() <= acc.len() + MAX_DATA_LEN,
        outcome_of(acc, raw) matches Outcome::Complete(payload) ==> payload.len() <= acc.len()
            + MAX_DATA_LEN,
{
}

/// Starting from nothing, what is gathered after a run of reports is no
/// longer than 56 bytes for each report of the run.
pub proof fn lemma_gathered_length_is_bounded(reports: Seq<Seq<u8>>)
    ensures
        gathered_after_all(Seq::empty(), reports).len() <= MAX_DATA_LEN * reports.len(),
    decreases reports.len(),
{
    if reports.len() > 0 {
        lemma_gathered_length_is_bounded(reports.drop_last());
        lemma_one_report_adds_at_most_a_window(
            gathered_after_all(Seq::empty(), reports.drop_last()),
            reports.last(),
        );
        assert(MAX_DATA_LEN * reports.len() == MAX_DATA_LEN * reports.drop_last().len()
            + MAX_DATA_LEN) by (nonlinear_arith)
            requires
                reports.drop_last().len() + 1 == reports.len(),
        ;
    }
}

/// A payload that completes after a run of reports, the run having started
/// from nothing, is no longer than 56 bytes for each report of the run and
/// for the report that completes it.
pub proof fn lemma_payload_length_is_bounded(reports: Seq<Seq<u8>>, last: Seq<u8>)
    ensures
        outcome_of(gathered_after_all(Seq::empty(), reports), last) matches Outcome::Complete(
            payload,
        ) ==> payload.len() <= MAX_DATA_LEN * (reports.len() + 1),
{
    lemma_gathered_length_is_bounded(reports);
    lemma_one_report_adds_at_most_a_window(gathered_after_all(Seq::empty(), reports), last);
    assert(MAX_DATA_LEN * (reports.len() + 1) == MAX_DATA_LEN * reports.len() + MAX_DATA_LEN)
        by (nonlinear_arith);
}

} // verus!
