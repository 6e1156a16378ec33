//! Sending one transaction: what to do once the submission has an outcome,
//! and what to report once the confirmation poll has one. The caller makes
//! the two network calls; these functions decide everything in between.

use crate::diagnostics::{
    entries, error_text, failed_text, failure_entries, instruction_entries, lemma_dump_shape,
    push_transaction_dump, signature_text, success_entries, transaction_dump, version_text,
    LogEntry, LogLevel, LogLine,
};
use crate::kinds::TradeType;
use crate::text::{signature_base58, signature_string, span_debug_text, span_string};
use crate::transaction::TransactionSummary;
use vstd::prelude::*;
use vstd::string::*;

verus! {

/// What follows a submission.
#[derive(Debug, PartialEq, Eq)]
pub enum SendStep<E> {
    /// Poll for the confirmation of this signature.
    Poll { signature: [u8; 64] },
    /// Return this result; nothing is polled and nothing is logged.
    Finish { result: Result<(), E> },
}

/// How the confirmation poll ended.
#[derive(Debug, PartialEq, Eq)]
pub enum PollOutcome<E> {
    /// The transaction was confirmed.
    Confirmed,
    /// The poll failed or timed out, with the error and its description.
    Failed { error: E, description: String },
}

/// What a finished call hands back: its result and the lines to log.
#[derive(Debug, PartialEq, Eq)]
pub struct Report<E> {
    pub result: Result<(), E>,
    pub log: Vec<LogLine>,
}

/// The step that follows a submission: its error is returned as it is; a
/// signature is polled when the caller waits for confirmation, and ends the
/// call with success when it does not.
pub open spec fn submission_step<E>(
    wait_confirmation: bool,
    outcome: Result<[u8; 64], E>,
) -> SendStep<E> {
    match outcome {
        Err(error) => SendStep::Finish { result: Err(error) },
        Ok(signature) => if wait_confirmation {
            SendStep::Poll { signature }
        } else {
            SendStep::Finish { result: Ok(()) }
        },
    }
}

/// The result of a call whose confirmation poll ended with `outcome`.
pub open spec fn poll_result<E>(outcome: PollOutcome<E>) -> Result<(), E> {
    match outcome {
        PollOutcome::Confirmed => Ok(()),
        PollOutcome::Failed { error, description } => Err(error),
    }
}

/// The lines logged by a call whose confirmation poll ended with `outcome`.
pub open spec fn poll_entries<E>(
    trade_type: TradeType,
    signature: Seq<u8>,
    tx: &TransactionSummary,
    outcome: PollOutcome<E>,
    elapsed_nanos: u64,
) -> Seq<LogEntry> {
    match outcome {
        PollOutcome::Confirmed => success_entries(trade_type, signature, elapsed_nanos),
        PollOutcome::Failed { error, description } => failure_entries(
            trade_type,
            signature,
            elapsed_nanos,
            tx,
            description@,
        ),
    }
}

/// Decides what follows a submission that ended with `outcome`.
pub fn after_submission<E>(wait_confirmation: bool, outcome: Result<[u8; 64], E>) -> (step:
    SendStep<E>)
    ensures
        step == submission_step(wait_confirmation, outcome),
{
    match outcome {
        Err(error) => SendStep::Finish { result: Err(error) },
        Ok(signature) => {
            if wait_confirmation {
                SendStep::Poll { signature }
            } else {
                SendStep::Finish { result: Ok(()) }
            }
        },
    }
}

/// Ends a call whose confirmation poll for `signature` took `elapsed_nanos`
/// nanoseconds and ended with `outcome`. `tx` is the transaction that was
/// submitted; it is read only when the poll failed.
pub fn after_poll<E>(
    trade_type: TradeType,
    signature: &[u8; 64],
    tx: &TransactionSummary,
    outcome: PollOutcome<E>,
    elapsed_nanos: u64,
) -> (report: Report<E>)
    requires
        outcome is Failed ==> tx.well_formed(),
    ensures
        report.result == poll_result(outcome),
        entries(report.log@) == poll_entries(trade_type, signature@, tx, outcome, elapsed_nanos),
{
    let mut log: Vec<LogLine> = Vec::new();
    let signature_line = String::from_str(" signature: ").concat(
        signature_string(signature).as_str(),
    );
    match outcome {
        PollOutcome::Confirmed => {
            let mut text = signature_line;
            text.append(" [rpc] ");
            text.append(trade_type.label());
            text.append(" confirmed: ");
            text.append(span_string(elapsed_nanos).as_str());
            log.push(LogLine { level: LogLevel::Info, text });
            assert(entries(log@) =~= success_entries(trade_type, signature@, elapsed_nanos));
            Report { result: Ok(()), log }
        },
        PollOutcome::Failed { error, description } => {
            log.push(LogLine { level: LogLevel::Error, text: signature_line });
            let mut failed = String::from_str(" [rpc] ");
            failed.append(trade_type.label());
            failed.append(" confirmation failed: ");
            failed.append(span_string(elapsed_nanos).as_str());
            log.push(LogLine { level: LogLevel::Error, text: failed });
            push_transaction_dump(&mut log, tx);
            let ghost body = entries(log@);
            let last = String::from_str("RPC transaction error: ").concat(description.as_str());
            log.push(LogLine { level: LogLevel::Error, text: last });
            assert(entries(log@) =~= body.push(log@.last()@));
            assert(entries(log@) =~= failure_entries(
                trade_type,
                signature@,
                elapsed_nanos,
                tx,
                description@,
            ));
            Report { result: Err(error), log }
        },
    }
}

/// The result of a whole call, from the outcomes of its two network calls.
/// The poll's outcome counts only where the submission is followed by a poll.
pub open spec fn call_result<E>(
    wait_confirmation: bool,
    submission: Result<[u8; 64], E>,
    poll: PollOutcome<E>,
) -> Result<(), E> {
    match submission_step(wait_confirmation, submission) {
        SendStep::Finish { result } => result,
        SendStep::Poll { signature } => poll_result(poll),
    }
}

/// The lines that a whole call logs, from the outcomes of its two network
/// calls.
pub open spec fn call_entries<E>(
    trade_type: TradeType,
    wait_confirmation: bool,
    tx: &TransactionSummary,
    submission: Result<[u8; 64], E>,
    poll: PollOutcome<E>,
    elapsed_nanos: u64,
) -> Seq<LogEntry> {
    match submission_step(wait_confirmation, submission) {
        SendStep::Finish { result } => Seq::empty(),
        SendStep::Poll { signature } => poll_entries(
            trade_type,
            signature@,
            tx,
            poll,
            elapsed_nanos,
        ),
    }
}

/// A submission that fails ends the call with its own error: nothing is
/// polled and nothing is logged, whether or not the caller waits.
pub proof fn lemma_submission_error_is_returned<E>(
    trade_type: TradeType,
    wait_confirmation: bool,
    tx: &TransactionSummary,
    error: E,
    poll: PollOutcome<E>,
    elapsed_nanos: u64,
)
    ensures
        !(submission_step::<E>(wait_confirmation, Err(error)) is Poll),
        call_result(wait_confirmation, Err(error), poll) == Err::<(), E>(error),
        call_entries(trade_type, wait_confirmation, tx, Err(error), poll, elapsed_nanos).len()
            == 0,
{
}

/// A caller that does not wait gets success as soon as the submission has
/// succeeded: no poll follows, whatever a poll would have said, and nothing
/// is logged.
pub proof fn lemma_no_wait_succeeds_without_poll<E>(
    trade_type: TradeType,
    tx: &TransactionSummary,
    signature: [u8; 64],
    poll: PollOutcome<E>,
    elapsed_nanos: u64,
)
    ensures
        !(submission_step::<E>(false, Ok(signature)) is Poll),
        call_result(false, Ok(signature), poll) == Ok::<(), E>(()),
        call_entries(trade_type, false, tx, Ok(signature), poll, elapsed_nanos).len() == 0,
{
}

/// A caller that waits gets success exactly when the poll for the submitted
/// signature reports confirmation, and then exactly one line is logged: an
/// info line that holds the signature and the elapsed time.
pub proof fn lemma_wait_succeeds_on_confirmation<E>(
    trade_type: TradeType,
    tx: &TransactionSummary,
    signature: [u8; 64],
    poll: PollOutcome<E>,
    elapsed_nanos: u64,
)
    ensures
        submission_step::<E>(true, Ok(signature)) == (SendStep::<E>::Poll { signature }),
        call_result(true, Ok(signature), poll) is Ok <==> poll is Confirmed,
        poll is Confirmed ==> {
            let log = call_entries(trade_type, true, tx, Ok(signature), poll, elapsed_nanos);
            &&& log.len() == 1
            &&& log[0].level == LogLevel::Info
            &&& log[0].text == " signature: "@ + signature_base58(signature@) + " [rpc] "@
                + trade_type.label_text() + " confirmed: "@ + span_debug_text(elapsed_nanos)
        },
{
}

/// A caller that waits gets the poll's own error when the poll fails, and
/// the log then holds, in this order and all at error level: the signature,
/// the failure with the elapsed time, the dump of the transaction (the
/// encoding of its message, legacy or versioned, then four lines for each
/// instruction), and the description of the error.
pub proof fn lemma_wait_returns_poll_error<E>(
    trade_type: TradeType,
    tx: &TransactionSummary,
    signature: [u8; 64],
    error: E,
    description: String,
    elapsed_nanos: u64,
)
    ensures
        call_result(true, Ok(signature), PollOutcome::Failed { error, description }) == Err::<
            (),
            E,
        >(error),
        ({
            let log = call_entries(
                trade_type,
                true,
                tx,
                Ok(signature),
                PollOutcome::Failed { error, description },
                elapsed_nanos,
            );
            let n = tx.instructions@.len() as int;
            &&& log.len() == 4 + 4 * n
            &&& forall|i: int| 0 <= i < log.len() ==> (#[trigger] log[i]).level == LogLevel::Error
            &&& log[0].text == signature_text(signature@)
            &&& log[1].text == failed_text(trade_type, elapsed_nanos)
            &&& log[2].text == version_text(tx.version)
            &&& forall|k: int|
                0 <= k < n ==> #[trigger] log.subrange(3 + 4 * k, 7 + 4 * k) == instruction_entries(
                    tx,
                    k,
                )
            &&& log[3 + 4 * n].text == error_text(description@)
        }),
{
    lemma_dump_shape(tx, tx.instructions@.len());
    let dump = transaction_dump(tx);
    let log = call_entries(
        trade_type,
        true,
        tx,
        Ok(signature),
        PollOutcome::Failed { error, description },
        elapsed_nanos,
    );
    let n = tx.instructions@.len() as int;
    assert forall|k: int| 0 <= k < n implies #[trigger] log.subrange(3 + 4 * k, 7 + 4 * k)
        == instruction_entries(tx, k) by {
        assert(log.subrange(3 + 4 * k, 7 + 4 * k) =~= dump.subrange(1 + 4 * k, 5 + 4 * k));
    }
}

} // verus!
