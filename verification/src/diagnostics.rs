//! The log lines that a submission produces, as values: the caller hands
//! them to whatever logger it uses.

use crate::kinds::TradeType;
use crate::text::{
    address_base58, address_string, byte_list_text, decimal_text, push_byte_list, push_decimal,
    signature_base58, span_debug_text,
};
use crate::transaction::{MessageVersion, TransactionSummary};
use vstd::prelude::*;
use vstd::string::*;

verus! {

/// How serious a log line is.
#[derive(Clone, Copy, Debug, PartialEq, Eq, Structural)]
pub enum LogLevel {
    Info,
    Error,
}

/// One line for the log.
#[derive(Clone, Debug, PartialEq, Eq)]
pub struct LogLine {
    pub level: LogLevel,
    pub text: String,
}

/// A log line as a mathematical value.
pub struct LogEntry {
    pub level: LogLevel,
    pub text: Seq<char>,
}

impl View for LogLine {
    type V = LogEntry;

    open spec fn view(&self) -> LogEntry {
        LogEntry { level: self.level, text: self.text@ }
    }
}

/// The entries that a list of lines stands for.
pub open spec fn entries(lines: Seq<LogLine>) -> Seq<LogEntry> {
    lines.map_values(|line: LogLine| line@)
}

/// An error-level entry.
pub open spec fn error_entry(text: Seq<char>) -> LogEntry {
    LogEntry { level: LogLevel::Error, text }
}

/// An info-level entry.
pub open spec fn info_entry(text: Seq<char>) -> LogEntry {
    LogEntry { level: LogLevel::Info, text }
}

/// The line that names the message encoding.
pub open spec fn version_text(version: MessageVersion) -> Seq<char> {
    match version {
        MessageVersion::V0 => "Transaction Version: V0"@,
        MessageVersion::Legacy => "Transaction Version: Legacy"@,
    }
}

/// The four lines that describe instruction `i` of `tx`: its position, the
/// address of its program, its account indices and its data bytes.
pub open spec fn instruction_entries(tx: &TransactionSummary, i: int) -> Seq<LogEntry> {
    seq![
        error_entry("Instruction "@ + decimal_text(i as nat) + ":"@),
        error_entry("  Program ID: "@ + address_base58(tx.program_key(i))),
        error_entry("  Account Indices: "@ + byte_list_text(tx.instructions@[i].accounts@)),
        error_entry("  Data (bytes): "@ + byte_list_text(tx.instructions@[i].data@)),
    ]
}

/// The dump of the first `n` instructions of `tx`: the encoding line, then
/// the lines of each instruction in order.
pub open spec fn dump_entries(tx: &TransactionSummary, n: nat) -> Seq<LogEntry>
    decreases n,
{
    if n == 0 {
        seq![error_entry(version_text(tx.version))]
    } else {
        dump_entries(tx, (n - 1) as nat) + instruction_entries(tx, n - 1)
    }
}

/// The shape of a dump: one encoding line, then four lines for each
/// instruction, in the order of the instructions, all at error level.
pub proof fn lemma_dump_shape(tx: &TransactionSummary, n: nat)
    ensures
        dump_entries(tx, n).len() == 1 + 4 * n,
        dump_entries(tx, n)[0] == error_entry(version_text(tx.version)),
        forall|i: int|
            0 <= i < 1 + 4 * n ==> (#[trigger] dump_entries(tx, n)[i]).level == LogLevel::Error,
        forall|k: int|
            0 <= k < n ==> #[trigger] dump_entries(tx, n).subrange(1 + 4 * k, 5 + 4 * k)
                == instruction_entries(tx, k),
    decreases n,
{
    if n > 0 {
        let before = dump_entries(tx, (n - 1) as nat);
        let whole = dump_entries(tx, n);
        lemma_dump_shape(tx, (n - 1) as nat);
        assert forall|k: int| 0 <= k < n implies #[trigger] whole.subrange(1 + 4 * k, 5 + 4 * k)
            == instruction_entries(tx, k) by {
            if k < n - 1 {
                assert(whole.subrange(1 + 4 * k, 5 + 4 * k) =~= before.subrange(
                    1 + 4 * k,
                    5 + 4 * k,
                ));
            } else {
                assert(whole.subrange(1 + 4 * k, 5 + 4 * k) =~= instruction_entries(tx, k));
            }
        }
    }
}

/// The whole dump of `tx`.
pub open spec fn transaction_dump(tx: &TransactionSummary) -> Seq<LogEntry> {
    dump_entries(tx, tx.instructions@.len())
}

/// The text of the line that carries a signature.
pub open spec fn signature_text(signature: Seq<u8>) -> Seq<char> {
    " signature: "@ + signature_base58(signature)
}

/// The text of the line that reports a failed confirmation.
pub open spec fn failed_text(trade_type: TradeType, elapsed_nanos: u64) -> Seq<char> {
    " [rpc] "@ + trade_type.label_text() + " confirmation failed: "@ + span_debug_text(
        elapsed_nanos,
    )
}

/// The text of the line that carries the error's own description.
pub open spec fn error_text(description: Seq<char>) -> Seq<char> {
    "RPC transaction error: "@ + description
}

/// The text of the single line that reports a confirmed transaction: its
/// signature, then the trade type and the time the confirmation took.
pub open spec fn confirmed_text(
    trade_type: TradeType,
    signature: Seq<u8>,
    elapsed_nanos: u64,
) -> Seq<char> {
    signature_text(signature) + " [rpc] "@ + trade_type.label_text() + " confirmed: "@
        + span_debug_text(elapsed_nanos)
}

/// What is logged when confirmation fails: the signature, the failure with
/// the elapsed time, the dump of the transaction, and the error.
pub open spec fn failure_entries(
    trade_type: TradeType,
    signature: Seq<u8>,
    elapsed_nanos: u64,
    tx: &TransactionSummary,
    description: Seq<char>,
) -> Seq<LogEntry> {
    seq![
        error_entry(signature_text(signature)),
        error_entry(failed_text(trade_type, elapsed_nanos)),
    ] + transaction_dump(tx) + seq![error_entry(error_text(description))]
}

/// What is logged when confirmation succeeds: one info line.
pub open spec fn success_entries(
    trade_type: TradeType,
    signature: Seq<u8>,
    elapsed_nanos: u64,
) -> Seq<LogEntry> {
    seq![info_entry(confirmed_text(trade_type, signature, elapsed_nanos))]
}

fn error_line(text: String) -> (line: LogLine)
    ensures
        line@ == error_entry(text@),
{
    LogLine { level: LogLevel::Error, text }
}

/// Appends the dump of `tx` to `lines`.
pub fn push_transaction_dump(lines: &mut Vec<LogLine>, tx: &TransactionSummary)
    requires
        tx.well_formed(),
    ensures
        entries(final(lines)@) == entries(old(lines)@) + transaction_dump(tx),
{
    let version = match tx.version {
        MessageVersion::V0 => "Transaction Version: V0",
        MessageVersion::Legacy => "Transaction Version: Legacy",
    };
    lines.push(error_line(String::from_str(version)));
    assert(entries(lines@) =~= entries(old(lines)@) + dump_entries(tx, 0));
    let mut i: usize = 0;
    while i < tx.instructions.len()
        invariant
            tx.well_formed(),
            i <= tx.instructions@.len(),
            entries(lines@) == entries(old(lines)@) + dump_entries(tx, i as nat),
        decreases tx.instructions@.len() - i,
    {
        let ghost before = lines@;
        let instruction = &tx.instructions[i];
        let key = &tx.account_keys[instruction.program_id_index as usize];

        let mut head = String::from_str("Instruction ");
        push_decimal(&mut head, i as u64);
        head.append(":");
        lines.push(error_line(head));

        let program = String::from_str("  Program ID: ").concat(address_string(key).as_str());
        lines.push(error_line(program));

        let mut accounts = String::from_str("  Account Indices: ");
        push_byte_list(&mut accounts, &instruction.accounts);
        lines.push(error_line(accounts));

        let mut data = String::from_str("  Data (bytes): ");
        push_byte_list(&mut data, &instruction.data);
        lines.push(error_line(data));

        assert(entries(lines@) =~= entries(before) + instruction_entries(tx, i as int));
        i += 1;
    }
}

/// The dump of `tx`: the encoding of its message, then for each instruction
/// its position, the address of its program, its account indices and its
/// data bytes.
pub fn print_versioned_transaction_instructions(tx: &TransactionSummary) -> (lines: Vec<LogLine>)
    requires
        tx.well_formed(),
    ensures
        entries(lines@) == transaction_dump(tx),
{
    let mut lines: Vec<LogLine> = Vec::new();
    push_transaction_dump(&mut lines, tx);
    assert(entries(Seq::<LogLine>::empty()) =~= Seq::<LogEntry>::empty());
    lines
}

} // verus!
