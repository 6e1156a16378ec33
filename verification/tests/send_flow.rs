use solana_sdk::signature::Signature;
use std::time::Duration;
use swqos_rpc::diagnostics::{LogLevel, LogLine};
use swqos_rpc::kinds::TradeType;
use swqos_rpc::send::{after_poll, after_submission, PollOutcome, SendStep};
use swqos_rpc::transaction::{CompiledInstruction, MessageVersion, TransactionSummary};

fn sample_signature() -> [u8; 64] {
    let mut signature = [0u8; 64];
    for (i, byte) in signature.iter_mut().enumerate() {
        *byte = (i * 3 + 1) as u8;
    }
    signature
}

fn one_instruction_summary(version: MessageVersion) -> TransactionSummary {
    TransactionSummary {
        version,
        account_keys: vec![[0u8; 32]],
        instructions: vec![CompiledInstruction {
            program_id_index: 0,
            accounts: vec![4, 5],
            data: vec![200],
        }],
    }
}

fn texts(lines: &[LogLine]) -> Vec<String> {
    lines.iter().map(|line| line.text.clone()).collect()
}

#[test]
fn failed_submission_returns_its_error_without_polling() {
    for wait in [false, true] {
        let step = after_submission::<String>(wait, Err("node rejected".to_string()));
        match step {
            SendStep::Finish { result } => assert_eq!(result, Err("node rejected".to_string())),
            SendStep::Poll { .. } => panic!("a failed submission must not be polled"),
        }
    }
}

#[test]
fn successful_submission_without_waiting_returns_at_once() {
    let step = after_submission::<String>(false, Ok(sample_signature()));
    match step {
        SendStep::Finish { result } => assert_eq!(result, Ok(())),
        SendStep::Poll { .. } => panic!("nothing is polled when the caller does not wait"),
    }
}

#[test]
fn successful_submission_with_waiting_polls_the_same_signature() {
    let step = after_submission::<String>(true, Ok(sample_signature()));
    match step {
        SendStep::Poll { signature } => assert_eq!(signature, sample_signature()),
        SendStep::Finish { .. } => panic!("the caller waits, so the signature is polled"),
    }
}

#[test]
fn confirmation_logs_one_info_line_with_signature_and_elapsed_time() {
    let signature = sample_signature();
    let report = after_poll::<String>(
        TradeType::Buy,
        &signature,
        &one_instruction_summary(MessageVersion::V0),
        PollOutcome::Confirmed,
        1_500_000_000,
    );
    assert_eq!(report.result, Ok(()));
    assert_eq!(report.log.len(), 1);
    assert_eq!(report.log[0].level, LogLevel::Info);
    assert_eq!(
        report.log[0].text,
        format!(" signature: {} [rpc] Buy confirmed: 1.5s", Signature::from(signature))
    );
}

#[test]
fn confirmation_line_of_a_zero_signature() {
    let report = after_poll::<String>(
        TradeType::Sell,
        &[0u8; 64],
        &one_instruction_summary(MessageVersion::Legacy),
        PollOutcome::Confirmed,
        250_000_000,
    );
    let ones = "1".repeat(64);
    assert_eq!(texts(&report.log), vec![format!(" signature: {} [rpc] Sell confirmed: 250ms", ones)]);
}

#[test]
fn confirmation_does_not_read_the_transaction() {
    let broken = TransactionSummary {
        version: MessageVersion::V0,
        account_keys: vec![],
        instructions: vec![CompiledInstruction {
            program_id_index: 9,
            accounts: vec![],
            data: vec![],
        }],
    };
    assert!(!broken.is_well_formed());
    let report =
        after_poll::<String>(TradeType::Create, &[0u8; 64], &broken, PollOutcome::Confirmed, 0);
    assert_eq!(report.result, Ok(()));
    assert_eq!(report.log.len(), 1);
}

#[test]
fn failed_poll_returns_its_error_and_logs_the_dump_of_a_legacy_message() {
    let signature = sample_signature();
    let report = after_poll(
        TradeType::CreateAndBuy,
        &signature,
        &one_instruction_summary(MessageVersion::Legacy),
        PollOutcome::Failed { error: 17u32, description: "timed out".to_string() },
        2_000_000_000,
    );
    assert_eq!(report.result, Err(17u32));
    assert!(report.log.iter().all(|line| line.level == LogLevel::Error));
    assert_eq!(
        texts(&report.log),
        vec![
            format!(" signature: {:?}", Signature::from(signature)),
            " [rpc] Create and Buy confirmation failed: 2s".to_string(),
            "Transaction Version: Legacy".to_string(),
            "Instruction 0:".to_string(),
            "  Program ID: 11111111111111111111111111111111".to_string(),
            "  Account Indices: [4, 5]".to_string(),
            "  Data (bytes): [200]".to_string(),
            "RPC transaction error: timed out".to_string(),
        ]
    );
}

#[test]
fn failed_poll_logs_the_dump_of_a_versioned_message() {
    let report = after_poll(
        TradeType::Sell,
        &sample_signature(),
        &one_instruction_summary(MessageVersion::V0),
        PollOutcome::Failed { error: (), description: "dropped".to_string() },
        1_000,
    );
    assert_eq!(report.result, Err(()));
    let texts = texts(&report.log);
    assert_eq!(texts.len(), 8);
    assert_eq!(texts[1], format!(" [rpc] Sell confirmation failed: {:?}", Duration::from_nanos(1_000)));
    assert_eq!(texts[2], "Transaction Version: V0");
    assert_eq!(texts[7], "RPC transaction error: dropped");
}

#[test]
fn failed_poll_of_a_transaction_without_instructions() {
    let empty = TransactionSummary {
        version: MessageVersion::V0,
        account_keys: vec![],
        instructions: vec![],
    };
    let report = after_poll(
        TradeType::Buy,
        &[0u8; 64],
        &empty,
        PollOutcome::Failed { error: "e", description: String::new() },
        0,
    );
    assert_eq!(report.result, Err("e"));
    assert_eq!(
        texts(&report.log),
        vec![
            format!(" signature: {}", "1".repeat(64)),
            " [rpc] Buy confirmation failed: 0ns".to_string(),
            "Transaction Version: V0".to_string(),
            "RPC transaction error: ".to_string(),
        ]
    );
}

#[test]
fn elapsed_time_is_written_as_std_writes_a_duration() {
    for nanos in [0u64, 1, 999, 1_000, 1_234_567, 999_999_999, 61_000_000_001, u64::MAX] {
        let report = after_poll::<String>(
            TradeType::Buy,
            &[0u8; 64],
            &one_instruction_summary(MessageVersion::V0),
            PollOutcome::Confirmed,
            nanos,
        );
        let expected = format!("confirmed: {:?}", Duration::from_nanos(nanos));
        assert!(report.log[0].text.ends_with(&expected));
    }
}

#[test]
fn trade_type_labels() {
    assert_eq!(TradeType::Create.label(), "Create");
    assert_eq!(TradeType::CreateAndBuy.label(), "Create and Buy");
    assert_eq!(TradeType::Buy.label(), "Buy");
    assert_eq!(TradeType::Sell.label(), "Sell");
}

#[test]
fn whole_call_without_waiting_never_reaches_the_poller() {
    let mut polls = 0;
    let result: Result<(), String> = match after_submission(false, Ok(sample_signature())) {
        SendStep::Finish { result } => result,
        SendStep::Poll { signature } => {
            polls += 1;
            after_poll(
                TradeType::Buy,
                &signature,
                &one_instruction_summary(MessageVersion::V0),
                PollOutcome::Failed { error: "late".to_string(), description: "late".to_string() },
                5,
            )
            .result
        }
    };
    assert_eq!(result, Ok(()));
    assert_eq!(polls, 0);
}
