use sign_pallet::worker::{
    evaluate_accounts, report_outcome, sign_request, Level, LogEntry, SignedMessage, TickStep,
};

fn one_tick(accounts: &Vec<Vec<u8>>, capable: bool, signs: bool) -> Vec<LogEntry> {
    // The host's shape of a tick: evaluate the enumerated identities, and
    // only on a one-identity decision consult the key store further.
    let mut logs = Vec::new();
    match evaluate_accounts(accounts) {
        TickStep::Report(entry) => logs.push(entry),
        TickStep::Sign { public } => {
            if let Some(req) = sign_request(capable, public) {
                let outcome = if signs {
                    Some(SignedMessage { account: req.public.clone(), signature: vec![0xde, 0xad] })
                } else {
                    None
                };
                logs.push(report_outcome(outcome));
            }
        }
    }
    logs
}

#[test]
fn zero_identities_logs_one_error() {
    let accounts: Vec<Vec<u8>> = Vec::new();
    let logs = one_tick(&accounts, true, true);
    assert_eq!(logs, vec![LogEntry::NoAccount]);
    assert_eq!(logs[0].level(), Level::Error);
}

#[test]
fn two_identities_logs_one_distinct_error() {
    let accounts = vec![vec![1u8], vec![2u8]];
    let logs = one_tick(&accounts, true, true);
    assert_eq!(logs, vec![LogEntry::MultipleAccounts]);
    assert_eq!(logs[0].level(), Level::Error);
    assert_ne!(logs[0], LogEntry::NoAccount);
}

#[test]
fn one_identity_signing_logs_hex_of_identity_and_signature() {
    let accounts = vec![vec![0x01u8, 0x02, 0xab]];
    let logs = one_tick(&accounts, true, true);
    assert_eq!(logs.len(), 1);
    assert_eq!(logs[0].level(), Level::Info);
    match &logs[0] {
        LogEntry::Signed { account_hex, signature_hex } => {
            assert_eq!(account_hex, "0102ab");
            assert_eq!(signature_hex, "dead");
        }
        other => panic!("expected a signed entry, got {:?}", other),
    }
}

#[test]
fn one_identity_declined_logs_could_not_sign() {
    let accounts = vec![vec![0x01u8]];
    let logs = one_tick(&accounts, true, false);
    assert_eq!(logs, vec![LogEntry::CouldNotSign]);
    assert_eq!(logs[0].level(), Level::Error);
    assert_ne!(logs[0], LogEntry::NoAccount);
    assert_ne!(logs[0], LogEntry::MultipleAccounts);
}

#[test]
fn incapable_identity_is_skipped_silently() {
    let accounts = vec![vec![0x01u8]];
    let logs = one_tick(&accounts, false, true);
    assert!(logs.is_empty());
}

#[test]
fn membership_change_between_ticks_changes_the_outcome() {
    let first = vec![vec![1u8], vec![2u8]];
    let second = vec![vec![1u8]];
    assert_eq!(one_tick(&first, true, true), vec![LogEntry::MultipleAccounts]);
    let logs = one_tick(&second, true, true);
    assert_eq!(logs.len(), 1);
    assert_eq!(logs[0].level(), Level::Info);
}

#[test]
fn evaluate_keeps_the_single_public_key() {
    let accounts = vec![vec![9u8, 8, 7]];
    match evaluate_accounts(&accounts) {
        TickStep::Sign { public } => assert_eq!(public, vec![9u8, 8, 7]),
        other => panic!("expected a signing step, got a report: {:?}", matches!(other, TickStep::Report(_))),
    }
}

#[test]
fn sign_request_carries_the_fixed_message() {
    let req = sign_request(true, vec![5u8]).expect("capable set must yield a request");
    assert_eq!(req.public, vec![5u8]);
    assert_eq!(req.message, b"some_message".to_vec());
    assert!(sign_request(false, vec![5u8]).is_none());
}

#[test]
fn hex_rendering_is_not_the_identity() {
    // Would fail if the hex rendering handed its input back unchanged.
    let outcome = Some(SignedMessage { account: vec![0x00u8], signature: vec![0xffu8] });
    match report_outcome(outcome) {
        LogEntry::Signed { account_hex, signature_hex } => {
            assert_eq!(account_hex, "00");
            assert_eq!(signature_hex, "ff");
        }
        other => panic!("expected a signed entry, got {:?}", other),
    }
}

#[test]
fn empty_bytes_render_to_empty_hex() {
    let outcome = Some(SignedMessage { account: Vec::new(), signature: Vec::new() });
    match report_outcome(outcome) {
        LogEntry::Signed { account_hex, signature_hex } => {
            assert_eq!(account_hex, "");
            assert_eq!(signature_hex, "");
        }
        other => panic!("expected a signed entry, got {:?}", other),
    }
}
