use solana_sdk::compute_budget::ComputeBudgetInstruction;
use solana_sdk::pubkey::Pubkey;
use solana_sdk::signature::Signer;
use solana_sdk::signer::keypair::Keypair;
use solana_sdk::system_instruction;
use solana_sdk::transaction::Transaction;
use solcli::flow::{Event, FlowError, Step};
use solcli::sin::{
    balance_line, plan_transfer, tx_link_line, BalanceFlow, Command, Flow, SolNative,
    SolNativeBalance, SolNativeTransfer, TransferFlow,
};

const URL: &str = "http://localhost:8899";
const KEY_PATH: &str = "/tmp/id.json";

fn config_event() -> Event {
    Event::Config {
        json_rpc_url: URL.to_string(),
        keypair_path: KEY_PATH.to_string(),
    }
}

#[test]
fn balance_line_renders_address_and_amount() {
    assert_eq!(
        balance_line("abc", 2_000_000_001),
        "地址 abc 有 ◎2.000000001 SOL"
    );
}

#[test]
fn tx_link_line_renders_signature() {
    assert_eq!(tx_link_line("sig"), "https://solscan.io/tx/sig");
}

#[test]
fn plan_transfer_fixes_the_compute_budget() {
    let plan = plan_transfer(42);
    assert_eq!(plan.compute_unit_price, 100_000);
    assert_eq!(plan.compute_unit_limit, 500);
    assert_eq!(plan.lamports, 42);
}

#[test]
fn command_dispatches_balance() {
    let command = Command::SolNative(SolNative::SolNative(SolNativeBalance {
        address: Some("x".to_string()),
    }));
    let (flow, step) = command.run();
    assert!(matches!(step, Step::LoadConfig));
    match flow {
        Flow::Balance(BalanceFlow::AwaitConfig { address_arg }) => {
            assert_eq!(address_arg, Some("x".to_string()));
        }
        _ => panic!("wrong flow"),
    }
}

#[test]
fn command_dispatches_transfer() {
    let to = Pubkey::new_unique();
    let command = Command::SolNative(SolNative::SolNativeTransfer(SolNativeTransfer {
        to,
        lamports: 9,
    }));
    let (flow, step) = command.run();
    assert!(matches!(step, Step::LoadConfig));
    match flow {
        Flow::Transfer(TransferFlow::AwaitConfig { to: t, lamports }) => {
            assert_eq!(t, to);
            assert_eq!(lamports, 9);
        }
        _ => panic!("wrong flow"),
    }
}

#[test]
fn balance_flow_with_explicit_address() {
    let address = Pubkey::new_unique();
    let balance = SolNativeBalance {
        address: Some(address.to_string()),
    };
    let (flow, step) = balance.run();
    assert!(matches!(step, Step::LoadConfig));

    let event = config_event();
    assert!(flow.can_take(&event));
    let (flow, step) = flow.step(event);
    match &step {
        Step::FetchBalance { url, address: a, .. } => {
            assert_eq!(url, URL);
            assert_eq!(*a, address);
        }
        _ => panic!("expected a balance query"),
    }

    let event = Event::Balance {
        lamports: 1_500_000_000,
    };
    assert!(flow.can_take(&event));
    let (flow, step) = flow.step(event);
    assert!(matches!(flow, BalanceFlow::Finished));
    match step {
        Step::Report { line } => {
            assert_eq!(line, format!("地址 {} 有 ◎1.500000000 SOL", address));
        }
        _ => panic!("expected the report"),
    }
}

#[test]
fn balance_flow_rejects_malformed_address() {
    let balance = SolNativeBalance {
        address: Some("not-a-key!".to_string()),
    };
    let (flow, _) = balance.run();
    let (flow, step) = flow.step(config_event());
    assert!(matches!(flow, BalanceFlow::Finished));
    assert!(matches!(
        step,
        Step::Fail {
            error: FlowError::InvalidAddress { .. }
        }
    ));
}

#[test]
fn balance_flow_derives_address_from_keypair() {
    let balance = SolNativeBalance { address: None };
    let (flow, _) = balance.run();
    let (flow, step) = flow.step(config_event());
    match &step {
        Step::ReadKeypair { path } => assert_eq!(path, KEY_PATH),
        _ => panic!("expected the key file read"),
    }

    let keypair = Keypair::new();
    let own = keypair.pubkey();
    let event = Event::Keypair { keypair };
    assert!(flow.can_take(&event));
    let (flow, step) = flow.step(event);
    match &step {
        Step::FetchBalance { url, address, .. } => {
            assert_eq!(url, URL);
            assert_eq!(*address, own);
        }
        _ => panic!("expected a balance query"),
    }

    let (_, step) = flow.step(Event::Balance { lamports: 5 });
    match step {
        Step::Report { line } => {
            assert_eq!(line, format!("地址 {} 有 ◎0.000000005 SOL", own));
        }
        _ => panic!("expected the report"),
    }
}

#[test]
fn balance_flow_fails_without_config_path() {
    let balance = SolNativeBalance { address: None };
    let (flow, _) = balance.run();
    let (flow, step) = flow.step(Event::NoConfigPath);
    assert!(matches!(flow, BalanceFlow::Finished));
    assert!(matches!(
        step,
        Step::Fail {
            error: FlowError::MissingConfigPath
        }
    ));
}

#[test]
fn balance_flow_fails_on_unreadable_keypair() {
    let balance = SolNativeBalance { address: None };
    let (flow, _) = balance.run();
    let (flow, _) = flow.step(config_event());
    let (flow, step) = flow.step(Event::KeypairUnreadable);
    assert!(matches!(flow, BalanceFlow::Finished));
    assert!(matches!(
        step,
        Step::Fail {
            error: FlowError::UnreadableKeypair
        }
    ));
}

#[test]
fn balance_flow_refuses_mismatched_events() {
    let balance = SolNativeBalance { address: None };
    let (flow, _) = balance.run();
    assert!(!flow.can_take(&Event::Balance { lamports: 1 }));
    assert!(!flow.can_take(&Event::KeypairUnreadable));
    assert!(flow.can_take(&Event::NoConfigPath));
}

#[test]
fn transfer_flow_builds_the_expected_transaction() {
    let to = Pubkey::new_unique();
    let transfer = SolNativeTransfer { to, lamports: 42 };
    let (flow, step) = transfer.run();
    assert!(matches!(step, Step::LoadConfig));

    let (flow, step) = flow.step(config_event());
    match &step {
        Step::ReadKeypair { path } => assert_eq!(path, KEY_PATH),
        _ => panic!("expected the key file read"),
    }

    let keypair = Keypair::new();
    let payer = keypair.pubkey();
    let keypair_bytes = keypair.to_bytes();
    let (flow, step) = flow.step(Event::Keypair { keypair });
    match &step {
        Step::FetchBlockhash { url } => assert_eq!(url, URL),
        _ => panic!("expected the blockhash fetch"),
    }

    let hash = solana_sdk::hash::Hash::new_unique();
    let event = Event::Blockhash { hash };
    assert!(flow.can_take(&event));
    let (flow, step) = flow.step(event);
    assert!(matches!(flow, TransferFlow::AwaitConfirmation));
    let transaction = match step {
        Step::Submit { url, transaction } => {
            assert_eq!(url, URL);
            transaction.into_transaction()
        }
        _ => panic!("expected the submission"),
    };

    let same_keypair = Keypair::from_bytes(&keypair_bytes).unwrap();
    let mut expected = Transaction::new_with_payer(
        &[
            ComputeBudgetInstruction::set_compute_unit_price(100_000),
            ComputeBudgetInstruction::set_compute_unit_limit(500),
            system_instruction::transfer(&payer, &to, 42),
        ],
        Some(&payer),
    );
    expected
        .try_sign(&[&same_keypair], hash)
        .expect("signing the expected transaction");
    assert_eq!(transaction, expected);
    assert!(transaction.is_signed());

    let (flow, step) = flow.step(Event::Submitted {
        signature_text: transaction.signatures[0].to_string(),
    });
    assert!(matches!(flow, TransferFlow::Finished));
    match step {
        Step::Report { line } => {
            assert_eq!(
                line,
                format!("https://solscan.io/tx/{}", transaction.signatures[0])
            );
        }
        _ => panic!("expected the report"),
    }
}

#[test]
fn transfer_flow_fails_without_config_path() {
    let transfer = SolNativeTransfer {
        to: Pubkey::new_unique(),
        lamports: 1,
    };
    let (flow, _) = transfer.run();
    let (flow, step) = flow.step(Event::NoConfigPath);
    assert!(matches!(flow, TransferFlow::Finished));
    assert!(matches!(
        step,
        Step::Fail {
            error: FlowError::MissingConfigPath
        }
    ));
}

#[test]
fn transfer_flow_fails_on_unreadable_keypair() {
    let transfer = SolNativeTransfer {
        to: Pubkey::new_unique(),
        lamports: 1,
    };
    let (flow, _) = transfer.run();
    let (flow, _) = flow.step(config_event());
    let (flow, step) = flow.step(Event::KeypairUnreadable);
    assert!(matches!(flow, TransferFlow::Finished));
    assert!(matches!(
        step,
        Step::Fail {
            error: FlowError::UnreadableKeypair
        }
    ));
}
