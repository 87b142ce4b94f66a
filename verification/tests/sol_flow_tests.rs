use solana_sdk::signature::Signer;
use solana_sdk::signer::keypair::Keypair;
use solcli::flow::{Event, FlowError, Step};
use solcli::sol::{balance_line, Balance, BalanceFlow, Command};

const URL: &str = "http://localhost:8899";
const KEY_PATH: &str = "/tmp/id.json";

fn config_event() -> Event {
    Event::Config {
        json_rpc_url: URL.to_string(),
        keypair_path: KEY_PATH.to_string(),
    }
}

#[test]
fn balance_line_renders_amount() {
    assert_eq!(balance_line(5), "Balance: ◎0.000000005 SOL");
    assert_eq!(balance_line(1_500_000_000), "Balance: ◎1.500000000 SOL");
}

#[test]
fn command_opens_the_balance_flow() {
    let (flow, step) = Command::Balance(Balance {}).run();
    assert!(matches!(flow, BalanceFlow::AwaitConfig));
    assert!(matches!(step, Step::LoadConfig));
}

#[test]
fn balance_flow_reads_own_account() {
    let (flow, step) = Balance {}.run();
    assert!(matches!(step, Step::LoadConfig));

    let event = config_event();
    assert!(flow.can_take(&event));
    let (flow, step) = flow.step(event);
    match &step {
        Step::ReadKeypair { path } => assert_eq!(path, KEY_PATH),
        _ => panic!("expected the key file read"),
    }

    let keypair = Keypair::new();
    let own = keypair.pubkey();
    let (flow, step) = flow.step(Event::Keypair { keypair });
    match &step {
        Step::FetchBalance { url, address, .. } => {
            assert_eq!(url, URL);
            assert_eq!(*address, own);
        }
        _ => panic!("expected a balance query"),
    }

    let (flow, step) = flow.step(Event::Balance {
        lamports: 2_000_000_001,
    });
    assert!(matches!(flow, BalanceFlow::Finished));
    match step {
        Step::Report { line } => assert_eq!(line, "Balance: ◎2.000000001 SOL"),
        _ => panic!("expected the report"),
    }
}

#[test]
fn own_balance_flow_fails_without_config_path() {
    let (flow, _) = Balance {}.run();
    let (flow, step) = flow.step(Event::NoConfigPath);
    assert!(matches!(flow, BalanceFlow::Finished));
    assert!(matches!(
        step,
        Step::Fail {
            error: FlowError::MissingConfigPath
        }
    ));
}

#[test]
fn own_balance_flow_fails_on_unreadable_keypair() {
    let (flow, _) = Balance {}.run();
    let (flow, _) = flow.step(config_event());
    let (flow, step) = flow.step(Event::KeypairUnreadable);
    assert!(matches!(flow, BalanceFlow::Finished));
    assert!(matches!(
        step,
        Step::Fail {
            error: FlowError::UnreadableKeypair
        }
    ));
}

#[test]
fn own_balance_flow_refuses_mismatched_events() {
    let (flow, _) = Balance {}.run();
    assert!(!flow.can_take(&Event::Balance { lamports: 1 }));
    assert!(!flow.can_take(&Event::Submitted {
        signature_text: "s".to_string()
    }));
}
