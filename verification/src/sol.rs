//! The plain balance tool: one flow that reads the key file's own account
//! and reports its balance.

use vstd::prelude::*;
use vstd::string::StringExecFns;

use crate::describe::AddressOrigin;
use crate::flow::Event;
use crate::flow::FlowError;
use crate::flow::Step;
use crate::lamports::format_sol;
use crate::lamports::sol_text;
use crate::sdk;

verus! {

/// The text printed for a balance of `lamports`.
pub open spec fn balance_line_text(lamports: u64) -> Seq<char> {
    "Balance: "@ + sol_text(lamports) + " SOL"@
}

/// Builds the balance report line.
pub fn balance_line(lamports: u64) -> (r: String)
    ensures
        r@ == balance_line_text(lamports),
{
    let mut r = String::from_str("Balance: ");
    let amount = format_sol(lamports);
    r.append(amount.as_str());
    r.append(" SOL");
    proof {
        assert(r@ =~= balance_line_text(lamports));
    }
    r
}

/// The arguments of the balance query: it always reads the key file's own
/// account.
pub struct Balance {}

/// The balance flow: configuration, the key file, one balance query, then
/// the report.
pub enum BalanceFlow {
    /// Awaiting the configuration.
    AwaitConfig,
    /// Awaiting the key material.
    AwaitKeypair { url: String },
    /// Awaiting the balance.
    AwaitBalance,
    /// The flow is over.
    Finished,
}

impl BalanceFlow {
    /// The events the flow can take next.
    pub open spec fn expects(&self, event: &Event) -> bool {
        match (self, event) {
            (BalanceFlow::AwaitConfig, Event::Config { .. }) => true,
            (BalanceFlow::AwaitConfig, Event::NoConfigPath) => true,
            (BalanceFlow::AwaitKeypair { .. }, Event::Keypair { .. }) => true,
            (BalanceFlow::AwaitKeypair { .. }, Event::KeypairUnreadable) => true,
            (BalanceFlow::AwaitBalance, Event::Balance { .. }) => true,
            _ => false,
        }
    }

    /// Whether the flow can take `event` next.
    pub fn can_take(&self, event: &Event) -> (b: bool)
        ensures
            b == self.expects(event),
    {
        match (self, event) {
            (BalanceFlow::AwaitConfig, Event::Config { .. }) => true,
            (BalanceFlow::AwaitConfig, Event::NoConfigPath) => true,
            (BalanceFlow::AwaitKeypair { .. }, Event::Keypair { .. }) => true,
            (BalanceFlow::AwaitKeypair { .. }, Event::KeypairUnreadable) => true,
            (BalanceFlow::AwaitBalance, Event::Balance { .. }) => true,
            _ => false,
        }
    }

    /// One decision of the balance flow.
    ///
    /// The configuration leads to the key file; an unreadable key file fails
    /// the flow; the key's own account is queried, and the balance, once
    /// fetched, is reported as the formatted line.
    pub fn step(self, event: Event) -> (r: (BalanceFlow, Step))
        requires
            self.expects(&event),
        ensures
            match (self, event) {
                (BalanceFlow::AwaitConfig, Event::Config { json_rpc_url, keypair_path }) => r.0
                    == (BalanceFlow::AwaitKeypair { url: json_rpc_url }) && r.1 == (
                Step::ReadKeypair { path: keypair_path }),
                (BalanceFlow::AwaitConfig, Event::NoConfigPath) => r.0 == BalanceFlow::Finished
                    && r.1 == (Step::Fail { error: FlowError::MissingConfigPath }),
                (BalanceFlow::AwaitKeypair { url }, Event::Keypair { .. }) => {
                    &&& r.0 == BalanceFlow::AwaitBalance
                    &&& r.1 matches (Step::FetchBalance { url: u, address: _, origin }) && u == url
                        && origin@ == AddressOrigin::KeyMaterial
                },
                (BalanceFlow::AwaitKeypair { .. }, Event::KeypairUnreadable) => r.0
                    == BalanceFlow::Finished && r.1 == (Step::Fail {
                    error: FlowError::UnreadableKeypair,
                }),
                (BalanceFlow::AwaitBalance, Event::Balance { lamports }) => {
                    &&& r.0 == BalanceFlow::Finished
                    &&& r.1 matches (Step::Report { line }) && line@ == balance_line_text(lamports)
                },
                _ => false,
            },
    {
        match (self, event) {
            (BalanceFlow::AwaitConfig, Event::Config { json_rpc_url, keypair_path }) => (
                BalanceFlow::AwaitKeypair { url: json_rpc_url },
                Step::ReadKeypair { path: keypair_path },
            ),
            (BalanceFlow::AwaitConfig, Event::NoConfigPath) => (
                BalanceFlow::Finished,
                Step::Fail { error: FlowError::MissingConfigPath },
            ),
            (BalanceFlow::AwaitKeypair { url }, Event::Keypair { keypair }) => {
                let address = sdk::keypair_pubkey(&keypair);
                (
                    BalanceFlow::AwaitBalance,
                    Step::FetchBalance { url, address, origin: Ghost(AddressOrigin::KeyMaterial) },
                )
            },
            (BalanceFlow::AwaitKeypair { .. }, Event::KeypairUnreadable) => (
                BalanceFlow::Finished,
                Step::Fail { error: FlowError::UnreadableKeypair },
            ),
            (BalanceFlow::AwaitBalance, Event::Balance { lamports }) => {
                let line = balance_line(lamports);
                (BalanceFlow::Finished, Step::Report { line })
            },
            _ => vstd::pervasive::unreached(),
        }
    }
}

impl Balance {
    /// Opens the balance flow; its first step loads the configuration.
    pub fn run(&self) -> (r: (BalanceFlow, Step))
        ensures
            r.0 == BalanceFlow::AwaitConfig,
            r.1 == Step::LoadConfig,
    {
        (BalanceFlow::AwaitConfig, Step::LoadConfig)
    }
}

/// The tool's command line: only the balance query.
pub enum Command {
    /// Query the key file's own balance.
    Balance(Balance),
}

impl Command {
    /// Opens the flow of the selected command.
    pub fn run(&self) -> (r: (BalanceFlow, Step))
        ensures
            r.0 == BalanceFlow::AwaitConfig,
            r.1 == Step::LoadConfig,
    {
        match self {
            Command::Balance(balance) => balance.run(),
        }
    }
}

} // verus!
