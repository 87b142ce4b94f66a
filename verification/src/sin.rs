//! The subcommand tool: balance query and native-token transfer.
//!
//! `Command` mirrors the tool's command line; `run` opens the selected flow,
//! and each flow's `step` takes the decisions the tool makes between its
//! outside calls.

use vstd::prelude::*;
use vstd::string::StringExecFns;

use crate::describe;
use crate::describe::AddressOrigin;
use crate::describe::InstructionDesc;
use crate::describe::RenderedAddress;
use crate::describe::TransactionDesc;
use crate::flow::Event;
use crate::flow::FlowError;
use crate::flow::Step;
use crate::lamports::format_sol;
use crate::lamports::sol_text;
use crate::sdk;

verus! {

/// The text printed for a balance of `lamports` on the account whose address
/// reads `address`.
pub open spec fn balance_line_text(address: Seq<char>, lamports: u64) -> Seq<char> {
    "地址 "@ + address + " 有 "@ + sol_text(lamports) + " SOL"@
}

/// The link printed for a confirmed transaction whose signature reads
/// `signature`.
pub open spec fn tx_link_text(signature: Seq<char>) -> Seq<char> {
    "https://solscan.io/tx/"@ + signature
}

/// Builds the balance report line.
pub fn balance_line(address: &str, lamports: u64) -> (r: String)
    ensures
        r@ == balance_line_text(address@, lamports),
{
    let mut r = String::from_str("地址 ");
    r.append(address);
    r.append(" 有 ");
    let amount = format_sol(lamports);
    r.append(amount.as_str());
    r.append(" SOL");
    proof {
        assert(r@ =~= balance_line_text(address@, lamports));
    }
    r
}

/// Builds the transaction link line.
pub fn tx_link_line(signature: &str) -> (r: String)
    ensures
        r@ == tx_link_text(signature@),
{
    let mut r = String::from_str("https://solscan.io/tx/");
    r.append(signature);
    proof {
        assert(r@ =~= tx_link_text(signature@));
    }
    r
}

/// The arguments of the balance query.
pub struct SolNativeBalance {
    /// The account to read; the key file's own address when absent.
    pub address: Option<String>,
}

/// The arguments of the transfer.
pub struct SolNativeTransfer {
    /// The receiving account.
    pub to: solana_sdk::pubkey::Pubkey,
    /// The amount to move, in lamports.
    pub lamports: u64,
}

/// The balance flow: configuration, then the queried address (given, or
/// derived from the key file), then one balance query, then the report.
pub enum BalanceFlow {
    /// Awaiting the configuration.
    AwaitConfig { address_arg: Option<String> },
    /// Awaiting the key material, to derive the queried address.
    AwaitKeypair { url: String },
    /// Awaiting the balance; `address` renders the queried account.
    AwaitBalance { address: RenderedAddress },
    /// The flow is over.
    Finished,
}

impl BalanceFlow {
    /// The events the flow can take next.
    pub open spec fn expects(&self, event: &Event) -> bool {
        match (self, event) {
            (BalanceFlow::AwaitConfig { .. }, Event::Config { .. }) => true,
            (BalanceFlow::AwaitConfig { .. }, Event::NoConfigPath) => true,
            (BalanceFlow::AwaitKeypair { .. }, Event::Keypair { .. }) => true,
            (BalanceFlow::AwaitKeypair { .. }, Event::KeypairUnreadable) => true,
            (BalanceFlow::AwaitBalance { .. }, Event::Balance { .. }) => true,
            _ => false,
        }
    }

    /// Whether the flow can take `event` next.
    pub fn can_take(&self, event: &Event) -> (b: bool)
        ensures
            b == self.expects(event),
    {
        match (self, event) {
            (BalanceFlow::AwaitConfig { .. }, Event::Config { .. }) => true,
            (BalanceFlow::AwaitConfig { .. }, Event::NoConfigPath) => true,
            (BalanceFlow::AwaitKeypair { .. }, Event::Keypair { .. }) => true,
            (BalanceFlow::AwaitKeypair { .. }, Event::KeypairUnreadable) => true,
            (BalanceFlow::AwaitBalance { .. }, Event::Balance { .. }) => true,
            _ => false,
        }
    }

    /// One decision of the balance flow.
    ///
    /// On the configuration, an explicit address is parsed (a malformed one
    /// fails the flow) and an absent one is replaced by the key file's own;
    /// an unreadable key file fails the flow; the balance, once fetched, is
    /// reported as the formatted line.
    pub fn step(self, event: Event) -> (r: (BalanceFlow, Step))
        requires
            self.expects(&event),
        ensures
            match (self, event) {
                (
                    BalanceFlow::AwaitConfig { address_arg: None },
                    Event::Config { json_rpc_url, keypair_path },
                ) => r.0 == (BalanceFlow::AwaitKeypair { url: json_rpc_url }) && r.1 == (
                Step::ReadKeypair { path: keypair_path }),
                (
                    BalanceFlow::AwaitConfig { address_arg: Some(s) },
                    Event::Config { json_rpc_url, keypair_path },
                ) => {
                    if sdk::pubkey_str_valid(s@) {
                        r.0 matches (BalanceFlow::AwaitBalance { address: ra }) && (r.1 matches (
                        Step::FetchBalance { url, address, origin }) && url == json_rpc_url
                            && origin@ == (AddressOrigin::Text(s@)) && ra.of@ == address)
                    } else {
                        &&& r.0 == BalanceFlow::Finished
                        &&& r.1 matches (Step::Fail { error: FlowError::InvalidAddress { .. } })
                    }
                },
                (BalanceFlow::AwaitConfig { .. }, Event::NoConfigPath) => r.0
                    == BalanceFlow::Finished && r.1 == (Step::Fail {
                    error: FlowError::MissingConfigPath,
                }),
                (BalanceFlow::AwaitKeypair { url }, Event::Keypair { .. }) => {
                    r.0 matches (BalanceFlow::AwaitBalance { address: ra }) && (r.1 matches (
                    Step::FetchBalance { url: u, address, origin }) && u == url && origin@
                        == AddressOrigin::KeyMaterial && ra.of@ == address)
                },
                (BalanceFlow::AwaitKeypair { .. }, Event::KeypairUnreadable) => r.0
                    == BalanceFlow::Finished && r.1 == (Step::Fail {
                    error: FlowError::UnreadableKeypair,
                }),
                (BalanceFlow::AwaitBalance { address }, Event::Balance { lamports }) => {
                    &&& r.0 == BalanceFlow::Finished
                    &&& r.1 matches (Step::Report { line }) && line@ == balance_line_text(
                        address.text@,
                        lamports,
                    )
                },
                _ => false,
            },
    {
        match (self, event) {
            (
                BalanceFlow::AwaitConfig { address_arg },
                Event::Config { json_rpc_url, keypair_path },
            ) => {
                match address_arg {
                    Some(s) => {
                        match sdk::parse_pubkey(s.as_str()) {
                            Ok(address) => {
                                let rendered = describe::render_address(&address);
                                (
                                    BalanceFlow::AwaitBalance { address: rendered },
                                    Step::FetchBalance {
                                        url: json_rpc_url,
                                        address,
                                        origin: Ghost(AddressOrigin::Text(s@)),
                                    },
                                )
                            },
                            Err(message) => (
                                BalanceFlow::Finished,
                                Step::Fail { error: FlowError::InvalidAddress { message } },
                            ),
                        }
                    },
                    None => (
                        BalanceFlow::AwaitKeypair { url: json_rpc_url },
                        Step::ReadKeypair { path: keypair_path },
                    ),
                }
            },
            (BalanceFlow::AwaitConfig { .. }, Event::NoConfigPath) => (
                BalanceFlow::Finished,
                Step::Fail { error: FlowError::MissingConfigPath },
            ),
            (BalanceFlow::AwaitKeypair { url }, Event::Keypair { keypair }) => {
                let address = sdk::keypair_pubkey(&keypair);
                let rendered = describe::render_address(&address);
                (
                    BalanceFlow::AwaitBalance { address: rendered },
                    Step::FetchBalance {
                        url,
                        address,
                        origin: Ghost(AddressOrigin::KeyMaterial),
                    },
                )
            },
            (BalanceFlow::AwaitKeypair { .. }, Event::KeypairUnreadable) => (
                BalanceFlow::Finished,
                Step::Fail { error: FlowError::UnreadableKeypair },
            ),
            (BalanceFlow::AwaitBalance { address }, Event::Balance { lamports }) => {
                let line = balance_line(address.text.as_str(), lamports);
                (BalanceFlow::Finished, Step::Report { line })
            },
            _ => vstd::pervasive::unreached(),
        }
    }
}

/// The fixed compute-budget directives attached to a transfer, and the amount
/// moved.
#[derive(Clone, Copy)]
pub struct TransferPlan {
    /// Price per compute unit, in micro-lamports.
    pub compute_unit_price: u64,
    /// Cap on the compute units of the transaction.
    pub compute_unit_limit: u32,
    /// The amount moved, in lamports.
    pub lamports: u64,
}

/// The plan of a transfer of `lamports`: ahead of the transfer itself the
/// tool attaches a compute-unit price of 100000 micro-lamports and a
/// compute-unit cap of 500.
pub fn plan_transfer(lamports: u64) -> (p: TransferPlan)
    ensures
        p.compute_unit_price == 100000,
        p.compute_unit_limit == 500,
        p.lamports == lamports,
{
    TransferPlan { compute_unit_price: 100000, compute_unit_limit: 500, lamports }
}

/// The transfer flow: configuration, key material, a recent blockhash, then
/// the signed transaction is submitted and its link reported.
pub enum TransferFlow {
    /// Awaiting the configuration.
    AwaitConfig { to: solana_sdk::pubkey::Pubkey, lamports: u64 },
    /// Awaiting the key material.
    AwaitKeypair { to: solana_sdk::pubkey::Pubkey, lamports: u64, url: String },
    /// Awaiting a recent blockhash to sign over; `payer` is the key
    /// material's own address, which pays the fee and signs.
    AwaitBlockhash {
        to: solana_sdk::pubkey::Pubkey,
        lamports: u64,
        keypair: solana_sdk::signer::keypair::Keypair,
        payer: solana_sdk::pubkey::Pubkey,
        url: String,
    },
    /// Awaiting confirmation of the submitted transaction.
    AwaitConfirmation,
    /// The flow is over.
    Finished,
}

impl TransferFlow {
    /// The events the flow can take next.
    pub open spec fn expects(&self, event: &Event) -> bool {
        match (self, event) {
            (TransferFlow::AwaitConfig { .. }, Event::Config { .. }) => true,
            (TransferFlow::AwaitConfig { .. }, Event::NoConfigPath) => true,
            (TransferFlow::AwaitKeypair { .. }, Event::Keypair { .. }) => true,
            (TransferFlow::AwaitKeypair { .. }, Event::KeypairUnreadable) => true,
            (TransferFlow::AwaitBlockhash { .. }, Event::Blockhash { .. }) => true,
            (TransferFlow::AwaitConfirmation, Event::Submitted { .. }) => true,
            _ => false,
        }
    }

    /// Whether the flow can take `event` next.
    pub fn can_take(&self, event: &Event) -> (b: bool)
        ensures
            b == self.expects(event),
    {
        match (self, event) {
            (TransferFlow::AwaitConfig { .. }, Event::Config { .. }) => true,
            (TransferFlow::AwaitConfig { .. }, Event::NoConfigPath) => true,
            (TransferFlow::AwaitKeypair { .. }, Event::Keypair { .. }) => true,
            (TransferFlow::AwaitKeypair { .. }, Event::KeypairUnreadable) => true,
            (TransferFlow::AwaitBlockhash { .. }, Event::Blockhash { .. }) => true,
            (TransferFlow::AwaitConfirmation, Event::Submitted { .. }) => true,
            _ => false,
        }
    }

    /// One decision of the transfer flow.
    ///
    /// On a recent blockhash the transaction is assembled: the two
    /// compute-budget directives of `plan_transfer`, then the transfer,
    /// paid and signed by the key material; key material that cannot sign
    /// fails the flow. A confirmed submission is reported as its link.
    pub fn step(self, event: Event) -> (r: (TransferFlow, Step))
        requires
            self.expects(&event),
        ensures
            match (self, event) {
                (
                    TransferFlow::AwaitConfig { to, lamports },
                    Event::Config { json_rpc_url, keypair_path },
                ) => r.0 == (TransferFlow::AwaitKeypair { to, lamports, url: json_rpc_url })
                    && r.1 == (Step::ReadKeypair { path: keypair_path }),
                (TransferFlow::AwaitConfig { .. }, Event::NoConfigPath) => r.0
                    == TransferFlow::Finished && r.1 == (Step::Fail {
                    error: FlowError::MissingConfigPath,
                }),
                (
                    TransferFlow::AwaitKeypair { to, lamports, url },
                    Event::Keypair { keypair },
                ) => {
                    r.0 matches (TransferFlow::AwaitBlockhash {
                        to: t,
                        lamports: l,
                        keypair: k,
                        payer: _,
                        url: u,
                    }) && t == to && l == lamports && k == keypair && u == url && r.1 == (
                    Step::FetchBlockhash { url })
                },
                (TransferFlow::AwaitKeypair { .. }, Event::KeypairUnreadable) => r.0
                    == TransferFlow::Finished && r.1 == (Step::Fail {
                    error: FlowError::UnreadableKeypair,
                }),
                (
                    TransferFlow::AwaitBlockhash { to, lamports, payer, url, .. },
                    Event::Blockhash { hash },
                ) => {
                    ||| {
                        &&& r.0 == TransferFlow::AwaitConfirmation
                        &&& r.1 matches (Step::Submit { url: u, transaction }) && u == url
                            && transaction.desc@ == (TransactionDesc {
                            instructions: seq![
                                (InstructionDesc::ComputeUnitPrice { micro_lamports: 100000 }),
                                (InstructionDesc::ComputeUnitLimit { units: 500 }),
                                (InstructionDesc::Transfer { from: payer, to, lamports }),
                            ],
                            payer,
                            signed_over: Some(hash),
                        })
                    }
                    ||| {
                        &&& r.0 == TransferFlow::Finished
                        &&& r.1 matches (Step::Fail { error: FlowError::SigningFailed { .. } })
                    }
                },
                (TransferFlow::AwaitConfirmation, Event::Submitted { signature_text }) => {
                    &&& r.0 == TransferFlow::Finished
                    &&& r.1 matches (Step::Report { line }) && line@ == tx_link_text(
                        signature_text@,
                    )
                },
                _ => false,
            },
    {
        match (self, event) {
            (
                TransferFlow::AwaitConfig { to, lamports },
                Event::Config { json_rpc_url, keypair_path },
            ) => (
                TransferFlow::AwaitKeypair { to, lamports, url: json_rpc_url },
                Step::ReadKeypair { path: keypair_path },
            ),
            (TransferFlow::AwaitConfig { .. }, Event::NoConfigPath) => (
                TransferFlow::Finished,
                Step::Fail { error: FlowError::MissingConfigPath },
            ),
            (TransferFlow::AwaitKeypair { to, lamports, url }, Event::Keypair { keypair }) => {
                let payer = sdk::keypair_pubkey(&keypair);
                let step = Step::FetchBlockhash { url: url.clone() };
                (TransferFlow::AwaitBlockhash { to, lamports, keypair, payer, url }, step)
            },
            (TransferFlow::AwaitKeypair { .. }, Event::KeypairUnreadable) => (
                TransferFlow::Finished,
                Step::Fail { error: FlowError::UnreadableKeypair },
            ),
            (
                TransferFlow::AwaitBlockhash { to, lamports, keypair, payer, url },
                Event::Blockhash { hash },
            ) => {
                let plan = plan_transfer(lamports);
                let price = describe::price_directive(plan.compute_unit_price);
                let limit = describe::limit_directive(plan.compute_unit_limit);
                let transfer = describe::transfer_directive(&payer, &to, plan.lamports);
                let unsigned = describe::build_transaction(price, limit, transfer, &payer);
                match describe::sign_over(unsigned, &keypair, &hash) {
                    Ok(transaction) => (
                        TransferFlow::AwaitConfirmation,
                        Step::Submit { url, transaction },
                    ),
                    Err(message) => (
                        TransferFlow::Finished,
                        Step::Fail { error: FlowError::SigningFailed { message } },
                    ),
                }
            },
            (TransferFlow::AwaitConfirmation, Event::Submitted { signature_text }) => {
                let line = tx_link_line(signature_text.as_str());
                (TransferFlow::Finished, Step::Report { line })
            },
            _ => vstd::pervasive::unreached(),
        }
    }
}

/// Either of the two flows the tool can open.
pub enum Flow {
    /// A balance query in progress.
    Balance(BalanceFlow),
    /// A transfer in progress.
    Transfer(TransferFlow),
}

/// The native-token subcommands.
pub enum SolNative {
    /// Query an account's balance.
    SolNative(SolNativeBalance),
    /// Move native tokens to another account.
    SolNativeTransfer(SolNativeTransfer),
}

impl SolNativeBalance {
    /// Opens the balance flow; its first step loads the configuration.
    pub fn run(&self) -> (r: (BalanceFlow, Step))
        ensures
            r.0 == (BalanceFlow::AwaitConfig { address_arg: self.address }),
            r.1 == Step::LoadConfig,
    {
        let address_arg = match &self.address {
            Some(s) => Some(s.clone()),
            None => None,
        };
        (BalanceFlow::AwaitConfig { address_arg }, Step::LoadConfig)
    }
}

impl SolNativeTransfer {
    /// Opens the transfer flow; its first step loads the configuration.
    pub fn run(&self) -> (r: (TransferFlow, Step))
        ensures
            r.0 == (TransferFlow::AwaitConfig { to: self.to, lamports: self.lamports }),
            r.1 == Step::LoadConfig,
    {
        (TransferFlow::AwaitConfig { to: self.to, lamports: self.lamports }, Step::LoadConfig)
    }
}

impl SolNative {
    /// Opens the flow of the selected subcommand.
    pub fn run(&self) -> (r: (Flow, Step))
        ensures
            r.1 == Step::LoadConfig,
            match self {
                SolNative::SolNative(balance) => r.0 == (Flow::Balance(
                    BalanceFlow::AwaitConfig { address_arg: balance.address },
                )),
                SolNative::SolNativeTransfer(transfer) => r.0 == (Flow::Transfer(
                    TransferFlow::AwaitConfig { to: transfer.to, lamports: transfer.lamports },
                )),
            },
    {
        match self {
            SolNative::SolNative(balance) => {
                let (flow, step) = balance.run();
                (Flow::Balance(flow), step)
            },
            SolNative::SolNativeTransfer(transfer) => {
                let (flow, step) = transfer.run();
                (Flow::Transfer(flow), step)
            },
        }
    }
}

/// The tool's command line: one family of native-token subcommands.
pub enum Command {
    /// The native-token subcommands.
    SolNative(SolNative),
}

impl Command {
    /// Opens the flow of the selected command.
    pub fn run(&self) -> (r: (Flow, Step))
        ensures
            r.1 == Step::LoadConfig,
            match self {
                Command::SolNative(SolNative::SolNative(balance)) => r.0 == (Flow::Balance(
                    BalanceFlow::AwaitConfig { address_arg: balance.address },
                )),
                Command::SolNative(SolNative::SolNativeTransfer(transfer)) => r.0 == (
                Flow::Transfer(
                    TransferFlow::AwaitConfig { to: transfer.to, lamports: transfer.lamports },
                )),
            },
    {
        match self {
            Command::SolNative(sub) => sub.run(),
        }
    }
}

} // verus!
