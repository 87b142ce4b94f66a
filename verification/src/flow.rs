//! The vocabulary of the command-line flows.
//!
//! A flow is a small machine: the surrounding binary performs one `Step` at a
//! time (a file read, an RPC call, a line of output) and hands the outcome
//! back as an `Event`. The machine decides; the binary only executes.

use vstd::prelude::*;

use crate::describe::AddressOrigin;
use crate::describe::DescribedTransaction;

verus! {

/// The ways a flow can fail on its own account.
pub enum FlowError {
    /// The path of the configuration file could not be determined.
    MissingConfigPath,
    /// The key file could not be read.
    UnreadableKeypair,
    /// The given account address does not parse.
    InvalidAddress { message: String },
    /// The key material could not sign the transaction.
    SigningFailed { message: String },
}

/// What the binary hands back to a flow.
pub enum Event {
    /// The configuration file was loaded.
    Config { json_rpc_url: String, keypair_path: String },
    /// No configuration file path is available.
    NoConfigPath,
    /// The key file was read.
    Keypair { keypair: solana_sdk::signer::keypair::Keypair },
    /// The key file could not be read.
    KeypairUnreadable,
    /// The balance of the queried account, in lamports.
    Balance { lamports: u64 },
    /// A recent blockhash.
    Blockhash { hash: solana_sdk::hash::Hash },
    /// The transaction was submitted and confirmed; the text of its signature.
    Submitted { signature_text: String },
}

/// What a flow asks the binary to do next.
pub enum Step {
    /// Load the configuration file.
    LoadConfig,
    /// Read the key file at `path`.
    ReadKeypair { path: String },
    /// Query the balance of `address` at the RPC endpoint `url`; `origin`
    /// says where the address came from.
    FetchBalance {
        url: String,
        address: solana_sdk::pubkey::Pubkey,
        origin: Ghost<AddressOrigin>,
    },
    /// Fetch a recent blockhash from the RPC endpoint `url`.
    FetchBlockhash { url: String },
    /// Submit the built transaction to the RPC endpoint `url` and await
    /// confirmation.
    Submit { url: String, transaction: DescribedTransaction },
    /// Print `line`; the flow is complete.
    Report { line: String },
    /// The flow failed with `error`.
    Fail { error: FlowError },
}

} // verus!
