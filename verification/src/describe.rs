//! Opaque SDK values paired with descriptions of what they stand for.
//!
//! The SDK's addresses, instructions and transactions are opaque to the
//! verifier. Each constructor here makes one call through the trusted
//! boundary and labels its result, in ghost state, with what the call was
//! asked to build; the contracts of the flows speak of those labels.

use vstd::prelude::*;

use crate::sdk;

verus! {

/// What an instruction was built as.
pub enum InstructionDesc {
    /// The compute-budget directive setting the price per compute unit,
    /// in micro-lamports.
    ComputeUnitPrice { micro_lamports: u64 },
    /// The compute-budget directive capping the compute units of the
    /// transaction.
    ComputeUnitLimit { units: u32 },
    /// The system transfer of `lamports` from `from` to `to`.
    Transfer {
        from: solana_sdk::pubkey::Pubkey,
        to: solana_sdk::pubkey::Pubkey,
        lamports: u64,
    },
}

/// An instruction built by this crate. The value inside is crate-private:
/// every instruction that reaches the trusted boundary comes from one of the
/// directive builders below.
pub struct BuiltInstruction(pub(crate) solana_sdk::instruction::Instruction);

/// A transaction built by this crate. The value inside is crate-private:
/// every transaction that reaches the trusted boundary comes from
/// `build_transaction`.
pub struct BuiltTransaction(pub(crate) solana_sdk::transaction::Transaction);

/// An SDK instruction together with what it was built as.
pub struct DescribedInstruction {
    /// The instruction itself.
    pub instruction: BuiltInstruction,
    /// What it was built as.
    pub desc: Ghost<InstructionDesc>,
}

/// What a transaction was built as.
#[verifier::ext_equal]
pub struct TransactionDesc {
    /// The instructions, in order.
    pub instructions: Seq<InstructionDesc>,
    /// The account that pays the fee and signs.
    pub payer: solana_sdk::pubkey::Pubkey,
    /// The blockhash the transaction was signed over, once signed.
    pub signed_over: Option<solana_sdk::hash::Hash>,
}

/// An SDK transaction together with what it was built as.
pub struct DescribedTransaction {
    /// The transaction itself.
    pub transaction: BuiltTransaction,
    /// What it was built as.
    pub desc: Ghost<TransactionDesc>,
}

impl DescribedTransaction {
    /// Hands out the transaction itself, for the binary to submit.
    pub fn into_transaction(self) -> solana_sdk::transaction::Transaction {
        self.transaction.0
    }
}

/// Where a queried account address came from.
pub enum AddressOrigin {
    /// Parsed from the given text.
    Text(Seq<char>),
    /// The key material's own address.
    KeyMaterial,
}

/// An address rendered as text, together with the address it renders.
pub struct RenderedAddress {
    /// The base58 text.
    pub text: String,
    /// The address the text renders.
    pub of: Ghost<solana_sdk::pubkey::Pubkey>,
}

/// Renders `address` as its base58 text.
pub fn render_address(address: &solana_sdk::pubkey::Pubkey) -> (r: RenderedAddress)
    ensures
        r.of@ == *address,
{
    RenderedAddress { text: sdk::pubkey_text(address), of: Ghost(*address) }
}

/// Builds the compute-unit price directive.
pub fn price_directive(micro_lamports: u64) -> (r: DescribedInstruction)
    ensures
        r.desc@ == (InstructionDesc::ComputeUnitPrice { micro_lamports }),
{
    DescribedInstruction {
        instruction: BuiltInstruction(sdk::set_compute_unit_price(micro_lamports)),
        desc: Ghost(InstructionDesc::ComputeUnitPrice { micro_lamports }),
    }
}

/// Builds the compute-unit limit directive.
pub fn limit_directive(units: u32) -> (r: DescribedInstruction)
    ensures
        r.desc@ == (InstructionDesc::ComputeUnitLimit { units }),
{
    DescribedInstruction {
        instruction: BuiltInstruction(sdk::set_compute_unit_limit(units)),
        desc: Ghost(InstructionDesc::ComputeUnitLimit { units }),
    }
}

/// Builds the transfer of `lamports` from `from` to `to`.
pub fn transfer_directive(
    from: &solana_sdk::pubkey::Pubkey,
    to: &solana_sdk::pubkey::Pubkey,
    lamports: u64,
) -> (r: DescribedInstruction)
    ensures
        r.desc@ == (InstructionDesc::Transfer { from: *from, to: *to, lamports }),
{
    DescribedInstruction {
        instruction: BuiltInstruction(sdk::transfer_instruction(from, to, lamports)),
        desc: Ghost(InstructionDesc::Transfer { from: *from, to: *to, lamports }),
    }
}

/// Builds the unsigned transaction holding `first`, `second` and `third`, in
/// that order, with `payer` paying the fee.
pub fn build_transaction(
    first: DescribedInstruction,
    second: DescribedInstruction,
    third: DescribedInstruction,
    payer: &solana_sdk::pubkey::Pubkey,
) -> (r: DescribedTransaction)
    ensures
        r.desc@ == (TransactionDesc {
            instructions: seq![first.desc@, second.desc@, third.desc@],
            payer: *payer,
            signed_over: None,
        }),
{
    DescribedTransaction {
        transaction: BuiltTransaction(
            sdk::transaction_with_payer(
                first.instruction.0,
                second.instruction.0,
                third.instruction.0,
                payer,
            ),
        ),
        desc: Ghost(
            TransactionDesc {
                instructions: seq![first.desc@, second.desc@, third.desc@],
                payer: *payer,
                signed_over: None,
            },
        ),
    }
}

/// Signs `tx` over `recent_blockhash` with the key material, or reports why
/// the key material cannot sign it. The instructions and payer are unchanged.
pub fn sign_over(
    tx: DescribedTransaction,
    keypair: &solana_sdk::signer::keypair::Keypair,
    recent_blockhash: &solana_sdk::hash::Hash,
) -> (r: Result<DescribedTransaction, String>)
    ensures
        r matches Ok(t) ==> t.desc@ == (TransactionDesc {
            instructions: tx.desc@.instructions,
            payer: tx.desc@.payer,
            signed_over: Some(*recent_blockhash),
        }),
{
    let desc = Ghost(
        TransactionDesc {
            instructions: tx.desc@.instructions,
            payer: tx.desc@.payer,
            signed_over: Some(*recent_blockhash),
        },
    );
    match sdk::sign_transaction(tx.transaction.0, keypair, recent_blockhash) {
        Ok(transaction) => Ok(
            DescribedTransaction { transaction: BuiltTransaction(transaction), desc },
        ),
        Err(message) => Err(message),
    }
}

} // verus!
