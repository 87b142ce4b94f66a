//! Trusted boundary to the blockchain SDK.
//!
//! The SDK's values (addresses, key material, instructions, transactions) are
//! opaque here: the flows carry them between calls and decide on the plain
//! values beside them. Each function below makes exactly one SDK call.

use vstd::prelude::*;
use std::str::FromStr;

verus! {

#[verifier::external_type_specification]
#[verifier::external_body]
pub struct ExPubkey(solana_sdk::pubkey::Pubkey);

#[verifier::external_type_specification]
#[verifier::external_body]
pub struct ExKeypair(solana_sdk::signer::keypair::Keypair);

#[verifier::external_type_specification]
#[verifier::external_body]
pub struct ExHash(solana_sdk::hash::Hash);

#[verifier::external_type_specification]
#[verifier::external_body]
pub struct ExInstruction(solana_sdk::instruction::Instruction);

#[verifier::external_type_specification]
#[verifier::external_body]
pub struct ExTransaction(solana_sdk::transaction::Transaction);

/// Whether the SDK accepts `s` as the text of an account address: base58,
/// decoding to exactly the width of a public key.
pub uninterp spec fn pubkey_str_valid(s: Seq<char>) -> bool;

/// Relies on Pubkey::from_str: it succeeds exactly on well-formed base58
/// address text, and the outcome depends on the text alone.
#[verifier::external_body]
pub(crate) fn parse_pubkey(s: &str) -> (r: Result<solana_sdk::pubkey::Pubkey, String>)
    ensures
        r is Ok <==> pubkey_str_valid(s@),
{
    match solana_sdk::pubkey::Pubkey::from_str(s) {
        Ok(k) => Ok(k),
        Err(e) => Err(format!("{e}")),
    }
}

/// Relies on Signer::pubkey for Keypair: the public half of the key material.
#[verifier::external_body]
pub(crate) fn keypair_pubkey(k: &solana_sdk::signer::keypair::Keypair) -> (r:
    solana_sdk::pubkey::Pubkey)
{
    solana_sdk::signature::Signer::pubkey(k)
}

/// Relies on Pubkey's Display: the base58 text of the address.
#[verifier::external_body]
pub(crate) fn pubkey_text(p: &solana_sdk::pubkey::Pubkey) -> (r: String) {
    format!("{p}")
}

/// Relies on ComputeBudgetInstruction::set_compute_unit_price: the directive
/// that sets the price per compute unit, in micro-lamports.
#[verifier::external_body]
pub(crate) fn set_compute_unit_price(micro_lamports: u64) -> (r:
    solana_sdk::instruction::Instruction)
{
    solana_sdk::compute_budget::ComputeBudgetInstruction::set_compute_unit_price(micro_lamports)
}

/// Relies on ComputeBudgetInstruction::set_compute_unit_limit: the directive
/// that caps the compute units of the transaction.
#[verifier::external_body]
pub(crate) fn set_compute_unit_limit(units: u32) -> (r: solana_sdk::instruction::Instruction) {
    solana_sdk::compute_budget::ComputeBudgetInstruction::set_compute_unit_limit(units)
}

/// Relies on system_instruction::transfer: the instruction that moves
/// `lamports` from `from` to `to`.
#[verifier::external_body]
pub(crate) fn transfer_instruction(
    from: &solana_sdk::pubkey::Pubkey,
    to: &solana_sdk::pubkey::Pubkey,
    lamports: u64,
) -> (r: solana_sdk::instruction::Instruction) {
    solana_sdk::system_instruction::transfer(from, to, lamports)
}

/// Relies on Transaction::new_with_payer: an unsigned transaction over the
/// three given instructions, in order, its fee paid by `payer`. The message
/// construction aborts only when the instructions name more distinct
/// accounts than a message can index. This function is crate-private, and the
/// only instructions the crate holds come from the three directive builders,
/// each naming at most two accounts, so three of them stay far under that
/// limit.
#[verifier::external_body]
pub(crate) fn transaction_with_payer(
    first: solana_sdk::instruction::Instruction,
    second: solana_sdk::instruction::Instruction,
    third: solana_sdk::instruction::Instruction,
    payer: &solana_sdk::pubkey::Pubkey,
) -> (r: solana_sdk::transaction::Transaction) {
    solana_sdk::transaction::Transaction::new_with_payer(&[first, second, third], Some(payer))
}

/// Relies on Transaction::try_sign: signs the transaction with the key
/// material over `recent_blockhash`, and fails if the key does not cover a
/// required signature. The signing aborts only on a transaction whose
/// signature vector is shorter than its required-signature count. This
/// function is crate-private, and the only transactions the crate holds come
/// from `transaction_with_payer`, whose construction sizes the vector to
/// that count.
#[verifier::external_body]
pub(crate) fn sign_transaction(
    tx: solana_sdk::transaction::Transaction,
    keypair: &solana_sdk::signer::keypair::Keypair,
    recent_blockhash: &solana_sdk::hash::Hash,
) -> (r: Result<solana_sdk::transaction::Transaction, String>) {
    let mut tx = tx;
    match tx.try_sign(&[keypair], *recent_blockhash) {
        Ok(()) => Ok(tx),
        Err(e) => Err(format!("{e}")),
    }
}

} // verus!
