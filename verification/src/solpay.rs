//! Plain transfers: one payer, one recipient, no session and no fee.

use crate::address::Address;
use crate::settlement::Transfer;
use anchor_lang::solana_program::pubkey::Pubkey;
use anchor_lang::solana_program::system_instruction;
use vstd::prelude::*;

verus! {

/// One account that an instruction touches.
#[derive(Clone, Copy, Debug, PartialEq, Eq)]
pub struct AccountMeta {
    /// The account's address.
    pub pubkey: Address,
    /// Whether the account has to sign.
    pub is_signer: bool,
    /// Whether the instruction may change the account.
    pub is_writable: bool,
}

/// An instruction for a program of the host, ready to be invoked.
#[derive(Clone, Debug, PartialEq, Eq)]
pub struct Instruction {
    /// The program that carries the instruction out.
    pub program_id: Address,
    /// The accounts handed to the program, in order.
    pub accounts: Vec<AccountMeta>,
    /// The instruction as the program reads it.
    pub data: Vec<u8>,
}

/// The native transfer of `amount` from the payer to the recipient.
#[derive(Clone, Copy, Debug)]
pub struct SendSol {
    /// The wallet that is debited, and signs.
    pub payer: Address,
    /// The wallet that is credited.
    pub recipient: Address,
}

/// The token transfer from the payer's holding to the recipient's.
#[derive(Clone, Copy, Debug)]
pub struct SendSplTokens {
    /// The principal that owns the debited holding, and signs.
    pub payer: Address,
    /// The token that moves.
    pub mint: Address,
    /// The payer's holding of the token.
    pub payer_token_account: Address,
    /// The recipient's holding of the token.
    pub recipient_token_account: Address,
    /// The principal that owns the credited holding.
    pub recipient: Address,
}

/// The address of the system program: thirty-two zero bytes.
pub open spec fn system_program() -> Seq<u8> {
    Seq::new(32, |i: int| 0u8)
}

/// The bytes by which the system program is told to transfer `lamports`.
pub uninterp spec fn system_transfer_data(lamports: u64) -> Seq<u8>;

/// Whether `instruction` is the system program's transfer of `lamports` from
/// `from`, which signs, to `to`.
pub open spec fn is_system_transfer(
    instruction: Instruction,
    from: Address,
    to: Address,
    lamports: u64,
) -> bool {
    &&& instruction.program_id@ == system_program()
    &&& instruction.accounts@ == seq![
        AccountMeta { pubkey: from, is_signer: true, is_writable: true },
        AccountMeta { pubkey: to, is_signer: false, is_writable: true },
    ]
    &&& instruction.data@ == system_transfer_data(lamports)
}

/// Calls `system_instruction::transfer`.
///
/// The instruction it builds is addressed to the system program and names two
/// writable accounts: the sender, which signs, and then the receiver, which
/// does not. Its data is the system program's encoding of a transfer of
/// `lamports`, of which nothing more is claimed than that it depends on
/// `lamports` alone.
#[verifier::external_body]
fn system_transfer(from: &Address, to: &Address, lamports: u64) -> (instruction: Instruction)
    ensures
        instruction.program_id@ == system_program(),
        instruction.accounts@ == seq![
            AccountMeta { pubkey: *from, is_signer: true, is_writable: true },
            AccountMeta { pubkey: *to, is_signer: false, is_writable: true },
        ],
        instruction.data@ == system_transfer_data(lamports),
{
    let from_key = Pubkey::new_from_array(from.bytes);
    let to_key = Pubkey::new_from_array(to.bytes);
    let built = system_instruction::transfer(&from_key, &to_key, lamports);
    let mut accounts: Vec<AccountMeta> = Vec::new();
    for meta in built.accounts.iter() {
        let pubkey = Address { bytes: meta.pubkey.to_bytes() };
        accounts.push(AccountMeta { pubkey, is_signer: meta.is_signer, is_writable: meta.is_writable });
    }
    Instruction { program_id: Address { bytes: built.program_id.to_bytes() }, accounts, data: built.data }
}

/// Builds the instruction that sends `amount` of the native asset from
/// `ctx.payer` to `ctx.recipient`. The host invokes it with the payer's
/// signature.
pub fn send_sol(ctx: &SendSol, amount: u64) -> (instruction: Instruction)
    ensures
        is_system_transfer(instruction, ctx.payer, ctx.recipient, amount),
{
    system_transfer(&ctx.payer, &ctx.recipient, amount)
}

/// Names the transfer that sends `amount` of the token `ctx.mint` from the
/// payer's holding to the recipient's, on the payer's authority.
pub fn send_spl_tokens(ctx: &SendSplTokens, amount: u64) -> (transfer: Transfer)
    ensures
        transfer == (Transfer {
            asset: Some(ctx.mint),
            from: ctx.payer_token_account,
            to: ctx.recipient_token_account,
            authority: ctx.payer,
            amount,
        }),
{
    Transfer {
        asset: Some(ctx.mint),
        from: ctx.payer_token_account,
        to: ctx.recipient_token_account,
        authority: ctx.payer,
        amount,
    }
}

} // verus!
