use anchor_lang::solana_program::pubkey::Pubkey;
use anchor_lang::solana_program::{system_instruction, system_program};
use stickypay::solpay::AccountMeta;
use stickypay::{send_sol, send_spl_tokens, Address, SendSol, SendSplTokens, Transfer};

fn id(n: u8) -> Address {
    Address::new([n; 32])
}

#[test]
fn send_sol_builds_the_system_transfer() {
    let instruction = send_sol(&SendSol { payer: id(5), recipient: id(1) }, 9_750);
    assert_eq!(instruction.program_id, Address::new([0; 32]));
    assert_eq!(
        instruction.accounts,
        vec![
            AccountMeta { pubkey: id(5), is_signer: true, is_writable: true },
            AccountMeta { pubkey: id(1), is_signer: false, is_writable: true },
        ]
    );
    assert_eq!(instruction.data, vec![2, 0, 0, 0, 0x16, 0x26, 0, 0, 0, 0, 0, 0]);
}

#[test]
fn send_sol_agrees_with_the_system_program() {
    for amount in [0u64, 1, 250, 1_000_000_000, u64::MAX] {
        let ours = send_sol(&SendSol { payer: id(5), recipient: id(1) }, amount);
        let theirs = system_instruction::transfer(
            &Pubkey::new_from_array([5; 32]),
            &Pubkey::new_from_array([1; 32]),
            amount,
        );
        assert_eq!(ours.program_id.bytes, system_program::id().to_bytes());
        assert_eq!(ours.data, theirs.data);
        assert_eq!(ours.accounts.len(), theirs.accounts.len());
        for (a, b) in ours.accounts.iter().zip(theirs.accounts.iter()) {
            assert_eq!(a.pubkey.bytes, b.pubkey.to_bytes());
            assert_eq!(a.is_signer, b.is_signer);
            assert_eq!(a.is_writable, b.is_writable);
        }
    }
}

#[test]
fn send_sol_data_depends_on_the_amount_alone() {
    let one = send_sol(&SendSol { payer: id(5), recipient: id(1) }, 42);
    let other = send_sol(&SendSol { payer: id(8), recipient: id(9) }, 42);
    let more = send_sol(&SendSol { payer: id(5), recipient: id(1) }, 43);
    assert_eq!(one.data, other.data);
    assert_ne!(one.data, more.data);
}

#[test]
fn send_spl_tokens_names_the_transfer() {
    let ctx = SendSplTokens {
        payer: id(5),
        mint: id(7),
        payer_token_account: id(15),
        recipient_token_account: id(11),
        recipient: id(1),
    };
    assert_eq!(
        send_spl_tokens(&ctx, 360),
        Transfer { asset: Some(id(7)), from: id(15), to: id(11), authority: id(5), amount: 360 }
    );
}
