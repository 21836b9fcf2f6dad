use litesvm::LiteSVM;
use solana_sdk::instruction::{AccountMeta as SolanaMeta, Instruction as SolanaInstruction};
use solana_sdk::pubkey::Pubkey;
use solana_sdk::signature::{Keypair, Signer};
use solana_sdk::transaction::Transaction;

use solana_audit_kit::instruction::Instruction;
use solana_audit_kit::keys::{program_id, Key};
use solana_audit_kit::poc::{build_update_config_ix, config_address, vault_address};

fn key_of(p: &Pubkey) -> Key {
    Key { bytes: p.to_bytes() }
}

fn pubkey_of(k: &Key) -> Pubkey {
    Pubkey::new_from_array(k.bytes)
}

fn to_solana(ix: &Instruction) -> SolanaInstruction {
    SolanaInstruction {
        program_id: pubkey_of(&ix.program_id),
        accounts: ix
            .accounts
            .iter()
            .map(|m| SolanaMeta { pubkey: pubkey_of(&m.pubkey), is_signer: m.is_signer, is_writable: m.is_writable })
            .collect(),
        data: ix.data.clone(),
    }
}

fn fund(svm: &mut LiteSVM, key: &Pubkey, lamports: u64) {
    svm.airdrop(key, lamports).expect("airdrop failed");
}

fn send_tx(
    svm: &mut LiteSVM,
    ixs: &[SolanaInstruction],
    signers: &[&Keypair],
) -> litesvm::types::TransactionResult {
    let payer = signers[0];
    let blockhash = svm.latest_blockhash();
    let tx = Transaction::new_signed_with_payer(ixs, Some(&payer.pubkey()), signers, blockhash);
    svm.send_transaction(tx)
}

#[test]
fn attacker_mutates_config_without_signing() {
    let mut svm = LiteSVM::new();
    let program = program_id().expect("program id");

    let legitimate_admin = Keypair::new();
    let attacker = Keypair::new();

    fund(&mut svm, &legitimate_admin.pubkey(), 10_000_000_000);
    fund(&mut svm, &attacker.pubkey(), 10_000_000_000);

    let config_pda = config_address(&program).expect("config address");

    let exploit_ix = build_update_config_ix(program, config_pda, key_of(&attacker.pubkey()));

    let result = send_tx(&mut svm, &[to_solana(&exploit_ix)], &[&attacker]);

    assert!(
        result.is_err(),
        "FINDING CONFIRMED: unauthorized mutation succeeded - signer check is missing"
    );
}

#[test]
fn double_initialize_overwrites_state() {
    let mut svm = LiteSVM::new();
    let program = program_id().expect("program id");

    let user_a = Keypair::new();
    let user_b = Keypair::new();
    fund(&mut svm, &user_a.pubkey(), 10_000_000_000);
    fund(&mut svm, &user_b.pubkey(), 10_000_000_000);

    let shared_account = vault_address(&key_of(&user_a.pubkey()), &program).expect("vault address");

    println!("SCAFFOLD: reinitialization PoC not wired - fill in steps above");
    let _ = (user_a, user_b, shared_account);
}

#[test]
fn token_balance_is_conserved_across_swap() {
    let svm = LiteSVM::new();

    println!("SCAFFOLD: invariant test not wired - fill in setup + assertion above");
    let _ = &svm;
}

#[test]
fn funded_payer_has_its_lamports() {
    let mut svm = LiteSVM::new();
    let payer = Keypair::new();
    fund(&mut svm, &payer.pubkey(), 5_000_000);
    assert_eq!(svm.get_balance(&payer.pubkey()), Some(5_000_000));
}
