use solana_audit_kit::fuzz::FuzzAccounts;
use solana_audit_kit::keys::{derive_address, program_id, system_program, Key};
use solana_audit_kit::poc::{build_update_config_ix, config_address, vault_address};
use solana_audit_kit::instruction::{AccountMeta, Instruction};
use solana_sdk::pubkey::Pubkey;

fn key(b: u8) -> Key {
    Key { bytes: [b; 32] }
}

fn solana_pda(seeds: &[&[u8]], program: &Key) -> Key {
    let (p, _) = Pubkey::find_program_address(seeds, &Pubkey::new_from_array(program.bytes));
    Key { bytes: p.to_bytes() }
}

#[test]
fn program_id_decodes_to_zero_address() {
    assert_eq!(program_id(), Some(Key { bytes: [0; 32] }));
}

#[test]
fn system_program_is_zero_address() {
    assert_eq!(system_program(), Key { bytes: [0; 32] });
}

#[test]
fn same_as_compares_all_bytes() {
    let mut k = key(4);
    assert!(k.same_as(&key(4)));
    k.bytes[17] = 5;
    assert!(!k.same_as(&key(4)));
    assert_eq!(k.to_vec(), k.bytes.to_vec());
}

#[test]
fn fuzz_accounts_state_is_the_state_pda() {
    let program = key(11);
    let a = FuzzAccounts::new(program, key(2)).expect("state address");
    assert_eq!(a.payer, key(2));
    assert_eq!(a.state, solana_pda(&[b"state"], &program));
    assert_ne!(a.state, program);
}

#[test]
fn fuzz_accounts_are_stable_across_calls() {
    let program = key(12);
    let a = FuzzAccounts::new(program, key(2)).unwrap();
    let b = FuzzAccounts::new(program, key(3)).unwrap();
    assert_eq!(a.state, b.state);
    let c = FuzzAccounts::new(key(13), key(2)).unwrap();
    assert_ne!(a.state, c.state);
}

#[test]
fn derive_address_refuses_too_many_seeds() {
    let seeds: Vec<Vec<u8>> = (0..16u8).map(|i| vec![i]).collect();
    assert_eq!(derive_address(&seeds, &key(1)), None);
    let long: Vec<Vec<u8>> = vec![vec![0u8; 33]];
    assert_eq!(derive_address(&long, &key(1)), None);
    let ok: Vec<Vec<u8>> = vec![b"state".to_vec()];
    assert_eq!(derive_address(&ok, &key(1)), Some(solana_pda(&[b"state"], &key(1))));
}

#[test]
fn config_and_vault_addresses_match_solana() {
    let program = key(21);
    let user = key(5);
    assert_eq!(config_address(&program), Some(solana_pda(&[b"config"], &program)));
    assert_eq!(
        vault_address(&user, &program),
        Some(solana_pda(&[b"vault", &user.bytes], &program))
    );
    assert_ne!(vault_address(&user, &program), vault_address(&key(6), &program));
}

#[test]
fn update_config_exploit_leaves_authority_unsigned() {
    let ix = build_update_config_ix(key(1), key(2), key(3));
    let mut data = vec![0xde, 0xad, 0xbe, 0xef, 0x00, 0x00, 0x00, 0x01];
    data.extend_from_slice(&[3u8; 32]);
    assert_eq!(
        ix,
        Instruction {
            program_id: key(1),
            accounts: vec![
                AccountMeta { pubkey: key(2), is_signer: false, is_writable: true },
                AccountMeta { pubkey: key(3), is_signer: false, is_writable: false },
                AccountMeta { pubkey: Key { bytes: [0; 32] }, is_signer: false, is_writable: false },
            ],
            data,
        }
    );
    assert!(ix.accounts.iter().all(|m| !m.is_signer));
    assert_eq!(ix.data.len(), 40);
}
