//! The decisions of the fuzz harness: which instruction a fuzzer input
//! stands for, how each instruction's accounts and data are laid out, and
//! the account-owner invariant checked after every transaction.
use vstd::prelude::*;
use crate::bytes::{extend_le_u64, le_bytes, le_value, padded, pad_or_truncate, lemma_le_roundtrip};
use crate::instruction::{AccountMeta, Instruction, InstructionView};
use crate::keys::{derive_address, derived_address, derived_key, system_program, system_program_bytes, Key};

verus! {

/// The number of instructions the harness can send.
pub const IX_COUNT: usize = 3;

/// How many argument bytes `initialize` takes after its discriminator.
pub const INITIALIZE_ARGS_LEN: usize = 8;

/// The eight-byte tag that opens `initialize` data.
pub open spec fn initialize_discriminator() -> Seq<u8> {
    seq![0xafu8, 0xafu8, 0x6du8, 0x1fu8, 0x0du8, 0x98u8, 0x9bu8, 0xedu8]
}

/// The eight-byte tag that opens `deposit` data.
pub open spec fn deposit_discriminator() -> Seq<u8> {
    seq![0u8, 0u8, 0u8, 0u8, 0u8, 0u8, 0u8, 2u8]
}

/// The eight-byte tag that opens `withdraw` data.
pub open spec fn withdraw_discriminator() -> Seq<u8> {
    seq![0u8, 0u8, 0u8, 0u8, 0u8, 0u8, 0u8, 3u8]
}

/// One fuzzer-generated input.
#[derive(Debug)]
pub struct FuzzInput {
    /// Which instruction to call, taken modulo `IX_COUNT`.
    pub instruction_index: u8,
    /// Raw argument bytes.
    pub args: Vec<u8>,
    /// Whether the authority account is passed as a signer.
    pub provide_signer: bool,
    /// Whether the correct program id is passed for cross-program calls.
    pub correct_program_id: bool,
    /// Numbers for amount arguments.
    pub amounts: [u64; 4],
}

/// The accounts every iteration of the harness reuses: the fee payer's
/// address and the program's state address.
#[derive(Clone, Copy, Debug, PartialEq, Eq)]
pub struct FuzzAccounts {
    pub payer: Key,
    pub state: Key,
}

/// The `initialize` instruction: state (writable), payer (writable, signing
/// as the input says), system program (read-only); data is the
/// discriminator and the arguments laid out in eight bytes.
pub open spec fn initialize_ix(program: Seq<u8>, input: FuzzInput, accounts: FuzzAccounts) -> InstructionView {
    InstructionView {
        program_id: program,
        accounts: seq![
            (accounts.state@, false, true),
            (accounts.payer@, input.provide_signer, true),
            (system_program_bytes(), false, false),
        ],
        data: initialize_discriminator() + padded(input.args@, INITIALIZE_ARGS_LEN as nat),
    }
}

/// The `deposit` instruction: state (writable), payer (writable, signing),
/// system program (read-only); data is the discriminator and the first
/// amount in little-endian order.
pub open spec fn deposit_ix(program: Seq<u8>, input: FuzzInput, accounts: FuzzAccounts) -> InstructionView {
    InstructionView {
        program_id: program,
        accounts: seq![
            (accounts.state@, false, true),
            (accounts.payer@, true, true),
            (system_program_bytes(), false, false),
        ],
        data: deposit_discriminator() + le_bytes(input.amounts[0]),
    }
}

/// The `withdraw` instruction: as `deposit`, with its own discriminator and
/// the second amount.
pub open spec fn withdraw_ix(program: Seq<u8>, input: FuzzInput, accounts: FuzzAccounts) -> InstructionView {
    InstructionView {
        program_id: program,
        accounts: seq![
            (accounts.state@, false, true),
            (accounts.payer@, true, true),
            (system_program_bytes(), false, false),
        ],
        data: withdraw_discriminator() + le_bytes(input.amounts[1]),
    }
}

/// The instruction a fuzzer input stands for: its index modulo the number of
/// instructions picks `initialize`, `deposit` or `withdraw`, in that order.
pub open spec fn fuzz_ix(program: Seq<u8>, input: FuzzInput, accounts: FuzzAccounts) -> InstructionView {
    let k = input.instruction_index as int % IX_COUNT as int;
    if k == 0 {
        initialize_ix(program, input, accounts)
    } else if k == 1 {
        deposit_ix(program, input, accounts)
    } else {
        withdraw_ix(program, input, accounts)
    }
}

/// The three accounts every harness instruction passes, the payer signing
/// as `payer_signs` says.
fn harness_accounts(accounts: &FuzzAccounts, payer_signs: bool) -> (res: Vec<AccountMeta>)
    ensures
        res@.map_values(|m: AccountMeta| m@) == seq![
            (accounts.state@, false, true),
            (accounts.payer@, payer_signs, true),
            (system_program_bytes(), false, false),
        ],
{
    let res = vec![
        AccountMeta::new(accounts.state, false),
        AccountMeta::new(accounts.payer, payer_signs),
        AccountMeta::new_readonly(system_program(), false),
    ];
    assert(res@.map_values(|m: AccountMeta| m@) =~= seq![
        (accounts.state@, false, true),
        (accounts.payer@, payer_signs, true),
        (system_program_bytes(), false, false),
    ]);
    res
}

/// Builds the `initialize` instruction for `input`.
pub fn build_initialize_ix(program_id: Key, input: &FuzzInput, accounts: &FuzzAccounts) -> (ix: Instruction)
    ensures
        ix@ == initialize_ix(program_id@, *input, *accounts),
        ix@.program_id == program_id@,
        ix@.accounts == seq![
            (accounts.state@, false, true),
            (accounts.payer@, input.provide_signer, true),
            (Seq::new(32, |_i: int| 0u8), false, false),
        ],
        ix@.data.len() == 16,
        ix@.data.take(8) == seq![0xafu8, 0xafu8, 0x6du8, 0x1fu8, 0x0du8, 0x98u8, 0x9bu8, 0xedu8],
        forall|i: int| 0 <= i < 8 ==> #[trigger] ix@.data.subrange(8, 16)[i] == (if i < input.args@.len() { input.args@[i] } else { 0u8 }),
{
    proof { law_initialize_layout(program_id@, *input, *accounts); }
    let mut data: Vec<u8> = vec![0xafu8, 0xafu8, 0x6du8, 0x1fu8, 0x0du8, 0x98u8, 0x9bu8, 0xedu8];
    let mut padded_args = pad_or_truncate(input.args.as_slice(), INITIALIZE_ARGS_LEN);
    data.append(&mut padded_args);
    assert(data@ =~= initialize_discriminator() + padded(input.args@, INITIALIZE_ARGS_LEN as nat));
    let accounts = harness_accounts(accounts, input.provide_signer);
    Instruction { program_id, accounts, data }
}

/// Builds the `deposit` instruction for `input`.
pub fn build_deposit_ix(program_id: Key, input: &FuzzInput, accounts: &FuzzAccounts) -> (ix: Instruction)
    ensures
        ix@ == deposit_ix(program_id@, *input, *accounts),
        ix@.program_id == program_id@,
        ix@.accounts == seq![
            (accounts.state@, false, true),
            (accounts.payer@, true, true),
            (Seq::new(32, |_i: int| 0u8), false, false),
        ],
        ix@.data.len() == 16,
        ix@.data.take(8) == seq![0u8, 0u8, 0u8, 0u8, 0u8, 0u8, 0u8, 2u8],
        forall|i: int| 0 <= i < 8 ==> #[trigger] ix@.data.subrange(8, 16)[i] == ((input.amounts[0] >> ((8 * i) as u64)) & 0xff) as u8,
        le_value(ix@.data.subrange(8, 16)) == input.amounts[0],
{
    proof { law_deposit_layout(program_id@, *input, *accounts); }
    let mut data: Vec<u8> = vec![0u8, 0u8, 0u8, 0u8, 0u8, 0u8, 0u8, 2u8];
    assert(data@ =~= deposit_discriminator());
    extend_le_u64(&mut data, input.amounts[0]);
    let accounts = harness_accounts(accounts, true);
    Instruction { program_id, accounts, data }
}

/// Builds the `withdraw` instruction for `input`.
pub fn build_withdraw_ix(program_id: Key, input: &FuzzInput, accounts: &FuzzAccounts) -> (ix: Instruction)
    ensures
        ix@ == withdraw_ix(program_id@, *input, *accounts),
        ix@.program_id == program_id@,
        ix@.accounts == seq![
            (accounts.state@, false, true),
            (accounts.payer@, true, true),
            (Seq::new(32, |_i: int| 0u8), false, false),
        ],
        ix@.data.len() == 16,
        ix@.data.take(8) == seq![0u8, 0u8, 0u8, 0u8, 0u8, 0u8, 0u8, 3u8],
        forall|i: int| 0 <= i < 8 ==> #[trigger] ix@.data.subrange(8, 16)[i] == ((input.amounts[1] >> ((8 * i) as u64)) & 0xff) as u8,
        le_value(ix@.data.subrange(8, 16)) == input.amounts[1],
{
    proof { law_withdraw_layout(program_id@, *input, *accounts); }
    let mut data: Vec<u8> = vec![0u8, 0u8, 0u8, 0u8, 0u8, 0u8, 0u8, 3u8];
    assert(data@ =~= withdraw_discriminator());
    extend_le_u64(&mut data, input.amounts[1]);
    let accounts = harness_accounts(accounts, true);
    Instruction { program_id, accounts, data }
}

/// Builds the instruction a fuzzer input stands for.
pub fn build_instruction(program_id: Key, input: &FuzzInput, accounts: &FuzzAccounts) -> (ix: Instruction)
    ensures
        ix@ == fuzz_ix(program_id@, *input, *accounts),
        input.instruction_index % 3 == 0 ==> ix@ == initialize_ix(program_id@, *input, *accounts),
        input.instruction_index % 3 == 1 ==> ix@ == deposit_ix(program_id@, *input, *accounts),
        input.instruction_index % 3 == 2 ==> ix@ == withdraw_ix(program_id@, *input, *accounts),
{
    let ix_index: usize = (input.instruction_index as usize) % IX_COUNT;
    match ix_index {
        0 => build_initialize_ix(program_id, input, accounts),
        1 => build_deposit_ix(program_id, input, accounts),
        2 => build_withdraw_ix(program_id, input, accounts),
        _ => build_initialize_ix(program_id, input, accounts),
    }
}

/// The seed the program's state address is derived from.
pub open spec fn state_seeds() -> Seq<Seq<u8>> {
    seq![seq![0x73u8, 0x74u8, 0x61u8, 0x74u8, 0x65u8]]
}

impl FuzzAccounts {
    /// The accounts for one harness run: the given payer address and the
    /// state address derived from the seed `b"state"` under `program_id`;
    /// `None` where no such address can be derived.
    pub fn new(program_id: Key, payer: Key) -> (res: Option<FuzzAccounts>)
        ensures
            match derived_key(state_seeds(), program_id@) {
                Some(state) => res matches Some(a) && a.payer == payer && a.state@ == state,
                None => res is None,
            },
            match derived_address(state_seeds(), program_id@) {
                Some((state, _bump)) => res matches Some(a) && a.payer == payer && a.state@ == state,
                None => res is None,
            },
    {
        let seeds: Vec<Vec<u8>> = vec![vec![0x73u8, 0x74u8, 0x61u8, 0x74u8, 0x65u8]];
        proof {
            let inner = seeds@[0];
            assert(inner.deep_view() =~= state_seeds()[0]);
            assert(seeds.deep_view() =~= state_seeds());
        }
        match derive_address(&seeds, &program_id) {
            Some(state) => Some(FuzzAccounts { payer, state }),
            None => None,
        }
    }
}

/// A broken harness invariant, with what was observed.
#[derive(Clone, Copy, Debug, PartialEq, Eq)]
pub enum InvariantViolation {
    /// The state account is owned by neither the program nor the system
    /// program; the owner found is given.
    StateOwnerChanged(Key),
}

/// Whether an owner of the state account is one the harness allows: the
/// program under test, or the system program (not yet initialized).
pub open spec fn owner_allowed(owner: Seq<u8>, program: Seq<u8>) -> bool {
    owner == program || owner == system_program_bytes()
}

/// Checks the invariants that must hold after every transaction, given the
/// owner of the state account (`None` where the account does not exist):
/// program-owned state must stay owned by the program or by the system
/// program.
pub fn check_invariants(state_owner: Option<Key>, program_id: &Key) -> (res: Result<(), InvariantViolation>)
    ensures
        match state_owner {
            Some(owner) => if owner_allowed(owner@, program_id@) {
                res is Ok
            } else {
                res == Err::<(), InvariantViolation>(InvariantViolation::StateOwnerChanged(owner))
            },
            None => res is Ok,
        },
        state_owner is None ==> res is Ok,
        state_owner matches Some(o) ==> (res is Ok <==> (o@ == program_id@ || o@ == Seq::new(32, |_i: int| 0u8))),
        res matches Err(InvariantViolation::StateOwnerChanged(o)) ==> state_owner == Some(o),
{
    proof { law_owner_allowed(program_id@, program_id@); }
    match state_owner {
        Some(owner) => {
            let system = system_program();
            if owner.same_as(program_id) || owner.same_as(&system) {
                Ok(())
            } else {
                Err(InvariantViolation::StateOwnerChanged(owner))
            }
        },
        None => Ok(()),
    }
}

/// Whichever index the fuzzer draws, it stands for one of the three
/// instructions, and indices that differ by `IX_COUNT` stand for the same one.
pub proof fn lemma_index_wraps(program: Seq<u8>, input: FuzzInput, accounts: FuzzAccounts)
    requires
        input.instruction_index as int + IX_COUNT as int <= 255,
    ensures
        fuzz_ix(program, input, accounts) == initialize_ix(program, input, accounts)
            || fuzz_ix(program, input, accounts) == deposit_ix(program, input, accounts)
            || fuzz_ix(program, input, accounts) == withdraw_ix(program, input, accounts),
        fuzz_ix(program, FuzzInput { instruction_index: (input.instruction_index + IX_COUNT) as u8, ..input }, accounts)
            == fuzz_ix(program, input, accounts),
{
    let k = input.instruction_index as int;
    assert((k + 3) % 3 == k % 3);
}

/// Every instruction the harness builds calls the given program, passes the
/// state account writable and first, the payer writable and second, the system
/// program read-only and last, and carries sixteen data bytes.
pub proof fn lemma_instruction_shape(program: Seq<u8>, input: FuzzInput, accounts: FuzzAccounts)
    ensures
        fuzz_ix(program, input, accounts).program_id == program,
        fuzz_ix(program, input, accounts).accounts.len() == 3,
        fuzz_ix(program, input, accounts).accounts[0] == (accounts.state@, false, true),
        fuzz_ix(program, input, accounts).accounts[1].0 == accounts.payer@,
        fuzz_ix(program, input, accounts).accounts[1].2,
        fuzz_ix(program, input, accounts).accounts[2] == (system_program_bytes(), false, false),
        fuzz_ix(program, input, accounts).data.len() == 16,
{
}

/// The first eight data bytes tell which instruction was built: the three
/// discriminators differ pairwise.
pub proof fn lemma_discriminator_identifies(program: Seq<u8>, input: FuzzInput, accounts: FuzzAccounts)
    ensures
        ({
            let k = input.instruction_index as int % IX_COUNT as int;
            let tag = fuzz_ix(program, input, accounts).data.take(8);
            &&& (tag == initialize_discriminator() <==> k == 0)
            &&& (tag == deposit_discriminator() <==> k == 1)
            &&& (tag == withdraw_discriminator() <==> k == 2)
        }),
{
    let d = fuzz_ix(program, input, accounts).data;
    let k = input.instruction_index as int % IX_COUNT as int;
    if k == 0 {
        assert(d.take(8) =~= initialize_discriminator());
        assert(initialize_discriminator()[0] != deposit_discriminator()[0]);
        assert(initialize_discriminator()[0] != withdraw_discriminator()[0]);
    } else if k == 1 {
        assert(d.take(8) =~= deposit_discriminator());
        assert(deposit_discriminator()[0] != initialize_discriminator()[0]);
        assert(deposit_discriminator()[7] != withdraw_discriminator()[7]);
    } else {
        assert(d.take(8) =~= withdraw_discriminator());
        assert(withdraw_discriminator()[0] != initialize_discriminator()[0]);
        assert(withdraw_discriminator()[7] != deposit_discriminator()[7]);
    }
}

/// The amount an instruction carries can be read back from its data: bytes
/// 8 to 16 of `deposit` hold the first amount and those of `withdraw` the
/// second, in little-endian order; `initialize` carries its arguments there,
/// laid out in eight bytes.
pub proof fn lemma_payload_readback(program: Seq<u8>, input: FuzzInput, accounts: FuzzAccounts)
    ensures
        le_value(deposit_ix(program, input, accounts).data.subrange(8, 16)) == input.amounts[0],
        le_value(withdraw_ix(program, input, accounts).data.subrange(8, 16)) == input.amounts[1],
        initialize_ix(program, input, accounts).data.subrange(8, 16) == padded(input.args@, 8),
{
    assert(deposit_ix(program, input, accounts).data.subrange(8, 16) =~= le_bytes(input.amounts[0]));
    assert(withdraw_ix(program, input, accounts).data.subrange(8, 16) =~= le_bytes(input.amounts[1]));
    assert(initialize_ix(program, input, accounts).data.subrange(8, 16) =~= padded(input.args@, 8));
    lemma_le_roundtrip(input.amounts[0]);
    lemma_le_roundtrip(input.amounts[1]);
}

/// The `initialize` instruction calls the given program with the state
/// account (writable, not signing), the payer (writable, signing exactly when
/// the input asks for a signer) and the all-zero system program address
/// (read-only, not signing); its data is the `initialize` tag followed by the
/// first eight argument bytes, zero where the arguments run out.
pub proof fn law_initialize_layout(program: Seq<u8>, input: FuzzInput, accounts: FuzzAccounts)
    ensures
        ({
            let ix = initialize_ix(program, input, accounts);
            &&& ix.program_id == program
            &&& ix.accounts == seq![
                (accounts.state@, false, true),
                (accounts.payer@, input.provide_signer, true),
                (Seq::new(32, |_i: int| 0u8), false, false),
            ]
            &&& ix.accounts[1].1 == input.provide_signer
            &&& ix.data.len() == 16
            &&& ix.data.take(8) == seq![0xafu8, 0xafu8, 0x6du8, 0x1fu8, 0x0du8, 0x98u8, 0x9bu8, 0xedu8]
            &&& forall|i: int| 0 <= i < 8 ==> #[trigger] ix.data.subrange(8, 16)[i] == (if i < input.args@.len() { input.args@[i] } else { 0u8 })
        }),
{
    let ix = initialize_ix(program, input, accounts);
    assert(system_program_bytes() =~= Seq::new(32, |_i: int| 0u8));
    assert(ix.data.take(8) =~= seq![0xafu8, 0xafu8, 0x6du8, 0x1fu8, 0x0du8, 0x98u8, 0x9bu8, 0xedu8]);
}

/// Two inputs that agree on their arguments and on whether to sign give the
/// same `initialize` instruction: the index, the program-id flag and the
/// amounts play no part in it.
pub proof fn law_initialize_reads_args_and_signer_only(program: Seq<u8>, a: FuzzInput, b: FuzzInput, accounts: FuzzAccounts)
    requires
        a.args@ == b.args@,
        a.provide_signer == b.provide_signer,
    ensures
        initialize_ix(program, a, accounts) == initialize_ix(program, b, accounts),
{
    law_initialize_layout(program, a, accounts);
    law_initialize_layout(program, b, accounts);
    let x = initialize_ix(program, a, accounts);
    let y = initialize_ix(program, b, accounts);
    assert(x.data =~= y.data) by {
        assert(x.data.take(8) == y.data.take(8));
        assert forall|i: int| 0 <= i < 16 implies x.data[i] == y.data[i] by {
            if i < 8 {
                assert(x.data[i] == x.data.take(8)[i]);
                assert(y.data[i] == y.data.take(8)[i]);
            } else {
                assert(x.data.subrange(8, 16)[i - 8] == y.data.subrange(8, 16)[i - 8]);
            }
        }
    }
}

/// The `deposit` instruction calls the given program with the state account
/// (writable, not signing), the payer (writable and always signing, whatever
/// the input's flags) and the all-zero system program address (read-only);
/// its data is the `deposit` tag followed by the first amount, least
/// significant byte first, which reads back as that amount.
pub proof fn law_deposit_layout(program: Seq<u8>, input: FuzzInput, accounts: FuzzAccounts)
    ensures
        ({
            let ix = deposit_ix(program, input, accounts);
            &&& ix.program_id == program
            &&& ix.accounts == seq![
                (accounts.state@, false, true),
                (accounts.payer@, true, true),
                (Seq::new(32, |_i: int| 0u8), false, false),
            ]
            &&& ix.accounts[1] == (accounts.payer@, true, true)
            &&& ix.data.len() == 16
            &&& ix.data.take(8) == seq![0u8, 0u8, 0u8, 0u8, 0u8, 0u8, 0u8, 2u8]
            &&& forall|i: int| 0 <= i < 8 ==> #[trigger] ix.data.subrange(8, 16)[i] == ((input.amounts[0] >> ((8 * i) as u64)) & 0xff) as u8
            &&& le_value(ix.data.subrange(8, 16)) == input.amounts[0]
        }),
{
    let ix = deposit_ix(program, input, accounts);
    assert(system_program_bytes() =~= Seq::new(32, |_i: int| 0u8));
    assert(ix.data.take(8) =~= seq![0u8, 0u8, 0u8, 0u8, 0u8, 0u8, 0u8, 2u8]);
    assert(ix.data.subrange(8, 16) =~= le_bytes(input.amounts[0]));
    lemma_le_roundtrip(input.amounts[0]);
}

/// The `withdraw` instruction calls the given program with the state account
/// (writable, not signing), the payer (writable and always signing, whatever
/// the input's flags) and the all-zero system program address (read-only);
/// its data is the `withdraw` tag followed by the second amount, least
/// significant byte first, which reads back as that amount.
pub proof fn law_withdraw_layout(program: Seq<u8>, input: FuzzInput, accounts: FuzzAccounts)
    ensures
        ({
            let ix = withdraw_ix(program, input, accounts);
            &&& ix.program_id == program
            &&& ix.accounts == seq![
                (accounts.state@, false, true),
                (accounts.payer@, true, true),
                (Seq::new(32, |_i: int| 0u8), false, false),
            ]
            &&& ix.accounts[1] == (accounts.payer@, true, true)
            &&& ix.data.len() == 16
            &&& ix.data.take(8) == seq![0u8, 0u8, 0u8, 0u8, 0u8, 0u8, 0u8, 3u8]
            &&& forall|i: int| 0 <= i < 8 ==> #[trigger] ix.data.subrange(8, 16)[i] == ((input.amounts[1] >> ((8 * i) as u64)) & 0xff) as u8
            &&& le_value(ix.data.subrange(8, 16)) == input.amounts[1]
        }),
{
    let ix = withdraw_ix(program, input, accounts);
    assert(system_program_bytes() =~= Seq::new(32, |_i: int| 0u8));
    assert(ix.data.take(8) =~= seq![0u8, 0u8, 0u8, 0u8, 0u8, 0u8, 0u8, 3u8]);
    assert(ix.data.subrange(8, 16) =~= le_bytes(input.amounts[1]));
    lemma_le_roundtrip(input.amounts[1]);
}

/// Two inputs with the same first amount give the same `deposit`
/// instruction, and two with the same second amount the same `withdraw`
/// instruction: neither depends on the signer flag, the program-id flag,
/// the arguments or the index.
pub proof fn law_transfers_read_their_amount_only(program: Seq<u8>, a: FuzzInput, b: FuzzInput, accounts: FuzzAccounts)
    ensures
        a.amounts[0] == b.amounts[0] ==> deposit_ix(program, a, accounts) == deposit_ix(program, b, accounts),
        a.amounts[1] == b.amounts[1] ==> withdraw_ix(program, a, accounts) == withdraw_ix(program, b, accounts),
{
    if a.amounts[0] == b.amounts[0] {
        assert(deposit_ix(program, a, accounts).data =~= deposit_ix(program, b, accounts).data);
    }
    if a.amounts[1] == b.amounts[1] {
        assert(withdraw_ix(program, a, accounts).data =~= withdraw_ix(program, b, accounts).data);
    }
}

/// An owner of the state account is allowed exactly when it is the program
/// under test itself or the all-zero system program address; in particular
/// the program always owns its state legitimately.
pub proof fn law_owner_allowed(owner: Seq<u8>, program: Seq<u8>)
    ensures
        owner_allowed(program, program),
        owner_allowed(owner, program) <==> (owner == program || owner == Seq::new(32, |_i: int| 0u8)),
{
    assert(system_program_bytes() =~= Seq::new(32, |_i: int| 0u8));
}

/// The index picks the instruction by its remainder modulo three: zero
/// builds `initialize`, one builds `deposit`, two builds `withdraw`.
pub proof fn law_index_selects_instruction(program: Seq<u8>, input: FuzzInput, accounts: FuzzAccounts)
    ensures
        input.instruction_index % 3 == 0 ==> fuzz_ix(program, input, accounts) == initialize_ix(program, input, accounts),
        input.instruction_index % 3 == 1 ==> fuzz_ix(program, input, accounts) == deposit_ix(program, input, accounts),
        input.instruction_index % 3 == 2 ==> fuzz_ix(program, input, accounts) == withdraw_ix(program, input, accounts),
        fuzz_ix(program, input, accounts).data.take(8) == (if input.instruction_index % 3 == 0 {
            seq![0xafu8, 0xafu8, 0x6du8, 0x1fu8, 0x0du8, 0x98u8, 0x9bu8, 0xedu8]
        } else if input.instruction_index % 3 == 1 {
            seq![0u8, 0u8, 0u8, 0u8, 0u8, 0u8, 0u8, 2u8]
        } else {
            seq![0u8, 0u8, 0u8, 0u8, 0u8, 0u8, 0u8, 3u8]
        }),
{
    law_initialize_layout(program, input, accounts);
    law_deposit_layout(program, input, accounts);
    law_withdraw_layout(program, input, accounts);
}

} // verus!
