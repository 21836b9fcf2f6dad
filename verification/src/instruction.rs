//! Instructions as plain values: the program they call, the accounts they
//! pass with each account's signer and writable flags, and their data bytes.
use vstd::prelude::*;
use crate::keys::Key;

verus! {

/// One account an instruction passes, with whether it must sign the
/// transaction and whether the program may write to it.
#[derive(Clone, Copy, Debug, PartialEq, Eq)]
pub struct AccountMeta {
    pub pubkey: Key,
    pub is_signer: bool,
    pub is_writable: bool,
}

/// An account as the contracts see it: its address bytes, then whether it
/// signs, then whether it is writable.
pub type MetaView = (Seq<u8>, bool, bool);

impl View for AccountMeta {
    type V = MetaView;

    open spec fn view(&self) -> MetaView {
        (self.pubkey@, self.is_signer, self.is_writable)
    }
}

impl AccountMeta {
    /// A writable account, signing or not as `is_signer` says.
    pub fn new(pubkey: Key, is_signer: bool) -> (res: AccountMeta)
        ensures
            res@ == (pubkey@, is_signer, true),
    {
        AccountMeta { pubkey, is_signer, is_writable: true }
    }

    /// A read-only account, signing or not as `is_signer` says.
    pub fn new_readonly(pubkey: Key, is_signer: bool) -> (res: AccountMeta)
        ensures
            res@ == (pubkey@, is_signer, false),
    {
        AccountMeta { pubkey, is_signer, is_writable: false }
    }
}

/// A call of `program_id` with the given accounts and data bytes.
#[derive(Debug, PartialEq, Eq)]
pub struct Instruction {
    pub program_id: Key,
    pub accounts: Vec<AccountMeta>,
    pub data: Vec<u8>,
}

/// An instruction as the contracts see it.
pub struct InstructionView {
    pub program_id: Seq<u8>,
    pub accounts: Seq<MetaView>,
    pub data: Seq<u8>,
}

impl View for Instruction {
    type V = InstructionView;

    open spec fn view(&self) -> InstructionView {
        InstructionView {
            program_id: self.program_id@,
            accounts: self.accounts@.map_values(|m: AccountMeta| m@),
            data: self.data@,
        }
    }
}

} // verus!
