//! Account addresses: the 32-byte keys that instructions name, and the
//! outside computations (base58 decoding, program-derived addresses) that
//! produce them.
use vstd::prelude::*;
use solana_sdk::pubkey::Pubkey;

verus! {

/// A 32-byte account address, held as its raw bytes.
#[derive(Clone, Copy, Debug, PartialEq, Eq)]
pub struct Key {
    pub bytes: [u8; 32],
}

impl View for Key {
    type V = Seq<u8>;

    open spec fn view(&self) -> Seq<u8> {
        self.bytes@
    }
}

/// The address of the system program: thirty-two zero bytes.
pub open spec fn system_program_bytes() -> Seq<u8> {
    Seq::new(32, |_i: int| 0u8)
}

/// What decoding the base58 text `text` into a 32-byte address gives:
/// the address bytes, or `None` where the text is not the base58 form of
/// exactly 32 bytes.
pub uninterp spec fn base58_address(text: Seq<char>) -> Option<Seq<u8>>;

/// The program-derived address and bump seed for `seeds` under `program`,
/// or `None` where no bump seed gives an address off the ed25519 curve or
/// the seeds are out of bounds.
pub uninterp spec fn derived_address(seeds: Seq<Seq<u8>>, program: Seq<u8>) -> Option<(Seq<u8>, u8)>;

/// Decodes base58 text with `Pubkey::from_str` from solana-sdk.
/// Trusted: the result is the named decoding of the text; a decoded
/// address is the 32 bytes of the parsed `Pubkey`. The decoding itself
/// (base58 via `five8::decode_32`) is not stated.
#[verifier::external_body]
fn decode_base58_address(text: &str) -> (res: Option<Key>)
    ensures
        match res {
            Some(k) => base58_address(text@) == Some(k@),
            None => base58_address(text@) is None,
        },
{
    match text.parse::<Pubkey>() {
        Ok(p) => Some(Key { bytes: p.to_bytes() }),
        Err(_) => None,
    }
}

/// The system program id from solana-sdk-ids (`system_program::id()`).
/// Trusted: the id is declared there as the base58 text of 32 ones, which
/// is the all-zero address.
#[verifier::external_body]
fn system_program_id() -> (res: Key)
    ensures
        res@ == system_program_bytes(),
{
    Key { bytes: solana_sdk_ids::system_program::id().to_bytes() }
}

/// `Pubkey::try_find_program_address` from solana-sdk.
/// Trusted: the result is the named derivation of the seeds and program id;
/// as its source shows, it gives `None` when there are 16 seeds or more, or
/// when a seed is longer than 32 bytes. The SHA-256 hashing and the curve
/// test inside the search are not stated.
#[verifier::external_body]
fn find_program_address(seeds: &Vec<Vec<u8>>, program: &Key) -> (res: Option<(Key, u8)>)
    ensures
        match res {
            Some((k, bump)) => derived_address(seeds.deep_view(), program@) == Some((k@, bump)),
            None => derived_address(seeds.deep_view(), program@) is None,
        },
        seeds@.len() >= 16 ==> res is None,
        (exists|i: int| 0 <= i < seeds@.len() && #[trigger] seeds@[i]@.len() > 32) ==> res is None,
{
    let slices: Vec<&[u8]> = seeds.iter().map(|s| s.as_slice()).collect();
    let pid = Pubkey::new_from_array(program.bytes);
    match Pubkey::try_find_program_address(&slices, &pid) {
        Some((p, bump)) => Some((Key { bytes: p.to_bytes() }, bump)),
        None => None,
    }
}

/// The address that `derived_address` gives, without its bump seed.
pub open spec fn derived_key(seeds: Seq<Seq<u8>>, program: Seq<u8>) -> Option<Seq<u8>> {
    match derived_address(seeds, program) {
        Some((k, _bump)) => Some(k),
        None => None,
    }
}

impl Key {
    /// Whether two keys hold the same bytes.
    pub fn same_as(&self, other: &Key) -> (res: bool)
        ensures
            res == (self@ == other@),
    {
        let mut i: usize = 0;
        while i < 32
            invariant
                i <= 32,
                self@.len() == 32,
                other@.len() == 32,
                forall|j: int| 0 <= j < i ==> self@[j] == other@[j],
            decreases 32 - i,
        {
            if self.bytes[i] != other.bytes[i] {
                return false;
            }
            i = i + 1;
        }
        assert(self@ =~= other@);
        true
    }

    /// The key's bytes in a fresh vector.
    pub fn to_vec(&self) -> (res: Vec<u8>)
        ensures
            res@ == self@,
    {
        let mut out: Vec<u8> = Vec::new();
        let mut i: usize = 0;
        while i < 32
            invariant
                i <= 32,
                self@.len() == 32,
                out@ == self@.take(i as int),
            decreases 32 - i,
        {
            out.push(self.bytes[i]);
            i = i + 1;
        }
        assert(out@ =~= self@);
        out
    }
}

/// The address of the system program.
pub fn system_program() -> (res: Key)
    ensures
        res@ == system_program_bytes(),
{
    system_program_id()
}

/// The program id under audit, decoded from its base58 text; `None` where
/// that text does not decode to an address.
pub fn program_id() -> (res: Option<Key>)
    ensures
        match res {
            Some(k) => base58_address("11111111111111111111111111111111"@) == Some(k@),
            None => base58_address("11111111111111111111111111111111"@) is None,
        },
{
    decode_base58_address("11111111111111111111111111111111")
}

/// Derives the program address for `seeds` under `program`, dropping the
/// bump seed; `None` where no address can be derived.
pub fn derive_address(seeds: &Vec<Vec<u8>>, program: &Key) -> (res: Option<Key>)
    ensures
        match res {
            Some(k) => derived_key(seeds.deep_view(), program@) == Some(k@),
            None => derived_key(seeds.deep_view(), program@) is None,
        },
        match derived_address(seeds.deep_view(), program@) {
            Some((k, _bump)) => res matches Some(r) && r@ == k,
            None => res is None,
        },
        seeds@.len() >= 16 ==> res is None,
{
    proof { law_derived_key_is_found_address(seeds.deep_view(), program@); }
    match find_program_address(seeds, program) {
        Some((k, _bump)) => Some(k),
        None => None,
    }
}

/// The address derived for some seeds under a program is the address that
/// the program-address search finds for those very seeds and that very
/// program, with only the bump seed dropped: it exists exactly when the
/// search succeeds, and nothing is done to the program bytes first.
pub proof fn law_derived_key_is_found_address(seeds: Seq<Seq<u8>>, program: Seq<u8>)
    ensures
        derived_key(seeds, program) is Some <==> derived_address(seeds, program) is Some,
        forall|k: Seq<u8>, bump: u8| derived_address(seeds, program) == Some((k, bump))
            ==> derived_key(seeds, program) == Some(k),
{
}

} // verus!
