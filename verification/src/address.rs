//! Account addresses, and the addresses that programs derive for the accounts they own.

use vstd::prelude::*;

verus! {

/// The address of an account: 32 bytes. Its view is the sequence of those bytes.
#[derive(Clone, Copy, Debug, PartialEq, Eq)]
pub struct Address {
    pub bytes: [u8; 32],
}

impl View for Address {
    type V = Seq<u8>;

    open spec fn view(&self) -> Seq<u8> {
        self.bytes@
    }
}

/// The token program.
pub const TOKEN_PROGRAM_ID: [u8; 32] = [
    6, 221, 246, 225, 215, 101, 161, 147, 217, 203, 225, 70, 206, 235, 121, 172,
    28, 180, 133, 237, 95, 91, 55, 145, 58, 140, 245, 133, 126, 255, 0, 169,
];

/// The associated-token-account program.
pub const ASSOCIATED_TOKEN_PROGRAM_ID: [u8; 32] = [
    140, 151, 37, 143, 78, 36, 137, 241, 187, 61, 16, 41, 20, 142, 13, 131,
    11, 90, 19, 153, 218, 255, 16, 132, 4, 142, 123, 216, 219, 233, 248, 89,
];

/// The token-metadata program.
pub const TOKEN_METADATA_PROGRAM_ID: [u8; 32] = [
    11, 112, 101, 177, 227, 209, 124, 69, 56, 157, 82, 127, 107, 4, 195, 205,
    88, 184, 108, 115, 26, 160, 253, 181, 73, 182, 209, 188, 3, 248, 41, 70,
];

/// The seed that marks a metadata account: the ASCII bytes of `metadata`.
pub const METADATA_SEED: [u8; 8] = [109, 101, 116, 97, 100, 97, 116, 97];

/// Every byte of `bytes` is zero.
pub open spec fn all_zero(bytes: Seq<u8>) -> bool {
    forall|i: int| 0 <= i < bytes.len() ==> bytes[i] == 0
}

/// The address that the program `program_id` owns for `seeds`, where the search over bump
/// seeds finds one.
pub uninterp spec fn program_address(seeds: Seq<Seq<u8>>, program_id: Seq<u8>) -> Option<Seq<u8>>;

/// Calls `Pubkey::try_find_program_address` of `solana-pubkey`, as `anchor-lang` re-exports
/// it, and keeps the address of the pair it returns. The search hashes the seeds, a bump seed
/// and the program id, and takes the first bump seed, from 255 down, whose hash is not a point
/// of the ed25519 curve. Nothing is proved of it here: the contract only names its result,
/// which depends on the seeds and the program id alone. A search that finds nothing, or that is
/// handed more seeds or longer seeds than the SDK admits, returns `None`.
#[verifier::external_body]
pub(crate) fn find_program_address(seeds: &Vec<Vec<u8>>, program_id: &Address) -> (found: Option<
    Address,
>)
    ensures
        match found {
            Some(address) => program_address(seeds.deep_view(), program_id@) == Some(address@),
            None => program_address(seeds.deep_view(), program_id@) is None,
        },
{
    let slices: Vec<&[u8]> = seeds.iter().map(|seed| seed.as_slice()).collect();
    let program = anchor_lang::prelude::Pubkey::new_from_array(program_id.bytes);
    match anchor_lang::prelude::Pubkey::try_find_program_address(&slices, &program) {
        Some((key, _)) => Some(Address { bytes: key.to_bytes() }),
        None => None,
    }
}

impl Address {
    /// The address made of `bytes`.
    pub fn new(bytes: [u8; 32]) -> (address: Address)
        ensures
            address.bytes == bytes,
    {
        Address { bytes }
    }

    /// Whether two addresses are the same, byte for byte.
    pub fn same(&self, other: &Address) -> (equal: bool)
        ensures
            equal <==> *self == *other,
            equal <==> self@ == other@,
    {
        let mut i: usize = 0;
        while i < 32
            invariant
                0 <= i <= 32,
                forall|j: int| 0 <= j < i ==> self.bytes[j] == other.bytes[j],
            decreases 32 - i,
        {
            if self.bytes[i] != other.bytes[i] {
                return false;
            }
            i = i + 1;
        }
        assert(self.bytes =~= other.bytes);
        true
    }

    /// Whether this is the all-zero address, which no account has.
    pub fn is_default(&self) -> (zero: bool)
        ensures
            zero <==> all_zero(self@),
    {
        let mut i: usize = 0;
        while i < 32
            invariant
                0 <= i <= 32,
                forall|j: int| 0 <= j < i ==> self@[j] == 0,
            decreases 32 - i,
        {
            if self.bytes[i] != 0 {
                return false;
            }
            i = i + 1;
        }
        true
    }

    /// The bytes of the address, in a vector.
    pub fn to_vec(&self) -> (bytes: Vec<u8>)
        ensures
            bytes@ == self@,
    {
        array_to_vec(&self.bytes)
    }
}

/// The bytes of an array, in a vector.
pub fn array_to_vec<const N: usize>(array: &[u8; N]) -> (bytes: Vec<u8>)
    ensures
        bytes@ == array@,
{
    let mut bytes: Vec<u8> = Vec::new();
    let mut i: usize = 0;
    while i < N
        invariant
            0 <= i <= N,
            bytes@.len() == i,
            forall|j: int| 0 <= j < i ==> bytes@[j] == array@[j],
        decreases N - i,
    {
        bytes.push(array[i]);
        i = i + 1;
    }
    bytes
}

/// The bytes of an address that may be missing.
pub open spec fn view_of(address: Option<Address>) -> Option<Seq<u8>> {
    match address {
        Some(address) => Some(address@),
        None => None,
    }
}

/// The seeds of the token account that `wallet` holds for `mint`: the wallet, the token
/// program and the mint.
pub open spec fn associated_token_seeds(wallet: Seq<u8>, mint: Seq<u8>) -> Seq<Seq<u8>> {
    seq![wallet, TOKEN_PROGRAM_ID@, mint]
}

/// The address of the token account that `wallet` holds for `mint`: the one that the
/// associated-token-account program owns for their seeds.
pub open spec fn associated_token_address(wallet: Seq<u8>, mint: Seq<u8>) -> Option<Seq<u8>> {
    program_address(associated_token_seeds(wallet, mint), ASSOCIATED_TOKEN_PROGRAM_ID@)
}

/// Derives the address of the token account that `wallet` holds for `mint`, or `None` where
/// the search finds no address for their seeds.
pub fn get_associated_token_address(wallet: &Address, mint: &Address) -> (found: Option<Address>)
    ensures
        view_of(found) == associated_token_address(wallet@, mint@),
{
    let mut seeds: Vec<Vec<u8>> = Vec::new();
    seeds.push(wallet.to_vec());
    seeds.push(array_to_vec(&TOKEN_PROGRAM_ID));
    seeds.push(mint.to_vec());
    assert(seeds.deep_view() =~~= associated_token_seeds(wallet@, mint@));
    find_program_address(&seeds, &Address::new(ASSOCIATED_TOKEN_PROGRAM_ID))
}

/// The seeds of the metadata account of `mint`: the metadata seed, the token-metadata program
/// and the mint.
pub open spec fn metadata_seeds(mint: Seq<u8>) -> Seq<Seq<u8>> {
    seq![METADATA_SEED@, TOKEN_METADATA_PROGRAM_ID@, mint]
}

/// The address of the metadata account of `mint`: the one that the token-metadata program owns
/// for its seeds.
pub open spec fn metadata_address(mint: Seq<u8>) -> Option<Seq<u8>> {
    program_address(metadata_seeds(mint), TOKEN_METADATA_PROGRAM_ID@)
}

/// Derives the address of the metadata account of `mint`, or `None` where the search finds
/// no address for its seeds.
pub fn find_metadata_address(mint: &Address) -> (found: Option<Address>)
    ensures
        view_of(found) == metadata_address(mint@),
{
    let mut seeds: Vec<Vec<u8>> = Vec::new();
    seeds.push(array_to_vec(&METADATA_SEED));
    seeds.push(array_to_vec(&TOKEN_METADATA_PROGRAM_ID));
    seeds.push(mint.to_vec());
    assert(seeds.deep_view() =~~= metadata_seeds(mint@));
    find_program_address(&seeds, &Address::new(TOKEN_METADATA_PROGRAM_ID))
}

} // verus!
