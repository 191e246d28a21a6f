//! Deterministic storage addresses.
//!
//! Every record lives at an address computed from a namespace tag and the
//! keys that identify it, so a second record for the same keys would have to
//! be allocated at an address that is already taken.

use crate::pubkey::Pubkey;
use vstd::prelude::*;
use vstd::string::StringSliceAdditionalSpecFns;
use vstd::string::StrSliceExecFns;

verus! {

/// The key of the program that owns the platform's records.
pub fn id() -> (key: Pubkey)
    ensures
        key@ == program_key(),
{
    let key = Pubkey {
        bytes: [
            164u8, 37u8, 65u8, 117u8, 67u8, 73u8, 48u8, 225u8, 184u8, 126u8, 16u8, 89u8, 144u8,
            79u8, 30u8, 176u8, 93u8, 99u8, 121u8, 62u8, 181u8, 29u8, 169u8, 1u8, 121u8, 172u8,
            8u8, 47u8, 221u8, 41u8, 129u8, 66u8,
        ],
    };
    assert(key@ =~= program_key());
    key
}

/// The bytes of the program's key.
pub open spec fn program_key() -> Seq<u8> {
    seq![
        164u8, 37u8, 65u8, 117u8, 67u8, 73u8, 48u8, 225u8, 184u8, 126u8, 16u8, 89u8, 144u8, 79u8,
        30u8, 176u8, 93u8, 99u8, 121u8, 62u8, 181u8, 29u8, 169u8, 1u8, 121u8, 172u8, 8u8, 47u8,
        221u8, 41u8, 129u8, 66u8,
    ]
}

/// The address and bump seed that the Solana program library derives for a
/// list of seeds under a program, or `None` where it derives none.
pub uninterp spec fn program_address(seeds: Seq<Seq<u8>>, program_id: Seq<u8>) -> Option<
    (Seq<u8>, u8),
>;

/// A derived address and its bump seed, by their plain values.
pub open spec fn derived(found: Option<(Pubkey, u8)>) -> Option<(Seq<u8>, u8)> {
    match found {
        Some(pair) => Some((pair.0@, pair.1)),
        None => None,
    }
}

/// The same seeds under the same program give the same address and the same
/// bump seed: two derivations with equal plain values are equal.
pub proof fn lemma_same_seeds_same_address(
    first: Option<(Pubkey, u8)>,
    second: Option<(Pubkey, u8)>,
)
    requires
        derived(first) == derived(second),
    ensures
        first == second,
{
    match (first, second) {
        (Some(a), Some(b)) => {
            let (key_a, _) = a;
            let (key_b, _) = b;
            Pubkey::lemma_same_bytes_same_key(key_a, key_b);
        },
        _ => {},
    }
}

/// The seeds of a derivation, each by its bytes.
pub open spec fn seed_bytes(seeds: Seq<Vec<u8>>) -> Seq<Seq<u8>> {
    Seq::new(seeds.len(), |i: int| seeds[i]@)
}

/// The tag of the platform vault: the bytes of `vault`.
pub open spec fn vault_tag() -> Seq<u8> {
    seq![118u8, 97u8, 117u8, 108u8, 116u8]
}

/// The tag of a market: the bytes of `market`.
pub open spec fn market_tag() -> Seq<u8> {
    seq![109u8, 97u8, 114u8, 107u8, 101u8, 116u8]
}

/// The tag of a market's escrow: the bytes of `escrow`.
pub open spec fn escrow_tag() -> Seq<u8> {
    seq![101u8, 115u8, 99u8, 114u8, 111u8, 119u8]
}

/// The tag of a vote record: the bytes of `vote`.
pub open spec fn vote_tag() -> Seq<u8> {
    seq![118u8, 111u8, 116u8, 101u8]
}

/// Calls `try_find_program_address` of `anchor_lang::prelude::Pubkey`, the
/// key type of the Solana program library, on the seeds and the program's
/// key.
///
/// Trusted: the result is a function of the seeds and the program alone, and
/// is the one that `program_address` names. Nothing is claimed about which
/// address comes out, nor that one is found.
#[verifier::external_body]
fn try_find_program_address(seeds: &Vec<Vec<u8>>, program_id: &Pubkey) -> (found: Option<
    (Pubkey, u8),
>)
    ensures
        derived(found) == program_address(seed_bytes(seeds@), program_id@),
{
    let parts: Vec<&[u8]> = seeds.iter().map(|seed| seed.as_slice()).collect();
    let program = anchor_lang::prelude::Pubkey::new_from_array(program_id.bytes);
    anchor_lang::prelude::Pubkey::try_find_program_address(&parts, &program).map(
        |(address, bump)| (Pubkey { bytes: address.to_bytes() }, bump),
    )
}

/// The address of the platform vault, derived from its tag alone.
pub fn vault_address(program_id: &Pubkey) -> (found: Option<(Pubkey, u8)>)
    ensures
        derived(found) == program_address(seq![vault_tag()], program_id@),
{
    let tag: Vec<u8> = vec![118u8, 97u8, 117u8, 108u8, 116u8];
    assert(tag@ =~= vault_tag());
    let mut seeds: Vec<Vec<u8>> = Vec::new();
    seeds.push(tag);
    assert(seed_bytes(seeds@) =~= seq![vault_tag()]);
    try_find_program_address(&seeds, program_id)
}

/// The address of a market, derived from its tag and the market's identifier.
pub fn market_address(program_id: &Pubkey, market_id: &str) -> (found: Option<(Pubkey, u8)>)
    ensures
        derived(found) == program_address(
            seq![market_tag(), market_id.spec_bytes()],
            program_id@,
        ),
{
    let tag: Vec<u8> = vec![109u8, 97u8, 114u8, 107u8, 101u8, 116u8];
    assert(tag@ =~= market_tag());
    let mut seeds: Vec<Vec<u8>> = Vec::new();
    seeds.push(tag);
    seeds.push(market_id.as_bytes_vec());
    assert(seed_bytes(seeds@) =~= seq![market_tag(), market_id.spec_bytes()]);
    try_find_program_address(&seeds, program_id)
}

/// The address of a market's escrow, derived from its tag and the market's
/// address.
pub fn escrow_address(program_id: &Pubkey, market: &Pubkey) -> (found: Option<(Pubkey, u8)>)
    ensures
        derived(found) == program_address(seq![escrow_tag(), market@], program_id@),
{
    let tag: Vec<u8> = vec![101u8, 115u8, 99u8, 114u8, 111u8, 119u8];
    assert(tag@ =~= escrow_tag());
    let mut seeds: Vec<Vec<u8>> = Vec::new();
    seeds.push(tag);
    seeds.push(market.to_vec());
    assert(seed_bytes(seeds@) =~= seq![escrow_tag(), market@]);
    try_find_program_address(&seeds, program_id)
}

/// The address of a vote record, derived from its tag, the market's address
/// and the voter's identity.
pub fn vote_address(program_id: &Pubkey, market: &Pubkey, voter: &Pubkey) -> (found: Option<
    (Pubkey, u8),
>)
    ensures
        derived(found) == program_address(seq![vote_tag(), market@, voter@], program_id@),
{
    let tag: Vec<u8> = vec![118u8, 111u8, 116u8, 101u8];
    assert(tag@ =~= vote_tag());
    let mut seeds: Vec<Vec<u8>> = Vec::new();
    seeds.push(tag);
    seeds.push(market.to_vec());
    seeds.push(voter.to_vec());
    assert(seed_bytes(seeds@) =~= seq![vote_tag(), market@, voter@]);
    try_find_program_address(&seeds, program_id)
}

/// The addresses that one vote touches, each with its bump seed: the market,
/// the market's escrow, and the voter's receipt for the market.
#[derive(Clone, Copy, Debug, PartialEq, Eq)]
pub struct VoteAddresses {
    pub market: Pubkey,
    pub market_bump: u8,
    pub market_escrow: Pubkey,
    pub escrow_bump: u8,
    pub vote_account: Pubkey,
    pub vote_bump: u8,
}

impl VoteAddresses {
    /// Whether these are the addresses of a vote by `voter` on the market
    /// with the identifier `market_id`: the market's address is derived from
    /// the identifier, and the escrow's and the receipt's from the market's
    /// address.
    pub open spec fn derived_for(
        self,
        program_id: Seq<u8>,
        market_id: Seq<u8>,
        voter: Seq<u8>,
    ) -> bool {
        &&& program_address(seq![market_tag(), market_id], program_id) == Some(
            (self.market@, self.market_bump),
        )
        &&& program_address(seq![escrow_tag(), self.market@], program_id) == Some(
            (self.market_escrow@, self.escrow_bump),
        )
        &&& program_address(seq![vote_tag(), self.market@, voter], program_id) == Some(
            (self.vote_account@, self.vote_bump),
        )
    }
}

/// Whether every address of a vote by `voter` on the market with the
/// identifier `market_id` can be derived.
pub open spec fn vote_is_addressable(
    program_id: Seq<u8>,
    market_id: Seq<u8>,
    voter: Seq<u8>,
) -> bool {
    match program_address(seq![market_tag(), market_id], program_id) {
        Some(market) => {
            &&& program_address(seq![escrow_tag(), market.0], program_id) is Some
            &&& program_address(seq![vote_tag(), market.0, voter], program_id) is Some
        },
        None => false,
    }
}

/// The addresses that a vote by `voter` on the market with the identifier
/// `market_id` touches, or `None` where one of them cannot be derived.
pub fn vote_addresses(program_id: &Pubkey, market_id: &str, voter: &Pubkey) -> (found: Option<
    VoteAddresses,
>)
    ensures
        found is Some <==> vote_is_addressable(program_id@, market_id.spec_bytes(), voter@),
        found matches Some(addresses) ==> addresses.derived_for(
            program_id@,
            market_id.spec_bytes(),
            voter@,
        ),
{
    let (market, market_bump) = match market_address(program_id, market_id) {
        Some(pair) => pair,
        None => {
            return None;
        },
    };
    let (market_escrow, escrow_bump) = match escrow_address(program_id, &market) {
        Some(pair) => pair,
        None => {
            return None;
        },
    };
    let (vote_account, vote_bump) = match vote_address(program_id, &market, voter) {
        Some(pair) => pair,
        None => {
            return None;
        },
    };
    Some(VoteAddresses { market, market_bump, market_escrow, escrow_bump, vote_account, vote_bump })
}

} // verus!
