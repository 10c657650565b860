//! Where accounts live: the derivation of program addresses, of a vault's own
//! address, and of the token account associated with a wallet and a mint.
use vstd::prelude::*;
use crate::pubkey::{key_bytes, Pubkey};

verus! {

/// The first seed of every vault address: the ASCII text `capkey-vault`.
pub const VAULT_SEED: [u8; 12] = [
    0x63, 0x61, 0x70, 0x6b, 0x65, 0x79, 0x2d, 0x76, 0x61, 0x75, 0x6c, 0x74,
];

/// The SPL token program, `TokenkegQfeZyiNwAJbNbGKPFXCWuBvf9Ss623VQ5DA`.
pub const TOKEN_PROGRAM_ID: [u8; 32] = [
    0x06, 0xdd, 0xf6, 0xe1, 0xd7, 0x65, 0xa1, 0x93,
    0xd9, 0xcb, 0xe1, 0x46, 0xce, 0xeb, 0x79, 0xac,
    0x1c, 0xb4, 0x85, 0xed, 0x5f, 0x5b, 0x37, 0x91,
    0x3a, 0x8c, 0xf5, 0x85, 0x7e, 0xff, 0x00, 0xa9,
];

/// The associated token account program,
/// `ATokenGPvbdGVxr1b2hvZbsiqW5xWH25efTNsLJA8knL`.
pub const ASSOCIATED_TOKEN_PROGRAM_ID: [u8; 32] = [
    0x8c, 0x97, 0x25, 0x8f, 0x4e, 0x24, 0x89, 0xf1,
    0xbb, 0x3d, 0x10, 0x29, 0x14, 0x8e, 0x0d, 0x83,
    0x0b, 0x5a, 0x13, 0x99, 0xda, 0xff, 0x10, 0x84,
    0x04, 0x8e, 0x7b, 0xd8, 0xdb, 0xe9, 0xf8, 0x59,
];

/// What `Pubkey::create_program_address` of the Solana SDK derives from a list
/// of seeds and a program id: the address, or `None` where it reports an error
/// (a seed or the list is too long, or the hash is a point of the curve).
pub uninterp spec fn program_address(seeds: Seq<Seq<u8>>, program_id: Seq<u8>) -> Option<Seq<u8>>;

/// The first bump, counting down from `bump` to one, that leads to an address when it
/// is appended to the seeds, and that address.
pub open spec fn first_address(
    seeds: Seq<Seq<u8>>,
    program_id: Seq<u8>,
    bump: nat,
) -> Option<(Seq<u8>, u8)>
    decreases bump,
{
    if bump == 0 {
        None
    } else {
        match program_address(seeds.push(seq![bump as u8]), program_id) {
            Some(address) => Some((address, bump as u8)),
            None => first_address(seeds, program_id, (bump - 1) as nat),
        }
    }
}

/// The address that a search for one finds, with its bump: the one of the highest bump
/// that leads to an address.
pub open spec fn found_program_address(seeds: Seq<Seq<u8>>, program_id: Seq<u8>) -> Option<
    (Seq<u8>, u8),
> {
    first_address(seeds, program_id, u8::MAX as nat)
}

/// The bytes of an address that was found together with its bump.
pub open spec fn found_bytes(found: Option<(Pubkey, u8)>) -> Option<(Seq<u8>, u8)> {
    match found {
        Some((key, bump)) => Some((key@, bump)),
        None => None,
    }
}

/// An address that is found is the one that its bump leads to, and no higher bump
/// leads to any.
pub proof fn lemma_first_address(seeds: Seq<Seq<u8>>, program_id: Seq<u8>, bump: nat)
    requires
        bump <= u8::MAX,
    ensures
        first_address(seeds, program_id, bump) matches Some((address, found)) ==> {
            &&& 0 < found <= bump
            &&& program_address(seeds.push(seq![found]), program_id) == Some(address)
            &&& forall|higher: u8|
                found < higher <= bump ==> #[trigger] program_address(
                    seeds.push(seq![higher]),
                    program_id,
                ) is None
        },
    decreases bump,
{
    if bump > 0 {
        lemma_first_address(seeds, program_id, (bump - 1) as nat);
    }
}

/// Calls `Pubkey::create_program_address`. Claimed of it: whether it succeeds,
/// and with which address, depends on the seeds and the program id alone, and
/// is what `program_address` names. Which error it reports is not kept.
#[verifier::external_body]
fn create_program_address(seeds: &[&[u8]], program_id: &Pubkey) -> (address: Option<Pubkey>)
    ensures
        key_bytes(address) == program_address(seeds.deep_view(), program_id@),
{
    let id = anchor_lang::prelude::Pubkey::new_from_array(program_id.bytes);
    match anchor_lang::prelude::Pubkey::create_program_address(seeds, &id) {
        Ok(key) => Some(Pubkey { bytes: key.to_bytes() }),
        Err(_) => None,
    }
}

/// Calls `Pubkey::try_find_program_address`. Claimed of it: it tries the bumps from
/// 255 down to 1 and returns the first address that `create_program_address` derives
/// from the seeds with the bump appended, and that bump; or `None` where no bump leads
/// to an address.
#[verifier::external_body]
fn try_find_program_address(seeds: &[&[u8]], program_id: &Pubkey) -> (found: Option<(Pubkey, u8)>)
    ensures
        found_bytes(found) == found_program_address(seeds.deep_view(), program_id@),
{
    let id = anchor_lang::prelude::Pubkey::new_from_array(program_id.bytes);
    match anchor_lang::prelude::Pubkey::try_find_program_address(seeds, &id) {
        Some((key, bump)) => Some((Pubkey { bytes: key.to_bytes() }, bump)),
        None => None,
    }
}

/// The seeds of a vault address without the bump: the fixed prefix, then the
/// owner, the agent and the mint that the vault is bound to.
pub open spec fn vault_seeds(owner: Pubkey, agent: Pubkey, token_mint: Pubkey) -> Seq<Seq<u8>> {
    seq![VAULT_SEED@, owner@, agent@, token_mint@]
}

/// The full list of seeds under which a vault signs for its tokens.
#[derive(Clone, Copy, Debug, PartialEq, Eq)]
pub struct VaultSeeds {
    pub owner: Pubkey,
    pub agent: Pubkey,
    pub token_mint: Pubkey,
    pub bump: [u8; 1],
}

impl VaultSeeds {
    /// The seeds as byte strings, the bump last.
    pub open spec fn seeds(self) -> Seq<Seq<u8>> {
        vault_seeds(self.owner, self.agent, self.token_mint).push(self.bump@)
    }

    /// The seeds in the form in which a signed invocation takes them.
    pub fn as_slices(&self) -> (slices: Vec<&[u8]>)
        ensures
            slices.deep_view() == self.seeds(),
    {
        let mut slices: Vec<&[u8]> = Vec::new();
        slices.push(VAULT_SEED.as_slice());
        slices.push(self.owner.bytes.as_slice());
        slices.push(self.agent.bytes.as_slice());
        slices.push(self.token_mint.bytes.as_slice());
        slices.push(self.bump.as_slice());
        assert(slices.deep_view() =~~= self.seeds());
        slices
    }

    /// The address of the program `program_id` that these seeds lead to, if they
    /// lead to one.
    pub fn address(&self, program_id: &Pubkey) -> (address: Option<Pubkey>)
        ensures
            key_bytes(address) == program_address(self.seeds(), program_id@),
    {
        let slices = self.as_slices();
        create_program_address(slices.as_slice(), program_id)
    }
}

/// Finds the address, and its bump, at which the program `program_id` keeps the
/// vault of `owner`, `agent` and `token_mint`.
pub fn find_vault_address(
    owner: &Pubkey,
    agent: &Pubkey,
    token_mint: &Pubkey,
    program_id: &Pubkey,
) -> (found: Option<(Pubkey, u8)>)
    ensures
        found_bytes(found) == found_program_address(
            vault_seeds(*owner, *agent, *token_mint),
            program_id@,
        ),
{
    let mut slices: Vec<&[u8]> = Vec::new();
    slices.push(VAULT_SEED.as_slice());
    slices.push(owner.bytes.as_slice());
    slices.push(agent.bytes.as_slice());
    slices.push(token_mint.bytes.as_slice());
    assert(slices.deep_view() =~~= vault_seeds(*owner, *agent, *token_mint));
    try_find_program_address(slices.as_slice(), program_id)
}

/// The address of the token account associated with `wallet` and `mint`: the
/// address that the associated token program finds for the wallet, the token
/// program and the mint, in this order.
pub open spec fn token_address(wallet: Pubkey, mint: Pubkey) -> Option<Seq<u8>> {
    match found_program_address(
        seq![wallet@, TOKEN_PROGRAM_ID@, mint@],
        ASSOCIATED_TOKEN_PROGRAM_ID@,
    ) {
        Some((address, _)) => Some(address),
        None => None,
    }
}

/// Derives the address of the token account associated with `wallet` and `mint`. The
/// function `get_associated_token_address` of the associated token program's crate
/// gives the same address, and panics where none is found.
pub fn associated_token_address(wallet: &Pubkey, mint: &Pubkey) -> (address: Option<Pubkey>)
    ensures
        key_bytes(address) == token_address(*wallet, *mint),
{
    let program_id = Pubkey { bytes: ASSOCIATED_TOKEN_PROGRAM_ID };
    let mut slices: Vec<&[u8]> = Vec::new();
    slices.push(wallet.bytes.as_slice());
    slices.push(TOKEN_PROGRAM_ID.as_slice());
    slices.push(mint.bytes.as_slice());
    assert(slices.deep_view() =~~= seq![wallet@, TOKEN_PROGRAM_ID@, mint@]);
    match try_find_program_address(slices.as_slice(), &program_id) {
        Some((address, _)) => Some(address),
        None => None,
    }
}

} // verus!
