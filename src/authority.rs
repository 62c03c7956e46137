use vstd::prelude::*;
use crate::key::Key;
use anchor_lang::prelude::Pubkey;

verus! {

/// Most seeds that one address may be derived from.
pub const MAX_SEEDS: usize = 16;

/// Longest seed, in bytes.
pub const MAX_SEED_LEN: usize = 32;

/// The address that a program may sign for without a private key: the digest of the seeds
/// and the program's address, or nothing when that digest is a valid public key.
pub uninterp spec fn program_address(seeds: Seq<Seq<u8>>, program_id: Seq<u8>) -> Option<Seq<u8>>;

/// The seeds held in a vector of byte vectors.
pub open spec fn seeds_view(seeds: Seq<Vec<u8>>) -> Seq<Seq<u8>> {
    seeds.map_values(|s: Vec<u8>| s@)
}

/// Whether the seeds are too many, or one of them too long, to derive an address from.
pub open spec fn seeds_too_long(seeds: Seq<Seq<u8>>) -> bool {
    seeds.len() > MAX_SEEDS || exists|i: int| 0 <= i < seeds.len() && seeds[i].len() > MAX_SEED_LEN
}

/// The eight bytes of `x`, least significant first.
pub open spec fn le_bytes(x: u64) -> Seq<u8> {
    seq![
        (x & 0xff) as u8,
        ((x >> 8u64) & 0xff) as u8,
        ((x >> 16u64) & 0xff) as u8,
        ((x >> 24u64) & 0xff) as u8,
        ((x >> 32u64) & 0xff) as u8,
        ((x >> 40u64) & 0xff) as u8,
        ((x >> 48u64) & 0xff) as u8,
        ((x >> 56u64) & 0xff) as u8,
    ]
}

/// The label that opens the seeds of an escrow record: the bytes of `state`.
pub open spec fn state_label() -> Seq<u8> {
    seq![115u8, 116u8, 97u8, 116u8, 101u8]
}

/// The label that opens the seeds of a custody holding: the bytes of `wallet`.
pub open spec fn wallet_label() -> Seq<u8> {
    seq![119u8, 97u8, 108u8, 108u8, 101u8, 116u8]
}

/// The seeds of an escrow's derived address: a label, the two participants, the asset and
/// the index.
pub open spec fn escrow_seeds(
    label: Seq<u8>,
    sender: Seq<u8>,
    receiver: Seq<u8>,
    mint: Seq<u8>,
    idx: u64,
) -> Seq<Seq<u8>> {
    seq![label, sender, receiver, mint, le_bytes(idx)]
}

/// The seeds of the record's address, followed by its disambiguation byte: what the
/// program hands over to act as the record's derived authority.
pub open spec fn state_signer_seeds(
    sender: Seq<u8>,
    receiver: Seq<u8>,
    mint: Seq<u8>,
    idx: u64,
    bump: u8,
) -> Seq<Seq<u8>> {
    escrow_seeds(state_label(), sender, receiver, mint, idx).push(seq![bump])
}

/// The seeds of the custody holding's address, followed by its disambiguation byte.
pub open spec fn wallet_signer_seeds(
    sender: Seq<u8>,
    receiver: Seq<u8>,
    mint: Seq<u8>,
    idx: u64,
    bump: u8,
) -> Seq<Seq<u8>> {
    escrow_seeds(wallet_label(), sender, receiver, mint, idx).push(seq![bump])
}

/// Relies on anchor_lang's Pubkey::create_program_address (solana_address::Address): more than sixteen seeds, or a seed longer than
/// thirty-two bytes, is refused; otherwise the result depends on the seeds and the program
/// alone, and is a refusal exactly when the digest lies on the curve.
#[verifier::external_body]
fn create_program_address(seeds: &Vec<Vec<u8>>, program_id: &Key) -> (r: Option<Key>)
    ensures
        seeds_too_long(seeds_view(seeds@)) ==> r is None,
        !seeds_too_long(seeds_view(seeds@)) ==> match r {
            Some(k) => program_address(seeds_view(seeds@), program_id@) == Some(k@),
            None => program_address(seeds_view(seeds@), program_id@) is None,
        },
{
    let slices: Vec<&[u8]> = seeds.iter().map(|s| s.as_slice()).collect();
    let program = Pubkey::new_from_array(program_id.bytes);
    Pubkey::create_program_address(&slices, &program).ok().map(|k| Key { bytes: k.to_bytes() })
}

/// The eight bytes of `x`, least significant first.
pub fn u64_le_bytes(x: u64) -> (r: Vec<u8>)
    ensures
        r@ == le_bytes(x),
{
    let r: Vec<u8> = vec![
        (x & 0xff) as u8,
        ((x >> 8u64) & 0xff) as u8,
        ((x >> 16u64) & 0xff) as u8,
        ((x >> 24u64) & 0xff) as u8,
        ((x >> 32u64) & 0xff) as u8,
        ((x >> 40u64) & 0xff) as u8,
        ((x >> 48u64) & 0xff) as u8,
        ((x >> 56u64) & 0xff) as u8,
    ];
    assert(r@ =~= le_bytes(x));
    r
}

fn signer_seeds(label: Vec<u8>, sender: &Key, receiver: &Key, mint: &Key, idx: u64, bump: u8) -> (r: Vec<Vec<u8>>)
    ensures
        seeds_view(r@) == escrow_seeds(label@, sender@, receiver@, mint@, idx).push(seq![bump]),
{
    let mut r: Vec<Vec<u8>> = Vec::new();
    r.push(label);
    r.push(sender.to_vec());
    r.push(receiver.to_vec());
    r.push(mint.to_vec());
    r.push(u64_le_bytes(idx));
    let last: Vec<u8> = vec![bump];
    assert(last@ =~= seq![bump]);
    r.push(last);
    assert(seeds_view(r@) =~= escrow_seeds(label@, sender@, receiver@, mint@, idx).push(seq![bump]));
    r
}

/// The seeds with which the program acts as an escrow record's derived authority.
pub fn state_seeds(sender: &Key, receiver: &Key, mint: &Key, idx: u64, bump: u8) -> (r: Vec<Vec<u8>>)
    ensures
        seeds_view(r@) == state_signer_seeds(sender@, receiver@, mint@, idx, bump),
{
    let label: Vec<u8> = vec![115u8, 116u8, 97u8, 116u8, 101u8];
    assert(label@ =~= state_label());
    signer_seeds(label, sender, receiver, mint, idx, bump)
}

/// The seeds, with its disambiguation byte, of an escrow's custody holding.
pub fn wallet_seeds(sender: &Key, receiver: &Key, mint: &Key, idx: u64, bump: u8) -> (r: Vec<Vec<u8>>)
    ensures
        seeds_view(r@) == wallet_signer_seeds(sender@, receiver@, mint@, idx, bump),
{
    let label: Vec<u8> = vec![119u8, 97u8, 108u8, 108u8, 101u8, 116u8];
    assert(label@ =~= wallet_label());
    signer_seeds(label, sender, receiver, mint, idx, bump)
}

/// The seeds of an escrow are few enough and short enough to derive an address from.
pub proof fn lemma_escrow_seeds_fit(label: Seq<u8>, sender: Key, receiver: Key, mint: Key, idx: u64, bump: u8)
    requires
        label.len() <= MAX_SEED_LEN,
    ensures
        !seeds_too_long(escrow_seeds(label, sender@, receiver@, mint@, idx).push(seq![bump])),
{
    let s = escrow_seeds(label, sender@, receiver@, mint@, idx).push(seq![bump]);
    assert forall|i: int| 0 <= i < s.len() implies s[i].len() <= MAX_SEED_LEN by {
        if i == 0 {
        } else if i == 4 {
        } else if i == 5 {
        } else {
        }
    }
}

/// Whether `account` is the address derived from `seeds` under `program_id`.
pub fn is_derived_address(account: &Key, seeds: &Vec<Vec<u8>>, program_id: &Key) -> (r: bool)
    requires
        !seeds_too_long(seeds_view(seeds@)),
    ensures
        r == (program_address(seeds_view(seeds@), program_id@) == Some(account@)),
{
    match create_program_address(seeds, program_id) {
        Some(k) => k == *account,
        None => false,
    }
}

} // verus!
