use vstd::prelude::*;

use crate::address::Address;

verus! {

/// The program-derived address and canonical bump of `seeds` under `program_id`;
/// none where no bump yields one.
pub uninterp spec fn program_address_of(program_id: Address, seeds: Seq<Seq<u8>>) -> Option<
    (Address, u8),
>;

/// Relies on `Pubkey::try_find_program_address` of anchor_lang (from solana-program):
/// from the seeds and the program id it derives an address that has no private key,
/// with its canonical bump, or returns none. The result depends on those values alone.
#[verifier::external_body]
pub(crate) fn find_program_address(program_id: &Address, seeds: &Vec<Vec<u8>>) -> (r: Option<
    (Address, u8),
>)
    ensures
        r == program_address_of(*program_id, seeds@.map_values(|s: Vec<u8>| s@)),
{
    let program = anchor_lang::prelude::Pubkey::new_from_array(program_id.bytes);
    let slices: Vec<&[u8]> = seeds.iter().map(|s| s.as_slice()).collect();
    match anchor_lang::prelude::Pubkey::try_find_program_address(&slices, &program) {
        Some((key, bump)) => Some((Address { bytes: key.to_bytes() }, bump)),
        None => None,
    }
}

/// The ASCII bytes of the escrow record's domain tag, `state`.
pub open spec fn state_tag() -> Seq<u8> {
    seq![115u8, 116u8, 97u8, 116u8, 101u8]
}

/// The first `n` little-endian bytes of `x`.
pub open spec fn le_bytes(x: nat, n: nat) -> Seq<u8>
    decreases n,
{
    if n == 0 {
        Seq::empty()
    } else {
        seq![(x % 256) as u8] + le_bytes(x / 256, (n - 1) as nat)
    }
}

/// The seeds of the escrow record of `initializer`'s offer `seed`: the domain tag,
/// the initializer's key, and the seed's eight little-endian bytes.
pub open spec fn escrow_seeds_spec(initializer: Address, seed: u64) -> Seq<Seq<u8>> {
    seq![state_tag(), initializer.bytes@, le_bytes(seed as nat, 8)]
}

/// The seeds from which the escrow record's address is derived.
pub fn escrow_seeds(initializer: &Address, seed: u64) -> (r: Vec<Vec<u8>>)
    ensures
        r@.map_values(|s: Vec<u8>| s@) == escrow_seeds_spec(*initializer, seed),
{
    let mut tag: Vec<u8> = Vec::new();
    tag.push(115u8);
    tag.push(116u8);
    tag.push(97u8);
    tag.push(116u8);
    tag.push(101u8);
    assert(tag@ =~= state_tag());
    let mut key: Vec<u8> = Vec::new();
    let mut i: usize = 0;
    while i < 32
        invariant
            0 <= i <= 32,
            initializer.bytes@.len() == 32,
            key@ =~= initializer.bytes@.subrange(0, i as int),
        decreases 32 - i,
    {
        key.push(initializer.bytes[i]);
        i = i + 1;
    }
    assert(key@ =~= initializer.bytes@);
    let mut le: Vec<u8> = Vec::new();
    let mut rest: u64 = seed;
    let mut k: usize = 0;
    while k < 8
        invariant
            0 <= k <= 8,
            le@.len() == k,
            le@ + le_bytes(rest as nat, (8 - k) as nat) == le_bytes(seed as nat, 8),
        decreases 8 - k,
    {
        let ghost before = le@;
        assert(le_bytes(rest as nat, (8 - k) as nat) == seq![(rest as nat % 256) as u8]
            + le_bytes(rest as nat / 256, (8 - k - 1) as nat));
        le.push((rest % 256) as u8);
        assert(le@ =~= before + seq![(rest as nat % 256) as u8]);
        rest = rest / 256;
        k = k + 1;
        assert(before + (seq![(le@[k - 1])] + le_bytes(rest as nat, (8 - k) as nat)) =~= le@
            + le_bytes(rest as nat, (8 - k) as nat));
    }
    assert(le@ =~= le_bytes(seed as nat, 8));
    let mut r: Vec<Vec<u8>> = Vec::new();
    r.push(tag);
    r.push(key);
    r.push(le);
    assert(r@.map_values(|s: Vec<u8>| s@) =~= escrow_seeds_spec(*initializer, seed));
    r
}

/// The address and bump of the escrow record of `initializer`'s offer `seed` under
/// `program_id`, where one can be derived.
pub fn escrow_address(program_id: &Address, initializer: &Address, seed: u64) -> (r: Option<
    (Address, u8),
>)
    ensures
        r == program_address_of(*program_id, escrow_seeds_spec(*initializer, seed)),
{
    let seeds = escrow_seeds(initializer, seed);
    find_program_address(program_id, &seeds)
}

} // verus!
