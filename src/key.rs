//! Account identities and program-derived addresses.
use vstd::prelude::*;

verus! {

/// A 32-byte account identity.
#[derive(Clone, Copy, Debug)]
pub struct Key {
    pub bytes: [u8; 32],
}

impl View for Key {
    type V = Seq<u8>;

    open spec fn view(&self) -> Seq<u8> {
        self.bytes@
    }
}

impl Key {
    pub fn new(bytes: [u8; 32]) -> (r: Key)
        ensures
            r.bytes == bytes,
    {
        Key { bytes }
    }

    /// Whether two identities are the same account.
    pub fn same(&self, other: &Key) -> (r: bool)
        ensures
            r == (self@ == other@),
    {
        let mut i: usize = 0;
        while i < 32
            invariant
                i <= 32,
                self@.len() == 32,
                other@.len() == 32,
                forall|j: int| 0 <= j < i ==> self@[j] == other@[j],
            decreases 32 - i,
        {
            if self.bytes[i] != other.bytes[i] {
                assert(self@[i as int] != other@[i as int]);
                return false;
            }
            i = i + 1;
        }
        assert(self@ =~= other@);
        true
    }
}

/// The identity of this program.
pub open spec fn program_id_spec() -> Seq<u8> {
    seq![
        250u8, 93, 47, 162, 73, 11, 77, 201, 212, 194, 120, 12, 26, 196, 184, 101,
        63, 203, 77, 37, 9, 215, 80, 196, 170, 71, 39, 116, 78, 63, 197, 101,
    ]
}

/// `HrKLeJB6yoSWkFzVSfsg8Yi3Zs4PKZ7qqjkMz978qqZv`, the identity of this program.
pub fn program_id() -> (r: Key)
    ensures
        r@ == program_id_spec(),
{
    let r = Key {
        bytes: [
            250u8, 93, 47, 162, 73, 11, 77, 201, 212, 194, 120, 12, 26, 196, 184, 101,
            63, 203, 77, 37, 9, 215, 80, 196, 170, 71, 39, 116, 78, 63, 197, 101,
        ],
    };
    assert(r@ =~= program_id_spec());
    r
}

/// The identity of the governance (realms) program.
pub open spec fn realms_id_spec() -> Seq<u8> {
    seq![
        234u8, 228, 53, 189, 238, 117, 183, 52, 205, 89, 62, 207, 154, 48, 75, 128,
        36, 186, 40, 152, 103, 183, 105, 177, 249, 60, 167, 187, 184, 142, 70, 254,
    ]
}

/// `GovER5Lthms3bLBqWub97yVrMmEogzX7xNjdXpPPCVZw`, the governance program.
pub fn realms_id() -> (r: Key)
    ensures
        r@ == realms_id_spec(),
{
    let r = Key {
        bytes: [
            234u8, 228, 53, 189, 238, 117, 183, 52, 205, 89, 62, 207, 154, 48, 75, 128,
            36, 186, 40, 152, 103, 183, 105, 177, 249, 60, 167, 187, 184, 142, 70, 254,
        ],
    };
    assert(r@ =~= realms_id_spec());
    r
}

/// The label the vault address is derived from: the bytes of `tatami-vault`.
pub open spec fn vault_seed_spec() -> Seq<u8> {
    seq![116u8, 97, 116, 97, 109, 105, 45, 118, 97, 117, 108, 116]
}

pub fn vault_seed() -> (r: Vec<u8>)
    ensures
        r@ == vault_seed_spec(),
{
    let r: Vec<u8> = vec![116u8, 97, 116, 97, 109, 105, 45, 118, 97, 117, 108, 116];
    assert(r@ =~= vault_seed_spec());
    r
}

/// The address and bump seed that the runtime derives for `seeds` under
/// `program`, if some bump gives an address off the curve.
pub uninterp spec fn program_address(seeds: Seq<Seq<u8>>, program: Seq<u8>) -> Option<(Seq<u8>, u8)>;

pub open spec fn seeds_view(seeds: Seq<Vec<u8>>) -> Seq<Seq<u8>> {
    seeds.map_values(|s: Vec<u8>| s@)
}

pub open spec fn derived_view(r: Option<(Key, u8)>) -> Option<(Seq<u8>, u8)> {
    match r {
        Some((k, b)) => Some((k@, b)),
        None => None,
    }
}

/// Relies on solana_program's `Pubkey::try_find_program_address`: the result
/// depends on the seeds and the program identity alone, and it returns `None`
/// instead of panicking when no bump seed works.
#[verifier::external_body]
fn try_find_program_address(seeds: &Vec<Vec<u8>>, program: &Key) -> (r: Option<(Key, u8)>)
    ensures
        derived_view(r) == program_address(seeds_view(seeds@), program@),
{
    let slices: Vec<&[u8]> = seeds.iter().map(|s| s.as_slice()).collect();
    let program = solana_program::pubkey::Pubkey::new_from_array(program.bytes);
    solana_program::pubkey::Pubkey::try_find_program_address(&slices, &program)
        .map(|(k, b)| (Key { bytes: k.to_bytes() }, b))
}

/// The vault's seeds: the single label `tatami-vault`.
pub open spec fn vault_seeds() -> Seq<Seq<u8>> {
    seq![vault_seed_spec()]
}

/// The vault's address and bump seed under this program.
pub fn vault_address() -> (r: Option<(Key, u8)>)
    ensures
        derived_view(r) == program_address(vault_seeds(), program_id_spec()),
{
    let seeds: Vec<Vec<u8>> = vec![vault_seed()];
    assert(seeds_view(seeds@) =~= vault_seeds());
    let program = program_id();
    try_find_program_address(&seeds, &program)
}

} // verus!
