use vstd::prelude::*;

verus! {

/// A 32-byte identity on the host ledger: an authenticated principal
/// (authority, depositor, receiver) or a storage address. The two share a
/// representation because a storage address is itself a key-shaped value.
#[derive(Clone, Copy, Debug, PartialEq, Eq)]
pub struct PrincipalId {
    pub bytes: [u8; 32],
}

impl View for PrincipalId {
    type V = Seq<u8>;

    open spec fn view(&self) -> Seq<u8> {
        self.bytes@
    }
}

/// The address that the deterministic-addressing collaborator computes from
/// a program identity, a seed, and a bump byte, or `None` where it rejects
/// that candidate. The result is a pure function of the three arguments.
pub uninterp spec fn seeded_address(program_id: Seq<u8>, seed: Seq<u8>, bump: u8) -> Option<Seq<u8>>;

/// Relies on anchor_lang's `Pubkey::create_program_address`: it derives a
/// program address from the seeds and the program id alone, and rejects a
/// candidate (over-long seed, or a hash that lands on the ed25519 curve)
/// rather than returning an address.
#[verifier::external_body]
pub(crate) fn derive_candidate(program_id: &PrincipalId, seed: &Vec<u8>, bump: u8) -> (r: Option<
    PrincipalId,
>)
    ensures
        match r {
            Some(a) => seeded_address(program_id@, seed@, bump) == Some(a@),
            None => seeded_address(program_id@, seed@, bump) is None,
        },
{
    let pid = anchor_lang::prelude::Pubkey::new_from_array(program_id.bytes);
    match anchor_lang::prelude::Pubkey::create_program_address(&[seed.as_slice(), &[bump]], &pid) {
        Ok(address) => Some(PrincipalId { bytes: address.to_bytes() }),
        Err(_) => None,
    }
}

/// Byte-for-byte equality of two principal identities.
pub fn id_eq(a: &PrincipalId, b: &PrincipalId) -> (r: bool)
    ensures
        r == (a@ == b@),
{
    let mut i: usize = 0;
    while i < 32
        invariant
            0 <= i <= 32,
            forall|j: int| 0 <= j < i ==> a.bytes@[j] == b.bytes@[j],
        decreases 32 - i,
    {
        if a.bytes[i] != b.bytes[i] {
            assert(a.bytes@[i as int] != b.bytes@[i as int]);
            return false;
        }
        i += 1;
    }
    proof {
        assert(a@ =~= b@);
    }
    true
}

} // verus!
