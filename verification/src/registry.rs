use vstd::prelude::*;

use crate::errors::VaultError;
use crate::principal::{derive_candidate, id_eq, seeded_address, PrincipalId};

verus! {

/// The persisted vault record: the one principal allowed to withdraw, and
/// the bump byte that makes the fixed seed resolve to the record's own
/// storage address.
#[derive(Clone, Copy, Debug, PartialEq, Eq)]
pub struct Vault {
    pub authority: PrincipalId,
    pub bump: u8,
}

/// The mathematical content of a vault record.
pub struct VaultView {
    pub authority: Seq<u8>,
    pub bump: u8,
}

impl View for Vault {
    type V = VaultView;

    open spec fn view(&self) -> VaultView {
        VaultView { authority: self.authority@, bump: self.bump }
    }
}

/// A vault record together with the storage address it was allocated at.
pub struct VaultRecord {
    pub vault: Vault,
    pub address: PrincipalId,
}

/// The registry owning the single per-deployment vault record. It knows the
/// program identity and the fixed seed that the record's address is derived
/// from, and holds the record once creation has happened.
pub struct VaultRegistry {
    pub program_id: PrincipalId,
    pub seed: Vec<u8>,
    pub record: Option<VaultRecord>,
}

/// The mathematical content of a registry: the derivation inputs and the
/// persisted part of the record (authority and bump).
pub struct RegistryView {
    pub program_id: Seq<u8>,
    pub seed: Seq<u8>,
    pub record: Option<VaultView>,
}

impl View for VaultRegistry {
    type V = RegistryView;

    open spec fn view(&self) -> RegistryView {
        RegistryView {
            program_id: self.program_id@,
            seed: self.seed@,
            record: match self.record {
                Some(rec) => Some(rec.vault@),
                None => None,
            },
        }
    }
}

/// The greatest bump byte at or below `from` that derives to an address,
/// or `None` when every candidate down to zero is rejected.
pub open spec fn first_bump_from(program_id: Seq<u8>, seed: Seq<u8>, from: int) -> Option<u8>
    decreases from + 1,
{
    if from < 0 {
        None
    } else if seeded_address(program_id, seed, from as u8) is Some {
        Some(from as u8)
    } else {
        first_bump_from(program_id, seed, from - 1)
    }
}

/// The bump recorded at creation: the greatest bump byte whose derived
/// address the addressing collaborator accepts.
pub open spec fn canonical_bump(program_id: Seq<u8>, seed: Seq<u8>) -> Option<u8> {
    first_bump_from(program_id, seed, 255)
}

/// Whether a withdrawal claim passes authentication: the claimed identity
/// must equal the recorded authority, and the recorded bump must re-derive
/// exactly to the address being operated on.
pub open spec fn spec_authenticated(
    reg: RegistryView,
    claimed: Seq<u8>,
    operated_address: Seq<u8>,
) -> bool {
    match reg.record {
        Some(v) => claimed == v.authority && seeded_address(reg.program_id, reg.seed, v.bump)
            == Some(operated_address),
        None => false,
    }
}

/// What creation does to a registry: it fails on an occupied registry and
/// leaves it unchanged; otherwise it records the caller as authority under
/// the canonical bump, or reports that no bump derives to an address.
pub open spec fn spec_create(reg: RegistryView, caller: Seq<u8>) -> (RegistryView, Result<
    VaultView,
    VaultError,
>) {
    if reg.record is Some {
        (reg, Err(VaultError::AlreadyInitialized))
    } else {
        match canonical_bump(reg.program_id, reg.seed) {
            Some(b) => {
                let v = VaultView { authority: caller, bump: b };
                (
                    RegistryView {
                        program_id: reg.program_id,
                        seed: reg.seed,
                        record: Some(v),
                    },
                    Ok(v),
                )
            },
            None => (reg, Err(VaultError::DerivationFailed)),
        }
    }
}

/// Find the canonical bump and its derived address by trying candidates
/// from the greatest bump byte downward.
fn find_bump(program_id: &PrincipalId, seed: &Vec<u8>) -> (r: Option<(u8, PrincipalId)>)
    ensures
        match r {
            Some(p) => canonical_bump(program_id@, seed@) == Some(p.0) && seeded_address(
                program_id@,
                seed@,
                p.0,
            ) == Some(p.1@),
            None => canonical_bump(program_id@, seed@) is None,
        },
{
    let mut b: u8 = 255;
    loop
        invariant
            canonical_bump(program_id@, seed@) == first_bump_from(program_id@, seed@, b as int),
        decreases b,
    {
        match derive_candidate(program_id, seed, b) {
            Some(address) => {
                return Some((b, address));
            },
            None => {},
        }
        if b == 0 {
            assert(first_bump_from(program_id@, seed@, -1) is None);
            return None;
        }
        b = b - 1;
    }
}

impl VaultRegistry {
    /// Whether the registry is internally consistent: a recorded vault's
    /// bump re-derives exactly to the address the record was allocated at.
    pub open spec fn wf(self) -> bool {
        match self.record {
            Some(rec) => seeded_address(self.program_id@, self.seed@, rec.vault.bump) == Some(
                rec.address@,
            ),
            None => true,
        }
    }

    /// An empty registry for a deployment identified by `program_id`, whose
    /// vault record will live at the address derived from `seed`.
    pub fn new(program_id: PrincipalId, seed: Vec<u8>) -> (r: VaultRegistry)
        ensures
            r@ == (RegistryView { program_id: program_id@, seed: seed@, record: None }),
            r.wf(),
    {
        VaultRegistry { program_id, seed, record: None }
    }

    /// One-time creation of the vault record. A second attempt fails with
    /// `AlreadyInitialized` and never overwrites the existing record; a
    /// successful attempt records the authenticated caller as the one
    /// withdrawal authority, under the canonical bump.
    pub fn create(&mut self, caller: PrincipalId) -> (r: Result<Vault, VaultError>)
        ensures
            old(self).wf() ==> final(self).wf(),
            r is Ok ==> final(self).wf(),
            final(self)@ == spec_create(old(self)@, caller@).0,
            match (r, spec_create(old(self)@, caller@).1) {
                (Ok(v), Ok(vv)) => v@ == vv,
                (Err(e), Err(ee)) => e == ee,
                _ => false,
            },
    {
        if self.record.is_some() {
            return Err(VaultError::AlreadyInitialized);
        }
        match find_bump(&self.program_id, &self.seed) {
            Some((bump, address)) => {
                let vault = Vault { authority: caller, bump };
                self.record = Some(VaultRecord { vault, address });
                Ok(vault)
            },
            None => Err(VaultError::DerivationFailed),
        }
    }

    /// Authenticate a claimed withdrawal authority against the record,
    /// re-deriving the storage address from the recorded bump rather than
    /// trusting any address the caller supplies.
    pub fn authenticate(&self, claimed: &PrincipalId, operated_address: &PrincipalId) -> (r: bool)
        ensures
            r == spec_authenticated(self@, claimed@, operated_address@),
    {
        match &self.record {
            None => false,
            Some(rec) => {
                if !id_eq(claimed, &rec.vault.authority) {
                    return false;
                }
                match derive_candidate(&self.program_id, &self.seed, rec.vault.bump) {
                    Some(derived) => id_eq(&derived, operated_address),
                    None => false,
                }
            },
        }
    }

    /// The storage address the vault record was allocated at, once created.
    pub fn vault_address(&self) -> (r: Option<PrincipalId>)
        ensures
            match (r, self.record) {
                (Some(a), Some(rec)) => a@ == rec.address@,
                (None, None) => true,
                _ => false,
            },
    {
        match &self.record {
            Some(rec) => Some(rec.address),
            None => None,
        }
    }
}

/// Creation is one-time: once a creation call has succeeded, any further
/// creation call fails with `AlreadyInitialized` and leaves the recorded
/// authority and derivation bump exactly as the first call wrote them.
pub proof fn lemma_create_is_one_time(reg: RegistryView, first: Seq<u8>, second: Seq<u8>)
    ensures
        spec_create(reg, first).1 is Ok ==> ({
            let reg1 = spec_create(reg, first).0;
            let (reg2, r2) = spec_create(reg1, second);
            reg2 == reg1 && r2 == Err::<VaultView, VaultError>(VaultError::AlreadyInitialized)
        }),
{
}

} // verus!
