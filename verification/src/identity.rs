//! Identities: the fixed-size public names of accounts, and the authority
//! that is derived from a program's identity.

use solana_program::pubkey::Pubkey;
use vstd::prelude::*;

verus! {

/// The seed from which a program's escrow authority is derived: the ASCII
/// bytes of `escrow`.
pub const AUTHORITY_SEED: [u8; 6] = [101, 115, 99, 114, 111, 119];

/// The public name of an account or of a derived authority.
#[derive(Debug, Clone, Copy, Eq)]
pub struct Identity {
    pub bytes: [u8; 32],
}

impl View for Identity {
    type V = Seq<u8>;

    open spec fn view(&self) -> Seq<u8> {
        self.bytes@
    }
}

impl PartialEq for Identity {
    fn eq(&self, other: &Identity) -> (r: bool) {
        let mut i: usize = 0;
        while i < 32
            invariant
                0 <= i <= 32,
                forall|j: int| 0 <= j < i ==> self.bytes[j] == other.bytes[j],
            decreases 32 - i,
        {
            if self.bytes[i] != other.bytes[i] {
                return false;
            }
            i += 1;
        }
        assert(self.bytes =~= other.bytes);
        true
    }
}

impl vstd::std_specs::cmp::PartialEqSpecImpl for Identity {
    open spec fn obeys_eq_spec() -> bool {
        true
    }

    open spec fn eq_spec(&self, other: &Identity) -> bool {
        *self == *other
    }
}

/// An array whose first `n` bytes are those of `bytes`.
spec fn array_upto(bytes: Seq<u8>, n: nat) -> [u8; 32]
    decreases n,
{
    if n == 0 {
        vstd::array::spec_array_fill_for_copy_type::<u8, 32>(0u8)
    } else {
        vstd::array::spec_array_update(array_upto(bytes, (n - 1) as nat), n - 1, bytes[n - 1])
    }
}

proof fn lemma_array_upto(bytes: Seq<u8>, n: nat)
    requires
        n <= 32 == bytes.len(),
    ensures
        forall|i: int| 0 <= i < n ==> array_upto(bytes, n)@[i] == bytes[i],
    decreases n,
{
    if n > 0 {
        lemma_array_upto(bytes, (n - 1) as nat);
    }
}

impl Identity {
    /// The identity with the given bytes.
    pub fn new(bytes: [u8; 32]) -> (id: Identity)
        ensures
            id.bytes == bytes,
    {
        Identity { bytes }
    }

    /// The bytes of this identity.
    pub fn to_bytes(&self) -> (bytes: [u8; 32])
        ensures
            bytes == self.bytes,
    {
        self.bytes
    }

    /// Whether every byte of this identity is zero, as in a zeroed record.
    pub open spec fn is_zero(&self) -> bool {
        forall|i: int| 0 <= i < 32 ==> self@[i] == 0
    }

    /// The identity whose bytes are all zero.
    pub fn zero() -> (id: Identity)
        ensures
            id.is_zero(),
    {
        Identity { bytes: [0u8; 32] }
    }

    /// The identity with the given view; meant for sequences of 32 bytes.
    pub open spec fn from_view(s: Seq<u8>) -> Identity {
        choose|id: Identity| id@ == s
    }

    /// Every sequence of 32 bytes is the view of an identity.
    pub proof fn lemma_from_view(bytes: Seq<u8>)
        requires
            bytes.len() == 32,
        ensures
            Identity::from_view(bytes)@ == bytes,
    {
        lemma_array_upto(bytes, 32);
        let witness = Identity { bytes: array_upto(bytes, 32) };
        assert(witness@ =~= bytes);
    }

    /// An identity is determined by its bytes.
    pub proof fn lemma_view_injective(a: Identity, b: Identity)
        ensures
            a@ == b@ <==> a == b,
            a@.len() == 32,
            Identity::from_view(a@) == a,
    {
        if a@ == b@ {
            assert(a.bytes =~= b.bytes);
        }
        let c = Identity::from_view(a@);
        assert(c@ == a@);
        assert(c.bytes =~= a.bytes);
    }
}

/// The address that the host derives from `seed` and a program's identity,
/// with the bump seed that completes it, or `None` where no bump seed gives
/// an address or the seed is too long.
pub uninterp spec fn program_address(seed: Seq<u8>, program_id: Seq<u8>) -> Option<(Seq<u8>, u8)>;

/// Calls `Pubkey::try_find_program_address` with the single seed `seed`. The
/// result depends on the two arguments alone, so the contract names it; it
/// says nothing of which address comes out.
#[verifier::external_body]
fn find_program_address(seed: &[u8], program_id: &Identity) -> (r: Option<(Identity, u8)>)
    ensures
        match r {
            Some((id, bump)) => program_address(seed@, program_id@) == Some((id@, bump)),
            None => program_address(seed@, program_id@) is None,
        },
{
    match Pubkey::try_find_program_address(&[seed], &Pubkey::new_from_array(program_id.bytes)) {
        Some((key, bump)) => Some((Identity { bytes: key.to_bytes() }, bump)),
        None => None,
    }
}

/// The authority of the escrow program `program_id`: the address derived from
/// the program's identity and [`AUTHORITY_SEED`]. No wallet holds a key for
/// it; only the program can sign for it.
pub open spec fn escrow_authority(program_id: Identity) -> Option<Identity> {
    match program_address(AUTHORITY_SEED@, program_id@) {
        Some((address, _)) => Some(Identity::from_view(address)),
        None => None,
    }
}

/// The bump seed that completes the derivation of [`escrow_authority`].
pub open spec fn escrow_authority_bump(program_id: Identity) -> Option<u8> {
    match program_address(AUTHORITY_SEED@, program_id@) {
        Some((_, bump)) => Some(bump),
        None => None,
    }
}

/// Derives the authority of the escrow program `program_id` and its bump
/// seed.
pub fn derive_authority(program_id: &Identity) -> (r: Option<(Identity, u8)>)
    ensures
        match r {
            Some((authority, bump)) => {
                &&& escrow_authority(*program_id) == Some(authority)
                &&& escrow_authority_bump(*program_id) == Some(bump)
            },
            None => escrow_authority(*program_id) is None,
        },
{
    let seed = AUTHORITY_SEED;
    let r = find_program_address(seed.as_slice(), program_id);
    proof {
        if let Some((authority, _)) = r {
            Identity::lemma_view_injective(authority, authority);
        }
    }
    r
}

} // verus!
