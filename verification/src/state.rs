//! The persisted record of a trade that is under way.
//!
//! Layout, 105 bytes without padding: the initialized flag (1 byte), the
//! initializer (32), the temporary token account (32), the initializer's
//! receiving token account (32), the expected amount (8, little-endian).

use crate::identity::Identity;
use crate::wire::{
    lemma_u64_le_round_trip, spec_u64_from_le, spec_u64_to_le, u64_from_le, u64_to_le,
};
use vstd::prelude::*;

verus! {

/// The number of bytes of a persisted record.
pub const ESCROW_LEN: usize = 105;

/// The record of a trade: who opened it, which token account holds the
/// deposit, where the payment goes and how much is asked.
#[derive(Debug, Clone, Copy, PartialEq, Eq)]
pub struct Escrow {
    /// Tells a live record from a fresh or closed account.
    pub is_initialized: bool,
    /// The party that opened the trade.
    pub initializer_pubkey: Identity,
    /// The token account that holds the deposit, under the program's authority.
    pub temp_token_account_pubkey: Identity,
    /// The initializer's token account for the payment.
    pub initializer_token_to_receive_account_pubkey: Identity,
    /// The exact payment asked for.
    pub expected_amount: u64,
}

/// Copies 32 bytes of `bytes`, from `at` on, into an identity.
fn identity_at(bytes: &[u8], at: usize) -> (id: Identity)
    requires
        at + 32 <= bytes@.len(),
    ensures
        id@ == bytes@.subrange(at as int, at + 32),
        id == Identity::from_view(bytes@.subrange(at as int, at + 32)),
{
    let len = bytes.len();
    let mut out = [0u8; 32];
    let mut i: usize = 0;
    while i < 32
        invariant
            0 <= i <= 32,
            at + 32 <= len == bytes@.len(),
            forall|j: int| 0 <= j < i ==> out@[j] == bytes@[at + j],
        decreases 32 - i,
    {
        out[i] = bytes[at + i];
        i += 1;
    }
    let id = Identity { bytes: out };
    proof {
        assert(id@ =~= bytes@.subrange(at as int, at + 32));
        Identity::lemma_view_injective(id, id);
    }
    id
}

/// Writes `src` into `out` from `at` on.
fn put(out: &mut [u8; 105], at: usize, src: &[u8])
    requires
        at + src@.len() <= 105,
    ensures
        final(out)@ == old(out)@.subrange(0, at as int) + src@ + old(out)@.subrange(
            at + src@.len(),
            105,
        ),
{
    let mut i: usize = 0;
    while i < src.len()
        invariant
            0 <= i <= src@.len(),
            at + src@.len() <= 105,
            forall|j: int| 0 <= j < at ==> out@[j] == old(out)@[j],
            forall|j: int| 0 <= j < i ==> out@[at + j] == src@[j],
            forall|j: int| at + i <= j < 105 ==> out@[j] == old(out)@[j],
        decreases src@.len() - i,
    {
        out[at + i] = src[i];
        i += 1;
    }
    assert(out@ =~= old(out)@.subrange(0, at as int) + src@ + old(out)@.subrange(
        at + src@.len(),
        105,
    ));
}

impl Escrow {
    /// Whether every field is zero: what a fresh or closed account holds.
    pub open spec fn is_zeroed(self) -> bool {
        &&& !self.is_initialized
        &&& self.initializer_pubkey.is_zero()
        &&& self.temp_token_account_pubkey.is_zero()
        &&& self.initializer_token_to_receive_account_pubkey.is_zero()
        &&& self.expected_amount == 0
    }

    /// The invariant of persisted records: a record is live, with every
    /// field meaningful, or it is zeroed. Nothing in between is ever written.
    pub open spec fn wf(self) -> bool {
        self.is_initialized || self.is_zeroed()
    }

    /// The 105 bytes that persist the record.
    pub open spec fn spec_pack(self) -> Seq<u8> {
        seq![if self.is_initialized { 1u8 } else { 0u8 }] + self.initializer_pubkey@
            + self.temp_token_account_pubkey@ + self.initializer_token_to_receive_account_pubkey@
            + spec_u64_to_le(self.expected_amount)
    }

    /// The record that `src` persists, live or not: `None` unless `src` has
    /// 105 bytes and its flag byte is 0 or 1.
    pub open spec fn spec_unpack_unchecked(src: Seq<u8>) -> Option<Escrow> {
        if src.len() != ESCROW_LEN || src[0] > 1 {
            None
        } else {
            Some(
                Escrow {
                    is_initialized: src[0] == 1,
                    initializer_pubkey: Identity::from_view(src.subrange(1, 33)),
                    temp_token_account_pubkey: Identity::from_view(src.subrange(33, 65)),
                    initializer_token_to_receive_account_pubkey: Identity::from_view(
                        src.subrange(65, 97),
                    ),
                    expected_amount: spec_u64_from_le(src.subrange(97, 105)) as u64,
                },
            )
        }
    }

    /// The live record that `src` persists: as [`Self::spec_unpack_unchecked`],
    /// and `None` for a record that is not initialized.
    pub open spec fn spec_unpack(src: Seq<u8>) -> Option<Escrow> {
        match Escrow::spec_unpack_unchecked(src) {
            Some(record) => if record.is_initialized {
                Some(record)
            } else {
                None
            },
            None => None,
        }
    }

    /// Whether the record is live.
    pub fn is_initialized(&self) -> (b: bool)
        ensures
            b == self.is_initialized,
    {
        self.is_initialized
    }

    /// The zeroed record.
    pub fn zeroed() -> (record: Escrow)
        ensures
            record.is_zeroed(),
            record.wf(),
    {
        Escrow {
            is_initialized: false,
            initializer_pubkey: Identity::zero(),
            temp_token_account_pubkey: Identity::zero(),
            initializer_token_to_receive_account_pubkey: Identity::zero(),
            expected_amount: 0,
        }
    }

    /// Reads a record from its bytes, live or not.
    pub fn unpack_unchecked(src: &[u8]) -> (r: Option<Escrow>)
        ensures
            r == Escrow::spec_unpack_unchecked(src@),
    {
        if src.len() != ESCROW_LEN {
            return None;
        }
        if src[0] > 1 {
            return None;
        }
        Some(
            Escrow {
                is_initialized: src[0] == 1,
                initializer_pubkey: identity_at(src, 1),
                temp_token_account_pubkey: identity_at(src, 33),
                initializer_token_to_receive_account_pubkey: identity_at(src, 65),
                expected_amount: u64_from_le(src, 97),
            },
        )
    }

    /// Reads a live record from its bytes.
    pub fn unpack(src: &[u8]) -> (r: Option<Escrow>)
        ensures
            r == Escrow::spec_unpack(src@),
    {
        match Escrow::unpack_unchecked(src) {
            Some(record) => if record.is_initialized {
                Some(record)
            } else {
                None
            },
            None => None,
        }
    }

    /// Writes the record as its 105 bytes.
    pub fn pack(&self) -> (bytes: [u8; 105])
        ensures
            bytes@ == self.spec_pack(),
    {
        let mut out = [0u8; 105];
        out[0] = if self.is_initialized {
            1
        } else {
            0
        };
        put(&mut out, 1, self.initializer_pubkey.bytes.as_slice());
        put(&mut out, 33, self.temp_token_account_pubkey.bytes.as_slice());
        put(&mut out, 65, self.initializer_token_to_receive_account_pubkey.bytes.as_slice());
        let amount = u64_to_le(self.expected_amount);
        put(&mut out, 97, amount.as_slice());
        assert(out@ =~= self.spec_pack());
        out
    }

    /// Reading the bytes of a record gives the record back.
    pub proof fn lemma_unpack_pack(self)
        ensures
            self.spec_pack().len() == ESCROW_LEN,
            Escrow::spec_unpack_unchecked(self.spec_pack()) == Some(self),
            self.is_initialized ==> Escrow::spec_unpack(self.spec_pack()) == Some(self),
    {
        let bytes = self.spec_pack();
        lemma_u64_le_round_trip(self.expected_amount);
        Identity::lemma_view_injective(self.initializer_pubkey, self.initializer_pubkey);
        Identity::lemma_view_injective(
            self.temp_token_account_pubkey,
            self.temp_token_account_pubkey,
        );
        Identity::lemma_view_injective(
            self.initializer_token_to_receive_account_pubkey,
            self.initializer_token_to_receive_account_pubkey,
        );
        assert(bytes.subrange(1, 33) =~= self.initializer_pubkey@);
        assert(bytes.subrange(33, 65) =~= self.temp_token_account_pubkey@);
        assert(bytes.subrange(65, 97) =~= self.initializer_token_to_receive_account_pubkey@);
        assert(bytes.subrange(97, 105) =~= spec_u64_to_le(self.expected_amount));
    }

    /// The zeroed record persists as 105 zero bytes, and zero bytes never
    /// persist a live record.
    pub proof fn lemma_zeroed_bytes(self)
        requires
            self.is_zeroed(),
        ensures
            self.spec_pack().len() == ESCROW_LEN,
            forall|i: int| 0 <= i < ESCROW_LEN ==> self.spec_pack()[i] == 0,
            Escrow::spec_unpack(self.spec_pack()) is None,
    {
        let bytes = self.spec_pack();
        assert forall|i: int| 0 <= i < ESCROW_LEN implies bytes[i] == 0 by {
            if 1 <= i < 33 {
                assert(bytes[i] == self.initializer_pubkey@[i - 1]);
            } else if 33 <= i < 65 {
                assert(bytes[i] == self.temp_token_account_pubkey@[i - 33]);
            } else if 65 <= i < 97 {
                assert(bytes[i] == self.initializer_token_to_receive_account_pubkey@[i - 65]);
            } else if 97 <= i {
                assert(bytes[i] == spec_u64_to_le(self.expected_amount)[i - 97]);
            }
        }
    }
}

} // verus!
