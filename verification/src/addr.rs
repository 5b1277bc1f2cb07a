//! Address Deriver: computes the unique custody address for an
//! `(owner, seed, plan_id)` tuple, together with the authority bump that lets
//! the engine sign for that address.

use vstd::prelude::*;

use crate::error::EscrowError;

verus! {

/// A 32-byte account address of the surrounding platform.
#[derive(Debug)]
pub struct Address {
    pub bytes: Vec<u8>,
}

impl View for Address {
    type V = Seq<u8>;

    open spec fn view(&self) -> Seq<u8> {
        self.bytes@
    }
}

impl Address {
    /// An address is exactly 32 bytes.
    pub open spec fn wf(&self) -> bool {
        self@.len() == 32
    }

    pub fn new(bytes: Vec<u8>) -> (r: Address)
        requires
            bytes@.len() == 32,
        ensures
            r@ == bytes@,
            r.wf(),
    {
        Address { bytes }
    }
}

impl Clone for Address {
    fn clone(&self) -> (r: Self)
        ensures
            r@ == self@,
    {
        let mut copied: Vec<u8> = Vec::new();
        let mut i: usize = 0;
        while i < self.bytes.len()
            invariant
                i <= self.bytes@.len(),
                copied@ == self.bytes@.subrange(0, i as int),
            decreases self.bytes@.len() - i,
        {
            copied.push(self.bytes[i]);
            proof {
                assert(self.bytes@.subrange(0, i + 1) =~= self.bytes@.subrange(0, i as int).push(
                    self.bytes@[i as int],
                ));
            }
            i = i + 1;
        }
        proof {
            assert(copied@ =~= self.bytes@);
        }
        Address { bytes: copied }
    }
}

/// Decides extensional equality of two addresses.
pub fn address_eq(a: &Address, b: &Address) -> (r: bool)
    ensures
        r == (a@ == b@),
{
    if a.bytes.len() != b.bytes.len() {
        return false;
    }
    let mut i: usize = 0;
    while i < a.bytes.len()
        invariant
            i <= a.bytes@.len(),
            a.bytes@.len() == b.bytes@.len(),
            forall|j: int| 0 <= j < i ==> a.bytes@[j] == b.bytes@[j],
        decreases a.bytes@.len() - i,
    {
        if a.bytes[i] != b.bytes[i] {
            return false;
        }
        i = i + 1;
    }
    proof {
        assert(a@ =~= b@);
    }
    true
}

/// The engine's own canonical identity: process-wide immutable configuration,
/// fixed at deployment, never mutated.
pub open spec fn program_id() -> Seq<u8> {
    seq![
        143u8, 89, 146, 3, 110, 83, 19, 79, 30, 151, 86, 32, 25, 224, 22, 47, 242, 6, 115, 159,
        196, 15, 67, 188, 5, 63, 191, 0, 58, 254, 57, 29,
    ]
}

/// The engine identity as bytes, for handing to the derivation call.
pub fn program_id_bytes() -> (v: Vec<u8>)
    ensures
        v@ == program_id(),
        v@.len() == 32,
{
    let mut v: Vec<u8> = Vec::new();
    v.push(143);
    v.push(89);
    v.push(146);
    v.push(3);
    v.push(110);
    v.push(83);
    v.push(19);
    v.push(79);
    v.push(30);
    v.push(151);
    v.push(86);
    v.push(32);
    v.push(25);
    v.push(224);
    v.push(22);
    v.push(47);
    v.push(242);
    v.push(6);
    v.push(115);
    v.push(159);
    v.push(196);
    v.push(15);
    v.push(67);
    v.push(188);
    v.push(5);
    v.push(63);
    v.push(191);
    v.push(0);
    v.push(58);
    v.push(254);
    v.push(57);
    v.push(29);
    proof {
        assert(v@ =~= program_id());
    }
    v
}

/// The fixed first seed slice marking escrow accounts: the bytes of "escrow".
pub open spec fn seed_prefix() -> Seq<u8> {
    seq![101u8, 115, 99, 114, 111, 119]
}

fn seed_prefix_bytes() -> (v: Vec<u8>)
    ensures
        v@ == seed_prefix(),
{
    let mut v: Vec<u8> = Vec::new();
    v.push(101);
    v.push(115);
    v.push(99);
    v.push(114);
    v.push(111);
    v.push(119);
    proof {
        assert(v@ =~= seed_prefix());
    }
    v
}

/// The seed slices from which an escrow's custody address is derived.
pub open spec fn escrow_seeds(owner: Seq<u8>, seed: u64, plan_id: u64) -> Seq<Seq<u8>> {
    seq![
        seed_prefix(),
        owner,
        vstd::bytes::spec_u64_to_le_bytes(seed),
        vstd::bytes::spec_u64_to_le_bytes(plan_id),
    ]
}

/// What the platform's program-derived-address search returns for given seed
/// slices and program identity: `Some` of the 32-byte address and its bump, or
/// `None` when no bump in the search range yields a valid address.  The result
/// depends on the arguments alone.
pub uninterp spec fn pda_of(seeds: Seq<Seq<u8>>, program_id: Seq<u8>) -> Option<(Seq<u8>, u8)>;

/// Relies on solana Pubkey::try_find_program_address (the type anchor_lang
/// re-exports): a deterministic search over bump seeds, returning the first
/// valid derived address, 32 bytes long, or None when the range is exhausted.
#[verifier::external_body]
fn try_find_pda(seeds: &Vec<Vec<u8>>, program_id: &Vec<u8>) -> (r: Option<(Address, u8)>)
    requires
        program_id@.len() == 32,
    ensures
        (match r {
            Some(p) => pda_of(seeds@.map_values(|s: Vec<u8>| s@), program_id@) == Some(
                (p.0@, p.1),
            ) && p.0@.len() == 32,
            None => pda_of(seeds@.map_values(|s: Vec<u8>| s@), program_id@) is None,
        }),
{
    let refs: Vec<&[u8]> = seeds.iter().map(|s| s.as_slice()).collect();
    let pid = anchor_lang::prelude::Pubkey::try_from(program_id.as_slice()).unwrap();
    anchor_lang::prelude::Pubkey::try_find_program_address(&refs, &pid).map(
        |p: (anchor_lang::prelude::Pubkey, u8)| (Address { bytes: p.0.to_bytes().to_vec() }, p.1),
    )
}

/// Derives the unique custody address and authority bump for
/// `(owner, seed, plan_id)`.  Repeated calls on identical inputs return the
/// identical address; failure of the bump search is surfaced, never assumed
/// impossible.
pub fn derive_escrow_address(owner: &Address, seed: u64, plan_id: u64) -> (r: Result<
    (Address, u8),
    EscrowError,
>)
    ensures
        (match r {
            Ok(p) => pda_of(escrow_seeds(owner@, seed, plan_id), program_id()) == Some((p.0@, p.1))
                && p.0@.len() == 32,
            Err(e) => e == EscrowError::DerivationExhausted && pda_of(
                escrow_seeds(owner@, seed, plan_id),
                program_id(),
            ) is None,
        }),
{
    let mut seeds: Vec<Vec<u8>> = Vec::new();
    seeds.push(seed_prefix_bytes());
    seeds.push(owner.clone().bytes);
    seeds.push(vstd::bytes::u64_to_le_bytes(seed));
    seeds.push(vstd::bytes::u64_to_le_bytes(plan_id));
    let pid = program_id_bytes();
    proof {
        assert(seeds@.map_values(|s: Vec<u8>| s@) =~= escrow_seeds(owner@, seed, plan_id));
    }
    match try_find_pda(&seeds, &pid) {
        Some(p) => Ok(p),
        None => Err(EscrowError::DerivationExhausted),
    }
}

} // verus!
