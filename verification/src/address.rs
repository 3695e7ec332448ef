use vstd::prelude::*;

verus! {

/// A 32-byte account address on the ledger.
#[derive(Clone, Copy, Debug)]
pub struct Address {
    pub bytes: [u8; 32],
}

impl vstd::std_specs::cmp::PartialEqSpecImpl for Address {
    open spec fn obeys_eq_spec() -> bool {
        true
    }

    open spec fn eq_spec(&self, other: &Address) -> bool {
        self.bytes@ == other.bytes@
    }
}

impl PartialEq for Address {
    /// Two addresses are equal exactly where their 32 bytes are.
    fn eq(&self, other: &Address) -> (r: bool) {
        address_eq(self, other)
    }
}

impl View for Address {
    type V = Seq<u8>;

    open spec fn view(&self) -> Seq<u8> {
        self.bytes@
    }
}

/// Whether two addresses hold the same 32 bytes.
pub fn address_eq(a: &Address, b: &Address) -> (r: bool)
    ensures
        r <==> a@ == b@,
{
    let mut i: usize = 0;
    while i < 32
        invariant
            0 <= i <= 32,
            forall|j: int| 0 <= j < i ==> a.bytes@[j] == b.bytes@[j],
        decreases 32 - i,
    {
        if a.bytes[i] != b.bytes[i] {
            assert(a@[i as int] != b@[i as int]);
            return false;
        }
        i = i + 1;
    }
    proof {
        assert(a@ =~= b@);
    }
    true
}

/// What the ledger's address-derivation primitive returns for one namespace
/// tag, one seed, and one deriving program identity: either a derived address
/// with its disambiguation byte, or nothing where the probe found no usable
/// byte.
pub uninterp spec fn pda_of(tag: Seq<u8>, seed: Seq<u8>, program: Seq<u8>) -> Option<(Seq<u8>, u8)>;

/// The view of a derivation result, for stating contracts over `pda_of`.
pub open spec fn derivation_view(r: Option<(Address, u8)>) -> Option<(Seq<u8>, u8)> {
    match r {
        Some(p) => Some((p.0@, p.1)),
        None => None,
    }
}

/// Relies on `Pubkey::try_find_program_address` (solana-pubkey, reached
/// through anchor-lang): the returned pair, or the absence of one, is a
/// function of the seed slices and the program identity alone, and the call
/// returns instead of panicking in every case.
#[verifier::external_body]
fn find_program_address(tag: &Vec<u8>, seed: &Address, program: &[u8; 32]) -> (r: Option<
    (Address, u8),
>)
    ensures
        derivation_view(r) == pda_of(tag@, seed@, program@),
{
    let program_id = anchor_lang::solana_program::pubkey::Pubkey::new_from_array(*program);
    match anchor_lang::solana_program::pubkey::Pubkey::try_find_program_address(
        &[tag.as_slice(), seed.bytes.as_slice()],
        &program_id,
    ) {
        Some((addr, bump)) => Some((Address { bytes: addr.to_bytes() }, bump)),
        None => None,
    }
}

/// The fixed namespace tag under which every client-state address is derived.
pub open spec fn spec_state_seed() -> Seq<u8> {
    seq![67u8, 76u8, 73u8, 69u8, 78u8, 84u8, 83u8, 69u8, 69u8, 68u8]
}

/// The namespace tag as bytes.
pub fn state_seed() -> (r: Vec<u8>)
    ensures
        r@ == spec_state_seed(),
{
    let mut v: Vec<u8> = Vec::new();
    v.push(67u8);
    v.push(76u8);
    v.push(73u8);
    v.push(69u8);
    v.push(78u8);
    v.push(84u8);
    v.push(83u8);
    v.push(69u8);
    v.push(69u8);
    v.push(68u8);
    proof {
        assert(v@ =~= spec_state_seed());
    }
    v
}

/// The fixed identity under which this registration logic derives addresses.
/// Any fixed 32 bytes serve; only its constancy matters to the derivation.
pub open spec fn spec_program_identity() -> Seq<u8> {
    Seq::new(32, |i: int| 0u8)
}

/// The deriving identity as bytes.
pub fn program_identity() -> (r: [u8; 32])
    ensures
        r@ == spec_program_identity(),
{
    let r = [0u8; 32];
    proof {
        assert(r@ =~= spec_program_identity());
    }
    r
}

/// What derivation yields for a VRF reference: the address of the client
/// state bound to it, with the disambiguation byte that re-derives it.
pub open spec fn spec_derive(vrf_reference: Seq<u8>) -> Option<(Seq<u8>, u8)> {
    pda_of(spec_state_seed(), vrf_reference, spec_program_identity())
}

/// The derived client-state address for a VRF reference, where derivation
/// yields one.
pub open spec fn spec_derived_address(vrf_reference: Seq<u8>) -> Seq<u8>
    recommends
        spec_derive(vrf_reference) is Some,
{
    spec_derive(vrf_reference).unwrap().0
}

/// The disambiguation byte that re-derives the client-state address, where
/// derivation yields one.
pub open spec fn spec_derived_bump(vrf_reference: Seq<u8>) -> u8
    recommends
        spec_derive(vrf_reference) is Some,
{
    spec_derive(vrf_reference).unwrap().1
}

/// The derivation formula exposed to collaborators: compute the client-state
/// address, and the byte that re-derives it, for one VRF account reference.
pub fn derive_client_address(vrf_reference: &Address) -> (r: Option<(Address, u8)>)
    ensures
        derivation_view(r) == spec_derive(vrf_reference@),
{
    let tag = state_seed();
    let program = program_identity();
    find_program_address(&tag, vrf_reference, &program)
}

/// Address determinism: derivation is a pure function of the VRF reference,
/// so any two derivation results for equal references are equal.
pub proof fn lemma_derive_deterministic(v1: Seq<u8>, v2: Seq<u8>)
    requires
        v1 == v2,
    ensures
        spec_derive(v1) == spec_derive(v2),
{
}

} // verus!
