use vstd::prelude::*;

verus! {

/// The label that starts the seeds from which a vault's address is derived.
pub const VAULT_LABEL: [u8; 5] = [0x76, 0x61, 0x75, 0x6c, 0x74];

/// The bytes of `VAULT_LABEL`, the text "vault".
pub open spec fn vault_label() -> Seq<u8> {
    seq![0x76u8, 0x61u8, 0x75u8, 0x6cu8, 0x74u8]
}

/// The program-derived address of `seeds` under `program`, with its bump:
/// the first bump, counting down from 255, whose address is off the curve.
pub uninterp spec fn program_address_of(seeds: Seq<Seq<u8>>, program: Seq<u8>) -> Option<(Seq<u8>, u8)>;

/// The plain view of a derived address and its bump.
pub open spec fn derived_view(d: Option<([u8; 32], u8)>) -> Option<(Seq<u8>, u8)> {
    match d {
        Some((a, b)) => Some((a@, b)),
        None => None,
    }
}

/// Relies on `Address::try_find_program_address` (solana-address, through
/// pinocchio): the canonical bump for the two seeds under `program` and the
/// address that it yields, or `None` where no bump gives an off-curve
/// address. It computes and does not fail otherwise.
#[verifier::external_body]
fn find_program_address(first: &[u8], second: &[u8], program: &[u8; 32]) -> (r: Option<([u8; 32], u8)>)
    ensures
        derived_view(r) == program_address_of(seq![first@, second@], program@),
{
    let program = pinocchio::address::Address::new_from_array(*program);
    match pinocchio::address::Address::try_find_program_address(&[first, second], &program) {
        Some((address, bump)) => Some((address.to_bytes(), bump)),
        None => None,
    }
}

/// The vault of `owner` under `program`: its address and canonical bump.
pub open spec fn vault_of(owner: Seq<u8>, program: Seq<u8>) -> Option<(Seq<u8>, u8)> {
    program_address_of(seq![vault_label(), owner], program)
}

/// Derives the address of `owner`'s vault under `program`, with its bump.
pub fn vault_address(owner: &[u8; 32], program: &[u8; 32]) -> (r: Option<([u8; 32], u8)>)
    ensures
        derived_view(r) == vault_of(owner@, program@),
{
    let label = VAULT_LABEL;
    assert(label@ == vault_label());
    find_program_address(label.as_slice(), owner.as_slice(), program)
}

} // verus!
