//! Deterministic custody derivation: from a seed label and the configuration
//! store's address, the protocol derives the address of each custody account
//! together with a one-byte nonce ("bump") chosen so that the address lands
//! outside the space any private credential can reach. Re-deriving with the
//! same inputs always reproduces the same pair, so the protocol can stand in
//! for the custody account's signature whenever it must move funds out of it.

use vstd::prelude::*;

use crate::ledger::Address;

verus! {

/// The address-and-nonce pair that the custody derivation yields for a seed
/// label, a parent address and a program address, or `None` in the
/// statistically improbable event that no nonce puts the address off the
/// credential-reachable space.
pub uninterp spec fn derived_ref(label: Seq<u8>, parent: Seq<u8>, program: Seq<u8>) -> Option<
    (Seq<u8>, u8),
>;

/// Relies on `anchor_lang::prelude::Pubkey::try_find_program_address`: a pure
/// search over a descending one-byte nonce, hashing the seeds, the nonce and
/// the program address, that depends on its arguments alone; the address it
/// returns is 32 bytes long.
#[verifier::external_body]
pub(crate) fn find_derived_ref(label: &Vec<u8>, parent: &Address, program: &Address) -> (r: Option<
    (Address, u8),
>)
    requires
        parent@.len() == 32,
        program@.len() == 32,
    ensures
        r matches Some(p) ==> derived_ref(label@, parent@, program@) == Some((p.0@, p.1))
            && p.0@.len() == 32,
        r is None ==> derived_ref(label@, parent@, program@) is None,
{
    let program_key = anchor_lang::prelude::Pubkey::try_from(program.bytes.as_slice()).ok()?;
    let (address, nonce) = anchor_lang::prelude::Pubkey::try_find_program_address(
        &[label.as_slice(), parent.bytes.as_slice()],
        &program_key,
    )?;
    Some((Address { bytes: address.to_bytes().to_vec() }, nonce))
}

/// The seed label of the single custody vault of the generic variant.
pub open spec fn vault_label() -> Seq<u8> {
    seq![118u8, 97u8, 117u8, 108u8, 116u8]
}

/// The seed label of the proceeds vault.
pub open spec fn proceeds_vault_label() -> Seq<u8> {
    seq![112u8, 114u8, 111u8, 99u8, 101u8, 101u8, 100u8, 115u8, 95u8, 118u8, 97u8, 117u8, 108u8, 116u8]
}

/// The seed label of the Oni custody vault.
pub open spec fn oni_vault_label() -> Seq<u8> {
    seq![111u8, 110u8, 105u8, 95u8, 118u8, 97u8, 117u8, 108u8, 116u8]
}

/// The seed label of the Mud custody vault.
pub open spec fn mud_vault_label() -> Seq<u8> {
    seq![109u8, 117u8, 100u8, 95u8, 118u8, 97u8, 117u8, 108u8, 116u8]
}

/// The seed label of the Ustur custody vault.
pub open spec fn ustur_vault_label() -> Seq<u8> {
    seq![117u8, 115u8, 116u8, 117u8, 114u8, 95u8, 118u8, 97u8, 117u8, 108u8, 116u8]
}

/// The bytes of `"vault"`.
pub fn vault_seed() -> (v: Vec<u8>)
    ensures
        v@ == vault_label(),
{
    let mut v: Vec<u8> = Vec::new();
    v.push(118);
    v.push(97);
    v.push(117);
    v.push(108);
    v.push(116);
    proof {
        assert(v@ =~= vault_label());
    }
    v
}

/// The bytes of `"proceeds_vault"`.
pub fn proceeds_vault_seed() -> (v: Vec<u8>)
    ensures
        v@ == proceeds_vault_label(),
{
    let mut v: Vec<u8> = Vec::new();
    v.push(112);
    v.push(114);
    v.push(111);
    v.push(99);
    v.push(101);
    v.push(101);
    v.push(100);
    v.push(115);
    v.push(95);
    v.push(118);
    v.push(97);
    v.push(117);
    v.push(108);
    v.push(116);
    proof {
        assert(v@ =~= proceeds_vault_label());
    }
    v
}

/// The bytes of `"oni_vault"`.
pub fn oni_vault_seed() -> (v: Vec<u8>)
    ensures
        v@ == oni_vault_label(),
{
    let mut v: Vec<u8> = Vec::new();
    v.push(111);
    v.push(110);
    v.push(105);
    v.push(95);
    v.push(118);
    v.push(97);
    v.push(117);
    v.push(108);
    v.push(116);
    proof {
        assert(v@ =~= oni_vault_label());
    }
    v
}

/// The bytes of `"mud_vault"`.
pub fn mud_vault_seed() -> (v: Vec<u8>)
    ensures
        v@ == mud_vault_label(),
{
    let mut v: Vec<u8> = Vec::new();
    v.push(109);
    v.push(117);
    v.push(100);
    v.push(95);
    v.push(118);
    v.push(97);
    v.push(117);
    v.push(108);
    v.push(116);
    proof {
        assert(v@ =~= mud_vault_label());
    }
    v
}

/// The bytes of `"ustur_vault"`.
pub fn ustur_vault_seed() -> (v: Vec<u8>)
    ensures
        v@ == ustur_vault_label(),
{
    let mut v: Vec<u8> = Vec::new();
    v.push(117);
    v.push(115);
    v.push(116);
    v.push(117);
    v.push(114);
    v.push(95);
    v.push(118);
    v.push(97);
    v.push(117);
    v.push(108);
    v.push(116);
    proof {
        assert(v@ =~= ustur_vault_label());
    }
    v
}

} // verus!
