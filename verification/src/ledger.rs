//! The asset-ledger model: addresses, asset-holding accounts, and the two-leg
//! balance moves that the swap engine and the administrative controller make.

use vstd::prelude::*;

verus! {

/// A ledger address: the identity of an account or principal, as a byte
/// string. Addresses produced by the custody derivation are 32 bytes long.
pub struct Address {
    pub bytes: Vec<u8>,
}

impl View for Address {
    type V = Seq<u8>;

    open spec fn view(&self) -> Seq<u8> {
        self.bytes@
    }
}

impl Address {
    /// Byte-for-byte equality of two addresses.
    pub fn equals(&self, other: &Address) -> (r: bool)
        ensures
            r == (self@ == other@),
    {
        if self.bytes.len() != other.bytes.len() {
            return false;
        }
        let n = self.bytes.len();
        for i in 0..n
            invariant
                n == self.bytes@.len(),
                n == other.bytes@.len(),
                forall|j: int| 0 <= j < i ==> self.bytes@[j] == other.bytes@[j],
        {
            if self.bytes[i] != other.bytes[i] {
                return false;
            }
        }
        assert(self@ =~= other@);
        true
    }

    /// A fresh address holding the same bytes.
    pub fn duplicate(&self) -> (r: Address)
        ensures
            r@ == self@,
    {
        let mut bytes: Vec<u8> = Vec::new();
        let n = self.bytes.len();
        for i in 0..n
            invariant
                n == self.bytes@.len(),
                bytes@ =~= self.bytes@.subrange(0, i as int),
        {
            bytes.push(self.bytes[i]);
        }
        assert(bytes@ =~= self@);
        Address { bytes }
    }
}

/// An asset-holding account of the external ledger: its own address, the
/// principal authorized to debit it, the asset class it holds, and its
/// balance in the smallest unit of that asset.
pub struct TokenAccount {
    pub address: Address,
    pub authority: Address,
    pub mint: Address,
    pub amount: u64,
}

/// The account as it stands after a debit of `amount`.
pub open spec fn debited(acc: TokenAccount, amount: u64) -> TokenAccount {
    TokenAccount {
        address: acc.address,
        authority: acc.authority,
        mint: acc.mint,
        amount: (acc.amount - amount) as u64,
    }
}

/// The account as it stands after a credit of `amount`.
pub open spec fn credited(acc: TokenAccount, amount: u64) -> TokenAccount {
    TokenAccount {
        address: acc.address,
        authority: acc.authority,
        mint: acc.mint,
        amount: (acc.amount + amount) as u64,
    }
}

/// Moves `amount` from `from` to `to` under an ordinary principal signature:
/// the ledger accepts the debit only from the account's authority. Both
/// accounts hold the same asset class, so the total per asset class is
/// conserved.
pub fn transfer(from: &mut TokenAccount, to: &mut TokenAccount, amount: u64, authority: &Address)
    requires
        authority@ == old(from).authority@,
        old(from).mint@ == old(to).mint@,
        amount <= old(from).amount,
        old(to).amount + amount <= u64::MAX,
    ensures
        *final(from) == debited(*old(from), amount),
        *final(to) == credited(*old(to), amount),
{
    from.amount = from.amount - amount;
    to.amount = to.amount + amount;
}

/// Moves `amount` out of a custody account. A custody account's authority is
/// its own derived address, for which no private credential exists; the
/// protocol stands in for the signature with its derivation proof, so the
/// account must be self-authorized.
pub fn transfer_from_custody(from: &mut TokenAccount, to: &mut TokenAccount, amount: u64)
    requires
        old(from).authority@ == old(from).address@,
        old(from).mint@ == old(to).mint@,
        amount <= old(from).amount,
        old(to).amount + amount <= u64::MAX,
    ensures
        *final(from) == debited(*old(from), amount),
        *final(to) == credited(*old(to), amount),
{
    from.amount = from.amount - amount;
    to.amount = to.amount + amount;
}

} // verus!
