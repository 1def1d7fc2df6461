use vstd::prelude::*;

use crate::errors::ErrorCode;

verus! {

/// The identity of a ledger account: a 32-byte address, held as four words
/// so that two identities are equal exactly when the whole address is.
#[derive(Clone, Copy, Debug, PartialEq, Eq, Structural)]
pub struct Pubkey {
    pub w0: u64,
    pub w1: u64,
    pub w2: u64,
    pub w3: u64,
}

/// A ledger account: an identity holding a balance in native token base units.
#[derive(Clone, Copy, Debug, PartialEq, Eq, Structural)]
pub struct Account {
    pub key: Pubkey,
    pub balance: u64,
}

/// The atomic transfer primitive of the balance ledger. Either both balances
/// move by exactly `amount`, or neither changes and the error says why.
pub fn transfer(from: &mut Account, to: &mut Account, amount: u64) -> (r: Result<(), ErrorCode>)
    ensures
        final(from).key == old(from).key,
        final(to).key == old(to).key,
        r is Ok <==> old(from).balance >= amount && old(to).balance + amount <= u64::MAX,
        r is Ok ==> final(from).balance == old(from).balance - amount
            && final(to).balance == old(to).balance + amount,
        r is Err ==> *final(from) == *old(from) && *final(to) == *old(to),
        r == Err::<(), ErrorCode>(ErrorCode::InsufficientFunds) <==> old(from).balance < amount,
        r == Err::<(), ErrorCode>(ErrorCode::ArithmeticOverflow)
            <==> old(from).balance >= amount && old(to).balance + amount > u64::MAX,
{
    if from.balance < amount {
        return Err(ErrorCode::InsufficientFunds);
    }
    if amount > u64::MAX - to.balance {
        return Err(ErrorCode::ArithmeticOverflow);
    }
    from.balance = from.balance - amount;
    to.balance = to.balance + amount;
    Ok(())
}

/// A fund pool whose outbound transfers are authorized not by a private key
/// but by reproducing the derivation tag recorded when the pool was created.
#[derive(Clone, Copy, Debug, PartialEq, Eq, Structural)]
pub struct CustodyAccount {
    pub account: Account,
    pub derivation_tag: u8,
}

impl CustodyAccount {
    /// Plain balance transfer into the custody account.
    pub fn fund(&mut self, from: &mut Account, amount: u64) -> (r: Result<(), ErrorCode>)
        ensures
            final(self).derivation_tag == old(self).derivation_tag,
            final(self).account.key == old(self).account.key,
            final(from).key == old(from).key,
            r is Ok <==> old(from).balance >= amount
                && old(self).account.balance + amount <= u64::MAX,
            r is Ok ==> final(from).balance == old(from).balance - amount
                && final(self).account.balance == old(self).account.balance + amount,
            r is Err ==> *final(self) == *old(self) && *final(from) == *old(from),
            r == Err::<(), ErrorCode>(ErrorCode::InsufficientFunds) <==> old(from).balance < amount,
            r == Err::<(), ErrorCode>(ErrorCode::ArithmeticOverflow)
                <==> old(from).balance >= amount
                    && old(self).account.balance + amount > u64::MAX,
    {
        transfer(from, &mut self.account, amount)
    }

    /// Transfer out of custody. The caller must reproduce the derivation tag
    /// recorded at creation; a mismatched tag is rejected before anything
    /// else is examined, so no balance ever moves on an unauthorized call.
    pub fn payout(&mut self, to: &mut Account, amount: u64, derivation_tag: u8) -> (r: Result<
        (),
        ErrorCode,
    >)
        ensures
            final(self).derivation_tag == old(self).derivation_tag,
            final(self).account.key == old(self).account.key,
            final(to).key == old(to).key,
            r is Ok <==> derivation_tag == old(self).derivation_tag
                && old(self).account.balance >= amount
                && old(to).balance + amount <= u64::MAX,
            r is Ok ==> final(self).account.balance == old(self).account.balance - amount
                && final(to).balance == old(to).balance + amount,
            r is Err ==> *final(self) == *old(self) && *final(to) == *old(to),
            r == Err::<(), ErrorCode>(ErrorCode::AuthorizationMismatch)
                <==> derivation_tag != old(self).derivation_tag,
            r == Err::<(), ErrorCode>(ErrorCode::InsufficientFunds)
                <==> derivation_tag == old(self).derivation_tag
                    && old(self).account.balance < amount,
            r == Err::<(), ErrorCode>(ErrorCode::ArithmeticOverflow)
                <==> derivation_tag == old(self).derivation_tag
                    && old(self).account.balance >= amount
                    && old(to).balance + amount > u64::MAX,
    {
        if derivation_tag != self.derivation_tag {
            return Err(ErrorCode::AuthorizationMismatch);
        }
        transfer(&mut self.account, to, amount)
    }
}

} // verus!
