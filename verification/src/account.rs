//! Account identities as byte strings.
//!
//! Parties (admins, signers, grantees, assets) are identified by the bytes
//! of their address; two identities are the same account exactly when their
//! bytes are equal.
use vstd::prelude::*;

verus! {

/// Compares two byte strings element by element.
pub fn bytes_equal(a: &Vec<u8>, b: &Vec<u8>) -> (r: bool)
    ensures
        r == (a@ == b@),
{
    if a.len() != b.len() {
        return false;
    }
    let n = a.len();
    let mut i: usize = 0;
    while i < n
        invariant
            n == a.len(),
            n == b.len(),
            0 <= i <= n,
            forall|j: int| 0 <= j < i ==> a@[j] == b@[j],
        decreases n - i,
    {
        if a[i] != b[i] {
            return false;
        }
        i = i + 1;
    }
    assert(a@ =~= b@);
    true
}

/// The identity of an account: the bytes of its address.
#[derive(Clone, Debug)]
pub struct AccountId {
    pub key: Vec<u8>,
}

impl View for AccountId {
    type V = Seq<u8>;

    open spec fn view(&self) -> Seq<u8> {
        self.key@
    }
}

impl AccountId {
    /// An identity with the given address bytes.
    pub fn new(key: Vec<u8>) -> (r: Self)
        ensures
            r@ == key@,
    {
        AccountId { key }
    }

    /// Whether `self` and `other` name the same account.
    pub fn same_as(&self, other: &AccountId) -> (r: bool)
        ensures
            r == (self@ == other@),
    {
        bytes_equal(&self.key, &other.key)
    }

    /// A copy of this identity.
    pub fn duplicate(&self) -> (r: AccountId)
        ensures
            r@ == self@,
    {
        let mut key: Vec<u8> = Vec::new();
        let n = self.key.len();
        let mut i: usize = 0;
        while i < n
            invariant
                n == self.key.len(),
                0 <= i <= n,
                key@ == self.key@.take(i as int),
            decreases n - i,
        {
            key.push(self.key[i]);
            i = i + 1;
            assert(key@ =~= self.key@.take(i as int));
        }
        assert(self.key@.take(n as int) =~= self.key@);
        AccountId { key }
    }
}

/// The identities of a list of accounts.
pub open spec fn account_views(accounts: Seq<AccountId>) -> Seq<Seq<u8>> {
    accounts.map_values(|a: AccountId| a@)
}

/// Whether `who` is among `accounts`.
pub fn contains_account(accounts: &Vec<AccountId>, who: &AccountId) -> (r: bool)
    ensures
        r == account_views(accounts@).contains(who@),
{
    let n = accounts.len();
    let mut i: usize = 0;
    while i < n
        invariant
            n == accounts.len(),
            0 <= i <= n,
            forall|j: int| 0 <= j < i ==> accounts@[j]@ != who@,
        decreases n - i,
    {
        if accounts[i].same_as(who) {
            assert(account_views(accounts@)[i as int] == who@);
            return true;
        }
        i = i + 1;
    }
    assert forall|j: int| 0 <= j < account_views(accounts@).len() implies account_views(
        accounts@,
    )[j] != who@ by {
        assert(account_views(accounts@)[j] == accounts@[j]@);
    }
    false
}

} // verus!
