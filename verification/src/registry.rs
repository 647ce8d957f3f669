//! The registry: the set of records, each at its address.
//!
//! A registry can only be made empty and changed by the operations, so every
//! registry that a caller holds is a valid state.

use crate::address::Address;
use crate::model::{
    acknowledgment_at, attachment_at, profile_at, relation_at, valid_state,
};
use crate::records::{Acknowledgment, Attachment, ObjectProfile, ObjectsRelation, Record};
use vstd::prelude::*;

verus! {

/// One occupied address with what it holds.
pub(crate) struct Account {
    pub(crate) address: Address,
    pub(crate) record: Record,
}

/// No address occurs twice.
pub(crate) open spec fn distinct(accounts: Seq<Account>) -> bool {
    forall|i: int, j: int|
        0 <= i < j < accounts.len() ==> accounts[i].address != accounts[j].address
}

/// The place of an address among the accounts.
pub(crate) open spec fn occurs(accounts: Seq<Account>, address: Address, i: int) -> bool {
    0 <= i < accounts.len() && accounts[i].address == address
}

/// The map from each occupied address to what it holds.
pub(crate) open spec fn contents(accounts: Seq<Account>) -> Map<Address, Record> {
    Map::new(
        |address: Address| exists|i: int| occurs(accounts, address, i),
        |address: Address| accounts[choose|i: int| occurs(accounts, address, i)].record,
    )
}

/// The contents hold each account's record at the account's address.
pub(crate) proof fn lemma_contents_at(accounts: Seq<Account>, i: int)
    requires
        distinct(accounts),
        0 <= i < accounts.len(),
    ensures
        contents(accounts).contains_key(accounts[i].address),
        contents(accounts)[accounts[i].address] == accounts[i].record,
{
    let address = accounts[i].address;
    assert(occurs(accounts, address, i));
    let k = choose|k: int| occurs(accounts, address, k);
    assert(k == i);
}

/// An address that no account has is not occupied.
pub(crate) proof fn lemma_contents_absent(accounts: Seq<Account>, address: Address)
    requires
        forall|i: int| 0 <= i < accounts.len() ==> accounts[i].address != address,
    ensures
        !contents(accounts).contains_key(address),
{
    assert forall|i: int| !occurs(accounts, address, i) by {}
}

/// A new account at a free address adds its record to the contents.
pub(crate) proof fn lemma_contents_push(accounts: Seq<Account>, account: Account)
    requires
        distinct(accounts),
        !contents(accounts).contains_key(account.address),
    ensures
        distinct(accounts.push(account)),
        contents(accounts.push(account)) == contents(accounts).insert(
            account.address,
            account.record,
        ),
{
    let after = accounts.push(account);
    assert forall|i: int| 0 <= i < accounts.len() implies accounts[i].address
        != account.address by {
        assert(occurs(accounts, accounts[i].address, i));
    }
    assert(distinct(after));
    let n = accounts.len() as int;
    assert forall|address: Address|
        contents(after).contains_key(address) == contents(accounts).insert(
            account.address,
            account.record,
        ).contains_key(address) by {
        if contents(after).contains_key(address) {
            let i = choose|i: int| occurs(after, address, i);
            if i < n {
                assert(occurs(accounts, address, i));
            }
        } else if address == account.address {
            assert(occurs(after, address, n));
        } else if contents(accounts).contains_key(address) {
            let i = choose|i: int| occurs(accounts, address, i);
            assert(occurs(after, address, i));
        }
    }
    assert forall|address: Address| contents(after).contains_key(address) implies contents(
        after,
    )[address] == contents(accounts).insert(account.address, account.record)[address] by {
        let i = choose|i: int| occurs(after, address, i);
        lemma_contents_at(after, i);
        if i < n {
            lemma_contents_at(accounts, i);
        }
    }
    assert(contents(after) =~= contents(accounts).insert(account.address, account.record));
}

/// A new record in an account's place replaces the old one in the contents.
pub(crate) proof fn lemma_contents_update(accounts: Seq<Account>, i: int, record: Record)
    requires
        distinct(accounts),
        0 <= i < accounts.len(),
    ensures
        distinct(accounts.update(i, Account { address: accounts[i].address, record })),
        contents(accounts.update(i, Account { address: accounts[i].address, record }))
            == contents(accounts).insert(accounts[i].address, record),
{
    let account = Account { address: accounts[i].address, record };
    let after = accounts.update(i, account);
    assert(distinct(after));
    assert forall|address: Address|
        contents(after).contains_key(address) == contents(accounts).insert(
            account.address,
            record,
        ).contains_key(address) by {
        if contents(after).contains_key(address) {
            let k = choose|k: int| occurs(after, address, k);
            assert(occurs(accounts, address, k));
        } else if address == account.address {
            assert(occurs(after, address, i));
        } else if contents(accounts).contains_key(address) {
            let k = choose|k: int| occurs(accounts, address, k);
            assert(occurs(after, address, k));
        }
    }
    assert forall|address: Address| contents(after).contains_key(address) implies contents(
        after,
    )[address] == contents(accounts).insert(account.address, record)[address] by {
        let k = choose|k: int| occurs(after, address, k);
        lemma_contents_at(after, k);
        lemma_contents_at(accounts, k);
    }
    assert(contents(after) =~= contents(accounts).insert(account.address, record));
}

/// The place of an address among the accounts, if it is occupied.
fn position(accounts: &Vec<Account>, address: &Address) -> (r: Option<usize>)
    ensures
        match r {
            Some(i) => occurs(accounts@, *address, i as int),
            None => forall|i: int| 0 <= i < accounts.len() ==> accounts[i].address != *address,
        },
{
    let mut i: usize = 0;
    while i < accounts.len()
        invariant
            i <= accounts.len(),
            forall|k: int| 0 <= k < i ==> accounts[k].address != *address,
        decreases accounts.len() - i,
    {
        if accounts[i].address == *address {
            return Some(i);
        }
        i += 1;
    }
    None
}

/// The set of records. Its view is the map from each occupied address to the
/// record there.
pub struct Registry {
    accounts: Vec<Account>,
}

impl Registry {
    /// The map from each occupied address to the record there.
    pub closed spec fn view(&self) -> Map<Address, Record> {
        contents(self.accounts@)
    }

    /// No address is kept twice.
    pub closed spec fn well_kept(&self) -> bool {
        distinct(self.accounts@)
    }

    /// What holds of every registry: it is a valid state.
    #[verifier::type_invariant]
    pub open spec fn inv(&self) -> bool {
        self.well_kept() && valid_state(self@)
    }

    /// The registry without any record.
    pub fn new() -> (r: Registry)
        ensures
            r@ == Map::<Address, Record>::empty(),
            valid_state(r@),
    {
        let r = Registry { accounts: Vec::new() };
        assert(r@ =~= Map::<Address, Record>::empty());
        r
    }

    /// What the address holds, if it is occupied.
    pub fn get(&self, address: &Address) -> (r: Option<Record>)
        ensures
            r == if self@.contains_key(*address) {
                Some(self@[*address])
            } else {
                None::<Record>
            },
    {
        proof {
            use_type_invariant(self);
        }
        match position(&self.accounts, address) {
            Some(i) => {
                proof {
                    lemma_contents_at(self.accounts@, i as int);
                }
                Some(self.accounts[i].record)
            },
            None => {
                proof {
                    lemma_contents_absent(self.accounts@, *address);
                }
                None
            },
        }
    }

    /// Whether the address is occupied.
    pub fn contains(&self, address: &Address) -> (r: bool)
        ensures
            r == self@.contains_key(*address),
    {
        self.get(address).is_some()
    }

    /// The profile at the address, if the address holds one.
    pub fn profile(&self, address: &Address) -> (r: Option<ObjectProfile>)
        ensures
            r == profile_at(self@, *address),
    {
        match self.get(address) {
            Some(Record::Profile(p)) => Some(p),
            _ => None,
        }
    }

    /// The relation at the address, if the address holds one.
    pub fn relation(&self, address: &Address) -> (r: Option<ObjectsRelation>)
        ensures
            r == relation_at(self@, *address),
    {
        match self.get(address) {
            Some(Record::Relation(r)) => Some(r),
            _ => None,
        }
    }

    /// The attachment at the address, if the address holds one.
    pub fn attachment(&self, address: &Address) -> (r: Option<Attachment>)
        ensures
            r == attachment_at(self@, *address),
    {
        match self.get(address) {
            Some(Record::Attachment(t)) => Some(t),
            _ => None,
        }
    }

    /// The acknowledgment at the address, if the address holds one.
    pub fn acknowledgment(&self, address: &Address) -> (r: Option<Acknowledgment>)
        ensures
            r == acknowledgment_at(self@, *address),
    {
        match self.get(address) {
            Some(Record::Acknowledgment(k)) => Some(k),
            _ => None,
        }
    }

    /// Puts a new record at a free address.
    pub(crate) fn insert(&mut self, address: Address, record: Record)
        requires
            !old(self)@.contains_key(address),
            valid_state(old(self)@.insert(address, record)),
        ensures
            final(self)@ == old(self)@.insert(address, record),
    {
        proof {
            use_type_invariant(&*self);
        }
        let mut accounts: Vec<Account> = Vec::new();
        proof {
            assert(contents(accounts@) =~= Map::<Address, Record>::empty());
        }
        std::mem::swap(&mut self.accounts, &mut accounts);
        proof {
            lemma_contents_push(accounts@, Account { address, record });
        }
        accounts.push(Account { address, record });
        std::mem::swap(&mut self.accounts, &mut accounts);
    }

    /// Puts a new record at a free address and, in the same step, replaces the
    /// record of its parent.
    pub(crate) fn insert_under(
        &mut self,
        address: Address,
        record: Record,
        parent: Address,
        parent_record: Record,
    )
        requires
            !old(self)@.contains_key(address),
            old(self)@.contains_key(parent),
            valid_state(old(self)@.insert(address, record).insert(parent, parent_record)),
        ensures
            final(self)@ == old(self)@.insert(address, record).insert(parent, parent_record),
    {
        proof {
            use_type_invariant(&*self);
        }
        let mut accounts: Vec<Account> = Vec::new();
        proof {
            assert(contents(accounts@) =~= Map::<Address, Record>::empty());
        }
        std::mem::swap(&mut self.accounts, &mut accounts);
        let at = position(&accounts, &parent);
        proof {
            lemma_occupied_is_found(accounts@, parent, at);
        }
        let i = at.unwrap();
        proof {
            lemma_contents_push(accounts@, Account { address, record });
            lemma_contents_update(accounts@.push(Account { address, record }), i as int, parent_record);
        }
        accounts.push(Account { address, record });
        accounts.set(i, Account { address: parent, record: parent_record });
        std::mem::swap(&mut self.accounts, &mut accounts);
    }
}

/// An occupied address is found among the accounts.
pub(crate) proof fn lemma_occupied_is_found(
    accounts: Seq<Account>,
    address: Address,
    at: Option<usize>,
)
    requires
        contents(accounts).contains_key(address),
        match at {
            Some(i) => occurs(accounts, address, i as int),
            None => forall|i: int| 0 <= i < accounts.len() ==> accounts[i].address != address,
        },
    ensures
        at is Some,
{
    if at is None {
        lemma_contents_absent(accounts, address);
    }
}

} // verus!
