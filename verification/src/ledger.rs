//! The ledger: a store of account records keyed by address.

use crate::address::Address;
use crate::state::{amm_at, mint_at, pool_at, token_at, Account, Amm, Mint, Pool, State, TokenAccount};
use vstd::prelude::*;

verus! {

#[derive(Clone, Copy, Debug)]
struct Entry {
    address: Address,
    account: Account,
}

/// A store of account records in which each address occurs at most once.
#[derive(Debug)]
pub struct Ledger {
    entries: Vec<Entry>,
}

spec fn held_at(entries: Seq<Entry>, i: int, address: Address) -> bool {
    0 <= i < entries.len() && entries[i].address == address
}

spec fn index_of(entries: Seq<Entry>, address: Address) -> int {
    choose|i: int| held_at(entries, i, address)
}

spec fn distinct(entries: Seq<Entry>) -> bool {
    forall|i: int, j: int|
        0 <= i < entries.len() && 0 <= j < entries.len() && i != j ==> #[trigger] entries[i].address
            != #[trigger] entries[j].address
}

spec fn contents(entries: Seq<Entry>) -> State {
    Map::new(
        |address: Address| exists|i: int| held_at(entries, i, address),
        |address: Address| entries[index_of(entries, address)].account,
    )
}

proof fn lemma_contents_at(entries: Seq<Entry>, i: int)
    requires
        distinct(entries),
        0 <= i < entries.len(),
    ensures
        contents(entries).contains_key(entries[i].address),
        contents(entries)[entries[i].address] == entries[i].account,
{
    let address = entries[i].address;
    assert(held_at(entries, i, address));
    let j = index_of(entries, address);
    assert(held_at(entries, j, address));
    assert(j == i);
}

proof fn lemma_contents_absent(entries: Seq<Entry>, address: Address)
    requires
        forall|i: int| 0 <= i < entries.len() ==> entries[i].address != address,
    ensures
        !contents(entries).contains_key(address),
{
    assert forall|i: int| !held_at(entries, i, address) by {}
}

proof fn lemma_contents_update(entries: Seq<Entry>, i: int, entry: Entry)
    requires
        distinct(entries),
        0 <= i < entries.len(),
        entry.address == entries[i].address,
    ensures
        distinct(entries.update(i, entry)),
        contents(entries.update(i, entry)) == contents(entries).insert(entry.address, entry.account),
{
    let after = entries.update(i, entry);
    assert(distinct(after));
    let left = contents(after);
    let right = contents(entries).insert(entry.address, entry.account);
    assert forall|address: Address| left.contains_key(address) == right.contains_key(address) by {
        if left.contains_key(address) {
            let j = choose|j: int| held_at(after, j, address);
            assert(held_at(entries, j, address));
        }
        if right.contains_key(address) {
            if address == entry.address {
                assert(held_at(after, i, address));
            } else {
                let j = choose|j: int| held_at(entries, j, address);
                assert(held_at(after, j, address));
            }
        }
    }
    assert forall|address: Address| left.contains_key(address) implies left[address]
        == right[address] by {
        let j = index_of(after, address);
        assert(held_at(after, j, address));
        lemma_contents_at(after, j);
        if address != entry.address {
            assert(held_at(entries, j, address));
            lemma_contents_at(entries, j);
        }
    }
    assert(left =~= right);
}

proof fn lemma_contents_push(entries: Seq<Entry>, entry: Entry)
    requires
        distinct(entries),
        forall|i: int| 0 <= i < entries.len() ==> entries[i].address != entry.address,
    ensures
        distinct(entries.push(entry)),
        contents(entries.push(entry)) == contents(entries).insert(entry.address, entry.account),
{
    let after = entries.push(entry);
    assert(distinct(after));
    let left = contents(after);
    let right = contents(entries).insert(entry.address, entry.account);
    assert forall|address: Address| left.contains_key(address) == right.contains_key(address) by {
        if left.contains_key(address) {
            let j = choose|j: int| held_at(after, j, address);
            if j < entries.len() {
                assert(held_at(entries, j, address));
            }
        }
        if right.contains_key(address) {
            if address == entry.address {
                assert(held_at(after, entries.len() as int, address));
            } else {
                let j = choose|j: int| held_at(entries, j, address);
                assert(held_at(after, j, address));
            }
        }
    }
    assert forall|address: Address| left.contains_key(address) implies left[address]
        == right[address] by {
        let j = index_of(after, address);
        assert(held_at(after, j, address));
        lemma_contents_at(after, j);
        if address != entry.address {
            assert(held_at(entries, j, address));
            lemma_contents_at(entries, j);
        }
    }
    assert(left =~= right);
}

impl View for Ledger {
    type V = State;

    closed spec fn view(&self) -> State {
        contents(self.entries@)
    }
}

impl Ledger {
    #[verifier::type_invariant]
    spec fn well_formed(self) -> bool {
        distinct(self.entries@)
    }

    /// A ledger without records.
    pub fn new() -> (ledger: Ledger)
        ensures
            ledger@ == Map::<Address, Account>::empty(),
    {
        let ledger = Ledger { entries: Vec::new() };
        proof {
            lemma_contents_absent_all(ledger.entries@);
        }
        ledger
    }

    fn position(&self, address: &Address) -> (found: Option<usize>)
        ensures
            match found {
                Some(i) => held_at(self.entries@, i as int, *address),
                None => forall|i: int|
                    0 <= i < self.entries@.len() ==> self.entries@[i].address != *address,
            },
    {
        let mut i: usize = 0;
        while i < self.entries.len()
            invariant
                0 <= i <= self.entries@.len(),
                forall|k: int| 0 <= k < i ==> self.entries@[k].address != *address,
            decreases self.entries@.len() - i,
        {
            if self.entries[i].address.same(address) {
                return Some(i);
            }
            i += 1;
        }
        None
    }

    /// The record at an address, if there is one.
    pub fn get(&self, address: &Address) -> (found: Option<Account>)
        ensures
            found == (if self@.contains_key(*address) {
                Some(self@[*address])
            } else {
                None
            }),
    {
        proof {
            use_type_invariant(self);
        }
        match self.position(address) {
            Some(i) => {
                proof {
                    lemma_contents_at(self.entries@, i as int);
                }
                Some(self.entries[i].account)
            },
            None => {
                proof {
                    lemma_contents_absent(self.entries@, *address);
                }
                None
            },
        }
    }

    /// Writes a record at an address, in place of the one that was there. This
    /// is the store's own write: what may be written is for the operations of
    /// the token primitive and of the protocol to decide.
    pub fn put(&mut self, address: Address, account: Account)
        ensures
            final(self)@ == old(self)@.insert(address, account),
    {
        proof {
            use_type_invariant(&*self);
        }
        let entry = Entry { address, account };
        let place = self.position(&address);
        let mut entries: Vec<Entry> = Vec::new();
        std::mem::swap(&mut self.entries, &mut entries);
        match place {
            Some(i) => {
                proof {
                    lemma_contents_update(entries@, i as int, entry);
                }
                entries.set(i, entry);
            },
            None => {
                proof {
                    lemma_contents_push(entries@, entry);
                }
                entries.push(entry);
            },
        }
        std::mem::swap(&mut self.entries, &mut entries);
    }

    /// A second ledger with the same records.
    pub fn duplicate(&self) -> (copy: Ledger)
        ensures
            copy@ == self@,
    {
        proof {
            use_type_invariant(self);
        }
        let mut entries: Vec<Entry> = Vec::new();
        let mut i: usize = 0;
        while i < self.entries.len()
            invariant
                0 <= i <= self.entries@.len(),
                entries@ == self.entries@.take(i as int),
            decreases self.entries@.len() - i,
        {
            entries.push(self.entries[i]);
            assert(self.entries@.take(i as int).push(self.entries@[i as int])
                =~= self.entries@.take(i + 1));
            i += 1;
        }
        assert(self.entries@.take(self.entries@.len() as int) =~= self.entries@);
        Ledger { entries }
    }

    /// The AMM record at an address.
    pub fn amm(&self, address: &Address) -> (found: Option<Amm>)
        ensures
            found == amm_at(self@, *address),
    {
        match self.get(address) {
            Some(Account::Amm(amm)) => Some(amm),
            _ => None,
        }
    }

    /// The pool record at an address.
    pub fn pool(&self, address: &Address) -> (found: Option<Pool>)
        ensures
            found == pool_at(self@, *address),
    {
        match self.get(address) {
            Some(Account::Pool(pool)) => Some(pool),
            _ => None,
        }
    }

    /// The mint at an address.
    pub fn mint(&self, address: &Address) -> (found: Option<Mint>)
        ensures
            found == mint_at(self@, *address),
    {
        match self.get(address) {
            Some(Account::Mint(mint)) => Some(mint),
            _ => None,
        }
    }

    /// The balance at an address.
    pub fn token(&self, address: &Address) -> (found: Option<TokenAccount>)
        ensures
            found == token_at(self@, *address),
    {
        match self.get(address) {
            Some(Account::Token(token)) => Some(token),
            _ => None,
        }
    }
}

proof fn lemma_contents_absent_all(entries: Seq<Entry>)
    requires
        entries.len() == 0,
    ensures
        contents(entries) == Map::<Address, Account>::empty(),
{
    assert forall|address: Address| !contents(entries).contains_key(address) by {
        lemma_contents_absent(entries, address);
    }
    assert(contents(entries) =~= Map::<Address, Account>::empty());
}

} // verus!
