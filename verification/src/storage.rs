//! The merchant side's store: merchants by id, the history of transaction
//! attempts, and the statistics last saved for each merchant. Like the device
//! store it is sequential; a caller that shares it holds its lock for one call
//! at a time.

use crate::keyed::{after_insert, distinct_keys, value_of, values_of, Keyed};
use crate::merchant::Merchant;
use crate::statistics::Statistics;
use crate::transaction::TransactionHistory;
use vstd::prelude::*;

verus! {

/// The entries of a store that was filled with `list`, one merchant after the
/// other, each under its own id.
pub open spec fn loaded_merchants(list: Seq<Merchant>) -> Seq<(u128, Merchant)>
    decreases list.len(),
{
    if list.len() == 0 {
        Seq::empty()
    } else {
        after_insert(loaded_merchants(list.drop_last()), list.last().id, list.last())
    }
}

/// The merchant side's store.
pub struct StorageService {
    data_dir: String,
    merchants: Keyed<u128, Merchant>,
    transactions: Vec<TransactionHistory>,
    statistics: Keyed<u128, Statistics>,
}

impl StorageService {
    /// The merchants, by id, in the order in which they were added.
    pub closed spec fn merchants(&self) -> Seq<(u128, Merchant)> {
        self.merchants@
    }

    /// The history of transaction attempts, oldest first.
    pub closed spec fn history(&self) -> Seq<TransactionHistory> {
        self.transactions@
    }

    /// The statistics last saved for each merchant.
    pub closed spec fn statistics(&self) -> Seq<(u128, Statistics)> {
        self.statistics@
    }

    /// The directory the store is persisted in.
    pub closed spec fn directory(&self) -> Seq<char> {
        self.data_dir@
    }

    /// No merchant occurs twice.
    pub open spec fn wf(&self) -> bool {
        distinct_keys(self.merchants()) && distinct_keys(self.statistics())
    }

    /// An empty store for the given directory.
    pub fn new(data_dir: String) -> (store: StorageService)
        ensures
            store.merchants() == Seq::<(u128, Merchant)>::empty(),
            store.history() == Seq::<TransactionHistory>::empty(),
            store.statistics() == Seq::<(u128, Statistics)>::empty(),
            store.directory() == data_dir@,
            store.wf(),
    {
        StorageService {
            data_dir,
            merchants: Keyed::new(),
            transactions: Vec::new(),
            statistics: Keyed::new(),
        }
    }

    /// The directory the store is persisted in.
    pub fn data_dir(&self) -> (dir: String)
        ensures
            dir@ == self.directory(),
    {
        self.data_dir.clone()
    }

    /// Replaces the merchants by those of `list`, as read from the snapshot
    /// on disk.
    pub fn load_merchants(&mut self, list: Vec<Merchant>)
        ensures
            final(self).merchants() == loaded_merchants(list@),
            distinct_keys(final(self).merchants()),
            final(self).history() == old(self).history(),
            final(self).statistics() == old(self).statistics(),
            final(self).directory() == old(self).directory(),
    {
        let mut list = list;
        let ghost whole = list@;
        let mut merchants: Keyed<u128, Merchant> = Keyed::new();
        let mut taken: Ghost<Seq<Merchant>> = Ghost(Seq::empty());
        while list.len() > 0
            invariant
                taken@ + list@ == whole,
                merchants@ == loaded_merchants(taken@),
                distinct_keys(merchants@),
            decreases list.len(),
        {
            let ghost rest = list@;
            let merchant = list.remove(0);
            proof {
                assert(list@ =~= rest.remove(0));
                let longer = taken@.push(merchant);
                assert(longer.drop_last() =~= taken@);
                assert(longer.last() == merchant);
                assert(longer + list@ =~= taken@ + rest);
                taken@ = longer;
            }
            let id = merchant.id;
            merchants.insert(id, merchant);
        }
        assert(taken@ =~= whole);
        self.merchants = merchants;
    }

    /// Replaces the history by `list`, as read from the snapshot on disk.
    pub fn load_transactions(&mut self, list: Vec<TransactionHistory>)
        ensures
            final(self).history() == list@,
            final(self).merchants() == old(self).merchants(),
            final(self).statistics() == old(self).statistics(),
            final(self).directory() == old(self).directory(),
    {
        self.transactions = list;
    }

    /// Adds a merchant under its id; a merchant already stored under that id
    /// is replaced.
    pub fn add_merchant(&mut self, merchant: Merchant)
        ensures
            final(self).merchants() == after_insert(old(self).merchants(), merchant.id, merchant),
            final(self).history() == old(self).history(),
            final(self).statistics() == old(self).statistics(),
            final(self).directory() == old(self).directory(),
            old(self).wf() ==> final(self).wf(),
    {
        let id = merchant.id;
        let _ = self.merchants.insert(id, merchant);
    }

    /// The merchant with the given id.
    pub fn get_merchant(&self, id: &u128) -> (merchant: Option<&Merchant>)
        ensures
            match merchant {
                Some(m) => value_of(self.merchants(), *id) == Some(*m),
                None => value_of(self.merchants(), *id) is None,
            },
    {
        self.merchants.get(id)
    }

    /// All merchants, in the order in which they were added.
    pub fn get_all_merchants(&self) -> (all: Vec<&Merchant>)
        ensures
            all@.len() == self.merchants().len(),
            forall|i: int| 0 <= i < all@.len() ==> *(#[trigger] all@[i]) == self.merchants()[i].1,
    {
        let mut all: Vec<&Merchant> = Vec::new();
        let mut i: usize = 0;
        while i < self.merchants.len()
            invariant
                i <= self.merchants().len(),
                all@.len() == i,
                forall|k: int| 0 <= k < i ==> *(#[trigger] all@[k]) == self.merchants()[k].1,
            decreases self.merchants().len() - i,
        {
            all.push(self.merchants.value_at(i));
            i += 1;
        }
        all
    }

    /// Stores a changed merchant under its id.
    pub fn update_merchant(&mut self, merchant: Merchant)
        ensures
            final(self).merchants() == after_insert(old(self).merchants(), merchant.id, merchant),
            final(self).history() == old(self).history(),
            final(self).statistics() == old(self).statistics(),
            final(self).directory() == old(self).directory(),
            old(self).wf() ==> final(self).wf(),
    {
        self.add_merchant(merchant)
    }

    /// Appends an attempt to the history.
    pub fn add_transaction(&mut self, history: TransactionHistory)
        ensures
            final(self).history() == old(self).history().push(history),
            final(self).merchants() == old(self).merchants(),
            final(self).statistics() == old(self).statistics(),
            final(self).directory() == old(self).directory(),
    {
        self.transactions.push(history);
    }

    /// The attempts of one merchant, oldest first.
    pub fn get_merchant_transactions(&self, merchant_id: &u128) -> (found: Vec<&TransactionHistory>)
        ensures
            found@.map_values(|h: &TransactionHistory| *h) == self.history().filter(
                |h: TransactionHistory| h.merchant_id == *merchant_id,
            ),
    {
        let ghost all = self.history();
        let ghost wanted = |h: TransactionHistory| h.merchant_id == *merchant_id;
        let ghost plain = |h: &TransactionHistory| *h;
        let mut found: Vec<&TransactionHistory> = Vec::new();
        let mut i: usize = 0;
        assert(all.subrange(0, 0).filter(wanted) =~= Seq::<TransactionHistory>::empty()) by {
            reveal(Seq::filter);
        }
        assert(found@.map_values(plain) =~= Seq::<TransactionHistory>::empty());
        while i < self.transactions.len()
            invariant
                i <= self.transactions.len(),
                all == self.transactions@,
                wanted == |h: TransactionHistory| h.merchant_id == *merchant_id,
                plain == |h: &TransactionHistory| *h,
                found@.map_values(plain) == all.subrange(0, i as int).filter(wanted),
            decreases self.transactions.len() - i,
        {
            let entry = &self.transactions[i];
            proof {
                let upto = all.subrange(0, i + 1);
                assert(upto =~= all.subrange(0, i as int).push(*entry));
                all.subrange(0, i as int).lemma_filter_push(*entry, wanted);
                assert(wanted(*entry) == (entry.merchant_id == *merchant_id));
            }
            if entry.merchant_id == *merchant_id {
                let ghost shorter = found@;
                found.push(entry);
                assert(found@.map_values(plain) =~= shorter.map_values(plain).push(*entry));
            }
            i += 1;
        }
        assert(all.subrange(0, all.len() as int) =~= all);
        found
    }

    /// The whole history, oldest first.
    pub fn get_all_transactions(&self) -> (all: &Vec<TransactionHistory>)
        ensures
            all@ == self.history(),
    {
        &self.transactions
    }

    /// The saved statistics of all merchants.
    pub fn get_all_statistics(&self) -> (all: Vec<&Statistics>)
        ensures
            all@.len() == self.statistics().len(),
            forall|i: int| 0 <= i < all@.len() ==> *(#[trigger] all@[i]) == self.statistics()[i].1,
    {
        let mut all: Vec<&Statistics> = Vec::new();
        let mut i: usize = 0;
        while i < self.statistics.len()
            invariant
                i <= self.statistics().len(),
                all@.len() == i,
                forall|k: int| 0 <= k < i ==> *(#[trigger] all@[k]) == self.statistics()[k].1,
            decreases self.statistics().len() - i,
        {
            all.push(self.statistics.value_at(i));
            i += 1;
        }
        all
    }

    /// The statistics last saved for the merchant.
    pub fn get_statistics(&self, merchant_id: &u128) -> (stats: Option<&Statistics>)
        ensures
            match stats {
                Some(s) => value_of(self.statistics(), *merchant_id) == Some(*s),
                None => value_of(self.statistics(), *merchant_id) is None,
            },
    {
        self.statistics.get(merchant_id)
    }

    /// Saves the merchant's statistics.
    pub fn update_statistics(&mut self, merchant_id: u128, stats: Statistics)
        ensures
            final(self).statistics() == after_insert(old(self).statistics(), merchant_id, stats),
            final(self).merchants() == old(self).merchants(),
            final(self).history() == old(self).history(),
            final(self).directory() == old(self).directory(),
            old(self).wf() ==> final(self).wf(),
    {
        let _ = self.statistics.insert(merchant_id, stats);
    }

    /// Number of merchants.
    pub fn merchant_count(&self) -> (n: usize)
        ensures
            n == self.merchants().len(),
            n == values_of(self.merchants()).len(),
    {
        self.merchants.len()
    }
}

} // verus!
