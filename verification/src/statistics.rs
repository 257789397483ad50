//! Per-merchant statistics: counters of requests and callbacks, and
//! breakdowns of errors by category and of transactions by status. A counter
//! that has reached the largest number it can hold stays there.

use crate::keyed::{after_insert, distinct_keys, first_index, has_key, value_of, Keyed};
use crate::models::TransactionStatus;
use crate::text::{contains_text, occurs_in};
use vstd::prelude::*;

verus! {

/// A counter after one more event.
pub open spec fn bumped(count: u64) -> u64 {
    if count < u64::MAX {
        (count + 1) as u64
    } else {
        count
    }
}

/// A sum after adding `amount`, clamped at what a `u64` holds.
pub open spec fn raised(sum: u64, amount: u64) -> u64 {
    if sum + amount <= u64::MAX {
        (sum + amount) as u64
    } else {
        u64::MAX
    }
}

/// A breakdown after one more event under `label`.
pub open spec fn counted(breakdown: Seq<(Seq<char>, u64)>, label: Seq<char>) -> Seq<
    (Seq<char>, u64),
> {
    match value_of(breakdown, label) {
        Some(count) => after_insert(breakdown, label, bumped(count)),
        None => after_insert(breakdown, label, 1),
    }
}

/// The category an error message is counted under. The tests are made in this
/// order, and the first that holds decides.
pub open spec fn category_of(error: Seq<char>) -> Seq<char> {
    if occurs_in(error, "400"@) || occurs_in(error, "Bad Request"@) {
        "Bad Request"@
    } else if occurs_in(error, "401"@) || occurs_in(error, "Unauthorized"@) {
        "Unauthorized"@
    } else if occurs_in(error, "403"@) || occurs_in(error, "Forbidden"@) {
        "Forbidden"@
    } else if occurs_in(error, "404"@) || occurs_in(error, "Not Found"@) {
        "Not Found"@
    } else if occurs_in(error, "500"@) || occurs_in(error, "Internal Server Error"@) {
        "Internal Server Error"@
    } else if occurs_in(error, "timeout"@) || occurs_in(error, "Timeout"@) {
        "Timeout"@
    } else {
        "Other"@
    }
}

/// The category an error message is counted under.
pub fn error_category(error: &str) -> (category: String)
    ensures
        category@ == category_of(error@),
{
    if contains_text(error, "400") || contains_text(error, "Bad Request") {
        "Bad Request".to_owned()
    } else if contains_text(error, "401") || contains_text(error, "Unauthorized") {
        "Unauthorized".to_owned()
    } else if contains_text(error, "403") || contains_text(error, "Forbidden") {
        "Forbidden".to_owned()
    } else if contains_text(error, "404") || contains_text(error, "Not Found") {
        "Not Found".to_owned()
    } else if contains_text(error, "500") || contains_text(error, "Internal Server Error") {
        "Internal Server Error".to_owned()
    } else if contains_text(error, "timeout") || contains_text(error, "Timeout") {
        "Timeout".to_owned()
    } else {
        "Other".to_owned()
    }
}

fn bump(count: u64) -> (next: u64)
    ensures
        next == bumped(count),
{
    if count < u64::MAX {
        count + 1
    } else {
        count
    }
}

fn count_under(breakdown: &mut Keyed<String, u64>, label: String)
    ensures
        final(breakdown)@ == counted(old(breakdown)@, label@),
        distinct_keys(old(breakdown)@) ==> distinct_keys(final(breakdown)@),
{
    let current = match breakdown.get(&label) {
        Some(count) => Some(*count),
        None => None,
    };
    match current {
        Some(count) => {
            breakdown.insert(label, bump(count));
        },
        None => {
            breakdown.insert(label, 1);
        },
    }
}

/// The statistics of one merchant.
pub struct Statistics {
    pub merchant_id: u128,
    pub total_requests: u64,
    pub successful_requests: u64,
    pub failed_requests: u64,
    /// Sum of the amounts of the successful requests, in whole units.
    pub total_amount: u64,
    pub callbacks_received: u64,
    pub liquid_transactions: u64,
    pub non_liquid_transactions: u64,
    /// Failed requests by error category.
    pub error_breakdown: Keyed<String, u64>,
    /// Transactions by status name.
    pub status_breakdown: Keyed<String, u64>,
}

/// The statistics of one merchant as plain values.
pub struct StatisticsView {
    pub merchant_id: u128,
    pub total_requests: u64,
    pub successful_requests: u64,
    pub failed_requests: u64,
    pub total_amount: u64,
    pub callbacks_received: u64,
    pub liquid_transactions: u64,
    pub non_liquid_transactions: u64,
    pub error_breakdown: Seq<(Seq<char>, u64)>,
    pub status_breakdown: Seq<(Seq<char>, u64)>,
}

impl View for Statistics {
    type V = StatisticsView;

    open spec fn view(&self) -> StatisticsView {
        StatisticsView {
            merchant_id: self.merchant_id,
            total_requests: self.total_requests,
            successful_requests: self.successful_requests,
            failed_requests: self.failed_requests,
            total_amount: self.total_amount,
            callbacks_received: self.callbacks_received,
            liquid_transactions: self.liquid_transactions,
            non_liquid_transactions: self.non_liquid_transactions,
            error_breakdown: self.error_breakdown@,
            status_breakdown: self.status_breakdown@,
        }
    }
}

/// Statistics with nothing counted.
pub open spec fn empty_statistics(merchant_id: u128) -> StatisticsView {
    StatisticsView {
        merchant_id,
        total_requests: 0,
        successful_requests: 0,
        failed_requests: 0,
        total_amount: 0,
        callbacks_received: 0,
        liquid_transactions: 0,
        non_liquid_transactions: 0,
        error_breakdown: Seq::empty(),
        status_breakdown: Seq::empty(),
    }
}

/// Statistics after a successful request of `amount` that gave a transaction
/// in the status named `label`.
pub open spec fn with_success(s: StatisticsView, amount: u64, label: Seq<char>) -> StatisticsView {
    StatisticsView {
        total_requests: bumped(s.total_requests),
        successful_requests: bumped(s.successful_requests),
        total_amount: raised(s.total_amount, amount),
        status_breakdown: counted(s.status_breakdown, label),
        ..s
    }
}

/// Statistics after a failed request with the given error message.
pub open spec fn with_failure(s: StatisticsView, error: Seq<char>) -> StatisticsView {
    StatisticsView {
        total_requests: bumped(s.total_requests),
        failed_requests: bumped(s.failed_requests),
        error_breakdown: counted(s.error_breakdown, category_of(error)),
        ..s
    }
}

/// Statistics after a callback.
pub open spec fn with_callback(s: StatisticsView) -> StatisticsView {
    StatisticsView { callbacks_received: bumped(s.callbacks_received), ..s }
}

/// Statistics after a liquid transaction.
pub open spec fn with_liquid(s: StatisticsView) -> StatisticsView {
    StatisticsView { liquid_transactions: bumped(s.liquid_transactions), ..s }
}

/// Statistics after a mock transaction.
pub open spec fn with_non_liquid(s: StatisticsView) -> StatisticsView {
    StatisticsView { non_liquid_transactions: bumped(s.non_liquid_transactions), ..s }
}

/// Statistics after a transaction was seen in the status named `label`.
pub open spec fn with_status(s: StatisticsView, label: Seq<char>) -> StatisticsView {
    StatisticsView { status_breakdown: counted(s.status_breakdown, label), ..s }
}

impl Statistics {
    /// Statistics with nothing counted.
    pub fn new(merchant_id: u128) -> (stats: Statistics)
        ensures
            stats@ == empty_statistics(merchant_id),
    {
        Statistics {
            merchant_id,
            total_requests: 0,
            successful_requests: 0,
            failed_requests: 0,
            total_amount: 0,
            callbacks_received: 0,
            liquid_transactions: 0,
            non_liquid_transactions: 0,
            error_breakdown: Keyed::new(),
            status_breakdown: Keyed::new(),
        }
    }

    /// Counts a successful request.
    pub fn record_success(&mut self, amount: u64, status: &TransactionStatus)
        ensures
            final(self)@ == with_success(old(self)@, amount, status.label_of()),
    {
        self.total_requests = bump(self.total_requests);
        self.successful_requests = bump(self.successful_requests);
        self.total_amount = self.total_amount.saturating_add(amount);
        count_under(&mut self.status_breakdown, status.label());
    }

    /// Counts a failed request under the category of its error message.
    pub fn record_failure(&mut self, error: &str)
        ensures
            final(self)@ == with_failure(old(self)@, error@),
    {
        self.total_requests = bump(self.total_requests);
        self.failed_requests = bump(self.failed_requests);
        count_under(&mut self.error_breakdown, error_category(error));
    }

    /// Counts a callback.
    pub fn record_callback(&mut self)
        ensures
            final(self)@ == with_callback(old(self)@),
    {
        self.callbacks_received = bump(self.callbacks_received);
    }

    /// Counts a liquid transaction.
    pub fn record_liquid_transaction(&mut self)
        ensures
            final(self)@ == with_liquid(old(self)@),
    {
        self.liquid_transactions = bump(self.liquid_transactions);
    }

    /// Counts a mock transaction.
    pub fn record_non_liquid_transaction(&mut self)
        ensures
            final(self)@ == with_non_liquid(old(self)@),
    {
        self.non_liquid_transactions = bump(self.non_liquid_transactions);
    }

    /// Counts a transaction seen in the status named `status`.
    pub fn update_status(&mut self, status: &str)
        ensures
            final(self)@ == with_status(old(self)@, status@),
    {
        count_under(&mut self.status_breakdown, status.to_owned());
    }
}

/// The views of the statistics that a store holds.
pub open spec fn views_of(entries: Seq<(u128, Statistics)>) -> Seq<(u128, StatisticsView)> {
    Seq::new(entries.len(), |i: int| (entries[i].0, entries[i].1@))
}

/// The statistics of all merchants, by merchant id.
pub struct StatisticsService {
    stats: Keyed<u128, Statistics>,
}

impl StatisticsService {
    /// The statistics held, by merchant id.
    pub closed spec fn stats(&self) -> Seq<(u128, StatisticsView)> {
        views_of(self.stats@)
    }

    /// No merchant has two entries.
    pub open spec fn wf(&self) -> bool {
        distinct_keys(self.stats())
    }

    /// The entries after the change `to` was made to the statistics of
    /// `merchant_id`; a merchant without statistics is passed over.
    pub open spec fn changed(
        entries: Seq<(u128, StatisticsView)>,
        merchant_id: u128,
        to: StatisticsView,
    ) -> Seq<(u128, StatisticsView)> {
        match first_index(entries, merchant_id) {
            Some(i) => entries.update(i, (merchant_id, to)),
            None => entries,
        }
    }

    /// A service without statistics.
    pub fn new() -> (service: StatisticsService)
        ensures
            service.stats() == Seq::<(u128, StatisticsView)>::empty(),
            service.wf(),
    {
        let service = StatisticsService { stats: Keyed::new() };
        assert(service.stats() =~= Seq::<(u128, StatisticsView)>::empty());
        service
    }

    /// Starts the merchant's statistics afresh.
    pub fn initialize_merchant(&mut self, merchant_id: u128)
        ensures
            final(self).stats() == after_insert(
                old(self).stats(),
                merchant_id,
                empty_statistics(merchant_id),
            ),
            old(self).wf() ==> final(self).wf(),
    {
        proof {
            lemma_views_keep_keys(self.stats@, merchant_id);
            if distinct_keys(self.stats()) {
                crate::keyed::lemma_insert_keeps_distinct(
                    self.stats(),
                    merchant_id,
                    empty_statistics(merchant_id),
                );
            }
        }
        let stats = Statistics::new(merchant_id);
        let ghost before = self.stats@;
        self.stats.insert(merchant_id, stats);
        assert(self.stats() =~= after_insert(
            views_of(before),
            merchant_id,
            empty_statistics(merchant_id),
        ));
    }

    /// Counts a successful request of the merchant.
    pub fn record_success(&mut self, merchant_id: u128, amount: u64, status: &TransactionStatus)
        ensures
            final(self).stats() == match value_of(old(self).stats(), merchant_id) {
                Some(s) => Self::changed(
                    old(self).stats(),
                    merchant_id,
                    with_success(s, amount, status.label_of()),
                ),
                None => old(self).stats(),
            },
            old(self).wf() ==> final(self).wf(),
    {
        proof {
            lemma_views_keep_keys(self.stats@, merchant_id);
        }
        let ghost before = self.stats@;
        match self.stats.get_mut(&merchant_id) {
            Some(stats) => {
                stats.record_success(amount, status);
            },
            None => {},
        }
        proof {
            lemma_change_keeps_keys(before, self.stats@, merchant_id);
        }
    }

    /// Counts a failed request of the merchant.
    pub fn record_failure(&mut self, merchant_id: u128, error: &str)
        ensures
            final(self).stats() == match value_of(old(self).stats(), merchant_id) {
                Some(s) => Self::changed(old(self).stats(), merchant_id, with_failure(s, error@)),
                None => old(self).stats(),
            },
            old(self).wf() ==> final(self).wf(),
    {
        proof {
            lemma_views_keep_keys(self.stats@, merchant_id);
        }
        let ghost before = self.stats@;
        match self.stats.get_mut(&merchant_id) {
            Some(stats) => {
                stats.record_failure(error);
            },
            None => {},
        }
        proof {
            lemma_change_keeps_keys(before, self.stats@, merchant_id);
        }
    }

    /// Counts a callback for the merchant.
    pub fn record_callback(&mut self, merchant_id: u128)
        ensures
            final(self).stats() == match value_of(old(self).stats(), merchant_id) {
                Some(s) => Self::changed(old(self).stats(), merchant_id, with_callback(s)),
                None => old(self).stats(),
            },
            old(self).wf() ==> final(self).wf(),
    {
        proof {
            lemma_views_keep_keys(self.stats@, merchant_id);
        }
        let ghost before = self.stats@;
        match self.stats.get_mut(&merchant_id) {
            Some(stats) => {
                stats.record_callback();
            },
            None => {},
        }
        proof {
            lemma_change_keeps_keys(before, self.stats@, merchant_id);
        }
    }

    /// Counts a liquid transaction of the merchant.
    pub fn record_liquid_transaction(&mut self, merchant_id: u128)
        ensures
            final(self).stats() == match value_of(old(self).stats(), merchant_id) {
                Some(s) => Self::changed(old(self).stats(), merchant_id, with_liquid(s)),
                None => old(self).stats(),
            },
            old(self).wf() ==> final(self).wf(),
    {
        proof {
            lemma_views_keep_keys(self.stats@, merchant_id);
        }
        let ghost before = self.stats@;
        match self.stats.get_mut(&merchant_id) {
            Some(stats) => {
                stats.record_liquid_transaction();
            },
            None => {},
        }
        proof {
            lemma_change_keeps_keys(before, self.stats@, merchant_id);
        }
    }

    /// Counts a mock transaction of the merchant.
    pub fn record_non_liquid_transaction(&mut self, merchant_id: u128)
        ensures
            final(self).stats() == match value_of(old(self).stats(), merchant_id) {
                Some(s) => Self::changed(old(self).stats(), merchant_id, with_non_liquid(s)),
                None => old(self).stats(),
            },
            old(self).wf() ==> final(self).wf(),
    {
        proof {
            lemma_views_keep_keys(self.stats@, merchant_id);
        }
        let ghost before = self.stats@;
        match self.stats.get_mut(&merchant_id) {
            Some(stats) => {
                stats.record_non_liquid_transaction();
            },
            None => {},
        }
        proof {
            lemma_change_keeps_keys(before, self.stats@, merchant_id);
        }
    }

    /// Counts a transaction of the merchant seen in the status named `status`.
    pub fn update_status(&mut self, merchant_id: &u128, status: &str)
        ensures
            final(self).stats() == match value_of(old(self).stats(), *merchant_id) {
                Some(s) => Self::changed(old(self).stats(), *merchant_id, with_status(s, status@)),
                None => old(self).stats(),
            },
            old(self).wf() ==> final(self).wf(),
    {
        proof {
            lemma_views_keep_keys(self.stats@, *merchant_id);
        }
        let ghost before = self.stats@;
        match self.stats.get_mut(merchant_id) {
            Some(stats) => {
                stats.update_status(status);
            },
            None => {},
        }
        proof {
            lemma_change_keeps_keys(before, self.stats@, *merchant_id);
        }
    }

    /// The merchant's statistics.
    pub fn get_statistics(&self, merchant_id: &u128) -> (stats: Option<&Statistics>)
        ensures
            match stats {
                Some(s) => value_of(self.stats(), *merchant_id) == Some(s@),
                None => value_of(self.stats(), *merchant_id) is None,
            },
    {
        proof {
            lemma_views_keep_keys(self.stats@, *merchant_id);
        }
        self.stats.get(merchant_id)
    }

    /// The statistics of all merchants, in the order in which they were
    /// first initialized.
    pub fn get_all_statistics(&self) -> (all: Vec<&Statistics>)
        ensures
            all@.len() == self.stats().len(),
            forall|i: int| 0 <= i < all@.len() ==> (#[trigger] all@[i])@ == self.stats()[i].1,
    {
        let mut all: Vec<&Statistics> = Vec::new();
        let mut i: usize = 0;
        while i < self.stats.len()
            invariant
                i <= self.stats@.len(),
                all@.len() == i,
                forall|k: int| 0 <= k < i ==> (#[trigger] all@[k])@ == self.stats@[k].1@,
            decreases self.stats@.len() - i,
        {
            all.push(self.stats.value_at(i));
            i += 1;
        }
        all
    }

    /// Whether the merchant has statistics.
    pub fn has_statistics(&self, merchant_id: &u128) -> (present: bool)
        ensures
            present == has_key(self.stats(), *merchant_id),
    {
        proof {
            lemma_views_keep_keys(self.stats@, *merchant_id);
        }
        self.stats.contains_key(merchant_id)
    }
}

proof fn lemma_views_keep_keys(entries: Seq<(u128, Statistics)>, id: u128)
    ensures
        first_index(views_of(entries), id) == first_index(entries, id),
        has_key(views_of(entries), id) == has_key(entries, id),
        distinct_keys(views_of(entries)) == distinct_keys(entries),
        match value_of(entries, id) {
            Some(s) => value_of(views_of(entries), id) == Some(s@),
            None => value_of(views_of(entries), id) is None,
        },
{
    let views = views_of(entries);
    crate::keyed::lemma_first_index_none(entries, id);
    crate::keyed::lemma_first_index_none(views, id);
    assert forall|i: int| 0 <= i < entries.len() implies (#[trigger] views[i]).0 == entries[i].0 by {}
    match first_index(entries, id) {
        Some(i) => {
            assert(crate::keyed::is_first_at(views, id, i)) by {
                assert(views[i].0 == entries[i].0);
                assert forall|j: int| 0 <= j < i implies (#[trigger] views[j]).0 != id by {
                    assert(views[j].0 == entries[j].0);
                }
            }
            crate::keyed::lemma_first_index_is(views, id, i);
        },
        None => {
            if has_key(views, id) {
                let w = choose|w: int| 0 <= w < views.len() && (#[trigger] views[w]).0 == id;
                assert(entries[w].0 == id);
            }
        },
    }
    if has_key(entries, id) {
        let w = choose|w: int| 0 <= w < entries.len() && (#[trigger] entries[w]).0 == id;
        assert(views[w].0 == id);
    }
    if distinct_keys(entries) {
        assert forall|i: int, j: int| 0 <= i < j < views.len() implies (#[trigger] views[i]).0 != (
        #[trigger] views[j]).0 by {
            assert(views[i].0 == entries[i].0);
            assert(views[j].0 == entries[j].0);
        }
    }
    if distinct_keys(views) {
        assert forall|i: int, j: int| 0 <= i < j < entries.len() implies (#[trigger] entries[i]).0
            != (#[trigger] entries[j]).0 by {
            assert(views[i].0 == entries[i].0);
            assert(views[j].0 == entries[j].0);
        }
    }
}

proof fn lemma_change_keeps_keys(
    before: Seq<(u128, Statistics)>,
    after: Seq<(u128, Statistics)>,
    id: u128,
)
    requires
        match first_index(before, id) {
            Some(i) => after == before.update(i, (id, after[i].1)),
            None => after == before,
        },
    ensures
        match first_index(before, id) {
            Some(i) => views_of(after) == views_of(before).update(i, (id, after[i].1@)),
            None => views_of(after) == views_of(before),
        },
        distinct_keys(views_of(before)) ==> distinct_keys(views_of(after)),
{
    crate::keyed::lemma_first_index_none(before, id);
    match first_index(before, id) {
        Some(i) => {
            assert(views_of(after) =~= views_of(before).update(i, (id, after[i].1@)));
            if distinct_keys(views_of(before)) {
                let va = views_of(after);
                let vb = views_of(before);
                assert forall|a: int, b: int| 0 <= a < b < va.len() implies (#[trigger] va[a]).0 != (
                #[trigger] va[b]).0 by {
                    assert(va[a].0 == vb[a].0);
                    assert(va[b].0 == vb[b].0);
                }
            }
        },
        None => {},
    }
}

} // verus!
