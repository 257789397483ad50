//! Traffic generation for merchants: the registry that admits at most one
//! generator per merchant, and the decisions a generator takes on each turn of
//! its loop. The caller owns the waiting: it sleeps, calls the backend and
//! reports back what happened.

use crate::chance::{choose_method_id, roll_percent};
use crate::keyed::{after_insert, after_remove, distinct_keys, has_key, value_of, Keyed};
use crate::keyed::{lemma_insert_keeps_distinct, lemma_remove_keeps_distinct};
use crate::merchant::Merchant;
use crate::models::Method;
use crate::sampler::{is_selected, WeightedRange, FALLBACK_AMOUNT};
use vstd::prelude::*;

verus! {

/// Capacity of the channel that carries a generator's log lines.
pub const LOG_CHANNEL_CAPACITY: usize = 1000;

/// Why a request to the registry was turned down.
#[derive(Debug, Clone, Copy, PartialEq, Eq, Structural)]
pub enum TrafficError {
    /// A generator is already active for the merchant.
    AlreadyRunning,
    /// No generator is active for the merchant.
    NotRunning,
}

impl TrafficError {
    /// The message shown to the operator.
    pub fn message(&self) -> (text: String)
        ensures
            text@ == match self {
                TrafficError::AlreadyRunning => "Traffic already running for this merchant"@,
                TrafficError::NotRunning => "No active traffic for this merchant"@,
            },
    {
        match self {
            TrafficError::AlreadyRunning => "Traffic already running for this merchant".to_owned(),
            TrafficError::NotRunning => "No active traffic for this merchant".to_owned(),
        }
    }
}

/// What the registry keeps of a running generator: the means to tell it to
/// stop, whether it runs without log lines, and the ticket its start was
/// accepted under. The generator holds the same ticket and shows it when it
/// leaves, so that it takes out its own registration and no later one.
pub struct GeneratorHandle<C> {
    pub cancel: C,
    pub quiet_mode: bool,
    pub ticket: u64,
}

/// Why a generator's loop ends.
#[derive(Debug, Clone, Copy, PartialEq, Eq, Structural)]
pub enum StopReason {
    /// A stop signal was pending.
    Cancelled,
    /// The configured number of transactions has been created.
    LimitReached,
}

/// A transaction that the generator has decided to create.
#[derive(Debug)]
pub struct TransactionPlan {
    /// The amount in whole units.
    pub amount: u64,
    pub is_mock: bool,
    pub method_id: String,
}

/// What a generator does next.
#[derive(Debug)]
pub enum TrafficStep {
    Stop(StopReason),
    Create(TransactionPlan),
}

/// Whether a generator can sample `amount` from `rows`: the fallback amount
/// from an empty table, else an amount within the range that some roll
/// selects.
pub open spec fn can_sample(rows: Seq<WeightedRange>, amount: u64) -> bool {
    if rows.len() == 0 {
        amount == FALLBACK_AMOUNT
    } else {
        exists|roll: u64, row: WeightedRange|
            #![trigger is_selected(rows, roll, row)]
            roll < 100 && is_selected(rows, roll, row) && row.range.holds(amount)
    }
}

/// Whether `id` is a method a generator may pick: one of the fetched methods,
/// or the fallback when none was fetched.
pub open spec fn can_pick(methods: Seq<Method>, fallback: Seq<char>, id: Seq<char>) -> bool {
    if methods.len() == 0 {
        id == fallback
    } else {
        exists|i: int| 0 <= i < methods.len() && (#[trigger] methods[i]).id@ == id
    }
}

/// The state of one generator's loop.
pub struct TrafficRun {
    merchant: Merchant,
    fallback_method: String,
    methods: Vec<Method>,
    created_count: u64,
    quiet_mode: bool,
    ticket: u64,
}

impl TrafficRun {
    /// The merchant this run generates traffic for, as it was at the start.
    pub closed spec fn merchant(&self) -> Merchant {
        self.merchant
    }

    /// The method used when no list of methods could be fetched.
    pub closed spec fn fallback_method(&self) -> Seq<char> {
        self.fallback_method@
    }

    /// The methods fetched at the start of the run.
    pub closed spec fn methods(&self) -> Seq<Method> {
        self.methods@
    }

    /// Number of transactions created so far.
    pub closed spec fn created(&self) -> u64 {
        self.created_count
    }

    /// Whether the run emits no log lines.
    pub closed spec fn quiet(&self) -> bool {
        self.quiet_mode
    }

    /// The ticket the run's start was accepted under.
    pub closed spec fn ticket(&self) -> u64 {
        self.ticket
    }

    /// A run at its start, accepted under `ticket`: nothing created, no
    /// methods fetched yet.
    pub fn new(merchant: Merchant, method_id: String, quiet_mode: bool, ticket: u64) -> (run:
        TrafficRun)
        ensures
            run.merchant() == merchant,
            run.fallback_method() == method_id@,
            run.methods() == Seq::<Method>::empty(),
            run.created() == 0,
            run.quiet() == quiet_mode,
            run.ticket() == ticket,
    {
        TrafficRun {
            merchant,
            fallback_method: method_id,
            methods: Vec::new(),
            created_count: 0,
            quiet_mode,
            ticket,
        }
    }

    /// The ticket the run's start was accepted under.
    pub fn get_ticket(&self) -> (ticket: u64)
        ensures
            ticket == self.ticket(),
    {
        self.ticket
    }

    /// Takes in the outcome of the one attempt to fetch the merchant's
    /// methods: the list on success, nothing on failure. After a failure the
    /// fallback method serves the whole run.
    pub fn methods_fetched(&mut self, fetched: Option<Vec<Method>>)
        ensures
            final(self).methods() == match fetched {
                Some(list) => list@,
                None => Seq::<Method>::empty(),
            },
            final(self).merchant() == old(self).merchant(),
            final(self).fallback_method() == old(self).fallback_method(),
            final(self).created() == old(self).created(),
            final(self).quiet() == old(self).quiet(),
            final(self).ticket() == old(self).ticket(),
    {
        match fetched {
            Some(list) => {
                self.methods = list;
            },
            None => {
                self.methods = Vec::new();
            },
        }
    }

    /// Number of transactions created so far.
    pub fn created_count(&self) -> (count: u64)
        ensures
            count == self.created(),
    {
        self.created_count
    }

    /// Whether the run emits no log lines.
    pub fn is_quiet(&self) -> (quiet: bool)
        ensures
            quiet == self.quiet(),
    {
        self.quiet_mode
    }

    /// Id of the merchant this run belongs to.
    pub fn merchant_id(&self) -> (id: u128)
        ensures
            id == self.merchant().id,
    {
        self.merchant.id
    }

    /// Why the loop must end before creating another transaction, if it must:
    /// a pending stop signal comes first, the transaction cap second.
    pub open spec fn stop_reason(&self, stop_signalled: bool) -> Option<StopReason> {
        if stop_signalled {
            Some(StopReason::Cancelled)
        } else if self.merchant().traffic_config.cap_reached(self.created()) {
            Some(StopReason::LimitReached)
        } else {
            None
        }
    }

    /// Exec form of `stop_reason`.
    pub fn should_stop(&self, stop_signalled: bool) -> (reason: Option<StopReason>)
        ensures
            reason == self.stop_reason(stop_signalled),
    {
        if stop_signalled {
            Some(StopReason::Cancelled)
        } else if self.merchant.traffic_config.limit_reached(self.created_count) {
            Some(StopReason::LimitReached)
        } else {
            None
        }
    }

    /// Puts a plan together from the three draws of one turn: the sampled
    /// amount, the liquidity draw and the method picked from the fetched list.
    /// The transaction is a mock unless the draw makes it liquid; the fallback
    /// method stands in where nothing was picked.
    pub fn plan_from(&self, amount: u64, liquidity_draw: u64, picked: Option<String>) -> (plan:
        TransactionPlan)
        ensures
            plan.amount == amount,
            plan.is_mock == !self.merchant().liquid_at(liquidity_draw),
            plan.method_id@ == match picked {
                Some(id) => id@,
                None => self.fallback_method(),
            },
    {
        let is_mock = !self.merchant.is_liquid_for(liquidity_draw);
        let method_id = match picked {
            Some(id) => id,
            None => self.fallback_method.clone(),
        };
        TransactionPlan { amount, is_mock, method_id }
    }

    /// Decides one turn of the loop. `stop_signalled` says whether a stop
    /// signal was pending when the turn began.
    pub fn next_step(&self, stop_signalled: bool) -> (step: TrafficStep)
        ensures
            match self.stop_reason(stop_signalled) {
                Some(reason) => step == TrafficStep::Stop(reason),
                None => step matches TrafficStep::Create(plan) && can_sample(
                    self.merchant().traffic_config.amount_probabilities@,
                    plan.amount,
                ) && can_pick(self.methods(), self.fallback_method(), plan.method_id@) && (
                exists|draw: u64|
                    draw < 100 && plan.is_mock == !(#[trigger] self.merchant().liquid_at(draw))),
            },
    {
        match self.should_stop(stop_signalled) {
            Some(reason) => TrafficStep::Stop(reason),
            None => {
                let amount = self.merchant.traffic_config.amount_probabilities.generate_amount();
                let liquidity_draw = roll_percent();
                let picked = choose_method_id(&self.methods);
                let plan = self.plan_from(amount, liquidity_draw, picked);
                assert(plan.is_mock == !self.merchant().liquid_at(liquidity_draw));
                TrafficStep::Create(plan)
            },
        }
    }

    /// Takes in the outcome of creating the planned transaction: a success
    /// counts towards the cap, a failure does not.
    pub fn record_outcome(&mut self, created: bool)
        ensures
            final(self).created() == if created && old(self).created() < u64::MAX {
                (old(self).created() + 1) as u64
            } else {
                old(self).created()
            },
            final(self).merchant() == old(self).merchant(),
            final(self).fallback_method() == old(self).fallback_method(),
            final(self).methods() == old(self).methods(),
            final(self).quiet() == old(self).quiet(),
            final(self).ticket() == old(self).ticket(),
    {
        if created && self.created_count < u64::MAX {
            self.created_count = self.created_count + 1;
        }
    }

    /// The delay before the next turn, in milliseconds.
    pub fn next_delay(&self) -> (delay: u64)
        ensures
            self.merchant().traffic_config.interval_variance == 0 ==> delay
                == self.merchant().traffic_config.interval_ms,
            crate::merchant::shortest_delay(self.merchant().traffic_config) <= delay
                <= crate::merchant::longest_delay(self.merchant().traffic_config),
    {
        self.merchant.traffic_config.next_delay()
    }
}

/// What a start request answers for a merchant, given the running generators.
pub open spec fn start_outcome<C>(running: Seq<(u128, GeneratorHandle<C>)>, id: u128) -> Result<
    (),
    TrafficError,
> {
    if has_key(running, id) {
        Err(TrafficError::AlreadyRunning)
    } else {
        Ok(())
    }
}

/// The running generators after a start request: one more where it is
/// accepted, the same where it is not.
pub open spec fn after_start<C>(
    running: Seq<(u128, GeneratorHandle<C>)>,
    id: u128,
    handle: GeneratorHandle<C>,
) -> Seq<(u128, GeneratorHandle<C>)> {
    if has_key(running, id) {
        running
    } else {
        running.push((id, handle))
    }
}

/// What a stop request answers for a merchant, given the running generators.
pub open spec fn stop_outcome<C>(running: Seq<(u128, GeneratorHandle<C>)>, id: u128) -> Result<
    C,
    TrafficError,
> {
    match value_of(running, id) {
        Some(handle) => Ok(handle.cancel),
        None => Err(TrafficError::NotRunning),
    }
}

/// The running generators after a generator that holds `ticket` has left: its
/// own registration is taken out; a registration under another ticket, made
/// by a later start for the same merchant, stays.
pub open spec fn after_finish<C>(
    running: Seq<(u128, GeneratorHandle<C>)>,
    id: u128,
    ticket: u64,
) -> Seq<(u128, GeneratorHandle<C>)> {
    match value_of(running, id) {
        Some(handle) => if handle.ticket == ticket {
            after_remove(running, id)
        } else {
            running
        },
        None => running,
    }
}

/// Every registration was made under a ticket below `next`.
pub open spec fn tickets_below<C>(running: Seq<(u128, GeneratorHandle<C>)>, next: u64) -> bool {
    forall|i: int| 0 <= i < running.len() ==> (#[trigger] running[i]).1.ticket < next
}

/// The ticket counter after a start request: one more where the start is
/// accepted, until the counter has reached the largest number it can hold.
pub open spec fn counter_after_start<C>(
    running: Seq<(u128, GeneratorHandle<C>)>,
    id: u128,
    next: u64,
) -> u64 {
    if !has_key(running, id) && next < u64::MAX {
        (next + 1) as u64
    } else {
        next
    }
}

/// The registry of running generators and of the channels that carry their log
/// lines. `C` is the means to signal a generator, `L` the sending end of a log
/// channel; the registry stores both and never looks inside. Every accepted
/// start gets the next ticket of a counter.
pub struct TrafficGenerator<C, L> {
    active_generators: Keyed<u128, GeneratorHandle<C>>,
    log_channels: Keyed<u128, L>,
    next_ticket: u64,
}

impl<C, L> TrafficGenerator<C, L> {
    /// The running generators, by merchant id.
    pub closed spec fn running(&self) -> Seq<(u128, GeneratorHandle<C>)> {
        self.active_generators@
    }

    /// The open log channels, by merchant id.
    pub closed spec fn channels(&self) -> Seq<(u128, L)> {
        self.log_channels@
    }

    /// The ticket that the next accepted start gets.
    pub closed spec fn next_ticket(&self) -> u64 {
        self.next_ticket
    }

    /// No merchant has two generators, nor two log channels.
    pub open spec fn wf(&self) -> bool {
        distinct_keys(self.running()) && distinct_keys(self.channels())
    }

    /// Every registration was made under a ticket that the counter has
    /// passed, so the next ticket differs from all of them.
    pub open spec fn fresh_tickets(&self) -> bool {
        tickets_below(self.running(), self.next_ticket())
    }

    /// A registry with nothing running.
    pub fn new() -> (registry: TrafficGenerator<C, L>)
        ensures
            registry.running() == Seq::<(u128, GeneratorHandle<C>)>::empty(),
            registry.channels() == Seq::<(u128, L)>::empty(),
            registry.next_ticket() == 0,
            registry.wf(),
            registry.fresh_tickets(),
    {
        TrafficGenerator {
            active_generators: Keyed::new(),
            log_channels: Keyed::new(),
            next_ticket: 0,
        }
    }

    /// Admits a generator for `merchant` unless one is running already. The
    /// check and the entry are one step. On success the registration is made
    /// under the counter's next ticket, and the answer is the state the new
    /// generator's loop starts from, which holds that ticket; on refusal
    /// nothing changes.
    pub fn start_traffic(
        &mut self,
        merchant: Merchant,
        method_id: String,
        quiet_mode: bool,
        cancel: C,
    ) -> (outcome: Result<TrafficRun, TrafficError>)
        ensures
            final(self).running() == after_start(
                old(self).running(),
                merchant.id,
                GeneratorHandle { cancel, quiet_mode, ticket: old(self).next_ticket() },
            ),
            final(self).channels() == old(self).channels(),
            final(self).next_ticket() == counter_after_start(
                old(self).running(),
                merchant.id,
                old(self).next_ticket(),
            ),
            old(self).wf() ==> final(self).wf(),
            old(self).fresh_tickets() && old(self).next_ticket() < u64::MAX ==> final(self).fresh_tickets(),
            match start_outcome(old(self).running(), merchant.id) {
                Ok(_) => outcome matches Ok(run) && run.merchant() == merchant
                    && run.fallback_method() == method_id@ && run.methods() == Seq::<
                    Method,
                >::empty() && run.created() == 0 && run.quiet() == quiet_mode && run.ticket()
                    == old(self).next_ticket(),
                Err(error) => outcome matches Err(e) && e == error,
            },
    {
        if self.active_generators.contains_key(&merchant.id) {
            return Err(TrafficError::AlreadyRunning);
        }
        proof {
            crate::keyed::lemma_first_index_none(self.running(), merchant.id);
        }
        let id = merchant.id;
        let ticket = self.next_ticket;
        let ghost before = self.running();
        self.active_generators.insert(id, GeneratorHandle { cancel, quiet_mode, ticket });
        if self.next_ticket < u64::MAX {
            self.next_ticket = self.next_ticket + 1;
        }
        proof {
            if tickets_below(before, ticket) && ticket < u64::MAX {
                let after = self.running();
                assert forall|i: int| 0 <= i < after.len() implies (#[trigger] after[i]).1.ticket
                    < self.next_ticket by {
                    if i < before.len() {
                        assert(after[i] == before[i]);
                    }
                }
            }
        }
        Ok(TrafficRun::new(merchant, method_id, quiet_mode, ticket))
    }

    /// Takes the merchant's generator out of the registry and hands back the
    /// means to signal it. The generator sees the signal at its next turn.
    pub fn stop_traffic(&mut self, merchant_id: &u128) -> (outcome: Result<C, TrafficError>)
        ensures
            outcome == stop_outcome(old(self).running(), *merchant_id),
            final(self).running() == after_remove(old(self).running(), *merchant_id),
            final(self).channels() == old(self).channels(),
            final(self).next_ticket() == old(self).next_ticket(),
            old(self).wf() ==> final(self).wf() && !has_key(final(self).running(), *merchant_id),
            old(self).fresh_tickets() ==> final(self).fresh_tickets(),
    {
        proof {
            if tickets_below(self.running(), self.next_ticket()) {
                lemma_remove_keeps_tickets(self.running(), *merchant_id, self.next_ticket());
            }
        }
        match self.active_generators.remove(merchant_id) {
            Some(handle) => Ok(handle.cancel),
            None => Err(TrafficError::NotRunning),
        }
    }

    /// Empties the registry and hands back the means to signal every
    /// generator that was running, in the order in which they started.
    pub fn stop_all_traffic(&mut self) -> (signals: Vec<C>)
        ensures
            final(self).running() == Seq::<(u128, GeneratorHandle<C>)>::empty(),
            final(self).channels() == old(self).channels(),
            signals@.len() == old(self).running().len(),
            forall|i: int|
                0 <= i < signals@.len() ==> signals@[i] == (#[trigger] old(self).running()[i]).1.cancel,
            final(self).next_ticket() == old(self).next_ticket(),
            old(self).wf() ==> final(self).wf(),
            final(self).fresh_tickets(),
    {
        let ghost before = self.running();
        let mut handles = self.active_generators.drain();
        let mut signals: Vec<C> = Vec::new();
        while handles.len() > 0
            invariant
                signals@.len() + handles@.len() == before.len(),
                forall|i: int|
                    0 <= i < signals@.len() ==> signals@[i] == (#[trigger] before[i]).1.cancel,
                forall|i: int|
                    0 <= i < handles@.len() ==> (#[trigger] handles@[i]) == before[signals@.len()
                        + i].1,
            decreases handles.len(),
        {
            let ghost rest = handles@;
            let handle = handles.remove(0);
            assert(handles@ =~= rest.remove(0));
            signals.push(handle.cancel);
        }
        signals
    }

    /// Whether a generator is running for the merchant.
    pub fn is_running(&self, merchant_id: &u128) -> (running: bool)
        ensures
            running == has_key(self.running(), *merchant_id),
    {
        self.active_generators.contains_key(merchant_id)
    }

    /// Whether a generator is running for the merchant and, if so, whether it
    /// runs quietly: `(true, quiet)` for a running generator.
    pub fn get_traffic_info(&self, merchant_id: &u128) -> (info: Option<(bool, bool)>)
        ensures
            info == match value_of(self.running(), *merchant_id) {
                Some(handle) => Some((true, handle.quiet_mode)),
                None => None,
            },
    {
        match self.active_generators.get(merchant_id) {
            Some(handle) => Some((true, handle.quiet_mode)),
            None => None,
        }
    }

    /// Called by a generator when its loop has ended, for whatever reason. The
    /// generator shows the ticket its start was accepted under: its own
    /// registration is taken out; a registration that a later start made for
    /// the same merchant, under another ticket, stays. A generator that was not
    /// quiet gives up the merchant's log channel, which is handed back to be
    /// closed.
    pub fn finish_traffic(&mut self, merchant_id: &u128, ticket: u64, quiet_mode: bool) -> (closed:
        Option<L>)
        ensures
            final(self).running() == after_finish(old(self).running(), *merchant_id, ticket),
            final(self).next_ticket() == old(self).next_ticket(),
            quiet_mode ==> closed is None && final(self).channels() == old(self).channels(),
            !quiet_mode ==> closed == value_of(old(self).channels(), *merchant_id) && final(self).channels() == after_remove(old(self).channels(), *merchant_id),
            old(self).wf() ==> final(self).wf() && !(value_of(final(self).running(), *merchant_id)
                matches Some(handle) && handle.ticket == ticket),
            old(self).wf() && !quiet_mode ==> !has_key(final(self).channels(), *merchant_id),
            old(self).fresh_tickets() ==> final(self).fresh_tickets(),
    {
        proof {
            if distinct_keys(self.channels()) {
                lemma_remove_keeps_distinct(self.channels(), *merchant_id);
            }
            if tickets_below(self.running(), self.next_ticket()) {
                lemma_remove_keeps_tickets(self.running(), *merchant_id, self.next_ticket());
            }
            crate::keyed::lemma_first_index_none(self.running(), *merchant_id);
            if distinct_keys(self.running()) {
                lemma_remove_keeps_distinct(self.running(), *merchant_id);
                crate::keyed::lemma_first_index_none(
                    after_remove(self.running(), *merchant_id),
                    *merchant_id,
                );
            }
        }
        let own = match self.active_generators.get(merchant_id) {
            Some(handle) => handle.ticket == ticket,
            None => false,
        };
        if own {
            let _ = self.active_generators.remove(merchant_id);
        }
        if !quiet_mode {
            self.log_channels.remove(merchant_id)
        } else {
            None
        }
    }

    /// Registers the sending end of the merchant's log channel and hands back
    /// the one it replaces, if any.
    pub fn create_log_channel(&mut self, merchant_id: u128, sender: L) -> (replaced: Option<L>)
        ensures
            replaced == value_of(old(self).channels(), merchant_id),
            final(self).channels() == after_insert(old(self).channels(), merchant_id, sender),
            final(self).running() == old(self).running(),
            final(self).next_ticket() == old(self).next_ticket(),
            old(self).wf() ==> final(self).wf(),
    {
        self.log_channels.insert(merchant_id, sender)
    }

    /// The sending end of the merchant's log channel, if one is open.
    pub fn get_log_sender(&self, merchant_id: &u128) -> (sender: Option<&L>)
        ensures
            match sender {
                Some(s) => value_of(self.channels(), *merchant_id) == Some(*s),
                None => value_of(self.channels(), *merchant_id) is None,
            },
    {
        self.log_channels.get(merchant_id)
    }

    /// The channel a generator logs to: none in quiet mode, else the
    /// merchant's open channel, if any.
    pub fn log_sender_for(&self, merchant_id: &u128, quiet_mode: bool) -> (sender: Option<&L>)
        ensures
            quiet_mode ==> sender is None,
            !quiet_mode ==> match sender {
                Some(s) => value_of(self.channels(), *merchant_id) == Some(*s),
                None => value_of(self.channels(), *merchant_id) is None,
            },
    {
        if quiet_mode {
            None
        } else {
            self.log_channels.get(merchant_id)
        }
    }

    /// Closes the merchant's log channel and hands back its sending end.
    pub fn remove_log_channel(&mut self, merchant_id: &u128) -> (removed: Option<L>)
        ensures
            removed == value_of(old(self).channels(), *merchant_id),
            final(self).channels() == after_remove(old(self).channels(), *merchant_id),
            final(self).running() == old(self).running(),
            final(self).next_ticket() == old(self).next_ticket(),
            old(self).wf() ==> final(self).wf(),
    {
        self.log_channels.remove(merchant_id)
    }

    /// Number of running generators.
    pub fn active_count(&self) -> (n: usize)
        ensures
            n == self.running().len(),
    {
        self.active_generators.len()
    }
}

/// At most one generator is active per merchant: once a start has been
/// accepted, a second start for the same merchant is refused as already
/// running and leaves the running generators, the first one among them, as
/// they are.
pub proof fn lemma_second_start_is_refused<C>(
    running: Seq<(u128, GeneratorHandle<C>)>,
    id: u128,
    first: GeneratorHandle<C>,
    second: GeneratorHandle<C>,
)
    requires
        distinct_keys(running),
        start_outcome(running, id) is Ok,
    ensures
        start_outcome(after_start(running, id, first), id) == Err::<(), TrafficError>(
            TrafficError::AlreadyRunning,
        ),
        after_start(after_start(running, id, first), id, second) == after_start(
            running,
            id,
            first,
        ),
        value_of(after_start(running, id, first), id) == Some(first),
        distinct_keys(after_start(running, id, first)),
{
    crate::keyed::lemma_first_index_none(running, id);
    lemma_insert_keeps_distinct(running, id, first);
    assert(after_start(running, id, first) == after_insert(running, id, first));
    let after = after_start(running, id, first);
    crate::keyed::lemma_first_index_none(after, id);
}

/// A stop followed by a start for the same merchant succeeds: the stop takes
/// the generator out of the registry, so the start finds none.
pub proof fn lemma_start_after_stop_succeeds<C>(
    running: Seq<(u128, GeneratorHandle<C>)>,
    id: u128,
    again: GeneratorHandle<C>,
)
    requires
        distinct_keys(running),
        stop_outcome(running, id) is Ok,
    ensures
        start_outcome(after_remove(running, id), id) is Ok,
        value_of(after_start(after_remove(running, id), id, again), id) == Some(again),
        distinct_keys(after_start(after_remove(running, id), id, again)),
{
    lemma_remove_keeps_distinct(running, id);
    let stopped = after_remove(running, id);
    crate::keyed::lemma_first_index_none(stopped, id);
    lemma_insert_keeps_distinct(stopped, id, again);
    assert(after_start(stopped, id, again) == after_insert(stopped, id, again));
}

/// Taking a registration out leaves every other one under its ticket.
pub proof fn lemma_remove_keeps_tickets<C>(
    running: Seq<(u128, GeneratorHandle<C>)>,
    id: u128,
    next: u64,
)
    requires
        tickets_below(running, next),
    ensures
        tickets_below(after_remove(running, id), next),
{
    crate::keyed::lemma_first_index_none(running, id);
    let after = after_remove(running, id);
    match crate::keyed::first_index(running, id) {
        Some(i) => {
            assert forall|j: int| 0 <= j < after.len() implies (#[trigger] after[j]).1.ticket
                < next by {
                let j0 = if j < i { j } else { j + 1 };
                assert(after[j] == running[j0]);
            }
        },
        None => {},
    }
}

/// A generator that leaves takes out its own registration and no other: where
/// the merchant's registration was made under the ticket it shows, the
/// merchant has none afterwards; where a later start has made one under
/// another ticket, that one stays and the merchant is still running.
pub proof fn lemma_exit_removes_only_itself<C>(
    running: Seq<(u128, GeneratorHandle<C>)>,
    id: u128,
    ticket: u64,
)
    requires
        distinct_keys(running),
    ensures
        match value_of(running, id) {
            Some(handle) => if handle.ticket == ticket {
                !has_key(after_finish(running, id, ticket), id)
            } else {
                after_finish(running, id, ticket) == running && value_of(
                    after_finish(running, id, ticket),
                    id,
                ) == Some(handle) && start_outcome(after_finish(running, id, ticket), id) == Err::<
                    (),
                    TrafficError,
                >(TrafficError::AlreadyRunning)
            },
            None => after_finish(running, id, ticket) == running,
        },
        distinct_keys(after_finish(running, id, ticket)),
{
    crate::keyed::lemma_first_index_none(running, id);
    lemma_remove_keeps_distinct(running, id);
}

/// A start, a stop, a second start and then the exit of the first generator
/// leave the second generator registered: the first one shows its own ticket,
/// which the second registration does not carry, so a third start is refused.
pub proof fn lemma_earlier_exit_leaves_later_start<C>(
    running: Seq<(u128, GeneratorHandle<C>)>,
    id: u128,
    first: GeneratorHandle<C>,
    second: GeneratorHandle<C>,
)
    requires
        distinct_keys(running),
        start_outcome(running, id) is Ok,
        first.ticket != second.ticket,
    ensures
        ({
            let started = after_start(running, id, first);
            let stopped = after_remove(started, id);
            let restarted = after_start(stopped, id, second);
            let left = after_finish(restarted, id, first.ticket);
            &&& stop_outcome(started, id) == Ok::<C, TrafficError>(first.cancel)
            &&& start_outcome(stopped, id) is Ok
            &&& left == restarted
            &&& value_of(left, id) == Some(second)
            &&& start_outcome(left, id) == Err::<(), TrafficError>(TrafficError::AlreadyRunning)
            &&& distinct_keys(left)
        }),
{
    let started = after_start(running, id, first);
    lemma_second_start_is_refused(running, id, first, second);
    lemma_start_after_stop_succeeds(started, id, second);
    let stopped = after_remove(started, id);
    let restarted = after_start(stopped, id, second);
    lemma_exit_removes_only_itself(restarted, id, first.ticket);
    crate::keyed::lemma_first_index_none(restarted, id);
}

/// Tickets come from a counter that never goes back: an accepted start takes
/// the counter's number as its ticket and moves the counter past it, as long
/// as the counter has not reached the largest number it can hold. So the
/// ticket of an earlier start differs from that of every later one.
pub proof fn lemma_counter_moves_past_ticket<C>(
    running: Seq<(u128, GeneratorHandle<C>)>,
    id: u128,
    next: u64,
)
    ensures
        counter_after_start(running, id, next) >= next,
        !has_key(running, id) && next < u64::MAX ==> counter_after_start(running, id, next) == next
            + 1,
{
}

/// A run with a cap stops for that reason exactly when it has created as many
/// transactions as the cap allows and no stop signal is pending; until then it
/// goes on.
pub proof fn lemma_run_ends_at_the_cap(run: TrafficRun, max: u64)
    requires
        run.merchant().traffic_config.max_transactions == Some(max),
    ensures
        run.stop_reason(false) == if run.created() >= max {
            Some(StopReason::LimitReached)
        } else {
            None::<StopReason>
        },
        run.stop_reason(true) == Some(StopReason::Cancelled),
{
}

} // verus!
