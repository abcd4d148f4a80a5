//! Questions about many payment attempts at once, which only the durable
//! store answers: how many attempts pass a filter, and which connectors,
//! currencies and payment methods occur among the attempts of a list of
//! payments.

use crate::enums::{Connector, Currency, IntentStatus, MerchantStorageScheme, PaymentMethod};
use crate::errors::{data_error, diesel_error_to_data_error, DatabaseError, StorageError};
use crate::memory::backend::MemoryBackend;
use crate::memory::state::BackendState;
use crate::router::store::{KVRouterStore, RouterStore};
use crate::search::{all, Criterion};
use crate::storage;
use vstd::prelude::*;

verus! {

/// What is read of a payment to list its attempts: the attempt that counts
/// for the payment, and the status of the payment.
#[derive(Debug, PartialEq)]
pub struct PaymentIntent {
    pub payment_id: String,
    pub merchant_id: String,
    pub status: IntentStatus,
    pub active_attempt_id: String,
}

/// What occurs among the attempts of a list of payments.
#[derive(Debug, PartialEq)]
pub struct PaymentListFilters {
    pub connector: Vec<String>,
    pub currency: Vec<Currency>,
    pub status: Vec<IntentStatus>,
    pub payment_method: Vec<PaymentMethod>,
}

/// The texts of a list of strings.
pub open spec fn names(strings: Seq<String>) -> Seq<Seq<char>> {
    strings.map_values(|s: String| s@)
}

/// The names of a list of connectors.
pub open spec fn connector_names(connectors: Seq<Connector>) -> Seq<Seq<char>> {
    connectors.map_values(|c: Connector| c.name())
}

/// The attempts of a merchant that are among the given ones and, where a
/// list of connectors or of payment methods is given, have one of these.
pub struct AttemptFilter {
    pub merchant_id: Seq<char>,
    pub active_attempt_ids: Seq<Seq<char>>,
    pub connector: Option<Seq<Seq<char>>>,
    pub payment_methods: Option<Seq<PaymentMethod>>,
}

impl Criterion<storage::PaymentAttempt> for AttemptFilter {
    open spec fn accepts(&self, row: storage::PaymentAttempt) -> bool {
        &&& row.merchant_id@ == self.merchant_id
        &&& self.active_attempt_ids.contains(row.attempt_id@)
        &&& match self.connector {
            Some(wanted) => row.connector matches Some(c) && wanted.contains(c@),
            None => true,
        }
        &&& match self.payment_methods {
            Some(wanted) => row.payment_method matches Some(m) && wanted.contains(m),
            None => true,
        }
    }
}

/// The filter that a question about the number of attempts describes.
pub open spec fn filter_of(
    merchant_id: Seq<char>,
    active_attempt_ids: Seq<String>,
    connector: Option<Vec<String>>,
    payment_methods: Option<Vec<PaymentMethod>>,
) -> AttemptFilter {
    AttemptFilter {
        merchant_id,
        active_attempt_ids: names(active_attempt_ids),
        connector: match connector {
            Some(wanted) => Some(names(wanted@)),
            None => None,
        },
        payment_methods: match payment_methods {
            Some(wanted) => Some(wanted@),
            None => None,
        },
    }
}

/// The items of a sequence, each once, in the order in which they first
/// occur.
pub open spec fn distinct<T>(s: Seq<T>) -> Seq<T>
    decreases s.len(),
{
    if s.len() == 0 {
        Seq::empty()
    } else {
        let earlier = distinct(s.drop_last());
        if earlier.contains(s.last()) {
            earlier
        } else {
            earlier.push(s.last())
        }
    }
}

/// The connectors that occur among rows, each once, in the order in which
/// they first occur.
pub open spec fn connectors_among(rows: Seq<storage::PaymentAttempt>) -> Seq<Seq<char>>
    decreases rows.len(),
{
    if rows.len() == 0 {
        Seq::empty()
    } else {
        let earlier = connectors_among(rows.drop_last());
        match rows.last().connector {
            Some(c) => if earlier.contains(c@) {
                earlier
            } else {
                earlier.push(c@)
            },
            None => earlier,
        }
    }
}

/// The currencies that occur among rows, each once, in the order in which
/// they first occur.
pub open spec fn currencies_among(rows: Seq<storage::PaymentAttempt>) -> Seq<Currency>
    decreases rows.len(),
{
    if rows.len() == 0 {
        Seq::empty()
    } else {
        let earlier = currencies_among(rows.drop_last());
        match rows.last().currency {
            Some(c) => if earlier.contains(c) {
                earlier
            } else {
                earlier.push(c)
            },
            None => earlier,
        }
    }
}

/// The payment methods that occur among rows, each once, in the order in
/// which they first occur.
pub open spec fn payment_methods_among(rows: Seq<storage::PaymentAttempt>) -> Seq<PaymentMethod>
    decreases rows.len(),
{
    if rows.len() == 0 {
        Seq::empty()
    } else {
        let earlier = payment_methods_among(rows.drop_last());
        match rows.last().payment_method {
            Some(m) => if earlier.contains(m) {
                earlier
            } else {
                earlier.push(m)
            },
            None => earlier,
        }
    }
}

/// The attempts that count for a list of payments.
pub open spec fn active_attempt_ids(intents: Seq<PaymentIntent>) -> Seq<Seq<char>> {
    intents.map_values(|pi: PaymentIntent| pi.active_attempt_id@)
}

/// The statuses of a list of payments.
pub open spec fn intent_statuses(intents: Seq<PaymentIntent>) -> Seq<IntentStatus> {
    intents.map_values(|pi: PaymentIntent| pi.status)
}

impl BackendState {
    /// The attempts of a merchant that count for a list of payments.
    pub open spec fn active_attempts(
        self,
        intents: Seq<PaymentIntent>,
        merchant_id: Seq<char>,
    ) -> Seq<storage::PaymentAttempt> {
        all(
            self.rows,
            AttemptFilter {
                merchant_id,
                active_attempt_ids: active_attempt_ids(intents),
                connector: None,
                payment_methods: None,
            },
        )
    }

    /// How many attempts pass a filter, as the durable store counts them.
    pub open spec fn count_attempts(self, filter: AttemptFilter) -> Result<i64, DatabaseError> {
        if !self.database_online {
            Err(DatabaseError::DatabaseConnectionError)
        } else if all(self.rows, filter).len() > i64::MAX {
            Err(DatabaseError::Others)
        } else {
            Ok(all(self.rows, filter).len() as i64)
        }
    }
}

fn contains_text(list: &Vec<String>, text: &str) -> (r: bool)
    ensures
        r == names(list@).contains(text@),
{
    let ghost views = names(list@);
    let mut i: usize = 0;
    while i < list.len()
        invariant
            i <= list.len(),
            views == names(list@),
            forall|j: int| 0 <= j < i ==> views[j] != text@,
        decreases list.len() - i,
    {
        if *list[i].as_str() == *text {
            assert(views[i as int] == text@);
            return true;
        }
        i += 1;
    }
    false
}

fn contains_currency(list: &Vec<Currency>, item: Currency) -> (r: bool)
    ensures
        r == list@.contains(item),
{
    let mut i: usize = 0;
    while i < list.len()
        invariant
            i <= list.len(),
            forall|j: int| 0 <= j < i ==> list@[j] != item,
        decreases list.len() - i,
    {
        if list[i] == item {
            return true;
        }
        i += 1;
    }
    false
}

fn contains_payment_method(list: &Vec<PaymentMethod>, item: PaymentMethod) -> (r: bool)
    ensures
        r == list@.contains(item),
{
    let mut i: usize = 0;
    while i < list.len()
        invariant
            i <= list.len(),
            forall|j: int| 0 <= j < i ==> list@[j] != item,
        decreases list.len() - i,
    {
        if list[i] == item {
            return true;
        }
        i += 1;
    }
    false
}

fn contains_status(list: &Vec<IntentStatus>, item: IntentStatus) -> (r: bool)
    ensures
        r == list@.contains(item),
{
    let mut i: usize = 0;
    while i < list.len()
        invariant
            i <= list.len(),
            forall|j: int| 0 <= j < i ==> list@[j] != item,
        decreases list.len() - i,
    {
        if list[i] == item {
            return true;
        }
        i += 1;
    }
    false
}

/// The names of connectors, as the durable store filters by them.
pub fn connector_strings(connectors: &Vec<Connector>) -> (r: Vec<String>)
    ensures
        names(r@) == connector_names(connectors@),
{
    let mut out: Vec<String> = Vec::new();
    let mut i: usize = 0;
    while i < connectors.len()
        invariant
            i <= connectors.len(),
            names(out@) == connector_names(connectors@.take(i as int)),
        decreases connectors.len() - i,
    {
        let ghost earlier = out@;
        out.push(connectors[i].to_string());
        assert(connectors@.take(i + 1) =~= connectors@.take(i as int).push(connectors@[i as int]));
        assert(names(out@) =~= names(earlier).push(connectors@[i as int].name()));
        assert(connector_names(connectors@.take(i + 1)) =~= connector_names(
            connectors@.take(i as int),
        ).push(connectors@[i as int].name()));
        i += 1;
    }
    assert(connectors@.take(connectors.len() as int) =~= connectors@);
    out
}

fn passes(
    row: &storage::PaymentAttempt,
    merchant_id: &str,
    active_attempt_ids: &Vec<String>,
    connector: &Option<Vec<String>>,
    payment_methods: &Option<Vec<PaymentMethod>>,
) -> (r: bool)
    ensures
        r == filter_of(merchant_id@, active_attempt_ids@, *connector, *payment_methods).accepts(
            *row,
        ),
{
    if !(*row.merchant_id.as_str() == *merchant_id) {
        return false;
    }
    if !contains_text(active_attempt_ids, row.attempt_id.as_str()) {
        return false;
    }
    let connector_passes = match connector {
        Some(wanted) => match &row.connector {
            Some(c) => contains_text(wanted, c.as_str()),
            None => false,
        },
        None => true,
    };
    let method_passes = match payment_methods {
        Some(wanted) => match row.payment_method {
            Some(m) => contains_payment_method(wanted, m),
            None => false,
        },
        None => true,
    };
    connector_passes && method_passes
}

proof fn lemma_all_take_step<T, C: Criterion<T>>(s: Seq<T>, c: C, i: int)
    requires
        0 <= i < s.len(),
    ensures
        all(s.take(i + 1), c) == if c.accepts(s[i]) {
            all(s.take(i), c).push(s[i])
        } else {
            all(s.take(i), c)
        },
{
    assert(s.take(i + 1).drop_last() =~= s.take(i));
    assert(s.take(i + 1).last() == s[i]);
}

impl MemoryBackend {
    /// Counts the attempts of a merchant that are among the given ones and,
    /// where a list of connectors or of payment methods is given, have one
    /// of these.
    pub fn count_attempts(
        &self,
        merchant_id: &str,
        active_attempt_ids: &Vec<String>,
        connector: &Option<Vec<String>>,
        payment_methods: &Option<Vec<PaymentMethod>>,
    ) -> (r: Result<i64, DatabaseError>)
        ensures
            r == self@.count_attempts(
                filter_of(merchant_id@, active_attempt_ids@, *connector, *payment_methods),
            ),
    {
        if !self.database_online() {
            return Err(DatabaseError::DatabaseConnectionError);
        }
        let ghost filter = filter_of(
            merchant_id@,
            active_attempt_ids@,
            *connector,
            *payment_methods,
        );
        let rows = self.stored_rows();
        let mut count: i64 = 0;
        let mut i: usize = 0;
        assert(rows@.take(0) =~= Seq::empty());
        while i < rows.len()
            invariant
                i <= rows.len(),
                rows@ == self@.rows,
                self@.database_online,
                filter == filter_of(
                    merchant_id@,
                    active_attempt_ids@,
                    *connector,
                    *payment_methods,
                ),
                0 <= count,
                count == all(rows@.take(i as int), filter).len(),
                all(rows@.take(i as int), filter).len() <= all(rows@, filter).len(),
            decreases rows.len() - i,
        {
            proof {
                lemma_all_take_step(rows@, filter, i as int);
                lemma_all_grows(rows@, filter, i + 1);
            }
            if passes(&rows[i], merchant_id, active_attempt_ids, connector, payment_methods) {
                if count == i64::MAX {
                    return Err(DatabaseError::Others);
                }
                count += 1;
            }
            i += 1;
        }
        assert(rows@.take(rows.len() as int) =~= rows@);
        Ok(count)
    }
}

proof fn lemma_all_grows<T, C: Criterion<T>>(s: Seq<T>, c: C, n: int)
    requires
        0 <= n <= s.len(),
    ensures
        all(s.take(n), c).len() <= all(s, c).len(),
    decreases s.len() - n,
{
    if n == s.len() {
        assert(s.take(n) =~= s);
    } else {
        lemma_all_grows(s, c, n + 1);
        lemma_all_take_step(s, c, n);
    }
}

/// What occurs among rows and statuses.
pub struct FiltersView {
    pub connector: Seq<Seq<char>>,
    pub currency: Seq<Currency>,
    pub status: Seq<IntentStatus>,
    pub payment_method: Seq<PaymentMethod>,
}

impl View for PaymentListFilters {
    type V = FiltersView;

    open spec fn view(&self) -> FiltersView {
        FiltersView {
            connector: names(self.connector@),
            currency: self.currency@,
            status: self.status@,
            payment_method: self.payment_method@,
        }
    }
}

impl BackendState {
    /// Which connectors, currencies and payment methods occur among the
    /// attempts that count for a list of payments of a merchant, and which
    /// statuses among the payments, as the durable store tells it.
    pub open spec fn attempt_filters(
        self,
        intents: Seq<PaymentIntent>,
        merchant_id: Seq<char>,
    ) -> Result<FiltersView, DatabaseError> {
        if !self.database_online {
            Err(DatabaseError::DatabaseConnectionError)
        } else {
            let attempts = self.active_attempts(intents, merchant_id);
            Ok(
                FiltersView {
                    connector: connectors_among(attempts),
                    currency: currencies_among(attempts),
                    status: distinct(intent_statuses(intents)),
                    payment_method: payment_methods_among(attempts),
                },
            )
        }
    }
}

fn attempt_ids_of(intents: &Vec<PaymentIntent>) -> (r: Vec<String>)
    ensures
        names(r@) == active_attempt_ids(intents@),
{
    let mut out: Vec<String> = Vec::new();
    let mut i: usize = 0;
    while i < intents.len()
        invariant
            i <= intents.len(),
            names(out@) == active_attempt_ids(intents@.take(i as int)),
        decreases intents.len() - i,
    {
        let ghost earlier = out@;
        out.push(intents[i].active_attempt_id.clone());
        assert(intents@.take(i + 1) =~= intents@.take(i as int).push(intents@[i as int]));
        assert(names(out@) =~= names(earlier).push(intents@[i as int].active_attempt_id@));
        assert(active_attempt_ids(intents@.take(i + 1)) =~= active_attempt_ids(
            intents@.take(i as int),
        ).push(intents@[i as int].active_attempt_id@));
        i += 1;
    }
    assert(intents@.take(intents.len() as int) =~= intents@);
    out
}

fn distinct_statuses(intents: &Vec<PaymentIntent>) -> (r: Vec<IntentStatus>)
    ensures
        r@ == distinct(intent_statuses(intents@)),
{
    let mut out: Vec<IntentStatus> = Vec::new();
    let mut i: usize = 0;
    assert(intent_statuses(intents@.take(0)) =~= Seq::empty());
    while i < intents.len()
        invariant
            i <= intents.len(),
            out@ == distinct(intent_statuses(intents@.take(i as int))),
        decreases intents.len() - i,
    {
        proof {
            let next = intent_statuses(intents@.take(i + 1));
            assert(next.drop_last() =~= intent_statuses(intents@.take(i as int)));
            assert(next.last() == intents@[i as int].status);
        }
        if !contains_status(&out, intents[i].status) {
            out.push(intents[i].status);
        }
        i += 1;
    }
    assert(intents@.take(intents.len() as int) =~= intents@);
    out
}

impl MemoryBackend {
    /// Which connectors, currencies and payment methods occur among the
    /// attempts that count for a list of payments of a merchant, and which
    /// statuses among the payments.
    pub fn attempt_filters(&self, intents: &Vec<PaymentIntent>, merchant_id: &str) -> (r: Result<
        PaymentListFilters,
        DatabaseError,
    >)
        ensures
            match r {
                Ok(filters) => self@.attempt_filters(intents@, merchant_id@) == Ok::<
                    FiltersView,
                    DatabaseError,
                >(filters@),
                Err(e) => self@.attempt_filters(intents@, merchant_id@) == Err::<
                    FiltersView,
                    DatabaseError,
                >(e),
            },
    {
        if !self.database_online() {
            return Err(DatabaseError::DatabaseConnectionError);
        }
        let ids = attempt_ids_of(intents);
        let ghost filter = AttemptFilter {
            merchant_id: merchant_id@,
            active_attempt_ids: active_attempt_ids(intents@),
            connector: None,
            payment_methods: None,
        };
        let rows = self.stored_rows();
        let mut connector: Vec<String> = Vec::new();
        let mut currency: Vec<Currency> = Vec::new();
        let mut payment_method: Vec<PaymentMethod> = Vec::new();
        let unfiltered_connectors: Option<Vec<String>> = None;
        let unfiltered_methods: Option<Vec<PaymentMethod>> = None;
        let mut i: usize = 0;
        assert(rows@.take(0) =~= Seq::empty());
        assert(names(connector@) =~= Seq::empty());
        while i < rows.len()
            invariant
                i <= rows.len(),
                rows@ == self@.rows,
                unfiltered_connectors is None,
                unfiltered_methods is None,
                names(ids@) == active_attempt_ids(intents@),
                filter == (AttemptFilter {
                    merchant_id: merchant_id@,
                    active_attempt_ids: active_attempt_ids(intents@),
                    connector: None,
                    payment_methods: None,
                }),
                names(connector@) == connectors_among(all(rows@.take(i as int), filter)),
                currency@ == currencies_among(all(rows@.take(i as int), filter)),
                payment_method@ == payment_methods_among(all(rows@.take(i as int), filter)),
            decreases rows.len() - i,
        {
            let row = &rows[i];
            proof {
                lemma_all_take_step(rows@, filter, i as int);
            }
            if passes(row, merchant_id, &ids, &unfiltered_connectors, &unfiltered_methods) {
                let ghost before = all(rows@.take(i as int), filter);
                proof {
                    assert(before.push(*row).drop_last() =~= before);
                    assert(before.push(*row).last() == *row);
                }
                match &row.connector {
                    Some(c) => {
                        if !contains_text(&connector, c.as_str()) {
                            let ghost earlier = connector@;
                            connector.push(c.clone());
                            assert(names(connector@) =~= names(earlier).push(c@));
                        }
                    },
                    None => {},
                }
                match row.currency {
                    Some(c) => {
                        if !contains_currency(&currency, c) {
                            currency.push(c);
                        }
                    },
                    None => {},
                }
                match row.payment_method {
                    Some(m) => {
                        if !contains_payment_method(&payment_method, m) {
                            payment_method.push(m);
                        }
                    },
                    None => {},
                }
            }
            i += 1;
        }
        assert(rows@.take(rows.len() as int) =~= rows@);
        let status = distinct_statuses(intents);
        Ok(PaymentListFilters { connector, currency, status, payment_method })
    }
}

/// The caller's view of a count of the durable store.
pub open spec fn count_outcome(answer: Result<i64, DatabaseError>) -> Result<
    i64,
    crate::errors::StorageErrorView,
> {
    match answer {
        Ok(n) => Ok(n),
        Err(e) => Err(data_error(e)),
    }
}

/// The names of the connectors of a filter, if the filter has any.
pub open spec fn wanted_connectors(connector: Option<Vec<Connector>>) -> Option<Seq<Seq<char>>> {
    match connector {
        Some(wanted) => Some(connector_names(wanted@)),
        None => None,
    }
}

/// The payment methods of a filter, if the filter has any.
pub open spec fn wanted_methods(payment_methods: Option<Vec<PaymentMethod>>) -> Option<
    Seq<PaymentMethod>,
> {
    match payment_methods {
        Some(wanted) => Some(wanted@),
        None => None,
    }
}

fn count_filtered(
    backend: &MemoryBackend,
    merchant_id: &str,
    active_attempt_ids: &Vec<String>,
    connector: Option<Vec<Connector>>,
    payment_methods: Option<Vec<PaymentMethod>>,
) -> (r: Result<i64, StorageError>)
    ensures
        match r {
            Ok(n) => count_outcome(
                backend@.count_attempts(
                    AttemptFilter {
                        merchant_id: merchant_id@,
                        active_attempt_ids: names(active_attempt_ids@),
                        connector: wanted_connectors(connector),
                        payment_methods: wanted_methods(payment_methods),
                    },
                ),
            ) == Ok::<i64, crate::errors::StorageErrorView>(n),
            Err(e) => count_outcome(
                backend@.count_attempts(
                    AttemptFilter {
                        merchant_id: merchant_id@,
                        active_attempt_ids: names(active_attempt_ids@),
                        connector: wanted_connectors(connector),
                        payment_methods: wanted_methods(payment_methods),
                    },
                ),
            ) == Err::<i64, crate::errors::StorageErrorView>(e@),
        },
{
    let connector_strings = match &connector {
        Some(wanted) => Some(connector_strings(wanted)),
        None => None,
    };
    match backend.count_attempts(
        merchant_id,
        active_attempt_ids,
        &connector_strings,
        &payment_methods,
    ) {
        Ok(n) => Ok(n),
        Err(e) => Err(diesel_error_to_data_error(&e)),
    }
}

fn filters_for(backend: &MemoryBackend, pi: &Vec<PaymentIntent>, merchant_id: &str) -> (r: Result<
    PaymentListFilters,
    StorageError,
>)
    ensures
        match r {
            Ok(filters) => backend@.attempt_filters(pi@, merchant_id@) == Ok::<
                FiltersView,
                DatabaseError,
            >(filters@),
            Err(e) => backend@.attempt_filters(pi@, merchant_id@) matches Err(cause) && e@
                == data_error(cause),
        },
{
    match backend.attempt_filters(pi, merchant_id) {
        Ok(filters) => Ok(filters),
        Err(e) => Err(diesel_error_to_data_error(&e)),
    }
}

impl RouterStore {
    /// Which connectors, currencies and payment methods occur among the
    /// attempts that count for a list of payments of a merchant, and which
    /// statuses among the payments.
    pub fn get_filters_for_payments(
        &self,
        pi: &Vec<PaymentIntent>,
        merchant_id: &str,
        _storage_scheme: MerchantStorageScheme,
    ) -> (r: Result<PaymentListFilters, StorageError>)
        ensures
            match r {
                Ok(filters) => self@.attempt_filters(pi@, merchant_id@) == Ok::<
                    FiltersView,
                    DatabaseError,
                >(filters@),
                Err(e) => self@.attempt_filters(pi@, merchant_id@) matches Err(cause) && e@
                    == data_error(cause),
            },
    {
        filters_for(self.stores(), pi, merchant_id)
    }

    /// How many attempts of a merchant are among the given ones and, where a
    /// list of connectors or of payment methods is given, have one of these.
    pub fn get_total_count_of_filtered_payment_attempts(
        &self,
        merchant_id: &str,
        active_attempt_ids: &Vec<String>,
        connector: Option<Vec<Connector>>,
        payment_methods: Option<Vec<PaymentMethod>>,
        _storage_scheme: MerchantStorageScheme,
    ) -> (r: Result<i64, StorageError>)
        ensures
            match r {
                Ok(n) => count_outcome(
                    self@.count_attempts(
                        AttemptFilter {
                            merchant_id: merchant_id@,
                            active_attempt_ids: names(active_attempt_ids@),
                            connector: wanted_connectors(connector),
                            payment_methods: wanted_methods(payment_methods),
                        },
                    ),
                ) == Ok::<i64, crate::errors::StorageErrorView>(n),
                Err(e) => count_outcome(
                    self@.count_attempts(
                        AttemptFilter {
                            merchant_id: merchant_id@,
                            active_attempt_ids: names(active_attempt_ids@),
                            connector: wanted_connectors(connector),
                            payment_methods: wanted_methods(payment_methods),
                        },
                    ),
                ) == Err::<i64, crate::errors::StorageErrorView>(e@),
            },
    {
        count_filtered(self.stores(), merchant_id, active_attempt_ids, connector, payment_methods)
    }
}

impl KVRouterStore {
    /// Which connectors, currencies and payment methods occur among the
    /// attempts that count for a list of payments of a merchant, and which
    /// statuses among the payments.
    /// The durable store is asked under either scheme.
    pub fn get_filters_for_payments(
        &self,
        pi: &Vec<PaymentIntent>,
        merchant_id: &str,
        _storage_scheme: MerchantStorageScheme,
    ) -> (r: Result<PaymentListFilters, StorageError>)
        ensures
            match r {
                Ok(filters) => self@.attempt_filters(pi@, merchant_id@) == Ok::<
                    FiltersView,
                    DatabaseError,
                >(filters@),
                Err(e) => self@.attempt_filters(pi@, merchant_id@) matches Err(cause) && e@
                    == data_error(cause),
            },
    {
        filters_for(self.stores(), pi, merchant_id)
    }

    /// How many attempts of a merchant are among the given ones and, where a
    /// list of connectors or of payment methods is given, have one of these.
    /// The durable store is asked under either scheme.
    pub fn get_total_count_of_filtered_payment_attempts(
        &self,
        merchant_id: &str,
        active_attempt_ids: &Vec<String>,
        connector: Option<Vec<Connector>>,
        payment_methods: Option<Vec<PaymentMethod>>,
        _storage_scheme: MerchantStorageScheme,
    ) -> (r: Result<i64, StorageError>)
        ensures
            match r {
                Ok(n) => count_outcome(
                    self@.count_attempts(
                        AttemptFilter {
                            merchant_id: merchant_id@,
                            active_attempt_ids: names(active_attempt_ids@),
                            connector: wanted_connectors(connector),
                            payment_methods: wanted_methods(payment_methods),
                        },
                    ),
                ) == Ok::<i64, crate::errors::StorageErrorView>(n),
                Err(e) => count_outcome(
                    self@.count_attempts(
                        AttemptFilter {
                            merchant_id: merchant_id@,
                            active_attempt_ids: names(active_attempt_ids@),
                            connector: wanted_connectors(connector),
                            payment_methods: wanted_methods(payment_methods),
                        },
                    ),
                ) == Err::<i64, crate::errors::StorageErrorView>(e@),
            },
    {
        count_filtered(self.stores(), merchant_id, active_attempt_ids, connector, payment_methods)
    }
}

} // verus!
