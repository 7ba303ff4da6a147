//! The repository locator: the decision core of the paginated search.
//!
//! The locator itself performs no I/O. Its driver asks it for the next page
//! request, fetches and decodes that page however it likes, and feeds the
//! outcome back in; the locator decides whether the search is over and with
//! what result. At most [`PAGE_BUDGET`] pages are consumed before the search
//! fails as not found.

use vstd::prelude::*;
use crate::error::LookupError;
use crate::record::{RecordView, RepositoryRecord, SearchPage};
use crate::text::{eq_ignore_ascii_case, lemma_lower_seq_idempotent, lower_seq};

verus! {

/// Number of result pages requested before the search is abandoned.
pub const PAGE_BUDGET: u64 = 4;

/// Number of results requested per page.
pub const PER_PAGE: u64 = 10;

/// A record name matches the query exactly when their ASCII lowercase
/// images agree: the comparison is case-insensitive and nothing else.
pub open spec fn name_matches(name: Seq<char>, query: Seq<char>) -> bool {
    lower_seq(name) == lower_seq(query)
}

/// Matching is insensitive to ASCII case on either side: folding the record
/// name or the query to lowercase changes no verdict, and the two sides can
/// be swapped. In particular a query `Foo` matches a record named `foo`.
pub proof fn lemma_match_case_insensitive(name: Seq<char>, query: Seq<char>)
    ensures
        name_matches(name, query) <==> name_matches(lower_seq(name), query),
        name_matches(name, query) <==> name_matches(name, lower_seq(query)),
        name_matches(name, query) <==> name_matches(query, name),
{
    lemma_lower_seq_idempotent(name);
    lemma_lower_seq_idempotent(query);
}

/// The first record in the sequence whose name matches the query.
pub open spec fn first_match(items: Seq<RecordView>, query: Seq<char>) -> Option<RecordView>
    decreases items.len(),
{
    if items.len() == 0 {
        None
    } else if name_matches(items[0].name, query) {
        Some(items[0])
    } else {
        first_match(items.drop_first(), query)
    }
}

/// `first_match` earns its name: when it returns a record, that record
/// stands in the sequence, its name matches the query, and no record before
/// it matches; when it returns nothing, no record of the sequence matches.
pub proof fn lemma_first_match_is_earliest(items: Seq<RecordView>, query: Seq<char>)
    ensures
        match first_match(items, query) {
            Some(v) => exists|i: int|
                0 <= i < items.len() && items[i] == v && name_matches(v.name, query) && (forall|
                    j: int,
                |
                    0 <= j < i ==> !name_matches(items[j].name, query)),
            None => forall|j: int| 0 <= j < items.len() ==> !name_matches(items[j].name, query),
        },
    decreases items.len(),
{
    if items.len() == 0 {
    } else if name_matches(items[0].name, query) {
        let i: int = 0;
        assert(0 <= i < items.len() && items[i] == items[0] && name_matches(items[0].name, query)
            && (forall|j: int| 0 <= j < i ==> !name_matches(items[j].name, query)));
    } else {
        let rest = items.drop_first();
        lemma_first_match_is_earliest(rest, query);
        match first_match(rest, query) {
            Some(v) => {
                let i0 = choose|i: int|
                    0 <= i < rest.len() && rest[i] == v && name_matches(v.name, query) && (forall|
                        j: int,
                    |
                        0 <= j < i ==> !name_matches(rest[j].name, query));
                assert forall|j: int| 0 <= j < i0 + 1 implies !name_matches(
                    items[j].name,
                    query,
                ) by {
                    if j > 0 {
                        assert(items[j] == rest[j - 1]);
                    }
                }
                assert(0 <= i0 + 1 < items.len() && items[i0 + 1] == v && name_matches(
                    v.name,
                    query,
                ) && (forall|j: int| 0 <= j < i0 + 1 ==> !name_matches(items[j].name, query)));
            },
            None => {
                assert forall|j: int| 0 <= j < items.len() implies !name_matches(
                    items[j].name,
                    query,
                ) by {
                    if j > 0 {
                        assert(items[j] == rest[j - 1]);
                    }
                }
            },
        }
    }
}

proof fn lemma_first_match_at(items: Seq<RecordView>, query: Seq<char>, i: int)
    requires
        0 <= i < items.len(),
        name_matches(items[i].name, query),
        forall|j: int| 0 <= j < i ==> !name_matches(items[j].name, query),
    ensures
        first_match(items, query) == Some(items[i]),
    decreases i,
{
    if i > 0 {
        lemma_first_match_at(items.drop_first(), query, i - 1);
    }
}

proof fn lemma_first_match_none(items: Seq<RecordView>, query: Seq<char>)
    requires
        forall|j: int| 0 <= j < items.len() ==> !name_matches(items[j].name, query),
    ensures
        first_match(items, query) is None,
    decreases items.len(),
{
    if items.len() > 0 {
        lemma_first_match_none(items.drop_first(), query);
    }
}

/// Scan a page's records in order and take the first whose name matches the
/// query, consuming the list.
pub fn find_match(items: Vec<RepositoryRecord>, query: &str) -> (r: Option<RepositoryRecord>)
    ensures
        match first_match(items.deep_view(), query@) {
            Some(v) => r matches Some(rec) && rec@ == v,
            None => r is None,
        },
{
    let n: usize = items.len();
    let mut i: usize = 0;
    while i < n
        invariant
            i <= n,
            n == items@.len(),
            forall|j: int| 0 <= j < i ==> !name_matches(items.deep_view()[j].name, query@),
        decreases n - i,
    {
        if eq_ignore_ascii_case(items[i].name.as_str(), query) {
            proof {
                lemma_first_match_at(items.deep_view(), query@, i as int);
            }
            let mut items = items;
            return Some(items.remove(i));
        }
        i = i + 1;
    }
    proof {
        lemma_first_match_none(items.deep_view(), query@);
    }
    None
}

/// What one attempt to fetch and decode a result page produced. The driver
/// reports exactly one of these per page request.
pub enum FetchOutcome {
    /// The HTTP request itself failed.
    ConnectionFailed,
    /// A response arrived but could not be decoded as a search page.
    DecodeFailed,
    /// A decoded search page.
    Page(SearchPage),
}

/// What the locator asks of its driver after consuming a page outcome.
pub enum LocateStep {
    /// No verdict yet: request the next page and feed its outcome back in.
    Continue,
    /// The search is over, in success or failure; fetch nothing further.
    Done(Result<RepositoryRecord, LookupError>),
}

/// One page request the driver is to issue: an HTTP GET of the search
/// endpoint with query parameters `per_page`, `page` and `q`.
pub struct PageRequest {
    /// Page number, counted from 1.
    pub page: u64,
    /// How many results the page is asked to hold.
    pub per_page: u64,
    /// The search term, the queried name in its original case.
    pub query: String,
}

/// The state of one bounded, strictly sequential paginated search: which
/// query is being resolved, how many pages have been consumed, and whether
/// a verdict has been reached.
pub struct Locator {
    /// The queried name in its original case; sent verbatim as the search
    /// term, while matching folds case away.
    pub query: String,
    /// Pages already consumed.
    pub pages_fetched: u64,
    /// Whether the search has concluded.
    pub done: bool,
}

impl Locator {
    /// A search that is still awaiting pages: no verdict yet and budget left.
    pub open spec fn in_progress(&self) -> bool {
        !self.done && self.pages_fetched < PAGE_BUDGET
    }

    /// Start a search for the given name.
    pub fn new(query: String) -> (r: Locator)
        ensures
            r.query@ == query@,
            r.pages_fetched == 0,
            r.in_progress(),
    {
        Locator { query, pages_fetched: 0, done: false }
    }

    /// Whether the search still awaits a page; the driver may call
    /// [`Locator::next_request`] and [`Locator::consume`] exactly as long as
    /// this holds.
    pub fn is_in_progress(&self) -> (r: bool)
        ensures
            r == self.in_progress(),
    {
        !self.done && self.pages_fetched < PAGE_BUDGET
    }

    /// The request for the next page: page numbers count from 1 and never
    /// pass the budget, and the search term is the original-case query.
    pub fn next_request(&self) -> (r: PageRequest)
        requires
            self.in_progress(),
        ensures
            r.page == self.pages_fetched + 1,
            1 <= r.page <= PAGE_BUDGET,
            r.per_page == PER_PAGE,
            r.query@ == self.query@,
    {
        PageRequest { page: self.pages_fetched + 1, per_page: PER_PAGE, query: self.query.clone() }
    }

    /// Consume the outcome of the page requested last and decide how the
    /// search goes on:
    ///
    /// - a failed request ends it with a transport error, an undecodable
    ///   response with a protocol error;
    /// - a page without an item list is an API-level error: it ends the
    ///   search at once with a protocol error carrying the API's message
    ///   (empty when the API gave none);
    /// - the first record on the page whose name matches the query ends the
    ///   search with that record;
    /// - a matchless page ends the search as not found once it was the last
    ///   of the budget, and otherwise asks for the next page.
    ///
    /// The search stays in progress exactly when the verdict is `Continue`.
    pub fn consume(&mut self, outcome: FetchOutcome) -> (r: LocateStep)
        requires
            old(self).in_progress(),
        ensures
            final(self).query == old(self).query,
            final(self).pages_fetched == old(self).pages_fetched + 1,
            final(self).in_progress() <==> (r is Continue),
            match outcome {
                FetchOutcome::ConnectionFailed => r matches LocateStep::Done(res) && res matches Err(
                    e,
                ) && e is TransportError,
                FetchOutcome::DecodeFailed => r matches LocateStep::Done(res) && res matches Err(
                    LookupError::ProtocolError(None),
                ),
                FetchOutcome::Page(page) => match page.items {
                    None => r matches LocateStep::Done(res) && res matches Err(
                        LookupError::ProtocolError(Some(m)),
                    ) && m@ == (match page.message {
                        Some(s) => s@,
                        None => Seq::<char>::empty(),
                    }),
                    Some(items) => match first_match(items.deep_view(), old(self).query@) {
                        Some(v) => r matches LocateStep::Done(res) && res matches Ok(rec) && rec@
                            == v,
                        None => {
                            if old(self).pages_fetched + 1 == PAGE_BUDGET {
                                r matches LocateStep::Done(res) && res matches Err(
                                    LookupError::NotFound(n),
                                ) && n@ == old(self).query@
                            } else {
                                r is Continue
                            }
                        },
                    },
                },
            },
    {
        self.pages_fetched = self.pages_fetched + 1;
        match outcome {
            FetchOutcome::ConnectionFailed => {
                self.done = true;
                LocateStep::Done(Err(LookupError::TransportError))
            },
            FetchOutcome::DecodeFailed => {
                self.done = true;
                LocateStep::Done(Err(LookupError::ProtocolError(None)))
            },
            FetchOutcome::Page(page) => match page.items {
                None => {
                    self.done = true;
                    let m: String = match page.message {
                        Some(s) => s,
                        None => String::new(),
                    };
                    LocateStep::Done(Err(LookupError::ProtocolError(Some(m))))
                },
                Some(items) => match find_match(items, self.query.as_str()) {
                    Some(rec) => {
                        self.done = true;
                        LocateStep::Done(Ok(rec))
                    },
                    None => {
                        if self.pages_fetched == PAGE_BUDGET {
                            self.done = true;
                            LocateStep::Done(Err(LookupError::NotFound(self.query.clone())))
                        } else {
                            LocateStep::Continue
                        }
                    },
                },
            },
        }
    }
}

} // verus!
