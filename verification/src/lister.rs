//! The paginated repository lister.
//!
//! The lister is a state machine: it demands the organisation's repository
//! pages in strictly increasing order, starting at page 1, and the caller
//! feeds back what each request produced.  Listing stops on the first empty
//! page (end of data), on the first failure (no partial results), or when
//! the page ceiling is reached.  A ghost model ([`LState`], [`lstep`],
//! [`lrun`]) mirrors the machine exactly, and the lemmas at the end of the
//! module prove the listing laws over that model.

use vstd::prelude::*;

use crate::errors::ListError;
use crate::model::RemoteRepository;

verus! {

/// The ceiling on the number of pages requested in one listing: a hard
/// upper bound protecting against runaway pagination.
pub const MAX_PAGES: usize = 999;

/// What one page request produced, as observed by the caller.
pub enum PageOutcome {
    /// The request could not be sent, or a success response's body could
    /// not be parsed.
    Failed,
    /// A response arrived with this status code; `repos` holds the parsed
    /// body of a success response and is empty otherwise.
    Received { status: u16, repos: Vec<RemoteRepository> },
}

/// The ghost mirror of [`PageOutcome`].
pub ghost enum PageEv {
    Failed,
    Received { status: u16, repos: Seq<RemoteRepository> },
}

impl View for PageOutcome {
    type V = PageEv;

    open spec fn view(&self) -> PageEv {
        match self {
            PageOutcome::Failed => PageEv::Failed,
            PageOutcome::Received { status, repos } => PageEv::Received {
                status: *status,
                repos: repos@,
            },
        }
    }
}

/// The ghost state of one listing: the ceiling it was started with, the
/// page whose response is awaited, how many requests have been demanded so
/// far, the records collected so far, and the final result once the
/// listing has finished.
pub ghost struct LState {
    pub ceiling: nat,
    pub next_page: nat,
    pub requests: nat,
    pub acc: Seq<RemoteRepository>,
    pub done: Option<Result<Seq<RemoteRepository>, ListError>>,
}

/// The state a fresh listing starts in: one request demanded, for page 1.
pub open spec fn linit(ceiling: nat) -> LState {
    LState { ceiling, next_page: 1, requests: 1, acc: Seq::empty(), done: None }
}

/// Is `status` a success status?
pub open spec fn is_success(status: u16) -> bool {
    200 <= status <= 299
}

/// Is `status` a server-error status?
pub open spec fn is_server_error(status: u16) -> bool {
    500 <= status <= 599
}

/// One transition of the listing machine: how the outcome of the
/// outstanding page request changes the state.  A finished listing no
/// longer changes.
pub open spec fn lstep(s: LState, ev: PageEv) -> LState {
    if s.done is Some {
        s
    } else {
        match ev {
            PageEv::Failed => LState { done: Some(Err(ListError::Unknown)), ..s },
            PageEv::Received { status, repos } => {
                if status == 404 {
                    LState { done: Some(Err(ListError::OrganisationNotFound)), ..s }
                } else if status == 403 {
                    LState { done: Some(Err(ListError::Forbidden)), ..s }
                } else if is_server_error(status) {
                    LState { done: Some(Err(ListError::ServerError)), ..s }
                } else if !is_success(status) {
                    LState { done: Some(Err(ListError::Unknown)), ..s }
                } else if repos.len() == 0 {
                    LState { done: Some(Ok(s.acc)), ..s }
                } else if s.next_page < s.ceiling {
                    LState {
                        next_page: s.next_page + 1,
                        requests: s.requests + 1,
                        acc: s.acc + repos,
                        ..s
                    }
                } else {
                    LState { acc: s.acc + repos, done: Some(Ok(s.acc + repos)), ..s }
                }
            },
        }
    }
}

/// The listing machine run over a whole sequence of page outcomes.
pub open spec fn lrun(s: LState, evs: Seq<PageEv>) -> LState
    decreases evs.len(),
{
    if evs.len() == 0 {
        s
    } else {
        lrun(lstep(s, evs[0]), evs.drop_first())
    }
}

/// A page outcome carrying a success status and at least one record.
pub open spec fn is_full_page(ev: PageEv) -> bool {
    ev matches PageEv::Received { status, repos } && is_success(status) && repos.len() > 0
}

/// A page outcome carrying a success status and no records: the terminator
/// of a listing.
pub open spec fn is_empty_page(ev: PageEv) -> bool {
    ev matches PageEv::Received { status, repos } && is_success(status) && repos.len() == 0
}

/// The records of one page outcome.
pub open spec fn page_repos(ev: PageEv) -> Seq<RemoteRepository> {
    match ev {
        PageEv::Failed => Seq::empty(),
        PageEv::Received { status: _, repos } => repos,
    }
}

/// Every outcome of `evs` is a full page.
pub open spec fn all_full_pages(evs: Seq<PageEv>) -> bool {
    forall|i: int| 0 <= i < evs.len() ==> is_full_page(#[trigger] evs[i])
}

/// The concatenation of the pages' records, in page-then-within-page
/// order.
pub open spec fn pages_flat(evs: Seq<PageEv>) -> Seq<RemoteRepository>
    decreases evs.len(),
{
    if evs.len() == 0 {
        Seq::empty()
    } else {
        page_repos(evs[0]) + pages_flat(evs.drop_first())
    }
}

/// Running the machine over a concatenation is running it over each part
/// in turn.
pub proof fn lemma_lrun_app(s: LState, a: Seq<PageEv>, b: Seq<PageEv>)
    ensures
        lrun(s, a + b) == lrun(lrun(s, a), b),
    decreases a.len(),
{
    if a.len() == 0 {
        assert(a + b =~= b);
    } else {
        assert((a + b)[0] == a[0]);
        assert((a + b).drop_first() =~= a.drop_first() + b);
        lemma_lrun_app(lstep(s, a[0]), a.drop_first(), b);
    }
}

/// A finished listing consumes every further outcome without change: in
/// particular it demands no further request.
pub proof fn lemma_done_frozen(s: LState, evs: Seq<PageEv>)
    requires
        s.done is Some,
    ensures
        lrun(s, evs) == s,
    decreases evs.len(),
{
    if evs.len() > 0 {
        lemma_done_frozen(s, evs.drop_first());
    }
}

/// The inductive invariant of a listing: the requests demanded so far
/// never exceed the ceiling, and while a request is outstanding they are
/// exactly pages 1 through `next_page`.
pub open spec fn l_inv(s: LState) -> bool {
    s.requests <= s.ceiling && (s.done is None ==> s.requests == s.next_page
        && s.next_page <= s.ceiling)
}

/// One step preserves the listing invariant.
pub proof fn lemma_lstep_preserves_inv(s: LState, ev: PageEv)
    requires
        l_inv(s),
    ensures
        l_inv(lstep(s, ev)),
        lstep(s, ev).ceiling == s.ceiling,
{
}

/// Any run preserves the listing invariant.
pub proof fn lemma_lrun_preserves_inv(s: LState, evs: Seq<PageEv>)
    requires
        l_inv(s),
    ensures
        l_inv(lrun(s, evs)),
        lrun(s, evs).ceiling == s.ceiling,
    decreases evs.len(),
{
    if evs.len() > 0 {
        lemma_lstep_preserves_inv(s, evs[0]);
        lemma_lrun_preserves_inv(lstep(s, evs[0]), evs.drop_first());
    }
}

/// Listing never demands more page requests than the ceiling, whatever
/// outcomes the endpoint produces — even if no page is ever empty.
pub proof fn lemma_requests_never_exceed_ceiling(ceiling: nat, evs: Seq<PageEv>)
    requires
        ceiling >= 1,
    ensures
        lrun(linit(ceiling), evs).requests <= ceiling,
{
    lemma_lrun_preserves_inv(linit(ceiling), evs);
}

/// A 404 on any page aborts the listing at once with
/// `OrganisationNotFound`: the machine finishes in that very step, demands
/// no further request, and every later outcome leaves it unchanged.
pub proof fn lemma_not_found_aborts(s: LState, repos: Seq<RemoteRepository>, rest: Seq<PageEv>)
    requires
        s.done is None,
    ensures
        ({
            let t = lstep(s, PageEv::Received { status: 404, repos });
            t.done == Some(Err::<Seq<RemoteRepository>, ListError>(ListError::OrganisationNotFound))
                && t.requests == s.requests && lrun(t, rest) == t
        }),
{
    lemma_done_frozen(lstep(s, PageEv::Received { status: 404, repos }), rest);
}

/// Consuming full pages, all within the ceiling, keeps the listing alive:
/// each page demands the next request and appends its records in order.
proof fn lemma_consume_full_pages(s: LState, evs: Seq<PageEv>)
    requires
        l_inv(s),
        s.done is None,
        all_full_pages(evs),
        s.next_page + evs.len() <= s.ceiling,
    ensures
        lrun(s, evs) == (LState {
            ceiling: s.ceiling,
            next_page: (s.next_page + evs.len()) as nat,
            requests: (s.requests + evs.len()) as nat,
            acc: s.acc + pages_flat(evs),
            done: None,
        }),
    decreases evs.len(),
{
    if evs.len() == 0 {
        assert(s.acc + pages_flat(evs) =~= s.acc);
    } else {
        let ev0 = evs[0];
        assert(is_full_page(ev0));
        let s1 = lstep(s, ev0);
        lemma_lstep_preserves_inv(s, ev0);
        assert forall|i: int| 0 <= i < evs.drop_first().len() implies is_full_page(
            #[trigger] evs.drop_first()[i],
        ) by {
            assert(evs.drop_first()[i] == evs[i + 1]);
        };
        lemma_consume_full_pages(s1, evs.drop_first());
        assert(s.acc + page_repos(ev0) + pages_flat(evs.drop_first()) =~= s.acc + pages_flat(evs));
    }
}

/// The exact listing law: for an organisation whose records span `p` full
/// pages followed by one terminating empty page, all within the ceiling,
/// the listing demands exactly `p + 1` page requests — it is not finished
/// after any shorter prefix — and returns exactly the concatenation of the
/// full pages' records in page-then-within-page order.
pub proof fn lemma_listing_exact(ceiling: nat, fulls: Seq<PageEv>, last: PageEv)
    requires
        ceiling >= 1,
        all_full_pages(fulls),
        is_empty_page(last),
        fulls.len() + 1 <= ceiling,
    ensures
        ({
            let t = lrun(linit(ceiling), fulls.push(last));
            t.done == Some(Ok::<Seq<RemoteRepository>, ListError>(pages_flat(fulls)))
                && t.requests == fulls.len() + 1
        }),
        forall|j: int|
            0 <= j <= fulls.len() ==> lrun(linit(ceiling), #[trigger] fulls.take(j)).done is None,
{
    let s0 = linit(ceiling);
    lemma_consume_full_pages(s0, fulls);
    let sp = lrun(s0, fulls);
    assert(fulls.push(last) =~= fulls + seq![last]);
    lemma_lrun_app(s0, fulls, seq![last]);
    assert(lrun(sp, seq![last]) == lrun(lstep(sp, last), seq![last].drop_first()));
    assert(seq![last].drop_first() =~= Seq::<PageEv>::empty());
    assert(Seq::<RemoteRepository>::empty() + pages_flat(fulls) =~= pages_flat(fulls));
    assert forall|j: int|
        0 <= j <= fulls.len() implies lrun(s0, #[trigger] fulls.take(j)).done is None by {
        assert forall|i: int| 0 <= i < fulls.take(j).len() implies is_full_page(
            #[trigger] fulls.take(j)[i],
        ) by {
            assert(fulls.take(j)[i] == fulls[i]);
        };
        lemma_consume_full_pages(s0, fulls.take(j));
    };
}

/// Progress of the executable lister.
enum ListerStatus {
    InProgress,
    Complete,
    Failed(ListError),
}

/// The executable lister.  Drive it by answering [`Lister::next_request`]
/// with a [`PageOutcome`] via [`Lister::step`] until no request is pending,
/// then collect the result with [`Lister::into_result`].
pub struct Lister {
    ceiling: usize,
    next_page: usize,
    requested: usize,
    acc: Vec<RemoteRepository>,
    status: ListerStatus,
}

impl View for Lister {
    type V = LState;

    closed spec fn view(&self) -> LState {
        LState {
            ceiling: self.ceiling as nat,
            next_page: self.next_page as nat,
            requests: self.requested as nat,
            acc: self.acc@,
            done: match self.status {
                ListerStatus::InProgress => None,
                ListerStatus::Complete => Some(Ok(self.acc@)),
                ListerStatus::Failed(e) => Some(Err(e)),
            },
        }
    }
}

impl Lister {
    /// Internal well-formedness: while a request is outstanding, the pages
    /// demanded so far are exactly pages 1 through `next_page`, and the
    /// awaited page never exceeds the ceiling.
    pub closed spec fn wf(&self) -> bool {
        self@.done is None ==> self.requested == self.next_page && self.next_page <= self.ceiling
    }

    /// Starts a listing that will request at most `ceiling` pages.
    pub fn new(ceiling: usize) -> (l: Lister)
        requires
            ceiling >= 1,
        ensures
            l@ == linit(ceiling as nat),
            l.wf(),
    {
        Lister {
            ceiling,
            next_page: 1,
            requested: 1,
            acc: Vec::new(),
            status: ListerStatus::InProgress,
        }
    }

    /// Starts a listing with the default page ceiling.
    pub fn with_default_ceiling() -> (l: Lister)
        ensures
            l@ == linit(MAX_PAGES as nat),
            l.wf(),
    {
        Lister::new(MAX_PAGES)
    }

    /// The page the caller must fetch next, or `None` once the listing has
    /// finished.  Pages are demanded strictly in increasing order.
    pub fn next_request(&self) -> (r: Option<usize>)
        ensures
            self@.done is None <==> r == Some(self.spec_next_page()),
            self@.done is Some <==> r is None,
            r matches Some(p) ==> p as nat == self@.next_page,
    {
        match self.status {
            ListerStatus::InProgress => Some(self.next_page),
            _ => None,
        }
    }

    /// The page number awaited while the listing is in progress.
    pub closed spec fn spec_next_page(&self) -> usize {
        self.next_page
    }

    /// How many page requests this listing has demanded so far.
    pub fn requests_made(&self) -> (r: usize)
        ensures
            r as nat == self@.requests,
    {
        self.requested
    }

    /// Feeds back what the outstanding page request produced.  The new
    /// state is exactly one [`lstep`] of the old one.
    pub fn step(&mut self, outcome: PageOutcome)
        requires
            old(self).wf(),
            old(self)@.done is None,
        ensures
            final(self)@ == lstep(old(self)@, outcome@),
            final(self).wf(),
    {
        match outcome {
            PageOutcome::Failed => {
                self.status = ListerStatus::Failed(ListError::Unknown);
            },
            PageOutcome::Received { status, mut repos } => {
                if status == 404 {
                    self.status = ListerStatus::Failed(ListError::OrganisationNotFound);
                } else if status == 403 {
                    self.status = ListerStatus::Failed(ListError::Forbidden);
                } else if 500 <= status && status <= 599 {
                    self.status = ListerStatus::Failed(ListError::ServerError);
                } else if !(200 <= status && status <= 299) {
                    self.status = ListerStatus::Failed(ListError::Unknown);
                } else if repos.len() == 0 {
                    self.status = ListerStatus::Complete;
                } else if self.next_page < self.ceiling {
                    self.next_page = self.next_page + 1;
                    self.requested = self.requested + 1;
                    self.acc.append(&mut repos);
                } else {
                    self.acc.append(&mut repos);
                    self.status = ListerStatus::Complete;
                }
            },
        }
    }

    /// Hands out the finished listing: the concatenation of all pages'
    /// records in page-then-within-page order, or the error that aborted
    /// the listing.
    pub fn into_result(self) -> (r: Result<Vec<RemoteRepository>, ListError>)
        requires
            self@.done is Some,
        ensures
            r matches Ok(v) ==> self@.done == Some(Ok::<Seq<RemoteRepository>, ListError>(v@)),
            r matches Err(e) ==> self@.done == Some(Err::<Seq<RemoteRepository>, ListError>(e)),
    {
        match self.status {
            ListerStatus::Complete => Ok(self.acc),
            ListerStatus::Failed(e) => Err(e),
            ListerStatus::InProgress => Err(ListError::Unknown),
        }
    }
}

} // verus!
