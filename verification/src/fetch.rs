//! Which pages of the GitHub API to ask for, in which batches, and what to
//! keep of the answers: by keyword through the search API, or by walking the
//! organisation's repository list page after page.

use vstd::prelude::*;
use crate::batch::{plan, next_batch, Batch};
use crate::models::Repo;
use crate::text::{decimal, append_usize};

verus! {

/// The search API serves at most this many pages of results.
pub const SEARCH_MAX_PAGES: usize = 10;
/// How many search pages are asked for at once.
pub const SEARCH_CONCURRENCY: usize = 5;
/// How many pages of the organisation's list are walked at most.
pub const ORG_MAX_PAGES: usize = 20;
/// How many pages of the organisation's list are asked for at once.
pub const ORG_CONCURRENCY: usize = 6;
/// How many repositories a walk of the organisation's list keeps at most.
pub const ORG_REPO_LIMIT: usize = 500;
/// The user agent every request is sent with.
pub const USER_AGENT: &'static str = "wcs-backup-script/2.0";
/// Repositories per page, in every request.
pub const PER_PAGE: u32 = 100;

/// What one page request gave: its repositories, or the text of its error.
pub type PageResult = Result<Vec<Repo>, String>;

/// How one page went, as the tool reports it.
#[derive(Debug)]
pub enum PageStatus {
    Loaded,
    Empty,
    Failed(String),
}

/// The report of one page.
#[derive(Debug)]
pub struct PageReport {
    pub page: usize,
    pub status: PageStatus,
}

/// The repositories of the successful pages of `rs`, page after page.
pub open spec fn ok_repos(rs: Seq<PageResult>) -> Seq<Repo>
    decreases rs.len(),
{
    if rs.len() == 0 {
        Seq::empty()
    } else {
        ok_repos(rs.drop_last()) + match rs.last() {
            Ok(v) => v@,
            Err(_) => Seq::<Repo>::empty(),
        }
    }
}

/// A page that loaded and holds no repository: the end of a list.
pub open spec fn is_empty_page(r: PageResult) -> bool {
    r matches Ok(v) && v@.len() == 0
}

/// The position of the first empty page in `rs`, or `rs.len()` when none is.
pub open spec fn first_empty(rs: Seq<PageResult>) -> nat
    decreases rs.len(),
{
    if rs.len() == 0 {
        0
    } else if is_empty_page(rs[0]) {
        0
    } else {
        1 + first_empty(rs.drop_first())
    }
}

/// How a search page is reported: loaded or failed with its message.
pub open spec fn search_report_matches(rep: PageReport, page: int, r: PageResult) -> bool {
    &&& rep.page == page
    &&& match r {
        Ok(_) => rep.status is Loaded,
        Err(e) => rep.status == PageStatus::Failed(e),
    }
}

/// How a page of the organisation's list is reported: empty, loaded, or
/// failed with its message.
pub open spec fn org_report_matches(rep: PageReport, page: int, r: PageResult) -> bool {
    &&& rep.page == page
    &&& match r {
        Ok(v) => if v@.len() == 0 { rep.status is Empty } else { rep.status is Loaded },
        Err(e) => rep.status == PageStatus::Failed(e),
    }
}

/// The number of search pages to read for `total_count` results: one page
/// per hundred results, rounded up, and never more than the API serves.
pub open spec fn search_pages_for(total_count: nat) -> nat {
    let pages = (total_count + 99) / 100;
    if pages < 10 { pages } else { 10 }
}

proof fn lemma_ok_repos_step(rs: Seq<PageResult>, k: int)
    requires
        0 <= k < rs.len(),
    ensures
        ok_repos(rs.take(k + 1)) == ok_repos(rs.take(k)) + match rs[k] {
            Ok(v) => v@,
            Err(_) => Seq::<Repo>::empty(),
        },
{
    assert(rs.take(k + 1).drop_last() =~= rs.take(k));
    assert(rs.take(k + 1).last() == rs[k]);
}

proof fn lemma_first_empty(rs: Seq<PageResult>, k: int)
    requires
        0 <= k <= rs.len(),
        forall|j: int| 0 <= j < k ==> !is_empty_page(#[trigger] rs[j]),
    ensures
        k < rs.len() && is_empty_page(rs[k]) ==> first_empty(rs) == k,
        k == rs.len() ==> first_empty(rs) == rs.len(),
        first_empty(rs) >= k,
        first_empty(rs) <= rs.len(),
    decreases k,
{
    lemma_first_empty_bound(rs);
    if k > 0 {
        let t = rs.drop_first();
        assert(!is_empty_page(rs[0]));
        assert forall|j: int| 0 <= j < k - 1 implies !is_empty_page(#[trigger] t[j]) by {
            assert(t[j] == rs[j + 1]);
        }
        lemma_first_empty(t, k - 1);
        if k < rs.len() {
            assert(t[k - 1] == rs[k]);
        }
    }
}

proof fn lemma_first_empty_bound(rs: Seq<PageResult>)
    ensures
        first_empty(rs) <= rs.len(),
    decreases rs.len(),
{
    if rs.len() > 0 {
        lemma_first_empty_bound(rs.drop_first());
    }
}

/// Search page law: the pages read hold every result the search serves.
/// At a hundred results a page they reach the reported total (or the
/// thousand results the API serves at most), the last page read is not
/// past the results, and no more than ten pages are read.
pub proof fn lemma_search_pages_for(total_count: nat)
    ensures
        search_pages_for(total_count) <= 10,
        search_pages_for(total_count) * 100 >= (if total_count < 1000 { total_count } else { 1000 }),
        search_pages_for(total_count) == 0 || (search_pages_for(total_count) - 1) * 100 < total_count,
{
    let t = total_count as int;
    let p = (t + 99) / 100;
    assert(p * 100 >= t && p >= 0) by (nonlinear_arith)
        requires
            t >= 0,
            p == (t + 99) / 100,
    ;
    assert(p * 100 <= t + 99) by (nonlinear_arith)
        requires
            t >= 0,
            p == (t + 99) / 100,
    ;
    assert(t >= 1000 ==> p >= 10) by (nonlinear_arith)
        requires
            t >= 0,
            p * 100 >= t,
    ;
    assert(p > 0 ==> (p - 1) * 100 < t) by (nonlinear_arith)
        requires
            t >= 0,
            p * 100 <= t + 99,
    ;
}

/// The number of search pages to read for `total_count` results.
pub fn search_page_count(total_count: u32) -> (res: usize)
    ensures
        res == search_pages_for(total_count as nat),
        res <= SEARCH_MAX_PAGES,
        res * 100 >= (if total_count < 1000 { total_count as int } else { 1000int }),
        res == 0 || (res - 1) * 100 < total_count,
{
    proof {
        lemma_search_pages_for(total_count as nat);
    }
    let pages: u64 = (total_count as u64 + 99) / 100;
    if pages < 10 {
        pages as usize
    } else {
        SEARCH_MAX_PAGES
    }
}

/// The address of one page of the search for `keyword` among the
/// repositories of `organization`.
pub fn search_url(keyword: &str, organization: &str, page: usize) -> (res: String)
    ensures
        res@ == "https://api.github.com/search/repositories?q="@ + keyword@ + "+org:"@
            + organization@ + "&per_page=100&page="@ + decimal(page as nat),
{
    let mut s = String::from_str("https://api.github.com/search/repositories?q=");
    s.append(keyword);
    s.append("+org:");
    s.append(organization);
    s.append("&per_page=100&page=");
    append_usize(&mut s, page);
    s
}

/// The address of one page of the organisation's repositories, most
/// recently pushed first.
pub fn org_repos_url(organization: &str, page: usize) -> (res: String)
    ensures
        res@ == "https://api.github.com/orgs/"@ + organization@
            + "/repos?per_page=100&sort=pushed&direction=desc&page="@ + decimal(page as nat),
{
    let mut s = String::from_str("https://api.github.com/orgs/");
    s.append(organization);
    s.append("/repos?per_page=100&sort=pushed&direction=desc&page=");
    append_usize(&mut s, page);
    s
}

/// The text shown for a page: a marker for a page that loaded (a
/// magnifier when searching, a page otherwise), a stop notice for an empty
/// page, the error for a failed one.
pub open spec fn report_text(rep: PageReport, searching: bool) -> Seq<char> {
    match rep.status {
        PageStatus::Loaded => (if searching { "🔍"@ } else { "📄"@ }) + decimal(rep.page as nat) + " "@,
        PageStatus::Empty => "   📄 Page "@ + decimal(rep.page as nat) + " vide - arrêt"@,
        PageStatus::Failed(e) => "\n❌ Erreur page "@ + decimal(rep.page as nat) + ": "@ + e@,
    }
}

/// Renders the report of one page.
pub fn page_report_text(rep: &PageReport, searching: bool) -> (res: String)
    ensures
        res@ == report_text(*rep, searching),
{
    match &rep.status {
        PageStatus::Loaded => {
            let mut s = if searching { String::from_str("🔍") } else { String::from_str("📄") };
            append_usize(&mut s, rep.page);
            s.append(" ");
            s
        },
        PageStatus::Empty => {
            let mut s = String::from_str("   📄 Page ");
            append_usize(&mut s, rep.page);
            s.append(" vide - arrêt");
            s
        },
        PageStatus::Failed(e) => {
            let mut s = String::from_str("\n❌ Erreur page ");
            append_usize(&mut s, rep.page);
            s.append(": ");
            s.append(e.as_str());
            s
        },
    }
}

/// A keyword search in progress: the first page has been read and tells
/// how many pages there are; the others are read in batches.
pub struct SearchFetch {
    total_count: u32,
    total_pages: usize,
    next_page: usize,
    repos: Vec<Repo>,
    first_error: Option<String>,
}

impl SearchFetch {
    #[verifier::type_invariant]
    spec fn inv(self) -> bool {
        &&& self.total_pages <= SEARCH_MAX_PAGES
        &&& 2 <= self.next_page
        &&& (self.next_page <= self.total_pages + 1 || self.next_page == 2)
    }

    /// The number of results the search reported on its first page.
    pub closed spec fn spec_total_count(self) -> u32 {
        self.total_count
    }

    /// How many pages the search reads in all.
    pub closed spec fn spec_total_pages(self) -> nat {
        self.total_pages as nat
    }

    /// The next page to ask for.
    pub closed spec fn spec_next_page(self) -> nat {
        self.next_page as nat
    }

    /// The repositories gathered so far.
    pub closed spec fn spec_repos(self) -> Seq<Repo> {
        self.repos@
    }

    /// The error of the first page, if it failed.
    pub closed spec fn spec_first_error(self) -> Option<String> {
        self.first_error
    }

    /// The batches still to be asked for.
    pub open spec fn remaining_plan(self) -> Seq<(int, int)> {
        plan(self.spec_next_page() as int, self.spec_total_pages() + 1int, SEARCH_CONCURRENCY as int)
    }

    /// Starts from what the first page gave: its repositories and the total
    /// number of results, or an error, after which nothing more is read.
    pub fn from_first_page(first: Result<(Vec<Repo>, u32), String>) -> (res: Self)
        ensures
            res.spec_next_page() == 2,
            match first {
                Ok((v, total)) => {
                    &&& res.spec_repos() == v@
                    &&& res.spec_total_count() == total
                    &&& res.spec_total_pages() == search_pages_for(total as nat)
                    &&& res.spec_first_error() is None
                },
                Err(e) => {
                    &&& res.spec_repos() == Seq::<Repo>::empty()
                    &&& res.spec_total_count() == 0
                    &&& res.spec_total_pages() == 0
                    &&& res.spec_first_error() == Some(e)
                },
            },
    {
        match first {
            Ok((v, total)) => {
                let pages = search_page_count(total);
                SearchFetch {
                    total_count: total,
                    total_pages: pages,
                    next_page: 2,
                    repos: v,
                    first_error: None,
                }
            },
            Err(e) => SearchFetch {
                total_count: 0,
                total_pages: 0,
                next_page: 2,
                repos: Vec::new(),
                first_error: Some(e),
            },
        }
    }

    /// The next batch of pages to ask for, or `None` when every page has
    /// been asked for.
    pub fn next_batch(&self) -> (res: Option<Batch>)
        ensures
            self.spec_next_page() > self.spec_total_pages() ==> res is None,
            self.spec_next_page() <= self.spec_total_pages() ==> (res matches Some(b) && {
                &&& self.remaining_plan().len() > 0
                &&& (b.first as int, b.count as int) == self.remaining_plan()[0]
                &&& b.first == self.spec_next_page()
                &&& b.first + b.count <= self.spec_total_pages() + 1 <= SEARCH_MAX_PAGES + 1
                &&& b.count == (if self.spec_total_pages() - self.spec_next_page() + 1 < SEARCH_CONCURRENCY {
                    self.spec_total_pages() - self.spec_next_page() + 1
                } else {
                    SEARCH_CONCURRENCY as int
                })
            }),
    {
        proof {
            use_type_invariant(self);
        }
        next_batch(self.next_page, self.total_pages + 1, SEARCH_CONCURRENCY)
    }

    /// Takes the results of the batch `next_batch` gave, in page order: the
    /// repositories of every page that loaded are kept, failed pages are
    /// skipped.  Returns what to report of each page.
    pub fn on_batch(&mut self, results: Vec<PageResult>) -> (reports: Vec<PageReport>)
        requires
            old(self).spec_next_page() <= old(self).spec_total_pages(),
            results@.len() == (if old(self).spec_total_pages() - old(self).spec_next_page() + 1 < SEARCH_CONCURRENCY {
                old(self).spec_total_pages() - old(self).spec_next_page() + 1
            } else {
                SEARCH_CONCURRENCY as int
            }),
        ensures
            final(self).spec_repos() == old(self).spec_repos() + ok_repos(results@),
            final(self).spec_next_page() == old(self).spec_next_page() + results@.len(),
            final(self).spec_total_pages() == old(self).spec_total_pages(),
            final(self).spec_total_count() == old(self).spec_total_count(),
            final(self).spec_first_error() == old(self).spec_first_error(),
            final(self).remaining_plan() == old(self).remaining_plan().drop_first(),
            reports@.len() == results@.len(),
            forall|j: int| 0 <= j < results@.len() ==> search_report_matches(
                #[trigger] reports@[j], old(self).spec_next_page() + j, results@[j]),
    {
        proof {
            use_type_invariant(&*self);
        }
        let ghost orig = results@;
        let ghost old_repos = self.repos@;
        let first = self.next_page;
        let n = results.len();
        let b = next_batch(self.next_page, self.total_pages + 1, SEARCH_CONCURRENCY);
        let mut results = results;
        let mut gathered: Vec<Repo> = Vec::new();
        let mut reports: Vec<PageReport> = Vec::new();
        let mut k: usize = 0;
        while k < n
            invariant
                n == orig.len(),
                k <= n,
                n <= SEARCH_CONCURRENCY,
                first <= 10,
                results@ == orig.skip(k as int),
                gathered@ == ok_repos(orig.take(k as int)),
                reports@.len() == k,
                forall|j: int| 0 <= j < k ==> search_report_matches(
                    #[trigger] reports@[j], first + j, orig[j]),
            decreases n - k,
        {
            proof {
                lemma_ok_repos_step(orig, k as int);
                assert(results@[0] == orig[k as int]);
                assert(orig.skip(k as int).remove(0) =~= orig.skip(k + 1));
            }
            let r = results.remove(0);
            match r {
                Ok(mut v) => {
                    gathered.append(&mut v);
                    reports.push(PageReport { page: first + k, status: PageStatus::Loaded });
                },
                Err(e) => {
                    reports.push(PageReport { page: first + k, status: PageStatus::Failed(e) });
                },
            }
            k = k + 1;
        }
        proof {
            assert(orig.take(n as int) =~= orig);
        }
        let mut all: Vec<Repo> = Vec::new();
        std::mem::swap(&mut all, &mut self.repos);
        all.append(&mut gathered);
        self.repos = all;
        self.next_page = self.next_page + n;
        proof {
            assert(b is Some);
        }
        reports
    }

    /// The number of results the search reported.
    pub fn total_count(&self) -> (res: u32)
        ensures
            res == self.spec_total_count(),
    {
        self.total_count
    }

    /// How many pages the search reads in all.
    pub fn total_pages(&self) -> (res: usize)
        ensures
            res == self.spec_total_pages(),
    {
        self.total_pages
    }

    /// The error of the first page, if it failed.
    pub fn first_error(&self) -> (res: &Option<String>)
        ensures
            *res == self.spec_first_error(),
    {
        &self.first_error
    }

    /// The repositories gathered so far.
    pub fn repos(&self) -> (res: &Vec<Repo>)
        ensures
            res@ == self.spec_repos(),
    {
        &self.repos
    }

    /// Ends the search and hands over what it gathered.
    pub fn into_repos(self) -> (res: Vec<Repo>)
        ensures
            res@ == self.spec_repos(),
    {
        self.repos
    }
}

/// The walk of the organisation's repository list, page after page in
/// batches, until a page comes back empty or the page limit is reached.
pub struct OrgFetch {
    next_page: usize,
    stopped: bool,
    repos: Vec<Repo>,
}

/// The end of a walk that found repositories: the ones kept, and how many
/// were found before the limit was applied.
#[derive(Debug)]
pub struct OrgRepos {
    pub repos: Vec<Repo>,
    pub found: usize,
}

impl OrgFetch {
    #[verifier::type_invariant]
    spec fn inv(self) -> bool {
        1 <= self.next_page <= ORG_MAX_PAGES + 1
    }

    /// The next page to ask for.
    pub closed spec fn spec_next_page(self) -> nat {
        self.next_page as nat
    }

    /// An empty page has been met and the walk is over.
    pub closed spec fn spec_stopped(self) -> bool {
        self.stopped
    }

    /// The repositories gathered so far.
    pub closed spec fn spec_repos(self) -> Seq<Repo> {
        self.repos@
    }

    /// The batches still to be asked for.
    pub open spec fn remaining_plan(self) -> Seq<(int, int)> {
        if self.spec_stopped() {
            Seq::empty()
        } else {
            plan(self.spec_next_page() as int, ORG_MAX_PAGES + 1int, ORG_CONCURRENCY as int)
        }
    }

    /// The size of the next batch while the walk goes on.
    pub open spec fn spec_batch_len(self) -> int {
        if ORG_MAX_PAGES - self.spec_next_page() + 1 < ORG_CONCURRENCY {
            ORG_MAX_PAGES - self.spec_next_page() + 1
        } else {
            ORG_CONCURRENCY as int
        }
    }

    /// A walk that starts at the first page with nothing gathered.
    pub fn new() -> (res: Self)
        ensures
            res.spec_next_page() == 1,
            !res.spec_stopped(),
            res.spec_repos() == Seq::<Repo>::empty(),
    {
        OrgFetch { next_page: 1, stopped: false, repos: Vec::new() }
    }

    /// The next batch of pages to ask for, or `None` once the walk is over.
    pub fn next_batch(&self) -> (res: Option<Batch>)
        ensures
            (self.spec_stopped() || self.spec_next_page() > ORG_MAX_PAGES) ==> res is None,
            (!self.spec_stopped() && self.spec_next_page() <= ORG_MAX_PAGES) ==> (res matches Some(b) && {
                &&& self.remaining_plan().len() > 0
                &&& (b.first as int, b.count as int) == self.remaining_plan()[0]
                &&& b.first == self.spec_next_page()
                &&& 1 <= b.first && b.first + b.count <= ORG_MAX_PAGES + 1
                &&& b.count == self.spec_batch_len()
            }),
    {
        proof {
            use_type_invariant(self);
        }
        if self.stopped {
            None
        } else {
            next_batch(self.next_page, ORG_MAX_PAGES + 1, ORG_CONCURRENCY)
        }
    }

    /// Takes the results of the batch `next_batch` gave, in page order.  The
    /// pages before the first empty one are taken: their repositories are
    /// kept and failed pages are skipped.  An empty page ends the walk and
    /// the pages after it in the batch are dropped.  Returns what to report
    /// of each page taken, the empty one included.
    pub fn on_batch(&mut self, results: Vec<PageResult>) -> (reports: Vec<PageReport>)
        requires
            !old(self).spec_stopped(),
            old(self).spec_next_page() <= ORG_MAX_PAGES,
            results@.len() == old(self).spec_batch_len(),
        ensures
            final(self).spec_repos() == old(self).spec_repos()
                + ok_repos(results@.take(first_empty(results@) as int)),
            final(self).spec_stopped() == (first_empty(results@) < results@.len()),
            final(self).spec_stopped() ==> final(self).spec_next_page() == old(self).spec_next_page(),
            !final(self).spec_stopped() ==> final(self).spec_next_page()
                == old(self).spec_next_page() + results@.len(),
            !final(self).spec_stopped() ==> final(self).remaining_plan()
                == old(self).remaining_plan().drop_first(),
            reports@.len() == (if first_empty(results@) < results@.len() {
                first_empty(results@) + 1
            } else {
                results@.len()
            }),
            forall|j: int| 0 <= j < reports@.len() ==> org_report_matches(
                #[trigger] reports@[j], old(self).spec_next_page() + j, results@[j]),
    {
        proof {
            use_type_invariant(&*self);
        }
        let ghost orig = results@;
        let first = self.next_page;
        let n = results.len();
        let b = next_batch(self.next_page, ORG_MAX_PAGES + 1, ORG_CONCURRENCY);
        let mut results = results;
        let mut gathered: Vec<Repo> = Vec::new();
        let mut reports: Vec<PageReport> = Vec::new();
        let mut page_empty = false;
        let mut k: usize = 0;
        while k < n
            invariant_except_break
                n == orig.len(),
                k <= n,
                n <= ORG_CONCURRENCY,
                first <= ORG_MAX_PAGES,
                !page_empty,
                results@ == orig.skip(k as int),
                gathered@ == ok_repos(orig.take(k as int)),
                reports@.len() == k,
                forall|j: int| 0 <= j < k ==> !is_empty_page(#[trigger] orig[j]),
                forall|j: int| 0 <= j < k ==> org_report_matches(
                    #[trigger] reports@[j], first + j, orig[j]),
            ensures
                n == orig.len(),
                k <= n,
                page_empty ==> k < n && is_empty_page(orig[k as int]) && reports@.len() == k + 1,
                !page_empty ==> k == n && reports@.len() == n,
                gathered@ == ok_repos(orig.take(k as int)),
                forall|j: int| 0 <= j < k ==> !is_empty_page(#[trigger] orig[j]),
                forall|j: int| 0 <= j < reports@.len() ==> org_report_matches(
                    #[trigger] reports@[j], first + j, orig[j]),
            decreases n - k,
        {
            proof {
                lemma_ok_repos_step(orig, k as int);
                assert(results@[0] == orig[k as int]);
                assert(orig.skip(k as int).remove(0) =~= orig.skip(k + 1));
            }
            let r = results.remove(0);
            match r {
                Ok(mut v) => {
                    if v.len() == 0 {
                        reports.push(PageReport { page: first + k, status: PageStatus::Empty });
                        page_empty = true;
                        break;
                    }
                    gathered.append(&mut v);
                    reports.push(PageReport { page: first + k, status: PageStatus::Loaded });
                },
                Err(e) => {
                    reports.push(PageReport { page: first + k, status: PageStatus::Failed(e) });
                },
            }
            k = k + 1;
        }
        proof {
            lemma_first_empty(orig, k as int);
            assert(orig.take(n as int) =~= orig);
        }
        let mut all: Vec<Repo> = Vec::new();
        std::mem::swap(&mut all, &mut self.repos);
        all.append(&mut gathered);
        self.repos = all;
        if page_empty {
            self.stopped = true;
        } else {
            self.next_page = self.next_page + n;
            proof {
                assert(b is Some);
            }
        }
        reports
    }

    /// An empty page has been met and the walk is over.
    pub fn stopped(&self) -> (res: bool)
        ensures
            res == self.spec_stopped(),
    {
        self.stopped
    }

    /// The repositories gathered so far.
    pub fn repos(&self) -> (res: &Vec<Repo>)
        ensures
            res@ == self.spec_repos(),
    {
        &self.repos
    }

    /// Ends the walk.  `None` when no repository was found; otherwise the
    /// first `ORG_REPO_LIMIT` repositories found, in the order they came,
    /// with the number found.
    pub fn finish(self) -> (res: Option<OrgRepos>)
        ensures
            self.spec_repos().len() == 0 ==> res is None,
            self.spec_repos().len() > 0 ==> (res matches Some(out) && {
                &&& out.found == self.spec_repos().len()
                &&& out.repos@ == self.spec_repos().take(
                    if self.spec_repos().len() < ORG_REPO_LIMIT {
                        self.spec_repos().len() as int
                    } else {
                        ORG_REPO_LIMIT as int
                    })
                &&& out.repos@.len() <= ORG_REPO_LIMIT
            }),
    {
        let mut repos = self.repos;
        let found = repos.len();
        if found == 0 {
            None
        } else {
            if found > ORG_REPO_LIMIT {
                repos.truncate(ORG_REPO_LIMIT);
            }
            proof {
                if found <= ORG_REPO_LIMIT {
                    assert(repos@ =~= repos@.take(found as int));
                }
            }
            Some(OrgRepos { repos, found })
        }
    }
}

} // verus!
