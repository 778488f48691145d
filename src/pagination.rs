use vstd::prelude::*;
use crate::model::APIResponse;

verus! {

/// Whether a URL already carries a query string.
pub open spec fn has_query(url: Seq<char>) -> bool {
    url.contains('?')
}

/// The name of the cursor parameter, with its `=`.
pub open spec fn cursor_param() -> Seq<char> {
    seq!['p', 'a', 'g', 'i', 'n', 'a', 't', 'i', 'o', 'n', '_', 't', 'o', 'k', 'e', 'n', '=']
}

/// The URL of the page that `token` points to: the cursor parameter is
/// attached to `base` with `&` when `base` has a query string, else with `?`.
pub open spec fn page_url(base: Seq<char>, token: Seq<char>) -> Seq<char> {
    base + (if has_query(base) { seq!['&'] } else { seq!['?'] }) + cursor_param() + token
}

/// Whether `url` holds a `?`.
pub fn url_has_query(url: &str) -> (r: bool)
    ensures
        r == has_query(url@),
{
    let n = url.unicode_len();
    let mut i: usize = 0;
    while i < n
        invariant
            n == url@.len(),
            i <= n,
            forall|j: int| 0 <= j < i ==> url@[j] != '?',
        decreases n - i,
    {
        if url.get_char(i) == '?' {
            assert(url@[i as int] == '?');
            return true;
        }
        i = i + 1;
    }
    false
}

/// The URL of the next page: `base` with `pagination_token=<token>` attached.
pub fn next_page_url(base: &str, token: &str) -> (r: String)
    ensures
        r@ == page_url(base@, token@),
{
    proof {
        reveal_strlit("&");
        reveal_strlit("?");
        reveal_strlit("pagination_token=");
        assert("&"@ =~= seq!['&']);
        assert("?"@ =~= seq!['?']);
        assert("pagination_token="@ =~= cursor_param());
    }
    let mut r = String::from_str(base);
    if url_has_query(base) {
        r.append("&");
    } else {
        r.append("?");
    }
    r.append("pagination_token=");
    r.append(token);
    r
}

/// Why a paginated fetch failed.
#[derive(Debug, Clone)]
pub enum FetchFailure {
    /// The request could not be sent or its response could not be read.
    Network(String),
    /// The server answered with a status other than success.
    Status(u16),
    /// The body is not a page envelope of the expected shape.
    Decode(String),
    /// The server kept handing out cursors past the page limit.
    TooManyPages(usize),
}

/// A failed fetch: the URL of the request that failed, and why.
#[derive(Debug, Clone)]
pub struct FetchError {
    pub url: String,
    pub failure: FetchFailure,
}

/// The state of a paginated fetch that waits for the answer to one request.
///
/// The caller sends the request at `request_url`, and hands the decoded
/// page, or the reason it has none, to `advance`.
pub struct Paginator<T> {
    base_url: String,
    request_url: String,
    items: Vec<T>,
    pages: usize,
    max_pages: usize,
}

/// What a `Paginator` stands for: the URL it was started on, the URL of the
/// request in flight, the items of the pages received so far, how many pages
/// were received, and how many pages it accepts in all.
pub struct PaginatorView<T> {
    pub base_url: Seq<char>,
    pub request_url: Seq<char>,
    pub items: Seq<T>,
    pub pages: nat,
    pub max_pages: nat,
}

impl<T> PaginatorView<T> {
    /// Another page may still be received.
    pub open spec fn wf(&self) -> bool {
        &&& self.pages < self.max_pages
        &&& self.max_pages <= usize::MAX
    }
}

/// The state before the first page: the first request goes to `base`.
pub open spec fn start_view<T>(base: Seq<char>, max_pages: nat) -> PaginatorView<T> {
    PaginatorView { base_url: base, request_url: base, items: seq![], pages: 0, max_pages }
}

impl<T> View for Paginator<T> {
    type V = PaginatorView<T>;

    closed spec fn view(&self) -> PaginatorView<T> {
        PaginatorView {
            base_url: self.base_url@,
            request_url: self.request_url@,
            items: self.items@,
            pages: self.pages as nat,
            max_pages: self.max_pages as nat,
        }
    }
}

/// What a fetch does after an answer: send another request, finish with all
/// the items received, or fail at a URL.
pub enum PageStep<T> {
    Next(Paginator<T>),
    Complete(Vec<T>),
    Failed(FetchError),
}

/// The model of a `PageStep`.
pub enum StepView<T> {
    Next(PaginatorView<T>),
    Complete(Seq<T>),
    Failed(Seq<char>, FetchFailure),
}

impl<T> View for PageStep<T> {
    type V = StepView<T>;

    open spec fn view(&self) -> StepView<T> {
        match self {
            PageStep::Next(p) => StepView::Next(p@),
            PageStep::Complete(v) => StepView::Complete(v@),
            PageStep::Failed(e) => StepView::Failed(e.url@, e.failure),
        }
    }
}

/// One step of the protocol. A failure ends the fetch at the URL in flight.
/// A page's items are appended in order; a page without a cursor ends the
/// fetch with everything received; a page with one sends the next request
/// to `page_url(base, cursor)`, unless the page limit is reached.
pub open spec fn step_spec<T>(
    s: PaginatorView<T>,
    outcome: Result<APIResponse<T>, FetchFailure>,
) -> StepView<T> {
    match outcome {
        Err(f) => StepView::Failed(s.request_url, f),
        Ok(page) => {
            let token = page.meta.next_token@;
            if token.len() == 0 {
                StepView::Complete(s.items + page.data@)
            } else if s.pages + 1 >= s.max_pages {
                StepView::Failed(
                    page_url(s.base_url, token),
                    FetchFailure::TooManyPages(s.max_pages as usize),
                )
            } else {
                StepView::Next(
                    PaginatorView {
                        base_url: s.base_url,
                        request_url: page_url(s.base_url, token),
                        items: s.items + page.data@,
                        pages: s.pages + 1,
                        max_pages: s.max_pages,
                    },
                )
            }
        },
    }
}

impl<T> Paginator<T> {
    /// Starts a fetch at `base_url` that accepts at most `max_pages` pages.
    pub fn new(base_url: String, max_pages: usize) -> (r: Paginator<T>)
        requires
            max_pages >= 1,
        ensures
            r@ == start_view::<T>(base_url@, max_pages as nat),
            r@.wf(),
    {
        let request_url = base_url.clone();
        Paginator { base_url, request_url, items: Vec::new(), pages: 0, max_pages }
    }

    /// The URL of the request to send next.
    pub fn request_url(&self) -> (r: &String)
        ensures
            r@ == self@.request_url,
    {
        &self.request_url
    }

    /// The number of pages received so far.
    pub fn pages_received(&self) -> (r: usize)
        ensures
            r == self@.pages,
    {
        self.pages
    }

    /// Takes the answer to the request in flight.
    pub fn advance(self, outcome: Result<APIResponse<T>, FetchFailure>) -> (r: PageStep<T>)
        requires
            self@.wf(),
        ensures
            r@ == step_spec(self@, outcome),
            r matches PageStep::Next(p) ==> p@.wf(),
    {
        match outcome {
            Err(failure) => PageStep::Failed(FetchError { url: self.request_url, failure }),
            Ok(page) => {
                let APIResponse { data, meta } = page;
                let mut data = data;
                let mut items = self.items;
                items.append(&mut data);
                if meta.next_token.unicode_len() == 0 {
                    PageStep::Complete(items)
                } else {
                    let url = next_page_url(self.base_url.as_str(), meta.next_token.as_str());
                    if self.pages + 1 >= self.max_pages {
                        PageStep::Failed(
                            FetchError { url, failure: FetchFailure::TooManyPages(self.max_pages) },
                        )
                    } else {
                        PageStep::Next(
                            Paginator {
                                base_url: self.base_url,
                                request_url: url,
                                items,
                                pages: self.pages + 1,
                                max_pages: self.max_pages,
                            },
                        )
                    }
                }
            },
        }
    }
}

/// The items of `pages`, in page order.
pub open spec fn all_items<T>(pages: Seq<APIResponse<T>>) -> Seq<T>
    decreases pages.len(),
{
    if pages.len() == 0 {
        seq![]
    } else {
        all_items(pages.drop_last()) + pages.last().data@
    }
}

/// The sum of the item counts that `pages` declare.
pub open spec fn declared_count<T>(pages: Seq<APIResponse<T>>) -> nat
    decreases pages.len(),
{
    if pages.len() == 0 {
        0
    } else {
        declared_count(pages.drop_last()) + pages.last().meta.result_count as nat
    }
}

/// `pages` is what a well-behaved server hands out: every page but the last
/// carries a cursor, and the last carries none.
pub open spec fn is_chain<T>(pages: Seq<APIResponse<T>>) -> bool {
    &&& pages.len() >= 1
    &&& forall|i: int| 0 <= i < pages.len() - 1 ==> !(#[trigger] pages[i]).meta.is_last()
    &&& pages.last().meta.is_last()
}

/// The URL of request `i` of a fetch at `base`: `base` itself first, then the
/// cursor of the page before attached to `base`.
pub open spec fn request_url_at<T>(base: Seq<char>, pages: Seq<APIResponse<T>>, i: int) -> Seq<
    char,
> {
    if i == 0 {
        base
    } else {
        page_url(base, pages[i - 1].meta.next_token@)
    }
}

/// The outcome of handing `pages` one after the other to the protocol from
/// `s`; once the fetch is over, further pages change nothing.
pub open spec fn run<T>(s: StepView<T>, pages: Seq<APIResponse<T>>) -> StepView<T>
    decreases pages.len(),
{
    if pages.len() == 0 {
        s
    } else {
        match run(s, pages.drop_last()) {
            StepView::Next(p) => step_spec(p, Ok(pages.last())),
            other => other,
        }
    }
}

proof fn lemma_chain_prefix<T>(base: Seq<char>, max_pages: nat, pages: Seq<APIResponse<T>>, k: int)
    requires
        is_chain(pages),
        pages.len() <= max_pages <= usize::MAX,
        0 <= k < pages.len(),
    ensures
        run(StepView::Next(start_view::<T>(base, max_pages)), pages.take(k)) == StepView::Next(
            PaginatorView {
                base_url: base,
                request_url: request_url_at(base, pages, k),
                items: all_items(pages.take(k)),
                pages: k as nat,
                max_pages,
            },
        ),
    decreases k,
{
    if k == 0 {
        assert(pages.take(0) =~= Seq::<APIResponse<T>>::empty());
        assert(all_items(pages.take(0)) =~= Seq::<T>::empty());
    } else {
        lemma_chain_prefix(base, max_pages, pages, k - 1);
        assert(pages.take(k).drop_last() =~= pages.take(k - 1));
        assert(pages.take(k).last() == pages[k - 1]);
        assert(!pages[k - 1].meta.is_last());
    }
}

/// A fetch at `base` that receives a chain of pages (each but the last with a
/// cursor) within its page limit sends exactly one request per page, the
/// first to `base` and each next one with the cursor of the page before
/// attached, and completes with the items of all pages in page order.
pub proof fn lemma_chain_complete<T>(base: Seq<char>, max_pages: nat, pages: Seq<APIResponse<T>>)
    requires
        is_chain(pages),
        pages.len() <= max_pages <= usize::MAX,
    ensures
        forall|k: int|
            0 <= k < pages.len() ==> run(
                StepView::Next(start_view::<T>(base, max_pages)),
                #[trigger] pages.take(k),
            ) == StepView::Next(
                PaginatorView {
                    base_url: base,
                    request_url: request_url_at(base, pages, k),
                    items: all_items(pages.take(k)),
                    pages: k as nat,
                    max_pages,
                },
            ),
        run(StepView::Next(start_view::<T>(base, max_pages)), pages) == StepView::<T>::Complete(
            all_items(pages),
        ),
{
    assert forall|k: int| 0 <= k < pages.len() implies run(
        StepView::Next(start_view::<T>(base, max_pages)),
        #[trigger] pages.take(k),
    ) == StepView::Next(
        PaginatorView {
            base_url: base,
            request_url: request_url_at(base, pages, k),
            items: all_items(pages.take(k)),
            pages: k as nat,
            max_pages,
        },
    ) by {
        lemma_chain_prefix(base, max_pages, pages, k);
    }
    let n = pages.len() as int;
    lemma_chain_prefix(base, max_pages, pages, n - 1);
    assert(pages.drop_last() =~= pages.take(n - 1));
}

/// A single page without a cursor ends the fetch after the one request to
/// `base`, with exactly that page's items.
pub proof fn lemma_single_page<T>(base: Seq<char>, max_pages: nat, page: APIResponse<T>)
    requires
        page.meta.is_last(),
        1 <= max_pages <= usize::MAX,
    ensures
        start_view::<T>(base, max_pages).request_url == base,
        run(StepView::Next(start_view::<T>(base, max_pages)), seq![page]) == StepView::<
            T,
        >::Complete(page.data@),
{
    let s0 = StepView::Next(start_view::<T>(base, max_pages));
    let one = seq![page];
    assert(one.drop_last() =~= Seq::<APIResponse<T>>::empty());
    assert(run(s0, one.drop_last()) == s0);
    assert(one.last() == page);
    assert(Seq::<T>::empty() + page.data@ =~= page.data@);
}

/// A failure on any request of a chain ends the fetch with that failure and
/// the URL of the request that failed; nothing received before is handed on,
/// and no later page changes the outcome.
pub proof fn lemma_fail_fast<T>(
    base: Seq<char>,
    max_pages: nat,
    pages: Seq<APIResponse<T>>,
    k: int,
    failure: FetchFailure,
    later: Seq<APIResponse<T>>,
)
    requires
        is_chain(pages),
        pages.len() <= max_pages <= usize::MAX,
        0 <= k < pages.len(),
    ensures
        ({
            let s = run(StepView::Next(start_view::<T>(base, max_pages)), pages.take(k));
            &&& s is Next
            &&& step_spec(s->Next_0, Err(failure)) == StepView::<T>::Failed(
                request_url_at(base, pages, k),
                failure,
            )
            &&& run(step_spec(s->Next_0, Err(failure)), later) == StepView::<T>::Failed(
                request_url_at(base, pages, k),
                failure,
            )
        }),
{
    lemma_chain_prefix(base, max_pages, pages, k);
    lemma_run_failed(request_url_at(base, pages, k), failure, later);
}

proof fn lemma_run_failed<T>(url: Seq<char>, failure: FetchFailure, later: Seq<APIResponse<T>>)
    ensures
        run(StepView::<T>::Failed(url, failure), later) == StepView::<T>::Failed(url, failure),
    decreases later.len(),
{
    if later.len() > 0 {
        lemma_run_failed::<T>(url, failure, later.drop_last());
    }
}

/// Where every page holds as many items as it declares, a fetch collects as
/// many items as the pages declare in all.
pub proof fn lemma_declared_count<T>(pages: Seq<APIResponse<T>>)
    requires
        forall|i: int|
            0 <= i < pages.len() ==> (#[trigger] pages[i]).data@.len()
                == pages[i].meta.result_count,
    ensures
        all_items(pages).len() == declared_count(pages),
    decreases pages.len(),
{
    if pages.len() > 0 {
        let prefix = pages.drop_last();
        assert forall|i: int| 0 <= i < prefix.len() implies (#[trigger] prefix[i]).data@.len()
            == prefix[i].meta.result_count by {
            assert(prefix[i] == pages[i]);
        }
        lemma_declared_count(prefix);
        assert(pages[pages.len() - 1] == pages.last());
    }
}

} // verus!
