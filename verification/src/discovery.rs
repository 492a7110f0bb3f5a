//! Paginated discovery: what to do after each request for a page.
//!
//! The caller fetches the pages, each one after the rate limiter let it,
//! and hands what each request brought to a [`PageCollector`], which says
//! whether to fetch again, and at the end holds the items of all pages.
use crate::error::CliError;
use vstd::prelude::*;
use vstd::string::*;

verus! {

/// What a request for the next page of a listing brought.
#[derive(Debug)]
pub enum PageFetch<T> {
    /// A page; `None` where the page came without a list of items.
    Page(Option<Vec<T>>),
    /// The request failed, for this reason.
    Failed(String),
    /// The listing has no further page.
    End,
}

/// A [`PageFetch`] as a mathematical value.
pub enum PageFetchView<T> {
    Page(Option<Seq<T>>),
    Failed(Seq<char>),
    End,
}

impl<T> View for PageFetch<T> {
    type V = PageFetchView<T>;

    open spec fn view(&self) -> PageFetchView<T> {
        match self {
            PageFetch::Page(Some(items)) => PageFetchView::Page(Some(items@)),
            PageFetch::Page(None) => PageFetchView::Page(None),
            PageFetch::Failed(cause) => PageFetchView::Failed(cause@),
            PageFetch::End => PageFetchView::End,
        }
    }
}

/// Where a discovery stands.
pub enum Progress<T> {
    /// These items were collected, and the next page is to be fetched.
    Fetching(Seq<T>),
    /// The listing ended; these are its items.
    Complete(Seq<T>),
    /// A request failed; this is the message of the error.
    Failed(Seq<char>),
}

/// Where a discovery that has collected `items` stands after one more
/// request. `context` starts the message of an error.
pub open spec fn after_fetch<T>(
    items: Seq<T>,
    context: Seq<char>,
    fetch: PageFetchView<T>,
) -> Progress<T> {
    match fetch {
        PageFetchView::Page(Some(page)) => Progress::Fetching(items + page),
        PageFetchView::Page(None) => Progress::Fetching(items),
        PageFetchView::Failed(cause) => Progress::Failed(context + cause),
        PageFetchView::End => Progress::Complete(items),
    }
}

/// Where a discovery stands after the requests `fetches`, made one after the
/// other from the start. Once it is complete or has failed, it stays so.
pub open spec fn after_fetches<T>(context: Seq<char>, fetches: Seq<PageFetchView<T>>) -> Progress<
    T,
>
    decreases fetches.len(),
{
    if fetches.len() == 0 {
        Progress::Fetching(Seq::empty())
    } else {
        match after_fetches(context, fetches.drop_last()) {
            Progress::Fetching(items) => after_fetch(items, context, fetches.last()),
            ended => ended,
        }
    }
}

/// The requests of a listing that brings `pages` and then ends.
pub open spec fn listing<T>(pages: Seq<Seq<T>>) -> Seq<PageFetchView<T>> {
    Seq::new(pages.len(), |i: int| PageFetchView::Page(Some(pages[i]))).push(PageFetchView::End)
}

/// While pages come in, the items collected are those of the pages so far, in
/// order.
pub proof fn lemma_pages_accumulate<T>(context: Seq<char>, pages: Seq<Seq<T>>)
    ensures
        after_fetches(context, Seq::new(pages.len(), |i: int| PageFetchView::Page(Some(pages[i]))))
            == Progress::Fetching(pages.flatten()),
    decreases pages.len(),
{
    let fetches = Seq::new(pages.len(), |i: int| PageFetchView::Page(Some(pages[i])));
    pages.lemma_flatten_and_flatten_alt_are_equivalent();
    if pages.len() > 0 {
        let before = pages.drop_last();
        lemma_pages_accumulate(context, before);
        before.lemma_flatten_and_flatten_alt_are_equivalent();
        assert(fetches.drop_last() =~= Seq::new(
            before.len(),
            |i: int| PageFetchView::Page(Some(before[i])),
        ));
    }
}

/// Pagination is complete: for a listing that brings the pages `pages` and
/// then ends, discovery returns the items of all pages, page after page and
/// within a page in the page's order, none twice and none left out.
pub proof fn lemma_pagination_complete<T>(context: Seq<char>, pages: Seq<Seq<T>>)
    ensures
        after_fetches(context, listing(pages)) == Progress::Complete(pages.flatten()),
{
    lemma_pages_accumulate(context, pages);
    assert(listing(pages).drop_last() =~= Seq::new(
        pages.len(),
        |i: int| PageFetchView::Page(Some(pages[i])),
    ));
}

/// A failed request ends a discovery with an error, whatever was collected
/// before and whatever a later request would bring.
pub proof fn lemma_failure_is_final<T>(
    context: Seq<char>,
    before: Seq<PageFetchView<T>>,
    cause: Seq<char>,
    after: Seq<PageFetchView<T>>,
)
    requires
        after_fetches(context, before) is Fetching,
    ensures
        after_fetches(context, before.push(PageFetchView::Failed(cause)) + after)
            == Progress::<T>::Failed(context + cause),
    decreases after.len(),
{
    let failed = before.push(PageFetchView::Failed(cause));
    if after.len() == 0 {
        assert(failed + after =~= failed);
        assert(failed.drop_last() =~= before);
    } else {
        lemma_failure_is_final(context, before, cause, after.drop_last());
        assert((failed + after).drop_last() =~= failed + after.drop_last());
    }
}

/// The items that a discovery has collected so far.
pub struct PageCollector<T> {
    /// What starts the message of the error for a failed request.
    pub context: String,
    /// The items of the pages so far, in order.
    pub items: Vec<T>,
}

/// What a [`PageCollector`] decides after a request.
pub enum Collected<T> {
    /// Wait for the rate limiter, fetch the next page, and come back.
    Fetching(PageCollector<T>),
    /// The listing ended; these are its items.
    Complete(Vec<T>),
    /// The discovery failed; nothing of what was collected is kept.
    Failed(CliError),
}

impl<T> View for Collected<T> {
    type V = Progress<T>;

    open spec fn view(&self) -> Progress<T> {
        match self {
            Collected::Fetching(collector) => Progress::Fetching(collector.items@),
            Collected::Complete(items) => Progress::Complete(items@),
            Collected::Failed(e) => Progress::Failed(e@),
        }
    }
}

impl<T> PageCollector<T> {
    /// A discovery before its first request. `context` starts the message of
    /// the error for a failed request.
    pub fn new(context: &str) -> (r: PageCollector<T>)
        ensures
            r.context@ == context@,
            r.items@ == Seq::<T>::empty(),
    {
        PageCollector { context: context.to_owned(), items: Vec::new() }
    }

    /// Takes in what a request brought. A page is added behind the items
    /// collected so far, a failure ends the discovery with an error, and the
    /// end of the listing ends it with all items.
    pub fn step(self, fetch: PageFetch<T>) -> (r: Collected<T>)
        ensures
            r@ == after_fetch(self.items@, self.context@, fetch@),
            r matches Collected::Fetching(next) ==> next.context@ == self.context@,
    {
        let PageCollector { context, mut items } = self;
        match fetch {
            PageFetch::Page(Some(mut page)) => {
                items.append(&mut page);
                Collected::Fetching(PageCollector { context, items })
            },
            PageFetch::Page(None) => Collected::Fetching(PageCollector { context, items }),
            PageFetch::Failed(cause) => Collected::Failed(
                CliError::with_detail(context.as_str(), cause.as_str()),
            ),
            PageFetch::End => Collected::Complete(items),
        }
    }
}

} // verus!
