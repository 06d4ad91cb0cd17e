//! Pagination: one page of a collection, and the walk over all of them.
//!
//! TM Forum paginates with `offset`/`limit` query parameters. How a server
//! tells you there is *more* is where deployments differ; a page records the
//! three answers — `X-Total-Count`, `206 Partial Content`, and a
//! `Link: <…>; rel="next"` header — and falls back to "the page came back
//! full" when it has none of them.
use vstd::prelude::*;
use crate::api::query::{Query, QueryView};
use vstd::hash_set::StringHashSet;

verus! {

/// One page of a collection, with whatever the server said about the rest.
#[derive(Debug, Clone)]
pub struct Page<T> {
    /// The resources in this page.
    pub items: Vec<T>,
    /// `X-Total-Count`: how many resources match the query overall.
    pub total_count: Option<usize>,
    /// `X-Result-Count`: how many resources this page carries.
    pub result_count: Option<usize>,
    /// The URL of the next page, from a `Link: …; rel="next"` header.
    pub next_link: Option<String>,
    /// Whether the server answered `206 Partial Content`: a slice of a
    /// larger match. `false` says nothing either way.
    pub partial: bool,
    /// The offset this page was requested at.
    pub offset: usize,
}

/// The page size the walk requests when the query names none.
///
/// The value matters only for the short-page heuristic: asking for a specific
/// number is what makes "fewer came back" mean "that was the last page".
pub const DEFAULT_PAGE_SIZE: usize = 20;

/// Whether more resources are known to follow a page of `len` items
/// requested at `offset`.
///
/// An empty page always ends the sequence; then an exact total decides; then
/// a `206` or a next link says there is more; and otherwise a full page does.
pub open spec fn more_follow(
    len: nat,
    offset: nat,
    total: Option<usize>,
    partial: bool,
    has_link: bool,
    page_size: nat,
) -> bool {
    if len == 0 {
        false
    } else {
        match total {
            Some(t) => offset + len < t,
            None => partial || has_link || len >= page_size,
        }
    }
}

/// An empty page ends the sequence whatever its headers say: a server that
/// keeps returning nothing is not polled forever.
pub proof fn lemma_an_empty_page_ends_the_sequence<T>(page: Page<T>, page_size: usize)
    requires
        page.items@.len() == 0,
    ensures
        !page.has_more_spec(page_size),
{
}

/// An exact total outranks every other signal, `206` and next link included.
pub proof fn lemma_the_total_count_decides<T>(page: Page<T>, page_size: usize)
    requires
        page.items@.len() > 0,
        page.total_count is Some,
    ensures
        page.has_more_spec(page_size) == (page.offset + page.items@.len()
            < page.total_count.unwrap()),
{
}

impl<T> Page<T> {
    /// What [`has_more`](Self::has_more) answers for a page size.
    pub open spec fn has_more_spec(&self, page_size: usize) -> bool {
        more_follow(
            self.items@.len(),
            self.offset as nat,
            self.total_count,
            self.partial,
            self.next_link is Some,
            page_size as nat,
        )
    }

    /// A page of `items` with no pagination signals.
    pub fn new(items: Vec<T>) -> (r: Self)
        ensures
            r.items@ == items@,
            r.result_count == Some(items@.len() as usize),
            r.total_count is None,
            r.next_link is None,
            !r.partial,
            r.offset == 0,
    {
        let n = items.len();
        Page { items, total_count: None, result_count: Some(n), next_link: None, partial: false, offset: 0 }
    }

    /// Marks the page as a `206`: a slice of a larger match.
    pub fn with_partial(self, partial: bool) -> (r: Self)
        ensures
            r == (Page { partial, ..self }),
    {
        Page { partial, ..self }
    }

    /// Sets `X-Total-Count`.
    pub fn with_total_count(self, total: usize) -> (r: Self)
        ensures
            r == (Page { total_count: Some(total), ..self }),
    {
        Page { total_count: Some(total), ..self }
    }

    /// Sets the URL of the next page.
    pub fn with_next_link(self, link: &str) -> (r: Self)
        ensures
            r.items == self.items,
            r.total_count == self.total_count,
            r.result_count == self.result_count,
            r.next_link matches Some(l) && l@ == link@,
            r.partial == self.partial,
            r.offset == self.offset,
    {
        Page { next_link: Some(link.to_owned()), ..self }
    }

    /// Sets the offset this page was requested at.
    pub fn with_offset(self, offset: usize) -> (r: Self)
        ensures
            r == (Page { offset, ..self }),
    {
        Page { offset, ..self }
    }

    /// Whether the page carries no resources.
    pub fn is_empty(&self) -> (r: bool)
        ensures
            r == (self.items@.len() == 0),
    {
        self.items.len() == 0
    }

    /// Number of resources in this page.
    pub fn len(&self) -> (r: usize)
        ensures
            r == self.items@.len(),
    {
        self.items.len()
    }

    /// The offset that would fetch the next page.
    pub fn next_offset(&self) -> (r: usize)
        requires
            self.offset + self.items@.len() <= usize::MAX,
        ensures
            r == self.offset + self.items@.len(),
    {
        self.offset + self.items.len()
    }

    /// Whether more resources are known to follow.
    ///
    /// Prefers `X-Total-Count`, which answers exactly; then the `206` TMF630
    /// uses to mark a partial collection; then a `rel="next"` link; and falls
    /// back to "the page came back full". An empty page always ends the
    /// sequence: a server that keeps returning nothing must not be polled
    /// forever.
    pub fn has_more(&self, page_size: usize) -> (r: bool)
        ensures
            r == self.has_more_spec(page_size),
    {
        let n = self.items.len();
        if n == 0 {
            return false;
        }
        if let Some(total) = self.total_count {
            return (self.offset as u128) + (n as u128) < total as u128;
        }
        if self.partial || self.next_link.is_some() {
            return true;
        }
        n >= page_size
    }

    /// The resources, in order.
    pub fn into_items(self) -> (r: Vec<T>)
        ensures
            r@ == self.items@,
    {
        self.items
    }
}

/// Where the next page is: an advanced query, or a URL the server handed
/// over.
#[derive(Debug, Clone)]
pub enum PageRequest {
    /// Fetch by `offset`/`limit` against the collection.
    Query(Query),
    /// Fetch the absolute URL the previous page's `Link` header named.
    Follow(String),
}

/// How the next page will be reached.
#[derive(Debug, Clone)]
pub enum Next {
    /// By offset, against the query.
    Offset(usize),
    /// By following a link.
    Link(String),
}

/// What the walk does next.
#[derive(Debug)]
pub enum Step<T> {
    /// Hand out this resource.
    Item(T),
    /// Fetch this page, then report it with [`PageStream::receive`], or a
    /// failure with [`PageStream::fail`].
    Fetch(PageRequest),
    /// The collection is exhausted.
    Done,
}

/// The walk over every resource matching a query, one page at a time.
///
/// The walk decides; the caller fetches. Each [`step`](Self::step) either
/// hands out a buffered resource, asks for a page, or says the collection is
/// done. The walk follows a `rel="next"` link when the server gives one, and
/// advances the offset otherwise; it ends on a short page, an exhausted
/// total, an empty page, a link already followed, or — once the server has
/// led with links — a page without one.
pub struct PageStream<T> {
    next: Next,
    /// The current page's resources, last first.
    buffer: Vec<T>,
    page_size: usize,
    query: Query,
    /// Links already followed. A server that keeps naming a page it has
    /// already served would otherwise stream forever.
    visited: StringHashSet,
    /// Whether the server is leading with `Link` headers.
    following: bool,
    done: bool,
}

/// The offset request a walk makes from where it stands: its query with
/// the walk's offset and the walk's page size as `limit`.
pub open spec fn offset_request<T>(s: PageStream<T>) -> QueryView {
    QueryView {
        offset: Some(s.next_offset_spec()),
        limit: Some(s.page_size_spec()),
        ..s.query_spec()
    }
}

/// Whether `b` is still the walk `a` was: the same query, asking for the
/// same page size. Every step, page taken in and failure keeps this.
pub open spec fn same_walk<T>(a: PageStream<T>, b: PageStream<T>) -> bool {
    b.page_size_spec() == a.page_size_spec() && b.query_spec() == a.query_spec()
}

/// Every offset request of a walk carries the page size it started with.
/// `run` is the walk as it stands after each call of `step`, `receive` or
/// `fail`, from the stream [`paginate`] made on: whatever was fetched,
/// each offset request asks for the query's own `limit`, or
/// [`DEFAULT_PAGE_SIZE`] when the query set none, and keeps the query.
pub proof fn lemma_every_offset_request_carries_the_page_size<T>(
    query: QueryView,
    run: Seq<PageStream<T>>,
    i: int,
)
    requires
        run.len() > 0,
        run[0].query_spec() == query,
        run[0].page_size_spec() == (match query.limit {
            Some(l) => l,
            None => DEFAULT_PAGE_SIZE,
        }),
        forall|k: int| 0 <= k < run.len() - 1 ==> #[trigger] same_walk(run[k], run[k + 1]),
        0 <= i < run.len(),
    ensures
        offset_request(run[i]).limit == Some(
            match query.limit {
                Some(l) => l,
                None => DEFAULT_PAGE_SIZE,
            },
        ),
        offset_request(run[i]).filters == query.filters,
        offset_request(run[i]).fields == query.fields,
        offset_request(run[i]).sort == query.sort,
    decreases i,
{
    if i > 0 {
        let k = i - 1;
        lemma_every_offset_request_carries_the_page_size(query, run, k);
        assert(same_walk(run[k], run[k + 1]));
    }
}

/// The page size a walk over `query` asks for: the query's own `limit`, or
/// [`DEFAULT_PAGE_SIZE`] when it sets none.
pub open spec fn walk_limit(query: QueryView) -> usize {
    match query.limit {
        Some(l) => l,
        None => DEFAULT_PAGE_SIZE,
    }
}

impl<T> PageStream<T> {
    #[verifier::type_invariant]
    spec fn asks_for_its_limit(&self) -> bool {
        self.page_size == walk_limit(self.query@)
    }

    /// The resources still to hand out before the next fetch, in order.
    pub closed spec fn queued(&self) -> Seq<T> {
        self.buffer@.reverse()
    }

    /// The links followed so far.
    pub closed spec fn visited_spec(&self) -> Set<Seq<char>> {
        self.visited@
    }

    /// Whether the walk has ended, once the queue is drained.
    pub closed spec fn done_spec(&self) -> bool {
        self.done
    }

    /// Whether the server is leading with links.
    pub closed spec fn following_spec(&self) -> bool {
        self.following
    }

    /// The page size offset requests ask for.
    pub closed spec fn page_size_spec(&self) -> usize {
        self.page_size
    }

    /// The query offset requests are built from.
    pub closed spec fn query_spec(&self) -> QueryView {
        self.query@
    }

    /// How the next page will be reached, by its view.
    pub closed spec fn next_is_link(&self) -> Option<Seq<char>> {
        match self.next {
            Next::Link(u) => Some(u@),
            Next::Offset(_) => None,
        }
    }

    /// The offset the next offset request starts at.
    pub closed spec fn next_offset_spec(&self) -> usize {
        match self.next {
            Next::Offset(o) => o,
            Next::Link(_) => 0,
        }
    }

    /// What to do next: hand out a resource, fetch a page, or stop.
    ///
    /// A fetch is asked for only when the queue is empty and the walk has not
    /// ended; an offset request is the query with the walk's offset and an
    /// explicit `limit`, since a short page means "last page" only when the
    /// client chose the page size.
    pub fn step(&mut self) -> (r: Step<T>)
        ensures
            old(self).queued().len() > 0 ==> (r matches Step::Item(t) && t == old(self).queued()[0]
                && final(self).queued() == old(self).queued().drop_first()),
            old(self).queued().len() == 0 && old(self).done_spec() ==> r is Done,
            old(self).queued().len() == 0 && !old(self).done_spec() ==> match old(
                self,
            ).next_is_link() {
                Some(u) => r matches Step::Fetch(PageRequest::Follow(f)) && f@ == u,
                None => r matches Step::Fetch(PageRequest::Query(q)) && q@ == offset_request(
                    *old(self),
                ),
            },
            final(self).done_spec() == old(self).done_spec(),
            final(self).visited_spec() == old(self).visited_spec(),
            final(self).following_spec() == old(self).following_spec(),
            final(self).next_is_link() == old(self).next_is_link(),
            final(self).next_offset_spec() == old(self).next_offset_spec(),
            final(self).page_size_spec() == old(self).page_size_spec(),
            final(self).query_spec() == old(self).query_spec(),
            same_walk(*old(self), *final(self)),
            old(self).queued().len() == 0 ==> final(self).queued().len() == 0,
            r matches Step::Fetch(PageRequest::Query(q)) ==> q@.limit == Some(
                walk_limit(old(self).query_spec()),
            ),
    {
        proof {
            use_type_invariant(&*self);
        }
        if self.buffer.len() > 0 {
            let ghost before = self.buffer@;
            let mut buffer: Vec<T> = Vec::new();
            std::mem::swap(&mut buffer, &mut self.buffer);
            let item = buffer.pop().unwrap();
            self.buffer = buffer;
            proof {
                assert(self.buffer@.reverse() =~= before.reverse().drop_first());
            }
            return Step::Item(item);
        }
        if self.done {
            return Step::Done;
        }
        match &self.next {
            Next::Offset(offset) => {
                let q = self.query.clone().offset(*offset).limit(self.page_size);
                Step::Fetch(PageRequest::Query(q))
            },
            Next::Link(url) => Step::Fetch(PageRequest::Follow(url.clone())),
        }
    }

    /// Ends the walk after a failed fetch; the caller reports the failure.
    pub fn fail(&mut self)
        ensures
            final(self).done_spec(),
            final(self).queued() == old(self).queued(),
            final(self).visited_spec() == old(self).visited_spec(),
            final(self).page_size_spec() == old(self).page_size_spec(),
            final(self).query_spec() == old(self).query_spec(),
            same_walk(*old(self), *final(self)),
    {
        proof {
            use_type_invariant(&*self);
        }
        self.done = true;
    }

    /// Takes in the page a [`Step::Fetch`] asked for.
    ///
    /// The page's resources are queued. A next link is followed unless the
    /// page is empty or the link was followed before; once the server leads
    /// with links, a page without one ends the walk; otherwise the offset
    /// advances, and [`Page::has_more`] decides whether to go on.
    pub fn receive(&mut self, page: Page<T>)
        requires
            page.offset + page.items@.len() <= usize::MAX,
        ensures
            final(self).queued() == page.items@,
            page.items@.len() == 0 ==> final(self).done_spec(),
            final(self).next_is_link() matches Some(u) ==> (page.next_link matches Some(l) && l@
                == u && !old(self).visited_spec().contains(u) && final(self).visited_spec()
                == old(self).visited_spec().insert(u) && page.items@.len() > 0
                && final(self).done_spec() == old(self).done_spec()),
            final(self).next_is_link() is None ==> final(self).visited_spec()
                == old(self).visited_spec() && final(self).next_offset_spec() == page.offset
                + page.items@.len(),
            final(self).following_spec() == (final(self).next_is_link() is Some),
            old(self).done_spec() ==> final(self).done_spec(),
            page.next_link matches Some(l) ==> (page.items@.len() > 0 && !old(
                self,
            ).visited_spec().contains(l@) ==> final(self).next_is_link() == Some(l@)),
            page.next_link matches Some(l) ==> (old(self).visited_spec().contains(l@)
                ==> final(self).done_spec()),
            page.next_link is None && old(self).following_spec() ==> final(self).done_spec(),
            page.next_link is None && !old(self).following_spec() ==> final(self).done_spec() == (
            old(self).done_spec() || !page.has_more_spec(old(self).page_size_spec())),
            final(self).page_size_spec() == old(self).page_size_spec(),
            final(self).query_spec() == old(self).query_spec(),
            same_walk(*old(self), *final(self)),
    {
        proof {
            use_type_invariant(&*self);
        }
        let next_offset = page.next_offset();
        let more = page.has_more(self.page_size);
        let Page { items, next_link, .. } = page;
        let next = match next_link {
            Some(url) => {
                if items.len() == 0 {
                    self.done = true;
                    Next::Offset(next_offset)
                } else if !self.visited.contains(url.as_str()) {
                    let mut visited = StringHashSet::new();
                    std::mem::swap(&mut visited, &mut self.visited);
                    visited.insert(url.clone());
                    self.visited = visited;
                    Next::Link(url)
                } else {
                    self.done = true;
                    Next::Offset(next_offset)
                }
            },
            None => {
                if self.following {
                    self.done = true;
                } else if !more {
                    self.done = true;
                }
                Next::Offset(next_offset)
            },
        };
        self.following = match &next {
            Next::Link(_) => true,
            Next::Offset(_) => false,
        };
        self.next = next;
        let ghost forward = items@;
        let mut buffer: Vec<T> = Vec::new();
        let mut items = items;
        while items.len() > 0
            invariant
                forward == items@ + buffer@.reverse(),
            decreases items@.len(),
        {
            let ghost before_items = items@;
            let ghost before_buffer = buffer@;
            let item = items.pop().unwrap();
            buffer.push(item);
            proof {
                assert(before_items =~= items@.push(item));
                assert(buffer@.reverse() =~= seq![item] + before_buffer.reverse());
                assert(forward =~= items@ + buffer@.reverse());
            }
        }
        assert(forward =~= buffer@.reverse());
        self.buffer = buffer;
    }
}

/// Starts the walk over every resource matching `query`.
///
/// The walk asks for `query`'s own `limit`, or [`DEFAULT_PAGE_SIZE`], and
/// starts at its `offset`, or 0.
pub fn paginate<T>(query: Query) -> (r: PageStream<T>)
    ensures
        r.queued().len() == 0,
        !r.done_spec(),
        r.visited_spec() == Set::<Seq<char>>::empty(),
        !r.following_spec(),
        r.next_is_link() is None,
        r.next_offset_spec() == (match query@.offset {
            Some(o) => o,
            None => 0,
        }),
        r.page_size_spec() == (match query@.limit {
            Some(l) => l,
            None => DEFAULT_PAGE_SIZE,
        }),
        r.query_spec() == query@,
{
    let page_size = match query.limit_value() {
        Some(l) => l,
        None => DEFAULT_PAGE_SIZE,
    };
    let start = match query.offset_value() {
        Some(o) => o,
        None => 0,
    };
    let r = PageStream {
        next: Next::Offset(start),
        buffer: Vec::new(),
        page_size,
        query,
        visited: StringHashSet::new(),
        following: false,
        done: false,
    };
    assert(r.buffer@.reverse() =~= Seq::<T>::empty());
    r
}

} // verus!
