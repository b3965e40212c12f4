//! Walking a whole feed, page by page.
//!
//! A walk asks for the first page with the empty cursor and for each later
//! page with the `after` cursor of the page before. It ends with the first
//! page that has no `after` cursor. It also ends when a page hands back the
//! cursor that it was asked with: a feed that repeats its cursor would
//! otherwise be walked for ever.
//!
//! `Walk` keeps the state of a walk for a caller that fetches the pages
//! itself; `walk_all` runs a whole walk with a function that fetches one
//! page.

use vstd::prelude::*;
use vstd::arithmetic::div_mod::{lemma_basic_div, lemma_div_plus_one};
use crate::models::response::BasicListing;
use crate::util::error::RouxError;
use crate::util::option::text_of;

verus! {

/// Where a walk stands: the cursor to ask the next page with, and whether
/// the walk is over.
pub struct WalkState {
    pub after: Seq<char>,
    pub finished: bool,
}

/// The state before the first page.
pub open spec fn start_state() -> WalkState {
    WalkState { after: Seq::empty(), finished: false }
}

/// The state after a page whose `after` cursor is `page_after`: the walk
/// goes on with a cursor that differs from the one asked with, and is over
/// otherwise.
pub open spec fn step(state: WalkState, page_after: Option<Seq<char>>) -> WalkState {
    match page_after {
        Some(cursor) => if cursor != state.after {
            WalkState { after: cursor, finished: false }
        } else {
            WalkState { after: state.after, finished: true }
        },
        None => WalkState { after: state.after, finished: true },
    }
}

/// A walk through a feed, with the pages that it has collected.
#[derive(Debug)]
pub struct Walk<T> {
    /// The cursor to ask the next page with.
    pub after: String,
    /// Whether the walk is over.
    pub finished: bool,
    /// The pages so far, in the order in which they came.
    pub pages: Vec<BasicListing<T>>,
}

impl<T> Walk<T> {
    /// Where the walk stands.
    pub open spec fn state(&self) -> WalkState {
        WalkState { after: self.after@, finished: self.finished }
    }

    /// A walk before its first page.
    pub fn new() -> (walk: Walk<T>)
        ensures
            walk.state() == start_state(),
            walk.pages@.len() == 0,
    {
        Walk { after: String::new(), finished: false, pages: Vec::new() }
    }

    /// The cursor to ask the next page with, or `None` when the walk is
    /// over.
    pub fn next_cursor(&self) -> (cursor: Option<&str>)
        ensures
            self.finished ==> cursor is None,
            !self.finished ==> (cursor matches Some(after) && after@ == self.after@),
    {
        if self.finished {
            None
        } else {
            Some(self.after.as_str())
        }
    }

    /// Takes the page that came back for the cursor of `next_cursor`: keeps
    /// the page and moves on as `step` says. A walk that is over takes no
    /// page and stays as it is.
    pub fn take(&mut self, page: BasicListing<T>)
        ensures
            !old(self).finished ==> final(self).state() == step(
                old(self).state(),
                text_of(page.data.after),
            ) && final(self).pages@ == old(self).pages@.push(page),
            old(self).finished ==> *final(self) == *old(self),
    {
        if self.finished {
            return ;
        }
        match &page.data.after {
            Some(cursor) => {
                if *cursor == self.after {
                    self.finished = true;
                } else {
                    self.after = cursor.clone();
                }
            },
            None => {
                self.finished = true;
            },
        }
        self.pages.push(page);
    }

    /// The pages that the walk has collected.
    pub fn into_pages(self) -> (pages: Vec<BasicListing<T>>)
        ensures
            pages == self.pages,
    {
        self.pages
    }
}

/// The page of at most `size` items that a feed serves from position `pos`.
pub open spec fn served_page<T>(feed: Seq<T>, size: nat, pos: nat) -> Seq<T> {
    if pos + size < feed.len() {
        feed.subrange(pos as int, (pos + size) as int)
    } else {
        feed.subrange(pos as int, feed.len() as int)
    }
}

/// The `after` cursor of that page: the cursor of the position behind it,
/// or none where the feed ends with the page.
pub open spec fn served_after(len: nat, size: nat, cursors: Seq<Seq<char>>, pos: nat)
    -> Option<Seq<char>> {
    if pos + size < len {
        Some(cursors[(pos + size) as int])
    } else {
        None
    }
}

/// The pages that a walk in `state` collects from a feed that serves it
/// from position `pos` on.
pub open spec fn walk_pages<T>(
    feed: Seq<T>,
    size: nat,
    cursors: Seq<Seq<char>>,
    pos: nat,
    state: WalkState,
) -> Seq<Seq<T>>
    decreases feed.len() - pos,
{
    if state.finished || size == 0 {
        Seq::empty()
    } else {
        let next = step(state, served_after(feed.len(), size, cursors, pos));
        let rest = if pos + size < feed.len() {
            walk_pages(feed, size, cursors, (pos + size) as nat, next)
        } else {
            Seq::empty()
        };
        seq![served_page(feed, size, pos)] + rest
    }
}

/// `cursors` names the positions of a feed of `len` items, the end
/// included: each position has a cursor of its own, and the start has the
/// empty one.
pub open spec fn names_positions(cursors: Seq<Seq<char>>, len: nat) -> bool {
    &&& cursors.len() == len + 1
    &&& cursors[0] == Seq::<char>::empty()
    &&& forall|j: int, k: int| 0 <= j < k <= len ==> cursors[j] != cursors[k]
}

proof fn lemma_walk_from<T>(feed: Seq<T>, size: nat, cursors: Seq<Seq<char>>, pos: nat)
    requires
        size > 0,
        pos < feed.len(),
        names_positions(cursors, feed.len()),
    ensures
        walk_pages(feed, size, cursors, pos, WalkState { after: cursors[pos as int], finished: false }).len()
            == (feed.len() - pos - 1 + size) / (size as int),
        walk_pages(
            feed,
            size,
            cursors,
            pos,
            WalkState { after: cursors[pos as int], finished: false },
        ).flatten() == feed.subrange(pos as int, feed.len() as int),
    decreases feed.len() - pos,
{
    let state = WalkState { after: cursors[pos as int], finished: false };
    let pages = walk_pages(feed, size, cursors, pos, state);
    let page = served_page(feed, size, pos);
    let left = feed.len() - pos - 1;
    lemma_div_plus_one(left, size as int);
    if pos + size < feed.len() {
        let behind = (pos + size) as nat;
        assert(cursors[pos as int] != cursors[behind as int]);
        let next = WalkState { after: cursors[behind as int], finished: false };
        assert(step(state, served_after(feed.len(), size, cursors, pos)) == next);
        let rest = walk_pages(feed, size, cursors, behind, next);
        lemma_walk_from(feed, size, cursors, behind);
        assert(pages == seq![page] + rest);
        assert(pages.drop_first() =~= rest);
        assert(pages.flatten() == page + rest.flatten());
        assert(page + feed.subrange(behind as int, feed.len() as int) =~= feed.subrange(
            pos as int,
            feed.len() as int,
        ));
    } else {
        lemma_basic_div(left, size as int);
        let rest = Seq::<Seq<T>>::empty();
        assert(pages == seq![page] + rest);
        assert(pages.drop_first() =~= rest);
        assert(pages.flatten() == page + rest.flatten());
    }
}

/// A walk through a feed of `feed.len()` items, at least one, that serves
/// pages of `size` items and names every position with a cursor of its own,
/// collects as many pages as `feed.len()` divided by `size` gives, rounded
/// up, and the pages one after another are the feed: every item once, in
/// the feed's order.
pub proof fn lemma_walk_collects_feed<T>(
    feed: Seq<T>,
    size: nat,
    cursors: Seq<Seq<char>>,
)
    requires
        size > 0,
        feed.len() > 0,
        names_positions(cursors, feed.len()),
    ensures
        walk_pages(feed, size, cursors, 0, start_state()).len() == (feed.len() + size - 1) / (
        size as int),
        walk_pages(feed, size, cursors, 0, start_state()).flatten() == feed,
{
    lemma_walk_from(feed, size, cursors, 0);
}

/// A walk takes no page after the one that hands its own cursor back.
pub proof fn lemma_repeated_cursor_ends_walk(state: WalkState)
    ensures
        step(state, Some(state.after)).finished,
        step(state, None).finished,
{}

/// The items of a page, in order.
pub open spec fn page_items<T>(page: BasicListing<T>) -> Seq<T> {
    Seq::new(page.data.children@.len(), |i: int| page.data.children@[i].data)
}

/// Where a walk stands after the given pages: each page moves it on as
/// `step` says.
pub open spec fn state_after<T>(pages: Seq<BasicListing<T>>) -> WalkState
    decreases pages.len(),
{
    if pages.len() == 0 {
        start_state()
    } else {
        step(state_after(pages.drop_last()), text_of(pages.last().data.after))
    }
}

/// `page` is what `fetch` answered to the cursor of a walk that stood at
/// `before` and was not over.
pub open spec fn fetched<T, F: Fn(String) -> Result<BasicListing<T>, RouxError>>(
    fetch: F,
    before: WalkState,
    page: BasicListing<T>,
) -> bool {
    !before.finished && exists|cursor: String|
        cursor@ == before.after && #[trigger] fetch.ensures(
            (cursor,),
            Ok::<BasicListing<T>, RouxError>(page),
        )
}

/// Each of the pages is what `fetch` answered to the cursor at which the
/// walk stood after the pages before it.
pub open spec fn walked<T, F: Fn(String) -> Result<BasicListing<T>, RouxError>>(
    fetch: F,
    pages: Seq<BasicListing<T>>,
) -> bool {
    forall|i: int|
        0 <= i < pages.len() ==> fetched(fetch, state_after(#[trigger] pages.take(i)), pages[i])
}

/// What a walk of at most `most` pages comes to. A walk that comes back has
/// taken what `fetch` answered, page by page, and is over or has `most`
/// pages. A failure is what `fetch` answered to the cursor of a walk that
/// was not over and had fewer than `most` pages.
pub open spec fn walk_outcome<T, F: Fn(String) -> Result<BasicListing<T>, RouxError>>(
    fetch: F,
    most: usize,
    r: Result<Walk<T>, RouxError>,
) -> bool {
    match r {
        Ok(walk) => {
            &&& walked(fetch, walk.pages@)
            &&& walk.state() == state_after(walk.pages@)
            &&& walk.pages@.len() <= most
            &&& walk.finished || walk.pages@.len() == most
        },
        Err(error) => exists|pages: Seq<BasicListing<T>>, cursor: String|
            #![trigger walked(fetch, pages), fetch.ensures((cursor,), Err::<BasicListing<T>, RouxError>(error))]
            {
                &&& walked(fetch, pages)
                &&& pages.len() < most
                &&& !state_after(pages).finished
                &&& cursor@ == state_after(pages).after
                &&& fetch.ensures((cursor,), Err::<BasicListing<T>, RouxError>(error))
            },
    }
}

/// Walks a feed: asks `fetch` for the first page with the empty cursor and
/// for each later page with the `after` cursor of the page before, until the
/// walk is over as `step` says, or `most` pages have come. The first failure
/// of `fetch` ends the walk and is handed on.
pub fn walk_all<T, F: Fn(String) -> Result<BasicListing<T>, RouxError>>(fetch: F, most: usize) -> (r:
    Result<Walk<T>, RouxError>)
    requires
        forall|cursor: String| fetch.requires((cursor,)),
    ensures
        walk_outcome(fetch, most, r),
{
    let mut walk: Walk<T> = Walk::new();
    let mut left: usize = most;
    assert(walk.pages@ =~= Seq::empty());
    while !walk.finished && left > 0
        invariant
            forall|cursor: String| fetch.requires((cursor,)),
            walk.pages@.len() + left == most,
            walked(fetch, walk.pages@),
            walk.state() == state_after(walk.pages@),
        decreases left,
    {
        let cursor = walk.after.clone();
        let ghost before = walk.pages@;
        match fetch(cursor) {
            Ok(page) => {
                walk.take(page);
                proof {
                    let now = walk.pages@;
                    assert(now.drop_last() =~= before);
                    assert forall|i: int| 0 <= i < now.len() implies fetched(
                        fetch,
                        state_after(#[trigger] now.take(i)),
                        now[i],
                    ) by {
                        if i < before.len() {
                            assert(now.take(i) =~= before.take(i));
                        } else {
                            assert(now.take(i) =~= before);
                        }
                    }
                }
            },
            Err(error) => {
                return Err(error);
            },
        }
        left -= 1;
    }
    Ok(walk)
}

/// The items of each page, page by page.
pub open spec fn items_of_pages<T>(pages: Seq<BasicListing<T>>) -> Seq<Seq<T>> {
    Seq::new(pages.len(), |i: int| page_items(pages[i]))
}

/// `fetch` serves the feed: asked with the cursor of a position, it answers
/// with the page that the feed serves from there and with that page's
/// `after` cursor.
pub open spec fn serves<T, F: Fn(String) -> Result<BasicListing<T>, RouxError>>(
    fetch: F,
    feed: Seq<T>,
    size: nat,
    cursors: Seq<Seq<char>>,
) -> bool {
    forall|cursor: String, answer: Result<BasicListing<T>, RouxError>, pos: int|
        #![trigger fetch.ensures((cursor,), answer), cursors[pos]]
        0 <= pos < feed.len() && cursor@ == cursors[pos] && fetch.ensures((cursor,), answer) ==> {
            &&& answer matches Ok(page)
            &&& page_items(page) == served_page(feed, size, pos as nat)
            &&& text_of(page.data.after) == served_after(feed.len(), size, cursors, pos as nat)
        }
}

proof fn lemma_walk_stands_in_feed<T, F: Fn(String) -> Result<BasicListing<T>, RouxError>>(
    fetch: F,
    pages: Seq<BasicListing<T>>,
    k: int,
    feed: Seq<T>,
    size: nat,
    cursors: Seq<Seq<char>>,
)
    requires
        size > 0,
        feed.len() > 0,
        names_positions(cursors, feed.len()),
        serves(fetch, feed, size, cursors),
        walked(fetch, pages),
        0 <= k <= pages.len(),
    ensures
        state_after(pages.take(k)).finished || exists|pos: int|
            k <= pos < feed.len() && state_after(pages.take(k)) == (WalkState {
                after: #[trigger] cursors[pos],
                finished: false,
            }),
    decreases k,
{
    if k == 0 {
        assert(pages.take(0) =~= Seq::empty());
        assert(state_after(pages.take(0)) == WalkState { after: cursors[0], finished: false });
    } else {
        lemma_walk_stands_in_feed(fetch, pages, k - 1, feed, size, cursors);
        let before = state_after(pages.take(k - 1));
        let page = pages[k - 1];
        assert(fetched(fetch, before, page));
        let pos = choose|pos: int|
            k - 1 <= pos < feed.len() && before == (WalkState {
                after: #[trigger] cursors[pos],
                finished: false,
            });
        let cursor = choose|cursor: String|
            cursor@ == before.after && #[trigger] fetch.ensures(
                (cursor,),
                Ok::<BasicListing<T>, RouxError>(page),
            );
        assert(text_of(page.data.after) == served_after(feed.len(), size, cursors, pos as nat));
        assert(pages.take(k).drop_last() =~= pages.take(k - 1));
        assert(pages.take(k).last() == page);
        if pos + size < feed.len() {
            let behind = pos + size;
            assert(cursors[pos] != cursors[behind]);
            assert(state_after(pages.take(k)) == WalkState {
                after: cursors[behind],
                finished: false,
            });
        } else {
            assert(state_after(pages.take(k)).finished);
        }
    }
}

proof fn lemma_walked_from<T, F: Fn(String) -> Result<BasicListing<T>, RouxError>>(
    fetch: F,
    pages: Seq<BasicListing<T>>,
    k: int,
    pos: nat,
    feed: Seq<T>,
    size: nat,
    cursors: Seq<Seq<char>>,
)
    requires
        size > 0,
        names_positions(cursors, feed.len()),
        serves(fetch, feed, size, cursors),
        walked(fetch, pages),
        state_after(pages).finished,
        0 <= k < pages.len(),
        pos < feed.len(),
        state_after(pages.take(k)) == (WalkState { after: cursors[pos as int], finished: false }),
    ensures
        items_of_pages(pages.subrange(k, pages.len() as int)) == walk_pages(
            feed,
            size,
            cursors,
            pos,
            WalkState { after: cursors[pos as int], finished: false },
        ),
    decreases pages.len() - k,
{
    let before = state_after(pages.take(k));
    let page = pages[k];
    let len = pages.len() as int;
    assert(fetched(fetch, before, page));
    let cursor = choose|cursor: String|
        cursor@ == before.after && #[trigger] fetch.ensures(
            (cursor,),
            Ok::<BasicListing<T>, RouxError>(page),
        );
    assert(cursor@ == cursors[pos as int]);
    assert(page_items(page) == served_page(feed, size, pos));
    assert(text_of(page.data.after) == served_after(feed.len(), size, cursors, pos));
    assert(pages.take(k + 1).drop_last() =~= pages.take(k));
    assert(pages.take(k + 1).last() == page);
    let next = state_after(pages.take(k + 1));
    assert(next == step(before, text_of(page.data.after)));
    assert(pages.take(len) =~= pages);
    if pos + size < feed.len() {
        let behind = (pos + size) as nat;
        assert(cursors[pos as int] != cursors[behind as int]);
        assert(next == WalkState { after: cursors[behind as int], finished: false });
        assert(k + 1 < len);
        lemma_walked_from(fetch, pages, k + 1, behind, feed, size, cursors);
        assert(items_of_pages(pages.subrange(k, len)) =~= seq![page_items(page)]
            + items_of_pages(pages.subrange(k + 1, len)));
    } else {
        assert(next.finished);
        if k + 1 < len {
            assert(fetched(fetch, state_after(pages.take(k + 1)), pages[k + 1]));
        }
        assert(items_of_pages(pages.subrange(k, len)) =~= seq![page_items(page)]
            + Seq::<Seq<T>>::empty());
    }
}

/// A whole walk collects the whole feed. Where `fetch` serves a feed of
/// `feed.len()` items, at least one, in pages of `size` items, with a cursor
/// of its own for every position, and `most` is no less than `feed.len()`,
/// `walk_all` comes back with a walk that is over; it has taken as many
/// pages as `feed.len()` divided by `size` gives, rounded up, and the items
/// of the pages one after another are the feed.
pub proof fn lemma_walk_all_collects_feed<T, F: Fn(String) -> Result<BasicListing<T>, RouxError>>(
    fetch: F,
    most: usize,
    r: Result<Walk<T>, RouxError>,
    feed: Seq<T>,
    size: nat,
    cursors: Seq<Seq<char>>,
)
    requires
        size > 0,
        feed.len() > 0,
        names_positions(cursors, feed.len()),
        serves(fetch, feed, size, cursors),
        feed.len() <= most,
        walk_outcome(fetch, most, r),
    ensures
        r matches Ok(walk) && walk.finished && walk.pages@.len() == (feed.len() + size - 1) / (
        size as int) && items_of_pages(walk.pages@).flatten() == feed,
{
    match r {
        Ok(walk) => {
            let pages = walk.pages@;
            let len = pages.len() as int;
            assert(pages.take(len) =~= pages);
            lemma_walk_stands_in_feed(fetch, pages, len, feed, size, cursors);
            assert(walk.finished);
            assert(len > 0);
            assert(pages.take(0) =~= Seq::empty());
            assert(state_after(pages.take(0)) == WalkState { after: cursors[0], finished: false });
            lemma_walked_from(fetch, pages, 0, 0, feed, size, cursors);
            assert(pages.subrange(0, len) =~= pages);
            lemma_walk_collects_feed(feed, size, cursors);
            assert(items_of_pages(pages).len() == pages.len());
        },
        Err(error) => {
            let (pages, cursor) = choose|pages: Seq<BasicListing<T>>, cursor: String|
                #![trigger walked(fetch, pages), fetch.ensures((cursor,), Err::<BasicListing<T>, RouxError>(error))]
                {
                    &&& walked(fetch, pages)
                    &&& pages.len() < most
                    &&& !state_after(pages).finished
                    &&& cursor@ == state_after(pages).after
                    &&& fetch.ensures((cursor,), Err::<BasicListing<T>, RouxError>(error))
                };
            let len = pages.len() as int;
            assert(pages.take(len) =~= pages);
            lemma_walk_stands_in_feed(fetch, pages, len, feed, size, cursors);
            let pos = choose|pos: int|
                len <= pos < feed.len() && state_after(pages.take(len)) == (WalkState {
                    after: #[trigger] cursors[pos],
                    finished: false,
                });
            assert(cursor@ == cursors[pos]);
        },
    }
}

} // verus!
