use vstd::prelude::*;

verus! {

/// A chapter of a book: its identifier and its 0-based position in the book.
#[derive(Clone, Copy, Debug, PartialEq, Eq, Structural)]
pub struct ChapterRef {
    pub id: i32,
    pub book_id: i32,
    pub ordinal: usize,
}

/// The chapters of one book, listed by ordinal: the chapter at position `k`
/// of the list has ordinal `k`. Chapter identifiers need not be contiguous;
/// ordinals are.
#[derive(Clone, Debug)]
pub struct BookChapters {
    book_id: i32,
    chapter_ids: Vec<i32>,
}

/// The chapter at ordinal `k` of a listing.
pub open spec fn chapter_at(book_id: i32, ids: Seq<i32>, k: int) -> ChapterRef {
    ChapterRef { id: ids[k], book_id, ordinal: k as usize }
}

/// The chapter after ordinal `k`, if there is one.
pub open spec fn next_spec(book_id: i32, ids: Seq<i32>, k: int) -> Option<ChapterRef> {
    if 0 <= k && k + 1 < ids.len() {
        Some(chapter_at(book_id, ids, k + 1))
    } else {
        None
    }
}

/// The chapter before ordinal `k`, if there is one.
pub open spec fn previous_spec(book_id: i32, ids: Seq<i32>, k: int) -> Option<ChapterRef> {
    if 0 < k && k - 1 < ids.len() {
        Some(chapter_at(book_id, ids, k - 1))
    } else {
        None
    }
}

/// The ordinal after `current` in a book of `total` chapters, if any.
pub fn next_ordinal(current: usize, total: usize) -> (r: Option<usize>)
    ensures
        r == (if current + 1 < total { Some((current + 1) as usize) } else { None::<usize> }),
{
    if total > 0 && current < total - 1 {
        Some(current + 1)
    } else {
        None
    }
}

/// The ordinal before `current`, if any.
pub fn previous_ordinal(current: usize) -> (r: Option<usize>)
    ensures
        r == (if current > 0 { Some((current - 1) as usize) } else { None::<usize> }),
{
    if current > 0 {
        Some(current - 1)
    } else {
        None
    }
}

impl View for BookChapters {
    type V = Seq<i32>;

    closed spec fn view(&self) -> Seq<i32> {
        self.chapter_ids@
    }
}

impl BookChapters {
    pub closed spec fn book(&self) -> i32 {
        self.book_id
    }

    /// The listing of `book_id` whose chapter at ordinal `k` is `chapter_ids[k]`.
    pub fn new(book_id: i32, chapter_ids: Vec<i32>) -> (r: BookChapters)
        ensures
            r.book() == book_id,
            r@ == chapter_ids@,
            r@.len() <= usize::MAX,
    {
        let _ = chapter_ids.len();
        BookChapters { book_id, chapter_ids }
    }

    pub fn book_id(&self) -> (r: i32)
        ensures
            r == self.book(),
    {
        self.book_id
    }

    /// Number of chapters of the book; it bounds the length of the listing.
    pub fn total(&self) -> (r: usize)
        ensures
            r == self@.len(),
            self@.len() <= usize::MAX,
    {
        self.chapter_ids.len()
    }

    /// The chapter at `ordinal`, if the book has one there.
    pub fn chapter_at(&self, ordinal: usize) -> (r: Option<ChapterRef>)
        ensures
            r == (if ordinal < self@.len() {
                Some(chapter_at(self.book(), self@, ordinal as int))
            } else {
                None::<ChapterRef>
            }),
    {
        if ordinal < self.chapter_ids.len() {
            Some(ChapterRef { id: self.chapter_ids[ordinal], book_id: self.book_id, ordinal })
        } else {
            None
        }
    }

    /// The ordinal of the first chapter with identifier `chapter_id`.
    pub fn ordinal_of(&self, chapter_id: i32) -> (r: Option<usize>)
        ensures
            match r {
                Some(k) => k < self@.len() && self@[k as int] == chapter_id && forall|j: int|
                    0 <= j < k ==> self@[j] != chapter_id,
                None => !self@.contains(chapter_id),
            },
            match r {
                Some(k) => self@.index_of_first(chapter_id) == Some(k as int),
                None => self@.index_of_first(chapter_id) == None::<int>,
            },
    {
        proof {
            self@.index_of_first_ensures(chapter_id);
        }
        let mut k: usize = 0;
        while k < self.chapter_ids.len()
            invariant
                k <= self@.len(),
                forall|j: int| 0 <= j < k ==> self@[j] != chapter_id,
            decreases self@.len() - k,
        {
            if self.chapter_ids[k] == chapter_id {
                proof {
                    assert(self@[k as int] == chapter_id);
                    assert(self@.contains(chapter_id));
                    self@.index_of_first_ensures(chapter_id);
                    let i = self@.index_of_first(chapter_id)->Some_0;
                    if i < k {
                        assert(self@[i] != chapter_id);
                    } else if k < i {
                        assert(self@[k as int] != chapter_id);
                    }
                }
                return Some(k);
            }
            k += 1;
        }
        None
    }

    /// The chapter that follows `ordinal`; `None` at the end of the book.
    pub fn next(&self, ordinal: usize) -> (r: Option<ChapterRef>)
        ensures
            r == next_spec(self.book(), self@, ordinal as int),
    {
        match next_ordinal(ordinal, self.chapter_ids.len()) {
            Some(k) => self.chapter_at(k),
            None => None,
        }
    }

    /// The chapter that precedes `ordinal`; `None` at the start of the book.
    pub fn previous(&self, ordinal: usize) -> (r: Option<ChapterRef>)
        ensures
            r == previous_spec(self.book(), self@, ordinal as int),
    {
        match previous_ordinal(ordinal) {
            Some(k) => self.chapter_at(k),
            None => None,
        }
    }
}

/// One step forward then one step back returns to the chapter at ordinal `k`.
pub proof fn lemma_next_then_previous(book_id: i32, ids: Seq<i32>, k: int)
    requires
        0 <= k,
        k + 2 <= ids.len(),
        ids.len() <= usize::MAX,
    ensures
        next_spec(book_id, ids, k) is Some,
        next_spec(book_id, ids, k)->Some_0.ordinal == k + 1,
        previous_spec(book_id, ids, next_spec(book_id, ids, k)->Some_0.ordinal as int) == Some(
            chapter_at(book_id, ids, k),
        ),
{
}

/// There is nothing after the last chapter and nothing before the first.
pub proof fn lemma_navigation_ends(book_id: i32, ids: Seq<i32>)
    ensures
        ids.len() > 0 ==> next_spec(book_id, ids, ids.len() - 1) == None::<ChapterRef>,
        previous_spec(book_id, ids, 0) == None::<ChapterRef>,
{
}

} // verus!
