//! The navigation history of one view as a mathematical value: a single path
//! of visited pages and a cursor on the page that is shown.

use vstd::prelude::*;

verus! {

/// A navigation history.
pub struct HistoryView {
    /// The visited pages, oldest first.
    pub entries: Seq<Seq<char>>,
    /// Index of the page that is shown, `-1` while nothing was visited.
    pub cursor: int,
}

impl HistoryView {
    /// The cursor is `-1` or points at an entry.
    pub open spec fn wf(self) -> bool {
        -1 <= self.cursor < self.entries.len()
    }

    /// The history of a view that has not navigated yet.
    pub open spec fn empty() -> HistoryView {
        HistoryView { entries: Seq::empty(), cursor: -1 }
    }

    /// The page at position `i`, if there is one.
    pub open spec fn entry(self, i: int) -> Option<Seq<char>> {
        if 0 <= i < self.entries.len() {
            Some(self.entries[i])
        } else {
            None
        }
    }

    /// The page that is shown, if any.
    pub open spec fn current(self) -> Option<Seq<char>> {
        self.entry(self.cursor)
    }

    /// There is a page before the one shown.
    pub open spec fn can_go_back(self) -> bool {
        self.cursor > 0 && self.entries.len() > 0
    }

    /// There is a page after the one shown.
    pub open spec fn can_go_forward(self) -> bool {
        0 <= self.cursor < self.entries.len() - 1
    }

    /// The pages that a new page is appended to: those up to the cursor.
    pub open spec fn kept(self) -> Seq<Seq<char>> {
        if self.cursor + 1 < self.entries.len() {
            self.entries.take(self.cursor + 1)
        } else {
            self.entries
        }
    }

    /// The history after the view has arrived at `url`.
    ///
    /// With no page shown, `url` becomes the only entry. Arriving at the page
    /// shown changes nothing. Arriving at the page just before the cursor, or
    /// else at the page just after it, moves the cursor there. Any other
    /// arrival drops the pages after the cursor, appends `url` and puts the
    /// cursor on it.
    pub open spec fn visit(self, url: Seq<char>) -> HistoryView {
        if self.cursor < 0 {
            HistoryView { entries: seq![url], cursor: 0 }
        } else if self.entry(self.cursor) == Some(url) {
            self
        } else if self.entry(self.cursor - 1) == Some(url) {
            HistoryView { entries: self.entries, cursor: self.cursor - 1 }
        } else if self.entry(self.cursor + 1) == Some(url) {
            HistoryView { entries: self.entries, cursor: self.cursor + 1 }
        } else {
            HistoryView { entries: self.kept().push(url), cursor: self.kept().len() as int }
        }
    }
}

/// Whatever the history was, after an arrival at `url` the cursor points at
/// an entry, and that entry is `url`.
pub proof fn lemma_visit_shows_url(h: HistoryView, url: Seq<char>)
    ensures
        h.visit(url).wf(),
        h.visit(url).current() == Some(url),
{
}

/// Arriving twice in a row at the same address is the same as arriving once:
/// the second arrival changes neither the entries nor the cursor.
pub proof fn lemma_visit_twice(h: HistoryView, url: Seq<char>)
    ensures
        h.visit(url).visit(url) == h.visit(url),
{
    lemma_visit_shows_url(h, url);
}

/// An arrival at a page that is neither shown nor next to the cursor drops
/// the pages after the cursor and appends the new one: afterwards there is
/// nothing to go forward to, and something to go back to exactly if a page
/// was shown before.
pub proof fn lemma_visit_new_page(h: HistoryView, url: Seq<char>)
    requires
        h.wf(),
        h.entry(h.cursor) != Some(url),
        h.entry(h.cursor - 1) != Some(url),
        h.entry(h.cursor + 1) != Some(url),
    ensures
        h.visit(url).entries == h.entries.take(h.cursor + 1).push(url),
        h.visit(url).cursor == h.cursor + 1,
        !h.visit(url).can_go_forward(),
        h.visit(url).can_go_back() <==> h.cursor >= 0,
{
    assert(h.entries.take(h.entries.len() as int) =~= h.entries);
    if h.cursor < 0 {
        assert(h.entries.take(0).push(url) =~= seq![url]);
    }
}

/// Arriving at the page before the cursor and then at the page that was
/// shown leaves the history as it was, provided that the page shown does not
/// also stand two places before the cursor: the entries are never touched.
pub proof fn lemma_visit_back_and_forth(h: HistoryView)
    requires
        h.wf(),
        h.cursor >= 1,
        h.entries[h.cursor - 1] != h.entries[h.cursor],
        h.entry(h.cursor - 2) != Some(h.entries[h.cursor]),
    ensures
        h.visit(h.entries[h.cursor - 1]) == (HistoryView { entries: h.entries, cursor: h.cursor - 1 }),
        h.visit(h.entries[h.cursor - 1]).visit(h.entries[h.cursor]) == h,
{
}

} // verus!
