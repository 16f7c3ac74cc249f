//! A list with a selection, and paging by the number of lines that its
//! items take on the screen.

use vstd::prelude::*;

verus! {

/// Which item of a list is selected, and which is the first one shown.
#[derive(Clone, Copy, Debug, PartialEq, Eq, Structural)]
pub struct ListState {
    pub selected: Option<usize>,
    pub offset: usize,
}

impl ListState {
    /// The state with the selection set. Without a selection the list is
    /// shown from its start.
    pub open spec fn with_selected(self, index: Option<usize>) -> ListState {
        ListState {
            selected: index,
            offset: if index is None {
                0
            } else {
                self.offset
            },
        }
    }

    /// No selection, shown from the start.
    pub fn new() -> (r: Self)
        ensures
            r == (ListState { selected: None, offset: 0 }),
    {
        ListState { selected: None, offset: 0 }
    }

    /// Sets the selection.
    pub fn select(&mut self, index: Option<usize>)
        ensures
            *final(self) == old(self).with_selected(index),
    {
        self.selected = index;
        if index.is_none() {
            self.offset = 0;
        }
    }
}

/// The sum of the line counts from `from` up to, not including, `to`.
pub open spec fn lines_between(counts: Seq<usize>, from: int, to: int) -> int
    decreases to - from,
{
    if from >= to {
        0
    } else {
        counts[from] + lines_between(counts, from + 1, to)
    }
}

/// The sum over a range grows by the last count when the range grows by
/// one.
pub proof fn lemma_lines_between_extend(counts: Seq<usize>, from: int, to: int)
    requires
        from <= to,
    ensures
        lines_between(counts, from, to + 1) == lines_between(counts, from, to) + counts[to],
    decreases to - from,
{
    if from < to {
        lemma_lines_between_extend(counts, from + 1, to);
    } else {
        assert(lines_between(counts, from + 1, to + 1) == 0);
    }
}

/// The item that a page further down selects, scanning from `i` with
/// `lines` lines counted so far: the item with which a page is full; the
/// one before it where it does not fit any more (the first item where there
/// is none before); the last item where the list ends before the page is
/// full.
pub open spec fn page_down_target(counts: Seq<usize>, i: int, lines: int, page_lines: int) -> int
    decreases counts.len() - i,
{
    if i >= counts.len() {
        counts.len() - 1
    } else if lines + counts[i] == page_lines {
        i
    } else if lines + counts[i] > page_lines {
        if i == 0 {
            0
        } else {
            i - 1
        }
    } else {
        page_down_target(counts, i + 1, lines + counts[i], page_lines)
    }
}

/// Where a page further up ends, scanning down from `i` with `lines` lines
/// counted so far: nothing where the first item is reached, which then is
/// selected afresh; else the item with which a page is full, or the one
/// after it where it does not fit any more.
pub open spec fn page_up_target(counts: Seq<usize>, i: int, lines: int, page_lines: int)
    -> Option<int>
    decreases i,
{
    if i <= 0 {
        None
    } else if lines + counts[i] == page_lines {
        Some(i)
    } else if lines + counts[i] > page_lines {
        Some(i + 1)
    } else {
        page_up_target(counts, i - 1, lines + counts[i], page_lines)
    }
}

/// The model of `StatefulList`: a string by its characters, a list by the
/// sequence of its items.
pub struct ListView<V> {
    pub title: Option<Seq<char>>,
    pub state: ListState,
    pub items: Option<Seq<V>>,
    pub item_line_count: Seq<usize>,
    pub page_lines: usize,
}

impl<V> ListView<V> {
    /// An empty list without a selection.
    pub open spec fn empty() -> ListView<V> {
        ListView {
            title: None,
            state: ListState { selected: None, offset: 0 },
            items: None,
            item_line_count: Seq::empty(),
            page_lines: 0,
        }
    }

    /// With the state's selection set.
    pub open spec fn with_selected(self, index: Option<usize>) -> ListView<V> {
        ListView { state: self.state.with_selected(index), ..self }
    }

    /// The selection moved one item down, not beyond the last item. A list
    /// without items is left as it is.
    pub open spec fn next(self) -> ListView<V> {
        match self.items {
            Some(items) => self.with_selected(
                match self.state.selected {
                    Some(i) => Some(
                        if items.len() > i + 1 {
                            (i + 1) as usize
                        } else {
                            i
                        },
                    ),
                    None => None,
                },
            ),
            None => self,
        }
    }

    /// The selection moved one item up, not beyond the first item. A list
    /// without items is left as it is.
    pub open spec fn prev(self) -> ListView<V> {
        match self.items {
            Some(_) => self.with_selected(
                match self.state.selected {
                    Some(i) => Some(
                        if i > 0 {
                            (i - 1) as usize
                        } else {
                            0usize
                        },
                    ),
                    None => None,
                },
            ),
            None => self,
        }
    }

    /// The item at the index selected, or the first item for no index; the
    /// paging starts afresh.
    pub open spec fn select(self, index: Option<usize>) -> ListView<V> {
        ListView {
            state: self.state.with_selected(
                match index {
                    Some(i) => Some(i),
                    None => Some(0usize),
                },
            ),
            item_line_count: Seq::empty(),
            page_lines: 0,
            ..self
        }
    }

    /// The last item selected. A list without items, or with none in it,
    /// is left as it is.
    pub open spec fn select_last(self) -> ListView<V> {
        match self.items {
            Some(items) => if items.len() > 0 {
                self.with_selected(Some((items.len() - 1) as usize))
            } else {
                self
            },
            None => self,
        }
    }

    /// Nothing selected.
    pub open spec fn deselect(self) -> ListView<V> {
        self.with_selected(None)
    }

    /// Whether paging can go by the line counts: there is one for each
    /// item, and the selected item is one of the list.
    pub open spec fn paging_ready(self) -> bool {
        self.state.selected is Some && self.items is Some && self.item_line_count.len()
            == self.items->0.len() && self.state.selected->0 < self.items->0.len()
    }

    /// The selection moved one page down. Where the lines from the first
    /// item shown to the selected one fill a page, the list is shown from
    /// the selected item on. Without line counts for the items nothing
    /// changes.
    pub open spec fn select_next_page(self) -> ListView<V> {
        if self.paging_ready() {
            let selected = self.state.selected->0;
            let offset = if self.state.offset < selected && lines_between(
                self.item_line_count,
                self.state.offset as int,
                selected as int,
            ) >= self.page_lines {
                selected
            } else {
                self.state.offset
            };
            ListView {
                state: ListState {
                    selected: Some(
                        page_down_target(
                            self.item_line_count,
                            selected as int,
                            0,
                            self.page_lines as int,
                        ) as usize,
                    ),
                    offset,
                },
                ..self
            }
        } else {
            self
        }
    }

    /// The selection moved one page up; the list is then shown from the
    /// selected item on. Where the first item is reached it is selected
    /// afresh. Without line counts for the items nothing changes.
    pub open spec fn select_prev_page(self) -> ListView<V> {
        if self.paging_ready() {
            match page_up_target(
                self.item_line_count,
                self.state.selected->0 as int,
                0,
                self.page_lines as int,
            ) {
                Some(i) => ListView {
                    state: ListState { selected: Some(i as usize), offset: i as usize },
                    ..self
                },
                None => self.select(Some(0usize)),
            }
        } else {
            self
        }
    }

    /// The selected item, where the selection is an item of the list.
    pub open spec fn selected_item(self) -> Option<V> {
        match (self.state.selected, self.items) {
            (Some(i), Some(items)) => if i < items.len() {
                Some(items[i as int])
            } else {
                None
            },
            _ => None,
        }
    }
}

/// A list with a title, a selection and what paging needs.
pub struct StatefulList<T> {
    pub title: Option<String>,
    pub state: ListState,
    pub items: Option<Vec<T>>,
    pub item_line_count: Vec<usize>,
    pub page_lines: usize,
}

impl<T: DeepView> DeepView for StatefulList<T> {
    type V = ListView<T::V>;

    open spec fn deep_view(&self) -> ListView<T::V> {
        ListView {
            title: self.title.deep_view(),
            state: self.state,
            items: self.items.deep_view(),
            item_line_count: self.item_line_count@,
            page_lines: self.page_lines,
        }
    }
}

impl<T: DeepView> StatefulList<T> {
    /// An empty list without a selection.
    pub fn new() -> (r: StatefulList<T>)
        ensures
            r.deep_view() == ListView::<T::V>::empty(),
    {
        StatefulList {
            title: None,
            state: ListState::new(),
            items: None,
            item_line_count: Vec::new(),
            page_lines: 0,
        }
    }

    /// Moves the selection one item down.
    pub fn next(&mut self)
        ensures
            final(self).deep_view() == old(self).deep_view().next(),
    {
        match &self.items {
            Some(items) => {
                let item_count = items.len();
                assert(items.deep_view().len() == item_count);
                let next = match self.state.selected {
                    Some(i) => Some(
                        if i < usize::MAX && item_count > i + 1 {
                            i + 1
                        } else {
                            i
                        },
                    ),
                    None => None,
                };
                self.state.select(next);
            },
            None => {},
        }
    }

    /// Moves the selection one item up.
    pub fn prev(&mut self)
        ensures
            final(self).deep_view() == old(self).deep_view().prev(),
    {
        if self.items.is_some() {
            let prev = match self.state.selected {
                Some(i) => Some(
                    if i > 0 {
                        i - 1
                    } else {
                        0
                    },
                ),
                None => None,
            };
            self.state.select(prev);
        }
    }

    /// Selects the item at the index, or the first item for no index, and
    /// starts the paging afresh.
    pub fn select(&mut self, index: Option<usize>)
        ensures
            final(self).deep_view() == old(self).deep_view().select(index),
    {
        if index.is_some() {
            self.state.select(index);
        } else {
            self.state.select(Some(0));
        }
        self.item_line_count.clear();
        self.page_lines = 0;
    }

    /// Selects the first item and starts the paging afresh.
    pub fn select_first(&mut self)
        ensures
            final(self).deep_view() == old(self).deep_view().select(Some(0usize)),
    {
        self.select(Some(0));
    }

    /// Selects the last item.
    pub fn select_last(&mut self)
        ensures
            final(self).deep_view() == old(self).deep_view().select_last(),
    {
        match &self.items {
            Some(items) => {
                assert(items.deep_view().len() == items.len());
                if items.len() > 0 {
                    let last = items.len() - 1;
                    self.state.select(Some(last));
                }
            },
            None => {},
        }
    }

    fn paging_ready(&self) -> (r: bool)
        ensures
            r == self.deep_view().paging_ready(),
    {
        match (self.state.selected, &self.items) {
            (Some(selected), Some(items)) => {
                assert(items.deep_view().len() == items.len());
                self.item_line_count.len() == items.len() && selected < items.len()
            },
            _ => false,
        }
    }

    /// Moves the selection one page down.
    pub fn select_next_page(&mut self)
        ensures
            final(self).deep_view() == old(self).deep_view().select_next_page(),
    {
        if !self.paging_ready() {
            return ;
        }
        let selected = match self.state.selected {
            Some(selected) => selected,
            None => {
                return ;
            },
        };
        let offset = self.state.offset;
        let page = self.page_lines;
        let item_count = self.item_line_count.len();
        let ghost counts = self.item_line_count@;
        if offset < selected {
            let mut lines: usize = 0;
            let mut full = page == 0;
            let mut i: usize = offset;
            while i < selected
                invariant
                    offset <= i <= selected,
                    selected < item_count,
                    item_count == counts.len(),
                    counts == self.item_line_count@,
                    full == (lines_between(counts, offset as int, i as int) >= page),
                    !full ==> lines == lines_between(counts, offset as int, i as int),
                    lines <= page,
                decreases selected - i,
            {
                proof {
                    lemma_lines_between_extend(counts, offset as int, i as int);
                }
                if !full {
                    if self.item_line_count[i] >= page - lines {
                        full = true;
                    } else {
                        lines = lines + self.item_line_count[i];
                    }
                }
                i += 1;
            }
            if full {
                self.state.offset = selected;
            }
        }
        let mut lines: usize = 0;
        let mut i: usize = selected;
        let mut found: Option<usize> = None;
        while i < item_count && found.is_none()
            invariant
                selected <= i <= item_count,
                item_count == counts.len(),
                item_count > 0,
                counts == self.item_line_count@,
                match found {
                    Some(t) => t == page_down_target(counts, selected as int, 0, page as int),
                    None => lines <= page && page_down_target(
                        counts,
                        selected as int,
                        0,
                        page as int,
                    ) == page_down_target(counts, i as int, lines as int, page as int),
                },
            decreases item_count - i + (if found is None { 1int } else { 0int }),
        {
            let count = self.item_line_count[i];
            if count == page - lines {
                found = Some(i);
            } else if count > page - lines {
                found = Some(
                    if i == 0 {
                        0
                    } else {
                        i - 1
                    },
                );
            } else {
                lines = lines + count;
                i += 1;
            }
        }
        let target = match found {
            Some(target) => target,
            None => item_count - 1,
        };
        self.state.select(Some(target));
    }

    /// Moves the selection one page up.
    pub fn select_prev_page(&mut self)
        ensures
            final(self).deep_view() == old(self).deep_view().select_prev_page(),
    {
        if !self.paging_ready() {
            return ;
        }
        let selected = match self.state.selected {
            Some(selected) => selected,
            None => {
                return ;
            },
        };
        let page = self.page_lines;
        let item_count = self.item_line_count.len();
        let ghost counts = self.item_line_count@;
        let mut lines: usize = 0;
        let mut i: usize = selected;
        let mut target: Option<usize> = None;
        while i > 0 && target.is_none()
            invariant
                i <= selected,
                selected < item_count,
                item_count == counts.len(),
                counts == self.item_line_count@,
                match target {
                    Some(t) => page_up_target(counts, selected as int, 0, page as int) == Some(
                        t as int,
                    ),
                    None => lines <= page && page_up_target(
                        counts,
                        selected as int,
                        0,
                        page as int,
                    ) == page_up_target(counts, i as int, lines as int, page as int),
                },
            decreases i + (if target is None { 1int } else { 0int }),
        {
            let count = self.item_line_count[i];
            if count == page - lines {
                target = Some(i);
            } else if count > page - lines {
                target = Some(i + 1);
            } else {
                lines = lines + count;
                i -= 1;
            }
        }
        match target {
            Some(at) => {
                self.state.offset = at;
                self.state.select(Some(at));
            },
            None => {
                self.select_first();
            },
        }
    }

    /// Takes the selection away.
    pub fn deselect(&mut self)
        ensures
            final(self).deep_view() == old(self).deep_view().deselect(),
    {
        self.state.select(None);
    }

    /// Whether an item is selected.
    pub fn is_selected(&self) -> (r: bool)
        ensures
            r == self.deep_view().state.selected is Some,
    {
        self.state.selected.is_some()
    }

    /// Counts the lines of each item anew where the number of lines of a
    /// page has changed.
    pub fn prepare_paging<F: Fn(&T) -> usize>(&mut self, page_lines: usize, f: F)
        requires
            forall|item: &T| call_requires(f, (item,)),
        ensures
            final(self).title == old(self).title,
            final(self).state == old(self).state,
            final(self).items == old(self).items,
            final(self).page_lines == page_lines,
            page_lines == old(self).page_lines ==> final(self).item_line_count == old(
                self,
            ).item_line_count,
            page_lines != old(self).page_lines ==> match final(self).items {
                Some(items) => final(self).item_line_count.len() == items.len() && forall|i: int|
                    0 <= i < items.len() ==> call_ensures(
                        f,
                        (&items[i],),
                        #[trigger] final(self).item_line_count[i],
                    ),
                None => final(self).item_line_count.len() == 0,
            },
    {
        if page_lines != self.page_lines {
            let mut item_line_count: Vec<usize> = Vec::new();
            match &self.items {
                Some(items) => {
                    let mut i: usize = 0;
                    while i < items.len()
                        invariant
                            i <= items.len(),
                            item_line_count.len() == i,
                            forall|item: &T| call_requires(f, (item,)),
                            forall|j: int|
                                0 <= j < i ==> call_ensures(
                                    f,
                                    (&items[j],),
                                    #[trigger] item_line_count[j],
                                ),
                        decreases items.len() - i,
                    {
                        let line_count = f(&items[i]);
                        item_line_count.push(line_count);
                        i += 1;
                    }
                },
                None => {},
            }
            self.item_line_count = item_line_count;
            self.page_lines = page_lines;
        }
    }

    /// The selected item, where the selection is an item of the list.
    pub fn get_selected_item(&self) -> (r: Option<&T>)
        ensures
            r.deep_view() == self.deep_view().selected_item(),
    {
        match (self.state.selected, &self.items) {
            (Some(index), Some(items)) => {
                assert(items.deep_view().len() == items.len());
                if index < items.len() {
                    Some(&items[index])
                } else {
                    None
                }
            },
            _ => None,
        }
    }
}

} // verus!
