//! What the server's content browser takes and returns.

use vstd::prelude::*;
use crate::io::clone_opt_string;

verus! {

/// What a browse result asks the client to do.
#[derive(Clone, Copy, Debug, PartialEq, Eq, Structural)]
pub enum Action {
    Message,
    Nothing,
    List,
    ReplaceItem,
    RemoveItem,
}

/// One entry of a browse list.
#[derive(Debug, PartialEq, Eq)]
pub struct BrowseItem {
    pub item_key: Option<String>,
    pub title: String,
    pub subtitle: Option<String>,
    pub input_prompt: Option<String>,
}

/// The model of `BrowseItem`: a string by its characters, a list by the
/// sequence of its items.
pub struct BrowseItemView {
    pub item_key: Option<Seq<char>>,
    pub title: Seq<char>,
    pub subtitle: Option<Seq<char>>,
    pub input_prompt: Option<Seq<char>>,
}

impl DeepView for BrowseItem {
    type V = BrowseItemView;

    open spec fn deep_view(&self) -> BrowseItemView {
        BrowseItemView {
            item_key: self.item_key.deep_view(),
            title: self.title@,
            subtitle: self.subtitle.deep_view(),
            input_prompt: self.input_prompt.deep_view(),
        }
    }
}

impl Clone for BrowseItem {
    fn clone(&self) -> (r: Self)
        ensures
            r.deep_view() == self.deep_view(),
    {
        BrowseItem {
            item_key: clone_opt_string(&self.item_key),
            title: self.title.clone(),
            subtitle: clone_opt_string(&self.subtitle),
            input_prompt: clone_opt_string(&self.input_prompt),
        }
    }
}

/// The list that a browse session stands in.
#[derive(Debug, PartialEq, Eq)]
pub struct BrowseList {
    pub title: String,
    pub count: usize,
    pub level: u32,
    pub display_offset: Option<usize>,
}

/// The model of `BrowseList`: a string by its characters, a list by the
/// sequence of its items.
pub struct BrowseListView {
    pub title: Seq<char>,
    pub count: usize,
    pub level: u32,
    pub display_offset: Option<usize>,
}

impl DeepView for BrowseList {
    type V = BrowseListView;

    open spec fn deep_view(&self) -> BrowseListView {
        BrowseListView {
            title: self.title@,
            count: self.count,
            level: self.level,
            display_offset: self.display_offset,
        }
    }
}

/// The answer to a browse request.
#[derive(Debug, PartialEq, Eq)]
pub struct BrowseResult {
    pub action: Action,
    pub list: Option<BrowseList>,
    pub message: Option<String>,
    pub is_error: Option<bool>,
}

/// The model of `BrowseResult`: a string by its characters, a list by the
/// sequence of its items.
pub struct BrowseResultView {
    pub action: Action,
    pub list: Option<BrowseListView>,
    pub message: Option<Seq<char>>,
    pub is_error: Option<bool>,
}

impl DeepView for BrowseResult {
    type V = BrowseResultView;

    open spec fn deep_view(&self) -> BrowseResultView {
        BrowseResultView {
            action: self.action,
            list: self.list.deep_view(),
            message: self.message.deep_view(),
            is_error: self.is_error,
        }
    }
}

/// The answer to a load request: a run of items of a list.
#[derive(Debug, PartialEq, Eq)]
pub struct LoadResult {
    pub items: Vec<BrowseItem>,
    pub offset: usize,
    pub list: BrowseList,
}

/// The model of `LoadResult`: a string by its characters, a list by the
/// sequence of its items.
pub struct LoadResultView {
    pub items: Seq<BrowseItemView>,
    pub offset: usize,
    pub list: BrowseListView,
}

impl DeepView for LoadResult {
    type V = LoadResultView;

    open spec fn deep_view(&self) -> LoadResultView {
        LoadResultView {
            items: self.items.deep_view(),
            offset: self.offset,
            list: self.list.deep_view(),
        }
    }
}

/// A browse request.
#[derive(Debug, PartialEq, Eq)]
pub struct BrowseOpts {
    pub multi_session_key: Option<String>,
    pub item_key: Option<String>,
    pub input: Option<String>,
    pub zone_or_output_id: Option<String>,
    pub pop_all: bool,
    pub pop_levels: Option<u32>,
    pub refresh_list: bool,
}

/// The model of `BrowseOpts`: a string by its characters, a list by the
/// sequence of its items.
pub struct BrowseOptsView {
    pub multi_session_key: Option<Seq<char>>,
    pub item_key: Option<Seq<char>>,
    pub input: Option<Seq<char>>,
    pub zone_or_output_id: Option<Seq<char>>,
    pub pop_all: bool,
    pub pop_levels: Option<u32>,
    pub refresh_list: bool,
}

impl BrowseOptsView {
    /// A request that asks for nothing in particular.
    pub open spec fn empty() -> BrowseOptsView {
        BrowseOptsView {
            multi_session_key: None,
            item_key: None,
            input: None,
            zone_or_output_id: None,
            pop_all: false,
            pop_levels: None,
            refresh_list: false,
        }
    }

    /// A request of a session that asks for nothing in particular.
    pub open spec fn of_session(key: Seq<char>) -> BrowseOptsView {
        BrowseOptsView { multi_session_key: Some(key), ..Self::empty() }
    }

    /// How many of the navigation fields are set: the item, going home,
    /// going up and refreshing.
    pub open spec fn navigation_fields(self) -> int {
        (if self.item_key is Some {
            1int
        } else {
            0int
        }) + (if self.pop_all {
            1int
        } else {
            0int
        }) + (if self.pop_levels is Some {
            1int
        } else {
            0int
        }) + (if self.refresh_list {
            1int
        } else {
            0int
        })
    }
}

impl DeepView for BrowseOpts {
    type V = BrowseOptsView;

    open spec fn deep_view(&self) -> BrowseOptsView {
        BrowseOptsView {
            multi_session_key: self.multi_session_key.deep_view(),
            item_key: self.item_key.deep_view(),
            input: self.input.deep_view(),
            zone_or_output_id: self.zone_or_output_id.deep_view(),
            pop_all: self.pop_all,
            pop_levels: self.pop_levels,
            refresh_list: self.refresh_list,
        }
    }
}

impl Clone for BrowseOpts {
    fn clone(&self) -> (r: Self)
        ensures
            r.deep_view() == self.deep_view(),
    {
        BrowseOpts {
            multi_session_key: clone_opt_string(&self.multi_session_key),
            item_key: clone_opt_string(&self.item_key),
            input: clone_opt_string(&self.input),
            zone_or_output_id: clone_opt_string(&self.zone_or_output_id),
            pop_all: self.pop_all,
            pop_levels: self.pop_levels,
            refresh_list: self.refresh_list,
        }
    }
}

impl Default for BrowseOpts {
    fn default() -> (r: Self)
        ensures
            r.deep_view() == BrowseOptsView::empty(),
    {
        BrowseOpts {
            multi_session_key: None,
            item_key: None,
            input: None,
            zone_or_output_id: None,
            pop_all: false,
            pop_levels: None,
            refresh_list: false,
        }
    }
}

/// A request for a run of items of the list that a session stands in.
#[derive(Debug, PartialEq, Eq)]
pub struct LoadOpts {
    pub offset: usize,
    pub set_display_offset: usize,
    pub count: Option<usize>,
    pub multi_session_key: Option<String>,
}

/// The model of `LoadOpts`: a string by its characters, a list by the sequence
/// of its items.
pub struct LoadOptsView {
    pub offset: usize,
    pub set_display_offset: usize,
    pub count: Option<usize>,
    pub multi_session_key: Option<Seq<char>>,
}

impl LoadOptsView {
    /// A request for the items of a session from `offset` on, or for `count`
    /// of them.
    pub open spec fn at(offset: usize, count: Option<usize>, key: Option<Seq<char>>)
        -> LoadOptsView {
        LoadOptsView { offset, set_display_offset: offset, count, multi_session_key: key }
    }
}

impl DeepView for LoadOpts {
    type V = LoadOptsView;

    open spec fn deep_view(&self) -> LoadOptsView {
        LoadOptsView {
            offset: self.offset,
            set_display_offset: self.set_display_offset,
            count: self.count,
            multi_session_key: self.multi_session_key.deep_view(),
        }
    }
}

} // verus!
