//! The single shared session state and its transitions.
//!
//! Every operation here is a pure state transition: the surrounding program
//! holds the state behind one mutual-exclusion lock and calls these methods
//! while holding it. Background fetches run outside; their results come back
//! in through [`SessionState::commit_refresh`], which applies the staleness
//! guard, and [`SessionState::article_loaded`], which commits unconditionally.

use vstd::prelude::*;

use crate::config::Config;
use crate::item::NewsItem;

verus! {

/// Which render path and input handlers are active.
#[derive(Clone, Copy, Debug, PartialEq, Eq, Structural)]
pub enum ViewMode {
    List,
    Reading,
}

/// The sole piece of mutable shared state.
pub struct SessionState {
    pub config: Config,
    pub items: Vec<NewsItem>,
    pub selected: Option<usize>,
    pub is_loading: bool,
    pub current_tab: usize,
    pub view_mode: ViewMode,
    pub article_text: String,
    pub scroll: u16,
    pub status_message: Option<String>,
}

/// The next selection index, wrapping past the end of the list.
pub open spec fn wrap_next(sel: Option<usize>, len: nat) -> usize
    recommends
        len > 0,
{
    match sel {
        Some(i) => if i + 1 >= len {
            0usize
        } else {
            (i + 1) as usize
        },
        None => 0usize,
    }
}

/// The previous selection index, wrapping past the start of the list.
pub open spec fn wrap_prev(sel: Option<usize>, len: nat) -> usize
    recommends
        len > 0,
{
    match sel {
        Some(i) => if i == 0 {
            (len - 1) as usize
        } else {
            (i - 1) as usize
        },
        None => 0usize,
    }
}

/// What a tab switch does: the target tab becomes current, the list is
/// emptied, loading is flagged, the status line is cleared; the reading view,
/// article text, scroll position and configuration are untouched.
pub open spec fn switched(pre: SessionState, post: SessionState, idx: usize) -> bool {
    &&& post.current_tab == idx
    &&& post.items@ =~= Seq::<NewsItem>::empty()
    &&& post.selected is None
    &&& post.is_loading
    &&& post.status_message is None
    &&& post.config == pre.config
    &&& post.view_mode == pre.view_mode
    &&& post.article_text == pre.article_text
    &&& post.scroll == pre.scroll
}

/// What committing a background refresh does. If the request's tab is still
/// current, the fetched items replace the list, loading ends and the first
/// item is selected (no selection when the list is empty); otherwise the
/// result is stale and the state is left exactly as it was.
pub open spec fn committed(
    pre: SessionState,
    post: SessionState,
    idx: usize,
    items: Vec<NewsItem>,
) -> bool {
    if pre.current_tab == idx {
        &&& post.items == items
        &&& !post.is_loading
        &&& post.selected == (if items@.len() > 0 {
            Some(0usize)
        } else {
            None::<usize>
        })
        &&& post.current_tab == pre.current_tab
        &&& post.config == pre.config
        &&& post.view_mode == pre.view_mode
        &&& post.article_text == pre.article_text
        &&& post.scroll == pre.scroll
        &&& post.status_message == pre.status_message
    } else {
        post == pre
    }
}

/// Equal in every field except possibly the status line.
pub open spec fn same_but_status(pre: SessionState, post: SessionState) -> bool {
    &&& post.config == pre.config
    &&& post.items == pre.items
    &&& post.selected == pre.selected
    &&& post.is_loading == pre.is_loading
    &&& post.current_tab == pre.current_tab
    &&& post.view_mode == pre.view_mode
    &&& post.article_text == pre.article_text
    &&& post.scroll == pre.scroll
}

/// What entering the reading view does: loading is flagged, the view changes,
/// the article text becomes the placeholder, scroll and status reset; the
/// list, selection, tab and configuration are untouched.
pub open spec fn reading_started(pre: SessionState, post: SessionState) -> bool {
    &&& post.config == pre.config
    &&& post.items == pre.items
    &&& post.selected == pre.selected
    &&& post.current_tab == pre.current_tab
    &&& post.is_loading
    &&& post.view_mode == ViewMode::Reading
    &&& post.article_text@ == "Loading article..."@
    &&& post.scroll == 0
    &&& post.status_message is None
}

impl SessionState {
    /// The state invariant: the selection, when present, indexes into the
    /// item list, and the current tab indexes into the configured groups.
    pub open spec fn wf(self) -> bool {
        &&& self.current_tab < self.config.feeds@.len()
        &&& match self.selected {
            Some(i) => i < self.items@.len(),
            None => true,
        }
    }

    /// The startup state: tab 0, an empty list, loading already in progress.
    pub fn new(config: Config) -> (s: SessionState)
        requires
            config.wf(),
        ensures
            s.wf(),
            s.config == config,
            s.items@.len() == 0,
            s.selected is None,
            s.is_loading,
            s.current_tab == 0,
            s.view_mode == ViewMode::List,
            s.article_text@.len() == 0,
            s.scroll == 0,
            s.status_message is None,
    {
        SessionState {
            config,
            items: Vec::new(),
            selected: None,
            is_loading: true,
            current_tab: 0,
            view_mode: ViewMode::List,
            article_text: String::new(),
            scroll: 0,
            status_message: None,
        }
    }

    /// Move the selection one item down, wrapping to the top; clears the
    /// status line. With an empty list nothing changes.
    pub fn next(&mut self)
        requires
            old(self).wf(),
        ensures
            final(self).wf(),
            old(self).items@.len() == 0 ==> *final(self) == *old(self),
            old(self).items@.len() > 0 ==> *final(self) == (SessionState {
                selected: Some(wrap_next(old(self).selected, old(self).items@.len())),
                status_message: None,
                ..*old(self)
            }),
    {
        if self.items.len() == 0 {
            return ;
        }
        let i: usize = match self.selected {
            Some(i) => if i >= self.items.len() - 1 {
                0
            } else {
                i + 1
            },
            None => 0,
        };
        self.selected = Some(i);
        self.status_message = None;
    }

    /// Move the selection one item up, wrapping to the bottom; clears the
    /// status line. With an empty list nothing changes.
    pub fn previous(&mut self)
        requires
            old(self).wf(),
        ensures
            final(self).wf(),
            old(self).items@.len() == 0 ==> *final(self) == *old(self),
            old(self).items@.len() > 0 ==> *final(self) == (SessionState {
                selected: Some(wrap_prev(old(self).selected, old(self).items@.len())),
                status_message: None,
                ..*old(self)
            }),
    {
        if self.items.len() == 0 {
            return ;
        }
        let i: usize = match self.selected {
            Some(i) => if i == 0 {
                self.items.len() - 1
            } else {
                i - 1
            },
            None => 0,
        };
        self.selected = Some(i);
        self.status_message = None;
    }

    /// Switch to another tab. Switching to the tab already current is a
    /// no-op and asks for no refresh; otherwise the list is cleared, loading
    /// begins, and the return value tells the caller to launch a refresh for
    /// the new tab.
    pub fn switch_tab(&mut self, new_index: usize) -> (refresh: bool)
        requires
            old(self).wf(),
            new_index < old(self).config.feeds@.len(),
        ensures
            final(self).wf(),
            new_index == old(self).current_tab ==> !refresh && *final(self) == *old(self),
            new_index != old(self).current_tab ==> refresh && switched(
                *old(self),
                *final(self),
                new_index,
            ),
    {
        if self.current_tab == new_index {
            return false;
        }
        self.current_tab = new_index;
        self.items = Vec::new();
        self.selected = None;
        self.is_loading = true;
        self.status_message = None;
        true
    }

    /// Apply the result of a background refresh launched for `tab_index`.
    /// The staleness guard: the result is committed only if that tab is
    /// still current; otherwise it is discarded and nothing changes.
    pub fn commit_refresh(&mut self, tab_index: usize, items: Vec<NewsItem>)
        requires
            old(self).wf(),
        ensures
            final(self).wf(),
            committed(*old(self), *final(self), tab_index, items),
    {
        if self.current_tab == tab_index {
            let has: bool = items.len() > 0;
            self.items = items;
            self.is_loading = false;
            self.selected = if has {
                Some(0)
            } else {
                None
            };
        }
    }

    /// Note that a manual refresh of the current tab was requested: the
    /// status line says so, and the caller gets the tab to refresh. Unlike a
    /// tab switch this never skips the fetch.
    pub fn begin_manual_refresh(&mut self) -> (tab: usize)
        requires
            old(self).wf(),
        ensures
            final(self).wf(),
            tab == old(self).current_tab,
            same_but_status(*old(self), *final(self)),
            final(self).status_message matches Some(m) && m@ == "Refreshing..."@,
    {
        self.status_message = Some("Refreshing...".to_owned());
        self.current_tab
    }

    /// Put a short message on the status line, leaving everything else as it
    /// was.
    pub fn note_status(&mut self, msg: String)
        requires
            old(self).wf(),
        ensures
            final(self).wf(),
            same_but_status(*old(self), *final(self)),
            final(self).status_message == Some(msg),
    {
        self.status_message = Some(msg);
    }

    /// Enter the reading view for the selected item, handing back the URL to
    /// fetch. Without a selection, or when the selected item has no URL,
    /// nothing changes and no URL is returned.
    pub fn begin_article_load(&mut self) -> (u: Option<String>)
        requires
            old(self).wf(),
        ensures
            final(self).wf(),
            match old(self).selected {
                Some(i) => match old(self).items@[i as int].url {
                    Some(_) => u == old(self).items@[i as int].url && reading_started(
                        *old(self),
                        *final(self),
                    ),
                    None => u is None && *final(self) == *old(self),
                },
                None => u is None && *final(self) == *old(self),
            },
    {
        let idx: usize = match self.selected {
            Some(i) => i,
            None => {
                return None;
            },
        };
        let url: String = match &self.items[idx].url {
            Some(u) => u.clone(),
            None => {
                return None;
            },
        };
        self.is_loading = true;
        self.view_mode = ViewMode::Reading;
        self.article_text = "Loading article...".to_owned();
        self.scroll = 0;
        self.status_message = None;
        Some(url)
    }

    /// Commit the outcome of an article load: the text on success, a fixed
    /// failure message otherwise. No staleness guard applies here; the
    /// commit is unconditional.
    pub fn article_loaded(&mut self, text: Option<String>)
        requires
            old(self).wf(),
        ensures
            final(self).wf(),
            !final(self).is_loading,
            final(self).article_text@ == (match text {
                Some(t) => t@,
                None => "Failed to load article."@,
            }),
            final(self).config == old(self).config,
            final(self).items == old(self).items,
            final(self).selected == old(self).selected,
            final(self).current_tab == old(self).current_tab,
            final(self).view_mode == old(self).view_mode,
            final(self).scroll == old(self).scroll,
            final(self).status_message == old(self).status_message,
    {
        self.article_text = match text {
            Some(t) => t,
            None => "Failed to load article.".to_owned(),
        };
        self.is_loading = false;
    }

    /// Leave the reading view; everything else stays.
    pub fn return_to_list(&mut self)
        requires
            old(self).wf(),
        ensures
            final(self).wf(),
            *final(self) == (SessionState { view_mode: ViewMode::List, ..*old(self) }),
    {
        self.view_mode = ViewMode::List;
    }

    /// Scroll the article body one line down, saturating at the top end of
    /// the counter.
    pub fn scroll_down(&mut self)
        requires
            old(self).wf(),
        ensures
            final(self).wf(),
            *final(self) == (SessionState {
                scroll: if old(self).scroll == u16::MAX {
                    u16::MAX
                } else {
                    (old(self).scroll + 1) as u16
                },
                ..*old(self)
            }),
    {
        self.scroll = if self.scroll == u16::MAX {
            u16::MAX
        } else {
            self.scroll + 1
        };
    }

    /// Scroll the article body one line up, saturating at zero.
    pub fn scroll_up(&mut self)
        requires
            old(self).wf(),
        ensures
            final(self).wf(),
            *final(self) == (SessionState {
                scroll: if old(self).scroll == 0 {
                    0u16
                } else {
                    (old(self).scroll - 1) as u16
                },
                ..*old(self)
            }),
    {
        self.scroll = if self.scroll == 0 {
            0
        } else {
            self.scroll - 1
        };
    }
}

/// The staleness guard discards late results. When a refresh is launched for
/// tab `a` and the user then switches to tab `a` and on to a different tab
/// `b` before the refresh completes, committing that refresh changes nothing:
/// the item list and the loading flag are exactly those the second switch
/// left behind.
pub proof fn lemma_staleness_guard(
    s0: SessionState,
    s1: SessionState,
    s2: SessionState,
    s3: SessionState,
    a: usize,
    b: usize,
    items: Vec<NewsItem>,
)
    requires
        a != b,
        switched(s0, s1, a),
        switched(s1, s2, b),
        committed(s2, s3, a, items),
    ensures
        s3 == s2,
        s3.items == s2.items,
        s3.is_loading == s2.is_loading,
{
}

} // verus!
