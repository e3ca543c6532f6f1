//! The observable state of one view: loading flag, address, title,
//! navigation history and the queue of messages waiting for the host.

use std::collections::VecDeque;
use vstd::prelude::*;
use crate::history::HistoryView;

verus! {

/// Mathematical model of a [`WebViewState`].
pub struct WebViewStateView {
    pub is_loading: bool,
    pub current_url: Seq<char>,
    pub page_title: Seq<char>,
    pub history: HistoryView,
    /// The queued messages, oldest first.
    pub pending: Seq<Seq<char>>,
}

/// Tracks the loading state, address, title, history and inbound messages of a view.
pub struct WebViewState {
    pub is_loading: bool,
    pub current_url: String,
    pub page_title: String,
    history: Vec<String>,
    history_index: Option<usize>,
    ipc_messages: VecDeque<String>,
}

impl View for WebViewState {
    type V = WebViewStateView;

    closed spec fn view(&self) -> WebViewStateView {
        WebViewStateView {
            is_loading: self.is_loading,
            current_url: self.current_url@,
            page_title: self.page_title@,
            history: HistoryView {
                entries: self.history.deep_view(),
                cursor: match self.history_index {
                    Some(i) => i as int,
                    None => -1,
                },
            },
            pending: self.ipc_messages.deep_view(),
        }
    }
}

impl WebViewState {
    /// Creates the state of a view that is loading `url` and has not navigated yet.
    pub fn new(url: String) -> (s: WebViewState)
        ensures
            s@ == (WebViewStateView {
                is_loading: true,
                current_url: url@,
                page_title: Seq::empty(),
                history: HistoryView::empty(),
                pending: Seq::empty(),
            }),
            !s@.history.can_go_back(),
            !s@.history.can_go_forward(),
    {
        let s = WebViewState {
            is_loading: true,
            current_url: url,
            page_title: String::new(),
            history: Vec::new(),
            history_index: None,
            ipc_messages: VecDeque::new(),
        };
        assert(s.history.deep_view() =~= Seq::empty());
        assert(s.ipc_messages.deep_view() =~= Seq::empty());
        s
    }

    /// Records that the view has arrived at `new_url`.
    pub fn update_history(&mut self, new_url: String)
        ensures
            final(self)@ == (WebViewStateView {
                history: old(self)@.history.visit(new_url@),
                ..old(self)@
            }),
    {
        let len = self.history.len();
        match self.history_index {
            Some(idx) => {
                if idx < len && self.history[idx] == new_url {
                    return ;
                }
                if 0 < idx && idx - 1 < len && self.history[idx - 1] == new_url {
                    self.history_index = Some(idx - 1);
                    return ;
                }
                if idx < len && idx + 1 < len && self.history[idx + 1] == new_url {
                    self.history_index = Some(idx + 1);
                    return ;
                }
                if idx < len && idx + 1 < len {
                    self.history.truncate(idx + 1);
                }
            },
            None => {
                self.history.clear();
            },
        }
        self.history.push(new_url);
        self.history_index = Some(self.history.len() - 1);
        assert(self.history.deep_view() =~= old(self)@.history.visit(new_url@).entries);
    }

    /// Sets the address of the view and records the arrival in its history.
    pub fn update_current_url(&mut self, url: String)
        ensures
            final(self)@ == (WebViewStateView {
                current_url: url@,
                history: old(self)@.history.visit(url@),
                ..old(self)@
            }),
    {
        self.current_url = url.clone();
        self.update_history(url);
    }

    /// Replaces the title of the page.
    pub fn update_page_title(&mut self, title: String)
        ensures
            final(self)@ == (WebViewStateView { page_title: title@, ..old(self)@ }),
    {
        self.page_title = title;
    }

    /// Appends `message` to the queue of messages waiting for the host.
    pub fn push_ipc_message(&mut self, message: String)
        ensures
            final(self)@ == (WebViewStateView {
                pending: old(self)@.pending.push(message@),
                ..old(self)@
            }),
    {
        self.ipc_messages.push_back(message);
        assert(self.ipc_messages.deep_view() =~= old(self)@.pending.push(message@));
    }

    /// Removes every queued message and returns them, oldest first.
    pub fn drain_ipc_messages(&mut self) -> (messages: Vec<String>)
        ensures
            messages.deep_view() == old(self)@.pending,
            final(self)@ == (WebViewStateView { pending: Seq::empty(), ..old(self)@ }),
    {
        let mut messages: Vec<String> = Vec::new();
        loop
            invariant
                self.is_loading == old(self).is_loading,
                self.current_url == old(self).current_url,
                self.page_title == old(self).page_title,
                self.history == old(self).history,
                self.history_index == old(self).history_index,
                messages@ + self.ipc_messages@ == old(self).ipc_messages@,
            decreases self.ipc_messages@.len(),
        {
            match self.ipc_messages.pop_front() {
                Some(message) => {
                    messages.push(message);
                    assert(messages@ + self.ipc_messages@ =~= old(self).ipc_messages@);
                },
                None => {
                    assert(messages@ =~= old(self).ipc_messages@);
                    assert(messages.deep_view() =~= old(self)@.pending);
                    assert(self.ipc_messages.deep_view() =~= Seq::empty());
                    return messages;
                },
            }
        }
    }

    /// Whether there is a page before the one shown.
    pub fn can_go_back(&self) -> (yes: bool)
        ensures
            yes == self@.history.can_go_back(),
    {
        match self.history_index {
            Some(idx) => idx > 0 && self.history.len() > 0,
            None => false,
        }
    }

    /// Whether there is a page after the one shown.
    pub fn can_go_forward(&self) -> (yes: bool)
        ensures
            yes == self@.history.can_go_forward(),
    {
        match self.history_index {
            Some(idx) => {
                let len = self.history.len();
                len > 0 && idx < len - 1
            },
            None => false,
        }
    }

    /// The visited pages, oldest first.
    pub fn history(&self) -> (entries: &Vec<String>)
        ensures
            entries.deep_view() == self@.history.entries,
    {
        &self.history
    }

    /// The position in the history of the page shown, `None` before the first navigation.
    pub fn history_index(&self) -> (index: Option<usize>)
        ensures
            match index {
                Some(i) => self@.history.cursor == i,
                None => self@.history.cursor == -1,
            },
    {
        self.history_index
    }

    /// The number of messages waiting for the host.
    pub fn pending_ipc_messages(&self) -> (n: usize)
        ensures
            n == self@.pending.len(),
    {
        self.ipc_messages.len()
    }
}

} // verus!
