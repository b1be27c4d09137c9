//! Moving the selection over the visible rows and folding threads.

use vstd::prelude::*;
use crate::actions::{clamp_row, clamp_selection};
use crate::body::view_body_step;
use crate::sync::unchanged;
use crate::threads::{compute_visible, row_target, toggle_thread, toggled, visible_rows};
use crate::types::{AppModel, Effect, ModelView, Step};

verus! {

/// The selection one row further down; from no selection, the first row.
pub open spec fn row_below(selected: Option<usize>, rows: nat) -> Option<usize> {
    match selected {
        Some(s) => if s + 1 < rows {
            Some((s + 1) as usize)
        } else {
            Some(s)
        },
        None => if rows > 0 {
            Some(0)
        } else {
            None
        },
    }
}

/// The selection one row further up; from no selection, the first row.
pub open spec fn row_above(selected: Option<usize>, rows: nat) -> Option<usize> {
    match selected {
        Some(s) => if s > 0 {
            Some((s - 1) as usize)
        } else {
            Some(s)
        },
        None => if rows > 0 {
            Some(0)
        } else {
            None
        },
    }
}

/// The selection moves one visible row down.
pub open spec fn selection_down_step(v: ModelView) -> Step {
    unchanged(
        ModelView {
            selected_message: row_below(
                v.selected_message,
                visible_rows(v.messages, v.collapsed_threads).len(),
            ),
            ..v
        },
    )
}

/// The selection moves one visible row up.
pub open spec fn selection_up_step(v: ModelView) -> Step {
    unchanged(
        ModelView {
            selected_message: row_above(
                v.selected_message,
                visible_rows(v.messages, v.collapsed_threads).len(),
            ),
            ..v
        },
    )
}

/// The selected message is opened.
pub open spec fn activate_step(v: ModelView) -> Step {
    match v.selected_message {
        Some(row) => view_body_step(v, row),
        None => unchanged(v),
    }
}

/// One thread is folded or unfolded; the selection stays within the rows
/// that are then visible.
pub open spec fn collapse_thread(v: ModelView, thread: u64) -> ModelView {
    let collapsed = toggled(v.collapsed_threads, thread);
    ModelView {
        collapsed_threads: collapsed,
        selected_message: clamp_row(v.selected_message, visible_rows(v.messages, collapsed).len()),
        ..v
    }
}

/// The thread of the selected row's message is folded or unfolded. Without a
/// selection, or on a message without a thread, nothing changes.
pub open spec fn toggle_collapse_step(v: ModelView) -> Step {
    match v.selected_message {
        Some(row) => match row_target(v.messages, v.collapsed_threads, row) {
            Some(idx) => match v.messages[idx as int].thread_id {
                Some(thread) => unchanged(collapse_thread(v, thread)),
                None => unchanged(v),
            },
            None => unchanged(v),
        },
        None => unchanged(v),
    }
}

impl AppModel {
    /// The visible rows of the list: for each row the index of its message.
    pub fn visible_indices(&self) -> (rows: Vec<usize>)
        ensures
            rows@ == visible_rows(self@.messages, self@.collapsed_threads),
            forall|k: int| 0 <= k < rows@.len() ==> (#[trigger] rows@[k]) < self.messages@.len(),
    {
        compute_visible(&self.messages, &self.collapsed_threads)
    }

    /// The number of messages of every thread in the list.
    pub fn thread_sizes(&self) -> (sizes: std::collections::HashMap<u64, usize>)
        ensures
            sizes@ == crate::threads::thread_sizes_of(self@.messages),
    {
        crate::threads::compute_thread_sizes(&self.messages)
    }

    /// Moves the selection one visible row down.
    pub fn on_selection_down(&mut self) -> (effects: Vec<Effect>)
        ensures
            final(self)@ == selection_down_step(old(self)@).model,
            effects@ == selection_down_step(old(self)@).effects,
    {
        let rows = compute_visible(&self.messages, &self.collapsed_threads).len();
        self.selected_message = match self.selected_message {
            Some(s) => if s < rows && s + 1 < rows {
                Some(s + 1)
            } else {
                Some(s)
            },
            None => if rows > 0 {
                Some(0)
            } else {
                None
            },
        };
        Vec::new()
    }

    /// Moves the selection one visible row up.
    pub fn on_selection_up(&mut self) -> (effects: Vec<Effect>)
        ensures
            final(self)@ == selection_up_step(old(self)@).model,
            effects@ == selection_up_step(old(self)@).effects,
    {
        let rows = compute_visible(&self.messages, &self.collapsed_threads).len();
        self.selected_message = match self.selected_message {
            Some(s) => if s > 0 {
                Some(s - 1)
            } else {
                Some(s)
            },
            None => if rows > 0 {
                Some(0)
            } else {
                None
            },
        };
        Vec::new()
    }

    /// Opens the selected message.
    pub fn on_activate(&mut self) -> (effects: Vec<Effect>)
        ensures
            final(self)@ == activate_step(old(self)@).model,
            effects@ == activate_step(old(self)@).effects,
    {
        match self.selected_message {
            Some(row) => self.on_view_body(row),
            None => Vec::new(),
        }
    }

    /// Folds or unfolds one thread.
    pub fn toggle_collapse(&mut self, thread: u64)
        ensures
            final(self)@ == collapse_thread(old(self)@, thread),
    {
        toggle_thread(&mut self.collapsed_threads, thread);
        let rows = compute_visible(&self.messages, &self.collapsed_threads).len();
        self.selected_message = clamp_selection(self.selected_message, rows);
    }

    /// Folds or unfolds the thread of the selected row's message.
    pub fn on_toggle_collapse(&mut self) -> (effects: Vec<Effect>)
        ensures
            final(self)@ == toggle_collapse_step(old(self)@).model,
            effects@ == toggle_collapse_step(old(self)@).effects,
    {
        let row = match self.selected_message {
            Some(row) => row,
            None => {
                return Vec::new();
            },
        };
        match self.target_of_row(row) {
            Some(idx) => match self.messages[idx].thread_id {
                Some(thread) => {
                    self.toggle_collapse(thread);
                },
                None => {},
            },
            None => {},
        }
        Vec::new()
    }
}

} // verus!
