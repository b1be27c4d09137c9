//! Removing an account and folding it away in the sidebar.

use vstd::prelude::*;
use crate::registry::find_account;
use crate::sync::unchanged;
use crate::types::{AccountView, AppModel, Effect, ModelView, Preview, Status, Step};

verus! {

/// The model after the account at `index` has left: the accounts behind it
/// move up by one, and if it was the active one nothing of it stays on display.
pub open spec fn without_account(v: ModelView, index: usize) -> ModelView {
    let base = ModelView {
        accounts: v.accounts.remove(index as int),
        status: Status::AccountRemoved,
        ..v
    };
    match v.active_account {
        Some(active) => if active == index {
            ModelView {
                active_account: None,
                selected_folder: None,
                messages: Seq::empty(),
                selected_message: None,
                messages_offset: 0,
                has_more_messages: false,
                preview: Preview::Empty,
                pending_body: None,
                ..base
            }
        } else if active > index {
            ModelView { active_account: Some((active - 1) as usize), ..base }
        } else {
            base
        },
        None => base,
    }
}

/// The removal of an account.
///
/// An unknown id changes nothing. Otherwise the account goes with its session
/// and its folders, in one step; its session is torn down, its credential is
/// released, and its rows leave the cache.
pub open spec fn remove_account_step(v: ModelView, account_id: String) -> Step {
    match find_account(v.accounts, account_id@, 0) {
        None => unchanged(v),
        Some(i) => {
            let a = v.accounts[i as int];
            let dropped = if a.session is Some {
                seq![Effect::DropSession { account_id: a.config.id }]
            } else {
                Seq::empty()
            };
            let released = seq![
                Effect::ReleaseCredential {
                    account_id: a.config.id,
                    username: a.config.username,
                    server: a.config.imap_server,
                },
            ];
            let cleaned = if v.cache_available {
                seq![Effect::RemoveCachedAccount { account_id }]
            } else {
                Seq::empty()
            };
            Step { model: without_account(v, i), effects: dropped + released + cleaned }
        },
    }
}

/// An account's folders are folded away in the sidebar, or shown again.
pub open spec fn toggle_account_collapse_step(v: ModelView, index: usize) -> Step {
    if index < v.accounts.len() {
        unchanged(
            ModelView {
                accounts: v.accounts.update(
                    index as int,
                    AccountView {
                        collapsed: !v.accounts[index as int].collapsed,
                        ..v.accounts[index as int]
                    },
                ),
                ..v
            },
        )
    } else {
        unchanged(v)
    }
}

impl AppModel {
    /// Removes an account.
    pub fn on_account_remove(&mut self, account_id: String) -> (effects: Vec<Effect>)
        ensures
            final(self)@ == remove_account_step(old(self)@, account_id).model,
            effects@ == remove_account_step(old(self)@, account_id).effects,
    {
        let mut effects: Vec<Effect> = Vec::new();
        let i = match self.account_index(account_id.as_str()) {
            Some(i) => i,
            None => {
                return effects;
            },
        };
        let removed = self.accounts.remove(i);
        if removed.session.is_some() {
            effects.push(Effect::DropSession { account_id: removed.config.id.clone() });
        }
        effects.push(
            Effect::ReleaseCredential {
                account_id: removed.config.id,
                username: removed.config.username,
                server: removed.config.imap_server,
            },
        );
        if self.cache_available {
            effects.push(Effect::RemoveCachedAccount { account_id });
        }
        self.status = Status::AccountRemoved;
        match self.active_account {
            Some(active) => {
                if active == i {
                    self.active_account = None;
                    self.selected_folder = None;
                    self.messages = Vec::new();
                    self.selected_message = None;
                    self.messages_offset = 0;
                    self.has_more_messages = false;
                    self.preview = Preview::Empty;
                    self.pending_body = None;
                } else if active > i {
                    self.active_account = Some(active - 1);
                }
            },
            None => {},
        }
        assert(self@.accounts =~= old(self)@.accounts.remove(i as int));
        effects
    }

    /// Folds an account away in the sidebar, or shows it again.
    pub fn on_toggle_account_collapse(&mut self, index: usize) -> (effects: Vec<Effect>)
        ensures
            final(self)@ == toggle_account_collapse_step(old(self)@, index).model,
            effects@ == toggle_account_collapse_step(old(self)@, index).effects,
    {
        if index < self.accounts.len() {
            let collapsed = self.accounts[index].collapsed;
            self.accounts[index].collapsed = !collapsed;
            assert(self@.accounts =~= toggle_account_collapse_step(old(self)@, index).model.accounts);
        }
        Vec::new()
    }
}

/// The labels of a list of accounts.
pub open spec fn labels_of(accounts: Seq<AccountView>) -> Seq<Seq<char>> {
    Seq::new(accounts.len(), |i: int| accounts[i].config.label@)
}

/// A copy of a list of strings.
pub fn clone_strings(list: &Vec<String>) -> (r: Vec<String>)
    ensures
        r@ == list@,
{
    let mut out: Vec<String> = Vec::new();
    let mut i: usize = 0;
    while i < list.len()
        invariant
            i <= list@.len(),
            out@ == list@.take(i as int),
        decreases list@.len() - i,
    {
        out.push(list[i].clone());
        i += 1;
    }
    out
}

impl AppModel {
    /// The labels of all accounts, in order, for the account chooser of the composer.
    pub fn account_labels(&self) -> (r: Vec<String>)
        ensures
            crate::setup::texts(r@) == labels_of(self@.accounts),
    {
        let mut out: Vec<String> = Vec::new();
        let mut i: usize = 0;
        while i < self.accounts.len()
            invariant
                i <= self.accounts@.len(),
                out@.len() == i,
                crate::setup::texts(out@) == labels_of(self@.accounts.take(i as int)),
            decreases self.accounts@.len() - i,
        {
            let ghost before = out@;
            out.push(self.accounts[i].config.label.clone());
            assert forall|j: int| 0 <= j < i + 1 implies crate::setup::texts(out@)[j] == labels_of(
                self@.accounts.take(i + 1),
            )[j] by {
                if j < i {
                    assert(crate::setup::texts(before)[j] == labels_of(
                        self@.accounts.take(i as int),
                    )[j]);
                }
            }
            i += 1;
        }
        out
    }

    /// The sender addresses of the account at `index`; none if there is no such account.
    pub fn sender_addresses(&self, index: usize) -> (r: Vec<String>)
        ensures
            r@ == (if index < self@.accounts.len() {
                self@.accounts[index as int].config.email_addresses@
            } else {
                Seq::<String>::empty()
            }),
    {
        if index < self.accounts.len() {
            clone_strings(&self.accounts[index].config.email_addresses)
        } else {
            Vec::new()
        }
    }
}

} // verus!
