//! The set-up dialog as part of the model: opening it, typing into it,
//! checking and saving what was typed, and giving it up.

use vstd::prelude::*;
use crate::registry::find_account;
use crate::setup::{
    blank_form, edits, fault_of, form_for_edit, is_blank, stands_for, submit_setup, with_switch,
    with_text, SetupError, SetupFault, SetupField, SetupForm,
};
use crate::startup::configured_step;
use crate::sync::unchanged;
use crate::types::{AccountConfig, AccountView, AppModel, Effect, ModelView, Status, Step};

verus! {

/// The dialog opens with a form.
pub open spec fn setup_opened_step(v: ModelView, form: SetupForm) -> Step {
    unchanged(ModelView { setup: Some(form), ..v })
}

/// A text is typed into a field of the open dialog.
pub open spec fn setup_field_step(v: ModelView, field: SetupField, value: String) -> Step {
    match v.setup {
        Some(form) => unchanged(ModelView { setup: Some(with_text(form, field, value)), ..v }),
        None => unchanged(v),
    }
}

/// A switch of the open dialog is set.
pub open spec fn setup_toggle_step(v: ModelView, field: SetupField, value: bool) -> Step {
    match v.setup {
        Some(form) => unchanged(ModelView { setup: Some(with_switch(form, field, value)), ..v }),
        None => unchanged(v),
    }
}

/// A form with a report above its fields.
pub open spec fn with_report(form: SetupForm, fault: SetupFault) -> SetupForm {
    SetupForm { error: Some(fault), ..form }
}

/// The form of the open dialog has been checked.
///
/// A fault is reported in the dialog and nothing else happens. For a form
/// without fault the passwords are stored and the configuration is written
/// out; the dialog stays open and the accounts stay as they are until that
/// has been done.
pub open spec fn setup_checked_step(v: ModelView, outcome: Result<AccountConfig, SetupError>) -> Step {
    match v.setup {
        None => unchanged(v),
        Some(form) => match outcome {
            Err(e) => unchanged(
                ModelView { setup: Some(with_report(form, SetupFault::Invalid(e))), ..v },
            ),
            Ok(config) => Step {
                model: v,
                effects: seq![
                    Effect::SaveAccount {
                        config,
                        password: form.password,
                        smtp_password: form.smtp_password,
                    },
                ],
            },
        },
    }
}

/// The configuration has been written out, or could not be.
///
/// After a failure the dialog reports it and the accounts are unchanged.
/// After a success the dialog closes and the account is taken in, as by the
/// arrival of its configuration.
pub open spec fn setup_saved_step(v: ModelView, config: AccountConfig, result: Result<(), String>) -> Step {
    match result {
        Err(reason) => match v.setup {
            Some(form) => unchanged(
                ModelView { setup: Some(with_report(form, SetupFault::SaveFailed(reason))), ..v },
            ),
            None => unchanged(v),
        },
        Ok(_) => configured_step(ModelView { setup: None, ..v }, config),
    }
}

/// The sum of a list of counts, held at the largest number there is.
pub open spec fn capped_sum(counts: Seq<usize>) -> usize
    decreases counts.len(),
{
    if counts.len() == 0 {
        0
    } else if capped_sum(counts.drop_last()) + counts.last() > usize::MAX {
        usize::MAX
    } else {
        (capped_sum(counts.drop_last()) + counts.last()) as usize
    }
}

/// The status after the set-up has been given up, from the folder count of
/// every account: with no account nothing is connected and nothing cached;
/// else the folders of all accounts are there to be read offline.
pub open spec fn cancelled_status(folder_counts: Seq<usize>) -> Status {
    if folder_counts.len() == 0 {
        Status::NotConnectedNoCache
    } else {
        Status::FoldersOfflineCached(capped_sum(folder_counts))
    }
}

/// The folder count of every account.
pub open spec fn folder_counts_of(accounts: Seq<AccountView>) -> Seq<usize> {
    Seq::new(accounts.len(), |i: int| accounts[i].folders.len() as usize)
}

/// The set-up is given up: the dialog closes and the status says what is left.
pub open spec fn setup_cancel_step(v: ModelView) -> Step {
    unchanged(
        ModelView { setup: None, status: cancelled_status(folder_counts_of(v.accounts)), ..v },
    )
}

/// The status after the set-up has been given up.
pub fn setup_cancelled(folder_counts: &Vec<usize>) -> (r: Status)
    ensures
        r == cancelled_status(folder_counts@),
{
    if folder_counts.len() == 0 {
        return Status::NotConnectedNoCache;
    }
    let mut total: usize = 0;
    let mut i: usize = 0;
    while i < folder_counts.len()
        invariant
            i <= folder_counts@.len(),
            total == capped_sum(folder_counts@.take(i as int)),
        decreases folder_counts@.len() - i,
    {
        proof {
            assert(folder_counts@.take(i + 1).drop_last() =~= folder_counts@.take(i as int));
        }
        let count = folder_counts[i];
        total = if total > usize::MAX - count {
            usize::MAX
        } else {
            total + count
        };
        i += 1;
    }
    assert(folder_counts@.take(i as int) =~= folder_counts@);
    Status::FoldersOfflineCached(total)
}

/// The form's report after the attempt to write the configuration out: the
/// failure, or what was reported before.
pub fn save_outcome(form: SetupForm, result: Result<(), String>) -> (r: SetupForm)
    ensures
        r == match result {
            Ok(_) => form,
            Err(reason) => with_report(form, SetupFault::SaveFailed(reason)),
        },
{
    match result {
        Ok(_) => form,
        Err(reason) => {
            let mut form = form;
            form.error = Some(SetupFault::SaveFailed(reason));
            form
        },
    }
}

impl AppModel {
    /// The folder count of every account, in order.
    pub fn folder_counts(&self) -> (r: Vec<usize>)
        ensures
            r@ == folder_counts_of(self@.accounts),
    {
        let mut out: Vec<usize> = Vec::new();
        let mut i: usize = 0;
        while i < self.accounts.len()
            invariant
                i <= self.accounts@.len(),
                out@.len() == i,
                forall|j: int| 0 <= j < i ==> #[trigger] out@[j] == self@.accounts[j].folders.len(),
            decreases self.accounts@.len() - i,
        {
            out.push(self.accounts[i].folders.len());
            i += 1;
        }
        assert(out@ =~= folder_counts_of(self@.accounts));
        out
    }

    /// Opens the set-up dialog with a form.
    pub fn on_setup_opened(&mut self, form: SetupForm) -> (effects: Vec<Effect>)
        ensures
            final(self)@ == setup_opened_step(old(self)@, form).model,
            effects@ == setup_opened_step(old(self)@, form).effects,
    {
        self.setup = Some(form);
        Vec::new()
    }

    /// Takes a text typed into a field of the open dialog.
    pub fn on_setup_field(&mut self, field: SetupField, value: String) -> (effects: Vec<Effect>)
        ensures
            final(self)@ == setup_field_step(old(self)@, field, value).model,
            effects@ == setup_field_step(old(self)@, field, value).effects,
    {
        match self.setup.take() {
            Some(form) => {
                let mut form = form;
                form.set_field(field, value);
                self.setup = Some(form);
            },
            None => {},
        }
        Vec::new()
    }

    /// Sets a switch of the open dialog.
    pub fn on_setup_toggle(&mut self, field: SetupField, value: bool) -> (effects: Vec<Effect>)
        ensures
            final(self)@ == setup_toggle_step(old(self)@, field, value).model,
            effects@ == setup_toggle_step(old(self)@, field, value).effects,
    {
        match self.setup.take() {
            Some(form) => {
                let mut form = form;
                form.set_toggle(field, value);
                self.setup = Some(form);
            },
            None => {},
        }
        Vec::new()
    }

    /// Applies the outcome of checking the form of the open dialog.
    pub fn on_setup_checked(&mut self, outcome: Result<AccountConfig, SetupError>) -> (effects: Vec<
        Effect,
    >)
        ensures
            final(self)@ == setup_checked_step(old(self)@, outcome).model,
            effects@ == setup_checked_step(old(self)@, outcome).effects,
    {
        let mut effects: Vec<Effect> = Vec::new();
        match self.setup.take() {
            None => {},
            Some(form) => match outcome {
                Err(e) => {
                    let mut form = form;
                    form.error = Some(SetupFault::Invalid(e));
                    self.setup = Some(form);
                },
                Ok(config) => {
                    effects.push(
                        Effect::SaveAccount {
                            config,
                            password: form.password.clone(),
                            smtp_password: form.smtp_password.clone(),
                        },
                    );
                    self.setup = Some(form);
                },
            },
        }
        effects
    }

    /// Applies the outcome of writing the configuration out.
    pub fn on_setup_saved(&mut self, config: AccountConfig, result: Result<(), String>) -> (effects: Vec<
        Effect,
    >)
        ensures
            final(self)@ == setup_saved_step(old(self)@, config, result).model,
            effects@ == setup_saved_step(old(self)@, config, result).effects,
    {
        match result {
            Err(reason) => {
                match self.setup.take() {
                    Some(form) => {
                        self.setup = Some(save_outcome(form, Err(reason)));
                    },
                    None => {},
                }
                Vec::new()
            },
            Ok(_) => {
                self.setup = None;
                self.on_account_configured(config)
            },
        }
    }

    /// Gives the set-up up.
    pub fn on_setup_cancel(&mut self) -> (effects: Vec<Effect>)
        ensures
            final(self)@ == setup_cancel_step(old(self)@).model,
            effects@ == setup_cancel_step(old(self)@).effects,
    {
        let counts = self.folder_counts();
        self.status = setup_cancelled(&counts);
        self.setup = None;
        Vec::new()
    }

    /// Opens the set-up dialog for a new account.
    pub fn account_add(&mut self)
        ensures
            final(self)@ == (ModelView { setup: final(self)@.setup, ..old(self)@ }),
            final(self)@.setup matches Some(form) && is_blank(form),
    {
        self.setup = Some(blank_form());
    }

    /// Opens the set-up dialog for the account with the given id, its
    /// settings filled in. With no such account nothing happens.
    pub fn account_edit(&mut self, account_id: &str)
        ensures
            match find_account(old(self)@.accounts, account_id@, 0) {
                Some(i) => {
                    &&& final(self)@ == (ModelView { setup: final(self)@.setup, ..old(self)@ })
                    &&& final(self)@.setup matches Some(form) && edits(
                        form,
                        old(self)@.accounts[i as int].config,
                    )
                },
                None => final(self)@ == old(self)@,
            },
    {
        match self.account_index(account_id) {
            Some(i) => {
                self.setup = Some(form_for_edit(&self.accounts[i].config));
            },
            None => {},
        }
    }

    /// Checks the form of the open dialog. A fault is reported in the dialog.
    /// For a form without fault the model stays as it is, and the one piece
    /// of work asked for is to save the configuration that the form stands
    /// for, with the two passwords as typed. A new account gets `fresh_id`.
    pub fn submit_form(&mut self, fresh_id: String) -> (effects: Vec<Effect>)
        ensures
            match old(self)@.setup {
                None => final(self)@ == old(self)@ && effects@.len() == 0,
                Some(form) => match fault_of(form) {
                    Some(e) => final(self)@ == setup_checked_step(
                        old(self)@,
                        Err::<AccountConfig, SetupError>(e),
                    ).model && effects@.len() == 0,
                    None => {
                        &&& final(self)@ == old(self)@
                        &&& effects@.len() == 1
                        &&& effects@[0] matches Effect::SaveAccount { config, password, smtp_password }
                            && stands_for(config, form, fresh_id) && password == form.password
                            && smtp_password == form.smtp_password
                    },
                },
            },
    {
        let outcome = match &self.setup {
            Some(form) => submit_setup(form, fresh_id),
            None => {
                return Vec::new();
            },
        };
        self.on_setup_checked(outcome)
    }
}

} // verus!
