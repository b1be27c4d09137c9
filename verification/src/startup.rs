//! Start-up, the arrival of an account's configuration, the periodic refresh,
//! and the streams that have to be listened to.

use vstd::prelude::*;
use std::collections::HashMap;
use std::collections::HashSet;
use crate::registry::find_account;
use crate::setup::{asks_for, form_for_needs, ConfigNeedsInput};
use crate::sync::{bump, next_generation};
use crate::types::{
    AccountConfig, AccountState, AccountView, AppModel, ConnectionState, Effect,
    ModelView, Preview, Status, Step,
};

verus! {

/// The model before any account is known.
pub open spec fn empty_model(cache_available: bool) -> ModelView {
    ModelView {
        accounts: Seq::empty(),
        active_account: None,
        cache_available,
        selected_folder: None,
        messages: Seq::empty(),
        selected_message: None,
        messages_offset: 0,
        has_more_messages: false,
        preview: Preview::Empty,
        collapsed_threads: Set::empty(),
        pending: Map::empty(),
        status: Status::SetupRequired,
        pending_body: None,
        body_defer_retries: 0,
        auto_read_suppressed: false,
        folder_drag_target: None,
        setup: None,
    }
}

/// An account that has just been configured: no folders, first attempt under way.
pub open spec fn starting_account(config: AccountConfig) -> AccountView {
    AccountView {
        config,
        session: None,
        generation: 1,
        conn_state: ConnectionState::Connecting,
        folders: Seq::empty(),
        folder_map: Map::empty(),
        folders_synced: false,
        watching: false,
        collapsed: false,
    }
}

/// The arrival of an account's configuration.
///
/// A known account takes the new configuration, gives up its session and
/// starts a new attempt. An unknown one is added at the end; its cached
/// folders are read and its first attempt starts.
pub open spec fn configured_step(v: ModelView, config: AccountConfig) -> Step {
    match find_account(v.accounts, config.id@, 0) {
        Some(i) => {
            let a = v.accounts[i as int];
            Step {
                model: ModelView {
                    accounts: v.accounts.update(
                        i as int,
                        AccountView {
                            config,
                            session: None,
                            generation: next_generation(a.generation),
                            conn_state: ConnectionState::Connecting,
                            watching: false,
                            ..a
                        },
                    ),
                    status: Status::Connecting(config.label),
                    ..v
                },
                effects: seq![
                    Effect::DropSession { account_id: config.id },
                    Effect::Connect {
                        account_id: config.id,
                        generation: next_generation(a.generation),
                    },
                ],
            }
        },
        None => Step {
            model: ModelView {
                accounts: v.accounts.push(starting_account(config)),
                status: Status::Connecting(config.label),
                ..v
            },
            effects: if v.cache_available {
                seq![
                    Effect::LoadCachedFolders { account_id: config.id },
                    Effect::Connect { account_id: config.id, generation: 1 },
                ]
            } else {
                seq![Effect::Connect { account_id: config.id, generation: 1 }]
            },
        },
    }
}

/// The accounts at start-up: one for every configuration, in order, each
/// with its first attempt under way.
pub open spec fn started_accounts(configs: Seq<AccountConfig>) -> Seq<AccountView> {
    Seq::new(configs.len(), |i: int| starting_account(configs[i]))
}

/// The work at start-up: for every configuration, in order, the read of its
/// cached folders, if there is a cache, and its first connection attempt.
pub open spec fn start_effects(cache_available: bool, configs: Seq<AccountConfig>) -> Seq<Effect>
    decreases configs.len(),
{
    if configs.len() == 0 {
        Seq::empty()
    } else {
        let before = start_effects(cache_available, configs.drop_last());
        let id = configs.last().id;
        if cache_available {
            before.push(Effect::LoadCachedFolders { account_id: id }).push(
                Effect::Connect { account_id: id, generation: 1 },
            )
        } else {
            before.push(Effect::Connect { account_id: id, generation: 1 })
        }
    }
}

/// Start-up with accounts: every configured account is added, its cached
/// folders are asked for and a connection is started, all at once.
pub open spec fn startup(cache_available: bool, configs: Seq<AccountConfig>) -> Step {
    Step {
        model: ModelView {
            accounts: started_accounts(configs),
            status: Status::StartingUp,
            ..empty_model(cache_available)
        },
        effects: start_effects(cache_available, configs),
    }
}

/// The status that tells what is asked of the user.
pub open spec fn needs_status(needs: ConfigNeedsInput) -> Status {
    match needs {
        ConfigNeedsInput::FullSetup => Status::SetupRequired,
        ConfigNeedsInput::PasswordOnly { .. } => Status::PasswordRequired,
    }
}

/// Whether a model is the one that start-up leaves when input is needed: no
/// account, the status that says what is asked, and the set-up dialog open
/// with the form that asks for it.
pub open spec fn awaits_input(v: ModelView, cache_available: bool, needs: ConfigNeedsInput) -> bool {
    &&& v == (ModelView {
        status: needs_status(needs),
        setup: v.setup,
        ..empty_model(cache_available)
    })
    &&& v.setup matches Some(form) && asks_for(form, needs)
}

/// What start-up leaves for a resolution of the configuration: the accounts
/// started if there are any; else the set-up dialog, with no account and no
/// work asked for.
pub open spec fn started(
    model: ModelView,
    effects: Seq<Effect>,
    cache_available: bool,
    resolution: Result<Vec<AccountConfig>, ConfigNeedsInput>,
) -> bool {
    match resolution {
        Ok(configs) => if configs@.len() > 0 {
            model == startup(cache_available, configs@).model && effects == startup(
                cache_available,
                configs@,
            ).effects
        } else {
            awaits_input(model, cache_available, ConfigNeedsInput::FullSetup) && effects.len() == 0
        },
        Err(needs) => awaits_input(model, cache_available, needs) && effects.len() == 0,
    }
}

/// An account as a refresh leaves it: syncing, if it has a session.
pub open spec fn refreshed(a: AccountView) -> AccountView {
    if a.session is Some {
        AccountView { conn_state: ConnectionState::Syncing, ..a }
    } else {
        a
    }
}

/// One folder fetch for every account with a session, in account order.
pub open spec fn refresh_effects(accounts: Seq<AccountView>) -> Seq<Effect>
    decreases accounts.len(),
{
    if accounts.len() == 0 {
        Seq::empty()
    } else {
        let rest = refresh_effects(accounts.drop_last());
        match accounts.last().session {
            Some(g) => rest.push(
                Effect::FetchFolders { account_id: accounts.last().config.id, generation: g },
            ),
            None => rest,
        }
    }
}

/// A refresh, asked for by the user or by the clock: every account that has
/// a session fetches its folders again.
pub open spec fn refresh_step(v: ModelView) -> Step {
    Step {
        model: ModelView {
            accounts: Seq::new(v.accounts.len(), |i: int| refreshed(v.accounts[i])),
            status: if refresh_effects(v.accounts).len() > 0 {
                Status::Refreshing
            } else {
                v.status
            },
            ..v
        },
        effects: refresh_effects(v.accounts),
    }
}

/// A stream of events that has to be listened to.
#[derive(Debug, PartialEq, Eq)]
pub enum Subscription {
    /// The push stream of the account at `index`.
    Watch { index: usize, account_id: String },
    /// The clock that asks for a refresh at a fixed interval.
    PeriodicRefresh,
}

/// One watch per account whose push stream is being consumed, in account order.
pub open spec fn watch_subscriptions(accounts: Seq<AccountView>) -> Seq<Subscription>
    decreases accounts.len(),
{
    if accounts.len() == 0 {
        Seq::empty()
    } else {
        let rest = watch_subscriptions(accounts.drop_last());
        if accounts.last().session is Some && accounts.last().watching {
            rest.push(
                Subscription::Watch {
                    index: (accounts.len() - 1) as usize,
                    account_id: accounts.last().config.id,
                },
            )
        } else {
            rest
        }
    }
}

/// Whether any account has a session.
pub open spec fn any_session(accounts: Seq<AccountView>) -> bool {
    exists|i: int| 0 <= i < accounts.len() && (#[trigger] accounts[i]).session is Some
}

/// The streams to listen to: the watches, and the clock as long as any
/// account has a session, whether its watch still runs or not.
pub open spec fn subscriptions_of(v: ModelView) -> Seq<Subscription> {
    let watches = watch_subscriptions(v.accounts);
    if any_session(v.accounts) {
        watches.push(Subscription::PeriodicRefresh)
    } else {
        watches
    }
}

impl AppModel {
    /// The model before any account is known.
    pub fn new(cache_available: bool) -> (r: Self)
        ensures
            r@ == empty_model(cache_available),
    {
        let r = AppModel {
            accounts: Vec::new(),
            active_account: None,
            cache_available,
            selected_folder: None,
            messages: Vec::new(),
            selected_message: None,
            messages_offset: 0,
            has_more_messages: false,
            preview: Preview::Empty,
            collapsed_threads: HashSet::new(),
            pending: HashMap::new(),
            status: Status::SetupRequired,
            pending_body: None,
            body_defer_retries: 0,
            auto_read_suppressed: false,
            folder_drag_target: None,
            setup: None,
        };
        assert(r@.accounts =~= Seq::<AccountView>::empty());
        r
    }

    /// Applies the arrival of an account's configuration.
    pub fn on_account_configured(&mut self, config: AccountConfig) -> (effects: Vec<Effect>)
        ensures
            final(self)@ == configured_step(old(self)@, config).model,
            effects@ == configured_step(old(self)@, config).effects,
    {
        let mut effects: Vec<Effect> = Vec::new();
        self.status = Status::Connecting(config.label.clone());
        match self.account_index(config.id.as_str()) {
            Some(i) => {
                let generation = bump(self.accounts[i].generation);
                effects.push(Effect::DropSession { account_id: config.id.clone() });
                effects.push(Effect::Connect { account_id: config.id.clone(), generation });
                self.accounts[i].config = config;
                self.accounts[i].session = None;
                self.accounts[i].generation = generation;
                self.accounts[i].conn_state = ConnectionState::Connecting;
                self.accounts[i].watching = false;
                assert(self@.accounts =~= configured_step(old(self)@, config).model.accounts);
            },
            None => {
                if self.cache_available {
                    effects.push(Effect::LoadCachedFolders { account_id: config.id.clone() });
                }
                effects.push(Effect::Connect { account_id: config.id.clone(), generation: 1 });
                let mut account = AccountState::new(config);
                account.generation = 1;
                account.conn_state = ConnectionState::Connecting;
                assert(account@.folders =~= Seq::<crate::models::Folder>::empty());
                self.accounts.push(account);
                assert(self@.accounts =~= configured_step(old(self)@, config).model.accounts);
            },
        }
        effects
    }

    /// Builds the model at start-up from the resolution of the configuration.
    pub fn init(cache_available: bool, resolution: Result<Vec<AccountConfig>, ConfigNeedsInput>) -> (r: (
        Self,
        Vec<Effect>,
    ))
        ensures
            started(r.0@, r.1@, cache_available, resolution),
    {
        let mut model = AppModel::new(cache_available);
        let mut effects: Vec<Effect> = Vec::new();
        let configs = match resolution {
            Ok(configs) => configs,
            Err(needs) => {
                model.status = match &needs {
                    ConfigNeedsInput::FullSetup => Status::SetupRequired,
                    ConfigNeedsInput::PasswordOnly { .. } => Status::PasswordRequired,
                };
                model.setup = Some(form_for_needs(needs));
                return (model, effects);
            },
        };
        if configs.len() == 0 {
            model.status = Status::SetupRequired;
            model.setup = Some(form_for_needs(ConfigNeedsInput::FullSetup));
            return (model, effects);
        }
        let mut rest = configs;
        let ghost total = configs@;
        let mut done: usize = 0;
        let count = rest.len();
        assert(model@.accounts =~= started_accounts(total.take(0)));
        while done < count
            invariant
                done <= count,
                count == total.len(),
                rest@ == total.subrange(done as int, count as int),
                model.accounts@.len() == done,
                forall|j: int| 0 <= j < done ==> (#[trigger] model.accounts@[j])@ == starting_account(total[j]),
                model@ == (ModelView {
                    accounts: started_accounts(total.take(done as int)),
                    ..empty_model(cache_available)
                }),
                effects@ == start_effects(cache_available, total.take(done as int)),
            decreases count - done,
        {
            let config = rest.remove(0);
            proof {
                assert(total.take(done + 1).drop_last() =~= total.take(done as int));
                assert(total.take(done + 1).last() == config);
            }
            if cache_available {
                effects.push(Effect::LoadCachedFolders { account_id: config.id.clone() });
            }
            effects.push(Effect::Connect { account_id: config.id.clone(), generation: 1 });
            let mut account = AccountState::new(config);
            account.generation = 1;
            account.conn_state = ConnectionState::Connecting;
            assert(account@.folders =~= Seq::<crate::models::Folder>::empty());
            assert(account@ == starting_account(config));
            model.accounts.push(account);
            assert(model@.accounts =~= started_accounts(total.take(done + 1)));
            done += 1;
        }
        assert(total.take(done as int) =~= total);
        model.status = Status::StartingUp;
        (model, effects)
    }

    /// Builds the model at start-up from the configured accounts.
    pub fn with_accounts(cache_available: bool, configs: Vec<AccountConfig>) -> (r: (Self, Vec<Effect>))
        ensures
            started(r.0@, r.1@, cache_available, Ok::<Vec<AccountConfig>, ConfigNeedsInput>(configs)),
    {
        AppModel::init(cache_available, Ok(configs))
    }

    /// Applies a refresh.
    pub fn on_refresh(&mut self) -> (effects: Vec<Effect>)
        ensures
            final(self)@ == refresh_step(old(self)@).model,
            effects@ == refresh_effects(old(self)@.accounts),
    {
        let mut effects: Vec<Effect> = Vec::new();
        let mut i: usize = 0;
        let count = self.accounts.len();
        while i < count
            invariant
                i <= count,
                count == self.accounts@.len(),
                count == old(self).accounts@.len(),
                forall|j: int| 0 <= j < i ==> (#[trigger] self.accounts@[j])@ == refreshed(old(self).accounts@[j]@),
                forall|j: int| i <= j < count ==> #[trigger] self.accounts@[j] == old(self).accounts@[j],
                effects@ == refresh_effects(old(self)@.accounts.take(i as int)),
                self.active_account == old(self).active_account,
                self.cache_available == old(self).cache_available,
                self.selected_folder == old(self).selected_folder,
                self.messages == old(self).messages,
                self.selected_message == old(self).selected_message,
                self.messages_offset == old(self).messages_offset,
                self.has_more_messages == old(self).has_more_messages,
                self.preview == old(self).preview,
                self.collapsed_threads == old(self).collapsed_threads,
                self.pending == old(self).pending,
                self.status == old(self).status,
                self.pending_body == old(self).pending_body,
                self.body_defer_retries == old(self).body_defer_retries,
                self.auto_read_suppressed == old(self).auto_read_suppressed,
                self.folder_drag_target == old(self).folder_drag_target,
                self.setup == old(self).setup,
            decreases count - i,
        {
            proof {
                assert(old(self)@.accounts.take(i + 1).drop_last() =~= old(self)@.accounts.take(
                    i as int,
                ));
            }
            match self.accounts[i].session {
                Some(g) => {
                    effects.push(
                        Effect::FetchFolders {
                            account_id: self.accounts[i].config.id.clone(),
                            generation: g,
                        },
                    );
                    self.accounts[i].conn_state = ConnectionState::Syncing;
                },
                None => {},
            }
            i += 1;
        }
        assert(old(self)@.accounts.take(i as int) =~= old(self)@.accounts);
        if effects.len() > 0 {
            self.status = Status::Refreshing;
        }
        assert(self@.accounts =~= refresh_step(old(self)@).model.accounts);
        effects
    }

    /// The streams that have to be listened to in the model's present state.
    pub fn subscriptions(&self) -> (subs: Vec<Subscription>)
        ensures
            subs@ == subscriptions_of(self@),
    {
        let mut subs: Vec<Subscription> = Vec::new();
        let mut connected = false;
        let mut i: usize = 0;
        while i < self.accounts.len()
            invariant
                i <= self.accounts@.len(),
                subs@ == watch_subscriptions(self@.accounts.take(i as int)),
                connected == any_session(self@.accounts.take(i as int)),
            decreases self.accounts@.len() - i,
        {
            let ghost before = self@.accounts.take(i as int);
            let ghost after = self@.accounts.take(i + 1);
            proof {
                assert(after.drop_last() =~= before);
                if any_session(before) {
                    let j = choose|j: int| 0 <= j < before.len() && (#[trigger] before[j]).session is Some;
                    assert(after[j].session is Some);
                }
                if any_session(after) && !(after[i as int].session is Some) {
                    let j = choose|j: int| 0 <= j < after.len() && (#[trigger] after[j]).session is Some;
                    assert(before[j].session is Some);
                }
            }
            if self.accounts[i].session.is_some() {
                connected = true;
                assert(after[i as int].session is Some);
                if self.accounts[i].watching {
                    subs.push(
                        Subscription::Watch {
                            index: i,
                            account_id: self.accounts[i].config.id.clone(),
                        },
                    );
                }
            }
            i += 1;
        }
        assert(self@.accounts.take(i as int) =~= self@.accounts);
        if connected {
            subs.push(Subscription::PeriodicRefresh);
        }
        subs
    }
}

} // verus!
