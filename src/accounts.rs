//! The account actions: what a response of the accounts list or of the login
//! screen commits the client to, and the lookup that must follow an addition.

use vstd::prelude::*;
use nostrdb::{Ndb, Transaction};
use crate::keys::{Keypair, Pubkey};
use crate::login::{AccountLoginResponse, AcquireKeyState};
use crate::route::{Columns, Route, AccountsRoute};
use crate::store::{pubkeys_of, Accounts, AddAccountResponse};
use crate::unknown_ids::{SingleUnkIdAction, UnknownIds};

verus! {

/// A request to make `switch_to` the active account, made from column
/// `source_column`.
#[derive(Debug, Clone, Copy, PartialEq, Eq)]
pub struct SwitchAccountAction {
    pub source_column: usize,
    /// The account to switch to
    pub switch_to: Pubkey,
}

impl SwitchAccountAction {
    pub fn new(source_column: usize, switch_to: Pubkey) -> (r: SwitchAccountAction)
        ensures
            r == (SwitchAccountAction { source_column, switch_to }),
    {
        SwitchAccountAction { source_column, switch_to }
    }
}

/// The account-level effect of one interaction.
#[derive(Debug, Clone, Copy, PartialEq, Eq)]
pub enum AccountsAction {
    Switch(SwitchAccountAction),
    Remove(Pubkey),
}

/// The result of an interaction that may add an account. Its lookup must be
/// handed to `process_action`, or the new identity is never looked up.
#[must_use]
#[derive(Debug)]
pub struct AddAccountAction {
    pub accounts_action: Option<AccountsAction>,
    pub unk_id_action: SingleUnkIdAction,
}

impl AddAccountAction {
    /// Nothing to do.
    pub fn none() -> (r: AddAccountAction)
        ensures
            r == (AddAccountAction { accounts_action: None, unk_id_action: SingleUnkIdAction::NoAction }),
    {
        AddAccountAction { accounts_action: None, unk_id_action: SingleUnkIdAction::no_action() }
    }

    /// Applies the lookup to the pending keys, given what the lookup answered.
    pub fn process_with_lookup(&mut self, ids: &mut UnknownIds, profile_known: bool)
        requires
            old(ids).wf(),
        ensures
            *final(self) == *old(self),
            final(ids).wf(),
            final(ids)@ == old(self).unk_id_action.resolved(old(ids)@, profile_known),
    {
        self.unk_id_action.process_with_lookup(ids, profile_known);
    }

    /// Applies the lookup to the pending keys, asking the store whether the
    /// identity's profile is known.
    pub fn process_action(&mut self, ids: &mut UnknownIds, ndb: &Ndb, txn: &Transaction)
        requires
            old(ids).wf(),
        ensures
            *final(self) == *old(self),
            final(ids).wf(),
            final(ids)@ == old(self).unk_id_action.resolved(old(ids)@, true)
                || final(ids)@ == old(self).unk_id_action.resolved(old(ids)@, false),
            old(self).unk_id_action is NoAction ==> final(ids)@ == old(ids)@,
    {
        self.unk_id_action.process_action(ids, ndb, txn);
    }
}

/// What the accounts list reports.
#[derive(Debug, Clone, Copy)]
pub enum AccountsViewResponse {
    SelectAccount(Pubkey),
    RemoveAccount(Pubkey),
    RouteToLogin,
}

/// What one of the two account screens reports.
#[derive(Debug, Clone, Copy)]
pub enum AccountsRouteResponse {
    Accounts(AccountsViewResponse),
    AddAccount(AccountLoginResponse),
}

/// The effect of a response of the accounts list shown in column `col`.
pub open spec fn accounts_view_action(col: usize, response: AccountsViewResponse) -> Option<AccountsAction> {
    match response {
        AccountsViewResponse::RemoveAccount(pk) => Some(AccountsAction::Remove(pk)),
        AccountsViewResponse::SelectAccount(pk) => Some(
            AccountsAction::Switch(SwitchAccountAction { source_column: col, switch_to: pk }),
        ),
        AccountsViewResponse::RouteToLogin => None,
    }
}

/// The columns' navigation after a response of the accounts list in column
/// `col`: only a request to log in changes it, by opening the login screen.
pub open spec fn accounts_view_routes(
    cols: Seq<Seq<Route>>,
    col: usize,
    response: AccountsViewResponse,
) -> Seq<Seq<Route>> {
    match response {
        AccountsViewResponse::RouteToLogin => cols.update(
            col as int,
            cols[col as int].push(Route::Accounts(AccountsRoute::AddAccount)),
        ),
        _ => cols,
    }
}

/// The result of a login in column `col`, given what the account store answered.
pub open spec fn login_action(col: usize, added: Option<AddAccountResponse>) -> AddAccountAction {
    match added {
        Some(a) => AddAccountAction {
            accounts_action: Some(
                AccountsAction::Switch(SwitchAccountAction { source_column: col, switch_to: a.switch_to }),
            ),
            unk_id_action: a.unk_id_action,
        },
        None => AddAccountAction { accounts_action: None, unk_id_action: SingleUnkIdAction::NoAction },
    }
}

/// The result of logging in with `kp` in column `col`, with `known` the
/// accounts before: a new key is switched to and looked up; a known one
/// changes nothing.
pub open spec fn login_outcome(known: Seq<Keypair>, col: usize, kp: Keypair) -> AddAccountAction {
    if pubkeys_of(known).contains(kp.pubkey) {
        AddAccountAction { accounts_action: None, unk_id_action: SingleUnkIdAction::NoAction }
    } else {
        AddAccountAction {
            accounts_action: Some(
                AccountsAction::Switch(SwitchAccountAction { source_column: col, switch_to: kp.pubkey }),
            ),
            unk_id_action: SingleUnkIdAction::NeedsProcess(kp.pubkey),
        }
    }
}

/// The accounts after logging in with `kp`.
pub open spec fn accounts_after_login(known: Seq<Keypair>, kp: Keypair) -> Seq<Keypair> {
    if pubkeys_of(known).contains(kp.pubkey) {
        known
    } else {
        known.push(kp)
    }
}

/// Turns a response of the accounts list in column `col` into its effect;
/// a request to log in opens the login screen in that column instead.
pub fn process_accounts_view_response(
    columns: &mut Columns,
    col: usize,
    response: AccountsViewResponse,
) -> (r: Option<AccountsAction>)
    requires
        old(columns).wf(),
        col < old(columns)@.len(),
    ensures
        final(columns).wf(),
        r == accounts_view_action(col, response),
        final(columns)@ == accounts_view_routes(old(columns)@, col, response),
{
    match response {
        AccountsViewResponse::RemoveAccount(pk_to_remove) => Some(AccountsAction::Remove(pk_to_remove)),
        AccountsViewResponse::SelectAccount(new_pk) => Some(
            AccountsAction::Switch(SwitchAccountAction::new(col, new_pk)),
        ),
        AccountsViewResponse::RouteToLogin => {
            columns.route_to(col, Route::add_account());
            None
        },
    }
}

/// Turns what the account store answered to a login in column `col` into the
/// result of the login: the account it took is switched to from that column.
pub fn add_account_action(col: usize, added: Option<AddAccountResponse>) -> (r: AddAccountAction)
    ensures
        r == login_action(col, added),
{
    match added {
        Some(action) => AddAccountAction {
            accounts_action: Some(
                AccountsAction::Switch(SwitchAccountAction { source_column: col, switch_to: action.switch_to }),
            ),
            unk_id_action: action.unk_id_action,
        },
        None => AddAccountAction::none(),
    }
}

/// Adds the account that the login screen in column `col` reported.
pub fn process_login_view_response(
    accounts: &mut Accounts,
    col: usize,
    response: AccountLoginResponse,
) -> (r: AddAccountAction)
    requires
        old(accounts).wf(),
    ensures
        final(accounts).wf(),
        final(accounts)@ == accounts_after_login(old(accounts)@, response.keypair()),
        r == login_outcome(old(accounts)@, col, response.keypair()),
{
    let kp = match response {
        AccountLoginResponse::CreateNew(full) => full.to_keypair(),
        AccountLoginResponse::LoginWith(keypair) => keypair,
    };
    let added = accounts.add_account(kp);
    add_account_action(col, added)
}

/// Handles what an account screen of column `col` reported, if anything: a
/// response of the accounts list is turned into its effect; after a login the
/// login input is cleared and the column returns to the screen it came from.
pub fn render_accounts_route(
    columns: &mut Columns,
    accounts: &mut Accounts,
    col: usize,
    login_state: &mut AcquireKeyState,
    response: Option<AccountsRouteResponse>,
) -> (r: AddAccountAction)
    requires
        old(columns).wf(),
        old(accounts).wf(),
        col < old(columns)@.len(),
    ensures
        final(columns).wf(),
        final(accounts).wf(),
        match response {
            None => {
                &&& r == AddAccountAction { accounts_action: None, unk_id_action: SingleUnkIdAction::NoAction }
                &&& final(columns)@ == old(columns)@
                &&& final(accounts)@ == old(accounts)@
                &&& *final(login_state) == *old(login_state)
            },
            Some(AccountsRouteResponse::Accounts(resp)) => {
                &&& r == AddAccountAction {
                    accounts_action: accounts_view_action(col, resp),
                    unk_id_action: SingleUnkIdAction::NoAction,
                }
                &&& final(columns)@ == accounts_view_routes(old(columns)@, col, resp)
                &&& final(accounts)@ == old(accounts)@
                &&& *final(login_state) == *old(login_state)
            },
            Some(AccountsRouteResponse::AddAccount(resp)) => {
                &&& r == login_outcome(old(accounts)@, col, resp.keypair())
                &&& final(accounts)@ == accounts_after_login(old(accounts)@, resp.keypair())
                &&& final(login_state).is_fresh()
                &&& final(columns)@ == old(columns)@.update(
                    col as int,
                    if old(columns)@[col as int].len() > 1 {
                        old(columns)@[col as int].drop_last()
                    } else {
                        old(columns)@[col as int]
                    },
                )
            },
        },
{
    match response {
        Some(AccountsRouteResponse::Accounts(resp)) => {
            let action = process_accounts_view_response(columns, col, resp);
            AddAccountAction { accounts_action: action, unk_id_action: SingleUnkIdAction::no_action() }
        },
        Some(AccountsRouteResponse::AddAccount(resp)) => {
            let action = process_login_view_response(accounts, col, resp);
            *login_state = AcquireKeyState::new();
            columns.go_back(col);
            action
        },
        None => AddAccountAction::none(),
    }
}

/// Removing an account from the list asks for exactly that removal and
/// leaves every column's navigation as it was.
pub proof fn lemma_remove_response(cols: Seq<Seq<Route>>, col: usize, pk: Pubkey)
    ensures
        accounts_view_action(col, AccountsViewResponse::RemoveAccount(pk)) == Some(AccountsAction::Remove(pk)),
        accounts_view_routes(cols, col, AccountsViewResponse::RemoveAccount(pk)) == cols,
{
}

/// Selecting an account in column `col` asks to switch to it from `col`,
/// and leaves the navigation as it was.
pub proof fn lemma_select_response(cols: Seq<Seq<Route>>, col: usize, pk: Pubkey)
    ensures
        accounts_view_action(col, AccountsViewResponse::SelectAccount(pk)) == Some(
            AccountsAction::Switch(SwitchAccountAction { source_column: col, switch_to: pk }),
        ),
        accounts_view_routes(cols, col, AccountsViewResponse::SelectAccount(pk)) == cols,
{
}

/// Asking to log in has no account-level effect; the column then shows the
/// login screen, on top of what it showed before, and no other column changes.
pub proof fn lemma_route_to_login_response(cols: Seq<Seq<Route>>, col: usize)
    requires
        col < cols.len(),
    ensures
        accounts_view_action(col, AccountsViewResponse::RouteToLogin).is_none(),
        accounts_view_routes(cols, col, AccountsViewResponse::RouteToLogin)[col as int].last()
            == Route::Accounts(AccountsRoute::AddAccount),
        accounts_view_routes(cols, col, AccountsViewResponse::RouteToLogin)[col as int].drop_last()
            == cols[col as int],
        forall|i: int|
            0 <= i < cols.len() && i != col ==> #[trigger] accounts_view_routes(
                cols,
                col,
                AccountsViewResponse::RouteToLogin,
            )[i] == cols[i],
{
    let after = accounts_view_routes(cols, col, AccountsViewResponse::RouteToLogin);
    assert(after[col as int].drop_last() =~= cols[col as int]);
}

/// A login that the store takes switches to the key that was given, from the
/// column where the login happened, whatever the store answered besides; the
/// new identity is to be looked up.
pub proof fn lemma_accepted_login(known: Seq<Keypair>, col: usize, kp: Keypair, added: AddAccountResponse)
    requires
        !pubkeys_of(known).contains(kp.pubkey),
    ensures
        login_outcome(known, col, kp).accounts_action == Some(
            AccountsAction::Switch(SwitchAccountAction { source_column: col, switch_to: kp.pubkey }),
        ),
        login_outcome(known, col, kp).unk_id_action == SingleUnkIdAction::NeedsProcess(kp.pubkey),
        accounts_after_login(known, kp) == known.push(kp),
        login_action(col, Some(added)).accounts_action == Some(
            AccountsAction::Switch(SwitchAccountAction { source_column: col, switch_to: added.switch_to }),
        ),
        login_action(col, Some(added)).unk_id_action == added.unk_id_action,
{
}

/// A login with a key that the store has already gives nothing to do, no
/// lookup included, and leaves the accounts as they were.
pub proof fn lemma_rejected_login(known: Seq<Keypair>, col: usize, kp: Keypair)
    requires
        pubkeys_of(known).contains(kp.pubkey),
    ensures
        login_outcome(known, col, kp) == (AddAccountAction {
            accounts_action: None,
            unk_id_action: SingleUnkIdAction::NoAction,
        }),
        accounts_after_login(known, kp) == known,
        login_action(col, None) == (AddAccountAction {
            accounts_action: None,
            unk_id_action: SingleUnkIdAction::NoAction,
        }),
{
}

/// Processing an action a second time adds nothing when the lookup answers
/// as before; whatever the two lookups answer, two rounds do what one round
/// does with the key found only if both found it. An action with nothing to
/// look up never changes the pending keys.
pub proof fn lemma_process_action_twice(
    action: AddAccountAction,
    ids: Seq<Pubkey>,
    first_known: bool,
    second_known: bool,
)
    ensures
        action.unk_id_action.resolved(action.unk_id_action.resolved(ids, first_known), first_known)
            == action.unk_id_action.resolved(ids, first_known),
        action.unk_id_action.resolved(action.unk_id_action.resolved(ids, first_known), second_known)
            == action.unk_id_action.resolved(ids, first_known && second_known),
        action.unk_id_action is NoAction ==> action.unk_id_action.resolved(ids, first_known) == ids,
{
    if let SingleUnkIdAction::NeedsProcess(pk) = action.unk_id_action {
        if !first_known && !ids.contains(pk) {
            assert(ids.push(pk)[ids.len() as int] == pk);
        }
    }
}

} // verus!
