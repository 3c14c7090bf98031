use notedeck_accounts::accounts::{
    add_account_action, process_accounts_view_response, process_login_view_response,
    render_accounts_route, AccountsAction, AccountsRouteResponse, AccountsViewResponse,
    AddAccountAction, SwitchAccountAction,
};
use notedeck_accounts::keys::{FullKeypair, Keypair, Pubkey, SecretKey};
use notedeck_accounts::login::{AccountLoginResponse, AcquireKeyState};
use notedeck_accounts::route::{AccountsRoute, Columns, Route};
use notedeck_accounts::store::{Accounts, AddAccountResponse};
use notedeck_accounts::unknown_ids::{SingleUnkIdAction, UnknownIds};

fn pk(b: u8) -> Pubkey {
    Pubkey::new([b; 32])
}

fn sk(b: u8) -> SecretKey {
    SecretKey { bytes: [b; 32] }
}

fn columns_on_accounts(n: usize) -> Columns {
    let mut cols = Columns::new();
    for _ in 0..n {
        cols.add_column(Route::Timeline);
    }
    cols
}

fn stack(cols: &Columns, col: usize) -> Vec<Route> {
    cols.router(col).routes().clone()
}

#[test]
fn pubkeys_compare_by_every_byte() {
    let mut b = [7u8; 32];
    assert!(pk(7).same_key(&Pubkey::new(b)));
    b[31] = 8;
    assert!(!pk(7).same_key(&Pubkey::new(b)));
    assert!(pk(7) != Pubkey::new(b));
    assert_eq!(pk(3), pk(3));
    assert_eq!(pk(3).bytes(), &[3u8; 32]);
}

#[test]
fn switch_action_new_keeps_fields() {
    let a = SwitchAccountAction::new(4, pk(1));
    assert_eq!(a.source_column, 4);
    assert_eq!(a.switch_to, pk(1));
}

#[test]
fn remove_response_asks_removal_without_navigation() {
    let mut cols = columns_on_accounts(2);
    cols.route_to(1, Route::accounts());
    let before0 = stack(&cols, 0);
    let before1 = stack(&cols, 1);
    let r = process_accounts_view_response(&mut cols, 1, AccountsViewResponse::RemoveAccount(pk(9)));
    assert_eq!(r, Some(AccountsAction::Remove(pk(9))));
    assert_eq!(stack(&cols, 0), before0);
    assert_eq!(stack(&cols, 1), before1);
}

#[test]
fn select_response_switches_from_its_column() {
    let mut cols = columns_on_accounts(3);
    let r = process_accounts_view_response(&mut cols, 2, AccountsViewResponse::SelectAccount(pk(5)));
    assert_eq!(
        r,
        Some(AccountsAction::Switch(SwitchAccountAction { source_column: 2, switch_to: pk(5) }))
    );
    assert_eq!(stack(&cols, 2), vec![Route::Timeline]);
}

#[test]
fn route_to_login_opens_login_screen() {
    let mut cols = columns_on_accounts(2);
    cols.route_to(0, Route::accounts());
    let r = process_accounts_view_response(&mut cols, 0, AccountsViewResponse::RouteToLogin);
    assert_eq!(r, None);
    assert_eq!(cols.top(0), Route::Accounts(AccountsRoute::AddAccount));
    assert_eq!(
        stack(&cols, 0),
        vec![Route::Timeline, Route::Accounts(AccountsRoute::Accounts), Route::add_account()]
    );
    assert_eq!(stack(&cols, 1), vec![Route::Timeline]);
}

#[test]
fn accepted_login_switches_to_given_key_from_current_column() {
    let mut accounts = Accounts::new();
    let kp = Keypair::new(pk(1), sk(2));
    let r = process_login_view_response(&mut accounts, 3, AccountLoginResponse::LoginWith(kp));
    assert_eq!(
        r.accounts_action,
        Some(AccountsAction::Switch(SwitchAccountAction { source_column: 3, switch_to: pk(1) }))
    );
    assert!(matches!(r.unk_id_action, SingleUnkIdAction::NeedsProcess(k) if k == pk(1)));
    assert_eq!(accounts.len(), 1);
    assert!(accounts.contains(&pk(1)));
}

#[test]
fn store_answer_column_is_not_used() {
    let added = AddAccountResponse { switch_to: pk(6), unk_id_action: SingleUnkIdAction::pubkey(pk(6)) };
    let r = add_account_action(5, Some(added));
    assert_eq!(
        r.accounts_action,
        Some(AccountsAction::Switch(SwitchAccountAction { source_column: 5, switch_to: pk(6) }))
    );
    assert!(matches!(r.unk_id_action, SingleUnkIdAction::NeedsProcess(k) if k == pk(6)));
    let none = add_account_action(5, None);
    assert_eq!(none.accounts_action, None);
    assert!(matches!(none.unk_id_action, SingleUnkIdAction::NoAction));
}

#[test]
fn create_new_adds_the_made_keypair() {
    let mut accounts = Accounts::new();
    let full = FullKeypair::new(pk(8), sk(9));
    let r = process_login_view_response(&mut accounts, 0, AccountLoginResponse::CreateNew(full));
    assert_eq!(
        r.accounts_action,
        Some(AccountsAction::Switch(SwitchAccountAction { source_column: 0, switch_to: pk(8) }))
    );
    assert_eq!(accounts.keypairs()[0].secret_key.unwrap().bytes, [9u8; 32]);
}

#[test]
fn duplicate_login_gives_nothing_to_do() {
    let mut accounts = Accounts::new();
    let first = process_login_view_response(&mut accounts, 0, AccountLoginResponse::LoginWith(Keypair::only_pubkey(pk(1))));
    assert!(first.accounts_action.is_some());
    let again = process_login_view_response(&mut accounts, 1, AccountLoginResponse::LoginWith(Keypair::new(pk(1), sk(4))));
    assert_eq!(again.accounts_action, None);
    assert!(matches!(again.unk_id_action, SingleUnkIdAction::NoAction));
    assert_eq!(accounts.len(), 1);
    assert!(accounts.keypairs()[0].secret_key.is_none());
}

#[test]
fn store_keeps_each_key_once_in_order() {
    let mut accounts = Accounts::new();
    assert!(accounts.add_account(Keypair::only_pubkey(pk(1))).is_some());
    assert!(accounts.add_account(Keypair::only_pubkey(pk(2))).is_some());
    assert!(accounts.add_account(Keypair::only_pubkey(pk(1))).is_none());
    let keys: Vec<Pubkey> = accounts.keypairs().iter().map(|k| k.pubkey).collect();
    assert_eq!(keys, vec![pk(1), pk(2)]);
    assert!(!accounts.contains(&pk(3)));
}

#[test]
fn processing_twice_adds_nothing_more() {
    let mut ids = UnknownIds::new();
    let mut action = add_account_action(0, Some(AddAccountResponse {
        switch_to: pk(4),
        unk_id_action: SingleUnkIdAction::pubkey(pk(4)),
    }));
    action.process_with_lookup(&mut ids, false);
    assert_eq!(ids.ids(), &vec![pk(4)]);
    action.process_with_lookup(&mut ids, false);
    assert_eq!(ids.ids(), &vec![pk(4)]);
    assert_eq!(ids.len(), 1);
}

#[test]
fn known_profile_is_not_pending() {
    let mut ids = UnknownIds::new();
    SingleUnkIdAction::pubkey(pk(4)).process_with_lookup(&mut ids, true);
    assert_eq!(ids.len(), 0);
    SingleUnkIdAction::pubkey(pk(4)).process_with_lookup(&mut ids, false);
    assert!(ids.contains(&pk(4)));
}

#[test]
fn no_action_never_changes_pending_keys() {
    let mut ids = UnknownIds::new();
    ids.note_lookup(&pk(1), false);
    let mut action = AddAccountAction::none();
    action.process_with_lookup(&mut ids, false);
    action.process_with_lookup(&mut ids, true);
    assert_eq!(ids.ids(), &vec![pk(1)]);
}

#[test]
fn pending_keys_follow_discovery_order() {
    let mut ids = UnknownIds::new();
    ids.note_lookup(&pk(3), false);
    ids.note_lookup(&pk(1), false);
    ids.note_lookup(&pk(3), false);
    ids.note_lookup(&pk(2), true);
    assert_eq!(ids.ids(), &vec![pk(3), pk(1)]);
}

#[test]
fn process_action_looks_up_in_empty_store() {
    let dir = "/tmp/notedeck_accounts_lookup_db";
    let ndb = nostrdb::Ndb::new(dir, &nostrdb::Config::new()).unwrap();
    let txn = nostrdb::Transaction::new(&ndb).unwrap();
    let mut ids = UnknownIds::new();
    let mut action = add_account_action(0, Some(AddAccountResponse {
        switch_to: pk(4),
        unk_id_action: SingleUnkIdAction::pubkey(pk(4)),
    }));
    action.process_action(&mut ids, &ndb, &txn);
    assert_eq!(ids.ids(), &vec![pk(4)]);
    action.process_action(&mut ids, &ndb, &txn);
    assert_eq!(ids.ids(), &vec![pk(4)]);
}

#[test]
fn router_keeps_its_bottom_screen() {
    let mut cols = columns_on_accounts(1);
    cols.go_back(0);
    assert_eq!(stack(&cols, 0), vec![Route::Timeline]);
    cols.route_to(0, Route::accounts());
    cols.go_back(0);
    assert_eq!(stack(&cols, 0), vec![Route::Timeline]);
}

#[test]
fn render_without_response_does_nothing() {
    let mut cols = columns_on_accounts(1);
    let mut accounts = Accounts::new();
    let mut login = AcquireKeyState::new();
    login.desired_key.push_str("npub1");
    let r = render_accounts_route(&mut cols, &mut accounts, 0, &mut login, None);
    assert_eq!(r.accounts_action, None);
    assert!(matches!(r.unk_id_action, SingleUnkIdAction::NoAction));
    assert_eq!(login.desired_key, "npub1");
    assert_eq!(stack(&cols, 0), vec![Route::Timeline]);
}

#[test]
fn render_accounts_list_response() {
    let mut cols = columns_on_accounts(1);
    cols.route_to(0, Route::accounts());
    let mut accounts = Accounts::new();
    let mut login = AcquireKeyState::default();
    let r = render_accounts_route(
        &mut cols,
        &mut accounts,
        0,
        &mut login,
        Some(AccountsRouteResponse::Accounts(AccountsViewResponse::SelectAccount(pk(2)))),
    );
    assert_eq!(
        r.accounts_action,
        Some(AccountsAction::Switch(SwitchAccountAction { source_column: 0, switch_to: pk(2) }))
    );
    assert!(matches!(r.unk_id_action, SingleUnkIdAction::NoAction));
    let r = render_accounts_route(
        &mut cols,
        &mut accounts,
        0,
        &mut login,
        Some(AccountsRouteResponse::Accounts(AccountsViewResponse::RouteToLogin)),
    );
    assert_eq!(r.accounts_action, None);
    assert_eq!(cols.top(0), Route::add_account());
}

#[test]
fn login_in_column_two_returns_to_accounts_list() {
    let mut cols = columns_on_accounts(3);
    cols.route_to(2, Route::accounts());
    cols.route_to(2, Route::add_account());
    let mut accounts = Accounts::new();
    let mut login = AcquireKeyState::new();
    login.desired_key.push_str("nsec1abc");
    login.should_create_new = true;
    let p = pk(0x50);
    let mut r = render_accounts_route(
        &mut cols,
        &mut accounts,
        2,
        &mut login,
        Some(AccountsRouteResponse::AddAccount(AccountLoginResponse::LoginWith(Keypair::new(p, sk(1))))),
    );
    assert_eq!(
        r.accounts_action,
        Some(AccountsAction::Switch(SwitchAccountAction { source_column: 2, switch_to: p }))
    );
    assert!(matches!(r.unk_id_action, SingleUnkIdAction::NeedsProcess(k) if k == p));
    assert_eq!(login.desired_key, "");
    assert!(!login.should_create_new);
    assert_eq!(cols.top(2), Route::accounts());
    assert_eq!(stack(&cols, 2), vec![Route::Timeline, Route::accounts()]);
    assert_eq!(stack(&cols, 0), vec![Route::Timeline]);
    let mut ids = UnknownIds::new();
    r.process_with_lookup(&mut ids, false);
    assert_eq!(ids.ids(), &vec![p]);
}
