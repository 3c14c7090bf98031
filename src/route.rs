//! Screens, and the navigation stack that each column keeps of them.

use vstd::prelude::*;

verus! {

/// The two account screens.
#[derive(Debug, Clone, Copy, PartialEq, Eq, Structural)]
pub enum AccountsRoute {
    /// The list of accounts, to pick or remove one.
    Accounts,
    /// The login screen, to add an account.
    AddAccount,
}

/// A screen shown in a column.
#[derive(Debug, Clone, Copy, PartialEq, Eq, Structural)]
pub enum Route {
    /// The column's feed.
    Timeline,
    Accounts(AccountsRoute),
}

impl Route {
    pub fn accounts() -> (r: Route)
        ensures
            r == Route::Accounts(AccountsRoute::Accounts),
    {
        Route::Accounts(AccountsRoute::Accounts)
    }

    pub fn add_account() -> (r: Route)
        ensures
            r == Route::Accounts(AccountsRoute::AddAccount),
    {
        Route::Accounts(AccountsRoute::AddAccount)
    }
}

/// The navigation stack of a column: the screen on top is the one shown.
/// The bottom screen is never taken away.
#[derive(Debug)]
pub struct Router {
    routes: Vec<Route>,
}

impl View for Router {
    type V = Seq<Route>;

    closed spec fn view(&self) -> Seq<Route> {
        self.routes@
    }
}

impl Router {
    pub open spec fn wf(&self) -> bool {
        self@.len() >= 1
    }

    /// A stack that holds `root` alone.
    pub fn new(root: Route) -> (r: Router)
        ensures
            r.wf(),
            r@ == seq![root],
    {
        let mut routes: Vec<Route> = Vec::new();
        routes.push(root);
        Router { routes }
    }

    /// The screen shown.
    pub fn top(&self) -> (r: Route)
        requires
            self.wf(),
        ensures
            r == self@.last(),
    {
        self.routes[self.routes.len() - 1]
    }

    pub fn len(&self) -> (r: usize)
        ensures
            r == self@.len(),
    {
        self.routes.len()
    }

    /// The screens from the bottom of the stack to its top.
    pub fn routes(&self) -> (r: &Vec<Route>)
        ensures
            r@ == self@,
    {
        &self.routes
    }

    /// Shows `route` on top of the others.
    pub fn route_to(&mut self, route: Route)
        requires
            old(self).wf(),
        ensures
            final(self).wf(),
            final(self)@ == old(self)@.push(route),
    {
        self.routes.push(route);
    }

    /// Returns to the screen under the top one, if there is one.
    pub fn go_back(&mut self)
        requires
            old(self).wf(),
        ensures
            final(self).wf(),
            final(self)@ == (if old(self)@.len() > 1 {
                old(self)@.drop_last()
            } else {
                old(self)@
            }),
    {
        if self.routes.len() > 1 {
            self.routes.pop();
        }
    }
}

/// One column of the deck, with its own navigation.
#[derive(Debug)]
pub struct Column {
    pub router: Router,
}

impl Column {
    pub fn new(root: Route) -> (r: Column)
        ensures
            r.router.wf(),
            r.router@ == seq![root],
    {
        Column { router: Router::new(root) }
    }
}

/// The columns shown side by side.
#[derive(Debug)]
pub struct Columns {
    columns: Vec<Column>,
}

impl View for Columns {
    type V = Seq<Seq<Route>>;

    closed spec fn view(&self) -> Seq<Seq<Route>> {
        self.columns@.map_values(|c: Column| c.router@)
    }
}

impl Columns {
    pub closed spec fn wf(&self) -> bool {
        forall|i: int| 0 <= i < self.columns@.len() ==> #[trigger] self.columns@[i].router.wf()
    }

    pub fn new() -> (r: Columns)
        ensures
            r.wf(),
            r@ == Seq::<Seq<Route>>::empty(),
    {
        Columns { columns: Vec::new() }
    }

    pub fn len(&self) -> (r: usize)
        ensures
            r == self@.len(),
    {
        self.columns.len()
    }

    /// Adds a column whose navigation starts at `root`.
    pub fn add_column(&mut self, root: Route)
        requires
            old(self).wf(),
        ensures
            final(self).wf(),
            final(self)@ == old(self)@.push(seq![root]),
    {
        self.columns.push(Column::new(root));
        assert(self@ =~= old(self)@.push(seq![root]));
    }

    /// The screen shown in column `col`.
    pub fn top(&self, col: usize) -> (r: Route)
        requires
            self.wf(),
            col < self@.len(),
        ensures
            self@[col as int].len() >= 1,
            r == self@[col as int].last(),
    {
        self.columns[col].router.top()
    }

    /// The navigation stack of column `col`.
    pub fn router(&self, col: usize) -> (r: &Router)
        requires
            col < self@.len(),
        ensures
            r@ == self@[col as int],
    {
        &self.columns[col].router
    }

    /// Shows `route` on top in column `col`.
    pub fn route_to(&mut self, col: usize, route: Route)
        requires
            old(self).wf(),
            col < old(self)@.len(),
        ensures
            final(self).wf(),
            final(self)@ == old(self)@.update(col as int, old(self)@[col as int].push(route)),
    {
        self.columns[col].router.route_to(route);
        assert(self@ =~= old(self)@.update(col as int, old(self)@[col as int].push(route)));
    }

    /// Returns to the previous screen in column `col`, if it has one.
    pub fn go_back(&mut self, col: usize)
        requires
            old(self).wf(),
            col < old(self)@.len(),
        ensures
            final(self).wf(),
            final(self)@ == old(self)@.update(col as int, (if old(self)@[col as int].len() > 1 {
                old(self)@[col as int].drop_last()
            } else {
                old(self)@[col as int]
            })),
    {
        self.columns[col].router.go_back();
        assert(self@ =~= old(self)@.update(col as int, (if old(self)@[col as int].len() > 1 {
            old(self)@[col as int].drop_last()
        } else {
            old(self)@[col as int]
        })));
    }
}

} // verus!
