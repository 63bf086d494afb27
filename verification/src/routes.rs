//! The endpoints, and which of them stand behind the token guard.

use vstd::prelude::*;

verus! {

/// The HTTP method of an endpoint.
#[derive(Debug, Clone, Copy, PartialEq, Eq, Structural)]
pub enum Method {
    Get,
    Post,
    Put,
    Delete,
}

/// What an endpoint does.
#[derive(Debug, Clone, Copy, PartialEq, Eq, Structural)]
pub enum Handler {
    CreateUser,
    FindUser,
    ListUsers,
    UpdateUser,
    DeleteUser,
    CreateAccess,
    FindAccessesByUser,
    DeleteAccess,
    UpdateAccess,
    Unlock,
    Alive,
    Login,
}

/// One endpoint.
#[derive(Debug, Clone, PartialEq, Eq)]
pub struct Route {
    pub method: Method,
    pub path: String,
    pub handler: Handler,
}

impl Handler {
    /// The method an endpoint answers to.
    pub open spec fn method(self) -> Method {
        match self {
            Handler::CreateUser => Method::Post,
            Handler::FindUser => Method::Get,
            Handler::ListUsers => Method::Get,
            Handler::UpdateUser => Method::Put,
            Handler::DeleteUser => Method::Delete,
            Handler::CreateAccess => Method::Post,
            Handler::FindAccessesByUser => Method::Get,
            Handler::DeleteAccess => Method::Delete,
            Handler::UpdateAccess => Method::Put,
            Handler::Unlock => Method::Post,
            Handler::Alive => Method::Get,
            Handler::Login => Method::Post,
        }
    }

    /// The path an endpoint answers under.
    pub open spec fn path(self) -> Seq<char> {
        match self {
            Handler::CreateUser => "/user"@,
            Handler::FindUser => "/user/:id"@,
            Handler::ListUsers => "/user"@,
            Handler::UpdateUser => "/user/:id"@,
            Handler::DeleteUser => "/user/:id"@,
            Handler::CreateAccess => "/user/:user_id/user-access"@,
            Handler::FindAccessesByUser => "/user/:user_id/user-access"@,
            Handler::DeleteAccess => "/user/:user_id/user-access/:day_id"@,
            Handler::UpdateAccess => "/user/:user_id/user-access/:day_id"@,
            Handler::Unlock => "/validate-password"@,
            Handler::Alive => "/"@,
            Handler::Login => "/login"@,
        }
    }

    /// Whether the endpoint stands behind the token guard: every endpoint but
    /// the liveness check and the login.
    pub open spec fn guarded(self) -> bool {
        !(self is Alive || self is Login)
    }

    /// Whether the endpoint stands behind the token guard.
    pub fn is_guarded(&self) -> (r: bool)
        ensures
            r == self.guarded(),
    {
        match self {
            Handler::Alive => false,
            Handler::Login => false,
            _ => true,
        }
    }

    /// The endpoint's route.
    pub fn route(self) -> (r: Route)
        ensures
            r.handler == self,
            r.method == self.method(),
            r.path@ == self.path(),
    {
        let (method, path) = match self {
            Handler::CreateUser => (Method::Post, "/user"),
            Handler::FindUser => (Method::Get, "/user/:id"),
            Handler::ListUsers => (Method::Get, "/user"),
            Handler::UpdateUser => (Method::Put, "/user/:id"),
            Handler::DeleteUser => (Method::Delete, "/user/:id"),
            Handler::CreateAccess => (Method::Post, "/user/:user_id/user-access"),
            Handler::FindAccessesByUser => (Method::Get, "/user/:user_id/user-access"),
            Handler::DeleteAccess => (Method::Delete, "/user/:user_id/user-access/:day_id"),
            Handler::UpdateAccess => (Method::Put, "/user/:user_id/user-access/:day_id"),
            Handler::Unlock => (Method::Post, "/validate-password"),
            Handler::Alive => (Method::Get, "/"),
            Handler::Login => (Method::Post, "/login"),
        };
        Route { method, path: path.to_owned(), handler: self }
    }
}

/// Whether `routes` are the routes of `handlers`, in that order.
pub open spec fn routes_of(routes: Seq<Route>, handlers: Seq<Handler>) -> bool {
    &&& routes.len() == handlers.len()
    &&& forall|i: int|
        0 <= i < routes.len() ==> {
            &&& (#[trigger] routes[i]).handler == handlers[i]
            &&& routes[i].method == handlers[i].method()
            &&& routes[i].path@ == handlers[i].path()
        }
}

/// The endpoints behind the token guard.
pub open spec fn closed_handlers() -> Seq<Handler> {
    seq![
        Handler::CreateUser,
        Handler::FindUser,
        Handler::ListUsers,
        Handler::UpdateUser,
        Handler::DeleteUser,
        Handler::CreateAccess,
        Handler::FindAccessesByUser,
        Handler::DeleteAccess,
        Handler::UpdateAccess,
        Handler::Unlock,
    ]
}

/// The endpoints open to everyone.
pub open spec fn open_handlers() -> Seq<Handler> {
    seq![Handler::Alive, Handler::Login]
}

/// The routes behind the token guard: user and access-window management, and
/// the unlock.
pub fn closed_routes() -> (r: Vec<Route>)
    ensures
        routes_of(r@, closed_handlers()),
        forall|i: int| 0 <= i < r@.len() ==> (#[trigger] r@[i]).handler.guarded(),
{
    let mut routes: Vec<Route> = Vec::new();
    routes.push(Handler::CreateUser.route());
    routes.push(Handler::FindUser.route());
    routes.push(Handler::ListUsers.route());
    routes.push(Handler::UpdateUser.route());
    routes.push(Handler::DeleteUser.route());
    routes.push(Handler::CreateAccess.route());
    routes.push(Handler::FindAccessesByUser.route());
    routes.push(Handler::DeleteAccess.route());
    routes.push(Handler::UpdateAccess.route());
    routes.push(Handler::Unlock.route());
    routes
}

/// The routes open to everyone: the liveness check and the login.
pub fn open_routes() -> (r: Vec<Route>)
    ensures
        routes_of(r@, open_handlers()),
        forall|i: int| 0 <= i < r@.len() ==> !(#[trigger] r@[i]).handler.guarded(),
{
    let mut routes: Vec<Route> = Vec::new();
    routes.push(Handler::Alive.route());
    routes.push(Handler::Login.route());
    routes
}

/// Every endpoint is routed once: behind the guard if it is guarded, in the
/// open if it is not.
pub proof fn lemma_every_endpoint_routed(h: Handler)
    ensures
        h.guarded() <==> closed_handlers().contains(h),
        !h.guarded() <==> open_handlers().contains(h),
{
    let closed = closed_handlers();
    let open = open_handlers();
    match h {
        Handler::CreateUser => assert(closed[0] == h),
        Handler::FindUser => assert(closed[1] == h),
        Handler::ListUsers => assert(closed[2] == h),
        Handler::UpdateUser => assert(closed[3] == h),
        Handler::DeleteUser => assert(closed[4] == h),
        Handler::CreateAccess => assert(closed[5] == h),
        Handler::FindAccessesByUser => assert(closed[6] == h),
        Handler::DeleteAccess => assert(closed[7] == h),
        Handler::UpdateAccess => assert(closed[8] == h),
        Handler::Unlock => assert(closed[9] == h),
        Handler::Alive => assert(open[0] == h),
        Handler::Login => assert(open[1] == h),
    }
}

} // verus!
