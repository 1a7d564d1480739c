//! The table of routes: which handler answers which method and path.

use vstd::prelude::*;

verus! {

/// The HTTP methods that the service answers.
#[derive(Clone, Copy, Debug, PartialEq, Eq, Structural)]
pub enum Method {
    Get,
    Post,
    Patch,
    Delete,
}

/// The handlers of the service.
#[derive(Clone, Copy, Debug, PartialEq, Eq, Structural)]
pub enum Handler {
    HealthChecker,
    CreateTask,
    GetAllTasks,
    GetTaskById,
    DeleteTaskById,
    UpdateTaskById,
}

/// One route. In `path`, `{id}` stands for a task's identifier.
#[derive(Debug)]
pub struct Route {
    pub method: Method,
    pub path: String,
    pub handler: Handler,
}

/// Routes under a common prefix.
#[derive(Debug)]
pub struct Scope {
    pub prefix: String,
    pub routes: Vec<Route>,
}

/// What a server is to serve: scopes in the order in which they were added.
#[derive(Debug)]
pub struct ServiceConfig {
    pub scopes: Vec<Scope>,
}

/// A route, as mathematical values.
pub struct RouteView {
    pub method: Method,
    pub path: Seq<char>,
    pub handler: Handler,
}

/// A scope, as mathematical values.
pub struct ScopeView {
    pub prefix: Seq<char>,
    pub routes: Seq<RouteView>,
}

impl View for Route {
    type V = RouteView;

    open spec fn view(&self) -> RouteView {
        RouteView { method: self.method, path: self.path@, handler: self.handler }
    }
}

impl View for Scope {
    type V = ScopeView;

    open spec fn view(&self) -> ScopeView {
        ScopeView { prefix: self.prefix@, routes: self.routes@.map_values(|r: Route| r@) }
    }
}

impl View for ServiceConfig {
    type V = Seq<ScopeView>;

    open spec fn view(&self) -> Seq<ScopeView> {
        self.scopes@.map_values(|s: Scope| s@)
    }
}

impl Route {
    /// A route for `method` and `path` to `handler`.
    pub fn new(method: Method, path: &str, handler: Handler) -> (route: Route)
        ensures
            route@ == (RouteView { method, path: path@, handler }),
    {
        Route { method, path: path.to_owned(), handler }
    }
}

impl ServiceConfig {
    /// A configuration that serves nothing yet.
    pub fn new() -> (conf: ServiceConfig)
        ensures
            conf@ == Seq::<ScopeView>::empty(),
    {
        let conf = ServiceConfig { scopes: Vec::new() };
        proof {
            assert(conf@ =~= Seq::<ScopeView>::empty());
        }
        conf
    }

    /// Adds a scope after those that are there.
    pub fn service(&mut self, scope: Scope)
        ensures
            final(self)@ == old(self)@.push(scope@),
    {
        self.scopes.push(scope);
        proof {
            assert(self@ =~= old(self)@.push(scope@));
        }
    }
}

} // verus!
