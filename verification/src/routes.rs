//! The routing table as data: which method and path reach which handler.

use vstd::prelude::*;

verus! {

/// The HTTP methods that the service answers.
#[derive(Clone, Copy, Debug, PartialEq, Eq, Structural)]
pub enum Method {
    Get,
    Post,
    Patch,
    Delete,
}

/// The six operations of the service.
#[derive(Clone, Copy, Debug, PartialEq, Eq, Structural)]
pub enum Handler {
    HealthChecker,
    FeedbackList,
    CreateFeedback,
    GetFeedback,
    EditFeedback,
    DeleteFeedback,
}

/// One route: a method, a path below the prefix of its scope, and the
/// handler that serves it. `{id}` in a path stands for an identifier.
#[derive(Debug)]
pub struct Route {
    pub method: Method,
    pub path: &'static str,
    pub handler: Handler,
}

pub struct RouteView {
    pub method: Method,
    pub path: Seq<char>,
    pub handler: Handler,
}

impl View for Route {
    type V = RouteView;

    open spec fn view(&self) -> RouteView {
        RouteView { method: self.method, path: self.path@, handler: self.handler }
    }
}

/// Routes that share a path prefix.
#[derive(Debug)]
pub struct Scope {
    pub prefix: &'static str,
    pub routes: Vec<Route>,
}

pub struct ScopeView {
    pub prefix: Seq<char>,
    pub routes: Seq<RouteView>,
}

impl View for Scope {
    type V = ScopeView;

    open spec fn view(&self) -> ScopeView {
        ScopeView {
            prefix: self.prefix@,
            routes: self.routes@.map_values(|route: Route| route@),
        }
    }
}

/// The scopes that a server mounts, in the order they were registered.
#[derive(Debug)]
pub struct ServiceConfig {
    pub scopes: Vec<Scope>,
}

impl View for ServiceConfig {
    type V = Seq<ScopeView>;

    open spec fn view(&self) -> Seq<ScopeView> {
        self.scopes@.map_values(|scope: Scope| scope@)
    }
}

impl ServiceConfig {
    /// A configuration with nothing mounted.
    pub fn new() -> (conf: ServiceConfig)
        ensures
            conf@ == Seq::<ScopeView>::empty(),
    {
        let conf = ServiceConfig { scopes: Vec::new() };
        assert(conf@ =~= Seq::<ScopeView>::empty());
        conf
    }
}

/// The scope of the service: everything under `/api`. The listing is at
/// `/feedbacks`, creation at `/feedbacks/` with the slash, and lookup, update
/// and deletion at `/feedbacks/{id}`.
pub open spec fn api_scope() -> ScopeView {
    ScopeView {
        prefix: "/api"@,
        routes: seq![
            RouteView {
                method: Method::Get,
                path: "/healthchecker"@,
                handler: Handler::HealthChecker,
            },
            RouteView { method: Method::Get, path: "/feedbacks"@, handler: Handler::FeedbackList },
            RouteView {
                method: Method::Post,
                path: "/feedbacks/"@,
                handler: Handler::CreateFeedback,
            },
            RouteView {
                method: Method::Get,
                path: "/feedbacks/{id}"@,
                handler: Handler::GetFeedback,
            },
            RouteView {
                method: Method::Patch,
                path: "/feedbacks/{id}"@,
                handler: Handler::EditFeedback,
            },
            RouteView {
                method: Method::Delete,
                path: "/feedbacks/{id}"@,
                handler: Handler::DeleteFeedback,
            },
        ],
    }
}

} // verus!
