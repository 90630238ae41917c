//! The routes of the service: which operation answers which method and path.

use vstd::prelude::*;

verus! {

/// The path under which every route stands.
pub const SCOPE: &'static str = "/api/todos";

/// The path, below the scope, of the routes that name one item.
pub const ITEM_PATH: &'static str = "/{id}";

/// The HTTP methods that the service answers.
#[derive(Clone, Copy, Debug, PartialEq, Eq, Structural)]
pub enum Method {
    Get,
    Post,
    Put,
    Delete,
}

/// The operations of the service.
#[derive(Clone, Copy, Debug, PartialEq, Eq, Structural)]
pub enum Operation {
    List,
    Create,
    Get,
    Update,
    Delete,
}

/// One route: a method, whether the path names an item, and the operation that answers.
#[derive(Clone, Copy, Debug, PartialEq, Eq, Structural)]
pub struct Route {
    pub method: Method,
    pub names_item: bool,
    pub operation: Operation,
}

/// The operation that answers a method on the scope itself or on one item, if any does.
pub open spec fn routed(method: Method, names_item: bool) -> Option<Operation> {
    match (method, names_item) {
        (Method::Get, false) => Some(Operation::List),
        (Method::Post, false) => Some(Operation::Create),
        (Method::Get, true) => Some(Operation::Get),
        (Method::Put, true) => Some(Operation::Update),
        (Method::Delete, true) => Some(Operation::Delete),
        _ => None,
    }
}

/// The routes of the service, in the order in which they are registered: exactly those
/// that `routed` describes, each once.
pub fn configure_routes() -> (routes: Vec<Route>)
    ensures
        routes.len() == 5,
        forall|i: int|
            0 <= i < routes.len() ==> routed(
                (#[trigger] routes[i]).method,
                routes[i].names_item,
            ) == Some(routes[i].operation),
        forall|method: Method, names_item: bool|
            routed(method, names_item) is Some ==> exists|i: int|
                0 <= i < routes.len() && (#[trigger] routes[i]).method == method
                    && routes[i].names_item == names_item,
        forall|i: int, j: int|
            0 <= i < j < routes.len() ==> !((#[trigger] routes[i]).method == (
            #[trigger] routes[j]).method && routes[i].names_item == routes[j].names_item),
{
    let mut routes: Vec<Route> = Vec::new();
    routes.push(Route { method: Method::Get, names_item: false, operation: Operation::List });
    routes.push(Route { method: Method::Post, names_item: false, operation: Operation::Create });
    routes.push(Route { method: Method::Get, names_item: true, operation: Operation::Get });
    routes.push(Route { method: Method::Put, names_item: true, operation: Operation::Update });
    routes.push(Route { method: Method::Delete, names_item: true, operation: Operation::Delete });
    proof {
        assert(routes[0].method == Method::Get && !routes[0].names_item);
        assert(routes[1].method == Method::Post && !routes[1].names_item);
        assert(routes[2].method == Method::Get && routes[2].names_item);
        assert(routes[3].method == Method::Put && routes[3].names_item);
        assert(routes[4].method == Method::Delete && routes[4].names_item);
    }
    routes
}

} // verus!
