//! The decisions of the HTTP surface: which requests there are, how large
//! a body may be, and what each request is answered with.
//!
//! The server itself, and the reading and writing of bodies, are the
//! host's.

use vstd::prelude::*;

verus! {

/// The methods that the surface knows.
#[derive(Clone, Copy, Debug, PartialEq, Eq, Structural)]
pub enum Method {
    Get,
    Post,
    Options,
}

/// The resources of the surface.
#[derive(Clone, Copy, Debug, PartialEq, Eq, Structural)]
pub enum Resource {
    /// `/config`: the configuration in force.
    Config,
    /// `/paused`: the pause flag and the pause position.
    Paused,
    /// `/state`: where the motion stands.
    State,
    /// `/`: the page of the user interface.
    Index,
}

/// One request that the surface answers.
#[derive(Clone, Copy, Debug, PartialEq, Eq, Structural)]
pub struct Route {
    pub resource: Resource,
    pub method: Method,
}

/// What goes into the body of an answer.
#[derive(Clone, Copy, Debug, PartialEq, Eq, Structural)]
pub enum Body {
    Empty,
    /// The configuration in force after the request, as JSON.
    Config,
    /// The state of the motion, as JSON.
    State,
    /// The page of the user interface.
    Page,
    /// "Request too big".
    TooBig,
    /// "Bad Request".
    BadRequest,
    /// "Motor controller not initialized".
    NotInitialized,
}

/// An answer. Every answer allows any origin; an answer to `OPTIONS` also
/// names the methods of its resource and allows any header.
#[derive(Clone, Copy, Debug, PartialEq, Eq, Structural)]
pub struct Answer {
    pub status: u16,
    pub body: Body,
}

/// What the host is to do with a request before it can be answered.
#[derive(Clone, Copy, Debug, PartialEq, Eq, Structural)]
pub enum Admission {
    /// Read a body of so many bytes and parse it.
    ReadBody(usize),
    /// There is no body to read.
    Proceed,
    /// Answer at once.
    Refuse(Answer),
}

pub const STATUS_OK: u16 = 200;

pub const STATUS_BAD_REQUEST: u16 = 400;

pub const STATUS_TOO_BIG: u16 = 413;

pub const STATUS_UNAVAILABLE: u16 = 503;

/// Most bytes that the body of a new configuration may have.
pub const CONFIG_BODY_LIMIT: usize = 1024;

/// Most bytes that the body of a pause request may have.
pub const PAUSED_BODY_LIMIT: usize = 4096;

impl Route {
    /// Whether the surface answers this request.
    pub open spec fn served(self) -> bool {
        match (self.resource, self.method) {
            (Resource::Config, _) => true,
            (Resource::Paused, Method::Post) | (Resource::Paused, Method::Options) => true,
            (Resource::State, Method::Get) | (Resource::State, Method::Options) => true,
            (Resource::Index, Method::Get) => true,
            _ => false,
        }
    }

    /// Most bytes that the body of this request may have; none for a
    /// request that brings no body.
    pub open spec fn body_limit(self) -> Option<usize> {
        match (self.resource, self.method) {
            (Resource::Config, Method::Post) => Some(CONFIG_BODY_LIMIT),
            (Resource::Paused, Method::Post) => Some(PAUSED_BODY_LIMIT),
            _ => None,
        }
    }

    /// Whether the answer needs the motion controller.
    pub open spec fn needs_controller(self) -> bool {
        self.method != Method::Options && self.resource != Resource::Index
    }

    /// What a request is met with when its headers are in. A body that is
    /// announced longer than its limit is refused unread; a length that is
    /// not announced counts as zero.
    pub open spec fn admission(self, content_len: Option<u64>) -> Admission {
        let len = match content_len {
            Some(n) => n,
            None => 0,
        };
        match self.body_limit() {
            Some(limit) => if len > limit {
                Admission::Refuse(Answer { status: STATUS_TOO_BIG, body: Body::TooBig })
            } else {
                Admission::ReadBody(len as usize)
            },
            None => Admission::Proceed,
        }
    }

    /// The answer to a request that was not refused. `parsed` says whether
    /// its body, if it has one, could be parsed, `ready` whether there is a
    /// motion controller. A body that cannot be parsed is refused before the
    /// controller is looked for.
    pub open spec fn answer(self, parsed: bool, ready: bool) -> Answer {
        if self.body_limit() is Some && !parsed {
            Answer { status: STATUS_BAD_REQUEST, body: Body::BadRequest }
        } else if self.needs_controller() && !ready {
            Answer { status: STATUS_UNAVAILABLE, body: Body::NotInitialized }
        } else {
            Answer {
                status: STATUS_OK,
                body: match (self.method, self.resource) {
                    (Method::Options, _) => Body::Empty,
                    (_, Resource::Index) => Body::Page,
                    (_, Resource::State) => Body::State,
                    _ => Body::Config,
                },
            }
        }
    }
}


impl Route {
    /// The path of the resource.
    pub fn path(&self) -> (r: &'static str)
        ensures
            r@ == match self.resource {
                Resource::Config => "/config"@,
                Resource::Paused => "/paused"@,
                Resource::State => "/state"@,
                Resource::Index => "/"@,
            },
    {
        match self.resource {
            Resource::Config => "/config",
            Resource::Paused => "/paused",
            Resource::State => "/state",
            Resource::Index => "/",
        }
    }

    /// The methods that an answer to `OPTIONS` names for the resource.
    pub fn allowed_methods(&self) -> (r: &'static str)
        ensures
            r@ == match self.resource {
                Resource::Config => "GET, POST, OPTIONS"@,
                Resource::Paused => "POST, OPTIONS"@,
                _ => "GET, OPTIONS"@,
            },
    {
        match self.resource {
            Resource::Config => "GET, POST, OPTIONS",
            Resource::Paused => "POST, OPTIONS",
            _ => "GET, OPTIONS",
        }
    }

    /// What the request is met with when its headers are in.
    pub fn receive(&self, content_len: Option<u64>) -> (r: Admission)
        ensures
            r == self.admission(content_len),
    {
        let len: u64 = match content_len {
            Some(n) => n,
            None => 0,
        };
        let limit: usize = match (self.resource, self.method) {
            (Resource::Config, Method::Post) => CONFIG_BODY_LIMIT,
            (Resource::Paused, Method::Post) => PAUSED_BODY_LIMIT,
            _ => {
                return Admission::Proceed;
            },
        };
        if len > limit as u64 {
            Admission::Refuse(Answer { status: STATUS_TOO_BIG, body: Body::TooBig })
        } else {
            Admission::ReadBody(len as usize)
        }
    }

    /// The answer to a request that was not refused.
    pub fn respond(&self, parsed: bool, ready: bool) -> (r: Answer)
        ensures
            r == self.answer(parsed, ready),
    {
        let has_body = match (self.resource, self.method) {
            (Resource::Config, Method::Post) | (Resource::Paused, Method::Post) => true,
            _ => false,
        };
        let needs_controller = match (self.method, self.resource) {
            (Method::Options, _) | (_, Resource::Index) => false,
            _ => true,
        };
        if has_body && !parsed {
            Answer { status: STATUS_BAD_REQUEST, body: Body::BadRequest }
        } else if needs_controller && !ready {
            Answer { status: STATUS_UNAVAILABLE, body: Body::NotInitialized }
        } else {
            let body = match (self.method, self.resource) {
                (Method::Options, _) => Body::Empty,
                (_, Resource::Index) => Body::Page,
                (_, Resource::State) => Body::State,
                _ => Body::Config,
            };
            Answer { status: STATUS_OK, body }
        }
    }
}

impl Answer {
    /// The reason phrase that goes with the status, where one is sent.
    pub fn reason(&self) -> (r: Option<&'static str>)
        ensures
            match r {
                Some(text) => text@ == if self.status == STATUS_OK {
                    "OK"@
                } else {
                    "Service Unavailable"@
                } && (self.status == STATUS_OK || self.status == STATUS_UNAVAILABLE),
                None => self.status != STATUS_OK && self.status != STATUS_UNAVAILABLE,
            },
    {
        if self.status == STATUS_OK {
            Some("OK")
        } else if self.status == STATUS_UNAVAILABLE {
            Some("Service Unavailable")
        } else {
            None
        }
    }
}

impl Body {
    /// The text of a body that is a fixed message; none for a body that the
    /// host makes up from the controller or the page.
    pub fn text(&self) -> (r: Option<&'static str>)
        ensures
            match self {
                Body::Empty => r matches Some(t) && t@ == ""@,
                Body::TooBig => r matches Some(t) && t@ == "Request too big"@,
                Body::BadRequest => r matches Some(t) && t@ == "Bad Request"@,
                Body::NotInitialized => r matches Some(t) && t@
                    == "Motor controller not initialized"@,
                _ => r is None,
            },
    {
        match self {
            Body::Empty => Some(""),
            Body::TooBig => Some("Request too big"),
            Body::BadRequest => Some("Bad Request"),
            Body::NotInitialized => Some("Motor controller not initialized"),
            _ => None,
        }
    }
}

/// The requests that the surface answers, in the order in which the host
/// registers a handler for each.
pub open spec fn routes() -> Seq<Route> {
    seq![
        Route { resource: Resource::Config, method: Method::Options },
        Route { resource: Resource::Paused, method: Method::Options },
        Route { resource: Resource::State, method: Method::Options },
        Route { resource: Resource::Config, method: Method::Get },
        Route { resource: Resource::Config, method: Method::Post },
        Route { resource: Resource::Paused, method: Method::Post },
        Route { resource: Resource::State, method: Method::Get },
        Route { resource: Resource::Index, method: Method::Get },
    ]
}

/// The requests that the host is to register a handler for, in order.
pub fn register_handlers() -> (r: [Route; 8])
    ensures
        r@ == routes(),
{
    let r = [
        Route { resource: Resource::Config, method: Method::Options },
        Route { resource: Resource::Paused, method: Method::Options },
        Route { resource: Resource::State, method: Method::Options },
        Route { resource: Resource::Config, method: Method::Get },
        Route { resource: Resource::Config, method: Method::Post },
        Route { resource: Resource::Paused, method: Method::Post },
        Route { resource: Resource::State, method: Method::Get },
        Route { resource: Resource::Index, method: Method::Get },
    ];
    assert(r@ =~= routes());
    r
}

/// A handler is registered for every request that the surface answers, for
/// no other, and for none twice.
pub proof fn law_routes(route: Route)
    ensures
        route.served() <==> routes().contains(route),
        forall|i: int, j: int| 0 <= i < j < routes().len() ==> routes()[i] != routes()[j],
{
    let r = routes();
    assert(r[0].served() && r[1].served() && r[2].served() && r[3].served());
    assert(r[4].served() && r[5].served() && r[6].served() && r[7].served());
    if route.served() {
        assert(route == r[0] || route == r[1] || route == r[2] || route == r[3] || route == r[4]
            || route == r[5] || route == r[6] || route == r[7]);
    }
}

/// No body is read that is longer than its limit: a request is told to
/// read exactly the announced length, and only where that is within the
/// limit of its resource; a longer one is answered with "too big".
pub proof fn law_body_bounded(route: Route, content_len: Option<u64>)
    ensures
        route.admission(content_len) matches Admission::ReadBody(n) ==> route.body_limit()
            matches Some(limit) && n <= limit && n == match content_len {
            Some(announced) => announced,
            None => 0,
        },
        route.body_limit() matches Some(limit) ==> (content_len matches Some(n) && n > limit
            <==> route.admission(content_len) == Admission::Refuse(
            Answer { status: STATUS_TOO_BIG, body: Body::TooBig },
        )),
        route.body_limit() is None <==> route.admission(content_len) == Admission::Proceed,
{
}

/// An answer says "OK" only where nothing stood in the way: the body, if
/// there was one, could be parsed, and the controller, if it was needed,
/// was there.
pub proof fn law_answer_ok(route: Route, parsed: bool, ready: bool)
    ensures
        route.answer(parsed, ready).status == STATUS_OK <==> (route.body_limit() is None || parsed)
            && (!route.needs_controller() || ready),
        route.answer(parsed, ready).status == STATUS_BAD_REQUEST <==> route.body_limit() is Some
            && !parsed,
{
}

} // verus!
