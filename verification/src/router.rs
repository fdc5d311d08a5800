//! The route table: which endpoint a request is for.
//!
//! A path is cut into segments at every `/`, after one leading `/`.  The
//! bare root is answered with a redirect to the entry page whatever the
//! method; the endpoints under `api` answer `GET` only; everything else
//! falls through to the static assets.  A route matches on the segments
//! it names and does not look at what follows them, and a parameter
//! matches any segment that is not empty.

use vstd::prelude::*;
use vstd::string::*;

verus! {

/// Where a request goes.
#[derive(Debug)]
pub enum Route {
    /// `/`: redirect to the entry page.
    Index,
    /// `/api/namespaces`.
    Namespaces,
    /// `/api/pods/{namespace}`.
    Pods(String),
    /// `/api/services/{namespace}`.
    Services(String),
    /// `/api/deployments/{namespace}`.
    Deployments(String),
    /// `/api/configmaps/{namespace}`.
    ConfigMaps(String),
    /// `/api/networkpolicies/{namespace}`.
    NetworkPolicies(String),
    /// `/api/pod/{namespace}/{name}`.
    PodDetails(String, String),
    /// `/api/pod/{namespace}/{name}/logs`.
    PodLogs(String, String),
    /// Anything else: a file from the asset directory, if there is one.
    Asset,
}

pub enum RouteView {
    Index,
    Namespaces,
    Pods(Seq<char>),
    Services(Seq<char>),
    Deployments(Seq<char>),
    ConfigMaps(Seq<char>),
    NetworkPolicies(Seq<char>),
    PodDetails(Seq<char>, Seq<char>),
    PodLogs(Seq<char>, Seq<char>),
    Asset,
}

impl View for Route {
    type V = RouteView;

    open spec fn view(&self) -> RouteView {
        match *self {
            Route::Index => RouteView::Index,
            Route::Namespaces => RouteView::Namespaces,
            Route::Pods(ns) => RouteView::Pods(ns@),
            Route::Services(ns) => RouteView::Services(ns@),
            Route::Deployments(ns) => RouteView::Deployments(ns@),
            Route::ConfigMaps(ns) => RouteView::ConfigMaps(ns@),
            Route::NetworkPolicies(ns) => RouteView::NetworkPolicies(ns@),
            Route::PodDetails(ns, name) => RouteView::PodDetails(ns@, name@),
            Route::PodLogs(ns, name) => RouteView::PodLogs(ns@, name@),
            Route::Asset => RouteView::Asset,
        }
    }
}

/// Where the segment that starts at `from` ends: at the next `/`, or at
/// the end of the path.
pub open spec fn segment_end(path: Seq<char>, from: int) -> int
    decreases path.len() - from,
{
    if from >= path.len() || path[from] == '/' {
        from
    } else {
        segment_end(path, from + 1)
    }
}

/// The segment that starts at `from`.
pub open spec fn segment(path: Seq<char>, from: int) -> Seq<char> {
    path.subrange(from, segment_end(path, from))
}

/// Where the segment after the one at `from` starts.
pub open spec fn next_start(path: Seq<char>, from: int) -> int {
    let end = segment_end(path, from);
    if end < path.len() {
        end + 1
    } else {
        end
    }
}

/// Where the first segment starts: behind the leading `/`, if there is
/// one.
pub open spec fn first_start(path: Seq<char>) -> int {
    if path.len() > 0 && path[0] == '/' {
        1
    } else {
        0
    }
}

/// The route of a request for `path` with `method`.
pub open spec fn route_of(method: Seq<char>, path: Seq<char>) -> RouteView {
    let at0 = first_start(path);
    let at1 = next_start(path, at0);
    let at2 = next_start(path, at1);
    let at3 = next_start(path, at2);
    let at4 = next_start(path, at3);
    let kind = segment(path, at1);
    let first = segment(path, at2);
    let second = segment(path, at3);
    if at0 >= path.len() {
        RouteView::Index
    } else if method != "GET"@ || segment(path, at0) != "api"@ {
        RouteView::Asset
    } else if kind == "namespaces"@ {
        RouteView::Namespaces
    } else if first.len() == 0 {
        RouteView::Asset
    } else if kind == "pods"@ {
        RouteView::Pods(first)
    } else if kind == "services"@ {
        RouteView::Services(first)
    } else if kind == "deployments"@ {
        RouteView::Deployments(first)
    } else if kind == "configmaps"@ {
        RouteView::ConfigMaps(first)
    } else if kind == "networkpolicies"@ {
        RouteView::NetworkPolicies(first)
    } else if kind == "pod"@ && second.len() > 0 {
        if segment(path, at4) == "logs"@ {
            RouteView::PodLogs(first, second)
        } else {
            RouteView::PodDetails(first, second)
        }
    } else {
        RouteView::Asset
    }
}

/// Finds the end of the segment that starts at `from`.
fn scan(path: &str, len: usize, from: usize) -> (end: usize)
    requires
        len == path@.len(),
        from <= len,
    ensures
        end == segment_end(path@, from as int),
        from <= end <= len,
{
    let mut end: usize = from;
    while end < len && path.get_char(end) != '/'
        invariant
            from <= end <= len,
            len == path@.len(),
            segment_end(path@, from as int) == segment_end(path@, end as int),
        decreases len - end,
    {
        end += 1;
    }
    end
}

/// Steps over the `/` that ends a segment, if one does.
fn step(len: usize, end: usize) -> (next: usize)
    requires
        end <= len,
    ensures
        next == if end < len {
            end + 1
        } else {
            end as int
        },
        next <= len,
{
    if end < len {
        end + 1
    } else {
        end
    }
}

/// Whether `a` and `b` read the same.
fn same_text(a: &str, b: &str) -> (out: bool)
    ensures
        out == (a@ == b@),
{
    a.to_owned() == b.to_owned()
}

/// The route of a request for `path` with `method`.
pub fn route(method: &str, path: &str) -> (out: Route)
    ensures
        out@ == route_of(method@, path@),
{
    let len = path.unicode_len();
    let at0: usize = if len > 0 && path.get_char(0) == '/' {
        1
    } else {
        0
    };
    if at0 >= len {
        return Route::Index;
    }
    let end0 = scan(path, len, at0);
    let at1 = step(len, end0);
    let end1 = scan(path, len, at1);
    let at2 = step(len, end1);
    let end2 = scan(path, len, at2);
    let at3 = step(len, end2);
    let end3 = scan(path, len, at3);
    let at4 = step(len, end3);
    let end4 = scan(path, len, at4);
    if !same_text(method, "GET") || !same_text(path.substring_char(at0, end0), "api") {
        return Route::Asset;
    }
    let kind = path.substring_char(at1, end1);
    if same_text(kind, "namespaces") {
        return Route::Namespaces;
    }
    if end2 == at2 {
        return Route::Asset;
    }
    let first = path.substring_char(at2, end2).to_owned();
    if same_text(kind, "pods") {
        Route::Pods(first)
    } else if same_text(kind, "services") {
        Route::Services(first)
    } else if same_text(kind, "deployments") {
        Route::Deployments(first)
    } else if same_text(kind, "configmaps") {
        Route::ConfigMaps(first)
    } else if same_text(kind, "networkpolicies") {
        Route::NetworkPolicies(first)
    } else if same_text(kind, "pod") && end3 > at3 {
        let second = path.substring_char(at3, end3).to_owned();
        if same_text(path.substring_char(at4, end4), "logs") {
            Route::PodLogs(first, second)
        } else {
            Route::PodDetails(first, second)
        }
    } else {
        Route::Asset
    }
}

/// Where the bare root is redirected to.
pub fn index_location() -> (out: String)
    ensures
        out@ == "/index.html"@,
{
    "/index.html".to_owned()
}

} // verus!
