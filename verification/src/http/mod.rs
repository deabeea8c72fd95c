//! The HTTP API: which request goes to which handler.
pub mod filter;
pub mod handler;

use crate::text::text_eq;
use vstd::prelude::*;

verus! {

/// The request methods the API tells apart.
#[derive(Clone, Copy, Debug, PartialEq, Eq, Structural)]
pub enum HttpMethod {
    Get,
    Post,
    Put,
    Other,
}

/// The handler a request is given to.
#[derive(Clone, Copy, Debug, PartialEq, Eq, Structural)]
pub enum Route {
    /// `POST /backup`: start a backup run.
    CreateBackup,
    /// `GET /list`: list the stored backups.
    ListBackups,
    /// `PUT /filter`: change the log filter.
    Filter,
    /// `GET /serverInfo`: describe the server.
    ServerInfo,
    /// Any other request: answered with 404.
    NotFound,
}

/// The handler of a request with `method` on `path`.
pub open spec fn route_of(method: HttpMethod, path: Seq<char>) -> Route {
    if method == HttpMethod::Post && path == "/backup"@ {
        Route::CreateBackup
    } else if method == HttpMethod::Get && path == "/list"@ {
        Route::ListBackups
    } else if method == HttpMethod::Put && path == "/filter"@ {
        Route::Filter
    } else if method == HttpMethod::Get && path == "/serverInfo"@ {
        Route::ServerInfo
    } else {
        Route::NotFound
    }
}

/// Each handler answers exactly one method on exactly one path; every other
/// request is not found.
pub proof fn lemma_each_route_has_one_endpoint(method: HttpMethod, path: Seq<char>)
    ensures
        route_of(method, path) == Route::CreateBackup <==> (method == HttpMethod::Post && path
            == "/backup"@),
        route_of(method, path) == Route::ListBackups <==> (method == HttpMethod::Get && path
            == "/list"@),
        route_of(method, path) == Route::Filter <==> (method == HttpMethod::Put && path
            == "/filter"@),
        route_of(method, path) == Route::ServerInfo <==> (method == HttpMethod::Get && path
            == "/serverInfo"@),
{
    reveal_strlit("/list");
    reveal_strlit("/serverInfo");
    if path == "/serverInfo"@ {
        assert(path.len() != "/list"@.len());
    }
}

/// The handler of a request with `method` on `path`.
pub fn route(method: HttpMethod, path: &str) -> (r: Route)
    ensures
        r == route_of(method, path@),
{
    match method {
        HttpMethod::Post => {
            if text_eq(path, "/backup") {
                return Route::CreateBackup;
            }
        },
        HttpMethod::Get => {
            if text_eq(path, "/list") {
                return Route::ListBackups;
            }
            if text_eq(path, "/serverInfo") {
                return Route::ServerInfo;
            }
        },
        HttpMethod::Put => {
            if text_eq(path, "/filter") {
                return Route::Filter;
            }
        },
        HttpMethod::Other => {},
    }
    Route::NotFound
}

} // verus!
