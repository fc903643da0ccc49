use vstd::prelude::*;
use crate::error::Error;
use crate::text::{lemma_concat_cancel, str_eq, strip_prefix};

verus! {

/// The handler a request is dispatched to.
#[derive(Clone, Copy, PartialEq, Eq, Structural, Debug)]
pub enum RouteTarget {
    OpenApiDoc,
    SwaggerPage,
    Health,
    Version,
    NotFound,
}

/// The dispatch table: exact method-and-path matches; everything else falls
/// through to the catch-all.
pub open spec fn route_model(method: Seq<char>, path: Seq<char>) -> RouteTarget {
    if method == "GET"@ && path == "/docs/openapi.json"@ {
        RouteTarget::OpenApiDoc
    } else if method == "GET"@ && path == "/docs"@ {
        RouteTarget::SwaggerPage
    } else if method == "GET"@ && path == "/meta/health"@ {
        RouteTarget::Health
    } else if method == "GET"@ && path == "/meta/version"@ {
        RouteTarget::Version
    } else {
        RouteTarget::NotFound
    }
}

/// Dispatches a request. Registered routes always win; any unmatched method
/// or path yields the catch-all target.
pub fn router(method: &str, path: &str) -> (r: RouteTarget)
    ensures
        r == route_model(method@, path@),
{
    proof {
        reveal_strlit("/docs");
        reveal_strlit("/meta");
        reveal_strlit("/docs/openapi.json");
        reveal_strlit("/meta/health");
        reveal_strlit("/meta/version");
    }
    if !str_eq(method, "GET") {
        return RouteTarget::NotFound;
    }
    if let Some(rest) = strip_prefix(path, "/docs") {
        return docs_router(rest);
    }
    if let Some(rest) = strip_prefix(path, "/meta") {
        return meta_router(rest);
    }
    proof {
        assert("/docs/openapi.json"@.subrange(0, 5) =~= "/docs"@);
        assert("/docs"@.subrange(0, 5) =~= "/docs"@);
        assert("/meta/health"@.subrange(0, 5) =~= "/meta"@);
        assert("/meta/version"@.subrange(0, 5) =~= "/meta"@);
    }
    RouteTarget::NotFound
}

/// The routes nested under the `/docs` prefix.
fn docs_router(rest: &str) -> (r: RouteTarget)
    ensures
        r == route_model("GET"@, "/docs"@ + rest@),
{
    proof {
        reveal_strlit("/docs");
        reveal_strlit("/openapi.json");
        reveal_strlit("/docs/openapi.json");
        reveal_strlit("");
        reveal_strlit("/meta/health");
        reveal_strlit("/meta/version");
        assert("/docs"@ + "/openapi.json"@ =~= "/docs/openapi.json"@);
        assert("/docs"@ + ""@ =~= "/docs"@);
        assert(("/docs"@ + rest@)[1] == 'd');
        assert("/meta/health"@[1] == 'm');
        assert("/meta/version"@[1] == 'm');
        lemma_concat_cancel("/docs"@, rest@, "/openapi.json"@);
        lemma_concat_cancel("/docs"@, rest@, ""@);
    }
    if str_eq(rest, "/openapi.json") {
        RouteTarget::OpenApiDoc
    } else if str_eq(rest, "") {
        RouteTarget::SwaggerPage
    } else {
        RouteTarget::NotFound
    }
}

/// The routes nested under the `/meta` prefix.
fn meta_router(rest: &str) -> (r: RouteTarget)
    ensures
        r == route_model("GET"@, "/meta"@ + rest@),
{
    proof {
        reveal_strlit("/meta");
        reveal_strlit("/health");
        reveal_strlit("/version");
        reveal_strlit("/meta/health");
        reveal_strlit("/meta/version");
        reveal_strlit("/docs");
        reveal_strlit("/docs/openapi.json");
        assert("/meta"@ + "/health"@ =~= "/meta/health"@);
        assert("/meta"@ + "/version"@ =~= "/meta/version"@);
        assert(("/meta"@ + rest@)[1] == 'm');
        assert("/docs"@[1] == 'd');
        assert("/docs/openapi.json"@[1] == 'd');
        lemma_concat_cancel("/meta"@, rest@, "/health"@);
        lemma_concat_cancel("/meta"@, rest@, "/version"@);
    }
    if str_eq(rest, "/health") {
        RouteTarget::Health
    } else if str_eq(rest, "/version") {
        RouteTarget::Version
    } else {
        RouteTarget::NotFound
    }
}

/// The catch-all response: an envelope with status 404 and the fixed
/// not-found message.
pub fn not_found() -> (r: Error)
    ensures
        r.wf(),
        r.status == 404,
        r.message@ == "requested endpoint not found"@,
        r.details is None,
        r.cause is None,
{
    proof {
        reveal_strlit("requested endpoint not found");
    }
    Error::new(404, "requested endpoint not found".to_owned())
}

} // verus!
