use vstd::prelude::*;
use vstd::string::StringExecFns;
use crate::error::Error;

verus! {

/// Whether a string parses as a JSON document. Parsing is a function of the
/// text alone; what the parser accepts is not restated here.
pub uninterp spec fn json_doc_parses(s: Seq<char>) -> bool;

#[verifier::external_type_specification]
#[verifier::external_body]
pub struct ExValue(serde_json::Value);

/// Relies on serde_json::from_str::<serde_json::Value>: it returns `Ok`
/// exactly on the strings that parse as JSON documents, and the parse outcome
/// depends on the input text alone.
#[verifier::external_body]
fn parse_json(s: &str) -> (r: Result<serde_json::Value, String>)
    ensures
        r is Ok <==> json_doc_parses(s@),
{
    match serde_json::from_str::<serde_json::Value>(s) {
        Ok(v) => Ok(v),
        Err(e) => Err(e.to_string()),
    }
}

/// Parses the embedded OpenAPI document handed in by the boundary. A document
/// that does not parse yields a server-error envelope with the generic
/// message; the parse failure itself is kept as the envelope's logged cause.
pub fn openapi(doc: &str) -> (r: Result<serde_json::Value, Error>)
    ensures
        r is Ok <==> json_doc_parses(doc@),
        r matches Err(e) ==> e.wf() && e.status == 500
            && e.message@ == "an internal error occurred"@
            && e.details is None && e.cause is Some,
{
    match parse_json(doc) {
        Ok(v) => Ok(v),
        Err(msg) => {
            let mut cause = "failed to parse OpenAPI definition: ".to_owned();
            cause.append(msg.as_str());
            Err(Error::internal(cause))
        },
    }
}

/// The documentation page: a fixed HTML document embedding a viewer that
/// loads the OpenAPI document from its endpoint.
pub open spec fn swagger_page() -> Seq<char> {
    "<!doctype html>\n<html lang=\"en\">\n<head>\n  <meta charset=\"utf-8\" />\n  <meta name=\"viewport\" content=\"width=device-width, initial-scale=1\" />\n  <title>API Documentation</title>\n  <link rel=\"stylesheet\" href=\"https://unpkg.com/swagger-ui-dist@5/swagger-ui.css\" />\n</head>\n<body>\n  <div id=\"swagger-ui\"></div>\n  <script src=\"https://unpkg.com/swagger-ui-dist@5/swagger-ui-bundle.js\" crossorigin></script>\n  <script>\n    window.onload = () => {\n      window.ui = SwaggerUIBundle({ url: '/docs/openapi.json', dom_id: '#swagger-ui' });\n    };\n  </script>\n</body>\n</html>"@
}

/// The body of the documentation endpoint; always the same page.
pub fn swagger() -> (r: &'static str)
    ensures
        r@ == swagger_page(),
{
    "<!doctype html>\n<html lang=\"en\">\n<head>\n  <meta charset=\"utf-8\" />\n  <meta name=\"viewport\" content=\"width=device-width, initial-scale=1\" />\n  <title>API Documentation</title>\n  <link rel=\"stylesheet\" href=\"https://unpkg.com/swagger-ui-dist@5/swagger-ui.css\" />\n</head>\n<body>\n  <div id=\"swagger-ui\"></div>\n  <script src=\"https://unpkg.com/swagger-ui-dist@5/swagger-ui-bundle.js\" crossorigin></script>\n  <script>\n    window.onload = () => {\n      window.ui = SwaggerUIBundle({ url: '/docs/openapi.json', dom_id: '#swagger-ui' });\n    };\n  </script>\n</body>\n</html>"
}

} // verus!
