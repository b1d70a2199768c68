use vstd::prelude::*;

verus! {

/// `needle` occurs contiguously somewhere in `hay`.
pub open spec fn contains_seq(hay: Seq<char>, needle: Seq<char>) -> bool {
    exists|i: int|
        0 <= i && i + needle.len() <= hay.len() && #[trigger] hay.subrange(i, i + needle.len())
            == needle
}

/// Characters the exploration-page template inserts verbatim: everything but
/// the few characters its renderer replaces with HTML entities.
pub open spec fn verbatim_char(c: char) -> bool {
    c != '<' && c != '>' && c != '"' && c != '&' && c != '\'' && c != '`' && c != '='
}

/// The exploration-page HTML for a given endpoint path. The page is rendered
/// from a fixed template, so it depends on the endpoint alone.
pub uninterp spec fn graphiql_page(endpoint: Seq<char>) -> Seq<char>;

/// Relies on `async_graphql::http::GraphiQLSource`: `finish` renders a fixed
/// HTML template with the endpoint inserted as the submission target, so the
/// page is a function of the endpoint alone, and an endpoint free of
/// HTML-escaped characters appears in the page verbatim.
#[verifier::external_body]
pub(crate) fn graphiql_source(endpoint: &str) -> (r: String)
    ensures
        r@ == graphiql_page(endpoint@),
        (forall|i: int| 0 <= i < endpoint@.len() ==> verbatim_char(endpoint@[i]))
            ==> contains_seq(r@, endpoint@),
{
    async_graphql::http::GraphiQLSource::build().endpoint(endpoint).finish()
}

} // verus!
