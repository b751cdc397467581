//! The computational core of the upstream GraphQL client: the request URL
//! for a subgraph deployment, the attestability reading of an upstream
//! response, the result values of the two forwarding calls, and the query
//! envelope of the structured network query.

use vstd::prelude::*;
use vstd::string::StringExecFns;

use crate::dispatch::SubgraphDeploymentID;
use crate::headers::opt_bytes_view;

verus! {

/// The upstream client's view of one upstream call outcome: the raw
/// GraphQL response body, and whether the upstream node marked the
/// response as attestable.
pub struct UnattestedQueryResult {
    pub graphql_response: String,
    pub attestable: bool,
}

/// The bytes of the `graph-attestable` response header value that mark a
/// response as attestable: exactly the text `true` (ASCII `t`, `r`, `u`,
/// `e`).
pub open spec fn attestable_marker() -> Seq<u8> {
    seq![116u8, 114u8, 117u8, 101u8]
}

/// An upstream deployment response is attestable exactly when the
/// `graph-attestable` header is present and its value is exactly `true`;
/// an absent header or any other value, in any case or spelling, is not
/// attestable.
pub open spec fn spec_attestable(header: Option<Seq<u8>>) -> bool {
    match header {
        Some(v) => v == attestable_marker(),
        None => false,
    }
}

/// Reads the attestability of an upstream response from the raw
/// `graph-attestable` header value.
pub fn attestable_from_header(header: &Option<Vec<u8>>) -> (r: bool)
    ensures
        r == spec_attestable(opt_bytes_view(*header)),
{
    match header {
        Some(v) => {
            let r = v.len() == 4 && v[0] == 116 && v[1] == 114 && v[2] == 117 && v[3] == 101;
            proof {
                if v@.len() == 4 && v@[0] == 116 && v@[1] == 114 && v@[2] == 117 && v@[3] == 101 {
                    assert(v@ =~= attestable_marker());
                }
            }
            r
        },
        None => false,
    }
}

/// Law: attestability is exact. An upstream deployment response is
/// attestable when and only when the `graph-attestable` header is present
/// with the exact value `true`; an absent header or any other value is not
/// attestable.
pub proof fn lemma_attestable_exact(header: Option<Seq<u8>>)
    ensures
        spec_attestable(header) <==> header == Some(attestable_marker()),
{
}

/// The URL of the subgraph query endpoint for one deployment on the
/// upstream node.
pub fn subgraph_query_url(base_url: &String, deployment: &SubgraphDeploymentID) -> (r: String)
    ensures
        r@ == base_url@ + "/subgraphs/id/"@ + deployment@,
{
    let mut url = base_url.clone();
    url.append("/subgraphs/id/");
    url.append(deployment.as_str());
    url
}

/// The result of one forwarding call to a subgraph deployment: the
/// response body as read, attestable exactly when the upstream node's
/// `graph-attestable` header says so.
pub fn deployment_query_result(
    graphql_response: String,
    attestable_header: Option<Vec<u8>>,
) -> (r: UnattestedQueryResult)
    ensures
        r.graphql_response@ == graphql_response@,
        r.attestable == spec_attestable(opt_bytes_view(attestable_header)),
{
    let attestable = attestable_from_header(&attestable_header);
    UnattestedQueryResult { graphql_response, attestable }
}

/// The result of one forwarding call to the network-metadata subgraph: the
/// response body as read, and never attestable, whatever headers the
/// response carried.
pub fn network_query_result(graphql_response: String) -> (r: UnattestedQueryResult)
    ensures
        r.graphql_response@ == graphql_response@,
        r.attestable == false,
{
    UnattestedQueryResult { graphql_response, attestable: false }
}

/// The JSON string literal (quotes and escapes included) that encodes a
/// piece of text.
pub uninterp spec fn json_string_of(s: Seq<char>) -> Seq<char>;

/// Relies on `serde_json::to_string` for `&str`: it writes the JSON string
/// literal of the text, a value of the text alone; serialization of a
/// string into an in-memory buffer cannot fail.
#[verifier::external_body]
fn json_string(s: &str) -> (r: String)
    ensures
        r@ == json_string_of(s@),
{
    serde_json::to_string(s).expect("serializing a string cannot fail")
}

/// Serializes the GraphQL query envelope `{ query, variables? }` of one
/// structured network query. The `variables` member is omitted entirely
/// when absent, not sent as null; when present, its already-serialized
/// JSON text is spliced in unchanged.
pub fn graphql_envelope(query: &str, variables: Option<&String>) -> (r: String)
    ensures
        variables is None ==> r@ == "{\"query\":"@ + json_string_of(query@) + "}"@,
        variables matches Some(v) ==> r@ == "{\"query\":"@ + json_string_of(query@)
            + ",\"variables\":"@ + v@ + "}"@,
{
    let mut body = String::from_str("{\"query\":");
    let encoded = json_string(query);
    body.append(encoded.as_str());
    match variables {
        None => {
            body.append("}");
        },
        Some(v) => {
            body.append(",\"variables\":");
            body.append(v.as_str());
            body.append("}");
        },
    }
    body
}

} // verus!
