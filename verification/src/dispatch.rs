//! Request classification and response translation for the subgraph query
//! endpoint.
//!
//! One inbound request is turned into exactly one of a free query, a paid
//! query, or a rejection, from the evidence in its headers, the body read
//! outcome, and the deployment identifier validation outcome. A query
//! processor result is then translated into the HTTP-level reply.

use vstd::prelude::*;
use vstd::string::StringExecFns;

use crate::headers::{
    header_chars, header_is_text, header_text_string, free_auth_evidence, is_free_auth,
    is_header_text, opt_bytes_view, opt_text_view,
};

verus! {

/// An opaque, validated identifier of one subgraph deployment on the
/// upstream node. Validation of the raw string is the identifier rule's
/// concern; a value of this type records the string that the rule accepted.
pub struct SubgraphDeploymentID {
    id: String,
}

impl View for SubgraphDeploymentID {
    type V = Seq<char>;

    closed spec fn view(&self) -> Seq<char> {
        self.id@
    }
}

impl SubgraphDeploymentID {
    /// Wraps a deployment identifier string that the identifier rule has
    /// accepted.
    pub fn new(id: String) -> (r: SubgraphDeploymentID)
        ensures
            r@ == id@,
    {
        SubgraphDeploymentID { id }
    }

    /// The identifier as a string slice.
    pub fn as_str(&self) -> (r: &str)
        ensures
            r@ == self@,
    {
        self.id.as_str()
    }
}

/// A pre-authorized query, served without payment.
pub struct FreeQuery {
    pub subgraph_deployment_id: SubgraphDeploymentID,
    pub query: String,
}

/// A receipt-bearing query, handed to the payment path.
pub struct PaidQuery {
    pub subgraph_deployment_id: SubgraphDeploymentID,
    pub query: String,
    pub receipt: String,
}

/// Why a request was rejected before any upstream call.
pub enum RejectReason {
    /// The `scalar-receipt` header value is not representable as text.
    MalformedReceipt,
    /// The request body could not be read; carries the read failure's
    /// message.
    UnreadableBody(String),
    /// The deployment identifier failed validation; carries the rule's
    /// error message.
    InvalidDeployment(String),
    /// Neither valid free-query authorization nor a receipt header is
    /// present.
    MissingEvidence,
    /// The query processor reported a non-success upstream status.
    BadUpstreamResponse,
}

/// The classification of one inbound request.
pub enum DispatchDecision {
    Free(FreeQuery),
    Paid(PaidQuery),
    Reject(RejectReason),
}

/// The message of the rejection for a malformed `scalar-receipt` header.
pub open spec fn malformed_receipt_message() -> Seq<char> {
    "Bad scalar receipt for subgraph query"@
}

/// The message of the rejection when neither free-query authorization nor a
/// receipt is present.
pub open spec fn missing_evidence_message() -> Seq<char> {
    "Query request header missing scalar-receipts or incorrect auth token"@
}

/// The message of the rejection for a non-success query processor status.
pub open spec fn bad_upstream_message() -> Seq<char> {
    "Bad response from Graph node"@
}

/// The single-line, human-readable message of a rejection.
pub open spec fn reason_message(r: RejectReason) -> Seq<char> {
    match r {
        RejectReason::MalformedReceipt => malformed_receipt_message(),
        RejectReason::UnreadableBody(m) => m@,
        RejectReason::InvalidDeployment(m) => m@,
        RejectReason::MissingEvidence => missing_evidence_message(),
        RejectReason::BadUpstreamResponse => bad_upstream_message(),
    }
}

impl RejectReason {
    /// The message body of the client-error response for this rejection.
    pub fn message(&self) -> (r: String)
        ensures
            r@ == reason_message(*self),
    {
        match self {
            RejectReason::MalformedReceipt => String::from_str("Bad scalar receipt for subgraph query"),
            RejectReason::UnreadableBody(m) => m.clone(),
            RejectReason::InvalidDeployment(m) => m.clone(),
            RejectReason::MissingEvidence => String::from_str(
                "Query request header missing scalar-receipts or incorrect auth token",
            ),
            RejectReason::BadUpstreamResponse => String::from_str("Bad response from Graph node"),
        }
    }
}

/// The mathematical value of a classification: the deployment identifier,
/// query text and receipt text of the intent, or the message of the
/// rejection.
pub enum SpecDecision {
    Free { deployment: Seq<char>, query: Seq<char> },
    Paid { deployment: Seq<char>, query: Seq<char>, receipt: Seq<char> },
    Reject { message: Seq<char> },
}

/// The mathematical value of an exec classification.
pub open spec fn decision_view(d: DispatchDecision) -> SpecDecision {
    match d {
        DispatchDecision::Free(fq) => SpecDecision::Free {
            deployment: fq.subgraph_deployment_id@,
            query: fq.query@,
        },
        DispatchDecision::Paid(pq) => SpecDecision::Paid {
            deployment: pq.subgraph_deployment_id@,
            query: pq.query@,
            receipt: pq.receipt@,
        },
        DispatchDecision::Reject(r) => SpecDecision::Reject { message: reason_message(r) },
    }
}

/// The body read outcome, as text: the body's text, or the read failure's
/// message.
pub open spec fn res_text_view(r: Result<String, String>) -> Result<Seq<char>, Seq<char>> {
    match r {
        Ok(s) => Ok(s@),
        Err(e) => Err(e@),
    }
}

/// The deployment identifier validation outcome, as text: the accepted
/// identifier, or the rule's error message.
pub open spec fn res_deployment_view(r: Result<SubgraphDeploymentID, String>) -> Result<
    Seq<char>,
    Seq<char>,
> {
    match r {
        Ok(d) => Ok(d@),
        Err(e) => Err(e@),
    }
}

/// A receipt header is present but its value is not representable as text.
pub open spec fn receipt_malformed(receipt: Option<Seq<u8>>) -> bool {
    receipt matches Some(rb) && !is_header_text(rb)
}

/// The classification policy, in this exact priority order: a present but
/// malformed receipt header rejects at once; then an unreadable body, then
/// an invalid deployment identifier reject with their own messages; then
/// free-query authorization wins over a present receipt; a receipt alone
/// makes the query paid; with neither, the request is rejected for missing
/// evidence.
pub open spec fn spec_classify(
    receipt: Option<Seq<u8>>,
    auth: Option<Seq<u8>>,
    token: Option<Seq<char>>,
    body: Result<Seq<char>, Seq<char>>,
    deployment: Result<Seq<char>, Seq<char>>,
) -> SpecDecision {
    if receipt_malformed(receipt) {
        SpecDecision::Reject { message: malformed_receipt_message() }
    } else {
        match body {
            Err(e) => SpecDecision::Reject { message: e },
            Ok(q) => match deployment {
                Err(e) => SpecDecision::Reject { message: e },
                Ok(d) => if is_free_auth(auth, token) {
                    SpecDecision::Free { deployment: d, query: q }
                } else {
                    match receipt {
                        Some(rb) => SpecDecision::Paid {
                            deployment: d,
                            query: q,
                            receipt: header_chars(rb),
                        },
                        None => SpecDecision::Reject { message: missing_evidence_message() },
                    }
                },
            },
        }
    }
}

/// Classifies one inbound request as a free query, a paid query, or a
/// rejection, from the raw `scalar-receipt` header value, the raw
/// authorization header value, the configured free-query token, the body
/// read outcome, and the deployment identifier validation outcome.
pub fn classify_request(
    receipt_header: Option<Vec<u8>>,
    auth_header: Option<Vec<u8>>,
    free_query_auth_token: Option<String>,
    body: Result<String, String>,
    deployment: Result<SubgraphDeploymentID, String>,
) -> (r: DispatchDecision)
    ensures
        decision_view(r) == spec_classify(
            opt_bytes_view(receipt_header),
            opt_bytes_view(auth_header),
            opt_text_view(free_query_auth_token),
            res_text_view(body),
            res_deployment_view(deployment),
        ),
{
    if let Some(rb) = &receipt_header {
        if !header_is_text(rb) {
            return DispatchDecision::Reject(RejectReason::MalformedReceipt);
        }
    }
    let free = free_auth_evidence(&auth_header, &free_query_auth_token);
    let query = match body {
        Ok(q) => q,
        Err(e) => return DispatchDecision::Reject(RejectReason::UnreadableBody(e)),
    };
    let subgraph_deployment_id = match deployment {
        Ok(d) => d,
        Err(e) => return DispatchDecision::Reject(RejectReason::InvalidDeployment(e)),
    };
    if free {
        DispatchDecision::Free(FreeQuery { subgraph_deployment_id, query })
    } else if let Some(rb) = receipt_header {
        let receipt = header_text_string(&rb);
        DispatchDecision::Paid(PaidQuery { subgraph_deployment_id, query, receipt })
    } else {
        DispatchDecision::Reject(RejectReason::MissingEvidence)
    }
}

/// What the query processor hands back for one resolved query intent: an
/// upstream-style status code and the upstream call's result.
pub struct ProcessorResponse {
    pub status: i32,
    pub result: crate::graph_node::UnattestedQueryResult,
}

/// The HTTP-level reply of the subgraph query endpoint: success with the
/// processor's result as a JSON body, or a client error with a single-line
/// message.
pub enum QueryResponse {
    Success(crate::graph_node::UnattestedQueryResult),
    BadRequest(String),
}

/// Translates the query processor's response into the HTTP-level reply: a
/// status of 200 passes the result through as a success; any other status
/// is answered with a generic client error, and the original status is not
/// passed through.
pub fn translate_processor_response(response: ProcessorResponse) -> (r: QueryResponse)
    ensures
        response.status == 200 ==> (r matches QueryResponse::Success(u) && u
            == response.result),
        response.status != 200 ==> (r matches QueryResponse::BadRequest(m) && m@
            == bad_upstream_message()),
{
    if response.status == 200 {
        QueryResponse::Success(response.result)
    } else {
        QueryResponse::BadRequest(RejectReason::BadUpstreamResponse.message())
    }
}

/// Law: free authorization takes priority. Whenever a request carries
/// valid free-query authorization, its receipt header (if any) is
/// representable as text, its body was read, and its deployment identifier
/// was accepted, the classification is a free query with that body and
/// identifier, whether or not a receipt is also present.
pub proof fn lemma_free_auth_priority(
    receipt: Option<Seq<u8>>,
    auth: Option<Seq<u8>>,
    token: Option<Seq<char>>,
    body: Result<Seq<char>, Seq<char>>,
    deployment: Result<Seq<char>, Seq<char>>,
)
    requires
        is_free_auth(auth, token),
        receipt matches Some(rb) ==> is_header_text(rb),
        body is Ok,
        deployment is Ok,
    ensures
        spec_classify(receipt, auth, token, body, deployment) == (SpecDecision::Free {
            deployment: deployment->Ok_0,
            query: body->Ok_0,
        }),
{
}

/// Law: without valid free-query authorization, a present, text-decodable
/// receipt header makes the query paid, and the receipt token is the
/// header's exact text.
pub proof fn lemma_receipt_makes_paid(
    rb: Seq<u8>,
    auth: Option<Seq<u8>>,
    token: Option<Seq<char>>,
    body: Result<Seq<char>, Seq<char>>,
    deployment: Result<Seq<char>, Seq<char>>,
)
    requires
        !is_free_auth(auth, token),
        is_header_text(rb),
        body is Ok,
        deployment is Ok,
    ensures
        spec_classify(Some(rb), auth, token, body, deployment) == (SpecDecision::Paid {
            deployment: deployment->Ok_0,
            query: body->Ok_0,
            receipt: header_chars(rb),
        }),
{
}

/// Law: with neither valid free-query authorization nor a receipt header,
/// the request is rejected with the fixed missing-evidence message; no
/// query intent is built, so no upstream call can follow.
pub proof fn lemma_missing_evidence_rejects(
    auth: Option<Seq<u8>>,
    token: Option<Seq<char>>,
    body: Result<Seq<char>, Seq<char>>,
    deployment: Result<Seq<char>, Seq<char>>,
)
    requires
        !is_free_auth(auth, token),
        body is Ok,
        deployment is Ok,
    ensures
        spec_classify(None, auth, token, body, deployment) == (SpecDecision::Reject {
            message: missing_evidence_message(),
        }),
{
}

/// Law: when the receipt header is absent, no classification outcome is a
/// paid query, whatever the other evidence is.
pub proof fn lemma_no_receipt_never_paid(
    auth: Option<Seq<u8>>,
    token: Option<Seq<char>>,
    body: Result<Seq<char>, Seq<char>>,
    deployment: Result<Seq<char>, Seq<char>>,
)
    ensures
        !(spec_classify(None, auth, token, body, deployment) is Paid),
{
}

/// Law: a present receipt header that is not representable as text rejects
/// the request at once, with the malformed-receipt message, whatever the
/// authorization evidence, the body read outcome and the deployment
/// identifier outcome are: the rejection precedes the body and the
/// identifier.
pub proof fn lemma_malformed_receipt_rejects_first(
    rb: Seq<u8>,
    auth: Option<Seq<u8>>,
    token: Option<Seq<char>>,
    body: Result<Seq<char>, Seq<char>>,
    deployment: Result<Seq<char>, Seq<char>>,
)
    requires
        !is_header_text(rb),
    ensures
        spec_classify(Some(rb), auth, token, body, deployment) == (SpecDecision::Reject {
            message: malformed_receipt_message(),
        }),
{
}

} // verus!
