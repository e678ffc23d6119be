//! Routes a create request to the create handler and packages its outcome.
//!
//! The handler itself runs outside this module. Dispatch is therefore split
//! in two steps: `handle_create_routes` reads the request and says what to do
//! next, and `complete_create_route` turns the handler's outcome into the
//! response.
use vstd::prelude::*;

use crate::envelope::{EnvelopeError, Message};

verus! {

/// Declares serde_json::Value, the row to write, as an opaque type: this
/// module only moves it from the request to the handler and assumes nothing
/// of what it holds.
#[verifier::external_type_specification]
#[verifier::external_body]
pub struct ExValue(serde_json::Value);

/// The request of a create operation: which table, on which connection, and
/// the row to write.
#[derive(Debug, PartialEq)]
pub struct CreateData {
    pub connection_id: String,
    pub table_name: String,
    pub data: serde_json::Value,
}

/// A response that holds one status line.
#[derive(Debug, Clone, PartialEq)]
pub struct BasicMessage {
    pub message: String,
}

/// The create operations. Each one carries an envelope of its own request
/// and response types.
#[derive(Debug, PartialEq)]
pub enum CreateRoutes {
    /// Create a row in a table: a `CreateData` goes out, a `BasicMessage`
    /// comes back.
    Create(Message<CreateData, BasicMessage>),
}

/// What the caller of dispatch has to do next.
#[derive(Debug, PartialEq)]
pub enum CreateAction {
    /// Run the create handler on this request, then hand its outcome to
    /// `complete_create_route`.
    CallCreate(CreateData),
    /// Dispatch is over and gives this result; no handler is run.
    Respond(Result<CreateRoutes, String>),
}

/// The status line of a successful create.
pub open spec fn created_text() -> Seq<char> {
    "Created"@
}

/// The request that dispatch hands to the handler, or the envelope error that
/// stops dispatch before any handler runs.
pub open spec fn spec_create_request(message: CreateRoutes) -> Result<CreateData, EnvelopeError> {
    match message {
        CreateRoutes::Create(m) => m.spec_handle_send(),
    }
}

/// `r` reports the envelope error `e` as a string with the error's text.
pub open spec fn fails_with_envelope_error(e: EnvelopeError, r: Result<CreateRoutes, String>) -> bool {
    r matches Err(s) && s@ == e.spec_message()
}

/// `r` is the confirmation of a successful create: the `Create` route with a
/// `Receive` envelope that holds the text "Created".
pub open spec fn is_created_response(r: CreateRoutes) -> bool {
    match r {
        CreateRoutes::Create(m) => m matches Message::Receive(b) && b.message@ == created_text(),
    }
}

/// `r` is what dispatch gives once the handler has returned `outcome`: on
/// success the confirmation, on failure the handler's error itself.
pub open spec fn completes_with(outcome: Result<(), String>, r: Result<CreateRoutes, String>) -> bool {
    match outcome {
        Ok(()) => r matches Ok(resp) && is_created_response(resp),
        Err(e) => r == Err::<CreateRoutes, String>(e),
    }
}

/// `r` is what a whole dispatch of `message` gives when the handler, if it
/// is run, returns `outcome`.
pub open spec fn dispatches_to(
    message: CreateRoutes,
    outcome: Result<(), String>,
    r: Result<CreateRoutes, String>,
) -> bool {
    match spec_create_request(message) {
        Ok(_) => completes_with(outcome, r),
        Err(e) => fails_with_envelope_error(e, r),
    }
}

/// `a` is what the first step of dispatch asks for on `message`: the handler
/// run on its request, or the envelope error as the final result.
pub open spec fn starts_with(message: CreateRoutes, a: CreateAction) -> bool {
    match spec_create_request(message) {
        Ok(d) => a == CreateAction::CallCreate(d),
        Err(e) => a matches CreateAction::Respond(res) && fails_with_envelope_error(e, res),
    }
}

/// `r` is what the caller returns after the first step asked for `a`: the
/// second step's result where the handler ran and gave `outcome`, else the
/// result that the first step gave.
pub open spec fn finishes_with(
    a: CreateAction,
    outcome: Result<(), String>,
    r: Result<CreateRoutes, String>,
) -> bool {
    match a {
        CreateAction::CallCreate(_) => completes_with(outcome, r),
        CreateAction::Respond(res) => r == res,
    }
}

/// Both results stand for the same operation.
pub open spec fn same_route(a: CreateRoutes, b: CreateRoutes) -> bool {
    match (a, b) {
        (CreateRoutes::Create(_), CreateRoutes::Create(_)) => true,
    }
}

/// The first step of dispatch: takes the request out of the route's envelope
/// and asks for the create handler to be run on it. An envelope that holds no
/// request ends dispatch with the envelope error.
pub fn handle_create_routes(message: CreateRoutes) -> (r: CreateAction)
    ensures
        starts_with(message, r),
{
    // One arm per route and no wildcard: a new route does not compile
    // until it is handled here.
    match message {
        CreateRoutes::Create(m) => match m.handle_send() {
            Ok(d) => CreateAction::CallCreate(d),
            Err(e) => CreateAction::Respond(Err(e.message())),
        },
    }
}

/// The last step of dispatch: on success of the handler, a new `Receive`
/// envelope with the confirmation "Created" under the same route; on failure,
/// the handler's error, and no envelope at all.
pub fn complete_create_route(outcome: Result<(), String>) -> (r: Result<CreateRoutes, String>)
    ensures
        completes_with(outcome, r),
{
    match outcome {
        Ok(()) => {
            let confirmation = BasicMessage { message: "Created".to_string() };
            let message = Message::<CreateData, BasicMessage>::package_receive(confirmation);
            Ok(CreateRoutes::Create(message))
        },
        Err(e) => Err(e),
    }
}

/// Running the two steps of dispatch one after the other, with the handler
/// between them, is a whole dispatch of the route.
pub proof fn lemma_steps_compose(
    message: CreateRoutes,
    a: CreateAction,
    outcome: Result<(), String>,
    r: Result<CreateRoutes, String>,
)
    requires
        starts_with(message, a),
        finishes_with(a, outcome, r),
    ensures
        dispatches_to(message, outcome, r),
{
}

/// A successful dispatch answers under the route it was given, with a
/// `Receive` envelope that holds the confirmation.
pub proof fn lemma_success_keeps_route(
    message: CreateRoutes,
    outcome: Result<(), String>,
    r: Result<CreateRoutes, String>,
)
    requires
        dispatches_to(message, outcome, r),
        r is Ok,
    ensures
        same_route(r->Ok_0, message),
        is_created_response(r->Ok_0),
{
}

/// Where the handler runs and fails, dispatch gives exactly its error and
/// builds no response.
pub proof fn lemma_handler_error_short_circuits(
    message: CreateRoutes,
    e: String,
    r: Result<CreateRoutes, String>,
)
    requires
        spec_create_request(message) is Ok,
        dispatches_to(message, Err(e), r),
    ensures
        r == Err::<CreateRoutes, String>(e),
{
}

} // verus!
