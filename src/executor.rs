//! Script execution in an isolated world.
//!
//! The execution context comes back from the request that creates the
//! isolated world, so the script runs without ever enabling the runtime
//! inspection domain, the step that anti-automation scripts watch for.
use vstd::prelude::*;
use vstd::string::*;

verus! {

/// Name of the isolated world that scripts run in.
pub const ISOLATED_WORLD_NAME: &'static str = "chaser";

/// Why an operation on a session failed.
#[derive(Clone, Debug, PartialEq, Eq)]
pub enum ChaserError {
    /// A protocol command failed or returned malformed data.
    Protocol(String),
    /// A script was to run but the session has no main frame.
    NoMainFrame,
    /// The interception pattern was refused.
    InvalidPattern(String),
}

/// The request that creates an isolated world in a frame.
#[derive(Clone, Debug)]
pub struct IsolatedWorldRequest {
    pub frame_id: String,
    pub world_name: String,
    /// Whether the world may reach the page's DOM.
    pub grant_universal_access: bool,
}

/// The request that evaluates a script in a known execution context.
#[derive(Clone, Debug)]
pub struct EvaluateRequest {
    pub expression: String,
    pub context_id: i64,
    pub await_promise: bool,
    pub return_by_value: bool,
}

/// First step of a stealth evaluation: an isolated world with DOM access in
/// the main frame, or `NoMainFrame` when there is none.
pub fn isolated_world_request(main_frame: Option<&str>) -> (r: Result<
    IsolatedWorldRequest,
    ChaserError,
>)
    ensures
        main_frame is None <==> r == Err::<IsolatedWorldRequest, ChaserError>(
            ChaserError::NoMainFrame,
        ),
        main_frame is Some ==> r is Ok && r->Ok_0.frame_id@ == main_frame->Some_0@
            && r->Ok_0.world_name@ == ISOLATED_WORLD_NAME@ && r->Ok_0.grant_universal_access,
{
    match main_frame {
        None => Err(ChaserError::NoMainFrame),
        Some(frame) => Ok(
            IsolatedWorldRequest {
                frame_id: String::from_str(frame),
                world_name: String::from_str(ISOLATED_WORLD_NAME),
                grant_universal_access: true,
            },
        ),
    }
}

/// Second step: evaluate `script` in the context that the isolated world
/// reported, awaiting a promise and returning the result by value.
pub fn evaluate_request(script: &str, context_id: i64) -> (r: EvaluateRequest)
    ensures
        r.expression@ == script@,
        r.context_id == context_id,
        r.await_promise,
        r.return_by_value,
{
    EvaluateRequest {
        expression: String::from_str(script),
        context_id,
        await_promise: true,
        return_by_value: true,
    }
}

} // verus!
