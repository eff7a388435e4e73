//! The decisions of the policy host interface: which evaluation stage a host
//! code selects, in which order a check is refused, and which status code
//! each outcome is answered with.

use vstd::prelude::*;

verus! {

/// The stage of policy evaluation that a check runs.
#[derive(Debug, Clone, Copy, PartialEq, Eq)]
pub enum PolicyStage {
    /// Policies applied before the registry is resolved.
    BeforeResolution,
    /// Policies applied after the registry is resolved.
    AfterResolution,
    /// Policies comparing two resolved registries.
    ComparisonAfterResolution,
    /// Policies giving advice during a live check.
    LiveCheckAdvice,
}

/// The stage that a host code selects: 0, 1, 2 and 3 in the order above.
pub open spec fn stage_of_code(code: i32) -> Option<PolicyStage> {
    if code == 0 {
        Some(PolicyStage::BeforeResolution)
    } else if code == 1 {
        Some(PolicyStage::AfterResolution)
    } else if code == 2 {
        Some(PolicyStage::ComparisonAfterResolution)
    } else if code == 3 {
        Some(PolicyStage::LiveCheckAdvice)
    } else {
        None
    }
}

/// Selects the stage for a host code; no stage for any other code.
pub fn policy_stage_from_code(code: i32) -> (r: Option<PolicyStage>)
    ensures
        r == stage_of_code(code),
{
    match code {
        0 => Some(PolicyStage::BeforeResolution),
        1 => Some(PolicyStage::AfterResolution),
        2 => Some(PolicyStage::ComparisonAfterResolution),
        3 => Some(PolicyStage::LiveCheckAdvice),
        _ => None,
    }
}

/// Why a host call did not succeed.
#[derive(Debug, Clone, Copy, PartialEq, Eq)]
pub enum HostFailure {
    /// The bytes handed over are not JSON of the expected shape.
    NotJson,
    /// The engine refused the input document.
    InputRejected,
    /// The engine failed: a policy or data document was refused, the
    /// evaluation failed, or its findings could not be encoded.
    EngineFailed,
    /// No policy engine has been initialized.
    EngineNotInitialized,
    /// The stage code selects no stage.
    InvalidStage,
}

/// The status code answered for an outcome: 0 on success, 1 when the input is
/// not JSON or is refused as input, 2 on an engine failure, 3 when no engine is
/// initialized, 4 for an unknown stage.
pub open spec fn spec_status_code(outcome: Result<(), HostFailure>) -> i32 {
    match outcome {
        Ok(()) => 0,
        Err(HostFailure::NotJson) => 1,
        Err(HostFailure::InputRejected) => 1,
        Err(HostFailure::EngineFailed) => 2,
        Err(HostFailure::EngineNotInitialized) => 3,
        Err(HostFailure::InvalidStage) => 4,
    }
}

/// The status code answered to the host for an outcome.
pub fn status_code(outcome: Result<(), HostFailure>) -> (c: i32)
    ensures
        c == spec_status_code(outcome),
{
    match outcome {
        Ok(()) => 0,
        Err(HostFailure::NotJson) => 1,
        Err(HostFailure::InputRejected) => 1,
        Err(HostFailure::EngineFailed) => 2,
        Err(HostFailure::EngineNotInitialized) => 3,
        Err(HostFailure::InvalidStage) => 4,
    }
}

/// Whether a check may go on to evaluation, and with which stage: the input
/// must be JSON, then the stage code must select a stage, then an engine must
/// be initialized; the first of these that fails is reported.
pub open spec fn spec_check_plan(input_is_json: bool, stage_code: i32, engine_ready: bool) -> Result<
    PolicyStage,
    HostFailure,
> {
    if !input_is_json {
        Err(HostFailure::NotJson)
    } else if stage_of_code(stage_code) is None {
        Err(HostFailure::InvalidStage)
    } else if !engine_ready {
        Err(HostFailure::EngineNotInitialized)
    } else {
        Ok(stage_of_code(stage_code).unwrap())
    }
}

/// Decides whether a check goes on to evaluation, and with which stage.
pub fn check_plan(input_is_json: bool, stage_code: i32, engine_ready: bool) -> (r: Result<
    PolicyStage,
    HostFailure,
>)
    ensures
        r == spec_check_plan(input_is_json, stage_code, engine_ready),
{
    if !input_is_json {
        return Err(HostFailure::NotJson);
    }
    match policy_stage_from_code(stage_code) {
        None => Err(HostFailure::InvalidStage),
        Some(stage) => {
            if engine_ready {
                Ok(stage)
            } else {
                Err(HostFailure::EngineNotInitialized)
            }
        },
    }
}

/// Whether a data document may be handed to the engine: it must be JSON,
/// then an engine must be initialized.
pub open spec fn spec_data_plan(data_is_json: bool, engine_ready: bool) -> Result<(), HostFailure> {
    if !data_is_json {
        Err(HostFailure::NotJson)
    } else if !engine_ready {
        Err(HostFailure::EngineNotInitialized)
    } else {
        Ok(())
    }
}

/// Decides whether a data document goes on to the engine.
pub fn data_plan(data_is_json: bool, engine_ready: bool) -> (r: Result<(), HostFailure>)
    ensures
        r == spec_data_plan(data_is_json, engine_ready),
{
    if !data_is_json {
        Err(HostFailure::NotJson)
    } else if !engine_ready {
        Err(HostFailure::EngineNotInitialized)
    } else {
        Ok(())
    }
}

/// A JSON value, as `serde_json` reads it; it is handed on to the policy
/// engine unopened.
#[verifier::external_type_specification]
#[verifier::external_body]
pub struct ExJsonValue(serde_json::Value);

/// The JSON document that `serde_json::from_slice` reads from `bytes` as a
/// `serde_json::Value`, or none when it refuses them.
pub uninterp spec fn json_document_of(bytes: Seq<u8>) -> Option<serde_json::Value>;

/// Whether `bytes` hold one JSON document.
pub open spec fn is_json_document(bytes: Seq<u8>) -> bool {
    json_document_of(bytes) is Some
}

/// Reads one JSON document from `bytes`, by `serde_json::from_slice`.
///
/// Trusted: the contract claims that what the reading gives (the document, or
/// a refusal) depends on the bytes alone, and names it `json_document_of`.
#[verifier::external_body]
fn parse_json(bytes: &[u8]) -> (r: Option<serde_json::Value>)
    ensures
        r == json_document_of(bytes@),
{
    serde_json::from_slice(bytes).ok()
}

/// Reads a check's input document and decides whether the check goes on to
/// evaluation, and with which stage; the refusal is the one `spec_check_plan`
/// gives for whether the input bytes hold a JSON document, and the document
/// handed on is the one read from those bytes.
pub fn check_request(input: &[u8], stage_code: i32, engine_ready: bool) -> (r: Result<
    (PolicyStage, serde_json::Value),
    HostFailure,
>)
    ensures
        match r {
            Ok((s, v)) => spec_check_plan(is_json_document(input@), stage_code, engine_ready)
                == Ok::<PolicyStage, HostFailure>(s) && json_document_of(input@) == Some(v),
            Err(e) => spec_check_plan(is_json_document(input@), stage_code, engine_ready) == Err::<
                PolicyStage,
                HostFailure,
            >(e),
        },
{
    let parsed = parse_json(input);
    match check_plan(parsed.is_some(), stage_code, engine_ready) {
        Err(e) => Err(e),
        Ok(stage) => match parsed {
            Some(value) => Ok((stage, value)),
            None => Err(HostFailure::NotJson),
        },
    }
}

/// Reads a data document and decides whether it goes on to the engine; the
/// refusal is the one `spec_data_plan` gives for whether the bytes hold a
/// JSON document, and the document handed on is the one read from those bytes.
pub fn data_request(data: &[u8], engine_ready: bool) -> (r: Result<serde_json::Value, HostFailure>)
    ensures
        match r {
            Ok(v) => spec_data_plan(is_json_document(data@), engine_ready) == Ok::<(), HostFailure>(())
                && json_document_of(data@) == Some(v),
            Err(e) => spec_data_plan(is_json_document(data@), engine_ready) == Err::<(), HostFailure>(
                e,
            ),
        },
{
    let parsed = parse_json(data);
    match data_plan(parsed.is_some(), engine_ready) {
        Err(e) => Err(e),
        Ok(()) => match parsed {
            Some(value) => Ok(value),
            None => Err(HostFailure::NotJson),
        },
    }
}

/// The host codes 0, 1, 2 and 3 select, in that order, the stages before
/// resolution, after resolution, comparison after resolution and live check
/// advice; every other code selects none.
pub proof fn lemma_stage_codes(code: i32)
    ensures
        code == 0 ==> stage_of_code(code) == Some(PolicyStage::BeforeResolution),
        code == 1 ==> stage_of_code(code) == Some(PolicyStage::AfterResolution),
        code == 2 ==> stage_of_code(code) == Some(PolicyStage::ComparisonAfterResolution),
        code == 3 ==> stage_of_code(code) == Some(PolicyStage::LiveCheckAdvice),
        (code < 0 || code > 3) ==> stage_of_code(code) is None,
{
}

/// A check refuses input that is not JSON first, then an unknown stage code,
/// then a missing engine; with JSON input, a known code and an engine it goes
/// on with exactly the stage its code selects. It never reports a missing
/// engine when an engine is initialized.
pub proof fn lemma_check_plan(input_is_json: bool, code: i32, engine_ready: bool)
    ensures
        !input_is_json ==> spec_check_plan(input_is_json, code, engine_ready) == Err::<
            PolicyStage,
            HostFailure,
        >(HostFailure::NotJson),
        input_is_json && (code < 0 || code > 3) ==> spec_check_plan(
            input_is_json,
            code,
            engine_ready,
        ) == Err::<PolicyStage, HostFailure>(HostFailure::InvalidStage),
        input_is_json && 0 <= code <= 3 && !engine_ready ==> spec_check_plan(
            input_is_json,
            code,
            engine_ready,
        ) == Err::<PolicyStage, HostFailure>(HostFailure::EngineNotInitialized),
        input_is_json && engine_ready && code == 0 ==> spec_check_plan(
            input_is_json,
            code,
            engine_ready,
        ) == Ok::<PolicyStage, HostFailure>(PolicyStage::BeforeResolution),
        input_is_json && engine_ready && code == 1 ==> spec_check_plan(
            input_is_json,
            code,
            engine_ready,
        ) == Ok::<PolicyStage, HostFailure>(PolicyStage::AfterResolution),
        input_is_json && engine_ready && code == 2 ==> spec_check_plan(
            input_is_json,
            code,
            engine_ready,
        ) == Ok::<PolicyStage, HostFailure>(PolicyStage::ComparisonAfterResolution),
        input_is_json && engine_ready && code == 3 ==> spec_check_plan(
            input_is_json,
            code,
            engine_ready,
        ) == Ok::<PolicyStage, HostFailure>(PolicyStage::LiveCheckAdvice),
        engine_ready ==> spec_check_plan(input_is_json, code, engine_ready) != Err::<
            PolicyStage,
            HostFailure,
        >(HostFailure::EngineNotInitialized),
{
}

/// A data document that is not JSON is refused first, then a missing engine;
/// otherwise it goes on, and a missing engine is reported only when there is
/// none.
pub proof fn lemma_data_plan(data_is_json: bool, engine_ready: bool)
    ensures
        !data_is_json ==> spec_data_plan(data_is_json, engine_ready) == Err::<(), HostFailure>(
            HostFailure::NotJson,
        ),
        data_is_json && !engine_ready ==> spec_data_plan(data_is_json, engine_ready) == Err::<
            (),
            HostFailure,
        >(HostFailure::EngineNotInitialized),
        data_is_json && engine_ready ==> spec_data_plan(data_is_json, engine_ready) == Ok::<
            (),
            HostFailure,
        >(()),
{
}

/// The status codes: 0 on success, 1 for input that is not JSON or is refused
/// as input, 2 for an engine failure, 3 when no engine is initialized, 4 for an
/// unknown stage.
pub proof fn lemma_status_codes()
    ensures
        spec_status_code(Ok(())) == 0,
        spec_status_code(Err(HostFailure::NotJson)) == 1,
        spec_status_code(Err(HostFailure::InputRejected)) == 1,
        spec_status_code(Err(HostFailure::EngineFailed)) == 2,
        spec_status_code(Err(HostFailure::EngineNotInitialized)) == 3,
        spec_status_code(Err(HostFailure::InvalidStage)) == 4,
{
}

} // verus!
