//! Requests, routing hints and engine output, as far as routing reads them.

use vstd::prelude::*;

verus! {

/// One data-parallel rank of one worker: the unit that requests are routed to.
#[derive(Clone, Copy, Debug, PartialEq, Eq, Structural)]
pub struct WorkerWithDpRank {
    pub worker_id: u64,
    pub dp_rank: u32,
}

impl WorkerWithDpRank {
    pub fn new(worker_id: u64, dp_rank: u32) -> (worker: WorkerWithDpRank)
        ensures
            worker == (WorkerWithDpRank { worker_id, dp_rank }),
    {
        WorkerWithDpRank { worker_id, dp_rank }
    }
}

/// Which part of a request a router serves.
#[derive(Clone, Copy, Debug, PartialEq, Eq, Structural)]
pub enum RequestPhase {
    Prefill,
    Decode,
    Aggregated,
}

/// A step in the lifecycle of a session.
#[derive(Clone, Copy, Debug, PartialEq, Eq, Structural)]
pub enum SessionAction {
    Open,
    Bind,
    Close,
}

/// How a request takes part in a session. `timeout` is in seconds.
#[derive(Clone, Debug)]
pub struct SessionControl {
    pub session_id: String,
    pub action: Option<SessionAction>,
    pub timeout: u64,
}

/// Where a request asks to be routed.
#[derive(Clone, Debug)]
pub struct RoutingHints {
    pub session_control: Option<SessionControl>,
    pub prefill_worker_id: Option<u64>,
    pub prefill_dp_rank: Option<u32>,
    pub decode_worker_id: Option<u64>,
    pub backend_instance_id: Option<u64>,
    pub dp_rank: Option<u32>,
    pub lora_name: Option<String>,
}

impl Default for RoutingHints {
    /// No hint at all.
    fn default() -> (hints: RoutingHints)
        ensures
            hints.session_control is None,
            hints.prefill_worker_id is None,
            hints.prefill_dp_rank is None,
            hints.decode_worker_id is None,
            hints.backend_instance_id is None,
            hints.dp_rank is None,
            hints.lora_name is None,
    {
        RoutingHints {
            session_control: None,
            prefill_worker_id: None,
            prefill_dp_rank: None,
            decode_worker_id: None,
            backend_instance_id: None,
            dp_rank: None,
            lora_name: None,
        }
    }
}

/// Tells a cold prefill worker which rank to fetch the session's prefix from.
#[derive(Clone, Debug)]
pub struct MigrateFrom {
    pub source_endpoint: String,
    pub source_dp_rank: u32,
    pub session_id: String,
}

/// A tokenized request on its way to a worker.
#[derive(Clone, Debug)]
pub struct PreprocessedRequest {
    pub token_ids: Vec<u32>,
    pub routing: Option<RoutingHints>,
    /// The phase that the request's tracker is in, where it carries a tracker.
    pub tracker_phase: Option<RequestPhase>,
    /// Value of the `query_instance_id` annotation: the request only asks
    /// where it would be routed.
    pub query_instance_id: Option<String>,
    pub migrate_from: Option<MigrateFrom>,
}

impl PreprocessedRequest {
    /// The session control of the request, if it carries any.
    pub open spec fn spec_session_control(self) -> Option<SessionControl> {
        match self.routing {
            Some(routing) => routing.session_control,
            None => None,
        }
    }

    /// The session control of the request, if it carries any.
    pub fn session_control(&self) -> (control: Option<&SessionControl>)
        ensures
            match control {
                Some(found) => self.spec_session_control() == Some(*found),
                None => self.spec_session_control() is None,
            },
    {
        match &self.routing {
            Some(routing) => routing.session_control.as_ref(),
            None => None,
        }
    }

    /// The phase that the request is in. Without a tracker, one worker serves
    /// all of it.
    pub open spec fn spec_phase(self) -> RequestPhase {
        match self.tracker_phase {
            Some(phase) => phase,
            None => RequestPhase::Aggregated,
        }
    }

    /// The phase that the request is in.
    pub fn phase(&self) -> (phase: RequestPhase)
        ensures
            phase == self.spec_phase(),
    {
        match self.tracker_phase {
            Some(phase) => phase,
            None => RequestPhase::Aggregated,
        }
    }

    /// Whether the request only asks where it would be routed.
    pub fn is_query_only(&self) -> (query: bool)
        ensures
            query == (self.query_instance_id is Some),
    {
        self.query_instance_id.is_some()
    }

    /// The request carries a session lifecycle action.
    pub open spec fn spec_has_action(self) -> bool {
        self.spec_session_control() is Some && self.spec_session_control()->0.action is Some
    }

    /// Whether the request carries a session lifecycle action.
    pub fn has_session_action(&self) -> (acts: bool)
        ensures
            acts == self.spec_has_action(),
    {
        match self.session_control() {
            Some(control) => control.action.is_some(),
            None => false,
        }
    }
}

/// Why the engine stopped.
#[derive(Clone, Debug)]
pub enum FinishReason {
    Error(String),
    Cancelled,
    /// The engine is done: an end token, a stop condition, a length limit.
    Completed,
}

/// The workers that served a request, by phase.
#[derive(Clone, Copy, Debug, PartialEq, Eq, Structural)]
pub struct WorkerIdInfo {
    pub prefill_worker_id: Option<u64>,
    pub prefill_dp_rank: Option<u32>,
    pub decode_worker_id: Option<u64>,
    pub decode_dp_rank: Option<u32>,
}

/// Where a request would be routed.
#[derive(Clone, Debug)]
pub struct RoutingData {
    pub worker_id: Option<WorkerIdInfo>,
    pub token_ids: Option<Vec<u32>>,
}

/// One chunk of output of an engine.
#[derive(Clone, Debug)]
pub struct LLMEngineOutput {
    pub finish_reason: Option<FinishReason>,
    pub extra_args: Option<serde_json::Value>,
    pub disaggregated_params: Option<serde_json::Value>,
    pub routing_data: Option<RoutingData>,
}

impl LLMEngineOutput {
    /// An output that says it was cancelled, and nothing else.
    pub fn cancelled() -> (output: LLMEngineOutput)
        ensures
            output == (LLMEngineOutput {
                finish_reason: Some(FinishReason::Cancelled),
                extra_args: None,
                disaggregated_params: None,
                routing_data: None,
            }),
    {
        LLMEngineOutput {
            finish_reason: Some(FinishReason::Cancelled),
            extra_args: None,
            disaggregated_params: None,
            routing_data: None,
        }
    }
}

impl Default for LLMEngineOutput {
    /// An output that says nothing.
    fn default() -> (output: LLMEngineOutput)
        ensures
            output == (LLMEngineOutput {
                finish_reason: None,
                extra_args: None,
                disaggregated_params: None,
                routing_data: None,
            }),
    {
        LLMEngineOutput {
            finish_reason: None,
            extra_args: None,
            disaggregated_params: None,
            routing_data: None,
        }
    }
}

/// What an annotation says.
#[derive(Clone, Debug)]
pub enum AnnotationValue {
    WorkerId(u64),
    Tokens(Vec<u32>),
}

/// A frame of a response stream.
#[derive(Clone, Debug)]
pub struct Annotated {
    pub data: Option<LLMEngineOutput>,
    /// The kind of a frame that is more than data; of an annotation, its name.
    pub event: Option<String>,
    pub annotation: Option<AnnotationValue>,
    /// The event says that the stream has failed.
    pub is_error: bool,
    pub error: Option<String>,
}

impl Annotated {
    /// The frame is no data frame but reports a failure.
    pub open spec fn spec_fails(self) -> bool {
        self.is_error || self.error is Some
    }

    /// A frame that carries output.
    pub fn from_data(data: LLMEngineOutput) -> (frame: Annotated)
        ensures
            frame == (Annotated {
                data: Some(data),
                event: None,
                annotation: None,
                is_error: false,
                error: None,
            }),
    {
        Annotated { data: Some(data), event: None, annotation: None, is_error: false, error: None }
    }

    /// The frame is the annotation of this name, and nothing else.
    pub open spec fn annotates(self, name: Seq<char>) -> bool {
        &&& self.data is None
        &&& self.event matches Some(event)
        &&& event@ == name
        &&& self.annotation is Some
        &&& !self.spec_fails()
    }

    /// A frame that annotates the response.
    pub fn from_annotation(name: &str, value: AnnotationValue) -> (frame: Annotated)
        ensures
            frame.annotates(name@),
            frame.annotation == Some(value),
    {
        Annotated {
            data: None,
            event: Some(name.to_owned()),
            annotation: Some(value),
            is_error: false,
            error: None,
        }
    }

    /// A frame that reports a failure.
    pub fn from_error(message: String) -> (frame: Annotated)
        ensures
            frame.data is None,
            frame.event is Some,
            frame.event->0@ == "error"@,
            frame.annotation is None,
            frame.is_error,
            frame.error == Some(message),
    {
        Annotated {
            data: None,
            event: Some("error".to_owned()),
            annotation: None,
            is_error: true,
            error: Some(message),
        }
    }
}

} // verus!
