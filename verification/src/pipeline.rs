//! The three-stage inference pipeline.
//!
//! One scalar input (the entered major dimension) is turned into four derived
//! scalars: the pipeline scales the input by a fixed empirical factor, feeds
//! the scaled value to the secondary-dimension model, feeds the scaled value
//! and the predicted minor axis to the flow-rate model, and feeds the two
//! predicted flow rates to the frequency model.
//!
//! Running a regression model (and dividing two scalars) is work this library
//! cannot do itself: it is floating-point work owned by the inference
//! backend. The pipeline is therefore a state machine. Each step hands the
//! caller a [`PipelineAction`] naming exactly the outside work to perform;
//! the caller hands the outcome back through [`Pipeline::advance`]. Every
//! wiring decision — what each stage receives, in what order the stages run,
//! how many values each stage must return, and how the final result is
//! assembled — is made and verified here. The computation is all-or-nothing:
//! a response of the wrong width moves the pipeline to [`Pipeline::Failed`]
//! and no partial result is ever produced.

use vstd::prelude::*;

verus! {

/// Bit pattern of the empirical scale factor (~1.7647058823529411) by which
/// the entered major dimension is divided before the first stage.
pub const AXIS_SCALE_FACTOR_BITS: u32 = 0x3FE1_E1E2;

/// The three regression models, in the order the pipeline runs them.
#[derive(Clone, Copy, Debug, PartialEq, Eq, Structural)]
pub enum StageKind {
    SecondaryDimension,
    FlowRate,
    Frequency,
}

/// Declared input width of each stage's model.
pub open spec fn spec_stage_input_arity(stage: StageKind) -> nat {
    match stage {
        StageKind::SecondaryDimension => 1,
        StageKind::FlowRate => 2,
        StageKind::Frequency => 2,
    }
}

/// Declared output width of each stage's model.
pub open spec fn spec_stage_output_arity(stage: StageKind) -> nat {
    match stage {
        StageKind::SecondaryDimension => 1,
        StageKind::FlowRate => 2,
        StageKind::Frequency => 1,
    }
}

/// How many scalars the stage's model takes in one row.
pub fn stage_input_arity(stage: StageKind) -> (r: usize)
    ensures
        r == spec_stage_input_arity(stage),
{
    match stage {
        StageKind::SecondaryDimension => 1,
        StageKind::FlowRate => 2,
        StageKind::Frequency => 2,
    }
}

/// How many scalars the stage's model returns in one row.
pub fn stage_output_arity(stage: StageKind) -> (r: usize)
    ensures
        r == spec_stage_output_arity(stage),
{
    match stage {
        StageKind::SecondaryDimension => 1,
        StageKind::FlowRate => 2,
        StageKind::Frequency => 1,
    }
}

/// One row of scalars to run through one stage's model.
#[derive(Clone, Debug, PartialEq)]
pub struct InferenceRequest {
    pub stage: StageKind,
    pub input: Vec<u32>,
}

pub struct InferenceRequestView {
    pub stage: StageKind,
    pub input: Seq<u32>,
}

impl View for InferenceRequest {
    type V = InferenceRequestView;

    open spec fn view(&self) -> InferenceRequestView {
        InferenceRequestView { stage: self.stage, input: self.input@ }
    }
}

/// The outside work the pipeline asks its caller to perform next.
#[derive(Clone, Debug, PartialEq)]
pub enum PipelineAction {
    /// Divide the scalar `numerator` by the scalar `denominator`.
    Divide { numerator: u32, denominator: u32 },
    /// Run one row through one stage's model.
    Infer(InferenceRequest),
}

pub enum PipelineActionView {
    Divide { numerator: u32, denominator: u32 },
    Infer(InferenceRequestView),
}

impl View for PipelineAction {
    type V = PipelineActionView;

    open spec fn view(&self) -> PipelineActionView {
        match self {
            PipelineAction::Divide { numerator, denominator } => PipelineActionView::Divide {
                numerator: *numerator,
                denominator: *denominator,
            },
            PipelineAction::Infer(req) => PipelineActionView::Infer(req@),
        }
    }
}

/// The four derived scalars, recomputed wholesale on every successful run.
#[derive(Clone, Copy, Debug, PartialEq, Eq, Structural)]
pub struct PredictionResult {
    pub minor_axis: u32,
    pub flow_pbs: u32,
    pub flow_fluosurf: u32,
    pub frequency: u32,
}

/// The pipeline's position in the fixed chain. The states other than `Done`
/// and `Failed` are each waiting for the outcome of one outside action.
#[derive(Clone, Copy, Debug, PartialEq, Eq, Structural)]
pub enum Pipeline {
    /// Waiting for the entered major dimension divided by the scale factor.
    Scaling { major_axis: u32 },
    /// Waiting for the secondary-dimension model's one output.
    AwaitSecondaryDimension { scaled: u32 },
    /// Waiting for the flow-rate model's two outputs.
    AwaitFlowRate { scaled: u32, minor_axis: u32 },
    /// Waiting for the frequency model's one output.
    AwaitFrequency { minor_axis: u32, flow_pbs: u32, flow_fluosurf: u32 },
    Done { result: PredictionResult },
    Failed,
}

impl Pipeline {
    /// Starting state and first action for one run on `major_axis`.
    pub open spec fn spec_start(major_axis: u32) -> (Pipeline, PipelineActionView) {
        (
            Pipeline::Scaling { major_axis },
            PipelineActionView::Divide {
                numerator: major_axis,
                denominator: AXIS_SCALE_FACTOR_BITS,
            },
        )
    }

    /// One step of the chain: what the pipeline does with the scalars that
    /// came back from the action it was waiting for. A response of the wrong
    /// width fails the whole run; `Done` and `Failed` absorb every response.
    pub open spec fn spec_advance(self, response: Seq<u32>) -> (Pipeline, Option<
        PipelineActionView,
    >) {
        match self {
            Pipeline::Scaling { major_axis } => {
                if response.len() == 1 {
                    (
                        Pipeline::AwaitSecondaryDimension { scaled: response[0] },
                        Some(
                            PipelineActionView::Infer(
                                InferenceRequestView {
                                    stage: StageKind::SecondaryDimension,
                                    input: seq![response[0]],
                                },
                            ),
                        ),
                    )
                } else {
                    (Pipeline::Failed, None)
                }
            },
            Pipeline::AwaitSecondaryDimension { scaled } => {
                if response.len() == spec_stage_output_arity(StageKind::SecondaryDimension) {
                    (
                        Pipeline::AwaitFlowRate { scaled, minor_axis: response[0] },
                        Some(
                            PipelineActionView::Infer(
                                InferenceRequestView {
                                    stage: StageKind::FlowRate,
                                    input: seq![scaled, response[0]],
                                },
                            ),
                        ),
                    )
                } else {
                    (Pipeline::Failed, None)
                }
            },
            Pipeline::AwaitFlowRate { scaled, minor_axis } => {
                if response.len() == spec_stage_output_arity(StageKind::FlowRate) {
                    (
                        Pipeline::AwaitFrequency {
                            minor_axis,
                            flow_pbs: response[0],
                            flow_fluosurf: response[1],
                        },
                        Some(
                            PipelineActionView::Infer(
                                InferenceRequestView {
                                    stage: StageKind::Frequency,
                                    input: seq![response[0], response[1]],
                                },
                            ),
                        ),
                    )
                } else {
                    (Pipeline::Failed, None)
                }
            },
            Pipeline::AwaitFrequency { minor_axis, flow_pbs, flow_fluosurf } => {
                if response.len() == spec_stage_output_arity(StageKind::Frequency) {
                    (
                        Pipeline::Done {
                            result: PredictionResult {
                                minor_axis,
                                flow_pbs,
                                flow_fluosurf,
                                frequency: response[0],
                            },
                        },
                        None,
                    )
                } else {
                    (Pipeline::Failed, None)
                }
            },
            Pipeline::Done { result } => (Pipeline::Done { result }, None),
            Pipeline::Failed => (Pipeline::Failed, None),
        }
    }

    /// Begin a run on the entered major dimension. The first action divides
    /// it by the fixed scale factor; the quotient is handed back through
    /// [`Pipeline::advance`].
    pub fn start(major_axis: u32) -> (r: (Pipeline, PipelineAction))
        ensures
            r.0 == Pipeline::spec_start(major_axis).0,
            r.1@ == Pipeline::spec_start(major_axis).1,
    {
        (
            Pipeline::Scaling { major_axis },
            PipelineAction::Divide { numerator: major_axis, denominator: AXIS_SCALE_FACTOR_BITS },
        )
    }

    /// Hand back the scalars produced by the pending action and receive the
    /// next state, and the next action if one is owed ([`Pipeline::spec_advance`]).
    pub fn advance(self, response: &Vec<u32>) -> (r: (Pipeline, Option<PipelineAction>))
        ensures
            r.0 == self.spec_advance(response@).0,
            (r.1 is Some) == (self.spec_advance(response@).1 is Some),
            r.1 matches Some(act) ==> self.spec_advance(response@).1 matches Some(v) && act@ == v,
    {
        match self {
            Pipeline::Scaling { major_axis } => {
                if response.len() == 1 {
                    let scaled = response[0];
                    let req = InferenceRequest {
                        stage: StageKind::SecondaryDimension,
                        input: vec![scaled],
                    };
                    proof {
                        assert(req.input@ =~= seq![scaled]);
                    }
                    (
                        Pipeline::AwaitSecondaryDimension { scaled },
                        Some(PipelineAction::Infer(req)),
                    )
                } else {
                    (Pipeline::Failed, None)
                }
            },
            Pipeline::AwaitSecondaryDimension { scaled } => {
                if response.len() == stage_output_arity(StageKind::SecondaryDimension) {
                    let minor_axis = response[0];
                    let req = InferenceRequest {
                        stage: StageKind::FlowRate,
                        input: vec![scaled, minor_axis],
                    };
                    proof {
                        assert(req.input@ =~= seq![scaled, minor_axis]);
                    }
                    (Pipeline::AwaitFlowRate { scaled, minor_axis }, Some(
                        PipelineAction::Infer(req),
                    ))
                } else {
                    (Pipeline::Failed, None)
                }
            },
            Pipeline::AwaitFlowRate { scaled, minor_axis } => {
                if response.len() == stage_output_arity(StageKind::FlowRate) {
                    let flow_pbs = response[0];
                    let flow_fluosurf = response[1];
                    let req = InferenceRequest {
                        stage: StageKind::Frequency,
                        input: vec![flow_pbs, flow_fluosurf],
                    };
                    proof {
                        assert(req.input@ =~= seq![flow_pbs, flow_fluosurf]);
                    }
                    (Pipeline::AwaitFrequency { minor_axis, flow_pbs, flow_fluosurf }, Some(
                        PipelineAction::Infer(req),
                    ))
                } else {
                    (Pipeline::Failed, None)
                }
            },
            Pipeline::AwaitFrequency { minor_axis, flow_pbs, flow_fluosurf } => {
                if response.len() == stage_output_arity(StageKind::Frequency) {
                    (
                        Pipeline::Done {
                            result: PredictionResult {
                                minor_axis,
                                flow_pbs,
                                flow_fluosurf,
                                frequency: response[0],
                            },
                        },
                        None,
                    )
                } else {
                    (Pipeline::Failed, None)
                }
            },
            Pipeline::Done { result } => (Pipeline::Done { result }, None),
            Pipeline::Failed => (Pipeline::Failed, None),
        }
    }

    /// Record that the pending outside action itself failed (the backend
    /// reported an error): the whole run fails, no partial result.
    pub fn fail(self) -> (r: Pipeline)
        ensures
            r == Pipeline::Failed,
    {
        Pipeline::Failed
    }

    /// The assembled result, present exactly when the run completed.
    pub fn result(&self) -> (r: Option<PredictionResult>)
        ensures
            match *self {
                Pipeline::Done { result } => r == Some(result),
                _ => r is None,
            },
    {
        match self {
            Pipeline::Done { result } => Some(*result),
            _ => None,
        }
    }

    /// The state a run on `major_axis` reaches after the given responses,
    /// fed in order.
    pub open spec fn spec_outcome(major_axis: u32, responses: Seq<Seq<u32>>) -> Pipeline
        decreases responses.len(),
    {
        if responses.len() == 0 {
            Pipeline::spec_start(major_axis).0
        } else {
            Pipeline::spec_outcome(major_axis, responses.drop_last()).spec_advance(
                responses.last(),
            ).0
        }
    }
}

/// The pipeline is a pure function of its inputs: two runs fed the same
/// major dimension and the same stage responses reach the same state, so
/// equal inputs against fixed model outputs give bit-identical results.
/// (Whether the inference backend itself answers the same request the same
/// way twice is the backend's affair, not stated here.)
pub proof fn lemma_pipeline_deterministic(
    major_axis: u32,
    responses: Seq<Seq<u32>>,
    first: Pipeline,
    second: Pipeline,
)
    requires
        first == Pipeline::spec_outcome(major_axis, responses),
        second == Pipeline::spec_outcome(major_axis, responses),
    ensures
        first == second,
{
}

/// A failed run stays failed: every later response is absorbed and no
/// partial result can appear.
pub proof fn lemma_failure_is_absorbing(response: Seq<u32>)
    ensures
        (Pipeline::Failed.spec_advance(response) == (
            Pipeline::Failed,
            None::<PipelineActionView>,
        )),
{
}

/// A run whose four responses — the quotient and the three stage outputs —
/// all have the declared widths runs to completion, and assembles exactly
/// the secondary dimension, the two flow rates and the frequency that the
/// stages returned, in that order.
pub proof fn lemma_run_to_completion(major_axis: u32, responses: Seq<Seq<u32>>)
    requires
        responses.len() == 4,
        responses[0].len() == 1,
        responses[1].len() == spec_stage_output_arity(StageKind::SecondaryDimension),
        responses[2].len() == spec_stage_output_arity(StageKind::FlowRate),
        responses[3].len() == spec_stage_output_arity(StageKind::Frequency),
    ensures
        (Pipeline::spec_outcome(major_axis, responses) == Pipeline::Done {
            result: PredictionResult {
                minor_axis: responses[1][0],
                flow_pbs: responses[2][0],
                flow_fluosurf: responses[2][1],
                frequency: responses[3][0],
            },
        }),
{
    let r0 = responses.take(0);
    let r1 = responses.take(1);
    let r2 = responses.take(2);
    let r3 = responses.take(3);
    assert(r0.len() == 0);
    assert(r1.drop_last() =~= r0 && r1.last() == responses[0]);
    assert(r2.drop_last() =~= r1 && r2.last() == responses[1]);
    assert(r3.drop_last() =~= r2 && r3.last() == responses[2]);
    assert(responses.drop_last() =~= r3 && responses.last() == responses[3]);
    let scaled = responses[0][0];
    assert(Pipeline::spec_outcome(major_axis, r0) == Pipeline::Scaling { major_axis });
    assert(Pipeline::spec_outcome(major_axis, r1) == Pipeline::spec_outcome(
        major_axis,
        r0,
    ).spec_advance(responses[0]).0);
    assert(Pipeline::spec_outcome(major_axis, r1) == Pipeline::AwaitSecondaryDimension { scaled });
    assert(Pipeline::spec_outcome(major_axis, r2) == Pipeline::AwaitFlowRate {
        scaled,
        minor_axis: responses[1][0],
    });
    assert(Pipeline::spec_outcome(major_axis, r3) == Pipeline::AwaitFrequency {
        minor_axis: responses[1][0],
        flow_pbs: responses[2][0],
        flow_fluosurf: responses[2][1],
    });
}

/// Every inference request the pipeline emits has exactly the input width
/// its stage declares.
pub proof fn lemma_request_arity(state: Pipeline, response: Seq<u32>)
    ensures
        (state.spec_advance(response).1 matches Some(PipelineActionView::Infer(req))
            ==> req.input.len() == spec_stage_input_arity(req.stage)),
{
}

} // verus!
