use drop_gui::pipeline::{
    stage_input_arity, stage_output_arity, Pipeline, PipelineAction, PredictionResult, StageKind,
    AXIS_SCALE_FACTOR_BITS,
};

/// Drive one full run, answering the divide action with real scalar division
/// and the three inference actions with the given stub outputs.
fn run_with_stubs(major: f32, stubs: [&[f32]; 3]) -> Pipeline {
    let (mut state, first) = Pipeline::start(major.to_bits());
    let mut pending = Some(first);
    let mut stage: usize = 0;
    while let Some(action) = pending.take() {
        let response: Vec<u32> = match action {
            PipelineAction::Divide {
                numerator,
                denominator,
            } => {
                vec![(f32::from_bits(numerator) / f32::from_bits(denominator)).to_bits()]
            }
            PipelineAction::Infer(_req) => {
                let out = stubs[stage].iter().map(|v| v.to_bits()).collect();
                stage += 1;
                out
            }
        };
        let (next, act) = state.advance(&response);
        state = next;
        pending = act;
    }
    state
}

#[test]
fn first_action_divides_by_the_scale_factor() {
    let (state, action) = Pipeline::start((40.0f32).to_bits());
    assert!(matches!(state, Pipeline::Scaling { major_axis } if major_axis == (40.0f32).to_bits()));
    match action {
        PipelineAction::Divide {
            numerator,
            denominator,
        } => {
            assert_eq!(numerator, (40.0f32).to_bits());
            assert_eq!(denominator, AXIS_SCALE_FACTOR_BITS);
        }
        other => panic!("expected a divide action, got {:?}", other),
    }
}

#[test]
fn stage_one_receives_the_scaled_dimension() {
    // Entering 40 for device "100": the first stage must receive
    // [40 / 1.7647058823529411], roughly [22.67].
    let major = 40.0f32;
    let (state, _divide) = Pipeline::start(major.to_bits());
    let quotient = major / f32::from_bits(AXIS_SCALE_FACTOR_BITS);
    assert!((quotient - 22.67).abs() < 0.01);
    let (state, action) = state.advance(&vec![quotient.to_bits()]);
    assert!(matches!(state, Pipeline::AwaitSecondaryDimension { scaled } if scaled == quotient.to_bits()));
    match action {
        Some(PipelineAction::Infer(req)) => {
            assert_eq!(req.stage, StageKind::SecondaryDimension);
            assert_eq!(req.input, vec![quotient.to_bits()]);
        }
        other => panic!("expected an inference request, got {:?}", other),
    }
}

#[test]
fn stub_run_assembles_the_result_in_order() {
    // Stub models returning [5.0], [3.0, 2.0], [7.0] must give exactly
    // (5.0, 3.0, 2.0, 7.0).
    let end = run_with_stubs(40.0, [&[5.0], &[3.0, 2.0], &[7.0]]);
    let result = end.result().expect("run should complete");
    assert_eq!(
        result,
        PredictionResult {
            minor_axis: (5.0f32).to_bits(),
            flow_pbs: (3.0f32).to_bits(),
            flow_fluosurf: (2.0f32).to_bits(),
            frequency: (7.0f32).to_bits(),
        }
    );
}

#[test]
fn stage_wiring_passes_earlier_outputs_forward() {
    let scaled = (22.666666f32).to_bits();
    let minor = (5.0f32).to_bits();
    let (state, action) =
        Pipeline::AwaitSecondaryDimension { scaled }.advance(&vec![minor]);
    assert_eq!(state, Pipeline::AwaitFlowRate { scaled, minor_axis: minor });
    match action {
        Some(PipelineAction::Infer(req)) => {
            assert_eq!(req.stage, StageKind::FlowRate);
            assert_eq!(req.input, vec![scaled, minor]);
        }
        other => panic!("expected an inference request, got {:?}", other),
    }
    let flows = vec![(3.0f32).to_bits(), (2.0f32).to_bits()];
    let (state, action) = state.advance(&flows);
    match action {
        Some(PipelineAction::Infer(req)) => {
            assert_eq!(req.stage, StageKind::Frequency);
            assert_eq!(req.input, flows);
        }
        other => panic!("expected an inference request, got {:?}", other),
    }
    let (state, action) = state.advance(&vec![(7.0f32).to_bits()]);
    assert!(action.is_none());
    assert!(matches!(state, Pipeline::Done { .. }));
}

#[test]
fn wrong_width_fails_the_whole_run() {
    let (state, _): (Pipeline, _) = Pipeline::start((40.0f32).to_bits());
    // The divide step answers with one scalar; two is a fault.
    let (state, action) = state.advance(&vec![1, 2]);
    assert_eq!(state, Pipeline::Failed);
    assert!(action.is_none());
    assert_eq!(state.result(), None);

    let (state, _) = Pipeline::AwaitFlowRate { scaled: 1, minor_axis: 2 }.advance(&vec![3]);
    assert_eq!(state, Pipeline::Failed);

    // Failed absorbs any further response.
    let (state, action) = state.advance(&vec![1]);
    assert_eq!(state, Pipeline::Failed);
    assert!(action.is_none());
}

#[test]
fn backend_failure_fails_the_run() {
    let (state, _) = Pipeline::start((40.0f32).to_bits());
    let state = state.fail();
    assert_eq!(state, Pipeline::Failed);
    assert_eq!(state.result(), None);
}

#[test]
fn declared_arities_match_the_chain() {
    assert_eq!(stage_input_arity(StageKind::SecondaryDimension), 1);
    assert_eq!(stage_output_arity(StageKind::SecondaryDimension), 1);
    assert_eq!(stage_input_arity(StageKind::FlowRate), 2);
    assert_eq!(stage_output_arity(StageKind::FlowRate), 2);
    assert_eq!(stage_input_arity(StageKind::Frequency), 2);
    assert_eq!(stage_output_arity(StageKind::Frequency), 1);
}

#[test]
fn identical_runs_give_bit_identical_results() {
    let first = run_with_stubs(40.0, [&[5.0], &[3.0, 2.0], &[7.0]]);
    let second = run_with_stubs(40.0, [&[5.0], &[3.0, 2.0], &[7.0]]);
    assert_eq!(first.result(), second.result());
    assert_eq!(first, second);
}
