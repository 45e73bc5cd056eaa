//! The end-to-end scenario: select device "100", enter "40" as the major
//! dimension, press Go, and drive the pipeline with stub models returning
//! [5.0], [3.0, 2.0], [7.0] — the stored result must be (5.0, 3.0, 2.0, 7.0),
//! and the first stage must receive [40 / 1.7647058823529411].

use drop_gui::device::Device;
use drop_gui::messages::{Command, Message, ModelError, Outcome, PredictionInput, SceneMessage};
use drop_gui::pipeline::{Pipeline, PipelineAction, StageKind};
use drop_gui::prediction::PredictionUI;
use drop_gui::scene::{Scene, Scenes};

/// Perform one command the way the application shell would, with stub models
/// in place of the inference backend.
fn perform(cmd: Command, stubs: [&[f32]; 3]) -> Outcome {
    match cmd {
        Command::LoadModels { .. } => Outcome::ModelsLoaded(Ok(())),
        Command::PickCsvFile => Outcome::CsvChosen(None),
        Command::PickSaveLocation => Outcome::SaveLocationChosen(None),
        Command::Train { .. } => Outcome::TrainingFinished(Ok(())),
        Command::Compute { major_axis } => run_pipeline(major_axis, stubs),
        Command::ComputeFromText { major_text } => {
            let major: f32 = major_text.parse().expect("the screen only hands out valid text");
            run_pipeline(major.to_bits(), stubs)
        }
    }
}

fn run_pipeline(major_axis: u32, stubs: [&[f32]; 3]) -> Outcome {
    let (mut state, first) = Pipeline::start(major_axis);
    let mut pending = Some(first);
    let mut seen_stage_inputs: Vec<(StageKind, Vec<u32>)> = Vec::new();
    while let Some(action) = pending.take() {
        let response: Vec<u32> = match action {
            PipelineAction::Divide { numerator, denominator } => {
                vec![(f32::from_bits(numerator) / f32::from_bits(denominator)).to_bits()]
            }
            PipelineAction::Infer(req) => {
                let stage_index = seen_stage_inputs.len();
                seen_stage_inputs.push((req.stage, req.input.clone()));
                stubs[stage_index].iter().map(|v| v.to_bits()).collect()
            }
        };
        let (next, act) = state.advance(&response);
        state = next;
        pending = act;
    }
    // The first stage received exactly the scaled major dimension.
    let (first_stage, first_input) = &seen_stage_inputs[0];
    assert_eq!(*first_stage, StageKind::SecondaryDimension);
    let received = f32::from_bits(first_input[0]);
    assert_eq!(received, f32::from_bits(major_axis) / 1.7647058823529411f32);
    match state.result() {
        Some(result) => Outcome::ComputeFinished(Ok(result)),
        None => Outcome::ComputeFinished(Err(ModelError::Inference)),
    }
}

#[test]
fn select_device_enter_dimension_and_go() {
    let stubs: [&[f32]; 3] = [&[5.0], &[3.0, 2.0], &[7.0]];
    let mut scenes = Scenes::new();
    scenes.dispatch(Message::NextPressed);
    assert_eq!(scenes.title(), "Prediction");

    // Select device "100".
    let cmd = scenes
        .dispatch(Message::SceneMessage(SceneMessage::DeviceSelected(Device::CH100)))
        .expect("selecting a device asks for its models");
    let outcome = perform(cmd, stubs);
    scenes.complete(outcome);

    // Enter "40" as the major dimension.
    let cmd = scenes.dispatch(Message::SceneMessage(SceneMessage::PredictionInputChanged(
        PredictionInput::DimA("40".to_string()),
    )));
    assert!(cmd.is_none());

    // Press Go and drive the pipeline.
    let cmd = scenes
        .dispatch(Message::SceneMessage(SceneMessage::GoPressed))
        .expect("go asks for a pipeline run");
    assert_eq!(cmd, Command::ComputeFromText { major_text: "40".to_string() });
    let outcome = perform(cmd, stubs);

    // The first stage received [40 / 1.7647058823529411], roughly [22.67] —
    // checked inside run_pipeline. The result is the stubs' outputs in order.
    scenes.complete(outcome);
    let ui: &PredictionUI = match &scenes.list[1] {
        Scene::Prediction(ui) => ui,
        _ => panic!("expected the prediction scene"),
    };
    assert!(ui.computed);
    assert_eq!(f32::from_bits(ui.result.minor_axis), 5.0);
    assert_eq!(f32::from_bits(ui.result.flow_pbs), 3.0);
    assert_eq!(f32::from_bits(ui.result.flow_fluosurf), 2.0);
    assert_eq!(f32::from_bits(ui.result.frequency), 7.0);

    // Display validity for this run: 40 is within device "100"'s maximum.
    let entered = 40.0f32;
    assert!(Device::CH100.accepts_dimension(entered.to_bits()));
}
