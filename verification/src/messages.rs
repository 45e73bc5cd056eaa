//! Events, commands and outcomes exchanged between the screens and the
//! world around them.
//!
//! A user action arrives as a [`Message`] (navigation) or a [`SceneMessage`]
//! (forwarded to the active screen). A screen that needs outside work — a
//! model load, an inference run, a file dialog, a training run — answers
//! with a [`Command`]; the caller performs it and hands the result back as
//! an [`Outcome`]. The screens never block and never touch the outside world
//! themselves.

use crate::device::Device;
use crate::pipeline::PredictionResult;
use vstd::prelude::*;

verus! {

/// A model the user trained in this session: its display name and, when one
/// was chosen, the directory it was saved under.
#[derive(Debug, Clone, PartialEq, Eq)]
pub struct UserModel {
    pub name: String,
    pub path: Option<String>,
}

impl UserModel {
    /// The text under which the model is shown in the selection list.
    pub fn display_name(&self) -> (r: &str)
        ensures
            r@ == self.name@,
    {
        self.name.as_str()
    }
}

/// Which text field of the prediction screen a keystroke addresses, with
/// the field's new text.
#[derive(Clone, Debug, PartialEq, Eq)]
pub enum PredictionInput {
    DimA(String),
    DimB(String),
    Freq(String),
    Capillary(String),
    Interfacial(String),
}

/// An event for the active screen.
#[derive(Clone, Debug, PartialEq)]
pub enum SceneMessage {
    GoPressed,
    CreateToggled(bool),
    /// New text for the training screen's model-name field.
    InputChanged(String),
    SelectCSV,
    SelectModelSavePath,
    ModelSelected(UserModel),
    DeviceSelected(Device),
    PredictionInputChanged(PredictionInput),
    /// The slider moved: the scalar bit pattern of its new value, and that
    /// value rendered as text for the major-dimension field.
    SliderChanged { value: u32, text: String },
}

/// A navigation event, or an event for the active screen.
#[derive(Clone, Debug, PartialEq)]
pub enum Message {
    BackPressed,
    NextPressed,
    SceneMessage(SceneMessage),
}

/// What went wrong with a model: it could not be loaded, or an inference
/// run through it failed.
#[derive(Clone, Copy, Debug, PartialEq, Eq, Structural)]
pub enum ModelError {
    Load,
    Inference,
}

impl ModelError {
    /// The message shown for the error on the next render.
    pub fn message(&self) -> (r: &'static str)
        ensures
            *self == ModelError::Load ==> r@ == "model could not be loaded"@,
            *self == ModelError::Inference ==> r@ == "inference failed"@,
    {
        match self {
            ModelError::Load => "model could not be loaded",
            ModelError::Inference => "inference failed",
        }
    }
}

/// Outside work a screen asks its caller to perform.
#[derive(Clone, Debug, PartialEq)]
pub enum Command {
    /// Load the three model artifacts of the device's table entry.
    LoadModels { device: Device },
    /// Run the inference pipeline on this major dimension (a scalar bit
    /// pattern).
    Compute { major_axis: u32 },
    /// Run the inference pipeline on this entered major dimension. The text
    /// is non-empty valid numeric text, so it parses.
    ComputeFromText { major_text: String },
    /// Ask the user for a CSV file of training data.
    PickCsvFile,
    /// Ask the user for a directory to save the trained model under.
    PickSaveLocation,
    /// Train a new model from the CSV file, writing it under the given path.
    Train { csv_path: String, model_output_path: String },
}

/// What a performed [`Command`] came back with.
#[derive(Debug, PartialEq)]
pub enum Outcome {
    /// All three model artifacts loaded, or one of them failed.
    ModelsLoaded(Result<(), ModelError>),
    /// The pipeline ran to completion, or failed; on failure the previous
    /// result is kept.
    ComputeFinished(Result<PredictionResult, ModelError>),
    /// The file dialog's answer, verbatim; `None` is the user cancelling.
    CsvChosen(Option<String>),
    /// The directory dialog's answer, verbatim; `None` is the user
    /// cancelling.
    SaveLocationChosen(Option<String>),
    /// The training run finished, or failed with a message to display.
    TrainingFinished(Result<(), String>),
}

} // verus!
