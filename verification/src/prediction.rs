//! The prediction screen.
//!
//! The user selects a device (which loads three regression models), types
//! droplet parameters into free-text fields, and asks for a prediction with
//! the Go button or by dragging the slider. The screen is a state machine:
//! it mutates its fields on each event, asks its caller for outside work
//! (loading models, running the pipeline) through [`Command`]s, and takes
//! the outcomes back through [`Outcome`]s.
//!
//! Field invariant: every text field holds either the empty string or valid
//! numeric text; an invalid keystroke is rejected silently and the field
//! keeps its previous value. Whether an entered dimension exceeds the
//! selected device's maximum is checked only at render time; the stored
//! result is never touched by that check.

use crate::device::Device;
use crate::messages::Command;
use crate::messages::ModelError;
use crate::messages::Outcome;
use crate::messages::PredictionInput;
use crate::messages::SceneMessage;
use crate::numeric;
use crate::pipeline::PredictionResult;
use crate::pipeline::StageKind;
use vstd::prelude::*;
use vstd::string::StringExecFns;

verus! {

/// One loaded regression model, named by the device and the pipeline stage
/// it serves; the model artifact itself lives with the inference backend,
/// which resolves this handle's path.
#[derive(Clone, Copy, Debug, PartialEq, Eq, Structural)]
pub struct ModelHandle {
    pub device: Device,
    pub stage: StageKind,
}

impl ModelHandle {
    /// Path of the model artifact this handle stands for.
    pub fn path(&self) -> (r: String)
        ensures
            r@ == self.device.spec_model_path(self.stage),
    {
        self.device.model_path(self.stage)
    }
}

/// The three handles the device's table entry maps to, in pipeline order.
pub open spec fn spec_handles_for(device: Device) -> (ModelHandle, ModelHandle, ModelHandle) {
    (
        ModelHandle { device, stage: StageKind::SecondaryDimension },
        ModelHandle { device, stage: StageKind::FlowRate },
        ModelHandle { device, stage: StageKind::Frequency },
    )
}

/// Make the three model handles of one device, in pipeline order.
pub fn handles_for(device: Device) -> (r: (ModelHandle, ModelHandle, ModelHandle))
    ensures
        r == spec_handles_for(device),
{
    (
        ModelHandle { device, stage: StageKind::SecondaryDimension },
        ModelHandle { device, stage: StageKind::FlowRate },
        ModelHandle { device, stage: StageKind::Frequency },
    )
}

/// The screen's free-text fields. `None` is a field never touched; a field
/// that was touched holds the last accepted text.
#[derive(Clone, Debug, PartialEq, Eq)]
pub struct PredictionInputs {
    pub dim_a: Option<String>,
    pub dim_b: Option<String>,
    pub freq: Option<String>,
    pub capillary: Option<String>,
    pub interfacial: Option<String>,
}

impl PredictionInputs {
    /// Every touched field holds empty or valid numeric text.
    pub open spec fn wf(self) -> bool {
        &&& (self.dim_a matches Some(t) ==> numeric::accepts_field_text(t@))
        &&& (self.dim_b matches Some(t) ==> numeric::accepts_field_text(t@))
        &&& (self.freq matches Some(t) ==> numeric::accepts_field_text(t@))
        &&& (self.capillary matches Some(t) ==> numeric::accepts_field_text(t@))
        &&& (self.interfacial matches Some(t) ==> numeric::accepts_field_text(t@))
    }

    /// The fields after one keystroke event: the addressed field takes the
    /// new text if the text is empty or valid numeric text, and every field
    /// keeps its value otherwise.
    pub open spec fn spec_apply(self, input: PredictionInput) -> PredictionInputs {
        match input {
            PredictionInput::DimA(t) => if numeric::accepts_field_text(t@) {
                PredictionInputs { dim_a: Some(t), ..self }
            } else {
                self
            },
            PredictionInput::DimB(t) => if numeric::accepts_field_text(t@) {
                PredictionInputs { dim_b: Some(t), ..self }
            } else {
                self
            },
            PredictionInput::Freq(t) => if numeric::accepts_field_text(t@) {
                PredictionInputs { freq: Some(t), ..self }
            } else {
                self
            },
            PredictionInput::Capillary(t) => if numeric::accepts_field_text(t@) {
                PredictionInputs { capillary: Some(t), ..self }
            } else {
                self
            },
            PredictionInput::Interfacial(t) => if numeric::accepts_field_text(t@) {
                PredictionInputs { interfacial: Some(t), ..self }
            } else {
                self
            },
        }
    }

    /// Whether the event's text is accepted (stored), as opposed to the
    /// silent rejection that leaves the field unchanged.
    pub open spec fn spec_accepts(input: PredictionInput) -> bool {
        match input {
            PredictionInput::DimA(t) => numeric::accepts_field_text(t@),
            PredictionInput::DimB(t) => numeric::accepts_field_text(t@),
            PredictionInput::Freq(t) => numeric::accepts_field_text(t@),
            PredictionInput::Capillary(t) => numeric::accepts_field_text(t@),
            PredictionInput::Interfacial(t) => numeric::accepts_field_text(t@),
        }
    }
}

/// State of the prediction screen.
pub struct PredictionUI {
    pub selection: Option<Device>,
    /// Scalar bit pattern of the slider's value.
    pub slider_value: u32,
    pub input_data: PredictionInputs,
    /// The Go button is available. Never true without a loaded model triple.
    pub can_continue: bool,
    /// The stored result came from a completed run (it is not stale).
    pub computed: bool,
    /// The loaded model triple, in pipeline order; replaced wholesale on
    /// reselection, never partially.
    pub models: Option<(ModelHandle, ModelHandle, ModelHandle)>,
    /// Last computed result; kept unchanged when a run fails.
    pub result: PredictionResult,
    pub error: Option<ModelError>,
}

impl PredictionUI {
    /// The screen as first shown: nothing selected, nothing entered,
    /// nothing loaded, a zero result not yet computed.
    pub open spec fn spec_init() -> PredictionUI {
        PredictionUI {
            selection: None,
            slider_value: 0,
            input_data: PredictionInputs {
                dim_a: None,
                dim_b: None,
                freq: None,
                capillary: None,
                interfacial: None,
            },
            can_continue: false,
            computed: false,
            models: None,
            result: PredictionResult { minor_axis: 0, flow_pbs: 0, flow_fluosurf: 0, frequency: 0 },
            error: None,
        }
    }

    /// Screen invariant: the text fields are well-formed; the Go button is
    /// never available without a loaded model triple; and a loaded triple is
    /// exactly the three handles of the selected device.
    pub open spec fn wf(self) -> bool {
        &&& self.input_data.wf()
        &&& (self.can_continue ==> self.models is Some)
        &&& (self.models matches Some(t) ==> self.selection matches Some(d) && t
            == spec_handles_for(d))
    }

    /// The Go button does work: a model triple is loaded and the major
    /// dimension holds non-empty valid numeric text.
    pub open spec fn spec_go_enabled(self) -> bool {
        &&& self.models is Some
        &&& self.input_data.dim_a matches Some(t) && t@.len() > 0 && numeric::is_float_text(t@)
    }

    /// Exact relation between the screen before and after one event: the
    /// state `post` it must reach and the command `cmd` it must hand out.
    pub open spec fn update_ok(
        pre: PredictionUI,
        msg: SceneMessage,
        post: PredictionUI,
        cmd: Option<Command>,
    ) -> bool {
        match msg {
            SceneMessage::DeviceSelected(d) => {
                &&& post == PredictionUI {
                    selection: Some(d),
                    models: None,
                    can_continue: false,
                    computed: false,
                    ..pre
                }
                &&& cmd == Some(Command::LoadModels { device: d })
            },
            SceneMessage::PredictionInputChanged(input) => {
                &&& cmd is None
                &&& if PredictionInputs::spec_accepts(input) {
                    post == PredictionUI {
                        input_data: pre.input_data.spec_apply(input),
                        can_continue: pre.models is Some,
                        computed: false,
                        ..pre
                    }
                } else {
                    post == pre
                }
            },
            SceneMessage::SliderChanged { value, text } => {
                &&& post == PredictionUI {
                    slider_value: value,
                    input_data: if numeric::accepts_field_text(text@) {
                        PredictionInputs { dim_a: Some(text), ..pre.input_data }
                    } else {
                        pre.input_data
                    },
                    ..pre
                }
                &&& if pre.models is Some && pre.selection is Some {
                    cmd == Some(Command::Compute { major_axis: value })
                } else {
                    cmd is None
                }
            },
            SceneMessage::GoPressed => {
                if pre.spec_go_enabled() {
                    &&& post == PredictionUI { can_continue: false, ..pre }
                    &&& cmd matches Some(Command::ComputeFromText { major_text })
                        && pre.input_data.dim_a matches Some(t) && major_text@ == t@
                } else {
                    post == pre && cmd is None
                }
            },
            _ => post == pre && cmd is None,
        }
    }

    /// Exact relation between the screen before and after one outcome of
    /// outside work.
    pub open spec fn complete_ok(pre: PredictionUI, outcome: Outcome, post: PredictionUI) -> bool {
        match outcome {
            Outcome::ModelsLoaded(res) => match res {
                Ok(_) => match pre.selection {
                    Some(d) => post == PredictionUI {
                        models: Some(spec_handles_for(d)),
                        can_continue: true,
                        error: None,
                        ..pre
                    },
                    None => post == pre,
                },
                Err(e) => post == PredictionUI {
                    models: None,
                    can_continue: false,
                    error: Some(e),
                    ..pre
                },
            },
            Outcome::ComputeFinished(res) => match res {
                Ok(r) => post == PredictionUI { result: r, computed: true, error: None, ..pre },
                Err(e) => post == PredictionUI { error: Some(e), ..pre },
            },
            _ => post == pre,
        }
    }

    pub fn new() -> (r: PredictionUI)
        ensures
            r == PredictionUI::spec_init(),
            r.wf(),
    {
        PredictionUI {
            selection: None,
            slider_value: 0,
            input_data: PredictionInputs {
                dim_a: None,
                dim_b: None,
                freq: None,
                capillary: None,
                interfacial: None,
            },
            can_continue: false,
            computed: false,
            models: None,
            result: PredictionResult { minor_axis: 0, flow_pbs: 0, flow_fluosurf: 0, frequency: 0 },
            error: None,
        }
    }

    pub fn title(&self) -> (r: String)
        ensures
            r@ == "Prediction"@,
    {
        String::from_str("Prediction")
    }

    /// React to one event ([`PredictionUI::update_ok`]).
    pub fn update(&mut self, msg: SceneMessage) -> (cmd: Option<Command>)
        requires
            old(self).wf(),
        ensures
            final(self).wf(),
            PredictionUI::update_ok(*old(self), msg, *final(self), cmd),
    {
        match msg {
            SceneMessage::DeviceSelected(d) => {
                self.selection = Some(d);
                self.models = None;
                self.can_continue = false;
                self.computed = false;
                Some(Command::LoadModels { device: d })
            },
            SceneMessage::PredictionInputChanged(input) => {
                let accepted = match &input {
                    PredictionInput::DimA(t) => numeric::accepts_numeric_text(t.as_str()),
                    PredictionInput::DimB(t) => numeric::accepts_numeric_text(t.as_str()),
                    PredictionInput::Freq(t) => numeric::accepts_numeric_text(t.as_str()),
                    PredictionInput::Capillary(t) => numeric::accepts_numeric_text(t.as_str()),
                    PredictionInput::Interfacial(t) => numeric::accepts_numeric_text(t.as_str()),
                };
                if accepted {
                    match input {
                        PredictionInput::DimA(t) => {
                            self.input_data.dim_a = Some(t);
                        },
                        PredictionInput::DimB(t) => {
                            self.input_data.dim_b = Some(t);
                        },
                        PredictionInput::Freq(t) => {
                            self.input_data.freq = Some(t);
                        },
                        PredictionInput::Capillary(t) => {
                            self.input_data.capillary = Some(t);
                        },
                        PredictionInput::Interfacial(t) => {
                            self.input_data.interfacial = Some(t);
                        },
                    }
                    self.can_continue = self.models.is_some();
                    self.computed = false;
                }
                None
            },
            SceneMessage::SliderChanged { value, text } => {
                self.slider_value = value;
                if numeric::accepts_numeric_text(text.as_str()) {
                    self.input_data.dim_a = Some(text);
                }
                if self.models.is_some() && self.selection.is_some() {
                    Some(Command::Compute { major_axis: value })
                } else {
                    None
                }
            },
            SceneMessage::GoPressed => {
                if self.models.is_some() {
                    let go_text: Option<String> = match &self.input_data.dim_a {
                        Some(t) => {
                            if t.unicode_len() > 0 && numeric::is_valid_float_text(t.as_str()) {
                                Some(t.clone())
                            } else {
                                None
                            }
                        },
                        None => None,
                    };
                    match go_text {
                        Some(t) => {
                            self.can_continue = false;
                            Some(Command::ComputeFromText { major_text: t })
                        },
                        None => None,
                    }
                } else {
                    None
                }
            },
            _ => None,
        }
    }

    /// Take back the outcome of outside work ([`PredictionUI::complete_ok`]).
    pub fn complete(&mut self, outcome: Outcome)
        requires
            old(self).wf(),
        ensures
            final(self).wf(),
            PredictionUI::complete_ok(*old(self), outcome, *final(self)),
    {
        match outcome {
            Outcome::ModelsLoaded(res) => match res {
                Ok(_) => match self.selection {
                    Some(d) => {
                        self.models = Some(handles_for(d));
                        self.can_continue = true;
                        self.error = None;
                    },
                    None => {},
                },
                Err(e) => {
                    self.models = None;
                    self.can_continue = false;
                    self.error = Some(e);
                },
            },
            Outcome::ComputeFinished(res) => match res {
                Ok(r) => {
                    self.result = r;
                    self.computed = true;
                    self.error = None;
                },
                Err(e) => {
                    self.error = Some(e);
                },
            },
            _ => {},
        }
    }
}

/// In every well-formed screen state the Go button is available only after
/// a device was selected and exactly its three model handles were loaded:
/// the handles always precede `can_continue`.
pub proof fn lemma_models_precede_continue(s: PredictionUI)
    requires
        s.wf(),
        s.can_continue,
    ensures
        s.models is Some,
        s.selection is Some,
        s.models matches Some(t) && s.selection matches Some(d) && t == spec_handles_for(d),
{
}

} // verus!
