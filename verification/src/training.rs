//! The training screen.
//!
//! The user either picks a previously created model or toggles "create new"
//! and names a new one, chooses a CSV file of training data and optionally a
//! save location, and presses Go to have an outside routine train the model.
//! The screen only keeps state and dispatches: file dialogs and the training
//! run itself are asked of the caller through [`Command`]s, and their
//! results come back as [`Outcome`]s. A training error is stored and shown
//! on the next render; a successful run appends the new model to the
//! session's in-memory list.

use crate::messages::Command;
use crate::messages::Outcome;
use crate::messages::SceneMessage;
use crate::messages::UserModel;
use vstd::prelude::*;
use vstd::string::StringExecFns;

verus! {

/// State of the training screen.
pub struct TrainingUI {
    pub selected_model: Option<UserModel>,
    /// Name entered for a model to create.
    pub model_name: String,
    /// Chosen CSV file of training data; `None` until one is chosen.
    pub data_path: Option<String>,
    /// Models created in this session, oldest first.
    pub models: Vec<UserModel>,
    /// The "create new model" toggle.
    pub creation_toggle: bool,
    /// Chosen directory to save a created model under.
    pub model_save_path: Option<String>,
    /// Message of the last failed training run, until a run succeeds.
    pub error: Option<String>,
}

impl TrainingUI {
    /// The screen as first shown: nothing selected, nothing entered, no
    /// models yet.
    pub open spec fn is_init(self) -> bool {
        &&& self.selected_model is None
        &&& self.model_name@.len() == 0
        &&& self.data_path is None
        &&& self.models@.len() == 0
        &&& !self.creation_toggle
        &&& self.model_save_path is None
        &&& self.error is None
    }

    /// Path the trained model is written under: the chosen save directory
    /// joined with the entered name, or the bare name with no directory.
    pub open spec fn spec_output_path(self) -> Seq<char> {
        match self.model_save_path {
            Some(dir) => dir@ + "/"@ + self.model_name@,
            None => self.model_name@,
        }
    }

    /// Training can start: a CSV file is chosen and the model name is not
    /// empty. Render-time predicate for showing the Go button, and the exact
    /// condition under which Go asks for a training run.
    pub open spec fn spec_can_create(self) -> bool {
        self.data_path is Some && self.model_name@.len() > 0
    }

    /// Exact relation between the screen before and after one event.
    pub open spec fn update_ok(
        pre: TrainingUI,
        msg: SceneMessage,
        post: TrainingUI,
        cmd: Option<Command>,
    ) -> bool {
        match msg {
            SceneMessage::ModelSelected(m) => {
                post == TrainingUI { selected_model: Some(m), ..pre } && cmd is None
            },
            SceneMessage::InputChanged(t) => {
                post == TrainingUI { model_name: t, ..pre } && cmd is None
            },
            SceneMessage::SelectCSV => post == pre && cmd == Some(Command::PickCsvFile),
            SceneMessage::SelectModelSavePath => post == pre && cmd == Some(
                Command::PickSaveLocation,
            ),
            SceneMessage::CreateToggled(b) => {
                post == TrainingUI { creation_toggle: b, ..pre } && cmd is None
            },
            SceneMessage::GoPressed => {
                if pre.spec_can_create() {
                    &&& post == pre
                    &&& cmd matches Some(Command::Train { csv_path, model_output_path })
                        && pre.data_path matches Some(p) && csv_path@ == p@ && model_output_path@
                        == pre.spec_output_path()
                } else {
                    post == pre && cmd is None
                }
            },
            _ => post == pre && cmd is None,
        }
    }

    /// Exact relation between the screen before and after one outcome of
    /// outside work.
    pub open spec fn complete_ok(pre: TrainingUI, outcome: Outcome, post: TrainingUI) -> bool {
        match outcome {
            Outcome::CsvChosen(p) => post == TrainingUI { data_path: p, ..pre },
            Outcome::SaveLocationChosen(p) => post == TrainingUI { model_save_path: p, ..pre },
            Outcome::TrainingFinished(res) => match res {
                Ok(_) => {
                    &&& post == TrainingUI { models: post.models, error: None, ..pre }
                    &&& post.models@.len() == pre.models@.len() + 1
                    &&& post.models@.subrange(0, pre.models@.len() as int) == pre.models@
                    &&& post.models@.last().name@ == pre.model_name@
                    &&& (post.models@.last().path is Some) == (pre.model_save_path is Some)
                    &&& (post.models@.last().path matches Some(mp)
                        ==> pre.model_save_path matches Some(sp) && mp@ == sp@)
                },
                Err(m) => post == TrainingUI { error: Some(m), ..pre },
            },
            _ => post == pre,
        }
    }

    pub fn new() -> (r: TrainingUI)
        ensures
            r.is_init(),
    {
        TrainingUI {
            selected_model: None,
            model_name: String::new(),
            data_path: None,
            models: Vec::new(),
            creation_toggle: false,
            model_save_path: None,
            error: None,
        }
    }

    /// Training can start ([`TrainingUI::spec_can_create`]).
    pub fn can_create(&self) -> (r: bool)
        ensures
            r == self.spec_can_create(),
    {
        self.data_path.is_some() && self.model_name.as_str().unicode_len() > 0
    }

    /// React to one event ([`TrainingUI::update_ok`]).
    pub fn update(&mut self, msg: SceneMessage) -> (cmd: Option<Command>)
        ensures
            TrainingUI::update_ok(*old(self), msg, *final(self), cmd),
    {
        match msg {
            SceneMessage::ModelSelected(m) => {
                self.selected_model = Some(m);
                None
            },
            SceneMessage::InputChanged(t) => {
                self.model_name = t;
                None
            },
            SceneMessage::SelectCSV => Some(Command::PickCsvFile),
            SceneMessage::SelectModelSavePath => Some(Command::PickSaveLocation),
            SceneMessage::CreateToggled(b) => {
                self.creation_toggle = b;
                None
            },
            SceneMessage::GoPressed => {
                match &self.data_path {
                    Some(csv) => {
                        if self.model_name.as_str().unicode_len() > 0 {
                            let model_output_path = match &self.model_save_path {
                                Some(dir) => dir.clone().concat("/").concat(
                                    self.model_name.as_str(),
                                ),
                                None => self.model_name.clone(),
                            };
                            proof {
                                assert(model_output_path@ =~= self.spec_output_path());
                            }
                            Some(Command::Train { csv_path: csv.clone(), model_output_path })
                        } else {
                            None
                        }
                    },
                    None => None,
                }
            },
            _ => None,
        }
    }

    /// Take back the outcome of outside work ([`TrainingUI::complete_ok`]).
    pub fn complete(&mut self, outcome: Outcome)
        ensures
            TrainingUI::complete_ok(*old(self), outcome, *final(self)),
    {
        match outcome {
            Outcome::CsvChosen(p) => {
                self.data_path = p;
            },
            Outcome::SaveLocationChosen(p) => {
                self.model_save_path = p;
            },
            Outcome::TrainingFinished(res) => match res {
                Ok(_) => {
                    let created = UserModel {
                        name: self.model_name.clone(),
                        path: self.model_save_path.clone(),
                    };
                    self.models.push(created);
                    self.error = None;
                    proof {
                        assert(final(self).models@.subrange(0, old(self).models@.len() as int)
                            =~= old(self).models@);
                    }
                },
                Err(m) => {
                    self.error = Some(m);
                },
            },
            _ => {},
        }
    }
}

} // verus!
