//! Scenes and the scene navigator.
//!
//! The application is a fixed, ordered list of full-screen scenes — Welcome,
//! Prediction, Training — with a cursor on the active one. The cursor moves
//! by exactly one position at a time and never past either end; events are
//! forwarded to the active scene; outcomes of outside work are handed back
//! to it the same way.

use crate::messages::Command;
use crate::messages::Message;
use crate::messages::Outcome;
use crate::messages::SceneMessage;
use crate::prediction::PredictionUI;
use crate::training::TrainingUI;
use vstd::prelude::*;

verus! {

/// One full-screen step of the wizard: the greeting, the prediction screen,
/// or the training screen.
pub enum Scene {
    Greeter,
    Prediction(PredictionUI),
    Training(TrainingUI),
}

impl Scene {
    /// The scene's state invariant (the prediction screen is the one scene
    /// with an invariant of its own).
    pub open spec fn wf(self) -> bool {
        match self {
            Scene::Prediction(ui) => ui.wf(),
            _ => true,
        }
    }

    pub open spec fn spec_title(self) -> Seq<char> {
        match self {
            Scene::Greeter => "Welcome"@,
            Scene::Prediction(_) => "Prediction"@,
            Scene::Training(_) => "Model creation and Training"@,
        }
    }

    /// Exact relation between a scene before and after one event: the
    /// greeting ignores everything, the two screens react as their own
    /// transition relations say.
    pub open spec fn update_ok(
        pre: Scene,
        msg: SceneMessage,
        post: Scene,
        cmd: Option<Command>,
    ) -> bool {
        match pre {
            Scene::Greeter => post == pre && cmd is None,
            Scene::Prediction(ui) => post matches Scene::Prediction(ui2)
                && PredictionUI::update_ok(ui, msg, ui2, cmd),
            Scene::Training(ui) => post matches Scene::Training(ui2) && TrainingUI::update_ok(
                ui,
                msg,
                ui2,
                cmd,
            ),
        }
    }

    /// Exact relation between a scene before and after one outcome.
    pub open spec fn complete_ok(pre: Scene, outcome: Outcome, post: Scene) -> bool {
        match pre {
            Scene::Greeter => post == pre,
            Scene::Prediction(ui) => post matches Scene::Prediction(ui2)
                && PredictionUI::complete_ok(ui, outcome, ui2),
            Scene::Training(ui) => post matches Scene::Training(ui2) && TrainingUI::complete_ok(
                ui,
                outcome,
                ui2,
            ),
        }
    }

    /// The fixed scene list, in navigation order.
    pub fn all_scenes() -> (r: Vec<Scene>)
        ensures
            r@.len() == 3,
            r@[0] == Scene::Greeter,
            r@[1] matches Scene::Prediction(p) && p == PredictionUI::spec_init(),
            r@[2] matches Scene::Training(t) && t.is_init(),
            forall|i: int| 0 <= i < r@.len() ==> (#[trigger] r@[i]).wf(),
    {
        let mut list: Vec<Scene> = Vec::new();
        list.push(Scene::Greeter);
        list.push(Scene::Prediction(PredictionUI::new()));
        list.push(Scene::Training(TrainingUI::new()));
        list
    }

    /// Title shown for the scene.
    pub fn title(&self) -> (r: &'static str)
        ensures
            r@ == self.spec_title(),
    {
        match self {
            Scene::Greeter => "Welcome",
            Scene::Prediction(_) => "Prediction",
            Scene::Training(_) => "Model creation and Training",
        }
    }

    /// Forward one event to the scene ([`Scene::update_ok`]).
    pub fn update(&mut self, msg: SceneMessage) -> (cmd: Option<Command>)
        requires
            old(self).wf(),
        ensures
            final(self).wf(),
            Scene::update_ok(*old(self), msg, *final(self), cmd),
    {
        match self {
            Scene::Greeter => None,
            Scene::Prediction(ui) => ui.update(msg),
            Scene::Training(ui) => ui.update(msg),
        }
    }

    /// Hand the outcome of outside work back to the scene
    /// ([`Scene::complete_ok`]).
    pub fn complete(&mut self, outcome: Outcome)
        requires
            old(self).wf(),
        ensures
            final(self).wf(),
            Scene::complete_ok(*old(self), outcome, *final(self)),
    {
        match self {
            Scene::Greeter => {},
            Scene::Prediction(ui) => ui.complete(outcome),
            Scene::Training(ui) => ui.complete(outcome),
        }
    }
}

/// The navigator: the ordered scene list and the cursor on the active one.
pub struct Scenes {
    pub current: usize,
    pub list: Vec<Scene>,
}

impl Scenes {
    /// Navigator invariant: the cursor stays inside the list and every
    /// scene's own invariant holds.
    pub open spec fn wf(self) -> bool {
        &&& self.current < self.list@.len()
        &&& forall|i: int| 0 <= i < self.list@.len() ==> (#[trigger] self.list@[i]).wf()
    }

    /// The navigator after `back`: the cursor moves one scene back, and
    /// stays put on the first scene.
    pub open spec fn spec_back(self) -> Scenes {
        if self.current > 0 {
            Scenes { current: (self.current - 1) as usize, ..self }
        } else {
            self
        }
    }

    /// The navigator after `next`: the cursor moves one scene forward, and
    /// stays put on the last scene.
    pub open spec fn spec_next(self) -> Scenes {
        if self.current + 1 < self.list@.len() {
            Scenes { current: (self.current + 1) as usize, ..self }
        } else {
            self
        }
    }

    /// A fresh navigator: the fixed scene list with the cursor on the first
    /// scene.
    pub fn new() -> (r: Scenes)
        ensures
            r.wf(),
            r.current == 0,
            r.list@.len() == 3,
            r.list@[0] == Scene::Greeter,
            r.list@[1] matches Scene::Prediction(p) && p == PredictionUI::spec_init(),
            r.list@[2] matches Scene::Training(t) && t.is_init(),
    {
        Scenes { list: Scene::all_scenes(), current: 0 }
    }

    /// Title of the active scene.
    pub fn title(&self) -> (r: &'static str)
        requires
            self.wf(),
        ensures
            r@ == self.list@[self.current as int].spec_title(),
    {
        self.list[self.current].title()
    }

    /// A scene stands before the active one.
    pub fn has_previous(&self) -> (r: bool)
        ensures
            r == (self.current > 0),
    {
        self.current > 0
    }

    /// A scene stands after the active one.
    pub fn can_continue(&self) -> (r: bool)
        ensures
            r == (self.current + 1 < self.list@.len()),
    {
        let len = self.list.len();
        len > 0 && self.current < len - 1
    }

    /// Move one scene back; on the first scene this does nothing.
    pub fn back(&mut self)
        requires
            old(self).wf(),
        ensures
            final(self).wf(),
            *final(self) == old(self).spec_back(),
    {
        if self.current > 0 {
            self.current = self.current - 1;
        }
    }

    /// Move one scene forward; on the last scene this does nothing.
    pub fn next(&mut self)
        requires
            old(self).wf(),
        ensures
            final(self).wf(),
            *final(self) == old(self).spec_next(),
    {
        let len = self.list.len();
        if len > 0 && self.current < len - 1 {
            self.current = self.current + 1;
        }
    }

    /// Forward one event to the active scene; the cursor and the other
    /// scenes stay as they are.
    pub fn update(&mut self, event: SceneMessage) -> (cmd: Option<Command>)
        requires
            old(self).wf(),
        ensures
            final(self).wf(),
            final(self).current == old(self).current,
            final(self).list@.len() == old(self).list@.len(),
            forall|i: int|
                0 <= i < old(self).list@.len() && i != old(self).current ==> final(self).list@[i]
                    == old(self).list@[i],
            Scene::update_ok(
                old(self).list@[old(self).current as int],
                event,
                final(self).list@[old(self).current as int],
                cmd,
            ),
    {
        let scene = &mut self.list[self.current];
        scene.update(event)
    }

    /// Hand the outcome of outside work back to the active scene.
    pub fn complete(&mut self, outcome: Outcome)
        requires
            old(self).wf(),
        ensures
            final(self).wf(),
            final(self).current == old(self).current,
            final(self).list@.len() == old(self).list@.len(),
            forall|i: int|
                0 <= i < old(self).list@.len() && i != old(self).current ==> final(self).list@[i]
                    == old(self).list@[i],
            Scene::complete_ok(
                old(self).list@[old(self).current as int],
                outcome,
                final(self).list@[old(self).current as int],
            ),
    {
        let scene = &mut self.list[self.current];
        scene.complete(outcome)
    }

    /// One application event: navigation moves the cursor, a scene event
    /// goes to the active scene.
    pub fn dispatch(&mut self, event: Message) -> (cmd: Option<Command>)
        requires
            old(self).wf(),
        ensures
            final(self).wf(),
            event == Message::BackPressed ==> *final(self) == old(self).spec_back() && cmd
                is None,
            event == Message::NextPressed ==> *final(self) == old(self).spec_next() && cmd
                is None,
            event matches Message::SceneMessage(m) ==> {
                &&& final(self).current == old(self).current
                &&& final(self).list@.len() == old(self).list@.len()
                &&& forall|i: int|
                    0 <= i < old(self).list@.len() && i != old(self).current
                        ==> final(self).list@[i] == old(self).list@[i]
                &&& Scene::update_ok(
                    old(self).list@[old(self).current as int],
                    m,
                    final(self).list@[old(self).current as int],
                    cmd,
                )
            },
    {
        match event {
            Message::BackPressed => {
                self.back();
                None
            },
            Message::NextPressed => {
                self.next();
                None
            },
            Message::SceneMessage(m) => self.update(m),
        }
    }
}

/// `back` on the first scene does nothing.
pub proof fn lemma_back_on_first_is_noop(s: Scenes)
    requires
        s.current == 0,
    ensures
        s.spec_back() == s,
{
}

/// `next` on the last scene does nothing.
pub proof fn lemma_next_on_last_is_noop(s: Scenes)
    requires
        s.wf(),
        s.current == s.list@.len() - 1,
    ensures
        s.spec_next() == s,
{
}

/// Going back and then forward returns to the original scene, whenever
/// there is a scene to go back to. (On the first scene `back` is a no-op,
/// so `next` alone would move forward: that case is left out.)
pub proof fn lemma_back_then_next_restores(s: Scenes)
    requires
        s.wf(),
        s.current > 0,
    ensures
        s.spec_back().spec_next() == s,
{
}

/// Going forward and then back returns to the original scene, whenever
/// there is a scene to go forward to.
pub proof fn lemma_next_then_back_restores(s: Scenes)
    requires
        s.wf(),
        s.current + 1 < s.list@.len(),
    ensures
        s.spec_next().spec_back() == s,
{
    assert(vstd::std_specs::vec::spec_vec_len(&s.list) == s.list@.len());
    let n = s.spec_next();
    assert(n.current == s.current + 1);
    assert(n.spec_back().current == s.current);
}

} // verus!
