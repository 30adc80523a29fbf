//! Running a list of actions for a plugin: each as often as it says, up to the
//! first one that is unknown or fails.
use vstd::prelude::*;

use crate::command::ActionSpec;

verus! {

/// What the host answers to a call.
#[derive(Clone, Copy, Debug, PartialEq, Eq, Structural)]
pub enum ActionAnswer {
    /// There is an action of that name.
    Known,
    /// There is none.
    Unknown,
    /// The action was run.
    Ran,
    /// The action failed.
    Failed,
}

/// What the host is to do next.
#[derive(Clone, Copy, Debug, PartialEq, Eq, Structural)]
pub enum ActionCall {
    /// Look the action with this place in the list up by its name.
    Look(usize),
    /// Run the action with this place in the list once.
    Run(usize),
    /// There is nothing left to do.
    Over,
}

/// A list of actions that is being run.
#[derive(Debug)]
pub struct ActionRun {
    actions: Vec<ActionSpec>,
    /// The action whose turn it is; none where it is past the end.
    at: usize,
    /// Whether it was looked up and is being run.
    running: bool,
    /// How often it runs once more after this time.
    left: u32,
}

/// [`ActionRun`] as a mathematical value.
pub struct ActionRunModel {
    pub actions: Seq<ActionSpec>,
    pub at: int,
    pub running: bool,
    pub left: int,
}

impl View for ActionRun {
    type V = ActionRunModel;

    closed spec fn view(&self) -> ActionRunModel {
        ActionRunModel {
            actions: self.actions@,
            at: self.at as int,
            running: self.running,
            left: self.left as int,
        }
    }
}

impl ActionRunModel {
    /// A list of which nothing was run.
    pub open spec fn fresh(actions: Seq<ActionSpec>) -> ActionRunModel {
        ActionRunModel { actions, at: 0, running: false, left: 0 }
    }

    /// Whether nothing is left to do.
    pub open spec fn is_over(self) -> bool {
        self.at >= self.actions.len()
    }

    /// What the host is to do.
    pub open spec fn call(self) -> ActionCall {
        if self.is_over() {
            ActionCall::Over
        } else if self.running {
            ActionCall::Run(self.at as usize)
        } else {
            ActionCall::Look(self.at as usize)
        }
    }

    /// This run at its next action.
    pub open spec fn advanced(self) -> ActionRunModel {
        ActionRunModel { at: self.at + 1, running: false, left: 0, ..self }
    }

    /// This run ended.
    pub open spec fn stopped(self) -> ActionRunModel {
        ActionRunModel { at: self.actions.len() as int, running: false, left: 0, ..self }
    }

    /// This run after an answer. An answer to something that was not asked
    /// changes nothing, unless it is bad news.
    pub open spec fn after(self, last: Option<ActionAnswer>) -> ActionRunModel {
        if self.is_over() {
            self
        } else {
            match last {
                Some(ActionAnswer::Unknown) | Some(ActionAnswer::Failed) => self.stopped(),
                Some(ActionAnswer::Known) => if self.running {
                    self
                } else if self.actions[self.at].count == 0 {
                    self.advanced()
                } else {
                    ActionRunModel {
                        running: true,
                        left: self.actions[self.at].count - 1,
                        ..self
                    }
                },
                Some(ActionAnswer::Ran) => if !self.running {
                    self
                } else if self.left == 0 {
                    self.advanced()
                } else {
                    ActionRunModel { left: self.left - 1, ..self }
                },
                None => self,
            }
        }
    }
}

impl ActionRun {
    /// A list of which nothing was run.
    pub fn new(actions: Vec<ActionSpec>) -> (run: ActionRun)
        ensures
            run@ == ActionRunModel::fresh(actions@),
    {
        ActionRun { actions, at: 0, running: false, left: 0 }
    }

    /// The action with the place `at` in the list.
    pub fn action(&self, at: usize) -> (action: Option<&ActionSpec>)
        ensures
            match action {
                Some(a) => at < self@.actions.len() && *a == self@.actions[at as int],
                None => at >= self@.actions.len(),
            },
    {
        if at < self.actions.len() {
            Some(&self.actions[at])
        } else {
            None
        }
    }

    /// What the host is to do next, once it has answered the last call.
    pub fn next(&mut self, last: Option<ActionAnswer>) -> (call: ActionCall)
        ensures
            final(self)@ == old(self)@.after(last),
            call == final(self)@.call(),
            last matches Some(ActionAnswer::Unknown) ==> call is Over,
            last matches Some(ActionAnswer::Failed) ==> call is Over,
    {
        if self.at < self.actions.len() {
            match last {
                Some(ActionAnswer::Unknown) | Some(ActionAnswer::Failed) => {
                    self.at = self.actions.len();
                    self.running = false;
                    self.left = 0;
                },
                Some(ActionAnswer::Known) => {
                    if !self.running {
                        let count = self.actions[self.at].count;
                        if count == 0 {
                            self.at = self.at + 1;
                            self.left = 0;
                        } else {
                            self.running = true;
                            self.left = count - 1;
                        }
                    }
                },
                Some(ActionAnswer::Ran) => {
                    if self.running {
                        if self.left == 0 {
                            self.at = self.at + 1;
                            self.running = false;
                        } else {
                            self.left = self.left - 1;
                        }
                    }
                },
                None => {},
            }
        }
        if self.at >= self.actions.len() {
            ActionCall::Over
        } else if self.running {
            ActionCall::Run(self.at)
        } else {
            ActionCall::Look(self.at)
        }
    }
}

} // verus!
