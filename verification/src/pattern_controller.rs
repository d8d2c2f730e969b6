//! One phase pattern as the user edits it.
//!
//! A pattern controller knows the id of its pattern and nothing of the
//! container around it. What the user does to the pattern reaches it as a
//! [`PatternControllerMsg`]; the controller hands the message on, with its
//! id added, for the container to do the same.

use crate::pattern_container::PatternContainerMsg;
use crate::slm_data::{Double, PatternData};
use vstd::prelude::*;

verus! {

/// What a pattern controller is made from, and what it keeps.
#[derive(Clone, Copy, Debug, PartialEq, Eq)]
pub struct PatternControllerModel {
    /// The parameters the pattern had when the controller was made.
    pub pattern_data: PatternData,
    /// The id of the pattern within its container.
    pub id: usize,
}

/// What can happen to one pattern: a new value for one parameter, or the
/// request to delete the pattern.
#[derive(Clone, Copy, Debug, PartialEq, Eq)]
pub enum PatternControllerMsg {
    UpdatePatternL(i32),
    UpdatePatternA(Double),
    UpdatePatternKx(Double),
    UpdatePatternKy(Double),
    UpdatePatternCx(Double),
    UpdatePatternCy(Double),
    UpdatePatternPhase(Double),
    DeleteSelf,
}

impl PatternControllerMsg {
    /// The pattern `p` after this message: the one parameter that the message
    /// names has the new value, the others are those of `p`. A request to
    /// delete changes no parameter.
    pub open spec fn applied(self, p: PatternData) -> PatternData {
        match self {
            PatternControllerMsg::UpdatePatternL(x) => PatternData { l: x, ..p },
            PatternControllerMsg::UpdatePatternA(x) => PatternData { a: x, ..p },
            PatternControllerMsg::UpdatePatternKx(x) => PatternData { k: (x, p.k.1), ..p },
            PatternControllerMsg::UpdatePatternKy(x) => PatternData { k: (p.k.0, x), ..p },
            PatternControllerMsg::UpdatePatternCx(x) => PatternData { c: (x, p.c.1), ..p },
            PatternControllerMsg::UpdatePatternCy(x) => PatternData { c: (p.c.0, x), ..p },
            PatternControllerMsg::UpdatePatternPhase(x) => PatternData { phase: x, ..p },
            PatternControllerMsg::DeleteSelf => p,
        }
    }

    /// This message as the container of the pattern sees it, the pattern
    /// being the one with the given id.
    pub open spec fn routed(self, id: usize) -> PatternContainerMsg {
        match self {
            PatternControllerMsg::UpdatePatternL(x) => PatternContainerMsg::UpdatePatternL(id, x),
            PatternControllerMsg::UpdatePatternA(x) => PatternContainerMsg::UpdatePatternA(id, x),
            PatternControllerMsg::UpdatePatternKx(x) => PatternContainerMsg::UpdatePatternKx(id, x),
            PatternControllerMsg::UpdatePatternKy(x) => PatternContainerMsg::UpdatePatternKy(id, x),
            PatternControllerMsg::UpdatePatternCx(x) => PatternContainerMsg::UpdatePatternCx(id, x),
            PatternControllerMsg::UpdatePatternCy(x) => PatternContainerMsg::UpdatePatternCy(id, x),
            PatternControllerMsg::UpdatePatternPhase(x) =>
                PatternContainerMsg::UpdatePatternPhase(id, x),
            PatternControllerMsg::DeleteSelf => PatternContainerMsg::DeletePattern(id),
        }
    }

    /// Gives `p` the new value that this message carries.
    pub fn apply(&self, p: &mut PatternData)
        ensures
            *final(p) == self.applied(*old(p)),
    {
        match *self {
            PatternControllerMsg::UpdatePatternL(x) => {
                p.l = x;
            },
            PatternControllerMsg::UpdatePatternA(x) => {
                p.a = x;
            },
            PatternControllerMsg::UpdatePatternKx(x) => {
                p.k.0 = x;
            },
            PatternControllerMsg::UpdatePatternKy(x) => {
                p.k.1 = x;
            },
            PatternControllerMsg::UpdatePatternCx(x) => {
                p.c.0 = x;
            },
            PatternControllerMsg::UpdatePatternCy(x) => {
                p.c.1 = x;
            },
            PatternControllerMsg::UpdatePatternPhase(x) => {
                p.phase = x;
            },
            PatternControllerMsg::DeleteSelf => {},
        }
    }
}

/// The controller of one pattern.
#[derive(Clone, Copy, Debug, PartialEq, Eq)]
pub struct PatternController {
    pub model: PatternControllerModel,
}

impl PatternController {
    /// The model of a controller for the pattern `param.0`, known to its
    /// container under the id `param.1`.
    pub fn model(param: (PatternData, usize)) -> (model: PatternControllerModel)
        ensures
            model == (PatternControllerModel { pattern_data: param.0, id: param.1 }),
    {
        PatternControllerModel { pattern_data: param.0, id: param.1 }
    }

    /// Hands `event` on to the container: the same event, said of the pattern
    /// with this controller's id.
    pub fn update(&self, event: PatternControllerMsg) -> (out: PatternContainerMsg)
        ensures
            out == event.routed(self.model.id),
    {
        let id = self.model.id;
        match event {
            PatternControllerMsg::DeleteSelf => PatternContainerMsg::DeletePattern(id),
            PatternControllerMsg::UpdatePatternL(x) => PatternContainerMsg::UpdatePatternL(id, x),
            PatternControllerMsg::UpdatePatternA(x) => PatternContainerMsg::UpdatePatternA(id, x),
            PatternControllerMsg::UpdatePatternKx(x) => PatternContainerMsg::UpdatePatternKx(id, x),
            PatternControllerMsg::UpdatePatternKy(x) => PatternContainerMsg::UpdatePatternKy(id, x),
            PatternControllerMsg::UpdatePatternCx(x) => PatternContainerMsg::UpdatePatternCx(id, x),
            PatternControllerMsg::UpdatePatternCy(x) => PatternContainerMsg::UpdatePatternCy(id, x),
            PatternControllerMsg::UpdatePatternPhase(x) =>
                PatternContainerMsg::UpdatePatternPhase(id, x),
        }
    }
}

} // verus!
