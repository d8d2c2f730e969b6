//! One container: a display region and the patterns shown in it.
//!
//! A container gives each pattern it receives the next id of its own
//! counter, so that no id is used twice within the container, whatever was
//! removed in between.

use crate::controller::SLMControllerMsg;
use crate::ids::{ascending, sorted_ids, with_rank};
use crate::pattern_controller::{
    PatternController, PatternControllerModel, PatternControllerMsg,
};
use crate::slm_data::{Double, PatternContainerData, PatternContainerView, PatternData};
use std::collections::HashMap;
use vstd::prelude::*;

verus! {

broadcast use vstd::std_specs::hash::group_hash_axioms;

/// What a container is in contracts: its record, the id that its next
/// pattern will get, and its own id.
#[verifier::ext_equal]
pub struct ContainerState {
    pub data: PatternContainerView,
    pub next_pattern_id: usize,
    pub id: usize,
}

/// The patterns of `patterns` under new ids: the pattern with the smallest
/// id gets 0, the next one 1, and so on.
pub open spec fn renumbered(patterns: Map<usize, PatternData>) -> Map<usize, PatternData> {
    Map::new(
        |j: usize| with_rank(patterns.dom(), j as nat) is Some,
        |j: usize| patterns[with_rank(patterns.dom(), j as nat).unwrap()],
    )
}

impl ContainerState {
    /// A new container with the region of `data` and no pattern.
    pub open spec fn created(data: PatternContainerView, id: usize) -> ContainerState {
        ContainerState { data: data.cleared(), next_pattern_id: 0, id }
    }

    /// The container that a persisted record stands for: the record's region,
    /// and its patterns in ascending order of their ids, numbered from 0.
    pub open spec fn loaded(record: PatternContainerView, id: usize) -> ContainerState {
        ContainerState {
            data: PatternContainerView { patterns: renumbered(record.patterns), ..record },
            next_pattern_id: record.patterns.dom().len() as usize,
            id,
        }
    }

    /// The patterns are finitely many, and each has an id that the counter
    /// has passed.
    pub open spec fn wf(self) -> bool {
        &&& self.data.patterns.dom().finite()
        &&& forall|p: usize| self.data.patterns.contains_key(p) ==> p < self.next_pattern_id
    }

    /// The counter can still give an id.
    pub open spec fn can_add_pattern(self) -> bool {
        self.next_pattern_id < usize::MAX
    }

    /// The container with `data` as a further pattern, under the next id.
    pub open spec fn with_new_pattern(self, data: PatternData) -> ContainerState {
        ContainerState {
            data: PatternContainerView {
                patterns: self.data.patterns.insert(self.next_pattern_id, data),
                ..self.data
            },
            next_pattern_id: (self.next_pattern_id + 1) as usize,
            ..self
        }
    }

    /// The container without the pattern `p`. The counter stays.
    pub open spec fn without_pattern(self, p: usize) -> ContainerState {
        ContainerState {
            data: PatternContainerView { patterns: self.data.patterns.remove(p), ..self.data },
            ..self
        }
    }

    /// The container after `edit` was applied to its pattern `p`; the
    /// container itself where it has no such pattern.
    pub open spec fn with_pattern_edit(
        self,
        p: usize,
        edit: PatternControllerMsg,
    ) -> ContainerState {
        if self.data.patterns.contains_key(p) {
            ContainerState {
                data: PatternContainerView {
                    patterns: self.data.patterns.insert(p, edit.applied(self.data.patterns[p])),
                    ..self.data
                },
                ..self
            }
        } else {
            self
        }
    }

    /// Whether the container can take `event`: all but a further pattern when
    /// the counter is at its end.
    pub open spec fn accepts(self, event: PatternContainerMsg) -> bool {
        event is AddPattern ==> self.can_add_pattern()
    }

    /// The container after `event`.
    pub open spec fn handled(self, event: PatternContainerMsg) -> ContainerState {
        let d = self.data;
        match event {
            PatternContainerMsg::AddPattern => self.with_new_pattern(PatternData::zeroed()),
            PatternContainerMsg::DeletePattern(p) => self.without_pattern(p),
            PatternContainerMsg::UpdatePatternL(p, x) =>
                self.with_pattern_edit(p, PatternControllerMsg::UpdatePatternL(x)),
            PatternContainerMsg::UpdatePatternA(p, x) =>
                self.with_pattern_edit(p, PatternControllerMsg::UpdatePatternA(x)),
            PatternContainerMsg::UpdatePatternKx(p, x) =>
                self.with_pattern_edit(p, PatternControllerMsg::UpdatePatternKx(x)),
            PatternContainerMsg::UpdatePatternKy(p, x) =>
                self.with_pattern_edit(p, PatternControllerMsg::UpdatePatternKy(x)),
            PatternContainerMsg::UpdatePatternCx(p, x) =>
                self.with_pattern_edit(p, PatternControllerMsg::UpdatePatternCx(x)),
            PatternContainerMsg::UpdatePatternCy(p, x) =>
                self.with_pattern_edit(p, PatternControllerMsg::UpdatePatternCy(x)),
            PatternContainerMsg::UpdatePatternPhase(p, x) =>
                self.with_pattern_edit(p, PatternControllerMsg::UpdatePatternPhase(x)),
            PatternContainerMsg::UpdateContainerCx(x) => ContainerState {
                data: PatternContainerView { pos: (x, d.pos.1), ..d },
                ..self
            },
            PatternContainerMsg::UpdateContainerCy(x) => ContainerState {
                data: PatternContainerView { pos: (d.pos.0, x), ..d },
                ..self
            },
            PatternContainerMsg::UpdateContainerScaleX(x) => ContainerState {
                data: PatternContainerView { scale: (x, d.scale.1), ..d },
                ..self
            },
            PatternContainerMsg::UpdateContainerScaleY(x) => ContainerState {
                data: PatternContainerView { scale: (d.scale.0, x), ..d },
                ..self
            },
            PatternContainerMsg::UpdateContainerTLX(x) => ContainerState {
                data: PatternContainerView { top_left: (x, d.top_left.1), ..d },
                ..self
            },
            PatternContainerMsg::UpdateContainerTLY(x) => ContainerState {
                data: PatternContainerView { top_left: (d.top_left.0, x), ..d },
                ..self
            },
            PatternContainerMsg::UpdateContainerBRX(x) => ContainerState {
                data: PatternContainerView { bottom_right: (x, d.bottom_right.1), ..d },
                ..self
            },
            PatternContainerMsg::UpdateContainerBRY(x) => ContainerState {
                data: PatternContainerView { bottom_right: (d.bottom_right.0, x), ..d },
                ..self
            },
        }
    }
}

/// What a container is made from, and what it keeps.
#[derive(Debug)]
pub struct PatternContainerModel {
    patterns_data: PatternContainerData,
    current_controller_id: usize,
    id: usize,
}

impl View for PatternContainerModel {
    type V = ContainerState;

    closed spec fn view(&self) -> ContainerState {
        ContainerState {
            data: self.patterns_data@,
            next_pattern_id: self.current_controller_id,
            id: self.id,
        }
    }
}

/// What can happen to one container: a further pattern, a new value for a
/// parameter of one of its patterns or for one of its own, or the removal of
/// a pattern.
#[derive(Clone, Copy, Debug, PartialEq, Eq)]
pub enum PatternContainerMsg {
    AddPattern,
    UpdatePatternL(usize, i32),
    UpdatePatternA(usize, Double),
    UpdatePatternKx(usize, Double),
    UpdatePatternKy(usize, Double),
    UpdatePatternCx(usize, Double),
    UpdatePatternCy(usize, Double),
    UpdatePatternPhase(usize, Double),
    UpdateContainerCx(Double),
    UpdateContainerCy(Double),
    UpdateContainerScaleX(Double),
    UpdateContainerScaleY(Double),
    UpdateContainerTLX(Double),
    UpdateContainerTLY(Double),
    UpdateContainerBRX(Double),
    UpdateContainerBRY(Double),
    DeletePattern(usize),
}

impl PatternContainerMsg {
    /// This message as the top level sees it, the container being the one
    /// with the given id. A further pattern starts with every parameter zero.
    pub open spec fn routed(self, id: usize) -> SLMControllerMsg {
        match self {
            PatternContainerMsg::AddPattern =>
                SLMControllerMsg::AddController(id, PatternData::zeroed()),
            PatternContainerMsg::DeletePattern(p) => SLMControllerMsg::RemoveController(id, p),
            PatternContainerMsg::UpdatePatternL(p, x) => SLMControllerMsg::UpdatePatternL(id, p, x),
            PatternContainerMsg::UpdatePatternA(p, x) => SLMControllerMsg::UpdatePatternA(id, p, x),
            PatternContainerMsg::UpdatePatternKx(p, x) =>
                SLMControllerMsg::UpdatePatternKx(id, p, x),
            PatternContainerMsg::UpdatePatternKy(p, x) =>
                SLMControllerMsg::UpdatePatternKy(id, p, x),
            PatternContainerMsg::UpdatePatternCx(p, x) =>
                SLMControllerMsg::UpdatePatternCx(id, p, x),
            PatternContainerMsg::UpdatePatternCy(p, x) =>
                SLMControllerMsg::UpdatePatternCy(id, p, x),
            PatternContainerMsg::UpdatePatternPhase(p, x) =>
                SLMControllerMsg::UpdatePatternPhase(id, p, x),
            PatternContainerMsg::UpdateContainerCx(x) => SLMControllerMsg::UpdateContainerCx(id, x),
            PatternContainerMsg::UpdateContainerCy(x) => SLMControllerMsg::UpdateContainerCy(id, x),
            PatternContainerMsg::UpdateContainerScaleX(x) =>
                SLMControllerMsg::UpdateContainerScaleX(id, x),
            PatternContainerMsg::UpdateContainerScaleY(x) =>
                SLMControllerMsg::UpdateContainerScaleY(id, x),
            PatternContainerMsg::UpdateContainerTLX(x) =>
                SLMControllerMsg::UpdateContainerTLX(id, x),
            PatternContainerMsg::UpdateContainerTLY(x) =>
                SLMControllerMsg::UpdateContainerTLY(id, x),
            PatternContainerMsg::UpdateContainerBRX(x) =>
                SLMControllerMsg::UpdateContainerBRX(id, x),
            PatternContainerMsg::UpdateContainerBRY(x) =>
                SLMControllerMsg::UpdateContainerBRY(id, x),
        }
    }
}

/// A container of patterns.
#[derive(Debug)]
pub struct PatternContainer {
    model: PatternContainerModel,
}

impl View for PatternContainer {
    type V = ContainerState;

    closed spec fn view(&self) -> ContainerState {
        self.model@
    }
}

impl PatternContainer {
    /// See [`ContainerState::wf`].
    pub open spec fn wf(&self) -> bool {
        self@.wf()
    }

    /// The model of a new container with the region of `param.0` and the id
    /// `param.1`. It starts without patterns, whatever `param.0` holds: a
    /// pattern gets its id from the container's counter when it is added.
    pub fn model(param: (PatternContainerData, usize)) -> (model: PatternContainerModel)
        ensures
            model@ == ContainerState::created(param.0@, param.1),
            model@.wf(),
    {
        let (mut data, id) = param;
        data.patterns.clear();
        PatternContainerModel { patterns_data: data, current_controller_id: 0, id }
    }

    /// The container that has `model` as its model.
    pub fn new(model: PatternContainerModel) -> (container: PatternContainer)
        ensures
            container@ == model@,
    {
        PatternContainer { model }
    }

    /// The container that the persisted `record` stands for, under the id
    /// `id`: see [`ContainerState::loaded`].
    pub fn restored(record: &PatternContainerData, id: usize) -> (container: PatternContainer)
        ensures
            container@ == ContainerState::loaded(record@, id),
            container.wf(),
    {
        let data = PatternContainerData {
            top_left: record.top_left,
            bottom_right: record.bottom_right,
            pos: record.pos,
            scale: record.scale,
            patterns: HashMap::new(),
        };
        let mut container = PatternContainer {
            model: PatternContainerModel { patterns_data: data, current_controller_id: 0, id },
        };
        let ids = sorted_ids(&record.patterns);
        let mut i: usize = 0;
        while i < ids.len()
            invariant
                i <= ids.len(),
                ascending(ids@),
                ids@.to_set() == record.patterns@.dom(),
                container@ == (ContainerState {
                    data: PatternContainerView {
                        patterns: Map::new(
                            |j: usize| j < i,
                            |j: usize| record.patterns@[ids@[j as int]],
                        ),
                        ..record@
                    },
                    next_pattern_id: i,
                    id,
                }),
            decreases ids.len() - i,
        {
            let p = ids[i];
            let found = record.patterns.get(&p);
            let pattern = *found.unwrap();
            container.add_pattern(pattern);
            i += 1;
        }
        container
    }

    /// The id of this container.
    pub fn id(&self) -> (id: usize)
        ensures
            id == self@.id,
    {
        self.model.id
    }

    /// The id that the next pattern of this container will get.
    pub fn next_pattern_id(&self) -> (id: usize)
        ensures
            id == self@.next_pattern_id,
    {
        self.model.current_controller_id
    }

    /// The record of this container: its region and its patterns.
    pub fn data(&self) -> (data: &PatternContainerData)
        ensures
            data@ == self@.data,
    {
        &self.model.patterns_data
    }

    /// The pattern with the id `p`, if the container has one.
    pub fn pattern(&self, p: usize) -> (found: Option<PatternData>)
        ensures
            found == if self@.data.patterns.contains_key(p) {
                Some(self@.data.patterns[p])
            } else {
                None
            },
    {
        match self.model.patterns_data.patterns.get(&p) {
            Some(pattern) => Some(*pattern),
            None => None,
        }
    }

    /// A controller for the pattern with the id `p`, if the container has one.
    pub fn controller(&self, p: usize) -> (found: Option<PatternController>)
        ensures
            found == if self@.data.patterns.contains_key(p) {
                Some(
                    PatternController {
                        model: PatternControllerModel {
                            pattern_data: self@.data.patterns[p],
                            id: p,
                        },
                    },
                )
            } else {
                None
            },
    {
        match self.pattern(p) {
            Some(pattern) =>
                Some(PatternController { model: PatternController::model((pattern, p)) }),
            None => None,
        }
    }

    /// Whether the counter can still give an id.
    pub fn can_add_pattern(&self) -> (can: bool)
        ensures
            can == self@.can_add_pattern(),
    {
        self.model.current_controller_id < usize::MAX
    }

    /// Adds `data` as a further pattern and returns the id it got.
    pub fn add_pattern(&mut self, data: PatternData) -> (id: usize)
        requires
            old(self)@.can_add_pattern(),
        ensures
            id == old(self)@.next_pattern_id,
            final(self)@ == old(self)@.with_new_pattern(data),
            old(self).wf() ==> final(self).wf(),
    {
        let id = self.model.current_controller_id;
        self.model.patterns_data.patterns.insert(id, data);
        self.model.current_controller_id = id + 1;
        id
    }

    /// Adds a pattern with every parameter zero and returns the id it got.
    pub fn add_new_pattern(&mut self) -> (id: usize)
        requires
            old(self)@.can_add_pattern(),
        ensures
            id == old(self)@.next_pattern_id,
            final(self)@ == old(self)@.with_new_pattern(PatternData::zeroed()),
            old(self).wf() ==> final(self).wf(),
    {
        self.add_pattern(PatternData::default())
    }

    /// Removes the pattern with the id `id`, if the container has one.
    pub fn delete_pattern(&mut self, id: usize)
        ensures
            final(self)@ == old(self)@.without_pattern(id),
            old(self).wf() ==> final(self).wf(),
    {
        self.model.patterns_data.patterns.remove(&id);
    }

    /// Applies `edit` to the pattern with the id `p`, if the container has
    /// one; else nothing changes.
    pub fn edit_pattern(&mut self, p: usize, edit: PatternControllerMsg)
        ensures
            final(self)@ == old(self)@.with_pattern_edit(p, edit),
            old(self).wf() ==> final(self).wf(),
    {
        let found = self.pattern(p);
        match found {
            Some(pattern) => {
                let mut pattern = pattern;
                edit.apply(&mut pattern);
                self.model.patterns_data.patterns.insert(p, pattern);
            },
            None => {},
        }
    }

    /// Whether the container can take `event`.
    pub fn accepts(&self, event: &PatternContainerMsg) -> (ok: bool)
        ensures
            ok == self@.accepts(*event),
    {
        match event {
            PatternContainerMsg::AddPattern => self.can_add_pattern(),
            _ => true,
        }
    }

    /// Applies `event` to this container.
    pub fn handle(&mut self, event: PatternContainerMsg)
        requires
            old(self)@.accepts(event),
        ensures
            final(self)@ == old(self)@.handled(event),
            old(self).wf() ==> final(self).wf(),
    {
        match event {
            PatternContainerMsg::AddPattern => {
                self.add_new_pattern();
            },
            PatternContainerMsg::DeletePattern(p) => {
                self.delete_pattern(p);
            },
            PatternContainerMsg::UpdatePatternL(p, x) => {
                self.edit_pattern(p, PatternControllerMsg::UpdatePatternL(x));
            },
            PatternContainerMsg::UpdatePatternA(p, x) => {
                self.edit_pattern(p, PatternControllerMsg::UpdatePatternA(x));
            },
            PatternContainerMsg::UpdatePatternKx(p, x) => {
                self.edit_pattern(p, PatternControllerMsg::UpdatePatternKx(x));
            },
            PatternContainerMsg::UpdatePatternKy(p, x) => {
                self.edit_pattern(p, PatternControllerMsg::UpdatePatternKy(x));
            },
            PatternContainerMsg::UpdatePatternCx(p, x) => {
                self.edit_pattern(p, PatternControllerMsg::UpdatePatternCx(x));
            },
            PatternContainerMsg::UpdatePatternCy(p, x) => {
                self.edit_pattern(p, PatternControllerMsg::UpdatePatternCy(x));
            },
            PatternContainerMsg::UpdatePatternPhase(p, x) => {
                self.edit_pattern(p, PatternControllerMsg::UpdatePatternPhase(x));
            },
            PatternContainerMsg::UpdateContainerCx(x) => {
                self.model.patterns_data.pos.0 = x;
            },
            PatternContainerMsg::UpdateContainerCy(x) => {
                self.model.patterns_data.pos.1 = x;
            },
            PatternContainerMsg::UpdateContainerScaleX(x) => {
                self.model.patterns_data.scale.0 = x;
            },
            PatternContainerMsg::UpdateContainerScaleY(x) => {
                self.model.patterns_data.scale.1 = x;
            },
            PatternContainerMsg::UpdateContainerTLX(x) => {
                self.model.patterns_data.top_left.0 = x;
            },
            PatternContainerMsg::UpdateContainerTLY(x) => {
                self.model.patterns_data.top_left.1 = x;
            },
            PatternContainerMsg::UpdateContainerBRX(x) => {
                self.model.patterns_data.bottom_right.0 = x;
            },
            PatternContainerMsg::UpdateContainerBRY(x) => {
                self.model.patterns_data.bottom_right.1 = x;
            },
        }
    }

    /// Hands `event` on to the top level: the same event, said of the
    /// container with this container's id.
    pub fn update(&self, event: PatternContainerMsg) -> (out: SLMControllerMsg)
        ensures
            out == event.routed(self@.id),
    {
        let id = self.model.id;
        match event {
            PatternContainerMsg::AddPattern =>
                SLMControllerMsg::AddController(id, PatternData::default()),
            PatternContainerMsg::DeletePattern(p) => SLMControllerMsg::RemoveController(id, p),
            PatternContainerMsg::UpdatePatternL(p, x) => SLMControllerMsg::UpdatePatternL(id, p, x),
            PatternContainerMsg::UpdatePatternA(p, x) => SLMControllerMsg::UpdatePatternA(id, p, x),
            PatternContainerMsg::UpdatePatternKx(p, x) =>
                SLMControllerMsg::UpdatePatternKx(id, p, x),
            PatternContainerMsg::UpdatePatternKy(p, x) =>
                SLMControllerMsg::UpdatePatternKy(id, p, x),
            PatternContainerMsg::UpdatePatternCx(p, x) =>
                SLMControllerMsg::UpdatePatternCx(id, p, x),
            PatternContainerMsg::UpdatePatternCy(p, x) =>
                SLMControllerMsg::UpdatePatternCy(id, p, x),
            PatternContainerMsg::UpdatePatternPhase(p, x) =>
                SLMControllerMsg::UpdatePatternPhase(id, p, x),
            PatternContainerMsg::UpdateContainerCx(x) => SLMControllerMsg::UpdateContainerCx(id, x),
            PatternContainerMsg::UpdateContainerCy(x) => SLMControllerMsg::UpdateContainerCy(id, x),
            PatternContainerMsg::UpdateContainerScaleX(x) =>
                SLMControllerMsg::UpdateContainerScaleX(id, x),
            PatternContainerMsg::UpdateContainerScaleY(x) =>
                SLMControllerMsg::UpdateContainerScaleY(id, x),
            PatternContainerMsg::UpdateContainerTLX(x) =>
                SLMControllerMsg::UpdateContainerTLX(id, x),
            PatternContainerMsg::UpdateContainerTLY(x) =>
                SLMControllerMsg::UpdateContainerTLY(id, x),
            PatternContainerMsg::UpdateContainerBRX(x) =>
                SLMControllerMsg::UpdateContainerBRX(id, x),
            PatternContainerMsg::UpdateContainerBRY(x) =>
                SLMControllerMsg::UpdateContainerBRY(id, x),
        }
    }
}

} // verus!
