//! The top level: all containers, and the one place where messages are
//! applied.
//!
//! The controller owns the containers and the counter that gives each new
//! container its id. It never talks to the user or to a file itself: where a
//! message needs that, [`SLMController::update`] returns the [`Action`] to
//! take, and the answer comes back through the method that the action names.

use crate::ids::{ascending, sorted_ids, with_rank};
use crate::pattern_container::{ContainerState, PatternContainer, PatternContainerMsg};
use crate::slm_data::{Double, PatternContainerData, PatternContainerView, PatternData};
use std::collections::HashMap;
use vstd::prelude::*;

verus! {

broadcast use vstd::std_specs::hash::group_hash_axioms;

/// What can happen at the top level.
///
/// `RemoveTab` carries the place of the tab that is shown, counted from
/// zero. The messages after `Quit` speak of the container with the id that
/// comes first; where a second id follows, it is that of a pattern.
#[derive(Clone, Copy, Debug, PartialEq, Eq)]
pub enum SLMControllerMsg {
    AddTab,
    RemoveTab(usize),
    RemoveAllTabs,
    SaveContainers,
    LoadContainers,
    Quit,
    AddController(usize, PatternData),
    RemoveController(usize, usize),
    UpdatePatternL(usize, usize, i32),
    UpdatePatternA(usize, usize, Double),
    UpdatePatternKx(usize, usize, Double),
    UpdatePatternKy(usize, usize, Double),
    UpdatePatternCx(usize, usize, Double),
    UpdatePatternCy(usize, usize, Double),
    UpdatePatternPhase(usize, usize, Double),
    UpdateContainerCx(usize, Double),
    UpdateContainerCy(usize, Double),
    UpdateContainerScaleX(usize, Double),
    UpdateContainerScaleY(usize, Double),
    UpdateContainerTLX(usize, Double),
    UpdateContainerTLY(usize, Double),
    UpdateContainerBRX(usize, Double),
    UpdateContainerBRY(usize, Double),
}

impl SLMControllerMsg {
    /// The container that this message is for and what it says to it, where
    /// it is a message that one container can take by itself.
    pub open spec fn delivery(self) -> Option<(usize, PatternContainerMsg)> {
        match self {
            SLMControllerMsg::RemoveController(c, p) =>
                Some((c, PatternContainerMsg::DeletePattern(p))),
            SLMControllerMsg::UpdatePatternL(c, p, x) =>
                Some((c, PatternContainerMsg::UpdatePatternL(p, x))),
            SLMControllerMsg::UpdatePatternA(c, p, x) =>
                Some((c, PatternContainerMsg::UpdatePatternA(p, x))),
            SLMControllerMsg::UpdatePatternKx(c, p, x) =>
                Some((c, PatternContainerMsg::UpdatePatternKx(p, x))),
            SLMControllerMsg::UpdatePatternKy(c, p, x) =>
                Some((c, PatternContainerMsg::UpdatePatternKy(p, x))),
            SLMControllerMsg::UpdatePatternCx(c, p, x) =>
                Some((c, PatternContainerMsg::UpdatePatternCx(p, x))),
            SLMControllerMsg::UpdatePatternCy(c, p, x) =>
                Some((c, PatternContainerMsg::UpdatePatternCy(p, x))),
            SLMControllerMsg::UpdatePatternPhase(c, p, x) =>
                Some((c, PatternContainerMsg::UpdatePatternPhase(p, x))),
            SLMControllerMsg::UpdateContainerCx(c, x) =>
                Some((c, PatternContainerMsg::UpdateContainerCx(x))),
            SLMControllerMsg::UpdateContainerCy(c, x) =>
                Some((c, PatternContainerMsg::UpdateContainerCy(x))),
            SLMControllerMsg::UpdateContainerScaleX(c, x) =>
                Some((c, PatternContainerMsg::UpdateContainerScaleX(x))),
            SLMControllerMsg::UpdateContainerScaleY(c, x) =>
                Some((c, PatternContainerMsg::UpdateContainerScaleY(x))),
            SLMControllerMsg::UpdateContainerTLX(c, x) =>
                Some((c, PatternContainerMsg::UpdateContainerTLX(x))),
            SLMControllerMsg::UpdateContainerTLY(c, x) =>
                Some((c, PatternContainerMsg::UpdateContainerTLY(x))),
            SLMControllerMsg::UpdateContainerBRX(c, x) =>
                Some((c, PatternContainerMsg::UpdateContainerBRX(x))),
            SLMControllerMsg::UpdateContainerBRY(c, x) =>
                Some((c, PatternContainerMsg::UpdateContainerBRY(x))),
            _ => None,
        }
    }

    /// See [`SLMControllerMsg::delivery`].
    pub fn addressed(&self) -> (found: Option<(usize, PatternContainerMsg)>)
        ensures
            found == self.delivery(),
    {
        match *self {
            SLMControllerMsg::RemoveController(c, p) =>
                Some((c, PatternContainerMsg::DeletePattern(p))),
            SLMControllerMsg::UpdatePatternL(c, p, x) =>
                Some((c, PatternContainerMsg::UpdatePatternL(p, x))),
            SLMControllerMsg::UpdatePatternA(c, p, x) =>
                Some((c, PatternContainerMsg::UpdatePatternA(p, x))),
            SLMControllerMsg::UpdatePatternKx(c, p, x) =>
                Some((c, PatternContainerMsg::UpdatePatternKx(p, x))),
            SLMControllerMsg::UpdatePatternKy(c, p, x) =>
                Some((c, PatternContainerMsg::UpdatePatternKy(p, x))),
            SLMControllerMsg::UpdatePatternCx(c, p, x) =>
                Some((c, PatternContainerMsg::UpdatePatternCx(p, x))),
            SLMControllerMsg::UpdatePatternCy(c, p, x) =>
                Some((c, PatternContainerMsg::UpdatePatternCy(p, x))),
            SLMControllerMsg::UpdatePatternPhase(c, p, x) =>
                Some((c, PatternContainerMsg::UpdatePatternPhase(p, x))),
            SLMControllerMsg::UpdateContainerCx(c, x) =>
                Some((c, PatternContainerMsg::UpdateContainerCx(x))),
            SLMControllerMsg::UpdateContainerCy(c, x) =>
                Some((c, PatternContainerMsg::UpdateContainerCy(x))),
            SLMControllerMsg::UpdateContainerScaleX(c, x) =>
                Some((c, PatternContainerMsg::UpdateContainerScaleX(x))),
            SLMControllerMsg::UpdateContainerScaleY(c, x) =>
                Some((c, PatternContainerMsg::UpdateContainerScaleY(x))),
            SLMControllerMsg::UpdateContainerTLX(c, x) =>
                Some((c, PatternContainerMsg::UpdateContainerTLX(x))),
            SLMControllerMsg::UpdateContainerTLY(c, x) =>
                Some((c, PatternContainerMsg::UpdateContainerTLY(x))),
            SLMControllerMsg::UpdateContainerBRX(c, x) =>
                Some((c, PatternContainerMsg::UpdateContainerBRX(x))),
            SLMControllerMsg::UpdateContainerBRY(c, x) =>
                Some((c, PatternContainerMsg::UpdateContainerBRY(x))),
            _ => None,
        }
    }
}

/// What the presentation layer has to do after a message.
#[derive(Clone, Copy, Debug, PartialEq, Eq)]
pub enum Action {
    /// Show the state as it now is; there is nothing to ask.
    Render,
    /// End the program.
    Quit,
    /// Ask whether the container with this id is to go, and give the answer
    /// to [`SLMController::remove_container`].
    ConfirmRemove(usize),
    /// Ask whether all containers are to go, and give the answer to
    /// [`SLMController::remove_all_containers`].
    ConfirmRemoveAll,
    /// Ask where to save, and give the answer to
    /// [`SLMController::save_containers`].
    ChooseSaveDestination,
    /// Ask what to load, read it, and give what was read, or how reading
    /// failed, to [`SLMController::load_containers`].
    ChooseLoadSource,
}

/// Why nothing was saved or loaded.
#[derive(Clone, Copy, Debug, PartialEq, Eq)]
pub enum PersistError {
    /// The file could not be opened, read or written.
    IOFailure,
    /// What was read is not a set of containers.
    MalformedData,
}

impl PersistError {
    /// The words that tell the user of this failure.
    pub open spec fn words(self) -> Seq<char> {
        match self {
            PersistError::IOFailure => "The file could not be opened, read or written."@,
            PersistError::MalformedData => "The file does not hold a set of pattern containers."@,
        }
    }

    /// What to tell the user of this failure.
    pub fn describe(&self) -> (text: &'static str)
        ensures
            text@ == self.words(),
    {
        match self {
            PersistError::IOFailure => "The file could not be opened, read or written.",
            PersistError::MalformedData => "The file does not hold a set of pattern containers.",
        }
    }
}

/// How reading a file of containers went wrong.
#[derive(Clone, Copy, Debug, PartialEq, Eq)]
pub enum ReadFailure {
    /// The file could not be opened.
    NotOpened,
    /// The file was opened, but could not be read to its end.
    NotRead,
    /// What was read is not JSON.
    Syntax,
    /// What was read is JSON, but not a set of containers: a member is
    /// missing or has the wrong type.
    Shape,
    /// What was read ends before the document does.
    Truncated,
}

impl ReadFailure {
    /// What the user is told of this failure: a file that could not be
    /// opened or read is a failure of the file system, all else is malformed
    /// data.
    pub open spec fn kind(self) -> PersistError {
        match self {
            ReadFailure::NotOpened | ReadFailure::NotRead => PersistError::IOFailure,
            ReadFailure::Syntax | ReadFailure::Shape | ReadFailure::Truncated =>
                PersistError::MalformedData,
        }
    }

    /// See [`ReadFailure::kind`].
    pub fn classify(self) -> (kind: PersistError)
        ensures
            kind == self.kind(),
    {
        match self {
            ReadFailure::NotOpened | ReadFailure::NotRead => PersistError::IOFailure,
            ReadFailure::Syntax | ReadFailure::Shape | ReadFailure::Truncated =>
                PersistError::MalformedData,
        }
    }
}

/// What a persisted document is in contracts: the records by id.
pub open spec fn document(records: Map<usize, PatternContainerData>) -> Map<
    usize,
    PatternContainerView,
> {
    Map::new(|c: usize| records.contains_key(c), |c: usize| records[c]@)
}

/// What the controller is in contracts: the containers by id, and the id
/// that the next container will get.
#[verifier::ext_equal]
pub struct ControllerState {
    pub containers: Map<usize, ContainerState>,
    pub next_container_id: usize,
}

impl ControllerState {
    /// No container, and the counter at its start.
    pub open spec fn empty() -> ControllerState {
        ControllerState { containers: Map::empty(), next_container_id: 0 }
    }

    /// The containers are finitely many; each is well formed, knows its own
    /// id, and has an id that the counter has passed.
    pub open spec fn wf(self) -> bool {
        &&& self.containers.dom().finite()
        &&& forall|c: usize| #[trigger]
            self.containers.contains_key(c) ==> {
                &&& c < self.next_container_id
                &&& self.containers[c].id == c
                &&& self.containers[c].wf()
            }
    }

    /// The counter can still give an id.
    pub open spec fn can_add_container(self) -> bool {
        self.next_container_id < usize::MAX
    }

    /// The state with a new container under the next id, the counter left
    /// where it was. The new container has the region of `data` and no
    /// pattern.
    pub open spec fn with_container_at_next(self, data: PatternContainerView) -> ControllerState {
        ControllerState {
            containers: self.containers.insert(
                self.next_container_id,
                ContainerState::created(data, self.next_container_id),
            ),
            ..self
        }
    }

    /// The state with a new container under the next id, and the counter
    /// moved on.
    pub open spec fn with_new_container(self, data: PatternContainerView) -> ControllerState {
        ControllerState {
            containers: self.with_container_at_next(data).containers,
            next_container_id: (self.next_container_id + 1) as usize,
        }
    }

    /// The state without the container `id`. The counter stays.
    pub open spec fn without_container(self, id: usize) -> ControllerState {
        ControllerState { containers: self.containers.remove(id), ..self }
    }

    /// The state without any container. The counter stays.
    pub open spec fn without_containers(self) -> ControllerState {
        ControllerState { containers: Map::empty(), ..self }
    }

    /// The state after the container `c` got `data` as a further pattern; the
    /// state itself where there is no such container.
    pub open spec fn with_new_pattern(self, c: usize, data: PatternData) -> ControllerState {
        if self.containers.contains_key(c) {
            ControllerState {
                containers: self.containers.insert(c, self.containers[c].with_new_pattern(data)),
                ..self
            }
        } else {
            self
        }
    }

    /// The state after the container `c` took `event`; the state itself where
    /// there is no such container.
    pub open spec fn delivered(self, c: usize, event: PatternContainerMsg) -> ControllerState {
        if self.containers.contains_key(c) {
            ControllerState {
                containers: self.containers.insert(c, self.containers[c].handled(event)),
                ..self
            }
        } else {
            self
        }
    }

    /// Whether the container `c`, if there is one, can take `event`.
    pub open spec fn can_deliver(self, c: usize, event: PatternContainerMsg) -> bool {
        self.containers.contains_key(c) ==> self.containers[c].accepts(event)
    }

    /// Whether the state can take `event`: all but a further container or
    /// pattern when the counter that would give its id is at its end.
    pub open spec fn accepts(self, event: SLMControllerMsg) -> bool {
        match event {
            SLMControllerMsg::AddTab => self.can_add_container(),
            SLMControllerMsg::AddController(c, _) => self.containers.contains_key(c)
                ==> self.containers[c].can_add_pattern(),
            _ => true,
        }
    }

    /// The state after `event`.
    ///
    /// A message about a container or a pattern that is not there changes
    /// nothing. Nor do the messages that first need an answer from the user:
    /// see [`ControllerState::action`].
    pub open spec fn step(self, event: SLMControllerMsg) -> ControllerState {
        match event {
            SLMControllerMsg::AddTab => self.with_new_container(PatternContainerView::zeroed()),
            SLMControllerMsg::AddController(c, data) => self.with_new_pattern(c, data),
            _ => match event.delivery() {
                Some((c, e)) => self.delivered(c, e),
                None => self,
            },
        }
    }

    /// What is to be done after `event`.
    ///
    /// The tabs show the containers in ascending order of their ids, so the
    /// tab at place `n` shows the container that has `n` smaller ids beside
    /// it.
    pub open spec fn action(self, event: SLMControllerMsg) -> Action {
        match event {
            SLMControllerMsg::Quit => Action::Quit,
            SLMControllerMsg::RemoveTab(page) => match with_rank(
                self.containers.dom(),
                page as nat,
            ) {
                Some(id) => Action::ConfirmRemove(id),
                None => Action::Render,
            },
            SLMControllerMsg::RemoveAllTabs => Action::ConfirmRemoveAll,
            SLMControllerMsg::SaveContainers => Action::ChooseSaveDestination,
            SLMControllerMsg::LoadContainers => Action::ChooseLoadSource,
            _ => Action::Render,
        }
    }

    /// What is persisted of the state: the record of each container, under
    /// the container's id.
    pub open spec fn saved(self) -> Map<usize, PatternContainerView> {
        Map::new(|c: usize| self.containers.contains_key(c), |c: usize| self.containers[c].data)
    }

    /// The counter can give an id to each record of `doc`.
    pub open spec fn can_load(self, doc: Map<usize, PatternContainerView>) -> bool {
        self.next_container_id + doc.dom().len() <= usize::MAX
    }

    /// Whether `c` is an id that a record of `doc` gets when the document is
    /// loaded: the next ids, as many as the document has records.
    pub open spec fn gets_loaded(self, doc: Map<usize, PatternContainerView>, c: usize) -> bool {
        c >= self.next_container_id && with_rank(
            doc.dom(),
            (c - self.next_container_id) as nat,
        ) is Some
    }

    /// The state after `doc` was loaded.
    ///
    /// The containers that were there stay. The records of the document
    /// follow them in ascending order of their ids in the document: the first
    /// gets the next id, the second the one after it, and so on. Each becomes
    /// the container that [`ContainerState::loaded`] describes.
    pub open spec fn with_loaded(self, doc: Map<usize, PatternContainerView>) -> ControllerState {
        ControllerState {
            containers: Map::new(
                |c: usize| self.gets_loaded(doc, c) || self.containers.contains_key(c),
                |c: usize|
                    if self.gets_loaded(doc, c) {
                        ContainerState::loaded(
                            doc[with_rank(doc.dom(), (c - self.next_container_id) as nat).unwrap()],
                            c,
                        )
                    } else {
                        self.containers[c]
                    },
            ),
            next_container_id: (self.next_container_id + doc.dom().len()) as usize,
        }
    }
}

/// What the controller keeps of its own: the counter of container ids.
#[derive(Debug)]
pub struct SLMControllerModel {
    current_container_id: usize,
}

impl SLMControllerModel {
    /// The id that the next container will get.
    pub closed spec fn next_container_id(&self) -> usize {
        self.current_container_id
    }
}

/// The containers by id, as contracts see them.
pub open spec fn container_states(containers: Map<usize, PatternContainer>) -> Map<
    usize,
    ContainerState,
> {
    Map::new(|c: usize| containers.contains_key(c), |c: usize| containers[c]@)
}

/// The controller of the whole editor.
#[derive(Debug)]
pub struct SLMController {
    model: SLMControllerModel,
    pattern_containers: HashMap<usize, PatternContainer>,
}

impl View for SLMController {
    type V = ControllerState;

    closed spec fn view(&self) -> ControllerState {
        ControllerState {
            containers: container_states(self.pattern_containers@),
            next_container_id: self.model.current_container_id,
        }
    }
}

impl SLMController {
    /// See [`ControllerState::wf`].
    pub open spec fn wf(&self) -> bool {
        self@.wf()
    }

    /// The model of a new controller: the counter at its start.
    pub fn model(_param: ()) -> (model: SLMControllerModel)
        ensures
            model.next_container_id() == 0,
    {
        SLMControllerModel { current_container_id: 0 }
    }

    /// The controller that has `model` as its model. It has no container
    /// yet.
    pub fn new(model: SLMControllerModel) -> (controller: SLMController)
        ensures
            controller@ == (ControllerState {
                containers: Map::empty(),
                next_container_id: model.next_container_id(),
            }),
            controller.wf(),
    {
        let controller = SLMController { model, pattern_containers: HashMap::new() };
        assert(controller@.containers =~= Map::empty());
        controller
    }

    /// The id that the next container will get.
    pub fn next_container_id(&self) -> (id: usize)
        ensures
            id == self@.next_container_id,
    {
        self.model.current_container_id
    }

    /// How many containers there are.
    pub fn len(&self) -> (n: usize)
        ensures
            n == self@.containers.dom().len(),
    {
        assert(self@.containers.dom() =~= self.pattern_containers@.dom());
        self.pattern_containers.len()
    }

    /// The container with the id `id`, if there is one.
    pub fn container(&self, id: usize) -> (found: Option<&PatternContainer>)
        ensures
            match found {
                Some(container) => self@.containers.contains_key(id) && container@
                    == self@.containers[id],
                None => !self@.containers.contains_key(id),
            },
    {
        self.pattern_containers.get(&id)
    }

    /// The ids of the containers, in ascending order: the order of the tabs.
    pub fn container_ids(&self) -> (ids: Vec<usize>)
        ensures
            ascending(ids@),
            ids@.to_set() == self@.containers.dom(),
            forall|n: nat| with_rank(self@.containers.dom(), n) == if n < ids@.len() {
                Some(ids@[n as int])
            } else {
                None
            },
    {
        sorted_ids(&self.pattern_containers)
    }

    /// The id of the container that the tab at place `page` shows, if there
    /// is such a tab.
    pub fn container_at(&self, page: usize) -> (found: Option<usize>)
        ensures
            found == with_rank(self@.containers.dom(), page as nat),
    {
        let ids = self.container_ids();
        if page < ids.len() {
            Some(ids[page])
        } else {
            None
        }
    }

    /// Whether the counter can still give an id.
    pub fn can_add_container(&self) -> (can: bool)
        ensures
            can == self@.can_add_container(),
    {
        self.model.current_container_id < usize::MAX
    }

    /// Puts a new container with the region of `container` under the next
    /// id, and leaves the counter where it is: the id is not given away
    /// before [`SLMController::add_new_container`] or another call moves the
    /// counter on, and a container put there meanwhile takes this one's
    /// place.
    pub fn add_new_container_no_increment(&mut self, container: PatternContainerData)
        ensures
            final(self)@ == old(self)@.with_container_at_next(container@),
    {
        let id = self.model.current_container_id;
        let new_container = PatternContainer::new(PatternContainer::model((container, id)));
        self.pattern_containers.insert(id, new_container);
    }

    /// Adds a new container with the region of `container` and returns the
    /// id it got. The container starts without patterns.
    pub fn add_new_container(&mut self, container: PatternContainerData) -> (id: usize)
        requires
            old(self)@.can_add_container(),
        ensures
            id == old(self)@.next_container_id,
            final(self)@ == old(self)@.with_new_container(container@),
            old(self).wf() ==> final(self).wf(),
    {
        let id = self.model.current_container_id;
        self.add_new_container_no_increment(container);
        self.model.current_container_id = id + 1;
        id
    }

    /// Removes the container with the id `id` and all its patterns, if the
    /// user confirmed it and there is such a container; else nothing changes.
    pub fn remove_container(&mut self, id: usize, confirmed: bool)
        ensures
            final(self)@ == if confirmed {
                old(self)@.without_container(id)
            } else {
                old(self)@
            },
            old(self).wf() ==> final(self).wf(),
    {
        if confirmed {
            self.pattern_containers.remove(&id);
        }
    }

    /// Removes all containers, if the user confirmed it; else nothing
    /// changes. The counter stays, so no id comes back.
    pub fn remove_all_containers(&mut self, confirmed: bool)
        ensures
            final(self)@ == if confirmed {
                old(self)@.without_containers()
            } else {
                old(self)@
            },
            old(self).wf() ==> final(self).wf(),
    {
        if confirmed {
            self.pattern_containers.clear();
        }
    }

    /// Gives the container with the id `c` the further pattern `data`, if
    /// there is such a container, and returns the id that the pattern got.
    pub fn add_pattern(&mut self, c: usize, data: PatternData) -> (id: Option<usize>)
        requires
            old(self)@.accepts(SLMControllerMsg::AddController(c, data)),
        ensures
            final(self)@ == old(self)@.with_new_pattern(c, data),
            id == if old(self)@.containers.contains_key(c) {
                Some(old(self)@.containers[c].next_pattern_id)
            } else {
                None
            },
            old(self).wf() ==> final(self).wf(),
    {
        match self.pattern_containers.remove(&c) {
            Some(container) => {
                let mut container = container;
                let id = container.add_pattern(data);
                self.pattern_containers.insert(c, container);
                Some(id)
            },
            None => None,
        }
    }

    /// Whether the container with the id `c`, if there is one, can take
    /// `event`.
    pub fn can_deliver(&self, c: usize, event: &PatternContainerMsg) -> (can: bool)
        ensures
            can == self@.can_deliver(c, *event),
    {
        match self.container(c) {
            Some(container) => container.accepts(event),
            None => true,
        }
    }

    /// Lets the container with the id `c` take `event`, if there is such a
    /// container; else nothing changes.
    pub fn deliver(&mut self, c: usize, event: PatternContainerMsg)
        requires
            old(self)@.can_deliver(c, event),
        ensures
            final(self)@ == old(self)@.delivered(c, event),
            old(self).wf() ==> final(self).wf(),
    {
        match self.pattern_containers.remove(&c) {
            Some(container) => {
                let mut container = container;
                container.handle(event);
                self.pattern_containers.insert(c, container);
            },
            None => {},
        }
    }

    /// What is to be saved, if the user chose a destination: the record of
    /// each container under the container's id. Without a destination nothing
    /// is to be saved.
    pub fn save_containers(&self, confirmed: bool) -> (saved: Option<
        HashMap<usize, PatternContainerData>,
    >)
        ensures
            match saved {
                Some(records) => confirmed && document(records@) == self@.saved(),
                None => !confirmed,
            },
    {
        if !confirmed {
            return None;
        }
        let ids = self.container_ids();
        let mut records: HashMap<usize, PatternContainerData> = HashMap::new();
        let mut i: usize = 0;
        while i < ids.len()
            invariant
                i <= ids.len(),
                ids@.to_set() == self@.containers.dom(),
                records@.dom() == ids@.take(i as int).to_set(),
                forall|c: usize| #[trigger]
                    records@.contains_key(c) ==> records@[c]@ == self@.containers[c].data,
            decreases ids.len() - i,
        {
            let id = ids[i];
            let found = self.container(id);
            let record = found.unwrap().data().clone();
            records.insert(id, record);
            proof {
                assert(ids@.take(i + 1) =~= ids@.take(i as int).push(id));
                ids@.take(i as int).lemma_push_to_set_commute(id);
            }
            i += 1;
        }
        assert(ids@.take(i as int) =~= ids@);
        Some(records)
    }

    /// Whether the counter can give an id to each of `records`.
    pub fn can_load(&self, records: &HashMap<usize, PatternContainerData>) -> (can: bool)
        ensures
            can == self@.can_load(document(records@)),
    {
        assert(document(records@).dom() =~= records@.dom());
        records.len() <= usize::MAX - self.model.current_container_id
    }

    /// Takes in what was read from the source that the user chose.
    ///
    /// Where reading failed, nothing changes, and the kind of the failure is
    /// handed back for the user to see. Else each record becomes a container
    /// of its own beside those that are there, with new ids for it and its
    /// patterns: see [`ControllerState::with_loaded`].
    pub fn load_containers(
        &mut self,
        source: Result<HashMap<usize, PatternContainerData>, ReadFailure>,
    ) -> (outcome: Result<(), PersistError>)
        requires
            source matches Ok(records) ==> old(self)@.can_load(document(records@)),
        ensures
            match source {
                Ok(records) => outcome is Ok && final(self)@ == old(self)@.with_loaded(
                    document(records@),
                ),
                Err(failure) => outcome == Err::<(), PersistError>(failure.kind()) && final(self)@
                    == old(self)@,
            },
            old(self).wf() ==> final(self).wf(),
    {
        match source {
            Ok(records) => {
                self.merge(&records);
                Ok(())
            },
            Err(failure) => Err(failure.classify()),
        }
    }

    /// Adds a container for each of `records`, in ascending order of their
    /// ids.
    fn merge(&mut self, records: &HashMap<usize, PatternContainerData>)
        requires
            old(self)@.can_load(document(records@)),
        ensures
            final(self)@ == old(self)@.with_loaded(document(records@)),
            old(self).wf() ==> final(self).wf(),
    {
        let ghost before = self@;
        let ghost doc = document(records@);
        let first = self.model.current_container_id;
        let ids = sorted_ids(records);
        assert(doc.dom() =~= records@.dom());
        let mut i: usize = 0;
        while i < ids.len()
            invariant
                i <= ids.len(),
                first + ids.len() <= usize::MAX,
                before.next_container_id == first,
                doc == document(records@),
                ids@.to_set() == records@.dom(),
                self@.next_container_id == first + i,
                self@.containers == Map::new(
                    |c: usize| first <= c < first + i || before.containers.contains_key(c),
                    |c: usize|
                        if first <= c < first + i {
                            ContainerState::loaded(doc[ids@[c - first]], c)
                        } else {
                            before.containers[c]
                        },
                ),
                before.wf() ==> self@.wf(),
            decreases ids.len() - i,
        {
            let id = ids[i];
            let found = records.get(&id);
            let container = PatternContainer::restored(found.unwrap(), first + i);
            let ghost previous = self@;
            self.pattern_containers.insert(first + i, container);
            self.model.current_container_id = first + i + 1;
            assert(self@.containers =~= previous.containers.insert(
                (first + i) as usize,
                container@,
            ));
            i += 1;
        }
    }

    /// Whether the controller can take `event`.
    pub fn accepts(&self, event: &SLMControllerMsg) -> (ok: bool)
        ensures
            ok == self@.accepts(*event),
    {
        match event {
            SLMControllerMsg::AddTab => self.can_add_container(),
            SLMControllerMsg::AddController(c, _) => match self.container(*c) {
                Some(container) => container.can_add_pattern(),
                None => true,
            },
            _ => true,
        }
    }

    /// Applies `event` and says what is to be done next.
    pub fn update(&mut self, event: SLMControllerMsg) -> (action: Action)
        requires
            old(self)@.accepts(event),
        ensures
            final(self)@ == old(self)@.step(event),
            action == old(self)@.action(event),
            old(self).wf() ==> final(self).wf(),
    {
        match event {
            SLMControllerMsg::Quit => Action::Quit,
            SLMControllerMsg::AddTab => {
                self.add_new_container(PatternContainerData::default());
                Action::Render
            },
            SLMControllerMsg::RemoveTab(page) => match self.container_at(page) {
                Some(id) => Action::ConfirmRemove(id),
                None => Action::Render,
            },
            SLMControllerMsg::RemoveAllTabs => Action::ConfirmRemoveAll,
            SLMControllerMsg::SaveContainers => Action::ChooseSaveDestination,
            SLMControllerMsg::LoadContainers => Action::ChooseLoadSource,
            SLMControllerMsg::AddController(c, data) => {
                self.add_pattern(c, data);
                Action::Render
            },
            _ => {
                match event.addressed() {
                    Some((c, e)) => {
                        self.deliver(c, e);
                    },
                    None => {},
                }
                Action::Render
            },
        }
    }
}

} // verus!
