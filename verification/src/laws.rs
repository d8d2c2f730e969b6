//! What holds of the controller whatever it is asked to do.
//!
//! The contracts of the methods say what each call does to the state. The
//! proofs here say what follows for a user of the editor: what a change
//! leaves alone, that ids are not used twice, and that what was saved comes
//! back when it is loaded.

use crate::controller::{ControllerState, ReadFailure, SLMControllerMsg};
use crate::ids::{lemma_rank_is_bounded, lemma_with_rank, rank, with_rank};
use vstd::set_lib::lemma_len_subset;
use crate::pattern_container::{renumbered, ContainerState, PatternContainerMsg};
use crate::pattern_controller::PatternControllerMsg;
use crate::slm_data::{PatternContainerView, PatternData};
use vstd::prelude::*;

verus! {

/// A message that went up from a container `c` does, at the top level, what
/// the container would do with the event it came from.
pub proof fn law_routed_event_reaches_its_container(
    s: ControllerState,
    c: usize,
    event: PatternContainerMsg,
)
    ensures
        s.step(event.routed(c)) == s.delivered(c, event),
        s.accepts(event.routed(c)) == s.can_deliver(c, event),
{
}

/// Removing a container a second time changes nothing.
pub proof fn law_removal_is_idempotent(s: ControllerState, id: usize)
    ensures
        s.without_container(id).without_container(id) == s.without_container(id),
        !s.without_container(id).containers.contains_key(id),
{
}

/// Removing a container that is not there changes nothing.
pub proof fn law_removal_of_missing_container(s: ControllerState, id: usize)
    requires
        !s.containers.contains_key(id),
    ensures
        s.without_container(id) == s,
{
}

/// A new value for a parameter of the pattern `p` in the container `c`
/// reaches that parameter of that pattern and nothing else: the other
/// containers, the region and the other patterns of `c`, and both counters
/// stay as they are, and no container or pattern comes or goes.
pub proof fn law_pattern_update_is_isolated(
    s: ControllerState,
    c: usize,
    p: usize,
    edit: PatternControllerMsg,
)
    requires
        edit !is DeleteSelf,
    ensures
        ({
            let t = s.step(edit.routed(p).routed(c));
            &&& t.next_container_id == s.next_container_id
            &&& t.containers.dom() == s.containers.dom()
            &&& forall|other: usize|
                other != c && s.containers.contains_key(other) ==> #[trigger] t.containers[other]
                    == s.containers[other]
            &&& s.containers.contains_key(c) ==> {
                let before = s.containers[c];
                let after = t.containers[c];
                &&& after.id == before.id
                &&& after.next_pattern_id == before.next_pattern_id
                &&& after.data.cleared() == before.data.cleared()
                &&& after.data.patterns.dom() == before.data.patterns.dom()
                &&& forall|q: usize|
                    q != p && before.data.patterns.contains_key(q)
                        ==> #[trigger] after.data.patterns[q] == before.data.patterns[q]
                &&& before.data.patterns.contains_key(p) ==> after.data.patterns[p]
                    == edit.applied(before.data.patterns[p])
            }
        }),
{
}

/// A new topological charge for a pattern changes the charge of that pattern
/// and no other of its parameters.
pub proof fn law_charge_update_changes_the_charge_only(
    s: ControllerState,
    c: usize,
    p: usize,
    l: i32,
)
    requires
        s.containers.contains_key(c),
        s.containers[c].data.patterns.contains_key(p),
    ensures
        s.step(SLMControllerMsg::UpdatePatternL(c, p, l)).containers[c].data.patterns[p] == (
        PatternData { l, ..s.containers[c].data.patterns[p] }),
{
}

/// A message for a container that is not there changes nothing at all.
pub proof fn law_missing_container_changes_nothing(s: ControllerState, event: SLMControllerMsg)
    requires
        match event {
            SLMControllerMsg::AddController(c, _) => !s.containers.contains_key(c),
            _ => event.delivery() matches Some((c, _)) && !s.containers.contains_key(c),
        },
    ensures
        s.step(event) == s,
{
}

/// A new value for a parameter of a pattern that is not there changes
/// nothing at all.
pub proof fn law_missing_pattern_changes_nothing(
    s: ControllerState,
    c: usize,
    p: usize,
    edit: PatternControllerMsg,
)
    requires
        s.containers.contains_key(c) ==> !s.containers[c].data.patterns.contains_key(p),
    ensures
        s.step(edit.routed(p).routed(c)) == s,
{
    if s.containers.contains_key(c) {
        assert(s.step(edit.routed(p).routed(c)).containers[c] == s.containers[c]);
    }
}

/// The ids below `n`.
pub open spec fn ids_below(n: usize) -> Set<usize> {
    Set::new(|x: usize| x < n)
}

/// There are `n` ids below `n`.
pub proof fn lemma_ids_below(n: usize)
    ensures
        ids_below(n).finite(),
        ids_below(n).len() == n,
    decreases n,
{
    if n == 0 {
        assert(ids_below(n) =~= Set::empty());
    } else {
        let m = (n - 1) as usize;
        lemma_ids_below(m);
        assert(ids_below(n) =~= ids_below(m).insert(m));
    }
}

/// A set of ids that are all below `n` has at most `n` of them.
pub proof fn lemma_bounded_ids(ids: Set<usize>, n: usize)
    requires
        forall|x: usize| ids.contains(x) ==> x < n,
    ensures
        ids.finite(),
        ids.len() <= n,
{
    lemma_ids_below(n);
    vstd::set_lib::lemma_set_subset_finite(ids_below(n), ids);
    lemma_len_subset(ids, ids_below(n));
}

/// What can be loaded: finitely many records, each with finitely many
/// patterns, and no more of them than a counter can count.
pub open spec fn loadable(doc: Map<usize, PatternContainerView>) -> bool {
    &&& doc.dom().finite()
    &&& forall|c: usize| #[trigger]
        doc.contains_key(c) ==> {
            &&& doc[c].patterns.dom().finite()
            &&& doc[c].patterns.dom().len() <= usize::MAX
        }
}

/// The new ids of the patterns of a loaded record are the ranks of their old
/// ids: each pattern is found again at the rank of its id, and there is no
/// further pattern.
pub proof fn law_loaded_patterns_keep_their_order(patterns: Map<usize, PatternData>)
    requires
        patterns.dom().finite(),
        patterns.dom().len() <= usize::MAX,
    ensures
        renumbered(patterns).dom().finite(),
        forall|p: usize| #[trigger]
            patterns.contains_key(p) ==> {
                let j = rank(patterns.dom(), p) as usize;
                &&& renumbered(patterns).contains_key(j)
                &&& renumbered(patterns)[j] == patterns[p]
            },
        forall|j: usize| #[trigger]
            renumbered(patterns).contains_key(j) ==> {
                &&& j < patterns.dom().len()
                &&& exists|p: usize| patterns.contains_key(p) && j == rank(patterns.dom(), p)
            },
{
    let ids = patterns.dom();
    let place = |p: usize| rank(ids, p) as usize;
    assert forall|p: usize| #[trigger] patterns.contains_key(p) implies {
        let j = rank(ids, p) as usize;
        &&& renumbered(patterns).contains_key(j)
        &&& renumbered(patterns)[j] == patterns[p]
    } by {
        lemma_rank_is_bounded(ids, p);
        lemma_with_rank(ids, p);
    }
    assert forall|j: usize| #[trigger] renumbered(patterns).contains_key(j) implies {
        &&& j < ids.len()
        &&& exists|p: usize| patterns.contains_key(p) && j == rank(ids, p)
    } by {
        let p = with_rank(ids, j as nat).unwrap();
        lemma_rank_is_bounded(ids, p);
    }
    let new_ids = renumbered(patterns).dom();
    let ranks = ids.map(place);
    assert(new_ids =~= ranks) by {
        assert forall|j: usize| #[trigger] new_ids.contains(j) implies ranks.contains(j) by {
            let p = with_rank(ids, j as nat).unwrap();
            assert(ids.contains(p) && j == place(p));
        }
        assert forall|j: usize| #[trigger] ranks.contains(j) implies new_ids.contains(j) by {
            let p = choose|p: usize| ids.contains(p) && j == place(p);
            assert(patterns.contains_key(p));
        }
    }
    ids.lemma_map_finite(place);
}

/// A loaded record gives a well-formed container with the record's region.
pub proof fn law_loaded_container_is_well_formed(record: PatternContainerView, id: usize)
    requires
        record.patterns.dom().finite(),
        record.patterns.dom().len() <= usize::MAX,
    ensures
        ContainerState::loaded(record, id).wf(),
        ContainerState::loaded(record, id).id == id,
        ContainerState::loaded(record, id).data.cleared() == record.cleared(),
{
    law_loaded_patterns_keep_their_order(record.patterns);
}

/// The new ids of loaded records follow the ids in use, in the order of the
/// records' old ids: each record is found again at the next id plus the rank
/// of its old id, the containers that were there stay as they are, and there
/// is no further container.
pub proof fn law_loaded_containers_keep_their_order(
    s: ControllerState,
    doc: Map<usize, PatternContainerView>,
)
    requires
        s.wf(),
        doc.dom().finite(),
        s.can_load(doc),
    ensures
        ({
            let t = s.with_loaded(doc);
            &&& t.containers.dom().finite()
            &&& t.next_container_id == s.next_container_id + doc.dom().len()
            &&& forall|d: usize| #[trigger]
                doc.contains_key(d) ==> {
                    let c = (s.next_container_id + rank(doc.dom(), d)) as usize;
                    &&& t.containers.contains_key(c)
                    &&& t.containers[c] == ContainerState::loaded(doc[d], c)
                }
            &&& forall|c: usize| #[trigger]
                s.containers.contains_key(c) ==> t.containers.contains_key(c) && t.containers[c]
                    == s.containers[c]
            &&& forall|c: usize| #[trigger]
                t.containers.contains_key(c) ==> {
                    ||| s.containers.contains_key(c)
                    ||| s.next_container_id <= c < t.next_container_id && exists|d: usize|
                        doc.contains_key(d) && c == s.next_container_id + rank(doc.dom(), d)
                }
        }),
{
    let t = s.with_loaded(doc);
    let first = s.next_container_id;
    let ids = doc.dom();
    let place = |d: usize| (first + rank(ids, d)) as usize;
    assert forall|d: usize| #[trigger] doc.contains_key(d) implies {
        let c = (first + rank(ids, d)) as usize;
        &&& t.containers.contains_key(c)
        &&& t.containers[c] == ContainerState::loaded(doc[d], c)
    } by {
        lemma_rank_is_bounded(ids, d);
        lemma_with_rank(ids, d);
    }
    assert forall|c: usize| #[trigger] t.containers.contains_key(c) implies {
        ||| s.containers.contains_key(c)
        ||| first <= c < t.next_container_id && exists|d: usize|
            doc.contains_key(d) && c == first + rank(ids, d)
    } by {
        if s.gets_loaded(doc, c) {
            let d = with_rank(ids, (c - first) as nat).unwrap();
            lemma_rank_is_bounded(ids, d);
        }
    }
    let new_ids = t.containers.dom();
    let wanted = s.containers.dom().union(ids.map(place));
    assert(new_ids =~= wanted) by {
        assert forall|c: usize| #[trigger] new_ids.contains(c) implies wanted.contains(c) by {
            if s.gets_loaded(doc, c) {
                let d = with_rank(ids, (c - first) as nat).unwrap();
                lemma_rank_is_bounded(ids, d);
                assert(ids.contains(d) && c == place(d));
            }
        }
        assert forall|c: usize| #[trigger] wanted.contains(c) implies new_ids.contains(c) by {
            if ids.map(place).contains(c) {
                let d = choose|d: usize| ids.contains(d) && c == place(d);
                assert(doc.contains_key(d));
            }
        }
    }
    ids.lemma_map_finite(place);
}

/// Whether the container `after` holds what the record `before` holds, with
/// new ids for the patterns: the same region, a pattern with the same
/// parameters for each pattern of the record, at the rank of its old id, and
/// no other pattern.
pub open spec fn stands_for(after: ContainerState, before: PatternContainerView) -> bool {
    &&& after.data.cleared() == before.cleared()
    &&& after.next_pattern_id == before.patterns.dom().len()
    &&& forall|p: usize| #[trigger]
        before.patterns.contains_key(p) ==> {
            &&& after.data.patterns.contains_key(rank(before.patterns.dom(), p) as usize)
            &&& after.data.patterns[rank(before.patterns.dom(), p) as usize] == before.patterns[p]
        }
    &&& forall|j: usize| #[trigger]
        after.data.patterns.contains_key(j) ==> exists|p: usize|
            before.patterns.contains_key(p) && j == rank(before.patterns.dom(), p)
}

/// Whether the state `after` holds what the state `before` holds, with new
/// ids: a container for each container of `before`, at the rank of its old
/// id, that stands for it (see [`stands_for`]), and no other container.
pub open spec fn holds_what(after: ControllerState, before: ControllerState) -> bool {
    &&& after.next_container_id == before.containers.dom().len()
    &&& forall|c: usize| #[trigger]
        before.containers.contains_key(c) ==> {
            &&& after.containers.contains_key(rank(before.containers.dom(), c) as usize)
            &&& stands_for(
                after.containers[rank(before.containers.dom(), c) as usize],
                before.containers[c].data,
            )
        }
    &&& forall|n: usize| #[trigger]
        after.containers.contains_key(n) ==> exists|c: usize|
            before.containers.contains_key(c) && n == rank(before.containers.dom(), c)
}

/// What was saved comes back when it is loaded.
///
/// What a well-formed state saves can be loaded into a new controller, and
/// the state that this gives holds what the first state held: nothing is
/// lost, nothing is added, and every number is the same bit for bit. The
/// ids are new; the containers and the patterns keep their order.
pub proof fn law_saved_state_loads_back(s: ControllerState)
    requires
        s.wf(),
    ensures
        ControllerState::empty().can_load(s.saved()),
        ControllerState::empty().with_loaded(s.saved()).wf(),
        holds_what(ControllerState::empty().with_loaded(s.saved()), s),
{
    let doc = s.saved();
    let fresh = ControllerState::empty();
    let t = fresh.with_loaded(doc);
    assert(doc.dom() =~= s.containers.dom());
    lemma_bounded_ids(s.containers.dom(), s.next_container_id);
    assert forall|c: usize| #[trigger] doc.contains_key(c) implies {
        &&& doc[c].patterns.dom().finite()
        &&& doc[c].patterns.dom().len() <= usize::MAX
    } by {
        lemma_bounded_ids(doc[c].patterns.dom(), s.containers[c].next_pattern_id);
    }
    law_loaded_containers_keep_their_order(fresh, doc);
    assert forall|c: usize| #[trigger] s.containers.contains_key(c) implies {
        &&& t.containers.contains_key(rank(s.containers.dom(), c) as usize)
        &&& stands_for(t.containers[rank(s.containers.dom(), c) as usize], s.containers[c].data)
    } by {
        lemma_rank_is_bounded(s.containers.dom(), c);
        law_loaded_patterns_keep_their_order(doc[c].patterns);
    }
    assert forall|n: usize| #[trigger] t.containers.contains_key(n) implies {
        &&& t.containers[n].id == n
        &&& t.containers[n].wf()
        &&& n < t.next_container_id
        &&& exists|c: usize| s.containers.contains_key(c) && n == rank(s.containers.dom(), c)
    } by {
        let d = choose|d: usize| doc.contains_key(d) && n == 0 + rank(doc.dom(), d);
        lemma_rank_is_bounded(doc.dom(), d);
        law_loaded_container_is_well_formed(doc[d], n);
    }
}

/// One call that changes a controller, as contracts see it: the method of
/// [`SLMController`](crate::controller::SLMController) and its arguments.
pub enum Call {
    /// `update` with a message.
    Update(SLMControllerMsg),
    /// `add_new_container` with the record to start from.
    AddContainer(PatternContainerView),
    /// `remove_container` with an id and the user's answer.
    RemoveContainer(usize, bool),
    /// `remove_all_containers` with the user's answer.
    RemoveAllContainers(bool),
    /// `add_pattern` with the id of a container and a pattern.
    AddPattern(usize, PatternData),
    /// `deliver` with the id of a container and an event for it.
    Deliver(usize, PatternContainerMsg),
    /// `load_containers` with what was read, or how reading failed.
    Load(Result<Map<usize, PatternContainerView>, ReadFailure>),
}

impl Call {
    /// Whether the call asks for a new container.
    pub open spec fn adds_container(self) -> bool {
        self is AddContainer || self == Call::Update(SLMControllerMsg::AddTab)
    }
}

impl ControllerState {
    /// Whether the state meets what `call` requires.
    pub open spec fn admits(self, call: Call) -> bool {
        match call {
            Call::Update(event) => self.accepts(event),
            Call::AddContainer(_) => self.can_add_container(),
            Call::AddPattern(c, data) => self.accepts(SLMControllerMsg::AddController(c, data)),
            Call::Deliver(c, event) => self.can_deliver(c, event),
            Call::Load(Ok(doc)) => loadable(doc) && self.can_load(doc),
            _ => true,
        }
    }

    /// The state after `call`, as the contract of the method gives it.
    pub open spec fn after(self, call: Call) -> ControllerState {
        match call {
            Call::Update(event) => self.step(event),
            Call::AddContainer(data) => self.with_new_container(data),
            Call::RemoveContainer(id, confirmed) => if confirmed {
                self.without_container(id)
            } else {
                self
            },
            Call::RemoveAllContainers(confirmed) => if confirmed {
                self.without_containers()
            } else {
                self
            },
            Call::AddPattern(c, data) => self.with_new_pattern(c, data),
            Call::Deliver(c, event) => self.delivered(c, event),
            Call::Load(Ok(doc)) => self.with_loaded(doc),
            Call::Load(Err(_)) => self,
        }
    }

    /// The state after all of `calls`, one after the other.
    pub open spec fn after_all(self, calls: Seq<Call>) -> ControllerState
        decreases calls.len(),
    {
        if calls.len() == 0 {
            self
        } else {
            self.after_all(calls.drop_last()).after(calls.last())
        }
    }

    /// Whether each of `calls` finds what it requires when its turn comes.
    pub open spec fn admits_all(self, calls: Seq<Call>) -> bool {
        forall|k: int|
            0 <= k < calls.len() ==> #[trigger] self.after_all(calls.take(k)).admits(calls[k])
    }
}

/// A container that takes an event it accepts stays well formed.
pub proof fn law_container_stays_well_formed(s: ContainerState, event: PatternContainerMsg)
    requires
        s.wf(),
        s.accepts(event),
    ensures
        s.handled(event).wf(),
        s.handled(event).id == s.id,
        s.handled(event).next_pattern_id >= s.next_pattern_id,
{
}

/// One call leaves a well-formed state well formed and does not move the
/// counter of container ids back. A call for a new container puts the
/// container under the id that the counter showed, and moves the counter on
/// by one.
pub proof fn law_one_call(s: ControllerState, call: Call)
    requires
        s.admits(call),
    ensures
        s.after(call).next_container_id >= s.next_container_id,
        s.wf() ==> s.after(call).wf(),
        call.adds_container() ==> {
            &&& s.after(call).next_container_id == s.next_container_id + 1
            &&& s.after(call).containers.contains_key(s.next_container_id)
            &&& s.after(call).containers[s.next_container_id].id == s.next_container_id
        },
{
    match call {
        Call::Update(event) => {
            if let Some((c, e)) = event.delivery() {
                if s.wf() && s.containers.contains_key(c) {
                    law_container_stays_well_formed(s.containers[c], e);
                }
            }
        },
        Call::Deliver(c, e) => {
            if s.wf() && s.containers.contains_key(c) {
                law_container_stays_well_formed(s.containers[c], e);
            }
        },
        Call::Load(Ok(doc)) => {
            if s.wf() {
                law_loaded_containers_keep_their_order(s, doc);
                let t = s.with_loaded(doc);
                assert forall|c: usize| #[trigger] t.containers.contains_key(c) implies {
                    &&& c < t.next_container_id
                    &&& t.containers[c].id == c
                    &&& t.containers[c].wf()
                } by {
                    if !s.containers.contains_key(c) {
                        let d = choose|d: usize|
                            doc.contains_key(d) && c == s.next_container_id + rank(doc.dom(), d);
                        law_loaded_container_is_well_formed(doc[d], c);
                    }
                }
            }
        },
        _ => {},
    }
}

/// The calls of a sequence, taken one more at a time.
proof fn lemma_one_more_call(s: ControllerState, calls: Seq<Call>, k: int)
    requires
        0 <= k < calls.len(),
    ensures
        s.after_all(calls.take(k + 1)) == s.after_all(calls.take(k)).after(calls[k]),
{
    assert(calls.take(k + 1).drop_last() =~= calls.take(k));
}

/// Whatever is done to a well-formed controller, it stays well formed.
pub proof fn law_calls_keep_well_formed(s: ControllerState, calls: Seq<Call>, k: int)
    requires
        s.wf(),
        s.admits_all(calls),
        0 <= k <= calls.len(),
    ensures
        s.after_all(calls.take(k)).wf(),
    decreases k,
{
    if k > 0 {
        law_calls_keep_well_formed(s, calls, k - 1);
        lemma_one_more_call(s, calls, k - 1);
        law_one_call(s.after_all(calls.take(k - 1)), calls[k - 1]);
    }
}

/// Whatever is done to a controller, the counter of container ids never
/// moves back; a call for a new container moves it on.
pub proof fn law_counter_moves_on(s: ControllerState, calls: Seq<Call>, i: int, j: int)
    requires
        s.admits_all(calls),
        0 <= i <= j <= calls.len(),
    ensures
        s.after_all(calls.take(i)).next_container_id <= s.after_all(
            calls.take(j),
        ).next_container_id,
        i < j && calls[i].adds_container() ==> s.after_all(calls.take(i)).next_container_id
            < s.after_all(calls.take(j)).next_container_id,
    decreases j - i,
{
    if i < j {
        lemma_one_more_call(s, calls, i);
        law_one_call(s.after_all(calls.take(i)), calls[i]);
        law_counter_moves_on(s, calls, i + 1, j);
    }
}

/// No container id is given twice.
///
/// Of two calls for a new container, whatever was added, removed or loaded
/// between them, the later one gives the larger id: the ids given are all
/// different, and each is larger than all that were given before. Each is
/// the id of the new container once the call is done.
pub proof fn law_container_ids_increase(s: ControllerState, calls: Seq<Call>, i: int, j: int)
    requires
        s.admits_all(calls),
        0 <= i < j < calls.len(),
        calls[i].adds_container(),
        calls[j].adds_container(),
    ensures
        ({
            let first = s.after_all(calls.take(i)).next_container_id;
            let second = s.after_all(calls.take(j)).next_container_id;
            &&& first < second
            &&& s.after_all(calls.take(i + 1)).containers.contains_key(first)
            &&& s.after_all(calls.take(j + 1)).containers.contains_key(second)
        }),
{
    law_counter_moves_on(s, calls, i, j);
    lemma_one_more_call(s, calls, i);
    law_one_call(s.after_all(calls.take(i)), calls[i]);
    lemma_one_more_call(s, calls, j);
    law_one_call(s.after_all(calls.take(j)), calls[j]);
}

/// The id that a call for a new container gives was not in use at any time
/// before the call, if the controller was well formed to begin with.
pub proof fn law_new_container_id_is_fresh(s: ControllerState, calls: Seq<Call>, i: int, j: int)
    requires
        s.wf(),
        s.admits_all(calls),
        0 <= i <= j < calls.len(),
        calls[j].adds_container(),
    ensures
        !s.after_all(calls.take(i)).containers.contains_key(
            s.after_all(calls.take(j)).next_container_id,
        ),
{
    law_calls_keep_well_formed(s, calls, i);
    law_counter_moves_on(s, calls, i, j);
}

/// Whatever a new controller was asked to do, what it then saves comes back
/// when it is loaded: see [`law_saved_state_loads_back`].
pub proof fn law_built_state_loads_back(calls: Seq<Call>)
    requires
        ControllerState::empty().admits_all(calls),
    ensures
        ({
            let s = ControllerState::empty().after_all(calls);
            &&& s.wf()
            &&& ControllerState::empty().can_load(s.saved())
            &&& holds_what(ControllerState::empty().with_loaded(s.saved()), s)
        }),
{
    let s = ControllerState::empty().after_all(calls);
    assert(calls.take(calls.len() as int) =~= calls);
    law_calls_keep_well_formed(ControllerState::empty(), calls, calls.len() as int);
    law_saved_state_loads_back(s);
}

} // verus!
