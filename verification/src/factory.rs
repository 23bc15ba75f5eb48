//! The factory/collection runtime: a dynamic, ordered collection of
//! homogeneous child components.
//!
//! Each entry owns an independent state machine; insertion order defines
//! display order. The collection tracks, separately, which keys currently
//! have a live widget subtree in the toolkit ([`rendered`]); calling
//! [`Factory::update_view`] reconciles the displayed children against the
//! current entries: it emits one [`ViewOp::Insert`] per newly added entry at
//! the position the layout assigns its index, one [`ViewOp::Remove`] per
//! removed key, and touches unchanged entries not at all. Keys are handed
//! out from a monotone counter, so a key is never reused.
//!
//! [`rendered`]: FactoryModel::rendered

use vstd::prelude::*;

use crate::component::{
    spec_run, spec_send, spec_started_machine, wf_machine, Component, MachineModel, Phase,
    StateMachine,
};
use crate::controller::{relay_machine_outputs, spec_relay, OutputTransform};

verus! {

/// Where the factory's view places its children: sequentially in a list, or
/// row by row in a grid with a fixed number of columns. This is the position
/// function an index is mapped through.
#[derive(Clone, Copy, Debug, PartialEq, Eq, Structural)]
pub enum Layout {
    /// Children stacked sequentially; index `i` sits in row `i`.
    List,
    /// Children laid out row by row, `columns` per row.
    Grid {
        /// Entries per row; at least 1.
        columns: u64,
    },
}

/// A 2-D position in the factory's view.
#[derive(Clone, Copy, Debug, PartialEq, Eq, Structural)]
pub struct Position {
    /// Column, counted from 0.
    pub column: u64,
    /// Row, counted from 0.
    pub row: u64,
}

/// One reconciliation step [`Factory::update_view`] asks the toolkit to
/// perform.
#[derive(Clone, Copy, Debug, PartialEq, Eq, Structural)]
pub enum ViewOp {
    /// Materialize a widget subtree for `key` at `position`.
    Insert {
        /// The entry's stable key.
        key: u64,
        /// Where the layout places the entry's index.
        position: Position,
    },
    /// Detach and destroy the widget subtree of `key`.
    Remove {
        /// The removed entry's key.
        key: u64,
    },
}

/// A layout is usable when a grid has at least one column.
pub open spec fn layout_wf(layout: Layout) -> bool {
    match layout {
        Layout::List => true,
        Layout::Grid { columns } => columns >= 1,
    }
}

/// The position the layout assigns to display index `index`.
pub open spec fn spec_position(layout: Layout, index: int) -> Position {
    match layout {
        Layout::List => Position { column: 0, row: index as u64 },
        Layout::Grid { columns } => Position {
            column: (index as u64) % columns,
            row: (index as u64) / columns,
        },
    }
}

/// Computes the position the layout assigns to display index `index`.
pub fn position_of(layout: Layout, index: u64) -> (p: Position)
    requires
        layout_wf(layout),
    ensures
        p == spec_position(layout, index as int),
{
    match layout {
        Layout::List => Position { column: 0, row: index },
        Layout::Grid { columns } => Position { column: index % columns, row: index / columns },
    }
}

/// Abstract state of a factory collection.
#[verifier::ext_equal]
pub ghost struct FactoryModel<C: Component> {
    /// The live entries in display order: stable key and machine state.
    pub entries: Seq<(u64, MachineModel<C>)>,
    /// The keys that currently have a live widget subtree, in display order,
    /// as of the last reconciliation.
    pub rendered: Seq<u64>,
    /// The key the next insertion receives; never decreases.
    pub next_key: u64,
    /// The position function.
    pub layout: Layout,
}

/// The keys of `entries`, in display order.
pub open spec fn spec_keys<C: Component>(entries: Seq<(u64, MachineModel<C>)>) -> Seq<u64> {
    entries.map_values(|e: (u64, MachineModel<C>)| e.0)
}

/// Whether some entry carries `key`.
pub open spec fn has_key<C: Component>(
    entries: Seq<(u64, MachineModel<C>)>,
    key: u64,
) -> bool {
    exists|i: int| 0 <= i < entries.len() && (#[trigger] entries[i]).0 == key
}

/// The display index of the entry carrying `key`.
pub open spec fn index_of_key<C: Component>(
    entries: Seq<(u64, MachineModel<C>)>,
    key: u64,
) -> int {
    choose|i: int| 0 <= i < entries.len() && (#[trigger] entries[i]).0 == key
}

/// Well-formedness of a factory: keys are unique and below the next key to
/// hand out, no two live widget subtrees share a key, the layout is usable,
/// and every entry's machine is well formed and running — an entry's
/// processing loop lives exactly as long as its entry.
pub open spec fn wf_factory<C: Component>(v: FactoryModel<C>) -> bool {
    &&& forall|i: int, j: int|
        0 <= i < j < v.entries.len()
            ==> (#[trigger] v.entries[i]).0 != (#[trigger] v.entries[j]).0
    &&& forall|i: int| 0 <= i < v.entries.len() ==> (#[trigger] v.entries[i]).0 < v.next_key
    &&& forall|i: int| 0 <= i < v.entries.len() ==> wf_machine((#[trigger] v.entries[i]).1)
    &&& forall|i: int|
        0 <= i < v.entries.len()
            ==> (#[trigger] v.entries[i]).1.phase == Phase::Running
    &&& forall|i: int, j: int|
        0 <= i < j < v.rendered.len() ==> (#[trigger] v.rendered[i]) != (#[trigger] v.rendered[j])
    &&& layout_wf(v.layout)
}

/// The removals one reconciliation emits: one per rendered key whose entry
/// is gone, in display order.
pub open spec fn spec_removal_ops<C: Component>(
    rendered: Seq<u64>,
    entries: Seq<(u64, MachineModel<C>)>,
) -> Seq<ViewOp>
    decreases rendered.len(),
{
    if rendered.len() == 0 {
        Seq::empty()
    } else {
        let rest = spec_removal_ops(rendered.drop_first(), entries);
        if has_key(entries, rendered[0]) {
            rest
        } else {
            seq![ViewOp::Remove { key: rendered[0] }] + rest
        }
    }
}

/// The insertions one reconciliation emits, starting at display index `i`:
/// one per entry not rendered yet, at the position the layout assigns its
/// index.
pub open spec fn spec_insert_ops<C: Component>(
    entries: Seq<(u64, MachineModel<C>)>,
    rendered: Seq<u64>,
    layout: Layout,
    i: int,
) -> Seq<ViewOp>
    decreases entries.len() - i,
{
    if i < 0 || i >= entries.len() {
        Seq::empty()
    } else {
        let rest = spec_insert_ops(entries, rendered, layout, i + 1);
        if rendered.contains(entries[i].0) {
            rest
        } else {
            seq![ViewOp::Insert { key: entries[i].0, position: spec_position(layout, i) }] + rest
        }
    }
}

/// Everything one reconciliation asks of the toolkit: the removals, then
/// the insertions. Entries that stay keep their widget subtree untouched.
pub open spec fn spec_view_ops<C: Component>(v: FactoryModel<C>) -> Seq<ViewOp> {
    spec_removal_ops(v.rendered, v.entries) + spec_insert_ops(v.entries, v.rendered, v.layout, 0)
}

/// Transition: the displayed children are reconciled — afterwards exactly
/// the current entries are rendered, in display order.
pub open spec fn spec_update_view<C: Component>(v: FactoryModel<C>) -> FactoryModel<C> {
    FactoryModel { rendered: spec_keys(v.entries), ..v }
}

/// Transition: a new entry is appended, its component launched.
pub open spec fn spec_push<C: Component>(
    v: FactoryModel<C>,
    m: MachineModel<C>,
) -> FactoryModel<C> {
    FactoryModel {
        entries: v.entries.push((v.next_key, m)),
        next_key: (v.next_key + 1) as u64,
        ..v
    }
}

/// Transition: the entry carrying `key` is removed from the collection (its
/// widget subtree is destroyed at the next reconciliation).
pub open spec fn spec_remove<C: Component>(v: FactoryModel<C>, key: u64) -> FactoryModel<C> {
    if has_key(v.entries, key) {
        FactoryModel { entries: v.entries.remove(index_of_key(v.entries, key)), ..v }
    } else {
        v
    }
}

/// The model of the entry carrying `key`.
pub open spec fn entry_model<C: Component>(
    entries: Seq<(u64, MachineModel<C>)>,
    key: u64,
) -> MachineModel<C> {
    entries[index_of_key(entries, key)].1
}

/// Replacing one entry's machine in place, key kept, preserves the key
/// facts of a collection: uniqueness and the bound below the next key.
proof fn lemma_entry_update_keeps_keys<C: Component>(
    before: Seq<(u64, MachineModel<C>)>,
    after: Seq<(u64, MachineModel<C>)>,
    next_key: u64,
)
    requires
        after.len() == before.len(),
        forall|i: int|
            0 <= i < before.len() ==> (#[trigger] after[i]).0 == (#[trigger] before[i]).0,
        forall|i: int, j: int|
            0 <= i < j < before.len() ==> (#[trigger] before[i]).0 != (#[trigger] before[j]).0,
        forall|i: int| 0 <= i < before.len() ==> (#[trigger] before[i]).0 < next_key,
    ensures
        forall|i: int, j: int|
            0 <= i < j < after.len() ==> (#[trigger] after[i]).0 != (#[trigger] after[j]).0,
        forall|i: int| 0 <= i < after.len() ==> (#[trigger] after[i]).0 < next_key,
{
    assert forall|i: int, j: int|
        0 <= i < j < after.len() implies (#[trigger] after[i]).0 != (#[trigger] after[j]).0 by {
        assert(after[i].0 == before[i].0);
        assert(after[j].0 == before[j].0);
    };
    assert forall|i: int| 0 <= i < after.len() implies (#[trigger] after[i]).0 < next_key by {
        assert(after[i].0 == before[i].0);
    };
}

/// A managed, ordered collection of child components, each with its own
/// isolated state machine.
pub struct Factory<C: Component> {
    entries: Vec<(u64, StateMachine<C>)>,
    rendered: Vec<u64>,
    next_key: u64,
    layout: Layout,
}

impl<C: Component> View for Factory<C> {
    type V = FactoryModel<C>;

    closed spec fn view(&self) -> FactoryModel<C> {
        FactoryModel {
            entries: self.entries@.map_values(|e: (u64, StateMachine<C>)| (e.0, e.1@)),
            rendered: self.rendered@,
            next_key: self.next_key,
            layout: self.layout,
        }
    }
}

impl<C: Component> Factory<C> {
    /// Abstract and machine-level well-formedness.
    pub closed spec fn wf(&self) -> bool {
        &&& wf_factory(self@)
        &&& forall|i: int|
            0 <= i < self.entries@.len() ==> (#[trigger] self.entries@[i]).1.wf()
    }

    /// Creates an empty collection with the given position function.
    pub fn new(layout: Layout) -> (f: Self)
        requires
            layout_wf(layout),
        ensures
            f.wf(),
            f@.entries == Seq::<(u64, MachineModel<C>)>::empty(),
            f@.rendered == Seq::<u64>::empty(),
            f@.next_key == 0,
            f@.layout == layout,
    {
        let f = Factory {
            entries: Vec::new(),
            rendered: Vec::new(),
            next_key: 0,
            layout,
        };
        proof {
            assert(f@.entries =~= Seq::<(u64, MachineModel<C>)>::empty());
        }
        f
    }

    /// The number of live entries.
    pub fn len(&self) -> (n: usize)
        ensures
            n == self@.entries.len(),
    {
        self.entries.len()
    }

    /// The number of live widget subtrees, as of the last reconciliation.
    pub fn rendered_len(&self) -> (n: usize)
        ensures
            n == self@.rendered.len(),
    {
        self.rendered.len()
    }

    /// The position function.
    pub fn layout(&self) -> (l: Layout)
        ensures
            l == self@.layout,
    {
        self.layout
    }

    /// Appends a new entry around `model`, launches its state machine, and
    /// returns its stable key. The widget subtree materializes at the next
    /// [`update_view`](Self::update_view).
    pub fn push(&mut self, model: C) -> (key: u64)
        requires
            old(self).wf(),
            old(self)@.next_key < u64::MAX,
        ensures
            final(self).wf(),
            final(self)@ == spec_push(old(self)@, spec_started_machine(model)),
            key == old(self)@.next_key,
            final(self)@.entries.len() == old(self)@.entries.len() + 1,
    {
        let key = self.next_key;
        let mut machine = StateMachine::new(model);
        machine.start();
        self.entries.push((key, machine));
        self.next_key = self.next_key + 1;
        proof {
            assert(self@.entries =~= spec_push(old(self)@, spec_started_machine(model)).entries);
            assert(self@ =~= spec_push(old(self)@, spec_started_machine(model)));
        }
        key
    }

    /// The display index of the entry carrying `key`, if any.
    fn find_index(&self, key: u64) -> (r: Option<usize>)
        requires
            self.wf(),
        ensures
            r is Some <==> has_key(self@.entries, key),
            r matches Some(i) ==> 0 <= i < self@.entries.len()
                && self@.entries[i as int].0 == key
                && i as int == index_of_key(self@.entries, key),
    {
        let n = self.entries.len();
        let mut i: usize = 0;
        while i < n
            invariant
                self.wf(),
                n == self.entries.len(),
                0 <= i <= n,
                forall|j: int| 0 <= j < i ==> (#[trigger] self@.entries[j]).0 != key,
            decreases n - i,
        {
            if self.entries[i].0 == key {
                proof {
                    assert(self@.entries[i as int].0 == key);
                    let w = index_of_key(self@.entries, key);
                    assert(0 <= w < self@.entries.len() && self@.entries[w].0 == key);
                    if w != i as int {
                        if w < i as int {
                            assert(self@.entries[w].0 != key);
                        } else {
                            assert(self@.entries[i as int].0 != self@.entries[w].0);
                        }
                    }
                }
                return Some(i);
            }
            i = i + 1;
        }
        proof {
            if has_key(self@.entries, key) {
                let w = index_of_key(self@.entries, key);
                assert(self@.entries[w].0 != key);
            }
        }
        None
    }

    /// Whether an entry carries `key`.
    pub fn contains(&self, key: u64) -> (r: bool)
        requires
            self.wf(),
        ensures
            r == has_key(self@.entries, key),
    {
        match self.find_index(key) {
            Some(_) => true,
            None => false,
        }
    }

    /// Borrows the model of the entry carrying `key`.
    pub fn get(&self, key: u64) -> (r: Option<&C>)
        requires
            self.wf(),
        ensures
            r is Some <==> has_key(self@.entries, key),
            r matches Some(m) ==> *m == entry_model(self@.entries, key).model,
    {
        match self.find_index(key) {
            None => None,
            Some(i) => {
                let entry = &self.entries[i];
                Some(entry.1.model())
            },
        }
    }

    /// Removes the entry carrying `key`: detaches its state machine — the
    /// component terminates — and hands its final model back. Its widget
    /// subtree is destroyed at the next [`update_view`](Self::update_view).
    /// The key is never handed out again.
    pub fn remove(&mut self, key: u64) -> (r: Option<C>)
        requires
            old(self).wf(),
        ensures
            final(self).wf(),
            final(self)@ == spec_remove(old(self)@, key),
            r is Some <==> has_key(old(self)@.entries, key),
            r matches Some(m) ==> m == entry_model(old(self)@.entries, key).model,
    {
        match self.find_index(key) {
            None => {
                proof {
                    assert(self@ =~= spec_remove(old(self)@, key));
                }
                None
            },
            Some(i) => {
                let (_k, mut machine) = self.entries.remove(i);
                machine.detach();
                proof {
                    assert(self@.entries =~= spec_remove(old(self)@, key).entries);
                    assert(self@ =~= spec_remove(old(self)@, key));
                    crate::component::lemma_shutdown_preserves_model(
                        entry_model(old(self)@.entries, key),
                    );
                }
                Some(machine.into_model())
            },
        }
    }

    /// Whether `key` currently has a live widget subtree.
    fn rendered_contains(&self, key: u64) -> (r: bool)
        ensures
            r == self@.rendered.contains(key),
    {
        let n = self.rendered.len();
        let mut i: usize = 0;
        while i < n
            invariant
                n == self.rendered.len(),
                0 <= i <= n,
                forall|j: int| 0 <= j < i ==> self@.rendered[j] != key,
            decreases n - i,
        {
            if self.rendered[i] == key {
                return true;
            }
            i = i + 1;
        }
        proof {
            if self@.rendered.contains(key) {
                let w = choose|w: int| 0 <= w < self@.rendered.len() && self@.rendered[w] == key;
                assert(self@.rendered[w] != key);
            }
        }
        false
    }

    /// Sends `input` into the component of the entry carrying `key`; with no
    /// such entry the input is dropped and nothing changes.
    pub fn send_to(&mut self, key: u64, input: C::Input) -> (delivered: bool)
        requires
            old(self).wf(),
        ensures
            final(self).wf(),
            !has_key(old(self)@.entries, key) ==> final(self)@ == old(self)@ && !delivered,
            has_key(old(self)@.entries, key) ==> delivered && final(self)@ == (FactoryModel {
                entries: old(self)@.entries.update(
                    index_of_key(old(self)@.entries, key),
                    (key, spec_send(entry_model(old(self)@.entries, key), input)),
                ),
                ..old(self)@
            }),
    {
        match self.find_index(key) {
            None => {
                proof {
                    assert(self@ =~= old(self)@);
                }
                false
            },
            Some(i) => {
                let (k, mut machine) = self.entries.remove(i);
                let _ = machine.send(input);
                self.entries.insert(i, (k, machine));
                proof {
                    let ghost target = (FactoryModel {
                        entries: old(self)@.entries.update(
                            i as int,
                            (key, spec_send(entry_model(old(self)@.entries, key), input)),
                        ),
                        ..old(self)@
                    });
                    assert(self@.entries =~= target.entries);
                    assert(self@ =~= target);
                    lemma_entry_update_keeps_keys(
                        old(self)@.entries,
                        self@.entries,
                        self@.next_key,
                    );
                }
                true
            },
        }
    }

    /// Drives the component of the entry carrying `key` until its inbox is
    /// empty.
    pub fn run_entry_to_idle(&mut self, key: u64)
        requires
            old(self).wf(),
            has_key(old(self)@.entries, key),
            entry_model(old(self)@.entries, key).refreshes + entry_model(
                old(self)@.entries,
                key,
            ).inbox.len() <= u64::MAX,
        ensures
            final(self).wf(),
            final(self)@ == (FactoryModel {
                entries: old(self)@.entries.update(
                    index_of_key(old(self)@.entries, key),
                    (key, spec_run(entry_model(old(self)@.entries, key))),
                ),
                ..old(self)@
            }),
    {
        match self.find_index(key) {
            None => {
                proof {
                    assert(false);
                }
            },
            Some(i) => {
                let (k, mut machine) = self.entries.remove(i);
                machine.run_to_idle();
                self.entries.insert(i, (k, machine));
                proof {
                    let ghost target = (FactoryModel {
                        entries: old(self)@.entries.update(
                            i as int,
                            (key, spec_run(entry_model(old(self)@.entries, key))),
                        ),
                        ..old(self)@
                    });
                    assert(self@.entries =~= target.entries);
                    assert(self@ =~= target);
                    lemma_entry_update_keeps_keys(
                        old(self)@.entries,
                        self@.entries,
                        self@.next_key,
                    );
                }
            },
        }
    }

    /// Drains every output the entry carrying `key` has emitted, maps each
    /// through `transform`, and sends it into `parent`, in emission order —
    /// the factory forwards its children's outputs to the parent's input.
    /// With no such entry nothing changes.
    pub fn forward_entry_outputs<P: Component, F: OutputTransform<C::Output, P::Input>>(
        &mut self,
        key: u64,
        parent: &mut StateMachine<P>,
        transform: &F,
    )
        requires
            old(self).wf(),
            old(parent).wf(),
        ensures
            final(self).wf(),
            final(parent).wf(),
            !has_key(old(self)@.entries, key) ==> final(self)@ == old(self)@ && final(parent)@
                == old(parent)@,
            has_key(old(self)@.entries, key) ==> final(self)@ == (FactoryModel {
                entries: old(self)@.entries.update(
                    index_of_key(old(self)@.entries, key),
                    (
                        key,
                        (MachineModel {
                            outbox: Seq::<C::Output>::empty(),
                            ..entry_model(old(self)@.entries, key)
                        }),
                    ),
                ),
                ..old(self)@
            }) && final(parent)@ == spec_relay(
                old(parent)@,
                entry_model(old(self)@.entries, key).outbox.map_values(
                    |o: C::Output| transform.transform_spec(o),
                ),
            ),
    {
        match self.find_index(key) {
            None => {
                proof {
                    assert(self@ =~= old(self)@);
                }
            },
            Some(i) => {
                let (k, mut machine) = self.entries.remove(i);
                relay_machine_outputs(&mut machine, parent, transform);
                self.entries.insert(i, (k, machine));
                proof {
                    let ghost target = (FactoryModel {
                        entries: old(self)@.entries.update(
                            i as int,
                            (
                                key,
                                (MachineModel {
                                    outbox: Seq::<C::Output>::empty(),
                                    ..entry_model(old(self)@.entries, key)
                                }),
                            ),
                        ),
                        ..old(self)@
                    });
                    assert(self@.entries =~= target.entries);
                    assert(self@ =~= target);
                    lemma_entry_update_keeps_keys(
                        old(self)@.entries,
                        self@.entries,
                        self@.next_key,
                    );
                }
            },
        }
    }

    /// Reconciles the toolkit's displayed children against the current
    /// entries, and returns what the toolkit must do: destroy the subtree of
    /// every key whose entry is gone, materialize a subtree for every new
    /// entry at the position the layout assigns its index, and leave
    /// unchanged entries untouched. Afterwards the number of live widget
    /// subtrees equals the number of live entries.
    pub fn update_view(&mut self) -> (ops: Vec<ViewOp>)
        requires
            old(self).wf(),
        ensures
            final(self).wf(),
            final(self)@ == spec_update_view(old(self)@),
            ops@ == spec_view_ops(old(self)@),
            final(self)@.rendered.len() == final(self)@.entries.len(),
    {
        let ghost v0 = self@;
        let mut ops: Vec<ViewOp> = Vec::new();
        let nr = self.rendered.len();
        proof {
            assert(self@.rendered.skip(0) =~= self@.rendered);
            assert(ops@ + spec_removal_ops(self@.rendered.skip(0), self@.entries)
                =~= spec_removal_ops(self@.rendered, self@.entries));
        }
        let mut i: usize = 0;
        while i < nr
            invariant
                self.wf(),
                self@ == v0,
                nr == self@.rendered.len(),
                0 <= i <= nr,
                ops@ + spec_removal_ops(self@.rendered.skip(i as int), self@.entries)
                    == spec_removal_ops(self@.rendered, self@.entries),
            decreases nr - i,
        {
            let k = self.rendered[i];
            let ghost pre_ops = ops@;
            let present = self.contains(k);
            if !present {
                ops.push(ViewOp::Remove { key: k });
            }
            proof {
                let r = self@.rendered;
                let e = self@.entries;
                assert(r.skip(i as int)[0] == r[i as int]);
                assert(r.skip(i as int).drop_first() =~= r.skip(i as int + 1));
                if has_key(e, k) {
                    assert(spec_removal_ops(r.skip(i as int), e)
                        == spec_removal_ops(r.skip(i as int + 1), e));
                } else {
                    assert(spec_removal_ops(r.skip(i as int), e) == seq![
                        ViewOp::Remove { key: r[i as int] },
                    ] + spec_removal_ops(r.skip(i as int + 1), e));
                    assert(ops@ + spec_removal_ops(r.skip(i as int + 1), e) =~= pre_ops
                        + spec_removal_ops(r.skip(i as int), e));
                }
            }
            i = i + 1;
        }
        proof {
            assert(self@.rendered.skip(nr as int) =~= Seq::<u64>::empty());
            assert(ops@ =~= ops@ + spec_removal_ops(self@.rendered.skip(nr as int), self@.entries));
            assert(ops@ == spec_removal_ops(self@.rendered, self@.entries));
        }
        let ghost removals = ops@;
        let n = self.entries.len();
        let mut j: usize = 0;
        while j < n
            invariant
                self.wf(),
                self@ == v0,
                n == self@.entries.len(),
                0 <= j <= n,
                removals == spec_removal_ops(self@.rendered, self@.entries),
                ops@ + spec_insert_ops(self@.entries, self@.rendered, self@.layout, j as int)
                    == removals + spec_insert_ops(self@.entries, self@.rendered, self@.layout, 0),
            decreases n - j,
        {
            let key = self.entries[j].0;
            let ghost pre_ops = ops@;
            let is_rendered = self.rendered_contains(key);
            if !is_rendered {
                let pos = position_of(self.layout, j as u64);
                ops.push(ViewOp::Insert { key, position: pos });
            }
            proof {
                let r = self@.rendered;
                let e = self@.entries;
                let l = self@.layout;
                if r.contains(key) {
                    assert(spec_insert_ops(e, r, l, j as int)
                        == spec_insert_ops(e, r, l, j as int + 1));
                } else {
                    assert(spec_insert_ops(e, r, l, j as int) == seq![
                        ViewOp::Insert { key: e[j as int].0, position: spec_position(l, j as int) },
                    ] + spec_insert_ops(e, r, l, j as int + 1));
                    assert(ops@ + spec_insert_ops(e, r, l, j as int + 1) =~= pre_ops
                        + spec_insert_ops(e, r, l, j as int));
                }
            }
            j = j + 1;
        }
        proof {
            assert(spec_insert_ops(self@.entries, self@.rendered, self@.layout, n as int)
                =~= Seq::<ViewOp>::empty());
            assert(ops@ =~= removals + spec_insert_ops(
                self@.entries,
                self@.rendered,
                self@.layout,
                0,
            ));
            assert(ops@ == spec_view_ops(v0));
        }
        let mut keys: Vec<u64> = Vec::new();
        proof {
            assert(Seq::<u64>::empty() =~= spec_keys(self@.entries).take(0));
        }
        let mut t: usize = 0;
        while t < n
            invariant
                self.wf(),
                self@ == v0,
                n == self@.entries.len(),
                0 <= t <= n,
                keys@ == spec_keys(self@.entries).take(t as int),
            decreases n - t,
        {
            let k = self.entries[t].0;
            keys.push(k);
            proof {
                assert(keys@ =~= spec_keys(self@.entries).take(t as int + 1));
            }
            t = t + 1;
        }
        self.rendered = keys;
        proof {
            assert(spec_keys(v0.entries).take(n as int) =~= spec_keys(v0.entries));
            assert(self@ =~= spec_update_view(v0));
            assert forall|a: int, b: int|
                0 <= a < b < self@.rendered.len() implies (#[trigger] self@.rendered[a]) != (
            #[trigger] self@.rendered[b]) by {
                assert(self@.rendered[a] == v0.entries[a].0);
                assert(self@.rendered[b] == v0.entries[b].0);
            };
        }
        ops
    }
}

/// Law, round trip with the displayed view: after a reconciliation there are
/// exactly as many live widget subtrees as live entries — inserting `n`
/// entries and reconciling yields `n` subtrees, removing `k` of them and
/// reconciling yields `n - k` — and the subtree at display index `i` belongs
/// to entry `i`.
pub proof fn lemma_update_view_counts<C: Component>(v: FactoryModel<C>)
    ensures
        spec_update_view(v).rendered.len() == v.entries.len(),
        forall|i: int|
            0 <= i < v.entries.len() ==> spec_update_view(v).rendered[i] == (
            #[trigger] v.entries[i]).0,
{
}

/// The insertions of a first reconciliation, from index `i` on: every entry
/// is new, so each one is materialized, at the position the layout assigns
/// its index.
proof fn lemma_insert_ops_fresh<C: Component>(
    entries: Seq<(u64, MachineModel<C>)>,
    layout: Layout,
    i: int,
)
    requires
        0 <= i <= entries.len(),
    ensures
        spec_insert_ops(entries, Seq::<u64>::empty(), layout, i).len() == entries.len() - i,
        forall|j: int|
            i <= j < entries.len() ==> spec_insert_ops(entries, Seq::<u64>::empty(), layout, i)[j
                - i] == (ViewOp::Insert {
                key: (#[trigger] entries[j]).0,
                position: spec_position(layout, j),
            }),
    decreases entries.len() - i,
{
    if i < entries.len() {
        lemma_insert_ops_fresh(entries, layout, i + 1);
        assert(!Seq::<u64>::empty().contains(entries[i].0));
    }
}

/// Law, round trip with the displayed view, first half: reconciling a
/// collection whose entries were never rendered materializes exactly one
/// widget subtree per entry, each at the position the layout assigns its
/// display index.
pub proof fn lemma_first_update_view_inserts_all<C: Component>(v: FactoryModel<C>)
    requires
        v.rendered.len() == 0,
    ensures
        spec_view_ops(v).len() == v.entries.len(),
        forall|i: int|
            0 <= i < v.entries.len() ==> spec_view_ops(v)[i] == (ViewOp::Insert {
                key: (#[trigger] v.entries[i]).0,
                position: spec_position(v.layout, i),
            }),
{
    assert(v.rendered =~= Seq::<u64>::empty());
    lemma_insert_ops_fresh(v.entries, v.layout, 0);
    assert(spec_removal_ops(v.rendered, v.entries) =~= Seq::<ViewOp>::empty());
    assert(spec_view_ops(v) =~= spec_insert_ops(v.entries, v.rendered, v.layout, 0));
}

/// A reconciliation inserts nothing, from index `i` on, when every entry is
/// already rendered.
proof fn lemma_insert_ops_empty_when_rendered<C: Component>(
    entries: Seq<(u64, MachineModel<C>)>,
    rendered: Seq<u64>,
    layout: Layout,
    i: int,
)
    requires
        0 <= i,
        forall|j: int| 0 <= j < entries.len() ==> rendered.contains((#[trigger] entries[j]).0),
    ensures
        spec_insert_ops(entries, rendered, layout, i) == Seq::<ViewOp>::empty(),
    decreases entries.len() - i,
{
    if i < entries.len() {
        lemma_insert_ops_empty_when_rendered(entries, rendered, layout, i + 1);
        assert(rendered.contains(entries[i].0));
    }
}

/// The removals of a reconciliation with one more rendered key: the
/// appended key contributes its own removal at the end exactly when its
/// entry is gone.
proof fn lemma_removal_ops_push<C: Component>(
    rendered: Seq<u64>,
    entries: Seq<(u64, MachineModel<C>)>,
    key: u64,
)
    ensures
        spec_removal_ops(rendered.push(key), entries) == if has_key(entries, key) {
            spec_removal_ops(rendered, entries)
        } else {
            spec_removal_ops(rendered, entries) + seq![ViewOp::Remove { key }]
        },
    decreases rendered.len(),
{
    let r = rendered.push(key);
    if rendered.len() == 0 {
        assert(r[0] == key);
        assert(r.drop_first() =~= Seq::<u64>::empty());
        assert(spec_removal_ops(r.drop_first(), entries) =~= Seq::<ViewOp>::empty());
        assert(spec_removal_ops(rendered, entries) =~= Seq::<ViewOp>::empty());
        if has_key(entries, key) {
            assert(spec_removal_ops(r, entries) =~= spec_removal_ops(rendered, entries));
        } else {
            assert(spec_removal_ops(r, entries) =~= spec_removal_ops(rendered, entries)
                + seq![ViewOp::Remove { key }]);
        }
    } else {
        assert(r[0] == rendered[0]);
        assert(r.drop_first() =~= rendered.drop_first().push(key));
        lemma_removal_ops_push(rendered.drop_first(), entries, key);
        if has_key(entries, key) {
            assert(spec_removal_ops(r, entries) =~= spec_removal_ops(rendered, entries));
        } else {
            if has_key(entries, rendered[0]) {
                assert(spec_removal_ops(r, entries) =~= spec_removal_ops(rendered, entries)
                    + seq![ViewOp::Remove { key }]);
            } else {
                assert(seq![ViewOp::Remove { key: rendered[0] }] + (spec_removal_ops(
                    rendered.drop_first(),
                    entries,
                ) + seq![ViewOp::Remove { key }]) =~= (seq![ViewOp::Remove { key: rendered[0] }]
                    + spec_removal_ops(rendered.drop_first(), entries)) + seq![
                    ViewOp::Remove { key },
                ]);
                assert(spec_removal_ops(r, entries) =~= spec_removal_ops(rendered, entries)
                    + seq![ViewOp::Remove { key }]);
            }
        }
    }
}

/// The removals of one reconciliation are exactly one removal per rendered
/// key whose entry is gone, in display order.
pub proof fn lemma_removal_ops_are_the_dead_keys<C: Component>(
    rendered: Seq<u64>,
    entries: Seq<(u64, MachineModel<C>)>,
)
    ensures
        spec_removal_ops(rendered, entries) == rendered.filter(
            |k: u64| !has_key(entries, k),
        ).map_values(|k: u64| ViewOp::Remove { key: k }),
    decreases rendered.len(),
{
    reveal(Seq::<u64>::filter);
    let p = |k: u64| !has_key(entries, k);
    let f = |k: u64| ViewOp::Remove { key: k };
    if rendered.len() == 0 {
        assert(rendered.filter(p).map_values(f) =~= Seq::<ViewOp>::empty());
    } else {
        let d = rendered.drop_last();
        let x = rendered.last();
        assert(rendered =~= d.push(x));
        lemma_removal_ops_are_the_dead_keys(d, entries);
        lemma_removal_ops_push(d, entries, x);
        assert(rendered.filter(p) == if p(x) {
            d.filter(p).push(x)
        } else {
            d.filter(p)
        });
        if p(x) {
            assert(d.filter(p).push(x).map_values(f) =~= d.filter(p).map_values(f) + seq![f(x)]);
        }
        assert(spec_removal_ops(rendered, entries) =~= rendered.filter(p).map_values(f));
    }
}

/// In a reconciled collection every entry is rendered, and a removal keeps
/// it so: the surviving keys were rendered already. Chains reconciliations
/// with any number of removals in between.
pub proof fn lemma_remove_keeps_entries_rendered<C: Component>(v: FactoryModel<C>, key: u64)
    requires
        forall|i: int|
            0 <= i < v.entries.len() ==> v.rendered.contains((#[trigger] v.entries[i]).0),
    ensures
        forall|i: int|
            0 <= i < spec_remove(v, key).entries.len() ==> spec_remove(v, key).rendered.contains(
                (#[trigger] spec_remove(v, key).entries[i]).0,
            ),
{
    if has_key(v.entries, key) {
        let idx = index_of_key(v.entries, key);
        let e = v.entries;
        let e2 = spec_remove(v, key).entries;
        assert forall|i: int| 0 <= i < e2.len() implies v.rendered.contains(
            (#[trigger] e2[i]).0,
        ) by {
            if i < idx {
                assert(e2[i] == e[i]);
            } else {
                assert(e2[i] == e[i + 1]);
            }
        };
    }
}

/// Law, reconciliation after removals alone: on a collection whose every
/// entry is already rendered — as after removing entries from a reconciled
/// collection — one reconciliation emits exactly one removal per dead key,
/// in display order, and not a single insertion: no surviving entry's
/// widget subtree is touched or rebuilt, and afterwards exactly the
/// surviving entries are rendered.
pub proof fn lemma_removal_only_reconciliation<C: Component>(v: FactoryModel<C>)
    requires
        forall|i: int|
            0 <= i < v.entries.len() ==> v.rendered.contains((#[trigger] v.entries[i]).0),
    ensures
        spec_view_ops(v) == v.rendered.filter(|k: u64| !has_key(v.entries, k)).map_values(
            |k: u64| ViewOp::Remove { key: k },
        ),
        spec_update_view(v).rendered.len() == v.entries.len(),
{
    lemma_insert_ops_empty_when_rendered(v.entries, v.rendered, v.layout, 0);
    lemma_removal_ops_are_the_dead_keys(v.rendered, v.entries);
    assert(spec_view_ops(v) =~= spec_removal_ops(v.rendered, v.entries));
}

/// Law, round trip with the displayed view, second half: when the removed
/// entries form a suffix of the display order, the remaining keys keep their
/// display index after reconciliation, and with it their position under the
/// position function. (Removing an entry in the middle shifts every entry
/// behind it forward, so this does not hold for arbitrary removals.)
pub proof fn lemma_remove_suffix_keeps_positions<C: Component>(
    v: FactoryModel<C>,
    w: FactoryModel<C>,
    k: int,
)
    requires
        0 <= k <= v.entries.len(),
        w.entries == v.entries.subrange(0, v.entries.len() - k),
        w.layout == v.layout,
    ensures
        spec_update_view(w).rendered.len() == v.entries.len() - k,
        forall|i: int|
            0 <= i < v.entries.len() - k ==> #[trigger] spec_update_view(w).rendered[i]
                == spec_update_view(v).rendered[i],
{
}

} // verus!
