//! The signal engine: subscription registries, transmitters, receivers,
//! and synchronous depth-first broadcast.
//!
//! The engine owns the whole dataflow graph.  A `Transmitter` and a
//! `Receiver` are light handles naming a registry and a subscriber entry
//! inside it, so cloning a handle shares the registry rather than
//! duplicating the subscriber list.  Broadcast walks a snapshot of the
//! registry's subscriber list in subscription order, and every nested
//! broadcast triggered by a forwarding rule runs to completion before the
//! next subscriber of the outer broadcast is served.
//!
//! Everything observable is captured by the ghost model `ModelSt`, and a
//! mathematical interpreter (`spec_send`, `spec_deliver_list`,
//! `spec_deliver_one`) defines exactly what one broadcast does.  Every
//! executable operation is proved equal to the interpreter, so the
//! delivery-order, pending-replay and suppression laws are theorems about
//! one shared definition.
//!
//! Responders (terminal callbacks of the surrounding view layer) are
//! represented by tags: delivering to a responder appends the tag and the
//! value to the engine's emission log, in delivery order.  The caller
//! drains the log and performs the side effects; the engine itself stays
//! pure and fully verified.

use vstd::prelude::*;

use crate::transform::cell_step;
use crate::transform::apply_transform;
use crate::transform::fold_step;
use crate::transform::spec_apply;
use crate::transform::spec_cell_step;
use crate::transform::spec_fold_step;
use crate::transform::FoldFn;
use crate::transform::SharedCell;
use crate::transform::SharedCellV;
use crate::transform::SharedFn;
use crate::transform::Transform;
use crate::value::opt_view;
use crate::value::Value;
use crate::value::ValueV;
use crate::SEND_DEPTH;

verus! {

/// Mapping a sequence elementwise commutes with replacing one element.
pub proof fn lemma_map_values_update<A, B>(s: Seq<A>, f: spec_fn(A) -> B, i: int, a: A)
    requires
        0 <= i < s.len(),
    ensures
        s.update(i, a).map_values(f) =~= s.map_values(f).update(i, f(a)),
{
}

/// Mapping a sequence elementwise commutes with appending one element.
pub proof fn lemma_map_values_push<A, B>(s: Seq<A>, f: spec_fn(A) -> B, a: A)
    ensures
        s.push(a).map_values(f) =~= s.map_values(f).push(f(a)),
{
}

/// One emission: a responder tag together with the value delivered to it.
pub struct Emission {
    pub tag: u64,
    pub value: Value,
}

/// The mathematical value of an `Emission`.
pub struct EmissionV {
    pub tag: u64,
    pub value: ValueV,
}

impl View for Emission {
    type V = EmissionV;

    open spec fn view(&self) -> EmissionV {
        EmissionV { tag: self.tag, value: self.value@ }
    }
}

impl Clone for Emission {
    fn clone(&self) -> (res: Self)
        ensures
            res@ == self@,
    {
        Emission { tag: self.tag, value: self.value.clone() }
    }
}

/// What one subscriber does with a delivered value.  A receiver holds
/// exactly one behavior at a time; fan-out is obtained by branching first
/// and giving each branch its own behavior.
pub enum Behavior {
    /// Nothing attached yet: the value is retained in the pending slot.
    Inert,
    /// A terminal responder: the value is appended to the emission log
    /// under this tag.
    Responder(u64),
    /// A pure map or filter-map rule forwarding into another registry.
    Forward { target: usize, t: Transform },
    /// A fold rule over private state forwarding into another registry.
    Fold { target: usize, f: FoldFn, state: Value },
    /// A fold rule over a shared cell forwarding into another registry.
    FoldShared { target: usize, step: SharedFn, cell: usize },
}

/// The mathematical value of a `Behavior`.
pub enum BehaviorV {
    Inert,
    Responder(u64),
    Forward { target: usize, t: Transform },
    Fold { target: usize, f: FoldFn, state: ValueV },
    FoldShared { target: usize, step: SharedFn, cell: usize },
}

impl View for Behavior {
    type V = BehaviorV;

    open spec fn view(&self) -> BehaviorV {
        match self {
            Behavior::Inert => BehaviorV::Inert,
            Behavior::Responder(tag) => BehaviorV::Responder(*tag),
            Behavior::Forward { target, t } => BehaviorV::Forward { target: *target, t: *t },
            Behavior::Fold { target, f, state } => BehaviorV::Fold {
                target: *target,
                f: *f,
                state: state@,
            },
            Behavior::FoldShared { target, step, cell } => BehaviorV::FoldShared {
                target: *target,
                step: *step,
                cell: *cell,
            },
        }
    }
}

impl Clone for Behavior {
    fn clone(&self) -> (res: Self)
        ensures
            res@ == self@,
    {
        match self {
            Behavior::Inert => Behavior::Inert,
            Behavior::Responder(tag) => Behavior::Responder(*tag),
            Behavior::Forward { target, t } => Behavior::Forward { target: *target, t: *t },
            Behavior::Fold { target, f, state } => Behavior::Fold {
                target: *target,
                f: *f,
                state: state.clone(),
            },
            Behavior::FoldShared { target, step, cell } => Behavior::FoldShared {
                target: *target,
                step: *step,
                cell: *cell,
            },
        }
    }
}

/// One subscription endpoint: the registry it listens to, the capacity-one
/// pending slot holding the last value delivered before anything was
/// attached, and the attached behavior.
pub struct Recv {
    pub reg: usize,
    pub pending: Option<Value>,
    pub behavior: Behavior,
}

/// The mathematical value of a `Recv`.
pub struct RecvV {
    pub reg: usize,
    pub pending: Option<ValueV>,
    pub behavior: BehaviorV,
}

impl View for Recv {
    type V = RecvV;

    open spec fn view(&self) -> RecvV {
        RecvV { reg: self.reg, pending: opt_view(self.pending), behavior: self.behavior@ }
    }
}

/// A broadcast endpoint: a handle naming one registry.  Copying the
/// handle shares the registry; the subscriber list is never duplicated.
#[derive(Clone, Copy, PartialEq, Eq, Structural, Debug)]
pub struct Transmitter {
    pub reg: usize,
}

/// A subscription endpoint: a handle naming one receiver entry.
#[derive(Clone, Copy, PartialEq, Eq, Structural, Debug)]
pub struct Receiver {
    pub id: usize,
}

/// The ghost state of the whole engine: the subscriber list of every
/// registry (receiver ids in subscription order), every receiver, every
/// shared cell, and the emission log.
#[verifier::ext_equal]
pub struct ModelSt {
    pub regs: Seq<Seq<usize>>,
    pub recvs: Seq<RecvV>,
    pub cells: Seq<SharedCellV>,
    pub log: Seq<EmissionV>,
}

/// The snapshot a broadcast on `reg` walks: the registry's subscriber
/// list, or nothing for an unknown registry (spec-level totality; the
/// wiring API only hands out valid registries).
pub open spec fn reg_subs(m: ModelSt, reg: usize) -> Seq<usize> {
    if reg < m.regs.len() {
        m.regs[reg as int]
    } else {
        Seq::empty()
    }
}

/// Delivers `v` to each subscriber of the snapshot `subs` in order: the
/// state after serving all of the snapshot is the state after serving its
/// last entry in the state reached by serving all the earlier ones.
pub open spec fn spec_deliver_list(m: ModelSt, subs: Seq<usize>, v: ValueV, fuel: nat) -> ModelSt
    decreases fuel, 1int, subs.len(),
{
    if subs.len() == 0 {
        m
    } else {
        spec_deliver_one(spec_deliver_list(m, subs.drop_last(), v, fuel), subs.last(), v, fuel)
    }
}

/// Delivers `v` to the single receiver `r`: retain it, log it, or run the
/// receiver's rule and recursively broadcast what the rule emits.  `fuel`
/// bounds the depth of nested broadcasts; a cyclically wired graph is a
/// fatal wiring error and is cut off when the fuel runs out.
pub open spec fn spec_deliver_one(m: ModelSt, r: usize, v: ValueV, fuel: nat) -> ModelSt
    decreases fuel, 0int, 0int,
{
    if r >= m.recvs.len() {
        m
    } else {
        let rc = m.recvs[r as int];
        match rc.behavior {
            BehaviorV::Inert => ModelSt {
                recvs: m.recvs.update(r as int, RecvV { pending: Some(v), ..rc }),
                ..m
            },
            BehaviorV::Responder(tag) => ModelSt {
                log: m.log.push(EmissionV { tag, value: v }),
                ..m
            },
            BehaviorV::Forward { target, t } => match spec_apply(t, v) {
                Some(u) => if fuel == 0 {
                    m
                } else {
                    spec_deliver_list(m, reg_subs(m, target), u, (fuel - 1) as nat)
                },
                None => m,
            },
            BehaviorV::Fold { target, f, state } => {
                let (st2, out) = spec_fold_step(f, state, v);
                let m2 = ModelSt {
                    recvs: m.recvs.update(
                        r as int,
                        RecvV { behavior: BehaviorV::Fold { target, f, state: st2 }, ..rc },
                    ),
                    ..m
                };
                match out {
                    Some(u) => if fuel == 0 {
                        m2
                    } else {
                        spec_deliver_list(m2, reg_subs(m2, target), u, (fuel - 1) as nat)
                    },
                    None => m2,
                }
            },
            BehaviorV::FoldShared { target, step, cell } => {
                if cell < m.cells.len() {
                    let (c2, out) = spec_cell_step(m.cells[cell as int], step, v);
                    let m2 = ModelSt { cells: m.cells.update(cell as int, c2), ..m };
                    match out {
                        Some(u) => if fuel == 0 {
                            m2
                        } else {
                            spec_deliver_list(m2, reg_subs(m2, target), u, (fuel - 1) as nat)
                        },
                        None => m2,
                    }
                } else {
                    m
                }
            },
        }
    }
}

/// One broadcast of `v` on registry `reg`: a snapshot of the subscriber
/// list is taken up front and each entry is served in ascending
/// subscription order, depth-first.
pub open spec fn spec_send(m: ModelSt, reg: usize, v: ValueV, fuel: nat) -> ModelSt {
    if fuel == 0 {
        m
    } else {
        spec_deliver_list(m, reg_subs(m, reg), v, (fuel - 1) as nat)
    }
}

/// Attaching behavior `b` to receiver `r`: the pending slot is cleared,
/// and the value it held, if any, is delivered through the new behavior
/// immediately, exactly once.
pub open spec fn spec_attach(m: ModelSt, r: usize, b: BehaviorV, fuel: nat) -> ModelSt {
    if r >= m.recvs.len() {
        m
    } else {
        let rc = m.recvs[r as int];
        let m2 = ModelSt {
            recvs: m.recvs.update(r as int, RecvV { reg: rc.reg, pending: None, behavior: b }),
            ..m
        };
        match rc.pending {
            Some(v) => spec_deliver_one(m2, r, v, fuel),
            None => m2,
        }
    }
}

/// Delivery never restructures the graph: registries are untouched, no
/// receiver or cell is created or destroyed, and every receiver keeps
/// its subscription.  Only pendings, fold states, cell contents and the
/// log can move.
pub proof fn lemma_deliver_one_shape(m: ModelSt, r: usize, v: ValueV, fuel: nat)
    ensures
        spec_deliver_one(m, r, v, fuel).regs == m.regs,
        spec_deliver_one(m, r, v, fuel).recvs.len() == m.recvs.len(),
        spec_deliver_one(m, r, v, fuel).cells.len() == m.cells.len(),
        forall|i: int|
            0 <= i < m.recvs.len() ==> #[trigger] spec_deliver_one(m, r, v, fuel).recvs[i].reg
                == m.recvs[i].reg,
    decreases fuel, 0int, 0int,
{
    let m2 = spec_deliver_one(m, r, v, fuel);
    if r < m.recvs.len() {
        let rc = m.recvs[r as int];
        match rc.behavior {
            BehaviorV::Inert => {},
            BehaviorV::Responder(tag) => {},
            BehaviorV::Forward { target, t } => {
                match spec_apply(t, v) {
                    Some(u) => {
                        if fuel != 0 {
                            lemma_deliver_list_shape(m, reg_subs(m, target), u, (fuel - 1) as nat);
                        }
                    },
                    None => {},
                }
            },
            BehaviorV::Fold { target, f, state } => {
                let (st2, out) = spec_fold_step(f, state, v);
                let ma = ModelSt {
                    recvs: m.recvs.update(
                        r as int,
                        RecvV { behavior: BehaviorV::Fold { target, f, state: st2 }, ..rc },
                    ),
                    ..m
                };
                match out {
                    Some(u) => {
                        if fuel != 0 {
                            lemma_deliver_list_shape(
                                ma,
                                reg_subs(ma, target),
                                u,
                                (fuel - 1) as nat,
                            );
                            assert forall|i: int| 0 <= i < m.recvs.len() implies #[trigger] m2
                                .recvs[i].reg == m.recvs[i].reg by {
                                assert(m2.recvs[i].reg == ma.recvs[i].reg);
                            }
                        }
                    },
                    None => {},
                }
            },
            BehaviorV::FoldShared { target, step, cell } => {
                if cell < m.cells.len() {
                    let (c2, out) = spec_cell_step(m.cells[cell as int], step, v);
                    let ma = ModelSt { cells: m.cells.update(cell as int, c2), ..m };
                    match out {
                        Some(u) => {
                            if fuel != 0 {
                                lemma_deliver_list_shape(
                                    ma,
                                    reg_subs(ma, target),
                                    u,
                                    (fuel - 1) as nat,
                                );
                            }
                        },
                        None => {},
                    }
                }
            },
        }
    }
}

/// As `lemma_deliver_one_shape`, for a whole snapshot.
pub proof fn lemma_deliver_list_shape(m: ModelSt, subs: Seq<usize>, v: ValueV, fuel: nat)
    ensures
        spec_deliver_list(m, subs, v, fuel).regs == m.regs,
        spec_deliver_list(m, subs, v, fuel).recvs.len() == m.recvs.len(),
        spec_deliver_list(m, subs, v, fuel).cells.len() == m.cells.len(),
        forall|i: int|
            0 <= i < m.recvs.len() ==> #[trigger] spec_deliver_list(m, subs, v, fuel).recvs[i].reg
                == m.recvs[i].reg,
    decreases fuel, 1int, subs.len(),
{
    if subs.len() != 0 {
        let m1 = spec_deliver_list(m, subs.drop_last(), v, fuel);
        lemma_deliver_list_shape(m, subs.drop_last(), v, fuel);
        lemma_deliver_one_shape(m1, subs.last(), v, fuel);
        let m2 = spec_deliver_list(m, subs, v, fuel);
        assert forall|i: int| 0 <= i < m.recvs.len() implies #[trigger] m2.recvs[i].reg
            == m.recvs[i].reg by {
            assert(m2.recvs[i].reg == m1.recvs[i].reg);
        }
    }
}

/// As `lemma_deliver_one_shape`, for a whole broadcast.
pub proof fn lemma_send_shape(m: ModelSt, reg: usize, v: ValueV, fuel: nat)
    ensures
        spec_send(m, reg, v, fuel).regs == m.regs,
        spec_send(m, reg, v, fuel).recvs.len() == m.recvs.len(),
        spec_send(m, reg, v, fuel).cells.len() == m.cells.len(),
        forall|i: int|
            0 <= i < m.recvs.len() ==> #[trigger] spec_send(m, reg, v, fuel).recvs[i].reg
                == m.recvs[i].reg,
{
    if fuel != 0 {
        lemma_deliver_list_shape(m, reg_subs(m, reg), v, (fuel - 1) as nat);
    }
}

/// Attachment, pending replay included, never restructures the graph
/// either.
pub proof fn lemma_attach_shape(m: ModelSt, r: usize, b: BehaviorV, fuel: nat)
    ensures
        spec_attach(m, r, b, fuel).regs == m.regs,
        spec_attach(m, r, b, fuel).recvs.len() == m.recvs.len(),
        spec_attach(m, r, b, fuel).cells.len() == m.cells.len(),
        forall|i: int|
            0 <= i < m.recvs.len() ==> #[trigger] spec_attach(m, r, b, fuel).recvs[i].reg
                == m.recvs[i].reg,
{
    if r < m.recvs.len() {
        let rc = m.recvs[r as int];
        let ma = ModelSt {
            recvs: m.recvs.update(r as int, RecvV { reg: rc.reg, pending: None, behavior: b }),
            ..m
        };
        match rc.pending {
            Some(v) => {
                lemma_deliver_one_shape(ma, r, v, fuel);
                let m2 = spec_attach(m, r, b, fuel);
                assert forall|i: int| 0 <= i < m.recvs.len() implies #[trigger] m2.recvs[i].reg
                    == m.recvs[i].reg by {
                    assert(m2.recvs[i].reg == ma.recvs[i].reg);
                }
            },
            None => {},
        }
    }
}

/// The engine: the owner of every registry, receiver, shared cell and the
/// emission log.  All wiring and all broadcasts go through it.
pub struct Engine {
    pub regs: Vec<Vec<usize>>,
    pub recvs: Vec<Recv>,
    pub cells: Vec<SharedCell>,
    pub log: Vec<Emission>,
}

impl View for Engine {
    type V = ModelSt;

    open spec fn view(&self) -> ModelSt {
        ModelSt {
            regs: self.regs@.map_values(|r: Vec<usize>| r@),
            recvs: self.recvs@.map_values(|r: Recv| r@),
            cells: self.cells@.map_values(|c: SharedCell| c@),
            log: self.log@.map_values(|e: Emission| e@),
        }
    }
}

impl Engine {
    /// A fresh engine with no registries, no receivers, no cells and an
    /// empty emission log.
    pub fn new() -> (e: Engine)
        ensures
            e@ == (ModelSt {
                regs: Seq::empty(),
                recvs: Seq::empty(),
                cells: Seq::empty(),
                log: Seq::empty(),
            }),
    {
        let e = Engine { regs: Vec::new(), recvs: Vec::new(), cells: Vec::new(), log: Vec::new() };
        proof {
            assert(e@ =~= (ModelSt {
                regs: Seq::empty(),
                recvs: Seq::empty(),
                cells: Seq::empty(),
                log: Seq::empty(),
            }));
        }
        e
    }

    /// Creates a fresh, empty registry and hands back its broadcast
    /// endpoint.
    pub fn new_transmitter(&mut self) -> (t: Transmitter)
        ensures
            final(self)@ == (ModelSt { regs: old(self)@.regs.push(Seq::empty()), ..old(self)@ }),
            t.reg == old(self)@.regs.len(),
    {
        let reg = self.regs.len();
        self.regs.push(Vec::new());
        proof {
            lemma_map_values_push(old(self).regs@, |r: Vec<usize>| r@, self.regs@.last());
            assert(self@ =~= (ModelSt { regs: old(self)@.regs.push(Seq::empty()), ..old(self)@ }));
        }
        Transmitter { reg }
    }

    /// Creates and registers a new receiver subscribed to `tx`'s registry,
    /// with an empty pending slot and nothing attached.
    pub fn spawn_receiver(&mut self, tx: Transmitter) -> (r: Receiver)
        requires
            tx.reg < old(self)@.regs.len(),
        ensures
            final(self)@ == (ModelSt {
                regs: old(self)@.regs.update(
                    tx.reg as int,
                    old(self)@.regs[tx.reg as int].push(old(self)@.recvs.len() as usize),
                ),
                recvs: old(self)@.recvs.push(
                    RecvV { reg: tx.reg, pending: None, behavior: BehaviorV::Inert },
                ),
                ..old(self)@
            }),
            r.id == old(self)@.recvs.len(),
    {
        let id = self.recvs.len();
        self.recvs.push(Recv { reg: tx.reg, pending: None, behavior: Behavior::Inert });
        self.regs[tx.reg].push(id);
        proof {
            lemma_map_values_push(old(self).recvs@, |r: Recv| r@, self.recvs@.last());
            lemma_map_values_update(
                old(self).regs@,
                |r: Vec<usize>| r@,
                tx.reg as int,
                self.regs@[tx.reg as int],
            );
            assert(self@ =~= (ModelSt {
                regs: old(self)@.regs.update(
                    tx.reg as int,
                    old(self)@.regs[tx.reg as int].push(id),
                ),
                recvs: old(self)@.recvs.push(
                    RecvV { reg: tx.reg, pending: None, behavior: BehaviorV::Inert },
                ),
                ..old(self)@
            }));
        }
        Receiver { id }
    }

    /// Creates a linked pair: a fresh registry with one subscribed
    /// receiver, so values sent into the transmitter reach the receiver.
    pub fn txrx(&mut self) -> (p: (Transmitter, Receiver))
        ensures
            final(self)@ == (ModelSt {
                regs: old(self)@.regs.push(seq![old(self)@.recvs.len() as usize]),
                recvs: old(self)@.recvs.push(
                    RecvV {
                        reg: old(self)@.regs.len() as usize,
                        pending: None,
                        behavior: BehaviorV::Inert,
                    },
                ),
                ..old(self)@
            }),
            p.0.reg == old(self)@.regs.len(),
            p.1.id == old(self)@.recvs.len(),
    {
        let tx = self.new_transmitter();
        let rx = self.spawn_receiver(tx);
        proof {
            assert(self@.regs =~= old(self)@.regs.push(seq![old(self)@.recvs.len() as usize]));
        }
        (tx, rx)
    }

    /// Creates a detached receiver: it listens to a fresh registry of its
    /// own, to which wiring rules can later forward.
    pub fn new_receiver(&mut self) -> (r: Receiver)
        ensures
            final(self)@ == (ModelSt {
                regs: old(self)@.regs.push(seq![old(self)@.recvs.len() as usize]),
                recvs: old(self)@.recvs.push(
                    RecvV {
                        reg: old(self)@.regs.len() as usize,
                        pending: None,
                        behavior: BehaviorV::Inert,
                    },
                ),
                ..old(self)@
            }),
            r.id == old(self)@.recvs.len(),
    {
        let p = self.txrx();
        p.1
    }

    /// Registers a new shared cell and returns its index.
    pub fn new_cell(&mut self, c: SharedCell) -> (i: usize)
        ensures
            final(self)@ == (ModelSt { cells: old(self)@.cells.push(c@), ..old(self)@ }),
            i == old(self)@.cells.len(),
    {
        let i = self.cells.len();
        let ghost cv = c@;
        self.cells.push(c);
        proof {
            lemma_map_values_push(old(self).cells@, |c: SharedCell| c@, self.cells@.last());
            assert(self@ =~= (ModelSt { cells: old(self)@.cells.push(cv), ..old(self)@ }));
        }
        i
    }

    /// Registers a new receiver with the given behavior on registry `reg`.
    fn subscribe_with(&mut self, reg: usize, b: Behavior) -> (id: usize)
        requires
            reg < old(self)@.regs.len(),
        ensures
            final(self)@ == (ModelSt {
                regs: old(self)@.regs.update(
                    reg as int,
                    old(self)@.regs[reg as int].push(old(self)@.recvs.len() as usize),
                ),
                recvs: old(self)@.recvs.push(
                    RecvV { reg: reg, pending: None, behavior: b@ },
                ),
                ..old(self)@
            }),
            id == old(self)@.recvs.len(),
    {
        let id = self.recvs.len();
        let ghost bv = b@;
        self.recvs.push(Recv { reg, pending: None, behavior: b });
        self.regs[reg].push(id);
        proof {
            lemma_map_values_push(old(self).recvs@, |r: Recv| r@, self.recvs@.last());
            lemma_map_values_update(
                old(self).regs@,
                |r: Vec<usize>| r@,
                reg as int,
                self.regs@[reg as int],
            );
            assert(self@ =~= (ModelSt {
                regs: old(self)@.regs.update(
                    reg as int,
                    old(self)@.regs[reg as int].push(id),
                ),
                recvs: old(self)@.recvs.push(
                    RecvV { reg: reg, pending: None, behavior: bv },
                ),
                ..old(self)@
            }));
        }
        id
    }

    /// Delivers `v` to the single receiver `r`, exactly as
    /// `spec_deliver_one` describes.
    fn deliver_to(&mut self, r: usize, v: &Value, fuel: u64)
        ensures
            final(self)@ == spec_deliver_one(old(self)@, r, v@, fuel as nat),
        decreases fuel, 1int,
    {
        if r >= self.recvs.len() {
            return ;
        }
        let b = self.recvs[r].behavior.clone();
        match b {
            Behavior::Inert => {
                let reg0 = self.recvs[r].reg;
                self.recvs[r] = Recv {
                    reg: reg0,
                    pending: Some(v.clone()),
                    behavior: Behavior::Inert,
                };
                proof {
                    lemma_map_values_update(
                        old(self).recvs@,
                        |rc: Recv| rc@,
                        r as int,
                        self.recvs@[r as int],
                    );
                    assert(self@ =~= spec_deliver_one(old(self)@, r, v@, fuel as nat));
                }
            },
            Behavior::Responder(tag) => {
                self.log.push(Emission { tag, value: v.clone() });
                proof {
                    lemma_map_values_push(old(self).log@, |e: Emission| e@, self.log@.last());
                    assert(self@ =~= spec_deliver_one(old(self)@, r, v@, fuel as nat));
                }
            },
            Behavior::Forward { target, t } => {
                match apply_transform(t, v) {
                    Some(u) => {
                        self.send_inner(target, &u, fuel);
                    },
                    None => {},
                }
            },
            Behavior::Fold { target, f, state } => {
                let (st2, out) = fold_step(f, &state, v);
                let reg0 = self.recvs[r].reg;
                let pend = clone_opt_value(&self.recvs[r].pending);
                self.recvs[r] = Recv {
                    reg: reg0,
                    pending: pend,
                    behavior: Behavior::Fold { target, f, state: st2 },
                };
                proof {
                    lemma_map_values_update(
                        old(self).recvs@,
                        |rc: Recv| rc@,
                        r as int,
                        self.recvs@[r as int],
                    );
                }
                let ghost m2 = self@;
                match out {
                    Some(u) => {
                        self.send_inner(target, &u, fuel);
                    },
                    None => {},
                }
                proof {
                    assert(self@ == spec_deliver_one(old(self)@, r, v@, fuel as nat));
                }
            },
            Behavior::FoldShared { target, step, cell } => {
                if cell < self.cells.len() {
                    let mut c = self.cells[cell].clone();
                    let out = cell_step(&mut c, step, v);
                    self.cells[cell] = c;
                    proof {
                        lemma_map_values_update(
                            old(self).cells@,
                            |cc: SharedCell| cc@,
                            cell as int,
                            self.cells@[cell as int],
                        );
                    }
                    match out {
                        Some(u) => {
                            self.send_inner(target, &u, fuel);
                        },
                        None => {},
                    }
                    proof {
                        assert(self@ == spec_deliver_one(old(self)@, r, v@, fuel as nat));
                    }
                }
            },
        }
    }

    /// Broadcasts `v` on registry `reg` with the given depth budget,
    /// exactly as `spec_send` describes: a snapshot of the subscriber
    /// list is taken first and then served in subscription order.
    fn send_inner(&mut self, reg: usize, v: &Value, fuel: u64)
        ensures
            final(self)@ == spec_send(old(self)@, reg, v@, fuel as nat),
        decreases fuel, 0int,
    {
        if fuel == 0 {
            return ;
        }
        let mut subs: Vec<usize> = Vec::new();
        if reg < self.regs.len() {
            let n = self.regs[reg].len();
            let mut j: usize = 0;
            while j < n
                invariant
                    j <= n,
                    reg < self.regs@.len(),
                    n == self.regs@[reg as int]@.len(),
                    subs@ == self.regs@[reg as int]@.take(j as int),
                decreases n - j,
            {
                subs.push(self.regs[reg][j]);
                proof {
                    assert(subs@ =~= self.regs@[reg as int]@.take(j + 1 as int));
                }
                j += 1;
            }
            proof {
                assert(self.regs@[reg as int]@.take(n as int) =~= self.regs@[reg as int]@);
            }
        }
        proof {
            assert(subs@ == reg_subs(self@, reg));
        }
        let ghost m0 = self@;
        let mut i: usize = 0;
        while i < subs.len()
            invariant
                i <= subs.len(),
                fuel >= 1,
                subs@ == reg_subs(m0, reg),
                self@ == spec_deliver_list(m0, subs@.take(i as int), v@, (fuel - 1) as nat),
            decreases subs.len() - i,
        {
            let r = subs[i];
            self.deliver_to(r, v, fuel - 1);
            proof {
                assert(subs@.take(i + 1 as int).drop_last() =~= subs@.take(i as int));
                assert(subs@.take(i + 1 as int).last() == r);
            }
            i += 1;
        }
        proof {
            assert(subs@.take(subs@.len() as int) =~= subs@);
        }
    }

    /// Synchronously broadcasts `value` to a snapshot of the subscribers
    /// of `tx`'s registry, in ascending subscription order, running every
    /// nested broadcast to completion depth-first.  Sending on a registry
    /// with no subscribers discards the value: only a receiver retains
    /// values, in its pending slot.
    pub fn send(&mut self, tx: Transmitter, value: &Value)
        ensures
            final(self)@ == spec_send(old(self)@, tx.reg, value@, SEND_DEPTH as nat),
    {
        self.send_inner(tx.reg, value, SEND_DEPTH);
    }

    /// Attaches `b` to receiver `r` and replays the pending value, if one
    /// is buffered, through the new behavior exactly once.
    fn attach(&mut self, r: usize, b: Behavior)
        requires
            r < old(self)@.recvs.len(),
        ensures
            final(self)@ == spec_attach(old(self)@, r, b@, SEND_DEPTH as nat),
    {
        let reg0 = self.recvs[r].reg;
        let pend = clone_opt_value(&self.recvs[r].pending);
        self.recvs[r] = Recv { reg: reg0, pending: None, behavior: b };
        proof {
            lemma_map_values_update(
                old(self).recvs@,
                |rc: Recv| rc@,
                r as int,
                self.recvs@[r as int],
            );
        }
        match pend {
            Some(v) => {
                self.deliver_to(r, &v, SEND_DEPTH);
            },
            None => {},
        }
    }

    /// Attaches a terminal responder under `tag`.  If a value arrived
    /// before attachment, the responder sees it exactly once, before this
    /// call returns; two values buffered in turn mean only the later one
    /// is seen (the pending slot has capacity one, last write wins).
    pub fn set_responder(&mut self, rx: Receiver, tag: u64)
        requires
            rx.id < old(self)@.recvs.len(),
        ensures
            final(self)@ == spec_attach(
                old(self)@,
                rx.id,
                BehaviorV::Responder(tag),
                SEND_DEPTH as nat,
            ),
    {
        self.attach(rx.id, Behavior::Responder(tag));
    }

    /// Wires `rx` so every value it gets is transformed by `t` and sent
    /// into `tx`; a buffered pending value is forwarded immediately.
    pub fn forward_map(&mut self, rx: Receiver, tx: Transmitter, t: Transform)
        requires
            rx.id < old(self)@.recvs.len(),
        ensures
            final(self)@ == spec_attach(
                old(self)@,
                rx.id,
                (BehaviorV::Forward { target: tx.reg, t }),
                SEND_DEPTH as nat,
            ),
    {
        self.attach(rx.id, Behavior::Forward { target: tx.reg, t });
    }

    /// As `forward_map`, for rules that may suppress: a value on which
    /// the transform yields nothing is dropped, and nothing downstream is
    /// touched.
    pub fn forward_filter_map(&mut self, rx: Receiver, tx: Transmitter, t: Transform)
        requires
            rx.id < old(self)@.recvs.len(),
        ensures
            final(self)@ == spec_attach(
                old(self)@,
                rx.id,
                (BehaviorV::Forward { target: tx.reg, t }),
                SEND_DEPTH as nat,
            ),
    {
        self.attach(rx.id, Behavior::Forward { target: tx.reg, t });
    }

    /// Wires `rx` through a fold over private state seeded with `init`:
    /// the state is owned by this one rule and visible to nothing else.
    pub fn forward_fold(&mut self, rx: Receiver, tx: Transmitter, f: FoldFn, init: Value)
        requires
            rx.id < old(self)@.recvs.len(),
        ensures
            final(self)@ == spec_attach(
                old(self)@,
                rx.id,
                (BehaviorV::Fold { target: tx.reg, f, state: init@ }),
                SEND_DEPTH as nat,
            ),
    {
        self.attach(rx.id, Behavior::Fold { target: tx.reg, f, state: init });
    }

    /// Wires `rx` through a fold over the shared cell `cell`: each
    /// delivery applies one atomic transition to the cell and propagates
    /// the transition's projection afterwards, never from inside the
    /// critical section.
    pub fn forward_fold_shared(&mut self, rx: Receiver, tx: Transmitter, f: SharedFn, cell: usize)
        requires
            rx.id < old(self)@.recvs.len(),
        ensures
            final(self)@ == spec_attach(
                old(self)@,
                rx.id,
                (BehaviorV::FoldShared { target: tx.reg, step: f, cell }),
                SEND_DEPTH as nat,
            ),
    {
        self.attach(rx.id, Behavior::FoldShared { target: tx.reg, step: f, cell });
    }

    /// Subscribes a hidden forwarding rule to `tx` so every value sent on
    /// `tx` is transformed by `t` and delivered into `rx`'s registry.
    pub fn wire_map(&mut self, tx: Transmitter, rx: Receiver, t: Transform)
        requires
            tx.reg < old(self)@.regs.len(),
            rx.id < old(self)@.recvs.len(),
        ensures
            final(self)@ == (ModelSt {
                regs: old(self)@.regs.update(
                    tx.reg as int,
                    old(self)@.regs[tx.reg as int].push(old(self)@.recvs.len() as usize),
                ),
                recvs: old(self)@.recvs.push(
                    RecvV {
                        reg: tx.reg,
                        pending: None,
                        behavior: BehaviorV::Forward {
                            target: old(self)@.recvs[rx.id as int].reg,
                            t,
                        },
                    },
                ),
                ..old(self)@
            }),
    {
        let target = self.recvs[rx.id].reg;
        self.subscribe_with(tx.reg, Behavior::Forward { target, t });
    }

    /// As `wire_map`, for rules that may suppress values.
    pub fn wire_filter_map(&mut self, tx: Transmitter, rx: Receiver, t: Transform)
        requires
            tx.reg < old(self)@.regs.len(),
            rx.id < old(self)@.recvs.len(),
        ensures
            final(self)@ == (ModelSt {
                regs: old(self)@.regs.update(
                    tx.reg as int,
                    old(self)@.regs[tx.reg as int].push(old(self)@.recvs.len() as usize),
                ),
                recvs: old(self)@.recvs.push(
                    RecvV {
                        reg: tx.reg,
                        pending: None,
                        behavior: BehaviorV::Forward {
                            target: old(self)@.recvs[rx.id as int].reg,
                            t,
                        },
                    },
                ),
                ..old(self)@
            }),
    {
        let target = self.recvs[rx.id].reg;
        self.subscribe_with(tx.reg, Behavior::Forward { target, t });
    }

    /// Subscribes a hidden shared-cell rule to `tx`: every value sent on
    /// `tx` steps the cell once and the projection is delivered into
    /// `rx`'s registry.
    pub fn wire_fold_shared(
        &mut self,
        tx: Transmitter,
        rx: Receiver,
        f: SharedFn,
        cell: usize,
    )
        requires
            tx.reg < old(self)@.regs.len(),
            rx.id < old(self)@.recvs.len(),
        ensures
            final(self)@ == (ModelSt {
                regs: old(self)@.regs.update(
                    tx.reg as int,
                    old(self)@.regs[tx.reg as int].push(old(self)@.recvs.len() as usize),
                ),
                recvs: old(self)@.recvs.push(
                    RecvV {
                        reg: tx.reg,
                        pending: None,
                        behavior: BehaviorV::FoldShared {
                            target: old(self)@.recvs[rx.id as int].reg,
                            step: f,
                            cell,
                        },
                    },
                ),
                ..old(self)@
            }),
    {
        let target = self.recvs[rx.id].reg;
        self.subscribe_with(tx.reg, Behavior::FoldShared { target, step: f, cell });
    }

    /// Creates a second receiver on the same upstream registry as `rx`:
    /// both receive every broadcast independently (fan-out, not a queue
    /// split).
    pub fn branch(&mut self, rx: Receiver) -> (r2: Receiver)
        requires
            rx.id < old(self)@.recvs.len(),
            old(self)@.recvs[rx.id as int].reg < old(self)@.regs.len(),
        ensures
            final(self)@ == (ModelSt {
                regs: old(self)@.regs.update(
                    old(self)@.recvs[rx.id as int].reg as int,
                    old(self)@.regs[old(self)@.recvs[rx.id as int].reg as int].push(
                        old(self)@.recvs.len() as usize,
                    ),
                ),
                recvs: old(self)@.recvs.push(
                    RecvV {
                        reg: old(self)@.recvs[rx.id as int].reg,
                        pending: None,
                        behavior: BehaviorV::Inert,
                    },
                ),
                ..old(self)@
            }),
            r2.id == old(self)@.recvs.len(),
    {
        let up = self.recvs[rx.id].reg;
        let id = self.subscribe_with(up, Behavior::Inert);
        Receiver { id }
    }

    /// Creates a fresh receiver fed by everything `rx`'s registry
    /// carries, transformed by `t`: a new registry is created for the
    /// branch, and a hidden rule forwards into it.
    pub fn branch_map(&mut self, rx: Receiver, t: Transform) -> (r2: Receiver)
        requires
            rx.id < old(self)@.recvs.len(),
            old(self)@.recvs[rx.id as int].reg < old(self)@.regs.len(),
        ensures
            final(self)@ == (ModelSt {
                regs: old(self)@.regs.push(seq![old(self)@.recvs.len() as usize]).update(
                    old(self)@.recvs[rx.id as int].reg as int,
                    old(self)@.regs[old(self)@.recvs[rx.id as int].reg as int].push(
                        (old(self)@.recvs.len() + 1) as usize,
                    ),
                ),
                recvs: old(self)@.recvs.push(
                    RecvV {
                        reg: old(self)@.regs.len() as usize,
                        pending: None,
                        behavior: BehaviorV::Inert,
                    },
                ).push(
                    RecvV {
                        reg: old(self)@.recvs[rx.id as int].reg,
                        pending: None,
                        behavior: BehaviorV::Forward {
                            target: old(self)@.regs.len() as usize,
                            t,
                        },
                    },
                ),
                ..old(self)@
            }),
            r2.id == old(self)@.recvs.len(),
    {
        let up = self.recvs[rx.id].reg;
        let p = self.txrx();
        self.subscribe_with(up, Behavior::Forward { target: p.0.reg, t });
        proof {
            assert(self@.regs =~= old(self)@.regs.push(
                seq![old(self)@.recvs.len() as usize],
            ).update(
                old(self)@.recvs[rx.id as int].reg as int,
                old(self)@.regs[old(self)@.recvs[rx.id as int].reg as int].push(
                    (old(self)@.recvs.len() + 1) as usize,
                ),
            ));
        }
        p.1
    }

    /// The number of registries created so far.
    pub fn reg_count(&self) -> (n: usize)
        ensures
            n == self@.regs.len(),
    {
        self.regs.len()
    }

    /// The number of receivers created so far.
    pub fn recv_count(&self) -> (n: usize)
        ensures
            n == self@.recvs.len(),
    {
        self.recvs.len()
    }

    /// The number of shared cells created so far.
    pub fn cell_count(&self) -> (n: usize)
        ensures
            n == self@.cells.len(),
    {
        self.cells.len()
    }

    /// The number of emissions logged so far.
    pub fn log_len(&self) -> (n: usize)
        ensures
            n == self@.log.len(),
    {
        self.log.len()
    }

    /// The `i`-th emission, in delivery order.
    pub fn log_at(&self, i: usize) -> (e: &Emission)
        requires
            i < self@.log.len(),
        ensures
            e@ == self@.log[i as int],
    {
        &self.log[i]
    }

    /// The current contents of shared cell `i`.
    pub fn cell_at(&self, i: usize) -> (c: &SharedCell)
        requires
            i < self@.cells.len(),
        ensures
            c@ == self@.cells[i as int],
    {
        &self.cells[i]
    }

    /// The value buffered in `rx`'s pending slot, if any.
    pub fn pending_at(&self, rx: Receiver) -> (p: &Option<Value>)
        requires
            rx.id < self@.recvs.len(),
        ensures
            opt_view(*p) == self@.recvs[rx.id as int].pending,
    {
        &self.recvs[rx.id].pending
    }
}

/// A one-for-one copy of an optional payload.
fn clone_opt_value(o: &Option<Value>) -> (r: Option<Value>)
    ensures
        opt_view(r) == opt_view(*o),
{
    match o {
        Some(v) => Some(v.clone()),
        None => None,
    }
}

} // verus!
