//! The engine's delivery laws, proved once over the mathematical
//! interpreter that every executable operation is proved equal to.

use vstd::prelude::*;

use crate::engine::reg_subs;
use crate::engine::spec_attach;
use crate::engine::spec_deliver_list;
use crate::engine::spec_deliver_one;
use crate::engine::spec_send;
use crate::engine::BehaviorV;
use crate::engine::EmissionV;
use crate::engine::ModelSt;
use crate::engine::RecvV;
use crate::todo::spec_commit;
use crate::todo::TodoStateV;
use crate::transform::spec_apply;
use crate::transform::spec_cell_step;
use crate::transform::spec_fold_step;
use crate::transform::FoldFn;
use crate::transform::SharedCellV;
use crate::transform::SharedFn;
use crate::transform::Transform;
use crate::value::ValueV;

verus! {

/// Whether receiver `r` of `m` is a terminal responder.
pub open spec fn is_responder(m: ModelSt, r: usize) -> bool {
    r < m.recvs.len() && m.recvs[r as int].behavior is Responder
}

/// The tag a responder logs under.
pub open spec fn responder_tag(b: BehaviorV) -> u64 {
    match b {
        BehaviorV::Responder(tag) => tag,
        _ => 0,
    }
}

/// The emissions a broadcast of `v` to the responders `s` produces, in
/// the order of `s`.
pub open spec fn responder_emissions(m: ModelSt, s: Seq<usize>, v: ValueV) -> Seq<EmissionV> {
    s.map_values(
        |r: usize| EmissionV { tag: responder_tag(m.recvs[r as int].behavior), value: v },
    )
}

/// Delivering to a list of responders appends exactly one emission per
/// entry, in list order, and changes nothing else.
pub proof fn lemma_deliver_list_responders(m: ModelSt, s: Seq<usize>, v: ValueV, fuel: nat)
    requires
        forall|k: int| 0 <= k < s.len() ==> is_responder(m, #[trigger] s[k]),
    ensures
        spec_deliver_list(m, s, v, fuel) == (ModelSt {
            log: m.log + responder_emissions(m, s, v),
            ..m
        }),
    decreases s.len(),
{
    if s.len() == 0 {
        assert(m.log + responder_emissions(m, s, v) =~= m.log);
        assert(spec_deliver_list(m, s, v, fuel) =~= (ModelSt {
            log: m.log + responder_emissions(m, s, v),
            ..m
        }));
    } else {
        let s0 = s.drop_last();
        lemma_deliver_list_responders(m, s0, v, fuel);
        let m1 = spec_deliver_list(m, s0, v, fuel);
        let r = s.last();
        assert(is_responder(m, s[s.len() - 1]));
        assert(m1.recvs == m.recvs);
        match m.recvs[r as int].behavior {
            BehaviorV::Responder(tag) => {
                assert(responder_tag(m.recvs[r as int].behavior) == tag);
                assert(spec_deliver_one(m1, r, v, fuel) == (ModelSt {
                    log: m1.log.push(EmissionV { tag, value: v }),
                    ..m1
                }));
                assert(m.log + responder_emissions(m, s, v) =~= m1.log.push(
                    EmissionV { tag, value: v },
                ));
                assert(spec_deliver_list(m, s, v, fuel) =~= (ModelSt {
                    log: m.log + responder_emissions(m, s, v),
                    ..m
                }));
            },
            _ => {
                assert(false);
            },
        }
    }
}

/// Order determinism: one broadcast on a registry whose subscribers are
/// responders delivers to each subscriber exactly once, in exactly the
/// subscription order, appending the corresponding emissions to the log
/// and leaving every registry, receiver and cell unchanged.  The
/// subscriber list is read once, up front, so nothing an earlier
/// subscriber does can reorder the rest of the same delivery.
pub proof fn lemma_order_determinism(m: ModelSt, reg: usize, v: ValueV, fuel: nat)
    requires
        fuel >= 1,
        forall|k: int|
            0 <= k < reg_subs(m, reg).len() ==> is_responder(m, #[trigger] reg_subs(m, reg)[k]),
    ensures
        spec_send(m, reg, v, fuel) == (ModelSt {
            log: m.log + responder_emissions(m, reg_subs(m, reg), v),
            ..m
        }),
{
    lemma_deliver_list_responders(m, reg_subs(m, reg), v, (fuel - 1) as nat);
}

/// The pending slot has capacity one and last write wins: two values
/// delivered to an unattached receiver leave only the later one buffered,
/// and nothing else in the engine moves.
pub proof fn lemma_pending_last_write(
    m: ModelSt,
    r: usize,
    v1: ValueV,
    v2: ValueV,
    fuel1: nat,
    fuel2: nat,
)
    requires
        r < m.recvs.len(),
        m.recvs[r as int].behavior is Inert,
    ensures
        spec_deliver_one(spec_deliver_one(m, r, v1, fuel1), r, v2, fuel2) == (ModelSt {
            recvs: m.recvs.update(
                r as int,
                RecvV { pending: Some(v2), ..m.recvs[r as int] },
            ),
            ..m
        }),
{
    let ma = spec_deliver_one(m, r, v1, fuel1);
    let mb = spec_deliver_one(ma, r, v2, fuel2);
    assert(ma.recvs[r as int].behavior is Inert);
    assert(mb.recvs =~= m.recvs.update(
        r as int,
        RecvV { pending: Some(v2), ..m.recvs[r as int] },
    ));
    assert(mb =~= (ModelSt {
        recvs: m.recvs.update(r as int, RecvV { pending: Some(v2), ..m.recvs[r as int] }),
        ..m
    }));
}

/// Pending-value replay: attaching a responder to a receiver holding a
/// buffered value delivers that value to the responder exactly once —
/// the log grows by exactly one entry — and clears the slot, atomically
/// with the attachment.
pub proof fn lemma_pending_replay(m: ModelSt, r: usize, tag: u64, v: ValueV, fuel: nat)
    requires
        r < m.recvs.len(),
        m.recvs[r as int].pending == Some(v),
    ensures
        spec_attach(m, r, BehaviorV::Responder(tag), fuel) == (ModelSt {
            recvs: m.recvs.update(
                r as int,
                RecvV {
                    reg: m.recvs[r as int].reg,
                    pending: None,
                    behavior: BehaviorV::Responder(tag),
                },
            ),
            log: m.log.push(EmissionV { tag, value: v }),
            ..m
        }),
{
    let m2 = ModelSt {
        recvs: m.recvs.update(
            r as int,
            RecvV {
                reg: m.recvs[r as int].reg,
                pending: None,
                behavior: BehaviorV::Responder(tag),
            },
        ),
        ..m
    };
    assert(spec_attach(m, r, BehaviorV::Responder(tag), fuel) == spec_deliver_one(
        m2,
        r,
        v,
        fuel,
    ));
    assert(spec_deliver_one(m2, r, v, fuel) =~= (ModelSt {
        recvs: m2.recvs,
        log: m.log.push(EmissionV { tag, value: v }),
        ..m
    }));
}

/// Filter suppression: when the filter yields nothing for a value, the
/// delivery is a complete no-op — no send happens on the downstream
/// registry, no pending slot changes anywhere, no cell moves and nothing
/// is logged.
pub proof fn lemma_filter_suppression(
    m: ModelSt,
    r: usize,
    x: ValueV,
    target: usize,
    t: Transform,
    fuel: nat,
)
    requires
        r < m.recvs.len(),
        m.recvs[r as int].behavior == (BehaviorV::Forward { target, t }),
        spec_apply(t, x) is None,
    ensures
        spec_deliver_one(m, r, x, fuel) == m,
{
}

/// Fold isolation: two fold rules subscribed to the same registry each
/// step their own private state by their own function, from their own
/// previous state alone; neither ever observes the other's state, and the
/// cells and the log are untouched.  (Their downstream registries are
/// empty here, isolating the folds themselves.)
pub proof fn lemma_fold_isolation(
    m: ModelSt,
    reg: usize,
    r1: usize,
    r2: usize,
    t1: usize,
    t2: usize,
    f1: FoldFn,
    f2: FoldFn,
    st1: ValueV,
    st2: ValueV,
    v: ValueV,
    fuel: nat,
)
    requires
        fuel >= 1,
        r1 != r2,
        r1 < m.recvs.len(),
        r2 < m.recvs.len(),
        reg_subs(m, reg) == seq![r1, r2],
        m.recvs[r1 as int].behavior == (BehaviorV::Fold { target: t1, f: f1, state: st1 }),
        m.recvs[r2 as int].behavior == (BehaviorV::Fold { target: t2, f: f2, state: st2 }),
        reg_subs(m, t1).len() == 0,
        reg_subs(m, t2).len() == 0,
    ensures
        ({
            let m2 = spec_send(m, reg, v, fuel);
            &&& m2.recvs[r1 as int].behavior == (BehaviorV::Fold {
                target: t1,
                f: f1,
                state: spec_fold_step(f1, st1, v).0,
            })
            &&& m2.recvs[r2 as int].behavior == (BehaviorV::Fold {
                target: t2,
                f: f2,
                state: spec_fold_step(f2, st2, v).0,
            })
            &&& m2.recvs[r1 as int].pending == m.recvs[r1 as int].pending
            &&& m2.recvs[r2 as int].pending == m.recvs[r2 as int].pending
            &&& m2.regs == m.regs
            &&& m2.cells == m.cells
            &&& m2.log == m.log
        }),
{
    let s = reg_subs(m, reg);
    let f = (fuel - 1) as nat;
    assert(s.drop_last() =~= seq![r1]);
    assert(s.drop_last().drop_last() =~= Seq::<usize>::empty());
    assert(s.last() == r2);
    assert(s.drop_last().last() == r1);
    let rc1 = m.recvs[r1 as int];
    let step1 = spec_fold_step(f1, st1, v);
    let ma = ModelSt {
        recvs: m.recvs.update(
            r1 as int,
            RecvV { behavior: BehaviorV::Fold { target: t1, f: f1, state: step1.0 }, ..rc1 },
        ),
        ..m
    };
    assert(reg_subs(ma, t1).len() == 0);
    assert(spec_deliver_one(m, r1, v, f) == ma);
    assert(spec_deliver_list(m, Seq::<usize>::empty(), v, f) == m);
    assert(spec_deliver_list(m, s.drop_last(), v, f) == spec_deliver_one(
        spec_deliver_list(m, s.drop_last().drop_last(), v, f),
        s.drop_last().last(),
        v,
        f,
    ));
    assert(spec_deliver_list(m, s.drop_last(), v, f) == ma);
    let rc2 = ma.recvs[r2 as int];
    assert(rc2 == m.recvs[r2 as int]);
    let step2 = spec_fold_step(f2, st2, v);
    let mb = ModelSt {
        recvs: ma.recvs.update(
            r2 as int,
            RecvV { behavior: BehaviorV::Fold { target: t2, f: f2, state: step2.0 }, ..rc2 },
        ),
        ..ma
    };
    assert(reg_subs(mb, t2).len() == 0);
    assert(spec_deliver_one(ma, r2, v, f) == mb);
    assert(spec_send(m, reg, v, fuel) == mb);
}

/// Shared-cell atomicity: one delivery through a shared-cell rule is one
/// atomic transition of the cell — the whole engine changes by exactly
/// that one cell update.  The projection propagated afterwards is derived
/// from the already-updated cell, so nothing downstream can ever observe
/// a state the cell was not actually left in.  (The downstream registry
/// is empty here, isolating the critical section itself.)
pub proof fn lemma_shared_cell_atomicity(
    m: ModelSt,
    r: usize,
    target: usize,
    f: SharedFn,
    cell: usize,
    v: ValueV,
    fuel: nat,
)
    requires
        r < m.recvs.len(),
        m.recvs[r as int].behavior == (BehaviorV::FoldShared { target, step: f, cell }),
        cell < m.cells.len(),
        reg_subs(m, target).len() == 0,
    ensures
        spec_deliver_one(m, r, v, fuel) == (ModelSt {
            cells: m.cells.update(cell as int, spec_cell_step(m.cells[cell as int], f, v).0),
            ..m
        }),
{
    let m2 = ModelSt {
        cells: m.cells.update(cell as int, spec_cell_step(m.cells[cell as int], f, v).0),
        ..m
    };
    assert(reg_subs(m2, target).len() == 0);
}

/// Whether `m2`'s emission log is `m1`'s with zero or more emissions
/// appended.
pub open spec fn log_extends(m1: ModelSt, m2: ModelSt) -> bool {
    exists|ext: Seq<EmissionV>| m2.log == m1.log + ext
}

/// Delivery to one receiver only appends to the emission log, whatever
/// the receiver's behavior and whatever it triggers downstream: past
/// emissions are never rewritten or reordered.
pub proof fn lemma_deliver_one_appends(m: ModelSt, r: usize, v: ValueV, fuel: nat)
    ensures
        log_extends(m, spec_deliver_one(m, r, v, fuel)),
    decreases fuel, 0int, 0int,
{
    let m2 = spec_deliver_one(m, r, v, fuel);
    if r >= m.recvs.len() {
        assert(m2.log == m.log + Seq::<EmissionV>::empty()) by {
            assert(m.log + Seq::<EmissionV>::empty() =~= m.log);
        }
    } else {
        let rc = m.recvs[r as int];
        match rc.behavior {
            BehaviorV::Inert => {
                assert(m2.log == m.log + Seq::<EmissionV>::empty()) by {
                    assert(m.log + Seq::<EmissionV>::empty() =~= m.log);
                }
            },
            BehaviorV::Responder(tag) => {
                assert(m2.log == m.log + seq![EmissionV { tag, value: v }]) by {
                    assert(m.log.push(EmissionV { tag, value: v }) =~= m.log + seq![
                        EmissionV { tag, value: v },
                    ]);
                }
            },
            BehaviorV::Forward { target, t } => {
                match spec_apply(t, v) {
                    Some(u) => {
                        if fuel == 0 {
                            assert(m2.log == m.log + Seq::<EmissionV>::empty()) by {
                                assert(m.log + Seq::<EmissionV>::empty() =~= m.log);
                            }
                        } else {
                            lemma_deliver_list_appends(
                                m,
                                reg_subs(m, target),
                                u,
                                (fuel - 1) as nat,
                            );
                        }
                    },
                    None => {
                        assert(m2.log == m.log + Seq::<EmissionV>::empty()) by {
                            assert(m.log + Seq::<EmissionV>::empty() =~= m.log);
                        }
                    },
                }
            },
            BehaviorV::Fold { target, f, state } => {
                let (st2, out) = spec_fold_step(f, state, v);
                let ma = ModelSt {
                    recvs: m.recvs.update(
                        r as int,
                        RecvV { behavior: BehaviorV::Fold { target, f, state: st2 }, ..rc },
                    ),
                    ..m
                };
                match out {
                    Some(u) => {
                        if fuel != 0 {
                            lemma_deliver_list_appends(
                                ma,
                                reg_subs(ma, target),
                                u,
                                (fuel - 1) as nat,
                            );
                            let ext = choose|ext: Seq<EmissionV>|
                                spec_deliver_list(
                                    ma,
                                    reg_subs(ma, target),
                                    u,
                                    (fuel - 1) as nat,
                                ).log == ma.log + ext;
                            assert(m2.log == m.log + ext);
                        } else {
                            assert(m2.log == m.log + Seq::<EmissionV>::empty()) by {
                                assert(m.log + Seq::<EmissionV>::empty() =~= m.log);
                            }
                        }
                    },
                    None => {
                        assert(m2.log == m.log + Seq::<EmissionV>::empty()) by {
                            assert(m.log + Seq::<EmissionV>::empty() =~= m.log);
                        }
                    },
                }
            },
            BehaviorV::FoldShared { target, step, cell } => {
                if cell < m.cells.len() {
                    let (c2, out) = spec_cell_step(m.cells[cell as int], step, v);
                    let ma = ModelSt { cells: m.cells.update(cell as int, c2), ..m };
                    match out {
                        Some(u) => {
                            if fuel != 0 {
                                lemma_deliver_list_appends(
                                    ma,
                                    reg_subs(ma, target),
                                    u,
                                    (fuel - 1) as nat,
                                );
                                let ext = choose|ext: Seq<EmissionV>|
                                    spec_deliver_list(
                                        ma,
                                        reg_subs(ma, target),
                                        u,
                                        (fuel - 1) as nat,
                                    ).log == ma.log + ext;
                                assert(m2.log == m.log + ext);
                            } else {
                                assert(m2.log == m.log + Seq::<EmissionV>::empty()) by {
                                    assert(m.log + Seq::<EmissionV>::empty() =~= m.log);
                                }
                            }
                        },
                        None => {
                            assert(m2.log == m.log + Seq::<EmissionV>::empty()) by {
                                assert(m.log + Seq::<EmissionV>::empty() =~= m.log);
                            }
                        },
                    }
                } else {
                    assert(m2.log == m.log + Seq::<EmissionV>::empty()) by {
                        assert(m.log + Seq::<EmissionV>::empty() =~= m.log);
                    }
                }
            },
        }
    }
}

/// Serving a snapshot only appends to the emission log, entry by entry in
/// snapshot order.
pub proof fn lemma_deliver_list_appends(m: ModelSt, subs: Seq<usize>, v: ValueV, fuel: nat)
    ensures
        log_extends(m, spec_deliver_list(m, subs, v, fuel)),
    decreases fuel, 1int, subs.len(),
{
    if subs.len() == 0 {
        assert(spec_deliver_list(m, subs, v, fuel).log == m.log + Seq::<EmissionV>::empty()) by {
            assert(m.log + Seq::<EmissionV>::empty() =~= m.log);
        }
    } else {
        let m1 = spec_deliver_list(m, subs.drop_last(), v, fuel);
        lemma_deliver_list_appends(m, subs.drop_last(), v, fuel);
        lemma_deliver_one_appends(m1, subs.last(), v, fuel);
        let e1 = choose|ext: Seq<EmissionV>| m1.log == m.log + ext;
        let e2 = choose|ext: Seq<EmissionV>|
            spec_deliver_one(m1, subs.last(), v, fuel).log == m1.log + ext;
        assert(spec_deliver_one(m1, subs.last(), v, fuel).log == m.log + (e1 + e2)) by {
            assert((m.log + e1) + e2 =~= m.log + (e1 + e2));
        }
    }
}

/// A broadcast only appends to the emission log: everything logged before
/// the send stands untouched, in its original order, below whatever the
/// send adds.
pub proof fn lemma_send_appends(m: ModelSt, reg: usize, v: ValueV, fuel: nat)
    ensures
        log_extends(m, spec_send(m, reg, v, fuel)),
{
    if fuel == 0 {
        assert(spec_send(m, reg, v, fuel).log == m.log + Seq::<EmissionV>::empty()) by {
            assert(m.log + Seq::<EmissionV>::empty() =~= m.log);
        }
    } else {
        lemma_deliver_list_appends(m, reg_subs(m, reg), v, (fuel - 1) as nat);
    }
}

/// Every shared-cell rule keeps an item cell well-formed: whatever rule
/// runs and whatever value arrives, a single step never leaves the record
/// half-mutated (outside an edit, the edit field always shows the name).
pub proof fn lemma_cell_step_preserves_inv(s: TodoStateV, f: SharedFn, v: ValueV)
    requires
        crate::todo::todo_inv(s),
    ensures
        ({
            let c2 = spec_cell_step(SharedCellV::Item(s), f, v).0;
            c2 matches SharedCellV::Item(s2) ==> crate::todo::todo_inv(s2)
        }),
{
}

/// The shared cell a rule steps, if it is a shared-cell rule.
pub open spec fn shared_cell_of(b: BehaviorV) -> Option<usize> {
    match b {
        BehaviorV::FoldShared { target, step, cell } => Some(cell),
        _ => None,
    }
}

/// Whether no receiver of `m` holds a rule over cell `c`.
pub open spec fn cell_unreferenced(m: ModelSt, c: usize) -> bool {
    forall|r: int|
        0 <= r < m.recvs.len() ==> shared_cell_of(#[trigger] m.recvs[r].behavior) != Some(c)
}

/// The general isolation form of fold and shared-cell independence: a
/// delivery, however deep and re-entrant, can only move cells that some
/// rule of the graph actually references — a cell no rule points at is
/// untouched, and no new reference to it can appear.  Two graphs wired
/// independently around fresh cells of their own (as each `todo_item`
/// call creates) therefore never observe or disturb each other's state.
pub proof fn lemma_deliver_one_cell_frame(m: ModelSt, r: usize, v: ValueV, fuel: nat, c: usize)
    requires
        cell_unreferenced(m, c),
    ensures
        cell_unreferenced(spec_deliver_one(m, r, v, fuel), c),
        c < m.cells.len() ==> spec_deliver_one(m, r, v, fuel).cells[c as int] == m.cells[c as int],
    decreases fuel, 0int, 0int,
{
    let m2 = spec_deliver_one(m, r, v, fuel);
    if r < m.recvs.len() {
        let rc = m.recvs[r as int];
        match rc.behavior {
            BehaviorV::Inert => {
                assert forall|i: int| 0 <= i < m2.recvs.len() implies shared_cell_of(
                    #[trigger] m2.recvs[i].behavior,
                ) != Some(c) by {
                    assert(shared_cell_of(m.recvs[i].behavior) != Some(c));
                }
            },
            BehaviorV::Responder(tag) => {},
            BehaviorV::Forward { target, t } => {
                match spec_apply(t, v) {
                    Some(u) => {
                        if fuel != 0 {
                            lemma_deliver_list_cell_frame(
                                m,
                                reg_subs(m, target),
                                u,
                                (fuel - 1) as nat,
                                c,
                            );
                        }
                    },
                    None => {},
                }
            },
            BehaviorV::Fold { target, f, state } => {
                let (st2, out) = spec_fold_step(f, state, v);
                let ma = ModelSt {
                    recvs: m.recvs.update(
                        r as int,
                        RecvV { behavior: BehaviorV::Fold { target, f, state: st2 }, ..rc },
                    ),
                    ..m
                };
                assert forall|i: int| 0 <= i < ma.recvs.len() implies shared_cell_of(
                    #[trigger] ma.recvs[i].behavior,
                ) != Some(c) by {
                    assert(shared_cell_of(m.recvs[i].behavior) != Some(c));
                }
                match out {
                    Some(u) => {
                        if fuel != 0 {
                            lemma_deliver_list_cell_frame(
                                ma,
                                reg_subs(ma, target),
                                u,
                                (fuel - 1) as nat,
                                c,
                            );
                        }
                    },
                    None => {},
                }
            },
            BehaviorV::FoldShared { target, step, cell } => {
                if cell < m.cells.len() {
                    assert(shared_cell_of(m.recvs[r as int].behavior) != Some(c));
                    assert(cell != c);
                    let (c2, out) = spec_cell_step(m.cells[cell as int], step, v);
                    let ma = ModelSt { cells: m.cells.update(cell as int, c2), ..m };
                    match out {
                        Some(u) => {
                            if fuel != 0 {
                                lemma_deliver_list_cell_frame(
                                    ma,
                                    reg_subs(ma, target),
                                    u,
                                    (fuel - 1) as nat,
                                    c,
                                );
                            }
                        },
                        None => {},
                    }
                }
            },
        }
    }
}

/// As `lemma_deliver_one_cell_frame`, for a whole snapshot.
pub proof fn lemma_deliver_list_cell_frame(
    m: ModelSt,
    subs: Seq<usize>,
    v: ValueV,
    fuel: nat,
    c: usize,
)
    requires
        cell_unreferenced(m, c),
    ensures
        cell_unreferenced(spec_deliver_list(m, subs, v, fuel), c),
        c < m.cells.len() ==> spec_deliver_list(m, subs, v, fuel).cells[c as int]
            == m.cells[c as int],
    decreases fuel, 1int, subs.len(),
{
    if subs.len() != 0 {
        let m1 = spec_deliver_list(m, subs.drop_last(), v, fuel);
        lemma_deliver_list_cell_frame(m, subs.drop_last(), v, fuel, c);
        crate::engine::lemma_deliver_list_shape(m, subs.drop_last(), v, fuel);
        lemma_deliver_one_cell_frame(m1, subs.last(), v, fuel, c);
        crate::engine::lemma_deliver_one_shape(m1, subs.last(), v, fuel);
    }
}

/// As `lemma_deliver_one_cell_frame`, for a whole broadcast: no send can
/// reach a cell that no rule of the graph references.
pub proof fn lemma_send_cell_frame(m: ModelSt, reg: usize, v: ValueV, fuel: nat, c: usize)
    requires
        cell_unreferenced(m, c),
    ensures
        cell_unreferenced(spec_send(m, reg, v, fuel), c),
        c < m.cells.len() ==> spec_send(m, reg, v, fuel).cells[c as int] == m.cells[c as int],
{
    if fuel != 0 {
        lemma_deliver_list_cell_frame(m, reg_subs(m, reg), v, (fuel - 1) as nat, c);
    }
}

/// Whether every item cell of `m` is well-formed.
pub open spec fn all_items_wf(m: ModelSt) -> bool {
    forall|c: int|
        0 <= c < m.cells.len() ==> (#[trigger] m.cells[c] matches SharedCellV::Item(s)
            ==> crate::todo::todo_inv(s))
}

/// Across any delivery — interleaved shared-cell transitions, nested
/// re-entrant broadcasts and all — every item cell stays well-formed:
/// no reachable state of the system holds a half-mutated cell.
pub proof fn lemma_deliver_one_preserves_wf(m: ModelSt, r: usize, v: ValueV, fuel: nat)
    requires
        all_items_wf(m),
    ensures
        all_items_wf(spec_deliver_one(m, r, v, fuel)),
    decreases fuel, 0int, 0int,
{
    if r < m.recvs.len() {
        let rc = m.recvs[r as int];
        match rc.behavior {
            BehaviorV::Inert => {},
            BehaviorV::Responder(tag) => {},
            BehaviorV::Forward { target, t } => {
                match spec_apply(t, v) {
                    Some(u) => {
                        if fuel != 0 {
                            lemma_deliver_list_preserves_wf(
                                m,
                                reg_subs(m, target),
                                u,
                                (fuel - 1) as nat,
                            );
                        }
                    },
                    None => {},
                }
            },
            BehaviorV::Fold { target, f, state } => {
                let (st2, out) = spec_fold_step(f, state, v);
                let ma = ModelSt {
                    recvs: m.recvs.update(
                        r as int,
                        RecvV { behavior: BehaviorV::Fold { target, f, state: st2 }, ..rc },
                    ),
                    ..m
                };
                match out {
                    Some(u) => {
                        if fuel != 0 {
                            lemma_deliver_list_preserves_wf(
                                ma,
                                reg_subs(ma, target),
                                u,
                                (fuel - 1) as nat,
                            );
                        }
                    },
                    None => {},
                }
            },
            BehaviorV::FoldShared { target, step, cell } => {
                if cell < m.cells.len() {
                    let (c2, out) = spec_cell_step(m.cells[cell as int], step, v);
                    let ma = ModelSt { cells: m.cells.update(cell as int, c2), ..m };
                    assert(all_items_wf(ma)) by {
                        match m.cells[cell as int] {
                            SharedCellV::Item(s) => {
                                lemma_cell_step_preserves_inv(s, step, v);
                            },
                            SharedCellV::List(l) => {},
                        }
                    }
                    match out {
                        Some(u) => {
                            if fuel != 0 {
                                lemma_deliver_list_preserves_wf(
                                    ma,
                                    reg_subs(ma, target),
                                    u,
                                    (fuel - 1) as nat,
                                );
                            }
                        },
                        None => {},
                    }
                }
            },
        }
    }
}

/// As `lemma_deliver_one_preserves_wf`, for a whole snapshot.
pub proof fn lemma_deliver_list_preserves_wf(m: ModelSt, subs: Seq<usize>, v: ValueV, fuel: nat)
    requires
        all_items_wf(m),
    ensures
        all_items_wf(spec_deliver_list(m, subs, v, fuel)),
    decreases fuel, 1int, subs.len(),
{
    if subs.len() != 0 {
        lemma_deliver_list_preserves_wf(m, subs.drop_last(), v, fuel);
        lemma_deliver_one_preserves_wf(
            spec_deliver_list(m, subs.drop_last(), v, fuel),
            subs.last(),
            v,
            fuel,
        );
    }
}

/// As `lemma_deliver_one_preserves_wf`, for a whole broadcast.
pub proof fn lemma_send_preserves_wf(m: ModelSt, reg: usize, v: ValueV, fuel: nat)
    requires
        all_items_wf(m),
    ensures
        all_items_wf(spec_send(m, reg, v, fuel)),
{
    if fuel != 0 {
        lemma_deliver_list_preserves_wf(m, reg_subs(m, reg), v, (fuel - 1) as nat);
    }
}

/// A committed edit is never half-applied: while editing, the cell step
/// leaves the item out of the editing state with the committed name
/// persisted, and the projection propagated is a snapshot of exactly
/// that post-transition state.  A commit delivered while the item is not
/// being edited is inert: the cell is untouched and nothing at all is
/// emitted, so no snapshot, name or rename message can follow from an
/// invalid transition.
pub proof fn lemma_commit_projection(s: TodoStateV, name: Seq<char>)
    ensures
        spec_cell_step(SharedCellV::Item(s), SharedFn::CommitName, ValueV::Text(name)).0
            == SharedCellV::Item(spec_commit(s, name)),
        s.is_editing ==> spec_cell_step(
            SharedCellV::Item(s),
            SharedFn::CommitName,
            ValueV::Text(name),
        ).1 == Some(ValueV::State(spec_commit(s, name))),
        !s.is_editing ==> spec_cell_step(
            SharedCellV::Item(s),
            SharedFn::CommitName,
            ValueV::Text(name),
        ).1 is None,
        !spec_commit(s, name).is_editing,
        s.is_editing ==> spec_commit(s, name).name == name && spec_commit(s, name).edit_text
            == name,
        !s.is_editing ==> spec_commit(s, name) == s,
{
}

/// A shared-cell rule whose step neither changes the cell nor emits a
/// projection makes the whole delivery a no-op: the engine is exactly as
/// before.  With `lemma_commit_projection` this shows that a commit,
/// cancel, edit key or blur delivered outside the Editing state sends
/// nothing anywhere.
pub proof fn lemma_inert_shared_step(
    m: ModelSt,
    r: usize,
    target: usize,
    f: SharedFn,
    cell: usize,
    v: ValueV,
    fuel: nat,
)
    requires
        r < m.recvs.len(),
        m.recvs[r as int].behavior == (BehaviorV::FoldShared { target, step: f, cell }),
        cell < m.cells.len(),
        spec_cell_step(m.cells[cell as int], f, v).0 == m.cells[cell as int],
        spec_cell_step(m.cells[cell as int], f, v).1 is None,
    ensures
        spec_deliver_one(m, r, v, fuel) == m,
{
    assert(m.cells.update(cell as int, m.cells[cell as int]) =~= m.cells);
    assert(spec_deliver_one(m, r, v, fuel) =~= m);
}

/// Every state snapshot a cell step propagates is the cell's contents at
/// the end of that very step: downstream rules can never observe a state
/// the cell was not actually left in.
pub proof fn lemma_snapshot_reflects_cell(c: SharedCellV, f: SharedFn, v: ValueV)
    ensures
        ({
            let st = spec_cell_step(c, f, v);
            st.1 matches Some(ValueV::State(t)) ==> st.0 == SharedCellV::Item(t)
        }),
{
}

} // verus!
