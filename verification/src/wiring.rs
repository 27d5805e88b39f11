//! The application's dataflow graphs, built from the engine's wiring
//! primitives.  Each constructor's contract states the exact ghost model
//! of the graph it builds, as a composition of the small model-building
//! functions below, so a caller knows precisely which registries,
//! receivers and cells exist afterwards and how they are wired.

use vstd::prelude::*;

use crate::engine::lemma_attach_shape;
use crate::engine::spec_attach;
use crate::engine::BehaviorV;
use crate::engine::Engine;
use crate::engine::ModelSt;
use crate::engine::Receiver;
use crate::engine::RecvV;
use crate::engine::Transmitter;
use crate::todo::TodoState;
use crate::todo::TodoStateV;
use crate::todo_list::TodoList;
use crate::todo_list::TodoListV;
use crate::transform::SharedCell;
use crate::transform::SharedCellV;
use crate::transform::SharedFn;
use crate::transform::Transform;

verus! {

/// A fresh empty registry appended to the model.
pub open spec fn m_tx(m: ModelSt) -> ModelSt {
    ModelSt { regs: m.regs.push(Seq::empty()), ..m }
}

/// A fresh receiver with behavior `b` subscribed at the end of registry
/// `reg`.
pub open spec fn m_sub(m: ModelSt, reg: usize, b: BehaviorV) -> ModelSt {
    ModelSt {
        regs: m.regs.update(reg as int, m.regs[reg as int].push(m.recvs.len() as usize)),
        recvs: m.recvs.push(RecvV { reg, pending: None, behavior: b }),
        ..m
    }
}

/// A linked pair: a fresh registry with one fresh inert receiver on it.
pub open spec fn m_txrx(m: ModelSt) -> ModelSt {
    ModelSt {
        regs: m.regs.push(seq![m.recvs.len() as usize]),
        recvs: m.recvs.push(
            RecvV {
                reg: m.regs.len() as usize,
                pending: None,
                behavior: BehaviorV::Inert,
            },
        ),
        ..m
    }
}

/// A fresh shared cell appended to the model.
pub open spec fn m_cell(m: ModelSt, c: SharedCellV) -> ModelSt {
    ModelSt { cells: m.cells.push(c), ..m }
}

/// Behavior `b` attached to receiver `r`, whose pending slot is empty.
pub open spec fn m_set(m: ModelSt, r: usize, b: BehaviorV) -> ModelSt {
    ModelSt {
        recvs: m.recvs.update(
            r as int,
            RecvV { reg: m.recvs[r as int].reg, pending: None, behavior: b },
        ),
        ..m
    }
}

/// Attaching to a receiver with an empty pending slot is a pure behavior
/// update: nothing is replayed.
pub proof fn lemma_attach_fresh(m: ModelSt, r: usize, b: BehaviorV, fuel: nat)
    requires
        r < m.recvs.len(),
        m.recvs[r as int].pending is None,
    ensures
        spec_attach(m, r, b, fuel) == m_set(m, r, b),
{
}

/// The graph accepting new todo names: an event channel filtered down to
/// non-empty text, fanned into the accepted-name receiver and a branch
/// that clears the entry field.
pub open spec fn input_graph(m: ModelSt) -> ModelSt {
    let m1 = m_tx(m);
    let m2 = m_txrx(m1);
    let m3 = m_sub(
        m2,
        m.regs.len() as usize,
        (BehaviorV::Forward {
            target: (m.regs.len() + 1) as usize,
            t: Transform::NonEmptyText,
        }),
    );
    let m4 = m_txrx(m3);
    m_sub(
        m4,
        (m.regs.len() + 1) as usize,
        (BehaviorV::Forward { target: (m.regs.len() + 2) as usize, t: Transform::ClearText }),
    )
}

/// The handles of the entry-field graph.
pub struct TodoInputWiring {
    /// Where the input adapter sends the field's text on each change
    /// event (already extracted from the raw event; empty text is
    /// filtered out inside the graph, not by the adapter).
    pub tx_input: Transmitter,
    /// Receives each accepted, non-empty todo name.
    pub rx_todo: Receiver,
    /// Receives the empty string after each accepted name, to clear the
    /// entry field.
    pub rx_input_value: Receiver,
}

/// Builds the entry-field graph: values sent on `tx_input` reach
/// `rx_todo` exactly when non-empty, and each accepted name also clears
/// the field through `rx_input_value`.
pub fn mk_todo_input(e: &mut Engine) -> (w: TodoInputWiring)
    ensures
        final(e)@ == input_graph(old(e)@),
        w.tx_input.reg == old(e)@.regs.len(),
        w.rx_todo.id == old(e)@.recvs.len(),
        w.rx_input_value.id == old(e)@.recvs.len() + 2,
{
    let tx_input = e.new_transmitter();
    let rx_todo = e.new_receiver();
    e.wire_filter_map(tx_input, rx_todo, Transform::NonEmptyText);
    let rx_input_value = e.branch_map(rx_todo, Transform::ClearText);
    proof {
        assert(e@ =~= input_graph(old(e)@));
    }
    TodoInputWiring { tx_input, rx_todo, rx_input_value }
}

/// The footer graph: the display channel projected to a show/hide style,
/// and the item-count channel projected to the remaining-items label.
pub open spec fn footer_graph(m: ModelSt, disp: usize, num: usize) -> ModelSt {
    let m1 = m_txrx(m);
    let m2 = m_sub(
        m1,
        disp,
        (BehaviorV::Forward { target: m.regs.len() as usize, t: Transform::BoolToDisplay }),
    );
    let m3 = m_txrx(m2);
    m_sub(
        m3,
        num,
        (BehaviorV::Forward { target: (m.regs.len() + 1) as usize, t: Transform::ItemsLeft }),
    )
}

/// The handles of the footer graph.
pub struct TodoFooterWiring {
    /// Receives `"block"` or `"none"` for the footer's display style.
    pub rx_display_style: Receiver,
    /// Receives the rendered remaining-items label.
    pub rx_items_label: Receiver,
}

/// Builds the footer graph over the shared display and item-count
/// channels.
pub fn todo_footer(e: &mut Engine, tx_display: Transmitter, tx_num_items: Transmitter) -> (w:
    TodoFooterWiring)
    requires
        tx_display.reg < old(e)@.regs.len(),
        tx_num_items.reg < old(e)@.regs.len(),
    ensures
        final(e)@ == footer_graph(old(e)@, tx_display.reg, tx_num_items.reg),
        w.rx_display_style.id == old(e)@.recvs.len(),
        w.rx_items_label.id == old(e)@.recvs.len() + 2,
{
    let rx_display_style = e.new_receiver();
    e.wire_map(tx_display, rx_display_style, Transform::BoolToDisplay);
    let rx_items_label = e.new_receiver();
    e.wire_map(tx_num_items, rx_items_label, Transform::ItemsLeft);
    proof {
        assert(e@ =~= footer_graph(old(e)@, tx_display.reg, tx_num_items.reg));
    }
    TodoFooterWiring { rx_display_style, rx_items_label }
}

/// The list graph: accepted names become add messages; every message
/// steps the list cell once; the resulting delta is split into the
/// visibility announcement and the count announcement; and the list's
/// own style receiver follows the display channel.
///
/// The three attachments are stated through `spec_attach`: a value
/// already buffered in the todo receiver when the graph is built is
/// replayed through the fresh wiring the moment it is attached (and its
/// downstream effects cascade stage by stage), exactly as the engine's
/// pending-replay contract promises.
pub open spec fn list_graph(m: ModelSt, rx_todo: usize, disp: usize, num: usize) -> ModelSt {
    let msg_reg = m.regs.len() as usize;
    let rx_msg = m.recvs.len() as usize;
    let cell = m.cells.len() as usize;
    let m1 = m_txrx(m);
    let m2 = m_cell(m1, SharedCellV::List(TodoListV { next_index: 0, todos: Seq::empty() }));
    let m3 = spec_attach(
        m2,
        rx_todo,
        (BehaviorV::Forward { target: msg_reg, t: Transform::TextToAdd }),
        crate::SEND_DEPTH as nat,
    );
    let m4 = m_txrx(m3);
    let delta_reg = (m.regs.len() + 1) as usize;
    let rx_delta = (m.recvs.len() + 1) as usize;
    let m5 = spec_attach(
        m4,
        rx_msg,
        (BehaviorV::FoldShared { target: delta_reg, step: SharedFn::ListApply, cell }),
        crate::SEND_DEPTH as nat,
    );
    let m6 = spec_attach(
        m5,
        rx_delta,
        (BehaviorV::Forward { target: disp, t: Transform::DeltaDisplay }),
        crate::SEND_DEPTH as nat,
    );
    let m7 = m_sub(m6, delta_reg, BehaviorV::Inert);
    let m8 = m_set(
        m7,
        (m.recvs.len() + 2) as usize,
        (BehaviorV::Forward { target: num, t: Transform::DeltaCount }),
    );
    let m9 = m_txrx(m8);
    m_sub(
        m9,
        disp,
        (BehaviorV::Forward { target: (m.regs.len() + 2) as usize, t: Transform::BoolToDisplay }),
    )
}

/// The handles of the list graph.
pub struct TodoListWiring {
    /// The list's message channel: add, remove and rename messages all
    /// flow through here.
    pub tx_msg: Transmitter,
    /// The shared cell holding the `TodoList` itself.
    pub list_cell: usize,
    /// Receives `"block"` or `"none"` for the list's display style.
    pub rx_list_style: Receiver,
}

/// Builds the list graph: wires `rx_todo` into the message channel,
/// creates the list cell, and splits each message's delta into the
/// display and count channels.  A value buffered in `rx_todo` before
/// this call is replayed into the fresh wiring at attachment, so the
/// last name sent before wiring still becomes a todo.
pub fn todo_main_section(
    e: &mut Engine,
    tx_display: Transmitter,
    rx_todo: Receiver,
    tx_num_items: Transmitter,
) -> (w: TodoListWiring)
    requires
        rx_todo.id < old(e)@.recvs.len(),
        tx_display.reg < old(e)@.regs.len(),
        tx_num_items.reg < old(e)@.regs.len(),
    ensures
        final(e)@ == list_graph(old(e)@, rx_todo.id, tx_display.reg, tx_num_items.reg),
        final(e)@.regs.len() == old(e)@.regs.len() + 3,
        final(e)@.recvs.len() == old(e)@.recvs.len() + 5,
        final(e)@.cells.len() == old(e)@.cells.len() + 1,
        w.tx_msg.reg == old(e)@.regs.len(),
        w.list_cell == old(e)@.cells.len(),
        w.rx_list_style.id == old(e)@.recvs.len() + 3,
{
    let p = e.txrx();
    let tx_msg = p.0;
    let rx_msg = p.1;
    let list_cell = e.new_cell(SharedCell::List(TodoList::new()));
    let ghost m2 = e@;
    e.forward_map(rx_todo, tx_msg, Transform::TextToAdd);
    proof {
        lemma_attach_shape(
            m2,
            rx_todo.id,
            (BehaviorV::Forward { target: tx_msg.reg, t: Transform::TextToAdd }),
            crate::SEND_DEPTH as nat,
        );
    }
    let q = e.txrx();
    let tx_delta = q.0;
    let rx_delta = q.1;
    let ghost m4 = e@;
    e.forward_fold_shared(rx_msg, tx_delta, SharedFn::ListApply, list_cell);
    proof {
        lemma_attach_shape(
            m4,
            rx_msg.id,
            (BehaviorV::FoldShared {
                target: tx_delta.reg,
                step: SharedFn::ListApply,
                cell: list_cell,
            }),
            crate::SEND_DEPTH as nat,
        );
    }
    let ghost m5 = e@;
    e.forward_filter_map(rx_delta, tx_display, Transform::DeltaDisplay);
    proof {
        lemma_attach_shape(
            m5,
            rx_delta.id,
            (BehaviorV::Forward { target: tx_display.reg, t: Transform::DeltaDisplay }),
            crate::SEND_DEPTH as nat,
        );
        assert(e@.recvs[rx_delta.id as int].reg == m4.recvs[rx_delta.id as int].reg);
    }
    let rx_delta_count = e.branch(rx_delta);
    let ghost m7 = e@;
    e.forward_filter_map(rx_delta_count, tx_num_items, Transform::DeltaCount);
    proof {
        lemma_attach_fresh(
            m7,
            rx_delta_count.id,
            (BehaviorV::Forward { target: tx_num_items.reg, t: Transform::DeltaCount }),
            crate::SEND_DEPTH as nat,
        );
    }
    let rx_list_style = e.new_receiver();
    e.wire_map(tx_display, rx_list_style, Transform::BoolToDisplay);
    proof {
        assert(e@ =~= list_graph(old(e)@, rx_todo.id, tx_display.reg, tx_num_items.reg));
    }
    TodoListWiring { tx_msg, list_cell, rx_list_style }
}

/// The graph of one todo item around its shared state cell: the toggle,
/// start-edit, key, blur, edit-text and remove channels all step the one
/// cell (or send into the list's message channel), and every state
/// change is announced on the state channel, from which the row's CSS
/// class is derived.
pub open spec fn item_graph(m: ModelSt, index: usize, name: Seq<char>, msg_reg: usize) -> ModelSt {
    let r0 = m.regs.len() as usize;
    let n0 = m.recvs.len() as usize;
    let c0 = m.cells.len() as usize;
    let m1 = m_cell(
        m,
        SharedCellV::Item(
            TodoStateV { name: name, is_done: false, is_editing: false, edit_text: name },
        ),
    );
    let m2 = m_txrx(m1);
    let m3 = m_tx(m2);
    let m4 = m_txrx(m3);
    let m5 = m_sub(
        m4,
        (r0 + 1) as usize,
        (BehaviorV::FoldShared {
            target: (r0 + 2) as usize,
            step: SharedFn::ToggleDone,
            cell: c0,
        }),
    );
    let m6 = m_sub(m5, (r0 + 2) as usize, BehaviorV::Inert);
    let m7 = m_set(
        m6,
        (n0 + 3) as usize,
        (BehaviorV::FoldShared { target: r0, step: SharedFn::SetDone, cell: c0 }),
    );
    let m8 = m_txrx(m7);
    let m9 = m_set(
        m8,
        (n0 + 4) as usize,
        (BehaviorV::FoldShared { target: r0, step: SharedFn::StartEdit, cell: c0 }),
    );
    let m10 = m_txrx(m9);
    let m11 = m_set(
        m10,
        (n0 + 5) as usize,
        (BehaviorV::FoldShared { target: r0, step: SharedFn::CommitName, cell: c0 }),
    );
    let m12 = m_sub(m11, (r0 + 4) as usize, BehaviorV::Inert);
    let m13 = m_txrx(m12);
    let m14 = m_set(
        m13,
        (n0 + 6) as usize,
        (BehaviorV::Forward { target: (r0 + 5) as usize, t: Transform::Ident }),
    );
    let m15 = m_sub(m14, (r0 + 4) as usize, BehaviorV::Inert);
    let m16 = m_set(
        m15,
        (n0 + 8) as usize,
        (BehaviorV::Forward { target: msg_reg, t: Transform::ToUpdateName(index) }),
    );
    let m17 = m_txrx(m16);
    let m18 = m_set(
        m17,
        (n0 + 9) as usize,
        (BehaviorV::FoldShared { target: (r0 + 4) as usize, step: SharedFn::EditKey, cell: c0 }),
    );
    let m19 = m_txrx(m18);
    let m20 = m_set(
        m19,
        (n0 + 10) as usize,
        (BehaviorV::FoldShared {
            target: (r0 + 4) as usize,
            step: SharedFn::BlurCommit,
            cell: c0,
        }),
    );
    let m21 = m_txrx(m20);
    let m22 = m_set(
        m21,
        (n0 + 11) as usize,
        (BehaviorV::FoldShared { target: r0, step: SharedFn::SetEditText, cell: c0 }),
    );
    let m23 = m_txrx(m22);
    let m24 = m_set(
        m23,
        (n0 + 12) as usize,
        (BehaviorV::Forward { target: msg_reg, t: Transform::ToRemove(index) }),
    );
    let m25 = m_txrx(m24);
    m_sub(
        m25,
        r0,
        (BehaviorV::Forward { target: (r0 + 10) as usize, t: Transform::StateToClass }),
    )
}

/// The handles of one item's graph.
pub struct TodoItemWiring {
    /// The item's shared state cell.
    pub cell: usize,
    /// Where the checkbox click arrives.
    pub tx_toggle: Transmitter,
    /// Where the label's double-click arrives.
    pub tx_start_edit: Transmitter,
    /// Where key events from the edit field arrive.
    pub tx_key: Transmitter,
    /// Where the edit field's blur event arrives.
    pub tx_blur: Transmitter,
    /// Where the edit field's current text is reported as it is typed.
    pub tx_edit_text: Transmitter,
    /// Where the destroy button's click arrives.
    pub tx_remove: Transmitter,
    /// Receives every state snapshot the cell's transitions announce.
    pub rx_state: Receiver,
    /// Receives the new completion flag on each toggle.
    pub rx_is_complete: Receiver,
    /// Receives the committed name on each finished edit.
    pub rx_name: Receiver,
    /// Receives the row's CSS class derived from each state snapshot.
    pub rx_class: Receiver,
}

/// Builds one item's graph around a fresh shared cell named `name`:
/// toggles flip the flag and re-announce the state; double-clicks enter
/// the edit; enter or blur commit the edited text (escape reverts it);
/// committed names are re-broadcast, renamed into the list's message
/// channel, and the destroy button sends the remove message there too.
#[verifier::rlimit(80)]
pub fn todo_item(e: &mut Engine, index: usize, name: String, tx_msg: Transmitter) -> (w:
    TodoItemWiring)
    ensures
        final(e)@ == item_graph(old(e)@, index, name@, tx_msg.reg),
        w.cell == old(e)@.cells.len(),
        w.tx_toggle.reg == old(e)@.regs.len() + 1,
        w.tx_start_edit.reg == old(e)@.regs.len() + 3,
        w.tx_key.reg == old(e)@.regs.len() + 6,
        w.tx_blur.reg == old(e)@.regs.len() + 7,
        w.tx_edit_text.reg == old(e)@.regs.len() + 8,
        w.tx_remove.reg == old(e)@.regs.len() + 9,
        w.rx_state.id == old(e)@.recvs.len(),
        w.rx_is_complete.id == old(e)@.recvs.len() + 1,
        w.rx_name.id == old(e)@.recvs.len() + 7,
        w.rx_class.id == old(e)@.recvs.len() + 13,
{
    let cell = e.new_cell(SharedCell::Item(TodoState::new(name)));
    let p_state = e.txrx();
    let tx_state = p_state.0;
    let rx_state = p_state.1;
    let tx_toggle = e.new_transmitter();
    let rx_is_complete = e.new_receiver();
    e.wire_fold_shared(tx_toggle, rx_is_complete, SharedFn::ToggleDone, cell);
    let rx_done_sync = e.branch(rx_is_complete);
    let ghost m6 = e@;
    e.forward_fold_shared(rx_done_sync, tx_state, SharedFn::SetDone, cell);
    proof {
        lemma_attach_fresh(
            m6,
            rx_done_sync.id,
            (BehaviorV::FoldShared { target: tx_state.reg, step: SharedFn::SetDone, cell }),
            crate::SEND_DEPTH as nat,
        );
    }
    let p_edit = e.txrx();
    let tx_start_edit = p_edit.0;
    let ghost m8 = e@;
    e.forward_fold_shared(p_edit.1, tx_state, SharedFn::StartEdit, cell);
    proof {
        lemma_attach_fresh(
            m8,
            p_edit.1.id,
            (BehaviorV::FoldShared { target: tx_state.reg, step: SharedFn::StartEdit, cell }),
            crate::SEND_DEPTH as nat,
        );
    }
    let p_edited = e.txrx();
    let tx_edited = p_edited.0;
    let rx_edited = p_edited.1;
    let ghost m10 = e@;
    e.forward_fold_shared(rx_edited, tx_state, SharedFn::CommitName, cell);
    proof {
        lemma_attach_fresh(
            m10,
            rx_edited.id,
            (BehaviorV::FoldShared { target: tx_state.reg, step: SharedFn::CommitName, cell }),
            crate::SEND_DEPTH as nat,
        );
    }
    let rx_edited_name = e.branch(rx_edited);
    let p_name = e.txrx();
    let tx_name = p_name.0;
    let rx_name = p_name.1;
    let ghost m13 = e@;
    e.forward_map(rx_edited_name, tx_name, Transform::Ident);
    proof {
        lemma_attach_fresh(
            m13,
            rx_edited_name.id,
            (BehaviorV::Forward { target: tx_name.reg, t: Transform::Ident }),
            crate::SEND_DEPTH as nat,
        );
    }
    let rx_edited_msg = e.branch(rx_edited);
    let ghost m15 = e@;
    e.forward_map(rx_edited_msg, tx_msg, Transform::ToUpdateName(index));
    proof {
        lemma_attach_fresh(
            m15,
            rx_edited_msg.id,
            (BehaviorV::Forward { target: tx_msg.reg, t: Transform::ToUpdateName(index) }),
            crate::SEND_DEPTH as nat,
        );
    }
    let p_key = e.txrx();
    let tx_key = p_key.0;
    let ghost m17 = e@;
    e.forward_fold_shared(p_key.1, tx_edited, SharedFn::EditKey, cell);
    proof {
        lemma_attach_fresh(
            m17,
            p_key.1.id,
            (BehaviorV::FoldShared { target: tx_edited.reg, step: SharedFn::EditKey, cell }),
            crate::SEND_DEPTH as nat,
        );
    }
    let p_blur = e.txrx();
    let tx_blur = p_blur.0;
    let ghost m19 = e@;
    e.forward_fold_shared(p_blur.1, tx_edited, SharedFn::BlurCommit, cell);
    proof {
        lemma_attach_fresh(
            m19,
            p_blur.1.id,
            (BehaviorV::FoldShared { target: tx_edited.reg, step: SharedFn::BlurCommit, cell }),
            crate::SEND_DEPTH as nat,
        );
    }
    let p_text = e.txrx();
    let tx_edit_text = p_text.0;
    let ghost m21 = e@;
    e.forward_fold_shared(p_text.1, tx_state, SharedFn::SetEditText, cell);
    proof {
        lemma_attach_fresh(
            m21,
            p_text.1.id,
            (BehaviorV::FoldShared { target: tx_state.reg, step: SharedFn::SetEditText, cell }),
            crate::SEND_DEPTH as nat,
        );
    }
    let p_remove = e.txrx();
    let tx_remove = p_remove.0;
    let ghost m23 = e@;
    e.forward_map(p_remove.1, tx_msg, Transform::ToRemove(index));
    proof {
        lemma_attach_fresh(
            m23,
            p_remove.1.id,
            (BehaviorV::Forward { target: tx_msg.reg, t: Transform::ToRemove(index) }),
            crate::SEND_DEPTH as nat,
        );
    }
    let rx_class = e.branch_map(rx_state, Transform::StateToClass);
    proof {
        assert(e@ =~= item_graph(old(e)@, index, name@, tx_msg.reg));
    }
    TodoItemWiring {
        cell,
        tx_toggle,
        tx_start_edit,
        tx_key,
        tx_blur,
        tx_edit_text,
        tx_remove,
        rx_state,
        rx_is_complete,
        rx_name,
        rx_class,
    }
}

/// The handles of the whole application's graph.
pub struct TodoAppWiring {
    /// The entry-field graph.
    pub input: TodoInputWiring,
    /// The shared visibility channel of the list section and footer.
    pub tx_display: Transmitter,
    /// The shared item-count channel.
    pub tx_num_items: Transmitter,
    /// The list graph.
    pub list: TodoListWiring,
    /// The footer graph.
    pub footer: TodoFooterWiring,
}

/// Builds the whole application's graph: the entry field feeding the
/// list, the list announcing visibility and counts, and the footer
/// following both.
pub fn wire_todo_app(e: &mut Engine) -> (w: TodoAppWiring)
    ensures
        final(e)@ == ({
            let m1 = input_graph(old(e)@);
            let m2 = m_tx(m_tx(m1));
            let m3 = list_graph(
                m2,
                (old(e)@.recvs.len()) as usize,
                (m1.regs.len()) as usize,
                (m1.regs.len() + 1) as usize,
            );
            footer_graph(m3, (m1.regs.len()) as usize, (m1.regs.len() + 1) as usize)
        }),
        w.input.rx_todo.id == old(e)@.recvs.len(),
        w.tx_display.reg == old(e)@.regs.len() + 3,
        w.tx_num_items.reg == old(e)@.regs.len() + 4,
{
    let input = mk_todo_input(e);
    let tx_display = e.new_transmitter();
    let tx_num_items = e.new_transmitter();
    let list = todo_main_section(e, tx_display, input.rx_todo, tx_num_items);
    let footer = todo_footer(e, tx_display, tx_num_items);
    TodoAppWiring { input, tx_display, tx_num_items, list, footer }
}

} // verus!
