//! What holds of the controller as a whole.
//!
//! The laws here are about sequences: of moves, of changes, of replies. The modules below hold
//! those about a single move, a flow that begins, a turn of a listener, and a reply.

pub mod flows;
pub mod hearing;
pub mod moves;
pub mod replies;

use vstd::prelude::*;

use crate::controller::incoming::{
    after_cross_signing, first_call, incoming_callback, pending_request, FoundRequest, Ignored,
    IncomingCall,
};
use crate::data::{SessionVerificationRequestDetails, UserProfile};
use crate::delegate::{delivery_due, CallbackView, DeliveryView};
use crate::error::ClientError;
use crate::listener_tasks::{slot, ListenerTasksView};
use crate::model::{
    qr_callback, qr_next, request_callback, request_next, sas_callback, sas_next, turns_into_sas,
    ControllerView, Move,
};
use crate::states::{
    FlowStatus, QrVerificationState, SasState, Verification, VerificationRequestState,
};
use crate::steps::{HandoffNext, Handover, ListenerNext, RequestListenerNext, RequestLookUp};

verus! {

/// The state after a sequence of moves.
pub open spec fn after_all<D: ?Sized, R, S, Q, H>(
    state: ControllerView<D, R, S, Q, H>,
    moves: Seq<Move<D, R, S, Q, H>>,
) -> ControllerView<D, R, S, Q, H>
    decreases moves.len(),
{
    if moves.len() == 0 {
        state
    } else {
        after_all(state.after(moves.first()), moves.drop_first())
    }
}

/// The tasks that run after a sequence of moves, where `running` ran before it: a move adds the
/// listener that it installs and ends the tasks that it aborts.
pub open spec fn running_after<D: ?Sized, R, S, Q, H>(
    state: ControllerView<D, R, S, Q, H>,
    running: Set<H>,
    moves: Seq<Move<D, R, S, Q, H>>,
) -> Set<H>
    decreases moves.len(),
{
    if moves.len() == 0 {
        running
    } else {
        running_after(
            state.after(moves.first()),
            running.union(slot(moves.first().installs()).to_set()).difference(
                state.aborts(moves.first()).to_set(),
            ),
            moves.drop_first(),
        )
    }
}

/// Whether the controller holds the handle of every task in `running`.
pub open spec fn all_held<H>(tasks: ListenerTasksView<H>, running: Set<H>) -> bool {
    forall|handle: H| running.contains(handle) ==> #[trigger] tasks.holds(handle)
}

/// No listener escapes: whatever the controller does, it holds the handle of every listener that
/// it installed and that was not aborted.
pub proof fn law_no_listener_escapes<D: ?Sized, R, S, Q, H>(
    state: ControllerView<D, R, S, Q, H>,
    running: Set<H>,
    moves: Seq<Move<D, R, S, Q, H>>,
)
    requires
        all_held(state.listener_tasks, running),
    ensures
        all_held(after_all(state, moves).listener_tasks, running_after(state, running, moves)),
    decreases moves.len(),
{
    if moves.len() > 0 {
        let step = moves.first();
        let next = state.after(step);
        let still_running = running.union(slot(step.installs()).to_set()).difference(
            state.aborts(step).to_set(),
        );
        assert forall|handle: H| still_running.contains(handle) implies #[trigger]
        next.listener_tasks.holds(handle) by {
            lemma_held_after_move(state, running, step, handle);
        }
        law_no_listener_escapes(next, still_running, moves.drop_first());
    }
}

/// One move of the law above.
proof fn lemma_held_after_move<D: ?Sized, R, S, Q, H>(
    state: ControllerView<D, R, S, Q, H>,
    running: Set<H>,
    step: Move<D, R, S, Q, H>,
    handle: H,
)
    requires
        all_held(state.listener_tasks, running),
        running.contains(handle) || slot(step.installs()).to_set().contains(handle),
        !state.aborts(step).to_set().contains(handle),
    ensures
        state.after(step).listener_tasks.holds(handle),
{
    let aborted = state.aborts(step);
    if running.contains(handle) {
        assert(state.listener_tasks.holds(handle));
        assert forall|i: int| 0 <= i < aborted.len() implies aborted[i] != handle by {
            assert(aborted.to_set().contains(aborted[i]));
        }
        match step {
            Move::BeginFlow(_) | Move::AbortAll => {
                if state.listener_tasks.request == Some(handle) {
                    assert(aborted[0] == handle);
                } else {
                    assert(aborted[aborted.len() - 1] == handle);
                }
            },
            Move::InstallRequestListener(_) => {
                if state.listener_tasks.request == Some(handle) {
                    assert(aborted[0] == handle);
                }
            },
            Move::InstallSasListener(_) | Move::BeginScan => {
                if state.listener_tasks.concrete == Some(handle) {
                    assert(aborted[0] == handle);
                }
            },
            Move::InstallQrListener(_) => {
                if state.listener_tasks.concrete == Some(handle) {
                    assert(aborted[0] == handle);
                } else {
                    assert(aborted[aborted.len() - 1] == handle);
                }
            },
            _ => {},
        }
    } else {
        assert(slot(step.installs()).contains(handle));
    }
}

/// The handles of the listeners that a sequence of moves installs, in this order.
pub open spec fn installed_by<D: ?Sized, R, S, Q, H>(
    moves: Seq<Move<D, R, S, Q, H>>,
) -> Seq<H>
    decreases moves.len(),
{
    if moves.len() == 0 {
        seq![]
    } else {
        slot(moves.first().installs()) + installed_by(moves.drop_first())
    }
}

/// The handles whose tasks are aborted in a sequence of moves, in this order.
pub open spec fn aborted_by<D: ?Sized, R, S, Q, H>(
    state: ControllerView<D, R, S, Q, H>,
    moves: Seq<Move<D, R, S, Q, H>>,
) -> Seq<H>
    decreases moves.len(),
{
    if moves.len() == 0 {
        seq![]
    } else {
        state.aborts(moves.first()) + aborted_by(state.after(moves.first()), moves.drop_first())
    }
}

/// How many times `handle` occurs in `handles`.
pub open spec fn times<H>(handles: Seq<H>, handle: H) -> nat {
    handles.to_multiset().count(handle)
}

/// The accounts balance: what the controller held and what it has installed since is what has been
/// aborted since and what it still holds, each handle as many times.
pub proof fn law_listeners_are_accounted_for<D: ?Sized, R, S, Q, H>(
    state: ControllerView<D, R, S, Q, H>,
    moves: Seq<Move<D, R, S, Q, H>>,
    handle: H,
)
    ensures
        times(state.listener_tasks.handles(), handle) + times(installed_by(moves), handle) == times(
            aborted_by(state, moves),
            handle,
        ) + times(after_all(state, moves).listener_tasks.handles(), handle),
    decreases moves.len(),
{
    lemma_times_in_slot(None, handle);
    if moves.len() > 0 {
        let step = moves.first();
        let next = state.after(step);
        let rest = moves.drop_first();
        law_listeners_are_accounted_for(next, rest, handle);
        lemma_times_in_both(slot(step.installs()), installed_by(rest), handle);
        lemma_times_in_both(state.aborts(step), aborted_by(next, rest), handle);
        lemma_times_in_slot(step.installs(), handle);
        lemma_times_held(state.listener_tasks, handle);
        lemma_times_held(next.listener_tasks, handle);
        lemma_times_in_slot(state.listener_tasks.request, handle);
        lemma_times_in_slot(state.listener_tasks.concrete, handle);
        lemma_times_in_both(
            slot(state.listener_tasks.concrete),
            slot(state.listener_tasks.request),
            handle,
        );
    }
}

/// A handle occurs in a concatenation as often as in both parts together.
proof fn lemma_times_in_both<H>(one: Seq<H>, other: Seq<H>, handle: H)
    ensures
        times(one + other, handle) == times(one, handle) + times(other, handle),
{
    vstd::seq_lib::lemma_multiset_commutative(one, other);
}

/// A handle occurs once in its slot.
proof fn lemma_times_in_slot<H>(held: Option<H>, handle: H)
    ensures
        times(slot(held), handle) == (if held == Some(handle) {
            1nat
        } else {
            0
        }),
{
    broadcast use vstd::seq_lib::group_to_multiset_ensures;

    if let Some(held) = held {
        assert(seq![held] =~= Seq::empty().push(held));
    }
}

/// A handle is held once for each slot that it is in.
proof fn lemma_times_held<H>(tasks: ListenerTasksView<H>, handle: H)
    ensures
        times(tasks.handles(), handle) == (if tasks.request == Some(handle) {
            1nat
        } else {
            0
        }) + (if tasks.concrete == Some(handle) {
            1nat
        } else {
            0
        }),
{
    lemma_times_in_both(slot(tasks.request), slot(tasks.concrete), handle);
    lemma_times_in_slot(tasks.request, handle);
    lemma_times_in_slot(tasks.concrete, handle);
}

/// Whether every listener that a sequence of moves installs is a task of its own: no two of them
/// have the same handle.
pub open spec fn installs_new_tasks<D: ?Sized, R, S, Q, H>(
    moves: Seq<Move<D, R, S, Q, H>>,
) -> bool {
    installed_by(moves).no_duplicates()
}

/// Where every listener is a task of its own: a handle that the controller holds has not been
/// aborted. One that it installed and does not hold any more has been aborted exactly once. Nothing
/// is aborted that it did not install. The request listener and the concrete listener are two
/// different tasks.
pub proof fn law_each_listener_is_held_or_aborted_once<D: ?Sized, R, S, Q, H>(
    own_user_id: Seq<char>,
    moves: Seq<Move<D, R, S, Q, H>>,
    handle: H,
)
    requires
        installs_new_tasks(moves),
    ensures
        ({
            let initial = ControllerView::<D, R, S, Q, H>::initial(own_user_id);
            let tasks = after_all(initial, moves).listener_tasks;
            let aborted = aborted_by(initial, moves);
            let installed = installed_by(moves);
            &&& tasks.holds(handle) ==> installed.contains(handle) && !aborted.contains(handle)
            &&& installed.contains(handle) && !tasks.holds(handle) ==> times(aborted, handle) == 1
            &&& aborted.contains(handle) ==> installed.contains(handle) && times(aborted, handle)
                == 1
            &&& tasks.request is Some ==> tasks.request != tasks.concrete
        }),
{
    broadcast use vstd::seq_lib::group_to_multiset_ensures;

    let initial = ControllerView::<D, R, S, Q, H>::initial(own_user_id);
    let tasks = after_all(initial, moves).listener_tasks;
    installed_by(moves).lemma_multiset_has_no_duplicates();
    law_listeners_are_accounted_for(initial, moves, handle);
    lemma_times_held(initial.listener_tasks, handle);
    lemma_times_held(tasks, handle);
    if let Some(request) = tasks.request {
        law_listeners_are_accounted_for(initial, moves, request);
        lemma_times_held(initial.listener_tasks, request);
        lemma_times_held(tasks, request);
    }
}

/// Where every listener is a task of its own, the tasks that run are those whose handles the
/// controller holds: at most one that was installed to listen to a request, and at most one that
/// was installed to listen to a concrete verification.
pub proof fn law_one_listener_of_each_kind_runs<D: ?Sized, R, S, Q, H>(
    own_user_id: Seq<char>,
    moves: Seq<Move<D, R, S, Q, H>>,
    handle: H,
)
    requires
        installs_new_tasks(moves),
    ensures
        ({
            let initial = ControllerView::<D, R, S, Q, H>::initial(own_user_id);
            let tasks = after_all(initial, moves).listener_tasks;
            let runs = running_after(initial, Set::empty(), moves).contains(handle);
            &&& runs <==> tasks.holds(handle)
            &&& runs && moves.contains(Move::InstallRequestListener(handle)) <==> tasks.request
                == Some(handle)
            &&& runs && (moves.contains(Move::InstallSasListener(handle)) || moves.contains(
                Move::InstallQrListener(handle),
            )) <==> tasks.concrete == Some(handle)
        }),
{
    broadcast use vstd::seq_lib::group_to_multiset_ensures;

    let initial = ControllerView::<D, R, S, Q, H>::initial(own_user_id);
    let tasks = after_all(initial, moves).listener_tasks;
    let request = Move::<D, R, S, Q, H>::InstallRequestListener(handle);
    let sas = Move::<D, R, S, Q, H>::InstallSasListener(handle);
    let qr = Move::<D, R, S, Q, H>::InstallQrListener(handle);
    installed_by(moves).lemma_multiset_has_no_duplicates();
    lemma_times_held(initial.listener_tasks, handle);
    lemma_held_runs(initial, Set::empty(), moves, handle);
    lemma_held_was_installed(initial, moves, handle);
    if moves.contains(request) && moves.contains(sas) {
        lemma_installed_twice(moves, moves.index_of(request), moves.index_of(sas), handle);
    }
    if moves.contains(request) && moves.contains(qr) {
        lemma_installed_twice(moves, moves.index_of(request), moves.index_of(qr), handle);
    }
}

/// Where a handle is installed at most once and not while it is held, it runs exactly while it is
/// held.
proof fn lemma_held_runs<D: ?Sized, R, S, Q, H>(
    state: ControllerView<D, R, S, Q, H>,
    running: Set<H>,
    moves: Seq<Move<D, R, S, Q, H>>,
    handle: H,
)
    requires
        running.contains(handle) <==> state.listener_tasks.holds(handle),
        times(state.listener_tasks.handles(), handle) + times(installed_by(moves), handle) <= 1,
    ensures
        running_after(state, running, moves).contains(handle) <==> after_all(
            state,
            moves,
        ).listener_tasks.holds(handle),
    decreases moves.len(),
{
    if moves.len() > 0 {
        broadcast use vstd::seq_lib::group_to_multiset_ensures;

        let step = moves.first();
        let next = state.after(step);
        let rest = moves.drop_first();
        let still_running = running.union(slot(step.installs()).to_set()).difference(
            state.aborts(step).to_set(),
        );
        let one = seq![step];
        assert(one.drop_first() =~= Seq::empty());
        reveal_with_fuel(installed_by, 2);
        reveal_with_fuel(aborted_by, 2);
        reveal_with_fuel(after_all, 2);
        assert(installed_by(one) =~= slot(step.installs()));
        assert(aborted_by(state, one) =~= state.aborts(step));
        law_listeners_are_accounted_for(state, one, handle);
        lemma_times_in_both(slot(step.installs()), installed_by(rest), handle);
        lemma_times_held(state.listener_tasks, handle);
        lemma_times_held(next.listener_tasks, handle);
        lemma_times_in_slot(step.installs(), handle);
        lemma_held_runs(next, still_running, rest, handle);
    }
}

/// A handle that was not held and is held now has been installed for the slot that it is in.
proof fn lemma_held_was_installed<D: ?Sized, R, S, Q, H>(
    state: ControllerView<D, R, S, Q, H>,
    moves: Seq<Move<D, R, S, Q, H>>,
    handle: H,
)
    ensures
        ({
            let tasks = after_all(state, moves).listener_tasks;
            &&& tasks.request == Some(handle) ==> state.listener_tasks.request == Some(handle)
                || moves.contains(Move::InstallRequestListener(handle))
            &&& tasks.concrete == Some(handle) ==> state.listener_tasks.concrete == Some(handle)
                || moves.contains(Move::InstallSasListener(handle)) || moves.contains(
                Move::InstallQrListener(handle),
            )
        }),
    decreases moves.len(),
{
    if moves.len() > 0 {
        let rest = moves.drop_first();
        lemma_held_was_installed(state.after(moves.first()), rest, handle);
        assert(moves.contains(moves[0]));
        assert forall|step: Move<D, R, S, Q, H>| #[trigger] rest.contains(step) implies
        moves.contains(step) by {
            let i = rest.index_of(step);
            assert(moves[i + 1] == step);
        }
    }
}

/// A handle that two moves install is installed at least twice.
proof fn lemma_installed_twice<D: ?Sized, R, S, Q, H>(
    moves: Seq<Move<D, R, S, Q, H>>,
    i: int,
    j: int,
    handle: H,
)
    requires
        0 <= i < moves.len(),
        0 <= j < moves.len(),
        i != j,
        moves[i].installs() == Some(handle),
        moves[j].installs() == Some(handle),
    ensures
        times(installed_by(moves), handle) >= 2,
    decreases moves.len(),
{
    let rest = moves.drop_first();
    lemma_times_in_both(slot(moves.first().installs()), installed_by(rest), handle);
    lemma_times_in_slot(moves.first().installs(), handle);
    if i == 0 {
        lemma_installed_once(rest, j - 1, handle);
    } else if j == 0 {
        lemma_installed_once(rest, i - 1, handle);
    } else {
        lemma_installed_twice(rest, i - 1, j - 1, handle);
    }
}

/// A handle that a move installs is installed at least once.
proof fn lemma_installed_once<D: ?Sized, R, S, Q, H>(
    moves: Seq<Move<D, R, S, Q, H>>,
    i: int,
    handle: H,
)
    requires
        0 <= i < moves.len(),
        moves[i].installs() == Some(handle),
    ensures
        times(installed_by(moves), handle) >= 1,
    decreases moves.len(),
{
    let rest = moves.drop_first();
    lemma_times_in_both(slot(moves.first().installs()), installed_by(rest), handle);
    lemma_times_in_slot(moves.first().installs(), handle);
    if i > 0 {
        lemma_installed_once(rest, i - 1, handle);
    }
}

/// When a controller goes away, every listener that it ever installed and that still runs is
/// aborted.
pub proof fn law_no_listener_outlives_the_controller<D: ?Sized, R, S, Q, H>(
    own_user_id: Seq<char>,
    moves: Seq<Move<D, R, S, Q, H>>,
)
    ensures
        running_after(
            ControllerView::<D, R, S, Q, H>::initial(own_user_id),
            Set::empty(),
            moves.push(Move::AbortAll),
        ) == Set::<H>::empty(),
{
    let initial = ControllerView::<D, R, S, Q, H>::initial(own_user_id);
    let all = moves.push(Move::AbortAll);
    law_no_listener_escapes(initial, Set::empty(), all);
    lemma_after_all_push(initial, moves, Move::AbortAll);
    let running = running_after(initial, Set::empty(), all);
    assert forall|handle: H| !running.contains(handle) by {
        if running.contains(handle) {
            assert(after_all(initial, all).listener_tasks.holds(handle));
        }
    }
    assert(running =~= Set::<H>::empty());
}

/// A sequence of moves ends with its last move.
proof fn lemma_after_all_push<D: ?Sized, R, S, Q, H>(
    state: ControllerView<D, R, S, Q, H>,
    moves: Seq<Move<D, R, S, Q, H>>,
    last: Move<D, R, S, Q, H>,
)
    ensures
        after_all(state, moves.push(last)) == after_all(state, moves).after(last),
    decreases moves.len(),
{
    let all = moves.push(last);
    if moves.len() == 0 {
        assert(all.drop_first() =~= Seq::empty());
        assert(all.first() == last);
        assert(after_all(state.after(last), all.drop_first()) == state.after(last));
    } else {
        assert(all.first() == moves.first());
        assert(all.drop_first() =~= moves.drop_first().push(last));
        lemma_after_all_push(state.after(moves.first()), moves.drop_first(), last);
    }
}

/// Whether some task listens to the flow.
pub open spec fn listened_to<D: ?Sized, R, S, Q, H>(
    state: ControllerView<D, R, S, Q, H>,
) -> bool {
    state.listener_tasks.request is Some || state.listener_tasks.concrete is Some
}

/// Someone always listens: once a listener has been installed, one stays installed whatever the
/// controller does, until a flow or a scan begins or the controller goes away.
pub proof fn law_someone_always_listens<D: ?Sized, R, S, Q, H>(
    state: ControllerView<D, R, S, Q, H>,
    install: Move<D, R, S, Q, H>,
    moves: Seq<Move<D, R, S, Q, H>>,
)
    requires
        install.installs() is Some,
        forall|i: int|
            0 <= i < moves.len() ==> !((#[trigger] moves[i]) is BeginFlow || moves[i] is BeginScan
                || moves[i] is AbortAll),
    ensures
        listened_to(after_all(state.after(install), moves)),
{
    lemma_listening_goes_on(state.after(install), moves);
}

/// A flow that is listened to stays so.
proof fn lemma_listening_goes_on<D: ?Sized, R, S, Q, H>(
    state: ControllerView<D, R, S, Q, H>,
    moves: Seq<Move<D, R, S, Q, H>>,
)
    requires
        listened_to(state),
        forall|i: int|
            0 <= i < moves.len() ==> !((#[trigger] moves[i]) is BeginFlow || moves[i] is BeginScan
                || moves[i] is AbortAll),
    ensures
        listened_to(after_all(state, moves)),
    decreases moves.len(),
{
    if moves.len() > 0 {
        let step = moves[0];
        assert(!(step is BeginFlow || step is BeginScan || step is AbortAll));
        assert forall|i: int| 0 <= i < moves.drop_first().len() implies !((
        #[trigger] moves.drop_first()[i]) is BeginFlow || moves.drop_first()[i] is BeginScan
            || moves.drop_first()[i] is AbortAll) by {
            assert(moves.drop_first()[i] == moves[i + 1]);
        }
        lemma_listening_goes_on(state.after(step), moves.drop_first());
    }
}

/// Terminal ownership: while somebody owns the listeners, the request listener stops by itself in
/// two cases only. Either the flow has ended, and the callback says so. Or the request turned into
/// a short auth string verification. Then a listener is spawned for that one, is installed as the
/// concrete listener before that one is accepted, and no other one is accepted; and the request
/// listener has not reported an end.
pub proof fn law_request_listener_hands_over_before_it_stops<D: ?Sized, R, S, Q, H>(
    state: ControllerView<D, R, S, Q, H>,
    change: VerificationRequestState<S, Q>,
    handle: H,
)
    ensures
        request_next(change, true) is Stop <==> (request_callback(
            change,
        ) matches Some(callback) && callback.ends_flow()),
        request_next(change, true) is SpawnSasListener <==> turns_into_sas(change),
        change matches VerificationRequestState::Transitioned {
            verification: Verification::SasV1(sas),
        } ==> {
            let seen = state.after(Move::SeeRequestChange(change));
            let handed_over = seen.after(Move::InstallSasListener(handle));
            &&& request_next(change, true) == RequestListenerNext::SpawnSasListener(sas)
            &&& request_callback(change) is None
            &&& handed_over.listener_tasks.concrete == Some(handle)
            &&& handed_over.sas_verification == Some(sas)
            &&& seen.handoff_next(sas) == HandoffNext::<S>::Stop || seen.handoff_next(sas)
                == HandoffNext::AcceptSas(sas)
        },
{
}

/// A request listener that nobody owns: when the request turns into a short auth string
/// verification, it remembers that one, says nothing, asks for no listener, accepts nothing and
/// stops. Nothing else changes. At every other change it does what it does with an owner.
pub proof fn law_ownerless_request_listener_stops<D: ?Sized, R, S, Q, H>(
    state: ControllerView<D, R, S, Q, H>,
    change: VerificationRequestState<S, Q>,
)
    ensures
        change matches VerificationRequestState::Transitioned {
            verification: Verification::SasV1(sas),
        } ==> {
            &&& request_next(change, false) == RequestListenerNext::<S>::Stop
            &&& request_callback(change) is None
            &&& state.after(Move::SeeRequestChange(change)) == (ControllerView {
                sas_verification: Some(sas),
                ..state
            })
            &&& state.aborts(Move::SeeRequestChange(change)) == Seq::<H>::empty()
        },
        !turns_into_sas(change) ==> request_next(change, false) == request_next(change, true),
{
}

/// When the request turns into a QR code verification, nothing changes: the request listener goes
/// on, says nothing, and stays installed.
pub proof fn law_qr_transition_keeps_the_request_listener<D: ?Sized, R, S, Q, H>(
    state: ControllerView<D, R, S, Q, H>,
    qr: Q,
    has_owner: bool,
)
    ensures
        ({
            let change = VerificationRequestState::<S, Q>::Transitioned {
                verification: Verification::QrV1(qr),
            };
            &&& request_next(change, has_owner) == RequestListenerNext::<S>::WaitForChange
            &&& request_callback(change) is None
            &&& state.after(Move::SeeRequestChange(change)) == state
            &&& state.aborts(Move::SeeRequestChange(change)) == Seq::<H>::empty()
        }),
{
}

/// Starting a short auth string verification installs no listener and ends none. The request
/// listener stays the only one to announce the verification.
pub proof fn law_starting_sas_leaves_the_listeners_alone<D: ?Sized, R, S, Q, H>(
    state: ControllerView<D, R, S, Q, H>,
)
    ensures
        state.after(Move::StartSas).listener_tasks == state.listener_tasks,
        state.aborts(Move::StartSas) == Seq::<H>::empty(),
        state.after(Move::GiveUpStartingSas).listener_tasks == state.listener_tasks,
        state.aborts(Move::GiveUpStartingSas) == Seq::<H>::empty(),
{
}

/// That we are starting a short auth string verification is remembered until it is taken into
/// account, given up, or a new flow begins, and no longer.
pub proof fn law_local_start_is_remembered<D: ?Sized, R, S, Q, H>(
    state: ControllerView<D, R, S, Q, H>,
    step: Move<D, R, S, Q, H>,
)
    ensures
        state.after(step).locally_starting_sas <==> step is StartSas || (state.locally_starting_sas
            && !(step is GiveUpStartingSas || step is InstallSasListener || step is BeginFlow)),
{
}

/// A short auth string verification that we started is announced and never accepted by us; the
/// next one, which we did not start, is accepted.
pub proof fn law_only_foreign_sas_is_accepted<D: ?Sized, R, S, Q, H>(
    state: ControllerView<D, R, S, Q, H>,
    moves: Seq<Move<D, R, S, Q, H>>,
    ours: S,
    handle: H,
    later: Seq<Move<D, R, S, Q, H>>,
    theirs: S,
)
    requires
        forall|i: int|
            0 <= i < moves.len() ==> !((#[trigger] moves[i]) is GiveUpStartingSas
                || moves[i] is InstallSasListener || moves[i] is BeginFlow),
        forall|i: int| 0 <= i < later.len() ==> !((#[trigger] later[i]) is StartSas),
    ensures
        ({
            let seen = after_all(state.after(Move::StartSas), moves);
            let installed = seen.after(Move::InstallSasListener(handle));
            &&& seen.handoff_next(ours) == HandoffNext::<S>::Stop
            &&& seen.handoff_callback() == Some(CallbackView::DidStartSasVerification)
            &&& after_all(installed, later).handoff_next(theirs) == HandoffNext::AcceptSas(theirs)
            &&& after_all(installed, later).handoff_callback() is None
        }),
{
    lemma_local_start_kept(state.after(Move::StartSas), moves);
    let installed = after_all(state.after(Move::StartSas), moves).after(
        Move::InstallSasListener(handle),
    );
    lemma_no_local_start(installed, later);
}

/// A local start that nothing takes into account stays.
proof fn lemma_local_start_kept<D: ?Sized, R, S, Q, H>(
    state: ControllerView<D, R, S, Q, H>,
    moves: Seq<Move<D, R, S, Q, H>>,
)
    requires
        state.locally_starting_sas,
        forall|i: int|
            0 <= i < moves.len() ==> !((#[trigger] moves[i]) is GiveUpStartingSas
                || moves[i] is InstallSasListener || moves[i] is BeginFlow),
    ensures
        after_all(state, moves).locally_starting_sas,
    decreases moves.len(),
{
    if moves.len() > 0 {
        let rest = moves.drop_first();
        assert(!(moves[0] is GiveUpStartingSas || moves[0] is InstallSasListener
            || moves[0] is BeginFlow));
        assert forall|i: int| 0 <= i < rest.len() implies !((#[trigger] rest[i])
            is GiveUpStartingSas || rest[i] is InstallSasListener || rest[i] is BeginFlow) by {
            assert(rest[i] == moves[i + 1]);
        }
        lemma_local_start_kept(state.after(moves[0]), rest);
    }
}

/// Without a start there is no local start.
proof fn lemma_no_local_start<D: ?Sized, R, S, Q, H>(
    state: ControllerView<D, R, S, Q, H>,
    moves: Seq<Move<D, R, S, Q, H>>,
)
    requires
        !state.locally_starting_sas,
        forall|i: int| 0 <= i < moves.len() ==> !((#[trigger] moves[i]) is StartSas),
    ensures
        !after_all(state, moves).locally_starting_sas,
    decreases moves.len(),
{
    if moves.len() > 0 {
        let rest = moves.drop_first();
        assert(!(moves[0] is StartSas));
        assert forall|i: int| 0 <= i < rest.len() implies !((#[trigger] rest[i]) is StartSas) by {
            assert(rest[i] == moves[i + 1]);
        }
        lemma_no_local_start(state.after(moves[0]), rest);
    }
}

/// A new QR code verification takes over alone: when it has been shown, its listener is the only
/// one, and every other listener has been aborted.
pub proof fn law_shown_qr_takes_over<D: ?Sized, R, S, Q, H>(
    state: ControllerView<D, R, S, Q, H>,
    qr: Q,
    listener: H,
)
    ensures
        ({
            let adopted = state.after(Move::AdoptQr(qr));
            let shown = adopted.after(Move::InstallQrListener(listener));
            &&& adopted.listener_tasks == state.listener_tasks
            &&& shown.qr_verification == Some(qr)
            &&& shown.listener_tasks.handles() == seq![listener]
            &&& adopted.aborts(Move::InstallQrListener(listener)).to_multiset()
                == state.listener_tasks.handles().to_multiset()
        }),
{
    broadcast use vstd::seq_lib::group_to_multiset_ensures;

    let tasks = state.listener_tasks;
    assert(slot(Some(listener)) + seq![] =~= seq![listener]);
    assert(Seq::<H>::empty() + slot(Some(listener)) =~= seq![listener]);
    vstd::seq_lib::lemma_multiset_commutative(slot(tasks.request), slot(tasks.concrete));
    vstd::seq_lib::lemma_multiset_commutative(slot(tasks.concrete), slot(tasks.request));
    assert((slot(tasks.request) + slot(tasks.concrete)).to_multiset() =~= (slot(tasks.concrete)
        + slot(tasks.request)).to_multiset());
}

/// When the data of a scan is released, which is when its request listener is installed, that
/// listener is the only one, every listener from before is aborted and no QR code verification is
/// ongoing; so that listener reports the end of the flow if scanning fails. After its success the
/// listener of the new QR code verification is the only one.
pub proof fn law_scan_leaves_one_listener<D: ?Sized, R, S, Q, H>(
    state: ControllerView<D, R, S, Q, H>,
    fallback: H,
    qr: Q,
    listener: H,
)
    ensures
        ({
            let scanning = state.after(Move::BeginScan).after(
                Move::InstallRequestListener(fallback),
            );
            let scanned = scanning.after(Move::AdoptQr(qr)).after(
                Move::InstallQrListener(listener),
            );
            &&& state.aborts(Move::BeginScan) == slot(state.listener_tasks.concrete)
            &&& state.after(Move::BeginScan).aborts(Move::InstallRequestListener(fallback)) == slot(
                state.listener_tasks.request,
            )
            &&& scanning.verification_request == state.verification_request
            &&& scanning.qr_verification is None
            &&& scanning.listener_tasks.handles() == seq![fallback]
            &&& scanned.qr_verification == Some(qr)
            &&& scanned.listener_tasks.handles() == seq![listener]
            &&& scanning.after(Move::AdoptQr(qr)).aborts(Move::InstallQrListener(listener))
                == seq![fallback]
        }),
{
    assert(seq![fallback] + Seq::<H>::empty() =~= seq![fallback]);
    assert(Seq::<H>::empty() + seq![listener] =~= seq![listener]);
    assert(Seq::<H>::empty() + seq![fallback] =~= seq![fallback]);
}

/// A flow that has begun and is still ongoing is not replaced: asked to begin another one, the
/// controller refuses and stays as it is.
pub proof fn law_ongoing_flow_is_not_replaced<D: ?Sized, R, S, Q, H>(
    before: ControllerView<D, R, S, Q, H>,
    request: R,
    status_before: FlowStatus,
    begun: Result<Handover<H>, ClientError>,
    between: ControllerView<D, R, S, Q, H>,
    moves: Seq<Move<D, R, S, Q, H>>,
    other: R,
    status: FlowStatus,
    result: Result<Handover<H>, ClientError>,
    after: ControllerView<D, R, S, Q, H>,
)
    requires
        before.begins_flow(between, request, status_before, begun),
        begun is Ok,
        status.is_ongoing(),
        after_all(between, moves).begins_flow(after, other, status, result),
    ensures
        result is Err,
        after == after_all(between, moves),
{
    lemma_request_stays(between, moves);
}

/// A controller that has a request keeps having one.
proof fn lemma_request_stays<D: ?Sized, R, S, Q, H>(
    state: ControllerView<D, R, S, Q, H>,
    moves: Seq<Move<D, R, S, Q, H>>,
)
    requires
        state.verification_request is Some,
    ensures
        after_all(state, moves).verification_request is Some,
    decreases moves.len(),
{
    if moves.len() > 0 {
        lemma_request_stays(state.after(moves.first()), moves.drop_first());
    }
}

/// A delegate that has been detached hears nothing any more, whatever the controller does, until
/// a delegate is attached.
pub proof fn law_detached_delegate_hears_nothing<D: ?Sized, R, S, Q, H>(
    state: ControllerView<D, R, S, Q, H>,
    moves: Seq<Move<D, R, S, Q, H>>,
    callback: Option<CallbackView>,
)
    requires
        forall|i: int| 0 <= i < moves.len() ==> !((#[trigger] moves[i]) is SetDelegate),
    ensures
        delivery_due(
            after_all(state.after(Move::SetDelegate(None)), moves).delegate,
            callback,
        ) is None,
{
    lemma_delegate_stays(state.after(Move::SetDelegate(None)), moves);
}

/// An attached delegate hears every callback, whatever the controller has done since, until
/// another delegate is attached.
pub proof fn law_attached_delegate_hears_everything<D: ?Sized, R, S, Q, H>(
    state: ControllerView<D, R, S, Q, H>,
    delegate: std::sync::Arc<D>,
    moves: Seq<Move<D, R, S, Q, H>>,
    callback: CallbackView,
)
    requires
        forall|i: int| 0 <= i < moves.len() ==> !((#[trigger] moves[i]) is SetDelegate),
    ensures
        delivery_due(
            after_all(state.after(Move::SetDelegate(Some(delegate))), moves).delegate,
            Some(callback),
        ) == Some(DeliveryView { delegate, callback }),
{
    lemma_delegate_stays(state.after(Move::SetDelegate(Some(delegate))), moves);
}

/// Nothing but attaching or detaching changes the delegate.
proof fn lemma_delegate_stays<D: ?Sized, R, S, Q, H>(
    state: ControllerView<D, R, S, Q, H>,
    moves: Seq<Move<D, R, S, Q, H>>,
)
    requires
        forall|i: int| 0 <= i < moves.len() ==> !((#[trigger] moves[i]) is SetDelegate),
    ensures
        after_all(state, moves).delegate == state.delegate,
    decreases moves.len(),
{
    if moves.len() > 0 {
        let rest = moves.drop_first();
        assert(!(moves[0] is SetDelegate));
        assert forall|i: int|
            0 <= i < rest.len() implies !((#[trigger] rest[i]) is SetDelegate) by {
            assert(rest[i] == moves[i + 1]);
        }
        lemma_delegate_stays(state.after(moves[0]), rest);
    }
}

/// Whether a callback says that the flow has ended.
pub open spec fn reports_end(callback: Option<CallbackView>) -> bool {
    callback matches Some(callback) && callback.ends_flow()
}

/// What a listener reports of a sequence of changes: `callback` gives what it says about a change,
/// `goes_on` whether it then waits for the next one.
pub open spec fn reported<C>(
    changes: Seq<C>,
    callback: spec_fn(C) -> Option<CallbackView>,
    goes_on: spec_fn(C) -> bool,
) -> Seq<CallbackView>
    decreases changes.len(),
{
    if changes.len() == 0 {
        seq![]
    } else if goes_on(changes.first()) {
        slot(callback(changes.first())) + reported(changes.drop_first(), callback, goes_on)
    } else {
        slot(callback(changes.first()))
    }
}

/// Whether a listener meets the end of the flow in a sequence of changes: it does if it gets to a
/// change that it reports as the end.
pub open spec fn meets_end<C>(
    changes: Seq<C>,
    callback: spec_fn(C) -> Option<CallbackView>,
    goes_on: spec_fn(C) -> bool,
) -> bool {
    exists|i: int|
        0 <= i < changes.len() && reports_end(callback(#[trigger] changes[i])) && forall|j: int|
            0 <= j < i ==> goes_on(#[trigger] changes[j])
}

/// Whether the end of the flow is reported at most once and as the last thing, and is reported
/// exactly if `met` says so.
pub open spec fn end_reported_once(reports: Seq<CallbackView>, met: bool) -> bool {
    &&& forall|i: int|
        0 <= i < reports.len() && (#[trigger] reports[i]).ends_flow() ==> i == reports.len() - 1
    &&& met <==> reports.len() > 0 && reports.last().ends_flow()
}

/// What the listener of a short auth string verification reports of a sequence of changes.
pub open spec fn sas_reported(changes: Seq<SasState>) -> Seq<CallbackView> {
    reported(changes, sas_callbacks(), sas_goes_on())
}

/// What that listener says about a change.
pub open spec fn sas_callbacks() -> spec_fn(SasState) -> Option<CallbackView> {
    |change: SasState| sas_callback(change)
}

/// Whether that listener waits for the next change.
pub open spec fn sas_goes_on() -> spec_fn(SasState) -> bool {
    |change: SasState| sas_next(change) == ListenerNext::WaitForChange
}

/// What the listener of a QR code verification reports of a sequence of changes.
pub open spec fn qr_reported(changes: Seq<QrVerificationState>) -> Seq<CallbackView> {
    reported(changes, qr_callbacks(), qr_goes_on())
}

/// What that listener says about a change.
pub open spec fn qr_callbacks() -> spec_fn(QrVerificationState) -> Option<CallbackView> {
    |change: QrVerificationState| qr_callback(change)
}

/// Whether that listener waits for the next change.
pub open spec fn qr_goes_on() -> spec_fn(QrVerificationState) -> bool {
    |change: QrVerificationState| qr_next(change) == ListenerNext::WaitForChange
}

/// What the request listener reports of a sequence of changes, before it hands the flow over.
pub open spec fn request_reported<S, Q>(changes: Seq<VerificationRequestState<S, Q>>) -> Seq<
    CallbackView,
> {
    reported(changes, request_callbacks::<S, Q>(), request_goes_on::<S, Q>())
}

/// What that listener says about a change.
pub open spec fn request_callbacks<S, Q>() -> spec_fn(VerificationRequestState<S, Q>) -> Option<
    CallbackView,
> {
    |change: VerificationRequestState<S, Q>| request_callback(change)
}

/// Whether that listener waits for the next change. This does not depend on whether somebody owns
/// the listeners.
pub open spec fn request_goes_on<S, Q>() -> spec_fn(VerificationRequestState<S, Q>) -> bool {
    |change: VerificationRequestState<S, Q>|
        request_next(change, true) == RequestListenerNext::<S>::WaitForChange
}

/// The listener of a short auth string verification reports the end of the flow once, as the last
/// thing it reports, and exactly if the verification is done or cancelled.
pub proof fn law_sas_listener_reports_the_end_once(changes: Seq<SasState>)
    ensures
        end_reported_once(
            sas_reported(changes),
            exists|i: int|
                0 <= i < changes.len() && ((#[trigger] changes[i]) is Done
                    || changes[i] is Cancelled),
        ),
{
    lemma_end_reported_once(changes, sas_callbacks(), sas_goes_on());
    if exists|i: int|
        0 <= i < changes.len() && ((#[trigger] changes[i]) is Done || changes[i] is Cancelled) {
        let ended = |change: SasState| change is Done || change is Cancelled;
        let i = choose|i: int|
            0 <= i < changes.len() && ((#[trigger] changes[i]) is Done || changes[i] is Cancelled);
        assert(ended(changes[i]));
        let first = lemma_first(changes, ended, i);
        assert forall|j: int| 0 <= j < first implies sas_goes_on()(#[trigger] changes[j]) by {
            assert(!ended(changes[j]));
        }
        assert(reports_end(sas_callbacks()(changes[first])));
    }
}

/// The listener of a QR code verification reports the end of the flow once, as the last thing it
/// reports, and exactly if the verification is done or cancelled.
pub proof fn law_qr_listener_reports_the_end_once(changes: Seq<QrVerificationState>)
    ensures
        end_reported_once(
            qr_reported(changes),
            exists|i: int|
                0 <= i < changes.len() && ((#[trigger] changes[i]) is Done
                    || changes[i] is Cancelled),
        ),
{
    lemma_end_reported_once(changes, qr_callbacks(), qr_goes_on());
    if exists|i: int|
        0 <= i < changes.len() && ((#[trigger] changes[i]) is Done || changes[i] is Cancelled) {
        let ended = |change: QrVerificationState| change is Done || change is Cancelled;
        let i = choose|i: int|
            0 <= i < changes.len() && ((#[trigger] changes[i]) is Done || changes[i] is Cancelled);
        assert(ended(changes[i]));
        let first = lemma_first(changes, ended, i);
        assert forall|j: int| 0 <= j < first implies qr_goes_on()(#[trigger] changes[j]) by {
            assert(!ended(changes[j]));
        }
        assert(reports_end(qr_callbacks()(changes[first])));
    }
}

/// Whether the request is done or cancelled at this change, and has not turned into a short auth
/// string verification before.
pub open spec fn ends_unhanded<S, Q>(changes: Seq<VerificationRequestState<S, Q>>, i: int) -> bool {
    &&& 0 <= i < changes.len()
    &&& changes[i] is Done || changes[i] is Cancelled
    &&& forall|j: int| 0 <= j < i ==> !turns_into_sas(#[trigger] changes[j])
}

/// The request listener reports the end of the flow at most once, as the last thing it reports,
/// and exactly if the request is done or cancelled before it turns into a short auth string
/// verification. From then on the end is reported by the listener of that one.
pub proof fn law_request_listener_reports_the_end_once<S, Q>(
    changes: Seq<VerificationRequestState<S, Q>>,
)
    ensures
        end_reported_once(
            request_reported(changes),
            exists|i: int| #[trigger] ends_unhanded(changes, i),
        ),
{
    let callback = request_callbacks::<S, Q>();
    let goes_on = request_goes_on::<S, Q>();
    lemma_end_reported_once(changes, callback, goes_on);
    if exists|i: int| #[trigger] ends_unhanded(changes, i) {
        lemma_unhanded_end_is_met(changes, choose|i: int| #[trigger] ends_unhanded(changes, i));
    }
    if meets_end(changes, callback, goes_on) {
        let i = choose|i: int|
            0 <= i < changes.len() && reports_end(callback(#[trigger] changes[i])) && forall|j: int|
                0 <= j < i ==> goes_on(#[trigger] changes[j]);
        assert forall|j: int| 0 <= j < i implies !turns_into_sas(#[trigger] changes[j]) by {
            assert(goes_on(changes[j]));
        }
        assert(ends_unhanded(changes, i));
    }
}

/// An end before the handover is met by the request listener.
proof fn lemma_unhanded_end_is_met<S, Q>(changes: Seq<VerificationRequestState<S, Q>>, i: int)
    requires
        ends_unhanded(changes, i),
    ensures
        meets_end(changes, request_callbacks::<S, Q>(), request_goes_on::<S, Q>()),
{
    let ended = |change: VerificationRequestState<S, Q>| change is Done || change is Cancelled;
    assert(ended(changes[i]));
    let first = lemma_first(changes, ended, i);
    assert forall|j: int| 0 <= j < first implies request_goes_on::<S, Q>()(
        #[trigger] changes[j],
    ) by {
        assert(!ended(changes[j]));
    }
    assert(reports_end(request_callbacks::<S, Q>()(changes[first])));
}

/// A property that some item has is had by a first one.
proof fn lemma_first<C>(items: Seq<C>, property: spec_fn(C) -> bool, i: int) -> (first: int)
    requires
        0 <= i < items.len(),
        property(items[i]),
    ensures
        0 <= first <= i,
        property(items[first]),
        forall|j: int| 0 <= j < first ==> !property(#[trigger] items[j]),
    decreases i,
{
    if exists|j: int| 0 <= j < i && property(#[trigger] items[j]) {
        let j = choose|j: int| 0 <= j < i && property(#[trigger] items[j]);
        lemma_first(items, property, j)
    } else {
        i
    }
}

/// A listener that stops at what it reports as the end reports the end once.
proof fn lemma_end_reported_once<C>(
    changes: Seq<C>,
    callback: spec_fn(C) -> Option<CallbackView>,
    goes_on: spec_fn(C) -> bool,
)
    requires
        forall|change: C| reports_end(#[trigger] callback(change)) ==> !goes_on(change),
    ensures
        end_reported_once(
            reported(changes, callback, goes_on),
            meets_end(changes, callback, goes_on),
        ),
    decreases changes.len(),
{
    let reports = reported(changes, callback, goes_on);
    if changes.len() > 0 {
        let first = changes.first();
        let rest = changes.drop_first();
        if goes_on(first) {
            lemma_end_reported_once(rest, callback, goes_on);
            let later = reported(rest, callback, goes_on);
            assert(!reports_end(callback(first)));
            let offset = slot(callback(first)).len() as int;
            assert(reports == slot(callback(first)) + later);
            assert forall|i: int|
                0 <= i < reports.len() && (#[trigger] reports[i]).ends_flow() implies i
                == reports.len() - 1 by {
                if i >= offset {
                    assert(reports[i] == later[i - offset]);
                }
            }
            if meets_end(changes, callback, goes_on) {
                let i = choose|i: int|
                    0 <= i < changes.len() && reports_end(callback(#[trigger] changes[i]))
                        && forall|j: int| 0 <= j < i ==> goes_on(#[trigger] changes[j]);
                assert(i > 0);
                assert(rest[i - 1] == changes[i]);
                assert forall|j: int| 0 <= j < i - 1 implies goes_on(#[trigger] rest[j]) by {
                    assert(rest[j] == changes[j + 1]);
                }
                assert(meets_end(rest, callback, goes_on));
            }
            if meets_end(rest, callback, goes_on) {
                let i = choose|i: int|
                    0 <= i < rest.len() && reports_end(callback(#[trigger] rest[i])) && forall|
                        j: int,
                    |
                        0 <= j < i ==> goes_on(#[trigger] rest[j]);
                assert(changes[i + 1] == rest[i]);
                assert forall|j: int| 0 <= j < i + 1 implies goes_on(#[trigger] changes[j]) by {
                    if j > 0 {
                        assert(changes[j] == rest[j - 1]);
                    }
                }
                assert(meets_end(changes, callback, goes_on));
                assert(reports.last() == later.last());
            }
            if reports.len() > 0 && reports.last().ends_flow() {
                if later.len() > 0 {
                    assert(reports.last() == later.last());
                }
            }
        } else {
            assert(reports == slot(callback(first)));
            if reports_end(callback(first)) {
                assert(changes[0] == first);
                assert(meets_end(changes, callback, goes_on));
            } else if meets_end(changes, callback, goes_on) {
                let i = choose|i: int|
                    0 <= i < changes.len() && reports_end(callback(#[trigger] changes[i]))
                        && forall|j: int| 0 <= j < i ==> goes_on(#[trigger] changes[j]);
                assert(i > 0);
                assert(goes_on(changes[0]));
            }
        }
    }
}

/// What becomes of an incoming request, given what there is to find out about it: what the
/// delegate hears, or why the request is ignored. `is_complete` is the status of our
/// cross-signing.
pub open spec fn incoming_outcome<S, Q>(
    own_user_id: Seq<char>,
    incoming: RequestLookUp,
    is_complete: Option<bool>,
    found: Option<FoundRequest<S, Q>>,
    profile: Result<UserProfile, ClientError>,
) -> Result<CallbackView, Ignored> {
    let looked_up = match first_call(own_user_id, incoming) {
        IncomingCall::CrossSigningStatus { then } => after_cross_signing(then, is_complete),
        IncomingCall::VerificationRequest(look_up) => Ok(look_up),
    };
    match looked_up {
        Ok(look_up) => match pending_request(look_up.sender_id, found) {
            Ok(pending) => incoming_callback(pending, profile),
            Err(reason) => Err(reason),
        },
        Err(reason) => Err(reason),
    }
}

/// The delegate hears about an incoming request exactly if all of these hold: the sender is
/// ourselves or our cross-signing is not known to be incomplete, the request is known, it is in
/// the requested state, and the profile of the sender can be fetched. It then hears who sent it,
/// from which device, and in which flow. Else the first of these that fails is the reason why the
/// request is ignored.
pub proof fn law_incoming_request_reaches_the_delegate<S, Q>(
    own_user_id: Seq<char>,
    incoming: RequestLookUp,
    is_complete: Option<bool>,
    found: Option<FoundRequest<S, Q>>,
    profile: Result<UserProfile, ClientError>,
)
    ensures
        ({
            let outcome = incoming_outcome(own_user_id, incoming, is_complete, found, profile);
            let trusted = incoming.sender_id@ == own_user_id || is_complete != Some(false);
            let requested = found is Some && found->0.state is Requested;
            &&& outcome is Ok <==> trusted && requested && profile is Ok
            &&& outcome is Ok ==> {
                let details = outcome->Ok_0->details;
                let device = found->0.state->other_device_data;
                &&& outcome->Ok_0 is DidReceiveVerificationRequest
                &&& details == SessionVerificationRequestDetails::of_request(
                    profile->Ok_0,
                    found->0.flow_id,
                    device,
                )
                &&& details.sender_profile == profile->Ok_0
                &&& details.flow_id == found->0.flow_id
                &&& details.device_id == device.device_id
                &&& details.device_display_name == device.display_name
                &&& details.first_seen_timestamp == device.first_time_seen_ts
            }
            &&& outcome == Err::<CallbackView, Ignored>(Ignored::CrossSigningIncomplete)
                <==> !trusted
            &&& outcome == Err::<CallbackView, Ignored>(Ignored::UnknownRequest) <==> trusted
                && found is None
            &&& outcome == Err::<CallbackView, Ignored>(Ignored::WrongState) <==> trusted
                && found is Some && !requested
            &&& outcome == Err::<CallbackView, Ignored>(Ignored::UnknownProfile) <==> trusted
                && requested && profile is Err
        }),
{
}

/// Our own requests never depend on the status of our cross-signing.
pub proof fn law_own_requests_need_no_cross_signing<S, Q>(
    incoming: RequestLookUp,
    one: Option<bool>,
    other: Option<bool>,
    found: Option<FoundRequest<S, Q>>,
    profile: Result<UserProfile, ClientError>,
)
    ensures
        first_call(incoming.sender_id@, incoming) is VerificationRequest,
        incoming_outcome(incoming.sender_id@, incoming, one, found, profile) == incoming_outcome(
            incoming.sender_id@,
            incoming,
            other,
            found,
            profile,
        ),
{
}

} // verus!
