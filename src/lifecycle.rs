use vstd::prelude::*;
use crate::fault::Fault;
use crate::schema::{is_well_formed_json, validation_outcome};
use crate::session::{initial, next, pending_action, rank, Action, Event, Phase, SessionModel};

verus! {

/// The state of a fresh session once its driver has given the answers
/// `evs`, in order (leaving aside the validator's diagnosis text, which
/// `Session::step` states on its own).
pub open spec fn run(evs: Seq<Event>) -> SessionModel
    decreases evs.len(),
{
    if evs.len() == 0 {
        initial()
    } else {
        let before = run(evs.drop_last());
        next(before, evs.last())
    }
}

/// The state before the answer `evs[k]`.
pub open spec fn state_at(evs: Seq<Event>, k: int) -> SessionModel {
    run(evs.take(k))
}

/// The requests that the answers `evs` answer, one for one.
pub open spec fn requests(evs: Seq<Event>) -> Seq<Action> {
    Seq::new(evs.len(), |k: int| pending_action(state_at(evs, k)))
}

/// The answer `evs[i]` delivered the payload `p` to a capturing session.
pub open spec fn delivered_at(evs: Seq<Event>, i: int, p: Seq<char>) -> bool {
    &&& state_at(evs, i).phase == Phase::Capturing
    &&& evs[i] matches Event::Delivered { payload, .. } && payload@ == p
}

/// The answer `evs[i]` confirmed the erasure at rest.
pub open spec fn erased_at(evs: Seq<Event>, i: int) -> bool {
    state_at(evs, i).phase == Phase::Erasing && evs[i] is Done
}

/// The answer `evs[i]` confirmed the output.
pub open spec fn emitted_at(evs: Seq<Event>, i: int) -> bool {
    state_at(evs, i).phase == Phase::Emitting && evs[i] is Done
}

proof fn lemma_step(evs: Seq<Event>, k: int)
    requires
        0 <= k < evs.len(),
    ensures
        state_at(evs, k + 1) == next(
            state_at(evs, k),
            evs[k],
        ),
{
    let t = evs.take(k + 1);
    assert(t.drop_last() =~= evs.take(k));
    assert(t.last() == evs[k]);
}

proof fn lemma_whole(evs: Seq<Event>)
    ensures
        state_at(evs, evs.len() as int) == run(evs),
{
    assert(evs.take(evs.len() as int) =~= evs);
}

proof fn lemma_next_rank(s: SessionModel, ev: Event)
    ensures
        rank(next(s, ev).phase) >= rank(s.phase),
        s.phase != Phase::Terminal ==> rank(next(s, ev).phase) > rank(s.phase),
        s.phase != Phase::Cleanup && s.phase != Phase::Terminal ==> next(s, ev).phase != Phase::Terminal,
{
}

proof fn lemma_monotone(evs: Seq<Event>, i: int, j: int)
    requires
        0 <= i <= j <= evs.len(),
    ensures
        rank(state_at(evs, i).phase) <= rank(state_at(evs, j).phase),
    decreases j - i,
{
    if i < j {
        lemma_monotone(evs, i, j - 1);
        lemma_step(evs, j - 1);
        let s = state_at(evs, j - 1);
        lemma_next_rank(s, evs[j - 1]);
    }
}

proof fn lemma_progress(evs: Seq<Event>, k: int)
    requires
        0 <= k <= evs.len(),
    ensures
        rank(state_at(evs, k).phase) >= if k < 5 { k } else { 5 },
    decreases k,
{
    if k > 0 {
        lemma_progress(evs, k - 1);
        lemma_step(evs, k - 1);
        let s = state_at(evs, k - 1);
        lemma_next_rank(s, evs[k - 1]);
    }
}

/// A payload is delivered at most once in a run.
proof fn lemma_single_capture(
    evs: Seq<Event>,
    i: int,
    k: int,
    p: Seq<char>,
    q: Seq<char>,
)
    requires
        0 <= i < evs.len(),
        0 <= k < evs.len(),
        delivered_at(evs, i, p),
        delivered_at(evs, k, q),
    ensures
        i == k,
        p == q,
{
    if i < k {
        lemma_step(evs, i);
        lemma_monotone(evs, i + 1, k);
    } else if k < i {
        lemma_step(evs, k);
        lemma_monotone(evs, k + 1, i);
    }
}

/// What holds of the state before the answer `evs[k]`.
spec fn holds_at(evs: Seq<Event>, k: int) -> bool {
    let s = state_at(evs, k);
    &&& rank(s.phase) <= 1 || rank(s.phase) >= 4 ==> s.payload.len() == 0
    &&& rank(s.phase) <= 3 ==> s.fault is None && !s.emitted
    &&& s.emitted ==> s.fault is None
    &&& (s.phase == Phase::Erasing || s.phase == Phase::Emitting) ==> exists|i: int|
        0 <= i < k && #[trigger] delivered_at(evs, i, s.payload)
    &&& s.phase == Phase::Emitting ==> validation_outcome(s.payload) is Ok
    &&& (s.phase == Phase::Emitting || s.emitted || s.fault == Some(Fault::Parse) || s.fault
        == Some(Fault::Validation)) ==> exists|i: int| 0 <= i < k && #[trigger] erased_at(evs, i)
    &&& (rank(s.phase) >= 4 && s.fault is None) ==> exists|j: int|
        0 <= j < k && #[trigger] emitted_at(evs, j)
}

proof fn lemma_holds_at(evs: Seq<Event>, k: int)
    requires
        0 <= k <= evs.len(),
    ensures
        holds_at(evs, k),
    decreases k,
{
    if k == 0 {
        assert(evs.take(0) =~= Seq::<Event>::empty());
    } else {
        lemma_holds_at(evs, k - 1);
        lemma_step(evs, k - 1);
        let s = state_at(evs, k - 1);
        let t = state_at(evs, k);
        let ev = evs[k - 1];
        if t.phase == Phase::Erasing || t.phase == Phase::Emitting {
            if s.phase == Phase::Capturing {
                assert(delivered_at(evs, k - 1, t.payload));
            } else {
                let i = choose|i: int| 0 <= i < k - 1 && #[trigger] delivered_at(evs, i, s.payload);
                assert(delivered_at(evs, i, t.payload));
            }
        }
        if t.phase == Phase::Emitting || t.emitted || t.fault == Some(Fault::Parse) || t.fault
            == Some(Fault::Validation) {
            if s.phase == Phase::Erasing && ev is Done {
                assert(erased_at(evs, k - 1));
            } else {
                let i = choose|i: int| 0 <= i < k - 1 && #[trigger] erased_at(evs, i);
                assert(erased_at(evs, i));
            }
        }
        if rank(t.phase) >= 4 && t.fault is None {
            if s.phase == Phase::Emitting {
                assert(emitted_at(evs, k - 1));
            } else {
                let j = choose|j: int| 0 <= j < k - 1 && #[trigger] emitted_at(evs, j);
                assert(emitted_at(evs, j));
            }
        }
    }
}

/// Every session ends: whatever the answers, five of them bring it to its
/// terminal phase, through cleanup.
pub proof fn lemma_every_session_ends(evs: Seq<Event>)
    requires
        evs.len() >= 5,
    ensures
        run(evs).phase == Phase::Terminal,
{
    lemma_progress(evs, evs.len() as int);
    lemma_whole(evs);
}

/// The channel never outlives the invocation: every session that ends asked
/// for the channel's removal, and never asked to create a channel after that.
pub proof fn lemma_channel_removed_on_every_path(evs: Seq<Event>)
    ensures
        run(evs).phase == Phase::Terminal ==> exists|i: int|
            0 <= i < evs.len() && requests(evs)[i] == Action::RemoveChannel && (forall|j: int|
                0 <= j < evs.len() && #[trigger] requests(evs)[j] == Action::CreateChannel
                    ==> j < i),
{
    lemma_whole(evs);
    if run(evs).phase == Phase::Terminal {
        let i = find_cleanup(evs, 0);
        assert(requests(evs)[i] == Action::RemoveChannel);
        assert forall|j: int|
            0 <= j < evs.len() && #[trigger] requests(evs)[j] == Action::CreateChannel implies j < i by {
            if j >= i {
                lemma_monotone(evs, i, j);
            }
        }
    }
}

/// Finds the answer that a session in cleanup received, given that the
/// session is not over before `evs[k]` and is over at the end.
proof fn find_cleanup(evs: Seq<Event>, k: int) -> (i: int)
    requires
        0 <= k < evs.len(),
        state_at(evs, k).phase != Phase::Terminal,
        state_at(evs, evs.len() as int).phase == Phase::Terminal,
    ensures
        k <= i < evs.len(),
        state_at(evs, i).phase == Phase::Cleanup,
    decreases evs.len() - k,
{
    let s = state_at(evs, k);
    if s.phase == Phase::Cleanup {
        k
    } else {
        lemma_step(evs, k);
        lemma_next_rank(s, evs[k]);
        find_cleanup(evs, k + 1)
    }
}

/// The file that held the payload is erased before anything is decided on
/// its content: the request that follows a delivery is the erasure of as
/// many bytes as the file holds at rest, and no verdict of the validator and
/// no output comes before an erasure was confirmed.
pub proof fn lemma_erased_before_verdict(evs: Seq<Event>)
    ensures
        forall|k: int|
            0 <= k && k + 1 < evs.len() && requests(evs)[k] == Action::Receive
                ==> (#[trigger] evs[k] matches Event::Delivered { on_disk_len, .. }
                ==> requests(evs)[k + 1] == Action::EraseAtRest(on_disk_len)),
        forall|k: int|
            0 <= k <= evs.len() && ({
                let s = #[trigger] state_at(evs, k);
                s.phase == Phase::Emitting || s.fault == Some(Fault::Parse) || s.fault == Some(
                    Fault::Validation,
                )
            }) ==> exists|i: int|
                0 <= i < k && requests(evs)[i] is EraseAtRest && #[trigger] evs[i] is Done,
{
    assert forall|k: int|
        0 <= k && k + 1 < evs.len() && requests(evs)[k] == Action::Receive implies (
        #[trigger] evs[k] matches Event::Delivered { on_disk_len, .. }
        ==> requests(evs)[k + 1] == Action::EraseAtRest(on_disk_len)) by {
        lemma_step(evs, k);
    }
    assert forall|k: int|
        0 <= k <= evs.len() && ({
            let s = #[trigger] state_at(evs, k);
            s.phase == Phase::Emitting || s.fault == Some(Fault::Parse) || s.fault == Some(
                Fault::Validation,
            )
        }) implies exists|i: int|
            0 <= i < k && requests(evs)[i] is EraseAtRest && #[trigger] evs[i] is Done by {
        lemma_holds_at(evs, k);
        let i = choose|i: int| 0 <= i < k && #[trigger] erased_at(evs, i);
        assert(requests(evs)[i] is EraseAtRest && evs[i] is Done);
    }
}

/// What is written out is what was delivered: whenever a session asks for
/// output, the payload it holds is the text of the delivery it captured, and
/// that text is JSON that the schema accepted.
pub proof fn lemma_output_is_delivered_payload(evs: Seq<Event>)
    ensures
        forall|k: int|
            0 <= k < evs.len() && #[trigger] requests(evs)[k] == Action::Emit ==> exists|i: int|
                0 <= i < k && requests(evs)[i] == Action::Receive && (
                #[trigger] evs[i] matches Event::Delivered { payload, .. } && payload@ == state_at(evs,
                    k,
                ).payload && validation_outcome(payload@) is Ok),
{
    assert forall|k: int|
        0 <= k < evs.len() && #[trigger] requests(evs)[k] == Action::Emit implies exists|i: int|
            0 <= i < k && requests(evs)[i] == Action::Receive && (
            #[trigger] evs[i] matches Event::Delivered { payload, .. } && payload@ == state_at(evs,
                k,
            ).payload && validation_outcome(payload@) is Ok) by {
        lemma_holds_at(evs, k);
        let s = state_at(evs, k);
        let i = choose|i: int| 0 <= i < k && #[trigger] delivered_at(evs, i, s.payload);
        assert(requests(evs)[i] == Action::Receive);
    }
}

/// The payload is wiped on every path: once a session is in cleanup or
/// over, it holds no text, whether it succeeded or failed.
pub proof fn lemma_memory_wiped_on_every_path(evs: Seq<Event>)
    ensures
        run(evs).phase == Phase::Cleanup || run(evs).phase == Phase::Terminal
            ==> run(evs).payload.len() == 0,
{
    lemma_holds_at(evs, evs.len() as int);
    lemma_whole(evs);
}

/// Text that is not JSON is never written out: once such a payload is
/// delivered, the session never asks for output, the erasure it confirms
/// ends in a parse failure, and the session ends with a fault.
pub proof fn lemma_malformed_never_emitted(evs: Seq<Event>, k: int)
    requires
        0 <= k < evs.len(),
        requests(evs)[k] == Action::Receive,
        evs[k] matches Event::Delivered { payload, .. } && !is_well_formed_json(payload@),
    ensures
        forall|j: int| 0 <= j < evs.len() ==> #[trigger] requests(evs)[j] != Action::Emit,
        forall|j: int|
            0 <= j < evs.len() && #[trigger] requests(evs)[j] is EraseAtRest && evs[j] is Done
                ==> state_at(evs, j + 1).fault == Some(Fault::Parse),
        run(evs).phase == Phase::Terminal ==> run(evs).fault is Some,
{
    let p = evs[k]->payload@;
    assert(delivered_at(evs, k, p));
    assert forall|j: int| 0 <= j < evs.len() implies #[trigger] requests(evs)[j] != Action::Emit by {
        if requests(evs)[j] == Action::Emit {
            lemma_holds_at(evs, j);
            let s = state_at(evs, j);
            let i = choose|i: int| 0 <= i < j && #[trigger] delivered_at(evs, i, s.payload);
            lemma_single_capture(evs, i, k, s.payload, p);
        }
    }
    assert forall|j: int|
        0 <= j < evs.len() && #[trigger] requests(evs)[j] is EraseAtRest && evs[j] is Done
            implies state_at(evs, j + 1).fault == Some(Fault::Parse) by {
        lemma_holds_at(evs, j);
        lemma_step(evs, j);
        let s = state_at(evs, j);
        let i = choose|i: int| 0 <= i < j && #[trigger] delivered_at(evs, i, s.payload);
        lemma_single_capture(evs, i, k, s.payload, p);
        assert(validation_outcome(s.payload) == Err::<(), Fault>(Fault::Parse));
    }
    lemma_whole(evs);
    lemma_holds_at(evs, evs.len() as int);
    let n = evs.len() as int;
    if run(evs).phase == Phase::Terminal && run(evs).fault is None {
        let j = choose|j: int| 0 <= j < n && #[trigger] emitted_at(evs, j);
        assert(requests(evs)[j] == Action::Emit);
    }
}

} // verus!
