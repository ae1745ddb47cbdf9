//! The polling activity's state and change detection: one previous status is
//! kept between cycles, each freshly polled status is compared to it under
//! approximate equality, and only a real change is announced and becomes the
//! new previous status.
//!
//! The caller owns the cadence and the output channel; the decision of what
//! to emit is entirely here, and the emitted stream provably never carries
//! two consecutive announcements of the same observed state.

use vstd::prelude::*;
use crate::protocol::encode_status;
use crate::protocol::spec_status_line;
use crate::status::PlaybackStatus;
use crate::status::is_absent;
use crate::status::spec_approx_eq;

verus! {

/// What the polling activity remembers between cycles: the last announced
/// status. It starts as the absent sentinel, so the very first real session
/// is always announced.
pub struct BridgeState {
    pub prev: PlaybackStatus,
}

impl BridgeState {
    /// The starting state: nothing announced yet.
    pub fn new() -> (r: BridgeState)
        ensures
            is_absent(r.prev),
    {
        BridgeState { prev: PlaybackStatus::absent() }
    }
}

/// One poll cycle's decision: the freshly polled status is announced — and
/// remembered — exactly when it is not approximately equal to the last
/// announced one.
pub fn poll_step(state: &mut BridgeState, polled: PlaybackStatus) -> (r: Option<String>)
    ensures
        (r is Some) == !spec_approx_eq(old(state).prev, polled),
        r matches Some(line) ==> line@ == spec_status_line(polled) && final(state).prev == polled,
        r is None ==> final(state).prev == old(state).prev,
{
    if state.prev.approx_eq(&polled) {
        None
    } else {
        let line = encode_status(&polled);
        state.prev = polled;
        Some(line)
    }
}

/// The statuses a run of poll cycles announces, starting from a last
/// announced status `prev`.
pub open spec fn spec_emitted(prev: PlaybackStatus, polls: Seq<PlaybackStatus>) -> Seq<
    PlaybackStatus,
>
    decreases polls.len(),
{
    if polls.len() == 0 {
        Seq::empty()
    } else if !spec_approx_eq(prev, polls[0]) {
        seq![polls[0]] + spec_emitted(polls[0], polls.drop_first())
    } else {
        spec_emitted(prev, polls.drop_first())
    }
}

/// The last announced status after a run of poll cycles.
pub open spec fn spec_prev_after(prev: PlaybackStatus, polls: Seq<PlaybackStatus>) -> PlaybackStatus
    decreases polls.len(),
{
    if polls.len() == 0 {
        prev
    } else if !spec_approx_eq(prev, polls[0]) {
        spec_prev_after(polls[0], polls.drop_first())
    } else {
        spec_prev_after(prev, polls.drop_first())
    }
}

/// One more poll extends the announced stream by at most the one new
/// status, announced exactly when it differs from the last announced one.
proof fn lemma_emitted_snoc(prev: PlaybackStatus, polls: Seq<PlaybackStatus>, x: PlaybackStatus)
    ensures
        spec_emitted(prev, polls.push(x)) == spec_emitted(prev, polls) + (if !spec_approx_eq(
            spec_prev_after(prev, polls),
            x,
        ) {
            seq![x]
        } else {
            Seq::<PlaybackStatus>::empty()
        }),
        spec_prev_after(prev, polls.push(x)) == (if !spec_approx_eq(
            spec_prev_after(prev, polls),
            x,
        ) {
            x
        } else {
            spec_prev_after(prev, polls)
        }),
    decreases polls.len(),
{
    if polls.len() == 0 {
        assert(polls.push(x)[0] == x);
        assert(polls.push(x).drop_first() =~= Seq::<PlaybackStatus>::empty());
        assert(polls.push(x).drop_first().len() == 0);
        assert(spec_emitted(x, polls.push(x).drop_first()) =~= Seq::<PlaybackStatus>::empty());
        assert(spec_emitted(prev, polls.push(x).drop_first()) =~= Seq::<PlaybackStatus>::empty());
        assert(spec_prev_after(x, polls.push(x).drop_first()) == x);
        assert(spec_prev_after(prev, polls.push(x).drop_first()) == prev);
        assert(spec_emitted(prev, polls.push(x)) =~= (if !spec_approx_eq(prev, x) {
            seq![x]
        } else {
            Seq::<PlaybackStatus>::empty()
        }));
        assert(spec_emitted(prev, polls) + (if !spec_approx_eq(spec_prev_after(prev, polls), x) {
            seq![x]
        } else {
            Seq::<PlaybackStatus>::empty()
        }) =~= (if !spec_approx_eq(prev, x) {
            seq![x]
        } else {
            Seq::<PlaybackStatus>::empty()
        }));
    } else {
        let first = polls[0];
        let rest = polls.drop_first();
        assert(polls.push(x)[0] == first);
        assert(polls.push(x).drop_first() =~= rest.push(x));
        if !spec_approx_eq(prev, first) {
            lemma_emitted_snoc(first, rest, x);
            assert(spec_emitted(prev, polls.push(x)) =~= seq![first] + spec_emitted(
                first,
                rest.push(x),
            ));
            assert(spec_emitted(prev, polls) + (if !spec_approx_eq(
                spec_prev_after(prev, polls),
                x,
            ) {
                seq![x]
            } else {
                Seq::<PlaybackStatus>::empty()
            }) =~= seq![first] + (spec_emitted(first, rest) + (if !spec_approx_eq(
                spec_prev_after(first, rest),
                x,
            ) {
                seq![x]
            } else {
                Seq::<PlaybackStatus>::empty()
            })));
        } else {
            lemma_emitted_snoc(prev, rest, x);
        }
    }
}

/// Runs any number of poll cycles in order, announcing exactly the statuses
/// the emission model names, each as its status line.
pub fn run_poll_cycles(state: &mut BridgeState, polls: Vec<PlaybackStatus>) -> (lines: Vec<String>)
    ensures
        ({
            let e = spec_emitted(old(state).prev, polls@);
            &&& lines@.len() == e.len()
            &&& forall|i: int| 0 <= i < e.len() ==> lines@[i]@ == spec_status_line(e[i])
            &&& final(state).prev == spec_prev_after(old(state).prev, polls@)
        }),
{
    let ghost polls_seq = polls@;
    let mut lines: Vec<String> = Vec::new();
    let mut k: usize = 0;
    let len = polls.len();
    let mut remaining = polls;
    while k < len
        invariant
            k <= len,
            len == polls_seq.len(),
            remaining@ =~= polls_seq.skip(k as int),
            ({
                let e = spec_emitted(old(state).prev, polls_seq.take(k as int));
                &&& lines@.len() == e.len()
                &&& forall|i: int| 0 <= i < e.len() ==> lines@[i]@ == spec_status_line(e[i])
                &&& state.prev == spec_prev_after(old(state).prev, polls_seq.take(k as int))
            }),
        decreases len - k,
    {
        let polled = remaining.remove(0);
        proof {
            assert(polled == polls_seq[k as int]);
            assert(remaining@ =~= polls_seq.skip(k + 1));
            lemma_emitted_snoc(old(state).prev, polls_seq.take(k as int), polled);
            assert(polls_seq.take(k as int).push(polled) =~= polls_seq.take(k + 1));
        }
        match poll_step(state, polled) {
            Some(line) => {
                lines.push(line);
            },
            None => {},
        }
        k = k + 1;
    }
    proof {
        assert(polls_seq.take(len as int) =~= polls_seq);
    }
    lines
}

/// The polling activity never announces the same observed state twice in a
/// row: in any run, no announcement is approximately equal to the one
/// before it, and the first announcement differs from whatever was
/// announced last before the run.
pub proof fn lemma_no_redundant_emissions(prev: PlaybackStatus, polls: Seq<PlaybackStatus>)
    ensures
        ({
            let e = spec_emitted(prev, polls);
            &&& (e.len() > 0 ==> !spec_approx_eq(prev, e[0]))
            &&& forall|i: int|
                0 <= i < e.len() - 1 ==> !spec_approx_eq(#[trigger] e[i], e[i + 1])
        }),
    decreases polls.len(),
{
    if polls.len() == 0 {
    } else {
        let first = polls[0];
        let rest = polls.drop_first();
        if !spec_approx_eq(prev, first) {
            lemma_no_redundant_emissions(first, rest);
            let e = spec_emitted(prev, polls);
            let er = spec_emitted(first, rest);
            assert(e =~= seq![first] + er);
            assert forall|i: int| 0 <= i < e.len() - 1 implies !spec_approx_eq(#[trigger] e[i], e[i + 1]) by {
                if i == 0 {
                    assert(e[0] == first);
                    assert(e[1] == er[0]);
                } else {
                    assert(e[i] == er[i - 1]);
                    assert(e[i + 1] == er[i]);
                }
            }
        } else {
            lemma_no_redundant_emissions(prev, rest);
        }
    }
}

} // verus!
