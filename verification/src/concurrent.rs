//! Deliveries that proceed side by side.
//!
//! The connection may report from several threads at once. A delivery is a
//! value of its own and shares nothing with any other, so however the
//! replies to several deliveries fall in time, each delivery ends as it
//! would have ended alone.

use vstd::prelude::*;
use crate::delivery::Delivery;
use crate::delivery::Reply;

verus! {

/// The deliveries after the turns from index `from` on. A turn is a reply
/// together with the index of the delivery that it is for; a turn for no
/// delivery changes nothing.
pub open spec fn interleave(deliveries: Seq<Delivery>, turns: Seq<(int, Reply)>, from: nat) -> Seq<Delivery>
    decreases turns.len() - from,
{
    if from >= turns.len() {
        deliveries
    } else {
        let (who, reply) = turns[from as int];
        let next = if 0 <= who < deliveries.len() {
            deliveries.update(who, deliveries[who].spec_advance(reply))
        } else {
            deliveries
        };
        interleave(next, turns, from + 1)
    }
}

/// The replies among the turns from index `from` on that are for the
/// delivery `who`, in their order.
pub open spec fn replies_to(turns: Seq<(int, Reply)>, who: int, from: nat) -> Seq<Reply>
    decreases turns.len() - from,
{
    if from >= turns.len() {
        Seq::empty()
    } else {
        let rest = replies_to(turns, who, from + 1);
        if turns[from as int].0 == who {
            seq![turns[from as int].1] + rest
        } else {
            rest
        }
    }
}

/// Running a delivery on replies is taking the first and running on the
/// rest.
pub proof fn lemma_run_unfolds(delivery: Delivery, first: Reply, rest: Seq<Reply>)
    ensures
        delivery.run(seq![first] + rest) == delivery.spec_advance(first).run(rest),
{
    lemma_run_from_shifts(delivery.spec_advance(first), first, rest, 0);
}

proof fn lemma_run_from_shifts(delivery: Delivery, first: Reply, rest: Seq<Reply>, from: nat)
    ensures
        delivery.run_from(seq![first] + rest, from + 1) == delivery.run_from(rest, from),
    decreases rest.len() - from,
{
    if from < rest.len() {
        let all = seq![first] + rest;
        assert(all[from as int + 1] == rest[from as int]);
        lemma_run_from_shifts(delivery.spec_advance(rest[from as int]), first, rest, from + 1);
    }
}

/// Deliveries do not interfere: however the replies to several of them
/// are interleaved, there are as many deliveries after as before, and each
/// is where its own replies alone would have brought it.
pub proof fn lemma_interleaved_deliveries_are_independent(
    deliveries: Seq<Delivery>,
    turns: Seq<(int, Reply)>,
    from: nat,
    who: int,
)
    requires
        0 <= who < deliveries.len(),
    ensures
        interleave(deliveries, turns, from).len() == deliveries.len(),
        interleave(deliveries, turns, from)[who] == deliveries[who].run(replies_to(turns, who, from)),
    decreases turns.len() - from,
{
    if from < turns.len() {
        let (turn, reply) = turns[from as int];
        let next = if 0 <= turn < deliveries.len() {
            deliveries.update(turn, deliveries[turn].spec_advance(reply))
        } else {
            deliveries
        };
        lemma_interleaved_deliveries_are_independent(next, turns, from + 1, who);
        if turn == who {
            lemma_run_unfolds(deliveries[who], reply, replies_to(turns, who, from + 1));
        }
    }
}

} // verus!
