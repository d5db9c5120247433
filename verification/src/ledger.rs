//! Pending messages, and when the history of a channel confirms them.

use vstd::prelude::*;
use crate::model::{same_fragments, Message, MessageView};
use crate::retain::{lemma_retaining_end, lemma_retaining_start, lemma_retaining_step, retaining};
use crate::text::same_opt_text;
use crate::views::each_view;

verus! {

/// Whether two messages say the same thing: the same sender and the same
/// content. Ids, timestamps, kinds and states are not compared, since a
/// message that was echoed locally has no id yet.
pub open spec fn same_utterance(a: MessageView, b: MessageView) -> bool {
    a.sender_id == b.sender_id && a.content == b.content
}

/// Whether `history` holds a message that says what `m` says.
pub open spec fn confirmed_by(history: Seq<MessageView>, m: MessageView) -> bool {
    exists|j: int| 0 <= j < history.len() && same_utterance(#[trigger] history[j], m)
}

/// The pending messages that `history` does not confirm, in their order.
pub open spec fn still_pending(pending: Seq<MessageView>, history: Seq<MessageView>) -> Seq<
    MessageView,
> {
    pending.filter(|m: MessageView| !confirmed_by(history, m))
}

/// Whether two messages have the same sender and the same content.
pub fn says_the_same(a: &Message, b: &Message) -> (r: bool)
    ensures
        r == same_utterance(a@, b@),
{
    same_opt_text(&a.sender_id, &b.sender_id) && same_fragments(&a.content, &b.content)
}

/// Whether `history` holds a message with the sender and the content of `m`.
pub fn is_confirmed(history: &Vec<Message>, m: &Message) -> (r: bool)
    ensures
        r == confirmed_by(each_view(history@), m@),
{
    let mut j: usize = 0;
    while j < history.len()
        invariant
            j <= history.len(),
            forall|k: int| 0 <= k < j ==> !same_utterance(#[trigger] each_view(history@)[k], m@),
        decreases history.len() - j,
    {
        if says_the_same(&history[j], m) {
            proof {
                assert(same_utterance(each_view(history@)[j as int], m@));
            }
            return true;
        }
        j += 1;
    }
    false
}

/// Drops from `pending` every message that `history` confirms and keeps the
/// others in their order.
pub fn reconcile_pending(pending: Vec<Message>, history: &Vec<Message>) -> (kept: Vec<Message>)
    ensures
        each_view(kept@) == still_pending(each_view(pending@), each_view(history@)),
{
    let ghost orig = each_view(pending@);
    let ghost hist = each_view(history@);
    let ghost keep = |m: MessageView| !confirmed_by(hist, m);
    let mut kept = pending;
    let mut i: usize = 0;
    let ghost mut done: int = 0;
    proof {
        lemma_retaining_start(orig, keep);
    }
    while i < kept.len()
        invariant
            hist == each_view(history@),
            keep == (|m: MessageView| !confirmed_by(hist, m)),
            retaining(orig, each_view(kept@), i as int, done, keep),
        decreases kept.len() - i,
    {
        let ghost before = each_view(kept@);
        proof {
            lemma_retaining_step(orig, before, i as int, done, keep);
        }
        if is_confirmed(history, &kept[i]) {
            kept.remove(i);
            proof {
                assert(each_view(kept@) =~= before.remove(i as int));
            }
        } else {
            i += 1;
        }
        proof {
            done = done + 1;
        }
    }
    proof {
        lemma_retaining_end(orig, each_view(kept@), i as int, done, keep);
    }
    kept
}

/// Filtering twice by one test keeps what filtering once keeps.
proof fn lemma_filter_twice<A>(s: Seq<A>, keep: spec_fn(A) -> bool)
    ensures
        s.filter(keep).filter(keep) == s.filter(keep),
    decreases s.len(),
{
    reveal(Seq::filter);
    if s.len() > 0 {
        lemma_filter_twice(s.drop_last(), keep);
        if keep(s.last()) {
            let inner = s.drop_last().filter(keep);
            assert(inner.push(s.last()).drop_last() =~= inner);
        }
    }
}

/// A second pass over the same history changes nothing: what was pending
/// after the first pass is pending after the second.
pub proof fn lemma_reconcile_idempotent(pending: Seq<MessageView>, history: Seq<MessageView>)
    ensures
        still_pending(still_pending(pending, history), history) == still_pending(
            pending,
            history,
        ),
{
    lemma_filter_twice(pending, |m: MessageView| !confirmed_by(history, m));
}

/// After a pass, the ledger holds exactly the messages of before that the
/// history does not confirm: a confirmed message is gone, and stays gone
/// under the same history; an unconfirmed one is still there.
pub proof fn lemma_reconcile_membership(
    pending: Seq<MessageView>,
    history: Seq<MessageView>,
    m: MessageView,
)
    ensures
        still_pending(pending, history).contains(m) <==> (pending.contains(m) && !confirmed_by(
            history,
            m,
        )),
        confirmed_by(history, m) ==> !still_pending(
            still_pending(pending, history),
            history,
        ).contains(m),
{
    let keep = |m: MessageView| !confirmed_by(history, m);
    let left = still_pending(pending, history);
    lemma_reconcile_idempotent(pending, history);
    if left.contains(m) {
        pending.lemma_filter_contains_rev(keep, m);
        let i = choose|i: int| 0 <= i < left.len() && left[i] == m;
        pending.lemma_filter_pred(keep, i);
    }
    if pending.contains(m) && !confirmed_by(history, m) {
        let i = choose|i: int| 0 <= i < pending.len() && pending[i] == m;
        pending.lemma_filter_contains(keep, i);
    }
}

} // verus!
