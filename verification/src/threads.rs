//! Thread projection: which messages of the flat list are shown, and how many
//! messages each thread holds.

use vstd::prelude::*;
use std::collections::HashMap;
use std::collections::HashSet;
use crate::models::MessageSummary;

verus! {

/// A thread root is the message at depth 0 of its thread.
pub open spec fn is_thread_root(m: MessageSummary) -> bool {
    m.thread_depth == 0
}

/// A message is shown iff it is a thread root or its thread is not collapsed.
/// A message without a thread is always shown.
pub open spec fn is_visible(m: MessageSummary, collapsed: Set<u64>) -> bool {
    is_thread_root(m) || match m.thread_id {
        Some(t) => !collapsed.contains(t),
        None => true,
    }
}

/// The visible rows: the indices of the shown messages, in list order.
pub open spec fn visible_rows(messages: Seq<MessageSummary>, collapsed: Set<u64>) -> Seq<usize>
    decreases messages.len(),
{
    if messages.len() == 0 {
        Seq::empty()
    } else {
        let rest = visible_rows(messages.drop_last(), collapsed);
        if is_visible(messages.last(), collapsed) {
            rest.push((messages.len() - 1) as usize)
        } else {
            rest
        }
    }
}

/// The number of messages of one thread.
pub open spec fn thread_count(messages: Seq<MessageSummary>, thread: u64) -> nat
    decreases messages.len(),
{
    if messages.len() == 0 {
        0
    } else {
        let rest = thread_count(messages.drop_last(), thread);
        if messages.last().thread_id == Some(thread) {
            rest + 1
        } else {
            rest
        }
    }
}

/// The size of every thread that has a message in the list.
pub open spec fn thread_sizes_of(messages: Seq<MessageSummary>) -> Map<u64, usize> {
    Map::new(
        |t: u64| thread_count(messages, t) > 0,
        |t: u64| thread_count(messages, t) as usize,
    )
}

/// The collapsed set after a toggle of one thread.
pub open spec fn toggled(collapsed: Set<u64>, thread: u64) -> Set<u64> {
    if collapsed.contains(thread) {
        collapsed.remove(thread)
    } else {
        collapsed.insert(thread)
    }
}

/// The message index behind a visible row, if the row exists.
pub open spec fn row_target(messages: Seq<MessageSummary>, collapsed: Set<u64>, row: usize) -> Option<
    usize,
> {
    let rows = visible_rows(messages, collapsed);
    if row < rows.len() {
        Some(rows[row as int])
    } else {
        None
    }
}

/// No thread holds more messages than the list.
pub proof fn lemma_thread_count_bound(messages: Seq<MessageSummary>, thread: u64)
    ensures
        thread_count(messages, thread) <= messages.len(),
    decreases messages.len(),
{
    if messages.len() > 0 {
        lemma_thread_count_bound(messages.drop_last(), thread);
    }
}

/// What the visible rows are: they rise strictly, each names a shown message
/// of the list, and every shown message has its row.
pub proof fn lemma_visible_rows(messages: Seq<MessageSummary>, collapsed: Set<u64>)
    requires
        messages.len() <= usize::MAX,
    ensures
        visible_rows(messages, collapsed).len() <= messages.len(),
        forall|k: int|
            0 <= k < visible_rows(messages, collapsed).len() ==> {
                let i = #[trigger] visible_rows(messages, collapsed)[k];
                i < messages.len() && is_visible(messages[i as int], collapsed)
            },
        forall|j: int, k: int|
            0 <= j < k < visible_rows(messages, collapsed).len() ==> visible_rows(
                messages,
                collapsed,
            )[j] < visible_rows(messages, collapsed)[k],
        forall|i: int|
            0 <= i < messages.len() && is_visible(#[trigger] messages[i], collapsed)
                ==> visible_rows(messages, collapsed).contains(i as usize),
    decreases messages.len(),
{
    if messages.len() > 0 {
        let init = messages.drop_last();
        let rest = visible_rows(init, collapsed);
        let rows = visible_rows(messages, collapsed);
        lemma_visible_rows(init, collapsed);
        assert forall|k: int| 0 <= k < rows.len() implies {
            let i = #[trigger] rows[k];
            i < messages.len() && is_visible(messages[i as int], collapsed)
        } by {}
        assert forall|i: int|
            0 <= i < messages.len() && is_visible(#[trigger] messages[i], collapsed) implies rows.contains(
            i as usize,
        ) by {
            if i < init.len() {
                assert(init[i] == messages[i]);
                let k = choose|k: int| 0 <= k < rest.len() && rest[k] == i as usize;
                assert(rows[k] == i as usize);
            } else {
                assert(rows[rows.len() - 1] == i as usize);
            }
        }
    }
}

/// Two toggles of one thread leave the collapsed set as it was.
pub proof fn lemma_toggle_twice(collapsed: Set<u64>, thread: u64)
    ensures
        toggled(toggled(collapsed, thread), thread) =~= collapsed,
{
}

/// Whether a message is shown under the given collapsed set.
pub fn message_visible(m: &MessageSummary, collapsed: &HashSet<u64>) -> (r: bool)
    ensures
        r == is_visible(*m, collapsed@),
{
    if m.thread_depth == 0 {
        return true;
    }
    match m.thread_id {
        Some(t) => !collapsed.contains(&t),
        None => true,
    }
}

/// Derives the visible rows from the message list and the collapsed set.
pub fn compute_visible(messages: &Vec<MessageSummary>, collapsed: &HashSet<u64>) -> (rows: Vec<usize>)
    ensures
        rows@ == visible_rows(messages@, collapsed@),
        forall|k: int| 0 <= k < rows@.len() ==> (#[trigger] rows@[k]) < messages@.len(),
{
    let mut rows: Vec<usize> = Vec::new();
    let mut i: usize = 0;
    while i < messages.len()
        invariant
            i <= messages@.len(),
            rows@ == visible_rows(messages@.take(i as int), collapsed@),
            forall|k: int| 0 <= k < rows@.len() ==> (#[trigger] rows@[k]) < i,
        decreases messages@.len() - i,
    {
        proof {
            assert(messages@.take(i + 1).drop_last() =~= messages@.take(i as int));
        }
        if message_visible(&messages[i], collapsed) {
            rows.push(i);
        }
        i += 1;
    }
    assert(messages@.take(i as int) =~= messages@);
    rows
}

/// Counts the messages of every thread, for the "N more in thread" marks.
pub fn compute_thread_sizes(messages: &Vec<MessageSummary>) -> (sizes: HashMap<u64, usize>)
    ensures
        sizes@ == thread_sizes_of(messages@),
{
    let mut sizes: HashMap<u64, usize> = HashMap::new();
    let mut i: usize = 0;
    while i < messages.len()
        invariant
            i <= messages@.len(),
            sizes@ == thread_sizes_of(messages@.take(i as int)),
        decreases messages@.len() - i,
    {
        let ghost before = messages@.take(i as int);
        let ghost after = messages@.take(i + 1);
        proof {
            assert(after.drop_last() =~= before);
        }
        match messages[i].thread_id {
            Some(t) => {
                proof {
                    lemma_thread_count_bound(before, t);
                }
                let seen: usize = match sizes.get(&t) {
                    Some(n) => *n,
                    None => 0,
                };
                sizes.insert(t, seen + 1);
            },
            None => {
            },
        }
        i += 1;
    }
    assert(messages@.take(i as int) =~= messages@);
    sizes
}

/// Collapses a thread that is open, opens one that is collapsed.
pub fn toggle_thread(collapsed: &mut HashSet<u64>, thread: u64)
    ensures
        final(collapsed)@ == toggled(old(collapsed)@, thread),
{
    if collapsed.contains(&thread) {
        collapsed.remove(&thread);
    } else {
        collapsed.insert(thread);
    }
}

} // verus!
