//! The event log: the flat record of a parse, from which the syntax tree is built later.
//!
//! A node is written as a `Start` entry, the entries of its children, and a `Finish`
//! entry that names its kind. Entries are only ever appended; the one change to an
//! existing entry is that the `Start` of an abandoned node becomes a `Tombstone`, so that
//! no index shifts.

use crate::syntax_kind::SyntaxKind;
use crate::token::TokenView;
use vstd::prelude::*;

verus! {

/// One entry of the event log.
#[derive(Clone, Copy, PartialEq, Eq, Debug)]
pub enum Event {
    /// A node begins. Its kind is the one of the `Finish` entry that closes it.
    /// With `precedes` set, the node begins just before the finished node whose `Start`
    /// stands at that index, and so takes that node as its first child.
    Start { precedes: Option<usize> },
    /// The innermost open node ends and is of this kind.
    Finish { kind: SyntaxKind },
    /// The token at `index` of the input, attached under the innermost open node as a
    /// token of kind `kind`.
    Token { kind: SyntaxKind, index: usize },
    /// The diagnostic at `index` of the list of diagnostics was reported here.
    Error { index: usize },
    /// What is left of the `Start` of an abandoned node. It stands for nothing.
    Tombstone,
}

/// The indices of the `Start` entries that no `Finish` has closed yet, outermost first.
pub open spec fn open_markers(events: Seq<Event>) -> Seq<int>
    decreases events.len(),
{
    if events.len() == 0 {
        Seq::empty()
    } else {
        let before = open_markers(events.drop_last());
        match events.last() {
            Event::Start { .. } => before.push(events.len() - 1),
            Event::Finish { .. } => if before.len() > 0 {
                before.drop_last()
            } else {
                before
            },
            _ => before,
        }
    }
}

/// Whether every `Finish` entry closes a node that is open where it stands.
pub open spec fn balanced(events: Seq<Event>) -> bool
    decreases events.len(),
{
    events.len() == 0 || {
        &&& balanced(events.drop_last())
        &&& events.last() is Finish ==> open_markers(events.drop_last()).len() > 0
    }
}

/// The input indices of the `Token` entries, in the order of the log.
pub open spec fn token_trace(events: Seq<Event>) -> Seq<int>
    decreases events.len(),
{
    if events.len() == 0 {
        Seq::empty()
    } else {
        let before = token_trace(events.drop_last());
        match events.last() {
            Event::Token { index, .. } => before.push(index as int),
            _ => before,
        }
    }
}

/// The diagnostic indices of the `Error` entries, in the order of the log.
pub open spec fn error_trace(events: Seq<Event>) -> Seq<int>
    decreases events.len(),
{
    if events.len() == 0 {
        Seq::empty()
    } else {
        let before = error_trace(events.drop_last());
        match events.last() {
            Event::Error { index } => before.push(index as int),
            _ => before,
        }
    }
}

/// The raw texts of the tokens that the `Token` entries name, one after the other in
/// the order of the log. An entry that names no token of `tokens` adds nothing.
pub open spec fn log_text(events: Seq<Event>, tokens: Seq<TokenView>) -> Seq<char>
    decreases events.len(),
{
    if events.len() == 0 {
        Seq::empty()
    } else {
        let before = log_text(events.drop_last(), tokens);
        match events.last() {
            Event::Token { index, .. } => if index < tokens.len() {
                before + tokens[index as int].text
            } else {
                before
            },
            _ => before,
        }
    }
}

/// The integers from 0 up to but not including `n`.
pub open spec fn upto(n: int) -> Seq<int> {
    Seq::new(
        if n >= 0 {
            n as nat
        } else {
            0
        },
        |i: int| i,
    )
}

/// What appending one entry does to each reading of the log.
pub proof fn lemma_log_push(events: Seq<Event>, e: Event)
    ensures
        open_markers(events.push(e)) == match e {
            Event::Start { .. } => open_markers(events).push(events.len() as int),
            Event::Finish { .. } => if open_markers(events).len() > 0 {
                open_markers(events).drop_last()
            } else {
                open_markers(events)
            },
            _ => open_markers(events),
        },
        balanced(events.push(e)) == (balanced(events) && (e is Finish ==> open_markers(
            events,
        ).len() > 0)),
        token_trace(events.push(e)) == match e {
            Event::Token { index, .. } => token_trace(events).push(index as int),
            _ => token_trace(events),
        },
        error_trace(events.push(e)) == match e {
            Event::Error { index } => error_trace(events).push(index as int),
            _ => error_trace(events),
        },
{
    assert(events.push(e).drop_last() =~= events);
}

/// What appending one entry does to the text of the log.
pub proof fn lemma_log_text_push(events: Seq<Event>, e: Event, tokens: Seq<TokenView>)
    ensures
        log_text(events.push(e), tokens) == match e {
            Event::Token { index, .. } => if index < tokens.len() {
                log_text(events, tokens) + tokens[index as int].text
            } else {
                log_text(events, tokens)
            },
            _ => log_text(events, tokens),
        },
{
    assert(events.push(e).drop_last() =~= events);
}

/// Every open marker is the index of a `Start` entry, and the open markers stand in
/// the order in which they were started.
pub proof fn lemma_open_markers_are_starts(events: Seq<Event>)
    ensures
        forall|k: int|
            0 <= k < open_markers(events).len() ==> 0 <= #[trigger] open_markers(events)[k]
                < events.len() && events[open_markers(events)[k]] is Start,
        forall|j: int, k: int|
            0 <= j < k < open_markers(events).len() ==> open_markers(events)[j] < open_markers(
                events,
            )[k],
    decreases events.len(),
{
    if events.len() > 0 {
        let prev = events.drop_last();
        lemma_open_markers_are_starts(prev);
        let before = open_markers(prev);
        let now = open_markers(events);
        assert forall|k: int| 0 <= k < now.len() implies {
            &&& 0 <= #[trigger] now[k] < events.len()
            &&& events[now[k]] is Start
        } by {
            if k < before.len() {
                assert(now[k] == before[k]);
                assert(events[before[k]] == prev[before[k]]);
            }
        }
        assert forall|j: int, k: int| 0 <= j < k < now.len() implies now[j] < now[k] by {
            if k < before.len() {
                assert(now[j] == before[j] && now[k] == before[k]);
            } else {
                assert(now[j] == before[j]);
            }
        }
    }
}

/// Turning the `Start` of an open node into a `Tombstone` takes that node, and no
/// other, out of the open markers; the log stays balanced and names the same tokens
/// and diagnostics.
pub proof fn lemma_tombstone(events: Seq<Event>, k: int)
    requires
        balanced(events),
        0 <= k < open_markers(events).len(),
    ensures
        0 <= open_markers(events)[k] < events.len(),
        open_markers(events.update(open_markers(events)[k], Event::Tombstone)) == open_markers(
            events,
        ).remove(k),
        balanced(events.update(open_markers(events)[k], Event::Tombstone)),
        token_trace(events.update(open_markers(events)[k], Event::Tombstone)) == token_trace(
            events,
        ),
        error_trace(events.update(open_markers(events)[k], Event::Tombstone)) == error_trace(
            events,
        ),
    decreases events.len(),
{
    lemma_open_markers_are_starts(events);
    let open = open_markers(events);
    let i = open[k];
    let prev = events.drop_last();
    let last = events.last();
    let changed = events.update(i, Event::Tombstone);
    lemma_open_markers_are_starts(prev);
    if i == events.len() - 1 {
        assert(changed.drop_last() =~= prev);
        assert(last is Start);
        assert(k == open.len() - 1) by {
            if k < open.len() - 1 {
                assert(open[k] < open[open.len() - 1]);
            }
        }
        assert(open.remove(k) =~= open_markers(prev));
    } else {
        assert(changed.drop_last() =~= prev.update(i, Event::Tombstone));
        assert(changed.last() == last);
        let before = open_markers(prev);
        match last {
            Event::Start { .. } => {
                assert(k < before.len()) by {
                    if k == open.len() - 1 {
                        assert(open[k] == events.len() - 1);
                    }
                }
                assert(before[k] == i);
                lemma_tombstone(prev, k);
                assert(before.remove(k).push(events.len() - 1) =~= open.remove(k));
            },
            Event::Finish { .. } => {
                assert(before.len() > 0);
                assert(before[k] == i);
                lemma_tombstone(prev, k);
                assert(before.remove(k).drop_last() =~= open.remove(k));
            },
            _ => {
                lemma_tombstone(prev, k);
            },
        }
    }
}

/// A log whose tokens are the first `n` of the input, each once and in order, holds
/// the text of these `n` tokens.
pub proof fn lemma_log_text_of_prefix(events: Seq<Event>, tokens: Seq<TokenView>, n: int)
    requires
        0 <= n <= tokens.len(),
        token_trace(events) == upto(n),
    ensures
        log_text(events, tokens) == crate::token::source_text(tokens.take(n)),
    decreases events.len(),
{
    if events.len() == 0 {
        assert(upto(n).len() == 0);
        assert(tokens.take(0).len() == 0);
    } else {
        let prev = events.drop_last();
        match events.last() {
            Event::Token { index, .. } => {
                let before = token_trace(prev);
                assert(before.push(index as int) == upto(n));
                assert(before.push(index as int).len() == n);
                assert(n >= 1);
                assert(before.push(index as int)[n - 1] == upto(n)[n - 1]);
                assert(index == n - 1);
                assert(before =~= upto(n - 1)) by {
                    assert forall|j: int| 0 <= j < n - 1 implies before[j] == j by {
                        assert(before.push(index as int)[j] == upto(n)[j]);
                    }
                }
                lemma_log_text_of_prefix(prev, tokens, n - 1);
                assert(tokens.take(n).drop_last() =~= tokens.take(n - 1));
                assert(tokens.take(n).last() == tokens[n - 1]);
            },
            _ => {
                lemma_log_text_of_prefix(prev, tokens, n);
            },
        }
    }
}

/// The index of the `Start` entry of the node that a `Finish` entry at `j` closes: the
/// innermost node that is open where the `Finish` stands.
pub open spec fn start_of(events: Seq<Event>, j: int) -> int {
    open_markers(events.take(j)).last()
}

/// The front of a balanced log is balanced.
pub proof fn lemma_balanced_prefix(events: Seq<Event>, n: int)
    requires
        balanced(events),
        0 <= n <= events.len(),
    ensures
        balanced(events.take(n)),
    decreases events.len(),
{
    if n == events.len() {
        assert(events.take(n) =~= events);
    } else {
        assert(events.drop_last().take(n) =~= events.take(n));
        lemma_balanced_prefix(events.drop_last(), n);
    }
}

/// A node that is open after `n` entries and was started among the first `k` of them
/// was open after these `k` entries.
pub proof fn lemma_open_since(events: Seq<Event>, k: int, n: int, x: int)
    requires
        0 <= k <= n <= events.len(),
        open_markers(events.take(n)).contains(x),
        x < k,
    ensures
        open_markers(events.take(k)).contains(x),
    decreases n - k,
{
    if k < n {
        let now = events.take(n);
        let prev = events.take(n - 1);
        assert(now.drop_last() =~= prev);
        let before = open_markers(prev);
        let open = open_markers(now);
        let at = choose|at: int| 0 <= at < open.len() && open[at] == x;
        match now.last() {
            Event::Start { .. } => {
                assert(open == before.push(n - 1));
                assert(at < before.len());
                assert(before[at] == x);
            },
            Event::Finish { .. } => {
                if before.len() > 0 {
                    assert(before[at] == x);
                }
            },
            _ => {},
        }
        assert(before.contains(x));
        lemma_open_since(events, k, n - 1, x);
    }
}

/// Nodes nest. Of two `Finish` entries of a balanced log, each closes a node of its
/// own that was started before it; and the node that the later one closes either
/// encloses the node of the earlier one or was started after that node was finished.
pub proof fn lemma_nodes_nest(events: Seq<Event>, j1: int, j2: int)
    requires
        balanced(events),
        0 <= j1 < j2 < events.len(),
        events[j1] is Finish,
        events[j2] is Finish,
    ensures
        0 <= start_of(events, j1) < j1,
        0 <= start_of(events, j2) < j2,
        events[start_of(events, j1)] is Start,
        events[start_of(events, j2)] is Start,
        start_of(events, j2) < start_of(events, j1) || j1 < start_of(events, j2),
{
    let upto1 = events.take(j1);
    let upto2 = events.take(j2);
    let after1 = events.take(j1 + 1);
    lemma_balanced_prefix(events, j1 + 1);
    lemma_balanced_prefix(events, j2 + 1);
    assert(after1.drop_last() =~= upto1);
    assert(events.take(j2 + 1).drop_last() =~= upto2);
    assert(after1.last() == events[j1]);
    assert(events.take(j2 + 1).last() == events[j2]);
    lemma_open_markers_are_starts(upto1);
    lemma_open_markers_are_starts(upto2);
    let i1 = start_of(events, j1);
    let i2 = start_of(events, j2);
    assert(upto1[i1] == events[i1]);
    assert(upto2[i2] == events[i2]);
    if i2 <= j1 {
        assert(open_markers(upto2).contains(i2));
        lemma_open_since(events, j1 + 1, j2, i2);
        let closed = open_markers(after1);
        assert(closed == open_markers(upto1).drop_last());
        let at = choose|at: int| 0 <= at < closed.len() && closed[at] == i2;
        assert(open_markers(upto1)[at] == i2);
    }
}

/// In a balanced log in which no node is open, every `Start` entry has its `Finish`
/// entry behind it.
pub proof fn lemma_closed_log_pairs_every_start(events: Seq<Event>, i: int)
    requires
        balanced(events),
        0 <= i < events.len(),
        events[i] is Start,
        !open_markers(events).contains(i),
    ensures
        exists|j: int| i < j < events.len() && events[j] is Finish && start_of(events, j) == i,
    decreases events.len(),
{
    let prev = events.drop_last();
    let n = events.len() - 1;
    let open = open_markers(events);
    assert(events.take(n) =~= prev);
    if i == n {
        assert(open[open.len() - 1] == i);
        assert(open.contains(i));
    } else {
        let before = open_markers(prev);
        if before.contains(i) {
            let at = choose|at: int| 0 <= at < before.len() && before[at] == i;
            if events.last() is Finish && at == before.len() - 1 {
                assert(start_of(events, n) == i);
                assert(i < n < events.len() && events[n] is Finish && start_of(events, n) == i);
            } else {
                assert(open[at] == i);
                assert(open.contains(i));
            }
        } else {
            assert(prev[i] == events[i]);
            lemma_closed_log_pairs_every_start(prev, i);
            let j = choose|j: int|
                i < j < prev.len() && prev[j] is Finish && start_of(prev, j) == i;
            assert(prev.take(j) =~= events.take(j));
            assert(events[j] == prev[j]);
            assert(i < j < events.len() && events[j] is Finish && start_of(events, j) == i);
        }
    }
}

} // verus!
