//! What holds of every parse, whatever the input.

use crate::event::{
    lemma_closed_log_pairs_every_start, lemma_log_text_of_prefix, lemma_nodes_nest, log_text,
    start_of,
};
use crate::state::ParserState;
use crate::syntax::grammar;
use crate::syntax::model;
use crate::syntax::quiet::lemma_quiet_type;
use crate::syntax::valid::lemma_type_is_clean;
use crate::token::source_text;
use vstd::prelude::*;

verus! {

/// Losslessness. In every state of a parse, the raw texts of the tokens that the log
/// names, put together in the order of the log, are the text of the input up to the
/// cursor. At the end of input they are the text of the whole input. This holds
/// whether the input was well formed or not: a token that recovery skipped, or that
/// was consumed under another kind, is in the log with the text it came with.
pub proof fn lemma_log_is_lossless(s: ParserState)
    requires
        s.wf(),
    ensures
        log_text(s.events, s.tokens) == source_text(s.tokens.take(s.pos)),
        s.at_end() ==> log_text(s.events, s.tokens) == source_text(s.tokens),
{
    lemma_log_text_of_prefix(s.events, s.tokens, s.pos);
    if s.at_end() {
        assert(s.tokens.take(s.pos) =~= s.tokens);
    }
}

/// A step of a parse consumes a number of tokens that is not negative and not more
/// than what was left. Every production leaves a state that follows the one it found,
/// so this holds of every production call.
pub proof fn lemma_consumption_is_bounded(before: ParserState, after: ParserState)
    requires
        before.wf(),
        after.wf(),
        after.grows(before),
    ensures
        0 <= after.pos - before.pos <= before.remaining(),
        after.remaining() <= before.remaining(),
{
}

/// Clean input. Where a type of the language begins at the cursor, parsing a type
/// reports no diagnostic, consumes that type and nothing more, and gives a node.
/// Where none begins there, parsing a type reports at least one diagnostic.
pub proof fn lemma_valid_type_has_no_diagnostics(s: ParserState)
    requires
        0 <= s.pos,
    ensures
        grammar::type_end(s.tokens, s.pos, s.depth) matches Some(end) ==> (model::ty(s).0.errors
            == s.errors && model::ty(s).0.pos == end && model::ty(s).1 is Some),
        grammar::type_end(s.tokens, s.pos, s.depth) is None ==> model::ty(s).0.errors.len()
            > s.errors.len(),
{
    if grammar::type_end(s.tokens, s.pos, s.depth) is Some {
        lemma_type_is_clean(s);
    } else {
        lemma_quiet_type(s);
    }
}

/// Marker discipline. In every state of a parse, each `Finish` entry of the log closes
/// a node of its own, started before it. Of two nodes, the one finished later either
/// encloses the other or was started after the other was finished: no node is
/// finished before a node that was started inside it.
pub proof fn lemma_finished_nodes_nest(s: ParserState, j1: int, j2: int)
    requires
        s.wf(),
        0 <= j1 < j2 < s.events.len(),
        s.events[j1] is Finish,
        s.events[j2] is Finish,
    ensures
        0 <= start_of(s.events, j1) < j1,
        0 <= start_of(s.events, j2) < j2,
        s.events[start_of(s.events, j1)] is Start,
        s.events[start_of(s.events, j2)] is Start,
        start_of(s.events, j2) < start_of(s.events, j1) || j1 < start_of(s.events, j2),
{
    lemma_nodes_nest(s.events, j1, j2);
}

/// Marker discipline. In every state of a parse, a `Start` entry of the log belongs to
/// a node that is still open, or has its `Finish` entry behind it. The `Start` of an
/// abandoned node is no `Start` entry any more: it is a `Tombstone`.
pub proof fn lemma_started_nodes_are_open_or_finished(s: ParserState, i: int)
    requires
        s.wf(),
        0 <= i < s.events.len(),
        s.events[i] is Start,
    ensures
        s.opened().contains(i) || exists|j: int|
            i < j < s.events.len() && s.events[j] is Finish && start_of(s.events, j) == i,
{
    if !s.opened().contains(i) {
        lemma_closed_log_pairs_every_start(s.events, i);
    }
}

} // verus!
