//! The state of a parse as a mathematical value, and what each step of the parser does
//! to it. The contracts of the parser are written over this model.

use crate::diagnostic::DiagnosticView;
use crate::event::{balanced, error_trace, open_markers, token_trace, upto, Event};
use crate::marker::CompletedMarker;
use crate::syntax_kind::SyntaxKind;
use crate::token::{TextRange, TokenView};
use vstd::prelude::*;

verus! {

/// How deeply types may nest before the parser refuses to descend further.
pub const MAX_DEPTH: usize = 256;

/// The state of a parse: the input, the cursor, and everything produced so far.
pub struct ParserState {
    /// The tokens of the input. They never change.
    pub tokens: Seq<TokenView>,
    /// The index of the current token; the length of `tokens` at the end of input.
    pub pos: int,
    /// The event log.
    pub events: Seq<Event>,
    /// The diagnostics reported so far.
    pub errors: Seq<DiagnosticView>,
    /// How many types enclose the one being parsed.
    pub depth: int,
}

impl ParserState {
    /// The state before anything of `tokens` has been read.
    pub open spec fn initial(tokens: Seq<TokenView>) -> ParserState {
        ParserState { tokens, pos: 0, events: Seq::empty(), errors: Seq::empty(), depth: 0 }
    }

    /// The invariant of a parse: the cursor is within the input, which is no longer
    /// than a vector can be; the log names the tokens before the cursor, each once and
    /// in order; it names every diagnostic once and in order; no `Finish` entry is
    /// without its `Start`; the nesting depth is within its limit.
    pub open spec fn wf(self) -> bool {
        &&& 0 <= self.pos <= self.tokens.len() <= usize::MAX
        &&& token_trace(self.events) == upto(self.pos)
        &&& error_trace(self.events) == upto(self.errors.len() as int)
        &&& balanced(self.events)
        &&& 0 <= self.depth <= MAX_DEPTH
    }

    /// Whether the input is used up.
    pub open spec fn at_end(self) -> bool {
        self.pos >= self.tokens.len()
    }

    /// How many tokens are left.
    pub open spec fn remaining(self) -> nat {
        if self.pos <= self.tokens.len() {
            (self.tokens.len() - self.pos) as nat
        } else {
            0
        }
    }

    /// Whether there is a token `n` places after the current one.
    pub open spec fn has(self, n: int) -> bool {
        0 <= self.pos + n < self.tokens.len()
    }

    /// The kind of the token `n` places after the current one; `EOF` past the end.
    pub open spec fn nth(self, n: int) -> SyntaxKind {
        if self.has(n) {
            self.tokens[self.pos + n].kind
        } else {
            SyntaxKind::EOF
        }
    }

    /// The kind of the current token.
    pub open spec fn cur(self) -> SyntaxKind {
        self.nth(0)
    }

    /// Whether the current token is of the given kind.
    pub open spec fn at(self, kind: SyntaxKind) -> bool {
        self.cur() == kind
    }

    /// The raw text of the token `n` places after the current one; empty past the end.
    pub open spec fn nth_text(self, n: int) -> Seq<char> {
        if self.has(n) {
            self.tokens[self.pos + n].text
        } else {
            Seq::empty()
        }
    }

    /// The raw text of the current token.
    pub open spec fn cur_text(self) -> Seq<char> {
        self.nth_text(0)
    }

    /// The offset at which the input ends: the end of its last token.
    pub open spec fn end_offset(self) -> usize {
        if self.tokens.len() == 0 {
            0
        } else {
            self.tokens.last().range.end
        }
    }

    /// The range of the token `n` places after the current one; the empty range at the
    /// end of the input past the end.
    pub open spec fn nth_range(self, n: int) -> TextRange {
        if self.has(n) {
            self.tokens[self.pos + n].range
        } else {
            TextRange { start: self.end_offset(), end: self.end_offset() }
        }
    }

    /// The range of the current token.
    pub open spec fn cur_range(self) -> TextRange {
        self.nth_range(0)
    }

    /// Whether a line break stands before the token `n` places after the current one.
    pub open spec fn has_linebreak_before(self, n: int) -> bool {
        self.has(n) && self.tokens[self.pos + n].line_break_before
    }

    /// The offset at which the token before the cursor ends; 0 at the start.
    pub open spec fn prev_end(self) -> usize {
        if 0 < self.pos <= self.tokens.len() {
            self.tokens[self.pos - 1].range.end
        } else {
            0
        }
    }

    /// The nodes that are open, by the index of their `Start` entry, outermost first.
    pub open spec fn opened(self) -> Seq<int> {
        open_markers(self.events)
    }

    /// Whether the node whose `Start` stands at `pos` is the innermost open node.
    pub open spec fn innermost(self, pos: int) -> bool {
        self.opened().len() > 0 && self.opened().last() == pos
    }

    /// Whether `node` is a finished node of the log that lies within the innermost
    /// open node.
    pub open spec fn has_node(self, node: CompletedMarker) -> bool {
        &&& node.start_pos < node.finish_pos < self.events.len()
        &&& self.events[node.start_pos as int] is Start
        &&& self.events[node.finish_pos as int] == (Event::Finish { kind: node.kind })
        &&& self.opened().len() > 0 ==> self.opened().last() < node.start_pos
    }

    /// The state with one more entry in the log.
    pub open spec fn push(self, e: Event) -> ParserState {
        ParserState { events: self.events.push(e), ..self }
    }

    /// The state after a node has been started.
    pub open spec fn start(self) -> ParserState {
        self.push(Event::Start { precedes: None })
    }

    /// The state after a node has been started that takes `node` as its first child.
    pub open spec fn precede(self, node: CompletedMarker) -> ParserState {
        self.push(Event::Start { precedes: Some(node.start_pos) })
    }

    /// The state after the innermost open node has been finished as a `kind`.
    pub open spec fn finish(self, kind: SyntaxKind) -> ParserState {
        self.push(Event::Finish { kind })
    }

    /// The handle of a node that is finished in this state as a `kind`, when its
    /// `Start` stands at `start_pos` and it begins at `offset` in the source. The node
    /// ends where the last token before the cursor ends, and is empty if that is
    /// before `offset`.
    pub open spec fn completed(self, start_pos: int, offset: usize, kind: SyntaxKind)
        -> CompletedMarker {
        CompletedMarker {
            start_pos: start_pos as usize,
            finish_pos: self.events.len() as usize,
            kind,
            range: TextRange {
                start: offset,
                end: if self.prev_end() >= offset {
                    self.prev_end()
                } else {
                    offset
                },
            },
        }
    }

    /// The state after the node whose `Start` stands at `pos` has been abandoned.
    pub open spec fn abandon(self, pos: int) -> ParserState {
        ParserState { events: self.events.update(pos, Event::Tombstone), ..self }
    }

    /// The state after the current token has been consumed as a token of kind `kind`.
    pub open spec fn bump_as(self, kind: SyntaxKind) -> ParserState {
        ParserState {
            pos: self.pos + 1,
            events: self.events.push(Event::Token { kind, index: self.pos as usize }),
            ..self
        }
    }

    /// The state after the current token has been consumed.
    pub open spec fn bump(self) -> ParserState {
        self.bump_as(self.cur())
    }

    /// The state after a diagnostic has been reported.
    pub open spec fn error(self, d: DiagnosticView) -> ParserState {
        ParserState {
            errors: self.errors.push(d),
            events: self.events.push(Event::Error { index: self.errors.len() as usize }),
            ..self
        }
    }

    /// The state one level of nesting further in.
    pub open spec fn deeper(self) -> ParserState {
        ParserState { depth: self.depth + 1, ..self }
    }

    /// The state one level of nesting further out.
    pub open spec fn shallower(self) -> ParserState {
        ParserState { depth: self.depth - 1, ..self }
    }

    /// Whether this state can follow `old` in a parse: the input is the same, the
    /// cursor has not moved back, and the log and the diagnostics of `old` are still
    /// there, unchanged, at the front of the new ones.
    pub open spec fn grows(self, old: ParserState) -> bool {
        &&& self.tokens == old.tokens
        &&& old.pos <= self.pos
        &&& old.events.len() <= self.events.len()
        &&& forall|i: int| 0 <= i < old.events.len() ==> self.events[i] == old.events[i]
        &&& old.errors.len() <= self.errors.len()
        &&& forall|i: int| 0 <= i < old.errors.len() ==> self.errors[i] == old.errors[i]
    }

    /// What every production leaves behind: a state that follows `old`, at the same
    /// depth, in which the nodes that were open in `old`, and no others, are open. So
    /// every node started since `old` has been finished or abandoned.
    pub open spec fn extends(self, old: ParserState) -> bool {
        &&& self.grows(old)
        &&& self.depth == old.depth
        &&& self.opened() == old.opened()
    }

    /// The diagnostic that reports a missing token of kind `kind`.
    pub open spec fn expected(self, kind: SyntaxKind) -> DiagnosticView {
        DiagnosticView::new("expected "@ + kind.text()).primary(self.cur_range(), ""@)
    }

    /// The state after the current token has been consumed if it is of kind `kind`;
    /// else this state.
    pub open spec fn eat(self, kind: SyntaxKind) -> ParserState {
        if self.at(kind) && !self.at_end() {
            self.bump()
        } else {
            self
        }
    }

    /// The state after a token of kind `kind` has been asked for: it is consumed if it
    /// is there, and reported as missing if it is not.
    pub open spec fn expect(self, kind: SyntaxKind) -> ParserState {
        if self.at(kind) && !self.at_end() {
            self.bump()
        } else {
            self.error(self.expected(kind))
        }
    }

    /// The state after tokens have been skipped, each as an `ERROR` node of its own,
    /// up to the first token that is in `set`, or to the end of input. With `force`
    /// the current token is skipped even if it is in `set`.
    pub open spec fn skip_until(self, set: Set<SyntaxKind>, force: bool) -> ParserState
        decreases self.remaining(),
    {
        if self.at_end() || (!force && set.contains(self.cur())) {
            self
        } else {
            self.start().bump().finish(SyntaxKind::ERROR).skip_until(set, false)
        }
    }

    /// The state after recovery from an error: the diagnostic is reported, then tokens
    /// are skipped as `skip_until` says.
    pub open spec fn recover(self, d: DiagnosticView, set: Set<SyntaxKind>, force: bool)
        -> ParserState {
        self.error(d).skip_until(set, force)
    }
}

} // verus!
