//! The parser: a cursor over the tokens of the input, the event log and the list of
//! diagnostics.

use crate::diagnostic::{diagnostic_views, Diagnostic};
use crate::event::{lemma_log_push, lemma_open_markers_are_starts, lemma_tombstone, Event};
use crate::marker::{CompletedMarker, Marker};
use crate::state::{ParserState, MAX_DEPTH};
use crate::syntax_kind::SyntaxKind;
use crate::token::{token_views, TextRange, Token};
use crate::token_set::TokenSet;
use vstd::prelude::*;
use vstd::string::StringExecFns;

verus! {

/// The state of a parse. Productions take it by exclusive reference, read the tokens
/// through it, and write the event log and the diagnostics through it.
#[derive(Debug)]
pub struct Parser {
    tokens: Vec<Token>,
    pos: usize,
    events: Vec<Event>,
    errors: Vec<Diagnostic>,
    depth: usize,
}

impl View for Parser {
    type V = ParserState;

    closed spec fn view(&self) -> ParserState {
        ParserState {
            tokens: token_views(self.tokens@),
            pos: self.pos as int,
            events: self.events@,
            errors: diagnostic_views(self.errors@),
            depth: self.depth as int,
        }
    }
}

impl Parser {
    /// A parser at the start of `tokens`, with an empty log and no diagnostics.
    pub fn new(tokens: Vec<Token>) -> (p: Parser)
        ensures
            p@ == ParserState::initial(token_views(tokens@)),
            p@.wf(),
    {
        let len: usize = tokens.len();
        let p = Parser { tokens, pos: 0, events: Vec::new(), errors: Vec::new(), depth: 0 };
        proof {
            assert(p@.tokens.len() == len);
            assert(p@.errors =~= Seq::empty());
            assert(crate::event::token_trace(p@.events) =~= crate::event::upto(0));
            assert(crate::event::error_trace(p@.events) =~= crate::event::upto(0));
        }
        p
    }

    /// The event log so far.
    pub fn events(&self) -> (r: &Vec<Event>)
        ensures
            r@ == self@.events,
    {
        &self.events
    }

    /// The diagnostics so far.
    pub fn errors(&self) -> (r: &Vec<Diagnostic>)
        ensures
            diagnostic_views(r@) == self@.errors,
    {
        &self.errors
    }

    /// The tokens of the input.
    pub fn tokens(&self) -> (r: &Vec<Token>)
        ensures
            token_views(r@) == self@.tokens,
    {
        &self.tokens
    }

    /// The index of the current token.
    pub fn position(&self) -> (r: usize)
        ensures
            r == self@.pos,
    {
        self.pos
    }

    /// Whether the input is used up.
    pub fn at_end(&self) -> (r: bool)
        ensures
            r == self@.at_end(),
    {
        self.pos >= self.tokens.len()
    }

    /// The kind of the token `n` places after the current one; `EOF` past the end.
    pub fn nth(&self, n: usize) -> (r: SyntaxKind)
        requires
            self@.wf(),
        ensures
            r == self@.nth(n as int),
    {
        if n < self.tokens.len() - self.pos {
            self.tokens[self.pos + n].kind
        } else {
            SyntaxKind::EOF
        }
    }

    /// The kind of the current token; `EOF` at the end of input.
    pub fn cur(&self) -> (r: SyntaxKind)
        requires
            self@.wf(),
        ensures
            r == self@.cur(),
    {
        self.nth(0)
    }

    /// Whether the current token is of kind `kind`.
    pub fn at(&self, kind: SyntaxKind) -> (r: bool)
        requires
            self@.wf(),
        ensures
            r == self@.at(kind),
    {
        self.nth(0) == kind
    }

    /// Whether the token `n` places after the current one is of kind `kind`.
    pub fn nth_at(&self, n: usize, kind: SyntaxKind) -> (r: bool)
        requires
            self@.wf(),
        ensures
            r == (self@.nth(n as int) == kind),
    {
        self.nth(n) == kind
    }

    /// Whether the kind of the current token is in `set`.
    pub fn at_ts(&self, set: TokenSet) -> (r: bool)
        requires
            self@.wf(),
        ensures
            r == set@.contains(self@.cur()),
    {
        set.contains(self.nth(0))
    }

    /// The raw text of the token `n` places after the current one; empty past the end.
    pub fn nth_src(&self, n: usize) -> (r: &str)
        requires
            self@.wf(),
        ensures
            r@ == self@.nth_text(n as int),
    {
        if n < self.tokens.len() - self.pos {
            self.tokens[self.pos + n].text.as_str()
        } else {
            proof {
                reveal_strlit("");
                assert(""@ =~= Seq::<char>::empty());
            }
            ""
        }
    }

    /// The raw text of the current token; empty at the end of input.
    pub fn cur_src(&self) -> (r: &str)
        requires
            self@.wf(),
        ensures
            r@ == self@.cur_text(),
    {
        self.nth_src(0)
    }

    /// The range of the token `n` places after the current one; past the end, the
    /// empty range at the end of the input.
    pub fn nth_range(&self, n: usize) -> (r: TextRange)
        requires
            self@.wf(),
        ensures
            r == self@.nth_range(n as int),
    {
        if n < self.tokens.len() - self.pos {
            self.tokens[self.pos + n].range
        } else if self.tokens.len() == 0 {
            TextRange { start: 0, end: 0 }
        } else {
            let end: usize = self.tokens[self.tokens.len() - 1].range.end;
            TextRange { start: end, end }
        }
    }

    /// The range of the current token.
    pub fn cur_range(&self) -> (r: TextRange)
        requires
            self@.wf(),
        ensures
            r == self@.cur_range(),
    {
        self.nth_range(0)
    }

    /// Whether a line break stands before the token `n` places after the current one.
    pub fn has_linebreak_before_n(&self, n: usize) -> (r: bool)
        requires
            self@.wf(),
        ensures
            r == self@.has_linebreak_before(n as int),
    {
        n < self.tokens.len() - self.pos && self.tokens[self.pos + n].line_break_before
    }

    /// The offset at which the token before the cursor ends; 0 at the start.
    fn prev_end(&self) -> (r: usize)
        requires
            self@.wf(),
        ensures
            r == self@.prev_end(),
    {
        if self.pos > 0 {
            self.tokens[self.pos - 1].range.end
        } else {
            0
        }
    }

    /// The raw text of every token that the log names, one after the other in the
    /// order of the log.
    pub fn logged_text(&self) -> (r: String)
        ensures
            r@ == crate::event::log_text(self@.events, self@.tokens),
    {
        let mut out = String::new();
        let mut i: usize = 0;
        proof {
            assert(self.events@.take(0) =~= Seq::<Event>::empty());
        }
        while i < self.events.len()
            invariant
                i <= self.events.len(),
                out@ == crate::event::log_text(self.events@.take(i as int), self@.tokens),
            decreases self.events.len() - i,
        {
            proof {
                assert(self.events@.take(i + 1) =~= self.events@.take(i as int).push(
                    self.events@[i as int],
                ));
                crate::event::lemma_log_text_push(
                    self.events@.take(i as int),
                    self.events@[i as int],
                    self@.tokens,
                );
            }
            match self.events[i] {
                Event::Token { kind: _, index } => {
                    if index < self.tokens.len() {
                        out.append(self.tokens[index].text.as_str());
                    }
                },
                _ => {},
            }
            i += 1;
        }
        proof {
            assert(self.events@.take(i as int) =~= self.events@);
        }
        out
    }

    /// Ends the parse and hands out the event log and the diagnostics.
    pub fn finish(self) -> (r: (Vec<Event>, Vec<Diagnostic>))
        ensures
            r.0@ == self@.events,
            diagnostic_views(r.1@) == self@.errors,
    {
        (self.events, self.errors)
    }

    /// Starts a report with the given message.
    pub fn err_builder(&self, message: &str) -> (d: Diagnostic)
        ensures
            d@ == crate::diagnostic::DiagnosticView::new(message@),
    {
        Diagnostic::error(message)
    }

    /// Reports a diagnostic: it joins the list, and the log notes where it was
    /// reported. The parse goes on.
    pub fn error(&mut self, error: Diagnostic)
        requires
            old(self)@.wf(),
        ensures
            final(self)@ == old(self)@.error(error@),
            final(self)@.wf(),
            final(self)@.extends(old(self)@),
    {
        let index: usize = self.errors.len();
        proof {
            lemma_log_push(self.events@, Event::Error { index });
            assert(crate::event::upto(index as int).push(index as int) =~= crate::event::upto(
                index + 1,
            ));
            assert(diagnostic_views(self.errors@.push(error)) =~= diagnostic_views(
                self.errors@,
            ).push(error@));
        }
        self.errors.push(error);
        self.events.push(Event::Error { index });
    }

    /// Starts a node at the current token and hands out its marker.
    pub fn start(&mut self) -> (m: Marker)
        requires
            old(self)@.wf(),
        ensures
            final(self)@ == old(self)@.start(),
            final(self)@.wf(),
            final(self)@.grows(old(self)@),
            final(self)@.opened() == old(self)@.opened().push(m.pos()),
            final(self)@.innermost(m.pos()),
            m.pos() == old(self)@.events.len(),
            m.offset() == old(self)@.cur_range().start,
    {
        let pos: usize = self.events.len();
        let offset: usize = self.cur_range().start;
        proof {
            lemma_log_push(self.events@, Event::Start { precedes: None });
        }
        self.events.push(Event::Start { precedes: None });
        Marker::new(pos, offset)
    }

    /// Consumes the current token under the kind `kind`. Its text stays what it was.
    pub fn bump_remap(&mut self, kind: SyntaxKind)
        requires
            old(self)@.wf(),
            !old(self)@.at_end(),
        ensures
            final(self)@ == old(self)@.bump_as(kind),
            final(self)@.wf(),
            final(self)@.extends(old(self)@),
            final(self)@.pos == old(self)@.pos + 1,
    {
        let index: usize = self.pos;
        let len: usize = self.tokens.len();
        proof {
            assert(self@.tokens.len() == len);
            lemma_log_push(self.events@, Event::Token { kind, index });
            assert(crate::event::upto(index as int).push(index as int) =~= crate::event::upto(
                index + 1,
            ));
        }
        self.events.push(Event::Token { kind, index });
        self.pos = self.pos + 1;
    }

    /// Consumes the current token.
    pub fn bump_any(&mut self)
        requires
            old(self)@.wf(),
            !old(self)@.at_end(),
        ensures
            final(self)@ == old(self)@.bump(),
            final(self)@.wf(),
            final(self)@.extends(old(self)@),
            final(self)@.pos == old(self)@.pos + 1,
    {
        let kind = self.cur();
        self.bump_remap(kind);
    }

    /// Consumes the current token if it is of kind `kind`, and says whether it did.
    pub fn eat(&mut self, kind: SyntaxKind) -> (r: bool)
        requires
            old(self)@.wf(),
        ensures
            r == (old(self)@.at(kind) && !old(self)@.at_end()),
            final(self)@ == old(self)@.eat(kind),
            final(self)@.wf(),
            final(self)@.extends(old(self)@),
    {
        if self.at(kind) && !self.at_end() {
            self.bump_remap(kind);
            true
        } else {
            false
        }
    }

    /// Consumes the current token if it is of kind `kind`; if it is not, reports that a
    /// token of that kind was expected, and consumes nothing. Says whether the token
    /// was there.
    pub fn expect(&mut self, kind: SyntaxKind) -> (r: bool)
        requires
            old(self)@.wf(),
        ensures
            r == (old(self)@.at(kind) && !old(self)@.at_end()),
            final(self)@ == old(self)@.expect(kind),
            final(self)@.wf(),
            final(self)@.extends(old(self)@),
    {
        if self.at(kind) && !self.at_end() {
            self.bump_remap(kind);
            true
        } else {
            let mut message = String::from_str("expected ");
            message.append(kind.describe());
            let range = self.cur_range();
            let err = Diagnostic { message, primary: None, secondary: Vec::new() }.primary(
                range,
                "",
            );
            proof {
                assert(err@.secondary =~= Seq::empty());
            }
            self.error(err);
            false
        }
    }

    /// Goes one level of nesting further in, unless the limit is reached. Says whether
    /// it did.
    pub(crate) fn enter(&mut self) -> (r: bool)
        requires
            old(self)@.wf(),
        ensures
            r == (old(self)@.depth < MAX_DEPTH),
            final(self)@ == if r {
                old(self)@.deeper()
            } else {
                old(self)@
            },
            final(self)@.wf(),
    {
        if self.depth < MAX_DEPTH {
            self.depth = self.depth + 1;
            true
        } else {
            false
        }
    }

    /// Goes one level of nesting further out.
    pub(crate) fn leave(&mut self)
        requires
            old(self)@.wf(),
            old(self)@.depth > 0,
        ensures
            final(self)@ == old(self)@.shallower(),
            final(self)@.wf(),
    {
        self.depth = self.depth - 1;
    }
}

impl Marker {
    /// Finishes the node as a `kind` and hands out the handle of the finished node.
    /// The node must be the innermost open node: nodes are finished in the reverse of
    /// the order in which they were started.
    pub fn complete(self, p: &mut Parser, kind: SyntaxKind) -> (node: CompletedMarker)
        requires
            old(p)@.wf(),
            old(p)@.innermost(self.pos()),
        ensures
            final(p)@ == old(p)@.finish(kind),
            final(p)@.wf(),
            final(p)@.grows(old(p)@),
            final(p)@.opened() == old(p)@.opened().drop_last(),
            forall|outer: Seq<int>|
                old(p)@.opened() == #[trigger] outer.push(self.pos()) ==> final(p)@.opened()
                    == outer,
            node == old(p)@.completed(self.pos(), self.offset(), kind),
            final(p)@.has_node(node),
    {
        let start_pos: usize = self.index();
        let start: usize = self.start_offset();
        let finish_pos: usize = p.events.len();
        let last: usize = p.prev_end();
        let end: usize = if last >= start {
            last
        } else {
            start
        };
        proof {
            lemma_log_push(p.events@, Event::Finish { kind });
            lemma_open_markers_are_starts(p.events@);
            assert forall|outer: Seq<int>|
                p@.opened() == #[trigger] outer.push(self.pos()) implies p@.opened().drop_last()
                == outer by {
                assert(outer.push(self.pos()).drop_last() =~= outer);
            }
        }
        p.events.push(Event::Finish { kind });
        CompletedMarker { start_pos, finish_pos, kind, range: TextRange { start, end } }
    }

    /// Abandons the node: its `Start` entry becomes a `Tombstone`, and what was logged
    /// since belongs to the enclosing node. The node must be the innermost open node.
    pub fn abandon(self, p: &mut Parser)
        requires
            old(p)@.wf(),
            old(p)@.innermost(self.pos()),
        ensures
            final(p)@ == old(p)@.abandon(self.pos()),
            final(p)@.wf(),
            final(p)@.opened() == old(p)@.opened().drop_last(),
            forall|outer: Seq<int>|
                old(p)@.opened() == #[trigger] outer.push(self.pos()) ==> final(p)@.opened()
                    == outer,
            final(p)@.tokens == old(p)@.tokens,
            final(p)@.pos == old(p)@.pos,
            final(p)@.errors == old(p)@.errors,
            final(p)@.depth == old(p)@.depth,
            final(p)@.events.len() == old(p)@.events.len(),
            0 <= self.pos() < old(p)@.events.len(),
    {
        let pos: usize = self.index();
        proof {
            let open = crate::event::open_markers(p.events@);
            lemma_tombstone(p.events@, open.len() - 1);
            assert(open.remove(open.len() - 1) =~= open.drop_last());
            assert forall|outer: Seq<int>|
                open == #[trigger] outer.push(self.pos()) implies open.drop_last() == outer by {
                assert(outer.push(self.pos()).drop_last() =~= outer);
            }
        }
        p.events.set(pos, Event::Tombstone);
    }
}

impl CompletedMarker {
    /// Starts a node that begins just before this finished node, so that this node
    /// becomes its first child, and hands out the marker of the new node. The finished
    /// node must lie within the innermost open node.
    pub fn precede(self, p: &mut Parser) -> (m: Marker)
        requires
            old(p)@.wf(),
            old(p)@.has_node(self),
        ensures
            final(p)@ == old(p)@.precede(self),
            final(p)@.wf(),
            final(p)@.grows(old(p)@),
            final(p)@.opened() == old(p)@.opened().push(m.pos()),
            final(p)@.innermost(m.pos()),
            m.pos() == old(p)@.events.len(),
            m.offset() == self.range.start,
    {
        let pos: usize = p.events.len();
        proof {
            lemma_log_push(p.events@, Event::Start { precedes: Some(self.start_pos) });
        }
        p.events.push(Event::Start { precedes: Some(self.start_pos) });
        Marker::new(pos, self.range.start)
    }
}

} // verus!
