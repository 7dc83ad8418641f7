//! Recovery from a syntax error: report it, then skip to a token at which parsing can
//! go on.

use crate::diagnostic::Diagnostic;
use crate::parser::Parser;
use crate::state::ParserState;
use crate::syntax_kind::SyntaxKind;
use crate::token_set::TokenSet;
use vstd::prelude::*;

verus! {

impl Parser {
    /// Reports `error` and resynchronises on `recovery`.
    ///
    /// If the input is used up, or the current token is in `recovery` and
    /// `consume_current_as_error` is not set, nothing is consumed: the caller finds the
    /// token where it was. Otherwise tokens are consumed one at a time, each wrapped
    /// in an `ERROR` node of its own, until the current token is in `recovery` or the
    /// input is used up. With `consume_current_as_error` set, the current token is
    /// consumed in this way even if it is in `recovery`.
    pub fn err_recover(
        &mut self,
        error: Diagnostic,
        recovery: TokenSet,
        consume_current_as_error: bool,
    )
        requires
            old(self)@.wf(),
        ensures
            final(self)@ == old(self)@.recover(error@, recovery@, consume_current_as_error),
            final(self)@.wf(),
            final(self)@.extends(old(self)@),
            final(self)@.errors == old(self)@.errors.push(error@),
            final(self)@.pos == old(self)@.pos <==> old(self)@.at_end() || (recovery@.contains(
                old(self)@.cur(),
            ) && !consume_current_as_error),
            final(self)@.at_end() || recovery@.contains(final(self)@.cur()),
    {
        self.error(error);
        let ghost reported = self@;
        let mut force = consume_current_as_error;
        while !self.at_end() && (force || !recovery.contains(self.cur()))
            invariant
                self@.wf(),
                self@.extends(reported),
                self@.errors == reported.errors,
                self@.skip_until(recovery@, force) == reported.skip_until(
                    recovery@,
                    consume_current_as_error,
                ),
                self@.pos == reported.pos ==> force == consume_current_as_error,
                self@.pos > reported.pos ==> !(reported.at_end() || (recovery@.contains(
                    reported.cur(),
                ) && !consume_current_as_error)),
            decreases self@.remaining(),
        {
            let m = self.start();
            self.bump_any();
            m.complete(self, SyntaxKind::ERROR);
            force = false;
        }
    }
}

/// Skipping never moves the cursor back, touches neither the input nor the diagnostics,
/// and stops at the end of input or at a token of the set. The cursor stays where it
/// was only if it was at the end of input, or at a token of the set that was not to be
/// skipped by force.
pub proof fn lemma_skip_until_lands(s: ParserState, set: Set<SyntaxKind>, force: bool)
    ensures
        s.skip_until(set, force).tokens == s.tokens,
        s.skip_until(set, force).errors == s.errors,
        s.skip_until(set, force).depth == s.depth,
        s.skip_until(set, force).pos >= s.pos,
        s.skip_until(set, force).at_end() || set.contains(s.skip_until(set, force).cur()),
        s.skip_until(set, force).pos == s.pos <==> s.at_end() || (set.contains(s.cur())
            && !force),
    decreases s.remaining(),
{
    if s.at_end() || (!force && set.contains(s.cur())) {
    } else {
        lemma_skip_until_lands(s.start().bump().finish(SyntaxKind::ERROR), set, false);
    }
}

/// Progress under recovery. Recovery never moves the cursor back, and it leaves the
/// cursor where it was only if the input was used up, which stops every recovery, or
/// the current token was in the recovery set and was not to be skipped by force.
/// It ends at the end of input or at a token of the recovery set.
pub proof fn lemma_recovery_makes_progress(
    s: ParserState,
    d: crate::diagnostic::DiagnosticView,
    set: Set<SyntaxKind>,
    force: bool,
)
    ensures
        s.recover(d, set, force).pos >= s.pos,
        s.recover(d, set, force).pos == s.pos <==> s.at_end() || (set.contains(s.cur())
            && !force),
        s.recover(d, set, force).at_end() || set.contains(s.recover(d, set, force).cur()),
        s.recover(d, set, force).errors == s.errors.push(d),
{
    lemma_skip_until_lands(s.error(d), set, force);
}

} // verus!
