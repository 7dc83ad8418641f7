//! The productions of the expression grammar that types are made of: literals and
//! templates.

use crate::marker::CompletedMarker;
use crate::parser::Parser;
use crate::syntax::model;
use crate::syntax_kind::SyntaxKind;
use vstd::prelude::*;

verus! {

/// Puts a node of kind `kind` around the current token.
pub fn leaf(p: &mut Parser, kind: SyntaxKind) -> (r: CompletedMarker)
    requires
        old(p)@.wf(),
        !old(p)@.at_end(),
    ensures
        (final(p)@, Some(r)) == model::leaf(old(p)@, kind),
        final(p)@.wf(),
        final(p)@.extends(old(p)@),
        final(p)@.has_node(r),
        final(p)@.pos == old(p)@.pos + 1,
        final(p)@.errors == old(p)@.errors,
{
    let m = p.start();
    p.bump_any();
    let node = m.complete(p, kind);
    node
}

/// Parses a literal: a number, a string, `null`, `true`, `false` or a regular
/// expression. At any other token nothing happens and there is no node.
pub fn literal(p: &mut Parser) -> (r: Option<CompletedMarker>)
    requires
        old(p)@.wf(),
    ensures
        (final(p)@, r) == model::literal(old(p)@),
        r is Some <==> model::is_literal(old(p)@.cur()) && !old(p)@.at_end(),
        final(p)@.wf(),
        final(p)@.extends(old(p)@),
        r is Some ==> final(p)@.has_node(r.unwrap()),
{
    let kind = p.cur();
    if matches!(
        kind,
        SyntaxKind::NUMBER | SyntaxKind::STRING | SyntaxKind::NULL_KW | SyntaxKind::TRUE_KW
            | SyntaxKind::FALSE_KW | SyntaxKind::REGEX
    ) && !p.at_end() {
        Some(leaf(p, SyntaxKind::LITERAL))
    } else {
        None
    }
}

/// Consumes the tokens up to the `}` that closes a brace which has just been consumed.
/// Braces that open in between are matched with their own `}`. The closing `}` is
/// left as the current token; if it is missing, the rest of the input is consumed.
pub fn skip_braced(p: &mut Parser)
    requires
        old(p)@.wf(),
    ensures
        final(p)@ == model::skip_braced(old(p)@, 0),
        final(p)@.wf(),
        final(p)@.extends(old(p)@),
        final(p)@.errors == old(p)@.errors,
        final(p)@.at_end() || final(p)@.at(SyntaxKind::R_CURLY),
{
    let ghost before = p@;
    let start: usize = p.position();
    let mut depth: usize = 0;
    while !p.at_end() && !(depth == 0 && p.at(SyntaxKind::R_CURLY))
        invariant
            p@.wf(),
            p@.extends(before),
            p@.errors == before.errors,
            start == before.pos,
            depth <= p@.pos - start,
            model::skip_braced(p@, depth as nat) == model::skip_braced(before, 0),
        decreases p@.remaining(),
    {
        if p.at(SyntaxKind::L_CURLY) || p.at(SyntaxKind::DOLLARCURLY) {
            depth = depth + 1;
        } else if p.at(SyntaxKind::R_CURLY) {
            depth = depth - 1;
        }
        p.bump_any();
    }
}

/// Parses a template. The interpolations are kept as they stand, from `${` to the
/// matching `}`, each in a `TEMPLATE_ELEMENT` node; they are handed out beside the
/// `TEMPLATE` node so that the caller can judge them once the template is parsed.
pub fn template(p: &mut Parser) -> (r: (CompletedMarker, Vec<CompletedMarker>))
    requires
        old(p)@.wf(),
    ensures
        (final(p)@, r.0, r.1@) == model::template(old(p)@),
        final(p)@.wf(),
        final(p)@.extends(old(p)@),
        final(p)@.has_node(r.0),
{
    let m = p.start();
    p.expect(SyntaxKind::BACKTICK);
    let ghost inside = p@;
    let mut elements: Vec<CompletedMarker> = Vec::new();
    while !p.at_end() && (p.at(SyntaxKind::TEMPLATE_CHUNK) || p.at(SyntaxKind::DOLLARCURLY))
        invariant
            p@.wf(),
            p@.grows(inside),
            p@.depth == inside.depth,
            p@.opened() == inside.opened(),
            model::template_parts(p@, elements@) == model::template_parts(inside, Seq::empty()),
        decreases p@.remaining(),
    {
        if p.at(SyntaxKind::TEMPLATE_CHUNK) {
            p.bump_any();
        } else {
            let e = p.start();
            p.bump_any();
            skip_braced(p);
            p.expect(SyntaxKind::R_CURLY);
            let node = e.complete(p, SyntaxKind::TEMPLATE_ELEMENT);
            elements.push(node);
        }
    }
    p.expect(SyntaxKind::BACKTICK);
    let node = m.complete(p, SyntaxKind::TEMPLATE);
    (node, elements)
}

} // verus!
