use crate::ast::{expr_pos, expr_position, stmt_pos, Expr, FlowControl, Stmt};
use crate::span::{
    byte_offset, line_end, line_start, next_newline, skip_lines, span_at, span_between, Position,
    Span,
};
use vstd::prelude::*;
use vstd::string::StringSliceAdditionalSpecFns;

verus! {

/// The span of a position, or nothing where the position is absent.
pub open spec fn point_spans(b: Seq<u8>, p: Position) -> Seq<Span> {
    if p.is_none() {
        seq![]
    } else {
        seq![span_at(b, p)]
    }
}

/// The anchor of a call: the span of its first argument, if it has one.
pub open spec fn anchor_spans(b: Seq<u8>, args: Seq<Expr>) -> Seq<Span> {
    if args.len() > 0 {
        point_spans(b, expr_pos(args[0]))
    } else {
        seq![]
    }
}

/// The spans of an expression, in pre-order.
pub open spec fn expr_spans(b: Seq<u8>, e: Expr) -> Seq<Span>
    decreases e,
{
    if expr_pos(e).is_none() {
        seq![]
    } else {
        match e {
            Expr::Array(v, p) => seq![span_at(b, p)] + exprs_spans(b, v@),
            Expr::InterpolatedString(v, p) => seq![span_at(b, p)] + exprs_spans(b, v@),
            Expr::MapLiteral(v, p) => seq![span_at(b, p)] + exprs_spans(b, v@),
            Expr::FnCall(v, _) => anchor_spans(b, v@) + exprs_spans(b, v@),
            Expr::MethodCall(v, _) => anchor_spans(b, v@) + exprs_spans(b, v@),
            _ => seq![span_at(b, expr_pos(e))],
        }
    }
}

/// The spans of a sequence of expressions, one after another.
pub open spec fn exprs_spans(b: Seq<u8>, es: Seq<Expr>) -> Seq<Span>
    decreases es,
{
    if es.len() == 0 {
        seq![]
    } else {
        exprs_spans(b, es.subrange(0, es.len() - 1)) + expr_spans(b, es[es.len() - 1])
    }
}

/// The spans of a statement, in pre-order.
pub open spec fn stmt_spans(b: Seq<u8>, s: Stmt) -> Seq<Span>
    decreases s,
{
    match s {
        Stmt::Noop(p) => point_spans(b, p),
        Stmt::If(f, p) => flow_spans(b, f, p),
        Stmt::While(f, p) => flow_spans(b, f, p),
        Stmt::Do(f, p) => flow_spans(b, f, p),
        Stmt::For(f, p) => flow_spans(b, f, p),
        Stmt::TryCatch(f, p) => flow_spans(b, f, p),
        Stmt::Var(e, p) => if p.is_none() {
            seq![]
        } else {
            seq![span_at(b, p)] + expr_spans(b, e)
        },
        Stmt::Assignment(l, r) => expr_spans(b, l) + expr_spans(b, r),
        Stmt::FnCall(v, p) => if p.is_none() {
            seq![]
        } else {
            seq![span_at(b, p)] + anchor_spans(b, v@) + exprs_spans(b, v@)
        },
        Stmt::Block(v, start, end) => if start.is_none() {
            seq![]
        } else {
            seq![span_between(b, start, end, start)] + stmts_spans(b, v@)
        },
        Stmt::Expr(e) => expr_spans(b, e),
        Stmt::BreakLoop(oe, p) => value_spans(b, oe, p),
        Stmt::Return(oe, p) => value_spans(b, oe, p),
        Stmt::Import(e, p) => if p.is_none() {
            seq![]
        } else {
            seq![span_at(b, p)] + expr_spans(b, e)
        },
        Stmt::Inert => seq![],
    }
}

/// The spans of a conditional or loop at `p`: its own, then its condition, body and
/// alternate block.
pub open spec fn flow_spans(b: Seq<u8>, f: FlowControl, p: Position) -> Seq<Span>
    decreases f,
{
    if p.is_none() {
        seq![]
    } else {
        seq![span_at(b, p)] + expr_spans(b, f.expr) + stmts_spans(b, f.body@) + stmts_spans(
            b,
            f.branch@,
        )
    }
}

/// The spans of a `break` or `return` at `p`: its own, then those of its value.
pub open spec fn value_spans(b: Seq<u8>, oe: Option<Expr>, p: Position) -> Seq<Span>
    decreases oe,
{
    if p.is_none() {
        seq![]
    } else {
        match oe {
            Some(e) => seq![span_at(b, p)] + expr_spans(b, e),
            None => seq![span_at(b, p)],
        }
    }
}

/// The spans of a sequence of statements, one after another.
pub open spec fn stmts_spans(b: Seq<u8>, ss: Seq<Stmt>) -> Seq<Span>
    decreases ss,
{
    if ss.len() == 0 {
        seq![]
    } else {
        stmts_spans(b, ss.subrange(0, ss.len() - 1)) + stmt_spans(b, ss[ss.len() - 1])
    }
}


proof fn lemma_exprs_step(b: Seq<u8>, es: Seq<Expr>, i: int)
    requires
        0 <= i < es.len(),
    ensures
        exprs_spans(b, es.subrange(0, i + 1)) == exprs_spans(b, es.subrange(0, i)) + expr_spans(
            b,
            es[i],
        ),
{
    let t = es.subrange(0, i + 1);
    assert(t.subrange(0, t.len() - 1) =~= es.subrange(0, i));
}

proof fn lemma_stmts_step(b: Seq<u8>, ss: Seq<Stmt>, i: int)
    requires
        0 <= i < ss.len(),
    ensures
        stmts_spans(b, ss.subrange(0, i + 1)) == stmts_spans(b, ss.subrange(0, i)) + stmt_spans(
            b,
            ss[i],
        ),
{
    let t = ss.subrange(0, i + 1);
    assert(t.subrange(0, t.len() - 1) =~= ss.subrange(0, i));
}

/// Extracts the spans of a syntax tree over a script.
///
/// Spans are emitted depth-first in pre-order; a node whose position is absent emits
/// nothing and is not entered.
#[derive(Debug)]
pub struct SpanTracer {}

impl SpanTracer {
    /// A tracer.
    pub fn new() -> (r: SpanTracer) {
        SpanTracer {  }
    }

    /// All spans of the statements `ast` of `script`, in traversal order.
    pub fn extract_from(&self, script: &str, ast: &[Stmt]) -> (r: Vec<Span>)
        ensures
            r@ == stmts_spans(script.spec_bytes(), ast@),
    {
        let mut spans: Vec<Span> = Vec::new();
        let mut i: usize = 0;
        while i < ast.len()
            invariant
                i <= ast@.len(),
                spans@ == stmts_spans(script.spec_bytes(), ast@.subrange(0, i as int)),
            decreases ast@.len() - i,
        {
            proof {
                lemma_stmts_step(script.spec_bytes(), ast@, i as int);
            }
            walk_stmt(&ast[i], script, &mut spans);
            i = i + 1;
        }
        assert(ast@.subrange(0, ast@.len() as int) =~= ast@);
        spans
    }
}

fn push_point(p: &Position, script: &str, spans: &mut Vec<Span>)
    ensures
        final(spans)@ == old(spans)@ + point_spans(script.spec_bytes(), *p),
{
    if !p.is_none() {
        spans.push(Span::from_pos(script, p));
    }
}

fn walk_exprs(es: &Vec<Expr>, script: &str, spans: &mut Vec<Span>)
    ensures
        final(spans)@ == old(spans)@ + exprs_spans(script.spec_bytes(), es@),
    decreases es,
{
    let ghost start = spans@;
    let mut i: usize = 0;
    while i < es.len()
        invariant
            i <= es@.len(),
            spans@ == start + exprs_spans(script.spec_bytes(), es@.subrange(0, i as int)),
        decreases es@.len() - i,
    {
        proof {
            lemma_exprs_step(script.spec_bytes(), es@, i as int);
        }
        walk_expr(&es[i], script, spans);
        i = i + 1;
    }
    assert(es@.subrange(0, es@.len() as int) =~= es@);
}

fn walk_block(ss: &Vec<Stmt>, script: &str, spans: &mut Vec<Span>)
    ensures
        final(spans)@ == old(spans)@ + stmts_spans(script.spec_bytes(), ss@),
    decreases ss,
{
    let ghost start = spans@;
    let mut i: usize = 0;
    while i < ss.len()
        invariant
            i <= ss@.len(),
            spans@ == start + stmts_spans(script.spec_bytes(), ss@.subrange(0, i as int)),
        decreases ss@.len() - i,
    {
        proof {
            lemma_stmts_step(script.spec_bytes(), ss@, i as int);
        }
        walk_stmt(&ss[i], script, spans);
        i = i + 1;
    }
    assert(ss@.subrange(0, ss@.len() as int) =~= ss@);
}

/// The anchor of a call: the span of its first argument, standing in for the call's
/// own extent, which the host does not record.
fn push_anchor(args: &Vec<Expr>, script: &str, spans: &mut Vec<Span>)
    ensures
        final(spans)@ == old(spans)@ + anchor_spans(script.spec_bytes(), args@),
{
    if args.len() > 0 {
        let p = expr_position(&args[0]);
        push_point(&p, script, spans);
    }
}

fn walk_expr(e: &Expr, script: &str, spans: &mut Vec<Span>)
    ensures
        final(spans)@ == old(spans)@ + expr_spans(script.spec_bytes(), *e),
    decreases e,
{
    let p = expr_position(e);
    if p.is_none() {
        return;
    }
    match e {
        Expr::Array(v, _) | Expr::InterpolatedString(v, _) | Expr::MapLiteral(v, _) => {
            spans.push(Span::from_pos(script, &p));
            walk_exprs(v, script, spans);
        },
        Expr::FnCall(v, _) | Expr::MethodCall(v, _) => {
            push_anchor(v, script, spans);
            walk_exprs(v, script, spans);
        },
        _ => {
            spans.push(Span::from_pos(script, &p));
        },
    }
}

fn walk_flow_control(f: &FlowControl, p: &Position, script: &str, spans: &mut Vec<Span>)
    ensures
        final(spans)@ == old(spans)@ + flow_spans(script.spec_bytes(), *f, *p),
    decreases f,
{
    if p.is_none() {
        return;
    }
    spans.push(Span::from_pos(script, p));
    walk_expr(&f.expr, script, spans);
    walk_block(&f.body, script, spans);
    walk_block(&f.branch, script, spans);
}

fn walk_stmt(s: &Stmt, script: &str, spans: &mut Vec<Span>)
    ensures
        final(spans)@ == old(spans)@ + stmt_spans(script.spec_bytes(), *s),
    decreases s,
{
    match s {
        Stmt::Noop(p) => push_point(p, script, spans),
        Stmt::If(f, p) | Stmt::While(f, p) | Stmt::Do(f, p) | Stmt::For(f, p) | Stmt::TryCatch(
            f,
            p,
        ) => walk_flow_control(f, p, script, spans),
        Stmt::Var(e, p) | Stmt::Import(e, p) => {
            if !p.is_none() {
                spans.push(Span::from_pos(script, p));
                walk_expr(e, script, spans);
            }
        },
        Stmt::Assignment(l, r) => {
            walk_expr(l, script, spans);
            walk_expr(r, script, spans);
        },
        Stmt::FnCall(v, p) => {
            if !p.is_none() {
                spans.push(Span::from_pos(script, p));
                push_anchor(v, script, spans);
                walk_exprs(v, script, spans);
            }
        },
        Stmt::Block(v, start, end) => {
            if !start.is_none() {
                spans.push(Span::from_rhai_span(script, start, end, start));
                walk_block(v, script, spans);
            }
        },
        Stmt::Expr(e) => walk_expr(e, script, spans),
        Stmt::BreakLoop(oe, p) | Stmt::Return(oe, p) => {
            if !p.is_none() {
                spans.push(Span::from_pos(script, p));
                match oe {
                    Some(e) => walk_expr(e, script, spans),
                    None => {},
                }
            }
        },
        Stmt::Inert => {},
    }
}


/// A byte that is a visible ASCII character: neither whitespace nor a control code.
pub open spec fn is_visible(c: u8) -> bool {
    33 <= c <= 126
}

/// A span that lies within the text and covers at least one visible character, so
/// that its text trimmed of whitespace is not empty.
pub open spec fn span_ok(b: Seq<u8>, s: Span) -> bool {
    &&& s.start <= s.end <= b.len()
    &&& exists|k: int| s.start <= k < s.end && is_visible(#[trigger] b[k])
}

/// Every span of `spans` is [`span_ok`].
pub open spec fn all_ok(b: Seq<u8>, spans: Seq<Span>) -> bool {
    forall|k: int| 0 <= k < spans.len() ==> span_ok(b, #[trigger] spans[k])
}

/// Raw byte offset of a present position: start of its line plus its column index.
pub open spec fn raw_offset(b: Seq<u8>, p: Position) -> int {
    line_start(b, p.line - 1) + p.pos - 1
}

/// A present position that points at a visible character of its own line, as the
/// host reports for the first token of a construct.
pub open spec fn pos_ok(b: Seq<u8>, p: Position) -> bool {
    &&& p.line >= 1
    &&& p.pos >= 1
    &&& raw_offset(b, p) < line_end(b, p.line - 1)
    &&& is_visible(b[raw_offset(b, p)])
}

/// An absent position, or one that is [`pos_ok`].
pub open spec fn node_pos_ok(b: Seq<u8>, p: Position) -> bool {
    p.is_none() || pos_ok(b, p)
}

/// The range of a nested block: its start is [`pos_ok`] and its end lies after it,
/// within the text.
pub open spec fn block_ok(b: Seq<u8>, start: Position, end: Position) -> bool {
    start.is_none() || {
        &&& pos_ok(b, start)
        &&& end.line >= 1
        &&& end.pos >= 1
        &&& raw_offset(b, start) < raw_offset(b, end) <= b.len()
    }
}

/// Every position of an expression and of the nodes under it is well placed.
pub open spec fn expr_wf(b: Seq<u8>, e: Expr) -> bool
    decreases e,
{
    match e {
        Expr::Atom(p) => node_pos_ok(b, p),
        Expr::Array(v, p) => node_pos_ok(b, p) && forall|i: int|
            0 <= i < v.len() ==> expr_wf(b, #[trigger] v@[i]),
        Expr::InterpolatedString(v, p) => node_pos_ok(b, p) && forall|i: int|
            0 <= i < v.len() ==> expr_wf(b, #[trigger] v@[i]),
        Expr::MapLiteral(v, p) => node_pos_ok(b, p) && forall|i: int|
            0 <= i < v.len() ==> expr_wf(b, #[trigger] v@[i]),
        Expr::FnCall(v, p) => node_pos_ok(b, p) && forall|i: int|
            0 <= i < v.len() ==> expr_wf(b, #[trigger] v@[i]),
        Expr::MethodCall(v, p) => node_pos_ok(b, p) && forall|i: int|
            0 <= i < v.len() ==> expr_wf(b, #[trigger] v@[i]),
        Expr::Stmt(v) => forall|i: int| 0 <= i < v.len() ==> stmt_wf(b, #[trigger] v@[i]),
        Expr::Unpositioned => true,
    }
}

/// Every position of a conditional or loop and of the nodes under it is well placed.
pub open spec fn flow_wf(b: Seq<u8>, f: FlowControl, p: Position) -> bool
    decreases f,
{
    &&& node_pos_ok(b, p)
    &&& expr_wf(b, f.expr)
    &&& forall|i: int| 0 <= i < f.body.len() ==> stmt_wf(b, #[trigger] f.body@[i])
    &&& forall|i: int| 0 <= i < f.branch.len() ==> stmt_wf(b, #[trigger] f.branch@[i])
}

/// Every position of a statement and of the nodes under it is well placed.
pub open spec fn stmt_wf(b: Seq<u8>, s: Stmt) -> bool
    decreases s,
{
    match s {
        Stmt::Noop(p) => node_pos_ok(b, p),
        Stmt::If(f, p) => flow_wf(b, f, p),
        Stmt::While(f, p) => flow_wf(b, f, p),
        Stmt::Do(f, p) => flow_wf(b, f, p),
        Stmt::For(f, p) => flow_wf(b, f, p),
        Stmt::TryCatch(f, p) => flow_wf(b, f, p),
        Stmt::Var(e, p) => node_pos_ok(b, p) && expr_wf(b, e),
        Stmt::Import(e, p) => node_pos_ok(b, p) && expr_wf(b, e),
        Stmt::Assignment(l, r) => expr_wf(b, l) && expr_wf(b, r),
        Stmt::FnCall(v, p) => node_pos_ok(b, p) && forall|i: int|
            0 <= i < v.len() ==> expr_wf(b, #[trigger] v@[i]),
        Stmt::Block(v, start, end) => block_ok(b, start, end) && forall|i: int|
            0 <= i < v.len() ==> stmt_wf(b, #[trigger] v@[i]),
        Stmt::Expr(e) => expr_wf(b, e),
        Stmt::BreakLoop(oe, p) => node_pos_ok(b, p) && (oe matches Some(e) ==> expr_wf(b, e)),
        Stmt::Return(oe, p) => node_pos_ok(b, p) && (oe matches Some(e) ==> expr_wf(b, e)),
        Stmt::Inert => true,
    }
}

/// An expression that emits a span at its own position.
pub open spec fn expr_has_own_span(e: Expr) -> bool {
    !expr_pos(e).is_none() && !(e is FnCall) && !(e is MethodCall)
}

/// A statement that emits a span of its own, first of all its spans.
pub open spec fn stmt_has_own_span(s: Stmt) -> bool {
    match s {
        Stmt::Block(_, start, _) => !start.is_none(),
        Stmt::Expr(e) => expr_has_own_span(e),
        Stmt::Assignment(l, _) => expr_has_own_span(l),
        Stmt::Inert => false,
        _ => !stmt_pos(s).is_none(),
    }
}

proof fn lemma_all_ok_concat(b: Seq<u8>, x: Seq<Span>, y: Seq<Span>)
    requires
        all_ok(b, x),
        all_ok(b, y),
    ensures
        all_ok(b, x + y),
{
    assert forall|k: int| 0 <= k < (x + y).len() implies span_ok(b, #[trigger] (x + y)[k]) by {
        if k < x.len() {
            assert((x + y)[k] == x[k]);
        } else {
            assert((x + y)[k] == y[k - x.len()]);
        }
    }
}

proof fn lemma_next_newline_in_text(b: Seq<u8>, i: int)
    requires
        0 <= i,
    ensures
        i <= b.len() ==> i <= next_newline(b, i) <= b.len(),
    decreases b.len() - i,
{
    if i < b.len() && b[i] != crate::span::NEWLINE {
        lemma_next_newline_in_text(b, i + 1);
    }
}

proof fn lemma_skip_lines_nonneg(b: Seq<u8>, i: int, k: nat)
    requires
        0 <= i,
    ensures
        i <= skip_lines(b, i, k),
    decreases k,
{
    if k != 0 && i < b.len() {
        lemma_next_newline_in_text(b, i);
        lemma_skip_lines_nonneg(b, next_newline(b, i) + 1, (k - 1) as nat);
    }
}

proof fn lemma_point_ok(b: Seq<u8>, p: Position)
    requires
        b.len() <= usize::MAX,
        pos_ok(b, p),
    ensures
        span_ok(b, span_at(b, p)),
        raw_offset(b, p) < b.len(),
        byte_offset(b, p) == raw_offset(b, p),
{
    let li = p.line - 1;
    let st = line_start(b, li);
    lemma_skip_lines_nonneg(b, 0, li as nat);
    if st < b.len() {
        lemma_next_newline_in_text(b, st);
    }
    let s = span_at(b, p);
    assert(s.start == raw_offset(b, p));
    assert(span_ok(b, s)) by {
        assert(is_visible(b[s.start as int]));
    }
}

proof fn lemma_expr_pos_ok(b: Seq<u8>, e: Expr)
    requires
        expr_wf(b, e),
    ensures
        node_pos_ok(b, expr_pos(e)),
    decreases e,
{
    if let Expr::Stmt(v) = e {
        if v.len() > 0 {
            lemma_stmt_pos_ok(b, v@[0]);
        }
    }
}

proof fn lemma_stmt_pos_ok(b: Seq<u8>, s: Stmt)
    requires
        stmt_wf(b, s),
    ensures
        node_pos_ok(b, stmt_pos(s)),
    decreases s,
{
    match s {
        Stmt::Block(v, _, _) => {
            if v.len() > 0 {
                lemma_stmt_pos_ok(b, v@[0]);
                assert(stmt_pos(s) == stmt_pos(v@[0]));
            } else {
                assert(stmt_pos(s).is_none());
            }
        },
        Stmt::Expr(e) => lemma_expr_pos_ok(b, e),
        Stmt::If(f, p) => assert(flow_wf(b, f, p)),
        Stmt::While(f, p) => assert(flow_wf(b, f, p)),
        Stmt::Do(f, p) => assert(flow_wf(b, f, p)),
        Stmt::For(f, p) => assert(flow_wf(b, f, p)),
        Stmt::TryCatch(f, p) => assert(flow_wf(b, f, p)),
        _ => {},
    }
}

proof fn lemma_point_spans_ok(b: Seq<u8>, p: Position)
    requires
        b.len() <= usize::MAX,
        node_pos_ok(b, p),
    ensures
        all_ok(b, point_spans(b, p)),
{
    if !p.is_none() {
        lemma_point_ok(b, p);
        assert(point_spans(b, p)[0] == span_at(b, p));
    }
}

proof fn lemma_expr_spans_ok(b: Seq<u8>, e: Expr)
    requires
        b.len() <= usize::MAX,
        expr_wf(b, e),
    ensures
        all_ok(b, expr_spans(b, e)),
    decreases e,
{
    lemma_expr_pos_ok(b, e);
    let p = expr_pos(e);
    if !p.is_none() {
        lemma_point_spans_ok(b, p);
        assert(point_spans(b, p) == seq![span_at(b, p)]);
        match e {
            Expr::Array(v, _) => lemma_exprs_spans_ok(b, v@),
            Expr::InterpolatedString(v, _) => lemma_exprs_spans_ok(b, v@),
            Expr::MapLiteral(v, _) => lemma_exprs_spans_ok(b, v@),
            Expr::FnCall(v, _) => {
                lemma_exprs_spans_ok(b, v@);
                if v.len() > 0 {
                    lemma_expr_pos_ok(b, v@[0]);
                    lemma_point_spans_ok(b, expr_pos(v@[0]));
                }
            },
            Expr::MethodCall(v, _) => {
                lemma_exprs_spans_ok(b, v@);
                if v.len() > 0 {
                    lemma_expr_pos_ok(b, v@[0]);
                    lemma_point_spans_ok(b, expr_pos(v@[0]));
                }
            },
            _ => {},
        }
        match e {
            Expr::Array(v, _) => lemma_all_ok_concat(b, seq![span_at(b, p)], exprs_spans(b, v@)),
            Expr::InterpolatedString(v, _) => lemma_all_ok_concat(
                b,
                seq![span_at(b, p)],
                exprs_spans(b, v@),
            ),
            Expr::MapLiteral(v, _) => lemma_all_ok_concat(
                b,
                seq![span_at(b, p)],
                exprs_spans(b, v@),
            ),
            Expr::FnCall(v, _) => lemma_all_ok_concat(
                b,
                anchor_spans(b, v@),
                exprs_spans(b, v@),
            ),
            Expr::MethodCall(v, _) => lemma_all_ok_concat(
                b,
                anchor_spans(b, v@),
                exprs_spans(b, v@),
            ),
            _ => {},
        }
    }
}

proof fn lemma_exprs_spans_ok(b: Seq<u8>, es: Seq<Expr>)
    requires
        b.len() <= usize::MAX,
        forall|i: int| 0 <= i < es.len() ==> expr_wf(b, #[trigger] es[i]),
    ensures
        all_ok(b, exprs_spans(b, es)),
    decreases es,
{
    if es.len() > 0 {
        let init = es.subrange(0, es.len() - 1);
        assert forall|i: int| 0 <= i < init.len() implies expr_wf(b, #[trigger] init[i]) by {
            assert(init[i] == es[i]);
        }
        lemma_exprs_spans_ok(b, init);
        lemma_expr_spans_ok(b, es[es.len() - 1]);
        lemma_all_ok_concat(b, exprs_spans(b, init), expr_spans(b, es[es.len() - 1]));
    }
}

proof fn lemma_flow_spans_ok(b: Seq<u8>, f: FlowControl, p: Position)
    requires
        b.len() <= usize::MAX,
        flow_wf(b, f, p),
    ensures
        all_ok(b, flow_spans(b, f, p)),
    decreases f,
{
    if !p.is_none() {
        lemma_point_spans_ok(b, p);
        assert(point_spans(b, p) == seq![span_at(b, p)]);
        lemma_expr_spans_ok(b, f.expr);
        lemma_stmts_spans_ok(b, f.body@);
        lemma_stmts_spans_ok(b, f.branch@);
        let a = seq![span_at(b, p)];
        lemma_all_ok_concat(b, a, expr_spans(b, f.expr));
        lemma_all_ok_concat(b, a + expr_spans(b, f.expr), stmts_spans(b, f.body@));
        lemma_all_ok_concat(
            b,
            a + expr_spans(b, f.expr) + stmts_spans(b, f.body@),
            stmts_spans(b, f.branch@),
        );
    }
}

proof fn lemma_stmt_spans_ok(b: Seq<u8>, s: Stmt)
    requires
        b.len() <= usize::MAX,
        stmt_wf(b, s),
    ensures
        all_ok(b, stmt_spans(b, s)),
    decreases s,
{
    match s {
        Stmt::Noop(p) => lemma_point_spans_ok(b, p),
        Stmt::If(f, p) => lemma_flow_spans_ok(b, f, p),
        Stmt::While(f, p) => lemma_flow_spans_ok(b, f, p),
        Stmt::Do(f, p) => lemma_flow_spans_ok(b, f, p),
        Stmt::For(f, p) => lemma_flow_spans_ok(b, f, p),
        Stmt::TryCatch(f, p) => lemma_flow_spans_ok(b, f, p),
        Stmt::Var(e, p) => {
            if !p.is_none() {
                lemma_point_spans_ok(b, p);
                assert(point_spans(b, p) == seq![span_at(b, p)]);
                lemma_expr_spans_ok(b, e);
                lemma_all_ok_concat(b, seq![span_at(b, p)], expr_spans(b, e));
            }
        },
        Stmt::Import(e, p) => {
            if !p.is_none() {
                lemma_point_spans_ok(b, p);
                assert(point_spans(b, p) == seq![span_at(b, p)]);
                lemma_expr_spans_ok(b, e);
                lemma_all_ok_concat(b, seq![span_at(b, p)], expr_spans(b, e));
            }
        },
        Stmt::Assignment(l, r) => {
            lemma_expr_spans_ok(b, l);
            lemma_expr_spans_ok(b, r);
            lemma_all_ok_concat(b, expr_spans(b, l), expr_spans(b, r));
        },
        Stmt::FnCall(v, p) => {
            if !p.is_none() {
                lemma_point_spans_ok(b, p);
                assert(point_spans(b, p) == seq![span_at(b, p)]);
                if v.len() > 0 {
                    lemma_expr_pos_ok(b, v@[0]);
                    lemma_point_spans_ok(b, expr_pos(v@[0]));
                }
                lemma_exprs_spans_ok(b, v@);
                lemma_all_ok_concat(b, seq![span_at(b, p)], anchor_spans(b, v@));
                lemma_all_ok_concat(
                    b,
                    seq![span_at(b, p)] + anchor_spans(b, v@),
                    exprs_spans(b, v@),
                );
            }
        },
        Stmt::Block(v, start, end) => {
            if !start.is_none() {
                lemma_point_ok(b, start);
                let sp = span_between(b, start, end, start);
                assert(byte_offset(b, end) == raw_offset(b, end));
                assert(span_ok(b, sp)) by {
                    assert(is_visible(b[sp.start as int]));
                }
                assert(all_ok(b, seq![sp]));
                lemma_stmts_spans_ok(b, v@);
                lemma_all_ok_concat(b, seq![sp], stmts_spans(b, v@));
            }
        },
        Stmt::Expr(e) => lemma_expr_spans_ok(b, e),
        Stmt::BreakLoop(oe, p) => lemma_value_spans_ok(b, oe, p),
        Stmt::Return(oe, p) => lemma_value_spans_ok(b, oe, p),
        Stmt::Inert => {},
    }
}

proof fn lemma_value_spans_ok(b: Seq<u8>, oe: Option<Expr>, p: Position)
    requires
        b.len() <= usize::MAX,
        node_pos_ok(b, p),
        oe matches Some(e) ==> expr_wf(b, e),
    ensures
        all_ok(b, value_spans(b, oe, p)),
    decreases oe,
{
    if !p.is_none() {
        lemma_point_spans_ok(b, p);
        assert(point_spans(b, p) == seq![span_at(b, p)]);
        if let Some(e) = oe {
            lemma_expr_spans_ok(b, e);
            lemma_all_ok_concat(b, seq![span_at(b, p)], expr_spans(b, e));
        }
    }
}

proof fn lemma_stmts_spans_ok(b: Seq<u8>, ss: Seq<Stmt>)
    requires
        b.len() <= usize::MAX,
        forall|i: int| 0 <= i < ss.len() ==> stmt_wf(b, #[trigger] ss[i]),
    ensures
        all_ok(b, stmts_spans(b, ss)),
    decreases ss,
{
    if ss.len() > 0 {
        let init = ss.subrange(0, ss.len() - 1);
        assert forall|i: int| 0 <= i < init.len() implies stmt_wf(b, #[trigger] init[i]) by {
            assert(init[i] == ss[i]);
        }
        lemma_stmts_spans_ok(b, init);
        lemma_stmt_spans_ok(b, ss[ss.len() - 1]);
        lemma_all_ok_concat(b, stmts_spans(b, init), stmt_spans(b, ss[ss.len() - 1]));
    }
}

proof fn lemma_own_span_emitted(b: Seq<u8>, s: Stmt)
    requires
        stmt_has_own_span(s),
    ensures
        stmt_spans(b, s).len() > 0,
{
}

proof fn lemma_stmts_spans_len(b: Seq<u8>, ss: Seq<Stmt>, i: int)
    requires
        0 <= i < ss.len(),
    ensures
        stmts_spans(b, ss).len() >= stmt_spans(b, ss[i]).len(),
    decreases ss.len(),
{
    let init = ss.subrange(0, ss.len() - 1);
    if i < ss.len() - 1 {
        assert(init[i] == ss[i]);
        lemma_stmts_spans_len(b, init, i);
    }
}

/// Spans of a well-formed tree lie within the script and cover visible text.
///
/// For a script whose syntax tree places every present position on a visible
/// character of its line (and each nested block's end after its start, within the
/// script), every extracted span satisfies `start <= end <= len(script)` and the
/// script's bytes `start..end` hold a character that is not whitespace. Where some
/// top-level statement emits a span of its own, the sequence is not empty.
pub proof fn law_extracted_spans_in_bounds(b: Seq<u8>, ast: Seq<Stmt>)
    requires
        b.len() <= usize::MAX,
        forall|i: int| 0 <= i < ast.len() ==> stmt_wf(b, #[trigger] ast[i]),
    ensures
        all_ok(b, stmts_spans(b, ast)),
        (exists|i: int| 0 <= i < ast.len() && stmt_has_own_span(#[trigger] ast[i])) ==> stmts_spans(
            b,
            ast,
        ).len() > 0,
{
    lemma_stmts_spans_ok(b, ast);
    if exists|i: int| 0 <= i < ast.len() && stmt_has_own_span(#[trigger] ast[i]) {
        let i = choose|i: int| 0 <= i < ast.len() && stmt_has_own_span(#[trigger] ast[i]);
        lemma_own_span_emitted(b, ast[i]);
        lemma_stmts_spans_len(b, ast, i);
    }
}

/// Extraction is deterministic: the same script and tree give the same spans.
pub proof fn law_extraction_deterministic(b1: Seq<u8>, ast1: Seq<Stmt>, b2: Seq<u8>, ast2: Seq<Stmt>)
    requires
        b1 == b2,
        ast1 == ast2,
    ensures
        stmts_spans(b1, ast1) == stmts_spans(b2, ast2),
{
}

} // verus!
