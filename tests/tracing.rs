use rhai_trace::{Expr, FlowControl, Position, Span, SpanTracer, Stmt};

fn at(line: usize, pos: usize) -> Position {
    Position::new(line, pos)
}

fn atom(line: usize, pos: usize) -> Expr {
    Expr::Atom(at(line, pos))
}

/// The statements rhai parses from the script of `test_span_extraction`.
fn extraction_tree() -> Vec<Stmt> {
    vec![
        Stmt::Var(atom(2, 21), at(2, 13)),
        Stmt::Var(Expr::FnCall(vec![atom(3, 21), atom(3, 25)], at(3, 23)), at(3, 13)),
        Stmt::Var(Expr::FnCall(vec![atom(5, 21), atom(5, 23)], at(5, 22)), at(5, 13)),
        Stmt::Var(Expr::FnCall(vec![atom(6, 25), atom(6, 28)], at(6, 21)), at(6, 13)),
    ]
}

#[test]
fn test_span_extraction() {
    let code = r#"
            let a = 42;
            let b = a + 1;
            fn add(x, y) { x + y }
            let z = a/0;
            let c = add(a, b);
        "#;

    let tracer = SpanTracer::new();
    let spans = tracer.extract_from(code, &extraction_tree());

    assert!(!spans.is_empty(), "There should be some spans extracted");

    for span in &spans {
        assert!(span.start() <= span.end(), "Span start should be <= end");
        assert!(span.end() <= code.len(), "Span end should not exceed code length");

        let snippet = &code[span.start()..span.end()];
        assert!(!snippet.trim().is_empty(), "Span content should not be empty");
    }

    for span in &spans {
        println!("Span: {:?} -> '{}'", span, &code[span.start()..span.end()]);
    }
}

#[test]
fn extraction_order_and_offsets() {
    let code = "let a = 42;\nlet b = a + 1;\n";
    let tree = vec![
        Stmt::Var(atom(1, 9), at(1, 1)),
        Stmt::Var(Expr::FnCall(vec![atom(2, 9), atom(2, 13)], at(2, 11)), at(2, 1)),
    ];
    let spans = SpanTracer::new().extract_from(code, &tree);
    let got: Vec<(usize, usize, usize, usize)> =
        spans.iter().map(|s| (s.start(), s.end(), s.line(), s.column())).collect();
    // The call emits no span of its own: its first argument stands in as anchor.
    assert_eq!(
        got,
        vec![
            (0, 11, 1, 1),
            (8, 11, 1, 9),
            (12, 26, 2, 1),
            (20, 26, 2, 9),
            (20, 26, 2, 9),
            (24, 26, 2, 13),
        ]
    );
}

#[test]
fn extraction_is_deterministic() {
    let code = r#"
            let a = 42;
            let b = a + 1;
            fn add(x, y) { x + y }
            let z = a/0;
            let c = add(a, b);
        "#;
    let tracer = SpanTracer::new();
    let first = tracer.extract_from(code, &extraction_tree());
    let second = tracer.extract_from(code, &extraction_tree());
    assert_eq!(first, second);
}

#[test]
fn absent_positions_emit_nothing() {
    let code = "x = 1;";
    let tree = vec![
        Stmt::Noop(Position::none()),
        Stmt::Var(atom(1, 5), Position::none()),
        Stmt::Inert,
        Stmt::Expr(Expr::Unpositioned),
    ];
    assert!(SpanTracer::new().extract_from(code, &tree).is_empty());
}

#[test]
fn extraction_of_empty_tree_is_empty() {
    assert!(SpanTracer::new().extract_from("", &[]).is_empty());
}

#[test]
fn flow_block_and_collections() {
    let code = "if x { [1, 2] }\n{ #{a: 3} }\nreturn y;";
    let tree = vec![
        Stmt::If(
            FlowControl {
                expr: atom(1, 4),
                body: vec![Stmt::Expr(Expr::Array(vec![atom(1, 9), atom(1, 12)], at(1, 8)))],
                branch: vec![],
            },
            at(1, 1),
        ),
        Stmt::Block(
            vec![Stmt::Expr(Expr::MapLiteral(vec![atom(2, 8)], at(2, 3)))],
            at(2, 1),
            at(2, 11),
        ),
        Stmt::Return(Some(atom(3, 8)), at(3, 1)),
    ];
    let spans = SpanTracer::new().extract_from(code, &tree);
    let got: Vec<(usize, usize)> = spans.iter().map(|s| (s.start(), s.end())).collect();
    assert_eq!(
        got,
        vec![(0, 15), (3, 15), (7, 15), (8, 15), (11, 15), (16, 26), (18, 27), (23, 27), (28, 37), (35, 37)]
    );
}

#[test]
fn assignment_walks_both_operands() {
    let code = "x = y;";
    let tree = vec![Stmt::Assignment(atom(1, 1), atom(1, 5))];
    let spans = SpanTracer::new().extract_from(code, &tree);
    assert_eq!(spans, vec![Span::new(0, 6, 1, 1), Span::new(4, 6, 1, 5)]);
}

#[test]
fn statement_call_emits_own_span_and_anchor() {
    let code = "f(a, b);";
    let tree = vec![Stmt::FnCall(vec![atom(1, 3), atom(1, 6)], at(1, 1))];
    let spans = SpanTracer::new().extract_from(code, &tree);
    assert_eq!(
        spans,
        vec![Span::new(0, 8, 1, 1), Span::new(2, 8, 1, 3), Span::new(2, 8, 1, 3), Span::new(5, 8, 1, 6)]
    );
}

#[test]
fn block_expression_takes_first_statement_position() {
    let code = "let v = { 1 };";
    let tree = vec![Stmt::Var(Expr::Stmt(vec![Stmt::Expr(atom(1, 11))]), at(1, 1))];
    let spans = SpanTracer::new().extract_from(code, &tree);
    assert_eq!(spans, vec![Span::new(0, 14, 1, 1), Span::new(10, 14, 1, 11)]);
}

#[test]
fn from_pos_absent_is_zero_span() {
    let span = Span::from_pos("let a = 1;", &Position::none());
    assert_eq!(span, Span::new(0, 0, 0, 0));
}

#[test]
fn from_pos_runs_to_end_of_line() {
    let code = "ab\ncdef\ng";
    assert_eq!(Span::from_pos(code, &at(2, 2)), Span::new(4, 7, 2, 2));
    assert_eq!(Span::from_pos(code, &at(3, 1)), Span::new(8, 9, 3, 1));
}

#[test]
fn from_pos_past_last_line_is_empty_line() {
    let code = "ab\n";
    assert_eq!(Span::from_pos(code, &at(2, 1)), Span::new(3, 3, 2, 1));
    assert_eq!(Span::from_pos(code, &at(5, 1)), Span::new(3, 3, 5, 1));
    let code = "ab";
    assert_eq!(Span::from_pos(code, &at(2, 1)), Span::new(3, 3, 2, 1));
}

#[test]
fn pos_to_byte_sums_lines() {
    let code = "one\ntwo\nthree";
    assert_eq!(rhai_trace::span::pos_to_byte(code, &at(3, 4)), 11);
    assert_eq!(rhai_trace::span::pos_to_byte(code, &Position::none()), 0);
}

#[test]
fn span_between_positions() {
    let code = "{\n  x\n}";
    let s = Span::from_rhai_start_end_pos(code, &at(1, 1), &at(3, 1));
    assert_eq!(s, Span::new(0, 6, 1, 1));
    let s = Span::from_rhai_span(code, &at(1, 1), &at(3, 1), &at(2, 3));
    assert_eq!(s, Span::new(0, 6, 2, 3));
}

#[test]
fn span_getters() {
    let span = Span::new(10, 20, 2, 5);
    assert_eq!((span.start(), span.end(), span.line(), span.column()), (10, 20, 2, 5));
}
