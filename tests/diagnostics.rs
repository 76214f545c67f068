use rhai::Engine;
use rhai_trace::error::{get_deepest_position, get_error_info, get_root_cause};
use rhai_trace::{BetterError, EvalError, Expr, ParseError, Position, ScriptFnSignature, Span, Stmt};

fn at(line: usize, pos: usize) -> Position {
    Position::new(line, pos)
}

fn atom(line: usize, pos: usize) -> Expr {
    Expr::Atom(at(line, pos))
}

fn sig(name: &str, params: &[&str]) -> ScriptFnSignature {
    ScriptFnSignature {
        name: name.to_string(),
        params: params.iter().map(|p| p.to_string()).collect(),
    }
}

fn no_functions() -> Result<Vec<ScriptFnSignature>, String> {
    Ok(Vec::new())
}

#[test]
fn test_better_error() {
    let code = r#"
fn multiply(x, y) { x * y }

multiply("a", 2);

return "test complete"
        "#;

    let engine = Engine::new();
    let tree = vec![
        Stmt::FnCall(vec![atom(4, 10), atom(4, 15)], at(4, 1)),
        Stmt::Return(Some(atom(6, 8)), at(6, 1)),
    ];
    let sig_text = "multiply (&str | ImmutableString | String, i64)";
    let error = EvalError::ErrorFunctionNotFound(sig_text.to_string(), at(4, 1));
    let message = format!("Function not found: {} (line 4, position 1)", sig_text);
    println!(
        "Better Error: {:#?}",
        BetterError::improve_eval_error(&error, &message, code, &Ok(tree), &engine)
    );
}

#[test]
fn arithmetic_error_is_not_wrapped() {
    let code = "let a = 1; let b = a / 0; return b";
    let tree = vec![
        Stmt::Var(atom(1, 9), at(1, 1)),
        Stmt::Var(Expr::FnCall(vec![atom(1, 20), atom(1, 24)], at(1, 22)), at(1, 12)),
        Stmt::Return(Some(atom(1, 34)), at(1, 27)),
    ];
    let error = EvalError::ErrorArithmetic("Division by zero: 1 / 0".to_string(), at(1, 22));
    let better = BetterError::improve_eval_error(
        &error,
        "Division by zero: 1 / 0 (line 1, position 22)",
        code,
        &Ok(tree),
        &Engine::new(),
    )
    .unwrap();
    assert_eq!(better.help.as_deref(), Some("Arithmetic error encountered."));
    assert_eq!(better.hint.as_deref(), Some("Division by zero: 1 / 0"));
    assert_eq!(better.note, None);
    assert_eq!(better.message, "Division by zero: 1 / 0 (line 1, position 22)");
    assert_eq!(better.span, Span::new(0, 34, 1, 1));
}

#[test]
fn unresolved_call_suggests_declared_signature() {
    let code = "\nfn multiply(x, y) { x * y }\n\nmultiply(\"a\", 2);\n";
    let tree = vec![Stmt::FnCall(vec![atom(4, 10), atom(4, 15)], at(4, 1))];
    let sig_text = "multiply (&str | ImmutableString | String, i64)";
    let error = EvalError::ErrorFunctionNotFound(sig_text.to_string(), at(4, 1));
    let better =
        BetterError::improve_eval_error(&error, "not found", code, &Ok(tree), &Engine::new()).unwrap();
    let hint = better.hint.unwrap();
    assert!(hint.contains("multiply(x, y)"));
    assert_eq!(hint, "Did you mean one of:\n  multiply(x, y)");
    assert_eq!(
        better.help.as_deref(),
        Some("Function 'multiply (&str | ImmutableString | String, i64)' not found with this argument list.")
    );
    assert_eq!(better.note, None);
    assert_eq!(better.span, Span::new(30, 47, 4, 1));
}

#[test]
fn unresolved_call_when_recompile_fails() {
    let code = "fn broken(";
    let error = EvalError::ErrorFunctionNotFound("f ()".to_string(), at(1, 1));
    let better =
        BetterError::improve_eval_error(&error, "not found", code, &Ok(vec![]), &Engine::new()).unwrap();
    let help = better.help.unwrap();
    assert!(help.starts_with("failed to compile for suggestions: "));
    assert!(help.len() > "failed to compile for suggestions: ".len());
    assert_eq!(better.hint, None);
    assert_eq!(better.note, None);
}

#[test]
fn absent_position_gives_zero_span() {
    let code = "let a = 1;";
    let tree = vec![Stmt::Var(atom(1, 9), at(1, 1))];
    let error = EvalError::ErrorRuntime(Position::none());
    let better =
        BetterError::improve_eval_error(&error, "Runtime error", code, &Ok(tree), &Engine::new()).unwrap();
    assert_eq!(better.span, Span::new(0, 0, 0, 0));
    assert_eq!(better.help.as_deref(), Some("Runtime error encountered."));
    assert_eq!(
        better.note.as_deref(),
        Some("A runtime error bubbled up from a lower-level operation.")
    );
    assert_eq!(Span::from_pos(code, &Position::none()), Span::new(0, 0, 0, 0));
}

#[test]
fn parse_error_diagnostic() {
    let code = "let x = (1 + 2;";
    let error = ParseError { message: "Syntax error: missing ')'".to_string(), position: at(1, 9) };
    let better = BetterError::improve_parse_error(&error, code);
    assert_eq!(better.help.as_deref(), Some("Syntax error detected."));
    let hint = better.hint.unwrap();
    assert!(hint.contains("missing tokens"));
    assert!(hint.contains("unmatched parentheses"));
    assert_eq!(better.note, None);
    assert_eq!(better.message, "Syntax error: missing ')'");
    assert_eq!(better.span, Span::new(8, 15, 1, 9));
}

#[test]
fn parse_failure_is_handed_back() {
    let error = EvalError::ErrorRuntime(at(1, 1));
    let parsed: Result<Vec<Stmt>, ParseError> =
        Err(ParseError { message: "bad".to_string(), position: at(2, 3) });
    let r = BetterError::improve_eval_error(&error, "m", "x(", &parsed, &Engine::new());
    let err = r.unwrap_err();
    assert_eq!(err.message, "bad");
    assert_eq!(err.position, at(2, 3));
}

#[test]
fn zero_candidates_fall_back() {
    let error = EvalError::ErrorFunctionNotFound("nope (i64)".to_string(), at(1, 1));
    let rec = Ok(vec![sig("other", &["a"])]);
    let info = get_error_info(&error, &error, &rec);
    assert_eq!(info.help, "Function 'nope (i64)' is not defined.");
    assert_eq!(info.hint, "Check spelling, module path, or argument count.");
    assert_eq!(info.note, "");
}

#[test]
fn candidates_match_trimmed_base_name() {
    let error = EvalError::ErrorFunctionNotFound("  multiply  (i64)".to_string(), at(1, 1));
    let rec = Ok(vec![sig("multiply", &["x", "y"]), sig("add", &["a", "b"]), sig("multiply", &[])]);
    let info = get_error_info(&error, &error, &rec);
    assert_eq!(info.hint, "Did you mean one of:\n  multiply(x, y)\n    multiply()");
}

#[test]
fn recompile_failure_text() {
    let error = EvalError::ErrorFunctionNotFound("f ()".to_string(), at(1, 1));
    let outer = EvalError::ErrorInFunctionCall("g".to_string(), String::new(), Box::new(error), at(1, 1));
    let root = get_root_cause(&outer);
    let info = get_error_info(root, &outer, &Err("boom".to_string()));
    assert_eq!(info.help, "failed to compile for suggestions: boom");
    assert_eq!(info.hint, "");
    assert_eq!(info.note, "");
}

#[test]
fn wrapper_notes_and_root_cause() {
    let inner = EvalError::ErrorVariableNotFound("x".to_string(), at(3, 7));
    let in_module = EvalError::ErrorInModule("m".to_string(), Box::new(inner), at(2, 1));
    let outer =
        EvalError::ErrorInFunctionCall("foo".to_string(), "src".to_string(), Box::new(in_module), at(1, 1));
    let root = get_root_cause(&outer);
    assert!(matches!(root, EvalError::ErrorVariableNotFound(..)));
    assert_eq!(get_deepest_position(&outer), at(3, 7));
    assert_eq!(outer.position(), at(1, 1));
    let info = get_error_info(root, &outer, &no_functions());
    assert_eq!(info.help, "Unknown variable 'x'.");
    assert_eq!(info.hint, "Check for typos or ensure the variable is initialized before use.");
    assert_eq!(
        info.note,
        "This error occurred during a call to 'foo'. Inspecting the function implementation and arguments passed may help solve this error."
    );

    let module_err =
        EvalError::ErrorInModule("m".to_string(), Box::new(EvalError::ErrorFor(at(1, 1))), at(1, 1));
    let info = get_error_info(get_root_cause(&module_err), &module_err, &no_functions());
    assert_eq!(info.help, "`for` loop value is not iterable.");
    assert_eq!(
        info.note,
        "This happened while loading the module 'm'. Tip: Check the module code for syntax or runtime errors"
    );
}

#[test]
fn wrapper_kinds_as_root() {
    let e = EvalError::ErrorInFunctionCall(
        "f".to_string(),
        "boom".to_string(),
        Box::new(EvalError::Return(at(1, 1))),
        at(1, 1),
    );
    let info = get_error_info(&e, &e, &no_functions());
    assert_eq!(info.help, "Error inside function 'f': boom");
    let m = EvalError::ErrorInModule("m".to_string(), Box::new(EvalError::Return(at(1, 1))), at(1, 1));
    let info = get_error_info(&m, &m, &no_functions());
    assert_eq!(info.help, "Error while loading module 'm'.");
}

#[test]
fn bounds_errors_format_numbers() {
    let e = EvalError::ErrorArrayBounds(3, -1, at(1, 1));
    let info = get_error_info(&e, &e, &no_functions());
    assert_eq!(info.help, "Array index -1 out of bounds (0..3).");
    let e = EvalError::ErrorStringBounds(10, 12, at(1, 1));
    let info = get_error_info(&e, &e, &no_functions());
    assert_eq!(info.help, "String index 12 out of bounds (0..10).");
    let e = EvalError::ErrorBitFieldBounds(64, 70, at(1, 1));
    let info = get_error_info(&e, &e, &no_functions());
    assert_eq!(info.help, "Bitfield index 70 out of bounds (0..64).");
}

#[test]
fn custom_syntax_lists_alternatives() {
    let e = EvalError::ErrorCustomSyntax("bad".to_string(), vec!["a".to_string(), "b".to_string()], at(1, 1));
    let info = get_error_info(&e, &e, &no_functions());
    assert_eq!(info.help, "Custom syntax error: bad.");
    assert_eq!(info.hint, "Expected one of: a, b.");
}

#[test]
fn every_kind_is_classified() {
    let p = at(1, 1);
    let s = || "n".to_string();
    let kinds = vec![
        EvalError::ErrorParsing(p),
        EvalError::ErrorVariableExists(s(), p),
        EvalError::ErrorForbiddenVariable(s(), p),
        EvalError::ErrorVariableNotFound(s(), p),
        EvalError::ErrorPropertyNotFound(s(), p),
        EvalError::ErrorFunctionNotFound(s(), p),
        EvalError::ErrorModuleNotFound(s(), p),
        EvalError::ErrorInFunctionCall(s(), s(), Box::new(EvalError::ErrorFor(p)), p),
        EvalError::ErrorInModule(s(), Box::new(EvalError::ErrorFor(p)), p),
        EvalError::ErrorUnboundThis(p),
        EvalError::ErrorMismatchDataType(s(), s(), p),
        EvalError::ErrorMismatchOutputType(s(), s(), p),
        EvalError::ErrorIndexingType(s(), p),
        EvalError::ErrorArrayBounds(1, 2, p),
        EvalError::ErrorStringBounds(1, 2, p),
        EvalError::ErrorBitFieldBounds(1, 2, p),
        EvalError::ErrorFor(p),
        EvalError::ErrorDataRace(s(), p),
        EvalError::ErrorAssignmentToConstant(s(), p),
        EvalError::ErrorDotExpr(s(), p),
        EvalError::ErrorArithmetic(s(), p),
        EvalError::ErrorTooManyOperations(p),
        EvalError::ErrorTooManyModules(p),
        EvalError::ErrorStackOverflow(p),
        EvalError::ErrorDataTooLarge(s(), p),
        EvalError::ErrorTerminated(p),
        EvalError::ErrorCustomSyntax(s(), vec![], p),
        EvalError::ErrorRuntime(p),
        EvalError::LoopBreak(p),
        EvalError::Return(p),
        EvalError::Unclassified(p),
    ];
    for e in &kinds {
        let info = get_error_info(get_root_cause(e), e, &no_functions());
        assert!(!info.help.is_empty());
        assert!(!info.hint.is_empty());
        assert_eq!(e.position(), p);
    }
    let u = EvalError::Unclassified(p);
    let info = get_error_info(&u, &u, &no_functions());
    assert_eq!(info.help, "Unknown error");
    assert_eq!(info.hint, "No additional information available for this error.");
    assert_eq!(info.note, "");
}

#[test]
fn find_span_prefers_covering_span() {
    let spans = vec![Span::new(0, 3, 1, 1), Span::new(10, 20, 2, 1), Span::new(14, 20, 2, 5)];
    assert_eq!(BetterError::find_span_for_position(&spans, 2, 5), Some(Span::new(10, 20, 2, 1)));
    let spans = vec![Span::new(10, 12, 2, 1), Span::new(14, 20, 2, 5)];
    assert_eq!(BetterError::find_span_for_position(&spans, 2, 8), Some(Span::new(14, 20, 2, 5)));
    // No span covers the column: the first on the line is taken.
    assert_eq!(BetterError::find_span_for_position(&spans, 2, 40), Some(Span::new(10, 12, 2, 1)));
    assert_eq!(BetterError::find_span_for_position(&spans, 3, 1), None);
    assert_eq!(BetterError::find_span_for_position(&[], 1, 1), None);
}

#[test]
fn find_span_tolerates_inverted_spans() {
    let spans = vec![Span::new(9, 2, 1, 1), Span::new(0, usize::MAX, usize::MAX, usize::MAX)];
    assert_eq!(BetterError::find_span_for_position(&spans, 1, 1), Some(Span::new(9, 2, 1, 1)));
    assert_eq!(
        BetterError::find_span_for_position(&spans, usize::MAX, usize::MAX),
        Some(Span::new(0, usize::MAX, usize::MAX, usize::MAX))
    );
}

#[test]
fn diagnose_falls_back_to_zero_length_span() {
    let e = EvalError::ErrorStackOverflow(at(7, 3));
    let d = BetterError::diagnose(&e, "overflow", &[Span::new(0, 4, 1, 1)], &no_functions());
    assert_eq!(d.span, Span::new(0, 0, 7, 3));
    assert_eq!(d.help.as_deref(), Some("Call stack overflow detected."));
    assert_eq!(d.note, None);
}
