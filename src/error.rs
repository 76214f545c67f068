use crate::ast::Stmt;
use crate::span::{span_at, Position, Span};
use crate::text::{
    before_char, concat3, concat5, decimal, int_text, join, join_strings, text_before, texts,
    trim_text, trimmed,
};
use crate::tracer::{stmts_spans, SpanTracer};
use vstd::prelude::*;
use vstd::string::StringSliceAdditionalSpecFns;

verus! {

/// An error raised by the host while evaluating a script.
///
/// Two kinds wrap another error: a failure inside a called function and a failure
/// while loading a module. Every kind carries the position the host reported.
#[derive(Debug)]
pub enum EvalError {
    /// A syntax error found while parsing.
    ErrorParsing(Position),
    /// A variable declared twice.
    ErrorVariableExists(String, Position),
    /// A reserved or protected variable used.
    ErrorForbiddenVariable(String, Position),
    /// An unknown variable.
    ErrorVariableNotFound(String, Position),
    /// An unknown property.
    ErrorPropertyNotFound(String, Position),
    /// A call that resolves to no function; holds the call's signature.
    ErrorFunctionNotFound(String, Position),
    /// A module that cannot be found.
    ErrorModuleNotFound(String, Position),
    /// A failure inside a called function: its name, the call's source, and the inner error.
    ErrorInFunctionCall(String, String, Box<EvalError>, Position),
    /// A failure while loading a module: its name and the inner error.
    ErrorInModule(String, Box<EvalError>, Position),
    /// `this` without a binding.
    ErrorUnboundThis(Position),
    /// A value of the wrong type: the type found and the one expected.
    ErrorMismatchDataType(String, String, Position),
    /// A result of the wrong type: the type found and the one expected.
    ErrorMismatchOutputType(String, String, Position),
    /// Indexing into a value that cannot be indexed; holds its type.
    ErrorIndexingType(String, Position),
    /// An array index out of bounds: the length and the index.
    ErrorArrayBounds(usize, i64, Position),
    /// A string index out of bounds: the length and the index.
    ErrorStringBounds(usize, i64, Position),
    /// A bit-field index out of bounds: the length and the index.
    ErrorBitFieldBounds(usize, i64, Position),
    /// A `for` over a value that cannot be iterated.
    ErrorFor(Position),
    /// A data race on a shared value.
    ErrorDataRace(String, Position),
    /// An assignment to a constant.
    ErrorAssignmentToConstant(String, Position),
    /// An invalid member access.
    ErrorDotExpr(String, Position),
    /// An arithmetic error, with the host's message.
    ErrorArithmetic(String, Position),
    /// The operations limit was exceeded.
    ErrorTooManyOperations(Position),
    /// The modules limit was exceeded.
    ErrorTooManyModules(Position),
    /// The call stack overflowed.
    ErrorStackOverflow(Position),
    /// A value too large to handle.
    ErrorDataTooLarge(String, Position),
    /// Evaluation was terminated.
    ErrorTerminated(Position),
    /// A custom-syntax error: the message and the valid continuations.
    ErrorCustomSyntax(String, Vec<String>, Position),
    /// A runtime error raised by the script.
    ErrorRuntime(Position),
    /// `break` outside of a loop.
    LoopBreak(Position),
    /// `return` at the top level.
    Return(Position),
    /// Any other error.
    Unclassified(Position),
}

/// A parse error of the host: its message and position.
#[derive(Debug)]
pub struct ParseError {
    pub message: String,
    pub position: Position,
}

/// A function declared by a script: its name and the names of its parameters.
#[derive(Debug)]
pub struct ScriptFnSignature {
    pub name: String,
    pub params: Vec<String>,
}

/// Help, hint and note for an error; an empty text stands for none.
#[derive(Debug)]
pub struct ErrorHelp {
    pub help: String,
    pub hint: String,
    pub note: String,
}

/// A structured diagnostic for an error in a script.
#[derive(Debug)]
pub struct BetterError {
    pub message: String,
    pub help: Option<String>,
    pub hint: Option<String>,
    pub note: Option<String>,
    pub span: Span,
}

/// The host's script engine, handed in to compile a script anew.
#[verifier::external_type_specification]
#[verifier::external_body]
pub struct ExEngine(rhai::Engine);

/// The innermost error reached by unwrapping the two wrapper kinds.
pub open spec fn root_cause(e: EvalError) -> EvalError
    decreases e,
{
    match e {
        EvalError::ErrorInFunctionCall(_, _, inner, _) => root_cause(*inner),
        EvalError::ErrorInModule(_, inner, _) => root_cause(*inner),
        _ => e,
    }
}

/// The position reported by the innermost error.
pub open spec fn deepest_pos(e: EvalError) -> Position
    decreases e,
{
    match e {
        EvalError::ErrorInFunctionCall(_, _, inner, _) => deepest_pos(*inner),
        EvalError::ErrorInModule(_, inner, _) => deepest_pos(*inner),
        _ => error_pos(e),
    }
}

/// What a recompilation gave: the declared functions, or the parse error's text.
pub open spec fn recompiled_view(r: Result<Vec<ScriptFnSignature>, String>) -> Result<
    Seq<ScriptFnSignature>,
    Seq<char>,
> {
    match r {
        Ok(v) => Ok(v@),
        Err(e) => Err(e@),
    }
}

/// The base name of a call signature: its text before the first `(`, trimmed.
pub open spec fn base_name(sig: Seq<char>) -> Seq<char> {
    trimmed(before_char(sig, '('))
}

/// A function signature as `name(p1, p2, ...)`.
pub open spec fn sig_text(f: ScriptFnSignature) -> Seq<char> {
    f.name@ + "("@ + join(texts(f.params@), ", "@) + ")"@
}

/// The signatures of the declared functions named `base`, in declaration order.
pub open spec fn candidates(sigs: Seq<ScriptFnSignature>, base: Seq<char>) -> Seq<Seq<char>>
    decreases sigs.len(),
{
    if sigs.len() == 0 {
        seq![]
    } else {
        let init = candidates(sigs.subrange(0, sigs.len() - 1), base);
        let f = sigs[sigs.len() - 1];
        if f.name@ == base {
            init.push(sig_text(f))
        } else {
            init
        }
    }
}

/// The fallback hint for an unresolved call with no candidate.
pub open spec fn not_found_fallback() -> Seq<char> {
    "Check spelling, module path, or argument count."@
}

/// Help and hint for an unresolved call to `sig`, given the declared functions.
pub open spec fn not_found_help(sig: Seq<char>, sigs: Seq<ScriptFnSignature>) -> (Seq<char>, Seq<char>) {
    let c = candidates(sigs, base_name(sig));
    if c.len() > 0 {
        (
            "Function '"@ + sig + "' not found with this argument list."@,
            "Did you mean one of:\n  "@ + join(c, "\n    "@),
        )
    } else {
        ("Function '"@ + sig + "' is not defined."@, not_found_fallback())
    }
}

/// Whether classification stopped because the script could not be compiled anew.
pub open spec fn recompile_failed(root: EvalError, rec: Result<Seq<ScriptFnSignature>, Seq<char>>) -> bool {
    root is ErrorFunctionNotFound && rec is Err
}

/// The note for an error before unwrapping: it names the called function or the
/// loaded module, or says that a runtime error bubbled up; otherwise it is empty.
pub open spec fn note_of(outer: EvalError) -> Seq<char> {
    match outer {
        EvalError::ErrorInFunctionCall(name, _, _, _) => "This error occurred during a call to '"@
            + name@
            + "'. Inspecting the function implementation and arguments passed may help solve this error."@,
        EvalError::ErrorInModule(name, _, _) => "This happened while loading the module '"@ + name@
            + "'. Tip: Check the module code for syntax or runtime errors"@,
        EvalError::ErrorRuntime(_) => "A runtime error bubbled up from a lower-level operation."@,
        _ => seq![],
    }
}

/// Help, hint and note for an error whose root cause is `root`.
pub open spec fn error_info(
    root: EvalError,
    outer: EvalError,
    rec: Result<Seq<ScriptFnSignature>, Seq<char>>,
) -> (Seq<char>, Seq<char>, Seq<char>) {
    let (help, hint) = help_hint(root, rec);
    (help, hint, if recompile_failed(root, rec) {
        seq![]
    } else {
        note_of(outer)
    })
}

/// Help and hint for a root cause.
pub open spec fn help_hint(root: EvalError, rec: Result<Seq<ScriptFnSignature>, Seq<char>>) -> (
    Seq<char>,
    Seq<char>,
) {
    match root {
        EvalError::ErrorFunctionNotFound(sig, _) => match rec {
            Ok(sigs) => not_found_help(sig@, sigs),
            Err(e) => ("failed to compile for suggestions: "@ + e, seq![]),
        },
        EvalError::ErrorParsing(_) => (
            "Syntax error encountered while parsing."@,
            "Check for unmatched tokens, invalid constructs, or misplaced punctuation."@,
        ),
        EvalError::ErrorVariableExists(name, _) => (
            "Variable '"@ + name@ + "' is already defined."@,
            "Remove or rename the duplicate declaration."@,
        ),
        EvalError::ErrorForbiddenVariable(name, _) => (
            "Usage of forbidden variable '"@ + name@ + "'."@,
            "Avoid using reserved or protected variable names."@,
        ),
        EvalError::ErrorVariableNotFound(name, _) => (
            "Unknown variable '"@ + name@ + "'."@,
            "Check for typos or ensure the variable is initialized before use."@,
        ),
        EvalError::ErrorPropertyNotFound(name, _) => (
            "Property '"@ + name@ + "' not found on this object."@,
            "Verify the property name and the object’s available fields."@,
        ),
        EvalError::ErrorModuleNotFound(name, _) => (
            "Module '"@ + name@ + "' could not be located."@,
            "Check that the path is correct, the module is imported, and its code is valid."@,
        ),
        EvalError::ErrorInFunctionCall(name, msg, _inner, _) => (
            "Error inside function '"@ + name@ + "': "@ + msg@,
            "Inspect the function implementation and arguments passed."@,
        ),
        EvalError::ErrorInModule(name, _inner, _) => (
            "Error while loading module '"@ + name@ + "'."@,
            "Check the module code for syntax or runtime errors."@,
        ),
        EvalError::ErrorUnboundThis(_) => (
            "`this` is unbound in this context."@,
            "Only use `this` inside methods or bound closures."@,
        ),
        EvalError::ErrorMismatchDataType(found, expected, _) => (
            "Data type mismatch: found '"@ + found@ + "', expected '"@ + expected@ + "'."@,
            "Convert or cast values to the required type."@,
        ),
        EvalError::ErrorMismatchOutputType(found, expected, _) => (
            "Return type mismatch: found '"@ + found@ + "', expected '"@ + expected@ + "'."@,
            "Ensure your function returns the correct type."@,
        ),
        EvalError::ErrorIndexingType(typ, _) => (
            "Cannot index into value of type '"@ + typ@ + "'."@,
            "Only arrays, maps, bitfields, or strings support indexing."@,
        ),
        EvalError::ErrorArrayBounds(len, idx, _) => (
            "Array index "@ + decimal(idx as int) + " out of bounds (0.."@ + decimal(len as int) + ")."@,
            "Use a valid index within the array’s range."@,
        ),
        EvalError::ErrorStringBounds(len, idx, _) => (
            "String index "@ + decimal(idx as int) + " out of bounds (0.."@ + decimal(len as int) + ")."@,
            "Ensure you index only valid character positions."@,
        ),
        EvalError::ErrorBitFieldBounds(len, idx, _) => (
            "Bitfield index "@ + decimal(idx as int) + " out of bounds (0.."@ + decimal(len as int) + ")."@,
            "Use a valid bit position within the bitfield’s size."@,
        ),
        EvalError::ErrorFor(_) => (
            "`for` loop value is not iterable."@,
            "Iterate only over arrays, strings, ranges, or iterators."@,
        ),
        EvalError::ErrorDataRace(name, _) => (
            "Data race detected on '"@ + name@ + "'."@,
            "Avoid shared mutable data or use synchronization primitives."@,
        ),
        EvalError::ErrorAssignmentToConstant(name, _) => (
            "Cannot assign to constant '"@ + name@ + "'."@,
            "Constants cannot be reassigned after declaration."@,
        ),
        EvalError::ErrorDotExpr(field, _) => (
            "Invalid member access '"@ + field@ + "'."@,
            "Verify the object has this member or method."@,
        ),
        EvalError::ErrorArithmetic(msg, _) => (
            "Arithmetic error encountered."@,
            msg@,
        ),
        EvalError::ErrorTooManyOperations(_) => (
            "Script exceeded the maximum number of operations."@,
            "Break complex expressions into smaller steps or increase the limit."@,
        ),
        EvalError::ErrorTooManyModules(_) => (
            "Too many modules have been loaded."@,
            "Use fewer modules or increase the module limit."@,
        ),
        EvalError::ErrorStackOverflow(_) => (
            "Call stack overflow detected."@,
            "Check for infinite recursion or deeply nested calls."@,
        ),
        EvalError::ErrorDataTooLarge(name, _) => (
            "Data '"@ + name@ + "' is too large to handle."@,
            "Use smaller data sizes or adjust engine limits."@,
        ),
        EvalError::ErrorTerminated(_) => (
            "Script execution was terminated."@,
            "This occurs when a `stop` or external termination is triggered."@,
        ),
        EvalError::ErrorCustomSyntax(msg, options, _) => (
            "Custom syntax error: "@ + msg@ + "."@,
            "Expected one of: "@ + join(texts(options@), ", "@) + "."@,
        ),
        EvalError::ErrorRuntime(_) => (
            "Runtime error encountered."@,
            "Inspect the error message and script logic for issues."@,
        ),
        EvalError::LoopBreak(_) => (
            "`break` used outside of a loop."@,
            "Only use `break` inside `for` or `while` loops."@,
        ),
        EvalError::Return(_) => (
            "`return` statement encountered."@,
            "Script terminated with an explicit return value."@,
        ),
        EvalError::Unclassified(_) => (
            "Unknown error"@,
            "No additional information available for this error."@,
        ),
    }
}

/// The position an error reports.
pub open spec fn error_pos(e: EvalError) -> Position {
    match e {
        EvalError::ErrorParsing(p) => p,
        EvalError::ErrorVariableExists(_, p) => p,
        EvalError::ErrorForbiddenVariable(_, p) => p,
        EvalError::ErrorVariableNotFound(_, p) => p,
        EvalError::ErrorPropertyNotFound(_, p) => p,
        EvalError::ErrorModuleNotFound(_, p) => p,
        EvalError::ErrorInFunctionCall(_, _, _, p) => p,
        EvalError::ErrorInModule(_, _, p) => p,
        EvalError::ErrorUnboundThis(p) => p,
        EvalError::ErrorMismatchDataType(_, _, p) => p,
        EvalError::ErrorMismatchOutputType(_, _, p) => p,
        EvalError::ErrorIndexingType(_, p) => p,
        EvalError::ErrorArrayBounds(_, _, p) => p,
        EvalError::ErrorStringBounds(_, _, p) => p,
        EvalError::ErrorBitFieldBounds(_, _, p) => p,
        EvalError::ErrorFor(p) => p,
        EvalError::ErrorDataRace(_, p) => p,
        EvalError::ErrorAssignmentToConstant(_, p) => p,
        EvalError::ErrorDotExpr(_, p) => p,
        EvalError::ErrorArithmetic(_, p) => p,
        EvalError::ErrorTooManyOperations(p) => p,
        EvalError::ErrorTooManyModules(p) => p,
        EvalError::ErrorStackOverflow(p) => p,
        EvalError::ErrorDataTooLarge(_, p) => p,
        EvalError::ErrorTerminated(p) => p,
        EvalError::ErrorCustomSyntax(_, _, p) => p,
        EvalError::ErrorRuntime(p) => p,
        EvalError::LoopBreak(p) => p,
        EvalError::Return(p) => p,
        EvalError::Unclassified(p) => p,
        EvalError::ErrorFunctionNotFound(_, p) => p,
    }
}

/// A text, or nothing where it is empty.
pub open spec fn opt_text(s: Seq<char>) -> Option<Seq<char>> {
    if s.len() == 0 {
        None
    } else {
        Some(s)
    }
}

/// The text of an optional string.
pub open spec fn opt_view(o: Option<String>) -> Option<Seq<char>> {
    match o {
        Some(s) => Some(s@),
        None => None,
    }
}

/// Whether `s` is on `line` and `column` lies within
/// `[s.column, s.column + (s.end - s.start)]`.
pub open spec fn covers(s: Span, line: usize, column: usize) -> bool {
    s.line == line && s.column <= column && column <= s.column + (s.end - s.start)
}

/// The first span at or after index `i` that covers `(line, column)`, or, where
/// `exact` is false, that lies on `line`.
pub open spec fn first_from(spans: Seq<Span>, i: int, line: usize, column: usize, exact: bool) -> Option<
    Span,
>
    decreases spans.len() - i,
{
    if i < 0 || i >= spans.len() {
        None
    } else if (if exact {
        covers(spans[i], line, column)
    } else {
        spans[i].line == line
    }) {
        Some(spans[i])
    } else {
        first_from(spans, i + 1, line, column, exact)
    }
}

/// The span that best encloses `(line, column)`: the first that covers it, else the
/// first on its line, else none.
pub open spec fn find_span(spans: Seq<Span>, line: usize, column: usize) -> Option<Span> {
    match first_from(spans, 0, line, column, true) {
        Some(s) => Some(s),
        None => first_from(spans, 0, line, column, false),
    }
}

/// The span of a diagnostic for an error at `p`: the best enclosing span, or the
/// zero-length span at `p` where no span lies on its line.
pub open spec fn correlated_span(spans: Seq<Span>, p: Position) -> Span {
    match find_span(spans, p.line, p.pos) {
        Some(s) => s,
        None => Span { start: 0, end: 0, line: p.line, column: p.pos },
    }
}

/// Whether `d` reports `message`, the help, hint and note of `info` (each empty text
/// as none) and `span`.
pub open spec fn diagnosis_is(
    d: BetterError,
    message: Seq<char>,
    info: (Seq<char>, Seq<char>, Seq<char>),
    span: Span,
) -> bool {
    &&& d.message@ == message
    &&& opt_view(d.help) == opt_text(info.0)
    &&& opt_view(d.hint) == opt_text(info.1)
    &&& opt_view(d.note) == opt_text(info.2)
    &&& d.span == span
}

impl EvalError {
    /// The position this error reports.
    pub fn position(&self) -> (r: Position)
        ensures
            r == error_pos(*self),
    {
        match self {
            EvalError::ErrorParsing(p) => *p,
            EvalError::ErrorVariableExists(_, p) => *p,
            EvalError::ErrorForbiddenVariable(_, p) => *p,
            EvalError::ErrorVariableNotFound(_, p) => *p,
            EvalError::ErrorPropertyNotFound(_, p) => *p,
            EvalError::ErrorModuleNotFound(_, p) => *p,
            EvalError::ErrorInFunctionCall(_, _, _, p) => *p,
            EvalError::ErrorInModule(_, _, p) => *p,
            EvalError::ErrorUnboundThis(p) => *p,
            EvalError::ErrorMismatchDataType(_, _, p) => *p,
            EvalError::ErrorMismatchOutputType(_, _, p) => *p,
            EvalError::ErrorIndexingType(_, p) => *p,
            EvalError::ErrorArrayBounds(_, _, p) => *p,
            EvalError::ErrorStringBounds(_, _, p) => *p,
            EvalError::ErrorBitFieldBounds(_, _, p) => *p,
            EvalError::ErrorFor(p) => *p,
            EvalError::ErrorDataRace(_, p) => *p,
            EvalError::ErrorAssignmentToConstant(_, p) => *p,
            EvalError::ErrorDotExpr(_, p) => *p,
            EvalError::ErrorArithmetic(_, p) => *p,
            EvalError::ErrorTooManyOperations(p) => *p,
            EvalError::ErrorTooManyModules(p) => *p,
            EvalError::ErrorStackOverflow(p) => *p,
            EvalError::ErrorDataTooLarge(_, p) => *p,
            EvalError::ErrorTerminated(p) => *p,
            EvalError::ErrorCustomSyntax(_, _, p) => *p,
            EvalError::ErrorRuntime(p) => *p,
            EvalError::LoopBreak(p) => *p,
            EvalError::Return(p) => *p,
            EvalError::Unclassified(p) => *p,
            EvalError::ErrorFunctionNotFound(_, p) => *p,
        }
    }
}

/// The root cause of an error.
pub fn get_root_cause(err: &EvalError) -> (r: &EvalError)
    ensures
        *r == root_cause(*err),
    decreases err,
{
    match err {
        EvalError::ErrorInFunctionCall(_, _, inner, _) => get_root_cause(inner),
        EvalError::ErrorInModule(_, inner, _) => get_root_cause(inner),
        _ => err,
    }
}

/// The position reported by the innermost error.
pub fn get_deepest_position(err: &EvalError) -> (r: Position)
    ensures
        r == deepest_pos(*err),
    decreases err,
{
    match err {
        EvalError::ErrorInFunctionCall(_, _, inner, _) => get_deepest_position(inner),
        EvalError::ErrorInModule(_, inner, _) => get_deepest_position(inner),
        _ => err.position(),
    }
}

/// Relies on rhai's `Engine::compile`, and on `AST::iter_functions` for the name and
/// parameter names of each function the compiled script declares; a failed compile
/// gives the text of its parse error.
#[verifier::external_body]
fn compile_signatures(engine: &rhai::Engine, code: &str) -> (r: Result<Vec<ScriptFnSignature>, String>) {
    match engine.compile(code) {
        Ok(ast) => Ok(
            ast.iter_functions().map(
                |f| ScriptFnSignature {
                    name: f.name.to_string(),
                    params: f.params.iter().map(|p| p.to_string()).collect(),
                },
            ).collect(),
        ),
        Err(err) => Err(err.to_string()),
    }
}

/// A function signature as `name(p1, p2, ...)`.
fn signature_text(f: &ScriptFnSignature) -> (r: String)
    ensures
        r@ == sig_text(*f),
{
    concat3(f.name.as_str(), "(", join_strings(&f.params, ", ").as_str()).concat(")")
}

proof fn lemma_texts_push(v: Seq<String>, s: String)
    ensures
        texts(v.push(s)) == texts(v).push(s@),
{
    assert(texts(v.push(s)) =~= texts(v).push(s@));
}

/// Help and hint for an unresolved call to `sig`, given the functions the script declares.
fn suggest(sig: &String, sigs: &Vec<ScriptFnSignature>) -> (r: (String, String))
    ensures
        (r.0@, r.1@) == not_found_help(sig@, sigs@),
{
    let base = trim_text(text_before(sig.as_str(), '(').as_str());
    let mut found: Vec<String> = Vec::new();
    let mut i: usize = 0;
    while i < sigs.len()
        invariant
            i <= sigs@.len(),
            base@ == base_name(sig@),
            texts(found@) == candidates(sigs@.subrange(0, i as int), base@),
        decreases sigs@.len() - i,
    {
        let ghost prefix = sigs@.subrange(0, i + 1);
        assert(prefix.subrange(0, prefix.len() - 1) =~= sigs@.subrange(0, i as int));
        if sigs[i].name == base {
            let text = signature_text(&sigs[i]);
            proof {
                lemma_texts_push(found@, text);
            }
            found.push(text);
        }
        i = i + 1;
    }
    assert(sigs@.subrange(0, sigs@.len() as int) =~= sigs@);
    if found.len() > 0 {
        (
            concat3("Function '", sig.as_str(), "' not found with this argument list."),
            String::from_str("Did you mean one of:\n  ").concat(join_strings(&found, "\n    ").as_str()),
        )
    } else {
        (
            concat3("Function '", sig.as_str(), "' is not defined."),
            String::from_str("Check spelling, module path, or argument count."),
        )
    }
}

/// Help, hint and note for an error: `root` is its root cause, `outer` the error
/// before unwrapping, and `recompiled` what compiling the script anew gave, which is
/// read only where the root cause is an unresolved call.
pub fn get_error_info(
    root: &EvalError,
    outer: &EvalError,
    recompiled: &Result<Vec<ScriptFnSignature>, String>,
) -> (r: ErrorHelp)
    ensures
        (r.help@, r.hint@, r.note@) == error_info(*root, *outer, recompiled_view(*recompiled)),
        root is ErrorFunctionNotFound && recompiled is Ok && candidates(
            recompiled->Ok_0@,
            base_name(root->ErrorFunctionNotFound_0@),
        ).len() == 0 ==> r.hint@ == not_found_fallback(),
{
    let (help, hint) = match root {
        EvalError::ErrorFunctionNotFound(sig, _) => match recompiled {
            Ok(sigs) => suggest(sig, sigs),
            Err(e) => {
                return ErrorHelp {
                    help: String::from_str("failed to compile for suggestions: ").concat(e.as_str()),
                    hint: String::new(),
                    note: String::new(),
                };
            },
        },
        EvalError::ErrorParsing(_) => (
            String::from_str("Syntax error encountered while parsing."),
            String::from_str("Check for unmatched tokens, invalid constructs, or misplaced punctuation."),
        ),
        EvalError::ErrorVariableExists(name, _) => (
            concat3("Variable '", name.as_str(), "' is already defined."),
            String::from_str("Remove or rename the duplicate declaration."),
        ),
        EvalError::ErrorForbiddenVariable(name, _) => (
            concat3("Usage of forbidden variable '", name.as_str(), "'."),
            String::from_str("Avoid using reserved or protected variable names."),
        ),
        EvalError::ErrorVariableNotFound(name, _) => (
            concat3("Unknown variable '", name.as_str(), "'."),
            String::from_str("Check for typos or ensure the variable is initialized before use."),
        ),
        EvalError::ErrorPropertyNotFound(name, _) => (
            concat3("Property '", name.as_str(), "' not found on this object."),
            String::from_str("Verify the property name and the object’s available fields."),
        ),
        EvalError::ErrorModuleNotFound(name, _) => (
            concat3("Module '", name.as_str(), "' could not be located."),
            String::from_str("Check that the path is correct, the module is imported, and its code is valid."),
        ),
        EvalError::ErrorInFunctionCall(name, msg, _inner, _) => (
            concat3("Error inside function '", name.as_str(), "': ").concat(msg.as_str()),
            String::from_str("Inspect the function implementation and arguments passed."),
        ),
        EvalError::ErrorInModule(name, _inner, _) => (
            concat3("Error while loading module '", name.as_str(), "'."),
            String::from_str("Check the module code for syntax or runtime errors."),
        ),
        EvalError::ErrorUnboundThis(_) => (
            String::from_str("`this` is unbound in this context."),
            String::from_str("Only use `this` inside methods or bound closures."),
        ),
        EvalError::ErrorMismatchDataType(found, expected, _) => (
            concat5("Data type mismatch: found '", found.as_str(), "', expected '", expected.as_str(), "'."),
            String::from_str("Convert or cast values to the required type."),
        ),
        EvalError::ErrorMismatchOutputType(found, expected, _) => (
            concat5("Return type mismatch: found '", found.as_str(), "', expected '", expected.as_str(), "'."),
            String::from_str("Ensure your function returns the correct type."),
        ),
        EvalError::ErrorIndexingType(typ, _) => (
            concat3("Cannot index into value of type '", typ.as_str(), "'."),
            String::from_str("Only arrays, maps, bitfields, or strings support indexing."),
        ),
        EvalError::ErrorArrayBounds(len, idx, _) => (
            concat5("Array index ", int_text(*idx as i128).as_str(), " out of bounds (0..", int_text(*len as i128).as_str(), ")."),
            String::from_str("Use a valid index within the array’s range."),
        ),
        EvalError::ErrorStringBounds(len, idx, _) => (
            concat5("String index ", int_text(*idx as i128).as_str(), " out of bounds (0..", int_text(*len as i128).as_str(), ")."),
            String::from_str("Ensure you index only valid character positions."),
        ),
        EvalError::ErrorBitFieldBounds(len, idx, _) => (
            concat5("Bitfield index ", int_text(*idx as i128).as_str(), " out of bounds (0..", int_text(*len as i128).as_str(), ")."),
            String::from_str("Use a valid bit position within the bitfield’s size."),
        ),
        EvalError::ErrorFor(_) => (
            String::from_str("`for` loop value is not iterable."),
            String::from_str("Iterate only over arrays, strings, ranges, or iterators."),
        ),
        EvalError::ErrorDataRace(name, _) => (
            concat3("Data race detected on '", name.as_str(), "'."),
            String::from_str("Avoid shared mutable data or use synchronization primitives."),
        ),
        EvalError::ErrorAssignmentToConstant(name, _) => (
            concat3("Cannot assign to constant '", name.as_str(), "'."),
            String::from_str("Constants cannot be reassigned after declaration."),
        ),
        EvalError::ErrorDotExpr(field, _) => (
            concat3("Invalid member access '", field.as_str(), "'."),
            String::from_str("Verify the object has this member or method."),
        ),
        EvalError::ErrorArithmetic(msg, _) => (
            String::from_str("Arithmetic error encountered."),
            msg.clone(),
        ),
        EvalError::ErrorTooManyOperations(_) => (
            String::from_str("Script exceeded the maximum number of operations."),
            String::from_str("Break complex expressions into smaller steps or increase the limit."),
        ),
        EvalError::ErrorTooManyModules(_) => (
            String::from_str("Too many modules have been loaded."),
            String::from_str("Use fewer modules or increase the module limit."),
        ),
        EvalError::ErrorStackOverflow(_) => (
            String::from_str("Call stack overflow detected."),
            String::from_str("Check for infinite recursion or deeply nested calls."),
        ),
        EvalError::ErrorDataTooLarge(name, _) => (
            concat3("Data '", name.as_str(), "' is too large to handle."),
            String::from_str("Use smaller data sizes or adjust engine limits."),
        ),
        EvalError::ErrorTerminated(_) => (
            String::from_str("Script execution was terminated."),
            String::from_str("This occurs when a `stop` or external termination is triggered."),
        ),
        EvalError::ErrorCustomSyntax(msg, options, _) => (
            concat3("Custom syntax error: ", msg.as_str(), "."),
            concat3("Expected one of: ", join_strings(options, ", ").as_str(), "."),
        ),
        EvalError::ErrorRuntime(_) => (
            String::from_str("Runtime error encountered."),
            String::from_str("Inspect the error message and script logic for issues."),
        ),
        EvalError::LoopBreak(_) => (
            String::from_str("`break` used outside of a loop."),
            String::from_str("Only use `break` inside `for` or `while` loops."),
        ),
        EvalError::Return(_) => (
            String::from_str("`return` statement encountered."),
            String::from_str("Script terminated with an explicit return value."),
        ),
        EvalError::Unclassified(_) => (
            String::from_str("Unknown error"),
            String::from_str("No additional information available for this error."),
        ),
    };
    let note = match outer {
        EvalError::ErrorInFunctionCall(name, _, _, _) => concat3(
            "This error occurred during a call to '",
            name.as_str(),
            "'. Inspecting the function implementation and arguments passed may help solve this error.",
        ),
        EvalError::ErrorInModule(name, _, _) => concat3(
            "This happened while loading the module '",
            name.as_str(),
            "'. Tip: Check the module code for syntax or runtime errors",
        ),
        EvalError::ErrorRuntime(_) => String::from_str(
            "A runtime error bubbled up from a lower-level operation.",
        ),
        _ => String::new(),
    };
    ErrorHelp { help, hint, note }
}


/// The first span from index `i` on that covers `(line, column)`, or, where `exact`
/// is false, that lies on `line`.
fn first_span_from(spans: &[Span], line: usize, column: usize, exact: bool) -> (r: Option<Span>)
    ensures
        r == first_from(spans@, 0, line, column, exact),
{
    let mut i: usize = 0;
    while i < spans.len()
        invariant
            i <= spans@.len(),
            first_from(spans@, 0, line, column, exact) == first_from(
                spans@,
                i as int,
                line,
                column,
                exact,
            ),
        decreases spans@.len() - i,
    {
        let s = spans[i];
        let hit = if exact {
            s.line == line && s.column <= column && (s.start <= s.end && column - s.column
                <= s.end - s.start)
        } else {
            s.line == line
        };
        if hit {
            return Some(s);
        }
        i = i + 1;
    }
    None
}

/// A text, or none where it is empty.
fn non_empty(s: String) -> (r: Option<String>)
    ensures
        opt_view(r) == opt_text(s@),
{
    if s.as_str().is_empty() {
        None
    } else {
        Some(s)
    }
}

proof fn lemma_first_from(spans: Seq<Span>, i: int, line: usize, column: usize, exact: bool)
    requires
        0 <= i,
    ensures
        first_from(spans, i, line, column, exact) matches Some(s) ==> s.line == line && exists|k: int|
            i <= k < spans.len() && spans[k] == s,
        !exact ==> (first_from(spans, i, line, column, exact) is Some <==> exists|k: int|
            i <= k < spans.len() && (#[trigger] spans[k]).line == line),
    decreases spans.len() - i,
{
    if i < spans.len() {
        lemma_first_from(spans, i + 1, line, column, exact);
    }
}

impl BetterError {
    /// The span that best encloses `(line, column)`: the first, in the given order,
    /// that lies on `line` with `column` within `[column, column + (end - start)]` of
    /// the span; else the first on `line`; else none.
    pub fn find_span_for_position(spans: &[Span], line: usize, column: usize) -> (r: Option<Span>)
        ensures
            r == find_span(spans@, line, column),
            r is Some <==> exists|k: int| 0 <= k < spans@.len() && (#[trigger] spans@[k]).line == line,
            r matches Some(s) ==> s.line == line && exists|k: int| 0 <= k < spans@.len() && spans@[k] == s,
    {
        proof {
            lemma_first_from(spans@, 0, line, column, true);
            lemma_first_from(spans@, 0, line, column, false);
        }
        match first_span_from(spans, line, column, true) {
            Some(s) => Some(s),
            None => first_span_from(spans, line, column, false),
        }
    }

    /// The diagnostic for an evaluation error, given its message, the span table of
    /// the script and what compiling the script anew gave.
    pub fn diagnose(
        error: &EvalError,
        message: &str,
        spans: &[Span],
        recompiled: &Result<Vec<ScriptFnSignature>, String>,
    ) -> (r: BetterError)
        ensures
            diagnosis_is(
                r,
                message@,
                error_info(root_cause(*error), *error, recompiled_view(*recompiled)),
                correlated_span(spans@, error_pos(*error)),
            ),
    {
        let pos = error.position();
        let info = get_error_info(get_root_cause(error), error, recompiled);
        let span = match BetterError::find_span_for_position(spans, pos.line, pos.pos) {
            Some(s) => s,
            None => Span::new(0, 0, pos.line, pos.pos),
        };
        BetterError {
            message: String::from_str(message),
            help: non_empty(info.help),
            hint: non_empty(info.hint),
            note: non_empty(info.note),
            span,
        }
    }

    /// The diagnostic for an error raised while evaluating `code`.
    ///
    /// `message` is the error's text and `parsed` the statements of `code`, or the
    /// error that parsing it gave, which is handed back. Where the root cause is an
    /// unresolved call, `code` is compiled anew with `engine` to suggest functions.
    pub fn improve_eval_error(
        error: &EvalError,
        message: &str,
        code: &str,
        parsed: &Result<Vec<Stmt>, ParseError>,
        engine: &rhai::Engine,
    ) -> (r: Result<BetterError, ParseError>)
        ensures
            parsed is Err ==> r is Err && r->Err_0.message@ == parsed->Err_0.message@
                && r->Err_0.position == parsed->Err_0.position,
            parsed is Ok ==> r is Ok,
            parsed is Ok && !(root_cause(*error) is ErrorFunctionNotFound) ==> diagnosis_is(
                r->Ok_0,
                message@,
                error_info(root_cause(*error), *error, Ok(seq![])),
                correlated_span(
                    stmts_spans(code.spec_bytes(), parsed->Ok_0@),
                    error_pos(*error),
                ),
            ),
            parsed is Ok ==> exists|rec: Result<Seq<ScriptFnSignature>, Seq<char>>|
                diagnosis_is(
                    r->Ok_0,
                    message@,
                    #[trigger] error_info(root_cause(*error), *error, rec),
                    correlated_span(
                        stmts_spans(code.spec_bytes(), parsed->Ok_0@),
                        error_pos(*error),
                    ),
                ),
    {
        let ast = match parsed {
            Ok(ast) => ast,
            Err(e) => {
                return Err(ParseError { message: e.message.clone(), position: e.position });
            },
        };
        let spans = SpanTracer::new().extract_from(code, ast.as_slice());
        let recompiled = match get_root_cause(error) {
            EvalError::ErrorFunctionNotFound(_, _) => compile_signatures(engine, code),
            _ => Ok(Vec::new()),
        };
        let d = BetterError::diagnose(error, message, spans.as_slice(), &recompiled);
        proof {
            let rec = recompiled_view(recompiled);
            assert(diagnosis_is(
                d,
                message@,
                error_info(root_cause(*error), *error, rec),
                correlated_span(stmts_spans(code.spec_bytes(), ast@), error_pos(*error)),
            ));
            if !(root_cause(*error) is ErrorFunctionNotFound) {
                assert(rec == Ok::<Seq<ScriptFnSignature>, Seq<char>>(seq![]));
            }
        }
        Ok(d)
    }

    /// The diagnostic for an error raised while parsing `code`: its span runs from
    /// the error's position to the end of that line, with a fixed help and hint and
    /// no note.
    pub fn improve_parse_error(error: &ParseError, code: &str) -> (r: BetterError)
        ensures
            diagnosis_is(
                r,
                error.message@,
                (parse_help(), parse_hint(), seq![]),
                span_at(code.spec_bytes(), error.position),
            ),
    {
        proof {
            reveal_strlit("Syntax error detected.");
            reveal_strlit("Check for missing tokens, unmatched parentheses, or invalid constructs.");
        }
        BetterError {
            message: error.message.clone(),
            help: Some(String::from_str("Syntax error detected.")),
            hint: Some(
                String::from_str(
                    "Check for missing tokens, unmatched parentheses, or invalid constructs.",
                ),
            ),
            note: None,
            span: Span::from_pos(code, &error.position),
        }
    }
}

/// The help of every parse-time diagnostic.
pub open spec fn parse_help() -> Seq<char> {
    "Syntax error detected."@
}

/// The hint of every parse-time diagnostic.
pub open spec fn parse_hint() -> Seq<char> {
    "Check for missing tokens, unmatched parentheses, or invalid constructs."@
}


/// Classification is total: for every root cause, error before unwrapping and
/// recompilation outcome it yields a non-empty help, and an unresolved call with no
/// declared function of its name gets the fixed, non-empty fallback hint.
pub proof fn law_classification_total(
    root: EvalError,
    outer: EvalError,
    rec: Result<Seq<ScriptFnSignature>, Seq<char>>,
)
    ensures
        error_info(root, outer, rec).0.len() > 0,
        root is ErrorFunctionNotFound && rec is Ok && candidates(
            rec->Ok_0,
            base_name(root->ErrorFunctionNotFound_0@),
        ).len() == 0 ==> error_info(root, outer, rec).1 == not_found_fallback()
            && not_found_fallback().len() > 0,
{
    reveal_strlit("Arithmetic error encountered.");
    reveal_strlit("Array index ");
    reveal_strlit("Bitfield index ");
    reveal_strlit("Call stack overflow detected.");
    reveal_strlit("Cannot assign to constant '");
    reveal_strlit("Cannot index into value of type '");
    reveal_strlit("Check spelling, module path, or argument count.");
    reveal_strlit("Custom syntax error: ");
    reveal_strlit("Data '");
    reveal_strlit("Data race detected on '");
    reveal_strlit("Data type mismatch: found '");
    reveal_strlit("Error inside function '");
    reveal_strlit("Error while loading module '");
    reveal_strlit("Function '");
    reveal_strlit("Invalid member access '");
    reveal_strlit("Module '");
    reveal_strlit("Property '");
    reveal_strlit("Return type mismatch: found '");
    reveal_strlit("Runtime error encountered.");
    reveal_strlit("Script exceeded the maximum number of operations.");
    reveal_strlit("Script execution was terminated.");
    reveal_strlit("String index ");
    reveal_strlit("Syntax error encountered while parsing.");
    reveal_strlit("Too many modules have been loaded.");
    reveal_strlit("Unknown error");
    reveal_strlit("Unknown variable '");
    reveal_strlit("Usage of forbidden variable '");
    reveal_strlit("Variable '");
    reveal_strlit("`break` used outside of a loop.");
    reveal_strlit("`for` loop value is not iterable.");
    reveal_strlit("`return` statement encountered.");
    reveal_strlit("`this` is unbound in this context.");
    reveal_strlit("failed to compile for suggestions: ");
}

} // verus!
