use crate::span::Position;
use vstd::prelude::*;

verus! {

/// An expression of the host's syntax tree, as far as span extraction reads it.
#[derive(Debug)]
pub enum Expr {
    /// A node spanned at one point and not entered: a literal of any kind, the unit
    /// value, a variable, `this`, a property, a dot or index access, a logical
    /// and / or / coalesce, or a custom-syntax node.
    Atom(Position),
    /// An array literal and its elements.
    Array(Vec<Expr>, Position),
    /// An interpolated string and its parts.
    InterpolatedString(Vec<Expr>, Position),
    /// A map literal, holding the value expressions only (keys carry no span).
    MapLiteral(Vec<Expr>, Position),
    /// A function call and its arguments.
    FnCall(Vec<Expr>, Position),
    /// A method call and its arguments.
    MethodCall(Vec<Expr>, Position),
    /// An expression wrapping a block of statements.
    Stmt(Vec<Stmt>),
    /// Any other expression; it has no position.
    Unpositioned,
}

/// A condition, a body and an alternate block, as held by conditionals and loops.
#[derive(Debug)]
pub struct FlowControl {
    pub expr: Expr,
    pub body: Vec<Stmt>,
    pub branch: Vec<Stmt>,
}

/// A statement of the host's syntax tree, as far as span extraction reads it.
#[derive(Debug)]
pub enum Stmt {
    /// A statement that does nothing.
    Noop(Position),
    /// `if` with its condition, then-block and else-block.
    If(FlowControl, Position),
    /// `while` (or `loop`) with its condition and body.
    While(FlowControl, Position),
    /// `do` ... `while`/`until` with its condition and body.
    Do(FlowControl, Position),
    /// `for` with its iterable expression and body.
    For(FlowControl, Position),
    /// A variable or constant declaration with its initializer.
    Var(Expr, Position),
    /// An assignment of the right operand to the left one.
    Assignment(Expr, Expr),
    /// A call standing as a statement, with its arguments.
    FnCall(Vec<Expr>, Position),
    /// A nested block with its statements and the positions of its start and end.
    Block(Vec<Stmt>, Position, Position),
    /// `try` ... `catch` with its two blocks.
    TryCatch(FlowControl, Position),
    /// An expression standing as a statement.
    Expr(Expr),
    /// `break` with its optional value.
    BreakLoop(Option<Expr>, Position),
    /// `return` with its optional value.
    Return(Option<Expr>, Position),
    /// `import` with its module-path expression.
    Import(Expr, Position),
    /// `export`, `share` and every other statement that is diagnostically inert.
    Inert,
}

/// The position of an expression; a block expression takes that of its first statement.
pub open spec fn expr_pos(e: Expr) -> Position
    decreases e,
{
    match e {
        Expr::Atom(p) => p,
        Expr::Array(_, p) => p,
        Expr::InterpolatedString(_, p) => p,
        Expr::MapLiteral(_, p) => p,
        Expr::FnCall(_, p) => p,
        Expr::MethodCall(_, p) => p,
        Expr::Stmt(v) => if v.len() > 0 {
            stmt_pos(v@[0])
        } else {
            Position { line: 0, pos: 0 }
        },
        Expr::Unpositioned => Position { line: 0, pos: 0 },
    }
}

/// The position of a statement; a nested block takes that of its first statement.
pub open spec fn stmt_pos(s: Stmt) -> Position
    decreases s,
{
    match s {
        Stmt::Noop(p) => p,
        Stmt::If(_, p) => p,
        Stmt::While(_, p) => p,
        Stmt::Do(_, p) => p,
        Stmt::For(_, p) => p,
        Stmt::Var(_, p) => p,
        Stmt::FnCall(_, p) => p,
        Stmt::TryCatch(_, p) => p,
        Stmt::BreakLoop(_, p) => p,
        Stmt::Return(_, p) => p,
        Stmt::Import(_, p) => p,
        Stmt::Block(v, _, _) => if v.len() > 0 {
            stmt_pos(v@[0])
        } else {
            Position { line: 0, pos: 0 }
        },
        Stmt::Expr(e) => expr_pos(e),
        Stmt::Assignment(_, _) => Position { line: 0, pos: 0 },
        Stmt::Inert => Position { line: 0, pos: 0 },
    }
}

/// The position of an expression.
pub fn expr_position(e: &Expr) -> (r: Position)
    ensures
        r == expr_pos(*e),
    decreases e,
{
    match e {
        Expr::Atom(p) => *p,
        Expr::Array(_, p) => *p,
        Expr::InterpolatedString(_, p) => *p,
        Expr::MapLiteral(_, p) => *p,
        Expr::FnCall(_, p) => *p,
        Expr::MethodCall(_, p) => *p,
        Expr::Stmt(v) => if v.len() > 0 {
            stmt_position(&v[0])
        } else {
            Position::none()
        },
        Expr::Unpositioned => Position::none(),
    }
}

/// The position of a statement.
pub fn stmt_position(s: &Stmt) -> (r: Position)
    ensures
        r == stmt_pos(*s),
    decreases s,
{
    match s {
        Stmt::Noop(p) => *p,
        Stmt::If(_, p) => *p,
        Stmt::While(_, p) => *p,
        Stmt::Do(_, p) => *p,
        Stmt::For(_, p) => *p,
        Stmt::Var(_, p) => *p,
        Stmt::FnCall(_, p) => *p,
        Stmt::TryCatch(_, p) => *p,
        Stmt::BreakLoop(_, p) => *p,
        Stmt::Return(_, p) => *p,
        Stmt::Import(_, p) => *p,
        Stmt::Block(v, _, _) => if v.len() > 0 {
            stmt_position(&v[0])
        } else {
            Position::none()
        },
        Stmt::Expr(e) => expr_position(e),
        Stmt::Assignment(_, _) => Position::none(),
        Stmt::Inert => Position::none(),
    }
}

} // verus!
