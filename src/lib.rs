//! Precise source spans and structured diagnostics for scripts of an embeddable
//! scripting language.
//!
//! The syntax tree and the error values of the host are modelled by the types of
//! [`ast`] and [`error`]; the span table comes from [`tracer`], positions are turned
//! into byte offsets by [`span`], and [`error::BetterError`] ties it all together.
pub mod ast;
pub mod error;
pub mod span;
pub mod text;
pub mod tracer;

pub use ast::{Expr, FlowControl, Stmt};
pub use error::{BetterError, ErrorHelp, EvalError, ParseError, ScriptFnSignature};
pub use span::{Position, Span};
pub use tracer::SpanTracer;

