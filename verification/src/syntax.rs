use crate::link_mutator::{ExportedType, ExportedTypeView};
use crate::require_parser::Expr;
use vstd::prelude::*;

verus! {

/// A statement of a program, as far as a link and its module are read.
#[derive(Debug, PartialEq, Eq)]
pub enum Statement {
    /// An exported type declaration.
    ExportedType(ExportedType),
    /// Any other statement.
    Other,
}

/// The statement that ends a program.
#[derive(Debug, PartialEq, Eq)]
pub enum LastStatement {
    /// A return, with the expressions that it returns, read one by one and as written.
    Return { returned: Vec<Expr>, returned_text: String },
    /// Anything else that may end a program.
    Other,
}

/// A program that was parsed: its statements in order, the statement that ends it if it
/// has one, and what follows the last statement, as written.
#[derive(Debug, PartialEq, Eq)]
pub struct Program {
    /// The statements, in order, without the one that ends the program.
    pub statements: Vec<Statement>,
    /// The statement that ends the program, if there is one.
    pub last: Option<LastStatement>,
    /// What follows the last statement, as written.
    pub end_of_file: String,
}

/// The exported type declarations among the first `count` of `statements`, in order.
pub open spec fn exported_types(statements: Seq<Statement>, count: int) -> Seq<ExportedTypeView>
    decreases count,
{
    if count <= 0 || count > statements.len() {
        Seq::empty()
    } else {
        match statements[count - 1] {
            Statement::ExportedType(declaration) => exported_types(statements, count - 1).push(
                declaration@,
            ),
            Statement::Other => exported_types(statements, count - 1),
        }
    }
}

} // verus!
