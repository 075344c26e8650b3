//! The AST shapes this grammar slice emits.
//!
//! Nodes are created bottom-up during parsing, and are never mutated after
//! construction. The slice needs the `Return` statement, a statement list, and
//! the minimal expression shapes that let the two demonstrated productions
//! compose: identifiers, integer literals, and the `+` and `in` operators.

use vstd::prelude::*;

verus! {

/// One AST node.
#[derive(Debug, PartialEq)]
pub enum Node {
    /// An identifier, by the symbol id the lexer interned its name to.
    Identifier(u32),
    /// An integer literal.
    Const(u64),
    /// The binary `+` operator.
    Add(Box<Node>, Box<Node>),
    /// The relational `in` operator, permitted only under `[+In]`.
    In(Box<Node>, Box<Node>),
    /// A `return` statement: an optional returned expression and an optional
    /// label (by symbol id). The productions here never attach a label.
    Return(Option<Box<Node>>, Option<u32>),
}

impl View for Node {
    type V = Node;

    open spec fn view(&self) -> Node {
        *self
    }
}

/// An ordered list of statement nodes. The order is execution order.
#[derive(Debug, PartialEq)]
pub struct StatementList {
    pub items: Vec<Node>,
}

impl View for StatementList {
    type V = Seq<Node>;

    open spec fn view(&self) -> Seq<Node> {
        self.items@
    }
}

impl From<Vec<Node>> for StatementList {
    fn from(items: Vec<Node>) -> (r: Self) {
        StatementList { items }
    }
}

impl vstd::std_specs::convert::FromSpecImpl<Vec<Node>> for StatementList {
    open spec fn obeys_from_spec() -> bool {
        true
    }

    open spec fn from_spec(items: Vec<Node>) -> Self {
        StatementList { items }
    }
}

} // verus!
