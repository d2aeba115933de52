//! A weakest-precondition generator for a single function body given as a
//! control-flow graph of basic blocks.
//!
//! The library walks the graph backward from its `Return` blocks: each block's
//! terminator determines how the postconditions of its successors are combined,
//! and each assignment statement is folded into the accumulated predicate by
//! substitution, conjoining overflow, underflow and division-by-zero guards for
//! the arithmetic it performs.  The result is one [`expression::Expression`]
//! holding the weakest precondition at the requested block's entry, or a fatal
//! error when the graph uses a construct the generator does not model.

pub mod expression;
pub mod mir;
pub mod semantics;
pub mod weakest_precondition;
