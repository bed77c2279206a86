//! A statement-level intermediate representation for a compiler backend that
//! targets a stack-based, typed virtual machine, together with the passes
//! that canonicalize a statement tree: in-place simplification, linearization
//! of embedded pending statements, allocation of pending temporaries, and the
//! branch-target utilities used when folding exception-handler entry blocks.
pub mod cil_node;
pub mod cil_root;
pub mod descriptors;
pub mod laws;
