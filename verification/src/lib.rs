//! Verified core of a C-header layout extraction and code-generation
//! pipeline: a token classifier for macro definitions, a record flattener
//! that turns nested struct/union declarations into bit-level field
//! layouts, the intermediate representation the two stages exchange, the
//! little-endian field codec the generated accessors implement, and the
//! text generators that emit constants, declarations and byte-accessor
//! types.

pub mod builder;
pub mod classify;
pub mod codec;
pub mod flatten;
pub mod gen_c;
pub mod gen_hw;
pub mod gen_rust;
pub mod ir;
pub mod laws;
pub mod strutil;
