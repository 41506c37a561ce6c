//! Generation of C and C++ JSON-RPC client bindings from type descriptions.
pub mod text;
pub mod ts;
pub mod c;
pub mod cpp;
pub mod procedure;
pub mod laws;
