//! Reads the declarations of a Hack source file while it is being parsed.
//!
//! The parser calls one function for each piece of syntax that it has
//! recognised, from the inside out, and hands over what the calls for the parts
//! have returned. No syntax tree is built: a node holds no more than the
//! declarations around it can need, and a finished declaration goes into
//! [`decls::Decls`]. All that is kept lives in one arena.
//!
//! The state is [`parser::DirectDeclSmartConstructors`]; its methods `make_..`
//! stand in the modules of the syntax that they read. What a name means under
//! the imports of a namespace, and what a quoted literal denotes, is asked of a
//! [`host`]. Beside each function stands a spec function that says what it
//! reads, and the functions `law_..` state what holds across several of them.

pub mod arena;
pub mod text;
pub mod encoding;
pub mod token;
pub mod source;
pub mod syntax;
pub mod types;
pub mod decls;
pub mod str_map;
pub mod const_refs;
pub mod host;
pub mod namespace;
pub mod node;
pub mod classish;
pub mod parser;
pub mod hints;
pub mod attributes;
pub mod effects;
pub mod generics;
pub mod functions;
pub mod tokens;
pub mod expressions;
pub mod specifiers;
pub mod declarations;
pub mod fun_decls;
pub mod namespace_decls;
pub mod classes;
pub mod enums;
pub mod xhp;
pub mod facts;
pub mod attribute_calls;
pub mod typeconsts;
