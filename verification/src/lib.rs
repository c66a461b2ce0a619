//! Declarative markup for element trees: a tree builder over markup events, a
//! resolver from class tokens to style operations, and the reload coordinator
//! that republishes the tree when its source changes.

pub mod builder;
pub mod component;
pub mod document;
pub mod literal;
pub mod precedence;
pub mod reader;
pub mod reload;
pub mod render;
pub mod resolve;
pub mod style;
pub mod text;
pub mod vocabulary;
