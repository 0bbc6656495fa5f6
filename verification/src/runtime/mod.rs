pub mod assignment;
pub mod calling;
pub mod calls;
pub mod classes;
pub mod error;
pub mod interpreter;
pub mod laws;
pub mod operators;
pub mod run;
pub mod semantics;
