//! A small register-based virtual machine together with the two-pass
//! assembler that compiles its textual instruction language into the
//! machine's fixed-width binary instruction format.
//!
//! The crate is organized leaf-first: [`instruction`] defines the opcode
//! space, [`assembler`] turns source text into a loadable program image,
//! [`vm`] interprets that image, [`repl`] holds the state consumed by an
//! interactive shell, and [`roundtrip`] proves that assembling a
//! straight-line program and running the image computes what the source
//! says.

pub mod assembler;
pub mod instruction;
pub mod repl;
pub mod roundtrip;
pub mod vm;
