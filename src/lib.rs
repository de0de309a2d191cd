//! The ownership and marshaling core of an embedding of a C-ABI scripting
//! engine (JavaScriptCore).
//!
//! The engine is driven through its C interface, which hands out opaque
//! handles under manual reference counting, reports failures through an
//! exception out-parameter, and calls native logic through one fixed entry
//! point signature. This crate holds the decisions around those calls, with
//! their contracts proved:
//!
//! - `handle`: the engine's handles, carried as addresses;
//! - `value`: values and capability-tagged objects, and the retains and
//!   releases the host owes (`RefOp`);
//! - `context`: virtual machines and execution contexts, and the balance of
//!   their references;
//! - `abi`: the calls made into the engine (`EngineCall`), and how each reply
//!   settles, the exception slot first;
//! - `object`: the calls behind property access, invocation and construction;
//! - `string`: the string bridge between host text and the engine's
//!   NUL-terminated UTF-8;
//! - `marshal`: the protocol by which the engine calls native logic;
//! - `closure`: native functions that capture host state;
//! - `promise`: deferred promises, settled once.
//!
//! Making the calls themselves is left to the code that links the engine.

pub mod abi;
pub mod closure;
pub mod context;
pub mod handle;
pub mod marshal;
pub mod object;
pub mod promise;
pub mod string;
pub mod value;
