//! Composition of one contract out of sub-contract modules.
//!
//! Every module owns a region of persistent storage slots of its own, a root
//! aggregator owns the modules, and a dispatch table routes each incoming
//! call selector to the root method that answers it.

pub mod contract_a;
pub mod contract_b;
pub mod dispatch;
pub mod error;
pub mod foo;
pub mod interface;
pub mod layout;
pub mod selector;
pub mod storage;
pub mod word;

pub use contract_a::ContractA;
pub use contract_b::ContractB;
pub use dispatch::{DispatchEntry, DispatchTable};
pub use error::Error;
pub use foo::{Foo, IContractA, IContractB, Method};
pub use interface::{Interface, MethodSig, ParamType};
pub use layout::{Layout, Region};
pub use storage::Storage;
pub use word::Word;
