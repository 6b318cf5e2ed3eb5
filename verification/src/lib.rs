//! ABI-lowering core of a cross-language binding generator: reduces surface
//! interface declarations to a closed set of boundary-safe shapes, derives
//! the synthetic iterator/future/stream operations, and fixes symbol names,
//! return packing and per-target numeric layout.
pub mod catalog;
pub mod decl;
pub mod derive;
pub mod func;
pub mod laws;
pub mod layout;
pub mod listed;
pub mod lower;
pub mod surface;
pub mod types;

pub use catalog::Import;
pub use func::AbiFunction;
pub use func::AbiFuture;
pub use func::AbiIter;
pub use func::AbiObject;
pub use func::AbiStream;
pub use func::FunctionType;
pub use func::Return;
pub use func::Var;
pub use func::VarGen;
pub use layout::Abi;
pub use surface::FnDecl;
pub use surface::Interface;
pub use surface::ObjDecl;
pub use surface::Type;
pub use types::AbiError;
pub use types::AbiType;
pub use types::NumType;
pub use types::ShapeKind;
