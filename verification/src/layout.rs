//! Per-target layout profiles: the size and alignment each scalar numeric
//! kind takes when crossing the boundary on a chosen target.
use crate::types::AbiError;
use crate::types::NumType;
use vstd::prelude::*;

verus! {

/// Abi type: the four fixed target layout profiles.
#[derive(Clone, Copy, PartialEq, Eq, Structural, Debug)]
pub enum Abi {
    /// Native 32bit
    Native32,
    /// Native 64bit
    Native64,
    /// Wasm 32bit
    Wasm32,
    /// Wasm 64bit
    Wasm64,
}

impl Abi {
    /// Natural width in bytes of a scalar numeric kind. Pointer-sized kinds
    /// have no defined layout yet: asking for one is an incomplete-profile
    /// error, never a silent default.
    pub open spec fn natural_size(ty: NumType) -> Result<usize, AbiError> {
        match ty {
            NumType::U8 | NumType::I8 => Ok(1usize),
            NumType::U16 | NumType::I16 => Ok(2usize),
            NumType::U32 | NumType::I32 | NumType::F32 => Ok(4usize),
            NumType::U64 | NumType::I64 | NumType::F64 => Ok(8usize),
            NumType::IPtr | NumType::UPtr => Err(AbiError::IncompleteLayout(ty)),
        }
    }

    /// The (size, alignment) pair a profile assigns to a scalar kind:
    /// native profiles use the natural width; WebAssembly profiles promote
    /// every scalar to at least 4 bytes. Alignment always equals size.
    pub open spec fn layout_spec(self, ty: NumType) -> Result<(usize, usize), AbiError> {
        match Self::natural_size(ty) {
            Err(e) => Err(e),
            Ok(size) => {
                let size = match self {
                    Abi::Native32 | Abi::Native64 => size,
                    Abi::Wasm32 | Abi::Wasm64 => if size < 4 {
                        4usize
                    } else {
                        size
                    },
                };
                Ok((size, size))
            },
        }
    }

    /// The profile of the machine this generator itself runs on.
    pub fn native() -> (r: Self)
        ensures
            r == (if core::mem::size_of::<usize>() == 8 {
                Abi::Native64
            } else {
                Abi::Native32
            }),
    {
        if core::mem::size_of::<usize>() == 8 {
            Abi::Native64
        } else {
            Abi::Native32
        }
    }

    /// Returns the size and alignment of a primitive type.
    pub fn layout(self, ty: NumType) -> (r: Result<(usize, usize), AbiError>)
        ensures
            r == self.layout_spec(ty),
    {
        let size: usize = match ty {
            NumType::U8 | NumType::I8 => 1,
            NumType::U16 | NumType::I16 => 2,
            NumType::U32 | NumType::I32 | NumType::F32 => 4,
            NumType::U64 | NumType::I64 | NumType::F64 => 8,
            NumType::IPtr | NumType::UPtr => {
                return Err(AbiError::IncompleteLayout(ty));
            },
        };
        let size: usize = match self {
            Abi::Native32 | Abi::Native64 => size,
            Abi::Wasm32 | Abi::Wasm64 => if size < 4 {
                4
            } else {
                size
            },
        };
        Ok((size, size))
    }
}

} // verus!
