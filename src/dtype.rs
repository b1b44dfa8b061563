use vstd::prelude::*;

verus! {

/// The element types that a tensor may hold.
#[derive(Clone, Copy, Debug, PartialEq, Eq, Structural)]
pub enum ElemKind {
    U8,
    U32,
    I64,
    BF16,
    F16,
    F32,
    F64,
}

/// The element types on which the bitwise operations are defined.
pub open spec fn is_supported(k: ElemKind) -> bool {
    k == ElemKind::U8 || k == ElemKind::U32 || k == ElemKind::I64
}

/// The short name of an element type, which completes a kernel's symbol.
pub open spec fn kind_suffix(k: ElemKind) -> Seq<char> {
    match k {
        ElemKind::U8 => "u8"@,
        ElemKind::U32 => "u32"@,
        ElemKind::I64 => "i64"@,
        ElemKind::BF16 => "bf16"@,
        ElemKind::F16 => "f16"@,
        ElemKind::F32 => "f32"@,
        ElemKind::F64 => "f64"@,
    }
}

impl ElemKind {
    pub fn is_supported(&self) -> (r: bool)
        ensures
            r == is_supported(*self),
    {
        match self {
            ElemKind::U8 | ElemKind::U32 | ElemKind::I64 => true,
            _ => false,
        }
    }

    /// The short name of this element type.
    pub fn as_str(&self) -> (r: &'static str)
        ensures
            r@ == kind_suffix(*self),
    {
        dtype_str(*self)
    }
}

/// Relies on `candle_core::DType::as_str`: the short name of each element type.
#[verifier::external_body]
fn dtype_str(k: ElemKind) -> (r: &'static str)
    ensures
        r@ == kind_suffix(k),
{
    let d = match k {
        ElemKind::U8 => candle_core::DType::U8,
        ElemKind::U32 => candle_core::DType::U32,
        ElemKind::I64 => candle_core::DType::I64,
        ElemKind::BF16 => candle_core::DType::BF16,
        ElemKind::F16 => candle_core::DType::F16,
        ElemKind::F32 => candle_core::DType::F32,
        ElemKind::F64 => candle_core::DType::F64,
    };
    d.as_str()
}

/// The elements of a tensor in host memory. The bitwise operations read the
/// integer kinds only, so the floating-point kinds carry no elements here.
#[derive(Debug)]
pub enum HostBuffer {
    U8(Vec<u8>),
    U32(Vec<u32>),
    I64(Vec<i64>),
    BF16,
    F16,
    F32,
    F64,
}

/// The element type of a buffer.
pub open spec fn kind_of(b: &HostBuffer) -> ElemKind {
    match b {
        HostBuffer::U8(_) => ElemKind::U8,
        HostBuffer::U32(_) => ElemKind::U32,
        HostBuffer::I64(_) => ElemKind::I64,
        HostBuffer::BF16 => ElemKind::BF16,
        HostBuffer::F16 => ElemKind::F16,
        HostBuffer::F32 => ElemKind::F32,
        HostBuffer::F64 => ElemKind::F64,
    }
}

impl HostBuffer {
    pub fn dtype(&self) -> (r: ElemKind)
        ensures
            r == kind_of(self),
    {
        match self {
            HostBuffer::U8(_) => ElemKind::U8,
            HostBuffer::U32(_) => ElemKind::U32,
            HostBuffer::I64(_) => ElemKind::I64,
            HostBuffer::BF16 => ElemKind::BF16,
            HostBuffer::F16 => ElemKind::F16,
            HostBuffer::F32 => ElemKind::F32,
            HostBuffer::F64 => ElemKind::F64,
        }
    }
}

} // verus!
