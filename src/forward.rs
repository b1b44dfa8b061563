use vstd::prelude::*;

use crate::dtype::{is_supported, kind_of, kind_suffix, ElemKind, HostBuffer};
use crate::launch::{geometry_of, launch_geometry, LaunchGeometry};
use crate::layout::{is_row_major, lemma_elem_count_bound, Layout};
use crate::op::{elementwise, kernel_base_of, BitWise};

verus! {

/// Why a bitwise operation was refused or failed.
#[allow(inconsistent_fields)]
#[derive(Debug)]
pub enum BitwiseError {
    /// The operands' layouts differ.
    ShapeMismatch { lhs: Vec<usize>, rhs: Vec<usize>, op: &'static str },
    /// The operands' element types differ.
    DTypeMismatch { lhs: ElemKind, rhs: ElemKind, op: &'static str },
    /// The element type has no bitwise operations.
    UnsupportedDType { dtype: ElemKind, op: &'static str },
    /// Operand `input` (1 or 2) does not lie contiguously in its storage.
    NonContiguous { input: usize },
    /// The device has no kernel under this symbol.
    KernelLoad { symbol: String },
    /// The device could not allocate the output.
    DeviceAlloc { message: String },
    /// The device refused the kernel launch.
    DeviceLaunch { message: String },
}

/// What a device needs to run the operation: the storage ranges of both
/// operands, the number of elements, the kernel's symbol and the launch
/// geometry.
#[derive(Debug)]
pub struct LaunchPlan {
    pub lhs_range: (usize, usize),
    pub rhs_range: (usize, usize),
    pub elem_count: usize,
    pub kernel: String,
    pub geometry: LaunchGeometry,
}

/// The symbol of the device kernel for `op` over elements of kind `k`.
pub open spec fn kernel_symbol(op: crate::op::BitWiseOpEnum, k: ElemKind) -> Seq<char> {
    kernel_base_of(op) + "_"@ + kind_suffix(k)
}

/// `out` holds the operation applied to each pair of `s1` and `s2`, in the
/// same element type.
pub open spec fn host_elementwise(
    op: crate::op::BitWiseOpEnum,
    s1: &HostBuffer,
    s2: &HostBuffer,
    out: &HostBuffer,
) -> bool {
    match (s1, s2, out) {
        (HostBuffer::U8(a), HostBuffer::U8(b), HostBuffer::U8(c)) => elementwise(op, a@, b@, c@),
        (HostBuffer::U32(a), HostBuffer::U32(b), HostBuffer::U32(c)) => elementwise(
            op,
            a@,
            b@,
            c@,
        ),
        (HostBuffer::I64(a), HostBuffer::I64(b), HostBuffer::I64(c)) => elementwise(
            op,
            a@,
            b@,
            c@,
        ),
        _ => false,
    }
}

/// `r` is the refusal owed, before any computation, to operands of kinds
/// `k1`, `k2` in layouts `l1`, `l2`, where one is owed.
pub open spec fn refused_as(
    r: &BitwiseError,
    k1: ElemKind,
    l1: &Layout,
    k2: ElemKind,
    l2: &Layout,
) -> bool {
    if !l1.same(l2) {
        r matches BitwiseError::ShapeMismatch { lhs, rhs, op } && lhs@ == l1.dims@ && rhs@
            == l2.dims@ && op@ == "bitwise"@
    } else if k1 != k2 {
        r matches BitwiseError::DTypeMismatch { lhs, rhs, op } && lhs == k1 && rhs == k2 && op@
            == "bitwise"@
    } else {
        r matches BitwiseError::UnsupportedDType { dtype, op } && dtype == k1 && op@ == "bitwise"@
    }
}

/// The operands pass the checks that both forward passes make first.
pub open spec fn accepted(k1: ElemKind, l1: &Layout, k2: ElemKind, l2: &Layout) -> bool {
    l1.same(l2) && k1 == k2 && is_supported(k1)
}

impl BitWise {
    /// The checks that both forward passes make first, in order: the same
    /// layout, then the same element type, then a type with bitwise
    /// operations.
    fn check_operands(&self, k1: ElemKind, l1: &Layout, k2: ElemKind, l2: &Layout) -> (r: Result<
        (),
        BitwiseError,
    >)
        ensures
            r is Ok <==> accepted(k1, l1, k2, l2),
            r matches Err(e) ==> refused_as(&e, k1, l1, k2, l2),
    {
        if !l1.same_as(l2) {
            return Err(
                BitwiseError::ShapeMismatch {
                    lhs: copy_dims(&l1.dims),
                    rhs: copy_dims(&l2.dims),
                    op: self.name(),
                },
            );
        }
        if k1 != k2 {
            return Err(BitwiseError::DTypeMismatch { lhs: k1, rhs: k2, op: self.name() });
        }
        if !k1.is_supported() {
            return Err(BitwiseError::UnsupportedDType { dtype: k1, op: self.name() });
        }
        Ok(())
    }

    /// The forward pass on host memory: the operation applied to each pair of
    /// elements, with the operands' shape.
    pub fn cpu_fwd(&self, s1: &HostBuffer, l1: &Layout, s2: &HostBuffer, l2: &Layout) -> (r:
        Result<(HostBuffer, Vec<usize>), BitwiseError>)
        ensures
            r is Ok <==> accepted(kind_of(s1), l1, kind_of(s2), l2),
            r matches Err(e) ==> refused_as(&e, kind_of(s1), l1, kind_of(s2), l2),
            r matches Ok((out, shape)) ==> shape@ == l1.dims@ && host_elementwise(
                self.op,
                s1,
                s2,
                &out,
            ),
    {
        match self.check_operands(s1.dtype(), l1, s2.dtype(), l2) {
            Err(e) => {
                return Err(e);
            },
            Ok(()) => {},
        }
        let shape = copy_dims(&l1.dims);
        match (s1, s2) {
            (HostBuffer::U8(vs1), HostBuffer::U8(vs2)) => Ok(
                (HostBuffer::U8(self.bitwise(vs1.as_slice(), vs2.as_slice())), shape),
            ),
            (HostBuffer::U32(vs1), HostBuffer::U32(vs2)) => Ok(
                (HostBuffer::U32(self.bitwise(vs1.as_slice(), vs2.as_slice())), shape),
            ),
            (HostBuffer::I64(vs1), HostBuffer::I64(vs2)) => Ok(
                (HostBuffer::I64(self.bitwise(vs1.as_slice(), vs2.as_slice())), shape),
            ),
            _ => Err(BitwiseError::UnsupportedDType { dtype: s1.dtype(), op: self.name() }),
        }
    }

    /// The decisions of the forward pass on a device: the checks of
    /// `cpu_fwd`, then that each operand lies contiguously in its storage;
    /// then the storage ranges to read, the kernel to load and the launch
    /// geometry.
    pub fn cuda_fwd_plan(&self, k1: ElemKind, l1: &Layout, k2: ElemKind, l2: &Layout) -> (r:
        Result<LaunchPlan, BitwiseError>)
        requires
            l1.fits(),
            l2.fits(),
        ensures
            r is Ok <==> accepted(k1, l1, k2, l2) && is_row_major(l1.dims@, l1.stride@)
                && is_row_major(l2.dims@, l2.stride@),
            !accepted(k1, l1, k2, l2) ==> (r matches Err(e) && refused_as(&e, k1, l1, k2, l2)),
            accepted(k1, l1, k2, l2) && !is_row_major(l1.dims@, l1.stride@) ==> (r matches Err(
                BitwiseError::NonContiguous { input },
            ) && input == 1),
            accepted(k1, l1, k2, l2) && is_row_major(l1.dims@, l1.stride@) && !is_row_major(
                l2.dims@,
                l2.stride@,
            ) ==> (r matches Err(BitwiseError::NonContiguous { input }) && input == 2),
            r matches Ok(p) ==> {
                &&& p.elem_count == l1.elem_count()
                &&& p.lhs_range == (l1.start_offset, (l1.start_offset + l1.elem_count()) as usize)
                &&& p.rhs_range == (l2.start_offset, (l2.start_offset + l2.elem_count()) as usize)
                &&& p.kernel@ == kernel_symbol(self.op, k1)
                &&& geometry_of(p.geometry, p.elem_count as nat)
            },
    {
        match self.check_operands(k1, l1, k2, l2) {
            Err(e) => {
                return Err(e);
            },
            Ok(()) => {},
        }
        proof {
            lemma_elem_count_bound(l1.dims@, 0);
            lemma_elem_count_bound(l2.dims@, 0);
            assert(l1.dims@.subrange(0, l1.dims@.len() as int) =~= l1.dims@);
            assert(l2.dims@.subrange(0, l2.dims@.len() as int) =~= l2.dims@);
        }
        let lhs_range = match l1.contiguous_offsets() {
            None => {
                return Err(BitwiseError::NonContiguous { input: 1 });
            },
            Some(o) => o,
        };
        let rhs_range = match l2.contiguous_offsets() {
            None => {
                return Err(BitwiseError::NonContiguous { input: 2 });
            },
            Some(o) => o,
        };
        let elem_count = lhs_range.1 - lhs_range.0;
        proof {
            reveal_strlit("_");
        }
        let kernel = String::from_str(self.op.kernel_base()).concat("_").concat(k1.as_str());
        let geometry = launch_geometry(elem_count);
        Ok(LaunchPlan { lhs_range, rhs_range, elem_count, kernel, geometry })
    }
}

fn copy_dims(d: &Vec<usize>) -> (r: Vec<usize>)
    ensures
        r@ == d@,
{
    let mut r: Vec<usize> = Vec::with_capacity(d.len());
    let mut i: usize = 0;
    while i < d.len()
        invariant
            i <= d@.len(),
            r@ == d@.subrange(0, i as int),
        decreases d@.len() - i,
    {
        r.push(d[i]);
        i = i + 1;
    }
    assert(r@ =~= d@);
    r
}

} // verus!
