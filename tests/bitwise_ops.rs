use bitwise::{
    launch_geometry, next_power_of_2, BitWise, BitWiseOpEnum, BitwiseError, ElemKind, HostBuffer,
    Layout, MAX_BLOCK_SIZE,
};

fn flat(n: usize) -> Layout {
    Layout::new(vec![n], vec![1], 0)
}

fn run(op: BitWiseOpEnum, a: HostBuffer, b: HostBuffer, n: usize) -> HostBuffer {
    let (out, shape) = BitWise::new(op).cpu_fwd(&a, &flat(n), &b, &flat(n)).unwrap();
    assert_eq!(shape, vec![n]);
    out
}

fn u32s(b: HostBuffer) -> Vec<u32> {
    match b {
        HostBuffer::U32(v) => v,
        _ => panic!("not a u32 buffer"),
    }
}

#[test]
fn test_bitwise_and() {
    let a = HostBuffer::U32(vec![1u32, 2, 3, 4]);
    let b = HostBuffer::U32(vec![1u32, 2, 3, 0]);
    let c = run(BitWiseOpEnum::AND, a, b, 4);
    assert_eq!(&u32s(c), &[1, 2, 3, 0]);
    let plan = BitWise::new(BitWiseOpEnum::AND)
        .cuda_fwd_plan(ElemKind::U32, &flat(4), ElemKind::U32, &flat(4))
        .unwrap();
    assert_eq!(plan.kernel, "bitwise_and_u32");
    assert_eq!(plan.lhs_range, (0, 4));
    assert_eq!(plan.rhs_range, (0, 4));
    assert_eq!(plan.elem_count, 4);
}

#[test]
fn or_of_bit_patterns() {
    let c = run(
        BitWiseOpEnum::OR,
        HostBuffer::U32(vec![0b101, 0b110]),
        HostBuffer::U32(vec![0b010, 0b001]),
        2,
    );
    assert_eq!(u32s(c), vec![0b111, 0b111]);
}

#[test]
fn xor_of_equal_values_is_zero() {
    let c = run(BitWiseOpEnum::XOR, HostBuffer::U32(vec![5, 5]), HostBuffer::U32(vec![5, 5]), 2);
    assert_eq!(u32s(c), vec![0, 0]);
}

#[test]
fn each_kind_matches_scalar_operations() {
    let a8 = vec![0xF0u8, 0x0F, 0xAA, 0];
    let b8 = vec![0xFFu8, 0x3C, 0x55, 7];
    for op in [BitWiseOpEnum::AND, BitWiseOpEnum::OR, BitWiseOpEnum::XOR] {
        let out = run(op, HostBuffer::U8(a8.clone()), HostBuffer::U8(b8.clone()), 4);
        let expected: Vec<u8> = (0..4)
            .map(|i| match op {
                BitWiseOpEnum::AND => a8[i] & b8[i],
                BitWiseOpEnum::OR => a8[i] | b8[i],
                BitWiseOpEnum::XOR => a8[i] ^ b8[i],
            })
            .collect();
        match out {
            HostBuffer::U8(v) => assert_eq!(v, expected),
            _ => panic!("not a u8 buffer"),
        }
    }
    let a = vec![-1i64, i64::MIN, 12345, 0];
    let b = vec![0x0F0Fi64, -1, -12345, i64::MAX];
    let out = run(BitWiseOpEnum::XOR, HostBuffer::I64(a.clone()), HostBuffer::I64(b.clone()), 4);
    match out {
        HostBuffer::I64(v) => assert_eq!(v, vec![a[0] ^ b[0], a[1] ^ b[1], a[2] ^ b[2], a[3] ^ b[3]]),
        _ => panic!("not an i64 buffer"),
    }
    let out = run(BitWiseOpEnum::AND, HostBuffer::I64(a.clone()), HostBuffer::I64(b.clone()), 4);
    match out {
        HostBuffer::I64(v) => assert_eq!(v, vec![0x0F0F, i64::MIN, 1, 0]),
        _ => panic!("not an i64 buffer"),
    }
}

#[test]
fn empty_operands_give_empty_output() {
    let c = run(BitWiseOpEnum::AND, HostBuffer::U32(vec![]), HostBuffer::U32(vec![]), 0);
    assert_eq!(u32s(c), Vec::<u32>::new());
}

#[test]
fn shape_mismatch_is_refused() {
    let a = HostBuffer::U32(vec![1, 2, 3, 4]);
    let b = HostBuffer::U32(vec![1, 2, 3, 4]);
    let square = Layout::new(vec![2, 2], vec![2, 1], 0);
    let op = BitWise::new(BitWiseOpEnum::AND);
    match op.cpu_fwd(&a, &flat(4), &b, &square) {
        Err(BitwiseError::ShapeMismatch { lhs, rhs, op }) => {
            assert_eq!(lhs, vec![4]);
            assert_eq!(rhs, vec![2, 2]);
            assert_eq!(op, "bitwise");
        }
        _ => panic!("expected a shape mismatch"),
    }
    assert!(matches!(
        op.cuda_fwd_plan(ElemKind::U32, &flat(4), ElemKind::U32, &square),
        Err(BitwiseError::ShapeMismatch { .. })
    ));
}

#[test]
fn shape_is_checked_before_type() {
    let a = HostBuffer::U32(vec![1, 2, 3, 4]);
    let b = HostBuffer::I64(vec![1, 2]);
    let r = BitWise::new(BitWiseOpEnum::OR).cpu_fwd(&a, &flat(4), &b, &flat(2));
    assert!(matches!(r, Err(BitwiseError::ShapeMismatch { .. })));
}

#[test]
fn type_mismatch_is_refused() {
    let a = HostBuffer::U32(vec![1, 2]);
    let b = HostBuffer::I64(vec![1, 2]);
    let op = BitWise::new(BitWiseOpEnum::XOR);
    match op.cpu_fwd(&a, &flat(2), &b, &flat(2)) {
        Err(BitwiseError::DTypeMismatch { lhs, rhs, op }) => {
            assert_eq!(lhs, ElemKind::U32);
            assert_eq!(rhs, ElemKind::I64);
            assert_eq!(op, "bitwise");
        }
        _ => panic!("expected a type mismatch"),
    }
    assert!(matches!(
        op.cuda_fwd_plan(ElemKind::U32, &flat(2), ElemKind::I64, &flat(2)),
        Err(BitwiseError::DTypeMismatch { lhs: ElemKind::U32, rhs: ElemKind::I64, .. })
    ));
}

#[test]
fn float_operands_are_unsupported_on_both_paths() {
    let op = BitWise::new(BitWiseOpEnum::AND);
    for (buf, kind) in [
        (HostBuffer::F32, ElemKind::F32),
        (HostBuffer::F64, ElemKind::F64),
        (HostBuffer::F16, ElemKind::F16),
        (HostBuffer::BF16, ElemKind::BF16),
    ] {
        let buf2 = match kind {
            ElemKind::F32 => HostBuffer::F32,
            ElemKind::F64 => HostBuffer::F64,
            ElemKind::F16 => HostBuffer::F16,
            _ => HostBuffer::BF16,
        };
        match op.cpu_fwd(&buf, &flat(3), &buf2, &flat(3)) {
            Err(BitwiseError::UnsupportedDType { dtype, op }) => {
                assert_eq!(dtype, kind);
                assert_eq!(op, "bitwise");
            }
            _ => panic!("expected an unsupported type"),
        }
        match op.cuda_fwd_plan(kind, &flat(3), kind, &flat(3)) {
            Err(BitwiseError::UnsupportedDType { dtype, .. }) => assert_eq!(dtype, kind),
            _ => panic!("expected an unsupported type"),
        }
    }
}

#[test]
fn non_contiguous_inputs_are_refused_on_device() {
    let op = BitWise::new(BitWiseOpEnum::OR);
    let transposed = Layout::new(vec![2, 3], vec![1, 2], 0);
    assert!(matches!(
        op.cuda_fwd_plan(ElemKind::U8, &transposed, ElemKind::U8, &transposed),
        Err(BitwiseError::NonContiguous { input: 1 })
    ));
    let a = BitWise::new(BitWiseOpEnum::OR).cpu_fwd(
        &HostBuffer::U8(vec![1, 2, 3, 4, 5, 6]),
        &transposed,
        &HostBuffer::U8(vec![0; 6]),
        &transposed,
    );
    assert!(a.is_ok());
}

#[test]
fn device_plan_reads_offset_ranges() {
    let op = BitWise::new(BitWiseOpEnum::XOR);
    let l = Layout::new(vec![3, 1, 4], vec![4, 7, 1], 5);
    let plan = op.cuda_fwd_plan(ElemKind::I64, &l, ElemKind::I64, &l).unwrap();
    assert_eq!(plan.lhs_range, (5, 17));
    assert_eq!(plan.rhs_range, (5, 17));
    assert_eq!(plan.elem_count, 12);
    assert_eq!(plan.kernel, "bitwise_xor_i64");
    assert_eq!(plan.geometry.block_size, 16);
    assert_eq!(plan.geometry.grid_size, 1);
    let plan = BitWise::new(BitWiseOpEnum::OR)
        .cuda_fwd_plan(ElemKind::U8, &flat(2000), ElemKind::U8, &flat(2000))
        .unwrap();
    assert_eq!(plan.kernel, "bitwise_or_u8");
    assert_eq!(plan.geometry.block_size, 1024);
    assert_eq!(plan.geometry.grid_size, 2);
}

#[test]
fn launch_geometry_covers_the_elements() {
    for n in [1usize, 1023, 1024, 1025, 100000] {
        let g = launch_geometry(n);
        assert!(g.block_size.is_power_of_two());
        assert!(g.block_size <= MAX_BLOCK_SIZE);
        assert!(g.block_size * g.grid_size >= n);
        assert!(g.block_size * g.grid_size < n + g.block_size);
    }
    let g = launch_geometry(1);
    assert_eq!((g.block_size, g.grid_size), (1, 1));
    let g = launch_geometry(1023);
    assert_eq!((g.block_size, g.grid_size), (1024, 1));
    let g = launch_geometry(1025);
    assert_eq!((g.block_size, g.grid_size), (1024, 2));
    let g = launch_geometry(100000);
    assert_eq!((g.block_size, g.grid_size), (1024, 98));
    let g = launch_geometry(0);
    assert_eq!((g.block_size, g.grid_size), (1, 0));
}

#[test]
fn next_power_of_two_values() {
    assert_eq!(next_power_of_2(0), 1);
    assert_eq!(next_power_of_2(1), 1);
    assert_eq!(next_power_of_2(5), 8);
    assert_eq!(next_power_of_2(1024), 1024);
    assert_eq!(next_power_of_2(1025), 2048);
    assert_eq!(next_power_of_2(usize::MAX / 2 + 1), usize::MAX / 2 + 1);
}

#[test]
fn names_and_labels() {
    assert_eq!(BitWiseOpEnum::AND.to_string(), "AND");
    assert_eq!(BitWiseOpEnum::OR.to_string(), "OR");
    assert_eq!(BitWiseOpEnum::XOR.to_string(), "XOR");
    assert_eq!(BitWiseOpEnum::XOR.kernel_base(), "bitwise_xor");
    assert_eq!(BitWise::new(BitWiseOpEnum::OR).name(), "bitwise");
    assert_eq!(ElemKind::BF16.as_str(), "bf16");
    assert_eq!(ElemKind::U32.as_str(), "u32");
    assert!(!ElemKind::F32.is_supported());
    assert!(ElemKind::I64.is_supported());
}

#[test]
fn layout_checks() {
    let l = Layout::new(vec![2, 3], vec![3, 1], 0);
    assert!(l.same_as(&Layout::new(vec![2, 3], vec![3, 1], 0)));
    assert!(!l.same_as(&Layout::new(vec![2, 3], vec![3, 1], 1)));
    assert!(!l.same_as(&Layout::new(vec![3, 2], vec![2, 1], 0)));
    assert!(l.fits_in_memory());
    assert!(!Layout::new(vec![usize::MAX, 2], vec![2, 1], 0).fits_in_memory());
    assert!(Layout::new(vec![usize::MAX, 0], vec![1, 1], 0).fits_in_memory());
    assert!(!Layout::new(vec![4], vec![1], usize::MAX - 2).fits_in_memory());
}
