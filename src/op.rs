use vstd::prelude::*;

verus! {

/// The three bitwise operations.
#[derive(Clone, Copy, Debug, PartialEq, Eq, Structural)]
pub enum BitWiseOpEnum {
    AND,
    OR,
    XOR,
}

/// The label of an operation, as shown in diagnostics.
pub open spec fn op_label(op: BitWiseOpEnum) -> Seq<char> {
    match op {
        BitWiseOpEnum::AND => "AND"@,
        BitWiseOpEnum::OR => "OR"@,
        BitWiseOpEnum::XOR => "XOR"@,
    }
}

/// The base name of the device kernel that computes an operation.
pub open spec fn kernel_base_of(op: BitWiseOpEnum) -> Seq<char> {
    match op {
        BitWiseOpEnum::AND => "bitwise_and"@,
        BitWiseOpEnum::OR => "bitwise_or"@,
        BitWiseOpEnum::XOR => "bitwise_xor"@,
    }
}

impl BitWiseOpEnum {
    pub fn to_string(&self) -> (r: String)
        ensures
            r@ == op_label(*self),
    {
        match self {
            BitWiseOpEnum::AND => {
                proof { reveal_strlit("AND"); }
                String::from_str("AND")
            },
            BitWiseOpEnum::OR => {
                proof { reveal_strlit("OR"); }
                String::from_str("OR")
            },
            BitWiseOpEnum::XOR => {
                proof { reveal_strlit("XOR"); }
                String::from_str("XOR")
            },
        }
    }

    /// Base name of the device kernel for this operation; the element type's
    /// suffix completes the symbol.
    pub fn kernel_base(&self) -> (r: &'static str)
        ensures
            r@ == kernel_base_of(*self),
    {
        match self {
            BitWiseOpEnum::AND => {
                proof { reveal_strlit("bitwise_and"); }
                "bitwise_and"
            },
            BitWiseOpEnum::OR => {
                proof { reveal_strlit("bitwise_or"); }
                "bitwise_or"
            },
            BitWiseOpEnum::XOR => {
                proof { reveal_strlit("bitwise_xor"); }
                "bitwise_xor"
            },
        }
    }
}

/// An element type on which the three bitwise operations are defined.
pub trait BitElem: Copy + Sized {
    /// The result of `op` on one pair of elements.
    spec fn spec_apply(op: BitWiseOpEnum, a: Self, b: Self) -> Self;

    fn apply(op: BitWiseOpEnum, a: Self, b: Self) -> (r: Self)
        ensures
            r == Self::spec_apply(op, a, b),
    ;
}

impl BitElem for u8 {
    open spec fn spec_apply(op: BitWiseOpEnum, a: u8, b: u8) -> u8 {
        match op {
            BitWiseOpEnum::AND => a & b,
            BitWiseOpEnum::OR => a | b,
            BitWiseOpEnum::XOR => a ^ b,
        }
    }

    fn apply(op: BitWiseOpEnum, a: u8, b: u8) -> (r: u8) {
        match op {
            BitWiseOpEnum::AND => a & b,
            BitWiseOpEnum::OR => a | b,
            BitWiseOpEnum::XOR => a ^ b,
        }
    }
}

impl BitElem for u32 {
    open spec fn spec_apply(op: BitWiseOpEnum, a: u32, b: u32) -> u32 {
        match op {
            BitWiseOpEnum::AND => a & b,
            BitWiseOpEnum::OR => a | b,
            BitWiseOpEnum::XOR => a ^ b,
        }
    }

    fn apply(op: BitWiseOpEnum, a: u32, b: u32) -> (r: u32) {
        match op {
            BitWiseOpEnum::AND => a & b,
            BitWiseOpEnum::OR => a | b,
            BitWiseOpEnum::XOR => a ^ b,
        }
    }
}

impl BitElem for i64 {
    open spec fn spec_apply(op: BitWiseOpEnum, a: i64, b: i64) -> i64 {
        match op {
            BitWiseOpEnum::AND => a & b,
            BitWiseOpEnum::OR => a | b,
            BitWiseOpEnum::XOR => a ^ b,
        }
    }

    fn apply(op: BitWiseOpEnum, a: i64, b: i64) -> (r: i64) {
        match op {
            BitWiseOpEnum::AND => a & b,
            BitWiseOpEnum::OR => a | b,
            BitWiseOpEnum::XOR => a ^ b,
        }
    }
}

/// `c` holds `op` applied to each pair of `a` and `b` at the same index, over
/// their common length.
pub open spec fn elementwise<T: BitElem>(
    op: BitWiseOpEnum,
    a: Seq<T>,
    b: Seq<T>,
    c: Seq<T>,
) -> bool {
    &&& c.len() == if a.len() <= b.len() { a.len() } else { b.len() }
    &&& forall|i: int| 0 <= i < c.len() ==> #[trigger] c[i] == T::spec_apply(op, a[i], b[i])
}

/// The bitwise operator, as registered with a tensor library under `name()`.
pub struct BitWise {
    pub op: BitWiseOpEnum,
}

impl BitWise {
    pub fn new(op: BitWiseOpEnum) -> (r: Self)
        ensures
            r.op == op,
    {
        Self { op }
    }

    pub fn name(&self) -> (r: &'static str)
        ensures
            r@ == "bitwise"@,
    {
        proof { reveal_strlit("bitwise"); }
        "bitwise"
    }

    /// Applies the operation to each pair of elements at the same index.
    pub fn bitwise<T: BitElem>(&self, vs1: &[T], vs2: &[T]) -> (r: Vec<T>)
        ensures
            elementwise(self.op, vs1@, vs2@, r@),
    {
        let n: usize = if vs1.len() <= vs2.len() { vs1.len() } else { vs2.len() };
        let mut result: Vec<T> = Vec::with_capacity(n);
        let mut i: usize = 0;
        while i < n
            invariant
                n <= vs1@.len(),
                n <= vs2@.len(),
                n == vs1@.len() || n == vs2@.len(),
                i <= n,
                result@.len() == i,
                forall|j: int| 0 <= j < i ==> #[trigger] result@[j] == T::spec_apply(self.op, vs1@[j], vs2@[j]),
            decreases n - i,
        {
            let r = T::apply(self.op, vs1[i], vs2[i]);
            result.push(r);
            i = i + 1;
        }
        result
    }
}

} // verus!
