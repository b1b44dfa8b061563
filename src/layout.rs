use vstd::prelude::*;

verus! {

/// How a tensor's elements lie in its storage: the size of each dimension,
/// the distance in elements between neighbours along it, and where the first
/// element is.
#[derive(Debug)]
pub struct Layout {
    pub dims: Vec<usize>,
    pub stride: Vec<usize>,
    pub start_offset: usize,
}

/// The product of `d[i..]`.
pub open spec fn prod_from(d: Seq<usize>, i: int) -> nat
    decreases d.len() - i,
{
    if i >= d.len() || i < 0 {
        1
    } else {
        d[i] as nat * prod_from(d, i + 1)
    }
}

/// The product of the dimensions that are not zero.
pub open spec fn nonzero_prod(d: Seq<usize>) -> nat
    decreases d.len(),
{
    if d.len() == 0 {
        1
    } else {
        (if d[0] == 0 { 1 } else { d[0] as nat }) * nonzero_prod(d.subrange(1, d.len() as int))
    }
}

/// The strides are those of a row-major array of these dimensions; a
/// dimension of size one or zero may have any stride.
pub open spec fn is_row_major(dims: Seq<usize>, stride: Seq<usize>) -> bool {
    &&& dims.len() == stride.len()
    &&& forall|i: int| 0 <= i < dims.len() && dims[i] > 1 ==> #[trigger] stride[i] == prod_from(dims, i + 1)
}

impl Layout {
    /// The number of elements.
    pub open spec fn elem_count(&self) -> nat {
        prod_from(self.dims@, 0)
    }

    /// Every product of dimensions, and the offset past the last element,
    /// fit in a `usize`.
    pub open spec fn fits(&self) -> bool {
        self.start_offset + nonzero_prod(self.dims@) <= usize::MAX
    }

    pub open spec fn same(&self, o: &Layout) -> bool {
        &&& self.dims@ == o.dims@
        &&& self.stride@ == o.stride@
        &&& self.start_offset == o.start_offset
    }

    pub fn new(dims: Vec<usize>, stride: Vec<usize>, start_offset: usize) -> (r: Layout)
        ensures
            r.dims@ == dims@,
            r.stride@ == stride@,
            r.start_offset == start_offset,
    {
        Layout { dims, stride, start_offset }
    }

    /// Whether every product of dimensions, and the offset past the last
    /// element, fit in a `usize`.
    pub fn fits_in_memory(&self) -> (r: bool)
        ensures
            r == self.fits(),
    {
        let n = self.dims.len();
        let mut acc: usize = 1;
        let mut i: usize = n;
        assert(self.dims@.subrange(n as int, n as int) =~= Seq::<usize>::empty());
        while i > 0
            invariant
                n == self.dims@.len(),
                i <= n,
                acc == nonzero_prod(self.dims@.subrange(i as int, n as int)),
            decreases i,
        {
            let d = self.dims[i - 1];
            let f: usize = if d == 0 { 1 } else { d };
            proof {
                let s = self.dims@.subrange(i - 1, n as int);
                assert(s.subrange(1, s.len() as int) =~= self.dims@.subrange(i as int, n as int));
                assert(s[0] == d);
                assert(nonzero_prod(s) == f as nat * acc as nat);
                assert(f as nat * acc as nat == acc as nat * f as nat) by (nonlinear_arith);
            }
            match acc.checked_mul(f) {
                Some(p) => {
                    acc = p;
                },
                None => {
                    proof {
                        lemma_nonzero_prod_suffix(self.dims@, i - 1);
                        assert(acc as nat * f as nat > usize::MAX);
                    }
                    return false;
                },
            }
            i = i - 1;
        }
        assert(self.dims@.subrange(0, n as int) =~= self.dims@);
        acc <= usize::MAX - self.start_offset
    }

    /// Whether the two layouts are the same in every part.
    pub fn same_as(&self, o: &Layout) -> (r: bool)
        ensures
            r == self.same(o),
    {
        self.start_offset == o.start_offset && same_seq(&self.dims, &o.dims) && same_seq(
            &self.stride,
            &o.stride,
        )
    }

    /// The offsets of the first element and one past the last, where the
    /// elements lie in row-major order with no gaps.
    pub(crate) fn contiguous_offsets(&self) -> (r: Option<(usize, usize)>)
        requires
            self.fits(),
        ensures
            r == (if is_row_major(self.dims@, self.stride@) {
                Some((self.start_offset, (self.start_offset + self.elem_count()) as usize))
            } else {
                None
            }),
    {
        candle_contiguous_offsets(&self.dims, &self.stride, self.start_offset)
    }
}

/// Relies on `candle_core::Layout::contiguous_offsets`: the range of storage
/// offsets that a row-major layout covers, and nothing for any other layout.
#[verifier::external_body]
fn candle_contiguous_offsets(dims: &Vec<usize>, stride: &Vec<usize>, start_offset: usize) -> (r:
    Option<(usize, usize)>)
    requires
        start_offset + nonzero_prod(dims@) <= usize::MAX,
    ensures
        r == (if is_row_major(dims@, stride@) {
            Some((start_offset, (start_offset + prod_from(dims@, 0)) as usize))
        } else {
            None
        }),
{
    let shape = candle_core::Shape::from(dims.clone());
    candle_core::Layout::new(shape, stride.clone(), start_offset).contiguous_offsets()
}

/// The product of the non-zero dimensions of a suffix is at most that of
/// all of them.
proof fn lemma_nonzero_prod_suffix(d: Seq<usize>, i: int)
    requires
        0 <= i <= d.len(),
    ensures
        nonzero_prod(d.subrange(i, d.len() as int)) <= nonzero_prod(d),
    decreases i,
{
    if i > 0 {
        lemma_nonzero_prod_suffix(d, i - 1);
        let s = d.subrange(i - 1, d.len() as int);
        assert(s.subrange(1, s.len() as int) =~= d.subrange(i, d.len() as int));
        let f: nat = if s[0] == 0 { 1 } else { s[0] as nat };
        let p = nonzero_prod(d.subrange(i, d.len() as int));
        assert(p <= f * p) by (nonlinear_arith)
            requires f >= 1;
    } else {
        assert(d.subrange(0, d.len() as int) =~= d);
    }
}

/// The number of elements is at most the product of the non-zero dimensions.
pub(crate) proof fn lemma_elem_count_bound(d: Seq<usize>, i: int)
    requires
        0 <= i <= d.len(),
    ensures
        prod_from(d, i) <= nonzero_prod(d.subrange(i, d.len() as int)),
    decreases d.len() - i,
{
    if i < d.len() {
        lemma_elem_count_bound(d, i + 1);
        let s = d.subrange(i, d.len() as int);
        assert(s.subrange(1, s.len() as int) =~= d.subrange(i + 1, d.len() as int));
        let x = prod_from(d, i + 1);
        let y = nonzero_prod(d.subrange(i + 1, d.len() as int));
        let v = d[i] as nat;
        assert(v * x <= (if v == 0 { 1 } else { v }) * y) by (nonlinear_arith)
            requires x <= y;
    }
}

fn same_seq(a: &Vec<usize>, b: &Vec<usize>) -> (r: bool)
    ensures
        r == (a@ == b@),
{
    if a.len() != b.len() {
        return false;
    }
    let mut i: usize = 0;
    while i < a.len()
        invariant
            a@.len() == b@.len(),
            i <= a@.len(),
            forall|j: int| 0 <= j < i ==> a@[j] == b@[j],
        decreases a@.len() - i,
    {
        if a[i] != b[i] {
            return false;
        }
        i = i + 1;
    }
    assert(a@ =~= b@);
    true
}

} // verus!
