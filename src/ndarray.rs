//! Tensors of the runtime: their header (shape, strides, context, element type), who
//! frees them, and the checks made before data moves between them.

use vstd::prelude::*;

use crate::context::TVMContext;
use crate::errors::Error;
use crate::handle::OwnedHandle;
use crate::ty::{type_display, TVMType};

verus! {

/// The product of the dimensions of a shape.
pub open spec fn shape_product(s: Seq<usize>) -> int
    decreases s.len(),
{
    if s.len() == 0 {
        1
    } else {
        shape_product(s.drop_last()) * s.last()
    }
}

/// Every running product of the dimensions, from the first, fits in a `usize`.
pub open spec fn product_fits(s: Seq<usize>) -> bool {
    forall|i: int| 0 <= i <= s.len() ==> shape_product(#[trigger] s.subrange(0, i)) <= usize::MAX
}

/// What the runtime's descriptor of a tensor says of it, besides its data.
#[derive(Debug, Clone)]
pub struct ArrayInfo {
    /// The dimensions, absent when the tensor has no shape or no data.
    pub shape: Option<Vec<usize>>,
    /// The strides in elements, absent for a compact tensor.
    pub strides: Option<Vec<usize>>,
    /// The number of dimensions.
    pub ndim: usize,
    /// Where the data lives.
    pub ctx: TVMContext,
    /// The element type.
    pub dtype: TVMType,
    /// The offset of the first element from the start of the data, in bytes.
    pub byte_offset: isize,
}

/// The header agrees with itself: shape and strides have `ndim` entries, and the
/// number of elements fits in a `usize`.
pub open spec fn info_consistent(info: ArrayInfo) -> bool {
    &&& (info.shape matches Some(s) ==> s@.len() == info.ndim && product_fits(s@))
    &&& (info.strides matches Some(s) ==> s@.len() == info.ndim)
}

/// A tensor of the runtime, owned or viewed through this wrapper.
#[derive(Debug)]
pub struct NDArray {
    slot: OwnedHandle,
    info: ArrayInfo,
}

fn copy_dims(v: &Vec<usize>) -> (r: Vec<usize>)
    ensures
        r@ == v@,
{
    let mut out: Vec<usize> = Vec::with_capacity(v.len());
    let mut i: usize = 0;
    while i < v.len()
        invariant
            i <= v@.len(),
            out@ == v@.subrange(0, i as int),
        decreases v@.len() - i,
    {
        out.push(v[i]);
        i = i + 1;
        assert(out@ =~= v@.subrange(0, i as int));
    }
    assert(out@ =~= v@);
    out
}

fn copy_opt_dims(v: &Option<Vec<usize>>) -> (r: Option<Vec<usize>>)
    ensures
        r is Some <==> v is Some,
        v matches Some(d) ==> r.unwrap()@ == d@,
{
    match v {
        Some(d) => Some(copy_dims(d)),
        None => None,
    }
}

/// The number of elements of a shape, or `None` when a running product overflows.
fn checked_product(s: &Vec<usize>) -> (r: Option<usize>)
    ensures
        r is Some <==> product_fits(s@),
        r matches Some(n) ==> n == shape_product(s@),
{
    let mut acc: usize = 1;
    let mut i: usize = 0;
    assert(s@.subrange(0, 0) =~= Seq::<usize>::empty());
    while i < s.len()
        invariant
            i <= s@.len(),
            acc == shape_product(s@.subrange(0, i as int)),
            forall|j: int| 0 <= j <= i ==> shape_product(#[trigger] s@.subrange(0, j)) <= usize::MAX,
        decreases s@.len() - i,
    {
        let d = s[i];
        assert(s@.subrange(0, i + 1).drop_last() =~= s@.subrange(0, i as int));
        match acc.checked_mul(d) {
            Some(m) => {
                acc = m;
            },
            None => {
                assert(!(shape_product(s@.subrange(0, i + 1)) <= usize::MAX));
                return None;
            },
        }
        i = i + 1;
    }
    assert(s@.subrange(0, s@.len() as int) =~= s@);
    Some(acc)
}

impl ArrayInfo {
    /// The header of a fresh compact tensor of the given shape.
    pub fn compact(shape: &Vec<usize>, ctx: TVMContext, dtype: TVMType) -> (r: ArrayInfo)
        ensures
            (r.shape matches Some(s) && s@ == shape@),
            r.strides is None,
            r.ndim == shape@.len(),
            r.ctx == ctx,
            r.dtype == dtype,
            r.byte_offset == 0,
    {
        ArrayInfo {
            shape: Some(copy_dims(shape)),
            strides: None,
            ndim: shape.len(),
            ctx,
            dtype,
            byte_offset: 0,
        }
    }

    /// Whether the header agrees with itself.
    pub fn is_consistent(&self) -> (r: bool)
        ensures
            r == info_consistent(*self),
    {
        let shape_ok = match &self.shape {
            Some(s) => s.len() == self.ndim && checked_product(s).is_some(),
            None => true,
        };
        let strides_ok = match &self.strides {
            Some(s) => s.len() == self.ndim,
            None => true,
        };
        shape_ok && strides_ok
    }
}

/// Tensors whose element types differ cannot be copied into one another.
pub open spec fn copy_mismatch(e: Error, from: TVMType, to: TVMType) -> bool {
    e matches Error::TypeMismatch { expected, found } && expected@ == type_display(from)
        && found@ == type_display(to)
}

impl NDArray {
    /// The header of this tensor.
    pub closed spec fn spec_info(&self) -> ArrayInfo {
        self.info
    }

    /// Who frees the handle of this tensor.
    pub closed spec fn spec_slot(&self) -> &OwnedHandle {
        &self.slot
    }

    /// The header of every tensor wrapper agrees with itself.
    #[verifier::type_invariant]
    closed spec fn inv(&self) -> bool {
        info_consistent(self.info)
    }

    /// Wraps a tensor handle with its header; `None` when the header does not agree
    /// with itself. A view never frees the handle.
    pub fn new(handle: u64, is_view: bool, info: ArrayInfo) -> (r: Option<NDArray>)
        ensures
            r is Some <==> info_consistent(info),
            r matches Some(a) ==> {
                &&& a.spec_info() == info
                &&& a.spec_slot().spec_handle() == handle
                &&& a.spec_slot().spec_owned() == !is_view
                &&& !a.spec_slot().spec_released()
            },
    {
        if info.is_consistent() {
            Some(NDArray { slot: OwnedHandle::new(handle, !is_view, false), info })
        } else {
            None
        }
    }

    /// Wraps the handle of a tensor that the runtime's allocator has just made with
    /// the given shape, context and element type; the wrapper owns it.
    pub fn from_alloc(handle: u64, shape: &Vec<usize>, ctx: TVMContext, dtype: TVMType) -> (r:
        Option<NDArray>)
        ensures
            r is Some <==> product_fits(shape@),
            r matches Some(a) ==> {
                &&& (a.spec_info().shape matches Some(s) && s@ == shape@)
                &&& a.spec_info().strides is None
                &&& a.spec_info().ndim == shape@.len()
                &&& a.spec_info().ctx == ctx
                &&& a.spec_info().dtype == dtype
                &&& a.spec_info().byte_offset == 0
                &&& a.spec_slot().spec_handle() == handle
                &&& a.spec_slot().spec_owned()
                &&& !a.spec_slot().spec_released()
            },
    {
        NDArray::new(handle, false, ArrayInfo::compact(shape, ctx, dtype))
    }

    /// The handle of this tensor.
    pub fn handle(&self) -> (r: u64)
        ensures
            r == self.spec_slot().spec_handle(),
    {
        self.slot.handle()
    }

    /// Whether this wrapper only views a tensor that another owns.
    pub fn is_view(&self) -> (r: bool)
        ensures
            r == !self.spec_slot().spec_owned(),
    {
        !self.slot.is_owned()
    }

    /// The dimensions, absent when the tensor has no shape or no data.
    pub fn shape(&self) -> (r: Option<Vec<usize>>)
        ensures
            r is Some <==> self.spec_info().shape is Some,
            r matches Some(s) ==> s@ == self.spec_info().shape.unwrap()@,
    {
        copy_opt_dims(&self.info.shape)
    }

    /// The number of elements, absent when the tensor has no shape.
    pub fn size(&self) -> (r: Option<usize>)
        ensures
            r is Some <==> self.spec_info().shape is Some,
            r matches Some(n) ==> n == shape_product(self.spec_info().shape.unwrap()@),
    {
        proof {
            use_type_invariant(self);
        }
        match &self.info.shape {
            Some(s) => checked_product(s),
            None => None,
        }
    }

    /// Where the data lives.
    pub fn ctx(&self) -> (r: TVMContext)
        ensures
            r == self.spec_info().ctx,
    {
        self.info.ctx
    }

    /// The element type.
    pub fn dtype(&self) -> (r: TVMType)
        ensures
            r == self.spec_info().dtype,
    {
        self.info.dtype
    }

    /// The number of dimensions.
    pub fn ndim(&self) -> (r: usize)
        ensures
            r == self.spec_info().ndim,
    {
        self.info.ndim
    }

    /// The strides in elements, absent for a compact tensor.
    pub fn strides(&self) -> (r: Option<Vec<usize>>)
        ensures
            r is Some <==> self.spec_info().strides is Some,
            r matches Some(s) ==> s@ == self.spec_info().strides.unwrap()@,
    {
        copy_opt_dims(&self.info.strides)
    }

    /// Whether the tensor is compact, that is, has no strides.
    pub fn is_contiguous(&self) -> (r: bool)
        ensures
            r == self.spec_info().strides is None,
    {
        self.info.strides.is_none()
    }

    /// The offset of the first element from the start of the data, in bytes.
    pub fn byte_offset(&self) -> (r: isize)
        ensures
            r == self.spec_info().byte_offset,
    {
        self.info.byte_offset
    }

    /// The number of elements that reading the whole tensor into host memory yields;
    /// `EmptyArray` when the tensor has no shape.
    pub fn to_vec_len(&self) -> (r: Result<usize, Error>)
        ensures
            self.spec_info().shape is Some <==> r is Ok,
            self.spec_info().shape is None ==> r == Err::<usize, Error>(Error::EmptyArray),
            r matches Ok(n) ==> n == shape_product(self.spec_info().shape.unwrap()@),
    {
        match self.size() {
            Some(n) => Ok(n),
            None => Err(Error::EmptyArray),
        }
    }

    /// Whether `target` can receive a copy of this tensor: `TypeMismatch`, naming both
    /// element types, when they differ. Shapes are the runtime's to check.
    pub fn check_copy_to(&self, target: &NDArray) -> (r: Result<(), Error>)
        ensures
            self.spec_info().dtype == target.spec_info().dtype <==> r is Ok,
            r matches Err(e) ==> copy_mismatch(e, self.spec_info().dtype, target.spec_info().dtype),
    {
        if self.info.dtype != target.info.dtype {
            return Err(
                Error::TypeMismatch {
                    expected: self.info.dtype.name().to_owned(),
                    found: target.info.dtype.name().to_owned(),
                },
            );
        }
        Ok(())
    }

    /// Accepts `target` as the destination of a copy of this tensor and hands it back;
    /// fails with `TypeMismatch`, naming both element types, when they differ.
    pub fn copy_to_ndarray(&self, target: NDArray) -> (r: Result<NDArray, Error>)
        ensures
            self.spec_info().dtype == target.spec_info().dtype ==> r == Ok::<NDArray, Error>(
                target,
            ),
            self.spec_info().dtype != target.spec_info().dtype ==> (r matches Err(e)
                && copy_mismatch(e, self.spec_info().dtype, target.spec_info().dtype)),
    {
        match self.check_copy_to(&target) {
            Ok(()) => Ok(target),
            Err(e) => Err(e),
        }
    }

    /// Takes over the duty to free the handle: true exactly when the caller must now
    /// call the runtime's free routine, which happens at most once and never for a view.
    pub fn release(&mut self) -> (free_now: bool)
        ensures
            free_now == old(self).spec_slot().frees_now(),
            old(self).spec_slot().released_state(final(self).spec_slot()),
            final(self).spec_info() == old(self).spec_info(),
        no_unwind
    {
        proof {
            use_type_invariant(&*self);
        }
        self.slot.release()
    }
}

/// The 32-bit element types that host buffers may hold.
pub trait Num32 {
    /// The element type of this host type.
    spec fn spec_dtype() -> TVMType;

    /// The element type of this host type: 32 bits, one lane.
    fn dtype() -> (r: TVMType)
        ensures
            r == Self::spec_dtype(),
            r.bits == 32,
            r.lanes == 1,
    ;
}

impl Num32 for i32 {
    open spec fn spec_dtype() -> TVMType {
        TVMType { code: 0, bits: 32, lanes: 1 }
    }

    fn dtype() -> (r: TVMType) {
        TVMType::new(0, 32, 1)
    }
}

impl Num32 for u32 {
    open spec fn spec_dtype() -> TVMType {
        TVMType { code: 1, bits: 32, lanes: 1 }
    }

    fn dtype() -> (r: TVMType) {
        TVMType::new(1, 32, 1)
    }
}

} // verus!
