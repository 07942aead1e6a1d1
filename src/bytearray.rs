//! Byte arrays, as the runtime passes model parameters.

use vstd::prelude::*;
use vstd::slice::slice_to_vec;

verus! {

/// A byte array handed to or received from the runtime.
#[derive(Debug, Clone)]
pub struct TVMByteArray {
    pub(crate) bytes: Vec<u8>,
}

/// A byte as the runtime's signed `char` reads it.
pub open spec fn signed_byte(b: u8) -> i8 {
    if b < 128 {
        b as i8
    } else {
        (b as int - 256) as i8
    }
}

impl View for TVMByteArray {
    type V = Seq<u8>;

    closed spec fn view(&self) -> Seq<u8> {
        self.bytes@
    }
}

impl TVMByteArray {
    /// A byte array holding a copy of `bytes`.
    pub fn from(bytes: &[u8]) -> (r: TVMByteArray)
        ensures
            r@ == bytes@,
    {
        TVMByteArray { bytes: slice_to_vec(bytes) }
    }

    /// The number of bytes.
    pub fn len(&self) -> (r: usize)
        ensures
            r == self@.len(),
    {
        self.bytes.len()
    }

    /// The bytes, read as signed characters.
    pub fn data(&self) -> (r: Vec<i8>)
        ensures
            r@.len() == self@.len(),
            forall|i: int| 0 <= i < r@.len() ==> r@[i] == signed_byte(#[trigger] self@[i]),
    {
        let n = self.bytes.len();
        let mut out: Vec<i8> = Vec::with_capacity(n);
        let mut i: usize = 0;
        while i < n
            invariant
                n == self@.len(),
                i <= n,
                out@.len() == i,
                forall|j: int| 0 <= j < i ==> out@[j] == signed_byte(#[trigger] self@[j]),
            decreases n - i,
        {
            let b = self.bytes[i];
            let s: i8 = if b < 128 {
                b as i8
            } else {
                (b as i16 - 256) as i8
            };
            out.push(s);
            i = i + 1;
        }
        out
    }

    /// The bytes themselves.
    pub fn as_bytes(&self) -> (r: &Vec<u8>)
        ensures
            r@ == self@,
    {
        &self.bytes
    }
}

} // verus!
