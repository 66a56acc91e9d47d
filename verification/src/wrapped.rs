//! The descriptor record, the input view and the output sink.
//!
//! The host owns a small fixed-layout record (the descriptor) that tells the
//! guest where its input bytes live and how large they are. In the host's
//! memory the record holds raw addresses; here every field is a plain
//! integer, and the bytes the `args_ptr` field references travel beside the
//! record as an owned buffer, captured once by the (unverified) boundary
//! crossing that read the host's memory. Everything built from those plain
//! values is verified.

use vstd::prelude::*;
use vstd::slice::slice_subrange;

verus! {

/// The fixed-layout record agreed upon with the host, field for field: the
/// address and length of the input region, and the reserved address and
/// length of the output region. Addresses are carried as plain integers and
/// never dereferenced by this layer; `result_ptr` and `result_len` are
/// pass-through fields this layer does not consult.
#[derive(Clone, Copy)]
pub struct Descriptor {
    /// Address of the first byte of the input region. May hold any value,
    /// null included, when `args_len` is zero.
    pub args_ptr: usize,
    /// Count of bytes in the input region.
    pub args_len: usize,
    /// Reserved: address of the output region the host expects.
    pub result_ptr: usize,
    /// Reserved: length of the output region the host expects.
    pub result_len: usize,
}

/// The byte sequence a descriptor exposes, given the bytes readable at its
/// `args_ptr`: empty whenever `args_len` is zero — whatever `args_ptr` and
/// the region hold — and otherwise the first `args_len` bytes of the region.
pub open spec fn arg_bytes(desc: Descriptor, region: Seq<u8>) -> Seq<u8> {
    if desc.args_len == 0 {
        Seq::empty()
    } else {
        region.subrange(0, desc.args_len as int)
    }
}

/// Input data of a call: a read-only view over the input region, derived
/// from the descriptor record on every read. Acquired through [`parse_args`].
pub struct WrappedArgs {
    /// The descriptor record, as the boundary crossing read it.
    pub desc: Descriptor,
    /// The bytes readable at `desc.args_ptr`, captured at the boundary
    /// crossing; no byte of it belongs to the view when `desc.args_len`
    /// is zero.
    pub region: Vec<u8>,
}

impl View for WrappedArgs {
    type V = Seq<u8>;

    open spec fn view(&self) -> Seq<u8> {
        arg_bytes(self.desc, self.region@)
    }
}

impl WrappedArgs {
    /// The host's obligation from the descriptor invariant: a nonzero
    /// `args_len` promises at least that many readable bytes.
    pub open spec fn wf(&self) -> bool {
        self.desc.args_len > 0 ==> self.desc.args_len <= self.region.len()
    }

    /// The current byte sequence of the input region, re-derived from the
    /// descriptor record on each call: empty when `args_len` is zero —
    /// whatever `args_ptr` and the captured region hold — and otherwise the
    /// first `args_len` bytes. Borrows from the view: no byte is copied.
    pub fn deref(&self) -> (r: &[u8])
        requires
            self.wf(),
        ensures
            r@ == self@,
    {
        let len = self.desc.args_len;
        if len == 0 {
            let r = slice_subrange(self.region.as_slice(), 0, 0);
            proof {
                assert(r@ =~= self@);
            }
            r
        } else {
            slice_subrange(self.region.as_slice(), 0, len)
        }
    }

    /// The same view, under the conventional borrowing name.
    pub fn as_ref(&self) -> (r: &[u8])
        requires
            self.wf(),
        ensures
            r@ == self@,
    {
        self.deref()
    }

    /// Copies the viewed bytes into a new, independently owned buffer, for a
    /// guest that keeps data beyond the view's lifetime.
    pub fn to_owned_copy(&self) -> (r: Vec<u8>)
        requires
            self.wf(),
        ensures
            r@ == self@,
    {
        let s = self.deref();
        let mut out: Vec<u8> = Vec::new();
        let mut i: usize = 0;
        while i < s.len()
            invariant
                i <= s@.len(),
                out@ =~= s@.subrange(0, i as int),
            decreases s@.len() - i,
        {
            out.push(s[i]);
            i = i + 1;
        }
        proof {
            assert(out@ =~= s@);
        }
        out
    }
}

/// Writeable handle of execution results: a single-use capability with no
/// stored data. [`WrappedResult::done`] consumes it by value, so a second
/// hand-off is a compile-time impossibility, not a runtime check.
pub struct WrappedResult;

impl WrappedResult {
    /// Finalize the call's result. Consumes the sink and yields exactly the
    /// given bytes, unmodified and in order: the buffer the host's terminal
    /// hand-off primitive must receive. The caller that holds that primitive
    /// must pass the buffer to it and run nothing afterwards — the primitive
    /// ends guest execution and never returns, so no cleanup after this
    /// hand-off can be relied upon.
    pub fn done(self, val: &[u8]) -> (r: Vec<u8>)
        ensures
            r@ == val@,
    {
        vstd::slice::slice_to_vec(val)
    }
}

/// Parse a descriptor into wrapped args and result.
///
/// The one trust boundary: the caller (the host integration layer, which
/// alone reads raw memory) supplies the descriptor record and the bytes its
/// `args_ptr` references, and owes the descriptor invariant — a nonzero
/// `args_len` comes with at least `args_len` captured bytes. Produces
/// exactly one input view and exactly one output sink for the call.
pub fn parse_args(desc: Descriptor, region: Vec<u8>) -> (r: (WrappedArgs, WrappedResult))
    requires
        desc.args_len > 0 ==> desc.args_len <= region.len(),
    ensures
        r.0.wf(),
        r.0.desc == desc,
        r.0.region@ == region@,
        r.0@ == arg_bytes(desc, region@),
{
    let args = WrappedArgs { desc, region };
    let result = WrappedResult;
    (args, result)
}

/// Law: with a zero `args_len` the input view is the empty sequence, for
/// every value of `args_ptr` — null included — and whatever bytes stand in
/// the region, which is never consulted.
pub proof fn lemma_zero_length_view_empty(desc: Descriptor, region: Seq<u8>)
    requires
        desc.args_len == 0,
    ensures
        arg_bytes(desc, region) == Seq::<u8>::empty(),
{
}

/// Law: with a nonzero `args_len` over a region of at least that many bytes,
/// the input view is byte-for-byte the first `args_len` bytes of the region.
pub proof fn lemma_view_matches_region(desc: Descriptor, region: Seq<u8>)
    requires
        0 < desc.args_len <= region.len(),
    ensures
        arg_bytes(desc, region).len() == desc.args_len,
        forall|i: int| 0 <= i < desc.args_len ==> arg_bytes(desc, region)[i] == region[i],
{
}

} // verus!
