//! The buffers of the layers that are already encoded, as the encoder of an
//! outer layer may read them.

use crate::addr::Ipv4Address;
use crate::checksum::inet_sum_all;
use crate::checksum::lemma_inet_sum_all_push;
use crate::checksum::update_inet_sum;
use crate::wire::len16;
use crate::wire::lemma_total_len_push;
use crate::wire::total_len;
use vstd::prelude::*;

verus! {

/// What stands before a layer in its stack, as far as an encoder needs it.
#[derive(Clone, Copy, Debug, PartialEq, Eq)]
pub enum Outer {
    /// Nothing: the layer is the first of the stack.
    Outermost,
    /// An IP header with these addresses.
    Ip { src: Ipv4Address, dst: Ipv4Address },
    /// A layer of another kind.
    Other,
}

/// The encoded buffers of the innermost layers of a stack. Encoding runs from
/// the last layer to the first, so while a layer is encoded only the layers
/// behind it have a buffer: `pending` layers, the one being encoded among
/// them, have none.
#[derive(Debug)]
pub struct EncodingVecVec {
    /// The buffers, innermost layer first.
    data: Vec<Vec<u8>>,
    pending: usize,
}

impl View for EncodingVecVec {
    type V = Seq<Seq<u8>>;

    /// The buffers in stack order: item `k` belongs to position
    /// `pending() + k`.
    closed spec fn view(&self) -> Seq<Seq<u8>> {
        Seq::new(self.data@.len(), |k: int| self.data@[self.data@.len() - 1 - k]@)
    }
}

impl EncodingVecVec {
    /// The number of layers that have no buffer yet. The layer that is being
    /// encoded stands at position `pending() - 1`.
    pub closed spec fn pending(&self) -> nat {
        self.pending as nat
    }

    /// The number of layers of the stack fits the machine's integers.
    pub closed spec fn wf(&self) -> bool {
        self.data@.len() + self.pending <= usize::MAX
    }

    /// No buffer yet, for a stack of `layers` layers.
    pub fn new(layers: usize) -> (r: EncodingVecVec)
        ensures
            r.wf(),
            r@ == Seq::<Seq<u8>>::empty(),
            r.pending() == layers,
    {
        let r = EncodingVecVec { data: Vec::new(), pending: layers };
        assert(r@ =~= Seq::<Seq<u8>>::empty());
        r
    }

    /// The number of layers of the stack, those without a buffer included.
    pub fn len(&self) -> (r: usize)
        requires
            self.wf(),
        ensures
            r == self.pending() + self@.len(),
    {
        self.data.len() + self.pending
    }

    /// The buffer of the layer at position `idx`. Only a layer behind the one
    /// that is being encoded has a buffer.
    pub fn index(&self, idx: usize) -> (r: &Vec<u8>)
        requires
            self.pending() <= idx < self.pending() + self@.len(),
        ensures
            r@ == self@[idx - self.pending()],
    {
        &self.data[self.data.len() - 1 - (idx - self.pending)]
    }

    /// The buffer of the layer at position `idx`, or `None` where that layer
    /// has none.
    pub fn get(&self, idx: usize) -> (r: Option<&Vec<u8>>)
        ensures
            match r {
                Some(b) => self.pending() <= idx < self.pending() + self@.len() && b@
                    == self@[idx - self.pending()],
                None => !(self.pending() <= idx < self.pending() + self@.len()),
            },
    {
        if idx >= self.pending && idx - self.pending < self.data.len() {
            Some(&self.data[self.data.len() - 1 - (idx - self.pending)])
        } else {
            None
        }
    }

    /// Records `buf` as the buffer of the layer that was being encoded, so that
    /// the layer before it comes next.
    pub fn push_front(&mut self, buf: Vec<u8>)
        requires
            old(self).pending() > 0,
        ensures
            final(self)@ == seq![buf@] + old(self)@,
            final(self).pending() == old(self).pending() - 1,
            old(self).wf() ==> final(self).wf(),
    {
        self.data.push(buf);
        self.pending = self.pending - 1;
        assert(self@ =~= seq![buf@] + old(self)@);
    }

    /// The buffers in stack order, taken out.
    pub fn into_buffers(self) -> (r: Vec<Vec<u8>>)
        ensures
            r@.len() == self@.len(),
            forall|k: int| 0 <= k < r@.len() ==> (#[trigger] r@[k])@ == self@[k],
    {
        let mut data = self.data;
        let mut out: Vec<Vec<u8>> = Vec::new();
        let ghost all = data@;
        while data.len() > 0
            invariant
                out@.len() + data@.len() == all.len(),
                data@ == all.subrange(0, data@.len() as int),
                forall|k: int|
                    0 <= k < out@.len() ==> (#[trigger] out@[k])@ == all[all.len() - 1 - k]@,
            decreases data@.len(),
        {
            let last = data.pop().unwrap();
            assert(data@ =~= all.subrange(0, data@.len() as int));
            out.push(last);
        }
        out
    }

    /// The length of a header of `header` bytes and all the buffers, as a
    /// 16-bit length field holds it.
    pub fn wire_len(&self, header: u16) -> (r: u16)
        ensures
            r == crate::wire::wire_len(header as nat, self@),
    {
        let mut acc: u16 = header;
        let mut k: usize = self.data.len();
        let ghost view = self@;
        assert(view.subrange(0, 0) =~= Seq::<Seq<u8>>::empty());
        while k > 0
            invariant
                k <= self.data@.len(),
                view == self@,
                acc == len16(header as nat + total_len(view.subrange(0, self.data@.len() - k))),
            decreases k,
        {
            k -= 1;
            let n: usize = self.data[k].len();
            proof {
                let done = view.subrange(0, self.data@.len() - k - 1);
                let buf = view[self.data@.len() - k - 1];
                assert(buf == self.data@[k as int]@);
                assert(view.subrange(0, self.data@.len() - k) =~= done.push(buf));
                lemma_total_len_push(done, buf);
            }
            acc = acc.wrapping_add((n % 0x1_0000) as u16);
        }
        assert(view.subrange(0, self.data@.len() as int) =~= view);
        acc
    }

    /// The running sum `sum` with every buffer added, outermost first.
    pub fn add_to_sum(&self, sum: u32) -> (r: u32)
        ensures
            r == inet_sum_all(sum, self@),
    {
        let mut acc: u32 = sum;
        let mut k: usize = self.data.len();
        let ghost view = self@;
        assert(view.subrange(0, 0) =~= Seq::<Seq<u8>>::empty());
        while k > 0
            invariant
                k <= self.data@.len(),
                view == self@,
                acc == inet_sum_all(sum, view.subrange(0, self.data@.len() - k)),
            decreases k,
        {
            k -= 1;
            proof {
                let done = view.subrange(0, self.data@.len() - k - 1);
                let buf = view[self.data@.len() - k - 1];
                assert(buf == self.data@[k as int]@);
                assert(view.subrange(0, self.data@.len() - k) =~= done.push(buf));
                lemma_inet_sum_all_push(sum, done, buf);
            }
            acc = update_inet_sum(acc, self.data[k].as_slice());
        }
        assert(view.subrange(0, self.data@.len() as int) =~= view);
        acc
    }
}

} // verus!
