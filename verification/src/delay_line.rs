use vstd::prelude::*;

verus! {

/// A sample delay line: an index-addressed ring buffer holding a fixed number
/// of samples in FIFO order. The backing vector owns one slot per stored
/// sample and `head` addresses the oldest one, so advancing by one sample
/// overwrites the slot it pops and never allocates. Only an explicit resize,
/// issued when the delay length is reconfigured, rebuilds the storage.
pub struct DelayLine<T> {
    buf: Vec<T>,
    head: usize,
}

impl<T> View for DelayLine<T> {
    type V = Seq<T>;

    /// The stored samples, oldest first.
    closed spec fn view(&self) -> Seq<T> {
        Seq::new(
            self.buf@.len(),
            |i: int| if self.head + i < self.buf@.len() {
                self.buf@[self.head + i]
            } else {
                self.buf@[self.head + i - self.buf@.len()]
            },
        )
    }
}

impl<T: Copy> DelayLine<T> {
    /// `head` addresses a slot of the backing vector whenever one exists.
    pub closed spec fn wf(&self) -> bool {
        self.head == 0 || self.head < self.buf@.len()
    }

    /// Build a delay line of `len` samples, all set to `fill`.
    pub fn new(len: usize, fill: T) -> (line: Self)
        ensures
            line.wf(),
            line@.len() == len,
            forall|i: int| 0 <= i < len ==> line@[i] == fill,
    {
        let mut buf: Vec<T> = Vec::new();
        while buf.len() < len
            invariant
                buf@.len() <= len,
                forall|i: int| 0 <= i < buf@.len() ==> buf@[i] == fill,
            decreases len - buf@.len(),
        {
            buf.push(fill);
        }
        DelayLine { buf, head: 0 }
    }

    /// Number of samples currently stored.
    pub fn len(&self) -> (n: usize)
        ensures
            n == self@.len(),
    {
        self.buf.len()
    }

    /// The sample at logical position `i`, where position 0 is the oldest.
    pub fn get(&self, i: usize) -> (s: T)
        requires
            self.wf(),
            i < self@.len(),
        ensures
            s == self@[i as int],
    {
        let n = self.buf.len();
        if i < n - self.head {
            self.buf[self.head + i]
        } else {
            self.buf[i - (n - self.head)]
        }
    }

    /// Advance the line by one sample: take `x` in as the newest sample and
    /// hand the oldest one out. A zero-length line passes `x` straight
    /// through. The stored sample count never changes, and no slot is
    /// allocated or freed.
    pub fn push_pop(&mut self, x: T) -> (out: T)
        requires
            old(self).wf(),
        ensures
            final(self).wf(),
            final(self)@.len() == old(self)@.len(),
            old(self)@.len() == 0 ==> out == x && final(self)@ == old(self)@,
            old(self)@.len() > 0 ==> out == old(self)@[0]
                && final(self)@ == old(self)@.drop_first().push(x),
    {
        let n = self.buf.len();
        if n == 0 {
            x
        } else {
            let out = self.buf[self.head];
            self.buf.set(self.head, x);
            self.head = if self.head + 1 == n {
                0
            } else {
                self.head + 1
            };
            proof {
                assert(self@ =~= old(self)@.drop_first().push(x));
            }
            out
        }
    }

    /// Copy the samples from logical position `start` on into a fresh vector,
    /// oldest first.
    fn copy_tail(&self, start: usize) -> (nb: Vec<T>)
        requires
            self.wf(),
            start <= self@.len(),
        ensures
            nb@ == self@.skip(start as int),
    {
        let n = self.buf.len();
        let mut nb: Vec<T> = Vec::new();
        let mut i: usize = start;
        while i < n
            invariant
                self.wf(),
                start <= i <= n,
                n == self@.len(),
                nb@ =~= self@.subrange(start as int, i as int),
            decreases n - i,
        {
            nb.push(self.get(i));
            i = i + 1;
        }
        proof {
            assert(nb@ =~= self@.skip(start as int));
        }
        nb
    }

    /// Change the stored sample count to `new_len`. Shrinking drops the
    /// oldest samples; growing keeps every sample and appends copies of
    /// `fill` as the newest ones. Either way the line holds exactly
    /// `new_len` samples afterwards, and the retained samples keep their
    /// FIFO order.
    pub fn resize(&mut self, new_len: usize, fill: T)
        requires
            old(self).wf(),
        ensures
            final(self).wf(),
            final(self)@.len() == new_len,
            new_len <= old(self)@.len() ==> final(self)@ == old(self)@.skip(
                old(self)@.len() - new_len,
            ),
            new_len >= old(self)@.len() ==> final(self)@ == old(self)@ + Seq::new(
                (new_len - old(self)@.len()) as nat,
                |i: int| fill,
            ),
    {
        let n = self.buf.len();
        let start: usize = if new_len < n {
            n - new_len
        } else {
            0
        };
        let mut nb = self.copy_tail(start);
        let ghost kept: int = n - start;
        while nb.len() < new_len
            invariant
                start <= n == old(self)@.len(),
                kept == n - start,
                kept <= nb@.len() <= new_len,
                nb@.subrange(0, kept) =~= old(self)@.skip(start as int),
                forall|j: int| kept <= j < nb@.len() ==> nb@[j] == fill,
            decreases new_len - nb.len(),
        {
            nb.push(fill);
        }
        proof {
            if new_len >= n {
                assert forall|i: int| 0 <= i < n implies nb@[i] == old(self)@[i] by {
                    assert(nb@.subrange(0, kept)[i] == old(self)@.skip(start as int)[i]);
                }
                assert(nb@ =~= old(self)@ + Seq::new((new_len - n) as nat, |i: int| fill));
            } else {
                assert(nb@ =~= old(self)@.skip((n - new_len) as int));
            }
        }
        self.buf = nb;
        self.head = 0;
        proof {
            assert(self@ =~= self.buf@);
        }
    }
}

} // verus!
