//! Bounds-checked word memories: the immutable instruction store (`Rom`) and
//! the mutable data/stack store (`Ram`).

use vstd::prelude::*;

verus! {

/// The error returned by a read or write whose index lies at or past the
/// memory's capacity; it carries the offending index.
#[derive(Clone, Copy, PartialEq, Eq, Structural, Debug)]
pub struct OutOfBoundsError(pub usize);

/// The read-only instruction store: a fixed sequence of 32-bit words.
pub struct Rom {
    data: Vec<u32>,
}

impl View for Rom {
    type V = Seq<u32>;

    closed spec fn view(&self) -> Seq<u32> {
        self.data@
    }
}

impl Rom {
    /// Wraps a word sequence as an instruction store.
    pub fn new(data: Vec<u32>) -> (rom: Rom)
        ensures
            rom@ == data@,
    {
        Rom { data }
    }

    /// Builds an instruction store from a word slice.
    pub fn from_words(words: &[u32]) -> (rom: Rom)
        ensures
            rom@ == words@,
    {
        let mut data: Vec<u32> = Vec::new();
        let mut i: usize = 0;
        while i < words.len()
            invariant
                i <= words@.len(),
                data@ == words@.subrange(0, i as int),
            decreases words@.len() - i,
        {
            data.push(words[i]);
            proof {
                assert(data@ =~= words@.subrange(0, i + 1));
            }
            i += 1;
        }
        proof {
            assert(data@ =~= words@);
        }
        Rom { data }
    }

    /// The number of words the store holds.
    pub fn size(&self) -> (n: usize)
        ensures
            n == self@.len(),
    {
        self.data.len()
    }

    /// The word at `index`; out-of-range indices are rejected.
    pub fn read(&self, index: usize) -> (r: Result<u32, OutOfBoundsError>)
        ensures
            match r {
                Ok(w) => index < self@.len() && w == self@[index as int],
                Err(e) => index >= self@.len() && e == (OutOfBoundsError(index)),
            },
    {
        if self.data.len() <= index {
            return Err(OutOfBoundsError(index));
        }
        Ok(self.data[index])
    }

    /// The `n` words starting at `index`. The whole range must lie inside the
    /// store; the error carries the first index that does not.
    pub fn read_many(&self, index: usize, n: usize) -> (r: Result<Vec<u32>, OutOfBoundsError>)
        ensures
            match r {
                Ok(buf) => index < self@.len() && index + n <= self@.len() && buf@
                    == self@.subrange(index as int, index + n),
                Err(e) => (index >= self@.len() || index + n > self@.len()) && e == (
                OutOfBoundsError(if index >= self@.len() {
                    index
                } else {
                    self@.len() as usize
                })),
            },
    {
        if self.data.len() <= index {
            return Err(OutOfBoundsError(index));
        }

        let mut buf: Vec<u32> = Vec::new();
        let mut i: usize = index;
        let mut left: usize = n;
        while left > 0
            invariant
                index <= i <= self@.len(),
                i - index == n - left,
                left <= n,
                buf@ == self@.subrange(index as int, i as int),
            decreases left,
        {
            if i >= self.data.len() {
                return Err(OutOfBoundsError(i));
            }
            buf.push(self.data[i]);
            proof {
                assert(buf@ =~= self@.subrange(index as int, i + 1));
            }
            i += 1;
            left -= 1;
        }
        proof {
            assert(buf@ =~= self@.subrange(index as int, index + n));
        }
        Ok(buf)
    }
}

/// The mutable data/stack store: a fixed-capacity sequence of 32-bit words,
/// zero-initialized, with no dynamic growth.
pub struct Ram {
    data: Vec<u32>,
}

impl View for Ram {
    type V = Seq<u32>;

    closed spec fn view(&self) -> Seq<u32> {
        self.data@
    }
}

impl Ram {
    /// A zeroed memory of `size` words.
    pub fn new(size: usize) -> (ram: Ram)
        ensures
            ram@ == Seq::new(size as nat, |i: int| 0u32),
    {
        let data = vec![0u32; size];
        proof {
            assert(data@ =~= Seq::new(size as nat, |i: int| 0u32));
        }
        Ram { data }
    }

    /// The capacity in words, fixed at construction.
    pub fn max_size(&self) -> (n: usize)
        ensures
            n == self@.len(),
    {
        self.data.len()
    }

    /// Writes `word` at `index`; out-of-range indices are rejected and leave
    /// the memory unchanged.
    pub fn write(&mut self, word: u32, index: usize) -> (r: Result<(), OutOfBoundsError>)
        ensures
            match r {
                Ok(()) => index < old(self)@.len() && final(self)@ == old(self)@.update(
                    index as int,
                    word,
                ),
                Err(e) => index >= old(self)@.len() && final(self)@ == old(self)@ && e == (
                OutOfBoundsError(index)),
            },
    {
        if index >= self.data.len() {
            return Err(OutOfBoundsError(index));
        }
        self.data[index] = word;
        Ok(())
    }

    /// Writes all of `words` starting at `index`; if the range does not fit,
    /// nothing is written.
    pub fn write_many(&mut self, words: &[u32], index: usize) -> (r: Result<(), OutOfBoundsError>)
        ensures
            match r {
                Ok(()) => index + words@.len() <= old(self)@.len() && final(self)@ == old(
                    self,
                )@.map(
                    |j: int, w: u32|
                        if index <= j < index + words@.len() {
                            words@[j - index]
                        } else {
                            w
                        },
                ),
                Err(e) => index + words@.len() > old(self)@.len() && final(self)@ == old(self)@
                    && e == (OutOfBoundsError(index)),
            },
    {
        if words.len() > self.data.len() || index > self.data.len() - words.len() {
            return Err(OutOfBoundsError(index));
        }
        let ghost target = self@.map(
            |j: int, w: u32|
                if index <= j < index + words@.len() {
                    words@[j - index]
                } else {
                    w
                },
        );
        let mut k: usize = 0;
        while k < words.len()
            invariant
                k <= words@.len(),
                index + words@.len() <= self@.len(),
                self@.len() <= usize::MAX,
                self@.len() == target.len(),
                target == old(self)@.map(
                    |j: int, w: u32|
                        if index <= j < index + words@.len() {
                            words@[j - index]
                        } else {
                            w
                        },
                ),
                forall|j: int|
                    0 <= j < self@.len() ==> self@[j] == if index <= j < index + k {
                        target[j]
                    } else {
                        old(self)@[j]
                    },
            decreases words@.len() - k,
        {
            self.data[index + k] = words[k];
            k += 1;
        }
        proof {
            assert(self@ =~= target);
        }
        Ok(())
    }

    /// The word at `index`; out-of-range indices are rejected.
    pub fn read(&self, index: usize) -> (r: Result<u32, OutOfBoundsError>)
        ensures
            match r {
                Ok(w) => index < self@.len() && w == self@[index as int],
                Err(e) => index >= self@.len() && e == (OutOfBoundsError(index)),
            },
    {
        if self.data.len() <= index {
            return Err(OutOfBoundsError(index));
        }
        Ok(self.data[index])
    }

    /// The `n` words starting at `index`. The whole range must lie inside the
    /// memory; the error carries the first index that does not.
    pub fn read_many(&self, index: usize, n: usize) -> (r: Result<Vec<u32>, OutOfBoundsError>)
        ensures
            match r {
                Ok(buf) => index < self@.len() && index + n <= self@.len() && buf@
                    == self@.subrange(index as int, index + n),
                Err(e) => (index >= self@.len() || index + n > self@.len()) && e == (
                OutOfBoundsError(if index >= self@.len() {
                    index
                } else {
                    self@.len() as usize
                })),
            },
    {
        if self.data.len() <= index {
            return Err(OutOfBoundsError(index));
        }

        let mut buf: Vec<u32> = Vec::new();
        let mut i: usize = index;
        let mut left: usize = n;
        while left > 0
            invariant
                index <= i <= self@.len(),
                i - index == n - left,
                left <= n,
                buf@ == self@.subrange(index as int, i as int),
            decreases left,
        {
            if i >= self.data.len() {
                return Err(OutOfBoundsError(i));
            }
            buf.push(self.data[i]);
            proof {
                assert(buf@ =~= self@.subrange(index as int, i + 1));
            }
            i += 1;
            left -= 1;
        }
        proof {
            assert(buf@ =~= self@.subrange(index as int, index + n));
        }
        Ok(buf)
    }

    /// The whole memory contents, for inspection by tests and diagnostics.
    pub fn get_data(&self) -> (d: &Vec<u32>)
        ensures
            d@ == self@,
    {
        &self.data
    }
}

} // verus!
