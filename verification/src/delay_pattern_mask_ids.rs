use vstd::prelude::*;

verus! {

/// Staggered history of `N` parallel codebook token streams.
///
/// Every generation step pushes exactly one token per codebook. Viewed
/// abstractly, the value is the sequence of pushed frames: element `t` is the
/// frame of step `t`, holding one token per codebook.
///
/// The delay pattern staggers codebook `i` by `i` steps: until `i + 1` frames
/// have been pushed, the delayed reading for codebook `i` is the pad token.
/// The de-delayed reading realigns the diagonal, recovering the logical frame
/// that became fully determined `N - 1` steps after it was started.
#[derive(Debug)]
pub struct DelayedPatternMaskIds<const N: usize> {
    frames: Vec<Vec<i64>>,
}

impl<const N: usize> View for DelayedPatternMaskIds<N> {
    type V = Seq<Seq<i64>>;

    closed spec fn view(&self) -> Seq<Seq<i64>> {
        self.frames@.map(|t: int, f: Vec<i64>| f@)
    }
}

impl<const N: usize> DelayedPatternMaskIds<N> {
    /// Every pushed frame holds exactly one token per codebook.
    pub open spec fn wf(&self) -> bool {
        forall|t: int| 0 <= t < self@.len() ==> (#[trigger] self@[t]).len() == N as nat
    }

    pub fn new() -> (r: Self)
        requires
            N > 0,
        ensures
            r.wf(),
            r@ === Seq::<Seq<i64>>::empty(),
    {
        let r = Self { frames: Vec::new() };
        proof {
            assert(r@ =~= Seq::<Seq<i64>>::empty());
        }
        r
    }

    /// Appends one frame: one freshly sampled token for each of the `N`
    /// codebooks, all committed together.
    pub fn push(&mut self, token_ids: Vec<i64>)
        requires
            old(self).wf(),
            token_ids@.len() == N as nat,
        ensures
            final(self).wf(),
            final(self)@ === old(self)@.push(token_ids@),
    {
        let ghost ids = token_ids@;
        self.frames.push(token_ids);
        proof {
            assert(self@ =~= old(self)@.push(ids));
        }
    }

    /// The frame to feed the model next, with the delay pattern applied: for
    /// codebook `i`, the pad token while at most `i` frames exist, and
    /// otherwise codebook `i`'s most recently pushed token.
    pub fn last_delayed_masked(&self, pad_token_id: i64) -> (r: Vec<i64>)
        requires
            self.wf(),
        ensures
            r@.len() == N as nat,
            forall|i: int|
                0 <= i < N ==> r@[i] == (if self@.len() <= i {
                    pad_token_id
                } else {
                    self@[self@.len() - 1][i]
                }),
    {
        let k = self.frames.len();
        let mut r: Vec<i64> = Vec::new();
        let mut i: usize = 0;
        while i < N
            invariant
                i <= N,
                r@.len() == i as nat,
                k == self@.len(),
                self.wf(),
                forall|j: int|
                    0 <= j < i ==> r@[j] == (if self@.len() <= j {
                        pad_token_id
                    } else {
                        self@[self@.len() - 1][j]
                    }),
            decreases N - i,
        {
            if k <= i {
                r.push(pad_token_id);
            } else {
                proof {
                    assert(self@[k - 1].len() == N as nat);
                }
                r.push(self.frames[k - 1][i]);
            }
            i += 1;
        }
        r
    }

    /// The most recent logical frame recovered from the staggered history, or
    /// `None` while fewer than `N` frames exist. For codebook `i`, the value
    /// is the one pushed at step `len - N + i`: the diagonal that realigns all
    /// `N` codebooks to the same logical time index. Reading does not advance;
    /// each push past the `N`-th makes exactly one new frame available.
    pub fn last_de_delayed(&self) -> (r: Option<Vec<i64>>)
        requires
            self.wf(),
        ensures
            match r {
                None => self@.len() < N as nat,
                Some(v) => {
                    &&& self@.len() >= N as nat
                    &&& v@.len() == N as nat
                    &&& forall|i: int|
                        0 <= i < N ==> v@[i] == self@[self@.len() - (N as int) + i][i]
                },
            },
    {
        let k = self.frames.len();
        if k < N {
            return None;
        }
        let mut v: Vec<i64> = Vec::new();
        let mut i: usize = 0;
        while i < N
            invariant
                i <= N,
                N <= k,
                v@.len() == i as nat,
                k == self@.len(),
                self.wf(),
                forall|j: int| 0 <= j < i ==> v@[j] == self@[k - (N as int) + j][j],
            decreases N - i,
        {
            proof {
                assert(self@[k - N + i].len() == N as nat);
            }
            v.push(self.frames[k - N + i][i]);
            i += 1;
        }
        Some(v)
    }
}

} // verus!
