//! The sink that feeds a device from a source, block by block.

use super::Source;
use crate::device::{byte_count, Device, Write};
use crate::format::Sample;
use vstd::layout::size_of;
use vstd::prelude::*;

verus! {

/// How far a transfer of samples has come.
pub ghost struct Progress {
    /// Number of samples asked for.
    pub wanted: nat,
    /// Number of samples forwarded so far.
    pub done: nat,
}

/// The smaller of two numbers.
pub open spec fn least(a: nat, b: nat) -> nat {
    if a <= b {
        a
    } else {
        b
    }
}

/// The sum of a sequence of lengths.
pub open spec fn total(lens: Seq<nat>) -> nat
    decreases lens.len(),
{
    if lens.len() == 0 {
        0
    } else {
        lens[0] + total(lens.drop_first())
    }
}

impl Progress {
    /// Never more is forwarded than was asked for.
    pub open spec fn wf(self) -> bool {
        self.done <= self.wanted
    }

    /// Number of samples still to forward.
    pub open spec fn remaining(self) -> nat {
        (self.wanted - self.done) as nat
    }

    /// Whether all that was asked for has been forwarded.
    pub open spec fn finished(self) -> bool {
        self.done >= self.wanted
    }

    /// The number of samples forwarded of a block of `len` samples: all of
    /// them, or, of a block that overshoots, as many as are still to
    /// forward.
    pub open spec fn chunk(self, len: nat) -> nat {
        least(len, self.remaining())
    }

    /// The progress once a block of `len` samples has been taken.
    pub open spec fn after(self, len: nat) -> Progress {
        Progress { done: self.done + self.chunk(len), ..self }
    }

    /// The progress once a source that yields blocks of these lengths and
    /// then is exhausted has been run: blocks are pulled until all that
    /// was asked for has been forwarded, or none is left.
    pub open spec fn fed(self, lens: Seq<nat>) -> Progress
        decreases lens.len(),
    {
        if lens.len() == 0 || self.finished() {
            self
        } else {
            self.after(lens[0]).fed(lens.drop_first())
        }
    }
}

/// The count of a transfer: how many samples were asked for, and how many
/// have been forwarded.
pub struct Transfer {
    wanted: usize,
    done: usize,
}

impl View for Transfer {
    type V = Progress;

    closed spec fn view(&self) -> Progress {
        Progress { wanted: self.wanted as nat, done: self.done as nat }
    }
}

impl Transfer {
    #[verifier::type_invariant]
    spec fn inv(&self) -> bool {
        self.done <= self.wanted
    }

    /// A transfer of `samples` samples, none of them forwarded yet.
    pub fn new(samples: usize) -> (transfer: Transfer)
        ensures
            transfer@ == (Progress { wanted: samples as nat, done: 0 }),
    {
        Transfer { wanted: samples, done: 0 }
    }

    /// Number of samples asked for.
    pub fn wanted(&self) -> (n: usize)
        ensures
            n == self@.wanted,
    {
        self.wanted
    }

    /// Number of samples forwarded so far.
    pub fn done(&self) -> (n: usize)
        ensures
            n == self@.done,
            self@.wf(),
    {
        proof {
            use_type_invariant(self);
        }
        self.done
    }

    /// Whether all that was asked for has been forwarded.
    pub fn is_finished(&self) -> (yes: bool)
        ensures
            yes == self@.finished(),
    {
        self.done >= self.wanted
    }

    /// Takes a block for forwarding: cuts it to what is still to forward,
    /// where it overshoots, and counts what is left of it.
    pub fn take<F>(&mut self, block: Vec<F>) -> (data: Vec<F>)
        ensures
            data@ == block@.take(old(self)@.chunk(block@.len()) as int),
            final(self)@ == old(self)@.after(block@.len()),
            final(self)@.wf(),
    {
        proof {
            use_type_invariant(&*self);
        }
        let mut data = block;
        let left: usize = self.wanted - self.done;
        if data.len() > left {
            data.truncate(left);
        }
        self.done = self.done + data.len();
        data
    }
}

/// A block on its way to the device.
pub struct Forward<F> {
    /// The samples to play.
    pub block: Vec<F>,
    /// The call that plays them.
    pub write: Write,
}

/// Feeds a device from a source of samples.
pub struct DeviceSink<'a, F, S> {
    src: S,
    dev: Device<'a, F>,
}

impl<'a, F: Sample, S: Source<F>> DeviceSink<'a, F, S> {
    /// The device that the sink feeds.
    pub closed spec fn device(&self) -> Device<'a, F> {
        self.dev
    }

    /// The source that the sink pulls from.
    pub closed spec fn source(&self) -> S {
        self.src
    }

    /// A sink that feeds `dev` from `src`.
    pub fn new(dev: Device<'a, F>, src: S) -> (sink: DeviceSink<'a, F, S>)
        ensures
            sink.device() == dev,
            sink.source() == src,
    {
        DeviceSink { src: src, dev: dev }
    }

    /// Handle of the device that the sink feeds. Whoever gives the sink up
    /// closes that device.
    pub fn id(&self) -> (handle: usize)
        ensures
            handle == self.device().handle(),
            handle != 0,
    {
        self.dev.id()
    }

    /// One turn of a transfer: pulls a block from the source and says how
    /// it goes to the device.
    ///
    /// Returns `None`, without pulling, where all that was asked for has
    /// been forwarded, and where the source is exhausted. Otherwise the
    /// block comes back, cut to what was still to forward, with the call
    /// that plays it; the transfer has counted it.
    pub fn step(&mut self, transfer: &mut Transfer) -> (forward: Option<Forward<F>>)
        ensures
            final(self).device() == old(self).device(),
            final(transfer)@.wf(),
            final(transfer)@.wanted == old(transfer)@.wanted,
            old(transfer)@.finished() ==> forward is None && final(transfer)@ == old(transfer)@
                && final(self).source() == old(self).source(),
            !old(transfer)@.finished() ==> exists|src: &mut S, pulled: Option<Vec<F>>|
                {
                    &&& *src == old(self).source()
                    &&& *final(src) == final(self).source()
                    &&& #[trigger] call_ensures(S::next, (src,), pulled)
                    &&& pulled is None ==> forward is None && final(transfer)@ == old(transfer)@
                    &&& pulled is Some ==> forward is Some && forward->Some_0.block@
                        == pulled->Some_0@.take(
                        old(transfer)@.chunk(pulled->Some_0@.len()) as int,
                    ) && final(transfer)@ == old(transfer)@.after(pulled->Some_0@.len())
                },
            forward is Some ==> {
                let Forward { block, write } = forward->Some_0;
                &&& block@.len() <= old(transfer)@.remaining()
                &&& final(transfer)@.done == old(transfer)@.done + block@.len()
                &&& write.device == final(self).device().handle()
                &&& write.num_bytes == byte_count(block@.len() * size_of::<F>())
            },
    {
        proof {
            use_type_invariant(&*transfer);
        }
        if transfer.is_finished() {
            return None;
        }
        match self.src.next() {
            None => None,
            Some(n) => {
                let block = transfer.take(n);
                let write = self.dev.play(block.as_slice());
                Some(Forward { block, write })
            },
        }
    }
}

/// A run that asks for `N` samples forwards as many as the source has,
/// and no more than `N`: the smaller of the two numbers. This holds from
/// any point of a transfer on, for what is added to the count.
pub proof fn lemma_run_forwards_least(progress: Progress, lens: Seq<nat>)
    requires
        progress.wf(),
    ensures
        progress.fed(lens).wanted == progress.wanted,
        progress.fed(lens).done == least(progress.wanted, progress.done + total(lens)),
        progress.fed(lens).wf(),
    decreases lens.len(),
{
    if lens.len() > 0 && !progress.finished() {
        lemma_run_forwards_least(progress.after(lens[0]), lens.drop_first());
    }
}

/// A block is forwarded whole unless it overshoots what is still to
/// forward; then it is cut to that, and the transfer is finished: only the
/// last block that is forwarded can have been cut.
pub proof fn lemma_only_last_block_is_cut(progress: Progress, len: nat)
    requires
        progress.wf(),
    ensures
        progress.chunk(len) <= len,
        progress.chunk(len) <= progress.remaining(),
        progress.chunk(len) < len ==> progress.chunk(len) == progress.remaining()
            && progress.after(len).finished(),
        !progress.after(len).finished() ==> progress.chunk(len) == len,
{
}

} // verus!
