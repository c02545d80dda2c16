//! A simulated serial device with exactly the adapter surface the bridge
//! uses: a pending-byte queue, a "bytes available" query, bounded reads,
//! and writes. The poll cycle is run against it here, driven by the same
//! decisions the live loop uses, which proves poll fidelity: everything
//! the device makes available comes out as binary frames whose
//! concatenation is the pending bytes, unreordered and without loss.

use vstd::prelude::*;

use crate::bridge::Bridge;
use crate::bridge::ConnState;
use crate::bridge::PollStep;

verus! {

/// The most bytes one poll read takes from the device.
pub const POLL_CHUNK: usize = 64 * 1024;

/// A simulated serial device: what it has produced and not yet handed
/// out, and what it has received.
pub struct SimPort {
    /// Bytes the device has made available that no read has taken yet.
    pub pending: Vec<u8>,
    /// Bytes the device has received through writes, oldest first.
    pub written: Vec<u8>,
}

/// The character of each frame in a list of binary frames.
pub open spec fn frame_views(frames: Seq<Vec<u8>>) -> Seq<Seq<u8>> {
    frames.map_values(|f: Vec<u8>| f@)
}

/// The concatenation of a list of binary frames, in order.
pub open spec fn concat_bytes(frames: Seq<Seq<u8>>) -> Seq<u8>
    decreases frames.len(),
{
    if frames.len() == 0 {
        Seq::<u8>::empty()
    } else {
        concat_bytes(frames.drop_last()) + frames.last()
    }
}

impl SimPort {
    pub fn new() -> (p: SimPort)
        ensures
            p.pending@ == Seq::<u8>::empty(),
            p.written@ == Seq::<u8>::empty(),
    {
        SimPort { pending: Vec::new(), written: Vec::new() }
    }

    /// The device produces bytes; a later poll cycle picks them up.
    pub fn feed(&mut self, data: &Vec<u8>)
        ensures
            final(self).pending@ == old(self).pending@ + data@,
            final(self).written@ == old(self).written@,
    {
        let ghost orig = self.pending@;
        let mut i: usize = 0;
        while i < data.len()
            invariant
                i <= data@.len(),
                self.pending@ == orig + data@.subrange(0, i as int),
                self.written@ == old(self).written@,
            decreases data@.len() - i,
        {
            let ghost sofar = data@.subrange(0, i as int);
            self.pending.push(data[i]);
            i = i + 1;
            proof {
                assert(data@.subrange(0, i as int) =~= sofar.push(data@[i - 1]));
                assert(orig + data@.subrange(0, i as int) =~= (orig + sofar).push(
                    data@[i - 1],
                ));
            }
        }
        proof {
            assert(data@.subrange(0, data@.len() as int) =~= data@);
        }
    }

    /// How many bytes are waiting to be read.
    pub fn available(&self) -> (n: usize)
        ensures
            n == self.pending@.len(),
    {
        self.pending.len()
    }

    /// Reads up to `max` bytes from the front of the pending queue.
    pub fn read_up_to(&mut self, max: usize) -> (chunk: Vec<u8>)
        ensures
            chunk@ + final(self).pending@ == old(self).pending@,
            chunk@.len() == if max < old(self).pending@.len() {
                max as int
            } else {
                old(self).pending@.len() as int
            },
            final(self).written@ == old(self).written@,
    {
        let k = if max < self.pending.len() {
            max
        } else {
            self.pending.len()
        };
        let mut rest = self.pending.split_off(k);
        core::mem::swap(&mut self.pending, &mut rest);
        proof {
            assert(rest@ + self.pending@ =~= old(self).pending@);
        }
        rest
    }

    /// The device receives bytes written to it, after everything written
    /// before, in the order they stand in `data`.
    pub fn write_all(&mut self, data: &Vec<u8>)
        ensures
            final(self).written@ == old(self).written@ + data@,
            final(self).pending@ == old(self).pending@,
    {
        let ghost orig = self.written@;
        let mut i: usize = 0;
        while i < data.len()
            invariant
                i <= data@.len(),
                self.written@ == orig + data@.subrange(0, i as int),
                self.pending@ == old(self).pending@,
            decreases data@.len() - i,
        {
            let ghost sofar = data@.subrange(0, i as int);
            self.written.push(data[i]);
            i = i + 1;
            proof {
                assert(data@.subrange(0, i as int) =~= sofar.push(data@[i - 1]));
                assert(orig + data@.subrange(0, i as int) =~= (orig + sofar).push(
                    data@[i - 1],
                ));
            }
        }
        proof {
            assert(data@.subrange(0, data@.len() as int) =~= data@);
        }
    }
}

impl Bridge {
    /// One poll cycle against a simulated device, taken with the same
    /// decisions the live loop uses. While connected it drains every
    /// pending byte: the returned frames concatenate to exactly the bytes
    /// the device had made available, in order, with nothing lost and
    /// nothing written to the device. While disconnected the device is
    /// not touched at all.
    pub fn poll_serial(&self, port: &mut SimPort) -> (frames: Vec<Vec<u8>>)
        ensures
            self.state is Connected ==> concat_bytes(frame_views(frames@)) == old(
                port,
            ).pending@ && final(port).pending@ == Seq::<u8>::empty(),
            self.state is Disconnected ==> frames@.len() == 0 && final(port).pending@ == old(
                port,
            ).pending@,
            final(port).written@ == old(port).written@,
    {
        let mut frames: Vec<Vec<u8>> = Vec::new();
        if !self.is_connected() {
            return frames;
        }
        let ghost orig = port.pending@;
        let ghost orig_w = port.written@;
        proof {
            assert(frame_views(frames@) =~= Seq::<Seq<u8>>::empty());
        }
        let mut avail = port.available();
        while avail > 0
            invariant
                self.state is Connected,
                avail == port.pending@.len(),
                concat_bytes(frame_views(frames@)) + port.pending@ == orig,
                port.written@ == orig_w,
            decreases port.pending@.len(),
        {
            let step = self.poll_avail(Ok(avail));
            match step {
                PollStep::ReadChunk => {
                    let ghost fv = frame_views(frames@);
                    let chunk = port.read_up_to(POLL_CHUNK);
                    match self.poll_read(Ok(chunk)) {
                        PollStep::Emit(b) => {
                            let ghost bv = b@;
                            frames.push(b);
                            proof {
                                assert(frame_views(frames@) =~= fv.push(bv));
                                assert(concat_bytes(fv.push(bv)) == concat_bytes(fv) + bv)
                                    by {
                                    assert(fv.push(bv).drop_last() =~= fv);
                                }
                                assert(concat_bytes(fv) + bv + port.pending@ =~= orig);
                            }
                        },
                        _ => {
                            assert(false);
                        },
                    }
                },
                _ => {
                    assert(false);
                },
            }
            avail = port.available();
        }
        proof {
            assert(port.pending@ =~= Seq::<u8>::empty());
            assert(concat_bytes(frame_views(frames@)) + port.pending@
                =~= concat_bytes(frame_views(frames@)));
        }
        frames
    }
}

} // verus!
