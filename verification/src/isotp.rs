//! ISO-TP (ISO 15765-2) transport layer for CAN.
//!
//! A logical message travels either as one Single Frame (up to 7 bytes) or as a
//! First Frame followed by Consecutive Frames. [`encode_message`] segments an
//! outgoing message and [`IsoTpLink`] reassembles incoming frames.
use vstd::prelude::*;
use vstd::slice::slice_subrange;
use crate::error::Error;

verus! {

/// Maximum data bytes in a Single Frame.
pub const ISOTP_SF_MAX: usize = 7;
/// Maximum data bytes in a First Frame.
pub const ISOTP_FF_MAX: usize = 6;
/// Maximum data bytes in a Consecutive Frame.
pub const ISOTP_CF_MAX: usize = 7;
/// Maximum ISO-TP message length (12-bit length field).
pub const ISOTP_MAX_MESSAGE: usize = 4095;

/// Errors from ISO-TP segmentation / reassembly.
#[derive(Debug, Clone, Copy, PartialEq, Eq, Structural)]
#[non_exhaustive]
pub enum IsoTpError {
    /// A generic core error.
    Core(Error),
    /// The message/segment exceeds the configured buffer capacity.
    Overflow,
    /// A frame arrived out of sequence (wrong consecutive-frame SN).
    WrongSequence,
    /// A consecutive frame arrived without a preceding first frame.
    UnexpectedFrame,
    /// The frame's PCI type is unknown or its length is invalid.
    InvalidPci,
    /// The output frame buffer was too small to hold the segmented message.
    BufferTooSmall,
}

impl From<Error> for IsoTpError {
    fn from(e: Error) -> (r: IsoTpError)
        ensures
            r == IsoTpError::Core(e),
    {
        IsoTpError::Core(e)
    }
}

impl vstd::std_specs::convert::FromSpecImpl<Error> for IsoTpError {
    open spec fn obeys_from_spec() -> bool {
        true
    }

    open spec fn from_spec(e: Error) -> IsoTpError {
        IsoTpError::Core(e)
    }
}

/// Result of feeding one CAN frame into an [`IsoTpLink`].
#[derive(Debug, Clone, Copy, PartialEq, Eq)]
pub enum IsoTpEvent<'a, const N: usize> {
    /// More frames are needed to complete the message.
    Incomplete,
    /// A complete message is ready (borrowed from the link's reassembly buffer).
    Complete(&'a [u8]),
    /// A First Frame was received; the caller must transmit a flow-control frame.
    NeedFlowControl,
}

/// The mathematical state of a reassembly link.
pub struct LinkModel {
    /// Contents of the reassembly buffer.
    pub buf: Seq<u8>,
    /// Announced total message length.
    pub total: nat,
    /// Number of bytes received so far.
    pub filled: nat,
    /// Expected sequence number of the next consecutive frame.
    pub sn: nat,
    /// Whether a multi-frame message is being received.
    pub receiving: bool,
}

/// What one call of `feed` reports.
pub enum FeedOutcome {
    /// More frames are needed.
    Incomplete,
    /// The message is complete.
    Complete(Seq<u8>),
    /// A flow-control frame must be sent.
    NeedFlowControl,
    /// The frame was rejected.
    Failed(IsoTpError),
}

/// `buf` with the bytes from `at` on replaced by `data`.
pub open spec fn splice(buf: Seq<u8>, at: nat, data: Seq<u8>) -> Seq<u8> {
    buf.take(at as int) + data + buf.skip((at + data.len()) as int)
}

/// The smaller of two counts.
pub open spec fn min_nat(a: nat, b: nat) -> nat {
    if a <= b {
        a
    } else {
        b
    }
}

/// The message bytes a link still waits for.
pub open spec fn missing_bytes(s: LinkModel) -> nat {
    if s.filled < s.total {
        (s.total - s.filled) as nat
    } else {
        0
    }
}

/// Total length announced by a first frame.
pub open spec fn ff_length(frame: Seq<u8>) -> nat {
    ((frame[0] % 16) as nat) * 256 + (if frame.len() > 1 { frame[1] as nat } else { 0 })
}

/// The transition of a reassembly link of capacity `n` on one received frame.
pub open spec fn feed_step(s: LinkModel, frame: Seq<u8>, n: nat) -> (LinkModel, FeedOutcome) {
    if frame.len() == 0 {
        (s, FeedOutcome::Failed(IsoTpError::InvalidPci))
    } else {
        let first = frame[0];
        let pci = first / 16;
        if pci == 0 {
            let len = (first % 16) as nat;
            if len == 0 || len > 7 || len > frame.len() - 1 {
                (s, FeedOutcome::Failed(IsoTpError::InvalidPci))
            } else {
                let data = frame.subrange(1, 1 + len as int);
                (LinkModel { buf: splice(s.buf, 0, data), receiving: false, ..s },
                 FeedOutcome::Complete(data))
            }
        } else if pci == 1 {
            let len = ff_length(frame);
            if len < 7 || len > n {
                (s, FeedOutcome::Failed(IsoTpError::Overflow))
            } else {
                let data = frame.skip(2);
                (LinkModel {
                    buf: splice(s.buf, 0, data),
                    total: len,
                    filled: data.len(),
                    sn: 1,
                    receiving: true,
                }, FeedOutcome::NeedFlowControl)
            }
        } else if pci == 2 {
            if !s.receiving {
                (s, FeedOutcome::Failed(IsoTpError::UnexpectedFrame))
            } else if (first % 16) as nat != s.sn {
                (s, FeedOutcome::Failed(IsoTpError::WrongSequence))
            } else {
                let sn = (s.sn + 1) % 16;
                let data = frame.skip(1);
                let chunk = data.take(min_nat(data.len(), missing_bytes(s)) as int);
                let buf = splice(s.buf, s.filled, chunk);
                let filled = s.filled + chunk.len();
                if filled >= s.total {
                    (LinkModel { buf: buf, filled: filled, sn: sn, receiving: false, ..s },
                     FeedOutcome::Complete(buf.take(s.total as int)))
                } else {
                    (LinkModel { buf: buf, filled: filled, sn: sn, ..s },
                     FeedOutcome::Incomplete)
                }
            }
        } else {
            (s, FeedOutcome::Failed(IsoTpError::InvalidPci))
        }
    }
}

/// Frames on which `feed` stays within a buffer of capacity `n`: an accepted
/// Single Frame fits the buffer, and the data of an accepted First Frame fits
/// the buffer too.
pub open spec fn feed_fits(frame: Seq<u8>, n: nat) -> bool {
    frame.len() > 0 ==> {
        let first = frame[0];
        let low = (first % 16) as nat;
        &&& (first / 16 == 0 && 0 < low <= 7 && low <= frame.len() - 1) ==> low <= n
        &&& (first / 16 == 1 && 7 <= ff_length(frame) <= n) ==> (2 <= frame.len()
            && frame.len() - 2 <= n)
    }
}

/// A reassembly state machine for one ISO-TP conversation.
///
/// `N` is the maximum message size the link can buffer.
pub struct IsoTpLink<const N: usize> {
    buf: [u8; N],
    total: usize,
    filled: usize,
    sn: u8,
    receiving: bool,
}

impl<const N: usize> View for IsoTpLink<N> {
    type V = LinkModel;

    closed spec fn view(&self) -> LinkModel {
        LinkModel {
            buf: self.buf@,
            total: self.total as nat,
            filled: self.filled as nat,
            sn: self.sn as nat,
            receiving: self.receiving,
        }
    }
}

/// Well-formed link states: the buffer has capacity `n` and the counters stay
/// within it.
pub open spec fn link_wf(s: LinkModel, n: nat) -> bool {
    &&& s.buf.len() == n
    &&& s.filled <= n
    &&& s.total <= n
    &&& s.sn < 16
}

/// The outcome that an exec result stands for.
pub open spec fn outcome_of<const N: usize>(r: Result<IsoTpEvent<'_, N>, IsoTpError>) -> FeedOutcome {
    match r {
        Ok(IsoTpEvent::Incomplete) => FeedOutcome::Incomplete,
        Ok(IsoTpEvent::Complete(s)) => FeedOutcome::Complete(s@),
        Ok(IsoTpEvent::NeedFlowControl) => FeedOutcome::NeedFlowControl,
        Err(e) => FeedOutcome::Failed(e),
    }
}

impl<const N: usize> IsoTpLink<N> {
    /// Creates an idle link.
    pub fn new() -> (r: Self)
        ensures
            link_wf(r@, N as nat),
            r@.buf == Seq::new(N as nat, |i: int| 0u8),
            r@.total == 0,
            r@.filled == 0,
            r@.sn == 0,
            !r@.receiving,
    {
        let r = IsoTpLink { buf: [0u8; N], total: 0, filled: 0, sn: 0, receiving: false };
        assert(r.buf@ =~= Seq::new(N as nat, |i: int| 0u8));
        r
    }

    /// Copies `data` into the buffer at `at`.
    fn write_at(&mut self, at: usize, data: &[u8])
        requires
            at + data@.len() <= N,
            old(self)@.buf.len() == N,
        ensures
            final(self)@ == (LinkModel { buf: splice(old(self)@.buf, at as nat, data@), ..old(self)@ }),
    {
        let mut i: usize = 0;
        while i < data.len()
            invariant
                i <= data@.len(),
                at + data@.len() <= N,
                self.buf@.len() == N,
                self.buf@ == old(self).buf@.take(at as int) + data@.take(i as int)
                    + old(self).buf@.skip(at + i),
                self.total == old(self).total,
                self.filled == old(self).filled,
                self.sn == old(self).sn,
                self.receiving == old(self).receiving,
            decreases data@.len() - i,
        {
            let ghost prev = self.buf@;
            self.buf[at + i] = data[i];
            i = i + 1;
            assert(self.buf@ =~= old(self).buf@.take(at as int) + data@.take(i as int)
                + old(self).buf@.skip(at + i));
        }
        assert(data@.take(i as int) =~= data@);
    }

    /// Feeds one received CAN frame (its payload) into the link.
    pub fn feed(&mut self, frame: &[u8]) -> (r: Result<IsoTpEvent<'_, N>, IsoTpError>)
        requires
            link_wf(old(self)@, N as nat),
            feed_fits(frame@, N as nat),
        ensures
            link_wf(final(self)@, N as nat),
            (final(self)@, outcome_of(r)) == feed_step(old(self)@, frame@, N as nat),
    {
        if frame.len() == 0 {
            return Err(IsoTpError::InvalidPci);
        }
        let first = frame[0];
        let pci = first >> 4;
        let low = first & 0x0F;
        assert(first >> 4 == first / 16 && first & 0x0F == first % 16) by (bit_vector);
        if pci == 0 {
            let len = low as usize;
            if len == 0 || len > ISOTP_SF_MAX || len > frame.len() - 1 {
                return Err(IsoTpError::InvalidPci);
            }
            let data = slice_subrange(frame, 1, 1 + len);
            self.write_at(0, data);
            self.receiving = false;
            let out = slice_subrange(self.buf.as_slice(), 0, len);
            assert(out@ =~= frame@.subrange(1, 1 + len as int));
            Ok(IsoTpEvent::Complete(out))
        } else if pci == 1 {
            let second: usize = if frame.len() > 1 { frame[1] as usize } else { 0 };
            let len = ((low as usize) << 8) | second;
            assert(((low as usize) << 8) | second == (low as usize) * 256 + second) by (bit_vector)
                requires low < 16, second < 256;
            if len < ISOTP_FF_MAX + 1 || len > N {
                return Err(IsoTpError::Overflow);
            }
            let data = slice_subrange(frame, 2, frame.len());
            self.write_at(0, data);
            self.filled = data.len();
            self.total = len;
            self.sn = 1;
            self.receiving = true;
            Ok(IsoTpEvent::NeedFlowControl)
        } else if pci == 2 {
            if !self.receiving {
                return Err(IsoTpError::UnexpectedFrame);
            }
            if low != self.sn {
                return Err(IsoTpError::WrongSequence);
            }
            let next = self.sn + 1;
            assert(next & 0x0F == next % 16) by (bit_vector);
            self.sn = next & 0x0F;
            // A consecutive frame is padded to the full CAN payload; only the
            // bytes the message still misses are taken in.
            let data = slice_subrange(frame, 1, frame.len());
            let missing = if self.filled < self.total {
                self.total - self.filled
            } else {
                0
            };
            let take = if data.len() <= missing {
                data.len()
            } else {
                missing
            };
            let chunk = slice_subrange(data, 0, take);
            assert(chunk@ =~= data@.take(take as int));
            let at = self.filled;
            self.write_at(at, chunk);
            self.filled = at + take;
            if self.filled >= self.total {
                self.receiving = false;
                let out = slice_subrange(self.buf.as_slice(), 0, self.total);
                Ok(IsoTpEvent::Complete(out))
            } else {
                Ok(IsoTpEvent::Incomplete)
            }
        } else {
            Err(IsoTpError::InvalidPci)
        }
    }
}

impl<const N: usize> Default for IsoTpLink<N> {
    fn default() -> (r: Self)
        ensures
            link_wf(r@, N as nat),
            r@.buf == Seq::new(N as nat, |i: int| 0u8),
            r@.total == 0,
            r@.filled == 0,
            r@.sn == 0,
            !r@.receiving,
    {
        Self::new()
    }
}

/// Builds a flow-control "clear to send" frame (PCI `0x30`).
pub fn flow_control_frame(block_size: u8, st_min: u8) -> (r: [u8; 8])
    ensures
        r@ == seq![0x30u8, block_size, st_min, 0u8, 0u8, 0u8, 0u8, 0u8],
{
    let r = [0x30, block_size, st_min, 0, 0, 0, 0, 0];
    assert(r@ =~= seq![0x30u8, block_size, st_min, 0u8, 0u8, 0u8, 0u8, 0u8]);
    r
}


/// `s` padded with zero bytes to a full 8-byte CAN payload.
pub open spec fn pad8(s: Seq<u8>) -> Seq<u8> {
    s + Seq::new((8 - s.len()) as nat, |i: int| 0u8)
}

/// The Single Frame that carries a message of at most 7 bytes.
pub open spec fn single_frame(msg: Seq<u8>) -> Seq<u8> {
    pad8(seq![msg.len() as u8] + msg)
}

/// The First Frame of a segmented message: PCI 1, the 12-bit length, then
/// the first 6 data bytes.
pub open spec fn first_frame(msg: Seq<u8>) -> Seq<u8> {
    pad8(seq![(16 + msg.len() / 256) as u8, (msg.len() % 256) as u8] + msg.take(6))
}

/// A Consecutive Frame with sequence number `sn` carrying `chunk`.
pub open spec fn consecutive_frame(sn: nat, chunk: Seq<u8>) -> Seq<u8> {
    pad8(seq![(32 + sn) as u8] + chunk)
}

/// The Consecutive Frames that carry `msg` from byte `idx` on, numbered from `sn`.
pub open spec fn consecutive_frames(msg: Seq<u8>, idx: nat, sn: nat) -> Seq<Seq<u8>>
    decreases msg.len() - idx,
{
    if idx >= msg.len() {
        seq![]
    } else {
        let end: nat = if idx + 7 <= msg.len() { idx + 7 } else { msg.len() };
        seq![consecutive_frame(sn, msg.subrange(idx as int, end as int))]
            + consecutive_frames(msg, end, (sn + 1) % 16)
    }
}

/// The CAN payloads that carry `msg`, in transmission order.
pub open spec fn segment(msg: Seq<u8>) -> Seq<Seq<u8>> {
    if msg.len() <= 7 {
        seq![single_frame(msg)]
    } else {
        seq![first_frame(msg)] + consecutive_frames(msg, 6, 1)
    }
}

/// The byte sequences held by an array of CAN payloads.
pub open spec fn frames_view(out: Seq<[u8; 8]>) -> Seq<Seq<u8>> {
    out.map_values(|f: [u8; 8]| f@)
}

/// Builds an 8-byte payload from a PCI prefix and data, zero-padded.
fn pack_frame(pci: &[u8], data: &[u8]) -> (f: [u8; 8])
    requires
        pci@.len() + data@.len() <= 8,
    ensures
        f@ == pad8(pci@ + data@),
{
    let mut f = [0u8; 8];
    let mut i: usize = 0;
    while i < pci.len()
        invariant
            i <= pci@.len(),
            pci@.len() + data@.len() <= 8,
            f@ == pci@.take(i as int) + Seq::new((8 - i) as nat, |k: int| 0u8),
        decreases pci@.len() - i,
    {
        f[i] = pci[i];
        i = i + 1;
        assert(f@ =~= pci@.take(i as int) + Seq::new((8 - i) as nat, |k: int| 0u8));
    }
    let mut j: usize = 0;
    while j < data.len()
        invariant
            j <= data@.len(),
            i == pci@.len(),
            pci@.len() + data@.len() <= 8,
            f@ == pci@ + data@.take(j as int) + Seq::new((8 - i - j) as nat, |k: int| 0u8),
        decreases data@.len() - j,
    {
        f[i + j] = data[j];
        j = j + 1;
        assert(f@ =~= pci@ + data@.take(j as int) + Seq::new((8 - i - j) as nat, |k: int| 0u8));
    }
    assert(pci@.take(i as int) =~= pci@);
    assert(data@.take(j as int) =~= data@);
    assert(f@ =~= pad8(pci@ + data@));
    f
}

/// Segments a logical message into CAN payloads written into `out`.
///
/// Returns the number of frames produced, [`IsoTpError::Overflow`] for a
/// message longer than 4095 bytes, or [`IsoTpError::BufferTooSmall`] when
/// `out` cannot hold every frame (it is then filled with the first frames).
pub fn encode_message(msg: &[u8], out: &mut [[u8; 8]]) -> (r: Result<usize, IsoTpError>)
    ensures
        final(out)@.len() == old(out)@.len(),
        msg@.len() > ISOTP_MAX_MESSAGE ==> r == Err::<usize, IsoTpError>(IsoTpError::Overflow)
            && final(out)@ == old(out)@,
        msg@.len() <= ISOTP_MAX_MESSAGE && old(out)@.len() < segment(msg@).len() ==> r
            == Err::<usize, IsoTpError>(IsoTpError::BufferTooSmall) && frames_view(final(out)@)
            == segment(msg@).take(old(out)@.len() as int),
        msg@.len() <= ISOTP_MAX_MESSAGE && segment(msg@).len() <= old(out)@.len() ==> r
            == Ok::<usize, IsoTpError>(segment(msg@).len() as usize) && frames_view(final(out)@)
            == segment(msg@) + frames_view(old(out)@).skip(segment(msg@).len() as int),
{
    let len = msg.len();
    if len > ISOTP_MAX_MESSAGE {
        return Err(IsoTpError::Overflow);
    }
    if len <= ISOTP_SF_MAX {
        if out.len() == 0 {
            assert(frames_view(out@) =~= segment(msg@).take(0));
            return Err(IsoTpError::BufferTooSmall);
        }
        let pci = [len as u8];
        assert(pci@ =~= seq![msg@.len() as u8]);
        let f = pack_frame(&pci, msg);
        assert(f@ == single_frame(msg@));
        out[0] = f;
        assert(frames_view(out@) =~= segment(msg@) + frames_view(old(out)@).skip(1));
        return Ok(1);
    }
    let ff_len = if len < ISOTP_FF_MAX { len } else { ISOTP_FF_MAX };
    if out.len() == 0 {
        assert(frames_view(out@) =~= segment(msg@).take(0));
        return Err(IsoTpError::BufferTooSmall);
    }
    let b0 = 0x10u8 | ((len >> 8) as u8 & 0x0F);
    let b1 = (len & 0xFF) as u8;
    assert(0x10u8 | ((len >> 8) as u8 & 0x0Fu8) == (16 + len / 256) as u8) by (bit_vector)
        requires len <= 4095usize;
    assert((len & 0xFFusize) as u8 == (len % 256) as u8) by (bit_vector);
    let head = slice_subrange(msg, 0, ff_len);
    let pci = [b0, b1];
    assert(pci@ =~= seq![(16 + len / 256) as u8, (len % 256) as u8]);
    assert(head@ =~= msg@.take(6));
    let f = pack_frame(&pci, head);
    assert(f@ == first_frame(msg@));
    out[0] = f;
    let ghost seg = segment(msg@);
    assert(seg.skip(1) =~= consecutive_frames(msg@, 6, 1));
    assert(frames_view(out@) =~= seg.take(1) + frames_view(old(out)@).skip(1));

    let mut idx: usize = ff_len;
    let mut sn: u8 = 1;
    let mut count: usize = 1;
    while idx < len
        invariant
            len == msg@.len(),
            7 < len <= ISOTP_MAX_MESSAGE,
            6 <= idx <= len,
            1 <= count <= out@.len(),
            sn < 16,
            out@.len() == old(out)@.len(),
            seg == segment(msg@),
            frames_view(out@) == seg.take(count as int) + frames_view(old(out)@).skip(count as int),
            seg.skip(count as int) == consecutive_frames(msg@, idx as nat, sn as nat),
            seg.len() == count + consecutive_frames(msg@, idx as nat, sn as nat).len(),
        decreases len - idx,
    {
        if count >= out.len() {
            assert(frames_view(out@) =~= seg.take(out@.len() as int));
            return Err(IsoTpError::BufferTooSmall);
        }
        let chunk = if len - idx < ISOTP_CF_MAX { len - idx } else { ISOTP_CF_MAX };
        let b = 0x20u8 | sn;
        assert(0x20u8 | sn == (32 + sn) as u8) by (bit_vector)
            requires sn < 16u8;
        let data = slice_subrange(msg, idx, idx + chunk);
        let pci = [b];
        assert(pci@ =~= seq![(32 + sn) as u8]);
        let cf = pack_frame(&pci, data);
        assert(cf@ == consecutive_frame(sn as nat, msg@.subrange(idx as int, (idx + chunk) as int)));
        let ghost rest = consecutive_frames(msg@, (idx + chunk) as nat, ((sn + 1) % 16) as nat);
        assert(consecutive_frames(msg@, idx as nat, sn as nat) == seq![cf@] + rest);
        let ghost prev_out = out@;
        out[count] = cf;
        assert(frames_view(out@) =~= frames_view(prev_out).update(count as int, cf@));
        assert(seg[count as int] == cf@) by {
            assert(seg.skip(count as int)[0] == seg[count as int]);
        }
        assert(seg.skip(count + 1) =~= seg.skip(count as int).skip(1));
        assert((seq![cf@] + rest).skip(1) =~= rest);
        idx = idx + chunk;
        let next = sn + 1;
        assert(next & 0x0F == next % 16) by (bit_vector);
        sn = next & 0x0F;
        assert(frames_view(out@) =~= seg.take(count + 1) + frames_view(old(out)@).skip(count + 1)) by {
            assert forall|i: int| 0 <= i < frames_view(out@).len() implies #[trigger] frames_view(out@)[i]
                == (seg.take(count + 1) + frames_view(old(out)@).skip(count + 1))[i] by {
                if i < count {
                    assert(frames_view(prev_out)[i] == seg.take(count as int)[i]);
                } else if i > count {
                    assert(frames_view(prev_out)[i] == frames_view(old(out)@).skip(count as int)[i - count]);
                }
            }
        }
        count = count + 1;
    }
    assert(seg.take(count as int) =~= seg);
    Ok(count)
}

/// The state and the reports of a link after it is fed `frames` in order.
pub open spec fn run_frames(s: LinkModel, frames: Seq<Seq<u8>>, n: nat) -> (LinkModel, Seq<FeedOutcome>)
    decreases frames.len(),
{
    if frames.len() == 0 {
        (s, seq![])
    } else {
        let (s1, e) = feed_step(s, frames[0], n);
        let (s2, es) = run_frames(s1, frames.drop_first(), n);
        (s2, seq![e] + es)
    }
}

proof fn lemma_consecutive_reassembly(msg: Seq<u8>, n: nat, s: LinkModel, idx: nat, sn: nat)
    requires
        s.buf.len() == n,
        msg.len() <= n,
        s.receiving,
        s.total == msg.len(),
        s.filled == idx,
        s.sn == sn,
        sn < 16,
        6 <= idx < msg.len(),
        s.buf.take(idx as int) == msg.take(idx as int),
    ensures
        ({
            let es = run_frames(s, consecutive_frames(msg, idx, sn), n).1;
            &&& es.len() >= 1
            &&& es.len() == consecutive_frames(msg, idx, sn).len()
            &&& es.last() == FeedOutcome::Complete(msg)
            &&& forall|i: int| 0 <= i < es.len() - 1 ==> #[trigger] es[i] == FeedOutcome::Incomplete
        }),
    decreases msg.len() - idx,
{
    let frames = consecutive_frames(msg, idx, sn);
    let end: nat = if idx + 7 <= msg.len() { idx + 7 } else { msg.len() };
    let chunk = msg.subrange(idx as int, end as int);
    let f = consecutive_frame(sn, chunk);
    let rest = consecutive_frames(msg, end, (sn + 1) % 16);
    assert(frames == seq![f] + rest);
    assert(frames[0] == f);
    assert(frames.drop_first() =~= rest);
    assert(f[0] == (32 + sn) as u8);
    let data = f.skip(1);
    assert(data.len() == 7);
    assert(missing_bytes(s) == msg.len() - idx);
    assert(data.take(min_nat(data.len(), missing_bytes(s)) as int) =~= chunk);
    let (s1, e) = feed_step(s, f, n);
    let buf = splice(s.buf, idx, chunk);
    assert(s1.buf == buf);
    assert(buf.take(end as int) =~= msg.take(end as int)) by {
        assert(buf.take(end as int) =~= s.buf.take(idx as int) + chunk);
        assert(msg.take(end as int) =~= msg.take(idx as int) + chunk);
    }
    if end == msg.len() {
        assert(buf.take(msg.len() as int) =~= msg);
        assert(e == FeedOutcome::Complete(msg));
        assert(rest.len() == 0);
        assert(run_frames(s1, rest, n).1 =~= Seq::<FeedOutcome>::empty());
        let es = run_frames(s, frames, n).1;
        assert(es =~= seq![e]);
    } else {
        assert(e == FeedOutcome::Incomplete);
        lemma_consecutive_reassembly(msg, n, s1, end, (sn + 1) % 16);
        let es1 = run_frames(s1, rest, n).1;
        let es = run_frames(s, frames, n).1;
        assert(es == seq![e] + es1);
        assert forall|i: int| 0 <= i < es.len() - 1 implies #[trigger] es[i] == FeedOutcome::Incomplete by {
            if i > 0 {
                assert(es[i] == es1[i - 1]);
            }
        }
        assert(es.last() == es1.last());
    }
}

/// What [`encode_message`] produces, an [`IsoTpLink`] of capacity `n`
/// reassembles: fed the frames of `msg` in order, the link gives one report
/// per frame. A message of at most 7 bytes is one single frame, reported
/// complete at once; a longer one is reported `NeedFlowControl` on its first
/// frame, `Incomplete` on each middle frame and complete on its last. This
/// holds for every message of 1 to 4095 bytes that fits the link. Every frame
/// is also one that `feed` accepts without leaving the buffer.
pub proof fn lemma_segment_reassembles(msg: Seq<u8>, n: nat, s: LinkModel)
    requires
        link_wf(s, n),
        1 <= msg.len() <= n,
        msg.len() <= ISOTP_MAX_MESSAGE,
    ensures
        forall|i: int| 0 <= i < segment(msg).len() ==> feed_fits(#[trigger] segment(msg)[i], n),
        ({
            let es = run_frames(s, segment(msg), n).1;
            &&& es.len() == segment(msg).len()
            &&& (es.len() == 1) == (msg.len() <= 7)
            &&& es.last() == FeedOutcome::Complete(msg)
            &&& es.len() > 1 ==> es[0] == FeedOutcome::NeedFlowControl
            &&& forall|i: int| 0 < i < es.len() - 1 ==> #[trigger] es[i] == FeedOutcome::Incomplete
        }),
{
    let seg = segment(msg);
    if msg.len() <= 7 {
        let f = single_frame(msg);
        assert(f[0] == msg.len() as u8);
        assert(f.subrange(1, 1 + msg.len() as int) =~= msg);
        assert(seg.drop_first() =~= Seq::<Seq<u8>>::empty());
        let (s1, e) = feed_step(s, f, n);
        assert(e == FeedOutcome::Complete(msg));
        assert(run_frames(s1, seg.drop_first(), n).1 =~= Seq::<FeedOutcome>::empty());
        let es = run_frames(s, seg, n).1;
        assert(es =~= seq![FeedOutcome::Complete(msg)]);
    } else {
        let f = first_frame(msg);
        assert(f[0] == (16 + msg.len() / 256) as u8);
        assert(f[1] == (msg.len() % 256) as u8);
        assert(ff_length(f) == msg.len());
        assert(f.skip(2) =~= msg.take(6));
        let (s1, e) = feed_step(s, f, n);
        assert(e == FeedOutcome::NeedFlowControl);
        assert(s1.buf.take(6) =~= msg.take(6));
        lemma_consecutive_reassembly(msg, n, s1, 6, 1);
        let rest = consecutive_frames(msg, 6, 1);
        assert(seg[0] == f);
        assert(seg.drop_first() =~= rest);
        let es1 = run_frames(s1, rest, n).1;
        let es = run_frames(s, seg, n).1;
        assert(es == seq![e] + es1);
        assert forall|i: int| 0 < i < es.len() - 1 implies #[trigger] es[i] == FeedOutcome::Incomplete by {
            assert(es[i] == es1[i - 1]);
        }
        assert(es.last() == es1.last());
        assert forall|i: int| 0 <= i < seg.len() implies feed_fits(#[trigger] seg[i], n) by {
            if i > 0 {
                lemma_consecutive_frames_pci(msg, 6, 1, i - 1);
                assert(seg[i] == rest[i - 1]);
            }
        }
    }
}

proof fn lemma_consecutive_frames_pci(msg: Seq<u8>, idx: nat, sn: nat, k: int)
    requires
        sn < 16,
        0 <= k < consecutive_frames(msg, idx, sn).len(),
    ensures
        consecutive_frames(msg, idx, sn)[k].len() > 0,
        consecutive_frames(msg, idx, sn)[k][0] / 16 == 2,
    decreases msg.len() - idx,
{
    let end: nat = if idx + 7 <= msg.len() { idx + 7 } else { msg.len() };
    let rest = consecutive_frames(msg, end, (sn + 1) % 16);
    let f = consecutive_frame(sn, msg.subrange(idx as int, end as int));
    if k > 0 {
        lemma_consecutive_frames_pci(msg, end, (sn + 1) % 16, k - 1);
        assert(consecutive_frames(msg, idx, sn)[k] == rest[k - 1]);
    } else {
        assert(f[0] == (32 + sn) as u8);
    }
}

} // verus!
