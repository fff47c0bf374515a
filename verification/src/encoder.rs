//! H.264 encoding bookkeeping: cutting the encoder's output stream into
//! frames, colour conversion of the input, the Y4M stream header, and the
//! frame counter of a running encoder.

use vstd::prelude::*;
use crate::error::CoreError;
use crate::text::{decimal, push_decimal, string_push_str};
use crate::yuv::{chroma_fits, is_yuv420_of, rgb_to_yuv420p};
use crate::annexb::{
    complete_units, open_unit, has_idr, first_boundary, lemma_first_boundary, contains_idr,
    find_access_unit_boundary, lemma_open_unit_has_no_boundary, lemma_resume_search, lemma_units_extend,
    lemma_units_concat,
};

verus! {

/// One encoded video frame.
#[derive(Debug, Clone)]
pub struct EncodedFrame {
    /// H.264 data of the access unit.
    pub data: Vec<u8>,
    /// Presentation timestamp (the frame's number).
    pub pts: i64,
    /// Whether the access unit holds an IDR slice.
    pub is_keyframe: bool,
}

/// Every complete unit cut off a buffer is non-empty, so there are no more of
/// them than bytes.
pub proof fn lemma_units_bounded(buf: Seq<u8>, from: nat)
    ensures
        complete_units(buf, from).len() <= buf.len(),
    decreases buf.len(),
{
    match first_boundary(buf, from + 1) {
        Some(b) => {
            lemma_first_boundary(buf, from + 1);
            lemma_units_bounded(buf.skip(b as int), 0);
        },
        None => {},
    }
}

/// What a reader with `pending` bytes hands out when it is fed `chunks` one
/// after the other, each as `push_chunk` cuts it: the units handed out, in
/// order, and the bytes left pending.
pub open spec fn reader_run(pending: Seq<u8>, chunks: Seq<Seq<u8>>) -> (Seq<Seq<u8>>, Seq<u8>)
    decreases chunks.len(),
{
    if chunks.len() == 0 {
        (Seq::empty(), pending)
    } else {
        let buf = pending + chunks[0];
        let rest = reader_run(open_unit(buf, 0), chunks.drop_first());
        (complete_units(buf, 0) + rest.0, rest.1)
    }
}

proof fn lemma_reader_run_from(x: Seq<u8>, chunks: Seq<Seq<u8>>)
    ensures
        complete_units(x, 0) + reader_run(open_unit(x, 0), chunks).0 == complete_units(x + chunks.flatten(), 0),
        reader_run(open_unit(x, 0), chunks).1 == open_unit(x + chunks.flatten(), 0),
    decreases chunks.len(),
{
    if chunks.len() == 0 {
        assert(x + chunks.flatten() =~= x);
        assert(complete_units(x, 0) + Seq::<Seq<u8>>::empty() =~= complete_units(x, 0));
    } else {
        let c = chunks[0];
        let rest = chunks.drop_first();
        lemma_units_extend(x, c);
        lemma_reader_run_from(x + c, rest);
        assert(chunks.flatten() == c + rest.flatten());
        assert(x + c + rest.flatten() =~= x + chunks.flatten());
        let buf = open_unit(x, 0) + c;
        assert(complete_units(x, 0) + (complete_units(buf, 0) + reader_run(open_unit(buf, 0), rest).0)
            =~= (complete_units(x, 0) + complete_units(buf, 0)) + reader_run(open_unit(buf, 0), rest).0);
    }
}

/// However the encoder's output stream is split into chunks, a reader fed
/// them one after the other from the start hands out the complete units of
/// the whole stream and keeps its open unit pending; together they are the
/// stream again.
pub proof fn lemma_reader_run(chunks: Seq<Seq<u8>>)
    ensures
        reader_run(Seq::empty(), chunks).0 == complete_units(chunks.flatten(), 0),
        reader_run(Seq::empty(), chunks).1 == open_unit(chunks.flatten(), 0),
        complete_units(chunks.flatten(), 0).flatten() + open_unit(chunks.flatten(), 0) == chunks.flatten(),
{
    let e = Seq::<u8>::empty();
    assert(first_boundary(e, 1) is None);
    assert(complete_units(e, 0) =~= Seq::<Seq<u8>>::empty());
    assert(open_unit(e, 0) == e);
    lemma_reader_run_from(e, chunks);
    assert(e + chunks.flatten() =~= chunks.flatten());
    assert(Seq::<Seq<u8>>::empty() + reader_run(e, chunks).0 =~= reader_run(e, chunks).0);
    lemma_units_concat(chunks.flatten(), 0);
}

/// Collects the encoder's output stream and cuts it into access units.
///
/// Bytes arrive in chunks of any size; a unit is handed out once the start
/// code of the next one has arrived, and the last one when the stream ends.
/// The frames handed out are those of the whole stream received, however it
/// was split into chunks.
pub struct AccessUnitReader {
    buffer: Vec<u8>,
    frame_count: i64,
    received: Ghost<Seq<u8>>,
}

impl AccessUnitReader {
    /// The bytes received but not yet handed out.
    pub closed spec fn pending(&self) -> Seq<u8> {
        self.buffer@
    }

    /// How many frames have been handed out.
    pub closed spec fn emitted(&self) -> int {
        self.frame_count as int
    }

    /// Everything received so far.
    pub closed spec fn received(&self) -> Seq<u8> {
        self.received@
    }

    /// The frames handed out are the complete units of what was received,
    /// and what is pending is its open unit.
    pub open spec fn wf(&self) -> bool {
        &&& self.emitted() == complete_units(self.received(), 0).len()
        &&& self.pending() == open_unit(self.received(), 0)
    }

    /// A reader that has received nothing.
    pub fn new() -> (r: AccessUnitReader)
        ensures
            r.wf(),
            r.received() == Seq::<u8>::empty(),
            r.pending() == Seq::<u8>::empty(),
            r.emitted() == 0,
    {
        let r = AccessUnitReader { buffer: Vec::new(), frame_count: 0, received: Ghost(Seq::empty()) };
        proof {
            assert(first_boundary(Seq::<u8>::empty(), 1) is None);
            assert(complete_units(Seq::<u8>::empty(), 0) =~= Seq::<Seq<u8>>::empty());
        }
        r
    }

    /// Takes in the next chunk of the stream and hands out every access unit
    /// that it completes, numbered on from the frames handed out before.
    ///
    /// The search for the next unit's start resumes four bytes before the end
    /// of what was pending, so that a start code that ended the pending bytes,
    /// and whose header byte comes in this chunk, is found.
    pub fn push_chunk(&mut self, chunk: &[u8]) -> (frames: Vec<EncodedFrame>)
        requires
            old(self).wf(),
            old(self).emitted() + old(self).pending().len() + chunk@.len() <= i64::MAX,
        ensures
            final(self).wf(),
            final(self).received() == old(self).received() + chunk@,
            ({
                let units = complete_units(final(self).received(), 0);
                &&& frames@.len() == units.len() - old(self).emitted()
                &&& forall|k: int|
                    0 <= k < frames@.len() ==> {
                        &&& (#[trigger] frames@[k]).data@ == units[old(self).emitted() + k]
                        &&& frames@[k].pts == old(self).emitted() + k
                        &&& frames@[k].is_keyframe == has_idr(frames@[k].data@)
                    }
            }),
            ({
                let buf = old(self).pending() + chunk@;
                &&& frames@.len() == complete_units(buf, 0).len()
                &&& forall|k: int|
                    0 <= k < frames@.len() ==> (#[trigger] frames@[k]).data@ == complete_units(buf, 0)[k]
                &&& final(self).pending() == open_unit(buf, 0)
            }),
    {
        let ghost received0 = self.received@;
        let start_len = self.buffer.len();
        let mut buffer: Vec<u8> = Vec::new();
        core::mem::swap(&mut buffer, &mut self.buffer);
        let mut k: usize = 0;
        while k < chunk.len()
            invariant
                0 <= k <= chunk@.len(),
                buffer@ == old(self).pending() + chunk@.take(k as int),
            decreases chunk@.len() - k,
        {
            buffer.push(chunk[k]);
            proof {
                assert(chunk@.take(k + 1) =~= chunk@.take(k as int).push(chunk@[k as int]));
            }
            k = k + 1;
        }
        let ghost buf0 = buffer@;
        let mut search_at: usize = if start_len > 4 {
            start_len - 4
        } else {
            1
        };
        proof {
            assert(chunk@.take(chunk@.len() as int) =~= chunk@);
            lemma_units_bounded(buf0, 0);
            lemma_open_unit_has_no_boundary(received0);
            lemma_resume_search(old(self).pending(), chunk@, search_at as nat);
            lemma_units_extend(received0, chunk@);
        }
        let ghost count0: int = self.frame_count as int;
        let mut frames: Vec<EncodedFrame> = Vec::new();
        loop
            invariant
                1 <= search_at,
                buffer@.len() <= buf0.len(),
                complete_units(buf0, 0) == frames@.map_values(|f: EncodedFrame| f.data@)
                    + complete_units(buffer@, (search_at - 1) as nat),
                open_unit(buf0, 0) == open_unit(buffer@, (search_at - 1) as nat),
                self.frame_count == count0 + frames@.len(),
                count0 >= 0,
                count0 + buf0.len() <= i64::MAX,
                complete_units(buf0, 0).len() <= buf0.len(),
                forall|j: int|
                    0 <= j < frames@.len() ==> {
                        &&& (#[trigger] frames@[j]).pts == count0 + j
                        &&& frames@[j].is_keyframe == has_idr(frames@[j].data@)
                    },
            ensures
                complete_units(buf0, 0) == frames@.map_values(|f: EncodedFrame| f.data@),
                open_unit(buf0, 0) == buffer@,
                self.frame_count == count0 + frames@.len(),
                forall|j: int|
                    0 <= j < frames@.len() ==> {
                        &&& (#[trigger] frames@[j]).pts == count0 + j
                        &&& frames@[j].is_keyframe == has_idr(frames@[j].data@)
                    },
            decreases buffer@.len(),
        {
            match find_access_unit_boundary(buffer.as_slice(), search_at) {
                Some(boundary) => {
                    proof {
                        lemma_first_boundary(buffer@, search_at as nat);
                    }
                    let ghost before = buffer@;
                    let rest = buffer.split_off(boundary);
                    let unit = buffer;
                    buffer = rest;
                    let is_keyframe = contains_idr(unit.as_slice());
                    proof {
                        assert(complete_units(before, (search_at - 1) as nat) == seq![before.take(
                            boundary as int,
                        )] + complete_units(before.skip(boundary as int), 0));
                        assert(unit@ =~= before.take(boundary as int));
                        assert(buffer@ =~= before.skip(boundary as int));
                        assert(frames@.map_values(|f: EncodedFrame| f.data@).len() + 1
                            <= complete_units(buf0, 0).len());
                    }
                    let frame = EncodedFrame { data: unit, pts: self.frame_count, is_keyframe };
                    let ghost old_frames = frames@;
                    frames.push(frame);
                    self.frame_count = self.frame_count + 1;
                    search_at = 1;
                    proof {
                        assert(frames@.map_values(|f: EncodedFrame| f.data@) =~= old_frames.map_values(
                            |f: EncodedFrame| f.data@,
                        ).push(before.take(boundary as int)));
                        assert(complete_units(buf0, 0) =~= frames@.map_values(|f: EncodedFrame| f.data@)
                            + complete_units(buffer@, 0));
                    }
                },
                None => {
                    proof {
                        assert(complete_units(buffer@, (search_at - 1) as nat) =~= Seq::<
                            Seq<u8>,
                        >::empty());
                        assert(frames@.map_values(|f: EncodedFrame| f.data@) + Seq::<Seq<u8>>::empty()
                            =~= frames@.map_values(|f: EncodedFrame| f.data@));
                    }
                    break;
                },
            }
        }
        self.buffer = buffer;
        self.received = Ghost(received0 + chunk@);
        proof {
            assert forall|k: int| 0 <= k < frames@.len() implies (#[trigger] frames@[k]).data@
                == complete_units(buf0, 0)[k] by {
                assert(frames@.map_values(|f: EncodedFrame| f.data@)[k] == frames@[k].data@);
            }
        }
        frames
    }

    /// Ends the stream: the bytes still pending, if any, are the last frame,
    /// the open unit of everything received.
    pub fn finish(self) -> (last: Option<EncodedFrame>)
        requires
            self.wf(),
        ensures
            self.pending().len() == 0 ==> last is None,
            self.pending().len() > 0 ==> (last matches Some(f) && f.data@ == open_unit(self.received(), 0)
                && f.pts == complete_units(self.received(), 0).len() && f.is_keyframe == has_idr(
                self.pending(),
            )),
    {
        if self.buffer.len() == 0 {
            None
        } else {
            let is_keyframe = contains_idr(self.buffer.as_slice());
            Some(EncodedFrame { data: self.buffer, pts: self.frame_count, is_keyframe })
        }
    }
}

/// The Y4M stream header for frames of `w` by `h` pixels at `fps` frames per
/// second, progressive, 4:2:0.
pub open spec fn y4m_header_text(w: nat, h: nat, fps: nat) -> Seq<char> {
    "YUV4MPEG2 W"@ + decimal(w) + " H"@ + decimal(h) + " F"@ + decimal(fps) + ":1 Ip C420mpeg2\n"@
}

/// The message of the error for an RGB frame shorter than its stride times its
/// height.
pub open spec fn too_small_text(len: nat, needed: nat) -> Seq<char> {
    "RGB data too small: "@ + decimal(len) + " < "@ + decimal(needed)
}

/// What must be written to the encoder for one frame: the stream header before
/// the first frame, then the frame in YUV 4:2:0. When `restart_encoder` is
/// set, the encoder process is to be started anew before the frame is
/// written, so that the frame opens a new stream as a keyframe.
pub struct FrameInput {
    pub header: Option<String>,
    pub yuv: Vec<u8>,
    pub restart_encoder: bool,
}

/// Bookkeeping of an H.264 encoder process fed with Y4M: the frame size and
/// rate, how many frames went in, and whether the stream header was sent.
pub struct H264Encoder {
    width: u32,
    height: u32,
    fps: u8,
    frame_count: u64,
    force_keyframe: bool,
    y4m_header_sent: bool,
}

impl H264Encoder {
    pub closed spec fn spec_width(&self) -> u32 {
        self.width
    }

    pub closed spec fn spec_height(&self) -> u32 {
        self.height
    }

    pub closed spec fn spec_fps(&self) -> u8 {
        self.fps
    }

    /// Frames written to the encoder since it (re)started.
    pub closed spec fn spec_frame_count(&self) -> u64 {
        self.frame_count
    }

    /// Whether a keyframe was asked for.
    pub closed spec fn spec_force_keyframe(&self) -> bool {
        self.force_keyframe
    }

    /// Whether the stream header went out since the encoder (re)started.
    pub closed spec fn spec_header_sent(&self) -> bool {
        self.y4m_header_sent
    }

    /// An encoder for `width` by `height` frames at 30 frames per second that
    /// has received nothing.
    pub fn new(width: u32, height: u32) -> (e: H264Encoder)
        ensures
            e.spec_width() == width,
            e.spec_height() == height,
            e.spec_fps() == 30,
            e.spec_frame_count() == 0,
            !e.spec_force_keyframe(),
            !e.spec_header_sent(),
    {
        H264Encoder {
            width,
            height,
            fps: 30,
            frame_count: 0,
            force_keyframe: false,
            y4m_header_sent: false,
        }
    }

    /// The encoder's frame width.
    pub fn width(&self) -> (w: u32)
        ensures
            w == self.spec_width(),
    {
        self.width
    }

    /// The encoder's frame height.
    pub fn height(&self) -> (h: u32)
        ensures
            h == self.spec_height(),
    {
        self.height
    }

    /// The Y4M stream header for this encoder's frames.
    pub fn y4m_header(&self) -> (t: String)
        ensures
            t@ == y4m_header_text(
                self.spec_width() as nat,
                self.spec_height() as nat,
                self.spec_fps() as nat,
            ),
    {
        let mut t = String::new();
        string_push_str(&mut t, "YUV4MPEG2 W");
        push_decimal(&mut t, self.width as u64);
        string_push_str(&mut t, " H");
        push_decimal(&mut t, self.height as u64);
        string_push_str(&mut t, " F");
        push_decimal(&mut t, self.fps as u64);
        string_push_str(&mut t, ":1 Ip C420mpeg2\n");
        t
    }

    /// The header to send before the next frame: the stream header if it has
    /// not gone out yet (it counts as sent from now on), else nothing.
    fn take_header(&mut self) -> (h: Option<String>)
        ensures
            final(self).spec_header_sent(),
            final(self).spec_width() == old(self).spec_width(),
            final(self).spec_height() == old(self).spec_height(),
            final(self).spec_fps() == old(self).spec_fps(),
            final(self).spec_frame_count() == old(self).spec_frame_count(),
            final(self).spec_force_keyframe() == old(self).spec_force_keyframe(),
            old(self).spec_header_sent() ==> h is None,
            !old(self).spec_header_sent() ==> (h matches Some(t) && t@ == y4m_header_text(
                old(self).spec_width() as nat,
                old(self).spec_height() as nat,
                old(self).spec_fps() as nat,
            )),
    {
        if self.y4m_header_sent {
            None
        } else {
            let t = self.y4m_header();
            self.y4m_header_sent = true;
            Some(t)
        }
    }

    /// What to write for one frame fed to fill the encoder's pipeline: an
    /// all-black frame (zero RGB bytes), after the stream header if that is
    /// still due.
    pub fn priming_input(&mut self) -> (input: FrameInput)
        requires
            old(self).spec_width() * old(self).spec_height() * 3 <= u32::MAX,
            chroma_fits(
                old(self).spec_width() * old(self).spec_height() * 3,
                old(self).spec_width() as int,
                old(self).spec_height() as int,
            ),
        ensures
            final(self).spec_header_sent(),
            final(self).spec_width() == old(self).spec_width(),
            final(self).spec_height() == old(self).spec_height(),
            final(self).spec_fps() == old(self).spec_fps(),
            final(self).spec_frame_count() == old(self).spec_frame_count(),
            final(self).spec_force_keyframe() == old(self).spec_force_keyframe(),
            old(self).spec_header_sent() ==> input.header is None,
            !old(self).spec_header_sent() ==> (input.header matches Some(t) && t@
                == y4m_header_text(
                old(self).spec_width() as nat,
                old(self).spec_height() as nat,
                old(self).spec_fps() as nat,
            )),
            !input.restart_encoder,
            is_yuv420_of(
                input.yuv@,
                Seq::new((old(self).spec_width() * old(self).spec_height() * 3) as nat, |i: int| 0u8),
                old(self).spec_width() as int,
                old(self).spec_height() as int,
            ),
    {
        let size = (self.width * self.height * 3) as usize;
        let dummy: Vec<u8> = vec![0u8; size];
        proof {
            assert(dummy@ =~= Seq::new(size as nat, |i: int| 0u8));
        }
        let header = self.take_header();
        let yuv = rgb_to_yuv420p(dummy.as_slice(), self.width, self.height);
        FrameInput { header, yuv, restart_encoder: false }
    }

    /// What to write for one RGB frame: the stream header if that is still
    /// due, then the frame in YUV 4:2:0. A frame shorter than `stride` bytes
    /// per row over the encoder's height is refused and nothing changes.
    ///
    /// When a keyframe was asked for, the input asks for a restart of the
    /// encoder process before the frame, which is then the first frame of a
    /// new stream: the stream header is due again, the frame count starts
    /// over, and the request is settled.
    pub fn prepare_frame(&mut self, rgb_data: &[u8], stride: u32) -> (r: Result<FrameInput, CoreError>)
        requires
            old(self).spec_height() * stride <= u32::MAX,
            old(self).spec_width() * old(self).spec_height() * 3 <= u32::MAX,
            chroma_fits(
                rgb_data@.len() as int,
                old(self).spec_width() as int,
                old(self).spec_height() as int,
            ),
        ensures
            rgb_data@.len() < old(self).spec_height() * stride ==> {
                &&& r matches Err(CoreError::PipeWire(m)) && m@ == too_small_text(
                    rgb_data@.len() as nat,
                    (old(self).spec_height() * stride) as nat,
                )
                &&& *final(self) == *old(self)
            },
            rgb_data@.len() >= old(self).spec_height() * stride ==> {
                &&& r matches Ok(input) && {
                    &&& input.restart_encoder == old(self).spec_force_keyframe()
                    &&& (old(self).spec_header_sent() && !old(self).spec_force_keyframe()) ==> input.header is None
                    &&& (!old(self).spec_header_sent() || old(self).spec_force_keyframe()) ==> (input.header matches Some(t)
                        && t@ == y4m_header_text(
                        old(self).spec_width() as nat,
                        old(self).spec_height() as nat,
                        old(self).spec_fps() as nat,
                    ))
                    &&& is_yuv420_of(
                        input.yuv@,
                        rgb_data@,
                        old(self).spec_width() as int,
                        old(self).spec_height() as int,
                    )
                }
                &&& final(self).spec_header_sent()
                &&& final(self).spec_width() == old(self).spec_width()
                &&& final(self).spec_height() == old(self).spec_height()
                &&& final(self).spec_fps() == old(self).spec_fps()
                &&& final(self).spec_frame_count() == if old(self).spec_force_keyframe() {
                    0
                } else {
                    old(self).spec_frame_count()
                }
                &&& !final(self).spec_force_keyframe()
            },
    {
        let frame_size = (self.height * stride) as usize;
        if rgb_data.len() < frame_size {
            let mut m = String::new();
            string_push_str(&mut m, "RGB data too small: ");
            push_decimal(&mut m, rgb_data.len() as u64);
            string_push_str(&mut m, " < ");
            push_decimal(&mut m, frame_size as u64);
            return Err(CoreError::PipeWire(m));
        }
        let restart_encoder = self.force_keyframe;
        if restart_encoder {
            self.restart();
            self.force_keyframe = false;
        }
        let header = self.take_header();
        let yuv = rgb_to_yuv420p(rgb_data, self.width, self.height);
        Ok(FrameInput { header, yuv, restart_encoder })
    }

    /// Records that one more frame went into the encoder.
    pub fn frame_written(&mut self)
        requires
            old(self).spec_frame_count() < u64::MAX,
        ensures
            final(self).spec_frame_count() == old(self).spec_frame_count() + 1,
            final(self).spec_width() == old(self).spec_width(),
            final(self).spec_height() == old(self).spec_height(),
            final(self).spec_fps() == old(self).spec_fps(),
            final(self).spec_header_sent() == old(self).spec_header_sent(),
            final(self).spec_force_keyframe() == old(self).spec_force_keyframe(),
    {
        self.frame_count = self.frame_count + 1;
    }

    /// The empty frame handed back when the encoder gives nothing for the last
    /// frame written: no data, not a keyframe, numbered one below the frame
    /// count (so -1 right after a restart).
    pub fn missing_frame(&self) -> (f: EncodedFrame)
        requires
            self.spec_frame_count() <= i64::MAX,
        ensures
            f.data@.len() == 0,
            f.pts == self.spec_frame_count() - 1,
            !f.is_keyframe,
    {
        EncodedFrame { data: Vec::new(), pts: self.frame_count as i64 - 1, is_keyframe: false }
    }

    /// Records a restart of the encoder process: no frames written and the
    /// stream header due again.
    pub fn restart(&mut self)
        ensures
            final(self).spec_frame_count() == 0,
            !final(self).spec_header_sent(),
            final(self).spec_width() == old(self).spec_width(),
            final(self).spec_height() == old(self).spec_height(),
            final(self).spec_fps() == old(self).spec_fps(),
            final(self).spec_force_keyframe() == old(self).spec_force_keyframe(),
    {
        self.frame_count = 0;
        self.y4m_header_sent = false;
    }

    /// Asks for the next frame to be a keyframe: the next input that
    /// `prepare_frame` gives restarts the encoder process, so that the frame
    /// opens a new stream.
    pub fn request_keyframe(&mut self) -> (r: Result<(), CoreError>)
        ensures
            r is Ok,
            final(self).spec_force_keyframe(),
            final(self).spec_frame_count() == old(self).spec_frame_count(),
            final(self).spec_header_sent() == old(self).spec_header_sent(),
            final(self).spec_width() == old(self).spec_width(),
            final(self).spec_height() == old(self).spec_height(),
            final(self).spec_fps() == old(self).spec_fps(),
    {
        self.force_keyframe = true;
        Ok(())
    }
}

} // verus!
