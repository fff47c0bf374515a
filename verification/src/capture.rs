//! Screen capture streams: the queue of captured frames between the capture
//! thread and the encoder, and the stand-in frame when nothing is captured.
//! The capture thread that talks to PipeWire is run by the caller, which
//! hands each frame to `push_frame` and reports a lost connection with `stop`.

use vstd::prelude::*;
use std::collections::VecDeque;
use crate::text::{decimal, push_decimal};

verus! {

/// A captured video frame (RGB24).
#[derive(Debug, Clone)]
pub struct VideoFrame {
    /// Pixel data.
    pub data: Vec<u8>,
    /// Width in pixels.
    pub width: u32,
    /// Height in pixels.
    pub height: u32,
    /// Capture time in nanoseconds.
    pub timestamp: u64,
}

/// Frames kept in the queue; older ones are dropped.
pub const FRAME_QUEUE_CAPACITY: usize = 5;

/// A screen capture stream.
pub struct VideoStream {
    monitor_name: String,
    node_id: Option<u32>,
    frame_queue: VecDeque<VideoFrame>,
    running: bool,
    width: u32,
    height: u32,
}

/// The name of a stream made for a PipeWire node.
pub open spec fn node_stream_name(node_id: u32) -> Seq<char> {
    "node-"@ + decimal(node_id as nat)
}

/// A black frame of the given size, with timestamp 0.
pub open spec fn is_blank_frame(f: VideoFrame, width: u32, height: u32) -> bool {
    &&& f.width == width
    &&& f.height == height
    &&& f.timestamp == 0
    &&& f.data@.len() == width * height * 3
    &&& forall|i: int| 0 <= i < f.data@.len() ==> f.data@[i] == 0
}

/// The queue after one frame arrives: the frame joins at the back, and when
/// the queue is full its oldest frame is dropped first.
pub open spec fn queue_push(q: Seq<VideoFrame>, f: VideoFrame) -> Seq<VideoFrame> {
    if q.len() < FRAME_QUEUE_CAPACITY {
        q.push(f)
    } else {
        q.drop_first().push(f)
    }
}

/// The queue after frames `fs` arrive in order, with nothing taken out.
pub open spec fn queue_push_all(q: Seq<VideoFrame>, fs: Seq<VideoFrame>) -> Seq<VideoFrame>
    decreases fs.len(),
{
    if fs.len() == 0 {
        q
    } else {
        queue_push(queue_push_all(q, fs.drop_last()), fs.last())
    }
}

/// However many frames arrive while nothing is taken out, the queue never
/// holds more than `FRAME_QUEUE_CAPACITY` of them, and it holds the newest:
/// the last `FRAME_QUEUE_CAPACITY` of what was queued followed by what
/// arrived, in arrival order.
pub proof fn lemma_queue_keeps_newest(q: Seq<VideoFrame>, fs: Seq<VideoFrame>)
    requires
        q.len() <= FRAME_QUEUE_CAPACITY,
    ensures
        queue_push_all(q, fs).len() <= FRAME_QUEUE_CAPACITY,
        queue_push_all(q, fs) == (q + fs).skip(
            if q.len() + fs.len() > FRAME_QUEUE_CAPACITY {
                q.len() + fs.len() - FRAME_QUEUE_CAPACITY
            } else {
                0
            },
        ),
    decreases fs.len(),
{
    if fs.len() == 0 {
        assert(q + fs =~= q);
        assert(q.skip(0) =~= q);
    } else {
        let init = fs.drop_last();
        lemma_queue_keeps_newest(q, init);
        let n = q.len() + init.len();
        let d0: int = if n > FRAME_QUEUE_CAPACITY { n - FRAME_QUEUE_CAPACITY } else { 0 };
        let d1: int = if n + 1 > FRAME_QUEUE_CAPACITY { n + 1 - FRAME_QUEUE_CAPACITY } else { 0 };
        let prev = queue_push_all(q, init);
        assert(q + fs =~= (q + init).push(fs.last()));
        if prev.len() < FRAME_QUEUE_CAPACITY {
            assert((q + fs).skip(d1) =~= (q + init).skip(d0).push(fs.last()));
        } else {
            assert((q + fs).skip(d1) =~= (q + init).skip(d0).drop_first().push(fs.last()));
        }
    }
}

/// The stream is active: it runs and has a PipeWire node.
pub open spec fn stream_active(s: &VideoStream) -> bool {
    s.spec_running() && s.spec_node_id() is Some
}

/// A stream made without a PipeWire node never becomes active: `start`,
/// `stop`, `push_frame` and `capture_frame` all keep the node, so along any
/// run of calls that begins without a node no state is active.
pub proof fn lemma_nodeless_stays_inactive(states: Seq<VideoStream>)
    requires
        states.len() > 0,
        states[0].spec_node_id() is None,
        forall|i: int|
            0 <= i < states.len() - 1 ==> (#[trigger] states[i + 1]).spec_node_id() == states[i].spec_node_id(),
    ensures
        forall|i: int| 0 <= i < states.len() ==> !stream_active(&#[trigger] states[i]),
{
    assert forall|i: int| 0 <= i < states.len() implies (#[trigger] states[i]).spec_node_id() is None by {
        lemma_node_kept(states, i);
    }
}

proof fn lemma_node_kept(states: Seq<VideoStream>, i: int)
    requires
        0 <= i < states.len(),
        forall|j: int|
            0 <= j < states.len() - 1 ==> (#[trigger] states[j + 1]).spec_node_id() == states[j].spec_node_id(),
    ensures
        states[i].spec_node_id() == states[0].spec_node_id(),
    decreases i,
{
    if i > 0 {
        lemma_node_kept(states, i - 1);
        assert(states[(i - 1) + 1].spec_node_id() == states[i - 1].spec_node_id());
    }
}

impl VideoStream {
    /// The frames waiting, oldest first.
    pub closed spec fn queued(&self) -> Seq<VideoFrame> {
        self.frame_queue@
    }

    /// Whether the capture is marked as running.
    pub closed spec fn spec_running(&self) -> bool {
        self.running
    }

    /// The PipeWire node captured, if any.
    pub closed spec fn spec_node_id(&self) -> Option<u32> {
        self.node_id
    }

    /// The name of the monitor or node.
    pub closed spec fn spec_monitor_name(&self) -> Seq<char> {
        self.monitor_name@
    }

    /// The frame size.
    pub closed spec fn spec_size(&self) -> (u32, u32) {
        (self.width, self.height)
    }

    /// The queue holds at most `FRAME_QUEUE_CAPACITY` frames.
    pub closed spec fn wf(&self) -> bool {
        self.frame_queue@.len() <= FRAME_QUEUE_CAPACITY
    }

    /// A stream for a monitor without a PipeWire node: it stays inactive and
    /// yields black 1920x1080 frames.
    pub fn new(monitor_name: &str) -> (s: VideoStream)
        ensures
            s.wf(),
            s.spec_monitor_name() == monitor_name@,
            s.spec_node_id() is None,
            !s.spec_running(),
            s.spec_size() == (1920u32, 1080u32),
            s.queued().len() == 0,
    {
        VideoStream {
            monitor_name: monitor_name.to_owned(),
            node_id: None,
            frame_queue: VecDeque::with_capacity(FRAME_QUEUE_CAPACITY),
            running: false,
            width: 1920,
            height: 1080,
        }
    }

    /// A stream for a PipeWire node of the portal, running from the start.
    pub fn from_node_id(node_id: u32, width: u32, height: u32) -> (s: VideoStream)
        ensures
            s.wf(),
            s.spec_monitor_name() == node_stream_name(node_id),
            s.spec_node_id() == Some(node_id),
            s.spec_running(),
            s.spec_size() == (width, height),
            s.queued().len() == 0,
    {
        let mut monitor_name = "node-".to_owned();
        push_decimal(&mut monitor_name, node_id as u64);
        VideoStream {
            monitor_name,
            node_id: Some(node_id),
            frame_queue: VecDeque::with_capacity(FRAME_QUEUE_CAPACITY),
            running: true,
            width,
            height,
        }
    }

    /// Starts the capture at the given size: a stream with a node runs, one
    /// without stays as it was.
    pub fn start(&mut self, width: u32, height: u32) -> (r: Result<(), ()>)
        requires
            old(self).wf(),
        ensures
            r is Ok,
            final(self).wf(),
            final(self).spec_size() == (width, height),
            final(self).spec_running() == (old(self).spec_running() || old(self).spec_node_id() is Some),
            final(self).spec_node_id() == old(self).spec_node_id(),
            final(self).spec_monitor_name() == old(self).spec_monitor_name(),
            final(self).queued() == old(self).queued(),
    {
        self.width = width;
        self.height = height;
        if self.node_id.is_some() {
            self.running = true;
        }
        Ok(())
    }

    /// Takes a frame from the capture thread. When the queue is full the
    /// oldest frame is dropped first, so the newest frames are kept.
    pub fn push_frame(&mut self, frame: VideoFrame)
        requires
            old(self).wf(),
        ensures
            final(self).wf(),
            final(self).queued() == queue_push(old(self).queued(), frame),
            old(self).queued().len() < FRAME_QUEUE_CAPACITY ==> final(self).queued() == old(self).queued().push(frame),
            old(self).queued().len() >= FRAME_QUEUE_CAPACITY ==> final(self).queued() == old(self).queued().drop_first().push(frame),
            final(self).spec_running() == old(self).spec_running(),
            final(self).spec_node_id() == old(self).spec_node_id(),
            final(self).spec_size() == old(self).spec_size(),
            final(self).spec_monitor_name() == old(self).spec_monitor_name(),
    {
        if self.frame_queue.len() >= FRAME_QUEUE_CAPACITY {
            self.frame_queue.pop_front();
        }
        self.frame_queue.push_back(frame);
    }

    fn blank_frame(&self) -> (f: VideoFrame)
        requires
            self.width * self.height * 3 <= u32::MAX,
        ensures
            is_blank_frame(f, self.width, self.height),
    {
        let n: usize = (self.width as usize) * (self.height as usize) * 3;
        let data: Vec<u8> = vec![0u8; n];
        VideoFrame { data, width: self.width, height: self.height, timestamp: 0 }
    }

    /// The next frame: the oldest queued one while the stream is active,
    /// else (or when none is queued) a black frame of the stream's size.
    pub fn capture_frame(&mut self) -> (r: Result<Option<VideoFrame>, ()>)
        requires
            old(self).wf(),
            !(old(self).spec_running() && old(self).spec_node_id() is Some && old(self).queued().len() > 0)
                ==> old(self).spec_size().0 * old(self).spec_size().1 * 3 <= u32::MAX,
        ensures
            final(self).wf(),
            final(self).spec_running() == old(self).spec_running(),
            final(self).spec_node_id() == old(self).spec_node_id(),
            final(self).spec_size() == old(self).spec_size(),
            final(self).spec_monitor_name() == old(self).spec_monitor_name(),
            (old(self).spec_running() && old(self).spec_node_id() is Some && old(self).queued().len() > 0) ==> {
                &&& r == Ok::<Option<VideoFrame>, ()>(Some(old(self).queued()[0]))
                &&& final(self).queued() == old(self).queued().drop_first()
            },
            !(old(self).spec_running() && old(self).spec_node_id() is Some && old(self).queued().len() > 0) ==> {
                &&& r matches Ok(Some(f))
                &&& is_blank_frame(f, old(self).spec_size().0, old(self).spec_size().1)
                &&& final(self).queued() == old(self).queued()
            },
    {
        if !self.is_active() {
            return Ok(Some(self.blank_frame()));
        }
        match self.frame_queue.pop_front() {
            Some(f) => Ok(Some(f)),
            None => Ok(Some(self.blank_frame())),
        }
    }

    /// Stops the stream.
    pub fn stop(&mut self) -> (r: Result<(), ()>)
        requires
            old(self).wf(),
        ensures
            r is Ok,
            final(self).wf(),
            !final(self).spec_running(),
            final(self).spec_node_id() == old(self).spec_node_id(),
            final(self).spec_size() == old(self).spec_size(),
            final(self).spec_monitor_name() == old(self).spec_monitor_name(),
            final(self).queued() == old(self).queued(),
    {
        self.running = false;
        Ok(())
    }

    /// Whether frames come from PipeWire: the stream runs and has a node.
    pub fn is_active(&self) -> (r: bool)
        ensures
            r == (self.spec_running() && self.spec_node_id() is Some),
    {
        self.running && self.node_id.is_some()
    }

    /// How many frames wait in the queue.
    pub fn queued_frames(&self) -> (n: usize)
        ensures
            n == self.queued().len(),
    {
        self.frame_queue.len()
    }

    /// The PipeWire node, or 0 without one.
    pub fn node_id(&self) -> (n: u32)
        ensures
            n == (match self.spec_node_id() {
                Some(v) => v,
                None => 0,
            }),
    {
        match self.node_id {
            Some(v) => v,
            None => 0,
        }
    }
}

} // verus!
