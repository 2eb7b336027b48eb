//! The frame shared between the decoder and the window: the latest video
//! frame, whether the window has shown it yet, and the playback times.
use crate::timecode::{fmt_time, time_text};
use vstd::prelude::*;

verus! {

/// An RGBA picture: its size and its bytes, four to a pixel, row by row.
pub struct FrameBuffer {
    pub width: u32,
    pub height: u32,
    pub data: Vec<u8>,
}

/// Whether the player plays or pauses.
#[derive(Debug, Clone, Copy, PartialEq, Eq, Structural)]
pub enum AppState {
    Played,
    Paused,
}

/// How a timestamp is shown.
#[derive(Debug, Clone, Copy, PartialEq, Eq, Structural)]
pub enum TimestampFormat {
    /// The presentation timestamp as it stands.
    Pts,
    /// Human readable.
    Human,
}

/// A request to the player from the window.
#[derive(Debug, Clone, Copy, PartialEq, Eq, Structural)]
pub enum AppMsg {
    ToggleState,
    ShowTimestamp { format: TimestampFormat },
    Unknown,
}

/// The frame that the decoder hands to the window, with the state around it.
pub struct WrapBuffer {
    pub size: (u32, u32),
    pub inner: FrameBuffer,
    /// A frame is waiting to be shown; the decoder does not overwrite it.
    pub is_synced: bool,
    pub msg: AppMsg,
    pub status: AppState,
    /// Playback position of the frame, in whole seconds.
    pub cur_time: u64,
    /// Length of the media, in whole seconds.
    pub total_time: u64,
}

/// The text between the playback position and the length in the time label.
pub open spec fn label_separator() -> Seq<char> {
    seq![' ', '-', ' ']
}

impl WrapBuffer {
    /// A buffer that holds `inner`, of size `size`, with no frame waiting,
    /// playing, at time zero of a media of length zero.
    pub fn new(inner: FrameBuffer, size: (u32, u32)) -> (b: Self)
        ensures
            b.size == size,
            b.inner == inner,
            !b.is_synced,
            b.msg == AppMsg::Unknown,
            b.status == AppState::Played,
            b.cur_time == 0,
            b.total_time == 0,
    {
        WrapBuffer {
            size,
            inner,
            is_synced: false,
            msg: AppMsg::Unknown,
            status: AppState::Played,
            cur_time: 0,
            total_time: 0,
        }
    }

    /// The playback position as `HH:MM:SS`.
    pub fn fmt_cur_time(&self) -> (t: String)
        ensures
            t@ == time_text(self.cur_time as nat),
    {
        fmt_time(self.cur_time)
    }

    /// The length of the media as `HH:MM:SS`.
    pub fn fmt_total_time(&self) -> (t: String)
        ensures
            t@ == time_text(self.total_time as nat),
    {
        fmt_time(self.total_time)
    }

    /// The label under the video: `position - length`.
    pub fn time_label(&self) -> (t: String)
        ensures
            t@ == time_text(self.cur_time as nat) + label_separator() + time_text(
                self.total_time as nat,
            ),
    {
        let mut t = self.fmt_cur_time();
        proof {
            reveal_strlit(" - ");
            assert(" - "@ =~= label_separator());
        }
        t.append(" - ");
        let total = self.fmt_total_time();
        t.append(total.as_str());
        t
    }

    /// Whether the next decoded frame finds no picture to copy into: no
    /// frame is waiting and the picture has not been made yet (its width is
    /// zero).
    pub fn needs_buffer(&self) -> (b: bool)
        ensures
            b == (!self.is_synced && self.inner.width == 0),
    {
        !self.is_synced && self.inner.width == 0
    }

    /// Puts in the picture that frames of size `size` are copied into. This
    /// happens only while no picture has been made (its width is zero) and no
    /// frame is waiting, so the first frame with a width fixes the size for
    /// good: nothing else here changes the size or the picture's dimensions.
    pub fn install_buffer(&mut self, inner: FrameBuffer, size: (u32, u32))
        requires
            !old(self).is_synced,
            old(self).inner.width == 0,
            inner.width == size.0,
            inner.height == size.1,
        ensures
            final(self).size == size,
            final(self).inner == inner,
            final(self).is_synced == old(self).is_synced,
            final(self).msg == old(self).msg,
            final(self).status == old(self).status,
            final(self).cur_time == old(self).cur_time,
            final(self).total_time == old(self).total_time,
    {
        self.size = size;
        self.inner = inner;
    }

    /// Records that the waiting frame has been shown, so that the next decoded
    /// frame is taken.
    pub fn mark_shown(&mut self)
        ensures
            !final(self).is_synced,
            final(self).size == old(self).size,
            final(self).inner == old(self).inner,
            final(self).msg == old(self).msg,
            final(self).status == old(self).status,
            final(self).cur_time == old(self).cur_time,
            final(self).total_time == old(self).total_time,
    {
        self.is_synced = false;
    }

    /// Takes a decoded frame: where no frame is waiting, copies its pixels
    /// `plane` into the picture, records its times and marks it waiting,
    /// and answers `true`; where one is waiting, drops the new frame and
    /// answers `false`, unchanged. The pixels must fill the picture exactly.
    pub fn store_frame(&mut self, plane: &[u8], cur_time: u64, total_time: u64) -> (stored: bool)
        requires
            !old(self).is_synced ==> plane@.len() == old(self).inner.data@.len(),
        ensures
            stored == !old(self).is_synced,
            stored ==> {
                &&& final(self).inner.data@ == plane@
                &&& final(self).inner.width == old(self).inner.width
                &&& final(self).inner.height == old(self).inner.height
                &&& final(self).is_synced
                &&& final(self).cur_time == cur_time
                &&& final(self).total_time == total_time
                &&& final(self).size == old(self).size
                &&& final(self).msg == old(self).msg
                &&& final(self).status == old(self).status
            },
            !stored ==> *final(self) == *old(self),
    {
        if self.is_synced {
            return false;
        }
        let n = plane.len();
        let mut i: usize = 0;
        while i < n
            invariant
                n == plane@.len(),
                self.inner.data@.len() == n,
                0 <= i <= n,
                forall|j: int| 0 <= j < i ==> self.inner.data@[j] == plane@[j],
                self.inner.width == old(self).inner.width,
                self.inner.height == old(self).inner.height,
                self.size == old(self).size,
                self.msg == old(self).msg,
                self.status == old(self).status,
                self.is_synced == old(self).is_synced,
            decreases n - i,
        {
            self.inner.data.set(i, plane[i]);
            i = i + 1;
        }
        assert(self.inner.data@ =~= plane@);
        self.is_synced = true;
        self.cur_time = cur_time;
        self.total_time = total_time;
        true
    }
}

} // verus!
