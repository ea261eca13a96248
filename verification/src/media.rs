//! A media item: its frames, and what is done to them before playback.

use crate::bitmap::{transformed_grid, Bitmap};
use crate::glyph::{cell_count, render_frame, Cell};
use crate::playback::Playback;
use crate::sizing::{request_text, resolve_size, size_error_text, target_size};
use vstd::prelude::*;

verus! {

/// What the user asked for.
#[derive(Clone, Debug, PartialEq, Eq)]
pub struct Args {
    /// The path of the media file.
    pub file: String,
    /// Whether the colours are complemented.
    pub invert: bool,
    /// Whether every frame is mirrored left to right.
    pub flip_h: bool,
    /// Whether every frame is turned upside down.
    pub flip_v: bool,
    /// The size asked for, as `NUMxNUM`.
    pub size: Option<String>,
    /// Whether the source dimensions are kept where no size is asked for.
    pub preserve_dims: bool,
    /// Whether a video starts over when it ends.
    pub loop_video: bool,
    /// Whether audio is left out.
    pub mute: bool,
}

/// A still image or a video: its frames in presentation order.
#[derive(Clone, Debug, PartialEq, Eq)]
pub struct Media {
    /// The frames, in presentation order.
    pub frames: Vec<Bitmap>,
    /// What the user asked for.
    pub config: Args,
    /// Whether there is more than one frame.
    pub is_video: bool,
    /// Whether playback is accompanied by audio.
    pub has_audio: bool,
}

impl Media {
    /// Every frame is well formed, and more than one frame makes a video.
    pub open spec fn wf(&self) -> bool {
        &&& forall|i: int| 0 <= i < self.frames.len() ==> (#[trigger] self.frames[i]).wf()
        &&& self.is_video == (self.frames.len() > 1)
    }

    /// Whether every frame is `width` by `height`.
    pub open spec fn uniform(&self, width: u32, height: u32) -> bool {
        forall|i: int|
            0 <= i < self.frames.len() ==> (#[trigger] self.frames[i]).width == width && self.frames[i].height
                == height
    }

    /// Whether every frame can be resampled to `width` by `height` within
    /// the address space.
    pub open spec fn can_reshape(&self, width: u32, height: u32) -> bool {
        forall|i: int| 0 <= i < self.frames.len() ==> (#[trigger] self.frames[i]).can_resize(width, height)
    }

    /// The geometry that the configuration asks for, before any scaling;
    /// `None` where the size request is malformed.
    pub open spec fn target(&self) -> Option<(u32, u32)> {
        target_size(
            self.frames[0].width,
            self.frames[0].height,
            request_text(&self.config.size),
            self.config.preserve_dims,
        )
    }

    /// Whether `self` is `before` with every frame transformed to `width` by
    /// `height` as the configuration asks, and nothing else changed.
    pub open spec fn is_reshaped(&self, before: &Media, width: u32, height: u32) -> bool {
        &&& self.config == before.config
        &&& self.is_video == before.is_video
        &&& self.has_audio == before.has_audio
        &&& self.frames.len() == before.frames.len()
        &&& self.uniform(width, height)
        &&& forall|i: int|
            0 <= i < self.frames.len() ==> (#[trigger] self.frames[i]).grid() == transformed_grid(
                before.frames[i].grid(),
                before.frames[i].width,
                width,
                height,
                before.config.invert,
                before.config.flip_h,
                before.config.flip_v,
            )
    }

    /// A media item without frames yet.
    pub fn new(config: Args) -> (media: Media)
        ensures
            media.wf(),
            media.frames@ == Seq::<Bitmap>::empty(),
            media.config == config,
            !media.is_video,
            !media.has_audio,
    {
        Media { frames: Vec::new(), config, is_video: false, has_audio: false }
    }

    /// Takes in the decoded frames, in presentation order, and whether an
    /// audio track was extracted. More than one frame makes a video; audio
    /// accompanies playback where a track was extracted and is not muted.
    pub fn unpack_file(&mut self, frames: Vec<Bitmap>, audio_extracted: bool)
        requires
            forall|i: int| 0 <= i < frames.len() ==> (#[trigger] frames[i]).wf(),
        ensures
            final(self).wf(),
            final(self).frames == frames,
            final(self).config == old(self).config,
            final(self).is_video == (frames.len() > 1),
            final(self).has_audio == (!old(self).config.mute && audio_extracted),
    {
        self.has_audio = !self.config.mute && audio_extracted;
        self.is_video = frames.len() > 1;
        self.frames = frames;
    }

    /// Whether every frame can be resampled to `width` by `height` within
    /// the address space.
    pub fn reshapable(&self, width: u32, height: u32) -> (fits: bool)
        ensures
            fits == self.can_reshape(width, height),
    {
        let mut i: usize = 0;
        while i < self.frames.len()
            invariant
                i <= self.frames.len(),
                forall|j: int| 0 <= j < i ==> (#[trigger] self.frames[j]).can_resize(width, height),
            decreases self.frames.len() - i,
        {
            if !self.frames[i].resizable(width, height) {
                return false;
            }
            i = i + 1;
        }
        true
    }

    /// The geometry that the configuration asks for, before any scaling,
    /// from the first frame's dimensions; a malformed size request fails.
    pub fn target_size(&self) -> (size: Result<(u32, u32), String>)
        requires
            self.frames.len() >= 1,
        ensures
            match self.target() {
                Some(target) => size == Ok::<(u32, u32), String>(target),
                None => size is Err && size->Err_0@ == size_error_text(),
            },
    {
        resolve_size(self.frames[0].width, self.frames[0].height, &self.config.size, self.config.preserve_dims)
    }

    /// Transforms every frame to `width` by `height`: resampled, then
    /// recoloured and flipped as the configuration asks.
    pub fn reshape(&mut self, width: u32, height: u32)
        requires
            old(self).wf(),
            old(self).can_reshape(width, height),
        ensures
            final(self).wf(),
            final(self).is_reshaped(old(self), width, height),
    {
        let mut made: Vec<Bitmap> = Vec::new();
        let mut i: usize = 0;
        while i < self.frames.len()
            invariant
                *self == *old(self),
                self.wf(),
                self.can_reshape(width, height),
                i <= self.frames.len(),
                made.len() == i,
                forall|j: int|
                    0 <= j < i ==> (#[trigger] made[j]).wf() && made[j].width == width && made[j].height == height,
                forall|j: int|
                    0 <= j < i ==> (#[trigger] made[j]).grid() == transformed_grid(
                        self.frames[j].grid(),
                        self.frames[j].width,
                        width,
                        height,
                        self.config.invert,
                        self.config.flip_h,
                        self.config.flip_v,
                    ),
            decreases self.frames.len() - i,
        {
            let frame = self.frames[i].transformed(
                width,
                height,
                self.config.invert,
                self.config.flip_h,
                self.config.flip_v,
            );
            made.push(frame);
            i = i + 1;
        }
        self.frames = made;
    }

    /// Transforms every frame to the geometry that the configuration asks
    /// for. A malformed size request fails and changes nothing.
    pub fn transform(&mut self) -> (done: Result<(), String>)
        requires
            old(self).wf(),
            old(self).frames.len() >= 1,
            match old(self).target() {
                Some(target) => old(self).can_reshape(target.0, target.1),
                None => true,
            },
        ensures
            final(self).wf(),
            match old(self).target() {
                Some(target) => done is Ok && final(self).is_reshaped(old(self), target.0, target.1),
                None => done is Err && done->Err_0@ == size_error_text() && *final(self) == *old(self),
            },
    {
        match self.target_size() {
            Ok(target) => {
                self.reshape(target.0, target.1);
                Ok(())
            },
            Err(message) => Err(message),
        }
    }

    /// Begins playback: a session over the frames, each taking half as many
    /// lines as it has rows, looping and with audio as configured.
    pub fn render(&self) -> (session: Playback)
        requires
            self.wf(),
            self.frames.len() >= 1,
        ensures
            session.wf(),
            session == Playback::initial(
                self.frames.len(),
                (self.frames[0].height / 2) as u32,
                self.config.loop_video,
                self.has_audio,
            ),
    {
        Playback::begin(self.frames.len(), self.frames[0].height / 2, self.config.loop_video, self.has_audio)
    }

    /// The cells of frame `index`, in the order in which they are written.
    pub fn display_frame(&self, index: usize) -> (cells: Vec<Cell>)
        requires
            self.wf(),
            index < self.frames.len(),
        ensures
            cells.len() == cell_count(self.frames[index as int].width as int, self.frames[index as int].height as int),
            forall|k: int| 0 <= k < cells.len() ==> (#[trigger] cells[k]).is_cell_of(&self.frames[index as int], k),
    {
        render_frame(&self.frames[index])
    }
}

} // verus!
