//! Audio stream configuration and the sizes and durations derived from it.

use vstd::prelude::*;

verus! {

/// Encoding of one PCM sample.
#[derive(Clone, Copy, Debug, PartialEq, Eq, Structural)]
pub enum SampleFormat {
    /// Signed 16-bit integer samples.
    S16,
    /// 32-bit floating-point samples.
    F32,
}

impl SampleFormat {
    /// Bytes taken by one sample of this format.
    pub open spec fn spec_size(self) -> nat {
        match self {
            SampleFormat::S16 => 2,
            SampleFormat::F32 => 4,
        }
    }

    /// Bytes taken by one sample of this format.
    pub fn size(self) -> (r: usize)
        ensures
            r == self.spec_size(),
    {
        match self {
            SampleFormat::S16 => 2,
            SampleFormat::F32 => 4,
        }
    }
}

/// Milliseconds that `count` frames last when played at `rate` frames per
/// second, rounded down; a rate of zero plays no time at all.
pub open spec fn frames_to_millis(count: nat, rate: nat) -> nat {
    if rate == 0 {
        0
    } else {
        (count * 1000) / rate
    }
}

/// Parameters of an audio stream. Both ends of a session must hold the same
/// values: nothing of it is exchanged on the wire.
#[derive(Clone, Copy, Debug)]
pub struct Config {
    pub channels: u8,
    pub sample_rate: u32,
    pub sample_format: SampleFormat,
    pub buffer_frames: usize,
    pub max_buffer_frames: usize,
}

impl Config {
    /// Bytes in one frame: one sample for each channel.
    pub open spec fn spec_frame_size(self) -> nat {
        self.channels as nat * self.sample_format.spec_size()
    }

    /// Bytes in one device buffer (the chunk a pump moves at once).
    pub open spec fn spec_buffer_size(self) -> nat {
        self.buffer_frames as nat * self.spec_frame_size()
    }

    /// Bytes in the largest device buffer.
    pub open spec fn spec_max_buffer_size(self) -> nat {
        self.max_buffer_frames as nat * self.spec_frame_size()
    }

    /// The configuration both binaries start from: stereo, 48 kHz, 16-bit,
    /// 20 ms buffers and up to 300 ms of buffered audio.
    pub open spec fn spec_standard() -> Config {
        Config {
            channels: 2,
            sample_rate: 48000,
            sample_format: SampleFormat::S16,
            buffer_frames: 960,
            max_buffer_frames: 14400,
        }
    }

    /// The standard configuration.
    pub fn standard() -> (c: Config)
        ensures
            c == Config::spec_standard(),
    {
        Config {
            channels: 2,
            sample_rate: 48000,
            sample_format: SampleFormat::S16,
            buffer_frames: 960,
            max_buffer_frames: 14400,
        }
    }

    /// Bytes in one frame.
    #[inline]
    pub fn frame_size(&self) -> (r: usize)
        ensures
            r == self.spec_frame_size(),
    {
        let s = self.sample_format.size();
        assert(self.channels as nat * s <= 255 * 4) by (nonlinear_arith)
            requires
                self.channels <= 255,
                s <= 4,
        ;
        (self.channels as usize) * s
    }

    /// Bytes in one device buffer.
    #[inline]
    pub fn buffer_size(&self) -> (r: usize)
        requires
            self.spec_buffer_size() <= usize::MAX,
        ensures
            r == self.spec_buffer_size(),
    {
        self.buffer_frames * self.frame_size()
    }

    /// Milliseconds that one device buffer lasts.
    #[inline]
    pub fn buffer_duration(&self) -> (r: u64)
        requires
            frames_to_millis(self.buffer_frames as nat, self.sample_rate as nat) <= u64::MAX,
        ensures
            r == frames_to_millis(self.buffer_frames as nat, self.sample_rate as nat),
    {
        self.frame_count_to_duration(self.buffer_frames)
    }

    /// Bytes in the largest device buffer.
    #[inline]
    pub fn max_buffer_size(&self) -> (r: usize)
        requires
            self.spec_max_buffer_size() <= usize::MAX,
        ensures
            r == self.spec_max_buffer_size(),
    {
        self.max_buffer_frames * self.frame_size()
    }

    /// Milliseconds that the largest device buffer lasts.
    #[inline]
    pub fn max_buffer_duration(&self) -> (r: u64)
        requires
            frames_to_millis(self.max_buffer_frames as nat, self.sample_rate as nat) <= u64::MAX,
        ensures
            r == frames_to_millis(self.max_buffer_frames as nat, self.sample_rate as nat),
    {
        self.frame_count_to_duration(self.max_buffer_frames)
    }

    /// Milliseconds that `count` frames last at this configuration's rate.
    fn frame_count_to_duration(&self, count: usize) -> (r: u64)
        requires
            frames_to_millis(count as nat, self.sample_rate as nat) <= u64::MAX,
        ensures
            r == frames_to_millis(count as nat, self.sample_rate as nat),
    {
        if self.sample_rate == 0 {
            0
        } else {
            let scaled: u128 = (count as u128) * 1000;
            let ms: u128 = scaled / (self.sample_rate as u128);
            ms as u64
        }
    }
}

/// Channel layouts the codec accepts.
#[derive(Clone, Copy, Debug, PartialEq, Eq, Structural)]
pub enum ChannelLayout {
    Mono,
    Stereo,
}

impl ChannelLayout {
    /// The layout of `channels` channels; the codec takes one or two.
    pub fn from_count(channels: u8) -> (r: Option<ChannelLayout>)
        ensures
            channels == 1 ==> r == Some(ChannelLayout::Mono),
            channels == 2 ==> r == Some(ChannelLayout::Stereo),
            channels != 1 && channels != 2 ==> r is None,
    {
        match channels {
            1 => Some(ChannelLayout::Mono),
            2 => Some(ChannelLayout::Stereo),
            _ => None,
        }
    }
}

} // verus!
