use vstd::prelude::*;

verus! {

/// Length of audio frame and length of sample/subframe
#[derive(Copy, Clone, Debug, PartialEq, Eq, Structural)]
pub enum AudioFrameFormat {
    /// 32 bit frame, 16 bit samples
    F32S16,
    /// 64 bit frame, 16 bit samples
    F64S16,
    /// 64 bit frame, 24 bit samples
    F64S24,
    /// 64 bit frame, 32 bit samples
    F64S32,
}

impl AudioFrameFormat {
    /// Value of the MODE16 bit.
    pub fn mode16(self) -> (r: bool)
        ensures
            r == (self == AudioFrameFormat::F64S16 || self == AudioFrameFormat::F64S24),
    {
        match self {
            AudioFrameFormat::F32S16 => false,
            AudioFrameFormat::F64S16 => true,
            AudioFrameFormat::F64S24 => true,
            AudioFrameFormat::F64S32 => false,
        }
    }

    /// Value of the MODE32 bit.
    pub fn mode32(self) -> (r: bool)
        ensures
            r == (self == AudioFrameFormat::F64S24 || self == AudioFrameFormat::F64S32),
    {
        match self {
            AudioFrameFormat::F32S16 => false,
            AudioFrameFormat::F64S16 => false,
            AudioFrameFormat::F64S24 => true,
            AudioFrameFormat::F64S32 => true,
        }
    }
}

} // verus!
