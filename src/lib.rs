pub mod audio_buffer;
pub mod delay_line;
pub mod frame;
pub mod freeverb;
pub mod pcm;
pub mod process;

pub use audio_buffer::AudioBuffer;
pub use delay_line::DelayLine;
pub use frame::{Frame, Mono, Stereo};
pub use freeverb::FreeverbMode;
pub use pcm::{PCM, U24};
pub use process::{AudioNode, Prepare, Process};
