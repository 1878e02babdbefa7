use vstd::prelude::*;

verus! {

/// The direction of a sound device, or of the devices a list asks for.
#[derive(Clone, Copy, Debug, PartialEq, Eq, Structural)]
pub enum PcmDirection {
    Playback,
    Capture,
}

/// Where local sound comes from and goes to, and how playback has fared. The sound
/// devices themselves are opened by the program around the library.
pub struct Audio {
    pub remote_input: bool,
    pub local_input: bool,
    pub input_device: String,
    pub period_size: i64,
    pub remote_output: bool,
    pub local_output: bool,
    pub output_device: String,
    pub output_underruns: i32,
}

/// What `Audio::init` asks to be opened.
#[derive(Clone, Copy, Debug, PartialEq, Eq, Structural)]
pub struct AudioOpen {
    pub input: bool,
    pub output: bool,
}

impl Audio {
    /// Sound from and to the radio, not local devices; the devices named "default".
    pub fn new() -> (a: Audio)
        ensures
            a.remote_input,
            !a.local_input,
            a.input_device@ == "default"@,
            a.period_size == 0,
            a.remote_output,
            !a.local_output,
            a.output_device@ == "default"@,
            a.output_underruns == 0,
    {
        Audio {
            remote_input: true,
            local_input: false,
            input_device: String::from_str("default"),
            period_size: 0,
            remote_output: true,
            local_output: false,
            output_device: String::from_str("default"),
            output_underruns: 0,
        }
    }

    /// Starts over with no device open and no underrun counted; says which local
    /// devices are to be opened: those in use.
    pub fn init(&mut self) -> (open: AudioOpen)
        ensures
            open == (AudioOpen { input: old(self).local_input, output: old(self).local_output }),
            *final(self) == (Audio { output_underruns: 0, ..*old(self) }),
    {
        self.output_underruns = 0;
        AudioOpen { input: self.local_input, output: self.local_output }
    }

    /// Counts a write to the output device that failed; the device is then prepared
    /// again.
    pub fn note_underrun(&mut self)
        requires
            old(self).output_underruns < i32::MAX,
        ensures
            final(self).output_underruns == old(self).output_underruns + 1,
            *final(self) == (Audio { output_underruns: final(self).output_underruns, ..*old(self) }),
    {
        self.output_underruns = self.output_underruns + 1;
    }
}

/// How many samples of a buffer of `len` to write when the output device already
/// holds `delay` samples: everything, unless that is more than three buffers, in which
/// case the excess is cut from the end of this buffer.
pub open spec fn output_count(delay: int, len: int) -> int {
    if delay > 3 * len {
        len - (delay - 3 * len)
    } else {
        len
    }
}

/// The number of samples, from the front of a buffer of `len`, to write to an output
/// device that holds `delay` samples not yet played; nothing is written when it is 0.
pub fn output_frames(delay: i64, len: usize) -> (n: usize)
    requires
        3 * len <= i64::MAX,
        delay <= 4 * len,
    ensures
        n == output_count(delay as int, len as int),
        n <= len,
{
    let max_delay: i64 = 3 * (len as i64);
    if delay > max_delay {
        let trim = (delay - max_delay) as usize;
        len - trim
    } else {
        len
    }
}

/// Whether a device hint goes into the list of devices for `wanted`: it has a name and
/// a description, and either no direction or that one.
pub fn pcm_hint_listed(
    has_name: bool,
    has_description: bool,
    direction: Option<PcmDirection>,
    wanted: PcmDirection,
) -> (listed: bool)
    ensures
        listed == (has_name && has_description && (direction is None || direction == Some(
            wanted,
        ))),
{
    has_name && has_description && match direction {
        None => true,
        Some(d) => d == wanted,
    }
}

} // verus!
