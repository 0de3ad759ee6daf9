use vstd::prelude::*;

use crate::error::{decimal, push_decimal, NyxError, NyxResult};

verus! {

/// Integer PCM sample widths that the WAV parser reads.
#[derive(Clone, Copy, Debug, PartialEq, Eq, Structural)]
pub enum SampleWidth {
    /// 16-bit samples, scaled by `i16::MAX`.
    Bits16,
    /// 32-bit samples, scaled by `i32::MAX`.
    Bits32,
}

/// Message of the error returned for a sample width the parser does not read.
pub open spec fn unsupported_width_message(bits_per_sample: nat) -> Seq<char> {
    "Unsupported bits per sample: "@ + decimal(bits_per_sample)
}

/// The sample width of a WAV stream with `bits_per_sample` bits per sample: 16 and 32 are
/// read, every other width is refused.
pub fn sample_width(bits_per_sample: u16) -> (r: NyxResult<SampleWidth>)
    ensures
        bits_per_sample == 16 ==> r == Ok::<SampleWidth, NyxError>(SampleWidth::Bits16),
        bits_per_sample == 32 ==> r == Ok::<SampleWidth, NyxError>(SampleWidth::Bits32),
        bits_per_sample != 16 && bits_per_sample != 32 ==> (r matches Err(e) && e matches NyxError::ParseError(
            msg,
        ) && msg@ == unsupported_width_message(bits_per_sample as nat)),
{
    match bits_per_sample {
        32 => Ok(SampleWidth::Bits32),
        16 => Ok(SampleWidth::Bits16),
        _ => {
            let mut m = "Unsupported bits per sample: ".to_owned();
            push_decimal(&mut m, bits_per_sample as usize);
            Err(NyxError::ParseError(m))
        },
    }
}

} // verus!
