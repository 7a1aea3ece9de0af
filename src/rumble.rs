use vstd::prelude::*;

verus! {

/// Most an encoded high-frequency amplitude may be.
pub const HF_AMP_MAX: u16 = 0x01FC;

/// Most an encoded low-frequency amplitude may be.
pub const LF_AMP_MAX: u8 = 0x7F;

/// High-frequency part of an encoded frequency: four steps per unit above
/// 0x60, and nothing below.
pub open spec fn hf_freq_spec(encoded_frequency: u8) -> u16 {
    ((if encoded_frequency >= 0x60 { encoded_frequency - 0x60 } else { 0 }) * 4) as u16
}

/// Low-frequency part of an encoded frequency: its excess over 0x41, plus
/// one.
pub open spec fn lf_freq_spec(encoded_frequency: u8) -> u8 {
    ((if encoded_frequency >= 0x41 { encoded_frequency - 0x41 } else { 0 }) + 1) as u8
}

/// High-frequency amplitude: twice the encoded amplitude, capped.
pub open spec fn hf_amp_spec(encoded_amplitude: u8) -> u16 {
    if encoded_amplitude as int * 2 > HF_AMP_MAX {
        HF_AMP_MAX
    } else {
        (encoded_amplitude * 2) as u16
    }
}

/// Low-frequency amplitude: half the encoded amplitude above 0x40, capped.
pub open spec fn lf_amp_spec(encoded_amplitude: u8) -> u8 {
    if encoded_amplitude / 2 + 64 > LF_AMP_MAX {
        LF_AMP_MAX
    } else {
        (encoded_amplitude / 2 + 64) as u8
    }
}

/// The four rumble bytes of one side: the HF frequency's low byte, the HF
/// amplitude plus the HF frequency's high byte, the LF frequency plus the LF
/// amplitude's high byte (saturated), and the LF amplitude.
pub open spec fn rumble_bytes_spec(encoded_frequency: u8, encoded_amplitude: u8) -> Seq<u8> {
    let hf_freq = hf_freq_spec(encoded_frequency);
    let hf_amp = hf_amp_spec(encoded_amplitude);
    let lf_freq = lf_freq_spec(encoded_frequency);
    let lf_amp = lf_amp_spec(encoded_amplitude);
    seq![
        (hf_freq % 256) as u8,
        ((hf_amp + hf_freq / 256) % 256) as u8,
        if lf_freq as int + lf_amp as int / 256 > 255 {
            255u8
        } else {
            (lf_freq as int + lf_amp as int / 256) as u8
        },
        lf_amp,
    ]
}

/// Packs an encoded frequency and amplitude into the rumble bytes of one
/// side. The two inputs are the rounded, log-scaled values of the physical
/// frequency and amplitude.
pub fn rumble_bytes(encoded_frequency: u8, encoded_amplitude: u8) -> (r: [u8; 4])
    ensures
        r@ == rumble_bytes_spec(encoded_frequency, encoded_amplitude),
{
    let hf_freq: u16 = (encoded_frequency as u16).saturating_sub(0x60) * 4;
    let lf_freq: u8 = encoded_frequency.saturating_sub(0x41) + 1;
    let hf_amp: u16 = {
        let doubled: u16 = encoded_amplitude as u16 * 2;
        if doubled > HF_AMP_MAX {
            HF_AMP_MAX
        } else {
            doubled
        }
    };
    let lf_amp: u8 = {
        let halved = encoded_amplitude / 2 + 64;
        if halved > LF_AMP_MAX {
            LF_AMP_MAX
        } else {
            halved
        }
    };
    let b0 = (hf_freq % 256) as u8;
    let b1 = ((hf_amp + hf_freq / 256) % 256) as u8;
    let b2 = lf_freq.saturating_add(((lf_amp as u16) / 256) as u8);
    let r = [b0, b1, b2, lf_amp];
    assert(r@ =~= rumble_bytes_spec(encoded_frequency, encoded_amplitude));
    r
}

/// Whatever the encoded values, the HF amplitude stays at most 0x01FC and
/// the LF amplitude byte at most 0x7F.
pub proof fn lemma_rumble_saturation(encoded_frequency: u8, encoded_amplitude: u8)
    ensures
        hf_amp_spec(encoded_amplitude) <= HF_AMP_MAX,
        lf_amp_spec(encoded_amplitude) <= LF_AMP_MAX,
        rumble_bytes_spec(encoded_frequency, encoded_amplitude)[3] <= LF_AMP_MAX,
        rumble_bytes_spec(encoded_frequency, encoded_amplitude).len() == 4,
{
}

} // verus!
