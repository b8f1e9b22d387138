use rgy::sound::{Mixer, Noise, NoiseStream, Sound, Tone, ToneStream, Wave, WaveStream};

#[test]
fn writes_ignored_while_sound_is_off() {
    let mut s = Sound::new();
    s.write_tone_envelop(0, 0xf3);
    assert_eq!(s.read_tone_envelop(0), 0x00);
    s.write_enable(0x80);
    s.write_tone_envelop(0, 0xf3);
    assert_eq!(s.read_tone_envelop(0), 0xf3);
    assert_eq!(s.read_tone_envelop(1), 0x00);
}

#[test]
fn switching_off_clears_registers_but_not_wave_pattern() {
    let mut s = Sound::new();
    s.write_enable(0x80);
    s.write_tone_sweep(0x15);
    s.write_wave_buf(0xff30, 0xab);
    s.write_noise_envelop(0x80);
    s.write_ctrl(0x77);
    assert_eq!(s.read_ctrl(), 0x77);
    s.write_enable(0x00);
    assert_eq!(s.read_tone_sweep(), 0x80);
    assert_eq!(s.read_noise_envelop(), 0x00);
    assert_eq!(s.read_ctrl(), 0x00);
    assert_eq!(s.read_wave_buf(0xff30), 0xab);
    assert_eq!(s.read_enable(), 0x70);
}

#[test]
fn trigger_starts_channel_and_sets_status() {
    let mut s = Sound::new();
    s.write_enable(0x80);
    assert_eq!(s.read_enable(), 0xf0);
    s.write_tone_envelop(1, 0xf0);
    s.write_tone_freq_low(1, 0x00);
    s.write_tone_freq_high(1, 0x87);
    assert_eq!(s.read_enable(), 0xf2);
    s.write_noise_select(0x80);
    assert_eq!(s.read_enable(), 0xfa);
}

#[test]
fn register_reads_mask_write_only_bits() {
    let mut s = Sound::new();
    s.write_enable(0x80);
    s.write_tone_wave(0, 0x80);
    assert_eq!(s.read_tone_wave(0), 0xbf);
    assert_eq!(s.read_tone_freq_low(0), 0xff);
    s.write_wave_amp(0x40);
    assert_eq!(s.read_wave_amp(), 0xdf);
    s.write_wave_enable(0x80);
    assert_eq!(s.read_wave_enable(), 0xff);
    assert_eq!(s.read_noise_select(), 0xbf);
}

#[test]
fn mixer_volumes_follow_routing() {
    let mut m = Mixer::new();
    m.write_enable(0x80);
    m.write_ctrl(0x73);
    m.write_so_mask(0x21);
    assert_eq!(m.so1_volume, 7);
    assert_eq!(m.so2_volume, 3);
    // Channel 1 goes to SO1 only, channel 2 to SO2 only, channel 3 nowhere.
    assert_eq!(m.get_volume(0), 7);
    assert_eq!(m.get_volume(1), 3);
    assert_eq!(m.get_volume(2), 0);
    assert_eq!(m.read_so_mask(), 0x21);
}

#[test]
fn square_stream_follows_duty() {
    let mut t = Tone::new();
    t.write_envelop(0xf0);
    t.write_wave(0x80);
    // Frequency register 0x700: 131072 / (2048 - 1792) = 512 Hz.
    t.write_freq_high(0x07);
    let mut st = ToneStream::new(t, false);
    assert!(st.on());
    // At a rate of 4096 samples per second the index advances every sample.
    let mut out = Vec::new();
    for _ in 0..8 {
        out.push(st.next(4096));
    }
    // Duty 50%: positions 0 to 3 are low.
    assert_eq!(out, vec![0, 0, 0, 15, 15, 15, 15, 0]);
}

#[test]
fn wave_stream_plays_nibbles() {
    let mut w = Wave::new();
    w.write_enable(0x80);
    w.write_amp(0x20);
    w.write_wave_buf(0xff30, 0x9a);
    // 65536 / (2048 - 0) = 32 Hz times 32 samples: one sample per call at 1024.
    let mut st = WaveStream::new(w);
    assert_eq!(st.next(1024), 0xa);
    assert_eq!(st.next(1024), 0x0);
}

#[test]
fn noise_stream_silent_after_length_expires() {
    let mut n = Noise::new();
    n.write_envelop(0xf0);
    n.write_len(0x3f);
    assert_eq!(n.sound_len, 0x1f);
    n.write_select(0x40);
    let mut st = NoiseStream::new(n);
    // 64 - 31 = 33 steps of 256 Hz: at 8 samples per second one sample plays.
    st.next(8);
    assert!(st.on());
    assert_eq!(st.next(8), 0);
    assert!(!st.on());
}
