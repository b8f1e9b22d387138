use rgy::apu::envelope::Envelope;
use rgy::apu::mixer::Mixer as ApuMixer;
use rgy::apu::Apu;

#[test]
fn registers_need_power() {
    let mut apu = Apu::new();
    apu.write_ctrl(0x77);
    assert_eq!(apu.read_ctrl(), 0x00);
    apu.write_enable(0x80);
    apu.write_ctrl(0x77);
    assert_eq!(apu.read_ctrl(), 0x77);
    apu.write_so_mask(0xf3);
    assert_eq!(apu.read_so_mask(), 0xf3);
}

#[test]
fn power_off_clears_mixer() {
    let mut apu = Apu::new();
    apu.write_enable(0x80);
    apu.write_ctrl(0x77);
    apu.write_enable(0x00);
    assert_eq!(apu.read_ctrl(), 0x00);
    assert_eq!(apu.read_so_mask(), 0x00);
    assert_eq!(apu.read_enable() & 0x80, 0x00);
}

#[test]
fn nr52_reports_power_and_fixed_bits() {
    let mut apu = Apu::new();
    assert_eq!(apu.read_enable(), 0x70);
    apu.write_enable(0x80);
    assert_eq!(apu.read_enable(), 0xf0);
}

#[test]
fn triggered_square_channel_is_active() {
    let mut apu = Apu::new();
    apu.write_enable(0x80);
    apu.write_tone_envelop(1, 0xf0);
    apu.write_tone_freq_high(1, 0x80);
    assert_eq!(apu.read_enable() & 0x0f, 0x02);
    apu.step(4, 0);
    assert_eq!(apu.read_enable() & 0x0f, 0x02);
}

#[test]
fn envelope_mode_change_sets_sixteen_minus_volume() {
    // Subtract mode with a non-zero period: the write adds two (zombie effect 1), then the
    // change to add mode sets 16 - volume (effect 2): 16 - (5 + 2) = 9.
    let mut e = Envelope::new();
    e.trigger(5, 1, false);
    e.reload(0, 1, true);
    assert_eq!(e.amp(), 9);

    // Add mode with a zero period: one step up, then no change of mode.
    let mut e = Envelope::new();
    e.trigger(5, 0, true);
    e.reload(0, 0, true);
    assert_eq!(e.amp(), 6);

    // A change of direction at volume zero stays within the volume range.
    let mut e = Envelope::new();
    e.trigger(0, 0, false);
    e.reload(0, 0, true);
    assert_eq!(e.amp(), 15);
}

#[test]
fn unrouted_channels_add_nothing() {
    let m = ApuMixer::new();
    let (l, r) = m.builder().tone1(isize::MIN).tone2(7).wave(-3).noise(isize::MAX).build();
    assert_eq!((l, r), (0, 0));
}
