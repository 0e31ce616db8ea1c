use gba::apu::channels::noise::NoiseChannel;
use gba::apu::channels::square::SquareChannel;
use gba::apu::channels::wave::WaveChannel;
use gba::apu::direct_sound::DirectSound;
use gba::apu::mixer::mix_audio;
use gba::apu::registers::SoundRegisters;
use gba::apu::APU;

#[test]
fn test_noise_creation() {
    let ch = NoiseChannel::new();
    assert!(!ch.is_enabled());
    assert_eq!(ch.lfsr, 0x7FFF);
}

#[test]
fn noise_test_trigger() {
    let mut ch = NoiseChannel::new();
    ch.length_envelope = 0xA000;
    ch.write_byte(0x0400007D, 0x80);
    assert!(ch.is_enabled());
    assert_eq!(ch.envelope_volume, 10);
    assert_eq!(ch.lfsr, 0x7FFF);
}

#[test]
fn test_square_channel_creation() {
    let ch1 = SquareChannel::new(true);
    let ch2 = SquareChannel::new(false);
    assert!(ch1.has_sweep);
    assert!(!ch2.has_sweep);
    assert!(!ch1.is_enabled());
}

#[test]
fn square_test_trigger() {
    let mut ch = SquareChannel::new(false);
    ch.duty_envelope = 0xF000;
    ch.write_byte(0x04000065, 0x80);
    assert!(ch.is_enabled());
    assert_eq!(ch.envelope_volume, 15);
}

#[test]
fn test_duty_cycle() {
    let mut ch = SquareChannel::new(false);
    ch.duty_envelope = 0xA080;
    ch.trigger();
    ch.phase = 0;
    assert_eq!(ch.get_sample(), 10);
    ch.phase = 1;
    assert_eq!(ch.get_sample(), -10);
}

#[test]
fn test_wave_ram_access() {
    let mut ch = WaveChannel::new();
    for i in 0..16 {
        ch.write_wave_ram(0x04000090 + i, (i as u8) * 0x11);
    }
    for i in 0..16 {
        assert_eq!(ch.read_wave_ram(0x04000090 + i), (i as u8) * 0x11);
    }
}

#[test]
fn wave_test_trigger() {
    let mut ch = WaveChannel::new();
    ch.control = 0x0080;
    ch.write_byte(0x04000075, 0x80);
    assert!(ch.is_enabled());
}

#[test]
fn test_fifo_write_read() {
    let mut ds = DirectSound::new();
    ds.write_sample(10);
    ds.write_sample(20);
    ds.write_sample(30);
    ds.write_sample(40);
    assert_eq!(ds.read_sample(), 10);
    assert_eq!(ds.read_sample(), 20);
    assert_eq!(ds.read_sample(), 30);
    assert_eq!(ds.read_sample(), 40);
    assert_eq!(ds.read_sample(), 0);
}

#[test]
fn test_fifo_reset() {
    let mut ds = DirectSound::new();
    ds.write_sample(50);
    ds.reset_fifo();
    assert_eq!(ds.read_sample(), 0, "FIFO should be empty after reset");
}

#[test]
fn test_fifo_wraparound() {
    let mut ds = DirectSound::new();
    for i in 0..20 {
        ds.write_sample(i as i8);
    }
    for i in 0..10 {
        assert_eq!(ds.read_sample(), i as i8);
    }
    for i in 100..110 {
        ds.write_sample(i as i8);
    }
    assert!(ds.has_space());
}

#[test]
fn test_mixer_silence() {
    let mut ch1 = SquareChannel::new(true);
    let mut ch2 = SquareChannel::new(false);
    let mut ch3 = WaveChannel::new();
    let mut ch4 = NoiseChannel::new();
    let mut dsa = DirectSound::new();
    let mut dsb = DirectSound::new();
    let regs = SoundRegisters::new();
    let (left, right) = mix_audio(&mut ch1, &mut ch2, &mut ch3, &mut ch4, &mut dsa, &mut dsb, &regs);
    assert_eq!(left, 0);
    assert_eq!(right, 0);
}

#[test]
fn test_apu_creation() {
    let apu = APU::new();
    assert!(!apu.registers.is_master_enabled());
}

#[test]
fn mod_test_master_enable() {
    let mut apu = APU::new();
    apu.write_byte(0x04000084, 0x80);
    assert!(apu.registers.is_master_enabled());
    apu.write_byte(0x04000084, 0x00);
    let (left, right) = apu.generate_sample();
    assert_eq!(left, 0);
    assert_eq!(right, 0);
}

#[test]
fn test_register_routing() {
    let mut apu = APU::new();
    apu.write_halfword(0x04000062, 0xF800);
    assert_eq!(apu.read_halfword(0x04000062), 0xF800);
    apu.write_halfword(0x04000080, 0x1234);
    assert_eq!(apu.read_halfword(0x04000080), 0x1234);
}

#[test]
fn registers_test_master_enable() {
    let mut regs = SoundRegisters::new();
    assert!(!regs.is_master_enabled());
    regs.write_byte(0x04000084, 0x80);
    assert!(regs.is_master_enabled());
}

#[test]
fn test_channel_status() {
    let mut regs = SoundRegisters::new();
    regs.set_channel_status(0, true);
    assert_eq!(regs.soundcnt_x & 0x01, 0x01);
    regs.set_channel_status(0, false);
    assert_eq!(regs.soundcnt_x & 0x01, 0x00);
}

#[test]
fn test_gb_volume() {
    let mut regs = SoundRegisters::new();
    regs.soundcnt_l = 0x0077;
    let (left, right) = regs.get_gb_volume();
    assert_eq!(left, 7);
    assert_eq!(right, 7);
}

#[test]
fn apu_mix_direct_sound_and_square() {
    let mut apu = APU::new();
    apu.write_byte(0x04000084, 0x80);
    // Direct Sound A at full volume to both sides
    apu.registers.soundcnt_h = 0x0304;
    apu.write_fifo_a(5);
    let (left, right) = apu.generate_sample();
    assert_eq!(left, 5 * 4 * 8);
    assert_eq!(right, 5 * 4 * 8);
    // the FIFO is now empty
    let (left, right) = apu.generate_sample();
    assert_eq!((left, right), (0, 0));
}

#[test]
fn apu_mix_clamps_to_i16() {
    let mut ch1 = SquareChannel::new(true);
    let mut ch2 = SquareChannel::new(false);
    let mut ch3 = WaveChannel::new();
    let mut ch4 = NoiseChannel::new();
    let mut dsa = DirectSound::new();
    let mut dsb = DirectSound::new();
    let mut regs = SoundRegisters::new();
    regs.soundcnt_h = 0x330C;
    dsa.write_sample(127);
    dsb.write_sample(127);
    let (left, right) = mix_audio(&mut ch1, &mut ch2, &mut ch3, &mut ch4, &mut dsa, &mut dsb, &regs);
    assert_eq!(left, 127 * 4 * 8 * 2);
    assert_eq!(right, 127 * 4 * 8 * 2);
}

#[test]
fn apu_wave_sample_volume_codes() {
    let mut ch = WaveChannel::new();
    ch.write_wave_ram(0x04000090, 0xF0);
    ch.control = 0x0080;
    ch.write_byte(0x04000075, 0x80);
    ch.length_volume = 1 << 13; // 100 %
    assert_eq!(ch.get_sample(), 7);
    ch.sample_index = 1;
    assert_eq!(ch.get_sample(), -8);
    ch.length_volume = 2 << 13; // 50 %
    assert_eq!(ch.get_sample(), -4);
    ch.length_volume = 0; // mute
    assert_eq!(ch.get_sample(), 0);
    ch.sample_index = 0;
    assert_eq!(ch.get_sample(), 0);
}

#[test]
fn fifo_reads_back_31_samples_in_order() {
    let mut ds = DirectSound::new();
    for i in 0..31i8 {
        ds.write_sample(i * 3);
    }
    for i in 0..31i8 {
        assert_eq!(ds.read_sample(), i * 3);
    }
    assert_eq!(ds.read_sample(), 0);
}

#[test]
fn fifo_32nd_write_empties_the_ring() {
    let mut ds = DirectSound::new();
    for i in 0..32i8 {
        ds.write_sample(i + 1);
    }
    assert_eq!(ds.read_sample(), 0);
}
