//! The audio channels and their shared frame sequencer.

use protones::apu::Apu;
use protones::apu_noise::ApuNoise;
use protones::apu_pulse::{length_table, ApuPulse};
use protones::apu_triangle::ApuTriangle;
use protones::bus::Bus;
use protones::cartridge::Cartridge;
use protones::mapper::Mapper;

fn bus() -> Bus {
    let mut data = vec![0x4e, 0x45, 0x53, 0x1a, 1, 1, 0, 0];
    data.extend_from_slice(&[0u8; 8]);
    data.extend(std::iter::repeat(0x55u8).take(16384));
    data.extend(std::iter::repeat(0u8).take(8192));
    Bus::new(Mapper::new(Cartridge::from_reader(&data).unwrap()).unwrap())
}

#[test]
fn length_table_values() {
    assert_eq!(length_table(0), 10);
    assert_eq!(length_table(1), 254);
    assert_eq!(length_table(24), 192);
    assert_eq!(length_table(31), 30);
}

#[test]
fn disabling_a_pulse_channel_zeroes_its_length_counter() {
    let mut p = ApuPulse::new(0);
    // A control value with bit 5 set halts the length counter.
    p.set_control(0x30);
    p.set_enabled(true);
    p.set_timer_high(0x08);  // loads length_table(1) == 254
    assert!(p.active());
    p.set_enabled(false);
    assert!(!p.active());
}

#[test]
fn pulse_disable_through_the_register_file() {
    let mut apu = Apu::new();
    apu.write(0x4015, 0x01);  // enable pulse 0
    apu.write(0x4000, 0x30);  // bit 5 set: halt the length counter
    apu.write(0x4003, 0x08);  // load the length counter
    assert_eq!(apu.read(0x4015) & 0x01, 0x01);
    apu.write(0x4015, 0x00);  // disable: the counter clears at once
    assert_eq!(apu.read(0x4015) & 0x01, 0x00);
}

#[test]
fn pulse_envelope_decays() {
    let mut p = ApuPulse::new(0);
    p.set_control(0x00);  // envelope enabled, period 0
    p.step_envelope();  // start: volume 15
    assert_eq!(p.envelope_volume, 15);
    p.step_envelope();
    assert_eq!(p.envelope_volume, 14);
    for _ in 0..20 {
        p.step_envelope();
    }
    assert_eq!(p.envelope_volume, 0);
}

#[test]
fn pulse_output_needs_everything_lined_up() {
    let mut p = ApuPulse::new(0);
    p.set_enabled(true);
    p.set_control(0x7F);  // duty 1, constant volume 15
    p.set_timer_low(0x40);  // period 0x40: in playable range
    p.set_timer_high(0x08);
    // Walk the duty wave one step: position 1 of duty 1 is high.
    p.step_timer();
    assert_eq!(p.internal_output(), 15);
    // A period below 8 mutes the channel.
    p.set_timer_low(0x05);
    p.set_timer_high(0x00);
    p.step_timer();
    assert_eq!(p.internal_output(), 0);
}

#[test]
fn triangle_steps_through_its_wave() {
    let mut t = ApuTriangle::new();
    t.set_enabled(true);
    t.set_control(0x7F);  // linear counter period 127
    t.set_timer_low(0x01);  // a short period: the wave steps every other tick
    t.set_timer_high(0x08);
    t.step_counter();  // linear counter reloads
    // First outputs walk down from 15.
    let mut seen = Vec::new();
    for _ in 0..4 {
        t.step_timer();
        t.step_timer();
        seen.push(t.internal_output());
    }
    assert_eq!(seen, vec![14, 13, 12, 11]);
}

#[test]
fn noise_shift_register_advances() {
    let mut n = ApuNoise::new();
    n.set_enabled(true);
    n.set_control(0x10);  // constant volume 0... envelope disabled
    n.set_period(0x00);
    n.set_length(0x08);
    assert_eq!(n.shift_register, 1);
    n.step_timer();
    // Bit 0 (1) xor bit 1 (0) feeds the top: 1 << 14.
    assert_eq!(n.shift_register, 0x4000);
}

#[test]
fn frame_sequencer_clocks_lengths_every_other_step() {
    let mut apu = Apu::new();
    let mut b = bus();
    apu.write(0x4015, 0x01);
    apu.write(0x4000, 0x00);  // length counter running
    apu.write(0x4003, 0x18);  // length_table(3) == 2
    // Step the sequencer through its 240 Hz boundaries: each boundary is
    // one whole CPU-clock worth of accumulator, 1789773 / 240 cycles.
    let mut boundaries = 0;
    let mut emulates = 0u32;
    while boundaries < 4 && emulates < 40000 {
        let before = apu.frame_value;
        apu.emulate(&mut b);
        emulates += 1;
        if apu.frame_value != before {
            boundaries += 1;
        }
    }
    assert_eq!(boundaries, 4);
    // Two of the four steps clocked the length counter (value 2 is spent).
    assert_eq!(apu.read(0x4015) & 0x01, 0x00);
}

#[test]
fn dmc_reads_sample_bytes_and_stalls_the_processor() {
    let mut apu = Apu::new();
    let mut b = bus();
    apu.write(0x4012, 0x00);  // sample address 0xC000
    apu.write(0x4013, 0x00);  // sample length 1
    apu.write(0x4010, 0x0F);  // fastest rate
    apu.write(0x4015, 0x10);  // enable: restarts the cursor
    assert_eq!(apu.read(0x4015) & 0x10, 0x10);
    let stall_before = b.stall_cycles;
    // The channel timers step on every second cycle; two calls make sure
    // one fetch happened.
    apu.emulate(&mut b);
    apu.emulate(&mut b);
    assert_eq!(b.stall_cycles, stall_before + 4);
    // The fetched byte (0x55) went through one shifter step: its low bit
    // nudged the level up by two and left seven bits pending.
    assert_eq!(apu.dmc.shift_register, 0x2A);
    assert_eq!(apu.dmc.bit_count, 7);
    assert_eq!(apu.dmc.value, 2);
    // One byte was all there was, and looping is off.
    assert!(!apu.dmc.active());
}

#[test]
fn samples_arrive_at_the_output_rate() {
    let mut apu = Apu::new();
    let mut b = bus();
    let mut samples = 0;
    for _ in 0..1789773 {
        if apu.emulate(&mut b).is_some() {
            samples += 1;
        }
    }
    // One second of processor cycles: exactly the output rate.
    assert_eq!(samples, 48000);
}
