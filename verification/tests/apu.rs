use tetanes_core::apu::divider::Divider;
use tetanes_core::apu::envelope::Envelope;
use tetanes_core::apu::{Apu, Channel};
use tetanes_core::common::{NesRegion, ResetKind};
use tetanes_core::apu::pulse::{OutputFreq, Pulse, PulseChannel};
use tetanes_core::apu::timer::Timer;

#[test]
fn divider() {
    let mut divider = Divider::new(1);
    let expected = [1; 5];
    assert_eq!(expected, [(); 5].map(|_| divider.clock()));

    let mut divider = Divider::new(2);
    let mut expected = [0; 5];
    expected[1] = 1;
    expected[3] = 1;
    assert_eq!(expected, [(); 5].map(|_| divider.clock()));

    let mut divider = Divider::new(3);
    let mut expected = [0; 6];
    expected[2] = 1;
    expected[5] = 1;
    assert_eq!(expected, [(); 6].map(|_| divider.clock()));

    let mut divider = Divider::new(4);
    let mut expected = [0; 8];
    expected[3] = 1;
    expected[7] = 1;
    assert_eq!(expected, [(); 8].map(|_| divider.clock()));

    let mut divider = Divider::new(5);
    let mut expected = [0; 10];
    expected[4] = 1;
    expected[9] = 1;
    assert_eq!(expected, [(); 10].map(|_| divider.clock()));
}

#[test]
fn writing_timer_hi_resets_the_duty_phase_but_not_the_divider() {
    let mut pulse = Pulse::new(PulseChannel::One, OutputFreq::Default);
    pulse.set_enabled(true);
    pulse.write_timer_lo(0x40);
    pulse.write_timer_hi(0x00);

    for _ in 0..100 {
        pulse.clock();
    }
    let divider = pulse.timer.counter;
    assert_ne!(pulse.duty_cycle, 0, "the sequencer has advanced");
    assert_ne!(divider, pulse.timer.period, "the divider is mid-count");

    pulse.write_timer_hi(0x00);
    assert_eq!(pulse.duty_cycle, 0, "the duty phase restarts");
    assert_eq!(
        pulse.timer.counter, divider,
        "but the divider keeps counting from where it was"
    );
}

#[test]
fn timer() {
    let mut timer = Timer::new(10);
    let mut expected = [false; 23];
    expected[0] = true;
    expected[11] = true;
    expected[22] = true;
    assert_eq!(expected, [(); 23].map(|_| timer.tick()));
    assert_eq!(23, timer.cycle);

    let mut timer = Timer::preload(10);
    let mut expected = [false; 22];
    expected[10] = true;
    expected[21] = true;
    assert_eq!(expected, [(); 22].map(|_| timer.tick()));
    assert_eq!(22, timer.cycle);

    let mut timer = Timer::new((10 * 2) + 1);
    let mut expected = [false; 45];
    expected[0] = true;
    expected[22] = true;
    expected[44] = true;
    assert_eq!(expected, [(); 45].map(|_| timer.tick()));
    assert_eq!(45, timer.cycle);

    let mut timer = Timer::preload((10 * 2) + 1);
    let mut expected = [false; 44];
    expected[21] = true;
    expected[43] = true;
    assert_eq!(expected, [(); 44].map(|_| timer.tick()));
    assert_eq!(44, timer.cycle);
}

#[test]
fn run_to_expires_on_the_same_cycles_as_tick() {
    for period in [0, 1, 2, 7, 21, 200, 2033, 4067] {
        for preload in [false, true] {
            let mut ticked = if preload {
                Timer::preload(period)
            } else {
                Timer::new(period)
            };
            let mut expiries = Vec::new();
            for _ in 0..10_000 {
                if ticked.tick() {
                    expiries.push(ticked.cycle);
                }
            }

            for span in [1, 2, 3, 17, 64, 10_000] {
                let mut run = if preload {
                    Timer::preload(period)
                } else {
                    Timer::new(period)
                };
                let mut actual = Vec::new();
                let mut target = 0;
                while target < 10_000 {
                    target = (target + span).min(10_000);
                    while run.run_to(target) {
                        actual.push(run.cycle);
                    }
                }
                assert_eq!(
                    actual, expiries,
                    "period {period}, preload {preload}, span {span}"
                );
                assert_eq!(run.cycle, ticked.cycle, "timer must end at the target");
                assert_eq!(
                    run.counter, ticked.counter,
                    "and mid-period at the same point"
                );
            }
        }
    }
}

#[test]
fn run_to_a_target_already_passed_does_nothing() {
    let mut timer = Timer::preload(20);
    for _ in 0..30 {
        timer.tick();
    }
    let (cycle, counter) = (timer.cycle, timer.counter);
    assert!(cycle > 0);

    for target in 0..cycle {
        assert!(!timer.run_to(target), "must not expire at {target}");
        assert_eq!(timer.cycle, cycle, "and must not move");
        assert_eq!(timer.counter, counter);
    }
}

#[test]
fn a_timer_reload_restarts_the_count_from_the_period() {
    let mut timer = Timer::new(5);
    timer.tick();
    timer.tick();
    timer.reload();
    assert_eq!(timer.counter, 5);
    assert_eq!(timer.period, 5);
}

#[test]
fn an_apu_register_write_reaches_only_its_channel() {
    let mut apu = Apu::new(NesRegion::Ntsc);
    apu.write_ctrl(Channel::Noise, 0x1F);
    assert!(apu.should_clock);
    assert!(apu.noise.envelope.constant_volume);
    assert!(!apu.pulse1.envelope.constant_volume);
    apu.write_timer_lo(Channel::Pulse2, 0x34);
    apu.write_timer_hi(Channel::Pulse2, 0x09);
    assert_eq!(apu.pulse2.real_period, 0x134);
    assert_eq!(apu.pulse2.length.counter, 254);
    assert_eq!(apu.pulse1.real_period, 0);
    apu.write_dmc_output(0xFF);
    assert_eq!(apu.dmc.output_level, 0x7F);
    apu.write_length(Channel::Dmc, 0x01);
    assert_eq!(apu.dmc.sample_length, 0x11);
    apu.write_status(0x10);
    assert_eq!(apu.dmc.bytes_remaining, 0x11);
    assert_eq!(apu.pulse2.length.counter, 0);
    assert_eq!(apu.peek_status(), 0x10);
}

#[test]
fn an_apu_reset_clears_the_channels_and_the_cycle_count() {
    let mut apu = Apu::new(NesRegion::Pal);
    apu.cpu_cycle = 1234;
    apu.write_dmc_addr(0x02);
    apu.write_timer_hi(Channel::Triangle, 0x08);
    apu.reset(ResetKind::Soft);
    assert_eq!(apu.cpu_cycle, 0);
    assert_eq!(apu.dmc.sample_addr, 0xC080);
    assert_eq!(apu.triangle.length.counter, 0);
    apu.reset(ResetKind::Hard);
    assert_eq!(apu.dmc.sample_addr, 0xC000);
    assert!(!apu.should_clock);
}

#[test]
fn an_envelope_clock_counts_one() {
    let mut e = Envelope::new();
    e.write_ctrl(0x03);
    e.restart();
    assert_eq!(e.clock(), 1);
    assert_eq!(e.counter, 15);
    assert_eq!(e.divider, 3);
    assert_eq!(e.clock(), 1);
    assert_eq!(e.divider, 2);
}

#[test]
fn channels_mute_unmute_and_toggle() {
    let mut apu = Apu::new(NesRegion::Ntsc);
    for c in [Channel::Pulse1, Channel::Pulse2, Channel::Triangle, Channel::Noise, Channel::Dmc, Channel::Mapper] {
        assert!(apu.channel_enabled(c));
    }
    apu.set_channel_enabled(Channel::Triangle, false);
    assert!(!apu.channel_enabled(Channel::Triangle));
    assert!(apu.triangle.force_silent);
    assert!(apu.channel_enabled(Channel::Noise));
    apu.toggle_channel(Channel::Triangle);
    assert!(apu.channel_enabled(Channel::Triangle));
    apu.toggle_channel(Channel::Mapper);
    assert!(!apu.mapper_enabled);
    apu.toggle_channel(Channel::Mapper);
    assert!(apu.channel_enabled(Channel::Mapper));
}

#[test]
fn a_new_region_retimes_the_frame_counter_noise_and_dmc() {
    let mut apu = Apu::new(NesRegion::Ntsc);
    apu.set_region(NesRegion::Pal);
    assert_eq!(apu.region, NesRegion::Pal);
    assert_eq!(apu.frame_counter.region, NesRegion::Pal);
    assert_eq!(apu.noise.region, NesRegion::Pal);
    assert_eq!(apu.dmc.region, NesRegion::Pal);
    let before = apu.dmc.timer.period;
    apu.set_region(NesRegion::Pal);
    assert_eq!(apu.dmc.timer.period, before);
}
