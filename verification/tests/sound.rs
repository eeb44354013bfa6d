use gbcore::sound::{NoiseChannel, SoundController, ToneSweepChannel, WaveChannel};

#[test]
fn tone_sweep_overflow_disables_voice() {
    let mut voice = ToneSweepChannel::new();
    voice.write_nrx2(0xf0);
    voice.write_nrx0(0x11);
    voice.write_nrx3(0xfd);
    voice.write_nrx4(0x87);
    assert_eq!(voice.frequency, 0x7fd);
    voice.tick_sweep_counter();
    assert!(!voice.enabled);
}

#[test]
fn tone_sweep_moves_frequency() {
    let mut voice = ToneSweepChannel::new();
    voice.write_nrx2(0xf0);
    voice.write_nrx0(0x11);
    voice.write_nrx3(0x00);
    voice.write_nrx4(0x81);
    assert!(voice.enabled);
    assert_eq!(voice.frequency, 0x100);
    assert_eq!(voice.next_sweep_frequency(), 0x180);
    voice.tick_sweep_counter();
    assert!(voice.enabled);
    assert_eq!(voice.frequency, 0x180);
    assert_eq!(voice.timer, (2048 - 0x180) * 4);
    // sweeping down
    voice.write_nrx0(0x19);
    voice.tick_sweep_counter();
    assert_eq!(voice.frequency, 0x0c0);
}

#[test]
fn tone_period_and_duty() {
    let mut voice = ToneSweepChannel::new();
    voice.write_nrx2(0xa0);
    voice.write_nrx1(0x80);
    voice.write_nrx3(0xff);
    voice.write_nrx4(0x87);
    assert_eq!(voice.timer, 4);
    assert_eq!(voice.waveform, [1, 0, 0, 0, 0, 1, 1, 1]);
    assert_eq!(voice.volume, 10);
    let mut outputs = vec![];
    for _ in 0..8 {
        for _ in 0..4 {
            voice.execute_cycle();
        }
        outputs.push(voice.output);
    }
    assert_eq!(outputs, vec![0, 0, 0, 0, 10, 10, 10, 10]);
}

#[test]
fn tone_register_read_back() {
    let mut voice = ToneSweepChannel::new();
    voice.write_nrx0(0x7f);
    assert_eq!(voice.read_nrx0(), 0xff);
    voice.write_nrx0(0x25);
    assert_eq!(voice.read_nrx0(), 0xa5);
    voice.write_nrx1(0x40);
    assert_eq!(voice.read_nrx1(), 0x7f);
    assert_eq!(voice.length_counter, 64);
    voice.write_nrx1(0xff);
    assert_eq!(voice.read_nrx1(), 0xff);
    assert_eq!(voice.length_counter, 1);
    voice.write_nrx2(0x5b);
    assert_eq!(voice.read_nrx2(), 0x5b);
    assert_eq!(voice.read_nrx3(), 0xff);
    assert_eq!(voice.read_nrx4(), 0xbf);
    voice.write_nrx4(0x40);
    assert_eq!(voice.read_nrx4(), 0xff);
}

#[test]
fn length_counter_silences_voice() {
    let mut voice = ToneSweepChannel::new();
    voice.write_nrx2(0xf0);
    voice.write_nrx1(0x3e);
    voice.write_nrx4(0xc0);
    assert!(voice.enabled);
    voice.tick_length_counter();
    assert!(voice.enabled);
    voice.tick_length_counter();
    assert!(!voice.enabled);
    voice.execute_cycle();
    assert_eq!(voice.output, 0);
}

#[test]
fn envelope_steps_and_clamps() {
    let mut voice = ToneSweepChannel::new();
    voice.write_nrx2(0xe9);
    voice.write_nrx4(0x80);
    assert_eq!(voice.volume, 14);
    voice.tick_envelope_counter();
    assert_eq!(voice.volume, 15);
    voice.tick_envelope_counter();
    assert_eq!(voice.volume, 15);
    voice.write_nrx2(0x12);
    voice.write_nrx4(0x80);
    assert_eq!(voice.volume, 1);
    voice.tick_envelope_counter();
    assert_eq!(voice.volume, 1);
    voice.tick_envelope_counter();
    assert_eq!(voice.volume, 0);
    voice.tick_envelope_counter();
    voice.tick_envelope_counter();
    assert_eq!(voice.volume, 0);
}

#[test]
fn switching_the_dac_off_silences_the_voice() {
    let mut voice = ToneSweepChannel::new();
    voice.write_nrx2(0xf0);
    voice.write_nrx4(0x80);
    assert!(voice.enabled);
    voice.write_nrx2(0x07);
    assert!(!voice.dac_enabled);
    assert!(!voice.enabled);
    voice.reset();
    assert_eq!(voice.timer, 8192);
    assert_eq!(voice.length_counter, 64);
}

#[test]
fn wave_voice_plays_wave_memory() {
    let mut voice = WaveChannel::new();
    for index in 0..16usize {
        voice.write_wave_ram(index, ((index as u8) << 4) | (15 - index as u8));
    }
    assert_eq!(voice.read_wave_ram(3), 0x3c);
    voice.write_nr30(0x80);
    voice.write_nr32(0x20);
    voice.write_nr33(0xff);
    voice.write_nr34(0x87);
    assert!(voice.enabled);
    assert_eq!(voice.timer, 2);
    assert_eq!(voice.output, 0);
    voice.execute_cycle();
    voice.execute_cycle();
    assert_eq!(voice.output, 15);
    voice.execute_cycle();
    voice.execute_cycle();
    assert_eq!(voice.output, 1);
    // half volume
    voice.write_nr32(0x40);
    voice.execute_cycle();
    voice.execute_cycle();
    assert_eq!(voice.output, 14 >> 1);
    // quarter volume
    voice.write_nr32(0x60);
    voice.execute_cycle();
    voice.execute_cycle();
    assert_eq!(voice.output, 2 >> 2);
    // muted
    voice.write_nr32(0x00);
    voice.execute_cycle();
    assert_eq!(voice.output, 0);
}

#[test]
fn wave_registers() {
    let mut voice = WaveChannel::new();
    assert_eq!(voice.read_nr30(), 0x7f);
    voice.write_nr30(0x80);
    assert_eq!(voice.read_nr30(), 0xff);
    assert_eq!(voice.read_nr31(), 0xff);
    voice.write_nr31(0xff);
    assert_eq!(voice.length_counter, 1);
    voice.write_nr32(0x40);
    assert_eq!(voice.read_nr32(), 0xdf);
    assert_eq!(voice.read_nr33(), 0xff);
    assert_eq!(voice.read_nr34(), 0xbf);
    voice.write_nr34(0xc0);
    assert_eq!(voice.read_nr34(), 0xff);
    assert!(voice.enabled);
    voice.tick_length_counter();
    assert!(!voice.enabled);
    voice.write_wave_ram(0, 0xab);
    voice.reset();
    assert_eq!(voice.read_wave_ram(0), 0xab);
    assert_eq!(voice.timer, 4096);
}

#[test]
fn noise_shift_register_steps() {
    let mut voice = NoiseChannel::new();
    voice.write_nr42(0xf0);
    voice.write_nr43(0x00);
    assert_eq!(voice.timer, 8);
    voice.write_nr44(0x80);
    assert_eq!(voice.lfsr, 0xffff);
    for _ in 0..8 {
        voice.execute_cycle();
    }
    // 0xffff: the two low bits agree, so zero is fed in
    assert_eq!(voice.lfsr, 0x7fff);
    assert_eq!(voice.output, 0);
    for _ in 0..8 * 14 {
        voice.execute_cycle();
    }
    assert_eq!(voice.lfsr, 0x0001);
    for _ in 0..8 {
        voice.execute_cycle();
    }
    // bits 0 and 1 differ: feedback 1 enters at bit 14
    assert_eq!(voice.lfsr, 0x4000);
    assert_eq!(voice.output, 15);
}

#[test]
fn noise_short_mode_feeds_bit_six() {
    let mut voice = NoiseChannel::new();
    voice.write_nr42(0xf0);
    voice.write_nr43(0x08);
    voice.write_nr44(0x80);
    voice.lfsr = 0x0001;
    for _ in 0..8 {
        voice.execute_cycle();
    }
    assert_eq!(voice.lfsr, 0x4040);
}

#[test]
fn noise_registers_and_period() {
    let mut voice = NoiseChannel::new();
    voice.write_nr43(0x35);
    assert_eq!(voice.read_nr43(), 0x35);
    assert_eq!(voice.timer, (5 * 16) << 3);
    voice.write_nr43(0x3d);
    assert_eq!(voice.read_nr43(), 0x3d);
    voice.write_nr42(0x4a);
    assert_eq!(voice.read_nr42(), 0x4a);
    assert_eq!(voice.read_nr41(), 0xff);
    voice.write_nr41(0x3f);
    assert_eq!(voice.length_counter, 1);
    assert_eq!(voice.read_nr44(), 0xbf);
    voice.write_nr44(0xc0);
    assert_eq!(voice.read_nr44(), 0xff);
    assert!(voice.enabled);
    voice.tick_length_counter();
    assert!(!voice.enabled);
    voice.write_nr44(0x80);
    voice.tick_envelope_counter();
    voice.tick_envelope_counter();
    assert_eq!(voice.volume, 5);
    voice.reset();
    assert_eq!(voice.lfsr, 0xffff);
    assert_eq!(voice.timer, 8);
}

#[test]
fn writes_are_ignored_while_the_unit_is_off() {
    let mut sound = SoundController::new();
    sound.write(0xff12, 0xf0);
    sound.write(0xff24, 0x77);
    sound.write(0xff25, 0xff);
    assert_eq!(sound.read(0xff12), 0x00);
    assert_eq!(sound.read(0xff24), 0x00);
    assert_eq!(sound.read(0xff25), 0x00);
    assert_eq!(sound.read(0xff26), 0x70);
    // wave memory takes writes at any time
    sound.write(0xff30, 0x12);
    assert_eq!(sound.read(0xff30), 0x12);
    sound.write(0xff26, 0x80);
    sound.write(0xff12, 0xf0);
    sound.write(0xff24, 0x77);
    sound.write(0xff25, 0xff);
    assert_eq!(sound.read(0xff12), 0xf0);
    assert_eq!(sound.read(0xff24), 0x77);
    assert_eq!(sound.read(0xff25), 0xff);
    assert_eq!(sound.read(0xff26), 0xf0);
    sound.write(0xff14, 0x80);
    assert_eq!(sound.read(0xff26), 0xf1);
    // switching the unit off clears the registers but not wave memory
    sound.write(0xff26, 0x00);
    assert_eq!(sound.read(0xff12), 0x00);
    assert_eq!(sound.read(0xff24), 0x00);
    assert_eq!(sound.read(0xff25), 0x00);
    assert_eq!(sound.read(0xff26), 0x70);
    assert_eq!(sound.read(0xff30), 0x12);
    assert_eq!(sound.read(0xff15), 0xff);
    assert_eq!(sound.read(0xff27), 0xff);
}

#[test]
fn mixer_routes_and_scales() {
    let mut sound = SoundController::new();
    sound.write(0xff26, 0x80);
    sound.tone_sweep_channel.output = 3;
    sound.tone_channel.output = 5;
    sound.wave_channel.output = 7;
    sound.noise_channel.output = 11;
    // left: noise and tone; right: wave and tone with sweep
    sound.write(0xff25, 0xa5);
    sound.write(0xff24, 0x73);
    sound.master_enable = false;
    sound.execute_cycle();
    assert_eq!(sound.output_buffer[0], (11 + 5) * 7);
    assert_eq!(sound.output_buffer[1], (7 + 3) * 3);
    assert_eq!(sound.buffer_insert_index, 2);
    assert_eq!(sound.buffer_size, 2);
    for _ in 0..44 {
        sound.execute_cycle();
    }
    assert_eq!(sound.buffer_size, 2);
    sound.execute_cycle();
    assert_eq!(sound.buffer_size, 4);
}

#[test]
fn samples_are_handed_out_in_batches() {
    let mut sound = SoundController::new();
    assert!(sound.queue_audio(0).is_none());
    sound.write(0xff26, 0x80);
    sound.write(0xff25, 0x88);
    sound.write(0xff24, 0x11);
    for i in 0..256u32 {
        sound.noise_channel.enabled = false;
        sound.master_enable = false;
        sound.noise_channel.output = (i % 16) as u8;
        for _ in 0..45 {
            sound.execute_cycle();
        }
    }
    assert_eq!(sound.buffer_size, 512);
    assert!(!sound.buffer_full());
    // the host's queue is long enough: nothing is handed out
    assert!(sound.queue_audio(8 * 4096 * 3).is_none());
    let batch = match sound.queue_audio(8 * 4096 * 3 - 1) {
        Some(batch) => batch,
        None => panic!("no batch"),
    };
    assert_eq!(batch.len(), 512);
    for i in 0..256usize {
        assert_eq!(batch[2 * i], (i % 16) as u16);
        assert_eq!(batch[2 * i + 1], (i % 16) as u16);
    }
    assert_eq!(sound.buffer_size, 0);
    assert_eq!(sound.buffer_remove_index, 512);
    assert!(sound.queue_audio(0).is_none());
}

#[test]
fn buffer_fills_after_2048_samples() {
    let mut sound = SoundController::new();
    for _ in 0..2048 * 45 - 44 {
        sound.execute_cycle();
    }
    assert!(sound.buffer_full());
    assert_eq!(sound.buffer_insert_index, 0);
}

#[test]
fn frame_sequencer_steps() {
    let mut sound = SoundController::new();
    sound.write(0xff26, 0x80);
    // voice 1: length 2, counter mode, envelope period 1 going down from 15,
    // sweep period 1 shift 1
    sound.write(0xff10, 0x11);
    sound.write(0xff11, 0x3e);
    sound.write(0xff12, 0xf1);
    sound.write(0xff13, 0x00);
    sound.write(0xff14, 0xc1);
    assert_eq!(sound.read(0xff26) & 0x01, 0x01);
    // step 1: nothing
    sound.tick_frame_sequencer();
    assert_eq!(sound.tone_sweep_channel.length_counter, 2);
    // step 2: length and sweep
    sound.tick_frame_sequencer();
    assert_eq!(sound.tone_sweep_channel.length_counter, 1);
    assert_eq!(sound.tone_sweep_channel.frequency, 0x180);
    // step 3: nothing; step 4: length runs out
    sound.tick_frame_sequencer();
    sound.tick_frame_sequencer();
    assert_eq!(sound.tone_sweep_channel.length_counter, 0);
    assert_eq!(sound.read(0xff26) & 0x01, 0x00);
    assert_eq!(sound.tone_sweep_channel.frequency, 0x180);
    // steps 5, 6 (sweep), 7 (envelope)
    sound.tick_frame_sequencer();
    sound.tick_frame_sequencer();
    assert_eq!(sound.tone_sweep_channel.frequency, 0x240);
    assert_eq!(sound.tone_sweep_channel.volume, 15);
    sound.tick_frame_sequencer();
    assert_eq!(sound.tone_sweep_channel.volume, 14);
    assert_eq!(sound.frame_sequence_count, 7);
    sound.tick_frame_sequencer();
    assert_eq!(sound.frame_sequence_count, 0);
}
