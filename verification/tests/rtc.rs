use gbcore::cartridge::Cartridge;
use gbcore::mbc::mbc3::{Rtc, SaveError};
use gbcore::mbc::{Mbc, MBC3};

fn rom() -> Vec<u8> {
    let mut rom = vec![0u8; 0x8000];
    for (i, e) in rom.iter_mut().enumerate() {
        *e = (i / 0x4000) as u8;
    }
    rom[0x147] = 0x10;
    rom[0x148] = 1;
    rom
}

fn fresh(battery: bool, rtc: bool) -> MBC3 {
    MBC3::restored(rom(), &[], battery, rtc, 0)
}

fn set_clock(mbc: &mut MBC3, days: u16, hours: u8, minutes: u8, seconds: u8) {
    mbc.write(0x0000, 0x0a);
    mbc.write(0x4000, 0x08);
    mbc.write(0xa000, seconds);
    mbc.write(0x4000, 0x09);
    mbc.write(0xa000, minutes);
    mbc.write(0x4000, 0x0a);
    mbc.write(0xa000, hours);
    mbc.write(0x4000, 0x0b);
    mbc.write(0xa000, days as u8);
    mbc.write(0x4000, 0x0c);
    mbc.write(0xa000, (days >> 8) as u8 & 0x01);
}

fn clock_register(mbc: &mut MBC3, select: u8) -> u8 {
    mbc.write(0x4000, select);
    mbc.read(0xa000)
}

#[test]
fn clock_rolls_over_after_512_days() {
    let mut mbc = fresh(true, true);
    set_clock(&mut mbc, 0x1ff, 23, 59, 59);
    mbc.update_rtc(2_000_000);
    assert_eq!(mbc.rtc.live_time.days, 0);
    assert_eq!(mbc.rtc.live_time.hours, 0);
    assert_eq!(mbc.rtc.live_time.minutes, 0);
    assert_eq!(mbc.rtc.live_time.seconds, 1);
    assert!(mbc.rtc.live_time.day_carry);
    assert_eq!(clock_register(&mut mbc, 0x08), 1);
    assert_eq!(clock_register(&mut mbc, 0x09), 0);
    assert_eq!(clock_register(&mut mbc, 0x0a), 0);
    assert_eq!(clock_register(&mut mbc, 0x0b), 0);
    assert_eq!(clock_register(&mut mbc, 0x0c), 0x80);
}

#[test]
fn clock_carries_through_every_field() {
    let mut mbc = fresh(false, true);
    // one day, two hours, three minutes, four and a half seconds
    let micros = ((((24 + 2) * 60 + 3) * 60 + 4) as u64) * 1_000_000 + 500_000;
    mbc.update_rtc(micros);
    let t = mbc.rtc.live_time;
    assert_eq!((t.days, t.hours, t.minutes, t.seconds, t.micros), (1, 2, 3, 4, 500_000));
    assert!(!t.day_carry);
    mbc.update_rtc(500_000);
    assert_eq!(mbc.rtc.live_time.seconds, 5);
    assert_eq!(mbc.rtc.live_time.micros, 0);
}

#[test]
fn updates_add_up() {
    let steps = [15_625u64, 999_999, 1, 59_000_000, 3_600_000_000, 86_400_000_000, 123_456_789, 44_236_800_000_000];
    let mut stepped = fresh(false, true);
    set_clock(&mut stepped, 0x1f0, 22, 58, 57);
    let mut once = fresh(false, true);
    set_clock(&mut once, 0x1f0, 22, 58, 57);
    let mut total = 0u64;
    for step in steps {
        stepped.update_rtc(step);
        total += step;
    }
    once.update_rtc(total);
    let (a, b) = (stepped.rtc.live_time, once.rtc.live_time);
    assert_eq!((a.micros, a.seconds, a.minutes, a.hours, a.days, a.day_carry), (b.micros, b.seconds, b.minutes, b.hours, b.days, b.day_carry));
    assert!(a.day_carry);
}

#[test]
fn many_small_updates_make_a_second() {
    let mut mbc = fresh(false, true);
    for _ in 0..64 {
        mbc.update_rtc(15_625);
    }
    assert_eq!(mbc.rtc.live_time.seconds, 1);
    assert_eq!(mbc.rtc.live_time.micros, 0);
}

#[test]
fn out_of_range_fields_count_as_their_largest_value() {
    let mut mbc = fresh(false, true);
    set_clock(&mut mbc, 0, 31, 63, 63);
    assert_eq!(mbc.rtc.live_time.seconds, 63);
    assert_eq!(mbc.rtc.live_time.hours, 31);
    mbc.update_rtc(500_000);
    assert_eq!(mbc.rtc.live_time.seconds, 63);
    mbc.update_rtc(500_000);
    let t = mbc.rtc.live_time;
    assert_eq!((t.days, t.hours, t.minutes, t.seconds), (1, 0, 0, 0));
}

#[test]
fn halted_clock_stands_still() {
    let mut mbc = fresh(false, true);
    set_clock(&mut mbc, 5, 4, 3, 2);
    mbc.write(0x4000, 0x0c);
    mbc.write(0xa000, 0x40);
    mbc.update_rtc(10_000_000);
    assert_eq!(mbc.rtc.live_time.seconds, 2);
    assert_eq!(clock_register(&mut mbc, 0x0c), 0x40);
    mbc.write(0xa000, 0x00);
    mbc.update_rtc(10_000_000);
    assert_eq!(mbc.rtc.live_time.seconds, 12);
}

#[test]
fn latch_freezes_what_is_read() {
    let mut mbc = fresh(false, true);
    set_clock(&mut mbc, 0x101, 1, 2, 3);
    mbc.write(0x6000, 0x00);
    mbc.write(0x6000, 0x01);
    mbc.update_rtc(5_000_000);
    assert_eq!(clock_register(&mut mbc, 0x08), 3);
    assert_eq!(clock_register(&mut mbc, 0x0b), 0x01);
    assert_eq!(clock_register(&mut mbc, 0x0c), 0x01);
    // latching again while latched changes nothing
    mbc.write(0x6000, 0x01);
    assert_eq!(clock_register(&mut mbc, 0x08), 3);
    mbc.write(0x6000, 0x00);
    assert_eq!(clock_register(&mut mbc, 0x08), 8);
    mbc.write(0x6000, 0x01);
    assert_eq!(clock_register(&mut mbc, 0x08), 8);
}

#[test]
fn selector_chooses_ram_bank_or_clock() {
    let mut mbc = fresh(true, true);
    assert_eq!(mbc.read(0xa000), 0xff);
    mbc.write(0x0000, 0x0a);
    mbc.write(0x4000, 0x03);
    mbc.write(0xa123, 0x99);
    assert_eq!(mbc.ram[0x6123], 0x99);
    mbc.write(0x4000, 0x00);
    assert_eq!(mbc.read(0xa123), 0x00);
    mbc.write(0x4000, 0x03);
    assert_eq!(mbc.read(0xa123), 0x99);
    mbc.write(0x4000, 0x05);
    assert_eq!(mbc.read(0xa123), 0xff);
    mbc.write(0xa123, 0x11);
    mbc.write(0x4000, 0x0d);
    assert_eq!(mbc.read(0xa123), 0xff);
    // ROM banks: zero selects bank 1, seven bits
    assert_eq!(mbc.read(0x4000), 1);
    mbc.write(0x2000, 0x80);
    assert_eq!(mbc.read(0x4000), 1);
    mbc.write(0x2000, 0x00);
    assert_eq!(mbc.read(0x4000), 1);
}

#[test]
fn save_file_layout() {
    let mut mbc = fresh(true, true);
    mbc.write(0x0000, 0x0a);
    mbc.write(0x4000, 0x00);
    mbc.write(0xa000, 0xaa);
    mbc.write(0x4000, 0x03);
    mbc.write(0xbfff, 0xbb);
    set_clock(&mut mbc, 0x123, 4, 5, 6);
    mbc.update_rtc(0x0004_0302);
    mbc.write(0x6000, 0x01);
    mbc.update_rtc(1_000_000);
    mbc.write(0x4000, 0x0c);
    mbc.write(0xa000, 0xc1);
    let saved = match mbc.save_at(0x0807_0605_0403_0201) {
        Some(bytes) => bytes,
        None => panic!("nothing saved"),
    };
    assert_eq!(saved.len(), 0x8000 + 30);
    assert_eq!(saved[0], 0xaa);
    assert_eq!(saved[0x7fff], 0xbb);
    let live = &saved[0x8000..0x800a];
    assert_eq!(live, &[0x02, 0x03, 0x04, 0x00, 7, 5, 4, 0x23, 0x01, 1]);
    let latched = &saved[0x800a..0x8014];
    assert_eq!(latched, &[0x02, 0x03, 0x04, 0x00, 6, 5, 4, 0x23, 0x01, 0]);
    assert_eq!(&saved[0x8014..0x8016], &[1, 1]);
    assert_eq!(&saved[0x8016..], &[1, 2, 3, 4, 5, 6, 7, 8]);
}

#[test]
fn clock_only_save_has_no_ram() {
    let mbc = fresh(false, true);
    let saved = match mbc.save_at(1) {
        Some(bytes) => bytes,
        None => panic!("nothing saved"),
    };
    assert_eq!(saved.len(), 30);
    assert_eq!(&saved[22..], &[1, 0, 0, 0, 0, 0, 0, 0]);
    let ram_only = fresh(true, false);
    assert_eq!(ram_only.save_at(1).map(|b| b.len()), Some(0x8000));
    assert!(fresh(false, false).save_at(1).is_none());
}

#[test]
fn save_and_load_round_trip() {
    let mut mbc = fresh(true, true);
    mbc.write(0x0000, 0x0a);
    mbc.write(0x4000, 0x02);
    for i in 0..0x2000usize {
        mbc.write(0xa000 + i, (i * 7) as u8);
    }
    set_clock(&mut mbc, 0x1aa, 11, 22, 33);
    mbc.update_rtc(123_456);
    mbc.write(0x6000, 0x01);
    mbc.update_rtc(2_000_000);
    let now_millis = 1_700_000_000_000u64;
    let saved = match mbc.save_at(now_millis) {
        Some(bytes) => bytes,
        None => panic!("nothing saved"),
    };
    let loaded = MBC3::restored(rom(), &saved, true, true, now_millis * 1000);
    assert!(loaded.ram == mbc.ram);
    let (a, b) = (loaded.rtc, mbc.rtc);
    assert_eq!((a.latched, a.halt), (b.latched, b.halt));
    for (x, y) in [(a.live_time, b.live_time), (a.latched_time, b.latched_time)] {
        assert_eq!((x.micros, x.seconds, x.minutes, x.hours, x.days, x.day_carry), (y.micros, y.seconds, y.minutes, y.hours, y.days, y.day_carry));
    }
    let again = match loaded.save_at(now_millis) {
        Some(bytes) => bytes,
        None => panic!("nothing saved"),
    };
    assert!(again == saved);
}

#[test]
fn loading_moves_the_clock_forward() {
    let mut mbc = fresh(false, true);
    set_clock(&mut mbc, 0, 0, 0, 10);
    let saved = match mbc.save_at(5_000) {
        Some(bytes) => bytes,
        None => panic!("nothing saved"),
    };
    // 65.5 seconds after the save
    let loaded = MBC3::restored(rom(), &saved, false, true, 70_500_000);
    assert_eq!(loaded.rtc.live_time.minutes, 1);
    assert_eq!(loaded.rtc.live_time.seconds, 15);
    assert_eq!(loaded.rtc.live_time.micros, 500_000);
    // a save from the future leaves the clock as it was saved
    let loaded = MBC3::restored(rom(), &saved, false, true, 4_999_999);
    assert_eq!(loaded.rtc.live_time.seconds, 10);
    assert_eq!(loaded.rtc.live_time.minutes, 0);
}

#[test]
fn short_save_data_is_discarded() {
    let mut mbc = fresh(true, true);
    mbc.write(0x0000, 0x0a);
    mbc.write(0xa000, 0x55);
    set_clock(&mut mbc, 1, 2, 3, 4);
    let saved = match mbc.save_at(0) {
        Some(bytes) => bytes,
        None => panic!("nothing saved"),
    };
    let loaded = MBC3::restored(rom(), &saved[..saved.len() - 1], true, true, 0);
    assert_eq!(loaded.ram[0], 0);
    assert_eq!(loaded.rtc.live_time.seconds, 0);
    assert_eq!(loaded.rtc.live_time.days, 0);
    // longer data is read from its start
    let mut longer = saved.clone();
    longer.push(0xee);
    let loaded = MBC3::restored(rom(), &longer, true, true, 0);
    assert_eq!(loaded.ram[0], 0x55);
    assert_eq!(loaded.rtc.live_time.seconds, 4);
}

#[test]
fn clock_image_round_trip_and_truncation() {
    let mut mbc = fresh(false, true);
    set_clock(&mut mbc, 0x155, 1, 2, 3);
    mbc.update_rtc(0x0f_4240 - 1);
    let mut bytes = vec![0xffu8; 3];
    mbc.rtc.write_to(&mut bytes);
    assert_eq!(bytes.len(), 25);
    let mut offset = 3usize;
    let read = match Rtc::read_from(&mut offset, &bytes) {
        Ok(rtc) => rtc,
        Err(_) => panic!("clock image refused"),
    };
    assert_eq!(offset, 25);
    assert_eq!(read.live_time.micros, 999_999);
    assert_eq!(read.live_time.days, 0x155);
    assert_eq!(read.live_time.seconds, 3);
    let mut offset = 4usize;
    match Rtc::read_from(&mut offset, &bytes) {
        Ok(_) => panic!("truncated clock image accepted"),
        Err(e) => assert_eq!(e, SaveError::Truncated),
    }
}

#[test]
fn new_reads_the_wall_clock() {
    let mut mbc = fresh(false, true);
    set_clock(&mut mbc, 0, 0, 0, 0);
    // saved at the epoch: the clock has run for decades since
    let saved = match mbc.save_at(0) {
        Some(bytes) => bytes,
        None => panic!("nothing saved"),
    };
    let loaded = MBC3::new(rom(), &saved, false, true);
    assert!(loaded.rtc.live_time.day_carry || loaded.rtc.live_time.days > 0);
    // saved now: at most moments have passed
    let now = match loaded.save() {
        Some(bytes) => bytes,
        None => panic!("nothing saved"),
    };
    let mut stamp = 0u64;
    for i in 0..8 {
        stamp |= (now[22 + i] as u64) << (8 * i);
    }
    assert!(stamp > 1_600_000_000_000);
    let mut cartridge = match Cartridge::new(rom(), &[]) {
        Ok(c) => c,
        Err(_) => panic!("cartridge refused"),
    };
    cartridge.update_rtc(3_000_000);
    cartridge.write(0x0000, 0x0a);
    cartridge.write(0x4000, 0x08);
    assert_eq!(cartridge.read(0xa000), 3);
    assert_eq!(cartridge.save().map(|b| b.len()), Some(0x8000 + 30));
}
