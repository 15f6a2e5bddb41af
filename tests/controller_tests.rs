use izkaypro::floppy_controller::{
    blank_image, classify_command, Drive, FDCStatus, FdcCommand, FdcFatal, FloppyController,
};

fn patterned(len: usize) -> Vec<u8> {
    (0..len).map(|i| ((i * 7) % 256) as u8).collect()
}

fn dsdd_controller(persistent: bool) -> FloppyController {
    let mut fdc = FloppyController::new();
    fdc.load_disk(0, "a.img".to_string(), patterned(409600), persistent).unwrap();
    fdc
}

#[test]
fn new_controller_is_idle_with_blank_disks() {
    let fdc = FloppyController::new();
    assert_eq!(fdc.drive, 0);
    assert!(!fdc.motor_on);
    assert_eq!(fdc.status, 0);
    assert_eq!(fdc.media_a().content.len(), 204800);
    assert_eq!(fdc.media_b().read_byte(100), 0xe5);
    assert_eq!(blank_image().len(), 204800);
}

#[test]
fn classify_command_bytes() {
    assert_eq!(classify_command(0x00), FdcCommand::Restore);
    assert_eq!(classify_command(0x0b), FdcCommand::Restore);
    assert_eq!(classify_command(0x1f), FdcCommand::Seek);
    assert_eq!(classify_command(0x80), FdcCommand::ReadSector);
    assert_eq!(classify_command(0x9c), FdcCommand::ReadSector);
    assert_eq!(classify_command(0xa0), FdcCommand::WriteSector);
    assert_eq!(classify_command(0xbe), FdcCommand::WriteSector);
    assert_eq!(classify_command(0xc4), FdcCommand::ReadAddress);
    assert_eq!(classify_command(0xd0), FdcCommand::ForceInterrupt);
    assert_eq!(classify_command(0x20), FdcCommand::Unsupported);
    assert_eq!(classify_command(0x40), FdcCommand::Unsupported);
    assert_eq!(classify_command(0xe0), FdcCommand::Unsupported);
    assert_eq!(classify_command(0xf0), FdcCommand::Unsupported);
}

#[test]
fn status_bits_encoding() {
    assert_eq!(FDCStatus::Busy.bits(), 0x01);
    assert_eq!(FDCStatus::LostDataOrTrack0.bits(), 0x04);
    assert_eq!(FDCStatus::SeekErrorOrRecordNotFound.bits(), 0x10);
    assert_eq!(FDCStatus::NoError.bits(), 0x00);
    assert_eq!(FDCStatus::NotReady.bits(), 0x80);
    assert_eq!(Drive::A.index(), 0);
    assert_eq!(Drive::B.index(), 1);
}

#[test]
fn read_sector_streams_the_sector() {
    let mut fdc = dsdd_controller(false);
    fdc.put_track(3);
    fdc.put_sector(12);
    fdc.set_side(true);
    fdc.raise_nmi = false;
    assert!(fdc.put_command(0x80).0.is_none());
    assert_eq!(fdc.get_status() & 0x01, 0x01);
    assert!(fdc.raise_nmi);
    let offset = (3 * 20 + 12) * 512;
    let expected = patterned(409600)[offset..offset + 512].to_vec();
    let mut got = Vec::new();
    for _ in 0..512 {
        fdc.raise_nmi = false;
        got.push(fdc.get_data());
        assert!(fdc.raise_nmi);
    }
    assert_eq!(got, expected);
    assert_eq!(fdc.status & 0x01, 0);
    assert_eq!(fdc.status, 0);
    // The sector register moved on; the transfer is over.
    assert_eq!(fdc.get_sector(), 13);
    let last = fdc.data;
    fdc.raise_nmi = false;
    assert_eq!(fdc.get_data(), last);
    assert!(!fdc.raise_nmi);
    assert_eq!(fdc.get_status() & 0x01, 0);
}

#[test]
fn read_sector_invalid_target_reports_seek_error() {
    let mut fdc = FloppyController::new();
    fdc.put_track(0);
    fdc.put_sector(10);
    assert!(fdc.put_command(0x80).1.is_ok());
    assert_eq!(fdc.get_status(), 0x10);
    assert_eq!(fdc.read_index, fdc.read_last);
    fdc.set_side(true);
    fdc.put_sector(10);
    assert!(fdc.put_command(0x80).1.is_ok());
    assert_eq!(fdc.get_status(), 0x10);
}

#[test]
fn write_sector_stores_bytes_and_flushes() {
    let mut fdc = dsdd_controller(true);
    fdc.put_track(2);
    fdc.put_sector(4);
    assert!(fdc.put_command(0xa0).0.is_none());
    assert_eq!(fdc.get_status(), 0x01);
    let values: Vec<u8> = (0..512).map(|i| (255 - (i % 256)) as u8).collect();
    let mut last = None;
    for (i, &v) in values.iter().enumerate() {
        let w = fdc.put_data(v);
        if i < 511 {
            assert!(w.is_none());
        } else {
            last = w;
        }
    }
    let offset = (2 * 20 + 4) * 512;
    let (drive, w) = last.expect("flush at the end of the write");
    assert_eq!(drive, Drive::A);
    assert_eq!(w.offset, offset);
    assert_eq!(w.bytes, values);
    assert_eq!(&fdc.media_a().content[offset..offset + 512], &values[..]);
    assert_eq!(fdc.media_a().read_byte(offset - 1), patterned(409600)[offset - 1]);
    assert_eq!(fdc.media_a().read_byte(offset + 512), patterned(409600)[offset + 512]);
    assert_eq!(fdc.status, 0);
    // No increment after a write.
    assert_eq!(fdc.get_sector(), 4);
}

#[test]
fn write_sector_transient_media_keeps_bytes_in_memory() {
    let mut fdc = FloppyController::new();
    fdc.put_sector(1);
    fdc.put_command(0xa0).1.unwrap();
    for i in 0..512 {
        assert!(fdc.put_data((i % 200) as u8).is_none());
    }
    assert_eq!(fdc.media_a().read_byte(512), 0);
    assert_eq!(fdc.media_a().read_byte(1023), (511 % 200) as u8);
    assert!(fdc.media_a().write_max < fdc.media_a().write_min);
}

#[test]
fn read_address_invalid_target_gives_zeros() {
    let mut fdc = FloppyController::new();
    fdc.set_side(true);
    fdc.put_sector(3);
    fdc.put_command(0xc0).1.unwrap();
    assert_eq!(fdc.status, 0x10);
    let bytes: Vec<u8> = (0..6).map(|_| fdc.get_data()).collect();
    assert_eq!(bytes, vec![0, 0, 0, 0, 0, 0]);
    assert_eq!(fdc.get_sector(), 3);
    assert!(fdc.data_buffer.is_empty());
}

#[test]
fn read_address_valid_target_gives_descriptor_and_wraps() {
    let mut fdc = FloppyController::new();
    fdc.put_track(7);
    fdc.put_sector(9);
    fdc.put_command(0xc0).1.unwrap();
    assert_eq!(fdc.status, 0);
    assert_eq!(fdc.get_sector(), 0);
    let bytes: Vec<u8> = (0..6).map(|_| fdc.get_data()).collect();
    assert_eq!(bytes, vec![7, 0, 9, 2, 0xde, 0xad]);

    let mut fdc = dsdd_controller(false);
    fdc.set_side(true);
    fdc.put_track(1);
    fdc.put_sector(12);
    fdc.put_command(0xc0).1.unwrap();
    let bytes: Vec<u8> = (0..6).map(|_| fdc.get_data()).collect();
    assert_eq!(bytes, vec![1, 1, 12, 2, 0xde, 0xad]);
}

#[test]
fn status_read_drains_queued_byte() {
    let mut fdc = FloppyController::new();
    fdc.put_track(5);
    fdc.put_sector(2);
    fdc.put_command(0xc0).1.unwrap();
    assert_eq!(fdc.get_status(), 0);
    assert_eq!(fdc.data, 5);
    assert_eq!(fdc.get_status(), 0);
    assert_eq!(fdc.data, 0);
    assert_eq!(fdc.get_data(), 2);
    assert_eq!(fdc.data_buffer.len(), 3);
}

#[test]
fn switching_drive_flushes_dirty_range() {
    let mut fdc = dsdd_controller(true);
    fdc.put_command(0xa0).1.unwrap();
    for v in 0..10u8 {
        assert!(fdc.put_data(v + 100).is_none());
    }
    let (drive, w) = fdc.set_drive(1).expect("flush of drive A");
    assert_eq!(drive, Drive::A);
    assert_eq!(w.offset, 0);
    assert_eq!(w.bytes, (100..110u8).collect::<Vec<u8>>());
    assert_eq!(fdc.drive, 1);
    assert!(fdc.media_a().write_max < fdc.media_a().write_min);
    assert!(fdc.set_drive(0).is_none());
}

#[test]
fn motor_off_flushes_selected_drive() {
    let mut fdc = dsdd_controller(true);
    fdc.put_command(0xa0).1.unwrap();
    fdc.put_data(1);
    let (drive, w) = fdc.set_motor(false).expect("flush");
    assert_eq!(drive, Drive::A);
    assert_eq!((w.offset, w.bytes), (0, vec![1]));
    assert!(!fdc.motor_on);
    assert!(fdc.set_motor(true).is_none());
    assert!(fdc.motor_on);
}

#[test]
fn command_flushes_before_running() {
    let mut fdc = dsdd_controller(true);
    fdc.put_command(0xa0).1.unwrap();
    fdc.put_data(42);
    let (drive, w) = fdc.put_command(0x00).0.expect("flush");
    assert_eq!(drive, Drive::A);
    assert_eq!(w.bytes, vec![42]);
}

#[test]
fn restore_and_seek() {
    let mut fdc = FloppyController::new();
    fdc.put_track(9);
    fdc.raise_nmi = false;
    fdc.put_command(0x00).1.unwrap();
    assert_eq!(fdc.get_track(), 0);
    assert_eq!(fdc.status, 0x04);
    assert!(fdc.raise_nmi);
    fdc.put_data(39);
    fdc.put_command(0x10).1.unwrap();
    assert_eq!(fdc.get_track(), 39);
    assert_eq!(fdc.status, 0);
    fdc.put_data(40);
    fdc.put_command(0x10).1.unwrap();
    assert_eq!(fdc.get_track(), 39);
    assert_eq!(fdc.status, 0x10);
}

#[test]
fn restore_aborts_transfer() {
    let mut fdc = FloppyController::new();
    fdc.put_command(0x80).1.unwrap();
    assert!(fdc.read_index < fdc.read_last);
    fdc.put_command(0x03).1.unwrap();
    assert_eq!(fdc.read_index, fdc.read_last);
}

#[test]
fn force_interrupt_clears_busy() {
    let mut fdc = FloppyController::new();
    fdc.put_command(0x80).1.unwrap();
    assert_eq!(fdc.status, 0x01);
    fdc.put_command(0xd0).1.unwrap();
    assert_eq!(fdc.status, 0x00);
    assert_eq!(fdc.read_index, fdc.read_last);
    let before = fdc.data;
    assert_eq!(fdc.get_data(), before);
}

#[test]
fn unsupported_modes_are_fatal() {
    let mut fdc = FloppyController::new();
    fdc.put_track(5);
    assert_eq!(fdc.put_command(0x90).1.err(), Some(FdcFatal::MultiSectorRead));
    assert_eq!(fdc.put_command(0xb0).1.err(), Some(FdcFatal::MultiSectorWrite));
    assert_eq!(fdc.put_command(0xa1).1.err(), Some(FdcFatal::DeleteDataMark));
    assert_eq!(fdc.put_command(0xd4).1.err(), Some(FdcFatal::ForceInterruptCondition(4)));
    assert_eq!(fdc.put_command(0xe4).1.err(), Some(FdcFatal::Unimplemented(0xe4)));
    assert_eq!(fdc.put_command(0x20).1.err(), Some(FdcFatal::Unimplemented(0x20)));
    assert_eq!(fdc.get_track(), 5);
}

#[test]
fn switching_drive_mid_read_to_a_smaller_image_ends_transfer() {
    let mut fdc = dsdd_controller(false);
    fdc.put_track(39);
    fdc.put_sector(0);
    fdc.put_command(0x80).1.unwrap();
    fdc.set_drive(1);
    fdc.get_data();
    assert_eq!(fdc.status, 0x10);
    assert_eq!(fdc.read_index, fdc.read_last);
}

#[test]
fn load_disk_into_drive_b() {
    let mut fdc = FloppyController::new();
    assert!(fdc.load_disk(1, "b.img".to_string(), vec![0; 5], false).is_err());
    assert_eq!(fdc.media_b().content.len(), 204800);
    assert!(fdc.load_disk(1, "b.img".to_string(), vec![1; 409600], true).unwrap().is_none());
    assert!(fdc.media_b().double_sided());
    fdc.set_drive(1);
    assert_eq!(fdc.media_selected().name, "b.img");
    fdc.set_single_density(true);
    assert!(fdc.single_density);
}

#[test]
fn refused_command_flushes_first() {
    let mut fdc = dsdd_controller(true);
    fdc.put_command(0xa0).1.unwrap();
    fdc.put_data(0x5a);
    let (write, outcome) = fdc.put_command(0x90);
    assert_eq!(outcome, Err(FdcFatal::MultiSectorRead));
    let (drive, w) = write.expect("flush before the command");
    assert_eq!(drive, Drive::A);
    assert_eq!((w.offset, w.bytes), (0, vec![0x5a]));
    assert!(fdc.media_a().write_max < fdc.media_a().write_min);
    let (write, outcome) = fdc.put_command(0xf0);
    assert!(write.is_none());
    assert_eq!(outcome, Err(FdcFatal::Unimplemented(0xf0)));
}

#[test]
fn invalid_read_sector_ends_earlier_transfer() {
    let mut fdc = FloppyController::new();
    fdc.put_command(0x80).1.unwrap();
    assert_eq!(fdc.get_data(), 0xe5);
    fdc.put_sector(10);
    fdc.put_command(0x80).1.unwrap();
    assert_eq!(fdc.status, 0x10);
    assert_eq!(fdc.read_index, fdc.read_last);
    fdc.data = 0x33;
    fdc.raise_nmi = false;
    assert_eq!(fdc.get_data(), 0x33);
    assert!(!fdc.raise_nmi);
    fdc.put_command(0xa0).1.unwrap();
    assert_eq!(fdc.status, 0x10);
    assert!(fdc.put_data(1).is_none());
    assert_eq!(fdc.media_a().write_max < fdc.media_a().write_min, true);
}

#[test]
fn new_controller_registers() {
    let fdc = FloppyController::new();
    assert_eq!(fdc.get_track(), 0);
    assert_eq!(fdc.get_sector(), 0);
    assert!(!fdc.side_2);
    assert_eq!(fdc.data, 0);
    assert!(!fdc.single_density);
    assert!(fdc.media_a().write_max < fdc.media_a().write_min);
    assert!(fdc.media_b().write_max < fdc.media_b().write_min);
    assert!(fdc.media_a().content.iter().all(|&b| b == 0xe5));
}

#[test]
fn read_address_right_after_new() {
    let mut fdc = FloppyController::new();
    fdc.put_track(5);
    fdc.put_sector(9);
    fdc.put_command(0xc0).1.unwrap();
    assert_eq!(fdc.status, 0);
    assert_eq!(fdc.get_sector(), 0);
    let bytes: Vec<u8> = (0..6).map(|_| fdc.get_data()).collect();
    assert_eq!(bytes, vec![5, 0, 9, 2, 0xde, 0xad]);
}
