//! The floppy disk controller: four byte-wide registers (command/status,
//! track, sector, data), a command decoder, and a byte-at-a-time transfer
//! cursor that reads and writes the selected drive's media.
//!
//! Every operation's effect is stated as a transition of `FdcView`; the
//! host hands the returned writes to the drives' backing files.
use vstd::prelude::*;
use crate::media::{
    DiskWrite, Media, MediaError, MediaView, MediaFormat, SECTOR_SIZE, format_of_len, next_sector,
    sector_offset, sectors_per_side_of, tracks_of,
};

verus! {

/// The two drive slots.
#[derive(PartialEq, Eq, Structural, Clone, Copy, Debug)]
pub enum Drive {
    A,
    B,
}

/// The drive that a drive-select value names.
pub open spec fn drive_of(d: u8) -> Drive {
    if d == 0 {
        Drive::A
    } else {
        Drive::B
    }
}

impl Drive {
    /// The drive-select value of this drive.
    pub fn index(&self) -> (r: u8)
        ensures
            r <= 1,
            drive_of(r) == *self,
    {
        match self {
            Drive::A => 0,
            Drive::B => 1,
        }
    }
}

/// Conditions reported in the status register.
#[derive(PartialEq, Eq, Structural, Clone, Copy, Debug)]
pub enum FDCStatus {
    NotReady,
    WriteProtected,
    WriteFault,
    SeekErrorOrRecordNotFound,
    CRCError,
    LostDataOrTrack0,
    DataRequest,
    Busy,
    NoError,
}

/// The status register value of a condition.
pub open spec fn status_bits(s: FDCStatus) -> u8 {
    match s {
        FDCStatus::NotReady => 0x80,
        FDCStatus::WriteProtected => 0x40,
        FDCStatus::WriteFault => 0x20,
        FDCStatus::SeekErrorOrRecordNotFound => 0x10,
        FDCStatus::CRCError => 0x08,
        FDCStatus::LostDataOrTrack0 => 0x04,
        FDCStatus::DataRequest => 0x02,
        FDCStatus::Busy => 0x01,
        FDCStatus::NoError => 0x00,
    }
}

impl FDCStatus {
    pub fn bits(&self) -> (r: u8)
        ensures
            r == status_bits(*self),
    {
        match self {
            FDCStatus::NotReady => 0x80,
            FDCStatus::WriteProtected => 0x40,
            FDCStatus::WriteFault => 0x20,
            FDCStatus::SeekErrorOrRecordNotFound => 0x10,
            FDCStatus::CRCError => 0x08,
            FDCStatus::LostDataOrTrack0 => 0x04,
            FDCStatus::DataRequest => 0x02,
            FDCStatus::Busy => 0x01,
            FDCStatus::NoError => 0x00,
        }
    }
}

/// The command classes that the command register decodes.
#[derive(PartialEq, Eq, Structural, Clone, Copy, Debug)]
pub enum FdcCommand {
    Restore,
    Seek,
    ReadSector,
    WriteSector,
    ReadAddress,
    ForceInterrupt,
    Unsupported,
}

/// Decoding of a command byte: the first mask that matches decides.
pub open spec fn command_class(cmd: u8) -> FdcCommand {
    if cmd & 0xf0 == 0x00 {
        FdcCommand::Restore
    } else if cmd & 0xf0 == 0x10 {
        FdcCommand::Seek
    } else if cmd & 0xe0 == 0x80 {
        FdcCommand::ReadSector
    } else if cmd & 0xe0 == 0xa0 {
        FdcCommand::WriteSector
    } else if cmd & 0xf0 == 0xc0 {
        FdcCommand::ReadAddress
    } else if cmd & 0xf0 == 0xd0 {
        FdcCommand::ForceInterrupt
    } else {
        FdcCommand::Unsupported
    }
}

/// A command mode that the controller does not emulate. The host must end
/// the session when one is issued.
#[derive(PartialEq, Eq, Structural, Clone, Copy, Debug)]
pub enum FdcFatal {
    MultiSectorRead,
    MultiSectorWrite,
    DeleteDataMark,
    /// FORCE INTERRUPT with a non-zero condition field, which it holds.
    ForceInterruptCondition(u8),
    /// A command byte of no supported class, which it holds.
    Unimplemented(u8),
}

/// The unsupported mode that a command byte asks for, if any.
pub open spec fn command_fatal(cmd: u8) -> Option<FdcFatal> {
    match command_class(cmd) {
        FdcCommand::ReadSector => if cmd & 0x10 != 0 {
            Some(FdcFatal::MultiSectorRead)
        } else {
            None
        },
        FdcCommand::WriteSector => if cmd & 0x10 != 0 {
            Some(FdcFatal::MultiSectorWrite)
        } else if cmd & 0x01 != 0 {
            Some(FdcFatal::DeleteDataMark)
        } else {
            None
        },
        FdcCommand::ForceInterrupt => if cmd & 0x0f != 0 {
            Some(FdcFatal::ForceInterruptCondition(cmd & 0x0f))
        } else {
            None
        },
        FdcCommand::Unsupported => Some(FdcFatal::Unimplemented(cmd)),
        _ => None,
    }
}

/// Decodes a command byte.
pub fn classify_command(cmd: u8) -> (c: FdcCommand)
    ensures
        c == command_class(cmd),
{
    if cmd & 0xf0 == 0x00 {
        FdcCommand::Restore
    } else if cmd & 0xf0 == 0x10 {
        FdcCommand::Seek
    } else if cmd & 0xe0 == 0x80 {
        FdcCommand::ReadSector
    } else if cmd & 0xe0 == 0xa0 {
        FdcCommand::WriteSector
    } else if cmd & 0xf0 == 0xc0 {
        FdcCommand::ReadAddress
    } else if cmd & 0xf0 == 0xd0 {
        FdcCommand::ForceInterrupt
    } else {
        FdcCommand::Unsupported
    }
}

/// First placeholder CRC byte of a READ ADDRESS descriptor.
pub const ADDRESS_CRC_1: u8 = 0xde;

/// Second placeholder CRC byte of a READ ADDRESS descriptor.
pub const ADDRESS_CRC_2: u8 = 0xad;

/// The sector-size code of a READ ADDRESS descriptor: 512-byte sectors.
pub const ADDRESS_SIZE_CODE: u8 = 2;

/// A write to the backing file of one drive.
pub open spec fn drive_write_view(w: Option<(Drive, DiskWrite)>) -> Option<(Drive, (int, Seq<u8>))> {
    match w {
        Some((d, w)) => Some((d, w@)),
        None => None,
    }
}

/// The content of a blank double-density image: every byte holds the
/// filler that formatting leaves.
pub fn blank_image() -> (r: Vec<u8>)
    ensures
        r@.len() == 204800,
        forall|i: int| 0 <= i < r@.len() ==> r@[i] == 0xe5,
{
    vec![0xe5u8; 204800]
}

/// Abstract state of the controller.
pub struct FdcView {
    pub motor_on: bool,
    pub drive: u8,
    pub side_2: bool,
    pub track: u8,
    pub sector: u8,
    pub single_density: bool,
    pub data: u8,
    pub status: u8,
    pub media_a: MediaView,
    pub media_b: MediaView,
    /// Next byte offset of the transfer.
    pub read_index: int,
    /// Exclusive end of the transfer; the cursor is armed while
    /// `read_index < read_last`.
    pub read_last: int,
    /// Response bytes that data reads serve before the transfer.
    pub queue: Seq<u8>,
    pub raise_nmi: bool,
}

impl FdcView {
    pub open spec fn wf(self) -> bool {
        &&& self.drive <= 1
        &&& self.media_a.wf()
        &&& self.media_b.wf()
        &&& 0 <= self.read_index <= self.read_last <= usize::MAX
    }

    pub open spec fn selected(self) -> MediaView {
        if self.drive == 0 {
            self.media_a
        } else {
            self.media_b
        }
    }

    pub open spec fn with_selected(self, m: MediaView) -> FdcView {
        if self.drive == 0 {
            FdcView { media_a: m, ..self }
        } else {
            FdcView { media_b: m, ..self }
        }
    }

    pub open spec fn transfer_active(self) -> bool {
        self.read_index < self.read_last
    }

    /// The selected drive after a flush.
    pub open spec fn flush_selected(self) -> FdcView {
        self.with_selected(self.selected().flushed())
    }

    /// What a flush of the selected drive hands to its backing file.
    pub open spec fn pending_write(self) -> Option<(Drive, (int, Seq<u8>))> {
        match self.selected().pending_write() {
            Some(w) => Some((drive_of(self.drive), w)),
            None => None,
        }
    }

    /// The transfer ends without finding its bytes: the cursor left the
    /// selected media (the drive was switched or reloaded while it was armed).
    pub open spec fn transfer_lost(self) -> FdcView {
        FdcView {
            status: status_bits(FDCStatus::SeekErrorOrRecordNotFound),
            read_index: 0,
            read_last: 0,
            raise_nmi: true,
            ..self
        }
    }

    /// One queued response byte moves to the data register.
    pub open spec fn drained(self) -> FdcView {
        if self.queue.len() > 0 {
            FdcView { data: self.queue[0], queue: self.queue.drop_first(), raise_nmi: true, ..self }
        } else {
            self
        }
    }

    /// The state after a data register read: the queue first, then the
    /// transfer; a completed read disarms the cursor, reports no error and
    /// advances the sector register.
    pub open spec fn after_get_data(self) -> FdcView {
        if self.queue.len() > 0 {
            self.drained()
        } else if self.transfer_active() {
            if self.read_index < self.selected().content.len() {
                let b = self.selected().content[self.read_index];
                if self.read_index + 1 == self.read_last {
                    FdcView {
                        data: b,
                        status: status_bits(FDCStatus::NoError),
                        read_index: 0,
                        read_last: 0,
                        sector: ((self.sector + 1) % 256) as u8,
                        raise_nmi: true,
                        ..self
                    }
                } else {
                    FdcView { data: b, read_index: self.read_index + 1, raise_nmi: true, ..self }
                }
            } else {
                self.transfer_lost()
            }
        } else {
            self
        }
    }

    /// The state after `v` is written to the data register: an armed
    /// transfer stores it; a completed write flushes the drive, reports no
    /// error and disarms the cursor, leaving the sector register as it is.
    pub open spec fn after_put_data(self, v: u8) -> FdcView {
        let s = FdcView { data: v, ..self };
        if s.transfer_active() {
            if s.read_index < s.selected().content.len() {
                let t = FdcView {
                    read_index: s.read_index + 1,
                    raise_nmi: true,
                    ..s.with_selected(s.selected().written(s.read_index, v))
                };
                if t.read_index == t.read_last {
                    FdcView {
                        status: status_bits(FDCStatus::NoError),
                        read_index: 0,
                        read_last: 0,
                        ..t.flush_selected()
                    }
                } else {
                    t
                }
            } else {
                s.transfer_lost()
            }
        } else {
            s
        }
    }

    /// The write to the backing file that a data register write triggers:
    /// the flush at the end of a write transfer.
    pub open spec fn put_data_write(self, v: u8) -> Option<(Drive, (int, Seq<u8>))> {
        let s = FdcView { data: v, ..self };
        if s.transfer_active() && s.read_index < s.selected().content.len() && s.read_index + 1
            == s.read_last {
            s.with_selected(s.selected().written(s.read_index, v)).pending_write()
        } else {
            None
        }
    }

    /// The six bytes that READ ADDRESS queues for a valid sector.
    pub open spec fn address_descriptor(self) -> Seq<u8> {
        seq![
            self.track,
            if self.side_2 { 1u8 } else { 0u8 },
            self.sector,
            ADDRESS_SIZE_CODE,
            ADDRESS_CRC_1,
            ADDRESS_CRC_2,
        ]
    }

    /// The state after a supported command, the selected drive flushed
    /// first. A READ or WRITE SECTOR whose target is invalid reports a seek
    /// error and leaves the controller idle, ending any earlier transfer.
    pub open spec fn after_command(self, cmd: u8) -> FdcView {
        let s = self.flush_selected();
        let m = s.selected();
        match command_class(cmd) {
            FdcCommand::Restore => FdcView {
                read_index: 0,
                read_last: 0,
                queue: Seq::empty(),
                track: 0,
                status: status_bits(FDCStatus::LostDataOrTrack0),
                raise_nmi: true,
                ..s
            },
            FdcCommand::Seek => if (s.data as int) < tracks_of(m.format) {
                FdcView { track: s.data, status: status_bits(FDCStatus::NoError), raise_nmi: true, ..s }
            } else {
                FdcView {
                    status: status_bits(FDCStatus::SeekErrorOrRecordNotFound),
                    raise_nmi: true,
                    ..s
                }
            },
            FdcCommand::ReadSector | FdcCommand::WriteSector => if m.sector_valid(
                s.side_2,
                s.track as int,
                s.sector as int,
            ) {
                let offset = sector_offset(m.format, s.track as int, s.sector as int);
                FdcView {
                    read_index: offset,
                    read_last: offset + SECTOR_SIZE,
                    status: status_bits(FDCStatus::Busy),
                    raise_nmi: true,
                    ..s
                }
            } else {
                FdcView {
                    read_index: 0,
                    read_last: 0,
                    status: status_bits(FDCStatus::SeekErrorOrRecordNotFound),
                    raise_nmi: true,
                    ..s
                }
            },
            FdcCommand::ReadAddress => if m.sector_valid(s.side_2, s.track as int, s.sector as int) {
                FdcView {
                    sector: next_sector(sectors_per_side_of(m.format), s.sector as int) as u8,
                    status: status_bits(FDCStatus::NoError),
                    queue: s.address_descriptor(),
                    raise_nmi: true,
                    ..s
                }
            } else {
                FdcView {
                    status: status_bits(FDCStatus::SeekErrorOrRecordNotFound),
                    queue: seq![0u8, 0u8, 0u8, 0u8, 0u8, 0u8],
                    raise_nmi: true,
                    ..s
                }
            },
            FdcCommand::ForceInterrupt => FdcView {
                read_index: 0,
                read_last: 0,
                queue: Seq::empty(),
                status: s.status & 0xfe,
                ..s
            },
            FdcCommand::Unsupported => s,
        }
    }
}

/// The controller and the media of its two drives.
pub struct FloppyController {
    pub motor_on: bool,
    /// Selected drive: 0 for A, 1 for B.
    pub drive: u8,
    pub side_2: bool,
    pub track: u8,
    pub sector: u8,
    pub single_density: bool,
    pub data: u8,
    pub status: u8,
    pub disk_a: Media,
    pub disk_b: Media,
    pub read_index: usize,
    pub read_last: usize,
    pub data_buffer: Vec<u8>,
    /// Set whenever a register access advances a transfer; the host clears
    /// it when it schedules the interrupt.
    pub raise_nmi: bool,
}

impl View for FloppyController {
    type V = FdcView;

    open spec fn view(&self) -> FdcView {
        FdcView {
            motor_on: self.motor_on,
            drive: self.drive,
            side_2: self.side_2,
            track: self.track,
            sector: self.sector,
            single_density: self.single_density,
            data: self.data,
            status: self.status,
            media_a: self.disk_a@,
            media_b: self.disk_b@,
            read_index: self.read_index as int,
            read_last: self.read_last as int,
            queue: self.data_buffer@,
            raise_nmi: self.raise_nmi,
        }
    }
}

impl FloppyController {
    /// A controller with both drives holding a blank double-density image,
    /// drive A selected and the motor off.
    pub fn new() -> (r: FloppyController)
        ensures
            r@.wf(),
            r@.drive == 0,
            !r@.motor_on,
            !r@.transfer_active(),
            r@.queue.len() == 0,
            r@.status == status_bits(FDCStatus::NoError),
            r@.track == 0,
            r@.sector == 0,
            !r@.side_2,
            r@.data == 0,
            !r@.single_density,
            !r@.media_a.persistent && !r@.media_b.persistent,
            !r@.media_a.is_dirty() && !r@.media_b.is_dirty(),
            r@.media_a.content.len() == 204800 && r@.media_b.content.len() == 204800,
            forall|i: int| 0 <= i < 204800 ==> #[trigger] r@.media_a.content[i] == 0xe5,
            forall|i: int| 0 <= i < 204800 ==> #[trigger] r@.media_b.content[i] == 0xe5,
            r@.media_a.format == MediaFormat::SSDD && r@.media_b.format == MediaFormat::SSDD,
            !r@.raise_nmi,
    {
        let disk_a = Media::new("Blank disk A".to_string(), blank_image());
        let disk_b = Media::new("Blank disk B".to_string(), blank_image());
        FloppyController {
            motor_on: false,
            drive: 0,
            side_2: false,
            track: 0,
            sector: 0,
            single_density: false,
            data: 0,
            status: 0,
            disk_a,
            disk_b,
            read_index: 0,
            read_last: 0,
            data_buffer: Vec::new(),
            raise_nmi: false,
        }
    }

    pub fn media_a(&self) -> (r: &Media)
        ensures
            r@ == self@.media_a,
    {
        &self.disk_a
    }

    pub fn media_b(&self) -> (r: &Media)
        ensures
            r@ == self@.media_b,
    {
        &self.disk_b
    }

    /// The media of the selected drive.
    pub fn media_selected(&self) -> (r: &Media)
        ensures
            r@ == self@.selected(),
    {
        if self.drive == 0 {
            &self.disk_a
        } else {
            &self.disk_b
        }
    }

    /// Flushes the selected drive.
    pub fn flush_disk(&mut self) -> (r: Option<(Drive, DiskWrite)>)
        requires
            old(self)@.wf(),
        ensures
            final(self)@ == old(self)@.flush_selected(),
            drive_write_view(r) == old(self)@.pending_write(),
    {
        if self.drive == 0 {
            match self.disk_a.flush_disk() {
                Some(w) => Some((Drive::A, w)),
                None => None,
            }
        } else {
            match self.disk_b.flush_disk() {
                Some(w) => Some((Drive::B, w)),
                None => None,
            }
        }
    }

    /// Replaces the image in drive `drive` (0 for A, 1 for B); see
    /// `Media::load_disk`. On success the writes still pending on the
    /// previous image are returned for its backing file.
    pub fn load_disk(&mut self, drive: u8, name: String, content: Vec<u8>, persistent: bool) -> (r:
        Result<Option<(Drive, DiskWrite)>, MediaError>)
        requires
            old(self)@.wf(),
            drive <= 1,
        ensures
            final(self)@.wf(),
            format_of_len(content@.len() as int) == MediaFormat::Unformatted ==> r == Err::<
                Option<(Drive, DiskWrite)>,
                MediaError,
            >(MediaError::UnrecognizedFormat(content@.len() as usize)) && final(self)@ == old(self)@,
            format_of_len(content@.len() as int) != MediaFormat::Unformatted ==> {
                let m = MediaView {
                    persistent,
                    name: name@,
                    content: content@,
                    format: format_of_len(content@.len() as int),
                    write_min: usize::MAX as int,
                    write_max: 0,
                };
                let old_media = if drive == 0 {
                    old(self)@.media_a
                } else {
                    old(self)@.media_b
                };
                &&& r is Ok
                &&& drive_write_view(r->Ok_0) == match old_media.pending_write() {
                    Some(w) => Some((drive_of(drive), w)),
                    None => None,
                }
                &&& final(self)@ == if drive == 0 {
                    FdcView { media_a: m, ..old(self)@ }
                } else {
                    FdcView { media_b: m, ..old(self)@ }
                }
            },
    {
        let (d, res) = if drive == 0 {
            (Drive::A, self.disk_a.load_disk(name, content, persistent))
        } else {
            (Drive::B, self.disk_b.load_disk(name, content, persistent))
        };
        match res {
            Ok(Some(w)) => Ok(Some((d, w))),
            Ok(None) => Ok(None),
            Err(e) => Err(e),
        }
    }

    /// Turns the motor on or off, flushing the selected drive first.
    pub fn set_motor(&mut self, motor_on: bool) -> (r: Option<(Drive, DiskWrite)>)
        requires
            old(self)@.wf(),
        ensures
            final(self)@ == (FdcView { motor_on, ..old(self)@.flush_selected() }),
            drive_write_view(r) == old(self)@.pending_write(),
    {
        let w = self.flush_disk();
        self.motor_on = motor_on;
        w
    }

    pub fn set_single_density(&mut self, single_density: bool)
        ensures
            final(self)@ == (FdcView { single_density, ..old(self)@ }),
    {
        self.single_density = single_density;
    }

    pub fn set_side(&mut self, side_2: bool)
        ensures
            final(self)@ == (FdcView { side_2, ..old(self)@ }),
    {
        self.side_2 = side_2;
    }

    /// Selects drive `drive` (0 for A, 1 for B), flushing the drive that
    /// was selected before.
    pub fn set_drive(&mut self, drive: u8) -> (r: Option<(Drive, DiskWrite)>)
        requires
            old(self)@.wf(),
            drive <= 1,
        ensures
            final(self)@ == (FdcView { drive, ..old(self)@.flush_selected() }),
            drive_write_view(r) == old(self)@.pending_write(),
    {
        let w = self.flush_disk();
        self.drive = drive;
        w
    }

    /// Issues a command. The selected drive is flushed first, whatever
    /// the command, and that flush is returned. A command mode that is not
    /// emulated is then refused, with the controller left as the flush left
    /// it.
    pub fn put_command(&mut self, command: u8) -> (r: (Option<(Drive, DiskWrite)>, Result<(), FdcFatal>))
        requires
            old(self)@.wf(),
        ensures
            final(self)@.wf(),
            drive_write_view(r.0) == old(self)@.pending_write(),
            command_fatal(command) is Some ==> r.1 == Err::<(), FdcFatal>(
                command_fatal(command)->Some_0,
            ) && final(self)@ == old(self)@.flush_selected(),
            command_fatal(command) is None ==> r.1 is Ok && final(self)@ == old(
                self,
            )@.after_command(command),
    {
        let w = self.flush_disk();
        let class = classify_command(command);
        match class {
            FdcCommand::ReadSector => {
                if command & 0x10 != 0 {
                    return (w, Err(FdcFatal::MultiSectorRead));
                }
            },
            FdcCommand::WriteSector => {
                if command & 0x10 != 0 {
                    return (w, Err(FdcFatal::MultiSectorWrite));
                }
                if command & 0x01 != 0 {
                    return (w, Err(FdcFatal::DeleteDataMark));
                }
            },
            FdcCommand::ForceInterrupt => {
                if command & 0x0f != 0 {
                    return (w, Err(FdcFatal::ForceInterruptCondition(command & 0x0f)));
                }
            },
            FdcCommand::Unsupported => {
                return (w, Err(FdcFatal::Unimplemented(command)));
            },
            _ => {},
        }
        match class {
            FdcCommand::Restore => {
                // Type I: head to track 0
                self.read_index = 0;
                self.read_last = 0;
                self.data_buffer.clear();
                self.track = 0;
                self.status = FDCStatus::LostDataOrTrack0.bits();
                self.raise_nmi = true;
            },
            FdcCommand::Seek => {
                // Type I: the target track is in the data register
                let target = self.data;
                if self.media_selected().is_valid_track(target) {
                    self.track = target;
                    self.status = FDCStatus::NoError.bits();
                } else {
                    self.status = FDCStatus::SeekErrorOrRecordNotFound.bits();
                }
                self.raise_nmi = true;
            },
            FdcCommand::ReadSector | FdcCommand::WriteSector => {
                // Type II: both directions arm the same cursor
                let (valid, index, last) = self.media_selected().sector_index(
                    self.side_2,
                    self.track,
                    self.sector,
                );
                // An invalid target leaves the controller idle: index and
                // last are both 0 then
                self.read_index = index;
                self.read_last = last;
                if valid {
                    self.status = FDCStatus::Busy.bits();
                } else {
                    self.status = FDCStatus::SeekErrorOrRecordNotFound.bits();
                }
                self.raise_nmi = true;
            },
            FdcCommand::ReadAddress => {
                // Type III
                let side_2 = self.side_2;
                let track = self.track;
                let sector = self.sector;
                let valid = self.media_selected().is_valid_sector(side_2, track, sector);
                self.data_buffer.clear();
                if valid {
                    self.sector = self.media_selected().inc_sector(sector);
                    self.status = FDCStatus::NoError.bits();
                    self.data_buffer.push(track);
                    self.data_buffer.push(if side_2 { 1 } else { 0 });
                    self.data_buffer.push(sector);
                    self.data_buffer.push(ADDRESS_SIZE_CODE);
                    self.data_buffer.push(ADDRESS_CRC_1);
                    self.data_buffer.push(ADDRESS_CRC_2);
                } else {
                    self.status = FDCStatus::SeekErrorOrRecordNotFound.bits();
                    self.data_buffer.push(0);
                    self.data_buffer.push(0);
                    self.data_buffer.push(0);
                    self.data_buffer.push(0);
                    self.data_buffer.push(0);
                    self.data_buffer.push(0);
                    assert(self.data_buffer@ =~= seq![0u8, 0u8, 0u8, 0u8, 0u8, 0u8]);
                }
                self.raise_nmi = true;
            },
            _ => {
                // Type IV with condition 0: end the command, clear busy
                self.read_index = 0;
                self.read_last = 0;
                self.data_buffer.clear();
                let before = self.status;
                self.status = before & !FDCStatus::Busy.bits();
                assert(before & !1u8 == before & 0xfe) by (bit_vector);
            },
        }
        proof {
            assert(self@.queue =~= old(self)@.after_command(command).queue);
        }
        (w, Ok(()))
    }

    /// Reads the status register, first moving one queued response byte,
    /// if any, to the data register.
    pub fn get_status(&mut self) -> (r: u8)
        ensures
            final(self)@ == old(self)@.drained(),
            r == old(self)@.drained().status,
    {
        self.drain_queue();
        self.status
    }

    fn drain_queue(&mut self)
        ensures
            final(self)@ == old(self)@.drained(),
    {
        if self.data_buffer.len() > 0 {
            self.data = self.data_buffer[0];
            self.data_buffer.remove(0);
            self.raise_nmi = true;
        }
    }

    /// Reads the data register: the next queued response byte, or else the
    /// next byte of an armed transfer. Completing a read advances the sector
    /// register by one, with no wrap at the end of the track.
    pub fn get_data(&mut self) -> (r: u8)
        requires
            old(self)@.wf(),
        ensures
            final(self)@ == old(self)@.after_get_data(),
            final(self)@.wf(),
            r == final(self)@.data,
    {
        if self.data_buffer.len() > 0 {
            self.drain_queue();
        } else if self.read_index < self.read_last {
            let index = self.read_index;
            if index < self.media_selected().content.len() {
                self.data = self.media_selected().read_byte(index);
                self.read_index = index + 1;
                self.raise_nmi = true;
                if self.read_index == self.read_last {
                    // The sector is read
                    self.status = FDCStatus::NoError.bits();
                    self.read_index = 0;
                    self.read_last = 0;
                    self.sector = self.sector.wrapping_add(1);
                }
            } else {
                self.lose_transfer();
            }
        }
        self.data
    }

    fn lose_transfer(&mut self)
        ensures
            final(self)@ == old(self)@.transfer_lost(),
    {
        self.status = FDCStatus::SeekErrorOrRecordNotFound.bits();
        self.read_index = 0;
        self.read_last = 0;
        self.raise_nmi = true;
    }

    /// Writes the data register; an armed transfer stores the byte on the
    /// selected media. The flush that ends a write transfer is returned.
    /// Unlike a completed read, a completed write leaves the sector
    /// register where it was; the asymmetry is deliberate.
    pub fn put_data(&mut self, value: u8) -> (r: Option<(Drive, DiskWrite)>)
        requires
            old(self)@.wf(),
        ensures
            final(self)@ == old(self)@.after_put_data(value),
            final(self)@.wf(),
            drive_write_view(r) == old(self)@.put_data_write(value),
    {
        self.data = value;
        if self.read_index < self.read_last {
            let index = self.read_index;
            if index < self.media_selected().content.len() {
                if self.drive == 0 {
                    self.disk_a.write_byte(index, value);
                } else {
                    self.disk_b.write_byte(index, value);
                }
                self.read_index = index + 1;
                self.raise_nmi = true;
                if self.read_index == self.read_last {
                    // The sector is written
                    let w = self.flush_disk();
                    self.status = FDCStatus::NoError.bits();
                    self.read_index = 0;
                    self.read_last = 0;
                    return w;
                }
            } else {
                self.lose_transfer();
            }
        }
        None
    }

    pub fn put_track(&mut self, value: u8)
        ensures
            final(self)@ == (FdcView { track: value, ..old(self)@ }),
    {
        self.track = value;
    }

    pub fn get_track(&self) -> (r: u8)
        ensures
            r == self@.track,
    {
        self.track
    }

    pub fn put_sector(&mut self, value: u8)
        ensures
            final(self)@ == (FdcView { sector: value, ..old(self)@ }),
    {
        self.sector = value;
    }

    pub fn get_sector(&self) -> (r: u8)
        ensures
            r == self@.sector,
    {
        self.sector
    }
}

} // verus!
