//! The Kaypro II's memory map and I/O port decoding around the floppy
//! controller and the keyboard.
//!
//! Memory is 64 KiB of RAM. While the ROM bank is selected (system bit 7),
//! reads below 0x3000 come from the ROM and writes there go to RAM, and
//! 0x3000-0x3fff is the 4 KiB video RAM.
use vstd::prelude::*;
use crate::floppy_controller::{
    Drive, FdcFatal, FdcView, FloppyController, command_fatal, drive_write_view,
};
use crate::keyboard::{Keyboard, KeyboardView};
use crate::media::DiskWrite;
use vstd::string::StringExecFns;

verus! {

/// Bits of the system control port (0x1c).
#[derive(PartialEq, Eq, Structural, Clone, Copy, Debug)]
pub enum SystemBit {
    DriveA,
    DriveB,
    Side2,
    CentronicsReady,
    CentronicsStrobe,
    SingleDensity,
    MotorsOff,
    Bank,
}

pub open spec fn system_bit_mask(b: SystemBit) -> u8 {
    match b {
        SystemBit::DriveA => 0x01,
        SystemBit::DriveB => 0x02,
        SystemBit::Side2 => 0x04,
        SystemBit::CentronicsReady => 0x08,
        SystemBit::CentronicsStrobe => 0x10,
        SystemBit::SingleDensity => 0x20,
        SystemBit::MotorsOff => 0x40,
        SystemBit::Bank => 0x80,
    }
}

impl SystemBit {
    pub fn mask(&self) -> (r: u8)
        ensures
            r == system_bit_mask(*self),
    {
        match self {
            SystemBit::DriveA => 0x01,
            SystemBit::DriveB => 0x02,
            SystemBit::Side2 => 0x04,
            SystemBit::CentronicsReady => 0x08,
            SystemBit::CentronicsStrobe => 0x10,
            SystemBit::SingleDensity => 0x20,
            SystemBit::MotorsOff => 0x40,
            SystemBit::Bank => 0x80,
        }
    }
}

/// `name` when `bits` has `mask` set, else nothing.
pub open spec fn name_if(bits: u8, mask: u8, name: Seq<char>) -> Seq<char> {
    if bits & mask != 0 {
        name
    } else {
        Seq::empty()
    }
}

/// The names of the bits set in a system port value, each followed by a
/// space, from bit 0 up; the bank bit is named `ROM`.
pub open spec fn system_bits_text(bits: u8) -> Seq<char> {
    name_if(bits, 0x01, "DriveA "@) + name_if(bits, 0x02, "DriveB "@) + name_if(bits, 0x04, "Side2 "@)
        + name_if(bits, 0x08, "CentronicsReady "@) + name_if(bits, 0x10, "CentronicsStrobe "@)
        + name_if(bits, 0x20, "SingleDensity "@) + name_if(bits, 0x40, "MotorsOff "@) + name_if(
        bits,
        0x80,
        "ROM "@,
    )
}

fn append_if(text: &mut String, bits: u8, mask: u8, name: &str)
    ensures
        final(text)@ == old(text)@ + name_if(bits, mask, name@),
{
    if bits & mask != 0 {
        text.append(name);
    } else {
        assert(old(text)@ + name_if(bits, mask, name@) =~= old(text)@);
    }
}

/// Names the bits set in a system port value, for tracing.
pub fn system_bits_names(bits: u8) -> (r: String)
    ensures
        r@ == system_bits_text(bits),
{
    let mut text = String::new();
    append_if(&mut text, bits, SystemBit::DriveA.mask(), "DriveA ");
    append_if(&mut text, bits, SystemBit::DriveB.mask(), "DriveB ");
    append_if(&mut text, bits, SystemBit::Side2.mask(), "Side2 ");
    append_if(&mut text, bits, SystemBit::CentronicsReady.mask(), "CentronicsReady ");
    append_if(&mut text, bits, SystemBit::CentronicsStrobe.mask(), "CentronicsStrobe ");
    append_if(&mut text, bits, SystemBit::SingleDensity.mask(), "SingleDensity ");
    append_if(&mut text, bits, SystemBit::MotorsOff.mask(), "MotorsOff ");
    append_if(&mut text, bits, SystemBit::Bank.mask(), "ROM ");
    assert(text@ =~= system_bits_text(bits));
    text
}

/// Bytes of RAM.
pub const RAM_SIZE: usize = 65536;

/// Bytes of video RAM.
pub const VRAM_SIZE: usize = 4096;

/// Start of the video RAM window while the ROM bank is selected.
pub const VRAM_START: u16 = 0x3000;

/// End of the video RAM window.
pub const VRAM_END: u16 = 0x4000;

/// First byte past the BIOS image.
pub const BIOS_END: usize = 0xfc00;

/// Port select lines that the decoders use: the low 8 bits, with bits 5 and 6
/// ignored.
pub open spec fn port_of(address: u16) -> u8 {
    (address as u8) & 0x9f
}

/// Up to two backing-file writes: one from the drive that was deselected,
/// one from the drive that the motor change flushed.
pub type DriveWrites = (Option<(Drive, DiskWrite)>, Option<(Drive, DiskWrite)>);

pub open spec fn writes_view(w: DriveWrites) -> (
    Option<(Drive, (int, Seq<u8>))>,
    Option<(Drive, (int, Seq<u8>))>,
) {
    (drive_write_view(w.0), drive_write_view(w.1))
}

/// The controller after the drive-select part of a system port write.
pub open spec fn drive_selected(f: FdcView, bits: u8) -> FdcView {
    if bits & 0x01 != 0 {
        FdcView { drive: 0, ..f.flush_selected() }
    } else if bits & 0x02 != 0 {
        FdcView { drive: 1, ..f.flush_selected() }
    } else {
        f
    }
}

/// The controller after a write of `bits` to the system port: drive A or B
/// selected if a select bit is set (A first), the motor set from the
/// motors-off bit, then density and side.
pub open spec fn system_bits_effect(f: FdcView, bits: u8) -> FdcView {
    let g = drive_selected(f, bits);
    FdcView {
        motor_on: bits & 0x40 == 0,
        single_density: bits & 0x20 != 0,
        side_2: bits & 0x04 != 0,
        ..g.flush_selected()
    }
}

/// The backing-file writes that a write of `bits` to the system port causes.
pub open spec fn system_bits_writes(f: FdcView, bits: u8) -> (
    Option<(Drive, (int, Seq<u8>))>,
    Option<(Drive, (int, Seq<u8>))>,
) {
    (
        if bits & 0x03 != 0 {
            f.pending_write()
        } else {
            None
        },
        drive_selected(f, bits).pending_write(),
    )
}

fn select_drive_from_bits(fdc: &mut FloppyController, bits: u8) -> (r: Option<(Drive, DiskWrite)>)
    requires
        old(fdc)@.wf(),
    ensures
        final(fdc)@ == drive_selected(old(fdc)@, bits),
        drive_write_view(r) == system_bits_writes(old(fdc)@, bits).0,
{
    assert((bits & 0x03 != 0) == (bits & 0x01 != 0 || bits & 0x02 != 0)) by (bit_vector);
    if bits & SystemBit::DriveA.mask() != 0 {
        fdc.set_drive(0)
    } else if bits & SystemBit::DriveB.mask() != 0 {
        fdc.set_drive(1)
    } else {
        None
    }
}

/// Drives the controller's control lines from a system port value.
fn apply_system_bits(fdc: &mut FloppyController, bits: u8) -> (r: DriveWrites)
    requires
        old(fdc)@.wf(),
    ensures
        final(fdc)@ == system_bits_effect(old(fdc)@, bits),
        writes_view(r) == system_bits_writes(old(fdc)@, bits),
{
    let first = select_drive_from_bits(fdc, bits);
    let motor_off = bits & SystemBit::MotorsOff.mask() != 0;
    let second = fdc.set_motor(!motor_off);
    fdc.set_single_density(bits & SystemBit::SingleDensity.mask() != 0);
    fdc.set_side(bits & SystemBit::Side2.mask() != 0);
    (first, second)
}

/// Abstract state of the machine.
pub struct MachineView {
    pub ram: Seq<u8>,
    pub vram: Seq<u8>,
    pub vram_dirty: bool,
    pub system_bits: u8,
    pub rom: Seq<u8>,
    pub keyboard: KeyboardView,
    pub fdc: FdcView,
}

impl MachineView {
    pub open spec fn wf(self) -> bool {
        &&& self.ram.len() == RAM_SIZE
        &&& self.vram.len() == VRAM_SIZE
        &&& self.rom.len() > 0
        &&& self.fdc.wf()
    }

    pub open spec fn rom_rank(self) -> bool {
        self.system_bits & 0x80 != 0
    }

    /// The byte that a memory read at `address` returns.
    pub open spec fn mem_read(self, address: u16) -> u8 {
        if address < VRAM_START && self.rom_rank() {
            self.rom[address as int % self.rom.len() as int]
        } else if address < VRAM_END && self.rom_rank() {
            self.vram[address - VRAM_START]
        } else {
            self.ram[address as int]
        }
    }

    /// The state after a memory write at `address`.
    pub open spec fn mem_write(self, address: u16, value: u8) -> MachineView {
        if address < VRAM_END && VRAM_START <= address && self.rom_rank() {
            MachineView {
                vram: self.vram.update(address - VRAM_START, value),
                vram_dirty: true,
                ..self
            }
        } else {
            MachineView { ram: self.ram.update(address as int, value), ..self }
        }
    }
}

/// The Kaypro II around its CPU: RAM, ROM, video RAM, system bits, keyboard
/// and floppy controller.
pub struct KayproMachine {
    pub ram: Vec<u8>,
    pub vram: Vec<u8>,
    pub vram_dirty: bool,
    pub system_bits: u8,
    pub rom: Vec<u8>,
    pub keyboard: Keyboard,
    pub floppy_controller: FloppyController,
}

impl View for KayproMachine {
    type V = MachineView;

    open spec fn view(&self) -> MachineView {
        MachineView {
            ram: self.ram@,
            vram: self.vram@,
            vram_dirty: self.vram_dirty,
            system_bits: self.system_bits,
            rom: self.rom@,
            keyboard: self.keyboard@,
            fdc: self.floppy_controller@,
        }
    }
}

impl KayproMachine {
    /// A machine with cleared RAM and video RAM, the ROM bank selected and
    /// the motors off.
    pub fn new(floppy_controller: FloppyController, rom: Vec<u8>) -> (r: KayproMachine)
        requires
            floppy_controller@.wf(),
            rom@.len() > 0,
        ensures
            r@.wf(),
            r@.rom == rom@,
            r@.fdc == floppy_controller@,
            r@.system_bits == system_bit_mask(SystemBit::Bank) | system_bit_mask(
                SystemBit::MotorsOff,
            ),
            r@.ram == Seq::new(RAM_SIZE as nat, |_i: int| 0u8),
            r@.vram == Seq::new(VRAM_SIZE as nat, |_i: int| 0u8),
            !r@.vram_dirty,
    {
        let ram = vec![0u8; RAM_SIZE];
        let vram = vec![0u8; VRAM_SIZE];
        assert(ram@ =~= Seq::new(RAM_SIZE as nat, |_i: int| 0u8));
        assert(vram@ =~= Seq::new(VRAM_SIZE as nat, |_i: int| 0u8));
        KayproMachine {
            ram,
            vram,
            vram_dirty: false,
            system_bits: SystemBit::Bank.mask() | SystemBit::MotorsOff.mask(),
            rom,
            keyboard: Keyboard::new(),
            floppy_controller,
        }
    }

    pub fn is_rom_rank(&self) -> (r: bool)
        ensures
            r == self@.rom_rank(),
    {
        self.system_bits & SystemBit::Bank.mask() != 0
    }

    pub fn peek(&self, address: u16) -> (r: u8)
        requires
            self@.wf(),
        ensures
            r == self@.mem_read(address),
    {
        if address < VRAM_START && self.is_rom_rank() {
            self.rom[address as usize % self.rom.len()]
        } else if address < VRAM_END && self.is_rom_rank() {
            self.vram[(address - VRAM_START) as usize]
        } else {
            self.ram[address as usize]
        }
    }

    pub fn poke(&mut self, address: u16, value: u8)
        requires
            old(self)@.wf(),
        ensures
            final(self)@ == old(self)@.mem_write(address, value),
            final(self)@.wf(),
    {
        if address < VRAM_START && self.is_rom_rank() {
            // Writes to the ROM go to the RAM
            self.ram.set(address as usize, value);
        } else if address < VRAM_END && self.is_rom_rank() {
            self.vram.set((address - VRAM_START) as usize, value);
            self.vram_dirty = true;
        } else {
            self.ram.set(address as usize, value);
        }
    }

    /// Applies a write to the system port to the controller's control lines.
    fn update_system_bits(&mut self, bits: u8) -> (r: DriveWrites)
        requires
            old(self)@.wf(),
        ensures
            final(self)@ == (MachineView {
                system_bits: bits,
                fdc: system_bits_effect(old(self)@.fdc, bits),
                ..old(self)@
            }),
            writes_view(r) == system_bits_writes(old(self)@.fdc, bits),
    {
        self.system_bits = bits;
        apply_system_bits(&mut self.floppy_controller, bits)
    }

    /// A write from the CPU to I/O port `address`: the floppy controller's
    /// four registers and the system port; other ports, and addresses
    /// with bit 7 set (the decoder is disabled), are ignored. Returns the
    /// backing-file writes that the access caused, and the unsupported
    /// command mode, if one was issued.
    #[verifier::rlimit(60)]
    pub fn port_out(&mut self, address: u16, value: u8) -> (r: (DriveWrites, Result<(), FdcFatal>))
        requires
            old(self)@.wf(),
        ensures
            final(self)@.wf(),
            ({
                let s = old(self)@;
                let f = s.fdc;
                let port = port_of(address);
                if port == 0x10 {
                    &&& writes_view(r.0) == (f.pending_write(), None::<(Drive, (int, Seq<u8>))>)
                    &&& match command_fatal(value) {
                        Some(e) => r.1 == Err::<(), FdcFatal>(e) && final(self)@ == (MachineView {
                            fdc: f.flush_selected(),
                            ..s
                        }),
                        None => r.1 is Ok && final(self)@ == (MachineView {
                            fdc: f.after_command(value),
                            ..s
                        }),
                    }
                } else {
                    &&& r.1 is Ok
                    &&& if port == 0x11 {
                        writes_view(r.0) == (None::<(Drive, (int, Seq<u8>))>, None::<(Drive, (int, Seq<u8>))>) && final(self)@ == (MachineView {
                            fdc: FdcView { track: value, ..f },
                            ..s
                        })
                    } else if port == 0x12 {
                        writes_view(r.0) == (None::<(Drive, (int, Seq<u8>))>, None::<(Drive, (int, Seq<u8>))>) && final(self)@ == (MachineView {
                            fdc: FdcView { sector: value, ..f },
                            ..s
                        })
                    } else if port == 0x13 {
                        writes_view(r.0) == (f.put_data_write(value), None::<(Drive, (int, Seq<u8>))>) && final(self)@ == (
                        MachineView { fdc: f.after_put_data(value), ..s })
                    } else if port == 0x1c {
                        writes_view(r.0) == system_bits_writes(f, value) && final(self)@ == (
                        MachineView { system_bits: value, fdc: system_bits_effect(f, value), ..s })
                    } else {
                        writes_view(r.0) == (None::<(Drive, (int, Seq<u8>))>, None::<(Drive, (int, Seq<u8>))>) && final(self)@ == s
                    }
                }
            }),
    {
        let port = (address as u8) & 0x9f;
        if port >= 0x80 {
            // Address line 7 drives the enable input of the port decoder
            return ((None, None), Ok(()));
        }
        if port == 0x10 {
            let (w, outcome) = self.floppy_controller.put_command(value);
            ((w, None), outcome)
        } else if port == 0x11 {
            self.floppy_controller.put_track(value);
            ((None, None), Ok(()))
        } else if port == 0x12 {
            self.floppy_controller.put_sector(value);
            ((None, None), Ok(()))
        } else if port == 0x13 {
            let w = self.floppy_controller.put_data(value);
            ((w, None), Ok(()))
        } else if port == 0x1c {
            (self.update_system_bits(value), Ok(()))
        } else {
            ((None, None), Ok(()))
        }
    }

    /// Whether a read of I/O port `address` consults the keyboard, whose
    /// input the host must take in first.
    pub fn reads_keyboard(address: u16) -> (r: bool)
        ensures
            r == (port_of(address) == 0x05 || port_of(address) == 0x07),
    {
        let port = (address as u8) & 0x9f;
        port == 0x05 || port == 0x07
    }

    /// A read by the CPU of I/O port `address`: the keyboard's data and
    /// status ports, the floppy controller's registers and the system port;
    /// an address with bit 7 set (beyond 0x80) reads 0, other ports 0xca.
    pub fn port_in(&mut self, address: u16) -> (r: u8)
        requires
            old(self)@.wf(),
        ensures
            final(self)@.wf(),
            ({
                let s = old(self)@;
                let port = port_of(address);
                if port > 0x80 {
                    r == 0 && final(self)@ == s
                } else if port == 0x05 {
                    r == s.keyboard.key && final(self)@ == (MachineView {
                        keyboard: KeyboardView { key_available: false, ..s.keyboard },
                        ..s
                    })
                } else if port == 0x07 {
                    r == (if s.keyboard.key_available {
                        5u8
                    } else {
                        4u8
                    }) && final(self)@ == s
                } else if port == 0x10 {
                    r == s.fdc.drained().status && final(self)@ == (MachineView {
                        fdc: s.fdc.drained(),
                        ..s
                    })
                } else if port == 0x11 {
                    r == s.fdc.track && final(self)@ == s
                } else if port == 0x12 {
                    r == s.fdc.sector && final(self)@ == s
                } else if port == 0x13 {
                    r == s.fdc.after_get_data().data && final(self)@ == (MachineView {
                        fdc: s.fdc.after_get_data(),
                        ..s
                    })
                } else if port == 0x1c {
                    r == s.system_bits && final(self)@ == s
                } else {
                    r == 0xca && final(self)@ == s
                }
            }),
    {
        let port = (address as u8) & 0x9f;
        if port > 0x80 {
            // Address line 7 drives the enable input of the port decoder
            return 0;
        }
        if port == 0x05 {
            self.keyboard.get_key()
        } else if port == 0x07 {
            if self.keyboard.is_key_pressed() {
                5
            } else {
                4
            }
        } else if port == 0x10 {
            self.floppy_controller.get_status()
        } else if port == 0x11 {
            self.floppy_controller.get_track()
        } else if port == 0x12 {
            self.floppy_controller.get_sector()
        } else if port == 0x13 {
            self.floppy_controller.get_data()
        } else if port == 0x1c {
            self.system_bits
        } else {
            0xca
        }
    }

    /// The BIOS image for saving: from three bytes below the address that
    /// the jump at 0x0000 names up to 0xfc00. `None` when that start lies
    /// outside `[0, 0xfc00]`.
    pub fn bios_image(&self) -> (r: Option<(usize, Vec<u8>)>)
        requires
            self@.wf(),
        ensures
            ({
                let base = self@.ram[1] as int + self@.ram[2] as int * 256;
                match r {
                    Some((start, bytes)) => 3 <= base && base - 3 <= BIOS_END && start == base - 3
                        && bytes@ == self@.ram.subrange(start as int, BIOS_END as int),
                    None => !(3 <= base && base - 3 <= BIOS_END),
                }
            }),
    {
        let lo = self.ram[1] as usize;
        let hi = self.ram[2] as usize;
        let base = lo + hi * 256;
        if base < 3 || base - 3 > BIOS_END {
            return None;
        }
        let start = base - 3;
        let mut bytes: Vec<u8> = Vec::new();
        let mut i: usize = start;
        while i < BIOS_END
            invariant
                start <= i <= BIOS_END,
                self@.ram.len() == RAM_SIZE,
                bytes@ == self@.ram.subrange(start as int, i as int),
            decreases BIOS_END - i,
        {
            bytes.push(self.ram[i]);
            i = i + 1;
        }
        Some((start, bytes))
    }
}

} // verus!
