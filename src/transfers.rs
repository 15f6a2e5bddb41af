//! What the controller's register transitions add up to over whole
//! commands and transfers: a sector read byte by byte, a sector written
//! byte by byte, a READ ADDRESS descriptor, and the flush on drive switch.
use vstd::prelude::*;
use crate::media::{SECTOR_SIZE, next_sector, sector_offset, sectors_per_side_of};
use crate::floppy_controller::{
    Drive, FDCStatus, FdcCommand, FdcView, command_class, command_fatal, drive_of, status_bits,
};

verus! {

/// The state after `n` data register reads, and the bytes they return.
pub open spec fn get_data_n(s: FdcView, n: nat) -> (FdcView, Seq<u8>)
    decreases n,
{
    if n == 0 {
        (s, Seq::empty())
    } else {
        let t = s.after_get_data();
        let rest = get_data_n(t, (n - 1) as nat);
        (rest.0, seq![t.data] + rest.1)
    }
}

/// The state after the bytes `vs` are written to the data register one by
/// one, and the backing-file write that the last of them triggered.
pub open spec fn put_data_n(s: FdcView, vs: Seq<u8>) -> (FdcView, Option<(Drive, (int, Seq<u8>))>)
    decreases vs.len(),
{
    if vs.len() == 0 {
        (s, None)
    } else {
        let t = s.after_put_data(vs[0]);
        let rest = put_data_n(t, vs.drop_first());
        (rest.0, if vs.len() == 1 {
            s.put_data_write(vs[0])
        } else {
            rest.1
        })
    }
}

proof fn lemma_read_run(s: FdcView, n: nat)
    requires
        s.wf(),
        s.queue.len() == 0,
        n > 0,
        s.read_index + n == s.read_last,
        s.read_last <= s.selected().content.len(),
    ensures
        get_data_n(s, n).1 == s.selected().content.subrange(s.read_index, s.read_last),
        get_data_n(s, n).0.read_index == 0,
        get_data_n(s, n).0.read_last == 0,
        get_data_n(s, n).0.status == status_bits(FDCStatus::NoError),
        get_data_n(s, n).0.sector == (s.sector + 1) % 256,
        get_data_n(s, n).0.selected() == s.selected(),
    decreases n,
{
    let t = s.after_get_data();
    if n > 1 {
        lemma_read_run(t, (n - 1) as nat);
        assert(get_data_n(s, n).1 =~= s.selected().content.subrange(s.read_index, s.read_last));
    } else {
        assert(get_data_n(t, 0) == (t, Seq::<u8>::empty()));
        assert(get_data_n(s, n).1 =~= s.selected().content.subrange(s.read_index, s.read_last));
    }
}

/// READ SECTOR on a valid sector, with no response bytes queued, arms a
/// transfer whose next 512 data reads return the sector's bytes in order;
/// after them the transfer is over and the busy bit is clear.
pub proof fn lemma_read_sector_streams(s: FdcView, cmd: u8)
    requires
        s.wf(),
        command_class(cmd) == FdcCommand::ReadSector,
        command_fatal(cmd) is None,
        s.queue.len() == 0,
        s.selected().sector_valid(s.side_2, s.track as int, s.sector as int),
    ensures
        ({
            let offset = sector_offset(s.selected().format, s.track as int, s.sector as int);
            let (u, bytes) = get_data_n(s.after_command(cmd), SECTOR_SIZE as nat);
            &&& bytes == s.selected().content.subrange(offset, offset + SECTOR_SIZE)
            &&& !u.transfer_active()
            &&& u.status & status_bits(FDCStatus::Busy) == 0
        }),
{
    let t = s.after_command(cmd);
    lemma_read_run(t, SECTOR_SIZE as nat);
    assert(0u8 & 1u8 == 0u8) by (bit_vector);
}

/// The selected media's content after the bytes `vs` are stored from the
/// cursor on.
pub open spec fn stored_run(s: FdcView, vs: Seq<u8>) -> Seq<u8> {
    let c = s.selected().content;
    c.subrange(0, s.read_index) + vs + c.subrange(s.read_index + vs.len(), c.len() as int)
}

proof fn lemma_write_run(s: FdcView, vs: Seq<u8>, start: int)
    requires
        s.wf(),
        vs.len() > 0,
        s.read_index + vs.len() == s.read_last,
        s.read_last <= s.selected().content.len(),
        start <= s.read_index,
        s.selected().is_dirty() ==> s.selected().write_min == start && s.selected().write_max
            == s.read_index - 1,
        !s.selected().is_dirty() ==> s.read_index == start,
    ensures
        ({
            let (u, w) = put_data_n(s, vs);
            let stored = stored_run(s, vs);
            &&& u.wf()
            &&& u.drive == s.drive
            &&& u.selected().content == stored
            &&& u.selected().persistent == s.selected().persistent
            &&& !u.selected().is_dirty()
            &&& !u.transfer_active()
            &&& u.status == status_bits(FDCStatus::NoError)
            &&& w == if s.selected().persistent {
                Some((drive_of(s.drive), (start, stored.subrange(start, s.read_last))))
            } else {
                None::<(Drive, (int, Seq<u8>))>
            }
        }),
    decreases vs.len(),
{
    let t = s.after_put_data(vs[0]);
    let c = s.selected().content;
    let ri = s.read_index;
    if vs.len() > 1 {
        lemma_write_run(t, vs.drop_first(), start);
        assert(stored_run(t, vs.drop_first()) =~= stored_run(s, vs));
    } else {
        assert(put_data_n(t, vs.drop_first()) == (t, None::<(Drive, (int, Seq<u8>))>));
        assert(t.selected().content =~= stored_run(s, vs));
    }
}

/// WRITE SECTOR on a valid sector followed by 512 data writes leaves those
/// bytes at the sector's range, every other byte as it was, and no dirty
/// range; when the drive has a backing file, the last data write hands it
/// exactly those bytes at the sector's offset.
pub proof fn lemma_write_sector_stores(s: FdcView, cmd: u8, vs: Seq<u8>)
    requires
        s.wf(),
        command_class(cmd) == FdcCommand::WriteSector,
        command_fatal(cmd) is None,
        s.selected().sector_valid(s.side_2, s.track as int, s.sector as int),
        vs.len() == SECTOR_SIZE,
    ensures
        ({
            let m = s.selected();
            let offset = sector_offset(m.format, s.track as int, s.sector as int);
            let (u, w) = put_data_n(s.after_command(cmd), vs);
            &&& u.selected().content.len() == m.content.len()
            &&& u.selected().content.subrange(offset, offset + SECTOR_SIZE) == vs
            &&& forall|i: int|
                0 <= i < m.content.len() && !(offset <= i < offset + SECTOR_SIZE) ==> #[trigger] u.selected().content[i]
                    == m.content[i]
            &&& !u.selected().is_dirty()
            &&& !u.transfer_active()
            &&& w == if m.persistent {
                Some((drive_of(s.drive), (offset, vs)))
            } else {
                None::<(Drive, (int, Seq<u8>))>
            }
        }),
{
    let t = s.after_command(cmd);
    let m = s.selected();
    let offset = sector_offset(m.format, s.track as int, s.sector as int);
    lemma_write_run(t, vs, offset);
    let stored = stored_run(t, vs);
    assert(stored.subrange(offset, offset + SECTOR_SIZE) =~= vs);
}

proof fn lemma_drain_run(s: FdcView, n: nat)
    requires
        n <= s.queue.len(),
    ensures
        get_data_n(s, n).1 == s.queue.subrange(0, n as int),
        get_data_n(s, n).0.queue == s.queue.subrange(n as int, s.queue.len() as int),
    decreases n,
{
    if n > 0 {
        let t = s.after_get_data();
        lemma_drain_run(t, (n - 1) as nat);
        assert(get_data_n(s, n).1 =~= s.queue.subrange(0, n as int));
        assert(get_data_n(s, n).0.queue =~= s.queue.subrange(n as int, s.queue.len() as int));
    } else {
        assert(s.queue.subrange(0, 0) =~= Seq::<u8>::empty());
        assert(s.queue.subrange(0, s.queue.len() as int) =~= s.queue);
    }
}

/// READ ADDRESS on a sector that cannot be addressed reports a seek error
/// and its next six data reads return zeros. On a valid one it reports no
/// error, the six reads return track, side, sector, the size code 2 and
/// the two placeholder CRC bytes, and the sector register moves to the
/// next sector of the side, wrapping past the last one to 0.
pub proof fn lemma_read_address(s: FdcView, cmd: u8)
    requires
        s.wf(),
        command_class(cmd) == FdcCommand::ReadAddress,
    ensures
        command_fatal(cmd) is None,
        ({
            let m = s.selected();
            let t = s.after_command(cmd);
            let bytes = get_data_n(t, 6).1;
            let sps = sectors_per_side_of(m.format);
            &&& !m.sector_valid(s.side_2, s.track as int, s.sector as int) ==> {
                &&& bytes == seq![0u8, 0u8, 0u8, 0u8, 0u8, 0u8]
                &&& t.status == status_bits(FDCStatus::SeekErrorOrRecordNotFound)
                &&& t.sector == s.sector
            }
            &&& m.sector_valid(s.side_2, s.track as int, s.sector as int) ==> {
                &&& bytes == s.address_descriptor()
                &&& t.status == status_bits(FDCStatus::NoError)
                &&& t.sector == next_sector(sps, s.sector as int)
                &&& sps == 10 && s.sector == 9 ==> t.sector == 0
            }
        }),
{
    let t = s.after_command(cmd);
    lemma_drain_run(t, 6);
    assert(t.queue.subrange(0, 6) =~= t.queue);
}

/// Selecting a drive while the selected one holds unflushed writes and
/// has a backing file hands that file the whole dirty range, and leaves
/// the drive with nothing left to write.
pub proof fn lemma_switch_flushes_dirty(s: FdcView, d: u8)
    requires
        s.wf(),
        d <= 1,
        s.selected().persistent,
        s.selected().is_dirty(),
    ensures
        ({
            let m = s.selected();
            let t = FdcView { drive: d, ..s.flush_selected() };
            let left = if s.drive == 0 {
                t.media_a
            } else {
                t.media_b
            };
            &&& s.pending_write() == Some(
                (drive_of(s.drive), (m.write_min, m.content.subrange(m.write_min, m.write_max + 1))),
            )
            &&& left.content == m.content
            &&& !left.is_dirty()
            &&& left.pending_write() is None
        }),
{
}

} // verus!
