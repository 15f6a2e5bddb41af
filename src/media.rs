//! One drive's removable media: a raw sector image, the geometry derived
//! from its length, and the contiguous range of bytes written since the
//! last flush to the backing file.
use vstd::prelude::*;
use vstd::string::StringExecFns;

verus! {

/// Physical layout of a disk image, as recognised from its byte length.
#[derive(PartialEq, Eq, Structural, Clone, Copy, Debug)]
pub enum MediaFormat {
    Unformatted,
    /// Single-sided, single-density.
    SSSD,
    /// Single-sided, double-density.
    SSDD,
    /// Double-sided, double-density.
    DSDD,
}

/// Bytes in one sector.
pub const SECTOR_SIZE: usize = 512;

/// The format that an image of `len` bytes holds.
pub open spec fn format_of_len(len: int) -> MediaFormat {
    if len == 102400 {
        MediaFormat::SSSD
    } else if 204800 <= len <= 205824 {
        MediaFormat::SSDD
    } else if 409600 <= len <= 411648 {
        MediaFormat::DSDD
    } else {
        MediaFormat::Unformatted
    }
}

/// Tracks on each side.
pub open spec fn tracks_of(f: MediaFormat) -> int {
    match f {
        MediaFormat::Unformatted => 0,
        _ => 40,
    }
}

/// Sectors on one side of a track.
pub open spec fn sectors_per_side_of(f: MediaFormat) -> int {
    match f {
        MediaFormat::Unformatted => 0,
        _ => 10,
    }
}

/// Sectors on a track, both sides together.
pub open spec fn sectors_of(f: MediaFormat) -> int {
    match f {
        MediaFormat::Unformatted => 0,
        MediaFormat::DSDD => 20,
        _ => 10,
    }
}

pub open spec fn double_sided_of(f: MediaFormat) -> bool {
    f == MediaFormat::DSDD
}

/// Whether (side, track, sector id) names a sector of the geometry: side 2
/// only on a double-sided format, a track below the track count, and a sector
/// id in `[0, sps)` on side 1 or in `[sps, 2 * sps)` on side 2.
pub open spec fn geometry_valid(f: MediaFormat, side_2: bool, track: int, sector: int) -> bool {
    &&& (!side_2 || double_sided_of(f))
    &&& 0 <= track < tracks_of(f)
    &&& if side_2 {
        sectors_per_side_of(f) <= sector < sectors_of(f)
    } else {
        0 <= sector < sectors_per_side_of(f)
    }
}

/// Offset of the first byte of a sector: sectors are laid out track after
/// track, both sides of a track together.
pub open spec fn sector_offset(f: MediaFormat, track: int, sector: int) -> int {
    (track * sectors_of(f) + sector) * SECTOR_SIZE as int
}

/// The sector number that follows `sector` on a side of `sps` sectors.
pub open spec fn next_sector(sps: int, sector: int) -> int {
    if sector + 1 >= sps {
        0
    } else {
        sector + 1
    }
}

/// How a description names a format.
pub open spec fn format_label(f: MediaFormat) -> Seq<char> {
    match f {
        MediaFormat::Unformatted => " (unformatted)"@,
        MediaFormat::SSSD => " (SSSD)"@,
        MediaFormat::SSDD => " (SSDD)"@,
        MediaFormat::DSDD => " (DSDD)"@,
    }
}

/// A one-line description of a media: its name, whether writes persist,
/// and its format.
pub open spec fn info_text(m: MediaView) -> Seq<char> {
    m.name + " ("@ + (if m.persistent {
        "persistent"@
    } else {
        "transient"@
    }) + " "@ + format_label(m.format) + ")"@
}

/// Recognises the format of an image from its length.
pub fn detect_media_format(len: usize) -> (f: MediaFormat)
    ensures
        f == format_of_len(len as int),
{
    if len == 102400 {
        MediaFormat::SSSD
    } else if len >= 204800 && len <= 205824 {
        // Some images carry a few trailing bytes past the last sector.
        MediaFormat::SSDD
    } else if len >= 409600 && len <= 411648 {
        MediaFormat::DSDD
    } else {
        MediaFormat::Unformatted
    }
}


/// A byte range to write to a drive's backing file: `bytes` go at `offset`.
pub struct DiskWrite {
    pub offset: usize,
    pub bytes: Vec<u8>,
}

impl View for DiskWrite {
    type V = (int, Seq<u8>);

    open spec fn view(&self) -> (int, Seq<u8>) {
        (self.offset as int, self.bytes@)
    }
}

/// The abstract value of an optional write.
pub open spec fn write_view(w: Option<DiskWrite>) -> Option<(int, Seq<u8>)> {
    match w {
        Some(w) => Some(w@),
        None => None,
    }
}

/// Why an image was refused.
#[derive(PartialEq, Eq, Structural, Clone, Copy, Debug)]
pub enum MediaError {
    /// The image length matches no known format; it holds that length.
    UnrecognizedFormat(usize),
}

/// The emulated media in one drive slot.
///
/// `persistent` says whether a backing file receives the flushed writes;
/// without one the content lives in memory only.
pub struct Media {
    pub persistent: bool,
    pub name: String,
    pub content: Vec<u8>,
    pub format: MediaFormat,
    /// First byte written since the last flush; the range is empty when
    /// `write_max < write_min`.
    pub write_min: usize,
    /// Last byte written since the last flush.
    pub write_max: usize,
}

/// Abstract state of a `Media`.
pub struct MediaView {
    pub persistent: bool,
    pub name: Seq<char>,
    pub content: Seq<u8>,
    pub format: MediaFormat,
    pub write_min: int,
    pub write_max: int,
}

impl View for Media {
    type V = MediaView;

    open spec fn view(&self) -> MediaView {
        MediaView {
            persistent: self.persistent,
            name: self.name@,
            content: self.content@,
            format: self.format,
            write_min: self.write_min as int,
            write_max: self.write_max as int,
        }
    }
}

impl MediaView {
    /// The format is the one its length gives, and a non-empty dirty range
    /// lies inside the content; an empty one is held as `(usize::MAX, 0)`.
    pub open spec fn wf(self) -> bool {
        &&& self.format == format_of_len(self.content.len() as int)
        &&& self.is_dirty() ==> 0 <= self.write_min && self.write_max < self.content.len()
        &&& !self.is_dirty() ==> self.write_min == usize::MAX && self.write_max == 0
    }

    pub open spec fn is_dirty(self) -> bool {
        self.write_min <= self.write_max
    }

    /// Whether a sector can be transferred: it exists in the geometry and all
    /// of its bytes lie in the content.
    pub open spec fn sector_valid(self, side_2: bool, track: int, sector: int) -> bool {
        &&& geometry_valid(self.format, side_2, track, sector)
        &&& sector_offset(self.format, track, sector) + SECTOR_SIZE <= self.content.len()
    }

    /// The write that a flush hands to the backing file: the dirty range,
    /// whole, when there is a file and the range is not empty.
    pub open spec fn pending_write(self) -> Option<(int, Seq<u8>)> {
        if self.persistent && self.is_dirty() {
            Some((self.write_min, self.content.subrange(self.write_min, self.write_max + 1)))
        } else {
            None
        }
    }

    /// The state after a flush: the dirty range is emptied.
    pub open spec fn flushed(self) -> MediaView {
        if self.is_dirty() {
            MediaView { write_min: usize::MAX as int, write_max: 0, ..self }
        } else {
            self
        }
    }

    /// The state after `value` is stored at `index`, which the dirty range
    /// then covers.
    pub open spec fn written(self, index: int, value: u8) -> MediaView {
        MediaView {
            content: self.content.update(index, value),
            write_min: if index < self.write_min { index } else { self.write_min },
            write_max: if index > self.write_max { index } else { self.write_max },
            ..self
        }
    }
}

impl Media {
    /// A transient media named `name` that holds `content`.
    pub fn new(name: String, content: Vec<u8>) -> (m: Media)
        ensures
            m@.wf(),
            !m@.persistent,
            m@.name == name@,
            m@.content == content@,
            !m@.is_dirty(),
    {
        let format = detect_media_format(content.len());
        Media { persistent: false, name, content, format, write_min: usize::MAX, write_max: 0 }
    }

    pub fn double_sided(&self) -> (r: bool)
        ensures
            r == double_sided_of(self.format),
    {
        self.format == MediaFormat::DSDD
    }

    pub fn tracks(&self) -> (r: u8)
        ensures
            r == tracks_of(self.format),
    {
        match self.format {
            MediaFormat::Unformatted => 0,
            _ => 40,
        }
    }

    pub fn sectors_per_side(&self) -> (r: u8)
        ensures
            r == sectors_per_side_of(self.format),
    {
        match self.format {
            MediaFormat::Unformatted => 0,
            _ => 10,
        }
    }

    pub fn sectors(&self) -> (r: u8)
        ensures
            r == sectors_of(self.format),
    {
        match self.format {
            MediaFormat::Unformatted => 0,
            MediaFormat::DSDD => 20,
            _ => 10,
        }
    }

    /// Replaces the content with an image read from `name`, after checking
    /// that its length is a known format. `persistent` says whether later
    /// flushes have a file to go to. On success the writes still pending
    /// on the previous content are returned, for its backing file; on
    /// failure nothing changes.
    pub fn load_disk(&mut self, name: String, content: Vec<u8>, persistent: bool) -> (r: Result<
        Option<DiskWrite>,
        MediaError,
    >)
        requires
            old(self)@.wf(),
        ensures
            final(self)@.wf(),
            format_of_len(content@.len() as int) == MediaFormat::Unformatted ==> r == Err::<
                Option<DiskWrite>,
                MediaError,
            >(MediaError::UnrecognizedFormat(content@.len() as usize)) && final(self)@ == old(self)@,
            format_of_len(content@.len() as int) != MediaFormat::Unformatted ==> r is Ok && write_view(
                r->Ok_0,
            ) == old(self)@.pending_write() && final(self)@ == (MediaView {
                persistent,
                name: name@,
                content: content@,
                format: format_of_len(content@.len() as int),
                write_min: usize::MAX as int,
                write_max: 0,
            }),
    {
        let format = detect_media_format(content.len());
        if format == MediaFormat::Unformatted {
            return Err(MediaError::UnrecognizedFormat(content.len()));
        }
        let pending = self.flush_disk();
        self.persistent = persistent;
        self.name = name;
        self.content = content;
        self.format = format;
        self.write_min = usize::MAX;
        self.write_max = 0;
        Ok(pending)
    }

    /// Empties the dirty range, and returns the write that carries it to the
    /// backing file, if there is a file and anything to write.
    pub fn flush_disk(&mut self) -> (r: Option<DiskWrite>)
        requires
            old(self)@.wf(),
        ensures
            final(self)@ == old(self)@.flushed(),
            write_view(r) == old(self)@.pending_write(),
    {
        if self.write_max < self.write_min {
            return None;
        }
        let mut write: Option<DiskWrite> = None;
        if self.persistent {
            let mut bytes: Vec<u8> = Vec::new();
            let mut i: usize = self.write_min;
            while i <= self.write_max
                invariant
                    self@.wf(),
                    self.write_min <= i <= self.write_max + 1,
                    self.write_max < self.content.len(),
                    bytes@ == self.content@.subrange(self.write_min as int, i as int),
                decreases self.write_max + 1 - i,
            {
                bytes.push(self.content[i]);
                i = i + 1;
            }
            write = Some(DiskWrite { offset: self.write_min, bytes });
        }
        self.write_max = 0;
        self.write_min = usize::MAX;
        write
    }

    pub fn is_valid_track(&self, track: u8) -> (r: bool)
        ensures
            r == (track < tracks_of(self.format)),
    {
        track < self.tracks()
    }

    pub fn is_valid_sector(&self, side_2: bool, track: u8, sector: u8) -> (r: bool)
        requires
            self@.wf(),
        ensures
            r == self@.sector_valid(side_2, track as int, sector as int),
    {
        let (valid, _index, _last) = self.sector_index(side_2, track, sector);
        valid
    }

    /// The sector after `sector` on a side, wrapping to 0 past the last one.
    pub fn inc_sector(&self, sector: u8) -> (r: u8)
        ensures
            r == next_sector(sectors_per_side_of(self.format), sector as int),
    {
        if sector as u16 + 1 >= self.sectors_per_side() as u16 {
            0
        } else {
            sector + 1
        }
    }

    /// Resolves (side, track, sector id) to the byte range `[index, last)`
    /// of that sector; the first element says whether the sector is valid,
    /// and the range is `(0, 0)` when it is not.
    pub fn sector_index(&self, side_2: bool, track: u8, sector: u8) -> (r: (bool, usize, usize))
        requires
            self@.wf(),
        ensures
            r.0 == self@.sector_valid(side_2, track as int, sector as int),
            r.0 ==> r.1 == sector_offset(self.format, track as int, sector as int) && r.2 == r.1
                + SECTOR_SIZE,
            !r.0 ==> r.1 == 0 && r.2 == 0,
    {
        if side_2 && !self.double_sided() {
            // Side 2 of a single-sided disk
            return (false, 0, 0);
        }
        if track >= self.tracks() {
            return (false, 0, 0);
        }
        if !side_2 && sector >= self.sectors_per_side() {
            // Out of range for side 1
            return (false, 0, 0);
        }
        if side_2 && sector < self.sectors_per_side() {
            // Below the first id of side 2
            return (false, 0, 0);
        }
        if side_2 && sector >= self.sectors() {
            // Out of range for side 2
            return (false, 0, 0);
        }
        let t = track as usize;
        let per_track = self.sectors() as usize;
        assert(t * per_track <= 40 * 20) by (nonlinear_arith)
            requires
                t < 40,
                per_track <= 20,
        ;
        let index = (t * per_track + sector as usize) * SECTOR_SIZE;
        let last = index + SECTOR_SIZE;
        if last > self.content.len() {
            // Part of the sector lies past the end of the image
            return (false, 0, 0);
        }
        (true, index, last)
    }

    /// Describes the media for diagnostics.
    pub fn info(&self) -> (r: String)
        ensures
            r@ == info_text(self@),
    {
        let mut r = self.name.clone();
        r.append(" (");
        if self.persistent {
            r.append("persistent");
        } else {
            r.append("transient");
        }
        r.append(" ");
        match self.format {
            MediaFormat::Unformatted => r.append(" (unformatted)"),
            MediaFormat::SSSD => r.append(" (SSSD)"),
            MediaFormat::SSDD => r.append(" (SSDD)"),
            MediaFormat::DSDD => r.append(" (DSDD)"),
        }
        r.append(")");
        r
    }

    pub fn read_byte(&self, index: usize) -> (r: u8)
        requires
            index < self.content@.len(),
        ensures
            r == self.content@[index as int],
    {
        self.content[index]
    }

    /// Stores `value` at `index` and extends the dirty range over it.
    pub fn write_byte(&mut self, index: usize, value: u8)
        requires
            old(self)@.wf(),
            index < old(self).content@.len(),
        ensures
            final(self)@ == old(self)@.written(index as int, value),
            final(self)@.wf(),
    {
        self.content.set(index, value);
        if index < self.write_min {
            self.write_min = index;
        }
        if index > self.write_max {
            self.write_max = index;
        }
    }
}

/// A byte stored at a valid offset is the byte read back there, and the
/// media stays well formed.
pub proof fn lemma_write_then_read(m: MediaView, offset: int, v: u8)
    requires
        m.wf(),
        0 <= offset < m.content.len(),
    ensures
        m.written(offset, v).content[offset] == v,
        m.written(offset, v).content.len() == m.content.len(),
        m.written(offset, v).wf(),
{
}

/// A second flush right after a first finds nothing to write and changes
/// nothing: two flushes in a row write to the backing file at most once.
pub proof fn lemma_flush_idempotent(m: MediaView)
    requires
        m.wf(),
    ensures
        m.flushed().wf(),
        m.flushed().pending_write() is None,
        m.flushed().flushed() == m.flushed(),
        m.flushed().content == m.content,
{
}

} // verus!
