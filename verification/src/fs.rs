//! The read-only filesystem that shows the capture stream as one file.
//!
//! The filesystem never waits and never touches a channel. Where a read
//! runs out of bytes, [`IT9910FS::read`] returns [`ReadStep::NeedPacket`];
//! the host takes the next packet from the queue and hands it in with
//! [`IT9910FS::packet_received`], or says with
//! [`IT9910FS::receive_failed`] that the queue broke. Requests are served
//! one at a time: a read that comes while another waits for a packet is
//! refused, and so is a packet that no read waits for.

use crate::config::Config;
use vstd::prelude::*;
use vstd::slice::slice_subrange;

verus! {

/// Inode of the root directory.
pub const ROOT_INO: u64 = 1;

/// Inode of the stream file.
pub const STREAM_INO: u64 = 2;

/// Size that the stream file declares: 512 GiB. The stream has no end, but
/// most readers stop at the size they were told.
pub const STREAM_SIZE: u64 = 0x80_0000_0000;

/// The largest read that is served: 1 MiB.
pub const READ_CAPACITY: usize = 0x10_0000;

/// Seconds for which the kernel may cache an attribute record.
pub const TTL_SECONDS: u64 = 1;

/// The errors that a callback reports.
#[derive(Clone, Copy, Debug, PartialEq, Eq, Structural)]
pub enum FsError {
    /// No such file or directory. Also what a seek and an over-large read get.
    NotFound,
    /// Input/output error: a second client, or a stream that broke.
    Io,
}

impl FsError {
    /// The number that the C library of the target has for this error:
    /// `ENOENT` for `NotFound`, `EIO` for `Io`.
    pub fn errno(self) -> (number: i32) {
        self.errno_among(enoent(), eio())
    }

    /// The number for this error, where the C library has `enoent` for "no
    /// such file or directory" and `eio` for "input/output error".
    pub fn errno_among(self, enoent: i32, eio: i32) -> (number: i32)
        ensures
            number == match self {
                FsError::NotFound => enoent,
                FsError::Io => eio,
            },
    {
        match self {
            FsError::NotFound => enoent,
            FsError::Io => eio,
        }
    }
}

/// `libc::ENOENT`. Nothing is claimed of the number: it is 2 on Linux, and
/// another on some of the targets that the C library knows.
#[verifier::external_body]
fn enoent() -> (number: i32) {
    libc::ENOENT
}

/// `libc::EIO`. Nothing is claimed of the number: it is 5 on Linux, and
/// another on some of the targets that the C library knows.
#[verifier::external_body]
fn eio() -> (number: i32) {
    libc::EIO
}

#[derive(Clone, Copy, Debug, PartialEq, Eq, Structural)]
pub enum FileKind {
    Directory,
    RegularFile,
}

/// An attribute record, without its time stamps: they are all the epoch.
#[derive(Clone, Copy, Debug, PartialEq, Eq, Structural)]
pub struct FileAttr {
    pub ino: u64,
    pub size: u64,
    pub blocks: u64,
    pub kind: FileKind,
    pub perm: u16,
    pub nlink: u32,
    pub uid: u32,
    pub gid: u32,
    pub rdev: u32,
    pub flags: u32,
}

/// What `lookup` and `getattr` answer: an attribute record, and the
/// seconds for which the kernel may keep it.
#[derive(Clone, Copy, Debug, PartialEq, Eq, Structural)]
pub struct AttrReply {
    pub ttl_seconds: u64,
    pub attr: FileAttr,
}

/// One line of a directory listing.
#[derive(Clone, Copy, Debug, PartialEq, Eq)]
pub struct DirEntry {
    pub ino: u64,
    /// Offset of the entry that follows this one.
    pub offset: i64,
    pub kind: FileKind,
    pub name: &'static str,
}

/// What `open` answers.
#[derive(Clone, Copy, Debug, PartialEq, Eq, Structural)]
pub enum OpenReply {
    /// Not the stream file: nothing is answered and nothing changes.
    Silent,
    /// The request fails with this error.
    Error(FsError),
    /// The stream is open under this handle, and the worker has to be started.
    Opened(u64),
}

/// How far a read has come.
#[derive(Debug, PartialEq, Eq)]
pub enum ReadStep {
    /// The read is complete: these are its bytes.
    Data(Vec<u8>),
    /// The carry packet is drained and bytes are still missing: the next
    /// packet of the queue is wanted.
    NeedPacket,
    /// The request fails with this error.
    Error(FsError),
}

/// State of the one handle that may be open.
#[derive(Clone, Copy, Debug, PartialEq, Eq, Structural)]
pub struct OpenedFileData {
    /// The handle.
    pub fh: u64,
    /// Bytes returned on this handle so far; the offset of the next read.
    pub current_position: u64,
}

/// The read that waits for a packet, as the contracts see it.
pub struct Collecting {
    /// Bytes that the read asked for.
    pub size: nat,
    /// Bytes gathered so far, fewer than `size`.
    pub got: Seq<u8>,
}

/// The state of the filesystem: the settings for the worker, the one
/// handle that may be open, and the packet that reads are served from.
pub struct IT9910FS {
    config: Config,
    /// Bytes gathered for the read in progress.
    read_buffer: Vec<u8>,
    /// Size of the read in progress.
    wanted: Option<usize>,
    last_packet: Vec<u8>,
    last_packet_pos: usize,
    next_fh: u64,
    file_data: Option<OpenedFileData>,
    /// The bytes of all packets taken in since the handle was opened.
    received: Ghost<Seq<u8>>,
    /// The bytes of all reads completed since the handle was opened.
    delivered: Ghost<Seq<u8>>,
}

/// Attributes of the root directory.
pub open spec fn root_attr() -> FileAttr {
    FileAttr {
        ino: 1,
        size: 0,
        blocks: 0,
        kind: FileKind::Directory,
        perm: 0o755,
        nlink: 2,
        uid: 501,
        gid: 20,
        rdev: 0,
        flags: 0,
    }
}

/// Attributes of the stream file.
pub open spec fn stream_attr() -> FileAttr {
    FileAttr {
        ino: STREAM_INO,
        size: STREAM_SIZE,
        blocks: 0,
        kind: FileKind::RegularFile,
        perm: 0o644,
        nlink: 1,
        uid: 501,
        gid: 20,
        rdev: 0,
        flags: 0,
    }
}

/// The root directory in full.
pub open spec fn dir_entries() -> Seq<DirEntry> {
    seq![
        DirEntry { ino: 1, offset: 1, kind: FileKind::Directory, name: "." },
        DirEntry { ino: 1, offset: 2, kind: FileKind::Directory, name: ".." },
        DirEntry { ino: 2, offset: 3, kind: FileKind::RegularFile, name: "hdmi_stream.ts" },
    ]
}

/// The entries of the root directory from `offset` on. An offset that is
/// negative or past the end lists nothing.
pub open spec fn listing_from(offset: i64) -> Seq<DirEntry> {
    if 0 <= offset <= 3 {
        dir_entries().skip(offset as int)
    } else {
        Seq::empty()
    }
}

/// Whether a read on `fs` with these arguments is served, given that no
/// other read waits.
pub open spec fn read_admitted(fs: IT9910FS, ino: u64, fh: u64, offset: i64, size: u32) -> bool {
    &&& ino == STREAM_INO
    &&& fs.handle() == Some(fh)
    &&& offset == fs.position()
    &&& size <= READ_CAPACITY
}

impl IT9910FS {
    /// The invariant of the filesystem state.
    pub closed spec fn wf(&self) -> bool {
        &&& self.last_packet_pos <= self.last_packet.len()
        &&& match self.wanted {
            Some(size) => {
                &&& self.file_data is Some
                &&& self.read_buffer.len() < size <= READ_CAPACITY
                &&& self.last_packet_pos == self.last_packet.len()
                &&& self.file_data->0.current_position <= i64::MAX
            },
            None => self.read_buffer.len() == 0,
        }
        &&& self.file_data is Some ==> self.file_data->0.current_position <= i64::MAX + u32::MAX
        &&& self.received@ == self.delivered@ + self.read_buffer@ + self.unread()
        &&& match self.file_data {
            Some(file) => file.current_position == self.delivered@.len(),
            None => self.received@.len() == 0,
        }
    }

    /// The settings that the filesystem was built with.
    pub closed spec fn settings(&self) -> Config {
        self.config
    }

    /// The open handle, if there is one.
    pub closed spec fn handle(&self) -> Option<u64> {
        match self.file_data {
            Some(file) => Some(file.fh),
            None => None,
        }
    }

    /// Bytes returned on the open handle so far. Zero while nothing is open.
    pub closed spec fn position(&self) -> nat {
        match self.file_data {
            Some(file) => file.current_position as nat,
            None => 0,
        }
    }

    /// The handle that the next successful `open` gives out.
    pub closed spec fn next_handle(&self) -> u64 {
        self.next_fh
    }

    /// The bytes of the carry packet that no read has returned yet.
    pub closed spec fn unread(&self) -> Seq<u8> {
        self.last_packet@.skip(self.last_packet_pos as int)
    }

    /// The bytes of all packets that were handed in since the handle was
    /// opened, in the order in which they came. Nothing while nothing is
    /// open.
    pub closed spec fn received(&self) -> Seq<u8> {
        self.received@
    }

    /// The bytes of all reads that were completed since the handle was
    /// opened, in the order in which they were served. Nothing while
    /// nothing is open.
    pub closed spec fn delivered(&self) -> Seq<u8> {
        self.delivered@
    }

    /// The read that waits for a packet, if there is one.
    pub closed spec fn collecting(&self) -> Option<Collecting> {
        match self.wanted {
            Some(size) => Some(Collecting { size: size as nat, got: self.read_buffer@ }),
            None => None,
        }
    }

    /// A filesystem on which nothing is open.
    pub fn new(
        width: u32,
        height: u32,
        fps: u32,
        bitrate: u32,
        audio_src: u32,
        video_src: u32,
        brightness: i32,
        contrast: i32,
        hue: i32,
        saturation: i32,
    ) -> (made: Result<Self, String>)
        ensures
            made matches Ok(fs) && fs.wf() && fs.settings() == (Config {
                width,
                height,
                fps,
                bitrate,
                audio_src,
                video_src,
                brightness,
                contrast,
                hue,
                saturation,
            }) && fs.handle() is None && fs.next_handle() == 0 && fs.unread() == Seq::<u8>::empty()
                && fs.collecting() is None && fs.received() == Seq::<u8>::empty() && fs.delivered()
                == Seq::<u8>::empty(),
    {
        Ok(
            IT9910FS {
                config: Config {
                    width,
                    height,
                    fps,
                    bitrate,
                    audio_src,
                    video_src,
                    brightness,
                    contrast,
                    hue,
                    saturation,
                },
                read_buffer: Vec::new(),
                wanted: None,
                last_packet: Vec::new(),
                last_packet_pos: 0,
                next_fh: 0,
                file_data: None,
                received: Ghost(Seq::empty()),
                delivered: Ghost(Seq::empty()),
            },
        )
    }

    /// The settings, for the worker that `open` asks for.
    pub fn config(&self) -> (config: Config)
        ensures
            config == self.settings(),
    {
        self.config
    }

    /// The state of the open handle, if there is one.
    pub fn file_data(&self) -> (file: Option<OpenedFileData>)
        ensures
            match file {
                Some(data) => self.handle() == Some(data.fh) && self.position()
                    == data.current_position,
                None => self.handle() is None,
            },
    {
        self.file_data
    }

    /// Whether a read waits for a packet.
    pub fn awaits_packet(&self) -> (waiting: bool)
        ensures
            waiting == self.collecting() is Some,
    {
        self.wanted.is_some()
    }

    /// Finds the stream file in the root directory: the only name that
    /// resolves. `name` is `None` where the name asked for is not UTF-8.
    pub fn lookup(&self, parent: u64, name: Option<&str>) -> (found: Result<AttrReply, FsError>)
        ensures
            found == if parent == ROOT_INO && (name matches Some(n) && n@ == "hdmi_stream.ts"@) {
                Ok::<AttrReply, FsError>(
                    AttrReply { ttl_seconds: TTL_SECONDS, attr: stream_attr() },
                )
            } else {
                Err(FsError::NotFound)
            },
    {
        let hit = match name {
            Some(n) => parent == ROOT_INO && n.to_owned() == "hdmi_stream.ts".to_owned(),
            None => false,
        };
        if hit {
            Ok(AttrReply { ttl_seconds: TTL_SECONDS, attr: stream_file() })
        } else {
            Err(FsError::NotFound)
        }
    }

    /// The fixed attribute record of an inode.
    pub fn getattr(&self, ino: u64) -> (found: Result<AttrReply, FsError>)
        ensures
            found == if ino == ROOT_INO {
                Ok::<AttrReply, FsError>(AttrReply { ttl_seconds: TTL_SECONDS, attr: root_attr() })
            } else if ino == STREAM_INO {
                Ok(AttrReply { ttl_seconds: TTL_SECONDS, attr: stream_attr() })
            } else {
                Err(FsError::NotFound)
            },
    {
        if ino == ROOT_INO {
            Ok(AttrReply { ttl_seconds: TTL_SECONDS, attr: root_directory() })
        } else if ino == STREAM_INO {
            Ok(AttrReply { ttl_seconds: TTL_SECONDS, attr: stream_file() })
        } else {
            Err(FsError::NotFound)
        }
    }

    /// Lists the root directory from `offset` on.
    pub fn readdir(&self, ino: u64, offset: i64) -> (listed: Result<Vec<DirEntry>, FsError>)
        ensures
            ino != ROOT_INO ==> listed == Err::<Vec<DirEntry>, FsError>(FsError::NotFound),
            ino == ROOT_INO ==> (listed matches Ok(entries) && entries@ == listing_from(offset)),
    {
        if ino != ROOT_INO {
            return Err(FsError::NotFound);
        }
        let mut entries: Vec<DirEntry> = Vec::new();
        if offset == 0 {
            entries.push(DirEntry { ino: 1, offset: 1, kind: FileKind::Directory, name: "." });
        }
        if 0 <= offset && offset <= 1 {
            entries.push(DirEntry { ino: 1, offset: 2, kind: FileKind::Directory, name: ".." });
        }
        if 0 <= offset && offset <= 2 {
            entries.push(
                DirEntry {
                    ino: 2,
                    offset: 3,
                    kind: FileKind::RegularFile,
                    name: "hdmi_stream.ts",
                },
            );
        }
        Ok(entries)
    }

    /// Opens the stream for its one client.
    pub fn open(&mut self, ino: u64) -> (reply: OpenReply)
        requires
            old(self).wf(),
        ensures
            final(self).wf(),
            final(self).settings() == old(self).settings(),
            ino != STREAM_INO || old(self).handle() is Some ==> *final(self) == *old(self),
            ino != STREAM_INO ==> reply == OpenReply::Silent,
            ino == STREAM_INO && old(self).handle() is Some ==> reply == OpenReply::Error(
                FsError::Io,
            ),
            ino == STREAM_INO && old(self).handle() is None ==> {
                &&& reply == OpenReply::Opened(old(self).next_handle())
                &&& final(self).handle() == Some(old(self).next_handle())
                &&& final(self).position() == 0
                &&& final(self).unread() == Seq::<u8>::empty()
                &&& final(self).collecting() is None
                &&& final(self).received() == Seq::<u8>::empty()
                &&& final(self).delivered() == Seq::<u8>::empty()
                &&& final(self).next_handle() == if old(self).next_handle() == u64::MAX {
                    0
                } else {
                    (old(self).next_handle() + 1) as u64
                }
            },
    {
        if ino != STREAM_INO {
            return OpenReply::Silent;
        }
        if self.file_data.is_some() {
            return OpenReply::Error(FsError::Io);
        }
        let fh = self.next_fh;
        self.last_packet = Vec::new();
        self.last_packet_pos = 0;
        self.read_buffer = Vec::new();
        self.wanted = None;
        self.file_data = Some(OpenedFileData { fh, current_position: 0 });
        self.received = Ghost(Seq::empty());
        self.delivered = Ghost(Seq::empty());
        self.next_fh = if fh == u64::MAX {
            0
        } else {
            fh + 1
        };
        OpenReply::Opened(fh)
    }

    /// Serves a read on the stream as far as the carry packet reaches.
    ///
    /// The read is refused with `NotFound`, and nothing changes, unless it
    /// is on the stream file, under the open handle, at the position that
    /// the handle has reached, and of at most [`READ_CAPACITY`] bytes.
    /// While another read waits for a packet, every read is refused with
    /// `Io`, and nothing changes.
    pub fn read(&mut self, ino: u64, fh: u64, offset: i64, size: u32) -> (step: ReadStep)
        requires
            old(self).wf(),
        ensures
            final(self).wf(),
            final(self).settings() == old(self).settings(),
            final(self).handle() == old(self).handle(),
            final(self).next_handle() == old(self).next_handle(),
            final(self).received() == old(self).received(),
            old(self).collecting() is Some ==> {
                &&& step == ReadStep::Error(FsError::Io)
                &&& *final(self) == *old(self)
            },
            old(self).collecting() is None && !read_admitted(*old(self), ino, fh, offset, size)
                ==> {
                &&& step == ReadStep::Error(FsError::NotFound)
                &&& *final(self) == *old(self)
            },
            old(self).collecting() is None && read_admitted(*old(self), ino, fh, offset, size)
                && size <= old(self).unread().len() ==> {
                &&& step matches ReadStep::Data(data)
                &&& data@ == old(self).unread().take(size as int)
                &&& final(self).unread() == old(self).unread().skip(size as int)
                &&& final(self).position() == old(self).position() + size
                &&& final(self).delivered() == old(self).delivered() + data@
                &&& final(self).collecting() is None
            },
            old(self).collecting() is None && read_admitted(*old(self), ino, fh, offset, size)
                && size > old(self).unread().len() ==> {
                &&& step is NeedPacket
                &&& final(self).collecting() == Some(
                    Collecting { size: size as nat, got: old(self).unread() },
                )
                &&& final(self).unread() == Seq::<u8>::empty()
                &&& final(self).position() == old(self).position()
                &&& final(self).delivered() == old(self).delivered()
            },
    {
        if self.wanted.is_some() {
            return ReadStep::Error(FsError::Io);
        }
        if ino != STREAM_INO {
            return ReadStep::Error(FsError::NotFound);
        }
        let position = match self.file_data {
            Some(file) => {
                if file.fh != fh {
                    return ReadStep::Error(FsError::NotFound);
                }
                file.current_position
            },
            None => {
                return ReadStep::Error(FsError::NotFound);
            },
        };
        if offset < 0 || offset as u64 != position {
            return ReadStep::Error(FsError::NotFound);
        }
        if size as usize > READ_CAPACITY {
            return ReadStep::Error(FsError::NotFound);
        }
        self.collect(size as usize)
    }

    /// Goes on with the read that waits, now that the queue has given
    /// `packet`: the packet becomes the carry packet.
    ///
    /// Where no read waits, the packet is refused with `Io`, and nothing
    /// changes.
    pub fn packet_received(&mut self, packet: Vec<u8>) -> (step: ReadStep)
        requires
            old(self).wf(),
        ensures
            final(self).wf(),
            final(self).settings() == old(self).settings(),
            final(self).handle() == old(self).handle(),
            final(self).next_handle() == old(self).next_handle(),
            old(self).collecting() is None ==> {
                &&& step == ReadStep::Error(FsError::Io)
                &&& *final(self) == *old(self)
            },
            old(self).collecting() is Some ==> ({
                let Collecting { size, got } = old(self).collecting()->0;
                let missing = size - got.len();
                &&& final(self).received() == old(self).received() + packet@
                &&& if missing <= packet@.len() {
                    &&& step matches ReadStep::Data(data)
                    &&& data@ == got + packet@.take(missing)
                    &&& final(self).unread() == packet@.skip(missing)
                    &&& final(self).position() == old(self).position() + size
                    &&& final(self).delivered() == old(self).delivered() + data@
                    &&& final(self).collecting() is None
                } else {
                    &&& step is NeedPacket
                    &&& final(self).collecting() == Some(Collecting { size, got: got + packet@ })
                    &&& final(self).unread() == Seq::<u8>::empty()
                    &&& final(self).position() == old(self).position()
                    &&& final(self).delivered() == old(self).delivered()
                }
            }),
    {
        let size = match self.wanted {
            Some(size) => size,
            None => {
                return ReadStep::Error(FsError::Io);
            },
        };
        let ghost bytes = packet@;
        self.last_packet = packet;
        self.last_packet_pos = 0;
        self.received = Ghost(self.received@ + bytes);
        assert(self.unread() == bytes);
        self.collect(size)
    }

    /// Takes note that the queue broke: the read that waits is given up and
    /// fails with `Io`, and the handle is evicted with its carry state.
    pub fn receive_failed(&mut self) -> (error: FsError)
        requires
            old(self).wf(),
        ensures
            final(self).wf(),
            error == FsError::Io,
            final(self).settings() == old(self).settings(),
            final(self).next_handle() == old(self).next_handle(),
            final(self).handle() is None,
            final(self).collecting() is None,
            final(self).unread() == Seq::<u8>::empty(),
            final(self).received() == Seq::<u8>::empty(),
            final(self).delivered() == Seq::<u8>::empty(),
    {
        self.read_buffer = Vec::new();
        self.wanted = None;
        self.last_packet = Vec::new();
        self.last_packet_pos = 0;
        self.file_data = None;
        self.received = Ghost(Seq::empty());
        self.delivered = Ghost(Seq::empty());
        FsError::Io
    }

    /// Closes `fh`. Returns whether the file table is empty afterwards: the
    /// worker then has to be told to stop and waited for, and the carry
    /// state is gone.
    pub fn release(&mut self, fh: u64) -> (idle: bool)
        requires
            old(self).wf(),
        ensures
            final(self).wf(),
            final(self).settings() == old(self).settings(),
            final(self).next_handle() == old(self).next_handle(),
            final(self).handle() == if old(self).handle() == Some(fh) {
                None
            } else {
                old(self).handle()
            },
            idle == final(self).handle() is None,
            idle ==> {
                &&& final(self).unread() == Seq::<u8>::empty()
                &&& final(self).collecting() is None
                &&& final(self).received() == Seq::<u8>::empty()
                &&& final(self).delivered() == Seq::<u8>::empty()
            },
            !idle ==> *final(self) == *old(self),
    {
        let matches_handle = match self.file_data {
            Some(file) => file.fh == fh,
            None => true,
        };
        if matches_handle {
            self.read_buffer = Vec::new();
            self.wanted = None;
            self.last_packet = Vec::new();
            self.last_packet_pos = 0;
            self.file_data = None;
            self.received = Ghost(Seq::empty());
            self.delivered = Ghost(Seq::empty());
        }
        matches_handle
    }

    /// Moves bytes from the carry packet to the read in progress, which is
    /// of `size` bytes, and completes it if that was enough.
    fn collect(&mut self, size: usize) -> (step: ReadStep)
        requires
            old(self).last_packet_pos <= old(self).last_packet.len(),
            old(self).file_data is Some,
            old(self).file_data->0.current_position <= i64::MAX,
            old(self).read_buffer.len() <= size <= READ_CAPACITY,
            old(self).read_buffer.len() < size || size == 0,
            old(self).received@ == old(self).delivered@ + old(self).read_buffer@ + old(
                self,
            ).unread(),
            old(self).file_data->0.current_position == old(self).delivered@.len(),
        ensures
            final(self).wf(),
            final(self).settings() == old(self).settings(),
            final(self).handle() == old(self).handle(),
            final(self).next_handle() == old(self).next_handle(),
            final(self).received() == old(self).received(),
            ({
                let got = old(self).read_buffer@;
                let missing = size - got.len();
                if missing <= old(self).unread().len() {
                    &&& step matches ReadStep::Data(data)
                    &&& data@ == got + old(self).unread().take(missing)
                    &&& final(self).unread() == old(self).unread().skip(missing)
                    &&& final(self).position() == old(self).position() + size
                    &&& final(self).delivered() == old(self).delivered() + data@
                    &&& final(self).collecting() is None
                } else {
                    &&& step is NeedPacket
                    &&& final(self).collecting() == Some(
                        Collecting { size: size as nat, got: got + old(self).unread() },
                    )
                    &&& final(self).unread() == Seq::<u8>::empty()
                    &&& final(self).position() == old(self).position()
                    &&& final(self).delivered() == old(self).delivered()
                }
            }),
    {
        let missing = size - self.read_buffer.len();
        let carried = self.last_packet.len() - self.last_packet_pos;
        let to_copy = if missing < carried {
            missing
        } else {
            carried
        };
        let from = self.last_packet_pos;
        self.read_buffer.extend_from_slice(
            slice_subrange(self.last_packet.as_slice(), from, from + to_copy),
        );
        self.last_packet_pos = from + to_copy;
        assert(self.read_buffer@ == old(self).read_buffer@ + old(self).unread().take(
            to_copy as int,
        ));
        if self.read_buffer.len() == size {
            let mut data: Vec<u8> = Vec::new();
            std::mem::swap(&mut self.read_buffer, &mut data);
            self.wanted = None;
            self.delivered = Ghost(self.delivered@ + data@);
            match self.file_data {
                Some(file) => {
                    self.file_data = Some(
                        OpenedFileData {
                            fh: file.fh,
                            current_position: file.current_position + size as u64,
                        },
                    );
                },
                None => {},
            }
            assert(self.received@ =~= self.delivered@ + self.read_buffer@ + self.unread());
            ReadStep::Data(data)
        } else {
            self.wanted = Some(size);
            assert(old(self).unread().take(to_copy as int) == old(self).unread());
            assert(self.received@ =~= self.delivered@ + self.read_buffer@ + self.unread());
            ReadStep::NeedPacket
        }
    }
}

/// Attributes of the root directory.
pub fn root_directory() -> (attr: FileAttr)
    ensures
        attr == root_attr(),
{
    FileAttr {
        ino: ROOT_INO,
        size: 0,
        blocks: 0,
        kind: FileKind::Directory,
        perm: 0o755,
        nlink: 2,
        uid: 501,
        gid: 20,
        rdev: 0,
        flags: 0,
    }
}

/// Attributes of the stream file.
pub fn stream_file() -> (attr: FileAttr)
    ensures
        attr == stream_attr(),
{
    FileAttr {
        ino: STREAM_INO,
        size: STREAM_SIZE,
        blocks: 0,
        kind: FileKind::RegularFile,
        perm: 0o644,
        nlink: 1,
        uid: 501,
        gid: 20,
        rdev: 0,
        flags: 0,
    }
}

/// Stream monotonicity: the bytes that the reads on the open handle have
/// returned so far, one read after the other, are the first bytes of the
/// packets that came in since it was opened, in the order in which they
/// came, with nothing left out and nothing twice. What the packets hold
/// beyond that is what the read in progress has gathered, then what is
/// left of the carry packet. The handle's position is the number of bytes
/// returned.
pub proof fn lemma_stream_prefix(fs: IT9910FS)
    requires
        fs.wf(),
    ensures
        fs.delivered().is_prefix_of(fs.received()),
        fs.received() == fs.delivered() + match fs.collecting() {
            Some(read) => read.got,
            None => Seq::empty(),
        } + fs.unread(),
        fs.handle() is Some ==> fs.position() == fs.delivered().len(),
        fs.handle() is None ==> fs.received().len() == 0,
{
}

} // verus!
