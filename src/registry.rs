//! The table of virtual devices, keyed by their ids, with each device's
//! format and attached stream.
use vstd::prelude::*;
use crate::ring::{RingBuffer, StreamView, after_read, after_write, fresh_stream, read_bytes};
use crate::wire::{AudioFormat, ControlError, DeviceId, NAME_UNITS, RingBufferHeader, frame_bytes};

verus! {

/// Frames held by the ring buffer attached on a format change.
pub const STREAM_BUFFER_FRAMES: u32 = 1024;

/// A device as a client sees it.
pub struct DeviceView {
    pub id: Seq<u8>,
    pub name: Seq<u16>,
    pub is_enabled: bool,
    pub persistent: bool,
    pub format: Option<AudioFormat>,
    pub stream: Option<StreamView>,
}

/// A name as stored: at most `NAME_UNITS` code units, longer ones truncated.
pub open spec fn clip_name(name: Seq<u16>) -> Seq<u16> {
    if name.len() <= NAME_UNITS {
        name
    } else {
        name.take(NAME_UNITS as int)
    }
}

/// Capacity in bytes of the stream attached for a format.
pub open spec fn stream_size(f: AudioFormat) -> nat {
    (frame_bytes(f) * STREAM_BUFFER_FRAMES) as nat
}

/// Whether some device has the id.
pub open spec fn contains(s: Seq<DeviceView>, id: Seq<u8>) -> bool {
    exists|i: int| 0 <= i < s.len() && (#[trigger] s[i]).id == id
}

/// Position of the device with the id; meaningful where `contains` holds.
pub open spec fn find(s: Seq<DeviceView>, id: Seq<u8>) -> int {
    choose|i: int| 0 <= i < s.len() && (#[trigger] s[i]).id == id
}

/// No two devices share an id.
pub open spec fn ids_unique(s: Seq<DeviceView>) -> bool {
    forall|i: int, j: int| 0 <= i < s.len() && 0 <= j < s.len() && i != j ==> (#[trigger] s[i]).id
        != (#[trigger] s[j]).id
}

/// The table and result after a create.
pub open spec fn create_spec(
    s: Seq<DeviceView>,
    id: Seq<u8>,
    name: Seq<u16>,
    is_enabled: bool,
    persistent: bool,
) -> (Seq<DeviceView>, Result<(), ControlError>) {
    if contains(s, id) {
        (s, Err(ControlError::AlreadyExists))
    } else {
        (
            s.push(
                DeviceView {
                    id,
                    name: clip_name(name),
                    is_enabled,
                    persistent,
                    format: None,
                    stream: None,
                },
            ),
            Ok(()),
        )
    }
}

/// The table and result after a remove; the stream goes with its device.
pub open spec fn remove_spec(s: Seq<DeviceView>, id: Seq<u8>) -> (
    Seq<DeviceView>,
    Result<(), ControlError>,
) {
    if contains(s, id) {
        (s.remove(find(s, id)), Ok(()))
    } else {
        (s, Err(ControlError::NotFound))
    }
}

/// The table and result after a rename.
pub open spec fn rename_spec(s: Seq<DeviceView>, id: Seq<u8>, name: Seq<u16>) -> (
    Seq<DeviceView>,
    Result<(), ControlError>,
) {
    if contains(s, id) {
        let i = find(s, id);
        (s.update(i, DeviceView { name: clip_name(name), ..s[i] }), Ok(()))
    } else {
        (s, Err(ControlError::NotFound))
    }
}

/// The table and result after enabling or disabling a device.
pub open spec fn set_enabled_spec(s: Seq<DeviceView>, id: Seq<u8>, flag: bool) -> (
    Seq<DeviceView>,
    Result<(), ControlError>,
) {
    if contains(s, id) {
        let i = find(s, id);
        (s.update(i, DeviceView { is_enabled: flag, ..s[i] }), Ok(()))
    } else {
        (s, Err(ControlError::NotFound))
    }
}

/// The table and result after a format change: refused while a stream is
/// attached, else the format is bound and a fresh stream sized for it attached.
pub open spec fn set_format_spec(s: Seq<DeviceView>, id: Seq<u8>, format: AudioFormat) -> (
    Seq<DeviceView>,
    Result<(), ControlError>,
) {
    if !contains(s, id) {
        (s, Err(ControlError::NotFound))
    } else if s[find(s, id)].stream.is_some() {
        (s, Err(ControlError::Busy))
    } else {
        let i = find(s, id);
        (
            s.update(
                i,
                DeviceView {
                    format: Some(format),
                    stream: Some(fresh_stream(stream_size(format))),
                    ..s[i]
                },
            ),
            Ok(()),
        )
    }
}

/// The table and result after detaching a device's stream; the format stays bound.
pub open spec fn detach_spec(s: Seq<DeviceView>, id: Seq<u8>) -> (
    Seq<DeviceView>,
    Result<(), ControlError>,
) {
    if contains(s, id) {
        let i = find(s, id);
        (s.update(i, DeviceView { stream: None, ..s[i] }), Ok(()))
    } else {
        (s, Err(ControlError::NotFound))
    }
}

/// The table and result after writing to a device's stream.
pub open spec fn stream_write_spec(s: Seq<DeviceView>, id: Seq<u8>, bytes: Seq<u8>) -> (
    Seq<DeviceView>,
    Result<(), ControlError>,
) {
    if !contains(s, id) || s[find(s, id)].stream.is_none() {
        (s, Err(ControlError::NotFound))
    } else {
        let i = find(s, id);
        let v = s[i].stream.unwrap();
        if v.write_index + bytes.len() > u64::MAX {
            (s, Err(ControlError::InvalidRequest))
        } else {
            (s.update(i, DeviceView { stream: Some(after_write(v, bytes)), ..s[i] }), Ok(()))
        }
    }
}

/// The table and result after reading from a device's stream.
pub open spec fn stream_read_spec(s: Seq<DeviceView>, id: Seq<u8>, max_len: nat) -> (
    Seq<DeviceView>,
    Result<Seq<u8>, ControlError>,
) {
    if !contains(s, id) || s[find(s, id)].stream.is_none() {
        (s, Err(ControlError::NotFound))
    } else {
        let i = find(s, id);
        let v = s[i].stream.unwrap();
        (
            s.update(i, DeviceView { stream: Some(after_read(v, max_len)), ..s[i] }),
            Ok(read_bytes(v, max_len)),
        )
    }
}

/// The table and result after acknowledging status bits of a device's stream.
pub open spec fn acknowledge_spec(s: Seq<DeviceView>, id: Seq<u8>, mask: u32) -> (
    Seq<DeviceView>,
    Result<(), ControlError>,
) {
    if !contains(s, id) || s[find(s, id)].stream.is_none() {
        (s, Err(ControlError::NotFound))
    } else {
        let i = find(s, id);
        let v = s[i].stream.unwrap();
        (
            s.update(i, DeviceView { stream: Some(StreamView { status: v.status & !mask, ..v }), ..s[i] }),
            Ok(()),
        )
    }
}

/// The position of a present id is the unique one holding it.
proof fn lemma_find_at(s: Seq<DeviceView>, id: Seq<u8>, i: int)
    requires
        ids_unique(s),
        0 <= i < s.len(),
        s[i].id == id,
    ensures
        contains(s, id),
        find(s, id) == i,
{
    assert(contains(s, id));
    let k = find(s, id);
    assert(s[k].id == id);
}

/// Every operation keeps ids unique.
proof fn lemma_ops_keep_ids_unique(s: Seq<DeviceView>, id: Seq<u8>, name: Seq<u16>, flag: bool, format: AudioFormat)
    requires
        ids_unique(s),
    ensures
        ids_unique(create_spec(s, id, name, flag, flag).0),
        ids_unique(remove_spec(s, id).0),
        ids_unique(set_format_spec(s, id, format).0),
        ids_unique(detach_spec(s, id).0),
{
    let c = create_spec(s, id, name, flag, flag).0;
    if !contains(s, id) {
        assert forall|i: int, j: int|
            0 <= i < c.len() && 0 <= j < c.len() && i != j implies (#[trigger] c[i]).id != (
            #[trigger] c[j]).id by {
            if i == s.len() {
                assert(s[j].id != id);
            } else if j == s.len() {
                assert(s[i].id != id);
            } else {
                assert(s[i].id != s[j].id);
            }
        }
    }
    let r = remove_spec(s, id).0;
    if contains(s, id) {
        let k = find(s, id);
        assert forall|i: int, j: int|
            0 <= i < r.len() && 0 <= j < r.len() && i != j implies (#[trigger] r[i]).id != (
            #[trigger] r[j]).id by {
            let i0 = if i < k { i } else { i + 1 };
            let j0 = if j < k { j } else { j + 1 };
            assert(r[i] == s[i0] && r[j] == s[j0]);
        }
    }
    let f = set_format_spec(s, id, format).0;
    assert forall|i: int, j: int|
        0 <= i < f.len() && 0 <= j < f.len() && i != j implies (#[trigger] f[i]).id != (
        #[trigger] f[j]).id by {
        assert(f[i].id == s[i].id && f[j].id == s[j].id);
    }
    let d = detach_spec(s, id).0;
    assert forall|i: int, j: int|
        0 <= i < d.len() && 0 <= j < d.len() && i != j implies (#[trigger] d[i]).id != (
        #[trigger] d[j]).id by {
        assert(d[i].id == s[i].id && d[j].id == s[j].id);
    }
}

/// Table size: a successful create adds one device, a successful remove takes
/// one away, and a failed one changes nothing. Creating a new id and then
/// removing it restores the table exactly; removing an id that is not there
/// fails with `NotFound` and leaves the table as it was.
pub proof fn lemma_create_remove(
    s: Seq<DeviceView>,
    id: Seq<u8>,
    name: Seq<u16>,
    is_enabled: bool,
    persistent: bool,
)
    requires
        ids_unique(s),
    ensures
        create_spec(s, id, name, is_enabled, persistent).1 is Ok ==> create_spec(
            s,
            id,
            name,
            is_enabled,
            persistent,
        ).0.len() == s.len() + 1,
        create_spec(s, id, name, is_enabled, persistent).1 is Err ==> create_spec(
            s,
            id,
            name,
            is_enabled,
            persistent,
        ).0 == s,
        remove_spec(s, id).1 is Ok ==> remove_spec(s, id).0.len() == s.len() - 1,
        remove_spec(s, id).1 is Err ==> remove_spec(s, id).0 == s,
        !contains(s, id) ==> create_spec(s, id, name, is_enabled, persistent).1 is Ok && remove_spec(
            create_spec(s, id, name, is_enabled, persistent).0,
            id,
        ) == (s, Ok::<(), ControlError>(())),
        !contains(s, id) ==> remove_spec(s, id) == (s, Err::<(), ControlError>(ControlError::NotFound)),
{
    if !contains(s, id) {
        let c = create_spec(s, id, name, is_enabled, persistent).0;
        assert(ids_unique(c)) by {
            assert forall|i: int, j: int|
                0 <= i < c.len() && 0 <= j < c.len() && i != j implies (#[trigger] c[i]).id != (
                #[trigger] c[j]).id by {
                if i == s.len() {
                    assert(s[j].id != id);
                } else if j == s.len() {
                    assert(s[i].id != id);
                } else {
                    assert(s[i].id != s[j].id);
                }
            }
        }
        lemma_find_at(c, id, s.len() as int);
        assert(c.remove(s.len() as int) =~= s);
    }
}

/// A format change while a stream is attached is refused with `Busy` and
/// changes nothing; after the stream is detached the same change succeeds,
/// binds the new format and attaches a fresh stream whose capacity is a whole
/// number of the new format's frames.
pub proof fn lemma_busy_until_detached(s: Seq<DeviceView>, id: Seq<u8>, format: AudioFormat)
    requires
        ids_unique(s),
        contains(s, id),
        s[find(s, id)].stream is Some,
    ensures
        set_format_spec(s, id, format) == (s, Err::<(), ControlError>(ControlError::Busy)),
        detach_spec(s, id).1 is Ok,
        ({
            let d = detach_spec(s, id).0;
            let (t, r) = set_format_spec(d, id, format);
            &&& r is Ok
            &&& contains(t, id)
            &&& t[find(t, id)].format == Some(format)
            &&& t[find(t, id)].stream == Some(fresh_stream(stream_size(format)))
            &&& stream_size(format) % (frame_bytes(format) as nat) == 0
        }),
{
    let i = find(s, id);
    let d = detach_spec(s, id).0;
    lemma_ops_keep_ids_unique(s, id, Seq::empty(), false, format);
    lemma_find_at(d, id, i);
    let t = set_format_spec(d, id, format).0;
    lemma_ops_keep_ids_unique(d, id, Seq::empty(), false, format);
    lemma_find_at(t, id, i);
    let fb = frame_bytes(format);
    let c = crate::wire::channel_count(format.channels);
    let b = crate::wire::sample_bytes(format.data_type);
    assert(1 <= c * b <= 32) by (nonlinear_arith)
        requires
            1 <= c <= 8,
            1 <= b <= 4,
    ;
    assert(((fb * STREAM_BUFFER_FRAMES) as nat) % (fb as nat) == 0) by (nonlinear_arith)
        requires
            1 <= fb <= 32,
            STREAM_BUFFER_FRAMES == 1024,
    ;
}

/// Whether two ids are equal, byte by byte.
pub fn same_id(a: &DeviceId, b: &DeviceId) -> (r: bool)
    ensures
        r == (a@ == b@),
{
    let mut i: usize = 0;
    while i < 16
        invariant
            i <= 16,
            a@.len() == 16,
            b@.len() == 16,
            forall|j: int| 0 <= j < i ==> a@[j] == b@[j],
        decreases 16 - i,
    {
        if a[i] != b[i] {
            return false;
        }
        i = i + 1;
    }
    assert(a@ =~= b@);
    true
}

/// Copies a name, keeping at most `NAME_UNITS` code units.
fn clipped(name: &[u16]) -> (r: Vec<u16>)
    ensures
        r@ == clip_name(name@),
{
    let n: usize = if name.len() <= NAME_UNITS {
        name.len()
    } else {
        NAME_UNITS
    };
    let mut r: Vec<u16> = Vec::new();
    let mut i: usize = 0;
    while i < n
        invariant
            n <= name@.len(),
            n == (if name@.len() <= NAME_UNITS {
                name@.len()
            } else {
                NAME_UNITS as nat
            }),
            i <= n,
            r@ =~= name@.take(i as int),
        decreases n - i,
    {
        r.push(name[i]);
        i = i + 1;
    }
    assert(name@.take(name@.len() as int) =~= name@);
    r
}

/// One virtual device.
pub struct DeviceRecord {
    id: DeviceId,
    friendly_name: Vec<u16>,
    is_enabled: bool,
    persistent: bool,
    format: Option<AudioFormat>,
    stream: Option<RingBuffer>,
}

impl View for DeviceRecord {
    type V = DeviceView;

    closed spec fn view(&self) -> DeviceView {
        DeviceView {
            id: self.id@,
            name: self.friendly_name@,
            is_enabled: self.is_enabled,
            persistent: self.persistent,
            format: self.format,
            stream: match self.stream {
                Some(rb) => Some(rb@),
                None => None,
            },
        }
    }
}

impl DeviceRecord {
    /// A stream is attached only with a bound format, and is sized for it.
    pub closed spec fn wf(&self) -> bool {
        match self.stream {
            Some(rb) => rb.wf() && self.format.is_some() && rb@.buffer_size == stream_size(
                self.format.unwrap(),
            ),
            None => true,
        }
    }
}

/// The registry of virtual devices.
pub struct Registry {
    records: Vec<DeviceRecord>,
}

impl View for Registry {
    type V = Seq<DeviceView>;

    closed spec fn view(&self) -> Seq<DeviceView> {
        self.records@.map_values(|r: DeviceRecord| r@)
    }
}

impl Registry {
    /// Ids are unique and every record is well formed.
    pub closed spec fn wf(&self) -> bool {
        &&& ids_unique(self@)
        &&& forall|i: int| 0 <= i < self.records@.len() ==> (#[trigger] self.records@[i]).wf()
    }

    /// An empty registry.
    pub fn new() -> (r: Registry)
        ensures
            r.wf(),
            r@ == Seq::<DeviceView>::empty(),
    {
        let r = Registry { records: Vec::new() };
        assert(r@ =~= Seq::<DeviceView>::empty());
        r
    }

    /// Number of devices.
    pub fn len(&self) -> (n: usize)
        ensures
            n == self@.len(),
    {
        self.records.len()
    }

    /// Position of the device with `id`.
    fn index_of(&self, id: &DeviceId) -> (r: Option<usize>)
        requires
            self.wf(),
        ensures
            match r {
                Some(i) => i < self@.len() && i == find(self@, id@) && contains(self@, id@),
                None => !contains(self@, id@),
            },
    {
        let mut i: usize = 0;
        while i < self.records.len()
            invariant
                self.wf(),
                i <= self.records@.len(),
                self@.len() == self.records@.len(),
                forall|j: int| 0 <= j < i ==> (#[trigger] self@[j]).id != id@,
            decreases self.records@.len() - i,
        {
            if same_id(&self.records[i].id, id) {
                assert(self@[i as int].id == id@);
                assert(contains(self@, id@));
                let ghost k = find(self@, id@);
                assert(ids_unique(self@));
                assert(k == i);
                return Some(i);
            }
            i = i + 1;
        }
        None
    }

    /// Whether a device with `id` exists.
    pub fn contains_id(&self, id: &DeviceId) -> (r: bool)
        requires
            self.wf(),
        ensures
            r == contains(self@, id@),
    {
        self.index_of(id).is_some()
    }

    /// Adds a device with no format and no stream.
    pub fn create(&mut self, id: &DeviceId, name: &[u16], is_enabled: bool, persistent: bool) -> (r:
        Result<(), ControlError>)
        requires
            old(self).wf(),
        ensures
            final(self).wf(),
            (final(self)@, r) == create_spec(old(self)@, id@, name@, is_enabled, persistent),
    {
        match self.index_of(id) {
            Some(_) => Err(ControlError::AlreadyExists),
            None => {
                let rec = DeviceRecord {
                    id: *id,
                    friendly_name: clipped(name),
                    is_enabled,
                    persistent,
                    format: None,
                    stream: None,
                };
                let ghost before = self@;
                self.records.push(rec);
                assert(self@ =~= before.push(rec@));
                Ok(())
            },
        }
    }

    /// Removes a device, detaching and releasing its stream first.
    pub fn remove(&mut self, id: &DeviceId) -> (r: Result<(), ControlError>)
        requires
            old(self).wf(),
        ensures
            final(self).wf(),
            (final(self)@, r) == remove_spec(old(self)@, id@),
    {
        match self.index_of(id) {
            None => Err(ControlError::NotFound),
            Some(i) => {
                let ghost before = self@;
                self.records[i].stream = None;
                let _rec = self.records.remove(i);
                assert(self@ =~= before.remove(i as int));
                Ok(())
            },
        }
    }
    /// Renames a device; an attached stream is untouched.
    pub fn rename(&mut self, id: &DeviceId, name: &[u16]) -> (r: Result<(), ControlError>)
        requires
            old(self).wf(),
        ensures
            final(self).wf(),
            (final(self)@, r) == rename_spec(old(self)@, id@, name@),
    {
        match self.index_of(id) {
            None => Err(ControlError::NotFound),
            Some(i) => {
                let ghost before = self@;
                self.records[i].friendly_name = clipped(name);
                assert(self@ =~= rename_spec(before, id@, name@).0);
                Ok(())
            },
        }
    }

    /// Enables or disables a device; an attached stream is untouched.
    pub fn set_enabled(&mut self, id: &DeviceId, flag: bool) -> (r: Result<(), ControlError>)
        requires
            old(self).wf(),
        ensures
            final(self).wf(),
            (final(self)@, r) == set_enabled_spec(old(self)@, id@, flag),
    {
        match self.index_of(id) {
            None => Err(ControlError::NotFound),
            Some(i) => {
                let ghost before = self@;
                self.records[i].is_enabled = flag;
                assert(self@ =~= set_enabled_spec(before, id@, flag).0);
                Ok(())
            },
        }
    }

    /// Binds a format and attaches a fresh stream of `STREAM_BUFFER_FRAMES`
    /// frames of it; refused while a stream is attached.
    pub fn set_format(&mut self, id: &DeviceId, format: AudioFormat) -> (r: Result<(), ControlError>)
        requires
            old(self).wf(),
        ensures
            final(self).wf(),
            (final(self)@, r) == set_format_spec(old(self)@, id@, format),
    {
        match self.index_of(id) {
            None => Err(ControlError::NotFound),
            Some(i) => {
                if self.records[i].stream.is_some() {
                    return Err(ControlError::Busy);
                }
                let ghost before = self@;
                let size: u32 = format.frame_size() * STREAM_BUFFER_FRAMES;
                let rb = RingBuffer::new(size);
                self.records[i].format = Some(format);
                self.records[i].stream = Some(rb);
                assert(self@ =~= set_format_spec(before, id@, format).0);
                Ok(())
            },
        }
    }

    /// Detaches and releases a device's stream, if any; the format stays bound.
    pub fn detach(&mut self, id: &DeviceId) -> (r: Result<(), ControlError>)
        requires
            old(self).wf(),
        ensures
            final(self).wf(),
            (final(self)@, r) == detach_spec(old(self)@, id@),
    {
        match self.index_of(id) {
            None => Err(ControlError::NotFound),
            Some(i) => {
                let ghost before = self@;
                self.records[i].stream = None;
                assert(self@ =~= detach_spec(before, id@).0);
                Ok(())
            },
        }
    }

    /// Destroys every device, detaching each stream first.
    pub fn clear(&mut self)
        requires
            old(self).wf(),
        ensures
            final(self).wf(),
            final(self)@ == Seq::<DeviceView>::empty(),
    {
        while self.records.len() > 0
            invariant
                self.wf(),
            decreases self.records@.len(),
        {
            let ghost before = self@;
            let last = self.records.len() - 1;
            self.records[last].stream = None;
            let _rec = self.records.pop();
            assert(self@ =~= before.drop_last());
        }
        assert(self@ =~= Seq::<DeviceView>::empty());
    }

    /// Producer side: writes `bytes` into the stream of device `id`.
    pub fn write_stream(&mut self, id: &DeviceId, bytes: &[u8]) -> (r: Result<(), ControlError>)
        requires
            old(self).wf(),
        ensures
            final(self).wf(),
            (final(self)@, r) == stream_write_spec(old(self)@, id@, bytes@),
    {
        match self.index_of(id) {
            None => Err(ControlError::NotFound),
            Some(i) => {
                let ghost before = self@;
                let fits = match &self.records[i].stream {
                    None => None,
                    Some(rb) => {
                        proof {
                            rb.lemma_view_bounds();
                        }
                        Some(bytes.len() as u64 <= u64::MAX - rb.header().write_index)
                    },
                };
                match fits {
                    None => Err(ControlError::NotFound),
                    Some(false) => Err(ControlError::InvalidRequest),
                    Some(true) => {
                        let ghost fmt = self.records@[i as int].format;
                        if let Some(rb) = &mut self.records[i].stream {
                            rb.write(bytes);
                        }
                        assert(self.records@[i as int].format == fmt);
                        assert(self.records@[i as int].wf());
                        assert(forall|j: int|
                            0 <= j < self.records@.len() && j != i ==> self.records@[j] == old(
                                self,
                            ).records@[j]);
                        assert(self@ =~= stream_write_spec(before, id@, bytes@).0);
                        Ok(())
                    },
                }
            },
        }
    }

    /// Consumer side: reads up to `max_len` bytes from the stream of device `id`.
    pub fn read_stream(&mut self, id: &DeviceId, max_len: usize) -> (r: Result<Vec<u8>, ControlError>)
        requires
            old(self).wf(),
        ensures
            final(self).wf(),
            final(self)@ == stream_read_spec(old(self)@, id@, max_len as nat).0,
            match (r, stream_read_spec(old(self)@, id@, max_len as nat).1) {
                (Ok(out), Ok(expected)) => out@ == expected,
                (Err(e), Err(expected)) => e == expected,
                _ => false,
            },
    {
        match self.index_of(id) {
            None => Err(ControlError::NotFound),
            Some(i) => {
                let ghost before = self@;
                if self.records[i].stream.is_none() {
                    return Err(ControlError::NotFound);
                }
                let mut out: Vec<u8> = Vec::new();
                if let Some(rb) = &mut self.records[i].stream {
                    out = rb.read(max_len);
                }
                assert(self.records@[i as int].wf());
                assert(self@ =~= stream_read_spec(before, id@, max_len as nat).0);
                Ok(out)
            },
        }
    }

    /// Clears the status bits in `mask` of the stream of device `id`.
    pub fn acknowledge_stream_status(&mut self, id: &DeviceId, mask: u32) -> (r: Result<(), ControlError>)
        requires
            old(self).wf(),
        ensures
            final(self).wf(),
            (final(self)@, r) == acknowledge_spec(old(self)@, id@, mask),
    {
        match self.index_of(id) {
            None => Err(ControlError::NotFound),
            Some(i) => {
                let ghost before = self@;
                if self.records[i].stream.is_none() {
                    return Err(ControlError::NotFound);
                }
                if let Some(rb) = &mut self.records[i].stream {
                    rb.acknowledge_status(mask);
                }
                assert(self.records@[i as int].wf());
                assert(self@ =~= acknowledge_spec(before, id@, mask).0);
                Ok(())
            },
        }
    }

    /// The header of the stream attached to device `id`, if any.
    pub fn stream_header(&self, id: &DeviceId) -> (r: Option<RingBufferHeader>)
        requires
            self.wf(),
        ensures
            match r {
                Some(h) => contains(self@, id@) && self@[find(self@, id@)].stream.is_some() && {
                    let v = self@[find(self@, id@)].stream.unwrap();
                    &&& h.buffer_size == v.buffer_size
                    &&& h.write_index == v.write_index
                    &&& h.read_index == v.read_index
                    &&& h.status == v.status
                },
                None => !contains(self@, id@) || self@[find(self@, id@)].stream.is_none(),
            },
    {
        match self.index_of(id) {
            None => None,
            Some(i) => match &self.records[i].stream {
                None => None,
                Some(rb) => Some(rb.header()),
            },
        }
    }

    /// The format bound to device `id`, if it exists and has one.
    pub fn format_of(&self, id: &DeviceId) -> (r: Option<AudioFormat>)
        requires
            self.wf(),
        ensures
            r == (if contains(self@, id@) {
                self@[find(self@, id@)].format
            } else {
                None
            }),
    {
        match self.index_of(id) {
            None => None,
            Some(i) => self.records[i].format,
        }
    }

    /// The name of device `id`, if it exists.
    pub fn name_of(&self, id: &DeviceId) -> (r: Option<Vec<u16>>)
        requires
            self.wf(),
        ensures
            match r {
                Some(n) => contains(self@, id@) && n@ == self@[find(self@, id@)].name,
                None => !contains(self@, id@),
            },
    {
        match self.index_of(id) {
            None => None,
            Some(i) => Some(self.records[i].friendly_name.clone()),
        }
    }

    /// Whether device `id` exists and is enabled.
    pub fn is_enabled(&self, id: &DeviceId) -> (r: bool)
        requires
            self.wf(),
        ensures
            r == (contains(self@, id@) && self@[find(self@, id@)].is_enabled),
    {
        match self.index_of(id) {
            None => false,
            Some(i) => self.records[i].is_enabled,
        }
    }
}

} // verus!
