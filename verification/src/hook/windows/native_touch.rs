//! Observe only the touchscreen HID collection, including apps consuming native
//! touch without mouse promotion. The adapter registers for raw input and reads
//! each packet; the packet layout, the device table and the contact state across
//! devices are here.
use vstd::prelude::*;
use crate::hook::windows::focus_restore::{cancel_native, FocusState};
use crate::hook::windows::touch_contacts::Decoder;

verus! {

/// The timer that settles the cursor after a native release.
pub const RELEASE_TIMER: usize = 0x4c42_4d54;

/// The largest raw input packet that is read.
pub const MAX_PACKET: usize = 65536;

/// The most touchscreens that are tracked at once.
pub const MAX_DEVICES: usize = 8;

/// The most HID reports that one packet may carry.
pub const MAX_REPORTS: usize = 32;

/// How long the cursor may take to settle after a native release.
pub const CURSOR_SETTLE_MS: u32 = 50;

/// The HID usage page and usage of a touchscreen.
pub const TOUCHSCREEN_PAGE: u16 = 0x0d;
pub const TOUCHSCREEN_USAGE: u16 = 0x04;

/// The little-endian 32-bit number at `at` in `bytes`.
pub open spec fn le32(bytes: Seq<u8>, at: int) -> int {
    bytes[at] + 256 * bytes[at + 1] + 65536 * bytes[at + 2] + 16777216 * bytes[at + 3]
}

/// The size of each report of a HID packet body.
pub open spec fn report_size(body: Seq<u8>) -> int {
    le32(body, 0)
}

/// The number of reports of a HID packet body.
pub open spec fn report_count(body: Seq<u8>) -> int {
    le32(body, 4)
}

/// A packet body is well formed when its header is complete, its reports are
/// nonempty, at most [`MAX_REPORTS`] of them, and they fill the rest exactly.
pub open spec fn well_formed_body(body: Seq<u8>) -> bool {
    &&& body.len() >= 8
    &&& report_size(body) != 0
    &&& report_count(body) <= MAX_REPORTS
    &&& report_size(body) * report_count(body) == body.len() - 8
}

/// Report `i` of a well-formed packet body.
pub open spec fn report(body: Seq<u8>, i: int) -> Seq<u8> {
    body.subrange(8 + i * report_size(body), 8 + (i + 1) * report_size(body))
}

/// Splits the body of a raw HID packet, `dwSizeHid` and `dwCount` followed by
/// the reports, into its reports; none when the packet boundaries are invalid.
pub fn split_reports(body: &[u8]) -> (reports: Option<Vec<Vec<u8>>>)
    ensures
        reports is Some <==> well_formed_body(body@),
        reports matches Some(r) ==> {
            &&& r@.len() == report_count(body@)
            &&& forall|i: int| 0 <= i < r@.len() ==> #[trigger] r@[i]@ == report(body@, i)
        },
{
    if body.len() < 8 {
        return None;
    }
    let size: u64 = body[0] as u64 + 256 * (body[1] as u64) + 65536 * (body[2] as u64) + 16777216
        * (body[3] as u64);
    let count: u64 = body[4] as u64 + 256 * (body[5] as u64) + 65536 * (body[6] as u64) + 16777216
        * (body[7] as u64);
    let data_len: u64 = (body.len() - 8) as u64;
    if size == 0 || count > MAX_REPORTS as u64 {
        return None;
    }
    assert(size * count <= size * 32) by (nonlinear_arith)
        requires
            count <= 32,
    ;
    if size * count != data_len {
        return None;
    }
    let ghost b = body@;
    let size = size as usize;
    let count = count as usize;
    let mut reports: Vec<Vec<u8>> = Vec::new();
    let mut i: usize = 0;
    let mut start: usize = 8;
    let n: usize = body.len();
    while i < count
        invariant
            b == body@,
            n == body@.len(),
            well_formed_body(b),
            size == report_size(b),
            count == report_count(b),
            i <= count,
            start == 8 + i * size,
            reports@.len() == i,
            forall|j: int| 0 <= j < i ==> #[trigger] reports@[j]@ == report(b, j),
        decreases count - i,
    {
        assert(start + size <= n) by (nonlinear_arith)
            requires
                i + 1 <= count,
                start == 8 + i * size,
                size * count == n - 8,
        ;
        assert(8 + (i + 1) * size == start + size) by (nonlinear_arith)
            requires
                start == 8 + i * size,
        ;
        let end = start + size;
        let mut one: Vec<u8> = Vec::new();
        let mut k = start;
        while k < end
            invariant
                b == body@,
                8 <= start <= k <= end <= body@.len(),
                one@ == b.subrange(start as int, k as int),
            decreases end - k,
        {
            one.push(body[k]);
            assert(one@ =~= b.subrange(start as int, k + 1));
            k = k + 1;
        }
        reports.push(one);
        i = i + 1;
        start = end;
    }
    Some(reports)
}

/// A touchscreen that has sent packets.
pub struct Device {
    pub key: isize,
    pub decoder: Option<Decoder>,
    pub in_contact: bool,
}

/// The packet buffer and the touchscreens seen since the last device change.
pub struct Reports {
    /// Word-aligned storage for one packet.
    pub packet: Vec<usize>,
    pub devices: Vec<Device>,
}

impl Default for Reports {
    fn default() -> (reports: Self)
        ensures
            reports.packet@.len() == 0,
            reports.devices@.len() == 0,
    {
        Reports { packet: Vec::new(), devices: Vec::new() }
    }
}

/// Whether a packet of `size` bytes, of which `header_size` are the raw input
/// header, is read at all.
pub open spec fn spec_packet_fits(size: usize, header_size: usize) -> bool {
    header_size + 8 <= size && size <= MAX_PACKET
}

pub fn packet_fits(size: usize, header_size: usize) -> (fits: bool)
    ensures
        fits == spec_packet_fits(size, header_size),
{
    size >= 8 && size - 8 >= header_size && size <= MAX_PACKET
}

/// Whether a device other than `index` has a finger down.
pub open spec fn others_in_contact(devices: Seq<Device>, index: int) -> bool {
    exists|k: int| 0 <= k < devices.len() && k != index && (#[trigger] devices[k]).in_contact
}

/// The contact state that the last decoded report leaves, starting from `state`.
pub open spec fn last_contact(contacts: Seq<Option<bool>>, state: bool) -> bool
    decreases contacts.len(),
{
    if contacts.len() == 0 {
        state
    } else {
        match contacts.last() {
            Some(c) => c,
            None => last_contact(contacts.drop_last(), state),
        }
    }
}

impl Reports {
    /// The first device with `key`, if any.
    pub fn device_index(&self, key: isize) -> (index: Option<usize>)
        ensures
            match index {
                Some(i) => {
                    &&& i < self.devices@.len()
                    &&& self.devices@[i as int].key == key
                    &&& forall|j: int| 0 <= j < i ==> (#[trigger] self.devices@[j]).key != key
                },
                None => forall|j: int| 0 <= j < self.devices@.len() ==> (#[trigger] self.devices@[j]).key != key,
            },
    {
        let mut i: usize = 0;
        while i < self.devices.len()
            invariant
                i <= self.devices@.len(),
                forall|j: int| 0 <= j < i ==> (#[trigger] self.devices@[j]).key != key,
            decreases self.devices@.len() - i,
        {
            if self.devices[i].key == key {
                return Some(i);
            }
            i = i + 1;
        }
        None
    }

    /// Tracks a new device, if fewer than [`MAX_DEVICES`] are tracked.
    pub fn add_device(&mut self, key: isize, decoder: Option<Decoder>) -> (index: Option<usize>)
        ensures
            final(self).packet@ == old(self).packet@,
            if old(self).devices@.len() < MAX_DEVICES {
                &&& index == Some(old(self).devices@.len() as usize)
                &&& final(self).devices@ == old(self).devices@.push(
                    Device { key, decoder, in_contact: false },
                )
            } else {
                &&& index is None
                &&& final(self).devices@ == old(self).devices@
            },
    {
        if self.devices.len() < MAX_DEVICES {
            self.devices.push(Device { key, decoder, in_contact: false });
            Some(self.devices.len() - 1)
        } else {
            None
        }
    }

    /// Records the contact state of each decoded report of device `index` and
    /// replaces it with whether any device then has a finger down, so that a
    /// release is published only when every touchscreen's tips are up.
    pub fn publish(&mut self, index: usize, contacts: &Vec<Option<bool>>) -> (published: Vec<Option<bool>>)
        requires
            index < old(self).devices@.len(),
        ensures
            final(self).packet@ == old(self).packet@,
            final(self).devices@.len() == old(self).devices@.len(),
            forall|k: int| 0 <= k < old(self).devices@.len() && k != index ==> #[trigger] final(self).devices@[k] == old(self).devices@[k],
            final(self).devices@[index as int].key == old(self).devices@[index as int].key,
            final(self).devices@[index as int].decoder == old(self).devices@[index as int].decoder,
            final(self).devices@[index as int].in_contact == last_contact(contacts@, old(self).devices@[index as int].in_contact),
            published@.len() == contacts@.len(),
            forall|j: int| 0 <= j < contacts@.len() ==> #[trigger] published@[j] == match contacts@[j] {
                Some(c) => Some(c || others_in_contact(old(self).devices@, index as int)),
                None => None,
            },
    {
        let ghost before = self.devices@;
        let mut others = false;
        let mut k: usize = 0;
        while k < self.devices.len()
            invariant
                self.devices@ == before,
                index < before.len(),
                k <= before.len(),
                others <==> exists|m: int| 0 <= m < k && m != index && (#[trigger] before[m]).in_contact,
            decreases before.len() - k,
        {
            if k != index && self.devices[k].in_contact {
                others = true;
            }
            k = k + 1;
        }
        let mut published: Vec<Option<bool>> = Vec::new();
        let mut j: usize = 0;
        while j < contacts.len()
            invariant
                index < before.len(),
                self.packet@ == old(self).packet@,
                self.devices@.len() == before.len(),
                forall|m: int| 0 <= m < before.len() && m != index ==> #[trigger] self.devices@[m] == before[m],
                self.devices@[index as int].key == before[index as int].key,
                self.devices@[index as int].decoder == before[index as int].decoder,
                self.devices@[index as int].in_contact == last_contact(contacts@.take(j as int), before[index as int].in_contact),
                others == others_in_contact(before, index as int),
                j <= contacts@.len(),
                published@.len() == j,
                forall|m: int| 0 <= m < j ==> #[trigger] published@[m] == match contacts@[m] {
                    Some(c) => Some(c || others),
                    None => None,
                },
            decreases contacts@.len() - j,
        {
            proof {
                assert(contacts@.take(j + 1).drop_last() =~= contacts@.take(j as int));
            }
            match contacts[j] {
                Some(c) => {
                    let mut device = self.devices.remove(index);
                    device.in_contact = c;
                    self.devices.insert(index, device);
                    published.push(Some(c || others));
                },
                None => {
                    published.push(None);
                },
            }
            j = j + 1;
        }
        proof {
            assert(contacts@.take(contacts@.len() as int) =~= contacts@);
        }
        published
    }
}

/// The raw-input state of the message-pump thread.
pub struct NativeTouch {
    /// A positive-only cache of the last device that proved to be a touchscreen.
    /// It avoids repeating the device-info query for every report from the same
    /// touchscreen; hotplug notifications invalidate it.
    pub last_touch_device: Option<isize>,
    pub reports: Reports,
}

impl NativeTouch {
    pub fn new() -> (native: Self)
        ensures
            native.last_touch_device is None,
            native.reports.packet@.len() == 0,
            native.reports.devices@.len() == 0,
    {
        NativeTouch { last_touch_device: None, reports: Reports::default() }
    }

    /// Whether `key` is the cached touchscreen, so that no query is needed.
    pub fn is_cached(&self, key: isize) -> (cached: bool)
        ensures
            cached == (self.last_touch_device == Some(key)),
    {
        match self.last_touch_device {
            Some(k) => k == key,
            None => false,
        }
    }

    /// Whether device `key` is a touchscreen, given its HID usage page and usage
    /// when the device-info query succeeded for a HID device; a touchscreen is
    /// cached.
    pub fn is_touchscreen(&mut self, key: isize, hid: Option<(u16, u16)>) -> (touchscreen: bool)
        ensures
            touchscreen == (old(self).last_touch_device == Some(key) || hid == Some(
                (TOUCHSCREEN_PAGE, TOUCHSCREEN_USAGE),
            )),
            final(self).reports == old(self).reports,
            final(self).last_touch_device == if touchscreen { Some(key) } else { old(self).last_touch_device },
    {
        if self.is_cached(key) {
            return true;
        }
        match hid {
            Some((page, usage)) => {
                if page == TOUCHSCREEN_PAGE && usage == TOUCHSCREEN_USAGE {
                    self.last_touch_device = Some(key);
                    true
                } else {
                    false
                }
            },
            None => false,
        }
    }
}

/// A device arrived or left, or the displays changed: discard the cached
/// identity, the packet buffer, the device table and any native touch in progress.
pub fn devices_changed(native: &mut NativeTouch, focus: &mut FocusState)
    ensures
        final(native).last_touch_device is None,
        final(native).reports.packet@.len() == 0,
        final(native).reports.devices@.len() == 0,
        *final(focus) == (FocusState { native_capture: None, ..*old(focus) }),
{
    native.last_touch_device = None;
    native.reports = Reports::default();
    cancel_native(focus);
}

/// Several touchscreens: a report publishes a release only when its own tips
/// are up and no other touchscreen has a finger down.
pub proof fn release_needs_every_touchscreen_up(devices: Seq<Device>, index: int, tips_down: bool)
    ensures
        !(tips_down || others_in_contact(devices, index)) <==> (!tips_down && forall|k: int|
            0 <= k < devices.len() && k != index ==> !(#[trigger] devices[k]).in_contact),
{
}

/// A device's contact state is the one its last decoded report gave; reports
/// that could not be decoded leave it, and with none decoded it is unchanged.
pub proof fn last_decoded_report_decides(contacts: Seq<Option<bool>>, state: bool, j: int)
    requires
        0 <= j < contacts.len(),
        contacts[j] is Some,
        forall|k: int| j < k < contacts.len() ==> (#[trigger] contacts[k]) is None,
    ensures
        last_contact(contacts, state) == contacts[j]->0,
    decreases contacts.len(),
{
    if j < contacts.len() - 1 {
        let prefix = contacts.drop_last();
        assert forall|k: int| j < k < prefix.len() implies (#[trigger] prefix[k]) is None by {
            assert(prefix[k] == contacts[k]);
        }
        assert(contacts.last() == contacts[contacts.len() - 1]);
        last_decoded_report_decides(prefix, state, j);
    } else {
        assert(contacts.last() == contacts[j]);
    }
}

/// With no decoded report, a device's contact state stays as it was.
pub proof fn undecoded_reports_keep_contact(contacts: Seq<Option<bool>>, state: bool)
    requires
        forall|k: int| 0 <= k < contacts.len() ==> (#[trigger] contacts[k]) is None,
    ensures
        last_contact(contacts, state) == state,
    decreases contacts.len(),
{
    if contacts.len() > 0 {
        let prefix = contacts.drop_last();
        assert forall|k: int| 0 <= k < prefix.len() implies (#[trigger] prefix[k]) is None by {
            assert(prefix[k] == contacts[k]);
        }
        assert(contacts.last() == contacts[contacts.len() - 1]);
        undecoded_reports_keep_contact(prefix, state);
    }
}

} // verus!
