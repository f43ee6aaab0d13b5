//! Bounded HID contact decoding for native focus restoration. Unknown report
//! formats fail closed; the independent mouse fallback does not depend on this.
//! The adapter reads the device descriptor and decodes usages with the HID
//! parser; the bookkeeping over those values is here.
use vstd::prelude::*;

verus! {

/// The most contacts one frame may announce.
pub const MAX_CONTACTS: usize = 128;

/// The HID usage page of digitizers.
pub const DIGITIZER_PAGE: u16 = 0x0d;

/// The digitizer usage "Tip Switch".
pub const TIP_SWITCH: u16 = 0x42;

/// The largest preparsed descriptor, in bytes, that a decoder accepts.
pub const MAX_DESCRIPTOR_SIZE: u32 = 65536;

/// The most input button capabilities that a decoder reads.
pub const MAX_BUTTON_CAPS: u16 = 512;

/// Whether a device's preparsed descriptor of `size` bytes may be read: an
/// empty or oversized descriptor fails closed, and the device gets no decoder.
pub fn descriptor_size_fits(size: u32) -> (fits: bool)
    ensures
        fits == (0 < size <= MAX_DESCRIPTOR_SIZE),
{
    size != 0 && size <= MAX_DESCRIPTOR_SIZE
}

/// Whether a descriptor's `count` input button capabilities may be read: none
/// at all, or more than the bound, fails closed and the device gets no decoder.
pub fn button_caps_fit(count: u16) -> (fits: bool)
    ensures
        fits == (0 < count <= MAX_BUTTON_CAPS),
{
    count != 0 && count <= MAX_BUTTON_CAPS
}

/// What a [`Frame`] holds.
pub struct FrameView {
    pub remaining: nat,
    pub active: bool,
}

/// Hybrid devices split one frame across reports. A zero contact count means
/// continuation, not finger-up. Publish only after the whole frame is decoded.
pub struct Frame {
    remaining: usize,
    active: bool,
}

impl View for Frame {
    type V = FrameView;

    closed spec fn view(&self) -> FrameView {
        FrameView { remaining: self.remaining as nat, active: self.active }
    }
}

/// An empty frame: no contact is awaited.
pub open spec fn idle_frame() -> FrameView {
    FrameView { remaining: 0, active: false }
}

/// The frame after a report announced `count` contacts, and how many contacts
/// the frame still awaits, if any.
pub open spec fn frame_started(f: FrameView, count: nat) -> (FrameView, Option<nat>) {
    if count > MAX_CONTACTS {
        (idle_frame(), None)
    } else {
        let g = if count != 0 { FrameView { remaining: count, active: false } } else { f };
        (g, if g.remaining != 0 { Some(g.remaining) } else { None })
    }
}

/// The frame after one contact's tip switch, and the frame's result when that
/// contact was its last: whether any tip of the frame was down.
pub open spec fn frame_pushed(f: FrameView, tip: bool) -> (FrameView, Option<bool>) {
    if f.remaining == 0 {
        (f, None)
    } else {
        let g = FrameView { remaining: (f.remaining - 1) as nat, active: f.active || tip };
        (g, if g.remaining == 0 { Some(g.active) } else { None })
    }
}

/// A count as a natural number.
pub open spec fn as_nat(count: Option<usize>) -> Option<nat> {
    match count {
        Some(c) => Some(c as nat),
        None => None,
    }
}

impl Default for Frame {
    fn default() -> (frame: Self)
        ensures
            frame@ == idle_frame(),
    {
        Frame { remaining: 0, active: false }
    }
}

impl Frame {
    pub fn start(&mut self, count: usize) -> (remaining: Option<usize>)
        ensures
            (final(self)@, as_nat(remaining)) == frame_started(old(self)@, count as nat),
            final(self)@.remaining <= MAX_CONTACTS || final(self)@ == old(self)@,
    {
        if count > MAX_CONTACTS {
            *self = Self::default();
            return None;
        }
        if count != 0 {
            self.remaining = count;
            self.active = false;
        }
        if self.remaining != 0 {
            Some(self.remaining)
        } else {
            None
        }
    }

    pub fn push(&mut self, tip: bool) -> (published: Option<bool>)
        ensures
            (final(self)@, published) == frame_pushed(old(self)@, tip),
    {
        if self.remaining == 0 {
            return None;
        }
        self.active = self.active || tip;
        self.remaining = self.remaining - 1;
        if self.remaining == 0 {
            Some(self.active)
        } else {
            None
        }
    }
}

/// One input button capability of a HID device, as the HID parser lists it.
#[derive(Clone, Copy, Debug)]
pub struct ButtonCap {
    pub usage_page: u16,
    pub report_id: u8,
    pub link_collection: u16,
    pub is_range: bool,
    /// The usage, or the first usage of a range.
    pub usage_min: u16,
    /// The last usage of a range; unused otherwise.
    pub usage_max: u16,
}

/// The tip switch slot that a button capability describes, if it describes one.
pub open spec fn tip_slot(b: ButtonCap) -> Option<(u8, u16)> {
    let contains_tip = if b.is_range {
        b.usage_min <= TIP_SWITCH && b.usage_max >= TIP_SWITCH
    } else {
        b.usage_min == TIP_SWITCH
    };
    if b.usage_page == DIGITIZER_PAGE && contains_tip {
        Some((b.report_id, b.link_collection))
    } else {
        None
    }
}

/// The distinct tip switch slots of `buttons`, in order of first appearance.
pub open spec fn tip_slots(buttons: Seq<ButtonCap>) -> Seq<(u8, u16)>
    decreases buttons.len(),
{
    if buttons.len() == 0 {
        Seq::empty()
    } else {
        let slots = tip_slots(buttons.drop_last());
        match tip_slot(buttons.last()) {
            Some(slot) => if slots.contains(slot) {
                slots
            } else {
                slots.push(slot)
            },
            None => slots,
        }
    }
}

/// The tip switch slots are exactly the slots that some button describes, each
/// once: none at all when no input button of the digitizer page covers the tip
/// switch, and never the same report ID and link collection twice.
pub proof fn tip_slots_are_distinct_and_complete(buttons: Seq<ButtonCap>)
    ensures
        forall|i: int, j: int|
            0 <= i < j < tip_slots(buttons).len() ==> tip_slots(buttons)[i] != tip_slots(buttons)[j],
        forall|slot: (u8, u16)|
            tip_slots(buttons).contains(slot) <==> exists|k: int|
                0 <= k < buttons.len() && tip_slot(#[trigger] buttons[k]) == Some(slot),
        tip_slots(buttons).len() == 0 <==> forall|k: int|
            0 <= k < buttons.len() ==> tip_slot(#[trigger] buttons[k]) is None,
    decreases buttons.len(),
{
    if buttons.len() > 0 {
        let prefix = buttons.drop_last();
        tip_slots_are_distinct_and_complete(prefix);
        let slots = tip_slots(prefix);
        let last = buttons.last();
        assert forall|k: int| 0 <= k < prefix.len() implies #[trigger] buttons[k] == prefix[k] by {}
        assert(buttons[buttons.len() - 1] == last);
        assert forall|slot: (u8, u16)|
            tip_slots(buttons).contains(slot) <==> exists|k: int|
                0 <= k < buttons.len() && tip_slot(#[trigger] buttons[k]) == Some(slot) by {
            if tip_slots(buttons).contains(slot) {
                if slots.contains(slot) {
                    let k = choose|k: int| 0 <= k < prefix.len() && tip_slot(#[trigger] prefix[k]) == Some(slot);
                    assert(buttons[k] == prefix[k]);
                } else {
                    let j = choose|j: int| 0 <= j < tip_slots(buttons).len() && tip_slots(buttons)[j] == slot;
                    assert(tip_slot(last) == Some(slot));
                }
            }
            if exists|k: int| 0 <= k < buttons.len() && tip_slot(#[trigger] buttons[k]) == Some(slot) {
                let k = choose|k: int| 0 <= k < buttons.len() && tip_slot(#[trigger] buttons[k]) == Some(slot);
                if k < prefix.len() {
                    assert(tip_slot(prefix[k]) == Some(slot));
                    assert(slots.contains(slot));
                    let j = choose|j: int| 0 <= j < slots.len() && slots[j] == slot;
                    assert(tip_slots(buttons)[j] == slot);
                } else {
                    assert(tip_slot(last) == Some(slot));
                    if !slots.contains(slot) {
                        assert(tip_slots(buttons)[slots.len() as int] == slot);
                    } else {
                        let j = choose|j: int| 0 <= j < slots.len() && slots[j] == slot;
                        assert(tip_slots(buttons)[j] == slot);
                    }
                }
            }
        }
        if tip_slots(buttons).len() == 0 {
            assert forall|k: int| 0 <= k < buttons.len() implies tip_slot(#[trigger] buttons[k]) is None by {
                if tip_slot(buttons[k]) is Some {
                    let slot = tip_slot(buttons[k])->0;
                    assert(tip_slots(buttons).contains(slot));
                }
            }
        }
        if forall|k: int| 0 <= k < buttons.len() ==> tip_slot(#[trigger] buttons[k]) is None {
            assert(tip_slot(buttons[buttons.len() - 1]) is None);
            assert forall|k: int| 0 <= k < prefix.len() implies tip_slot(#[trigger] prefix[k]) is None by {
                assert(buttons[k] == prefix[k]);
            }
        }
    }
}

/// Decodes touchscreen reports into "some finger is down" per completed frame.
pub struct Decoder {
    /// Word-aligned storage of the preparsed descriptor; no OS handle is opened.
    pub descriptor: Vec<usize>,
    /// The report ID and link collection of each contact's tip switch.
    pub tips: Vec<(u8, u16)>,
    pub frame: Frame,
}

/// Scans the tip slots of report `id` from index `i`, pushing at most `left` of
/// them into the frame; a failed usage read discards the frame.
pub open spec fn scan_tips(
    f: FrameView,
    tips: Seq<(u8, u16)>,
    downs: Seq<Option<bool>>,
    id: u8,
    i: int,
    left: nat,
    result: Option<bool>,
) -> (FrameView, Option<bool>)
    decreases tips.len() - i,
{
    if i >= tips.len() || left == 0 {
        (f, result)
    } else if tips[i].0 != id {
        scan_tips(f, tips, downs, id, i + 1, left, result)
    } else {
        match downs[i] {
            None => (idle_frame(), None),
            Some(tip) => {
                let (g, r) = frame_pushed(f, tip);
                scan_tips(g, tips, downs, id, i + 1, (left - 1) as nat, r)
            },
        }
    }
}

/// The frame after one report, and the contact state it publishes.
pub open spec fn decoded(
    f: FrameView,
    tips: Seq<(u8, u16)>,
    report_id: Option<u8>,
    count: Option<u32>,
    downs: Seq<Option<bool>>,
) -> (FrameView, Option<bool>) {
    match report_id {
        None => (f, None),
        Some(id) => match count {
            None => (idle_frame(), None),
            Some(c) => {
                let (g, remaining) = frame_started(f, c as nat);
                match remaining {
                    None => (g, None),
                    Some(r) => scan_tips(g, tips, downs, id, 0, r, None),
                }
            },
        },
    }
}

impl Decoder {
    /// A decoder for a device whose preparsed descriptor is `descriptor` and whose
    /// input button capabilities are `buttons`; none when the device reports no tip
    /// switch or more slots than a frame may hold.
    pub fn new(descriptor: Vec<usize>, buttons: &Vec<ButtonCap>) -> (decoder: Option<Self>)
        ensures
            decoder is Some <==> (0 < tip_slots(buttons@).len() <= MAX_CONTACTS),
            decoder matches Some(d) ==> {
                &&& d.descriptor@ == descriptor@
                &&& d.tips@ == tip_slots(buttons@)
                &&& d.frame@ == idle_frame()
            },
    {
        let mut tips: Vec<(u8, u16)> = Vec::new();
        let mut i: usize = 0;
        while i < buttons.len()
            invariant
                i <= buttons.len(),
                tips@ == tip_slots(buttons@.take(i as int)),
            decreases buttons.len() - i,
        {
            let b = buttons[i];
            proof {
                assert(buttons@.take(i + 1).drop_last() =~= buttons@.take(i as int));
                assert(buttons@.take(i + 1).last() == b);
            }
            let contains_tip = if b.is_range {
                b.usage_min <= TIP_SWITCH && b.usage_max >= TIP_SWITCH
            } else {
                b.usage_min == TIP_SWITCH
            };
            if b.usage_page == DIGITIZER_PAGE && contains_tip {
                let slot = (b.report_id, b.link_collection);
                let mut present = false;
                let mut k: usize = 0;
                while k < tips.len()
                    invariant
                        k <= tips.len(),
                        present <==> exists|j: int| 0 <= j < k && tips@[j] == slot,
                    decreases tips.len() - k,
                {
                    if tips[k].0 == slot.0 && tips[k].1 == slot.1 {
                        present = true;
                    }
                    k = k + 1;
                }
                proof {
                    if present {
                        let j = choose|j: int| 0 <= j < tips@.len() && tips@[j] == slot;
                        assert(tips@.contains(slot));
                    } else {
                        assert(!tips@.contains(slot));
                    }
                }
                if !present {
                    tips.push(slot);
                }
            }
            i = i + 1;
        }
        proof {
            assert(buttons@.take(buttons@.len() as int) =~= buttons@);
        }
        if tips.len() == 0 || tips.len() > MAX_CONTACTS {
            return None;
        }
        Some(Decoder { descriptor, tips, frame: Frame::default() })
    }

    /// One report: its ID (none for an empty report), the contact count that the
    /// HID parser read from it (none when that read failed), and for each tip slot
    /// whether its tip switch is down (none when that read failed).
    pub fn contact(&mut self, report_id: Option<u8>, count: Option<u32>, downs: &Vec<Option<bool>>) -> (published: Option<bool>)
        requires
            downs@.len() == old(self).tips@.len(),
        ensures
            (final(self).frame@, published) == decoded(
                old(self).frame@,
                old(self).tips@,
                report_id,
                count,
                downs@,
            ),
            final(self).tips@ == old(self).tips@,
            final(self).descriptor@ == old(self).descriptor@,
    {
        let id = match report_id {
            Some(id) => id,
            None => {
                return None;
            },
        };
        let c = match count {
            Some(c) => c,
            None => {
                self.frame = Frame::default();
                return None;
            },
        };
        let remaining = match self.frame.start(c as usize) {
            Some(r) => r,
            None => {
                return None;
            },
        };
        let ghost start = self.frame@;
        assert(decoded(old(self).frame@, old(self).tips@, report_id, count, downs@)
            == scan_tips(start, self.tips@, downs@, id, 0, remaining as nat, None));
        let mut result: Option<bool> = None;
        let mut left = remaining;
        let mut i: usize = 0;
        while i < self.tips.len() && left > 0
            invariant
                i <= self.tips.len(),
                downs@.len() == self.tips@.len(),
                self.tips@ == old(self).tips@,
                self.descriptor@ == old(self).descriptor@,
                decoded(old(self).frame@, old(self).tips@, report_id, count, downs@)
                    == scan_tips(start, self.tips@, downs@, id, 0, remaining as nat, None),
                scan_tips(start, self.tips@, downs@, id, 0, remaining as nat, None) == scan_tips(
                    self.frame@,
                    self.tips@,
                    downs@,
                    id,
                    i as int,
                    left as nat,
                    result,
                ),
            decreases self.tips.len() - i,
        {
            if self.tips[i].0 == id {
                match downs[i] {
                    None => {
                        assert(scan_tips(self.frame@, self.tips@, downs@, id, i as int, left as nat, result)
                            == (idle_frame(), None::<bool>));
                        self.frame = Frame::default();
                        return None;
                    },
                    Some(tip) => {
                        result = self.frame.push(tip);
                        left = left - 1;
                    },
                }
            }
            i = i + 1;
        }
        result
    }
}

/// The frame after pushing each tip of `tips` in turn, and what the last push
/// published.
pub open spec fn frame_run(f: FrameView, tips: Seq<bool>) -> (FrameView, Option<bool>)
    decreases tips.len(),
{
    if tips.len() == 0 {
        (f, None)
    } else {
        frame_pushed(frame_run(f, tips.drop_last()).0, tips.last())
    }
}

/// Whether any of `tips` is down.
pub open spec fn any_down(tips: Seq<bool>) -> bool {
    exists|i: int| 0 <= i < tips.len() && tips[i]
}

proof fn lemma_frame_run(count: nat, tips: Seq<bool>)
    requires
        tips.len() <= count,
    ensures
        frame_run(FrameView { remaining: count, active: false }, tips).0 == (FrameView {
            remaining: (count - tips.len()) as nat,
            active: any_down(tips),
        }),
        tips.len() > 0 ==> frame_run(FrameView { remaining: count, active: false }, tips).1 == if tips.len() == count {
            Some(any_down(tips))
        } else {
            None
        },
    decreases tips.len(),
{
    if tips.len() > 0 {
        let prefix = tips.drop_last();
        lemma_frame_run(count, prefix);
        assert(any_down(tips) == (any_down(prefix) || tips.last())) by {
            if tips.last() {
                assert(tips[tips.len() - 1] == tips.last());
            }
            if any_down(prefix) {
                let i = choose|i: int| 0 <= i < prefix.len() && prefix[i];
                assert(tips[i] == prefix[i]);
            }
            if any_down(tips) && !tips.last() {
                let i = choose|i: int| 0 <= i < tips.len() && tips[i];
                assert(i < prefix.len());
                assert(prefix[i] == tips[i]);
            }
        }
    } else {
        assert(!any_down(tips));
    }
}

/// Parallel contacts release only when every tip is up: a frame that announces
/// `count` contacts publishes nothing until its last contact, and then publishes
/// whether any of its tips was down.
pub proof fn frame_publishes_once_complete(f: FrameView, count: nat, tips: Seq<bool>)
    requires
        0 < count <= MAX_CONTACTS,
        0 < tips.len() <= count,
    ensures
        frame_run(frame_started(f, count).0, tips).1 == if tips.len() == count {
            Some(any_down(tips))
        } else {
            None
        },
        frame_started(f, count).1 == Some(count),
{
    lemma_frame_run(count, tips);
}

/// The tip readings of the slots that belong to report `id`, from slot `i` on,
/// in slot order.
pub open spec fn report_downs(tips: Seq<(u8, u16)>, downs: Seq<Option<bool>>, id: u8, i: int) -> Seq<Option<bool>>
    decreases tips.len() - i,
{
    if i < 0 || i >= tips.len() {
        Seq::empty()
    } else if tips[i].0 == id {
        seq![downs[i]] + report_downs(tips, downs, id, i + 1)
    } else {
        report_downs(tips, downs, id, i + 1)
    }
}

/// Whether some reading of `readings` is a tip that is down.
pub open spec fn some_down(readings: Seq<Option<bool>>) -> bool {
    exists|k: int| 0 <= k < readings.len() && readings[k] == Some(true)
}

proof fn lemma_scan_reads_first_slots(
    g: FrameView,
    tips: Seq<(u8, u16)>,
    downs: Seq<Option<bool>>,
    id: u8,
    i: int,
    left: nat,
    r: Option<bool>,
)
    requires
        0 <= i <= tips.len(),
        g.remaining == left,
        left <= report_downs(tips, downs, id, i).len(),
        forall|k: int| 0 <= k < left ==> (#[trigger] report_downs(tips, downs, id, i)[k]) is Some,
    ensures
        left == 0 ==> scan_tips(g, tips, downs, id, i, left, r) == (g, r),
        left > 0 ==> scan_tips(g, tips, downs, id, i, left, r) == (
            FrameView {
                remaining: 0,
                active: g.active || some_down(report_downs(tips, downs, id, i).take(left as int)),
            },
            Some(g.active || some_down(report_downs(tips, downs, id, i).take(left as int))),
        ),
    decreases tips.len() - i,
{
    let m = report_downs(tips, downs, id, i);
    if i >= tips.len() || left == 0 {
    } else if tips[i].0 != id {
        lemma_scan_reads_first_slots(g, tips, downs, id, i + 1, left, r);
    } else {
        let rest = report_downs(tips, downs, id, i + 1);
        assert(m == seq![downs[i]] + rest);
        assert(m[0] == downs[i]);
        let tip = downs[i]->0;
        let (h, r2) = frame_pushed(g, tip);
        assert forall|k: int| 0 <= k < left - 1 implies (#[trigger] rest[k]) is Some by {
            assert(m[k + 1] == rest[k]);
        }
        lemma_scan_reads_first_slots(h, tips, downs, id, i + 1, (left - 1) as nat, r2);
        let taken = m.take(left as int);
        let later = rest.take(left - 1);
        assert(some_down(taken) == (tip || some_down(later))) by {
            if tip {
                assert(taken[0] == Some(true));
            }
            if some_down(later) {
                let k = choose|k: int| 0 <= k < later.len() && later[k] == Some(true);
                assert(taken[k + 1] == later[k]);
            }
            if some_down(taken) && !tip {
                let k = choose|k: int| 0 <= k < taken.len() && taken[k] == Some(true);
                assert(k != 0);
                assert(later[k - 1] == taken[k]);
            }
        }
        if left == 1 {
            assert(!some_down(later));
        }
    }
}

/// A report that announces `count` contacts is decoded from exactly the first
/// `count` tip slots of its report ID, in slot order, whatever the frame before
/// it and whatever the later slots hold: when those slots hold that many
/// readings, it completes the frame and publishes whether any of them is down.
pub proof fn report_reads_first_announced_slots(
    f: FrameView,
    tips: Seq<(u8, u16)>,
    id: u8,
    count: u32,
    downs: Seq<Option<bool>>,
)
    requires
        0 < count <= MAX_CONTACTS,
        count <= report_downs(tips, downs, id, 0).len(),
        forall|k: int| 0 <= k < count ==> (#[trigger] report_downs(tips, downs, id, 0)[k]) is Some,
    ensures
        decoded(f, tips, Some(id), Some(count), downs).1 == Some(
            some_down(report_downs(tips, downs, id, 0).take(count as int)),
        ),
        decoded(f, tips, Some(id), Some(count), downs).0.remaining == 0,
{
    let g = FrameView { remaining: count as nat, active: false };
    assert(frame_started(f, count as nat) == (g, Some(count as nat)));
    lemma_scan_reads_first_slots(g, tips, downs, id, 0, count as nat, None);
}

/// One call on a frame: a start with a contact count, or a push of one tip.
pub enum FrameEvent {
    Start(nat),
    Push(bool),
}

/// What one call on a frame returned.
pub enum FrameOutput {
    Started(Option<nat>),
    Pushed(Option<bool>),
}

/// The frame after one call, and what the call returned.
pub open spec fn frame_event(f: FrameView, e: FrameEvent) -> (FrameView, FrameOutput) {
    match e {
        FrameEvent::Start(count) => {
            let (g, r) = frame_started(f, count);
            (g, FrameOutput::Started(r))
        },
        FrameEvent::Push(tip) => {
            let (g, r) = frame_pushed(f, tip);
            (g, FrameOutput::Pushed(r))
        },
    }
}

/// The frame after a run of calls.
pub open spec fn frame_after(f: FrameView, events: Seq<FrameEvent>) -> FrameView
    decreases events.len(),
{
    if events.len() == 0 {
        f
    } else {
        frame_event(frame_after(f, events.drop_last()), events.last()).0
    }
}

/// The tips that a run of calls pushed, in order.
pub open spec fn pushed_tips(events: Seq<FrameEvent>) -> Seq<bool>
    decreases events.len(),
{
    if events.len() == 0 {
        Seq::empty()
    } else {
        match events.last() {
            FrameEvent::Push(tip) => pushed_tips(events.drop_last()).push(tip),
            FrameEvent::Start(_) => pushed_tips(events.drop_last()),
        }
    }
}

/// Every start of the run announces zero contacts: the continuation reports of
/// a hybrid device.
pub open spec fn continuation_only(events: Seq<FrameEvent>) -> bool {
    forall|i: int| 0 <= i < events.len() ==> (#[trigger] events[i] matches FrameEvent::Start(c) ==> c == 0)
}

/// The frame, started for `count` contacts, after `pushed` tips.
pub open spec fn frame_of(count: nat, pushed: Seq<bool>) -> FrameView {
    let done = if pushed.len() < count { pushed.len() } else { count };
    FrameView { remaining: (count - done) as nat, active: any_down(pushed.take(done as int)) }
}

proof fn lemma_any_down_take(tips: Seq<bool>, k: int)
    requires
        0 <= k < tips.len(),
    ensures
        any_down(tips.take(k + 1)) == (any_down(tips.take(k)) || tips[k]),
{
    let a = tips.take(k);
    let b = tips.take(k + 1);
    assert(b[k] == tips[k]);
    if any_down(a) {
        let i = choose|i: int| 0 <= i < a.len() && a[i];
        assert(b[i] == a[i]);
    }
    if any_down(b) && !tips[k] {
        let i = choose|i: int| 0 <= i < b.len() && b[i];
        assert(a[i] == b[i]);
    }
}

proof fn lemma_frame_after(count: nat, events: Seq<FrameEvent>)
    requires
        0 < count <= MAX_CONTACTS,
        continuation_only(events),
    ensures
        frame_after(FrameView { remaining: count, active: false }, events) == frame_of(count, pushed_tips(events)),
    decreases events.len(),
{
    let start = FrameView { remaining: count, active: false };
    if events.len() == 0 {
        assert(pushed_tips(events).take(0) =~= Seq::<bool>::empty());
        assert(!any_down(Seq::<bool>::empty()));
    } else {
        let prefix = events.drop_last();
        assert forall|i: int| 0 <= i < prefix.len() implies (#[trigger] prefix[i] matches FrameEvent::Start(c) ==> c == 0) by {
            assert(prefix[i] == events[i]);
        }
        lemma_frame_after(count, prefix);
        assert(events[events.len() - 1] == events.last());
        let p = pushed_tips(prefix);
        match events.last() {
            FrameEvent::Push(tip) => {
                let q = p.push(tip);
                if p.len() < count {
                    lemma_any_down_take(q, p.len() as int);
                    assert(q.take(p.len() as int) =~= p.take(p.len() as int));
                } else {
                    assert(q.take(count as int) =~= p.take(count as int));
                }
            },
            FrameEvent::Start(c) => {},
        }
    }
}

/// Parallel contacts across hybrid reports: once a frame has started for `count`
/// contacts, zero-count starts in between keep it; it then holds the tips pushed
/// so far, and it publishes exactly once, on the push of its last contact,
/// whether any of its tips was down. A zero-count start reports how many
/// contacts are still awaited, none once the frame is complete, and every push
/// after completion publishes nothing.
pub proof fn frame_completes_across_continuations(f: FrameView, count: nat, events: Seq<FrameEvent>)
    requires
        0 < count <= MAX_CONTACTS,
        continuation_only(events),
    ensures
        frame_after(frame_started(f, count).0, events) == frame_of(count, pushed_tips(events)),
        events.len() > 0 ==> frame_event(frame_after(frame_started(f, count).0, events.drop_last()), events.last()).1
            == match events.last() {
            FrameEvent::Push(_) => FrameOutput::Pushed(
                if pushed_tips(events).len() == count {
                    Some(any_down(pushed_tips(events)))
                } else {
                    None
                },
            ),
            FrameEvent::Start(_) => FrameOutput::Started(
                if pushed_tips(events).len() < count {
                    Some((count - pushed_tips(events).len()) as nat)
                } else {
                    None
                },
            ),
        },
{
    lemma_frame_after(count, events);
    if events.len() > 0 {
        let prefix = events.drop_last();
        assert forall|i: int| 0 <= i < prefix.len() implies (#[trigger] prefix[i] matches FrameEvent::Start(c) ==> c == 0) by {
            assert(prefix[i] == events[i]);
        }
        lemma_frame_after(count, prefix);
        assert(events[events.len() - 1] == events.last());
        let p = pushed_tips(prefix);
        match events.last() {
            FrameEvent::Push(tip) => {
                let q = p.push(tip);
                if p.len() < count {
                    lemma_any_down_take(q, p.len() as int);
                    assert(q.take(p.len() as int) =~= p.take(p.len() as int));
                    if q.len() == count {
                        assert(q.take(q.len() as int) =~= q);
                    }
                }
            },
            FrameEvent::Start(c) => {},
        }
    }
}

/// A hybrid device's zero contact count continues the frame instead of ending
/// it; an oversized count discards it.
pub proof fn zero_count_continues_frame(f: FrameView, count: nat)
    ensures
        count == 0 ==> frame_started(f, count).0 == f,
        count > MAX_CONTACTS ==> frame_started(f, count) == (idle_frame(), None::<nat>),
{
}

} // verus!
