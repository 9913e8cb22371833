//! Kernel input records and their byte layout.
//!
//! Every record is laid out as on 64-bit little-endian Linux: fields in
//! declaration order, each integer little-endian, with the padding the C
//! layout has.

use vstd::prelude::*;
use crate::common::{MouseButton, MouseEvent, ScrollDirection};

verus! {

pub const EV_SYN: u16 = 0x00;
pub const EV_KEY: u16 = 0x01;
pub const EV_REL: u16 = 0x02;
pub const EV_ABS: u16 = 0x03;

pub const SYN_REPORT: u16 = 0x00;

pub const REL_X: u16 = 0x00;
pub const REL_Y: u16 = 0x01;
pub const REL_HWHEEL: u16 = 0x06;
pub const REL_WHEEL: u16 = 0x08;

pub const ABS_X: u16 = 0x00;
pub const ABS_Y: u16 = 0x01;

pub const BTN_LEFT: u16 = 0x110;
pub const BTN_RIGHT: u16 = 0x111;
pub const BTN_MIDDLE: u16 = 0x112;
pub const BTN_SIDE: u16 = 0x113;
pub const BTN_EXTRA: u16 = 0x114;
pub const BTN_FORWARD: u16 = 0x115;
pub const BTN_BACK: u16 = 0x116;
pub const BTN_TASK: u16 = 0x117;

pub const BUS_USB: u16 = 0x03;

/// Size in bytes of an encoded `InputEvent`.
pub const INPUT_EVENT_SIZE: usize = 24;

#[derive(Debug, Clone, Copy, PartialEq, Eq, Structural)]
pub struct TimeVal {
    pub tv_sec: u64,
    pub tv_usec: u64,
}

/// One kernel input event: `struct input_event`.
#[derive(Debug, Clone, Copy, PartialEq, Eq, Structural)]
pub struct InputEvent {
    pub time: TimeVal,
    pub event_type: u16,
    pub code: u16,
    pub value: i32,
}

/// Little-endian bytes of a 16-bit integer.
pub open spec fn le16(v: u16) -> Seq<u8> {
    seq![(v & 0xff) as u8, (v >> 8u16) as u8]
}

/// Little-endian bytes of a 32-bit integer.
pub open spec fn le32(v: u32) -> Seq<u8> {
    seq![(v & 0xff) as u8, ((v >> 8u32) & 0xff) as u8, ((v >> 16u32) & 0xff) as u8, (v >> 24u32) as u8]
}

/// Little-endian bytes of a 64-bit integer.
pub open spec fn le64(v: u64) -> Seq<u8> {
    le32((v & 0xffff_ffff) as u32) + le32((v >> 32u64) as u32)
}

/// The 24 bytes of an event record.
pub open spec fn event_bytes(e: InputEvent) -> Seq<u8> {
    le64(e.time.tv_sec) + le64(e.time.tv_usec) + le16(e.event_type) + le16(e.code) + le32(
        e.value as u32,
    )
}

/// The event record with the given header, as read back from its bytes.
pub open spec fn event_fields(e: InputEvent, t: u64, u: u64, kind: u16, code: u16, value: i32) -> bool {
    e.time.tv_sec == t && e.time.tv_usec == u && e.event_type == kind && e.code == code && e.value
        == value
}

fn push_le16(out: &mut Vec<u8>, v: u16)
    ensures
        final(out)@ == old(out)@ + le16(v),
{
    out.push((v & 0xff) as u8);
    out.push((v >> 8u16) as u8);
    assert(final(out)@ =~= old(out)@ + le16(v));
}

fn push_le32(out: &mut Vec<u8>, v: u32)
    ensures
        final(out)@ == old(out)@ + le32(v),
{
    out.push((v & 0xff) as u8);
    out.push(((v >> 8u32) & 0xff) as u8);
    out.push(((v >> 16u32) & 0xff) as u8);
    out.push((v >> 24u32) as u8);
    assert(final(out)@ =~= old(out)@ + le32(v));
}

fn push_le64(out: &mut Vec<u8>, v: u64)
    ensures
        final(out)@ == old(out)@ + le64(v),
{
    push_le32(out, (v & 0xffff_ffff) as u32);
    push_le32(out, (v >> 32u64) as u32);
    assert(final(out)@ =~= old(out)@ + le64(v));
}

fn read_le16(b: &[u8], i: usize) -> (r: u16)
    requires
        i + 2 <= b@.len(),
    ensures
        le16(r) == b@.subrange(i as int, i + 2),
{
    let b0 = b[i];
    let b1 = b[i + 1];
    let r = (b0 as u16) | ((b1 as u16) << 8u16);
    assert(((r & 0xff) as u8) == b0 && ((r >> 8u16) as u8) == b1) by (bit_vector)
        requires
            r == (b0 as u16) | ((b1 as u16) << 8u16),
    ;
    assert(le16(r) =~= b@.subrange(i as int, i + 2));
    r
}

fn read_le32(b: &[u8], i: usize) -> (r: u32)
    requires
        i + 4 <= b@.len(),
    ensures
        le32(r) == b@.subrange(i as int, i + 4),
{
    let b0 = b[i];
    let b1 = b[i + 1];
    let b2 = b[i + 2];
    let b3 = b[i + 3];
    let r = (b0 as u32) | ((b1 as u32) << 8u32) | ((b2 as u32) << 16u32) | ((b3 as u32) << 24u32);
    assert(((r & 0xff) as u8) == b0 && (((r >> 8u32) & 0xff) as u8) == b1 && (((r >> 16u32)
        & 0xff) as u8) == b2 && ((r >> 24u32) as u8) == b3) by (bit_vector)
        requires
            r == (b0 as u32) | ((b1 as u32) << 8u32) | ((b2 as u32) << 16u32) | ((b3 as u32)
                << 24u32),
    ;
    assert(le32(r) =~= b@.subrange(i as int, i + 4));
    r
}

fn read_le64(b: &[u8], i: usize) -> (r: u64)
    requires
        i + 8 <= b@.len(),
    ensures
        le64(r) == b@.subrange(i as int, i + 8),
{
    let lo = read_le32(b, i);
    let len = b.len();
    assert(i + 4 <= len);
    let hi = read_le32(b, i + 4);
    let r = (lo as u64) | ((hi as u64) << 32u64);
    assert(((r & 0xffff_ffff) as u32) == lo && ((r >> 32u64) as u32) == hi) by (bit_vector)
        requires
            r == (lo as u64) | ((hi as u64) << 32u64),
    ;
    assert(le64(r) =~= b@.subrange(i as int, i + 8));
    r
}

proof fn lemma_le16_injective(a: u16, b: u16)
    requires
        le16(a) == le16(b),
    ensures
        a == b,
{
    assert(le16(a)[0] == le16(b)[0] && le16(a)[1] == le16(b)[1]);
    assert(((a & 0xff) as u8) == ((b & 0xff) as u8) && ((a >> 8u16) as u8) == ((b >> 8u16)
        as u8) ==> a == b) by (bit_vector);
}

proof fn lemma_le32_injective(a: u32, b: u32)
    requires
        le32(a) == le32(b),
    ensures
        a == b,
{
    assert(le32(a)[0] == le32(b)[0] && le32(a)[1] == le32(b)[1] && le32(a)[2] == le32(b)[2]
        && le32(a)[3] == le32(b)[3]);
    assert(((a & 0xff) as u8) == ((b & 0xff) as u8) && (((a >> 8u32) & 0xff) as u8) == (((b
        >> 8u32) & 0xff) as u8) && (((a >> 16u32) & 0xff) as u8) == (((b >> 16u32) & 0xff)
        as u8) && ((a >> 24u32) as u8) == ((b >> 24u32) as u8) ==> a == b) by (bit_vector);
}

proof fn lemma_le64_injective(a: u64, b: u64)
    requires
        le64(a) == le64(b),
    ensures
        a == b,
{
    let (la, ha) = ((a & 0xffff_ffff) as u32, (a >> 32u64) as u32);
    let (lb, hb) = ((b & 0xffff_ffff) as u32, (b >> 32u64) as u32);
    assert(le32(la) =~= le64(a).subrange(0, 4));
    assert(le32(lb) =~= le64(b).subrange(0, 4));
    assert(le32(ha) =~= le64(a).subrange(4, 8));
    assert(le32(hb) =~= le64(b).subrange(4, 8));
    lemma_le32_injective(la, lb);
    lemma_le32_injective(ha, hb);
    assert(((a & 0xffff_ffff) as u32) == ((b & 0xffff_ffff) as u32) && ((a >> 32u64) as u32)
        == ((b >> 32u64) as u32) ==> a == b) by (bit_vector);
}

impl InputEvent {
    /// An event with the given header and a zero timestamp, which the kernel
    /// fills in when it consumes the event.
    pub fn new(event_type: u16, code: u16, value: i32) -> (r: InputEvent)
        ensures
            event_fields(r, 0, 0, event_type, code, value),
    {
        InputEvent { time: TimeVal { tv_sec: 0, tv_usec: 0 }, event_type, code, value }
    }

    /// The record's bytes, as written to a uinput control file.
    pub fn to_bytes(&self) -> (r: Vec<u8>)
        ensures
            r@ == event_bytes(*self),
            r@.len() == INPUT_EVENT_SIZE,
    {
        let mut out: Vec<u8> = Vec::new();
        push_le64(&mut out, self.time.tv_sec);
        push_le64(&mut out, self.time.tv_usec);
        push_le16(&mut out, self.event_type);
        push_le16(&mut out, self.code);
        push_le32(&mut out, self.value as u32);
        out
    }

    /// Reads one record from bytes read off an event device. A buffer that does
    /// not hold exactly one record gives `None`.
    pub fn from_bytes(b: &[u8]) -> (r: Option<InputEvent>)
        ensures
            b@.len() != INPUT_EVENT_SIZE ==> r is None,
            b@.len() == INPUT_EVENT_SIZE ==> (r matches Some(e) && event_bytes(e) == b@),
    {
        if b.len() != INPUT_EVENT_SIZE {
            return None;
        }
        let tv_sec = read_le64(b, 0);
        let tv_usec = read_le64(b, 8);
        let event_type = read_le16(b, 16);
        let code = read_le16(b, 18);
        let raw = read_le32(b, 20);
        let value = raw as i32;
        assert((value as u32) == raw) by (bit_vector)
            requires
                value == raw as i32,
        ;
        let e = InputEvent { time: TimeVal { tv_sec, tv_usec }, event_type, code, value };
        assert(event_bytes(e) =~= b@);
        Some(e)
    }
}

/// Decoding the bytes of an event gives back that event, field for field.
pub proof fn lemma_event_bytes_round_trip(e: InputEvent, d: InputEvent)
    requires
        event_bytes(d) == event_bytes(e),
    ensures
        event_fields(d, e.time.tv_sec, e.time.tv_usec, e.event_type, e.code, e.value),
{
    let (be, bd) = (event_bytes(e), event_bytes(d));
    assert(le64(e.time.tv_sec) =~= be.subrange(0, 8));
    assert(le64(d.time.tv_sec) =~= bd.subrange(0, 8));
    assert(le64(e.time.tv_usec) =~= be.subrange(8, 16));
    assert(le64(d.time.tv_usec) =~= bd.subrange(8, 16));
    assert(le16(e.event_type) =~= be.subrange(16, 18));
    assert(le16(d.event_type) =~= bd.subrange(16, 18));
    assert(le16(e.code) =~= be.subrange(18, 20));
    assert(le16(d.code) =~= bd.subrange(18, 20));
    assert(le32(e.value as u32) =~= be.subrange(20, 24));
    assert(le32(d.value as u32) =~= bd.subrange(20, 24));
    lemma_le64_injective(e.time.tv_sec, d.time.tv_sec);
    lemma_le64_injective(e.time.tv_usec, d.time.tv_usec);
    lemma_le16_injective(e.event_type, d.event_type);
    lemma_le16_injective(e.code, d.code);
    lemma_le32_injective(e.value as u32, d.value as u32);
    let (x, y) = (e.value, d.value);
    assert((x as u32) == (y as u32) ==> x == y) by (bit_vector);
}

/// Capacity of the device name buffer of a setup record.
pub const UINPUT_MAX_NAME_SIZE: usize = 80;

/// Size in bytes of an encoded `UInputSetup`.
pub const UINPUT_SETUP_SIZE: usize = 92;

/// Size in bytes of an encoded `UinputAbsSetup`.
pub const UINPUT_ABS_SETUP_SIZE: usize = 28;

/// Identity of a device: `struct input_id`.
#[derive(Debug, Clone, Copy, PartialEq, Eq, Structural)]
pub struct InputId {
    pub bustype: u16,
    pub vendor: u16,
    pub product: u16,
    pub version: u16,
}

/// Device setup record: `struct uinput_setup`.
pub struct UInputSetup {
    pub id: InputId,
    /// The name, padded with NUL bytes to the buffer's capacity.
    pub name: Vec<u8>,
    pub ff_effects_max: u32,
}

/// Range of an absolute axis: `struct input_absinfo`.
#[derive(Debug, Clone, Copy, PartialEq, Eq, Structural)]
pub struct InputAbsinfo {
    pub value: i32,
    pub minimum: i32,
    pub maximum: i32,
    pub fuzz: i32,
    pub flat: i32,
    pub resolution: i32,
}

/// Absolute axis setup record: `struct uinput_abs_setup`.
#[derive(Debug, Clone, Copy, PartialEq, Eq, Structural)]
pub struct UinputAbsSetup {
    pub code: u16,
    pub absinfo: InputAbsinfo,
}

/// A name buffer: the name, then NUL bytes up to the capacity.
pub open spec fn padded_name(name: Seq<u8>) -> Seq<u8> {
    name + Seq::new((UINPUT_MAX_NAME_SIZE - name.len()) as nat, |i: int| 0u8)
}

pub open spec fn setup_bytes(s: UInputSetup) -> Seq<u8> {
    le16(s.id.bustype) + le16(s.id.vendor) + le16(s.id.product) + le16(s.id.version) + s.name@
        + le32(s.ff_effects_max)
}

pub open spec fn abs_setup_bytes(s: UinputAbsSetup) -> Seq<u8> {
    le16(s.code) + seq![0u8, 0u8] + le32(s.absinfo.value as u32) + le32(s.absinfo.minimum as u32)
        + le32(s.absinfo.maximum as u32) + le32(s.absinfo.fuzz as u32) + le32(
        s.absinfo.flat as u32,
    ) + le32(s.absinfo.resolution as u32)
}

impl UInputSetup {
    pub open spec fn wf(&self) -> bool {
        self.name@.len() == UINPUT_MAX_NAME_SIZE
    }

    /// A USB device record with the given identity and name, and no
    /// force-feedback effects.
    pub fn new(vendor: u16, product: u16, name: &[u8]) -> (r: UInputSetup)
        requires
            name@.len() <= UINPUT_MAX_NAME_SIZE,
        ensures
            r.wf(),
            r.id == (InputId { bustype: BUS_USB, vendor, product, version: 0 }),
            r.name@ == padded_name(name@),
            r.ff_effects_max == 0,
    {
        let mut buf: Vec<u8> = Vec::new();
        let mut i: usize = 0;
        while i < name.len()
            invariant
                i <= name@.len() <= UINPUT_MAX_NAME_SIZE,
                buf@ == name@.subrange(0, i as int),
            decreases name@.len() - i,
        {
            buf.push(name[i]);
            i = i + 1;
        }
        while buf.len() < UINPUT_MAX_NAME_SIZE
            invariant
                name@.len() <= buf@.len() <= UINPUT_MAX_NAME_SIZE,
                buf@.subrange(0, name@.len() as int) == name@,
                forall|k: int| name@.len() <= k < buf@.len() ==> buf@[k] == 0u8,
            decreases UINPUT_MAX_NAME_SIZE - buf@.len(),
        {
            buf.push(0u8);
        }
        assert(buf@ =~= padded_name(name@));
        UInputSetup {
            id: InputId { bustype: BUS_USB, vendor, product, version: 0 },
            name: buf,
            ff_effects_max: 0,
        }
    }

    /// The record's bytes, as handed to the device-setup request.
    pub fn to_bytes(&self) -> (r: Vec<u8>)
        requires
            self.wf(),
        ensures
            r@ == setup_bytes(*self),
            r@.len() == UINPUT_SETUP_SIZE,
    {
        let mut out: Vec<u8> = Vec::new();
        push_le16(&mut out, self.id.bustype);
        push_le16(&mut out, self.id.vendor);
        push_le16(&mut out, self.id.product);
        push_le16(&mut out, self.id.version);
        let mut i: usize = 0;
        while i < self.name.len()
            invariant
                i <= self.name@.len(),
                out@ == le16(self.id.bustype) + le16(self.id.vendor) + le16(self.id.product) + le16(
                    self.id.version,
                ) + self.name@.subrange(0, i as int),
            decreases self.name@.len() - i,
        {
            out.push(self.name[i]);
            i = i + 1;
            assert(out@ =~= le16(self.id.bustype) + le16(self.id.vendor) + le16(self.id.product)
                + le16(self.id.version) + self.name@.subrange(0, i as int));
        }
        assert(self.name@.subrange(0, i as int) =~= self.name@);
        push_le32(&mut out, self.ff_effects_max);
        out
    }
}

impl UinputAbsSetup {
    /// The setup record of an absolute axis spanning `minimum..=maximum`, with
    /// no fuzz, flat zone or resolution.
    pub fn new(code: u16, minimum: i32, maximum: i32) -> (r: UinputAbsSetup)
        ensures
            r.code == code,
            r.absinfo.minimum == minimum,
            r.absinfo.maximum == maximum,
            r.absinfo.value == 0,
            r.absinfo.fuzz == 0,
            r.absinfo.flat == 0,
            r.absinfo.resolution == 0,
    {
        UinputAbsSetup {
            code,
            absinfo: InputAbsinfo { value: 0, minimum, maximum, fuzz: 0, flat: 0, resolution: 0 },
        }
    }

    /// The record's bytes, as handed to the absolute-axis setup request.
    pub fn to_bytes(&self) -> (r: Vec<u8>)
        ensures
            r@ == abs_setup_bytes(*self),
            r@.len() == UINPUT_ABS_SETUP_SIZE,
    {
        let mut out: Vec<u8> = Vec::new();
        push_le16(&mut out, self.code);
        out.push(0u8);
        out.push(0u8);
        push_le32(&mut out, self.absinfo.value as u32);
        push_le32(&mut out, self.absinfo.minimum as u32);
        push_le32(&mut out, self.absinfo.maximum as u32);
        push_le32(&mut out, self.absinfo.fuzz as u32);
        push_le32(&mut out, self.absinfo.flat as u32);
        push_le32(&mut out, self.absinfo.resolution as u32);
        assert(out@ =~= abs_setup_bytes(*self));
        out
    }
}

} // verus!
