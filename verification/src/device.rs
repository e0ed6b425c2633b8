//! The microphones: which are known, which one is taken, and how it is opened.

use vstd::prelude::*;
use vstd::string::StringExecFns;
use crate::text::{push_decimal, push_hex};

verus! {

pub const VID_KINGSTON: u16 = 0x0951;

pub const VID_HP: u16 = 0x03f0;

/// A microphone that is known by its USB ids.
#[derive(Debug, Clone, Copy, PartialEq, Eq, Structural)]
pub enum Model {
    QuadcastS,
    Duocast,
    Quadcast2,
    Quadcast2S,
}

/// The USB ids, vendor and product, under which each model is sold.
pub open spec fn has_ids(m: Model, vid: u16, pid: u16) -> bool {
    match m {
        Model::QuadcastS => vid == VID_KINGSTON && pid == 0x171f || vid == VID_HP && (pid == 0x0f8b
            || pid == 0x028c || pid == 0x048c || pid == 0x068c),
        Model::Duocast => vid == VID_HP && pid == 0x098c,
        Model::Quadcast2 => vid == VID_HP && pid == 0x09af,
        Model::Quadcast2S => vid == VID_HP && pid == 0x02b5,
    }
}

/// The model with these ids, if there is one.
pub open spec fn model_with_ids(vid: u16, pid: u16) -> Option<Model> {
    if has_ids(Model::QuadcastS, vid, pid) {
        Some(Model::QuadcastS)
    } else if has_ids(Model::Duocast, vid, pid) {
        Some(Model::Duocast)
    } else if has_ids(Model::Quadcast2, vid, pid) {
        Some(Model::Quadcast2)
    } else if has_ids(Model::Quadcast2S, vid, pid) {
        Some(Model::Quadcast2S)
    } else {
        None
    }
}

pub open spec fn model_name(m: Model) -> Seq<char> {
    match m {
        Model::QuadcastS => "HyperX Quadcast S"@,
        Model::Duocast => "HyperX Duocast"@,
        Model::Quadcast2 => "HyperX Quadcast 2"@,
        Model::Quadcast2S => "HyperX Quadcast 2S"@,
    }
}

impl Model {
    /// The model with these ids.
    pub fn from_ids(vid: u16, pid: u16) -> (r: Option<Self>)
        ensures
            r == model_with_ids(vid, pid),
            r == Some(Model::QuadcastS) <==> (vid == 0x0951 && pid == 0x171f) || (vid == 0x03f0
                && pid == 0x0f8b) || (vid == 0x03f0 && pid == 0x028c) || (vid == 0x03f0 && pid
                == 0x048c) || (vid == 0x03f0 && pid == 0x068c),
            r == Some(Model::Duocast) <==> vid == 0x03f0 && pid == 0x098c,
            r == Some(Model::Quadcast2) <==> vid == 0x03f0 && pid == 0x09af,
            r == Some(Model::Quadcast2S) <==> vid == 0x03f0 && pid == 0x02b5,
    {
        if vid == VID_KINGSTON && pid == 0x171f {
            Some(Model::QuadcastS)
        } else if vid == VID_HP && (pid == 0x0f8b || pid == 0x028c || pid == 0x048c || pid
            == 0x068c) {
            Some(Model::QuadcastS)
        } else if vid == VID_HP && pid == 0x098c {
            Some(Model::Duocast)
        } else if vid == VID_HP && pid == 0x09af {
            Some(Model::Quadcast2)
        } else if vid == VID_HP && pid == 0x02b5 {
            Some(Model::Quadcast2S)
        } else {
            None
        }
    }

    /// The name that the model is sold under.
    pub fn name(&self) -> (r: &'static str)
        ensures
            r@ == model_name(*self),
            self is QuadcastS ==> r@ == "HyperX Quadcast S"@,
            self is Duocast ==> r@ == "HyperX Duocast"@,
            self is Quadcast2 ==> r@ == "HyperX Quadcast 2"@,
            self is Quadcast2S ==> r@ == "HyperX Quadcast 2S"@,
    {
        match self {
            Model::QuadcastS => "HyperX Quadcast S",
            Model::Duocast => "HyperX Duocast",
            Model::Quadcast2 => "HyperX Quadcast 2",
            Model::Quadcast2S => "HyperX Quadcast 2S",
        }
    }
}

/// The ids in a device's descriptor.
#[derive(Debug, Clone, Copy, PartialEq, Eq, Structural)]
pub struct DeviceIds {
    pub vid: u16,
    pub pid: u16,
}

/// Why no microphone was taken.
#[derive(Debug, Clone, Copy, PartialEq, Eq, Structural)]
pub enum FindError {
    /// The descriptor of the device at this place could not be read.
    Descriptor(usize),
    /// No device is a known microphone.
    NotFound,
}

/// The search goes no further than this device: it is a known microphone, or its descriptor,
/// absent here, could not be read.
pub open spec fn ends_search(d: Option<DeviceIds>) -> bool {
    match d {
        Some(ids) => model_with_ids(ids.vid, ids.pid) is Some,
        None => true,
    }
}

/// Takes the first known microphone among the devices on the bus, given by their ids. A `None`
/// stands for a descriptor that could not be read; it ends the search.
pub fn find_mic(devices: &[Option<DeviceIds>]) -> (r: Result<(usize, Model), FindError>)
    ensures
        match r {
            Ok((i, m)) => {
                &&& i < devices@.len()
                &&& devices@[i as int] matches Some(ids)
                &&& model_with_ids(ids.vid, ids.pid) == Some(m)
                &&& forall|j: int| 0 <= j < i ==> !ends_search(#[trigger] devices@[j])
            },
            Err(FindError::Descriptor(i)) => {
                &&& i < devices@.len()
                &&& devices@[i as int] is None
                &&& forall|j: int| 0 <= j < i ==> !ends_search(#[trigger] devices@[j])
            },
            Err(FindError::NotFound) => forall|j: int|
                0 <= j < devices@.len() ==> !ends_search(#[trigger] devices@[j]),
        },
        ({
            let end = match r {
                Ok((i, _)) => i as int,
                Err(FindError::Descriptor(i)) => i as int,
                Err(FindError::NotFound) => devices@.len() as int,
            };
            forall|j: int|
                0 <= j < end ==> ((#[trigger] devices@[j]) matches Some(ids) && model_with_ids(
                    ids.vid,
                    ids.pid,
                ) is None)
        }),
{
    let mut i: usize = 0;
    while i < devices.len()
        invariant
            i <= devices@.len(),
            forall|j: int| 0 <= j < i ==> !ends_search(#[trigger] devices@[j]),
        decreases devices@.len() - i,
    {
        match devices[i] {
            Some(ids) => {
                if let Some(model) = Model::from_ids(ids.vid, ids.pid) {
                    return Ok((i, model));
                }
            },
            None => {
                return Err(FindError::Descriptor(i));
            },
        }
        i = i + 1;
    }
    Err(FindError::NotFound)
}

pub open spec fn find_error_message(e: FindError) -> Seq<char> {
    match e {
        FindError::Descriptor(_) => "reading descriptor"@,
        FindError::NotFound => "no compatible HyperX microphone found"@,
    }
}

impl FindError {
    /// The error in words.
    pub fn message(&self) -> (m: String)
        ensures
            m@ == find_error_message(*self),
            self is Descriptor ==> m@ == "reading descriptor"@,
            self is NotFound ==> m@ == "no compatible HyperX microphone found"@,
    {
        match self {
            FindError::Descriptor(_) => "reading descriptor".to_owned(),
            FindError::NotFound => "no compatible HyperX microphone found".to_owned(),
        }
    }
}

/// The interface that is claimed first when a microphone is opened.
pub const FIRST_INTERFACE: u8 = 0;

/// The interface that is claimed last.
pub const LAST_INTERFACE: u8 = 1;

/// What came of claiming an interface.
#[derive(Debug)]
pub enum ClaimResult {
    Claimed,
    Busy,
    NoDevice,
    /// Another error, in words.
    Other(String),
}

/// How opening goes on after an interface was claimed.
#[derive(Debug)]
pub struct Claim {
    /// A note for the user.
    pub note: Option<String>,
    /// The interface to claim next; with `None` the microphone is open.
    pub next: Option<u8>,
}

/// Why a microphone could not be opened.
#[derive(Debug, Clone, Copy, PartialEq, Eq, Structural)]
pub enum OpenError {
    /// Another program holds this interface.
    Busy(u8),
    Disconnected,
}

pub open spec fn next_interface(iface: u8) -> Option<u8> {
    if iface < LAST_INTERFACE {
        Some((iface + 1) as u8)
    } else {
        None
    }
}

pub open spec fn claim_note(iface: u8, error: Seq<char>) -> Seq<char> {
    "note: could not claim interface "@ + crate::text::decimal(iface as nat) + ": "@ + error
        + " (continuing)"@
}

/// The claim ended opening.
pub open spec fn ends_opening(result: ClaimResult) -> bool {
    result is Busy || result is NoDevice
}

/// The interface to claim after `result` came of claiming `iface`, none when the microphone is
/// open, or why it cannot be opened.
pub open spec fn after_claim(iface: u8, result: ClaimResult) -> Result<Option<u8>, OpenError> {
    match result {
        ClaimResult::Busy => Err(OpenError::Busy(iface)),
        ClaimResult::NoDevice => Err(OpenError::Disconnected),
        _ => Ok(next_interface(iface)),
    }
}

/// What comes of opening from `iface` on, when `results` come of the claims in their order.
pub open spec fn open_from(iface: u8, results: Seq<ClaimResult>) -> Result<(), OpenError>
    decreases results.len(),
{
    if results.len() == 0 {
        Ok(())
    } else {
        match after_claim(iface, results[0]) {
            Ok(Some(next)) => open_from(next, results.skip(1)),
            Ok(None) => Ok(()),
            Err(e) => Err(e),
        }
    }
}

/// Decides how opening goes on after `result` came of claiming `iface`: a busy interface and a
/// lost device end it, any other error is noted and passed over.
pub fn claim_interface(iface: u8, result: ClaimResult) -> (r: Result<Claim, OpenError>)
    ensures
        match r {
            Ok(c) => {
                &&& after_claim(iface, result) == Ok::<Option<u8>, OpenError>(c.next)
                &&& match result {
                    ClaimResult::Other(e) => c.note matches Some(note) && note@ == claim_note(
                        iface,
                        e@,
                    ),
                    _ => c.note is None,
                }
            },
            Err(e) => after_claim(iface, result) == Err::<Option<u8>, OpenError>(e),
        },
        r is Err <==> result is Busy || result is NoDevice,
        result is Busy ==> r == Err::<Claim, OpenError>(OpenError::Busy(iface)),
        result is NoDevice ==> r == Err::<Claim, OpenError>(OpenError::Disconnected),
        r matches Ok(c) ==> {
            &&& iface == 0 <==> c.next == Some(1u8)
            &&& iface >= 1 <==> c.next is None
            &&& c.note is Some <==> result is Other
            &&& result matches ClaimResult::Other(e) ==> c.note->0@
                == "note: could not claim interface "@ + crate::text::decimal(iface as nat) + ": "@
                + e@ + " (continuing)"@
        },
{
    let next: Option<u8> = if iface < LAST_INTERFACE {
        Some(iface + 1)
    } else {
        None
    };
    match result {
        ClaimResult::Claimed => Ok(Claim { note: None, next }),
        ClaimResult::Busy => Err(OpenError::Busy(iface)),
        ClaimResult::NoDevice => Err(OpenError::Disconnected),
        ClaimResult::Other(e) => {
            let mut note = "note: could not claim interface ".to_owned();
            push_decimal(&mut note, iface as u64);
            note.append(": ");
            note.append(e.as_str());
            note.append(" (continuing)");
            Ok(Claim { note: Some(note), next })
        },
    }
}

pub open spec fn open_error_message(e: OpenError) -> Seq<char> {
    match e {
        OpenError::Busy(iface) => "interface "@ + crate::text::decimal(iface as nat)
            + " is busy \u{2014} another quadcastctl/quadcastrgb is running?"@,
        OpenError::Disconnected => "device disconnected"@,
    }
}

impl OpenError {
    /// The error in words.
    pub fn message(&self) -> (m: String)
        ensures
            m@ == open_error_message(*self),
            self matches OpenError::Busy(iface) ==> m@ == "interface "@ + crate::text::decimal(
                *iface as nat,
            ) + " is busy \u{2014} another quadcastctl/quadcastrgb is running?"@,
            self is Disconnected ==> m@ == "device disconnected"@,
    {
        match self {
            OpenError::Busy(iface) => {
                let mut m = "interface ".to_owned();
                push_decimal(&mut m, *iface as u64);
                m.append(" is busy \u{2014} another quadcastctl/quadcastrgb is running?");
                m
            },
            OpenError::Disconnected => "device disconnected".to_owned(),
        }
    }
}

pub open spec fn device_line(model: Model, ids: DeviceIds, bus: u8, address: u8) -> Seq<char> {
    model_name(model) + " \u{2014} VID:PID "@ + crate::text::hex_padded(ids.vid as nat, 4) + ":"@
        + crate::text::hex_padded(ids.pid as nat, 4) + " (bus "@ + crate::text::decimal(bus as nat)
        + " address "@ + crate::text::decimal(address as nat) + ")"@
}

/// The line that lists a microphone.
fn mic_line(model: Model, ids: DeviceIds, bus: u8, address: u8) -> (line: String)
    ensures
        line@ == device_line(model, ids, bus, address),
{
    let mut line = model.name().to_owned();
    line.append(" \u{2014} VID:PID ");
    push_hex(&mut line, ids.vid, 4);
    line.append(":");
    push_hex(&mut line, ids.pid, 4);
    line.append(" (bus ");
    push_decimal(&mut line, bus as u64);
    line.append(" address ");
    push_decimal(&mut line, address as u64);
    line.append(")");
    line
}

/// A device on the bus, by its ids and its place.
#[derive(Debug, Clone, Copy, PartialEq, Eq, Structural)]
pub struct Listed {
    pub ids: DeviceIds,
    pub bus: u8,
    pub address: u8,
}

/// One line for each known microphone among the devices, in the order of the devices.
pub open spec fn mic_lines(devices: Seq<Option<Listed>>) -> Seq<Seq<char>>
    decreases devices.len(),
{
    if devices.len() == 0 {
        Seq::empty()
    } else {
        let before = mic_lines(devices.drop_last());
        match devices.last() {
            Some(d) => match model_with_ids(d.ids.vid, d.ids.pid) {
                Some(model) => before.push(device_line(model, d.ids, d.bus, d.address)),
                None => before,
            },
            None => before,
        }
    }
}

/// The device is a known microphone.
pub open spec fn is_microphone(d: Option<Listed>) -> bool {
    d matches Some(l) && model_with_ids(l.ids.vid, l.ids.pid) is Some
}

/// The device is a known microphone, and `line` is its line.
pub open spec fn is_line_of(line: Seq<char>, d: Option<Listed>) -> bool {
    &&& d matches Some(l)
    &&& model_with_ids(l.ids.vid, l.ids.pid) matches Some(model)
    &&& line == device_line(model, l.ids, l.bus, l.address)
}

/// A known microphone stands at `i`, and all descriptors before it could be read.
pub open spec fn is_reached(devices: Seq<Option<Listed>>, i: int) -> bool {
    &&& 0 <= i < devices.len()
    &&& is_microphone(devices[i])
    &&& forall|j: int| 0 <= j < i ==> #[trigger] devices[j] is Some
}

/// The descriptors of the devices before `i` could be read, and none of them is a known microphone.
pub open spec fn none_before(devices: Seq<Option<Listed>>, i: int) -> bool {
    forall|j: int| 0 <= j < i ==> (#[trigger] devices[j]) is Some && !is_microphone(devices[j])
}

/// The lines that list the connected microphones, given all the devices on the bus. A `None`
/// stands for a descriptor that could not be read; it ends listing unless a microphone comes
/// before it, and is passed over otherwise.
pub fn cmd_list(devices: &[Option<Listed>]) -> (r: Result<Vec<String>, FindError>)
    ensures
        match r {
            Ok(lines) => {
                &&& crate::text::texts(lines@) == mic_lines(devices@)
                &&& lines@.len() > 0
                &&& exists|i: int| #[trigger] is_reached(devices@, i)
            },
            Err(FindError::Descriptor(i)) => {
                &&& i < devices@.len()
                &&& devices@[i as int] is None
                &&& none_before(devices@, i as int)
            },
            Err(FindError::NotFound) => none_before(devices@, devices@.len() as int),
        },
        r matches Ok(lines) ==> exists|i: int|
            {
                &&& 0 <= i < devices@.len()
                &&& (#[trigger] devices@[i]) matches Some(d)
                &&& model_with_ids(d.ids.vid, d.ids.pid) is Some
                &&& forall|j: int| 0 <= j < i ==> #[trigger] devices@[j] is Some
            },
        ({
            let end = match r {
                Ok(_) => 0int,
                Err(FindError::Descriptor(i)) => i as int,
                Err(FindError::NotFound) => devices@.len() as int,
            };
            forall|j: int|
                0 <= j < end ==> ((#[trigger] devices@[j]) matches Some(d) && model_with_ids(
                    d.ids.vid,
                    d.ids.pid,
                ) is None)
        }),
{
    let mut lines: Vec<String> = Vec::new();
    let mut i: usize = 0;
    assert(crate::text::texts(lines@) =~= mic_lines(devices@.take(0)));
    while i < devices.len()
        invariant
            i <= devices@.len(),
            crate::text::texts(lines@) == mic_lines(devices@.take(i as int)),
            lines@.len() == 0 ==> none_before(devices@, i as int),
            lines@.len() > 0 ==> exists|k: int| #[trigger] is_reached(devices@, k),
        decreases devices@.len() - i,
    {
        assert(devices@.take(i + 1).drop_last() =~= devices@.take(i as int));
        let ghost before = lines@;
        match devices[i] {
            Some(d) => {
                if let Some(model) = Model::from_ids(d.ids.vid, d.ids.pid) {
                    let line = mic_line(model, d.ids, d.bus, d.address);
                    lines.push(line);
                    assert(crate::text::texts(lines@) =~= crate::text::texts(before).push(line@));
                    assert(before.len() == 0 ==> is_reached(devices@, i as int));
                }
            },
            None => {
                if lines.len() == 0 {
                    return Err(FindError::Descriptor(i));
                }
            },
        }
        i = i + 1;
    }
    assert(devices@.take(i as int) =~= devices@);
    if lines.len() == 0 {
        Err(FindError::NotFound)
    } else {
        proof {
            let k = choose|k: int| #[trigger] is_reached(devices@, k);
            assert(devices@[k] is Some);
        }
        Ok(lines)
    }
}

/// A pair of USB ids belongs to at most one model, and that model is found by them.
pub proof fn law_ids_name_one_model(m: Model, vid: u16, pid: u16)
    ensures
        has_ids(m, vid, pid) <==> model_with_ids(vid, pid) == Some(m),
{
}

/// A microphone opens if neither of its two interfaces is busy or gone; the first that is says
/// why it does not.
pub proof fn law_opening_needs_both_interfaces(first: ClaimResult, last: ClaimResult)
    ensures
        open_from(FIRST_INTERFACE, seq![first, last]) is Ok <==> !ends_opening(first)
            && !ends_opening(last),
        first is Busy ==> open_from(FIRST_INTERFACE, seq![first, last]) == Err::<(), OpenError>(
            OpenError::Busy(FIRST_INTERFACE),
        ),
        !ends_opening(first) && last is Busy ==> open_from(FIRST_INTERFACE, seq![first, last])
            == Err::<(), OpenError>(OpenError::Busy(LAST_INTERFACE)),
        first is NoDevice || (!ends_opening(first) && last is NoDevice) ==> open_from(
            FIRST_INTERFACE,
            seq![first, last],
        ) == Err::<(), OpenError>(OpenError::Disconnected),
{
    reveal_with_fuel(open_from, 3);
    assert(seq![first, last].skip(1) =~= seq![last]);
}

/// Each known microphone has its line, and there is no other line: a device more adds one line if
/// it is a known microphone, and none if not.
pub proof fn law_every_microphone_is_listed(devices: Seq<Option<Listed>>, line: Seq<char>)
    ensures
        mic_lines(devices).contains(line) <==> exists|i: int|
            0 <= i < devices.len() && is_line_of(line, #[trigger] devices[i]),
        mic_lines(devices).len() == devices.filter(|d: Option<Listed>| is_microphone(d)).len(),
    decreases devices.len(),
{
    reveal(Seq::filter);
    if devices.len() > 0 {
        let front = devices.drop_last();
        let last = devices.len() - 1;
        law_every_microphone_is_listed(front, line);
        let before = mic_lines(front);
        if is_microphone(devices[last]) {
            let d = devices[last]->0;
            let added = device_line(model_with_ids(d.ids.vid, d.ids.pid)->0, d.ids, d.bus, d.address);
            assert(mic_lines(devices) == before.push(added));
            assert(before.push(added)[before.len() as int] == added);
            if before.contains(line) {
                let k = before.index_of(line);
                assert(before.push(added)[k] == line);
            }
        }
        if exists|i: int| 0 <= i < devices.len() && is_line_of(line, #[trigger] devices[i]) {
            let i = choose|i: int| 0 <= i < devices.len() && is_line_of(line, #[trigger] devices[i]);
            if i < last {
                assert(front[i] == devices[i]);
            }
        }
        if exists|i: int| 0 <= i < front.len() && is_line_of(line, #[trigger] front[i]) {
            let i = choose|i: int| 0 <= i < front.len() && is_line_of(line, #[trigger] front[i]);
            assert(devices[i] == front[i]);
        }
    }
}

/// The ids of the known microphones: these eight pairs, each with its model, and no other.
pub proof fn law_known_ids(vid: u16, pid: u16)
    ensures
        model_with_ids(vid, pid) == Some(Model::QuadcastS) <==> (vid == 0x0951 && pid == 0x171f) || (
        vid == 0x03f0 && (pid == 0x0f8b || pid == 0x028c || pid == 0x048c || pid == 0x068c)),
        model_with_ids(vid, pid) == Some(Model::Duocast) <==> vid == 0x03f0 && pid == 0x098c,
        model_with_ids(vid, pid) == Some(Model::Quadcast2) <==> vid == 0x03f0 && pid == 0x09af,
        model_with_ids(vid, pid) == Some(Model::Quadcast2S) <==> vid == 0x03f0 && pid == 0x02b5,
        model_with_ids(vid, pid) is Some ==> vid == 0x0951 || vid == 0x03f0,
{
}

/// At most eight pairs of ids are known: among any nine pairs that are, two are the same.
pub proof fn law_at_most_eight_ids(pairs: Seq<(u16, u16)>)
    requires
        forall|i: int|
            0 <= i < pairs.len() ==> model_with_ids((#[trigger] pairs[i]).0, pairs[i].1) is Some,
        forall|i: int, j: int|
            0 <= i < j < pairs.len() ==> #[trigger] pairs[i] != #[trigger] pairs[j],
    ensures
        pairs.len() <= 8,
{
    let known: Seq<(u16, u16)> = seq![
        (0x0951u16, 0x171fu16),
        (0x03f0u16, 0x0f8bu16),
        (0x03f0u16, 0x028cu16),
        (0x03f0u16, 0x048cu16),
        (0x03f0u16, 0x068cu16),
        (0x03f0u16, 0x098cu16),
        (0x03f0u16, 0x09afu16),
        (0x03f0u16, 0x02b5u16),
    ];
    assert forall|p: (u16, u16)| pairs.to_set().contains(p) implies #[trigger] known.to_set().contains(
        p,
    ) by {
        let i = choose|i: int| 0 <= i < pairs.len() && pairs[i] == p;
        assert(model_with_ids(pairs[i].0, pairs[i].1) is Some);
        law_known_ids(p.0, p.1);
        assert(p == known[0] || p == known[1] || p == known[2] || p == known[3] || p == known[4] || p
            == known[5] || p == known[6] || p == known[7]);
    }
    assert(pairs.no_duplicates());
    pairs.unique_seq_to_set();
    known.lemma_cardinality_of_set();
    vstd::set_lib::lemma_len_subset(pairs.to_set(), known.to_set());
}

/// The names of the models, and no two of them are alike.
pub proof fn law_model_names(a: Model, b: Model)
    ensures
        model_name(Model::QuadcastS) == "HyperX Quadcast S"@,
        model_name(Model::Duocast) == "HyperX Duocast"@,
        model_name(Model::Quadcast2) == "HyperX Quadcast 2"@,
        model_name(Model::Quadcast2S) == "HyperX Quadcast 2S"@,
        model_name(a) == model_name(b) ==> a == b,
{
    reveal_strlit("HyperX Quadcast S");
    reveal_strlit("HyperX Duocast");
    reveal_strlit("HyperX Quadcast 2");
    reveal_strlit("HyperX Quadcast 2S");
    assert("HyperX Quadcast S"@[16] == 'S' && "HyperX Quadcast 2"@[16] == '2');
    assert("HyperX Quadcast S"@.len() == 17 && "HyperX Quadcast 2"@.len() == 17);
    assert("HyperX Duocast"@.len() == 14 && "HyperX Quadcast 2S"@.len() == 18);
}

/// The lines of two groups of devices are those of the one, then those of the other; a device
/// that is no known microphone has none, and one that is has this line.
pub proof fn law_lines_follow_the_devices(
    a: Seq<Option<Listed>>,
    b: Seq<Option<Listed>>,
    d: Listed,
    model: Model,
)
    ensures
        mic_lines(Seq::<Option<Listed>>::empty()) == Seq::<Seq<char>>::empty(),
        mic_lines(a + b) == mic_lines(a) + mic_lines(b),
        mic_lines(seq![None::<Listed>]) == Seq::<Seq<char>>::empty(),
        model_with_ids(d.ids.vid, d.ids.pid) is None ==> mic_lines(seq![Some(d)])
            == Seq::<Seq<char>>::empty(),
        model_with_ids(d.ids.vid, d.ids.pid) == Some(model) ==> mic_lines(seq![Some(d)]) == seq![
            model_name(model) + " \u{2014} VID:PID "@ + crate::text::hex_padded(d.ids.vid as nat, 4)
                + ":"@ + crate::text::hex_padded(d.ids.pid as nat, 4) + " (bus "@
                + crate::text::decimal(d.bus as nat) + " address "@ + crate::text::decimal(
                d.address as nat,
            ) + ")"@,
        ],
    decreases b.len(),
{
    let none = Seq::<Seq<char>>::empty();
    reveal_with_fuel(mic_lines, 2);
    assert(seq![Some(d)].drop_last() =~= Seq::<Option<Listed>>::empty());
    assert(seq![None::<Listed>].drop_last() =~= Seq::<Option<Listed>>::empty());
    if b.len() == 0 {
        assert(a + b =~= a);
        assert(mic_lines(a) + mic_lines(b) =~= mic_lines(a));
    } else {
        law_lines_follow_the_devices(a, b.drop_last(), d, model);
        assert((a + b).drop_last() =~= a + b.drop_last());
        assert((a + b).last() == b.last());
        assert(mic_lines(a + b) =~= mic_lines(a) + mic_lines(b));
    }
}

/// After a claim that ended nothing, the interface after the first one is claimed, and none after
/// that. Opening goes on as long as there are interfaces left to claim.
pub proof fn law_two_interfaces_are_claimed(
    iface: u8,
    result: ClaimResult,
    results: Seq<ClaimResult>,
)
    ensures
        FIRST_INTERFACE == 0,
        LAST_INTERFACE == 1,
        result is Busy ==> after_claim(iface, result) == Err::<Option<u8>, OpenError>(
            OpenError::Busy(iface),
        ),
        result is NoDevice ==> after_claim(iface, result) == Err::<Option<u8>, OpenError>(
            OpenError::Disconnected,
        ),
        result is Claimed || result is Other ==> after_claim(iface, result) == Ok::<
            Option<u8>,
            OpenError,
        >(
            if iface == 0 {
                Some(1u8)
            } else {
                None
            },
        ),
        results.len() == 0 ==> open_from(iface, results) is Ok,
        results.len() > 0 && results[0] is Busy ==> open_from(iface, results) == Err::<
            (),
            OpenError,
        >(OpenError::Busy(iface)),
        results.len() > 0 && results[0] is NoDevice ==> open_from(iface, results) == Err::<
            (),
            OpenError,
        >(OpenError::Disconnected),
        results.len() > 0 && (results[0] is Claimed || results[0] is Other) ==> open_from(
            iface,
            results,
        ) == (if iface == 0 {
            open_from(1, results.skip(1))
        } else {
            Ok(())
        }),
{
}

} // verus!
