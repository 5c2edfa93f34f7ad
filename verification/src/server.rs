//! The serving core of the central servers: a name-keyed device table built
//! from configuration entries, and the dispatch that answers one decoded
//! request — listing the table, switching a device, or reading it out. The
//! TCP and UDP servers differ only in framing, so one core serves both.

use crate::emulator::{reading_fits, spec_reading, AVG_POWER_MW, AVG_TEMP_MILLI};
use crate::err_server::{ErrorKind, ServerErr};
use crate::server_protocol as sp;
use crate::transport;
use crate::transport::TranportPack;
use crate::wire;
use vstd::pervasive::VecAdditionalExecFns;
use vstd::prelude::*;
use vstd::string::StringSliceAdditionalSpecFns;
use vstd::utf8::{decode_utf8, encode_utf8, valid_utf8};

verus! {

broadcast use vstd::seq_lib::group_seq_lib_default, vstd::seq::group_seq_axioms;

/// A served socket device: one on/off flag.
#[derive(Clone, Copy, Debug, PartialEq, Eq, Structural)]
pub struct SmartSocket {
    pub is_turn_on: bool,
}

impl Default for SmartSocket {
    /// A socket that starts turned off.
    fn default() -> (r: SmartSocket)
        ensures
            r.is_turn_on == false,
    {
        SmartSocket { is_turn_on: false }
    }
}

impl SmartSocket {
    /// Turns the socket on.
    pub fn turn_on(&mut self)
        ensures
            final(self).is_turn_on == true,
    {
        self.is_turn_on = true;
    }

    /// Turns the socket off.
    pub fn turn_off(&mut self)
        ensures
            final(self).is_turn_on == false,
    {
        self.is_turn_on = false;
    }

    /// The power reading, in milliwatts: exactly 0 while off, the mean plus
    /// the sampled noise while on.
    pub fn get_power(&self, noise_mw: i64) -> (r: i64)
        requires
            reading_fits(AVG_POWER_MW, noise_mw),
        ensures
            r == spec_reading(self.is_turn_on, AVG_POWER_MW, noise_mw),
    {
        if !self.is_turn_on {
            return 0;
        }
        AVG_POWER_MW + noise_mw
    }
}

/// A served thermometer device: one on/off flag.
#[derive(Clone, Copy, Debug, PartialEq, Eq, Structural)]
pub struct SmartTherm {
    pub is_turn_on: bool,
}

impl Default for SmartTherm {
    /// A thermometer that starts turned off.
    fn default() -> (r: SmartTherm)
        ensures
            r.is_turn_on == false,
    {
        SmartTherm { is_turn_on: false }
    }
}

impl SmartTherm {
    /// Turns the thermometer on.
    pub fn turn_on(&mut self)
        ensures
            final(self).is_turn_on == true,
    {
        self.is_turn_on = true;
    }

    /// Turns the thermometer off.
    pub fn turn_off(&mut self)
        ensures
            final(self).is_turn_on == false,
    {
        self.is_turn_on = false;
    }

    /// The temperature reading, in millidegrees: exactly 0 while off, the
    /// mean plus the sampled noise while on.
    pub fn get_temperature(&self, noise_milli: i64) -> (r: i64)
        requires
            reading_fits(AVG_TEMP_MILLI, noise_milli),
        ensures
            r == spec_reading(self.is_turn_on, AVG_TEMP_MILLI, noise_milli),
    {
        if !self.is_turn_on {
            return 0;
        }
        AVG_TEMP_MILLI + noise_milli
    }
}

/// One served device of either kind.
#[derive(Clone, Copy, Debug, PartialEq, Eq, Structural)]
pub enum Device {
    Socket(SmartSocket),
    Therm(SmartTherm),
}

impl Device {
    /// The protocol kind of the device.
    pub open spec fn spec_type(self) -> sp::TypeDev {
        match self {
            Device::Socket(_) => sp::TypeDev::SmartSocket,
            Device::Therm(_) => sp::TypeDev::SmartTherm,
        }
    }

    /// Whether the device is on.
    pub open spec fn spec_is_on(self) -> bool {
        match self {
            Device::Socket(s) => s.is_turn_on,
            Device::Therm(t) => t.is_turn_on,
        }
    }

    /// The same device with its on/off flag set.
    pub open spec fn spec_with_on(self, on: bool) -> Device {
        match self {
            Device::Socket(_) => Device::Socket(SmartSocket { is_turn_on: on }),
            Device::Therm(_) => Device::Therm(SmartTherm { is_turn_on: on }),
        }
    }

    /// The protocol kind of the device.
    pub fn get_type_device(&self) -> (r: sp::TypeDev)
        ensures
            r == self.spec_type(),
    {
        match self {
            Device::Socket(_) => sp::TypeDev::SmartSocket,
            Device::Therm(_) => sp::TypeDev::SmartTherm,
        }
    }

    /// Turns the device on.
    pub fn turn_on(&mut self)
        ensures
            *final(self) == old(self).spec_with_on(true),
    {
        match self {
            Device::Socket(s) => s.turn_on(),
            Device::Therm(t) => t.turn_on(),
        }
    }

    /// Turns the device off.
    pub fn turn_off(&mut self)
        ensures
            *final(self) == old(self).spec_with_on(false),
    {
        match self {
            Device::Socket(s) => s.turn_off(),
            Device::Therm(t) => t.turn_off(),
        }
    }
}

/// The device a configuration kind names, if any, in its initial state.
pub open spec fn spec_dev_kind(s: Seq<char>) -> Option<Device> {
    if s == "socket"@ {
        Some(Device::Socket(SmartSocket { is_turn_on: false }))
    } else if s == "therm"@ {
        Some(Device::Therm(SmartTherm { is_turn_on: false }))
    } else {
        None
    }
}

/// Builds the emulated device a configuration kind names; any other kind is
/// a configuration error.
pub fn generate_device_emulator(dev_type: &str) -> (r: Result<Device, ServerErr>)
    ensures
        match r {
            Ok(d) => spec_dev_kind(dev_type@) == Some(d),
            Err(e) => spec_dev_kind(dev_type@) is None && e.err_kind == ErrorKind::WrongDevType,
        },
{
    if wire::str_eq(dev_type, "socket") {
        Ok(Device::Socket(SmartSocket::default()))
    } else if wire::str_eq(dev_type, "therm") {
        Ok(Device::Therm(SmartTherm::default()))
    } else {
        Err(ServerErr::new(ErrorKind::WrongDevType))
    }
}

/// The name-and-device views of a device table.
pub open spec fn table_view(devices: Seq<(String, Device)>) -> Seq<(Seq<char>, Device)> {
    devices.map_values(|p: (String, Device)| (p.0@, p.1))
}

/// The index of the first entry under a name, if any.
pub open spec fn spec_find(t: Seq<(Seq<char>, Device)>, name: Seq<char>) -> Option<int>
    decreases t.len(),
{
    if t.len() == 0 {
        None
    } else if t[0].0 == name {
        Some(0)
    } else {
        match spec_find(t.drop_first(), name) {
            Some(i) => Some(i + 1),
            None => None,
        }
    }
}

/// What `spec_find` returns: the first index whose entry bears the name, or
/// nothing when no entry does.
pub proof fn lemma_spec_find_first(t: Seq<(Seq<char>, Device)>, name: Seq<char>)
    ensures
        match spec_find(t, name) {
            Some(i) => 0 <= i < t.len() && t[i].0 == name && forall|j: int|
                0 <= j < i ==> t[j].0 != name,
            None => forall|j: int| 0 <= j < t.len() ==> t[j].0 != name,
        },
    decreases t.len(),
{
    if t.len() != 0 && t[0].0 != name {
        lemma_spec_find_first(t.drop_first(), name);
        assert(forall|j: int| 1 <= j < t.len() ==> t[j] == t.drop_first()[j - 1]);
    }
}

/// The table after storing a device under a name: the existing entry is
/// replaced, or a new entry is appended.
pub open spec fn spec_insert(
    t: Seq<(Seq<char>, Device)>,
    name: Seq<char>,
    dev: Device,
) -> Seq<(Seq<char>, Device)> {
    match spec_find(t, name) {
        Some(i) => t.update(i, (name, dev)),
        None => t.push((name, dev)),
    }
}

/// The protocol device list a table answers: every entry, in table order.
pub open spec fn spec_dev_list(t: Seq<(Seq<char>, Device)>) -> Seq<sp::DevView> {
    t.map_values(|p: (Seq<char>, Device)| sp::DevView { name: p.0, type_dev: p.1.spec_type() })
}

/// How one decoded request is served against a table: the table afterwards
/// and the outcome sent back. Listing never fails and mutates nothing; the
/// four device-directed commands fail as not-found when no entry bears the
/// requested name; a reading of the wrong kind of device is refused as a
/// wrong command; readings mutate nothing.
pub open spec fn spec_serve(t: Seq<(Seq<char>, Device)>, req: sp::SReqView, noise_mw: i64) -> (
    Seq<(Seq<char>, Device)>,
    sp::RespKindView,
) {
    match req.cmd {
        sp::Cmd::GetListDevices => (
            t,
            sp::RespKindView::Success(sp::SuccessView::ListDev(spec_dev_list(t))),
        ),
        sp::Cmd::TurnOn => match spec_find(t, req.dev_name) {
            Some(i) => (
                t.update(i, (t[i].0, t[i].1.spec_with_on(true))),
                sp::RespKindView::Success(sp::SuccessView::Ack),
            ),
            None => (t, sp::RespKindView::Failure(sp::ErrorKind::DevNotFound)),
        },
        sp::Cmd::TurnOff => match spec_find(t, req.dev_name) {
            Some(i) => (
                t.update(i, (t[i].0, t[i].1.spec_with_on(false))),
                sp::RespKindView::Success(sp::SuccessView::Ack),
            ),
            None => (t, sp::RespKindView::Failure(sp::ErrorKind::DevNotFound)),
        },
        sp::Cmd::Power => match spec_find(t, req.dev_name) {
            Some(i) => match t[i].1 {
                Device::Socket(s) => (
                    t,
                    sp::RespKindView::Success(
                        sp::SuccessView::Power(spec_reading(s.is_turn_on, AVG_POWER_MW, noise_mw)),
                    ),
                ),
                Device::Therm(_) => (t, sp::RespKindView::Failure(sp::ErrorKind::WrongCmd)),
            },
            None => (t, sp::RespKindView::Failure(sp::ErrorKind::DevNotFound)),
        },
        sp::Cmd::Temperature => match spec_find(t, req.dev_name) {
            Some(i) => match t[i].1 {
                Device::Socket(_) => (t, sp::RespKindView::Failure(sp::ErrorKind::WrongCmd)),
                Device::Therm(th) => (
                    t,
                    sp::RespKindView::Success(
                        sp::SuccessView::Temp(
                            spec_reading(th.is_turn_on, AVG_TEMP_MILLI, noise_mw),
                        ),
                    ),
                ),
            },
            None => (t, sp::RespKindView::Failure(sp::ErrorKind::DevNotFound)),
        },
    }
}

/// The name-and-kind views of the configuration entries.
pub open spec fn entries_view(s: Seq<(String, String)>) -> Seq<(Seq<char>, Seq<char>)> {
    s.map_values(|p: (String, String)| (p.0@, p.1@))
}

/// The table the configuration entries build, inserted left to right, or
/// the error of the leftmost malformed entry: an unknown device kind, or a
/// name too long for the wire's length field.
pub open spec fn spec_build(entries: Seq<(Seq<char>, Seq<char>)>) -> Result<
    Seq<(Seq<char>, Device)>,
    ErrorKind,
>
    decreases entries.len(),
{
    if entries.len() == 0 {
        Ok(Seq::empty())
    } else {
        match spec_build(entries.drop_last()) {
            Err(e) => Err(e),
            Ok(t) => {
                let nm = entries.last().0;
                let kd = entries.last().1;
                if spec_dev_kind(kd) is None {
                    Err(ErrorKind::WrongDevType)
                } else if encode_utf8(nm).len() > u16::MAX {
                    Err(ErrorKind::SerializationError)
                } else {
                    Ok(spec_insert(t, nm, spec_dev_kind(kd)->Some_0))
                }
            },
        }
    }
}

/// A build that has already failed on a prefix fails the same way whole.
proof fn lemma_build_extends_err(entries: Seq<(Seq<char>, Seq<char>)>, i: int)
    requires
        0 <= i <= entries.len(),
        spec_build(entries.take(i)) is Err,
    ensures
        spec_build(entries) == spec_build(entries.take(i)),
    decreases entries.len() - i,
{
    if i == entries.len() {
        assert(entries.take(i) =~= entries);
    } else {
        assert(entries.take(i + 1).drop_last() =~= entries.take(i));
        lemma_build_extends_err(entries, i + 1);
    }
}

/// The device table of one server, keyed by device name.
pub struct DeviceServer {
    pub devices: Vec<(String, Device)>,
}

impl DeviceServer {
    /// The table's mathematical shape.
    pub open spec fn table(&self) -> Seq<(Seq<char>, Device)> {
        table_view(self.devices@)
    }

    /// The table's invariant: few enough entries for the wire's count
    /// field, no two entries under one name, and every name short enough
    /// for the wire's length field.
    pub open spec fn wf(&self) -> bool {
        &&& self.table().len() <= u16::MAX
        &&& forall|i: int, j: int|
            0 <= i < j < self.table().len() ==> #[trigger] self.table()[i].0
                != #[trigger] self.table()[j].0
        &&& forall|i: int|
            0 <= i < self.table().len() ==> encode_utf8(#[trigger] self.table()[i].0).len()
                <= u16::MAX
    }

    /// The index of the entry bearing a name, if any.
    fn find(&self, name: &str) -> (r: Option<usize>)
        ensures
            match r {
                Some(i) => spec_find(self.table(), name@) == Some(i as int),
                None => spec_find(self.table(), name@) is None,
            },
    {
        let n = self.devices.len();
        let mut i: usize = 0;
        while i < n
            invariant
                n == self.devices@.len(),
                i <= n,
                forall|j: int| 0 <= j < i ==> self.table()[j].0 != name@,
            decreases n - i,
        {
            if wire::str_eq(self.devices[i].0.as_str(), name) {
                proof {
                    assert(self.table()[i as int].0 == self.devices@[i as int].0@);
                    lemma_spec_find_first(self.table(), name@);
                    if let Some(fi) = spec_find(self.table(), name@) {
                        if fi < i as int {
                            assert(self.table()[fi].0 != name@);
                        }
                        assert(fi == i as int);
                    }
                }
                return Some(i);
            }
            i += 1;
        }
        proof {
            lemma_spec_find_first(self.table(), name@);
        }
        None
    }

    /// Builds a server from configuration entries of name and kind, taken
    /// left to right, a later entry under an old name replacing the earlier
    /// one. A malformed entry — an unknown kind, a name too long for the
    /// wire, or more entries than the wire's count field holds — is a fatal
    /// configuration error.
    pub fn new(entries: &Vec<(String, String)>) -> (r: Result<DeviceServer, ServerErr>)
        ensures
            match r {
                Ok(srv) => {
                    &&& entries@.len() <= u16::MAX
                    &&& spec_build(entries_view(entries@)) == Ok::<_, ErrorKind>(srv.table())
                    &&& srv.wf()
                },
                Err(e) => if entries@.len() > u16::MAX {
                    e.err_kind == ErrorKind::SerializationError
                } else {
                    spec_build(entries_view(entries@)) matches Err(k) && e.err_kind == k
                },
            },
    {
        if entries.len() > 65535 {
            return Err(ServerErr::new(ErrorKind::SerializationError));
        }
        let mut srv = DeviceServer { devices: Vec::new() };
        proof {
            assert(entries_view(entries@).take(0) =~= Seq::<(Seq<char>, Seq<char>)>::empty());
            assert(srv.table() =~= Seq::<(Seq<char>, Device)>::empty());
        }
        let n = entries.len();
        let mut i: usize = 0;
        while i < n
            invariant
                n == entries@.len() <= u16::MAX,
                i <= n,
                spec_build(entries_view(entries@).take(i as int)) == Ok::<_, ErrorKind>(
                    srv.table(),
                ),
                srv.table().len() <= i,
                srv.wf(),
            decreases n - i,
        {
            let ghost prefix = entries_view(entries@).take(i as int);
            let ghost whole = entries_view(entries@);
            proof {
                assert(whole.take(i + 1).drop_last() =~= prefix);
                assert(whole.take(i + 1).last() == whole[i as int]);
            }
            let dev = match generate_device_emulator(entries[i].1.as_str()) {
                Ok(d) => d,
                Err(e) => {
                    proof {
                        lemma_build_extends_err(whole, i + 1);
                    }
                    return Err(e);
                },
            };
            let name_bytes = entries[i].0.as_str().as_bytes_vec();
            if name_bytes.len() > 65535 {
                proof {
                    lemma_build_extends_err(whole, i + 1);
                }
                return Err(ServerErr::new(ErrorKind::SerializationError));
            }
            let name = entries[i].0.clone();
            let ghost nview = name@;
            let ghost pre_table = srv.table();
            proof {
                assert(whole[i as int] == (entries@[i as int].0@, entries@[i as int].1@));
                assert(nview == whole[i as int].0);
                assert(encode_utf8(nview).len() <= u16::MAX);
            }
            match srv.find(name.as_str()) {
                Some(j) => {
                    proof {
                        lemma_spec_find_first(pre_table, nview);
                    }
                    srv.devices.set(j, (name, dev));
                    proof {
                        assert(srv.table() =~= spec_insert(pre_table, nview, dev));
                        assert(forall|k: int|
                            0 <= k < srv.table().len() ==> #[trigger] srv.table()[k].0
                                == pre_table[k].0);
                    }
                },
                None => {
                    proof {
                        lemma_spec_find_first(pre_table, nview);
                    }
                    srv.devices.push((name, dev));
                    proof {
                        assert(srv.table() =~= spec_insert(pre_table, nview, dev));
                        assert(forall|k: int|
                            0 <= k < pre_table.len() ==> #[trigger] srv.table()[k].0
                                == pre_table[k].0);
                        assert(srv.table()[pre_table.len() as int].0 == nview);
                    }
                },
            }
            i += 1;
            proof {
                assert(whole.take(i as int).drop_last() =~= prefix);
            }
        }
        proof {
            assert(entries_view(entries@).take(n as int) =~= entries_view(entries@));
        }
        Ok(srv)
    }

    /// The device list the server answers: one protocol entry per table
    /// entry, in table order.
    fn list_devices(&self) -> (r: Vec<sp::Device>)
        ensures
            sp::devs_view(r@) == spec_dev_list(self.table()),
    {
        let mut list: Vec<sp::Device> = Vec::new();
        let n = self.devices.len();
        let mut i: usize = 0;
        while i < n
            invariant
                n == self.devices@.len(),
                i <= n,
                sp::devs_view(list@) == spec_dev_list(self.table().take(i as int)),
            decreases n - i,
        {
            let name = self.devices[i].0.clone();
            let type_dev = self.devices[i].1.get_type_device();
            let ghost nview = name@;
            proof {
                assert(self.table().len() == self.devices@.len());
                assert(sp::devs_view(list@).len() == list@.len());
                assert(spec_dev_list(self.table().take(i as int)).len() == i);
            }
            list.push(sp::Device { name, type_dev });
            proof {
                let t = self.table();
                assert(t[i as int] == (self.devices@[i as int].0@, self.devices@[i as int].1));
                assert(forall|k: int|
                    0 <= k < i ==> #[trigger] spec_dev_list(t.take(i + 1))[k] == spec_dev_list(
                        t.take(i as int),
                    )[k]);
                assert(spec_dev_list(t.take(i + 1))[i as int] == sp::DevView {
                    name: t[i as int].0,
                    type_dev: t[i as int].1.spec_type(),
                });
                assert(list@.len() == i + 1);
                assert(list@[i as int] == list@.last());
                assert(list@.last()@.name == nview);
                assert(sp::devs_view(list@)[i as int] == list@[i as int]@);
                assert(sp::devs_view(list@) =~= spec_dev_list(t.take(i + 1)));
            }
            i += 1;
        }
        proof {
            assert(self.table().take(n as int) =~= self.table());
        }
        list
    }

    /// Serves one decoded request: answers it as `spec_serve` says, turning
    /// devices on or off in place and reading them out with the sampled
    /// noise.
    pub fn serve(&mut self, req: sp::Request, noise_mw: i64) -> (r: sp::Response)
        requires
            old(self).wf(),
            reading_fits(AVG_POWER_MW, noise_mw),
            reading_fits(AVG_TEMP_MILLI, noise_mw),
        ensures
            final(self).wf(),
            ({
                let (new_table, kind) = spec_serve(old(self).table(), req@, noise_mw);
                &&& final(self).table() == new_table
                &&& r@.to_req == req@
                &&& r@.resp_kind == kind
            }),
    {
        let ghost pre_table = self.table();
        match req.cmd {
            sp::Cmd::GetListDevices => {
                let list = self.list_devices();
                sp::Response::new_success_response(req, sp::SuccessKind::ListDev(list))
            },
            sp::Cmd::TurnOn => match self.find(req.dev_name.as_str()) {
                Some(i) => {
                    proof {
                        lemma_spec_find_first(pre_table, req.dev_name@);
                    }
                    let name = self.devices[i].0.clone();
                    let ghost nview = name@;
                    let mut d = self.devices[i].1;
                    d.turn_on();
                    self.devices.set(i, (name, d));
                    proof {
                        assert(nview == pre_table[i as int].0);
                        assert(self.table() =~= pre_table.update(
                            spec_find(pre_table, req.dev_name@)->Some_0,
                            (
                                pre_table[spec_find(pre_table, req.dev_name@)->Some_0].0,
                                pre_table[spec_find(
                                    pre_table,
                                    req.dev_name@,
                                )->Some_0].1.spec_with_on(true),
                            ),
                        ));
                        assert forall|a: int, b: int|
                            0 <= a < b < self.table().len() implies #[trigger] self.table()[a].0
                            != #[trigger] self.table()[b].0 by {
                            assert(pre_table[a].0 != pre_table[b].0);
                        }
                    }
                    sp::Response::new_success_response(req, sp::SuccessKind::Ack)
                },
                None => sp::Response::new_err_response(req, sp::ErrorKind::DevNotFound),
            },
            sp::Cmd::TurnOff => match self.find(req.dev_name.as_str()) {
                Some(i) => {
                    proof {
                        lemma_spec_find_first(pre_table, req.dev_name@);
                    }
                    let name = self.devices[i].0.clone();
                    let ghost nview = name@;
                    let mut d = self.devices[i].1;
                    d.turn_off();
                    self.devices.set(i, (name, d));
                    proof {
                        assert(nview == pre_table[i as int].0);
                        assert(self.table() =~= pre_table.update(
                            spec_find(pre_table, req.dev_name@)->Some_0,
                            (
                                pre_table[spec_find(pre_table, req.dev_name@)->Some_0].0,
                                pre_table[spec_find(
                                    pre_table,
                                    req.dev_name@,
                                )->Some_0].1.spec_with_on(false),
                            ),
                        ));
                        assert forall|a: int, b: int|
                            0 <= a < b < self.table().len() implies #[trigger] self.table()[a].0
                            != #[trigger] self.table()[b].0 by {
                            assert(pre_table[a].0 != pre_table[b].0);
                        }
                    }
                    sp::Response::new_success_response(req, sp::SuccessKind::Ack)
                },
                None => sp::Response::new_err_response(req, sp::ErrorKind::DevNotFound),
            },
            sp::Cmd::Power => match self.find(req.dev_name.as_str()) {
                Some(i) => {
                    proof {
                        lemma_spec_find_first(pre_table, req.dev_name@);
                    }
                    match self.devices[i].1 {
                    Device::Socket(s) => {
                        let power = s.get_power(noise_mw);
                        sp::Response::new_success_response(req, sp::SuccessKind::Power(power))
                    },
                    Device::Therm(_) => sp::Response::new_err_response(
                        req,
                        sp::ErrorKind::WrongCmd,
                    ),
                }
                },
                None => sp::Response::new_err_response(req, sp::ErrorKind::DevNotFound),
            },
            sp::Cmd::Temperature => match self.find(req.dev_name.as_str()) {
                Some(i) => {
                    proof {
                        lemma_spec_find_first(pre_table, req.dev_name@);
                    }
                    match self.devices[i].1 {
                    Device::Socket(_) => sp::Response::new_err_response(
                        req,
                        sp::ErrorKind::WrongCmd,
                    ),
                    Device::Therm(th) => {
                        let temp = th.get_temperature(noise_mw);
                        sp::Response::new_success_response(req, sp::SuccessKind::Temp(temp))
                    },
                }
                },
                None => sp::Response::new_err_response(req, sp::ErrorKind::DevNotFound),
            },
        }
    }

    /// Handles one request payload, as the TCP server does with the payload
    /// of each frame read off the connection: decodes the request, serves
    /// it, and answers with the encoded response payload. An undecodable
    /// request is refused without touching the table.
    pub fn handle_request(&mut self, req: &[u8], noise_mw: i64) -> (r: Result<Vec<u8>, ServerErr>)
        requires
            old(self).wf(),
            reading_fits(AVG_POWER_MW, noise_mw),
            reading_fits(AVG_TEMP_MILLI, noise_mw),
        ensures
            final(self).wf(),
            match r {
                Ok(out) => {
                    &&& sp::spec_decode_request(req@) is Some
                    &&& {
                        let rq = sp::spec_decode_request(req@)->Some_0;
                        let (new_table, kind) = spec_serve(old(self).table(), rq, noise_mw);
                        &&& final(self).table() == new_table
                        &&& out@ == sp::spec_encode_response(
                            sp::SRespView { to_req: rq, resp_kind: kind },
                        )
                    }
                },
                Err(e) => {
                    &&& sp::spec_decode_request(req@) is None
                    &&& e.err_kind == ErrorKind::SerializationError
                    &&& final(self).table() == old(self).table()
                },
            },
    {
        let request = match sp::decode_request(req) {
            Ok(rq) => rq,
            Err(_) => {
                return Err(ServerErr::new(ErrorKind::SerializationError));
            },
        };
        proof {
            vstd::utf8::decode_utf8_encode_utf8(req@.skip(3));
        }
        let resp = self.serve(request, noise_mw);
        proof {
            let (_, kind) = spec_serve(old(self).table(), sp::spec_decode_request(req@)->Some_0, noise_mw);
            match kind {
                sp::RespKindView::Success(sp::SuccessView::ListDev(l)) => {
                    assert(l == spec_dev_list(old(self).table()));
                    assert(forall|i: int|
                        0 <= i < l.len() ==> #[trigger] l[i].name == old(self).table()[i].0);
                },
                _ => {},
            }
        }
        match sp::encode_response(&resp) {
            Ok(out) => Ok(out),
            Err(e) => {
                proof {
                    assert(false);
                }
                Err(ServerErr::new(ErrorKind::SerializationError))
            },
        }
    }

    /// Handles one received datagram, as the UDP server does: peels the
    /// frame, decodes and serves the request in it, and answers with the
    /// encoded response payload for the caller to frame and send back. A
    /// bad frame or an undecodable request is refused without touching the
    /// table.
    pub fn handle_datagram(&mut self, req: &[u8], noise_mw: i64) -> (r: Result<Vec<u8>, ServerErr>)
        requires
            old(self).wf(),
            reading_fits(AVG_POWER_MW, noise_mw),
            reading_fits(AVG_TEMP_MILLI, noise_mw),
        ensures
            final(self).wf(),
            match r {
                Ok(out) => {
                    &&& transport::frame_complete(req@)
                    &&& sp::spec_decode_request(transport::frame_payload(req@)) is Some
                    &&& {
                        let rq = sp::spec_decode_request(transport::frame_payload(req@))->Some_0;
                        let (new_table, kind) = spec_serve(old(self).table(), rq, noise_mw);
                        &&& final(self).table() == new_table
                        &&& out@ == sp::spec_encode_response(
                            sp::SRespView { to_req: rq, resp_kind: kind },
                        )
                    }
                },
                Err(e) => {
                    &&& final(self).table() == old(self).table()
                    &&& if !transport::frame_complete(req@) {
                        e.err_kind == (if transport::frame_decode_err(req@)
                            == crate::err_house::ErrorKind::UnknownTypePack {
                            ErrorKind::UnknownTypePack
                        } else {
                            ErrorKind::ParsingError
                        })
                    } else {
                        &&& sp::spec_decode_request(transport::frame_payload(req@)) is None
                        &&& e.err_kind == ErrorKind::SerializationError
                    }
                },
            },
    {
        let pack = match TranportPack::deserialize(req) {
            Ok(p) => p,
            Err(e) => {
                let kind = match e {
                    crate::err_house::ErrorKind::UnknownTypePack => ErrorKind::UnknownTypePack,
                    _ => ErrorKind::ParsingError,
                };
                return Err(ServerErr::new(kind));
            },
        };
        self.handle_request(pack.get_payload(), noise_mw)
    }
}

/// A device-directed request naming a device absent from the table is
/// refused as not found — for turning on, turning off and both readings —
/// and the table is left unchanged.
pub proof fn lemma_absent_device_not_found(
    t: Seq<(Seq<char>, Device)>,
    req: sp::SReqView,
    noise_mw: i64,
)
    requires
        spec_find(t, req.dev_name) is None,
        req.cmd != sp::Cmd::GetListDevices,
    ensures
        spec_serve(t, req, noise_mw) == (t, sp::RespKindView::Failure(sp::ErrorKind::DevNotFound)),
{
}

/// Listing the devices always succeeds, whatever name the request carries,
/// and answers the whole table in order without changing it.
pub proof fn lemma_list_devices_total(t: Seq<(Seq<char>, Device)>, req: sp::SReqView, noise_mw: i64)
    requires
        req.cmd == sp::Cmd::GetListDevices,
    ensures
        spec_serve(t, req, noise_mw) == (
            t,
            sp::RespKindView::Success(sp::SuccessView::ListDev(spec_dev_list(t))),
        ),
{
}

/// An empty device table answers the listing request with the empty device
/// list, not with an error.
pub proof fn lemma_empty_table_lists_empty(req: sp::SReqView, noise_mw: i64)
    requires
        req.cmd == sp::Cmd::GetListDevices,
    ensures
        spec_serve(Seq::empty(), req, noise_mw) == (
            Seq::<(Seq<char>, Device)>::empty(),
            sp::RespKindView::Success(sp::SuccessView::ListDev(Seq::<sp::DevView>::empty())),
        ),
{
    assert(spec_dev_list(Seq::empty()) =~= Seq::<sp::DevView>::empty());
}

} // verus!
