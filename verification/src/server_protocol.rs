//! The command protocol of the central servers: requests named after a
//! device, responses echoing the request, including a device-list reply, and
//! their lossless binary payload codec.

use crate::err_house;
use crate::wire;
use vstd::prelude::*;
use vstd::string::StringSliceAdditionalSpecFns;
use vstd::utf8::{decode_utf8, encode_utf8, valid_utf8};

verus! {

broadcast use vstd::seq_lib::group_seq_lib_default, vstd::seq::group_seq_axioms;

/// What a request asks the server to do.
#[derive(Clone, Copy, Debug, PartialEq, Eq, Structural)]
pub enum Cmd {
    GetListDevices,
    TurnOn,
    TurnOff,
    Power,
    Temperature,
}

impl Cmd {
    /// The wire byte of each command.
    pub open spec fn spec_to_byte(self) -> u8 {
        match self {
            Cmd::GetListDevices => 1,
            Cmd::TurnOn => 2,
            Cmd::TurnOff => 3,
            Cmd::Power => 4,
            Cmd::Temperature => 5,
        }
    }

    /// The command a wire byte names, if any.
    pub open spec fn spec_from_byte(b: u8) -> Option<Cmd> {
        if b == 1 {
            Some(Cmd::GetListDevices)
        } else if b == 2 {
            Some(Cmd::TurnOn)
        } else if b == 3 {
            Some(Cmd::TurnOff)
        } else if b == 4 {
            Some(Cmd::Power)
        } else if b == 5 {
            Some(Cmd::Temperature)
        } else {
            None
        }
    }

    /// Writes the command as its wire byte.
    pub fn to_byte(self) -> (r: u8)
        ensures
            r == self.spec_to_byte(),
            Cmd::spec_from_byte(r) == Some(self),
    {
        match self {
            Cmd::GetListDevices => 1,
            Cmd::TurnOn => 2,
            Cmd::TurnOff => 3,
            Cmd::Power => 4,
            Cmd::Temperature => 5,
        }
    }

    /// Reads a command back from its wire byte.
    pub fn from_byte(b: u8) -> (r: Option<Cmd>)
        ensures
            r == Cmd::spec_from_byte(b),
    {
        if b == 1 {
            Some(Cmd::GetListDevices)
        } else if b == 2 {
            Some(Cmd::TurnOn)
        } else if b == 3 {
            Some(Cmd::TurnOff)
        } else if b == 4 {
            Some(Cmd::Power)
        } else if b == 5 {
            Some(Cmd::Temperature)
        } else {
            None
        }
    }
}

/// The kind of a served device.
#[derive(Clone, Copy, Debug, PartialEq, Eq, Structural)]
pub enum TypeDev {
    SmartSocket,
    SmartTherm,
}

impl TypeDev {
    /// The wire byte of each device kind.
    pub open spec fn spec_to_byte(self) -> u8 {
        match self {
            TypeDev::SmartSocket => 1,
            TypeDev::SmartTherm => 2,
        }
    }

    /// The device kind a wire byte names, if any.
    pub open spec fn spec_from_byte(b: u8) -> Option<TypeDev> {
        if b == 1 {
            Some(TypeDev::SmartSocket)
        } else if b == 2 {
            Some(TypeDev::SmartTherm)
        } else {
            None
        }
    }

    /// Writes the device kind as its wire byte.
    pub fn to_byte(self) -> (r: u8)
        ensures
            r == self.spec_to_byte(),
            TypeDev::spec_from_byte(r) == Some(self),
    {
        match self {
            TypeDev::SmartSocket => 1,
            TypeDev::SmartTherm => 2,
        }
    }

    /// Reads a device kind back from its wire byte.
    pub fn from_byte(b: u8) -> (r: Option<TypeDev>)
        ensures
            r == TypeDev::spec_from_byte(b),
    {
        if b == 1 {
            Some(TypeDev::SmartSocket)
        } else if b == 2 {
            Some(TypeDev::SmartTherm)
        } else {
            None
        }
    }
}

/// One entry of a device-list reply: a device's name and kind.
#[derive(Debug, Clone)]
pub struct Device {
    pub name: String,
    pub type_dev: TypeDev,
}

/// The mathematical shape of a device entry.
pub struct DevView {
    pub name: Seq<char>,
    pub type_dev: TypeDev,
}

impl View for Device {
    type V = DevView;

    open spec fn view(&self) -> DevView {
        DevView { name: self.name@, type_dev: self.type_dev }
    }
}

impl Device {
    /// A device entry with the given name and kind.
    pub fn new(name: String, type_dev: TypeDev) -> (r: Device)
        ensures
            r@.name == name@,
            r@.type_dev == type_dev,
    {
        Device { name, type_dev }
    }
}

/// The device views of a list of device entries.
pub open spec fn devs_view(l: Seq<Device>) -> Seq<DevView> {
    l.map_values(|d: Device| d@)
}

/// One command aimed at a served device by name.
#[derive(Debug, Clone)]
pub struct Request {
    pub cmd: Cmd,
    pub dev_name: String,
}

/// The mathematical shape of a server request.
pub struct SReqView {
    pub cmd: Cmd,
    pub dev_name: Seq<char>,
}

impl View for Request {
    type V = SReqView;

    open spec fn view(&self) -> SReqView {
        SReqView { cmd: self.cmd, dev_name: self.dev_name@ }
    }
}

impl Request {
    /// A request carrying the given command and device name.
    pub fn new(cmd: Cmd, dev_name: String) -> (r: Request)
        ensures
            r@.cmd == cmd,
            r@.dev_name == dev_name@,
    {
        Request { cmd, dev_name }
    }
}

/// The payload a successful server reply carries.
#[derive(Debug, Clone)]
pub enum SuccessKind {
    /// The command was applied; nothing to report.
    Ack,
    /// Every served device, in the server's table order.
    ListDev(Vec<Device>),
    /// A power reading, in milliwatts.
    Power(i64),
    /// A temperature reading, in millidegrees.
    Temp(i64),
}

/// The mathematical shape of a success payload.
pub enum SuccessView {
    Ack,
    ListDev(Seq<DevView>),
    Power(i64),
    Temp(i64),
}

impl View for SuccessKind {
    type V = SuccessView;

    open spec fn view(&self) -> SuccessView {
        match self {
            SuccessKind::Ack => SuccessView::Ack,
            SuccessKind::ListDev(l) => SuccessView::ListDev(devs_view(l@)),
            SuccessKind::Power(x) => SuccessView::Power(*x),
            SuccessKind::Temp(x) => SuccessView::Temp(*x),
        }
    }
}

/// Why the server refused a request.
#[derive(Clone, Copy, Debug, PartialEq, Eq, Structural)]
pub enum ErrorKind {
    WrongCmd,
    DevNotFound,
    UnknownCmd,
}

impl ErrorKind {
    /// The wire byte of each refusal.
    pub open spec fn spec_to_byte(self) -> u8 {
        match self {
            ErrorKind::WrongCmd => 1,
            ErrorKind::DevNotFound => 2,
            ErrorKind::UnknownCmd => 3,
        }
    }

    /// The refusal a wire byte names, if any.
    pub open spec fn spec_from_byte(b: u8) -> Option<ErrorKind> {
        if b == 1 {
            Some(ErrorKind::WrongCmd)
        } else if b == 2 {
            Some(ErrorKind::DevNotFound)
        } else if b == 3 {
            Some(ErrorKind::UnknownCmd)
        } else {
            None
        }
    }

    /// Writes the refusal as its wire byte.
    pub fn to_byte(self) -> (r: u8)
        ensures
            r == self.spec_to_byte(),
            ErrorKind::spec_from_byte(r) == Some(self),
    {
        match self {
            ErrorKind::WrongCmd => 1,
            ErrorKind::DevNotFound => 2,
            ErrorKind::UnknownCmd => 3,
        }
    }

    /// Reads a refusal back from its wire byte.
    pub fn from_byte(b: u8) -> (r: Option<ErrorKind>)
        ensures
            r == ErrorKind::spec_from_byte(b),
    {
        if b == 1 {
            Some(ErrorKind::WrongCmd)
        } else if b == 2 {
            Some(ErrorKind::DevNotFound)
        } else if b == 3 {
            Some(ErrorKind::UnknownCmd)
        } else {
            None
        }
    }
}

/// Either a success payload or a structured refusal.
#[derive(Debug, Clone)]
pub enum ResponseKind {
    Success(SuccessKind),
    Failure(ErrorKind),
}

/// The mathematical shape of a reply outcome.
pub enum RespKindView {
    Success(SuccessView),
    Failure(ErrorKind),
}

impl View for ResponseKind {
    type V = RespKindView;

    open spec fn view(&self) -> RespKindView {
        match self {
            ResponseKind::Success(s) => RespKindView::Success(s@),
            ResponseKind::Failure(e) => RespKindView::Failure(*e),
        }
    }
}

/// A server reply: the request it answers, echoed back, and its outcome.
#[derive(Debug, Clone)]
pub struct Response {
    pub to_req: Request,
    pub resp_kind: ResponseKind,
}

/// The mathematical shape of a server reply.
pub struct SRespView {
    pub to_req: SReqView,
    pub resp_kind: RespKindView,
}

impl View for Response {
    type V = SRespView;

    open spec fn view(&self) -> SRespView {
        SRespView { to_req: self.to_req@, resp_kind: self.resp_kind@ }
    }
}

impl Response {
    /// Answers a request with a success payload.
    pub fn new_success_response(to_req: Request, success_kind: SuccessKind) -> (r: Response)
        ensures
            r@.to_req == to_req@,
            r@.resp_kind == RespKindView::Success(success_kind@),
    {
        Response { to_req, resp_kind: ResponseKind::Success(success_kind) }
    }

    /// Refuses a request.
    pub fn new_err_response(to_req: Request, err_kind: ErrorKind) -> (r: Response)
        ensures
            r@.to_req == to_req@,
            r@.resp_kind == RespKindView::Failure(err_kind),
    {
        Response { to_req, resp_kind: ResponseKind::Failure(err_kind) }
    }
}

/// Whether a request fits the wire: its device name, as UTF-8, must fit the
/// two-byte length field.
pub open spec fn spec_request_encodable(r: SReqView) -> bool {
    encode_utf8(r.dev_name).len() <= u16::MAX
}

/// The payload bytes of a server request: the command byte, the name byte
/// length as two little-endian bytes, then the name in UTF-8.
pub open spec fn spec_encode_request(r: SReqView) -> Seq<u8>
    recommends
        spec_request_encodable(r),
{
    seq![r.cmd.spec_to_byte()] + vstd::bytes::spec_u16_to_le_bytes(
        encode_utf8(r.dev_name).len() as u16,
    ) + encode_utf8(r.dev_name)
}

/// The server request a payload spells, if it is well formed.
pub open spec fn spec_decode_request(b: Seq<u8>) -> Option<SReqView> {
    if b.len() < 3 {
        None
    } else if Cmd::spec_from_byte(b[0]) is None {
        None
    } else if b.len() != 3 + vstd::bytes::spec_u16_from_le_bytes(b.subrange(1, 3)) as int {
        None
    } else if !valid_utf8(b.skip(3)) {
        None
    } else {
        Some(SReqView { cmd: Cmd::spec_from_byte(b[0])->Some_0, dev_name: decode_utf8(b.skip(3)) })
    }
}

/// Writes a server request as payload bytes; refuses a name too long for
/// the two-byte length field.
pub fn encode_request(req: &Request) -> (r: Result<Vec<u8>, err_house::ErrorKind>)
    ensures
        match r {
            Ok(v) => spec_request_encodable(req@) && v@ == spec_encode_request(req@),
            Err(e) => !spec_request_encodable(req@) && e == err_house::ErrorKind::SerializationError,
        },
{
    let name_bytes = req.dev_name.as_str().as_bytes_vec();
    if name_bytes.len() > 65535 {
        return Err(err_house::ErrorKind::SerializationError);
    }
    let mut out: Vec<u8> = Vec::new();
    out.push(req.cmd.to_byte());
    let len_bytes = vstd::bytes::u16_to_le_bytes(name_bytes.len() as u16);
    wire::push_all(&mut out, len_bytes.as_slice());
    wire::push_all(&mut out, name_bytes.as_slice());
    proof {
        assert(out@ =~= spec_encode_request(req@));
    }
    Ok(out)
}

/// Reads a server request back from payload bytes.
pub fn decode_request(b: &[u8]) -> (r: Result<Request, err_house::ErrorKind>)
    ensures
        match r {
            Ok(req) => spec_decode_request(b@) == Some(req@),
            Err(e) => spec_decode_request(b@) is None && e
                == err_house::ErrorKind::DeserializationError,
        },
{
    if b.len() < 3 {
        return Err(err_house::ErrorKind::DeserializationError);
    }
    let cmd = match Cmd::from_byte(b[0]) {
        Some(c) => c,
        None => {
            return Err(err_house::ErrorKind::DeserializationError);
        },
    };
    let n = vstd::bytes::u16_from_le_bytes(vstd::slice::slice_subrange(b, 1, 3)) as usize;
    if b.len() != 3 + n {
        return Err(err_house::ErrorKind::DeserializationError);
    }
    let tail = vstd::slice::slice_to_vec(vstd::slice::slice_subrange(b, 3, b.len()));
    proof {
        assert(tail@ =~= b@.skip(3));
    }
    match wire::string_from_utf8(tail) {
        Some(dev_name) => Ok(Request { cmd, dev_name }),
        None => Err(err_house::ErrorKind::DeserializationError),
    }
}

/// Whether a device entry fits the wire.
pub open spec fn spec_device_encodable(d: DevView) -> bool {
    encode_utf8(d.name).len() <= u16::MAX
}

/// The bytes of one device entry: the kind byte, the name byte length as
/// two little-endian bytes, then the name in UTF-8.
pub open spec fn spec_encode_device(d: DevView) -> Seq<u8>
    recommends
        spec_device_encodable(d),
{
    seq![d.type_dev.spec_to_byte()] + vstd::bytes::spec_u16_to_le_bytes(
        encode_utf8(d.name).len() as u16,
    ) + encode_utf8(d.name)
}

/// The bytes of a device list: each entry in order.
pub open spec fn spec_encode_devices(l: Seq<DevView>) -> Seq<u8>
    decreases l.len(),
{
    if l.len() == 0 {
        Seq::empty()
    } else {
        spec_encode_device(l[0]) + spec_encode_devices(l.drop_first())
    }
}

/// Whether every entry of a device list fits the wire, and the list itself
/// fits the two-byte count field.
pub open spec fn spec_devices_encodable(l: Seq<DevView>) -> bool {
    l.len() <= u16::MAX && forall|i: int| 0 <= i < l.len() ==> spec_device_encodable(#[trigger] l[i])
}

/// Parses `count` device entries from the head of a buffer, yielding the
/// entries and the remainder of the buffer.
pub open spec fn spec_decode_devices(b: Seq<u8>, count: int) -> Option<(Seq<DevView>, Seq<u8>)>
    decreases count,
{
    if count <= 0 {
        Some((Seq::empty(), b))
    } else if b.len() < 3 {
        None
    } else if TypeDev::spec_from_byte(b[0]) is None {
        None
    } else {
        let n = vstd::bytes::spec_u16_from_le_bytes(b.subrange(1, 3)) as int;
        if b.len() < 3 + n {
            None
        } else if !valid_utf8(b.subrange(3, 3 + n)) {
            None
        } else {
            let d = DevView {
                name: decode_utf8(b.subrange(3, 3 + n)),
                type_dev: TypeDev::spec_from_byte(b[0])->Some_0,
            };
            match spec_decode_devices(b.skip(3 + n), count - 1) {
                Some((l, rest)) => Some((seq![d] + l, rest)),
                None => None,
            }
        }
    }
}

/// Encoding a concatenation of device lists concatenates their encodings.
pub proof fn lemma_encode_devices_concat(l1: Seq<DevView>, l2: Seq<DevView>)
    ensures
        spec_encode_devices(l1 + l2) == spec_encode_devices(l1) + spec_encode_devices(l2),
    decreases l1.len(),
{
    if l1.len() == 0 {
        assert(l1 + l2 =~= l2);
        assert(spec_encode_devices(l1) + spec_encode_devices(l2) =~= spec_encode_devices(l2));
    } else {
        assert((l1 + l2).drop_first() =~= l1.drop_first() + l2);
        lemma_encode_devices_concat(l1.drop_first(), l2);
        assert(spec_encode_devices(l1 + l2) =~= spec_encode_devices(l1) + spec_encode_devices(l2));
    }
}

/// Device-list round trip: parsing back as many entries as were encoded
/// yields the same entries and leaves exactly the trailing bytes.
pub proof fn lemma_devices_round_trip(l: Seq<DevView>, rest: Seq<u8>)
    requires
        forall|i: int| 0 <= i < l.len() ==> spec_device_encodable(#[trigger] l[i]),
    ensures
        spec_decode_devices(spec_encode_devices(l) + rest, l.len() as int) == Some((l, rest)),
    decreases l.len(),
{
    vstd::bytes::lemma_auto_spec_u16_to_from_le_bytes();
    if l.len() == 0 {
        assert(spec_encode_devices(l) + rest =~= rest);
        assert(spec_decode_devices(rest, 0) == Some((Seq::<DevView>::empty(), rest)));
        assert(l =~= Seq::<DevView>::empty());
    } else {
        let d = l[0];
        let nb = encode_utf8(d.name);
        let n = nb.len() as int;
        vstd::utf8::encode_utf8_valid_utf8(d.name);
        vstd::utf8::encode_utf8_decode_utf8(d.name);
        let b = spec_encode_devices(l) + rest;
        assert(spec_encode_devices(l) == spec_encode_device(d) + spec_encode_devices(
            l.drop_first(),
        ));
        let tail = spec_encode_devices(l.drop_first()) + rest;
        assert(b =~= spec_encode_device(d) + tail);
        assert(b[0] == d.type_dev.spec_to_byte());
        assert(TypeDev::spec_from_byte(b[0]) == Some(d.type_dev));
        assert(b.subrange(1, 3) =~= vstd::bytes::spec_u16_to_le_bytes(nb.len() as u16));
        assert(b.len() >= 3 + n);
        assert(b.subrange(3, 3 + n) =~= nb);
        assert(b.skip(3 + n) =~= tail);
        lemma_devices_round_trip(l.drop_first(), rest);
        assert(seq![d] + l.drop_first() =~= l);
    }
}

/// Reads `count` device entries from the head of a buffer.
fn decode_devices_from(b: &[u8], count: u16) -> (r: Result<
    (Vec<Device>, Vec<u8>),
    err_house::ErrorKind,
>)
    ensures
        match r {
            Ok((devs, rest)) => spec_decode_devices(b@, count as int) == Some(
                (devs_view(devs@), rest@),
            ),
            Err(e) => spec_decode_devices(b@, count as int) is None && e
                == err_house::ErrorKind::DeserializationError,
        },
    decreases count,
{
    if count == 0 {
        proof {
            assert(devs_view(Seq::empty()) =~= Seq::<DevView>::empty());
        }
        return Ok((Vec::new(), vstd::slice::slice_to_vec(b)));
    }
    if b.len() < 3 {
        return Err(err_house::ErrorKind::DeserializationError);
    }
    let type_dev = match TypeDev::from_byte(b[0]) {
        Some(t) => t,
        None => {
            return Err(err_house::ErrorKind::DeserializationError);
        },
    };
    let n = vstd::bytes::u16_from_le_bytes(vstd::slice::slice_subrange(b, 1, 3)) as usize;
    if b.len() < 3 + n {
        return Err(err_house::ErrorKind::DeserializationError);
    }
    let name_bytes = vstd::slice::slice_to_vec(vstd::slice::slice_subrange(b, 3, 3 + n));
    let name = match wire::string_from_utf8(name_bytes) {
        Some(s) => s,
        None => {
            return Err(err_house::ErrorKind::DeserializationError);
        },
    };
    let tail = vstd::slice::slice_subrange(b, 3 + n, b.len());
    proof {
        assert(tail@ =~= b@.skip(3 + n as int));
    }
    match decode_devices_from(tail, count - 1) {
        Ok((rest_devs, rest)) => {
            let mut devs: Vec<Device> = Vec::new();
            devs.push(Device { name, type_dev });
            let mut rest_devs = rest_devs;
            let ghost rest_view = devs_view(rest_devs@);
            devs.append(&mut rest_devs);
            proof {
                assert(devs_view(devs@) =~= seq![
                    DevView {
                        name: decode_utf8(b@.subrange(3, 3 + n as int)),
                        type_dev: TypeDev::spec_from_byte(b@[0])->Some_0,
                    },
                ] + rest_view);
            }
            Ok((devs, rest))
        },
        Err(e) => Err(e),
    }
}

/// Writes a device list out as entry bytes.
fn encode_devices(l: &Vec<Device>) -> (r: Result<Vec<u8>, err_house::ErrorKind>)
    ensures
        match r {
            Ok(v) => spec_devices_encodable(devs_view(l@)) && v@ == spec_encode_devices(
                devs_view(l@),
            ),
            Err(e) => !spec_devices_encodable(devs_view(l@)) && e
                == err_house::ErrorKind::SerializationError,
        },
{
    if l.len() > 65535 {
        return Err(err_house::ErrorKind::SerializationError);
    }
    let mut out: Vec<u8> = Vec::new();
    let mut i: usize = 0;
    let n = l.len();
    while i < n
        invariant
            n == l@.len() <= 65535,
            i <= n,
            out@ == spec_encode_devices(devs_view(l@.take(i as int))),
            forall|j: int| 0 <= j < i ==> spec_device_encodable(#[trigger] devs_view(l@)[j]),
        decreases n - i,
    {
        let name_bytes = l[i].name.as_str().as_bytes_vec();
        proof {
            assert(devs_view(l@)[i as int] == l@[i as int]@);
        }
        if name_bytes.len() > 65535 {
            proof {
                assert(!spec_device_encodable(devs_view(l@)[i as int]));
            }
            return Err(err_house::ErrorKind::SerializationError);
        }
        out.push(l[i].type_dev.to_byte());
        let len_bytes = vstd::bytes::u16_to_le_bytes(name_bytes.len() as u16);
        wire::push_all(&mut out, len_bytes.as_slice());
        wire::push_all(&mut out, name_bytes.as_slice());
        proof {
            let prefix = devs_view(l@.take(i as int));
            let one = seq![l@[i as int]@];
            lemma_encode_devices_concat(prefix, one);
            assert(one.drop_first() =~= Seq::<DevView>::empty());
            assert(spec_encode_devices(Seq::<DevView>::empty()) == Seq::<u8>::empty());
            assert(spec_encode_devices(one) == spec_encode_device(one[0]) + spec_encode_devices(
                one.drop_first(),
            ));
            assert(spec_encode_devices(one) =~= spec_encode_device(l@[i as int]@));
            assert(devs_view(l@.take(i + 1)) =~= prefix + one);
            assert(out@ =~= spec_encode_devices(prefix) + spec_encode_device(l@[i as int]@));
        }
        i += 1;
    }
    proof {
        assert(l@.take(n as int) =~= l@);
        assert(forall|j: int| 0 <= j < n ==> devs_view(l@)[j] == #[trigger] l@[j]@);
    }
    Ok(out)
}

/// The wire tag of each server outcome.
pub open spec fn spec_kind_tag(k: RespKindView) -> u8 {
    match k {
        RespKindView::Success(SuccessView::Ack) => 0,
        RespKindView::Success(SuccessView::Power(_)) => 1,
        RespKindView::Success(SuccessView::Temp(_)) => 2,
        RespKindView::Failure(_) => 3,
        RespKindView::Success(SuccessView::ListDev(_)) => 4,
    }
}

/// The detail bytes of each server outcome.
pub open spec fn spec_kind_detail(k: RespKindView) -> Seq<u8> {
    match k {
        RespKindView::Success(SuccessView::Ack) => Seq::empty(),
        RespKindView::Success(SuccessView::Power(x)) => wire::spec_encode_reading(x),
        RespKindView::Success(SuccessView::Temp(x)) => wire::spec_encode_reading(x),
        RespKindView::Failure(e) => seq![e.spec_to_byte()],
        RespKindView::Success(SuccessView::ListDev(l)) => vstd::bytes::spec_u16_to_le_bytes(
            l.len() as u16,
        ) + spec_encode_devices(l),
    }
}

/// Whether a server reply fits the wire.
pub open spec fn spec_response_encodable(r: SRespView) -> bool {
    &&& spec_request_encodable(r.to_req)
    &&& match r.resp_kind {
        RespKindView::Success(SuccessView::ListDev(l)) => spec_devices_encodable(l),
        _ => true,
    }
}

/// The payload bytes of a server reply: the outcome tag, its detail bytes,
/// then the echoed request.
pub open spec fn spec_encode_response(r: SRespView) -> Seq<u8>
    recommends
        spec_response_encodable(r),
{
    seq![spec_kind_tag(r.resp_kind)] + spec_kind_detail(r.resp_kind) + spec_encode_request(r.to_req)
}

/// The server reply a payload spells, if it is well formed.
pub open spec fn spec_decode_response(b: Seq<u8>) -> Option<SRespView> {
    if b.len() < 1 {
        None
    } else if b[0] == 0 {
        match spec_decode_request(b.skip(1)) {
            Some(req) => Some(
                SRespView { to_req: req, resp_kind: RespKindView::Success(SuccessView::Ack) },
            ),
            None => None,
        }
    } else if b[0] == 1 || b[0] == 2 {
        if b.len() < 10 {
            None
        } else {
            match wire::spec_decode_reading(b.subrange(1, 10)) {
                Some(x) => match spec_decode_request(b.skip(10)) {
                    Some(req) => Some(
                        SRespView {
                            to_req: req,
                            resp_kind: RespKindView::Success(
                                if b[0] == 1 {
                                    SuccessView::Power(x)
                                } else {
                                    SuccessView::Temp(x)
                                },
                            ),
                        },
                    ),
                    None => None,
                },
                None => None,
            }
        }
    } else if b[0] == 3 {
        if b.len() < 2 {
            None
        } else {
            match ErrorKind::spec_from_byte(b[1]) {
                Some(e) => match spec_decode_request(b.skip(2)) {
                    Some(req) => Some(
                        SRespView { to_req: req, resp_kind: RespKindView::Failure(e) },
                    ),
                    None => None,
                },
                None => None,
            }
        }
    } else if b[0] == 4 {
        if b.len() < 3 {
            None
        } else {
            let count = vstd::bytes::spec_u16_from_le_bytes(b.subrange(1, 3)) as int;
            match spec_decode_devices(b.skip(3), count) {
                Some((l, rest)) => match spec_decode_request(rest) {
                    Some(req) => Some(
                        SRespView {
                            to_req: req,
                            resp_kind: RespKindView::Success(SuccessView::ListDev(l)),
                        },
                    ),
                    None => None,
                },
                None => None,
            }
        }
    } else {
        None
    }
}

/// Writes a server reply as payload bytes; refuses one that does not fit
/// the wire.
pub fn encode_response(resp: &Response) -> (r: Result<Vec<u8>, err_house::ErrorKind>)
    ensures
        match r {
            Ok(v) => spec_response_encodable(resp@) && v@ == spec_encode_response(resp@),
            Err(e) => !spec_response_encodable(resp@) && e
                == err_house::ErrorKind::SerializationError,
        },
{
    let req_bytes = match encode_request(&resp.to_req) {
        Ok(v) => v,
        Err(e) => {
            return Err(e);
        },
    };
    let mut out: Vec<u8> = Vec::new();
    match &resp.resp_kind {
        ResponseKind::Success(SuccessKind::Ack) => {
            out.push(0);
        },
        ResponseKind::Success(SuccessKind::Power(x)) => {
            out.push(1);
            let d = wire::encode_reading(*x);
            wire::push_all(&mut out, d.as_slice());
        },
        ResponseKind::Success(SuccessKind::Temp(x)) => {
            out.push(2);
            let d = wire::encode_reading(*x);
            wire::push_all(&mut out, d.as_slice());
        },
        ResponseKind::Failure(e) => {
            out.push(3);
            out.push(e.to_byte());
        },
        ResponseKind::Success(SuccessKind::ListDev(l)) => {
            let entries = match encode_devices(l) {
                Ok(v) => v,
                Err(e) => {
                    return Err(e);
                },
            };
            out.push(4);
            let count_bytes = vstd::bytes::u16_to_le_bytes(l.len() as u16);
            wire::push_all(&mut out, count_bytes.as_slice());
            wire::push_all(&mut out, entries.as_slice());
        },
    }
    wire::push_all(&mut out, req_bytes.as_slice());
    proof {
        assert(out@ =~= spec_encode_response(resp@));
    }
    Ok(out)
}

/// Reads a server reply back from payload bytes.
pub fn decode_response(b: &[u8]) -> (r: Result<Response, err_house::ErrorKind>)
    ensures
        match r {
            Ok(resp) => spec_decode_response(b@) == Some(resp@),
            Err(e) => spec_decode_response(b@) is None && e
                == err_house::ErrorKind::DeserializationError,
        },
{
    if b.len() < 1 {
        return Err(err_house::ErrorKind::DeserializationError);
    }
    let tag = b[0];
    if tag == 0 {
        let rest = vstd::slice::slice_subrange(b, 1, b.len());
        proof {
            assert(rest@ =~= b@.skip(1));
        }
        match decode_request(rest) {
            Ok(req) => Ok(
                Response { to_req: req, resp_kind: ResponseKind::Success(SuccessKind::Ack) },
            ),
            Err(e) => Err(e),
        }
    } else if tag == 1 || tag == 2 {
        if b.len() < 10 {
            return Err(err_house::ErrorKind::DeserializationError);
        }
        let x = match wire::decode_reading(vstd::slice::slice_subrange(b, 1, 10)) {
            Some(x) => x,
            None => {
                return Err(err_house::ErrorKind::DeserializationError);
            },
        };
        let rest = vstd::slice::slice_subrange(b, 10, b.len());
        proof {
            assert(rest@ =~= b@.skip(10));
        }
        match decode_request(rest) {
            Ok(req) => {
                let kind = if tag == 1 {
                    SuccessKind::Power(x)
                } else {
                    SuccessKind::Temp(x)
                };
                Ok(Response { to_req: req, resp_kind: ResponseKind::Success(kind) })
            },
            Err(e) => Err(e),
        }
    } else if tag == 3 {
        if b.len() < 2 {
            return Err(err_house::ErrorKind::DeserializationError);
        }
        let e = match ErrorKind::from_byte(b[1]) {
            Some(e) => e,
            None => {
                return Err(err_house::ErrorKind::DeserializationError);
            },
        };
        let rest = vstd::slice::slice_subrange(b, 2, b.len());
        proof {
            assert(rest@ =~= b@.skip(2));
        }
        match decode_request(rest) {
            Ok(req) => Ok(Response { to_req: req, resp_kind: ResponseKind::Failure(e) }),
            Err(er) => Err(er),
        }
    } else if tag == 4 {
        if b.len() < 3 {
            return Err(err_house::ErrorKind::DeserializationError);
        }
        let count = vstd::bytes::u16_from_le_bytes(vstd::slice::slice_subrange(b, 1, 3));
        let tail = vstd::slice::slice_subrange(b, 3, b.len());
        proof {
            assert(tail@ =~= b@.skip(3));
        }
        match decode_devices_from(tail, count) {
            Ok((devs, rest)) => match decode_request(rest.as_slice()) {
                Ok(req) => Ok(
                    Response {
                        to_req: req,
                        resp_kind: ResponseKind::Success(SuccessKind::ListDev(devs)),
                    },
                ),
                Err(e) => Err(e),
            },
            Err(e) => Err(e),
        }
    } else {
        Err(err_house::ErrorKind::DeserializationError)
    }
}

/// Server request round trip: every request that fits the wire decodes back
/// from its own payload bytes.
pub proof fn lemma_request_codec_round_trip(r: SReqView)
    requires
        spec_request_encodable(r),
    ensures
        spec_decode_request(spec_encode_request(r)) == Some(r),
{
    vstd::bytes::lemma_auto_spec_u16_to_from_le_bytes();
    vstd::utf8::encode_utf8_valid_utf8(r.dev_name);
    vstd::utf8::encode_utf8_decode_utf8(r.dev_name);
    let b = spec_encode_request(r);
    let nb = encode_utf8(r.dev_name);
    assert(b.subrange(1, 3) =~= vstd::bytes::spec_u16_to_le_bytes(nb.len() as u16));
    assert(b.skip(3) =~= nb);
}

/// Server reply round trip: every reply that fits the wire decodes back
/// from its own payload bytes.
pub proof fn lemma_response_codec_round_trip(r: SRespView)
    requires
        spec_response_encodable(r),
    ensures
        spec_decode_response(spec_encode_response(r)) == Some(r),
{
    lemma_request_codec_round_trip(r.to_req);
    vstd::bytes::lemma_auto_spec_u64_to_from_le_bytes();
    vstd::bytes::lemma_auto_spec_u16_to_from_le_bytes();
    let b = spec_encode_response(r);
    let tag = spec_kind_tag(r.resp_kind);
    let detail = spec_kind_detail(r.resp_kind);
    let rb = spec_encode_request(r.to_req);
    match r.resp_kind {
        RespKindView::Success(SuccessView::Ack) => {
            assert(b.skip(1) =~= rb);
        },
        RespKindView::Success(SuccessView::Power(x)) => {
            wire::lemma_reading_round_trip(x);
            assert(b.subrange(1, 10) =~= wire::spec_encode_reading(x));
            assert(b.skip(10) =~= rb);
        },
        RespKindView::Success(SuccessView::Temp(x)) => {
            wire::lemma_reading_round_trip(x);
            assert(b.subrange(1, 10) =~= wire::spec_encode_reading(x));
            assert(b.skip(10) =~= rb);
        },
        RespKindView::Failure(e) => {
            assert(b[1] == e.spec_to_byte());
            assert(b.skip(2) =~= rb);
        },
        RespKindView::Success(SuccessView::ListDev(l)) => {
            lemma_devices_round_trip(l, rb);
            assert(b.subrange(1, 3) =~= vstd::bytes::spec_u16_to_le_bytes(l.len() as u16));
            assert(b.skip(3) =~= spec_encode_devices(l) + rb);
        },
    }
}

} // verus!
