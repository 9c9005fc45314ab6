//! The protocol engine: connection state, handshake, and the strictly
//! sequential request/response transactions, all without touching a socket.
//! A driver owns the transport; it asks the engine what to send, feeds it
//! the bytes that arrive, and reports transport events. The engine builds
//! the exact frames, decodes the exact responses, and keeps the invariant
//! that at most one request is in flight.
//!
//! Fatal events (a malformed frame, a transport error, a peer that closed
//! the connection) disconnect the engine unconditionally; a decode error or
//! a mismatched response discriminator ends only the transaction, and the
//! connection stays usable.

use vstd::prelude::*;
use vstd::slice::slice_to_vec;
use vstd::string::StringSliceAdditionalSpecFns;
use vstd::utf8::decode_utf8;
use vstd::utf8::encode_utf8;
use vstd::utf8::encode_utf8_decode_utf8;
use vstd::utf8::valid_utf8;

use crate::dto::ClientInfoRequestDto;
use crate::dto::DeviceListRequestDto;
use crate::dto::ReadRequestDto;
use crate::dto::ResultMap;
use crate::dto::WriteRequestDto;
use crate::dto::client_info_request_json;
use crate::dto::device_list_request_json;
use crate::dto::read_request_json;
use crate::dto::write_request_json;
use crate::netstring::NetstringError;
use crate::netstring::encode_netstring;
use crate::netstring::ns_complete;
use crate::netstring::ns_encode;
use crate::netstring::ns_incomplete;
use crate::netstring::ns_malformed;
use crate::netstring::ns_payload;
use crate::netstring::parse_netstring;
use crate::ops::RdOp;
use crate::ops::WrOp;
use crate::ops::build_read_map;
use crate::ops::build_write_map;
use crate::ops::compile_rd_ops;
use crate::ops::compile_wr_ops;
use crate::ops::wr_ops_valid;
use crate::wire::bytes_to_str;
use crate::wire::device_list_of;
use crate::wire::device_view;
use crate::wire::parse_device_list_response;
use crate::wire::parse_result_response;
use crate::wire::parse_string_field;
use crate::wire::result_response_of;
use crate::wire::string_field_of;

pub use crate::dto::DeviceDto;
pub use crate::ops::Parameter;

verus! {

/// Everything that can go wrong between a request and its answer.
#[derive(Debug)]
pub enum NetcomError {
    /// No transport is held and lazy connection was not possible.
    NotConnected,
    /// The transport failed; the connection is gone and must be remade.
    StreamError(std::io::Error),
    /// Framing failed; the connection is gone and must be remade.
    NetstringError(NetstringError),
    /// The response was not the expected JSON; the connection stays usable.
    JsonError(serde_json::Error),
    /// The response was not UTF-8; the connection stays usable.
    Utf8Error(core::str::Utf8Error),
    /// The response answered some other request type; the connection stays
    /// usable.
    ResponseError { expected: String, actual: String },
    /// The peer closed the connection; it is gone and must be remade.
    ConnectionClosed,
}

impl NetcomError {
    /// Short account of the error kind, in place of a `Display` impl.
    pub fn describe(&self) -> (r: &'static str)
        ensures
            *self is NotConnected ==> r@ == "not connected"@,
            *self is StreamError ==> r@ == "stream error"@,
            *self is NetstringError ==> r@ == "netstring error"@,
            *self is JsonError ==> r@ == "JSON error"@,
            *self is Utf8Error ==> r@ == "UTF-8 error"@,
            *self is ResponseError ==> r@ == "unexpected response type"@,
            *self is ConnectionClosed ==> r@ == "connection closed by peer"@,
    {
        match self {
            NetcomError::NotConnected => "not connected",
            NetcomError::StreamError(_) => "stream error",
            NetcomError::NetstringError(_) => "netstring error",
            NetcomError::JsonError(_) => "JSON error",
            NetcomError::Utf8Error(_) => "UTF-8 error",
            NetcomError::ResponseError { expected: _, actual: _ } => "unexpected response type",
            NetcomError::ConnectionClosed => "connection closed by peer",
        }
    }
}

/// The four request types of the protocol.
#[derive(Debug, Clone, Copy, PartialEq, Eq, Structural)]
pub enum RequestKind {
    DeviceList,
    ClientInfo,
    Read,
    Write,
}

impl RequestKind {
    /// The discriminator string this request type carries in `"r"` and
    /// expects back in `"R"`.
    pub open spec fn discr_spec(self) -> Seq<char> {
        match self {
            RequestKind::DeviceList => "device-list"@,
            RequestKind::ClientInfo => "client-info"@,
            RequestKind::Read => "read"@,
            RequestKind::Write => "write"@,
        }
    }

    pub fn discriminator(&self) -> (r: &'static str)
        ensures
            r@ == self.discr_spec(),
    {
        match self {
            RequestKind::DeviceList => "device-list",
            RequestKind::ClientInfo => "client-info",
            RequestKind::Read => "read",
            RequestKind::Write => "write",
        }
    }
}

/// What a fed chunk of transport bytes produced.
#[derive(Debug)]
pub enum FrameProgress {
    /// A whole frame arrived; here is its payload.
    Ready(Vec<u8>),
    /// No whole frame yet; feed more bytes.
    More,
    /// The buffer can never become a frame; the engine has disconnected.
    Broken,
}

/// Version string found in a handshake frame, if the frame parses.
pub open spec fn upgrade_version_of(b: Seq<u8>) -> Option<Seq<char>> {
    string_field_of(decode_utf8(b), "version"@)
}

/// Discriminator found in a client-info response, if the frame parses.
pub open spec fn response_discr_of(b: Seq<u8>) -> Option<Seq<char>> {
    string_field_of(decode_utf8(b), "R"@)
}

/// Parsed read/write response envelope of a payload's bytes.
pub open spec fn result_response_of_bytes(b: Seq<u8>) -> Option<
    (Seq<char>, Seq<(Seq<char>, Option<Seq<char>>)>),
> {
    result_response_of(decode_utf8(b))
}

/// Parsed device-list response envelope of a payload's bytes.
pub open spec fn device_list_of_bytes(b: Seq<u8>) -> Option<
    (Seq<char>, Seq<(u32, u32, Seq<char>, Seq<char>, Seq<char>)>),
> {
    device_list_of(decode_utf8(b))
}

/// The engine for one connection: host and port it belongs to, whether the
/// handshake has completed, the version the peer announced, the receive
/// buffer of the frame being assembled, and the request in flight, if any.
pub struct NetcomClient {
    hostname: String,
    port: u16,
    connected: bool,
    auto_connect: bool,
    version: Option<String>,
    rx: Vec<u8>,
    pending: Option<RequestKind>,
}

impl NetcomClient {
    pub closed spec fn spec_hostname(&self) -> Seq<char> {
        self.hostname@
    }

    pub closed spec fn spec_port(&self) -> u16 {
        self.port
    }

    /// Holds exactly when the handshake completed and no fatal event has
    /// happened since.
    pub closed spec fn spec_connected(&self) -> bool {
        self.connected
    }

    pub closed spec fn spec_auto_connect(&self) -> bool {
        self.auto_connect
    }

    pub closed spec fn spec_version(&self) -> Option<Seq<char>> {
        match self.version {
            Some(v) => Some(v@),
            None => None,
        }
    }

    pub closed spec fn spec_rx(&self) -> Seq<u8> {
        self.rx@
    }

    pub closed spec fn spec_pending(&self) -> Option<RequestKind> {
        self.pending
    }

    /// The fields a transaction never touches.
    pub open spec fn same_config(&self, pre: &NetcomClient) -> bool {
        &&& self.spec_hostname() == pre.spec_hostname()
        &&& self.spec_port() == pre.spec_port()
        &&& self.spec_auto_connect() == pre.spec_auto_connect()
    }

    /// A fresh engine: disconnected, lazy connection enabled, nothing
    /// buffered, nothing in flight.
    pub fn new(hostname: &str, port: u16) -> (r: Self)
        ensures
            r.spec_hostname() == hostname@,
            r.spec_port() == port,
            !r.spec_connected(),
            r.spec_auto_connect(),
            r.spec_version() is None,
            r.spec_rx() == Seq::<u8>::empty(),
            r.spec_pending() is None,
    {
        NetcomClient {
            hostname: hostname.to_owned(),
            port,
            connected: false,
            auto_connect: true,
            version: None,
            rx: Vec::new(),
            pending: None,
        }
    }

    pub fn hostname(&self) -> (r: &String)
        ensures
            r@ == self.spec_hostname(),
    {
        &self.hostname
    }

    pub fn port(&self) -> (r: u16)
        ensures
            r == self.spec_port(),
    {
        self.port
    }

    /// True iff the handshake completed; it does not by itself prove the
    /// peer is still alive.
    pub fn is_connected(&self) -> (r: bool)
        ensures
            r == self.spec_connected(),
    {
        self.connected
    }

    /// The version the peer announced at the last handshake, if any.
    pub fn version(&self) -> (r: &Option<String>)
        ensures
            match r {
                Some(v) => self.spec_version() == Some(v@),
                None => self.spec_version() is None,
            },
    {
        &self.version
    }

    /// The request in flight, if any: the engine accepts no second request
    /// before this one's response, or a fatal event, has closed it.
    pub fn pending_request(&self) -> (r: Option<RequestKind>)
        ensures
            r == self.spec_pending(),
    {
        self.pending
    }

    /// The lazy-connect decision of `prepare`: a driver must connect and
    /// hand the handshake frame over before the next request exactly when
    /// this holds.
    pub fn needs_connect(&self) -> (r: bool)
        ensures
            r == (self.spec_auto_connect() && !self.spec_connected()),
    {
        self.auto_connect && !self.connected
    }

    /// Releases the connection state. Idempotent; also ends any transaction
    /// in flight.
    pub fn disconnect(&mut self)
        ensures
            final(self).same_config(old(self)),
            !final(self).spec_connected(),
            final(self).spec_version() == old(self).spec_version(),
            final(self).spec_rx() == Seq::<u8>::empty(),
            final(self).spec_pending() is None,
    {
        self.connected = false;
        self.rx.clear();
        self.pending = None;
    }

    /// The fixed line a driver must write right after opening the
    /// transport, before any framed traffic.
    pub fn handshake_line() -> (r: Vec<u8>)
        ensures
            r@ == encode_utf8("PROTO30\n"@),
    {
        slice_to_vec("PROTO30\n".as_bytes())
    }

    /// Takes a chunk read from the transport and tries to decode one frame
    /// from everything received so far. `Ready` hands the payload over and
    /// empties the buffer; `More` keeps the bytes for the next chunk;
    /// `Broken` means the buffer can never frame, which is fatal: the
    /// engine disconnects.
    pub fn feed(&mut self, chunk: &[u8]) -> (r: FrameProgress)
        ensures
            final(self).same_config(old(self)),
            final(self).spec_version() == old(self).spec_version(),
            match r {
                FrameProgress::Ready(p) => {
                    &&& ns_complete(old(self).spec_rx() + chunk@)
                    &&& p@ == ns_payload(old(self).spec_rx() + chunk@)
                    &&& final(self).spec_rx() == Seq::<u8>::empty()
                    &&& final(self).spec_connected() == old(self).spec_connected()
                    &&& final(self).spec_pending() == old(self).spec_pending()
                },
                FrameProgress::More => {
                    &&& ns_incomplete(old(self).spec_rx() + chunk@)
                    &&& final(self).spec_rx() == old(self).spec_rx() + chunk@
                    &&& final(self).spec_connected() == old(self).spec_connected()
                    &&& final(self).spec_pending() == old(self).spec_pending()
                },
                FrameProgress::Broken => {
                    &&& ns_malformed(old(self).spec_rx() + chunk@)
                    &&& final(self).spec_rx() == Seq::<u8>::empty()
                    &&& !final(self).spec_connected()
                    &&& final(self).spec_pending() is None
                },
            },
    {
        self.rx.extend_from_slice(chunk);
        proof {
            assert(self.rx@ == old(self).spec_rx() + chunk@);
        }
        let progress = match parse_netstring(self.rx.as_slice()) {
            Ok(p) => FrameProgress::Ready(slice_to_vec(p)),
            Err(NetstringError::Incomplete) => FrameProgress::More,
            Err(NetstringError::Malformed) => FrameProgress::Broken,
        };
        proof {
            assert(match progress {
                FrameProgress::Ready(p) => ns_complete(old(self).spec_rx() + chunk@) && p@
                    == ns_payload(old(self).spec_rx() + chunk@),
                FrameProgress::More => ns_incomplete(old(self).spec_rx() + chunk@),
                FrameProgress::Broken => ns_malformed(old(self).spec_rx() + chunk@),
            });
        }
        match &progress {
            FrameProgress::Ready(_) => {
                self.rx.clear();
            },
            FrameProgress::More => {},
            FrameProgress::Broken => {
                self.connected = false;
                self.rx.clear();
                self.pending = None;
            },
        }
        progress
    }

    /// A read of zero bytes means the peer closed the connection: fatal.
    /// The original protocol left this case undecided and would wait
    /// forever; here it ends the connection with `ConnectionClosed`.
    pub fn on_peer_closed(&mut self) -> (r: NetcomError)
        ensures
            final(self).same_config(old(self)),
            final(self).spec_version() == old(self).spec_version(),
            !final(self).spec_connected(),
            final(self).spec_rx() == Seq::<u8>::empty(),
            final(self).spec_pending() is None,
            r is ConnectionClosed,
    {
        self.connected = false;
        self.rx.clear();
        self.pending = None;
        NetcomError::ConnectionClosed
    }

    /// A transport failure is fatal: the engine disconnects and the error
    /// carries the cause.
    pub fn on_transport_error(&mut self, cause: std::io::Error) -> (r: NetcomError)
        ensures
            final(self).same_config(old(self)),
            final(self).spec_version() == old(self).spec_version(),
            !final(self).spec_connected(),
            final(self).spec_rx() == Seq::<u8>::empty(),
            final(self).spec_pending() is None,
            r matches NetcomError::StreamError(e) && e == cause,
    {
        self.connected = false;
        self.rx.clear();
        self.pending = None;
        NetcomError::StreamError(cause)
    }

    /// Takes the payload of the first frame after the handshake line: JSON
    /// carrying the peer's version. On success the connection is Ready and
    /// the version stored; on any failure the engine is left fully
    /// disconnected, with no partial state.
    pub fn on_handshake_frame(&mut self, payload: &[u8]) -> (r: Result<(), NetcomError>)
        ensures
            final(self).same_config(old(self)),
            final(self).spec_rx() == Seq::<u8>::empty(),
            final(self).spec_pending() is None,
            r is Ok <==> (valid_utf8(payload@) && upgrade_version_of(payload@) is Some),
            r matches Err(e) ==> (e is Utf8Error || e is JsonError),
            (r matches Err(e) && e is Utf8Error) <==> !valid_utf8(payload@),
            r is Ok ==> final(self).spec_connected() && final(self).spec_version()
                == upgrade_version_of(payload@),
            r is Err ==> !final(self).spec_connected() && final(self).spec_version()
                == old(self).spec_version(),
    {
        self.rx.clear();
        self.pending = None;
        let s = match bytes_to_str(payload) {
            Ok(s) => s,
            Err(e) => {
                self.connected = false;
                return Err(NetcomError::Utf8Error(e));
            },
        };
        proof {
            encode_utf8_decode_utf8(s@);
        }
        match parse_string_field(s, "version") {
            Ok(v) => {
                self.connected = true;
                self.version = Some(v);
                Ok(())
            },
            Err(e) => {
                self.connected = false;
                Err(NetcomError::JsonError(e))
            },
        }
    }

    /// Opens a device-list transaction: returns the exact frame to write.
    /// Refused with `NotConnected` while no handshake holds; the driver is
    /// expected to have honored `needs_connect` first.
    pub fn begin_device_list(&mut self) -> (r: Result<Vec<u8>, NetcomError>)
        requires
            old(self).spec_pending() is None,
        ensures
            final(self).same_config(old(self)),
            final(self).spec_connected() == old(self).spec_connected(),
            final(self).spec_version() == old(self).spec_version(),
            !old(self).spec_connected() ==> (r matches Err(NetcomError::NotConnected) && final(self).spec_pending() is None),
            old(self).spec_connected() ==> (r matches Ok(frame) && frame@ == ns_encode(
                device_list_request_json("device-list"@),
            ) && final(self).spec_pending() == Some(RequestKind::DeviceList) && final(self).spec_rx() == Seq::<u8>::empty()),
    {
        if !self.connected {
            return Err(NetcomError::NotConnected);
        }
        let req = DeviceListRequestDto { r: RequestKind::DeviceList.discriminator().to_owned() };
        let json = req.to_json();
        let frame = encode_netstring(json.as_slice());
        self.rx.clear();
        self.pending = Some(RequestKind::DeviceList);
        Ok(frame)
    }

    /// Opens a client-info transaction announcing `name`.
    pub fn begin_client_info(&mut self, name: &str) -> (r: Result<Vec<u8>, NetcomError>)
        requires
            old(self).spec_pending() is None,
        ensures
            final(self).same_config(old(self)),
            final(self).spec_connected() == old(self).spec_connected(),
            final(self).spec_version() == old(self).spec_version(),
            !old(self).spec_connected() ==> (r matches Err(NetcomError::NotConnected) && final(self).spec_pending() is None),
            old(self).spec_connected() ==> (r matches Ok(frame) && frame@ == ns_encode(
                client_info_request_json("client-info"@, name@),
            ) && final(self).spec_pending() == Some(RequestKind::ClientInfo) && final(self).spec_rx() == Seq::<u8>::empty()),
    {
        if !self.connected {
            return Err(NetcomError::NotConnected);
        }
        let req = ClientInfoRequestDto {
            r: RequestKind::ClientInfo.discriminator().to_owned(),
            name: name.to_owned(),
        };
        let json = req.to_json();
        let frame = encode_netstring(json.as_slice());
        self.rx.clear();
        self.pending = Some(RequestKind::ClientInfo);
        Ok(frame)
    }

    /// Opens a read transaction for the given operations on `device`. The
    /// frame is the exact encoding of the compiled wire map, duplicates
    /// resolved last-write-wins.
    pub fn begin_read(&mut self, device: &str, parameters: Vec<RdOp>) -> (r: Result<
        Vec<u8>,
        NetcomError,
    >)
        requires
            old(self).spec_pending() is None,
        ensures
            final(self).same_config(old(self)),
            final(self).spec_connected() == old(self).spec_connected(),
            final(self).spec_version() == old(self).spec_version(),
            !old(self).spec_connected() ==> (r matches Err(NetcomError::NotConnected) && final(self).spec_pending() is None),
            old(self).spec_connected() ==> (r matches Ok(frame) && frame@ == ns_encode(
                read_request_json("read"@, device@, compile_rd_ops(parameters@)),
            ) && final(self).spec_pending() == Some(RequestKind::Read) && final(self).spec_rx()
                == Seq::<u8>::empty()),
    {
        if !self.connected {
            return Err(NetcomError::NotConnected);
        }
        let req = ReadRequestDto {
            r: RequestKind::Read.discriminator().to_owned(),
            device: device.to_owned(),
            p: build_read_map(parameters.as_slice()),
        };
        let json = req.to_json();
        let frame = encode_netstring(json.as_slice());
        self.rx.clear();
        self.pending = Some(RequestKind::Read);
        Ok(frame)
    }

    /// Opens a write transaction for the given operations on `device`. The
    /// value texts must be number tokens (`check_write_ops` decides that):
    /// they are spliced into the request unquoted, so anything else would
    /// not frame spec-shaped JSON.
    pub fn begin_write(&mut self, device: &str, parameters: Vec<WrOp>) -> (r: Result<
        Vec<u8>,
        NetcomError,
    >)
        requires
            old(self).spec_pending() is None,
            wr_ops_valid(parameters@),
        ensures
            final(self).same_config(old(self)),
            final(self).spec_connected() == old(self).spec_connected(),
            final(self).spec_version() == old(self).spec_version(),
            !old(self).spec_connected() ==> (r matches Err(NetcomError::NotConnected) && final(self).spec_pending() is None),
            old(self).spec_connected() ==> (r matches Ok(frame) && frame@ == ns_encode(
                write_request_json("write"@, device@, compile_wr_ops(parameters@)),
            ) && final(self).spec_pending() == Some(RequestKind::Write) && final(self).spec_rx()
                == Seq::<u8>::empty()),
    {
        if !self.connected {
            return Err(NetcomError::NotConnected);
        }
        let req = WriteRequestDto {
            r: RequestKind::Write.discriminator().to_owned(),
            device: device.to_owned(),
            p: build_write_map(parameters.as_slice()),
        };
        let json = req.to_json();
        let frame = encode_netstring(json.as_slice());
        self.rx.clear();
        self.pending = Some(RequestKind::Write);
        Ok(frame)
    }

    /// Closes a device-list transaction with the response payload: the
    /// complete device list exactly as the decoder saw it, order and every
    /// field, or the precise error. A response that answers another request
    /// type is a `ResponseError` carrying both discriminators; the
    /// connection stays usable either way.
    pub fn finish_device_list(&mut self, payload: &[u8]) -> (r: Result<Vec<DeviceDto>, NetcomError>)
        requires
            old(self).spec_pending() == Some(RequestKind::DeviceList),
        ensures
            final(self).same_config(old(self)),
            final(self).spec_connected() == old(self).spec_connected(),
            final(self).spec_version() == old(self).spec_version(),
            final(self).spec_pending() is None,
            r is Ok <==> (valid_utf8(payload@) && (device_list_of_bytes(payload@) matches Some(p)
                && p.0 == "device-list"@)),
            (r matches Err(e) && e is Utf8Error) <==> !valid_utf8(payload@),
            (r matches Err(e) && e is JsonError) <==> (valid_utf8(payload@) && device_list_of_bytes(
                payload@,
            ) is None),
            r matches Err(e) ==> (e is Utf8Error || e is JsonError || e is ResponseError),
            (match r {
                Ok(devices) => device_list_of_bytes(payload@) matches Some(p) && devices@
                    .map_values(|d: DeviceDto| device_view(d)) == p.1,
                Err(NetcomError::ResponseError { expected, actual }) => (expected@ == "device-list"@ && (device_list_of_bytes(payload@) matches Some(p) && actual@ == p.0 && p.0 != "device-list"@)),
                Err(_) => true,
            }),
    {
        self.pending = None;
        let s = match bytes_to_str(payload) {
            Ok(s) => s,
            Err(e) => {
                return Err(NetcomError::Utf8Error(e));
            },
        };
        proof {
            encode_utf8_decode_utf8(s@);
        }
        let parsed = match parse_device_list_response(s) {
            Ok(p) => p,
            Err(e) => {
                return Err(NetcomError::JsonError(e));
            },
        };
        let (actual, devices) = parsed;
        let expected = RequestKind::DeviceList.discriminator().to_owned();
        if actual == expected {
            Ok(devices)
        } else {
            Err(NetcomError::ResponseError { expected, actual })
        }
    }

    /// Closes a client-info transaction: the response carries nothing but
    /// its discriminator, which must echo `client-info`.
    pub fn finish_client_info(&mut self, payload: &[u8]) -> (r: Result<(), NetcomError>)
        requires
            old(self).spec_pending() == Some(RequestKind::ClientInfo),
        ensures
            final(self).same_config(old(self)),
            final(self).spec_connected() == old(self).spec_connected(),
            final(self).spec_version() == old(self).spec_version(),
            final(self).spec_pending() is None,
            r is Ok <==> (valid_utf8(payload@) && (response_discr_of(payload@) matches Some(d)
                && d == "client-info"@)),
            (r matches Err(e) && e is Utf8Error) <==> !valid_utf8(payload@),
            (r matches Err(e) && e is JsonError) <==> (valid_utf8(payload@) && response_discr_of(
                payload@,
            ) is None),
            r matches Err(e) ==> (e is Utf8Error || e is JsonError || e is ResponseError),
            (match r {
                Err(NetcomError::ResponseError { expected, actual }) => (expected@ == "client-info"@ && (response_discr_of(payload@) matches Some(d) && actual@ == d && d != "client-info"@)),
                _ => true,
            }),
    {
        self.pending = None;
        let s = match bytes_to_str(payload) {
            Ok(s) => s,
            Err(e) => {
                return Err(NetcomError::Utf8Error(e));
            },
        };
        proof {
            encode_utf8_decode_utf8(s@);
        }
        let actual = match parse_string_field(s, "R") {
            Ok(d) => d,
            Err(e) => {
                return Err(NetcomError::JsonError(e));
            },
        };
        let expected = RequestKind::ClientInfo.discriminator().to_owned();
        if actual == expected {
            Ok(())
        } else {
            Err(NetcomError::ResponseError { expected, actual })
        }
    }

    /// Closes a read transaction with the response payload: the result map
    /// exactly as the decoder saw it, or the precise error.
    pub fn finish_read(&mut self, payload: &[u8]) -> (r: Result<ResultMap, NetcomError>)
        requires
            old(self).spec_pending() == Some(RequestKind::Read),
        ensures
            final(self).same_config(old(self)),
            final(self).spec_connected() == old(self).spec_connected(),
            final(self).spec_version() == old(self).spec_version(),
            final(self).spec_pending() is None,
            r is Ok <==> (valid_utf8(payload@) && (result_response_of_bytes(payload@) matches Some(
                p,
            ) && p.0 == "read"@)),
            (r matches Err(e) && e is Utf8Error) <==> !valid_utf8(payload@),
            (r matches Err(e) && e is JsonError) <==> (valid_utf8(payload@)
                && result_response_of_bytes(payload@) is None),
            r matches Err(e) ==> (e is Utf8Error || e is JsonError || e is ResponseError),
            (match r {
                Ok(map) => result_response_of_bytes(payload@) matches Some(p) && map@ == p.1,
                Err(NetcomError::ResponseError { expected, actual }) => (expected@ == "read"@ && (result_response_of_bytes(payload@) matches Some(p) && actual@ == p.0 && p.0 != "read"@)),
                Err(_) => true,
            }),
    {
        self.pending = None;
        let s = match bytes_to_str(payload) {
            Ok(s) => s,
            Err(e) => {
                return Err(NetcomError::Utf8Error(e));
            },
        };
        proof {
            encode_utf8_decode_utf8(s@);
        }
        let parsed = match parse_result_response(s) {
            Ok(p) => p,
            Err(e) => {
                return Err(NetcomError::JsonError(e));
            },
        };
        let (actual, entries) = parsed;
        let expected = RequestKind::Read.discriminator().to_owned();
        if actual == expected {
            Ok(ResultMap::new(entries))
        } else {
            Err(NetcomError::ResponseError { expected, actual })
        }
    }

    /// Closes a write transaction with the response payload; the peer
    /// reports the written parameters back as a result map.
    pub fn finish_write(&mut self, payload: &[u8]) -> (r: Result<ResultMap, NetcomError>)
        requires
            old(self).spec_pending() == Some(RequestKind::Write),
        ensures
            final(self).same_config(old(self)),
            final(self).spec_connected() == old(self).spec_connected(),
            final(self).spec_version() == old(self).spec_version(),
            final(self).spec_pending() is None,
            r is Ok <==> (valid_utf8(payload@) && (result_response_of_bytes(payload@) matches Some(
                p,
            ) && p.0 == "write"@)),
            (r matches Err(e) && e is Utf8Error) <==> !valid_utf8(payload@),
            (r matches Err(e) && e is JsonError) <==> (valid_utf8(payload@)
                && result_response_of_bytes(payload@) is None),
            r matches Err(e) ==> (e is Utf8Error || e is JsonError || e is ResponseError),
            (match r {
                Ok(map) => result_response_of_bytes(payload@) matches Some(p) && map@ == p.1,
                Err(NetcomError::ResponseError { expected, actual }) => (expected@ == "write"@ && (result_response_of_bytes(payload@) matches Some(p) && actual@ == p.0 && p.0 != "write"@)),
                Err(_) => true,
            }),
    {
        self.pending = None;
        let s = match bytes_to_str(payload) {
            Ok(s) => s,
            Err(e) => {
                return Err(NetcomError::Utf8Error(e));
            },
        };
        proof {
            encode_utf8_decode_utf8(s@);
        }
        let parsed = match parse_result_response(s) {
            Ok(p) => p,
            Err(e) => {
                return Err(NetcomError::JsonError(e));
            },
        };
        let (actual, entries) = parsed;
        let expected = RequestKind::Write.discriminator().to_owned();
        if actual == expected {
            Ok(ResultMap::new(entries))
        } else {
            Err(NetcomError::ResponseError { expected, actual })
        }
    }
}

} // verus!
