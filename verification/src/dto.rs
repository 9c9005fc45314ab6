//! Request and response envelopes. A request serializes itself to its exact
//! wire JSON, stated byte for byte by the spec functions here; a response is
//! the already-parsed envelope handed back by the wire layer.

use vstd::prelude::*;
use vstd::string::StringSliceAdditionalSpecFns;
use vstd::utf8::encode_utf8;

use crate::json::{json_string, push_json_string, push_raw_str};
use crate::ops::{ParamMap, RdValueDto, WrValueDto};

verus! {

/// JSON for one read entry: `Default` is `null`, `Detailed` is `{"t":<t>}`.
pub open spec fn rd_value_json(v: RdValueDto) -> Seq<u8> {
    match v {
        RdValueDto::Default => encode_utf8("null"@),
        RdValueDto::Detailed { t } => seq![123u8] + json_string(encode_utf8("t"@)) + seq![58u8]
            + json_string(encode_utf8(t@)) + seq![125u8],
    }
}

/// JSON for one write entry: `Simple` is the bare decimal text, `Detailed`
/// is `{"v":<v>,"t":<t>}`.
pub open spec fn wr_value_json(v: WrValueDto) -> Seq<u8> {
    match v {
        WrValueDto::Simple(n) => encode_utf8(n@),
        WrValueDto::Detailed { v, t } => seq![123u8] + json_string(encode_utf8("v"@)) + seq![58u8]
            + encode_utf8(v@) + seq![44u8] + json_string(encode_utf8("t"@)) + seq![58u8]
            + json_string(encode_utf8(t@)) + seq![125u8],
    }
}

pub open spec fn rd_entry_json(e: (String, RdValueDto)) -> Seq<u8> {
    json_string(encode_utf8(e.0@)) + seq![58u8] + rd_value_json(e.1)
}

pub open spec fn wr_entry_json(e: (String, WrValueDto)) -> Seq<u8> {
    json_string(encode_utf8(e.0@)) + seq![58u8] + wr_value_json(e.1)
}

/// The members of the `p` object, comma separated, in entry order.
pub open spec fn rd_entries_json(entries: Seq<(String, RdValueDto)>) -> Seq<u8>
    decreases entries.len(),
{
    if entries.len() == 0 {
        Seq::empty()
    } else if entries.len() == 1 {
        rd_entry_json(entries.last())
    } else {
        rd_entries_json(entries.drop_last()) + seq![44u8] + rd_entry_json(entries.last())
    }
}

pub open spec fn wr_entries_json(entries: Seq<(String, WrValueDto)>) -> Seq<u8>
    decreases entries.len(),
{
    if entries.len() == 0 {
        Seq::empty()
    } else if entries.len() == 1 {
        wr_entry_json(entries.last())
    } else {
        wr_entries_json(entries.drop_last()) + seq![44u8] + wr_entry_json(entries.last())
    }
}

fn push_rd_value(out: &mut Vec<u8>, v: &RdValueDto)
    ensures
        final(out)@ == old(out)@ + rd_value_json(*v),
{
    match v {
        RdValueDto::Default => {
            push_raw_str(out, "null");
        },
        RdValueDto::Detailed { t } => {
            out.push(123);
            push_json_string(out, "t");
            out.push(58);
            push_json_string(out, t.as_str());
            out.push(125);
            proof {
                assert(out@ =~= old(out)@ + rd_value_json(*v));
            }
        },
    }
}

fn push_wr_value(out: &mut Vec<u8>, v: &WrValueDto)
    ensures
        final(out)@ == old(out)@ + wr_value_json(*v),
{
    match v {
        WrValueDto::Simple(n) => {
            push_raw_str(out, n.as_str());
        },
        WrValueDto::Detailed { v: value, t } => {
            out.push(123);
            push_json_string(out, "v");
            out.push(58);
            push_raw_str(out, value.as_str());
            out.push(44);
            push_json_string(out, "t");
            out.push(58);
            push_json_string(out, t.as_str());
            out.push(125);
            proof {
                assert(out@ =~= old(out)@ + wr_value_json(*v));
            }
        },
    }
}

fn push_rd_entries(out: &mut Vec<u8>, entries: &[(String, RdValueDto)])
    ensures
        final(out)@ == old(out)@ + rd_entries_json(entries@),
{
    let n = entries.len();
    let mut i: usize = 0;
    while i < n
        invariant
            0 <= i <= n,
            n == entries@.len(),
            out@ == old(out)@ + rd_entries_json(entries@.take(i as int)),
        decreases n - i,
    {
        if i > 0 {
            out.push(44);
        }
        push_json_string(out, entries[i].0.as_str());
        out.push(58);
        push_rd_value(out, &entries[i].1);
        proof {
            assert(entries@.take(i as int + 1).drop_last() =~= entries@.take(i as int));
            assert(entries@.take(i as int + 1).last() == entries@[i as int]);
            assert(out@ =~= old(out)@ + rd_entries_json(entries@.take(i as int + 1)));
        }
        i = i + 1;
    }
    proof {
        assert(entries@.take(n as int) =~= entries@);
    }
}

fn push_wr_entries(out: &mut Vec<u8>, entries: &[(String, WrValueDto)])
    ensures
        final(out)@ == old(out)@ + wr_entries_json(entries@),
{
    let n = entries.len();
    let mut i: usize = 0;
    while i < n
        invariant
            0 <= i <= n,
            n == entries@.len(),
            out@ == old(out)@ + wr_entries_json(entries@.take(i as int)),
        decreases n - i,
    {
        if i > 0 {
            out.push(44);
        }
        push_json_string(out, entries[i].0.as_str());
        out.push(58);
        push_wr_value(out, &entries[i].1);
        proof {
            assert(entries@.take(i as int + 1).drop_last() =~= entries@.take(i as int));
            assert(entries@.take(i as int + 1).last() == entries@[i as int]);
            assert(out@ =~= old(out)@ + wr_entries_json(entries@.take(i as int + 1)));
        }
        i = i + 1;
    }
    proof {
        assert(entries@.take(n as int) =~= entries@);
    }
}

/// `{"r":<r>}`
pub open spec fn device_list_request_json(r: Seq<char>) -> Seq<u8> {
    seq![123u8] + json_string(encode_utf8("r"@)) + seq![58u8] + json_string(encode_utf8(r))
        + seq![125u8]
}

/// `{"r":<r>,"name":<name>}`
pub open spec fn client_info_request_json(r: Seq<char>, name: Seq<char>) -> Seq<u8> {
    seq![123u8] + json_string(encode_utf8("r"@)) + seq![58u8] + json_string(encode_utf8(r))
        + seq![44u8] + json_string(encode_utf8("name"@)) + seq![58u8] + json_string(
        encode_utf8(name),
    ) + seq![125u8]
}

/// `{"r":<r>,"device":<device>,"p":{<entries>}}`
pub open spec fn read_request_json(
    r: Seq<char>,
    device: Seq<char>,
    entries: Seq<(String, RdValueDto)>,
) -> Seq<u8> {
    seq![123u8] + json_string(encode_utf8("r"@)) + seq![58u8] + json_string(encode_utf8(r))
        + seq![44u8] + json_string(encode_utf8("device"@)) + seq![58u8] + json_string(
        encode_utf8(device),
    ) + seq![44u8] + json_string(encode_utf8("p"@)) + seq![58u8] + seq![123u8] + rd_entries_json(
        entries,
    ) + seq![125u8] + seq![125u8]
}

/// `{"r":<r>,"device":<device>,"p":{<entries>}}`
pub open spec fn write_request_json(
    r: Seq<char>,
    device: Seq<char>,
    entries: Seq<(String, WrValueDto)>,
) -> Seq<u8> {
    seq![123u8] + json_string(encode_utf8("r"@)) + seq![58u8] + json_string(encode_utf8(r))
        + seq![44u8] + json_string(encode_utf8("device"@)) + seq![58u8] + json_string(
        encode_utf8(device),
    ) + seq![44u8] + json_string(encode_utf8("p"@)) + seq![58u8] + seq![123u8] + wr_entries_json(
        entries,
    ) + seq![125u8] + seq![125u8]
}

/// Request for the device listing.
pub struct DeviceListRequestDto {
    pub r: String,
}

impl DeviceListRequestDto {
    pub fn to_json(&self) -> (out: Vec<u8>)
        ensures
            out@ == device_list_request_json(self.r@),
    {
        let mut out: Vec<u8> = Vec::new();
        out.push(123);
        push_json_string(&mut out, "r");
        out.push(58);
        push_json_string(&mut out, self.r.as_str());
        out.push(125);
        proof {
            assert(out@ =~= device_list_request_json(self.r@));
        }
        out
    }
}

/// Announcement of this client's name to the peer.
pub struct ClientInfoRequestDto {
    pub r: String,
    pub name: String,
}

impl ClientInfoRequestDto {
    pub fn to_json(&self) -> (out: Vec<u8>)
        ensures
            out@ == client_info_request_json(self.r@, self.name@),
    {
        let mut out: Vec<u8> = Vec::new();
        out.push(123);
        push_json_string(&mut out, "r");
        out.push(58);
        push_json_string(&mut out, self.r.as_str());
        out.push(44);
        push_json_string(&mut out, "name");
        out.push(58);
        push_json_string(&mut out, self.name.as_str());
        out.push(125);
        proof {
            assert(out@ =~= client_info_request_json(self.r@, self.name@));
        }
        out
    }
}

/// Read of a set of named parameters on one device.
pub struct ReadRequestDto {
    pub r: String,
    pub device: String,
    pub p: ParamMap<RdValueDto>,
}

impl ReadRequestDto {
    pub fn to_json(&self) -> (out: Vec<u8>)
        ensures
            out@ == read_request_json(self.r@, self.device@, self.p@),
    {
        let mut out: Vec<u8> = Vec::new();
        out.push(123);
        push_json_string(&mut out, "r");
        out.push(58);
        push_json_string(&mut out, self.r.as_str());
        out.push(44);
        push_json_string(&mut out, "device");
        out.push(58);
        push_json_string(&mut out, self.device.as_str());
        out.push(44);
        push_json_string(&mut out, "p");
        out.push(58);
        out.push(123);
        push_rd_entries(&mut out, self.p.entries());
        out.push(125);
        out.push(125);
        proof {
            assert(out@ =~= read_request_json(self.r@, self.device@, self.p@));
        }
        out
    }
}

/// Write of a set of named parameters on one device.
pub struct WriteRequestDto {
    pub r: String,
    pub device: String,
    pub p: ParamMap<WrValueDto>,
}

impl WriteRequestDto {
    pub fn to_json(&self) -> (out: Vec<u8>)
        ensures
            out@ == write_request_json(self.r@, self.device@, self.p@),
    {
        let mut out: Vec<u8> = Vec::new();
        out.push(123);
        push_json_string(&mut out, "r");
        out.push(58);
        push_json_string(&mut out, self.r.as_str());
        out.push(44);
        push_json_string(&mut out, "device");
        out.push(58);
        push_json_string(&mut out, self.device.as_str());
        out.push(44);
        push_json_string(&mut out, "p");
        out.push(58);
        out.push(123);
        push_wr_entries(&mut out, self.p.entries());
        out.push(125);
        out.push(125);
        proof {
            assert(out@ =~= write_request_json(self.r@, self.device@, self.p@));
        }
        out
    }
}

/// What the handshake frame carries: the peer's protocol version.
#[derive(Debug, PartialEq, Eq)]
pub struct UpgradeResponseDto {
    pub version: String,
}

/// One device the peer knows: identity, network, and descriptive strings.
#[derive(Debug)]
pub struct DeviceDto {
    pub id: u32,
    pub network: u32,
    pub name: String,
    pub description: String,
    pub device_type: String,
}

/// Envelope of a device-list response.
#[derive(Debug)]
pub struct DeviceListResponseDto {
    pub r: String,
    pub devices: Vec<DeviceDto>,
}

/// Envelope of a client-info response: the echoed discriminator alone.
#[derive(Debug)]
pub struct ClientInfoResponseDto {
    pub r: String,
}

/// View of one result entry: the name, and the value's decimal text where
/// one was returned, `None` where the entry was null.
pub open spec fn result_entry_view(e: (String, Option<String>)) -> (Seq<char>, Option<Seq<char>>) {
    (
        e.0@,
        match e.1 {
            Some(v) => Some(v@),
            None => None,
        },
    )
}

/// First entry carrying `name`, if any: the returned value's text, or `None`
/// for an explicit null.
pub open spec fn result_lookup(
    s: Seq<(Seq<char>, Option<Seq<char>>)>,
    name: Seq<char>,
) -> Option<Option<Seq<char>>>
    decreases s.len(),
{
    if s.len() == 0 {
        None
    } else if s[0].0 == name {
        Some(s[0].1)
    } else {
        result_lookup(s.drop_first(), name)
    }
}

/// The value a result map effectively returns for `name`: an absent name and
/// an explicit null both mean "no value returned".
pub open spec fn result_effective(
    s: Seq<(Seq<char>, Option<Seq<char>>)>,
    name: Seq<char>,
) -> Option<Seq<char>> {
    match result_lookup(s, name) {
        Some(Some(v)) => Some(v),
        _ => None,
    }
}

/// The parameter result map of a read or write response: names paired with
/// the returned value's decimal text, or with `None` for a null.
#[derive(Debug)]
pub struct ResultMap {
    entries: Vec<(String, Option<String>)>,
}

proof fn lemma_result_lookup_skip(s: Seq<(Seq<char>, Option<Seq<char>>)>, name: Seq<char>, i: int)
    requires
        0 <= i <= s.len(),
        forall|j: int| 0 <= j < i ==> s[j].0 != name,
    ensures
        result_lookup(s, name) == result_lookup(s.skip(i), name),
    decreases i,
{
    if i == 0 {
        assert(s.skip(0) =~= s);
    } else {
        let rest = s.drop_first();
        assert(forall|j: int| 0 <= j < rest.len() ==> rest[j] == s[j + 1]);
        lemma_result_lookup_skip(rest, name, i - 1);
        assert(rest.skip(i - 1) =~= s.skip(i));
    }
}

impl ResultMap {
    /// The entries in the order the wire layer handed them over.
    pub closed spec fn view(&self) -> Seq<(Seq<char>, Option<Seq<char>>)> {
        self.entries@.map_values(|e: (String, Option<String>)| result_entry_view(e))
    }

    pub fn new(entries: Vec<(String, Option<String>)>) -> (r: Self)
        ensures
            r@ == entries@.map_values(|e: (String, Option<String>)| result_entry_view(e)),
    {
        ResultMap { entries }
    }

    pub fn len(&self) -> (r: usize)
        ensures
            r == self@.len(),
    {
        self.entries.len()
    }

    /// The value returned for `name`: `None` where the name is absent,
    /// `Some(None)` for an explicit null, `Some(Some(text))` for a value.
    pub fn get(&self, name: &String) -> (r: Option<Option<String>>)
        ensures
            match r {
                None => result_lookup(self@, name@) is None,
                Some(None) => result_lookup(self@, name@) == Some(Option::<Seq<char>>::None),
                Some(Some(v)) => result_lookup(self@, name@) == Some(Some(v@)),
            },
    {
        let n = self.entries.len();
        let mut i: usize = 0;
        while i < n
            invariant
                0 <= i <= n,
                n == self.entries@.len(),
                self@.len() == n,
                forall|j: int| 0 <= j < i ==> self@[j].0 != name@,
            decreases n - i,
        {
            proof {
                assert(self@[i as int] == result_entry_view(self.entries@[i as int]));
            }
            if self.entries[i].0 == *name {
                proof {
                    lemma_result_lookup_skip(self@, name@, i as int);
                    assert(self@.skip(i as int)[0] == self@[i as int]);
                }
                match &self.entries[i].1 {
                    Some(v) => {
                        return Some(Some(v.clone()));
                    },
                    None => {
                        return Some(None);
                    },
                }
            }
            i = i + 1;
        }
        proof {
            lemma_result_lookup_skip(self@, name@, n as int);
            assert(self@.skip(n as int) =~= Seq::<(Seq<char>, Option<Seq<char>>)>::empty());
        }
        None
    }
}

/// Envelope of a read response.
pub struct ReadResponseDto {
    pub r: String,
    pub result: ResultMap,
}

/// Envelope of a write response.
pub struct WriteResponseDto {
    pub r: String,
    pub result: ResultMap,
}

} // verus!
