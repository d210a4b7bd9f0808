use crate::json::{
    json_model, json_parsed, json_map_new, json_object, json_to_bytes, json_parse, nesting_within,
    no_entries, parse_depth_limit, put_str, read_str, str_field, JsonModel,
};
use crate::role_gate::same_text;
use vstd::prelude::*;
use vstd::string::StringExecFns;

verus! {

/// The kinds of device the schema knows. `Unknown` is the one catch-all.
#[derive(Debug, Clone, Copy, PartialEq, Eq, Structural)]
pub enum DeviceType {
    SmartBulb,
    SmartSwitch,
    Sensor,
    SecurityHardwired,
    SecurityWiFi,
    Unknown,
}

/// The power state of a device.
#[derive(Debug, Clone, Copy, PartialEq, Eq, Structural)]
pub enum DeviceStatus {
    On,
    Off,
    Unknown,
}

/// Why a payload could not be decoded.
#[derive(Debug, Clone, Copy, PartialEq, Eq, Structural)]
pub enum DecodeError {
    /// The bytes are not JSON, or a required field is missing or of the
    /// wrong kind.
    MalformedPayload,
    /// A field the schema does not know. Decoding ignores such fields, so
    /// it never returns this.
    UnknownField,
}

/// What decoding `bytes` yields, when `f` reads a record out of a JSON value.
pub open spec fn decode_result<T>(bytes: Seq<u8>, f: spec_fn(JsonModel) -> Option<T>) -> Result<
    T,
    DecodeError,
> {
    match json_parsed(bytes) {
        Some(m) => match f(m) {
            Some(c) => Ok(c),
            None => Err(DecodeError::MalformedPayload),
        },
        None => Err(DecodeError::MalformedPayload),
    }
}

pub open spec fn result_view<T: View>(r: Result<T, DecodeError>) -> Result<T::V, DecodeError> {
    match r {
        Ok(c) => Ok(c@),
        Err(e) => Err(e),
    }
}

/// The lengths of the kinds' wire strings, which tell them apart.
proof fn lemma_kind_wire_lengths()
    ensures
        "smart_bulb"@.len() == 10,
        "smart_switch"@.len() == 12,
        "sensor"@.len() == 6,
        "security_hardwired"@.len() == 18,
        "security_wifi"@.len() == 13,
        "unknown"@.len() == 7,
{
    reveal_strlit("smart_bulb");
    reveal_strlit("smart_switch");
    reveal_strlit("sensor");
    reveal_strlit("security_hardwired");
    reveal_strlit("security_wifi");
    reveal_strlit("unknown");
}

impl DeviceType {
    /// The fixed wire string of each kind.
    pub open spec fn wire(self) -> Seq<char> {
        match self {
            DeviceType::SmartBulb => "smart_bulb"@,
            DeviceType::SmartSwitch => "smart_switch"@,
            DeviceType::Sensor => "sensor"@,
            DeviceType::SecurityHardwired => "security_hardwired"@,
            DeviceType::SecurityWiFi => "security_wifi"@,
            DeviceType::Unknown => "unknown"@,
        }
    }

    /// The kind a wire string names; any string outside the table is `Unknown`.
    pub open spec fn from_wire_spec(s: Seq<char>) -> DeviceType {
        if s == "smart_bulb"@ {
            DeviceType::SmartBulb
        } else if s == "smart_switch"@ {
            DeviceType::SmartSwitch
        } else if s == "sensor"@ {
            DeviceType::Sensor
        } else if s == "security_hardwired"@ {
            DeviceType::SecurityHardwired
        } else if s == "security_wifi"@ {
            DeviceType::SecurityWiFi
        } else {
            DeviceType::Unknown
        }
    }

    /// Decoding the wire string of a kind gives that kind back.
    pub proof fn lemma_wire_round_trip(self)
        ensures
            Self::from_wire_spec(self.wire()) == self,
    {
        lemma_kind_wire_lengths();
    }

    /// The wire string of this kind.
    pub fn to_wire(&self) -> (r: String)
        ensures
            r@ == self.wire(),
    {
        match self {
            DeviceType::SmartBulb => String::from_str("smart_bulb"),
            DeviceType::SmartSwitch => String::from_str("smart_switch"),
            DeviceType::Sensor => String::from_str("sensor"),
            DeviceType::SecurityHardwired => String::from_str("security_hardwired"),
            DeviceType::SecurityWiFi => String::from_str("security_wifi"),
            DeviceType::Unknown => String::from_str("unknown"),
        }
    }

    /// The kind that `s` names, `Unknown` when it names none.
    pub fn from_wire(s: &str) -> (r: DeviceType)
        ensures
            r == Self::from_wire_spec(s@),
    {
        if same_text(s, "smart_bulb") {
            DeviceType::SmartBulb
        } else if same_text(s, "smart_switch") {
            DeviceType::SmartSwitch
        } else if same_text(s, "sensor") {
            DeviceType::Sensor
        } else if same_text(s, "security_hardwired") {
            DeviceType::SecurityHardwired
        } else if same_text(s, "security_wifi") {
            DeviceType::SecurityWiFi
        } else {
            DeviceType::Unknown
        }
    }
}

/// The lengths of the states' wire strings, which tell them apart.
proof fn lemma_status_wire_lengths()
    ensures
        "on"@.len() == 2,
        "off"@.len() == 3,
        "unknown"@.len() == 7,
{
    reveal_strlit("on");
    reveal_strlit("off");
    reveal_strlit("unknown");
}

impl DeviceStatus {
    /// The fixed wire string of each state.
    pub open spec fn wire(self) -> Seq<char> {
        match self {
            DeviceStatus::On => "on"@,
            DeviceStatus::Off => "off"@,
            DeviceStatus::Unknown => "unknown"@,
        }
    }

    /// The state a wire string names; any string outside the table is `Unknown`.
    pub open spec fn from_wire_spec(s: Seq<char>) -> DeviceStatus {
        if s == "on"@ {
            DeviceStatus::On
        } else if s == "off"@ {
            DeviceStatus::Off
        } else {
            DeviceStatus::Unknown
        }
    }

    /// Decoding the wire string of a state gives that state back.
    pub proof fn lemma_wire_round_trip(self)
        ensures
            Self::from_wire_spec(self.wire()) == self,
    {
        lemma_status_wire_lengths();
    }

    /// The wire string of this state.
    pub fn to_wire(&self) -> (r: String)
        ensures
            r@ == self.wire(),
    {
        match self {
            DeviceStatus::On => String::from_str("on"),
            DeviceStatus::Off => String::from_str("off"),
            DeviceStatus::Unknown => String::from_str("unknown"),
        }
    }

    /// The state that `s` names, `Unknown` when it names none.
    pub fn from_wire(s: &str) -> (r: DeviceStatus)
        ensures
            r == Self::from_wire_spec(s@),
    {
        if same_text(s, "on") {
            DeviceStatus::On
        } else if same_text(s, "off") {
            DeviceStatus::Off
        } else {
            DeviceStatus::Unknown
        }
    }
}

/// One device as both sides of the boundary see it.
#[derive(Debug, Clone, PartialEq)]
pub struct DeviceContract {
    pub name: String,
    pub device_type: DeviceType,
    pub status: DeviceStatus,
}

pub struct DeviceContractView {
    pub name: Seq<char>,
    pub device_type: DeviceType,
    pub status: DeviceStatus,
}

impl View for DeviceContract {
    type V = DeviceContractView;

    open spec fn view(&self) -> DeviceContractView {
        DeviceContractView { name: self.name@, device_type: self.device_type, status: self.status }
    }
}

/// The lengths of a device's keys, which tell them apart.
proof fn lemma_device_keys()
    ensures
        "name"@.len() == 4,
        "device_type"@.len() == 11,
        "status"@.len() == 6,
{
    reveal_strlit("name");
    reveal_strlit("device_type");
    reveal_strlit("status");
}

impl DeviceContractView {
    /// The JSON object of a device: its name and the wire strings of its
    /// kind and state.
    pub open spec fn json_of(self) -> JsonModel {
        JsonModel::Obj(
            no_entries().insert("name"@, JsonModel::Str(self.name)).insert(
                "device_type"@,
                JsonModel::Str(self.device_type.wire()),
            ).insert("status"@, JsonModel::Str(self.status.wire())),
        )
    }

    /// The device a JSON value describes, if it has the three string fields;
    /// other fields are ignored.
    pub open spec fn from_json(m: JsonModel) -> Option<DeviceContractView> {
        match (str_field(m, "name"@), str_field(m, "device_type"@), str_field(m, "status"@)) {
            (Some(n), Some(t), Some(s)) => Some(
                DeviceContractView {
                    name: n,
                    device_type: DeviceType::from_wire_spec(t),
                    status: DeviceStatus::from_wire_spec(s),
                },
            ),
            _ => None,
        }
    }

    /// Decoding the text that `encode` makes of a device gives the same device.
    pub proof fn lemma_round_trip(self)
        ensures
            Self::from_json(self.json_of()) == Some(self),
            forall|b: Seq<u8>|
                json_parsed(b) == Some(self.json_of()) ==> #[trigger] decode_result(
                    b,
                    device_decoder(),
                ) == Ok::<DeviceContractView, DecodeError>(self),
    {
        lemma_device_keys();
        self.device_type.lemma_wire_round_trip();
        self.status.lemma_wire_round_trip();
        let back = Self::from_json(self.json_of()).unwrap();
        assert(back == self);
    }
}

pub open spec fn device_decoder() -> spec_fn(JsonModel) -> Option<DeviceContractView> {
    |m: JsonModel| DeviceContractView::from_json(m)
}

impl DeviceContract {
    pub fn new(name: &str, device_type: DeviceType, status: DeviceStatus) -> (r: Self)
        ensures
            r@ == (DeviceContractView { name: name@, device_type, status }),
    {
        DeviceContract { name: name.to_owned(), device_type, status }
    }

    /// The JSON value of this device.
    pub fn to_json_value(&self) -> (r: serde_json::Value)
        ensures
            json_model(r) == self@.json_of(),
    {
        let mut m = json_map_new();
        put_str(&mut m, "name", &self.name);
        put_str(&mut m, "device_type", &self.device_type.to_wire());
        put_str(&mut m, "status", &self.status.to_wire());
        json_object(m)
    }

    /// The device a JSON value describes.
    pub fn from_json_value(v: &serde_json::Value) -> (r: Option<Self>)
        ensures
            match r {
                Some(c) => DeviceContractView::from_json(json_model(*v)) == Some(c@),
                None => DeviceContractView::from_json(json_model(*v)) is None,
            },
    {
        let name = read_str(v, "name");
        let device_type = read_str(v, "device_type");
        let status = read_str(v, "status");
        match (name, device_type, status) {
            (Some(n), Some(t), Some(s)) => Some(
                DeviceContract {
                    name: n,
                    device_type: DeviceType::from_wire(t.as_str()),
                    status: DeviceStatus::from_wire(s.as_str()),
                },
            ),
            _ => None,
        }
    }

    /// This device as UTF-8 JSON text.
    pub fn encode(&self) -> (r: Vec<u8>)
        ensures
            json_parsed(r@) == Some(self@.json_of()),
    {
        let v = self.to_json_value();
        proof {
            if let JsonModel::Obj(o) = self@.json_of() {
                assert forall|k: Seq<char>| o.contains_key(k) implies nesting_within(
                    #[trigger] o[k],
                    (parse_depth_limit() - 1) as nat,
                ) by {}
            }
        }
        json_to_bytes(&v)
    }

    /// The device that UTF-8 JSON text describes.
    pub fn decode(bytes: &[u8]) -> (r: Result<Self, DecodeError>)
        ensures
            result_view(r) == decode_result(bytes@, device_decoder()),
    {
        match json_parse(bytes) {
            Some(v) => match Self::from_json_value(&v) {
                Some(c) => Ok(c),
                None => Err(DecodeError::MalformedPayload),
            },
            None => Err(DecodeError::MalformedPayload),
        }
    }
}

} // verus!
