use crate::contracts::{decode_result, result_view, DecodeError};
use crate::json::{
    bool_field, field, json_bool, json_copy, json_get, json_int, json_map_insert, json_map_new,
    json_model, json_object, json_parse, json_parsed, json_to_bytes, nesting_within,
    no_entries, opt_i32_field, opt_str_field, opt_string_view, parse_depth_limit, put_opt,
    put_opt_str, put_opt_str_entry, put_str, read_bool, read_opt_i32, read_opt_str, read_str,
    str_field, JsonModel, all_decode, json_array, json_as_str, json_string, models_of, str_of,
};
use vstd::prelude::*;

verus! {

/// One UI-exposed actuator or reading. `min` and `max` bound a numeric
/// `value`; this layer carries them without enforcing them.
#[derive(Debug, Clone, PartialEq)]
pub struct Control {
    pub control_type: String,
    pub label: String,
    pub value: Option<serde_json::Value>,
    pub min: Option<i32>,
    pub max: Option<i32>,
}

pub struct ControlView {
    pub control_type: Seq<char>,
    pub label: Seq<char>,
    pub value: Option<JsonModel>,
    pub min: Option<i32>,
    pub max: Option<i32>,
}

impl View for Control {
    type V = ControlView;

    open spec fn view(&self) -> ControlView {
        ControlView {
            control_type: self.control_type@,
            label: self.label@,
            value: match self.value {
                Some(v) => Some(json_model(v)),
                None => None,
            },
            min: self.min,
            max: self.max,
        }
    }
}

pub open spec fn int_json(n: Option<i32>) -> Option<JsonModel> {
    match n {
        Some(x) => Some(JsonModel::Int(x as int)),
        None => None,
    }
}

/// Facts about a control's keys that tell them apart.
proof fn lemma_control_keys()
    ensures
        "control_type"@.len() == 12,
        "label"@.len() == 5,
        "value"@.len() == 5,
        "label"@[0] == 'l',
        "value"@[0] == 'v',
        "min"@.len() == 3,
        "max"@.len() == 3,
        "min"@[1] == 'i',
        "max"@[1] == 'a',
{
    reveal_strlit("control_type");
    reveal_strlit("label");
    reveal_strlit("value");
    reveal_strlit("min");
    reveal_strlit("max");
}

impl ControlView {
    /// The JSON object of a control; absent optional fields are left out.
    pub open spec fn json_of(self) -> JsonModel {
        JsonModel::Obj(
            put_opt(
                put_opt(
                    put_opt(
                        no_entries().insert("control_type"@, JsonModel::Str(self.control_type)).insert(
                            "label"@,
                            JsonModel::Str(self.label),
                        ),
                        "value"@,
                        self.value,
                    ),
                    "min"@,
                    int_json(self.min),
                ),
                "max"@,
                int_json(self.max),
            ),
        )
    }

    /// The control a JSON value describes. A present `value`, null included,
    /// is kept as it stands; null `min` or `max` counts as absent.
    pub open spec fn from_json(m: JsonModel) -> Option<ControlView> {
        match (
            str_field(m, "control_type"@),
            str_field(m, "label"@),
            opt_i32_field(m, "min"@),
            opt_i32_field(m, "max"@),
        ) {
            (Some(t), Some(l), Some(lo), Some(hi)) => Some(
                ControlView {
                    control_type: t,
                    label: l,
                    value: field(m, "value"@),
                    min: lo,
                    max: hi,
                },
            ),
            _ => None,
        }
    }

    /// Decoding the JSON object of a control gives the same control.
    pub proof fn lemma_json_round_trip(self)
        ensures
            Self::from_json(self.json_of()) == Some(self),
    {
        lemma_control_keys();
        let back = Self::from_json(self.json_of()).unwrap();
        assert(back == self);
    }
}

/// What a scan learned of one Bluetooth device.
#[derive(Debug, Clone, PartialEq)]
pub struct BluetoothDeviceMetadata {
    pub name: String,
    pub address: String,
    pub device_type: String,
    pub driver_installed: bool,
    pub driver_version: Option<String>,
    pub last_seen: Option<String>,
}

pub struct BluetoothDeviceMetadataView {
    pub name: Seq<char>,
    pub address: Seq<char>,
    pub device_type: Seq<char>,
    pub driver_installed: bool,
    pub driver_version: Option<Seq<char>>,
    pub last_seen: Option<Seq<char>>,
}

impl View for BluetoothDeviceMetadata {
    type V = BluetoothDeviceMetadataView;

    open spec fn view(&self) -> BluetoothDeviceMetadataView {
        BluetoothDeviceMetadataView {
            name: self.name@,
            address: self.address@,
            device_type: self.device_type@,
            driver_installed: self.driver_installed,
            driver_version: opt_string_view(self.driver_version),
            last_seen: opt_string_view(self.last_seen),
        }
    }
}

/// The lengths of a device record's keys, which tell them apart.
proof fn lemma_bluetooth_keys()
    ensures
        "name"@.len() == 4,
        "address"@.len() == 7,
        "device_type"@.len() == 11,
        "driver_installed"@.len() == 16,
        "driver_version"@.len() == 14,
        "last_seen"@.len() == 9,
{
    reveal_strlit("name");
    reveal_strlit("address");
    reveal_strlit("device_type");
    reveal_strlit("driver_installed");
    reveal_strlit("driver_version");
    reveal_strlit("last_seen");
}

impl BluetoothDeviceMetadataView {
    /// The JSON object of a device record; absent optional fields are left out.
    pub open spec fn json_of(self) -> JsonModel {
        JsonModel::Obj(
            put_opt_str(
                put_opt_str(
                    no_entries().insert("name"@, JsonModel::Str(self.name)).insert(
                        "address"@,
                        JsonModel::Str(self.address),
                    ).insert("device_type"@, JsonModel::Str(self.device_type)).insert(
                        "driver_installed"@,
                        JsonModel::Bool(self.driver_installed),
                    ),
                    "driver_version"@,
                    self.driver_version,
                ),
                "last_seen"@,
                self.last_seen,
            ),
        )
    }

    /// The device record a JSON value describes.
    pub open spec fn from_json(m: JsonModel) -> Option<BluetoothDeviceMetadataView> {
        match (
            str_field(m, "name"@),
            str_field(m, "address"@),
            str_field(m, "device_type"@),
            bool_field(m, "driver_installed"@),
            opt_str_field(m, "driver_version"@),
            opt_str_field(m, "last_seen"@),
        ) {
            (Some(n), Some(a), Some(t), Some(d), Some(v), Some(l)) => Some(
                BluetoothDeviceMetadataView {
                    name: n,
                    address: a,
                    device_type: t,
                    driver_installed: d,
                    driver_version: v,
                    last_seen: l,
                },
            ),
            _ => None,
        }
    }

    /// Decoding the JSON object of a device record gives the same record.
    pub proof fn lemma_json_round_trip(self)
        ensures
            Self::from_json(self.json_of()) == Some(self),
    {
        lemma_bluetooth_keys();
        let back = Self::from_json(self.json_of()).unwrap();
        assert(back == self);
    }
}

impl Control {
    /// The JSON value of this control.
    pub fn to_json_value(&self) -> (r: serde_json::Value)
        ensures
            json_model(r) == self@.json_of(),
    {
        let mut m = json_map_new();
        put_str(&mut m, "control_type", &self.control_type);
        put_str(&mut m, "label", &self.label);
        match &self.value {
            Some(v) => json_map_insert(&mut m, "value".to_owned(), json_copy(v)),
            None => {},
        }
        match self.min {
            Some(n) => json_map_insert(&mut m, "min".to_owned(), json_int(n as i64)),
            None => {},
        }
        match self.max {
            Some(n) => json_map_insert(&mut m, "max".to_owned(), json_int(n as i64)),
            None => {},
        }
        json_object(m)
    }

    /// The control a JSON value describes.
    pub fn from_json_value(v: &serde_json::Value) -> (r: Option<Self>)
        ensures
            match r {
                Some(c) => ControlView::from_json(json_model(*v)) == Some(c@),
                None => ControlView::from_json(json_model(*v)) is None,
            },
    {
        let control_type = read_str(v, "control_type");
        let label = read_str(v, "label");
        let min = read_opt_i32(v, "min");
        let max = read_opt_i32(v, "max");
        let value = match json_get(v, "value") {
            Some(x) => Some(json_copy(x)),
            None => None,
        };
        match (control_type, label, min, max) {
            (Some(t), Some(l), Some(lo), Some(hi)) => Some(
                Control { control_type: t, label: l, value, min: lo, max: hi },
            ),
            _ => None,
        }
    }
}

impl BluetoothDeviceMetadata {
    /// The JSON value of this device record.
    pub fn to_json_value(&self) -> (r: serde_json::Value)
        ensures
            json_model(r) == self@.json_of(),
    {
        let mut m = json_map_new();
        put_str(&mut m, "name", &self.name);
        put_str(&mut m, "address", &self.address);
        put_str(&mut m, "device_type", &self.device_type);
        json_map_insert(&mut m, "driver_installed".to_owned(), json_bool(self.driver_installed));
        put_opt_str_entry(&mut m, "driver_version", &self.driver_version);
        put_opt_str_entry(&mut m, "last_seen", &self.last_seen);
        json_object(m)
    }

    /// The device record a JSON value describes.
    pub fn from_json_value(v: &serde_json::Value) -> (r: Option<Self>)
        ensures
            match r {
                Some(c) => BluetoothDeviceMetadataView::from_json(json_model(*v)) == Some(c@),
                None => BluetoothDeviceMetadataView::from_json(json_model(*v)) is None,
            },
    {
        let name = read_str(v, "name");
        let address = read_str(v, "address");
        let device_type = read_str(v, "device_type");
        let driver_installed = read_bool(v, "driver_installed");
        let driver_version = read_opt_str(v, "driver_version");
        let last_seen = read_opt_str(v, "last_seen");
        match (name, address, device_type, driver_installed, driver_version, last_seen) {
            (Some(n), Some(a), Some(t), Some(d), Some(dv), Some(l)) => Some(
                BluetoothDeviceMetadata {
                    name: n,
                    address: a,
                    device_type: t,
                    driver_installed: d,
                    driver_version: dv,
                    last_seen: l,
                },
            ),
            _ => None,
        }
    }
}

} // verus!

verus! {

pub open spec fn control_views(v: Seq<Control>) -> Seq<ControlView> {
    v.map_values(|c: Control| c@)
}

pub open spec fn bluetooth_views(v: Seq<BluetoothDeviceMetadata>) -> Seq<
    BluetoothDeviceMetadataView,
> {
    v.map_values(|c: BluetoothDeviceMetadata| c@)
}

pub open spec fn string_views(v: Seq<String>) -> Seq<Seq<char>> {
    v.map_values(|s: String| s@)
}

pub open spec fn controls_json(s: Seq<ControlView>) -> JsonModel {
    JsonModel::Arr(s.map_values(|c: ControlView| c.json_of()))
}

pub open spec fn bluetooth_json(s: Seq<BluetoothDeviceMetadataView>) -> JsonModel {
    JsonModel::Arr(s.map_values(|c: BluetoothDeviceMetadataView| c.json_of()))
}

pub open spec fn roles_json(s: Seq<Seq<char>>) -> JsonModel {
    JsonModel::Arr(s.map_values(|r: Seq<char>| JsonModel::Str(r)))
}

pub open spec fn opt_json<T>(o: Option<T>, f: spec_fn(T) -> JsonModel) -> Option<JsonModel> {
    match o {
        Some(x) => Some(f(x)),
        None => None,
    }
}

pub open spec fn control_decoder() -> spec_fn(JsonModel) -> Option<ControlView> {
    |m: JsonModel| ControlView::from_json(m)
}

pub open spec fn bluetooth_decoder() -> spec_fn(JsonModel) -> Option<BluetoothDeviceMetadataView> {
    |m: JsonModel| BluetoothDeviceMetadataView::from_json(m)
}

pub open spec fn role_decoder() -> spec_fn(JsonModel) -> Option<Seq<char>> {
    |m: JsonModel| str_of(m)
}

/// Decoding the JSON array of controls gives the same controls.
pub proof fn lemma_controls_round_trip(s: Seq<ControlView>)
    ensures
        all_decode(s.map_values(|c: ControlView| c.json_of()), control_decoder()) == Some(s),
{
    let ms = s.map_values(|c: ControlView| c.json_of());
    assert forall|i: int| 0 <= i < ms.len() implies (#[trigger] control_decoder()(ms[i])) is Some
        && control_decoder()(ms[i]).unwrap() == s[i] by {
        s[i].lemma_json_round_trip();
    }
    assert(ms.map_values(|m: JsonModel| control_decoder()(m).unwrap()) =~= s);
}

/// Decoding the JSON array of device records gives the same records.
pub proof fn lemma_bluetooth_round_trip(s: Seq<BluetoothDeviceMetadataView>)
    ensures
        all_decode(
            s.map_values(|c: BluetoothDeviceMetadataView| c.json_of()),
            bluetooth_decoder(),
        ) == Some(s),
{
    let ms = s.map_values(|c: BluetoothDeviceMetadataView| c.json_of());
    assert forall|i: int| 0 <= i < ms.len() implies (#[trigger] bluetooth_decoder()(ms[i])) is Some
        && bluetooth_decoder()(ms[i]).unwrap() == s[i] by {
        s[i].lemma_json_round_trip();
    }
    assert(ms.map_values(|m: JsonModel| bluetooth_decoder()(m).unwrap()) =~= s);
}

/// Decoding the JSON array of role names gives the same names.
pub proof fn lemma_roles_round_trip(s: Seq<Seq<char>>)
    ensures
        all_decode(s.map_values(|r: Seq<char>| JsonModel::Str(r)), role_decoder()) == Some(s),
{
    let ms = s.map_values(|r: Seq<char>| JsonModel::Str(r));
    assert forall|i: int| 0 <= i < ms.len() implies (#[trigger] role_decoder()(ms[i])) is Some
        && role_decoder()(ms[i]).unwrap() == s[i] by {}
    assert(ms.map_values(|m: JsonModel| role_decoder()(m).unwrap()) =~= s);
}

/// Encodes each control, in order.
pub(crate) fn controls_value(cs: &Vec<Control>) -> (r: serde_json::Value)
    ensures
        json_model(r) == controls_json(control_views(cs@)),
{
    let mut out: Vec<serde_json::Value> = Vec::new();
    let mut i: usize = 0;
    while i < cs.len()
        invariant
            i <= cs.len(),
            out@.len() == i,
            forall|j: int| 0 <= j < i ==> json_model(#[trigger] out@[j]) == cs@[j]@.json_of(),
        decreases cs.len() - i,
    {
        out.push(cs[i].to_json_value());
        i += 1;
    }
    assert(models_of(out@) =~= control_views(cs@).map_values(|c: ControlView| c.json_of()));
    json_array(out)
}

/// Encodes each device record, in order.
pub(crate) fn bluetooth_value(ds: &Vec<BluetoothDeviceMetadata>) -> (r: serde_json::Value)
    ensures
        json_model(r) == bluetooth_json(bluetooth_views(ds@)),
{
    let mut out: Vec<serde_json::Value> = Vec::new();
    let mut i: usize = 0;
    while i < ds.len()
        invariant
            i <= ds.len(),
            out@.len() == i,
            forall|j: int| 0 <= j < i ==> json_model(#[trigger] out@[j]) == ds@[j]@.json_of(),
        decreases ds.len() - i,
    {
        out.push(ds[i].to_json_value());
        i += 1;
    }
    assert(models_of(out@) =~= bluetooth_views(ds@).map_values(
        |c: BluetoothDeviceMetadataView| c.json_of(),
    ));
    json_array(out)
}

/// Encodes each role name, in order.
pub(crate) fn roles_value(rs: &Vec<String>) -> (r: serde_json::Value)
    ensures
        json_model(r) == roles_json(string_views(rs@)),
{
    let mut out: Vec<serde_json::Value> = Vec::new();
    let mut i: usize = 0;
    while i < rs.len()
        invariant
            i <= rs.len(),
            out@.len() == i,
            forall|j: int| 0 <= j < i ==> json_model(#[trigger] out@[j]) == JsonModel::Str(rs@[j]@),
        decreases rs.len() - i,
    {
        out.push(json_string(rs[i].clone()));
        i += 1;
    }
    assert(models_of(out@) =~= string_views(rs@).map_values(|r: Seq<char>| JsonModel::Str(r)));
    json_array(out)
}

/// Decodes each item as a control; `None` when any item fails.
pub(crate) fn decode_controls(items: &Vec<serde_json::Value>) -> (r: Option<Vec<Control>>)
    ensures
        match r {
            Some(v) => all_decode(models_of(items@), control_decoder()) == Some(control_views(v@)),
            None => all_decode(models_of(items@), control_decoder()) is None,
        },
{
    let mut out: Vec<Control> = Vec::new();
    let mut i: usize = 0;
    while i < items.len()
        invariant
            i <= items.len(),
            out@.len() == i,
            forall|j: int|
                0 <= j < i ==> ControlView::from_json(json_model(items@[j])) == Some(
                    #[trigger] out@[j]@,
                ),
        decreases items.len() - i,
    {
        match Control::from_json_value(&items[i]) {
            Some(c) => out.push(c),
            None => {
                proof {
                    assert(control_decoder()(models_of(items@)[i as int]) is None);
                }
                return None;
            },
        }
        i += 1;
    }
    let ghost ms = models_of(items@);
    assert forall|j: int| 0 <= j < ms.len() implies (#[trigger] control_decoder()(ms[j])) is Some
        && control_decoder()(ms[j]).unwrap() == out@[j]@ by {
        assert(ms[j] == json_model(items@[j]));
        assert(ControlView::from_json(json_model(items@[j])) == Some(out@[j]@));
    }
    assert(ms.map_values(|m: JsonModel| control_decoder()(m).unwrap()) =~= control_views(out@));
    Some(out)
}

/// Decodes each item as a device record; `None` when any item fails.
pub(crate) fn decode_bluetooth(items: &Vec<serde_json::Value>) -> (r: Option<Vec<BluetoothDeviceMetadata>>)
    ensures
        match r {
            Some(v) => all_decode(models_of(items@), bluetooth_decoder()) == Some(
                bluetooth_views(v@),
            ),
            None => all_decode(models_of(items@), bluetooth_decoder()) is None,
        },
{
    let mut out: Vec<BluetoothDeviceMetadata> = Vec::new();
    let mut i: usize = 0;
    while i < items.len()
        invariant
            i <= items.len(),
            out@.len() == i,
            forall|j: int|
                0 <= j < i ==> BluetoothDeviceMetadataView::from_json(json_model(items@[j])) == Some(
                    #[trigger] out@[j]@,
                ),
        decreases items.len() - i,
    {
        match BluetoothDeviceMetadata::from_json_value(&items[i]) {
            Some(c) => out.push(c),
            None => {
                proof {
                    assert(bluetooth_decoder()(models_of(items@)[i as int]) is None);
                }
                return None;
            },
        }
        i += 1;
    }
    let ghost ms = models_of(items@);
    assert forall|j: int| 0 <= j < ms.len() implies (#[trigger] bluetooth_decoder()(ms[j])) is Some
        && bluetooth_decoder()(ms[j]).unwrap() == out@[j]@ by {
        assert(ms[j] == json_model(items@[j]));
        assert(BluetoothDeviceMetadataView::from_json(json_model(items@[j])) == Some(out@[j]@));
    }
    assert(ms.map_values(|m: JsonModel| bluetooth_decoder()(m).unwrap()) =~= bluetooth_views(
        out@,
    ));
    Some(out)
}

/// Decodes each item as a role name; `None` when any item is not a string.
pub(crate) fn decode_roles(items: &Vec<serde_json::Value>) -> (r: Option<Vec<String>>)
    ensures
        match r {
            Some(v) => all_decode(models_of(items@), role_decoder()) == Some(string_views(v@)),
            None => all_decode(models_of(items@), role_decoder()) is None,
        },
{
    let mut out: Vec<String> = Vec::new();
    let mut i: usize = 0;
    while i < items.len()
        invariant
            i <= items.len(),
            out@.len() == i,
            forall|j: int|
                0 <= j < i ==> str_of(json_model(items@[j])) == Some((#[trigger] out@[j])@),
        decreases items.len() - i,
    {
        match json_as_str(&items[i]) {
            Some(s) => out.push(s.to_owned()),
            None => {
                proof {
                    assert(role_decoder()(models_of(items@)[i as int]) is None);
                }
                return None;
            },
        }
        i += 1;
    }
    let ghost ms = models_of(items@);
    assert forall|j: int| 0 <= j < ms.len() implies (#[trigger] role_decoder()(ms[j])) is Some
        && role_decoder()(ms[j]).unwrap() == out@[j]@ by {
        assert(ms[j] == json_model(items@[j]));
        assert(str_of(json_model(items@[j])) == Some(out@[j]@));
    }
    assert(ms.map_values(|m: JsonModel| role_decoder()(m).unwrap()) =~= string_views(out@));
    Some(out)
}

} // verus!

verus! {

impl Control {
    /// This control as UTF-8 JSON text. Unless its JSON nests deeper than
    /// serde_json parses, the text parses back to exactly its JSON object.
    pub fn encode(&self) -> (r: Vec<u8>)
        ensures
            nesting_within(self@.json_of(), parse_depth_limit()) ==> json_parsed(r@) == Some(
                self@.json_of(),
            ),
    {
        let v = self.to_json_value();
        json_to_bytes(&v)
    }

    /// The control that UTF-8 JSON text describes; fields it does not know
    /// are ignored.
    pub fn decode(bytes: &[u8]) -> (r: Result<Self, DecodeError>)
        ensures
            result_view(r) == decode_result(bytes@, control_decoder()),
    {
        match json_parse(bytes) {
            Some(v) => match Self::from_json_value(&v) {
                Some(c) => Ok(c),
                None => Err(DecodeError::MalformedPayload),
            },
            None => Err(DecodeError::MalformedPayload),
        }
    }
}

impl ControlView {
    /// Decoding the text that `encode` makes of a control gives the same control.
    pub proof fn lemma_round_trip(self)
        ensures
            forall|b: Seq<u8>|
                json_parsed(b) == Some(self.json_of()) ==> #[trigger] decode_result(b, control_decoder())
                    == Ok::<ControlView, DecodeError>(self),
    {
        self.lemma_json_round_trip();
    }
}

} // verus!

verus! {

impl BluetoothDeviceMetadata {
    /// This device record as UTF-8 JSON text. Unless its JSON nests deeper than
    /// serde_json parses, the text parses back to exactly its JSON object.
    pub fn encode(&self) -> (r: Vec<u8>)
        ensures
            nesting_within(self@.json_of(), parse_depth_limit()) ==> json_parsed(r@) == Some(
                self@.json_of(),
            ),
    {
        let v = self.to_json_value();
        json_to_bytes(&v)
    }

    /// The device record that UTF-8 JSON text describes; fields it does not know
    /// are ignored.
    pub fn decode(bytes: &[u8]) -> (r: Result<Self, DecodeError>)
        ensures
            result_view(r) == decode_result(bytes@, bluetooth_decoder()),
    {
        match json_parse(bytes) {
            Some(v) => match Self::from_json_value(&v) {
                Some(c) => Ok(c),
                None => Err(DecodeError::MalformedPayload),
            },
            None => Err(DecodeError::MalformedPayload),
        }
    }
}

impl BluetoothDeviceMetadataView {
    /// Decoding the text that `encode` makes of a device record gives the same device record.
    pub proof fn lemma_round_trip(self)
        ensures
            forall|b: Seq<u8>|
                json_parsed(b) == Some(self.json_of()) ==> #[trigger] decode_result(b, bluetooth_decoder())
                    == Ok::<BluetoothDeviceMetadataView, DecodeError>(self),
    {
        self.lemma_json_round_trip();
    }
}

} // verus!
