use crate::contracts::{decode_result, result_view, DecodeError};
use crate::controls::{
    bluetooth_decoder, bluetooth_json, bluetooth_value, bluetooth_views, control_decoder,
    controls_json, controls_value, control_views, decode_bluetooth, decode_controls, decode_roles,
    lemma_bluetooth_round_trip, lemma_controls_round_trip, lemma_roles_round_trip, opt_json,
    role_decoder, roles_json, roles_value, string_views, BluetoothDeviceMetadata,
    BluetoothDeviceMetadataView, Control, ControlView,
};
use crate::json::{
    all_decode, array_field, bool_field, json_array, json_bool, json_map_insert, json_map_new,
    json_model, json_object, json_parse, json_parsed, json_to_bytes, models_of, nesting_within,
    no_entries, opt_all_decode, opt_array_field, parse_depth_limit, put_opt, put_str, read_array,
    read_bool, read_opt_array, read_str, str_field, JsonModel,
};
use vstd::prelude::*;

verus! {

/// One feature of a dashboard, with what it exposes.
#[derive(Debug, Clone, PartialEq)]
pub struct FeatureContract {
    pub name: String,
    pub tier: String,
    pub enabled: bool,
    pub controls: Option<Vec<Control>>,
    pub ai_roles: Option<Vec<String>>,
    pub bluetooth_devices: Option<Vec<BluetoothDeviceMetadata>>,
}

pub struct FeatureContractView {
    pub name: Seq<char>,
    pub tier: Seq<char>,
    pub enabled: bool,
    pub controls: Option<Seq<ControlView>>,
    pub ai_roles: Option<Seq<Seq<char>>>,
    pub bluetooth_devices: Option<Seq<BluetoothDeviceMetadataView>>,
}

impl View for FeatureContract {
    type V = FeatureContractView;

    open spec fn view(&self) -> FeatureContractView {
        FeatureContractView {
            name: self.name@,
            tier: self.tier@,
            enabled: self.enabled,
            controls: match self.controls {
                Some(v) => Some(control_views(v@)),
                None => None,
            },
            ai_roles: match self.ai_roles {
                Some(v) => Some(string_views(v@)),
                None => None,
            },
            bluetooth_devices: match self.bluetooth_devices {
                Some(v) => Some(bluetooth_views(v@)),
                None => None,
            },
        }
    }
}

pub open spec fn feature_decoder() -> spec_fn(JsonModel) -> Option<FeatureContractView> {
    |m: JsonModel| FeatureContractView::from_json(m)
}

/// Facts about a feature's keys that tell them apart.
proof fn lemma_feature_keys()
    ensures
        "name"@.len() == 4,
        "tier"@.len() == 4,
        "name"@[0] == 'n',
        "tier"@[0] == 't',
        "enabled"@.len() == 7,
        "controls"@.len() == 8,
        "ai_roles"@.len() == 8,
        "controls"@[0] == 'c',
        "ai_roles"@[0] == 'a',
        "bluetooth_devices"@.len() == 17,
{
    reveal_strlit("name");
    reveal_strlit("tier");
    reveal_strlit("enabled");
    reveal_strlit("controls");
    reveal_strlit("ai_roles");
    reveal_strlit("bluetooth_devices");
}

impl FeatureContractView {
    /// The JSON object of a feature; an absent list is left out, not
    /// written as null or as an empty array.
    pub open spec fn json_of(self) -> JsonModel {
        JsonModel::Obj(
            put_opt(
                put_opt(
                    put_opt(
                        no_entries().insert("name"@, JsonModel::Str(self.name)).insert(
                            "tier"@,
                            JsonModel::Str(self.tier),
                        ).insert("enabled"@, JsonModel::Bool(self.enabled)),
                        "controls"@,
                        opt_json(self.controls, |s: Seq<ControlView>| controls_json(s)),
                    ),
                    "ai_roles"@,
                    opt_json(self.ai_roles, |s: Seq<Seq<char>>| roles_json(s)),
                ),
                "bluetooth_devices"@,
                opt_json(
                    self.bluetooth_devices,
                    |s: Seq<BluetoothDeviceMetadataView>| bluetooth_json(s),
                ),
            ),
        )
    }

    /// The feature a JSON value describes. A list that is absent or null
    /// decodes as absent; a list with one malformed item fails the whole.
    pub open spec fn from_json(m: JsonModel) -> Option<FeatureContractView> {
        match (
            str_field(m, "name"@),
            str_field(m, "tier"@),
            bool_field(m, "enabled"@),
            opt_all_decode(opt_array_field(m, "controls"@), control_decoder()),
            opt_all_decode(opt_array_field(m, "ai_roles"@), role_decoder()),
            opt_all_decode(opt_array_field(m, "bluetooth_devices"@), bluetooth_decoder()),
        ) {
            (Some(n), Some(t), Some(e), Some(c), Some(r), Some(b)) => Some(
                FeatureContractView {
                    name: n,
                    tier: t,
                    enabled: e,
                    controls: c,
                    ai_roles: r,
                    bluetooth_devices: b,
                },
            ),
            _ => None,
        }
    }

    /// Decoding the JSON object of a feature gives the same feature.
    pub proof fn lemma_json_round_trip(self)
        ensures
            Self::from_json(self.json_of()) == Some(self),
    {
        lemma_feature_keys();
        if let Some(s) = self.controls {
            lemma_controls_round_trip(s);
        }
        if let Some(s) = self.ai_roles {
            lemma_roles_round_trip(s);
        }
        if let Some(s) = self.bluetooth_devices {
            lemma_bluetooth_round_trip(s);
        }
        let back = Self::from_json(self.json_of()).unwrap();
        assert(back == self);
    }

    /// A feature without controls is written with no `controls` key, and
    /// an object with no such key decodes to a feature without controls.
    pub proof fn lemma_absent_controls_omitted(self)
        requires
            self.controls is None,
        ensures
            crate::json::field(self.json_of(), "controls"@) is None,
            forall|m: JsonModel|
                crate::json::field(m, "controls"@) is None && #[trigger] Self::from_json(m) is Some
                    ==> Self::from_json(m).unwrap().controls is None,
    {
        lemma_feature_keys();
    }
}

} // verus!

verus! {

impl FeatureContract {
    /// The JSON value of this feature.
    pub fn to_json_value(&self) -> (r: serde_json::Value)
        ensures
            json_model(r) == self@.json_of(),
    {
        let mut m = json_map_new();
        put_str(&mut m, "name", &self.name);
        put_str(&mut m, "tier", &self.tier);
        json_map_insert(&mut m, "enabled".to_owned(), json_bool(self.enabled));
        match &self.controls {
            Some(cs) => json_map_insert(&mut m, "controls".to_owned(), controls_value(cs)),
            None => {},
        }
        match &self.ai_roles {
            Some(rs) => json_map_insert(&mut m, "ai_roles".to_owned(), roles_value(rs)),
            None => {},
        }
        match &self.bluetooth_devices {
            Some(ds) => json_map_insert(&mut m, "bluetooth_devices".to_owned(), bluetooth_value(ds)),
            None => {},
        }
        json_object(m)
    }

    /// The feature a JSON value describes.
    pub fn from_json_value(v: &serde_json::Value) -> (r: Option<Self>)
        ensures
            match r {
                Some(c) => FeatureContractView::from_json(json_model(*v)) == Some(c@),
                None => FeatureContractView::from_json(json_model(*v)) is None,
            },
    {
        let name = read_str(v, "name");
        let tier = read_str(v, "tier");
        let enabled = read_bool(v, "enabled");
        let controls = match read_opt_array(v, "controls") {
            None => None,
            Some(None) => Some(None),
            Some(Some(a)) => match decode_controls(a) {
                Some(cs) => Some(Some(cs)),
                None => None,
            },
        };
        let ai_roles = match read_opt_array(v, "ai_roles") {
            None => None,
            Some(None) => Some(None),
            Some(Some(a)) => match decode_roles(a) {
                Some(rs) => Some(Some(rs)),
                None => None,
            },
        };
        let bluetooth_devices = match read_opt_array(v, "bluetooth_devices") {
            None => None,
            Some(None) => Some(None),
            Some(Some(a)) => match decode_bluetooth(a) {
                Some(ds) => Some(Some(ds)),
                None => None,
            },
        };
        match (name, tier, enabled, controls, ai_roles, bluetooth_devices) {
            (Some(n), Some(t), Some(e), Some(c), Some(r), Some(b)) => Some(
                FeatureContract {
                    name: n,
                    tier: t,
                    enabled: e,
                    controls: c,
                    ai_roles: r,
                    bluetooth_devices: b,
                },
            ),
            _ => None,
        }
    }
}

} // verus!

verus! {

/// What a presentation layer is sent: the user's tier, the features it
/// owns by value, and the acting AI role.
#[derive(Debug, Clone, PartialEq)]
pub struct DashboardContract {
    pub user_tier: String,
    pub features: Vec<FeatureContract>,
    pub ai_role: String,
}

pub struct DashboardContractView {
    pub user_tier: Seq<char>,
    pub features: Seq<FeatureContractView>,
    pub ai_role: Seq<char>,
}

pub open spec fn feature_views(v: Seq<FeatureContract>) -> Seq<FeatureContractView> {
    v.map_values(|f: FeatureContract| f@)
}

pub open spec fn dashboard_decoder() -> spec_fn(JsonModel) -> Option<DashboardContractView> {
    |m: JsonModel| DashboardContractView::from_json(m)
}

pub open spec fn features_json(s: Seq<FeatureContractView>) -> JsonModel {
    JsonModel::Arr(s.map_values(|f: FeatureContractView| f.json_of()))
}

impl View for DashboardContract {
    type V = DashboardContractView;

    open spec fn view(&self) -> DashboardContractView {
        DashboardContractView {
            user_tier: self.user_tier@,
            features: feature_views(self.features@),
            ai_role: self.ai_role@,
        }
    }
}

/// Decoding the JSON array of features gives the same features.
pub proof fn lemma_features_round_trip(s: Seq<FeatureContractView>)
    ensures
        all_decode(s.map_values(|f: FeatureContractView| f.json_of()), feature_decoder()) == Some(s),
{
    let ms = s.map_values(|f: FeatureContractView| f.json_of());
    assert forall|i: int| 0 <= i < ms.len() implies (#[trigger] feature_decoder()(ms[i])) is Some
        && feature_decoder()(ms[i]).unwrap() == s[i] by {
        s[i].lemma_json_round_trip();
    }
    assert(ms.map_values(|m: JsonModel| feature_decoder()(m).unwrap()) =~= s);
}

/// The lengths of a dashboard's keys, which tell them apart.
proof fn lemma_dashboard_keys()
    ensures
        "user_tier"@.len() == 9,
        "features"@.len() == 8,
        "ai_role"@.len() == 7,
{
    reveal_strlit("user_tier");
    reveal_strlit("features");
    reveal_strlit("ai_role");
}

impl DashboardContractView {
    /// The JSON object of a dashboard.
    pub open spec fn json_of(self) -> JsonModel {
        JsonModel::Obj(
            no_entries().insert("user_tier"@, JsonModel::Str(self.user_tier)).insert(
                "features"@,
                features_json(self.features),
            ).insert("ai_role"@, JsonModel::Str(self.ai_role)),
        )
    }

    /// The dashboard a JSON value describes; one malformed feature fails
    /// the whole.
    pub open spec fn from_json(m: JsonModel) -> Option<DashboardContractView> {
        match (str_field(m, "user_tier"@), array_field(m, "features"@), str_field(m, "ai_role"@)) {
            (Some(u), Some(fs), Some(a)) => match all_decode(fs, feature_decoder()) {
                Some(features) => Some(
                    DashboardContractView { user_tier: u, features, ai_role: a },
                ),
                None => None,
            },
            _ => None,
        }
    }

    /// Decoding the JSON object of a dashboard gives the same dashboard.
    pub proof fn lemma_json_round_trip(self)
        ensures
            Self::from_json(self.json_of()) == Some(self),
    {
        lemma_dashboard_keys();
        lemma_features_round_trip(self.features);
        let back = Self::from_json(self.json_of()).unwrap();
        assert(back == self);
    }
}

/// Encodes each feature, in order.
fn features_value(fs: &Vec<FeatureContract>) -> (r: serde_json::Value)
    ensures
        json_model(r) == features_json(feature_views(fs@)),
{
    let mut out: Vec<serde_json::Value> = Vec::new();
    let mut i: usize = 0;
    while i < fs.len()
        invariant
            i <= fs.len(),
            out@.len() == i,
            forall|j: int| 0 <= j < i ==> json_model(#[trigger] out@[j]) == fs@[j]@.json_of(),
        decreases fs.len() - i,
    {
        out.push(fs[i].to_json_value());
        i += 1;
    }
    assert(models_of(out@) =~= feature_views(fs@).map_values(
        |f: FeatureContractView| f.json_of(),
    ));
    json_array(out)
}

/// Decodes each item as a feature; `None` when any item fails.
fn decode_features(items: &Vec<serde_json::Value>) -> (r: Option<Vec<FeatureContract>>)
    ensures
        match r {
            Some(v) => all_decode(models_of(items@), feature_decoder()) == Some(feature_views(v@)),
            None => all_decode(models_of(items@), feature_decoder()) is None,
        },
{
    let mut out: Vec<FeatureContract> = Vec::new();
    let mut i: usize = 0;
    while i < items.len()
        invariant
            i <= items.len(),
            out@.len() == i,
            forall|j: int|
                0 <= j < i ==> FeatureContractView::from_json(json_model(items@[j])) == Some(
                    #[trigger] out@[j]@,
                ),
        decreases items.len() - i,
    {
        match FeatureContract::from_json_value(&items[i]) {
            Some(f) => out.push(f),
            None => {
                proof {
                    assert(feature_decoder()(models_of(items@)[i as int]) is None);
                }
                return None;
            },
        }
        i += 1;
    }
    let ghost ms = models_of(items@);
    assert forall|j: int| 0 <= j < ms.len() implies (#[trigger] feature_decoder()(ms[j])) is Some
        && feature_decoder()(ms[j]).unwrap() == out@[j]@ by {
        assert(ms[j] == json_model(items@[j]));
        assert(FeatureContractView::from_json(json_model(items@[j])) == Some(out@[j]@));
    }
    assert(ms.map_values(|m: JsonModel| feature_decoder()(m).unwrap()) =~= feature_views(out@));
    Some(out)
}

impl DashboardContract {
    /// The JSON value of this dashboard.
    pub fn to_json_value(&self) -> (r: serde_json::Value)
        ensures
            json_model(r) == self@.json_of(),
    {
        let mut m = json_map_new();
        put_str(&mut m, "user_tier", &self.user_tier);
        json_map_insert(&mut m, "features".to_owned(), features_value(&self.features));
        put_str(&mut m, "ai_role", &self.ai_role);
        json_object(m)
    }

    /// The dashboard a JSON value describes.
    pub fn from_json_value(v: &serde_json::Value) -> (r: Option<Self>)
        ensures
            match r {
                Some(c) => DashboardContractView::from_json(json_model(*v)) == Some(c@),
                None => DashboardContractView::from_json(json_model(*v)) is None,
            },
    {
        let user_tier = read_str(v, "user_tier");
        let features = read_array(v, "features");
        let ai_role = read_str(v, "ai_role");
        match (user_tier, features, ai_role) {
            (Some(u), Some(items), Some(a)) => match decode_features(items) {
                Some(fs) => Some(DashboardContract { user_tier: u, features: fs, ai_role: a }),
                None => None,
            },
            _ => None,
        }
    }
}

} // verus!

verus! {

impl FeatureContract {
    /// This feature as UTF-8 JSON text. Unless its JSON nests deeper than
    /// serde_json parses, the text parses back to exactly its JSON object.
    pub fn encode(&self) -> (r: Vec<u8>)
        ensures
            nesting_within(self@.json_of(), parse_depth_limit()) ==> json_parsed(r@) == Some(
                self@.json_of(),
            ),
    {
        let v = self.to_json_value();
        json_to_bytes(&v)
    }

    /// The feature that UTF-8 JSON text describes; fields it does not know
    /// are ignored.
    pub fn decode(bytes: &[u8]) -> (r: Result<Self, DecodeError>)
        ensures
            result_view(r) == decode_result(bytes@, feature_decoder()),
    {
        match json_parse(bytes) {
            Some(v) => match Self::from_json_value(&v) {
                Some(c) => Ok(c),
                None => Err(DecodeError::MalformedPayload),
            },
            None => Err(DecodeError::MalformedPayload),
        }
    }
}

impl FeatureContractView {
    /// Decoding the text that `encode` makes of a feature gives the same feature.
    pub proof fn lemma_round_trip(self)
        ensures
            forall|b: Seq<u8>|
                json_parsed(b) == Some(self.json_of()) ==> #[trigger] decode_result(b, feature_decoder())
                    == Ok::<FeatureContractView, DecodeError>(self),
    {
        self.lemma_json_round_trip();
    }
}

} // verus!

verus! {

impl DashboardContract {
    /// This dashboard as UTF-8 JSON text. Unless its JSON nests deeper than
    /// serde_json parses, the text parses back to exactly its JSON object.
    pub fn encode(&self) -> (r: Vec<u8>)
        ensures
            nesting_within(self@.json_of(), parse_depth_limit()) ==> json_parsed(r@) == Some(
                self@.json_of(),
            ),
    {
        let v = self.to_json_value();
        json_to_bytes(&v)
    }

    /// The dashboard that UTF-8 JSON text describes; fields it does not know
    /// are ignored.
    pub fn decode(bytes: &[u8]) -> (r: Result<Self, DecodeError>)
        ensures
            result_view(r) == decode_result(bytes@, dashboard_decoder()),
    {
        match json_parse(bytes) {
            Some(v) => match Self::from_json_value(&v) {
                Some(c) => Ok(c),
                None => Err(DecodeError::MalformedPayload),
            },
            None => Err(DecodeError::MalformedPayload),
        }
    }
}

impl DashboardContractView {
    /// Decoding the text that `encode` makes of a dashboard gives the same dashboard.
    pub proof fn lemma_round_trip(self)
        ensures
            forall|b: Seq<u8>|
                json_parsed(b) == Some(self.json_of()) ==> #[trigger] decode_result(b, dashboard_decoder())
                    == Ok::<DashboardContractView, DecodeError>(self),
    {
        self.lemma_json_round_trip();
    }
}

} // verus!
