//! Devices, their identifiers and their state.
use vstd::prelude::*;

use crate::decode;
use crate::decode::array_record;
use crate::decode::member;
use crate::decode::optional_member;
use crate::decode::variant_of;
use crate::decode::FromJson;
use crate::decode::Source;
use crate::decode::ToJson;
use crate::error;
use crate::error::ErrorView;
use crate::error::GoveeError;
use crate::json::Json;
use crate::json::JsonView;
use crate::names::NameMap;
use crate::text;
use crate::text::chars_of;
use crate::text::push_hex_pair;
use crate::text::same;

verus! {

/// Opaque device identifier (wraps MAC address string internally).
///
/// Accepts colon-separated hex MAC addresses with 6 or 8 octets
/// (e.g., `"AA:BB:CC:DD:EE:FF"` or `"AA:BB:CC:DD:EE:FF:00:11"`), and holds them
/// in upper case.
#[derive(Debug, PartialEq, Eq, Hash)]
pub struct DeviceId(String);

/// Whether `s` is a MAC address: 6 or 8 pairs of hexadecimal digits, with a
/// colon between each pair and the next.
pub open spec fn is_mac(s: Seq<char>) -> bool {
    &&& s.len() == 17 || s.len() == 23
    &&& forall|i: int|
        0 <= i < s.len() ==> if i % 3 == 2 {
            #[trigger] s[i] == ':'
        } else {
            text::is_hex_digit(s[i])
        }
}

/// What [`DeviceId::new`] comes to on `s`.
pub open spec fn device_id(s: Seq<char>) -> Result<Seq<char>, ErrorView> {
    if is_mac(s) {
        Ok(text::upper_ascii(s))
    } else {
        Err(ErrorView::InvalidDeviceId(s))
    }
}

impl View for DeviceId {
    type V = Seq<char>;

    closed spec fn view(&self) -> Seq<char> {
        self.0@
    }
}

impl DeviceId {
    #[verifier::type_invariant]
    spec fn normal(&self) -> bool {
        is_mac(self.0@) && text::upper_ascii(self.0@) == self.0@
    }

    /// Validate and create a new `DeviceId` from a MAC address string.
    pub fn new(mac: &str) -> (r: Result<DeviceId, GoveeError>)
        ensures
            error::outcome(r) == device_id(mac@),
    {
        let x = chars_of(mac);
        if x.len() != 17 && x.len() != 23 {
            return Err(GoveeError::InvalidDeviceId(mac.to_string()));
        }
        let mut id = String::new();
        for i in 0..x.len()
            invariant
                x@ == mac@,
                x@.len() == 17 || x@.len() == 23,
                id@.len() == i,
                forall|j: int| 0 <= j < i ==> #[trigger] id@[j] == text::ascii_upper(x@[j]),
                forall|j: int|
                    0 <= j < i ==> if j % 3 == 2 {
                        #[trigger] x@[j] == ':'
                    } else {
                        text::is_hex_digit(x@[j])
                    },
        {
            let c = x[i];
            if i % 3 == 2 {
                if c != ':' {
                    return Err(GoveeError::InvalidDeviceId(mac.to_string()));
                }
                id.push(c);
            } else if ('0' <= c && c <= '9') || ('A' <= c && c <= 'F') {
                id.push(c);
            } else if 'a' <= c && c <= 'f' {
                id.push((c as u8 - 32) as char);
            } else {
                return Err(GoveeError::InvalidDeviceId(mac.to_string()));
            }
        }
        assert(id@ =~= text::upper_ascii(mac@));
        assert(text::upper_ascii(id@) =~= id@);
        Ok(DeviceId(id))
    }

    /// Return the inner MAC address string.
    pub fn as_str(&self) -> (r: &str)
        ensures
            r@ == self@,
            is_mac(r@),
            text::upper_ascii(r@) == r@,
    {
        proof {
            use_type_invariant(self);
        }
        self.0.as_str()
    }

    /// The MAC address as text.
    pub fn to_string(&self) -> (r: String)
        ensures
            r@ == self@,
    {
        self.0.clone()
    }
}

impl Clone for DeviceId {
    fn clone(&self) -> (r: DeviceId)
        ensures
            r == *self,
    {
        proof {
            use_type_invariant(self);
        }
        DeviceId(self.0.clone())
    }
}

impl std::str::FromStr for DeviceId {
    type Err = GoveeError;

    fn from_str(s: &str) -> (r: Result<DeviceId, GoveeError>)
        ensures
            error::outcome(r) == device_id(s@),
    {
        DeviceId::new(s)
    }
}

impl TryFrom<String> for DeviceId {
    type Error = GoveeError;

    fn try_from(s: String) -> (r: Result<DeviceId, GoveeError>)
        ensures
            error::outcome(r) == device_id(s@),
    {
        DeviceId::new(s.as_str())
    }
}

impl vstd::std_specs::convert::TryFromSpecImpl<String> for DeviceId {
    open spec fn obeys_try_from_spec() -> bool {
        false
    }

    open spec fn try_from_spec(s: String) -> Result<DeviceId, GoveeError> {
        arbitrary()
    }
}

impl From<DeviceId> for String {
    fn from(id: DeviceId) -> (r: String)
        ensures
            r@ == id@,
    {
        id.0
    }
}

impl vstd::std_specs::convert::FromSpecImpl<DeviceId> for String {
    open spec fn obeys_from_spec() -> bool {
        true
    }

    closed spec fn from_spec(id: DeviceId) -> String {
        id.0
    }
}

/// A Govee device as seen by the library.
#[derive(Debug)]
pub struct Device {
    pub id: DeviceId,
    pub model: String,
    pub name: String,
    pub alias: Option<String>,
    pub backend: BackendType,
}

/// What a device is, its text by characters.
pub struct DeviceView {
    pub id: Seq<char>,
    pub model: Seq<char>,
    pub name: Seq<char>,
    pub alias: Option<Seq<char>>,
    pub backend: BackendType,
}

/// An optional text by its characters.
pub open spec fn optional_text(t: Option<String>) -> Option<Seq<char>> {
    match t {
        Some(t) => Some(t@),
        None => None,
    }
}

impl View for Device {
    type V = DeviceView;

    open spec fn view(&self) -> DeviceView {
        DeviceView {
            id: self.id@,
            model: self.model@,
            name: self.name@,
            alias: optional_text(self.alias),
            backend: self.backend,
        }
    }
}

impl Clone for Device {
    fn clone(&self) -> (r: Device)
        ensures
            r == *self,
    {
        Device {
            id: self.id.clone(),
            model: self.model.clone(),
            name: self.name.clone(),
            alias: match &self.alias {
                Some(t) => Some(t.clone()),
                None => None,
            },
            backend: self.backend,
        }
    }
}

/// The devices of a list, each by its view.
pub open spec fn device_views(devices: Seq<Device>) -> Seq<DeviceView> {
    devices.map_values(|d: Device| d@)
}

/// Which backend is active for a device.
#[derive(Debug, Clone, Copy, PartialEq, Eq, Structural)]
pub enum BackendType {
    Cloud,
    Local,
}

impl BackendType {
    /// The name of the backend.
    pub open spec fn name(self) -> Seq<char> {
        match self {
            BackendType::Cloud => "cloud"@,
            BackendType::Local => "local"@,
        }
    }

    /// The name of the backend.
    pub fn to_string(&self) -> (r: String)
        ensures
            r@ == self.name(),
    {
        match self {
            BackendType::Cloud => "cloud".to_string(),
            BackendType::Local => "local".to_string(),
        }
    }
}

impl View for BackendType {
    type V = BackendType;

    open spec fn view(&self) -> BackendType {
        *self
    }
}

/// RGB color value (sRGB, each component 0-255).
///
/// Components are bounded by `u8`, so no further validation is needed.
/// Display format: `#RRGGBB` (e.g., `#FF8000`).
#[derive(Debug, Clone, Copy, PartialEq, Eq, Structural)]
pub struct Color {
    pub r: u8,
    pub g: u8,
    pub b: u8,
}

impl View for Color {
    type V = Color;

    open spec fn view(&self) -> Color {
        *self
    }
}

/// The color in the low 24 bits of `n`: red above green above blue.
pub open spec fn unpacked(n: nat) -> Color {
    Color { r: ((n / 65536) % 256) as u8, g: ((n / 256) % 256) as u8, b: (n % 256) as u8 }
}

impl Color {
    pub fn new(r: u8, g: u8, b: u8) -> (c: Color)
        ensures
            c == (Color { r, g, b }),
    {
        Color { r, g, b }
    }

    /// The three components as one number: red above green above blue.
    pub open spec fn packed(self) -> int {
        self.r * 65536 + self.g * 256 + self.b
    }

    /// The three components as one 24-bit number.
    pub fn to_rgb24(self) -> (n: u32)
        ensures
            n == self.packed(),
    {
        self.r as u32 * 65536 + self.g as u32 * 256 + self.b as u32
    }

    /// The color in the low 24 bits of a number.
    pub fn from_rgb24(n: u64) -> (c: Color)
        ensures
            c == unpacked(n as nat),
    {
        Color { r: ((n / 65536) % 256) as u8, g: ((n / 256) % 256) as u8, b: (n % 256) as u8 }
    }

    /// `#RRGGBB`.
    pub open spec fn notation(self) -> Seq<char> {
        seq!['#'] + text::hex_pair(self.r) + text::hex_pair(self.g) + text::hex_pair(self.b)
    }

    /// The color as `#RRGGBB`.
    pub fn to_string(&self) -> (r: String)
        ensures
            r@ == self.notation(),
    {
        let mut s = String::new();
        s.push('#');
        assert(s@ =~= seq!['#']);
        push_hex_pair(&mut s, self.r);
        push_hex_pair(&mut s, self.g);
        push_hex_pair(&mut s, self.b);
        s
    }
}

/// A color survives packing into 24 bits and unpacking.
pub proof fn packing_round_trip(c: Color)
    ensures
        unpacked(c.packed() as nat) == c,
{
    let n = c.packed();
    assert(n / 65536 == c.r);
    assert(n / 256 == c.r * 256 + c.g);
    assert((c.r * 256 + c.g) % 256 == c.g as int);
}

/// Every 24-bit number survives unpacking into a color and packing.
pub proof fn unpacking_round_trip(n: nat)
    requires
        n < 0x100_0000,
    ensures
        unpacked(n).packed() == n,
{
}

/// Point-in-time device state.
///
/// - `brightness`: 0-100 (validated on construction)
/// - `color`: RGB, each component 0-255 (bounded by `u8`)
/// - `color_temp_kelvin`: device-dependent Kelvin range, or `None`
/// - `raw`: values of capabilities that no other field covers, by
///   `"type/instance"`
#[derive(Debug)]
pub struct DeviceState {
    pub on: bool,
    pub brightness: u8,
    pub color: Color,
    pub color_temp_kelvin: Option<u32>,
    pub stale: bool,
    pub raw: NameMap<Json>,
}

/// What a device state is.
#[verifier::ext_equal]
pub struct DeviceStateView {
    pub on: bool,
    pub brightness: u8,
    pub color: Color,
    pub color_temp_kelvin: Option<u32>,
    pub stale: bool,
    pub raw: Map<Seq<char>, JsonView>,
}

/// Values by name, each by its view.
pub open spec fn json_values(values: Map<Seq<char>, Json>) -> Map<Seq<char>, JsonView> {
    values.map_values(|v: Json| v@)
}

impl View for DeviceState {
    type V = DeviceStateView;

    open spec fn view(&self) -> DeviceStateView {
        DeviceStateView {
            on: self.on,
            brightness: self.brightness,
            color: self.color,
            color_temp_kelvin: self.color_temp_kelvin,
            stale: self.stale,
            raw: json_values(self.raw@),
        }
    }
}

/// The state, if its brightness is in range.
pub open spec fn checked_state(state: DeviceStateView) -> Result<DeviceStateView, ErrorView> {
    if state.brightness > 100 {
        Err(ErrorView::InvalidBrightness(state.brightness))
    } else {
        Ok(state)
    }
}

impl DeviceState {
    /// Create a new `DeviceState` without raw values, validating brightness is
    /// 0-100.
    pub fn new(
        on: bool,
        brightness: u8,
        color: Color,
        color_temp_kelvin: Option<u32>,
        stale: bool,
    ) -> (r: Result<DeviceState, GoveeError>)
        ensures
            error::outcome(r) == checked_state(
                DeviceStateView {
                    on,
                    brightness,
                    color,
                    color_temp_kelvin,
                    stale,
                    raw: Map::empty(),
                },
            ),
    {
        let raw: NameMap<Json> = NameMap::new();
        assert(json_values(raw@) =~= Map::empty());
        DeviceState::with_raw(on, brightness, color, color_temp_kelvin, stale, raw)
    }

    /// Create a new `DeviceState`, validating brightness is 0-100.
    pub fn with_raw(
        on: bool,
        brightness: u8,
        color: Color,
        color_temp_kelvin: Option<u32>,
        stale: bool,
        raw: NameMap<Json>,
    ) -> (r: Result<DeviceState, GoveeError>)
        ensures
            error::outcome(r) == checked_state(
                DeviceStateView {
                    on,
                    brightness,
                    color,
                    color_temp_kelvin,
                    stale,
                    raw: json_values(raw@),
                },
            ),
    {
        if brightness > 100 {
            return Err(GoveeError::InvalidBrightness(brightness));
        }
        Ok(DeviceState { on, brightness, color, color_temp_kelvin, stale, raw })
    }
}

impl Clone for DeviceState {
    fn clone(&self) -> (r: DeviceState)
        ensures
            r@ == self@,
    {
        let raw = self.raw.clone();
        assert(json_values(raw@) =~= json_values(self.raw@));
        DeviceState {
            on: self.on,
            brightness: self.brightness,
            color: self.color,
            color_temp_kelvin: self.color_temp_kelvin,
            stale: self.stale,
            raw,
        }
    }
}

impl FromJson for DeviceId {
    open spec fn read(value: JsonView) -> Option<Seq<char>> {
        match value.as_text() {
            Some(t) => match device_id(t) {
                Ok(id) => Some(id),
                Err(_) => None,
            },
            None => None,
        }
    }

    fn from_json(value: &Json) -> (r: Option<DeviceId>) {
        match value.as_str() {
            Some(t) => match DeviceId::new(t) {
                Ok(id) => Some(id),
                Err(_) => None,
            },
            None => None,
        }
    }
}

impl ToJson for DeviceId {
    open spec fn written(&self) -> JsonView {
        JsonView::Text(self@)
    }

    fn to_json(&self) -> (r: Json) {
        Json::text(self.as_str())
    }
}

impl FromJson for BackendType {
    open spec fn read(value: JsonView) -> Option<BackendType> {
        let name = decode::variant(value, Source::Json);
        if name == Some("cloud"@) {
            Some(BackendType::Cloud)
        } else if name == Some("local"@) {
            Some(BackendType::Local)
        } else {
            None
        }
    }

    fn from_json(value: &Json) -> (r: Option<BackendType>) {
        match variant_of(value, Source::Json) {
            Some(t) => if same(t.as_str(), "cloud") {
                Some(BackendType::Cloud)
            } else if same(t.as_str(), "local") {
                Some(BackendType::Local)
            } else {
                None
            },
            None => None,
        }
    }
}

impl ToJson for BackendType {
    open spec fn written(&self) -> JsonView {
        JsonView::Text(self.name())
    }

    fn to_json(&self) -> (r: Json) {
        Json::Text(self.to_string())
    }
}

impl Color {
    /// What a value of a document stands for.
    pub open spec fn read_from(value: JsonView, source: Source) -> Option<Color> {
        let value = decode::record(value, seq!["r", "g", "b"], source);
        match (
            decode::read_member::<u8>(value, "r"@),
            decode::read_member::<u8>(value, "g"@),
            decode::read_member::<u8>(value, "b"@),
        ) {
            (Some(r), Some(g), Some(b)) => Some(Color { r, g, b }),
            _ => None,
        }
    }

    /// Reads a color out of a document.
    pub(crate) fn from_document(value: &Json, source: Source) -> (c: Option<Color>)
        ensures
            c == Color::read_from(value@, source),
    {
        let object = array_record(value, &["r", "g", "b"], source);
        let value = match &object {
            Some(object) => object,
            None => value,
        };
        match (member::<u8>(value, "r"), member::<u8>(value, "g"), member::<u8>(value, "b")) {
            (Some(r), Some(g), Some(b)) => Some(Color { r, g, b }),
            _ => None,
        }
    }
}

impl FromJson for Color {
    open spec fn read(value: JsonView) -> Option<Color> {
        Color::read_from(value, Source::Json)
    }

    fn from_json(value: &Json) -> (c: Option<Color>) {
        Color::from_document(value, Source::Json)
    }
}

impl ToJson for Color {
    open spec fn written(&self) -> JsonView {
        JsonView::Object(
            map![
                "r"@ => JsonView::Unsigned(self.r as u64),
                "g"@ => JsonView::Unsigned(self.g as u64),
                "b"@ => JsonView::Unsigned(self.b as u64),
            ],
        )
    }

    fn to_json(&self) -> (r: Json) {
        Json::empty_object().with("r", Json::Unsigned(self.r as u64)).with(
            "g",
            Json::Unsigned(self.g as u64),
        ).with("b", Json::Unsigned(self.b as u64))
    }
}

impl FromJson for Device {
    open spec fn read(value: JsonView) -> Option<DeviceView> {
        let value = decode::record(value, seq!["id", "model", "name", "alias", "backend"], Source::Json);
        match (
            decode::read_member::<DeviceId>(value, "id"@),
            decode::read_member::<String>(value, "model"@),
            decode::read_member::<String>(value, "name"@),
            decode::read_optional::<String>(value, "alias"@),
            decode::read_member::<BackendType>(value, "backend"@),
        ) {
            (Some(id), Some(model), Some(name), Some(alias), Some(backend)) => Some(
                DeviceView { id, model, name, alias, backend },
            ),
            _ => None,
        }
    }

    fn from_json(value: &Json) -> (r: Option<Device>) {
        let object = array_record(value, &["id", "model", "name", "alias", "backend"], Source::Json);
        let value = match &object {
            Some(object) => object,
            None => value,
        };
        match (
            member::<DeviceId>(value, "id"),
            member::<String>(value, "model"),
            member::<String>(value, "name"),
            optional_member::<String>(value, "alias"),
            member::<BackendType>(value, "backend"),
        ) {
            (Some(id), Some(model), Some(name), Some(alias), Some(backend)) => Some(
                Device { id, model, name, alias, backend },
            ),
            _ => None,
        }
    }
}

impl ToJson for Device {
    open spec fn written(&self) -> JsonView {
        JsonView::Object(
            map![
                "id"@ => self.id.written(),
                "model"@ => self.model.written(),
                "name"@ => self.name.written(),
                "alias"@ => self.alias.written(),
                "backend"@ => self.backend.written(),
            ],
        )
    }

    fn to_json(&self) -> (r: Json) {
        Json::empty_object().with("id", self.id.to_json()).with("model", self.model.to_json()).with(
            "name",
            self.name.to_json(),
        ).with("alias", self.alias.to_json()).with("backend", self.backend.to_json())
    }
}

impl ToJson for DeviceState {
    open spec fn written(&self) -> JsonView {
        JsonView::Object(
            map![
                "on"@ => self.on.written(),
                "brightness"@ => self.brightness.written(),
                "color"@ => self.color.written(),
                "color_temp_kelvin"@ => self.color_temp_kelvin.written(),
                "stale"@ => self.stale.written(),
            ],
        )
    }

    fn to_json(&self) -> (r: Json) {
        Json::empty_object().with("on", self.on.to_json()).with(
            "brightness",
            self.brightness.to_json(),
        ).with("color", self.color.to_json()).with(
            "color_temp_kelvin",
            self.color_temp_kelvin.to_json(),
        ).with("stale", self.stale.to_json())
    }
}

impl FromJson for DeviceState {
    open spec fn read(value: JsonView) -> Option<DeviceStateView> {
        let value = decode::record(value, seq!["on", "brightness", "color", "color_temp_kelvin", "stale"], Source::Json);
        match (
            decode::read_member::<bool>(value, "on"@),
            decode::read_member::<u8>(value, "brightness"@),
            decode::read_member::<Color>(value, "color"@),
            decode::read_optional::<u32>(value, "color_temp_kelvin"@),
            decode::read_member::<bool>(value, "stale"@),
        ) {
            (Some(on), Some(brightness), Some(color), Some(color_temp_kelvin), Some(stale)) => {
                let state = DeviceStateView {
                    on,
                    brightness,
                    color,
                    color_temp_kelvin,
                    stale,
                    raw: Map::empty(),
                };
                match checked_state(state) {
                    Ok(state) => Some(state),
                    Err(_) => None,
                }
            },
            _ => None,
        }
    }

    fn from_json(value: &Json) -> (r: Option<DeviceState>) {
        let object = array_record(value, &["on", "brightness", "color", "color_temp_kelvin", "stale"], Source::Json);
        let value = match &object {
            Some(object) => object,
            None => value,
        };
        match (
            member::<bool>(value, "on"),
            member::<u8>(value, "brightness"),
            member::<Color>(value, "color"),
            optional_member::<u32>(value, "color_temp_kelvin"),
            member::<bool>(value, "stale"),
        ) {
            (Some(on), Some(brightness), Some(color), Some(color_temp_kelvin), Some(stale)) => {
                match DeviceState::new(on, brightness, color, color_temp_kelvin, stale) {
                    Ok(state) => Some(state),
                    Err(_) => None,
                }
            },
            _ => None,
        }
    }
}

/// A device identifier is already in its normal form: creating it again from
/// its text gives the same text.
pub proof fn device_id_is_normal(mac: Seq<char>)
    requires
        is_mac(mac),
    ensures
        is_mac(text::upper_ascii(mac)),
        device_id(text::upper_ascii(mac)) == device_id(mac),
{
    let id = text::upper_ascii(mac);
    assert forall|i: int| 0 <= i < id.len() implies if i % 3 == 2 {
        #[trigger] id[i] == ':'
    } else {
        text::is_hex_digit(id[i])
    } by {
        assert(id[i] == text::ascii_upper(mac[i]));
    }
    assert(text::upper_ascii(id) =~= id);
}

/// The case in which a MAC address is written makes no difference.
pub proof fn device_id_ignores_case(a: Seq<char>, b: Seq<char>)
    requires
        is_mac(a),
        is_mac(b),
        text::upper_ascii(a) == text::upper_ascii(b),
    ensures
        device_id(a) == device_id(b),
{
}

/// A color is read back as it was written.
pub proof fn color_round_trip(c: Color)
    ensures
        Color::read(c.written()) == Some(c),
{
    reveal_strlit("r");
    reveal_strlit("g");
    reveal_strlit("b");
    assert("r"@[0] == 'r' && "g"@[0] == 'g' && "b"@[0] == 'b');
}

/// A backend is read back as it was written.
pub proof fn backend_round_trip(backend: BackendType)
    ensures
        BackendType::read(backend.written()) == Some(backend),
{
    reveal_strlit("cloud");
    reveal_strlit("local");
    assert("cloud"@[0] == 'c' && "local"@[0] == 'l');
}

/// A device is read back as it was written.
pub proof fn device_round_trip(device: Device)
    requires
        device_id(device.id@) == Ok::<Seq<char>, ErrorView>(device.id@),
    ensures
        Device::read(device.written()) == Some(device@),
{
    reveal_strlit("id");
    reveal_strlit("model");
    reveal_strlit("name");
    reveal_strlit("alias");
    reveal_strlit("backend");
    assert("id"@.len() == 2 && "model"@.len() == 5 && "name"@.len() == 4 && "alias"@.len() == 5
        && "backend"@.len() == 7);
    assert("model"@[0] == 'm' && "alias"@[0] == 'a');
    backend_round_trip(device.backend);
}

/// A state is read back as it was written, but for its raw values, which are
/// not written.
pub proof fn device_state_round_trip(state: DeviceState)
    requires
        state.brightness <= 100,
    ensures
        DeviceState::read(state.written()) == Some(DeviceStateView { raw: Map::empty(), ..state@ }),
{
    reveal_strlit("on");
    reveal_strlit("brightness");
    reveal_strlit("color");
    reveal_strlit("color_temp_kelvin");
    reveal_strlit("stale");
    assert("on"@.len() == 2 && "brightness"@.len() == 10 && "color"@.len() == 5
        && "color_temp_kelvin"@.len() == 17 && "stale"@.len() == 5);
    assert("color"@[0] == 'c' && "stale"@[0] == 's');
    color_round_trip(state.color);
}

/// A built-in scene of a device.
#[derive(Debug)]
pub struct LightScene {
    pub id: u32,
    pub name: String,
    pub param_id: u32,
}

/// What a built-in scene is.
pub struct LightSceneView {
    pub id: u32,
    pub name: Seq<char>,
    pub param_id: u32,
}

impl View for LightScene {
    type V = LightSceneView;

    open spec fn view(&self) -> LightSceneView {
        LightSceneView { id: self.id, name: self.name@, param_id: self.param_id }
    }
}

/// A scene that the user of a device made.
#[derive(Debug)]
pub struct DiyScene {
    pub id: u32,
    pub name: String,
}

/// What a DIY scene is.
pub struct DiySceneView {
    pub id: u32,
    pub name: Seq<char>,
}

impl View for DiyScene {
    type V = DiySceneView;

    open spec fn view(&self) -> DiySceneView {
        DiySceneView { id: self.id, name: self.name@ }
    }
}

/// A work mode of a device, with the modes below it.
#[derive(Debug)]
pub struct WorkMode {
    pub id: u32,
    pub name: String,
    pub sub_modes: Vec<WorkMode>,
}

} // verus!
