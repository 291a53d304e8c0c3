//! Settings the core reads but never changes: timings, policies, sort and
//! search modes, and the key table. Values are validated when built.
use vstd::prelude::*;
use crate::text::chars_of;

verus! {

/// Order of the device list; cycled at run time.
#[derive(Clone, Copy, Debug, PartialEq, Eq, Structural)]
pub enum SortMode {
    Default,
    Name,
    Rssi,
    Address,
}

/// The mode that follows `m` in the fixed ring Default, Name, Rssi, Address.
pub open spec fn next_mode(m: SortMode) -> SortMode {
    match m {
        SortMode::Default => SortMode::Name,
        SortMode::Name => SortMode::Rssi,
        SortMode::Rssi => SortMode::Address,
        SortMode::Address => SortMode::Default,
    }
}

impl SortMode {
    pub fn next(self) -> (r: SortMode)
        ensures
            r == next_mode(self),
    {
        match self {
            SortMode::Default => SortMode::Name,
            SortMode::Name => SortMode::Rssi,
            SortMode::Rssi => SortMode::Address,
            SortMode::Address => SortMode::Default,
        }
    }

    /// Short label for the status line.
    pub fn label(self) -> (r: &'static str)
        ensures
            self == SortMode::Default ==> r@ == "Default"@,
            self == SortMode::Name ==> r@ == "Name"@,
            self == SortMode::Rssi ==> r@ == "RSSI"@,
            self == SortMode::Address ==> r@ == "Address"@,
    {
        match self {
            SortMode::Default => "Default",
            SortMode::Name => "Name",
            SortMode::Rssi => "RSSI",
            SortMode::Address => "Address",
        }
    }
}

impl Default for SortMode {
    fn default() -> (r: SortMode)
        ensures
            r == SortMode::Default,
    {
        SortMode::Default
    }
}

/// Four steps of the ring bring every mode back to itself.
pub proof fn lemma_sort_ring(m: SortMode)
    ensures
        next_mode(next_mode(next_mode(next_mode(m)))) == m,
        next_mode(m) != m,
{
}

/// How the search query is matched.
#[derive(Clone, Copy, Debug, PartialEq, Eq, Structural)]
pub enum SearchMode {
    /// A query that starts with `/` is a pattern, anything else plain text.
    Smart,
    Plain,
    Regex,
}

impl Default for SearchMode {
    fn default() -> (r: SearchMode)
        ensures
            r == SearchMode::Smart,
    {
        SearchMode::Smart
    }
}

/// A key as the reducer sees it.
#[derive(Clone, Copy, Debug, PartialEq, Eq, Structural)]
pub enum KeyCode {
    Char(char),
    Enter,
    Esc,
    Tab,
    Backspace,
    Up,
    Down,
    Left,
    Right,
    Home,
    End,
    PageUp,
    PageDown,
    Delete,
    Insert,
    /// A key binding that names no known key; no key press ever equals it.
    Null,
    /// A key press with no name in this table.
    Other,
}

/// One key press with the state of the Control modifier.
#[derive(Clone, Copy, Debug, PartialEq, Eq, Structural)]
pub struct KeyPress {
    pub code: KeyCode,
    pub ctrl: bool,
}

/// The key that a binding's text names.
pub open spec fn key_of_name(s: Seq<char>) -> KeyCode {
    if s == "Enter"@ {
        KeyCode::Enter
    } else if s == "Esc"@ {
        KeyCode::Esc
    } else if s == "Tab"@ {
        KeyCode::Tab
    } else if s == "Backspace"@ {
        KeyCode::Backspace
    } else if s == "Space"@ {
        KeyCode::Char(' ')
    } else if s == "Up"@ {
        KeyCode::Up
    } else if s == "Down"@ {
        KeyCode::Down
    } else if s == "Left"@ {
        KeyCode::Left
    } else if s == "Right"@ {
        KeyCode::Right
    } else if s == "Home"@ {
        KeyCode::Home
    } else if s == "End"@ {
        KeyCode::End
    } else if s == "PageUp"@ {
        KeyCode::PageUp
    } else if s == "PageDown"@ {
        KeyCode::PageDown
    } else if s == "Delete"@ {
        KeyCode::Delete
    } else if s == "Insert"@ {
        KeyCode::Insert
    } else if s.len() == 1 && (s[0] as u32) < 128 {
        KeyCode::Char(s[0])
    } else {
        KeyCode::Null
    }
}

/// Whether the characters of `a` are those of `b`.
pub fn same_text(a: &str, b: &str) -> (r: bool)
    ensures
        r == (a@ == b@),
{
    let x = chars_of(a);
    let y = chars_of(b);
    if x.len() != y.len() {
        return false;
    }
    let mut i: usize = 0;
    while i < x.len()
        invariant
            x@ == a@,
            y@ == b@,
            x@.len() == y@.len(),
            i <= x@.len(),
            forall|k: int| 0 <= k < i ==> x@[k] == y@[k],
        decreases x@.len() - i,
    {
        if x[i] != y[i] {
            assert(x@[i as int] != y@[i as int]);
            return false;
        }
        i += 1;
    }
    assert(x@ =~= y@);
    true
}

/// Reads a key binding: a key name such as `Enter` or `PageUp`, `Space`, or a
/// single ASCII character. Anything else binds no key.
pub fn parse_key(s: &str) -> (r: KeyCode)
    ensures
        r == key_of_name(s@),
{
    if same_text(s, "Enter") {
        KeyCode::Enter
    } else if same_text(s, "Esc") {
        KeyCode::Esc
    } else if same_text(s, "Tab") {
        KeyCode::Tab
    } else if same_text(s, "Backspace") {
        KeyCode::Backspace
    } else if same_text(s, "Space") {
        KeyCode::Char(' ')
    } else if same_text(s, "Up") {
        KeyCode::Up
    } else if same_text(s, "Down") {
        KeyCode::Down
    } else if same_text(s, "Left") {
        KeyCode::Left
    } else if same_text(s, "Right") {
        KeyCode::Right
    } else if same_text(s, "Home") {
        KeyCode::Home
    } else if same_text(s, "End") {
        KeyCode::End
    } else if same_text(s, "PageUp") {
        KeyCode::PageUp
    } else if same_text(s, "PageDown") {
        KeyCode::PageDown
    } else if same_text(s, "Delete") {
        KeyCode::Delete
    } else if same_text(s, "Insert") {
        KeyCode::Insert
    } else {
        let cs = chars_of(s);
        if cs.len() == 1 && (cs[0] as u32) < 128 {
            KeyCode::Char(cs[0])
        } else {
            KeyCode::Null
        }
    }
}

/// `v` brought into `[lo, hi]`.
pub open spec fn clamped(v: int, lo: int, hi: int) -> int {
    if v < lo {
        lo
    } else if v > hi {
        hi
    } else {
        v
    }
}

fn clamp_u64(v: u64, lo: u64, hi: u64) -> (r: u64)
    requires
        lo <= hi,
    ensures
        r == clamped(v as int, lo as int, hi as int),
{
    if v < lo {
        lo
    } else if v > hi {
        hi
    } else {
        v
    }
}

/// The sort mode that a setting names; anything unknown is the default order.
pub open spec fn sort_mode_of_name(s: Seq<char>) -> SortMode {
    if s == "name"@ {
        SortMode::Name
    } else if s == "rssi"@ {
        SortMode::Rssi
    } else if s == "address"@ {
        SortMode::Address
    } else {
        SortMode::Default
    }
}

/// The search mode that a setting names; anything unknown is smart matching.
pub open spec fn search_mode_of_name(s: Seq<char>) -> SearchMode {
    if s == "plain"@ {
        SearchMode::Plain
    } else if s == "regex"@ {
        SearchMode::Regex
    } else {
        SearchMode::Smart
    }
}

pub fn parse_sort_mode(s: &str) -> (r: SortMode)
    ensures
        r == sort_mode_of_name(s@),
{
    if same_text(s, "name") {
        SortMode::Name
    } else if same_text(s, "rssi") {
        SortMode::Rssi
    } else if same_text(s, "address") {
        SortMode::Address
    } else {
        SortMode::Default
    }
}

pub fn parse_search_mode(s: &str) -> (r: SearchMode)
    ensures
        r == search_mode_of_name(s@),
{
    if same_text(s, "plain") {
        SearchMode::Plain
    } else if same_text(s, "regex") {
        SearchMode::Regex
    } else {
        SearchMode::Smart
    }
}

#[derive(Clone, Copy, Debug)]
pub struct GeneralConfig {
    pub tick_rate_ms: u64,
    pub scan_on_startup: bool,
    pub hide_unnamed_devices: bool,
    pub device_list_percent: u16,
    pub sort_mode: SortMode,
    pub search_mode: SearchMode,
}

#[derive(Clone, Copy, Debug)]
pub struct BluetoothConfig {
    pub auto_trust_on_pair: bool,
    pub connection_timeout_secs: u64,
}

/// Popup timing. The slide-in speed is in thousandths of the full distance per tick.
#[derive(Clone, Copy, Debug)]
pub struct NotificationsConfig {
    pub success_duration_ms: u64,
    pub error_duration_ms: u64,
    pub slide_speed_permille: u16,
}

#[derive(Clone, Copy, Debug)]
pub struct KeybindingsConfig {
    pub quit: KeyCode,
    pub nav_down: KeyCode,
    pub nav_up: KeyCode,
    pub jump_top: KeyCode,
    pub jump_bottom: KeyCode,
    pub search: KeyCode,
    pub help: KeyCode,
    pub toggle_adapter: KeyCode,
    pub toggle_scan: KeyCode,
    pub connect_toggle: KeyCode,
    pub disconnect: KeyCode,
    pub pair: KeyCode,
    pub trust: KeyCode,
    pub remove: KeyCode,
    pub refresh: KeyCode,
    pub cycle_sort: KeyCode,
    pub rename: KeyCode,
}

/// The settings the core runs with; built once and passed in.
#[derive(Clone, Copy, Debug)]
pub struct Config {
    pub general: GeneralConfig,
    pub bluetooth: BluetoothConfig,
    pub notifications: NotificationsConfig,
    pub keys: KeybindingsConfig,
}

/// Settings as written by the user, before validation.
#[derive(Debug)]
pub struct RawConfig {
    pub tick_rate_ms: u64,
    pub scan_on_startup: bool,
    pub hide_unnamed_devices: bool,
    pub device_list_percent: u16,
    pub sort_mode: String,
    pub search_mode: String,
    pub auto_trust_on_pair: bool,
    pub connection_timeout_secs: u64,
    pub success_duration_ms: u64,
    pub error_duration_ms: u64,
    pub slide_speed_permille: u16,
    pub keys: RawKeybindings,
}

/// Key bindings as written by the user, one key name each.
#[derive(Debug)]
pub struct RawKeybindings {
    pub quit: String,
    pub nav_down: String,
    pub nav_up: String,
    pub jump_top: String,
    pub jump_bottom: String,
    pub search: String,
    pub help: String,
    pub toggle_adapter: String,
    pub toggle_scan: String,
    pub connect_toggle: String,
    pub disconnect: String,
    pub pair: String,
    pub trust: String,
    pub remove: String,
    pub refresh: String,
    pub cycle_sort: String,
    pub rename: String,
}

impl Config {
    /// Every value lies in the range the core is built for.
    pub open spec fn wf(&self) -> bool {
        &&& 4 <= self.general.tick_rate_ms <= 200
        &&& 20 <= self.general.device_list_percent <= 80
        &&& 5 <= self.bluetooth.connection_timeout_secs <= 120
        &&& 500 <= self.notifications.success_duration_ms <= 30_000
        &&& 500 <= self.notifications.error_duration_ms <= 60_000
        &&& 10 <= self.notifications.slide_speed_permille <= 1000
    }

    /// Validates raw settings: numbers are clamped into range, unknown mode
    /// names fall back to the defaults and unknown key names bind no key.
    pub fn resolve(raw: &RawConfig) -> (r: Config)
        ensures
            r.wf(),
            r.general.tick_rate_ms == clamped(raw.tick_rate_ms as int, 4, 200),
            r.general.scan_on_startup == raw.scan_on_startup,
            r.general.hide_unnamed_devices == raw.hide_unnamed_devices,
            r.general.device_list_percent == clamped(raw.device_list_percent as int, 20, 80),
            r.general.sort_mode == sort_mode_of_name(raw.sort_mode@),
            r.general.search_mode == search_mode_of_name(raw.search_mode@),
            r.bluetooth.auto_trust_on_pair == raw.auto_trust_on_pair,
            r.bluetooth.connection_timeout_secs == clamped(
                raw.connection_timeout_secs as int,
                5,
                120,
            ),
            r.notifications.success_duration_ms == clamped(
                raw.success_duration_ms as int,
                500,
                30_000,
            ),
            r.notifications.error_duration_ms == clamped(
                raw.error_duration_ms as int,
                500,
                60_000,
            ),
            r.notifications.slide_speed_permille == clamped(
                raw.slide_speed_permille as int,
                10,
                1000,
            ),
            r.keys.quit == key_of_name(raw.keys.quit@),
            r.keys.nav_down == key_of_name(raw.keys.nav_down@),
            r.keys.nav_up == key_of_name(raw.keys.nav_up@),
            r.keys.jump_top == key_of_name(raw.keys.jump_top@),
            r.keys.jump_bottom == key_of_name(raw.keys.jump_bottom@),
            r.keys.search == key_of_name(raw.keys.search@),
            r.keys.help == key_of_name(raw.keys.help@),
            r.keys.toggle_adapter == key_of_name(raw.keys.toggle_adapter@),
            r.keys.toggle_scan == key_of_name(raw.keys.toggle_scan@),
            r.keys.connect_toggle == key_of_name(raw.keys.connect_toggle@),
            r.keys.disconnect == key_of_name(raw.keys.disconnect@),
            r.keys.pair == key_of_name(raw.keys.pair@),
            r.keys.trust == key_of_name(raw.keys.trust@),
            r.keys.remove == key_of_name(raw.keys.remove@),
            r.keys.refresh == key_of_name(raw.keys.refresh@),
            r.keys.cycle_sort == key_of_name(raw.keys.cycle_sort@),
            r.keys.rename == key_of_name(raw.keys.rename@),
    {
        let percent = clamp_u64(raw.device_list_percent as u64, 20, 80) as u16;
        let slide = clamp_u64(raw.slide_speed_permille as u64, 10, 1000) as u16;
        Config {
            general: GeneralConfig {
                tick_rate_ms: clamp_u64(raw.tick_rate_ms, 4, 200),
                scan_on_startup: raw.scan_on_startup,
                hide_unnamed_devices: raw.hide_unnamed_devices,
                device_list_percent: percent,
                sort_mode: parse_sort_mode(raw.sort_mode.as_str()),
                search_mode: parse_search_mode(raw.search_mode.as_str()),
            },
            bluetooth: BluetoothConfig {
                auto_trust_on_pair: raw.auto_trust_on_pair,
                connection_timeout_secs: clamp_u64(raw.connection_timeout_secs, 5, 120),
            },
            notifications: NotificationsConfig {
                success_duration_ms: clamp_u64(raw.success_duration_ms, 500, 30_000),
                error_duration_ms: clamp_u64(raw.error_duration_ms, 500, 60_000),
                slide_speed_permille: slide,
            },
            keys: KeybindingsConfig {
                quit: parse_key(raw.keys.quit.as_str()),
                nav_down: parse_key(raw.keys.nav_down.as_str()),
                nav_up: parse_key(raw.keys.nav_up.as_str()),
                jump_top: parse_key(raw.keys.jump_top.as_str()),
                jump_bottom: parse_key(raw.keys.jump_bottom.as_str()),
                search: parse_key(raw.keys.search.as_str()),
                help: parse_key(raw.keys.help.as_str()),
                toggle_adapter: parse_key(raw.keys.toggle_adapter.as_str()),
                toggle_scan: parse_key(raw.keys.toggle_scan.as_str()),
                connect_toggle: parse_key(raw.keys.connect_toggle.as_str()),
                disconnect: parse_key(raw.keys.disconnect.as_str()),
                pair: parse_key(raw.keys.pair.as_str()),
                trust: parse_key(raw.keys.trust.as_str()),
                remove: parse_key(raw.keys.remove.as_str()),
                refresh: parse_key(raw.keys.refresh.as_str()),
                cycle_sort: parse_key(raw.keys.cycle_sort.as_str()),
                rename: parse_key(raw.keys.rename.as_str()),
            },
        }
    }

    /// The settings used when the user has written none.
    pub fn standard() -> (r: Config)
        ensures
            r.wf(),
            r.general.tick_rate_ms == 16,
            !r.general.scan_on_startup,
            !r.general.hide_unnamed_devices,
            r.general.device_list_percent == 55,
            r.general.sort_mode == SortMode::Default,
            r.general.search_mode == SearchMode::Smart,
            r.bluetooth.auto_trust_on_pair,
            r.bluetooth.connection_timeout_secs == 30,
            r.notifications.success_duration_ms == 3000,
            r.notifications.error_duration_ms == 7000,
            r.notifications.slide_speed_permille == 80,
            r.keys.quit == KeyCode::Char('q'),
            r.keys.nav_down == KeyCode::Char('j'),
            r.keys.nav_up == KeyCode::Char('k'),
            r.keys.jump_top == KeyCode::Char('g'),
            r.keys.jump_bottom == KeyCode::Char('G'),
            r.keys.search == KeyCode::Char('/'),
            r.keys.help == KeyCode::Char('?'),
            r.keys.toggle_adapter == KeyCode::Char('a'),
            r.keys.toggle_scan == KeyCode::Char('s'),
            r.keys.connect_toggle == KeyCode::Enter,
            r.keys.disconnect == KeyCode::Char('d'),
            r.keys.pair == KeyCode::Char('p'),
            r.keys.trust == KeyCode::Char('t'),
            r.keys.remove == KeyCode::Char('r'),
            r.keys.refresh == KeyCode::Char('R'),
            r.keys.cycle_sort == KeyCode::Char('S'),
            r.keys.rename == KeyCode::Char('A'),
    {
        Config {
            general: GeneralConfig {
                tick_rate_ms: 16,
                scan_on_startup: false,
                hide_unnamed_devices: false,
                device_list_percent: 55,
                sort_mode: SortMode::Default,
                search_mode: SearchMode::Smart,
            },
            bluetooth: BluetoothConfig { auto_trust_on_pair: true, connection_timeout_secs: 30 },
            notifications: NotificationsConfig {
                success_duration_ms: 3000,
                error_duration_ms: 7000,
                slide_speed_permille: 80,
            },
            keys: KeybindingsConfig {
                quit: KeyCode::Char('q'),
                nav_down: KeyCode::Char('j'),
                nav_up: KeyCode::Char('k'),
                jump_top: KeyCode::Char('g'),
                jump_bottom: KeyCode::Char('G'),
                search: KeyCode::Char('/'),
                help: KeyCode::Char('?'),
                toggle_adapter: KeyCode::Char('a'),
                toggle_scan: KeyCode::Char('s'),
                connect_toggle: KeyCode::Enter,
                disconnect: KeyCode::Char('d'),
                pair: KeyCode::Char('p'),
                trust: KeyCode::Char('t'),
                remove: KeyCode::Char('r'),
                refresh: KeyCode::Char('R'),
                cycle_sort: KeyCode::Char('S'),
                rename: KeyCode::Char('A'),
            },
        }
    }
}

} // verus!
