//! Application state and the reducer that applies worker events, ticks and key
//! presses to it. It is the only writer of this state.
use vstd::prelude::*;
use vstd::string::StringExecFns;
use vstd::string::StrSliceExecFns;
use crate::config::{Config, KeybindingsConfig, SearchMode, SortMode, KeyCode, KeyPress, next_mode};
use crate::order::{sort_devices, sorted_by, unique_addresses, lemma_sorted_unique};
use crate::devices::{upserted, other_address, upsert, remove_address, lemma_filter_unique, lemma_upserted};
use crate::search::{Matcher, device_visible, search_error, search_error_of, pattern_active, full_pattern, regex_error};
use crate::text::{concat_str, push_char, pop_char, clear_string, trimmed, trim_of};
use crate::types::{Address, AdapterInfo, BtCommand, BtEvent, DeviceInfo, address_text};

verus! {

broadcast use vstd::seq_lib::group_seq_properties;

/// Which handler takes the next key press.
#[derive(Clone, Copy, Debug, PartialEq, Eq, Structural)]
pub enum InputMode {
    Normal,
    Search,
    Dialog,
    Rename,
}

/// Full slide-in progress, in thousandths.
pub const SLIDE_FULL: u16 = 1000;

/// The overlay on top of the device list. Each kind but help carries its
/// slide-in progress in thousandths.
#[derive(Debug)]
pub enum Popup {
    Error { message: String, slide: u16 },
    ConnectionResult { address: Address, success: bool, message: String, slide: u16 },
    PinDisplay { address: Address, pin: String, slide: u16 },
    Help,
}

/// Progress after one tick: up by `step`, never past full, never down.
pub open spec fn slid(slide: u16, step: u16) -> u16 {
    if slide >= 1000 {
        slide
    } else if slide + step >= 1000 {
        1000
    } else {
        (slide + step) as u16
    }
}

/// The popup after one tick of its slide-in.
pub open spec fn popup_slid(p: Popup, step: u16) -> Popup {
    match p {
        Popup::Error { message, slide } => Popup::Error { message, slide: slid(slide, step) },
        Popup::ConnectionResult { address, success, message, slide } => Popup::ConnectionResult {
            address,
            success,
            message,
            slide: slid(slide, step),
        },
        Popup::PinDisplay { address, pin, slide } => Popup::PinDisplay {
            address,
            pin,
            slide: slid(slide, step),
        },
        Popup::Help => Popup::Help,
    }
}

fn slide_step(slide: u16, step: u16) -> (r: u16)
    ensures
        r == slid(slide, step),
{
    if slide >= 1000 {
        slide
    } else if step >= 1000 - slide {
        1000
    } else {
        slide + step
    }
}

impl Popup {
    pub open spec fn slide_of(self) -> u16 {
        match self {
            Popup::Error { slide, .. } => slide,
            Popup::ConnectionResult { slide, .. } => slide,
            Popup::PinDisplay { slide, .. } => slide,
            Popup::Help => 1000,
        }
    }

    /// Slide-in progress in thousandths; help is always fully in.
    pub fn slide(&self) -> (r: u16)
        ensures
            r == self.slide_of(),
    {
        match self {
            Popup::Error { slide, .. } => *slide,
            Popup::ConnectionResult { slide, .. } => *slide,
            Popup::PinDisplay { slide, .. } => *slide,
            Popup::Help => SLIDE_FULL,
        }
    }

    /// Moves the slide-in forward by `step` thousandths, stopping at full.
    pub fn advance_slide(&mut self, step: u16)
        ensures
            *final(self) == popup_slid(*old(self), step),
    {
        match self {
            Popup::Error { slide, .. } => {
                *slide = slide_step(*slide, step);
            },
            Popup::ConnectionResult { slide, .. } => {
                *slide = slide_step(*slide, step);
            },
            Popup::PinDisplay { slide, .. } => {
                *slide = slide_step(*slide, step);
            },
            Popup::Help => {},
        }
    }
}

/// What the main loop does after a key press.
#[derive(Debug)]
pub enum AppAction {
    Quit,
    BtCommand(BtCommand),
    Consumed,
}

/// Which devices the filtered view keeps.
pub open spec fn visible_pred(hide_unnamed: bool, q: Seq<char>, mode: SearchMode) -> spec_fn(
    DeviceInfo,
) -> bool {
    |d: DeviceInfo| device_visible(d, hide_unnamed, q, mode)
}

/// A selection that fits a view of `len` devices.
pub open spec fn selection_ok(sel: int, len: int) -> bool {
    sel < len || (len == 0 && sel == 0)
}

/// The selection brought back into a view of `len` devices.
pub open spec fn clamp_index(sel: int, len: int) -> int {
    if len == 0 {
        0
    } else if sel >= len {
        len - 1
    } else {
        sel
    }
}

/// Address text as shown in popups.
pub open spec fn addr_text(a: Address) -> Seq<char> {
    address_text(a.value())
}

/// All state of the interface.
pub struct App {
    pub config: Config,
    /// All known devices, in the order of `sort_mode`.
    pub devices: Vec<DeviceInfo>,
    /// Index into the filtered view.
    pub selected_index: usize,
    pub adapter: AdapterInfo,
    pub scanning: bool,
    pub input_mode: InputMode,
    pub search_query: String,
    /// Inline error for an invalid pattern; empty when there is none.
    pub search_error: String,
    pub active_popup: Option<Popup>,
    /// Ticks since start.
    pub tick_count: u64,
    /// Ticks left before a transient popup closes by itself.
    pub popup_ttl: Option<u64>,
    pub running: bool,
    /// A redraw is due.
    pub dirty: bool,
    pub sort_mode: SortMode,
    pub rename_buffer: String,
    pub rename_target: Option<Address>,
    /// Size of the filtered view, refreshed on every tick for the status line.
    pub cached_filter_count: usize,
}


/// The text of an optional error, or a stock phrase when there is none.
pub open spec fn error_or_unknown(e: Option<String>) -> Seq<char> {
    match e {
        Some(s) => s@,
        None => "unknown error"@,
    }
}

fn error_text(e: Option<String>) -> (r: String)
    ensures
        r@ == error_or_unknown(e),
{
    match e {
        Some(s) => s,
        None => String::from_str("unknown error"),
    }
}

/// How long a transient popup stays, in milliseconds.
pub open spec fn popup_duration(cfg: Config, p: Popup) -> u64 {
    match p {
        Popup::ConnectionResult { success, .. } => if success {
            cfg.notifications.success_duration_ms
        } else {
            cfg.notifications.error_duration_ms
        },
        Popup::Error { .. } => cfg.notifications.error_duration_ms,
        _ => cfg.notifications.success_duration_ms,
    }
}

/// The tick length, never below one millisecond.
pub open spec fn tick_ms(cfg: Config) -> u64 {
    if cfg.general.tick_rate_ms == 0 {
        1
    } else {
        cfg.general.tick_rate_ms
    }
}

/// The number of ticks a transient popup stays.
pub open spec fn popup_ticks(cfg: Config, p: Popup) -> u64 {
    (popup_duration(cfg, p) / tick_ms(cfg)) as u64
}

impl App {
    /// The predicate of the filtered view.
    pub open spec fn shows(&self) -> spec_fn(DeviceInfo) -> bool {
        visible_pred(
            self.config.general.hide_unnamed_devices,
            self.search_query@,
            self.config.general.search_mode,
        )
    }

    /// The devices shown: those the unnamed-device policy keeps and the query matches.
    pub open spec fn shown_devices(&self) -> Seq<DeviceInfo> {
        self.devices@.filter(self.shows())
    }

    pub open spec fn wf(&self) -> bool {
        &&& self.config.wf()
        &&& unique_addresses(self.devices@)
        &&& selection_ok(self.selected_index as int, self.shown_devices().len() as int)
    }

    /// A fresh state: no devices, normal mode, nothing selected.
    pub fn new(config: Config) -> (r: App)
        requires
            config.wf(),
        ensures
            r.wf(),
            r.config == config,
            r.devices@.len() == 0,
            r.selected_index == 0,
            r.adapter.name@.len() == 0 && !r.adapter.powered,
            !r.scanning,
            r.input_mode == InputMode::Normal,
            r.search_query@.len() == 0,
            r.search_error@.len() == 0,
            r.active_popup is None,
            r.tick_count == 0,
            r.popup_ttl is None,
            r.running,
            r.dirty,
            r.sort_mode == config.general.sort_mode,
            r.rename_buffer@.len() == 0,
            r.rename_target is None,
            r.cached_filter_count == 0,
    {
        let r = App {
            config,
            devices: Vec::new(),
            selected_index: 0,
            adapter: AdapterInfo::unknown(),
            scanning: false,
            input_mode: InputMode::Normal,
            search_query: String::new(),
            search_error: String::new(),
            active_popup: None,
            tick_count: 0,
            popup_ttl: None,
            running: true,
            dirty: true,
            sort_mode: config.general.sort_mode,
            rename_buffer: String::new(),
            rename_target: None,
            cached_filter_count: 0,
        };
        assert(r.devices@.filter(r.shows()) =~= Seq::<DeviceInfo>::empty()) by {
            reveal(Seq::filter);
        }
        r
    }

    /// The size of the filtered view as of the last tick.
    pub fn filtered_count(&self) -> (r: usize)
        ensures
            r == self.cached_filter_count,
    {
        self.cached_filter_count
    }

    /// Positions in `devices` of the devices in the filtered view, in order.
    pub fn filtered_indices(&self) -> (r: Vec<usize>)
        ensures
            r@.len() == self.shown_devices().len(),
            forall|k: int|
                0 <= k < r@.len() ==> (#[trigger] r@[k] as int) < self.devices@.len()
                    && self.devices@[r@[k] as int] == self.shown_devices()[k],
    {
        let m = Matcher::new(self.search_query.as_str(), self.config.general.search_mode);
        let hide = self.config.general.hide_unnamed_devices;
        let ghost pred = self.shows();
        let mut r: Vec<usize> = Vec::new();
        let mut i: usize = 0;
        while i < self.devices.len()
            invariant
                m.wf(),
                hide == self.config.general.hide_unnamed_devices,
                pred == self.shows(),
                forall|d: DeviceInfo| crate::search::matcher_accepts(m, d) == #[trigger] crate::search::device_matches(d, self.search_query@, self.config.general.search_mode),
                i <= self.devices@.len(),
                r@.len() == self.devices@.take(i as int).filter(pred).len(),
                forall|k: int|
                    0 <= k < r@.len() ==> (#[trigger] r@[k] as int) < i
                        && self.devices@[r@[k] as int] == self.devices@.take(i as int).filter(pred)[k],
            decreases self.devices@.len() - i,
        {
            let d = &self.devices[i];
            let keep = !(hide && d.name.is_none()) && m.accepts(d);
            proof {
                assert(self.devices@.take(i + 1) =~= self.devices@.take(i as int).push(self.devices@[i as int]));
                self.devices@.take(i as int).lemma_filter_push(self.devices@[i as int], pred);
                assert(keep == pred(self.devices@[i as int]));
            }
            if keep {
                r.push(i);
            }
            i += 1;
        }
        assert(self.devices@.take(i as int) =~= self.devices@);
        r
    }

    /// The filtered view.
    pub fn filtered_devices(&self) -> (r: Vec<&DeviceInfo>)
        ensures
            r@.len() == self.shown_devices().len(),
            forall|k: int| 0 <= k < r@.len() ==> *(#[trigger] r@[k]) == self.shown_devices()[k],
    {
        let idx = self.filtered_indices();
        let mut r: Vec<&DeviceInfo> = Vec::new();
        let mut k: usize = 0;
        while k < idx.len()
            invariant
                idx@.len() == self.shown_devices().len(),
                forall|j: int|
                    0 <= j < idx@.len() ==> (#[trigger] idx@[j] as int) < self.devices@.len()
                        && self.devices@[idx@[j] as int] == self.shown_devices()[j],
                k <= idx@.len(),
                r@.len() == k,
                forall|j: int| 0 <= j < k ==> *(#[trigger] r@[j]) == self.shown_devices()[j],
            decreases idx@.len() - k,
        {
            r.push(&self.devices[idx[k]]);
            k += 1;
        }
        r
    }

    /// The number of devices in the filtered view.
    pub fn visible_count(&self) -> (r: usize)
        ensures
            r == self.shown_devices().len(),
    {
        self.filtered_indices().len()
    }

    /// The device under the cursor, if the view has one there.
    pub fn selected_device(&self) -> (r: Option<&DeviceInfo>)
        ensures
            (self.selected_index as int) < self.shown_devices().len() ==> r == Some(&self.shown_devices()[self.selected_index as int]),
            (self.selected_index as int) >= self.shown_devices().len() ==> r is None,
    {
        let idx = self.filtered_indices();
        if self.selected_index < idx.len() {
            Some(&self.devices[idx[self.selected_index]])
        } else {
            None
        }
    }

    /// Brings the selection back inside the filtered view.
    fn clamp_selection(&mut self)
        ensures
            final(self).selected_index == clamp_index(
                old(self).selected_index as int,
                old(self).shown_devices().len() as int,
            ),
            final(self).devices == old(self).devices,
            final(self).config == old(self).config,
            final(self).search_query == old(self).search_query,
            final(self).search_error == old(self).search_error,
            final(self).adapter == old(self).adapter,
            final(self).scanning == old(self).scanning,
            final(self).input_mode == old(self).input_mode,
            final(self).active_popup == old(self).active_popup,
            final(self).tick_count == old(self).tick_count,
            final(self).popup_ttl == old(self).popup_ttl,
            final(self).running == old(self).running,
            final(self).dirty == old(self).dirty,
            final(self).sort_mode == old(self).sort_mode,
            final(self).rename_buffer == old(self).rename_buffer,
            final(self).rename_target == old(self).rename_target,
            final(self).cached_filter_count == old(self).cached_filter_count,
    {
        let len = self.visible_count();
        if len == 0 {
            self.selected_index = 0;
        } else if self.selected_index >= len {
            self.selected_index = len - 1;
        }
    }

    /// Fields that worker events never touch.
    pub open spec fn same_settings(&self, o: &App) -> bool {
        &&& self.config == o.config
        &&& self.search_query == o.search_query
        &&& self.search_error == o.search_error
        &&& self.tick_count == o.tick_count
        &&& self.running == o.running
        &&& self.sort_mode == o.sort_mode
        &&& self.rename_buffer == o.rename_buffer
        &&& self.rename_target == o.rename_target
        &&& self.cached_filter_count == o.cached_filter_count
    }

    /// Opens a popup that closes by itself after its number of ticks.
    fn show_transient_popup(&mut self, popup: Popup)
        ensures
            final(self).active_popup == Some(popup),
            final(self).input_mode == InputMode::Dialog,
            final(self).popup_ttl == Some(popup_ticks(old(self).config, popup)),
            final(self).same_settings(old(self)),
            final(self).devices == old(self).devices,
            final(self).selected_index == old(self).selected_index,
            final(self).adapter == old(self).adapter,
            final(self).scanning == old(self).scanning,
            final(self).dirty == old(self).dirty,
    {
        let duration = match &popup {
            Popup::ConnectionResult { success, .. } => if *success {
                self.config.notifications.success_duration_ms
            } else {
                self.config.notifications.error_duration_ms
            },
            Popup::Error { .. } => self.config.notifications.error_duration_ms,
            _ => self.config.notifications.success_duration_ms,
        };
        let tick = if self.config.general.tick_rate_ms == 0 {
            1
        } else {
            self.config.general.tick_rate_ms
        };
        self.active_popup = Some(popup);
        self.input_mode = InputMode::Dialog;
        self.popup_ttl = Some(duration / tick);
    }

    /// Puts an error popup up, without a timer.
    pub fn push_error(&mut self, message: String)
        ensures
            final(self).active_popup == Some(Popup::Error { message, slide: 0 }),
            final(self).dirty,
            final(self).same_settings(old(self)),
            final(self).devices == old(self).devices,
            final(self).selected_index == old(self).selected_index,
            final(self).adapter == old(self).adapter,
            final(self).scanning == old(self).scanning,
            final(self).input_mode == old(self).input_mode,
            final(self).popup_ttl == old(self).popup_ttl,
    {
        self.active_popup = Some(Popup::Error { message, slide: 0 });
        self.dirty = true;
    }

    /// Re-sorts the device list in the active order.
    fn sort_current(&mut self)
        ensures
            final(self).devices@ == sorted_by(old(self).sort_mode, old(self).devices@),
            final(self).same_settings(old(self)),
            final(self).selected_index == old(self).selected_index,
            final(self).adapter == old(self).adapter,
            final(self).scanning == old(self).scanning,
            final(self).input_mode == old(self).input_mode,
            final(self).active_popup == old(self).active_popup,
            final(self).popup_ttl == old(self).popup_ttl,
            final(self).dirty == old(self).dirty,
    {
        let mode = self.sort_mode;
        sort_devices(mode, &mut self.devices);
    }

    /// Applies one worker event.
    pub fn handle_bt_event(&mut self, event: BtEvent)
        requires
            old(self).wf(),
        ensures
            final(self).wf(),
            final(self).dirty,
            final(self).same_settings(old(self)),
            match event {
                BtEvent::AdapterState(info) => {
                    &&& final(self).adapter == info
                    &&& final(self).devices == old(self).devices
                    &&& final(self).selected_index == old(self).selected_index
                    &&& final(self).scanning == old(self).scanning
                    &&& final(self).active_popup == old(self).active_popup
                    &&& final(self).input_mode == old(self).input_mode
                    &&& final(self).popup_ttl == old(self).popup_ttl
                },
                BtEvent::DeviceFound(info) | BtEvent::DeviceUpdated(info) => {
                    &&& final(self).devices@ == sorted_by(
                        old(self).sort_mode,
                        upserted(old(self).devices@, info),
                    )
                    &&& final(self).selected_index == clamp_index(
                        old(self).selected_index as int,
                        final(self).shown_devices().len() as int,
                    )
                    &&& final(self).adapter == old(self).adapter
                    &&& final(self).scanning == old(self).scanning
                    &&& final(self).active_popup == old(self).active_popup
                    &&& final(self).input_mode == old(self).input_mode
                    &&& final(self).popup_ttl == old(self).popup_ttl
                },
                BtEvent::DeviceRemoved(a) => {
                    &&& final(self).devices@ == old(self).devices@.filter(other_address(a))
                    &&& final(self).selected_index == clamp_index(
                        old(self).selected_index as int,
                        final(self).shown_devices().len() as int,
                    )
                    &&& final(self).adapter == old(self).adapter
                    &&& final(self).scanning == old(self).scanning
                    &&& final(self).active_popup == old(self).active_popup
                    &&& final(self).input_mode == old(self).input_mode
                    &&& final(self).popup_ttl == old(self).popup_ttl
                },
                BtEvent::ConnectionResult { address, success, error } => {
                    &&& final(self).active_popup matches Some(
                        Popup::ConnectionResult { address: a, success: s, message, slide },
                    ) && a == address && s == success && slide == 0 && message@ == (if success {
                        "Connected to "@ + addr_text(address)
                    } else {
                        "Connection failed: "@ + error_or_unknown(error)
                    })
                    &&& final(self).input_mode == InputMode::Dialog
                    &&& final(self).popup_ttl == Some(
                        popup_ticks(old(self).config, final(self).active_popup.unwrap()),
                    )
                    &&& final(self).devices == old(self).devices
                    &&& final(self).selected_index == old(self).selected_index
                    &&& final(self).adapter == old(self).adapter
                    &&& final(self).scanning == old(self).scanning
                },
                BtEvent::PairResult { address, success, error } => {
                    &&& success ==> {
                        &&& final(self).active_popup == old(self).active_popup
                        &&& final(self).input_mode == old(self).input_mode
                        &&& final(self).popup_ttl == old(self).popup_ttl
                    }
                    &&& !success ==> {
                        &&& final(self).active_popup matches Some(Popup::Error { message, slide })
                            && slide == 0 && message@ == "Pairing failed: "@ + error_or_unknown(
                            error,
                        )
                        &&& final(self).input_mode == InputMode::Dialog
                        &&& final(self).popup_ttl == Some(
                            (old(self).config.notifications.error_duration_ms / tick_ms(
                                old(self).config,
                            )) as u64,
                        )
                    }
                    &&& final(self).devices == old(self).devices
                    &&& final(self).selected_index == old(self).selected_index
                    &&& final(self).adapter == old(self).adapter
                    &&& final(self).scanning == old(self).scanning
                },
                BtEvent::PinRequest { address, pin } => {
                    &&& final(self).active_popup == Some(
                        Popup::PinDisplay { address, pin, slide: 0 },
                    )
                    &&& final(self).input_mode == InputMode::Dialog
                    &&& final(self).popup_ttl is None
                    &&& final(self).devices == old(self).devices
                    &&& final(self).selected_index == old(self).selected_index
                    &&& final(self).adapter == old(self).adapter
                    &&& final(self).scanning == old(self).scanning
                },
                BtEvent::ScanningChanged(on) => {
                    &&& final(self).scanning == on
                    &&& final(self).devices == old(self).devices
                    &&& final(self).selected_index == old(self).selected_index
                    &&& final(self).adapter == old(self).adapter
                    &&& final(self).active_popup == old(self).active_popup
                    &&& final(self).input_mode == old(self).input_mode
                    &&& final(self).popup_ttl == old(self).popup_ttl
                },
                BtEvent::Error(msg) => {
                    &&& final(self).active_popup == Some(Popup::Error { message: msg, slide: 0 })
                    &&& final(self).input_mode == InputMode::Dialog
                    &&& final(self).popup_ttl == Some(
                        (old(self).config.notifications.error_duration_ms / tick_ms(
                            old(self).config,
                        )) as u64,
                    )
                    &&& final(self).devices == old(self).devices
                    &&& final(self).selected_index == old(self).selected_index
                    &&& final(self).adapter == old(self).adapter
                    &&& final(self).scanning == old(self).scanning
                },
            },
    {
        self.dirty = true;
        match event {
            BtEvent::AdapterState(info) => {
                self.adapter = info;
            },
            BtEvent::DeviceFound(info) => {
                proof {
                    lemma_upserted(self.devices@, info);
                    lemma_sorted_unique(self.sort_mode, upserted(self.devices@, info));
                }
                upsert(&mut self.devices, info);
                self.sort_current();
                self.clamp_selection();
            },
            BtEvent::DeviceUpdated(info) => {
                proof {
                    lemma_upserted(self.devices@, info);
                    lemma_sorted_unique(self.sort_mode, upserted(self.devices@, info));
                }
                upsert(&mut self.devices, info);
                self.sort_current();
                self.clamp_selection();
            },
            BtEvent::DeviceRemoved(a) => {
                proof {
                    lemma_filter_unique(self.devices@, other_address(a));
                }
                remove_address(&mut self.devices, a);
                self.clamp_selection();
            },
            BtEvent::ConnectionResult { address, success, error } => {
                let message = if success {
                    concat_str("Connected to ", address.to_string().as_str())
                } else {
                    concat_str("Connection failed: ", error_text(error).as_str())
                };
                self.show_transient_popup(
                    Popup::ConnectionResult { address, success, message, slide: 0 },
                );
            },
            BtEvent::PairResult { address, success, error } => {
                if !success {
                    let message = concat_str("Pairing failed: ", error_text(error).as_str());
                    self.show_transient_popup(Popup::Error { message, slide: 0 });
                }
            },
            BtEvent::PinRequest { address, pin } => {
                self.active_popup = Some(Popup::PinDisplay { address, pin, slide: 0 });
                self.input_mode = InputMode::Dialog;
                self.popup_ttl = None;
            },
            BtEvent::ScanningChanged(on) => {
                self.scanning = on;
            },
            BtEvent::Error(msg) => {
                self.show_transient_popup(Popup::Error { message: msg, slide: 0 });
            },
        }
    }

    /// One animation tick: count it, refresh the cached view size, slide the
    /// popup in, and count down a transient popup, closing it when its time
    /// is up (and leaving dialog mode if it was on).
    pub fn on_tick(&mut self)
        requires
            old(self).wf(),
        ensures
            final(self).wf(),
            final(self).tick_count == (if old(self).tick_count == u64::MAX {
                0
            } else {
                (old(self).tick_count + 1) as u64
            }),
            final(self).cached_filter_count == old(self).shown_devices().len(),
            final(self).popup_ttl == ttl_after_tick(old(self).popup_ttl),
            closes_on_tick(old(self).popup_ttl) ==> {
                &&& final(self).active_popup is None
                &&& final(self).input_mode == (if old(self).input_mode == InputMode::Dialog {
                    InputMode::Normal
                } else {
                    old(self).input_mode
                })
            },
            !closes_on_tick(old(self).popup_ttl) ==> {
                &&& final(self).input_mode == old(self).input_mode
                &&& final(self).active_popup == match old(self).active_popup {
                    Some(p) => Some(popup_slid(p, old(self).config.notifications.slide_speed_permille)),
                    None => None,
                }
            },
            final(self).dirty == (old(self).dirty || old(self).scanning || closes_on_tick(old(self).popup_ttl)
                || (old(self).active_popup matches Some(p) && p.slide_of() < 1000 && !(p is Help))),
            final(self).config == old(self).config,
            final(self).devices == old(self).devices,
            final(self).selected_index == old(self).selected_index,
            final(self).adapter == old(self).adapter,
            final(self).scanning == old(self).scanning,
            final(self).search_query == old(self).search_query,
            final(self).search_error == old(self).search_error,
            final(self).running == old(self).running,
            final(self).sort_mode == old(self).sort_mode,
            final(self).rename_buffer == old(self).rename_buffer,
            final(self).rename_target == old(self).rename_target,
    {
        self.tick_count = if self.tick_count == u64::MAX { 0 } else { self.tick_count + 1 };
        self.cached_filter_count = self.visible_count();
        let step = self.config.notifications.slide_speed_permille;
        let mut moved = false;
        match &mut self.active_popup {
            Some(p) => {
                if p.slide() < SLIDE_FULL {
                    match p {
                        Popup::Help => {},
                        _ => {
                            moved = true;
                        },
                    }
                }
                p.advance_slide(step);
            },
            None => {},
        }
        if moved {
            self.dirty = true;
        }
        match self.popup_ttl {
            Some(t) => {
                if t <= 1 {
                    self.active_popup = None;
                    self.popup_ttl = None;
                    if self.input_mode == InputMode::Dialog {
                        self.input_mode = InputMode::Normal;
                    }
                    self.dirty = true;
                } else {
                    self.popup_ttl = Some(t - 1);
                }
            },
            None => {},
        }
        if self.scanning {
            self.dirty = true;
        }
    }
}

/// The countdown after one tick.
pub open spec fn ttl_after_tick(t: Option<u64>) -> Option<u64> {
    match t {
        Some(n) => if n <= 1 {
            None
        } else {
            Some((n - 1) as u64)
        },
        None => None,
    }
}

/// The tick that sees this countdown closes the popup.
pub open spec fn closes_on_tick(t: Option<u64>) -> bool {
    t matches Some(n) && n <= 1
}

/// The countdown after `k` ticks.
pub open spec fn ttl_after_ticks(t: Option<u64>, k: nat) -> Option<u64>
    decreases k,
{
    if k == 0 {
        t
    } else {
        ttl_after_tick(ttl_after_ticks(t, (k - 1) as nat))
    }
}

/// A transient popup that was given `n >= 1` ticks stays open through the
/// first `n - 1` ticks and is closed by tick `n`, exactly.
pub proof fn lemma_popup_closes_after_exactly(n: u64, k: nat)
    requires
        n >= 1,
        k < n,
    ensures
        ttl_after_ticks(Some(n), k) == Some((n - k) as u64),
        closes_on_tick(ttl_after_ticks(Some(n), k)) <==> k == n - 1,
    decreases k,
{
    if k > 0 {
        lemma_popup_closes_after_exactly(n, (k - 1) as nat);
    }
}

/// With valid settings a transient popup lives `duration / tick` ticks, and
/// that is at least two.
pub proof fn lemma_popup_ticks(cfg: Config, p: Popup)
    requires
        cfg.wf(),
    ensures
        popup_ticks(cfg, p) == popup_duration(cfg, p) / cfg.general.tick_rate_ms,
        popup_ticks(cfg, p) >= 2,
{
    assert(popup_duration(cfg, p) >= 500);
    let d = popup_duration(cfg, p) as int;
    let t = cfg.general.tick_rate_ms as int;
    assert(d / t >= 2) by (nonlinear_arith)
        requires
            d >= 500,
            4 <= t <= 200,
    {
        assert(d >= 2 * t);
    }
}

/// What a key press means in normal mode. Control-C always quits; otherwise
/// the first binding in this order that names the key wins.
#[derive(Clone, Copy, Debug, PartialEq, Eq, Structural)]
pub enum NormalKey {
    Quit,
    Down,
    Up,
    Top,
    Bottom,
    Search,
    Help,
    CycleSort,
    Rename,
    ToggleAdapter,
    ToggleScan,
    ConnectToggle,
    Disconnect,
    Pair,
    Trust,
    Remove,
    Refresh,
    Unbound,
}

pub open spec fn normal_key_of(keys: KeybindingsConfig, k: KeyPress) -> NormalKey {
    let c = k.code;
    if k.ctrl && c == KeyCode::Char('c') {
        NormalKey::Quit
    } else if c == keys.quit {
        NormalKey::Quit
    } else if c == keys.nav_down || c == KeyCode::Down {
        NormalKey::Down
    } else if c == keys.nav_up || c == KeyCode::Up {
        NormalKey::Up
    } else if c == keys.jump_top {
        NormalKey::Top
    } else if c == keys.jump_bottom {
        NormalKey::Bottom
    } else if c == keys.search {
        NormalKey::Search
    } else if c == keys.help {
        NormalKey::Help
    } else if c == keys.cycle_sort {
        NormalKey::CycleSort
    } else if c == keys.rename {
        NormalKey::Rename
    } else if c == keys.toggle_adapter {
        NormalKey::ToggleAdapter
    } else if c == keys.toggle_scan {
        NormalKey::ToggleScan
    } else if c == keys.connect_toggle {
        NormalKey::ConnectToggle
    } else if c == keys.disconnect {
        NormalKey::Disconnect
    } else if c == keys.pair {
        NormalKey::Pair
    } else if c == keys.trust {
        NormalKey::Trust
    } else if c == keys.remove {
        NormalKey::Remove
    } else if c == keys.refresh {
        NormalKey::Refresh
    } else {
        NormalKey::Unbound
    }
}

/// Reads a key press in normal mode.
pub fn classify_normal_key(keys: &KeybindingsConfig, k: KeyPress) -> (r: NormalKey)
    ensures
        r == normal_key_of(*keys, k),
{
    let c = k.code;
    if k.ctrl && c == KeyCode::Char('c') {
        NormalKey::Quit
    } else if c == keys.quit {
        NormalKey::Quit
    } else if c == keys.nav_down || c == KeyCode::Down {
        NormalKey::Down
    } else if c == keys.nav_up || c == KeyCode::Up {
        NormalKey::Up
    } else if c == keys.jump_top {
        NormalKey::Top
    } else if c == keys.jump_bottom {
        NormalKey::Bottom
    } else if c == keys.search {
        NormalKey::Search
    } else if c == keys.help {
        NormalKey::Help
    } else if c == keys.cycle_sort {
        NormalKey::CycleSort
    } else if c == keys.rename {
        NormalKey::Rename
    } else if c == keys.toggle_adapter {
        NormalKey::ToggleAdapter
    } else if c == keys.toggle_scan {
        NormalKey::ToggleScan
    } else if c == keys.connect_toggle {
        NormalKey::ConnectToggle
    } else if c == keys.disconnect {
        NormalKey::Disconnect
    } else if c == keys.pair {
        NormalKey::Pair
    } else if c == keys.trust {
        NormalKey::Trust
    } else if c == keys.remove {
        NormalKey::Remove
    } else if c == keys.refresh {
        NormalKey::Refresh
    } else {
        NormalKey::Unbound
    }
}

/// The command a device key sends for the selected device.
pub open spec fn device_command(nk: NormalKey, d: DeviceInfo) -> BtCommand {
    match nk {
        NormalKey::ConnectToggle => if d.connected {
            BtCommand::Disconnect(d.address)
        } else {
            BtCommand::Connect(d.address)
        },
        NormalKey::Disconnect => BtCommand::Disconnect(d.address),
        NormalKey::Pair => BtCommand::Pair(d.address),
        NormalKey::Trust => BtCommand::Trust(d.address),
        NormalKey::Remove => BtCommand::RemoveDevice(d.address),
        _ => BtCommand::RefreshDevice(d.address),
    }
}

/// Keys that act on the selected device.
pub open spec fn is_device_key(nk: NormalKey) -> bool {
    nk == NormalKey::ConnectToggle || nk == NormalKey::Disconnect || nk == NormalKey::Pair
        || nk == NormalKey::Trust || nk == NormalKey::Remove || nk == NormalKey::Refresh
}

/// The action that a normal-mode key press returns.
pub open spec fn normal_action(app: App, nk: NormalKey) -> AppAction {
    if nk == NormalKey::Quit {
        AppAction::Quit
    } else if nk == NormalKey::ToggleAdapter {
        AppAction::BtCommand(
            if app.adapter.powered {
                BtCommand::DisableAdapter
            } else {
                BtCommand::EnableAdapter
            },
        )
    } else if nk == NormalKey::ToggleScan {
        AppAction::BtCommand(
            if app.scanning {
                BtCommand::StopScan
            } else {
                BtCommand::StartScan
            },
        )
    } else if is_device_key(nk) && (app.selected_index as int) < app.shown_devices().len() {
        AppAction::BtCommand(device_command(nk, app.shown_devices()[app.selected_index as int]))
    } else {
        AppAction::Consumed
    }
}

/// The selection after a normal-mode key press that moves it.
pub open spec fn moved_selection(nk: NormalKey, sel: int, len: int) -> int {
    if nk == NormalKey::Down {
        if len > 0 {
            if sel + 1 < len - 1 { sel + 1 } else { len - 1 }
        } else {
            sel
        }
    } else if nk == NormalKey::Up {
        if sel > 0 { sel - 1 } else { sel }
    } else if nk == NormalKey::Top {
        0
    } else if nk == NormalKey::Bottom {
        if len > 0 { len - 1 } else { sel }
    } else {
        sel
    }
}

/// Keys that only move the selection.
pub open spec fn is_move_key(nk: NormalKey) -> bool {
    nk == NormalKey::Down || nk == NormalKey::Up || nk == NormalKey::Top || nk == NormalKey::Bottom
}

impl App {
    /// Fields that no key press touches.
    pub open spec fn same_world(&self, o: &App) -> bool {
        &&& self.config == o.config
        &&& self.devices == o.devices
        &&& self.adapter == o.adapter
        &&& self.scanning == o.scanning
        &&& self.tick_count == o.tick_count
        &&& self.running == o.running
        &&& self.cached_filter_count == o.cached_filter_count
    }

    /// The device under the cursor, as a value.
    pub open spec fn selected_spec(&self) -> Option<DeviceInfo> {
        if (self.selected_index as int) < self.shown_devices().len() {
            Some(self.shown_devices()[self.selected_index as int])
        } else {
            None
        }
    }

    fn selected_address(&self) -> (r: Option<(Address, bool)>)
        ensures
            self.selected_spec() is None ==> r is None,
            self.selected_spec() matches Some(d) ==> r == Some((d.address, d.connected)),
    {
        match self.selected_device() {
            Some(d) => Some((d.address, d.connected)),
            None => None,
        }
    }

    /// The effect of a key press in this mode, the redraw flag aside.
    pub open spec fn normal_step(self, new: App, key: KeyPress, r: AppAction) -> bool {
        let nk = normal_key_of(self.config.keys, key);
        let len = self.shown_devices().len() as int;
        &&& new.same_world(&self) || nk == NormalKey::CycleSort
        &&& r == normal_action(self, nk)
        &&& ({
            &&& is_move_key(nk) ==> new.selected_index == moved_selection(
                nk,
                self.selected_index as int,
                len,
            )
            &&& nk == NormalKey::Search ==> {
                &&& new.input_mode == InputMode::Search
                &&& new.search_query@.len() == 0
                &&& new.search_error@.len() == 0
                &&& new.selected_index == clamp_index(
                    self.selected_index as int,
                    new.shown_devices().len() as int,
                )
            }
            &&& nk == NormalKey::Help ==> {
                &&& new.active_popup == Some(Popup::Help)
                &&& new.input_mode == InputMode::Dialog
                &&& new.popup_ttl is None
            }
            &&& nk == NormalKey::CycleSort ==> {
                &&& new.sort_mode == next_mode(self.sort_mode)
                &&& new.devices@ == sorted_by(
                    next_mode(self.sort_mode),
                    self.devices@,
                )
                &&& new.selected_index == clamp_index(
                    self.selected_index as int,
                    new.shown_devices().len() as int,
                )
                &&& new.config == self.config
                &&& new.adapter == self.adapter
                &&& new.scanning == self.scanning
            }
            &&& nk == NormalKey::Rename ==> match self.selected_spec() {
                Some(d) => {
                    &&& new.rename_target == Some(d.address)
                    &&& new.rename_buffer@ == d.alias@
                    &&& new.input_mode == InputMode::Rename
                },
                None => {
                    &&& new.rename_target == self.rename_target
                    &&& new.rename_buffer == self.rename_buffer
                    &&& new.input_mode == self.input_mode
                },
            }
            &&& !is_move_key(nk) && nk != NormalKey::Search && nk != NormalKey::CycleSort
                ==> new.selected_index == self.selected_index
            &&& nk != NormalKey::Search ==> new.search_query == self.search_query
                && new.search_error == self.search_error
            &&& nk != NormalKey::Help ==> new.active_popup == self.active_popup
                && new.popup_ttl == self.popup_ttl
            &&& nk != NormalKey::Search && nk != NormalKey::Help && nk != NormalKey::Rename
                ==> new.input_mode == self.input_mode
            &&& nk != NormalKey::Rename ==> new.rename_target == self.rename_target
                && new.rename_buffer == self.rename_buffer
            &&& nk != NormalKey::CycleSort ==> new.sort_mode == self.sort_mode
        })
    }

    /// The effect of a key press in this mode, the redraw flag aside.
    pub open spec fn search_step(self, new: App, key: KeyPress, r: AppAction) -> bool {
        &&& r == AppAction::Consumed
        &&& new.same_world(&self)
        &&& new.active_popup == self.active_popup
        &&& new.popup_ttl == self.popup_ttl
        &&& new.sort_mode == self.sort_mode
        &&& new.rename_buffer == self.rename_buffer
        &&& new.rename_target == self.rename_target
        &&& match key.code {
            KeyCode::Esc => {
                &&& new.input_mode == InputMode::Normal
                &&& new.search_query@.len() == 0
                &&& new.search_error@.len() == 0
                &&& new.selected_index == clamp_index(
                    self.selected_index as int,
                    new.shown_devices().len() as int,
                )
            },
            KeyCode::Enter => {
                &&& new.input_mode == InputMode::Normal
                &&& new.search_query == self.search_query
                &&& new.search_error == self.search_error
                &&& new.selected_index == clamp_index(
                    self.selected_index as int,
                    new.shown_devices().len() as int,
                )
            },
            KeyCode::Backspace => {
                &&& new.input_mode == self.input_mode
                &&& new.search_query@ == (if self.search_query@.len() > 0 {
                    self.search_query@.drop_last()
                } else {
                    self.search_query@
                })
                &&& new.search_error@ == search_error_of(
                    new.search_query@,
                    self.config.general.search_mode,
                )
                &&& new.selected_index == 0
            },
            KeyCode::Char(c) => {
                &&& new.input_mode == self.input_mode
                &&& new.search_query@ == self.search_query@.push(c)
                &&& new.search_error@ == search_error_of(
                    new.search_query@,
                    self.config.general.search_mode,
                )
                &&& new.selected_index == 0
            },
            _ => {
                &&& new.input_mode == self.input_mode
                &&& new.search_query == self.search_query
                &&& new.search_error == self.search_error
                &&& new.selected_index == self.selected_index
            }
        }
    }

    /// The effect of a key press in this mode, the redraw flag aside.
    pub open spec fn dialog_step(self, new: App, key: KeyPress, r: AppAction) -> bool {
        &&& r == AppAction::Consumed
        &&& new.same_world(&self)
        &&& new.selected_index == self.selected_index
        &&& new.search_query == self.search_query
        &&& new.search_error == self.search_error
        &&& new.sort_mode == self.sort_mode
        &&& new.rename_buffer == self.rename_buffer
        &&& new.rename_target == self.rename_target
        &&& (key.code == KeyCode::Esc || key.code == KeyCode::Enter || key.code
            == self.config.keys.quit) ==> {
            &&& new.active_popup is None
            &&& new.popup_ttl is None
            &&& new.input_mode == InputMode::Normal
        }
        &&& !(key.code == KeyCode::Esc || key.code == KeyCode::Enter || key.code
            == self.config.keys.quit) ==> {
            &&& new.active_popup == self.active_popup
            &&& new.popup_ttl == self.popup_ttl
            &&& new.input_mode == self.input_mode
        }
    }

    /// The effect of a key press in this mode, the redraw flag aside.
    pub open spec fn rename_step(self, new: App, key: KeyPress, r: AppAction) -> bool {
        &&& new.same_world(&self)
        &&& new.selected_index == self.selected_index
        &&& new.search_query == self.search_query
        &&& new.search_error == self.search_error
        &&& new.active_popup == self.active_popup
        &&& new.popup_ttl == self.popup_ttl
        &&& new.sort_mode == self.sort_mode
        &&& match key.code {
            KeyCode::Esc => {
                &&& r == AppAction::Consumed
                &&& new.input_mode == InputMode::Normal
                &&& new.rename_buffer@.len() == 0
                &&& new.rename_target is None
            },
            KeyCode::Enter => {
                &&& new.input_mode == InputMode::Normal
                &&& new.rename_buffer@.len() == 0
                &&& new.rename_target is None
                &&& r == match self.rename_target {
                    Some(a) => if trim_of(self.rename_buffer@).len() > 0 {
                        AppAction::BtCommand(BtCommand::SetAlias(a, renamed_to(r)))
                    } else {
                        AppAction::Consumed
                    },
                    None => AppAction::Consumed,
                }
                &&& r matches AppAction::BtCommand(BtCommand::SetAlias(_, t)) ==> t@ == trim_of(
                    self.rename_buffer@,
                )
            },
            KeyCode::Backspace => {
                &&& r == AppAction::Consumed
                &&& new.input_mode == self.input_mode
                &&& new.rename_target == self.rename_target
                &&& new.rename_buffer@ == (if self.rename_buffer@.len() > 0 {
                    self.rename_buffer@.drop_last()
                } else {
                    self.rename_buffer@
                })
            },
            KeyCode::Char(c) => {
                &&& r == AppAction::Consumed
                &&& new.input_mode == self.input_mode
                &&& new.rename_target == self.rename_target
                &&& new.rename_buffer@ == self.rename_buffer@.push(c)
            },
            _ => {
                &&& r == AppAction::Consumed
                &&& new.input_mode == self.input_mode
                &&& new.rename_target == self.rename_target
                &&& new.rename_buffer == self.rename_buffer
            }
        }
    }

    fn handle_normal_key(&mut self, key: KeyPress) -> (r: AppAction)
        requires
            old(self).wf(),
        ensures
            final(self).wf(),
            old(self).normal_step(*final(self), key, r),
            final(self).dirty == (normal_key_of(old(self).config.keys, key) != NormalKey::Unbound),
    {
        let nk = classify_normal_key(&self.config.keys, key);
        self.dirty = true;
        match nk {
            NormalKey::Quit => AppAction::Quit,
            NormalKey::Down => {
                let len = self.visible_count();
                if len > 0 {
                    self.selected_index = if self.selected_index + 1 < len - 1 {
                        self.selected_index + 1
                    } else {
                        len - 1
                    };
                }
                AppAction::Consumed
            },
            NormalKey::Up => {
                if self.selected_index > 0 {
                    self.selected_index = self.selected_index - 1;
                }
                AppAction::Consumed
            },
            NormalKey::Top => {
                self.selected_index = 0;
                AppAction::Consumed
            },
            NormalKey::Bottom => {
                let len = self.visible_count();
                if len > 0 {
                    self.selected_index = len - 1;
                }
                AppAction::Consumed
            },
            NormalKey::Search => {
                self.input_mode = InputMode::Search;
                clear_string(&mut self.search_query);
                clear_string(&mut self.search_error);
                self.clamp_selection();
                AppAction::Consumed
            },
            NormalKey::Help => {
                self.active_popup = Some(Popup::Help);
                self.input_mode = InputMode::Dialog;
                self.popup_ttl = None;
                AppAction::Consumed
            },
            NormalKey::CycleSort => {
                proof {
                    lemma_sorted_unique(next_mode(self.sort_mode), self.devices@);
                }
                self.sort_mode = self.sort_mode.next();
                self.sort_current();
                self.clamp_selection();
                AppAction::Consumed
            },
            NormalKey::Rename => {
                match self.selected_device() {
                    Some(d) => {
                        let a = d.address;
                        let alias = d.alias.clone();
                        self.rename_target = Some(a);
                        self.rename_buffer = alias;
                        self.input_mode = InputMode::Rename;
                    },
                    None => {},
                }
                AppAction::Consumed
            },
            NormalKey::ToggleAdapter => {
                if self.adapter.powered {
                    AppAction::BtCommand(BtCommand::DisableAdapter)
                } else {
                    AppAction::BtCommand(BtCommand::EnableAdapter)
                }
            },
            NormalKey::ToggleScan => {
                if self.scanning {
                    AppAction::BtCommand(BtCommand::StopScan)
                } else {
                    AppAction::BtCommand(BtCommand::StartScan)
                }
            },
            NormalKey::Unbound => {
                self.dirty = false;
                AppAction::Consumed
            },
            _ => {
                match self.selected_address() {
                    Some((a, connected)) => {
                        let cmd = match nk {
                            NormalKey::ConnectToggle => if connected {
                                BtCommand::Disconnect(a)
                            } else {
                                BtCommand::Connect(a)
                            },
                            NormalKey::Disconnect => BtCommand::Disconnect(a),
                            NormalKey::Pair => BtCommand::Pair(a),
                            NormalKey::Trust => BtCommand::Trust(a),
                            NormalKey::Remove => BtCommand::RemoveDevice(a),
                            _ => BtCommand::RefreshDevice(a),
                        };
                        AppAction::BtCommand(cmd)
                    },
                    None => AppAction::Consumed,
                }
            },
        }
    }

    /// Refreshes the inline pattern error after an edit of the query.
    fn validate_search_regex(&mut self)
        ensures
            final(self).search_error@ == search_error_of(
                old(self).search_query@,
                old(self).config.general.search_mode,
            ),
            final(self).search_query == old(self).search_query,
            final(self).same_world(old(self)),
            final(self).selected_index == old(self).selected_index,
            final(self).input_mode == old(self).input_mode,
            final(self).active_popup == old(self).active_popup,
            final(self).popup_ttl == old(self).popup_ttl,
            final(self).dirty == old(self).dirty,
            final(self).sort_mode == old(self).sort_mode,
            final(self).rename_buffer == old(self).rename_buffer,
            final(self).rename_target == old(self).rename_target,
    {
        self.search_error = search_error(self.search_query.as_str(), self.config.general.search_mode);
    }

    fn handle_search_key(&mut self, key: KeyPress) -> (r: AppAction)
        requires
            old(self).wf(),
        ensures
            final(self).wf(),
            old(self).search_step(*final(self), key, r),
            final(self).dirty == old(self).dirty,
    {
        match key.code {
            KeyCode::Esc => {
                self.input_mode = InputMode::Normal;
                clear_string(&mut self.search_query);
                clear_string(&mut self.search_error);
                self.clamp_selection();
            },
            KeyCode::Enter => {
                self.input_mode = InputMode::Normal;
                self.clamp_selection();
            },
            KeyCode::Backspace => {
                pop_char(&mut self.search_query);
                self.validate_search_regex();
                self.selected_index = 0;
            },
            KeyCode::Char(c) => {
                push_char(&mut self.search_query, c);
                self.validate_search_regex();
                self.selected_index = 0;
            },
            _ => {},
        }
        AppAction::Consumed
    }

    fn handle_dialog_key(&mut self, key: KeyPress) -> (r: AppAction)
        requires
            old(self).wf(),
        ensures
            final(self).wf(),
            old(self).dialog_step(*final(self), key, r),
            final(self).dirty == old(self).dirty,
    {
        if key.code == KeyCode::Esc || key.code == KeyCode::Enter || key.code == self.config.keys.quit {
            self.active_popup = None;
            self.popup_ttl = None;
            self.input_mode = InputMode::Normal;
        }
        AppAction::Consumed
    }

    fn handle_rename_key(&mut self, key: KeyPress) -> (r: AppAction)
        requires
            old(self).wf(),
        ensures
            final(self).wf(),
            old(self).rename_step(*final(self), key, r),
            final(self).dirty == old(self).dirty,
    {
        match key.code {
            KeyCode::Esc => {
                self.input_mode = InputMode::Normal;
                clear_string(&mut self.rename_buffer);
                self.rename_target = None;
                AppAction::Consumed
            },
            KeyCode::Enter => {
                let target = self.rename_target.take();
                let action = match target {
                    Some(a) => {
                        let t = trimmed(self.rename_buffer.as_str());
                        if t.as_str().unicode_len() > 0 {
                            AppAction::BtCommand(BtCommand::SetAlias(a, t))
                        } else {
                            AppAction::Consumed
                        }
                    },
                    None => AppAction::Consumed,
                };
                self.input_mode = InputMode::Normal;
                clear_string(&mut self.rename_buffer);
                action
            },
            KeyCode::Backspace => {
                pop_char(&mut self.rename_buffer);
                AppAction::Consumed
            },
            KeyCode::Char(c) => {
                push_char(&mut self.rename_buffer, c);
                AppAction::Consumed
            },
            _ => AppAction::Consumed,
        }
    }

    /// Hands a key press to the handler of the current input mode.
    pub fn handle_key(&mut self, key: KeyPress) -> (r: AppAction)
        requires
            old(self).wf(),
        ensures
            final(self).wf(),
            old(self).input_mode == InputMode::Normal ==> old(self).normal_step(*final(self), key, r),
            old(self).input_mode == InputMode::Search ==> old(self).search_step(*final(self), key, r),
            old(self).input_mode == InputMode::Dialog ==> old(self).dialog_step(*final(self), key, r),
            old(self).input_mode == InputMode::Rename ==> old(self).rename_step(*final(self), key, r),
            old(self).input_mode != InputMode::Normal ==> final(self).dirty,
            old(self).input_mode == InputMode::Normal ==> final(self).dirty == (normal_key_of(
                old(self).config.keys,
                key,
            ) != NormalKey::Unbound),
    {
        self.dirty = true;
        match self.input_mode {
            InputMode::Normal => self.handle_normal_key(key),
            InputMode::Search => self.handle_search_key(key),
            InputMode::Dialog => self.handle_dialog_key(key),
            InputMode::Rename => self.handle_rename_key(key),
        }
    }
}

/// The alias text carried by a rename command.
pub open spec fn renamed_to(a: AppAction) -> String {
    match a {
        AppAction::BtCommand(BtCommand::SetAlias(_, t)) => t,
        _ => arbitrary(),
    }
}

} // verus!

verus! {

/// Clamping always gives a selection that fits the view: inside it, or 0 when
/// the view is empty; a selection that already fits is kept.
pub proof fn lemma_clamp_fits(sel: int, len: int)
    requires
        sel >= 0,
        len >= 0,
    ensures
        selection_ok(clamp_index(sel, len), len),
        clamp_index(sel, len) >= 0,
        sel < len ==> clamp_index(sel, len) == sel,
{
}

/// With the unnamed-device policy on, a device without a name is never in the
/// filtered view, whatever the query.
pub proof fn lemma_unnamed_hidden(app: App, d: DeviceInfo)
    requires
        app.config.general.hide_unnamed_devices,
        d.name is None,
    ensures
        !app.shown_devices().contains(d),
{
    if app.shown_devices().contains(d) {
        let k = choose|k: int| 0 <= k < app.shown_devices().len() && app.shown_devices()[k] == d;
        app.devices@.lemma_filter_pred(app.shows(), k);
    }
}

/// A pattern query that does not compile leaves a non-empty inline error and
/// matches no device: the view is empty rather than everything.
pub proof fn lemma_broken_pattern(app: App)
    requires
        pattern_active(app.search_query@, app.config.general.search_mode),
        regex_error(full_pattern(app.search_query@, app.config.general.search_mode)) is Some,
    ensures
        search_error_of(app.search_query@, app.config.general.search_mode).len() > 0,
        app.shown_devices().len() == 0,
{
    if app.shown_devices().len() > 0 {
        app.devices@.lemma_filter_pred(app.shows(), 0);
    }
}

} // verus!
