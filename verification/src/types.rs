//! The entity model: teleports, groups, and the document that holds them.

use std::collections::HashMap;
use vstd::prelude::*;

verus! {

/// `serde_json::Value`: a JSON value, carried through without looking inside.
#[verifier::external_type_specification]
#[verifier::external_body]
pub struct ExJsonValue(serde_json::Value);

/// A single teleport location.
///
/// The three coordinates are held as the bit patterns of single-precision
/// numbers; the library moves them around and never computes with them.
#[derive(Debug, PartialEq)]
pub struct Teleport {
    pub name: String,
    pub coordinates: [u32; 3],
    pub map: u32,
    pub tooltip: Option<String>,
}

/// What a teleport holds.
pub struct TeleportView {
    pub name: Seq<char>,
    pub coordinates: Seq<u32>,
    pub map: u32,
    pub tooltip: Option<Seq<char>>,
}

impl View for Teleport {
    type V = TeleportView;

    open spec fn view(&self) -> TeleportView {
        TeleportView {
            name: self.name@,
            coordinates: self.coordinates@,
            map: self.map,
            tooltip: match self.tooltip {
                Some(text) => Some(text@),
                None => None,
            },
        }
    }
}

impl Clone for Teleport {
    fn clone(&self) -> (copy: Self)
        ensures
            copy@ == self@,
    {
        Teleport {
            name: self.name.clone(),
            coordinates: self.coordinates,
            map: self.map,
            tooltip: match &self.tooltip {
                Some(text) => Some(text.clone()),
                None => None,
            },
        }
    }
}

/// A named, ordered collection of teleports.
#[derive(Debug, PartialEq)]
pub struct TeleportGroup {
    pub name: String,
    pub teleports: Vec<Teleport>,
}

/// What a group holds.
pub struct TeleportGroupView {
    pub name: Seq<char>,
    pub teleports: Seq<TeleportView>,
}

impl View for TeleportGroup {
    type V = TeleportGroupView;

    open spec fn view(&self) -> TeleportGroupView {
        TeleportGroupView {
            name: self.name@,
            teleports: self.teleports@.map_values(|t: Teleport| t@),
        }
    }
}

impl Clone for TeleportGroup {
    fn clone(&self) -> (copy: Self)
        ensures
            copy@ == self@,
    {
        let teleports = self.teleports.clone();
        assert(teleports@.map_values(|t: Teleport| t@) =~= self.teleports@.map_values(
            |t: Teleport| t@,
        ));
        TeleportGroup { name: self.name.clone(), teleports }
    }
}

/// What each of `groups` holds, in order.
pub open spec fn group_views(groups: Seq<TeleportGroup>) -> Seq<TeleportGroupView> {
    groups.map_values(|g: TeleportGroup| g@)
}

/// A key binding of up to three keys.
#[derive(Debug, Clone, PartialEq)]
pub struct KeyBind {
    pub keys: [Option<u32>; 3],
}

/// Placement of the main window; position and size are bit patterns of
/// single-precision numbers.
#[derive(Debug, Clone, PartialEq)]
pub struct MainWindow {
    pub visible: bool,
    pub pos: [u32; 2],
    pub size: [u32; 2],
}

/// Which groups are popped out, with the window data of each.
#[derive(Debug, Clone, PartialEq)]
pub struct PopoutGroupStates {
    pub open_groups: Vec<String>,
    pub windows: HashMap<String, serde_json::Value>,
}

/// The whole persisted document.
#[derive(Debug, Clone, PartialEq)]
pub struct TeleportConfig {
    pub main_window: MainWindow,
    pub key_binds: Vec<(String, KeyBind)>,
    pub teleport_groups: Vec<TeleportGroup>,
    pub popout_group_states: PopoutGroupStates,
    pub teleport_to_cursor: bool,
    pub death_teleport: bool,
    pub personal_waypoint_teleport: bool,
    pub next_teleport: bool,
    pub prev_teleport: bool,
    pub vertical_icons: bool,
    pub show_all_wps: bool,
    pub disclaimer: bool,
    /// Every field of the persisted document that none of the above claims,
    /// kept so that it is written back as it was read.
    pub extra: HashMap<String, serde_json::Value>,
}

impl TeleportConfig {
    /// Whether `self` is the document that a fresh store starts from: no
    /// groups, no key bindings, nothing popped out, every switch off, no
    /// further fields, and a hidden main window of 400 by 300 at the origin.
    pub open spec fn is_default(&self) -> bool {
        &&& self.main_window == (MainWindow {
            visible: false,
            pos: [0u32, 0u32],
            size: [0x43C8_0000u32, 0x4396_0000u32],
        })
        &&& self.key_binds@ == Seq::<(String, KeyBind)>::empty()
        &&& self.teleport_groups@ == Seq::<TeleportGroup>::empty()
        &&& self.popout_group_states.open_groups@ == Seq::<String>::empty()
        &&& self.popout_group_states.windows@ == Map::<String, serde_json::Value>::empty()
        &&& !self.teleport_to_cursor
        &&& !self.death_teleport
        &&& !self.personal_waypoint_teleport
        &&& !self.next_teleport
        &&& !self.prev_teleport
        &&& !self.vertical_icons
        &&& !self.show_all_wps
        &&& !self.disclaimer
        &&& self.extra@ == Map::<String, serde_json::Value>::empty()
    }
}

impl Default for TeleportConfig {
    fn default() -> (config: Self)
        ensures
            config.is_default(),
    {
        Self {
            main_window: MainWindow {
                visible: false,
                pos: [0, 0],
                size: [0x43C8_0000, 0x4396_0000],
            },
            key_binds: Vec::new(),
            teleport_groups: Vec::new(),
            popout_group_states: PopoutGroupStates {
                open_groups: Vec::new(),
                windows: HashMap::new(),
            },
            teleport_to_cursor: false,
            death_teleport: false,
            personal_waypoint_teleport: false,
            next_teleport: false,
            prev_teleport: false,
            vertical_icons: false,
            show_all_wps: false,
            disclaimer: false,
            extra: HashMap::new(),
        }
    }
}

} // verus!
