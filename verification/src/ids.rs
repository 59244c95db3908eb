//! Identifiers and small platform types of the OpenHarmony backend.

use vstd::prelude::*;

verus! {

/// Extra data that the backend attaches to a key event (none on OpenHarmony).
#[derive(Debug, Clone, Eq, PartialEq, Hash)]
pub struct KeyEventExtra {}

/// The id of a window: the OpenHarmony window id, `0` for the main window
/// and a positive id for a floating sub-window.
#[derive(Clone, Copy, Debug, Eq, Hash, Ord, PartialEq, PartialOrd, Structural)]
pub struct WindowId(pub i64);

impl WindowId {
    /// The id of the main window.
    pub fn dummy() -> (id: WindowId)
        ensures
            id.0 == 0,
    {
        WindowId(0)
    }

    /// The id as an unsigned number (two's complement reinterpretation).
    pub fn to_u64(self) -> (n: u64)
        ensures
            n == self.0 as u64,
    {
        self.0 as u64
    }

    /// The id whose unsigned reinterpretation is `n`.
    pub fn from_u64(n: u64) -> (id: WindowId)
        ensures
            id.0 == n as i64,
    {
        WindowId(n as i64)
    }
}

impl From<WindowId> for u64 {
    fn from(id: WindowId) -> (n: u64) {
        id.0 as u64
    }
}

impl vstd::std_specs::convert::FromSpecImpl<WindowId> for u64 {
    open spec fn obeys_from_spec() -> bool {
        true
    }

    open spec fn from_spec(id: WindowId) -> u64 {
        id.0 as u64
    }
}

impl From<u64> for WindowId {
    fn from(n: u64) -> (id: WindowId) {
        WindowId(n as i64)
    }
}

impl vstd::std_specs::convert::FromSpecImpl<u64> for WindowId {
    open spec fn obeys_from_spec() -> bool {
        true
    }

    open spec fn from_spec(n: u64) -> WindowId {
        WindowId(n as i64)
    }
}

/// The id of an input device.
#[derive(Clone, Copy, Debug, Eq, Hash, Ord, PartialEq, PartialOrd, Structural)]
pub struct DeviceId(pub i32);

impl DeviceId {
    /// The device id used for events that carry no device.
    pub fn dummy() -> (id: DeviceId)
        ensures
            id.0 == 0,
    {
        DeviceId(0)
    }
}

/// The kind of an OpenHarmony window: the main window that reuses the
/// UIAbility container (at most one exists), or a floating sub-window.
#[derive(Clone, Copy, Debug, PartialEq, Eq, Structural)]
pub enum OHOSWindowKind {
    UIAbility,
    Float,
}

/// The OpenHarmony part of a window builder: the window's label (its OS-level
/// name when it is a sub-window) and its kind, each where set.
#[derive(Clone, Debug, Eq, PartialEq)]
pub struct PlatformSpecificWindowBuilderAttributes {
    pub label: Option<String>,
    pub window_kind: Option<OHOSWindowKind>,
}

impl Default for PlatformSpecificWindowBuilderAttributes {
    fn default() -> (a: Self)
        ensures
            a.label is None,
            a.window_kind is None,
    {
        PlatformSpecificWindowBuilderAttributes { label: None, window_kind: None }
    }
}

impl PlatformSpecificWindowBuilderAttributes {
    /// Sets the window label.
    pub fn with_label(self, label: &str) -> (a: Self)
        ensures
            a.label matches Some(l) && l@ == label@,
            a.window_kind == self.window_kind,
    {
        PlatformSpecificWindowBuilderAttributes { label: Some(label.to_owned()), ..self }
    }

    /// Sets the window kind.
    pub fn with_window_kind(self, kind: OHOSWindowKind) -> (a: Self)
        ensures
            a.window_kind == Some(kind),
            a.label == self.label,
    {
        PlatformSpecificWindowBuilderAttributes { window_kind: Some(kind), ..self }
    }

    /// The window kind, if set.
    pub fn ohos_window_kind(&self) -> (k: Option<OHOSWindowKind>)
        ensures
            k == self.window_kind,
    {
        self.window_kind
    }
}

/// The error of a failed OS-level window operation.
#[derive(Default, Clone, Debug)]
pub struct OsError;

impl OsError {
    /// The message that the error displays.
    pub fn message(&self) -> (m: String)
        ensures
            m@ == "OpenHarmony OS Error"@,
    {
        "OpenHarmony OS Error".to_owned()
    }
}

/// A window id survives its conversion to an unsigned number and back.
pub proof fn law_window_id_round_trip(id: WindowId)
    ensures
        ((id.0 as u64) as i64) == id.0,
{
    let x = id.0;
    assert(((x as u64) as i64) == x) by (bit_vector);
}

} // verus!
