//! The daemon's settings and the rules that normalise raw preference values.
use vstd::prelude::*;

use vstd::string::StringExecFns;

use crate::text::{
    append_bool, append_decimal, append_padded_decimal, bool_text, decimal, padded_decimal,
    push_char, str_eq,
};

verus! {

/// Finger count used when the stored value is missing or not positive.
pub const DEFAULT_FINGERS: usize = 3;

/// Whether more than the configured number of fingers may click, by default.
pub const DEFAULT_ALLOW_MORE_FINGERS: bool = false;

/// One whole unit of the normalised trackpad coordinate space, in the
/// fixed-point units (millionths) that positions and distances use.
pub const POSITION_SCALE: i32 = 1_000_000;

/// Default largest centroid travel of a tap: 0.05 of the surface, in millionths.
pub const DEFAULT_MAX_DISTANCE_DELTA: i64 = 50_000;

/// Default longest tap, in milliseconds.
pub const DEFAULT_MAX_TIME_DELTA_MS: u64 = 300;

/// How a Magic Mouse produces a middle click.
#[derive(Clone, Copy, Debug, PartialEq, Eq, Structural)]
pub enum MouseClickMode {
    /// Click with the configured number of fingers anywhere on the mouse.
    ThreeFinger,
    /// Click with one finger in the horizontal centre zone.
    Center,
    /// Ignore the Magic Mouse; only trackpads emulate middle clicks.
    Disabled,
}

impl MouseClickMode {
    /// The raw code under which the mode is stored.
    pub open spec fn raw_code(self) -> u32 {
        match self {
            MouseClickMode::ThreeFinger => 0,
            MouseClickMode::Center => 1,
            MouseClickMode::Disabled => 2,
        }
    }

    /// The mode's name as the preferences and logs spell it.
    pub open spec fn name(self) -> Seq<char> {
        match self {
            MouseClickMode::ThreeFinger => "threeFinger"@,
            MouseClickMode::Center => "center"@,
            MouseClickMode::Disabled => "disabled"@,
        }
    }

    /// Decodes a raw mode code; codes other than 0, 1 and 2 give `None`.
    pub fn try_from_raw(raw: u32) -> (r: Option<Self>)
        ensures
            r is Some <==> raw <= 2,
            r matches Some(mode) ==> mode.raw_code() == raw,
            forall|mode: Self| mode.raw_code() == raw ==> r == Some(mode),
    {
        match raw {
            0 => Some(MouseClickMode::ThreeFinger),
            1 => Some(MouseClickMode::Center),
            2 => Some(MouseClickMode::Disabled),
            _ => None,
        }
    }

    /// Decodes a raw mode code, falling back to the documented default
    /// (`Center`) for unknown codes.
    pub fn from_raw(raw: u32) -> (r: Self)
        ensures
            raw <= 2 ==> r.raw_code() == raw,
            raw > 2 ==> r == MouseClickMode::Center,
            forall|mode: Self| mode.raw_code() == raw ==> r == mode,
    {
        match Self::try_from_raw(raw) {
            Some(mode) => mode,
            None => MouseClickMode::default(),
        }
    }

    /// The raw code under which the mode is stored.
    pub fn as_raw(self) -> (r: u32)
        ensures
            r == self.raw_code(),
    {
        match self {
            MouseClickMode::ThreeFinger => 0,
            MouseClickMode::Center => 1,
            MouseClickMode::Disabled => 2,
        }
    }

    /// The mode's name, as used in preferences and in the configuration summary.
    pub fn as_str(self) -> (r: &'static str)
        ensures
            r@ == self.name(),
    {
        match self {
            MouseClickMode::ThreeFinger => "threeFinger",
            MouseClickMode::Center => "center",
            MouseClickMode::Disabled => "disabled",
        }
    }
}

impl Default for MouseClickMode {
    fn default() -> (r: Self)
        ensures
            r == MouseClickMode::Center,
    {
        MouseClickMode::Center
    }
}

/// The daemon's settings.
///
/// Positions and distances are fixed-point: `POSITION_SCALE` units span the
/// whole normalised surface. Durations are whole milliseconds.
#[derive(Clone, Debug)]
pub struct Config {
    /// Number of fingers that make a middle click.
    pub fingers: usize,
    /// Whether more than `fingers` fingers also count.
    pub allow_more_fingers: bool,
    /// Largest centroid travel of a tap, in millionths of the surface.
    pub max_distance_delta: i64,
    /// Longest tap, in milliseconds.
    pub max_time_delta: u64,
    /// Whether taps (not only physical clicks) produce middle clicks.
    pub tap_to_click: bool,
    /// How a Magic Mouse produces a middle click.
    pub mouse_click_mode: MouseClickMode,
    /// Bundle identifiers of applications during which the daemon stays idle.
    pub ignored_app_bundles: Vec<String>,
}

/// A distance in millionths, printed in whole units with four decimals
/// (rounded half up).
pub open spec fn distance_text(d: int) -> Seq<char> {
    let a = if d < 0 { -d } else { d };
    let q = (a + 50) / 100;
    (if d < 0 { seq!['-'] } else { Seq::empty() }) + decimal((q / 10000) as nat) + seq!['.']
        + padded_decimal((q % 10000) as nat, 4)
}

/// The one-line summary of a configuration that the daemon logs.
pub open spec fn summary(c: Config) -> Seq<char> {
    "fingers="@ + decimal(c.fingers as nat) + ", allowMoreFingers="@ + bool_text(
        c.allow_more_fingers,
    ) + ", maxDistanceDelta="@ + distance_text(c.max_distance_delta as int) + ", maxTimeDeltaMs="@
        + decimal(c.max_time_delta as nat) + ", tapToClick="@ + bool_text(c.tap_to_click)
        + ", mouseClickMode="@ + c.mouse_click_mode.name() + ", ignoredAppBundles="@ + decimal(
        c.ignored_app_bundles@.len(),
    )
}

/// Appends a distance in millionths as whole units with four decimals.
fn append_distance(out: &mut String, d: i64)
    ensures
        final(out)@ == old(out)@ + distance_text(d as int),
{
    let ghost start = out@;
    let a: u64 = if d < 0 {
        (-(d as i128)) as u64
    } else {
        d as u64
    };
    let q: u64 = (a + 50) / 100;
    if d < 0 {
        push_char(out, '-');
    }
    let ghost signed = out@;
    append_decimal(out, q / 10000);
    push_char(out, '.');
    append_padded_decimal(out, q % 10000, 4);
    assert(signed == start + (if d < 0 { seq!['-'] } else { Seq::empty() }));
    assert(out@ =~= old(out)@ + distance_text(d as int));
}

impl Config {
    /// A configuration that `from_raw_parts` can produce: at least one
    /// finger, a non-negative distance and a positive duration.
    pub open spec fn is_normalized(&self) -> bool {
        &&& self.fingers > 0
        &&& self.max_distance_delta >= 0
        &&& self.max_time_delta > 0
    }

    /// The bundle identifiers as character sequences.
    pub open spec fn ignored_bundles(&self) -> Seq<Seq<char>> {
        self.ignored_app_bundles@.map_values(|b: String| b@)
    }

    /// Builds a configuration from raw preference values, replacing each
    /// out-of-range number by its default: a finger count that is not a
    /// positive `usize`, a negative distance and a non-positive duration.
    pub fn from_raw_parts(
        fingers: i64,
        allow_more_fingers: bool,
        max_distance_delta: i64,
        max_time_delta_ms: i64,
        tap_to_click: bool,
        mouse_click_mode: u32,
        ignored_app_bundles: Vec<String>,
    ) -> (r: Self)
        ensures
            r.fingers == (if 0 < fingers <= usize::MAX { fingers as usize } else { DEFAULT_FINGERS }),
            r.allow_more_fingers == allow_more_fingers,
            r.max_distance_delta == (if max_distance_delta >= 0 {
                max_distance_delta
            } else {
                DEFAULT_MAX_DISTANCE_DELTA
            }),
            r.max_time_delta == (if max_time_delta_ms > 0 {
                max_time_delta_ms as u64
            } else {
                DEFAULT_MAX_TIME_DELTA_MS
            }),
            r.tap_to_click == tap_to_click,
            mouse_click_mode <= 2 ==> r.mouse_click_mode.raw_code() == mouse_click_mode,
            mouse_click_mode > 2 ==> r.mouse_click_mode == MouseClickMode::Center,
            r.ignored_app_bundles@ == ignored_app_bundles@,
            r.is_normalized(),
    {
        let fingers: usize = if fingers > 0 && fingers as u64 <= usize::MAX as u64 {
            fingers as usize
        } else {
            DEFAULT_FINGERS
        };
        let max_distance_delta: i64 = if max_distance_delta >= 0 {
            max_distance_delta
        } else {
            DEFAULT_MAX_DISTANCE_DELTA
        };
        let max_time_delta: u64 = if max_time_delta_ms > 0 {
            max_time_delta_ms as u64
        } else {
            DEFAULT_MAX_TIME_DELTA_MS
        };
        Config {
            fingers,
            allow_more_fingers,
            max_distance_delta,
            max_time_delta,
            tap_to_click,
            mouse_click_mode: MouseClickMode::from_raw(mouse_click_mode),
            ignored_app_bundles,
        }
    }

    /// The configuration used when the preferences cannot be read: every
    /// setting at its default, tap-to-click following the system setting.
    pub fn fallback(system_tap_to_click: bool) -> (r: Self)
        ensures
            r.fingers == DEFAULT_FINGERS,
            r.allow_more_fingers == DEFAULT_ALLOW_MORE_FINGERS,
            r.max_distance_delta == DEFAULT_MAX_DISTANCE_DELTA,
            r.max_time_delta == DEFAULT_MAX_TIME_DELTA_MS,
            r.tap_to_click == system_tap_to_click,
            r.mouse_click_mode == MouseClickMode::Center,
            r.ignored_app_bundles@.len() == 0,
            r.is_normalized(),
    {
        Config {
            fingers: DEFAULT_FINGERS,
            allow_more_fingers: DEFAULT_ALLOW_MORE_FINGERS,
            max_distance_delta: DEFAULT_MAX_DISTANCE_DELTA,
            max_time_delta: DEFAULT_MAX_TIME_DELTA_MS,
            tap_to_click: system_tap_to_click,
            mouse_click_mode: MouseClickMode::default(),
            ignored_app_bundles: Vec::new(),
        }
    }

    /// A one-line summary of the settings, as the daemon logs it.
    pub fn describe(&self) -> (r: String)
        ensures
            r@ == summary(*self),
    {
        let mut out = String::new();
        out.append("fingers=");
        append_decimal(&mut out, self.fingers as u64);
        out.append(", allowMoreFingers=");
        append_bool(&mut out, self.allow_more_fingers);
        out.append(", maxDistanceDelta=");
        append_distance(&mut out, self.max_distance_delta);
        out.append(", maxTimeDeltaMs=");
        append_decimal(&mut out, self.max_time_delta);
        out.append(", tapToClick=");
        append_bool(&mut out, self.tap_to_click);
        out.append(", mouseClickMode=");
        out.append(self.mouse_click_mode.as_str());
        out.append(", ignoredAppBundles=");
        append_decimal(&mut out, self.ignored_app_bundles.len() as u64);
        out
    }

    /// Whether the application with this bundle identifier is ignored.
    pub fn is_bundle_ignored(&self, bundle_id: &str) -> (r: bool)
        ensures
            r <==> self.ignored_bundles().contains(bundle_id@),
    {
        let n = self.ignored_app_bundles.len();
        let mut i: usize = 0;
        while i < n
            invariant
                n == self.ignored_app_bundles@.len(),
                0 <= i <= n,
                forall|j: int| 0 <= j < i ==> self.ignored_app_bundles@[j]@ != bundle_id@,
            decreases n - i,
        {
            if str_eq(self.ignored_app_bundles[i].as_str(), bundle_id) {
                assert(self.ignored_bundles()[i as int] == bundle_id@);
                return true;
            }
            i = i + 1;
        }
        proof {
            if self.ignored_bundles().contains(bundle_id@) {
                let k = choose|k: int|
                    0 <= k < self.ignored_bundles().len() && self.ignored_bundles()[k] == bundle_id@;
                assert(self.ignored_app_bundles@[k]@ == bundle_id@);
            }
        }
        false
    }
}

} // verus!
