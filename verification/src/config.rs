//! The daemon's configuration: placement of the window and the animation states.

use vstd::prelude::*;
use vstd::string::StringExecFns;
use crate::table::Table;
use crate::text::{str_eq, string_views};

verus! {

/// Settings of the window as a whole.
#[derive(Debug, Clone, PartialEq, Eq)]
pub struct GlobalConfig {
    /// Edges the window is anchored to: any of "top", "bottom", "left", "right".
    pub anchor: Vec<String>,
    pub margin_top: i32,
    pub margin_bottom: i32,
    pub margin_left: i32,
    pub margin_right: i32,
    /// Connector name of the monitor to show the window on.
    pub monitor: Option<String>,
    /// Directories, separated by ':', searched for icon files.
    pub icon_path: Option<String>,
}

/// The edges that the window is anchored to.
#[derive(Debug, Clone, PartialEq, Eq)]
pub struct Anchors {
    pub top: bool,
    pub bottom: bool,
    pub left: bool,
    pub right: bool,
}

/// The characters of an optional string.
pub open spec fn opt_view(o: Option<String>) -> Option<Seq<char>> {
    match o {
        Some(s) => Some(s@),
        None => None,
    }
}

/// Index of the first entry of `names` that is `Some(wanted)`.
pub open spec fn first_match(names: Seq<Option<String>>, wanted: Seq<char>, i: int) -> bool {
    &&& 0 <= i < names.len()
    &&& opt_view(names[i]) == Some(wanted)
    &&& forall|j: int| 0 <= j < i ==> opt_view(names[j]) != Some(wanted)
}

impl GlobalConfig {
    /// The edges named in `anchor`; names other than the four edges are ignored.
    pub fn anchors(&self) -> (r: Anchors)
        ensures
            r.top == string_views(self.anchor@).contains("top"@),
            r.bottom == string_views(self.anchor@).contains("bottom"@),
            r.left == string_views(self.anchor@).contains("left"@),
            r.right == string_views(self.anchor@).contains("right"@),
    {
        let mut r = Anchors { top: false, bottom: false, left: false, right: false };
        let n = self.anchor.len();
        let ghost names = string_views(self.anchor@);
        let mut i: usize = 0;
        while i < n
            invariant
                i <= n,
                n == self.anchor@.len(),
                names == string_views(self.anchor@),
                r.top == names.take(i as int).contains("top"@),
                r.bottom == names.take(i as int).contains("bottom"@),
                r.left == names.take(i as int).contains("left"@),
                r.right == names.take(i as int).contains("right"@),
            decreases n - i,
        {
            let a = self.anchor[i].as_str();
            assert(names.take(i + 1) =~= names.take(i as int).push(a@));
            if str_eq(a, "top") {
                r.top = true;
            }
            if str_eq(a, "bottom") {
                r.bottom = true;
            }
            if str_eq(a, "left") {
                r.left = true;
            }
            if str_eq(a, "right") {
                r.right = true;
            }
            proof {
                broadcast use vstd::seq_lib::group_seq_properties;
            }
            i = i + 1;
        }
        assert(names.take(n as int) =~= names);
        r
    }

    /// The position, among the monitors' connector names, of the configured monitor:
    /// the first one equal to it, or none when no monitor is configured or none matches.
    pub fn monitor_index(&self, connectors: &Vec<Option<String>>) -> (r: Option<usize>)
        ensures
            match r {
                Some(i) => self.monitor.is_some() && first_match(connectors@, self.monitor.unwrap()@, i as int),
                None => self.monitor.is_none() || forall|j: int| 0 <= j < connectors@.len() ==> opt_view(connectors@[j]) != Some(self.monitor.unwrap()@),
            },
    {
        match &self.monitor {
            None => None,
            Some(wanted) => {
                let n = connectors.len();
                let mut i: usize = 0;
                while i < n
                    invariant
                        i <= n,
                        n == connectors@.len(),
                        self.monitor == Some(*wanted),
                        forall|j: int| 0 <= j < i ==> opt_view(connectors@[j]) != Some(wanted@),
                    decreases n - i,
                {
                    match &connectors[i] {
                        Some(c) => {
                            if str_eq(c.as_str(), wanted.as_str()) {
                                return Some(i);
                            }
                        },
                        None => {},
                    }
                    i = i + 1;
                }
                None
            },
        }
    }
}

/// How an animation's progress is shaped over its duration.
#[derive(PartialEq, Eq, Structural, Clone, Copy, Debug)]
pub enum Easing {
    Linear,
    EaseIn,
    EaseOut,
    EaseInOut,
}

/// The easing that a name in the configuration selects; unknown names animate linearly.
pub open spec fn easing_named(name: Seq<char>) -> Easing {
    if name == "ease-in"@ {
        Easing::EaseIn
    } else if name == "ease-out"@ {
        Easing::EaseOut
    } else if name == "ease-in-out"@ {
        Easing::EaseInOut
    } else {
        Easing::Linear
    }
}

/// "ease-in", "ease-out" and "ease-in-out" select their curves; every other name,
/// "linear" among them, animates linearly.
pub proof fn law_easing_names(name: Seq<char>)
    ensures
        easing_named("ease-in"@) == Easing::EaseIn,
        easing_named("ease-out"@) == Easing::EaseOut,
        easing_named("ease-in-out"@) == Easing::EaseInOut,
        name != "ease-in"@ && name != "ease-out"@ && name != "ease-in-out"@ ==> easing_named(name)
            == Easing::Linear,
{
    reveal_strlit("ease-in");
    reveal_strlit("ease-out");
    reveal_strlit("ease-in-out");
    assert("ease-in"@.len() == 7);
    assert("ease-out"@.len() == 8);
    assert("ease-in-out"@.len() == 11);
}

impl Easing {
    /// The easing that `name` selects.
    pub fn from_name(name: &str) -> (e: Easing)
        ensures
            e == easing_named(name@),
    {
        if str_eq(name, "ease-in") {
            Easing::EaseIn
        } else if str_eq(name, "ease-out") {
            Easing::EaseOut
        } else if str_eq(name, "ease-in-out") {
            Easing::EaseInOut
        } else {
            Easing::Linear
        }
    }
}

/// One state of the window's animation: the look it animates to, how long that takes,
/// how long it then rests, and which state follows.
#[derive(Debug, Clone, PartialEq, Eq)]
pub struct State {
    pub width: i32,
    pub height: i32,
    /// The opacity as the bit pattern of an IEEE 754 double; the library carries it
    /// and never computes with it.
    pub opacity_bits: u64,
    pub margin_top: i32,
    pub border_radius: i32,
    pub duration_ms: u64,
    pub wait_ms: u64,
    /// One of "linear", "ease-in", "ease-out", "ease-in-out".
    pub easing: String,
    pub next_state: Option<String>,
}

/// A state, with its strings taken as characters.
pub struct StateView {
    pub width: i32,
    pub height: i32,
    pub opacity_bits: u64,
    pub margin_top: i32,
    pub border_radius: i32,
    pub duration_ms: u64,
    pub wait_ms: u64,
    pub easing: Seq<char>,
    pub next_state: Option<Seq<char>>,
}

impl View for State {
    type V = StateView;

    open spec fn view(&self) -> StateView {
        StateView {
            width: self.width,
            height: self.height,
            opacity_bits: self.opacity_bits,
            margin_top: self.margin_top,
            border_radius: self.border_radius,
            duration_ms: self.duration_ms,
            wait_ms: self.wait_ms,
            easing: self.easing@,
            next_state: opt_view(self.next_state),
        }
    }
}

/// The state the window starts in when the configuration has no "idle" state:
/// all zero (opacity 0.0, whose bit pattern is 0), linear, and followed by nothing.
pub open spec fn fallback_state() -> StateView {
    StateView {
        width: 0,
        height: 0,
        opacity_bits: 0,
        margin_top: 0,
        border_radius: 0,
        duration_ms: 0,
        wait_ms: 0,
        easing: "linear"@,
        next_state: None,
    }
}

impl State {
    /// The state used when the configuration has no "idle" state.
    pub fn fallback() -> (s: State)
        ensures
            s@ == fallback_state(),
    {
        State {
            width: 0,
            height: 0,
            opacity_bits: 0,
            margin_top: 0,
            border_radius: 0,
            duration_ms: 0,
            wait_ms: 0,
            easing: String::from_str("linear"),
            next_state: None,
        }
    }

    /// A copy of this state.
    pub fn duplicate(&self) -> (r: State)
        ensures
            r@ == self@,
    {
        let next_state = match &self.next_state {
            Some(n) => Some(n.clone()),
            None => None,
        };
        State {
            width: self.width,
            height: self.height,
            opacity_bits: self.opacity_bits,
            margin_top: self.margin_top,
            border_radius: self.border_radius,
            duration_ms: self.duration_ms,
            wait_ms: self.wait_ms,
            easing: self.easing.clone(),
            next_state,
        }
    }
}

/// The whole configuration: window settings and the animation states by name.
#[derive(Debug, Clone, PartialEq, Eq)]
pub struct Config {
    pub global: GlobalConfig,
    pub states: Table<State>,
}

} // verus!
