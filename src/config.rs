//! Configuration: color schemes, keymaps and time defaults.

use vstd::prelude::*;
use vstd::string::*;
use std::collections::HashMap;

verus! {

/// What can go wrong with the configuration.
#[derive(Debug)]
pub enum ConfigError {
    Io(std::io::Error),
    Toml(toml::de::Error),
    TomlSer(toml::ser::Error),
    NoConfigDir,
    InvalidTime(String),
}

/// Colors of the interface.
#[derive(Debug, PartialEq)]
pub struct ColorScheme {
    /// Name of the scheme.
    pub name: String,
    /// Text.
    pub fg: String,
    /// Background.
    pub bg: String,
    /// Highlights and selections.
    pub accent: String,
    /// Completed tasks.
    pub completed: String,
    /// Overdue tasks.
    pub overdue: String,
    /// Deferred tasks.
    pub deferred: String,
    /// Borders.
    pub border: String,
    /// Help and secondary text.
    pub help: String,
}

/// The value of a color scheme.
pub struct SchemeView {
    pub name: Seq<char>,
    pub fg: Seq<char>,
    pub bg: Seq<char>,
    pub accent: Seq<char>,
    pub completed: Seq<char>,
    pub overdue: Seq<char>,
    pub deferred: Seq<char>,
    pub border: Seq<char>,
    pub help: Seq<char>,
}

impl View for ColorScheme {
    type V = SchemeView;

    open spec fn view(&self) -> SchemeView {
        SchemeView {
            name: self.name@,
            fg: self.fg@,
            bg: self.bg@,
            accent: self.accent@,
            completed: self.completed@,
            overdue: self.overdue@,
            deferred: self.deferred@,
            border: self.border@,
            help: self.help@,
        }
    }
}

impl Clone for ColorScheme {
    fn clone(&self) -> (r: ColorScheme)
        ensures
            r@ == self@,
    {
        ColorScheme {
            name: self.name.clone(),
            fg: self.fg.clone(),
            bg: self.bg.clone(),
            accent: self.accent.clone(),
            completed: self.completed.clone(),
            overdue: self.overdue.clone(),
            deferred: self.deferred.clone(),
            border: self.border.clone(),
            help: self.help.clone(),
        }
    }
}

/// The built-in `default` color scheme.
pub open spec fn default_scheme() -> SchemeView {
    SchemeView {
        name: "default"@,
        fg: "#ffffff"@,
        bg: "#000000"@,
        accent: "#00ff00"@,
        completed: "#888888"@,
        overdue: "#ff0000"@,
        deferred: "#ffff00"@,
        border: "#444444"@,
        help: "#cccccc"@,
    }
}

/// The built-in `dark` color scheme.
pub open spec fn dark_scheme() -> SchemeView {
    SchemeView {
        name: "dark"@,
        fg: "#e0e0e0"@,
        bg: "#1a1a1a"@,
        accent: "#4a90e2"@,
        completed: "#666666"@,
        overdue: "#d32f2f"@,
        deferred: "#ffa726"@,
        border: "#333333"@,
        help: "#b0b0b0"@,
    }
}

/// The built-in `light` color scheme.
pub open spec fn light_scheme() -> SchemeView {
    SchemeView {
        name: "light"@,
        fg: "#333333"@,
        bg: "#ffffff"@,
        accent: "#1976d2"@,
        completed: "#999999"@,
        overdue: "#c62828"@,
        deferred: "#ef6c00"@,
        border: "#cccccc"@,
        help: "#666666"@,
    }
}

fn default_colors() -> (r: ColorScheme)
    ensures
        r@ == default_scheme(),
{
    ColorScheme {
        name: String::from_str("default"),
        fg: String::from_str("#ffffff"),
        bg: String::from_str("#000000"),
        accent: String::from_str("#00ff00"),
        completed: String::from_str("#888888"),
        overdue: String::from_str("#ff0000"),
        deferred: String::from_str("#ffff00"),
        border: String::from_str("#444444"),
        help: String::from_str("#cccccc"),
    }
}

fn dark_colors() -> (r: ColorScheme)
    ensures
        r@ == dark_scheme(),
{
    ColorScheme {
        name: String::from_str("dark"),
        fg: String::from_str("#e0e0e0"),
        bg: String::from_str("#1a1a1a"),
        accent: String::from_str("#4a90e2"),
        completed: String::from_str("#666666"),
        overdue: String::from_str("#d32f2f"),
        deferred: String::from_str("#ffa726"),
        border: String::from_str("#333333"),
        help: String::from_str("#b0b0b0"),
    }
}

fn light_colors() -> (r: ColorScheme)
    ensures
        r@ == light_scheme(),
{
    ColorScheme {
        name: String::from_str("light"),
        fg: String::from_str("#333333"),
        bg: String::from_str("#ffffff"),
        accent: String::from_str("#1976d2"),
        completed: String::from_str("#999999"),
        overdue: String::from_str("#c62828"),
        deferred: String::from_str("#ef6c00"),
        border: String::from_str("#cccccc"),
        help: String::from_str("#666666"),
    }
}

impl Default for ColorScheme {
    fn default() -> (r: ColorScheme)
        ensures
            r@ == default_scheme(),
    {
        default_colors()
    }
}
/// Key bindings of the two input modes: key name to action name.
#[derive(Debug, PartialEq)]
pub struct Keymap {
    /// Name of the keymap.
    pub name: String,
    /// Bindings of the normal mode.
    pub normal: HashMap<String, String>,
    /// Bindings of the insert mode.
    pub insert: HashMap<String, String>,
}

/// The value of a keymap.
pub struct KeymapView {
    pub name: Seq<char>,
    pub normal: Map<String, String>,
    pub insert: Map<String, String>,
}

impl View for Keymap {
    type V = KeymapView;

    open spec fn view(&self) -> KeymapView {
        KeymapView { name: self.name@, normal: self.normal@, insert: self.insert@ }
    }
}

impl Clone for Keymap {
    fn clone(&self) -> (r: Keymap)
        ensures
            r@ == self@,
    {
        Keymap { name: self.name.clone(), normal: self.normal.clone(), insert: self.insert.clone() }
    }
}

fn bind(m: &mut HashMap<String, String>, key: &str, action: &str) {
    m.insert(String::from_str(key), String::from_str(action));
}

impl Default for Keymap {
    fn default() -> (r: Keymap)
        ensures
            r.name@ == "default"@,
    {
        let mut normal: HashMap<String, String> = HashMap::new();
        bind(&mut normal, "q", "quit");
        bind(&mut normal, "?", "help");
        bind(&mut normal, "n", "new_task");
        bind(&mut normal, "e", "edit_task");
        bind(&mut normal, "d", "delete_task");
        bind(&mut normal, "c", "complete_task");
        bind(&mut normal, "j", "move_down");
        bind(&mut normal, "k", "move_up");
        bind(&mut normal, "Enter", "edit_task");
        bind(&mut normal, "Esc", "escape");
        let mut insert: HashMap<String, String> = HashMap::new();
        bind(&mut insert, "Esc", "escape");
        bind(&mut insert, "Enter", "confirm");
        bind(&mut insert, "Tab", "next_field");
        bind(&mut insert, "Shift+Tab", "prev_field");
        Keymap { name: String::from_str("default"), normal, insert }
    }
}

fn vi_keymap() -> (r: Keymap)
    ensures
        r.name@ == "vi"@,
{
    let mut normal: HashMap<String, String> = HashMap::new();
    bind(&mut normal, "q", "quit");
    bind(&mut normal, "?", "help");
    bind(&mut normal, "i", "new_task");
    bind(&mut normal, "e", "edit_task");
    bind(&mut normal, "dd", "delete_task");
    bind(&mut normal, "x", "complete_task");
    bind(&mut normal, "j", "move_down");
    bind(&mut normal, "k", "move_up");
    bind(&mut normal, "Enter", "edit_task");
    bind(&mut normal, "Esc", "escape");
    bind(&mut normal, "gg", "move_top");
    bind(&mut normal, "G", "move_bottom");
    let mut insert: HashMap<String, String> = HashMap::new();
    bind(&mut insert, "Esc", "escape");
    bind(&mut insert, "Ctrl+[", "escape");
    bind(&mut insert, "Enter", "confirm");
    bind(&mut insert, "Tab", "next_field");
    bind(&mut insert, "Shift+Tab", "prev_field");
    Keymap { name: String::from_str("vi"), normal, insert }
}

/// Default hours for dates given without a time.
#[derive(Debug, PartialEq)]
pub struct TimeDefaults {
    /// Hour (0-23) of a defer date given as a day.
    pub defer_hour: u32,
    /// Hour (0-23) of a due date given as a day.
    pub due_hour: u32,
    /// Time zone; the system's when none.
    pub timezone: Option<String>,
}

impl Clone for TimeDefaults {
    fn clone(&self) -> (r: TimeDefaults)
        ensures
            r.defer_hour == self.defer_hour,
            r.due_hour == self.due_hour,
            r.timezone is Some <==> self.timezone is Some,
            r.timezone matches Some(z) ==> z@ == self.timezone->Some_0@,
    {
        TimeDefaults {
            defer_hour: self.defer_hour,
            due_hour: self.due_hour,
            timezone: match &self.timezone {
                Some(z) => Some(z.clone()),
                None => None,
            },
        }
    }
}

impl Default for TimeDefaults {
    fn default() -> (r: TimeDefaults)
        ensures
            r.defer_hour == 9,
            r.due_hour == 17,
            r.timezone is None,
    {
        TimeDefaults { defer_hour: 9, due_hour: 17, timezone: None }
    }
}

impl TimeDefaults {
    /// Checks an hour of the day: 0 to 23.
    pub fn check_hour(hour: u32) -> (r: Result<u32, ConfigError>)
        ensures
            r matches Ok(h) ==> h == hour && hour <= 23,
            hour > 23 ==> r is Err && r->Err_0 is InvalidTime,
    {
        if hour > 23 {
            let mut m = String::from_str("Hour ");
            let n = crate::text::decimal_text(hour as u64);
            m.append(n.as_str());
            m.append(" is invalid (must be 0-23)");
            Err(ConfigError::InvalidTime(m))
        } else {
            Ok(hour)
        }
    }
}

/// The whole configuration.
#[derive(Debug)]
pub struct Config {
    /// Active color scheme.
    pub colors: ColorScheme,
    /// Active keymap.
    pub keymap: Keymap,
    /// Time defaults.
    pub time: TimeDefaults,
    /// Color schemes to choose from.
    pub color_schemes: Vec<ColorScheme>,
    /// Keymaps to choose from.
    pub keymaps: Vec<Keymap>,
}

/// The names of color schemes, in order.
pub open spec fn scheme_names(s: Seq<ColorScheme>) -> Seq<Seq<char>> {
    s.map_values(|c: ColorScheme| c.name@)
}

/// The names of keymaps, in order.
pub open spec fn keymap_names(s: Seq<Keymap>) -> Seq<Seq<char>> {
    s.map_values(|k: Keymap| k.name@)
}

/// `i` is the first position of `name` in `names`.
pub open spec fn first_named(names: Seq<Seq<char>>, name: Seq<char>, i: int) -> bool {
    0 <= i < names.len() && names[i] == name && forall|j: int| 0 <= j < i ==> names[j] != name
}

fn position(names: &Vec<&str>, name: &str) -> (r: Option<usize>)
    ensures
        r matches Some(i) ==> first_named(names@.map_values(|s: &str| s@), name@, i as int),
        r is None <==> !names@.map_values(|s: &str| s@).contains(name@),
{
    let ghost ns = names@.map_values(|s: &str| s@);
    let key = String::from_str(name);
    let mut i: usize = 0;
    while i < names.len()
        invariant
            ns == names@.map_values(|s: &str| s@),
            key@ == name@,
            i <= names@.len(),
            forall|j: int| 0 <= j < i ==> ns[j] != name@,
        decreases names@.len() - i,
    {
        let candidate = String::from_str(names[i]);
        if candidate == key {
            assert(ns[i as int] == name@);
            return Some(i);
        }
        i = i + 1;
    }
    proof {
        if ns.contains(name@) {
            let j = choose|j: int| 0 <= j < ns.len() && ns[j] == name@;
            assert(ns[j] != name@);
        }
    }
    None
}

impl Default for Config {
    fn default() -> (r: Config)
        ensures
            r.colors@ == default_scheme(),
            r.keymap.name@ == "default"@,
            r.time.defer_hour == 9 && r.time.due_hour == 17 && r.time.timezone is None,
            r.color_schemes@.map_values(|c: ColorScheme| c@) == seq![
                default_scheme(),
                dark_scheme(),
                light_scheme(),
            ],
            keymap_names(r.keymaps@) == seq!["default"@, "vi"@],
    {
        let colors = default_colors();
        let keymap = Keymap::default();
        let mut color_schemes: Vec<ColorScheme> = Vec::new();
        color_schemes.push(colors.clone());
        color_schemes.push(dark_colors());
        color_schemes.push(light_colors());
        let mut keymaps: Vec<Keymap> = Vec::new();
        keymaps.push(keymap.clone());
        keymaps.push(vi_keymap());
        let r = Config { colors, keymap, time: TimeDefaults::default(), color_schemes, keymaps };
        assert(r.color_schemes@.map_values(|c: ColorScheme| c@) =~= seq![
            default_scheme(),
            dark_scheme(),
            light_scheme(),
        ]);
        assert(keymap_names(r.keymaps@) =~= seq!["default"@, "vi"@]);
        r
    }
}

impl Config {
    /// Names of the color schemes to choose from, in order.
    pub fn list_color_schemes(&self) -> (r: Vec<&str>)
        ensures
            r@.map_values(|s: &str| s@) == scheme_names(self.color_schemes@),
    {
        let mut out: Vec<&str> = Vec::new();
        let mut i: usize = 0;
        while i < self.color_schemes.len()
            invariant
                i <= self.color_schemes@.len(),
                out@.map_values(|s: &str| s@) == scheme_names(self.color_schemes@).take(i as int),
            decreases self.color_schemes@.len() - i,
        {
            let n = self.color_schemes[i].name.as_str();
            let ghost before = out@;
            out.push(n);
            proof {
                assert(out@.map_values(|s: &str| s@) =~= before.map_values(|s: &str| s@).push(n@));
                assert(scheme_names(self.color_schemes@).take(i + 1) =~= scheme_names(self.color_schemes@).take(
                    i as int,
                ).push(self.color_schemes@[i as int].name@));
            }
            i = i + 1;
        }
        assert(scheme_names(self.color_schemes@).take(i as int) =~= scheme_names(
            self.color_schemes@,
        ));
        out
    }

    /// Names of the keymaps to choose from, in order.
    pub fn list_keymaps(&self) -> (r: Vec<&str>)
        ensures
            r@.map_values(|s: &str| s@) == keymap_names(self.keymaps@),
    {
        let mut out: Vec<&str> = Vec::new();
        let mut i: usize = 0;
        while i < self.keymaps.len()
            invariant
                i <= self.keymaps@.len(),
                out@.map_values(|s: &str| s@) == keymap_names(self.keymaps@).take(i as int),
            decreases self.keymaps@.len() - i,
        {
            let n = self.keymaps[i].name.as_str();
            let ghost before = out@;
            out.push(n);
            proof {
                assert(out@.map_values(|s: &str| s@) =~= before.map_values(|s: &str| s@).push(n@));
                assert(keymap_names(self.keymaps@).take(i + 1) =~= keymap_names(self.keymaps@).take(
                    i as int,
                ).push(self.keymaps@[i as int].name@));
            }
            i = i + 1;
        }
        assert(keymap_names(self.keymaps@).take(i as int) =~= keymap_names(self.keymaps@));
        out
    }

    /// The first color scheme named `name`.
    pub fn get_color_scheme(&self, name: &str) -> (r: Option<&ColorScheme>)
        ensures
            r matches Some(c) ==> exists|i: int|
                first_named(scheme_names(self.color_schemes@), name@, i) && *c
                    == self.color_schemes@[i],
            r is None <==> !scheme_names(self.color_schemes@).contains(name@),
    {
        let names = self.list_color_schemes();
        match position(&names, name) {
            Some(i) => Some(&self.color_schemes[i]),
            None => None,
        }
    }

    /// The first keymap named `name`.
    pub fn get_keymap(&self, name: &str) -> (r: Option<&Keymap>)
        ensures
            r matches Some(k) ==> exists|i: int|
                first_named(keymap_names(self.keymaps@), name@, i) && *k == self.keymaps@[i],
            r is None <==> !keymap_names(self.keymaps@).contains(name@),
    {
        let names = self.list_keymaps();
        match position(&names, name) {
            Some(i) => Some(&self.keymaps[i]),
            None => None,
        }
    }

    /// Makes the first color scheme named `name` the active one; an unknown name is
    /// refused and changes nothing.
    pub fn set_color_scheme(&mut self, name: &str) -> (r: Result<(), ConfigError>)
        ensures
            r is Ok <==> scheme_names(old(self).color_schemes@).contains(name@),
            r is Ok ==> exists|i: int|
                first_named(scheme_names(old(self).color_schemes@), name@, i)
                    && final(self).colors@ == old(self).color_schemes@[i]@,
            r matches Err(e) ==> e matches ConfigError::InvalidTime(m) && m@ == "Color scheme '"@
                + name@ + "' not found"@,
            r is Err ==> final(self).colors == old(self).colors,
            final(self).keymap == old(self).keymap,
            final(self).time == old(self).time,
            final(self).color_schemes == old(self).color_schemes,
            final(self).keymaps == old(self).keymaps,
    {
        match self.get_color_scheme(name) {
            Some(c) => {
                let chosen = c.clone();
                self.colors = chosen;
                Ok(())
            },
            None => {
                let mut m = String::from_str("Color scheme '");
                m.append(name);
                m.append("' not found");
                Err(ConfigError::InvalidTime(m))
            },
        }
    }

    /// Makes the first keymap named `name` the active one; an unknown name is refused
    /// and changes nothing.
    pub fn set_keymap(&mut self, name: &str) -> (r: Result<(), ConfigError>)
        ensures
            r is Ok <==> keymap_names(old(self).keymaps@).contains(name@),
            r is Ok ==> exists|i: int|
                first_named(keymap_names(old(self).keymaps@), name@, i) && final(self).keymap@
                    == old(self).keymaps@[i]@,
            r matches Err(e) ==> e matches ConfigError::InvalidTime(m) && m@ == "Keymap '"@
                + name@ + "' not found"@,
            r is Err ==> final(self).keymap == old(self).keymap,
            final(self).colors == old(self).colors,
            final(self).time == old(self).time,
            final(self).color_schemes == old(self).color_schemes,
            final(self).keymaps == old(self).keymaps,
    {
        match self.get_keymap(name) {
            Some(k) => {
                let chosen = k.clone();
                self.keymap = chosen;
                Ok(())
            },
            None => {
                let mut m = String::from_str("Keymap '");
                m.append(name);
                m.append("' not found");
                Err(ConfigError::InvalidTime(m))
            },
        }
    }
}

} // verus!
