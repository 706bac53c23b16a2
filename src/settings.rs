//! The configuration subcommands' logic: applying settings, and the text of the
//! configuration's summary and listings.

use vstd::prelude::*;
use vstd::string::*;
use crate::config::{Config, first_named, keymap_names, scheme_names};
use crate::text::{decimal, decimal_text};

verus! {

/// The value of a decimal digit character.
pub open spec fn digit_value(c: char) -> nat {
    (c as u32 - '0' as u32) as nat
}

/// Whether every character is an ASCII decimal digit.
pub open spec fn all_digits(s: Seq<char>) -> bool {
    forall|i: int| 0 <= i < s.len() ==> '0' <= #[trigger] s[i] <= '9'
}

/// The number that a string of digits writes.
pub open spec fn digits_value(s: Seq<char>) -> nat
    decreases s.len(),
{
    if s.len() == 0 {
        0
    } else {
        digits_value(s.drop_last()) * 10 + digit_value(s.last())
    }
}

/// The text after an optional leading `+`.
pub open spec fn unsigned_digits(s: Seq<char>) -> Seq<char> {
    if s.len() > 0 && s[0] == '+' {
        s.drop_first()
    } else {
        s
    }
}

/// How `u32::from_str` reads text: an optional `+`, then one or more digits whose
/// value fits in a `u32`.
pub open spec fn u32_of(s: Seq<char>) -> Option<u32> {
    let body = unsigned_digits(s);
    if body.len() > 0 && all_digits(body) && digits_value(body) <= u32::MAX {
        Some(digits_value(body) as u32)
    } else {
        None
    }
}

/// Reads a `u32` written in decimal.
pub fn parse_u32(s: &str) -> (r: Option<u32>)
    ensures
        r == u32_of(s@),
{
    let n = s.unicode_len();
    let mut i: usize = 0;
    if n > 0 && s.get_char(0) == '+' {
        i = 1;
    }
    let start = i;
    let ghost body = unsigned_digits(s@);
    assert(body =~= s@.subrange(start as int, s@.len() as int));
    if start == n {
        return None;
    }
    let mut acc: u64 = 0;
    let mut overflow = false;
    while i < n
        invariant
            n == s@.len(),
            start <= i <= n,
            body == s@.subrange(start as int, n as int),
            body == unsigned_digits(s@),
            all_digits(s@.subrange(start as int, i as int)),
            !overflow ==> acc == digits_value(s@.subrange(start as int, i as int)) && acc
                <= u32::MAX,
            overflow ==> digits_value(s@.subrange(start as int, i as int)) > u32::MAX,
        decreases n - i,
    {
        let c = s.get_char(i);
        let ghost prefix = s@.subrange(start as int, i as int);
        let ghost next = s@.subrange(start as int, i + 1);
        assert(next.drop_last() =~= prefix);
        assert(next.last() == c);
        if !('0' <= c && c <= '9') {
            assert(body[i - start] == c);
            assert(!all_digits(body));
            return None;
        }
        let d = (c as u32 - '0' as u32) as u64;
        if overflow {
            assert(digits_value(next) >= digits_value(prefix)) by (nonlinear_arith)
                requires
                    digits_value(next) == digits_value(prefix) * 10 + digit_value(c),
            ;
        } else {
            let v = acc * 10 + d;
            if v > 4294967295 {
                overflow = true;
            } else {
                acc = v;
            }
        }
        assert(all_digits(next)) by {
            assert forall|j: int| 0 <= j < next.len() implies '0' <= #[trigger] next[j] <= '9' by {
                if j < prefix.len() {
                    assert(next[j] == prefix[j]);
                }
            }
        }
        i = i + 1;
    }
    assert(s@.subrange(start as int, i as int) =~= body);
    if overflow {
        None
    } else {
        Some(acc as u32)
    }
}

fn same_text(a: &str, b: &str) -> (r: bool)
    ensures
        r == (a@ == b@),
{
    let x = String::from_str(a);
    let y = String::from_str(b);
    x == y
}

/// The message that reports a setting.
pub open spec fn updated_text(key: Seq<char>, value: Seq<char>) -> Seq<char> {
    "Configuration updated: "@ + key + " = "@ + value
}

fn updated_line(key: &str, value: &str) -> (r: String)
    ensures
        r@ == updated_text(key@, value@),
{
    let mut m = String::from_str("Configuration updated: ");
    m.append(key);
    m.append(" = ");
    m.append(value);
    m
}

/// The message for a color scheme that is not there.
pub open spec fn no_scheme_text(name: Seq<char>) -> Seq<char> {
    "Failed to set color scheme: Invalid time: Color scheme '"@ + name + "' not found"@
}

/// The message for a keymap that is not there.
pub open spec fn no_keymap_text(name: Seq<char>) -> Seq<char> {
    "Failed to set keymap: Invalid time: Keymap '"@ + name + "' not found"@
}

/// The message for an unknown setting.
pub open spec fn unknown_key_text(key: Seq<char>) -> Seq<char> {
    "Unknown configuration key: "@ + key
        + ". Available keys: color-scheme, keymap, defer-hour, due-hour, timezone"@
}

/// Whether `key` names a setting and `value` is one it takes, given the schemes and
/// keymaps of `c`.
pub open spec fn setting_valid(c: &Config, key: Seq<char>, value: Seq<char>) -> bool {
    if key == "color-scheme"@ || key == "colors"@ {
        scheme_names(c.color_schemes@).contains(value)
    } else if key == "keymap"@ {
        keymap_names(c.keymaps@).contains(value)
    } else if key == "defer-hour"@ || key == "due-hour"@ {
        u32_of(value) matches Some(h) && h <= 23
    } else {
        key == "timezone"@
    }
}

/// The settings of the configuration that a `set` can change.
pub open spec fn settings_of(c: &Config) -> (Seq<char>, Seq<char>, u32, u32, Option<Seq<char>>) {
    (
        c.colors.name@,
        c.keymap.name@,
        c.time.defer_hour,
        c.time.due_hour,
        match c.time.timezone {
            Some(z) => Some(z@),
            None => None,
        },
    )
}

impl Config {
    /// Selects a color scheme by name, with the message of the command line.
    fn choose_scheme(&mut self, name: &str) -> (r: Result<(), String>)
        ensures
            r is Ok <==> scheme_names(old(self).color_schemes@).contains(name@),
            r is Ok ==> exists|i: int|
                first_named(scheme_names(old(self).color_schemes@), name@, i)
                    && final(self).colors@ == old(self).color_schemes@[i]@,
            r matches Err(m) ==> m@ == no_scheme_text(name@),
            r is Err ==> final(self).colors == old(self).colors,
            final(self).keymap == old(self).keymap,
            final(self).time == old(self).time,
            final(self).color_schemes == old(self).color_schemes,
            final(self).keymaps == old(self).keymaps,
    {
        match self.set_color_scheme(name) {
            Ok(()) => Ok(()),
            Err(_) => {
                let mut m = String::from_str("Failed to set color scheme: Invalid time: Color scheme '");
                m.append(name);
                m.append("' not found");
                Err(m)
            },
        }
    }

    /// Selects a keymap by name, with the message of the command line.
    fn choose_keymap(&mut self, name: &str) -> (r: Result<(), String>)
        ensures
            r is Ok <==> keymap_names(old(self).keymaps@).contains(name@),
            r is Ok ==> exists|i: int|
                first_named(keymap_names(old(self).keymaps@), name@, i)
                    && final(self).keymap@ == old(self).keymaps@[i]@,
            r matches Err(m) ==> m@ == no_keymap_text(name@),
            r is Err ==> final(self).keymap == old(self).keymap,
            final(self).colors == old(self).colors,
            final(self).time == old(self).time,
            final(self).color_schemes == old(self).color_schemes,
            final(self).keymaps == old(self).keymaps,
    {
        match self.set_keymap(name) {
            Ok(()) => Ok(()),
            Err(_) => {
                let mut m = String::from_str("Failed to set keymap: Invalid time: Keymap '");
                m.append(name);
                m.append("' not found");
                Err(m)
            },
        }
    }

    fn set_defer_hour(&mut self, key: &str, value: &str) -> (r: Result<String, String>)
        ensures
            r matches Ok(m) ==> m@ == updated_text(key@, value@),
            match u32_of(value@) {
                None => r matches Err(m) && m@ == "Defer hour must be a number between 0 and 23"@,
                Some(h) => if h > 23 {
                    r matches Err(m) && m@ == "Defer hour must be between 0 and 23"@
                } else {
                    r is Ok && final(self).time.defer_hour == h
                },
            },
            r is Err ==> final(self).time.defer_hour == old(self).time.defer_hour,
            final(self).time.due_hour == old(self).time.due_hour,
            final(self).time.timezone == old(self).time.timezone,
            final(self).colors == old(self).colors,
            final(self).keymap == old(self).keymap,
            final(self).color_schemes == old(self).color_schemes,
            final(self).keymaps == old(self).keymaps,
    {
        match parse_u32(value) {
            None => Err(String::from_str("Defer hour must be a number between 0 and 23")),
            Some(h) => {
                if h > 23 {
                    Err(String::from_str("Defer hour must be between 0 and 23"))
                } else {
                    self.time.defer_hour = h;
                    Ok(updated_line(key, value))
                }
            },
        }
    }

    fn set_due_hour(&mut self, key: &str, value: &str) -> (r: Result<String, String>)
        ensures
            r matches Ok(m) ==> m@ == updated_text(key@, value@),
            match u32_of(value@) {
                None => r matches Err(m) && m@ == "Due hour must be a number between 0 and 23"@,
                Some(h) => if h > 23 {
                    r matches Err(m) && m@ == "Due hour must be between 0 and 23"@
                } else {
                    r is Ok && final(self).time.due_hour == h
                },
            },
            r is Err ==> final(self).time.due_hour == old(self).time.due_hour,
            final(self).time.defer_hour == old(self).time.defer_hour,
            final(self).time.timezone == old(self).time.timezone,
            final(self).colors == old(self).colors,
            final(self).keymap == old(self).keymap,
            final(self).color_schemes == old(self).color_schemes,
            final(self).keymaps == old(self).keymaps,
    {
        match parse_u32(value) {
            None => Err(String::from_str("Due hour must be a number between 0 and 23")),
            Some(h) => {
                if h > 23 {
                    Err(String::from_str("Due hour must be between 0 and 23"))
                } else {
                    self.time.due_hour = h;
                    Ok(updated_line(key, value))
                }
            },
        }
    }

    fn set_timezone(&mut self, key: &str, value: &str) -> (r: Result<String, String>)
        ensures
            r matches Ok(m) && m@ == updated_text(key@, value@),
            if value@ == ""@ || value@ == "system"@ {
                final(self).time.timezone is None
            } else {
                final(self).time.timezone matches Some(z) && z@ == value@
            },
            final(self).time.defer_hour == old(self).time.defer_hour,
            final(self).time.due_hour == old(self).time.due_hour,
            final(self).colors == old(self).colors,
            final(self).keymap == old(self).keymap,
            final(self).color_schemes == old(self).color_schemes,
            final(self).keymaps == old(self).keymaps,
    {
        if same_text(value, "") || same_text(value, "system") {
            self.time.timezone = None;
        } else {
            self.time.timezone = Some(String::from_str(value));
        }
        Ok(updated_line(key, value))
    }

    /// Applies one setting given as a key and a value: `color-scheme` (or `colors`),
    /// `keymap`, `defer-hour`, `due-hour` or `timezone` (empty or `system` for the
    /// system's). Returns the message that reports it.
    #[verifier::rlimit(60)]
    pub fn apply_setting(&mut self, key: &str, value: &str) -> (r: Result<String, String>)
        ensures
            r matches Ok(m) ==> m@ == updated_text(key@, value@),
            r is Ok <==> setting_valid(old(self), key@, value@),
            final(self).color_schemes == old(self).color_schemes,
            final(self).keymaps == old(self).keymaps,
            key@ == "color-scheme"@ || key@ == "colors"@ ==> (r is Ok <==> scheme_names(
                old(self).color_schemes@,
            ).contains(value@)) && (r is Ok ==> exists|i: int|
                first_named(scheme_names(old(self).color_schemes@), value@, i)
                    && final(self).colors@ == old(self).color_schemes@[i]@) && (r matches Err(m)
                ==> m@ == no_scheme_text(value@)),
            key@ == "keymap"@ ==> (r is Ok <==> keymap_names(old(self).keymaps@).contains(value@))
                && (r is Ok ==> exists|i: int|
                first_named(keymap_names(old(self).keymaps@), value@, i)
                    && final(self).keymap@ == old(self).keymaps@[i]@) && (r matches Err(m) ==> m@
                == no_keymap_text(value@)),
            key@ == "defer-hour"@ ==> match u32_of(value@) {
                None => r matches Err(m) && m@ == "Defer hour must be a number between 0 and 23"@,
                Some(h) => if h > 23 {
                    r matches Err(m) && m@ == "Defer hour must be between 0 and 23"@
                } else {
                    r is Ok && final(self).time.defer_hour == h
                },
            },
            key@ == "due-hour"@ ==> match u32_of(value@) {
                None => r matches Err(m) && m@ == "Due hour must be a number between 0 and 23"@,
                Some(h) => if h > 23 {
                    r matches Err(m) && m@ == "Due hour must be between 0 and 23"@
                } else {
                    r is Ok && final(self).time.due_hour == h
                },
            },
            key@ == "timezone"@ ==> r is Ok && (if value@ == ""@ || value@ == "system"@ {
                final(self).time.timezone is None
            } else {
                final(self).time.timezone matches Some(z) && z@ == value@
            }),
            !(key@ == "color-scheme"@ || key@ == "colors"@ || key@ == "keymap"@ || key@
                == "defer-hour"@ || key@ == "due-hour"@ || key@ == "timezone"@) ==> (r matches Err(
                m,
            ) && m@ == unknown_key_text(key@)),
            r is Err ==> settings_of(final(self)) == settings_of(old(self)),
            !(key@ == "color-scheme"@ || key@ == "colors"@) ==> final(self).colors == old(
                self,
            ).colors,
            key@ != "keymap"@ ==> final(self).keymap == old(self).keymap,
            key@ != "defer-hour"@ ==> final(self).time.defer_hour == old(self).time.defer_hour,
            key@ != "due-hour"@ ==> final(self).time.due_hour == old(self).time.due_hour,
            key@ != "timezone"@ ==> final(self).time.timezone == old(self).time.timezone,
    {
        proof {
            reveal_strlit("color-scheme");
            reveal_strlit("colors");
            reveal_strlit("keymap");
            reveal_strlit("defer-hour");
            reveal_strlit("due-hour");
            reveal_strlit("timezone");
            reveal_strlit("");
            reveal_strlit("system");
            assert("color-scheme"@.len() == 12 && "colors"@.len() == 6 && "keymap"@.len() == 6
                && "defer-hour"@.len() == 10 && "due-hour"@.len() == 8 && "timezone"@.len() == 8);
            assert("colors"@[0] != "keymap"@[0] && "due-hour"@[0] != "timezone"@[0]);
            assert(""@.len() == 0 && "system"@.len() == 6);
        }
        if same_text(key, "color-scheme") || same_text(key, "colors") {
            match self.choose_scheme(value) {
                Ok(()) => Ok(updated_line(key, value)),
                Err(m) => Err(m),
            }
        } else if same_text(key, "keymap") {
            match self.choose_keymap(value) {
                Ok(()) => Ok(updated_line(key, value)),
                Err(m) => Err(m),
            }
        } else if same_text(key, "defer-hour") {
            self.set_defer_hour(key, value)
        } else if same_text(key, "due-hour") {
            self.set_due_hour(key, value)
        } else if same_text(key, "timezone") {
            self.set_timezone(key, value)
        } else {
            let mut m = String::from_str("Unknown configuration key: ");
            m.append(key);
            m.append(". Available keys: color-scheme, keymap, defer-hour, due-hour, timezone");
            Err(m)
        }
    }

    /// Applies the settings of a `set` command: the key and value first (where both
    /// are given), then each flag in turn. Returns one message per setting. Stops at the
    /// first setting that fails; with no setting at all, fails.
    pub fn apply_settings(
        &mut self,
        key: Option<&str>,
        value: Option<&str>,
        color_scheme: Option<&str>,
        keymap: Option<&str>,
        defer_hour: Option<u32>,
        due_hour: Option<u32>,
    ) -> (r: Result<Vec<String>, String>)
        ensures
            final(self).color_schemes == old(self).color_schemes,
            final(self).keymaps == old(self).keymaps,
            r matches Ok(lines) ==> lines@.len() == settings_given(
                key,
                value,
                color_scheme,
                keymap,
                defer_hour,
                due_hour,
            ) && lines@.len() > 0,
            settings_given(key, value, color_scheme, keymap, defer_hour, due_hour) == 0 ==> (
            r matches Err(m) && m@ == no_changes_text()),
            r is Ok && key is Some && value is Some ==> r->Ok_0@[0]@ == updated_text(
                key->Some_0@,
                value->Some_0@,
            ),
            r is Ok ==> (color_scheme matches Some(c) ==> exists|i: int|
                first_named(scheme_names(old(self).color_schemes@), c@, i)
                    && final(self).colors@ == old(self).color_schemes@[i]@),
            r is Ok ==> (keymap matches Some(k) ==> exists|i: int|
                first_named(keymap_names(old(self).keymaps@), k@, i) && final(self).keymap@
                    == old(self).keymaps@[i]@),
            r is Ok ==> (defer_hour matches Some(h) ==> h <= 23 && final(self).time.defer_hour
                == h),
            r is Ok ==> (due_hour matches Some(h) ==> h <= 23 && final(self).time.due_hour == h),
            color_scheme matches Some(c) && !scheme_names(old(self).color_schemes@).contains(c@)
                ==> r is Err,
            keymap matches Some(k) && !keymap_names(old(self).keymaps@).contains(k@) ==> r is Err,
            defer_hour matches Some(h) && h > 23 ==> r is Err,
            due_hour matches Some(h) && h > 23 ==> r is Err,
            settings_given(key, value, color_scheme, keymap, defer_hour, due_hour) > 0 && (key
                matches Some(k) && value matches Some(v) ==> setting_valid(old(self), k@, v@)) && (
            color_scheme matches Some(c) ==> scheme_names(old(self).color_schemes@).contains(c@))
                && (keymap matches Some(k) ==> keymap_names(old(self).keymaps@).contains(k@)) && (
            defer_hour matches Some(h) ==> h <= 23) && (due_hour matches Some(h) ==> h <= 23)
                ==> r is Ok,
    {
        let mut lines: Vec<String> = Vec::new();
        let ghost schemes = self.color_schemes@;
        let ghost keymaps = self.keymaps@;
        match (key, value) {
            (Some(k), Some(v)) => {
                match self.apply_setting(k, v) {
                    Ok(m) => lines.push(m),
                    Err(m) => return Err(m),
                }
            },
            _ => {},
        }
        if let Some(c) = color_scheme {
            match self.choose_scheme(c) {
                Ok(()) => lines.push(updated_line("color-scheme", c)),
                Err(m) => return Err(m),
            }
        }
        if let Some(k) = keymap {
            match self.choose_keymap(k) {
                Ok(()) => lines.push(updated_line("keymap", k)),
                Err(m) => return Err(m),
            }
        }
        if let Some(h) = defer_hour {
            if h > 23 {
                return Err(String::from_str("Defer hour must be between 0 and 23"));
            }
            self.time.defer_hour = h;
            let t = decimal_text(h as u64);
            lines.push(updated_line("defer-hour", t.as_str()));
        }
        if let Some(h) = due_hour {
            if h > 23 {
                return Err(String::from_str("Due hour must be between 0 and 23"));
            }
            self.time.due_hour = h;
            let t = decimal_text(h as u64);
            lines.push(updated_line("due-hour", t.as_str()));
        }
        if lines.len() == 0 {
            return Err(String::from_str(
                "No configuration changes specified. Use either 'key value' format or flags like --color-scheme",
            ));
        }
        Ok(lines)
    }

    /// The lines of `config show`.
    pub fn summary_lines(&self) -> (r: Vec<String>)
        ensures
            r@.map_values(|l: String| l@) == summary_text(self),
    {
        let mut out: Vec<String> = Vec::new();
        out.push(String::from_str("Current configuration:"));
        let mut l = String::from_str("  Color scheme: ");
        l.append(self.colors.name.as_str());
        out.push(l);
        let mut l = String::from_str("  Keymap: ");
        l.append(self.keymap.name.as_str());
        out.push(l);
        let mut l = String::from_str("  Default defer hour: ");
        let n = decimal_text(self.time.defer_hour as u64);
        l.append(n.as_str());
        out.push(l);
        let mut l = String::from_str("  Default due hour: ");
        let n = decimal_text(self.time.due_hour as u64);
        l.append(n.as_str());
        out.push(l);
        match &self.time.timezone {
            Some(z) => {
                let mut l = String::from_str("  Timezone: ");
                l.append(z.as_str());
                out.push(l);
            },
            None => out.push(String::from_str("  Timezone: (system default)")),
        }
        assert(out@.map_values(|l: String| l@) =~= summary_text(self));
        out
    }

    /// The lines of `config list-colors`: each scheme, the active one marked.
    pub fn color_scheme_lines(&self) -> (r: Vec<String>)
        ensures
            r@.map_values(|l: String| l@) == seq!["Available color schemes:"@] + marked_names(
                scheme_names(self.color_schemes@),
                self.colors.name@,
            ),
    {
        let names = self.list_color_schemes();
        let mut out: Vec<String> = Vec::new();
        out.push(String::from_str("Available color schemes:"));
        let current = self.colors.name.as_str();
        marked_lines(&names, current, &mut out);
        out
    }

    /// The lines of `config list-keymaps`: each keymap, the active one marked.
    pub fn keymap_lines(&self) -> (r: Vec<String>)
        ensures
            r@.map_values(|l: String| l@) == seq!["Available keymaps:"@] + marked_names(
                keymap_names(self.keymaps@),
                self.keymap.name@,
            ),
    {
        let names = self.list_keymaps();
        let mut out: Vec<String> = Vec::new();
        out.push(String::from_str("Available keymaps:"));
        let current = self.keymap.name.as_str();
        marked_lines(&names, current, &mut out);
        out
    }
}

/// How many settings a `set` command gives: the key and value count once, together.
pub open spec fn settings_given(
    key: Option<&str>,
    value: Option<&str>,
    color_scheme: Option<&str>,
    keymap: Option<&str>,
    defer_hour: Option<u32>,
    due_hour: Option<u32>,
) -> nat {
    (if key is Some && value is Some { 1nat } else { 0nat }) + (if color_scheme is Some {
        1nat
    } else {
        0nat
    }) + (if keymap is Some { 1nat } else { 0nat }) + (if defer_hour is Some {
        1nat
    } else {
        0nat
    }) + (if due_hour is Some { 1nat } else { 0nat })
}

/// The message of a `set` command without settings.
pub open spec fn no_changes_text() -> Seq<char> {
    "No configuration changes specified. Use either 'key value' format or flags like --color-scheme"@
}

/// The lines of `config show` for `c`.
pub open spec fn summary_text(c: &Config) -> Seq<Seq<char>> {
    seq![
        "Current configuration:"@,
        "  Color scheme: "@ + c.colors.name@,
        "  Keymap: "@ + c.keymap.name@,
        "  Default defer hour: "@ + decimal(c.time.defer_hour as nat),
        "  Default due hour: "@ + decimal(c.time.due_hour as nat),
        match c.time.timezone {
            Some(z) => "  Timezone: "@ + z@,
            None => "  Timezone: (system default)"@,
        },
    ]
}

/// One indented line per name, ` (current)` after the names equal to `current`.
pub open spec fn marked_names(names: Seq<Seq<char>>, current: Seq<char>) -> Seq<Seq<char>> {
    names.map_values(
        |n: Seq<char>|
            if n == current {
                "  "@ + n + " (current)"@
            } else {
                "  "@ + n
            },
    )
}

fn marked_lines(names: &Vec<&str>, current: &str, out: &mut Vec<String>)
    ensures
        final(out)@.map_values(|l: String| l@) == old(out)@.map_values(|l: String| l@)
            + marked_names(names@.map_values(|s: &str| s@), current@),
{
    let ghost start = out@.map_values(|l: String| l@);
    let ghost ns = names@.map_values(|s: &str| s@);
    let mut i: usize = 0;
    while i < names.len()
        invariant
            i <= names@.len(),
            ns == names@.map_values(|s: &str| s@),
            out@.map_values(|l: String| l@) == start + marked_names(ns.take(i as int), current@),
        decreases names@.len() - i,
    {
        let mut l = String::from_str("  ");
        l.append(names[i]);
        if same_text(names[i], current) {
            l.append(" (current)");
        }
        let ghost before = out@;
        out.push(l);
        proof {
            assert(out@.map_values(|l: String| l@) =~= before.map_values(|l: String| l@).push(l@));
            assert(marked_names(ns.take(i + 1), current@) =~= marked_names(ns.take(i as int), current@).push(
                if ns[i as int] == current@ {
                    "  "@ + ns[i as int] + " (current)"@
                } else {
                    "  "@ + ns[i as int]
                },
            ));
        }
        i = i + 1;
    }
    assert(ns.take(i as int) =~= ns);
}

} // verus!
