//! Libretro core options (v1 and v2 API) and old-style core variables.
//!
//! The core hands its option definitions to the frontend through environment
//! callbacks during init; this module holds them once they are read.
use vstd::prelude::*;
use crate::text::{str_eq, chars_of, string_from_chars};

verus! {

/// A single option value (key + display label).
pub struct CoreOptionValue {
    pub value: String,
    pub label: Option<String>,
}

/// A core option with its key, description, available values, and default.
pub struct CoreOptionDefinition {
    pub key: String,
    pub desc: String,
    pub info: Option<String>,
    pub values: Vec<CoreOptionValue>,
    pub default_value: Option<String>,
}

/// Category for v2 options (groups related options together).
pub struct CoreOptionCategory {
    pub key: String,
    pub desc: String,
    pub info: Option<String>,
}

/// Complete core options set (v2 format with categories).
pub struct CoreOptionsV2 {
    pub categories: Vec<CoreOptionCategory>,
    pub definitions: Vec<CoreOptionDefinition>,
}

/// Complete core options set (v1 format, flat list).
pub struct CoreOptionsV1 {
    pub definitions: Vec<CoreOptionDefinition>,
}

/// An old-style core variable (`SET_VARIABLES`): key, title, the values it
/// may take and the index of its default value.
pub struct OldVariable {
    pub key: String,
    pub title: String,
    pub values: Vec<String>,
    pub default_index: usize,
}

/// Parsed core options from the libretro core.
pub struct CoreOptions {
    /// Whether the core supports v2 API
    pub supports_v2: bool,
    /// The v2 options (if available)
    pub v2: Option<CoreOptionsV2>,
    /// The v1 options (fallback)
    pub v1: Option<CoreOptionsV1>,
    /// Old-style variables, when the core uses `SET_VARIABLES`
    pub old_vars: Vec<OldVariable>,
    /// Values of old-style variables, by key
    pub old_values: OptionValues,
    /// Values chosen for v1/v2 options in the menu, by key
    pub v2_values: OptionValues,
}

/// The value an option starts with: its default, when the default is one of
/// its listed values.
pub open spec fn listed_default(opt: CoreOptionDefinition) -> Option<Seq<char>> {
    match opt.default_value {
        Some(d) => if exists|j: int| 0 <= j < opt.values@.len() && (#[trigger] opt.values@[j]).value@ == d@ {
            Some(d@)
        } else {
            None
        },
        None => None,
    }
}

/// The current value of option `key` among `defs`: the first definition with
/// that key decides.
pub open spec fn current_value_among(defs: Seq<CoreOptionDefinition>, key: Seq<char>) -> Option<Seq<char>>
    decreases defs.len(),
{
    if defs.len() == 0 {
        None
    } else if defs[0].key@ == key {
        listed_default(defs[0])
    } else {
        current_value_among(defs.drop_first(), key)
    }
}


/// The map that a list of (key, value) entries stands for.
pub open spec fn entries_map(entries: Seq<(Seq<char>, Seq<char>)>) -> Map<Seq<char>, Seq<char>>
    decreases entries.len(),
{
    if entries.len() == 0 {
        Map::empty()
    } else {
        entries_map(entries.drop_last()).insert(entries.last().0, entries.last().1)
    }
}

/// No key occurs twice among the entries.
pub open spec fn keys_distinct(entries: Seq<(Seq<char>, Seq<char>)>) -> bool {
    forall|i: int, j: int| 0 <= i < j < entries.len() ==> (#[trigger] entries[i]).0 != (#[trigger] entries[j]).0
}

/// With distinct keys, the entry at `i` is what the map holds for its key.
proof fn lemma_entries_map_at(entries: Seq<(Seq<char>, Seq<char>)>, i: int)
    requires
        keys_distinct(entries),
        0 <= i < entries.len(),
    ensures
        entries_map(entries).contains_key(entries[i].0),
        entries_map(entries)[entries[i].0] == entries[i].1,
    decreases entries.len(),
{
    if i < entries.len() - 1 {
        let init = entries.drop_last();
        assert(init[i] == entries[i]);
        assert forall|a: int, b: int| 0 <= a < b < init.len() implies (#[trigger] init[a]).0 != (#[trigger] init[b]).0 by {
            assert(init[a] == entries[a] && init[b] == entries[b]);
        }
        lemma_entries_map_at(init, i);
        assert(entries[i].0 != entries[entries.len() - 1].0);
    }
}

/// A key that no entry has is not in the map.
proof fn lemma_entries_map_absent(entries: Seq<(Seq<char>, Seq<char>)>, k: Seq<char>)
    requires
        forall|i: int| 0 <= i < entries.len() ==> (#[trigger] entries[i]).0 != k,
    ensures
        !entries_map(entries).contains_key(k),
    decreases entries.len(),
{
    if entries.len() > 0 {
        let init = entries.drop_last();
        assert forall|i: int| 0 <= i < init.len() implies (#[trigger] init[i]).0 != k by {
            assert(init[i] == entries[i]);
        }
        lemma_entries_map_absent(init, k);
        assert(entries[entries.len() - 1].0 != k);
    }
}

/// Replacing the value of the entry at `i` (distinct keys) inserts into the map.
proof fn lemma_entries_map_update(entries: Seq<(Seq<char>, Seq<char>)>, i: int, v: Seq<char>)
    requires
        keys_distinct(entries),
        0 <= i < entries.len(),
    ensures
        entries_map(entries.update(i, (entries[i].0, v))) == entries_map(entries).insert(entries[i].0, v),
    decreases entries.len(),
{
    let n = entries.len();
    let upd = entries.update(i, (entries[i].0, v));
    let init = entries.drop_last();
    assert forall|a: int, b: int| 0 <= a < b < init.len() implies (#[trigger] init[a]).0 != (#[trigger] init[b]).0 by {
        assert(init[a] == entries[a] && init[b] == entries[b]);
    }
    if i == n - 1 {
        assert(upd.drop_last() =~= init);
        assert(entries_map(upd) == entries_map(init).insert(entries[i].0, v));
        assert(entries_map(upd) =~= entries_map(entries).insert(entries[i].0, v));
    } else {
        assert(upd.drop_last() =~= init.update(i, (init[i].0, v)));
        lemma_entries_map_update(init, i, v);
        assert(entries[i].0 != entries[n - 1].0);
        assert(upd.last() == entries.last());
        assert(entries_map(upd) =~= entries_map(entries).insert(entries[i].0, v));
    }
}

/// Option values chosen at run time, by option key; a key has one value.
pub struct OptionValues {
    entries: Vec<(String, String)>,
}

impl OptionValues {
    /// The entries as pairs of character sequences.
    pub closed spec fn spec_entries(&self) -> Seq<(Seq<char>, Seq<char>)> {
        self.entries@.map_values(|e: (String, String)| (e.0@, e.1@))
    }

    /// The values as a map from key to value.
    pub closed spec fn spec_map(&self) -> Map<Seq<char>, Seq<char>> {
        entries_map(self.spec_entries())
    }

    /// No key is stored twice.
    pub closed spec fn wf(&self) -> bool {
        keys_distinct(self.spec_entries())
    }

    /// No value chosen yet.
    pub fn new() -> (s: Self)
        ensures
            s.wf(),
            s.spec_map() == Map::<Seq<char>, Seq<char>>::empty(),
    {
        let s = OptionValues { entries: Vec::new() };
        assert(s.spec_entries() =~= Seq::<(Seq<char>, Seq<char>)>::empty());
        s
    }

    /// The value chosen for `key`, if any.
    pub fn get(&self, key: &str) -> (r: Option<String>)
        requires
            self.wf(),
        ensures
            match r {
                Some(v) => self.spec_map().contains_key(key@) && self.spec_map()[key@] == v@,
                None => !self.spec_map().contains_key(key@),
            },
    {
        let mut i: usize = 0;
        while i < self.entries.len()
            invariant
                self.wf(),
                0 <= i <= self.entries@.len(),
                forall|j: int| 0 <= j < i ==> (#[trigger] self.spec_entries()[j]).0 != key@,
            decreases self.entries@.len() - i,
        {
            assert(self.spec_entries()[i as int] == (self.entries@[i as int].0@, self.entries@[i as int].1@));
            if str_eq(self.entries[i].0.as_str(), key) {
                proof {
                    lemma_entries_map_at(self.spec_entries(), i as int);
                }
                return Some(self.entries[i].1.clone());
            }
            i = i + 1;
        }
        proof {
            lemma_entries_map_absent(self.spec_entries(), key@);
        }
        None
    }

    /// Whether no key is stored twice (always true of values made by `new`
    /// and changed by `set`).
    pub fn well_formed(&self) -> (b: bool)
        ensures
            b == self.wf(),
    {
        let n = self.entries.len();
        let mut i: usize = 0;
        while i < n
            invariant
                n == self.entries@.len(),
                0 <= i <= n,
                forall|a: int, b: int| 0 <= a < i && a < b < n ==> (#[trigger] self.spec_entries()[a]).0
                    != (#[trigger] self.spec_entries()[b]).0,
            decreases n - i,
        {
            let mut j: usize = i + 1;
            while j < n
                invariant
                    n == self.entries@.len(),
                    0 <= i < n,
                    i + 1 <= j <= n,
                    forall|a: int, b: int| 0 <= a < i && a < b < n ==> (#[trigger] self.spec_entries()[a]).0
                        != (#[trigger] self.spec_entries()[b]).0,
                    forall|b: int| i < b < j ==> self.spec_entries()[i as int].0 != (#[trigger] self.spec_entries()[b]).0,
                decreases n - j,
            {
                assert(self.spec_entries()[i as int].0 == self.entries@[i as int].0@);
                assert(self.spec_entries()[j as int].0 == self.entries@[j as int].0@);
                if str_eq(self.entries[i].0.as_str(), self.entries[j].0.as_str()) {
                    return false;
                }
                j = j + 1;
            }
            i = i + 1;
        }
        true
    }

    /// Choose `value` for `key`, replacing an earlier choice.
    pub fn set(&mut self, key: &str, value: &str)
        requires
            old(self).wf(),
        ensures
            final(self).wf(),
            final(self).spec_map() == old(self).spec_map().insert(key@, value@),
    {
        let mut i: usize = 0;
        while i < self.entries.len()
            invariant
                self.wf(),
                self.entries@ == old(self).entries@,
                0 <= i <= self.entries@.len(),
                forall|j: int| 0 <= j < i ==> (#[trigger] self.spec_entries()[j]).0 != key@,
            decreases self.entries@.len() - i,
        {
            assert(self.spec_entries()[i as int] == (self.entries@[i as int].0@, self.entries@[i as int].1@));
            if str_eq(self.entries[i].0.as_str(), key) {
                let ghost before = self.spec_entries();
                let k = self.entries[i].0.clone();
                self.entries.set(i, (k, value.to_string()));
                proof {
                    assert(self.spec_entries() =~= before.update(i as int, (before[i as int].0, value@)));
                    lemma_entries_map_update(before, i as int, value@);
                    assert forall|a: int, b: int| 0 <= a < b < self.spec_entries().len() implies
                        (#[trigger] self.spec_entries()[a]).0 != (#[trigger] self.spec_entries()[b]).0 by {
                        assert(self.spec_entries()[a].0 == before[a].0);
                        assert(self.spec_entries()[b].0 == before[b].0);
                    }
                }
                return;
            }
            i = i + 1;
        }
        let ghost before = self.spec_entries();
        self.entries.push((key.to_string(), value.to_string()));
        proof {
            assert(self.spec_entries() =~= before.push((key@, value@)));
            assert(self.spec_entries().drop_last() =~= before);
            assert forall|a: int, b: int| 0 <= a < b < self.spec_entries().len() implies
                (#[trigger] self.spec_entries()[a]).0 != (#[trigger] self.spec_entries()[b]).0 by {
                if b < before.len() {
                    assert(self.spec_entries()[a] == before[a]);
                    assert(self.spec_entries()[b] == before[b]);
                } else {
                    assert(self.spec_entries()[a] == before[a]);
                }
            }
        }
    }
}

impl CoreOptions {
    /// The option definitions in use: the v2 ones when the core supports v2
    /// and declared them, else the v1 ones.
    pub open spec fn spec_definitions(&self) -> Option<Seq<CoreOptionDefinition>> {
        match self.v2 {
            Some(v) if self.supports_v2 => Some(v.definitions@),
            _ => match self.v1 {
                Some(v) => Some(v.definitions@),
                None => None,
            },
        }
    }

    /// Get all option definitions (v2 if available, otherwise v1).
    pub fn definitions(&self) -> (r: Option<&[CoreOptionDefinition]>)
        ensures
            match r {
                Some(d) => self.spec_definitions() == Some(d@),
                None => self.spec_definitions() is None,
            },
    {
        if self.supports_v2 {
            if let Some(v) = &self.v2 {
                return Some(v.definitions.as_slice());
            }
        }
        match &self.v1 {
            Some(v) => Some(v.definitions.as_slice()),
            None => None,
        }
    }


    /// Both value stores hold each key once.
    pub open spec fn wf(&self) -> bool {
        self.v2_values.wf() && self.old_values.wf()
    }

    /// The value the core gets for `key`: the one chosen in the menu, else
    /// the old-style variable's value, else the option's default.
    pub open spec fn spec_current_value(&self, key: Seq<char>) -> Option<Seq<char>> {
        if self.v2_values.spec_map().contains_key(key) {
            Some(self.v2_values.spec_map()[key])
        } else if self.old_values.spec_map().contains_key(key) {
            Some(self.old_values.spec_map()[key])
        } else {
            match self.spec_definitions() {
                Some(defs) => current_value_among(defs, key),
                None => None,
            }
        }
    }

    /// Whether both value stores hold each key once (see `wf`).
    pub fn well_formed(&self) -> (b: bool)
        ensures
            b == self.wf(),
    {
        self.v2_values.well_formed() && self.old_values.well_formed()
    }

    /// Options declared with `SET_CORE_OPTIONS` (v1 API).
    pub fn from_v1(definitions: Vec<CoreOptionDefinition>) -> (co: Self)
        ensures
            co.wf(),
            !co.supports_v2,
            co.v2 is None,
            co.v1 matches Some(v1) && v1.definitions@ == definitions@,
            co.old_vars@.len() == 0,
            co.v2_values.spec_map() == Map::<Seq<char>, Seq<char>>::empty(),
            co.old_values.spec_map() == Map::<Seq<char>, Seq<char>>::empty(),
    {
        CoreOptions {
            supports_v2: false,
            v2: None,
            v1: Some(CoreOptionsV1 { definitions }),
            old_vars: Vec::new(),
            old_values: OptionValues::new(),
            v2_values: OptionValues::new(),
        }
    }

    /// Options declared with `SET_CORE_OPTIONS_V2` (or its US part of
    /// `SET_CORE_OPTIONS_V2_INTL`), without categories.
    pub fn from_v2(definitions: Vec<CoreOptionDefinition>) -> (co: Self)
        ensures
            co.wf(),
            co.supports_v2,
            co.v2 matches Some(v2) && v2.definitions@ == definitions@ && v2.categories@.len() == 0,
            co.v1 is None,
            co.old_vars@.len() == 0,
            co.v2_values.spec_map() == Map::<Seq<char>, Seq<char>>::empty(),
            co.old_values.spec_map() == Map::<Seq<char>, Seq<char>>::empty(),
    {
        CoreOptions {
            supports_v2: true,
            v2: Some(CoreOptionsV2 { categories: Vec::new(), definitions }),
            v1: None,
            old_vars: Vec::new(),
            old_values: OptionValues::new(),
            v2_values: OptionValues::new(),
        }
    }

    /// Get the current value for an option by key: the value chosen in the
    /// menu, else the old-style variable's value, else the default of the
    /// first definition with that key (when it is one of its values).
    pub fn get_current_value(&self, key: &str) -> (r: Option<String>)
        requires
            self.wf(),
        ensures
            match r {
                Some(s) => self.spec_current_value(key@) == Some(s@),
                None => self.spec_current_value(key@) is None,
            },
    {
        if let Some(v) = self.v2_values.get(key) {
            return Some(v);
        }
        if let Some(v) = self.old_values.get(key) {
            return Some(v);
        }
        self.default_current_value(key)
    }

    /// Record the value chosen in the menu for option `key`.
    pub fn set_v2_value(&mut self, key: &str, value: &str)
        requires
            old(self).wf(),
        ensures
            final(self).wf(),
            final(self).v2_values.spec_map() == old(self).v2_values.spec_map().insert(key@, value@),
            final(self).old_values == old(self).old_values,
            final(self).supports_v2 == old(self).supports_v2,
            final(self).v1 == old(self).v1,
            final(self).v2 == old(self).v2,
            final(self).old_vars == old(self).old_vars,
    {
        self.v2_values.set(key, value);
    }

    /// Record the value of old-style variable `key`.
    pub fn set_old_value(&mut self, key: &str, value: &str)
        requires
            old(self).wf(),
        ensures
            final(self).wf(),
            final(self).old_values.spec_map() == old(self).old_values.spec_map().insert(key@, value@),
            final(self).v2_values == old(self).v2_values,
            final(self).supports_v2 == old(self).supports_v2,
            final(self).v1 == old(self).v1,
            final(self).v2 == old(self).v2,
            final(self).old_vars == old(self).old_vars,
    {
        self.old_values.set(key, value);
    }

    /// The keys of the old-style variables, in order.
    pub fn old_variable_keys(&self) -> (keys: Vec<String>)
        ensures
            keys@.map_values(|k: String| k@) == self.old_vars@.map_values(|v: OldVariable| v.key@),
    {
        let mut keys: Vec<String> = Vec::new();
        let mut i: usize = 0;
        while i < self.old_vars.len()
            invariant
                0 <= i <= self.old_vars@.len(),
                keys@.len() == i,
                forall|j: int| 0 <= j < i ==> (#[trigger] keys@[j])@ == self.old_vars@[j].key@,
            decreases self.old_vars@.len() - i,
        {
            keys.push(self.old_vars[i].key.clone());
            i = i + 1;
        }
        assert(keys@.map_values(|k: String| k@) =~= self.old_vars@.map_values(|v: OldVariable| v.key@));
        keys
    }

    /// The default value of option `key`: that of the first definition with
    /// that key, when that default is one of its values.
    fn default_current_value(&self, key: &str) -> (r: Option<String>)
        ensures
            match self.spec_definitions() {
                Some(defs) => match r {
                    Some(s) => current_value_among(defs, key@) == Some(s@),
                    None => current_value_among(defs, key@) is None,
                },
                None => r is None,
            },
    {
        let defs = match self.definitions() {
            Some(d) => d,
            None => return None,
        };
        let mut i: usize = 0;
        assert(defs@.skip(0) =~= defs@);
        while i < defs.len()
            invariant
                self.spec_definitions() == Some(defs@),
                0 <= i <= defs@.len(),
                current_value_among(defs@, key@) == current_value_among(defs@.skip(i as int), key@),
            decreases defs@.len() - i,
        {
            assert(defs@.skip(i as int).drop_first() =~= defs@.skip(i + 1));
            if str_eq(defs[i].key.as_str(), key) {
                assert(defs@.skip(i as int)[0] == defs@[i as int]);
                return listed_default_of(&defs[i]);
            }
            i = i + 1;
        }
        None
    }
}

/// The default value of `opt`, when it is one of its listed values.
fn listed_default_of(opt: &CoreOptionDefinition) -> (r: Option<String>)
    ensures
        match r {
            Some(s) => listed_default(*opt) == Some(s@),
            None => listed_default(*opt) is None,
        },
{
    match &opt.default_value {
        None => None,
        Some(d) => {
            let mut j: usize = 0;
            while j < opt.values.len()
                invariant
                    opt.default_value == Some(*d),
                    0 <= j <= opt.values@.len(),
                    forall|k: int| 0 <= k < j ==> (#[trigger] opt.values@[k]).value@ != d@,
                decreases opt.values@.len() - j,
            {
                if str_eq(opt.values[j].value.as_str(), d.as_str()) {
                    assert(opt.values@[j as int].value@ == d@);
                    return Some(opt.values[j].value.clone());
                }
                j = j + 1;
            }
            None
        },
    }
}

/// Check if a core supports the v2 core options API:
/// `GET_CORE_OPTIONS_VERSION` returned at least 2.
pub fn supports_v2(version: u32) -> (b: bool)
    ensures
        b == (version >= 2),
{
    version >= 2
}

/// The v1 core options API version.
pub const V1_API_VERSION: u32 = 1;

/// The v2 core options API version.
pub const V2_API_VERSION: u32 = 2;

/// `s` split at its first `c`: the part before and the part after.
pub open spec fn split_once(s: Seq<char>, c: char) -> Option<(Seq<char>, Seq<char>)>
    decreases s.len(),
{
    if s.len() == 0 {
        None
    } else if s[0] == c {
        Some((Seq::empty(), s.drop_first()))
    } else {
        match split_once(s.drop_first(), c) {
            Some((a, b)) => Some((seq![s[0]] + a, b)),
            None => None,
        }
    }
}

/// `s` without its leading spaces.
pub open spec fn trim_leading_spaces(s: Seq<char>) -> Seq<char>
    decreases s.len(),
{
    if s.len() > 0 && s[0] == ' ' {
        trim_leading_spaces(s.drop_first())
    } else {
        s
    }
}

/// The pieces of `s` between the occurrences of `sep` (one piece more than
/// there are separators).
pub open spec fn split_on(s: Seq<char>, sep: char) -> Seq<Seq<char>>
    decreases s.len(),
{
    if s.len() == 0 {
        seq![Seq::empty()]
    } else {
        let rest = split_on(s.drop_first(), sep);
        if s[0] == sep {
            seq![Seq::<char>::empty()] + rest
        } else {
            rest.update(0, seq![s[0]] + rest[0])
        }
    }
}

/// `split_on` never gives an empty list of pieces.
proof fn lemma_split_on_nonempty(s: Seq<char>, sep: char)
    ensures
        split_on(s, sep).len() >= 1,
    decreases s.len(),
{
    if s.len() > 0 {
        lemma_split_on_nonempty(s.drop_first(), sep);
    }
}

/// An old-style variable string `"Title; value1|value2|..."`: the title
/// before the first `;`, and the values after it (leading spaces dropped),
/// separated by `|`. None without a `;` or without anything after it.
pub open spec fn parse_old_variable(s: Seq<char>) -> Option<(Seq<char>, Seq<Seq<char>>)> {
    match split_once(s, ';') {
        Some((title, rest)) => {
            let list = trim_leading_spaces(rest);
            if list.len() == 0 {
                None
            } else {
                Some((title, split_on(list, '|')))
            }
        },
        None => None,
    }
}

/// Parse an old-style variable string `"Title; value1|value2|..."` into its
/// title and its values (the first value is the default).
pub fn parse_old_variable_string(s: &str) -> (r: Option<(String, Vec<String>)>)
    ensures
        match r {
            Some((t, vals)) => parse_old_variable(s@) == Some((t@, vals@.map_values(|v: String| v@))),
            None => parse_old_variable(s@) is None,
        },
{
    let chars = chars_of(s);
    let n = chars.len();
    // the title: everything before the first ';'
    let mut title: Vec<char> = Vec::new();
    let mut i: usize = 0;
    proof {
        assert(chars@.skip(0) =~= chars@);
        assert(title@ =~= chars@.take(0));
        match split_once(chars@, ';') {
            Some((a, b)) => {
                assert(title@ + a =~= a);
            },
            None => {},
        }
    }
    while i < n && chars[i] != ';'
        invariant
            n == chars@.len(),
            chars@ == s@,
            0 <= i <= n,
            title@ == chars@.take(i as int),
            forall|k: int| 0 <= k < i ==> chars@[k] != ';',
            split_once(s@, ';') == match split_once(chars@.skip(i as int), ';') {
                Some((a, b)) => Some((title@ + a, b)),
                None => None,
            },
        decreases n - i,
    {
        proof {
            assert(chars@.skip(i as int).drop_first() =~= chars@.skip(i + 1));
            assert(chars@.skip(i as int)[0] == chars@[i as int]);
            assert(chars@.take(i + 1) =~= title@.push(chars@[i as int]));
            match split_once(chars@.skip(i + 1), ';') {
                Some((a, b)) => {
                    assert(title@ + (seq![chars@[i as int]] + a) =~= title@.push(chars@[i as int]) + a);
                },
                None => {},
            }
        }
        title.push(chars[i]);
        i = i + 1;
    }
    if i >= n {
        proof {
            assert(chars@.skip(i as int).len() == 0);
        }
        return None;
    }
    proof {
        assert(chars@.skip(i as int)[0] == ';');
        assert(chars@.skip(i as int).drop_first() =~= chars@.skip(i + 1));
    }
    i = i + 1;
    let ghost rest = chars@.skip(i as int);
    assert(split_once(s@, ';') == Some((title@, rest)));
    // skip the spaces after the ';'
    while i < n && chars[i] == ' '
        invariant
            n == chars@.len(),
            0 <= i <= n,
            trim_leading_spaces(rest) == trim_leading_spaces(chars@.skip(i as int)),
        decreases n - i,
    {
        proof {
            assert(chars@.skip(i as int)[0] == ' ');
            assert(chars@.skip(i as int).drop_first() =~= chars@.skip(i + 1));
        }
        i = i + 1;
    }
    if i >= n {
        proof {
            assert(chars@.skip(i as int).len() == 0);
        }
        return None;
    }
    let ghost list = chars@.skip(i as int);
    assert(trim_leading_spaces(rest) == list) by {
        assert(list[0] == chars@[i as int]);
    }
    // the values, separated by '|'
    let mut values: Vec<String> = Vec::new();
    let mut cur: Vec<char> = Vec::new();
    let mut j: usize = i;
    proof {
        let r = split_on(list, '|');
        lemma_split_on_nonempty(list, '|');
        assert(values@.map_values(|v: String| v@) =~= Seq::<Seq<char>>::empty());
        assert(cur@ + r[0] =~= r[0]);
        assert(Seq::<Seq<char>>::empty() + seq![r[0]] + r.drop_first() =~= r);
    }
    while j < n
        invariant
            n == chars@.len(),
            i <= j <= n,
            list == chars@.skip(i as int),
            split_on(list, '|') == values@.map_values(|v: String| v@)
                + seq![cur@ + split_on(chars@.skip(j as int), '|')[0]]
                + split_on(chars@.skip(j as int), '|').drop_first(),
        decreases n - j,
    {
        let ghost tail = chars@.skip(j as int);
        let ghost after = split_on(chars@.skip(j + 1), '|');
        proof {
            assert(tail.drop_first() =~= chars@.skip(j + 1));
            assert(tail[0] == chars@[j as int]);
            lemma_split_on_nonempty(chars@.skip(j + 1), '|');
        }
        if chars[j] == '|' {
            let ghost before_vals = values@.map_values(|v: String| v@);
            let piece = string_from_chars(cur);
            values.push(piece);
            cur = Vec::new();
            proof {
                assert(split_on(tail, '|') == seq![Seq::<char>::empty()] + after);
                assert(values@.map_values(|v: String| v@) =~= before_vals.push(piece@));
                assert(seq![Seq::<char>::empty()] + after =~= seq![Seq::<char>::empty()] + seq![after[0]] + after.drop_first());
                assert(cur@ + after[0] =~= after[0]);
                assert(before_vals + seq![piece@ + Seq::<char>::empty()] + after =~=
                    values@.map_values(|v: String| v@) + seq![cur@ + after[0]] + after.drop_first());
                assert(piece@ + Seq::<char>::empty() =~= piece@);
            }
        } else {
            let ghost old_cur = cur@;
            cur.push(chars[j]);
            proof {
                let r = split_on(tail, '|');
                assert(r == after.update(0, seq![tail[0]] + after[0]));
                assert(r[0] == seq![tail[0]] + after[0]);
                assert(r.drop_first() =~= after.drop_first());
                assert(old_cur + (seq![tail[0]] + after[0]) =~= cur@ + after[0]);
            }
        }
        j = j + 1;
    }
    proof {
        assert(chars@.skip(j as int) =~= Seq::<char>::empty());
    }
    let last = string_from_chars(cur);
    let ghost before_vals = values@.map_values(|v: String| v@);
    values.push(last);
    proof {
        assert(cur@ + Seq::<char>::empty() =~= cur@);
        assert(values@.map_values(|v: String| v@) =~= before_vals + seq![last@]);
        assert(split_on(list, '|') =~= values@.map_values(|v: String| v@));
    }
    let t = string_from_chars(title);
    Some((t, values))
}
/// How many of the declared variables are read, looking from the `m`-th
/// (counted from 1): reading stops after the first variable with a value at
/// or beyond the 257th.
pub open spec fn read_limit(vars: Seq<(String, Option<String>)>, m: int) -> int
    decreases vars.len() + 1 - m,
{
    if m > vars.len() || m < 1 {
        vars.len() as int
    } else if m >= 257 && vars[m - 1].1 is Some {
        m
    } else {
        read_limit(vars, m + 1)
    }
}

/// The variables among `vars` whose value string parses: key, title, values.
pub open spec fn parsed_old_vars(vars: Seq<(String, Option<String>)>) -> Seq<(Seq<char>, Seq<char>, Seq<Seq<char>>)>
    decreases vars.len(),
{
    if vars.len() == 0 {
        Seq::empty()
    } else {
        let prev = parsed_old_vars(vars.drop_last());
        match vars.last().1 {
            Some(v) => match parse_old_variable(v@) {
                Some((title, values)) => prev.push((vars.last().0@, title, values)),
                None => prev,
            },
            None => prev,
        }
    }
}

/// `m` with each parsed variable's key set to its first value, in order.
pub open spec fn with_defaults(
    m: Map<Seq<char>, Seq<char>>,
    ps: Seq<(Seq<char>, Seq<char>, Seq<Seq<char>>)>,
) -> Map<Seq<char>, Seq<char>>
    decreases ps.len(),
{
    if ps.len() == 0 {
        m
    } else {
        with_defaults(m, ps.drop_last()).insert(ps.last().0, ps.last().2[0])
    }
}

/// An old-style variable as key, title and values.
pub open spec fn old_var_view(v: OldVariable) -> (Seq<char>, Seq<char>, Seq<Seq<char>>) {
    (v.key@, v.title@, v.values@.map_values(|s: String| s@))
}

impl CoreOptions {
    /// Take the old-style variables a core declares with `SET_VARIABLES`:
    /// each `(key, value string)` whose string parses becomes a variable whose
    /// value starts as its first listed value. The variables replace the
    /// earlier ones unless none parsed.
    pub fn set_variables(&mut self, vars: &[(String, Option<String>)])
        requires
            old(self).wf(),
        ensures
            ({
                let ps = parsed_old_vars(vars@.take(read_limit(vars@, 1)));
                &&& final(self).wf()
                &&& final(self).old_values.spec_map() == with_defaults(old(self).old_values.spec_map(), ps)
                &&& ps.len() > 0 ==> final(self).old_vars@.map_values(|v: OldVariable| old_var_view(v)) == ps
                    && forall|k: int| 0 <= k < ps.len() ==> (#[trigger] final(self).old_vars@[k]).default_index == 0
                &&& ps.len() == 0 ==> final(self).old_vars == old(self).old_vars
            }),
            final(self).v2_values == old(self).v2_values,
            final(self).supports_v2 == old(self).supports_v2,
            final(self).v1 == old(self).v1,
            final(self).v2 == old(self).v2,
    {
        let mut parsed: Vec<OldVariable> = Vec::new();
        let n = vars.len();
        let mut i: usize = 0;
        let mut done = false;
        proof {
            assert(vars@.take(0) =~= Seq::<(String, Option<String>)>::empty());
        }
        while i < n && !done
            invariant
                n == vars@.len(),
                0 <= i <= n,
                done ==> i == read_limit(vars@, 1),
                !done ==> read_limit(vars@, 1) == read_limit(vars@, i + 1),
                parsed@.map_values(|v: OldVariable| old_var_view(v)) == parsed_old_vars(vars@.take(i as int)),
                forall|k: int| 0 <= k < parsed@.len() ==> (#[trigger] parsed@[k]).default_index == 0,
                self.wf(),
                self.old_values.spec_map() == with_defaults(old(self).old_values.spec_map(), parsed_old_vars(vars@.take(i as int))),
                self.v2_values == old(self).v2_values,
                self.supports_v2 == old(self).supports_v2,
                self.v1 == old(self).v1,
                self.v2 == old(self).v2,
                self.old_vars == old(self).old_vars,
            decreases n - i,
        {
            let ghost before = parsed_old_vars(vars@.take(i as int));
            let ghost before_view = parsed@.map_values(|v: OldVariable| old_var_view(v));
            proof {
                assert(vars@.take(i + 1).drop_last() =~= vars@.take(i as int));
                assert(vars@.take(i + 1).last() == vars@[i as int]);
            }
            let entry = &vars[i];
            let has_value = entry.1.is_some();
            match &entry.1 {
                Some(value) => {
                    match parse_old_variable_string(value.as_str()) {
                        Some((title, values)) => {
                            proof {
                                lemma_split_on_nonempty(trim_leading_spaces(split_once(value@, ';')->Some_0.1), '|');
                            }
                            let ghost x = (entry.0@, title@, values@.map_values(|s: String| s@));
                            let first = values[0].clone();
                            self.set_old_value(entry.0.as_str(), first.as_str());
                            proof {
                                assert(parsed_old_vars(vars@.take(i + 1)) == before.push(x));
                                assert(before.push(x).drop_last() =~= before);
                                assert(x.2[0] == first@);
                                assert(with_defaults(old(self).old_values.spec_map(), before.push(x))
                                    == with_defaults(old(self).old_values.spec_map(), before).insert(x.0, x.2[0]));
                            }
                            let var = OldVariable {
                                key: entry.0.clone(),
                                title,
                                values,
                                default_index: 0,
                            };
                            parsed.push(var);
                            proof {
                                assert(parsed@.map_values(|v: OldVariable| old_var_view(v)) =~= before_view.push(old_var_view(var)));
                            }
                        },
                        None => {},
                    }
                },
                None => {},
            }
            i = i + 1;
            if has_value && i > 256 {
                done = true;
            }
        }
        if parsed.len() > 0 {
            self.old_vars = parsed;
        }
    }
}

/// What the menu chose for an option is what the core reads back: once
/// `key` is set to `value` in the menu's store (`set_v2_value`), the
/// current value of `key` is `value`, and every other key reads as before.
pub proof fn chosen_value_read_back(before: CoreOptions, after: CoreOptions, key: Seq<char>, value: Seq<char>)
    requires
        after.v2_values.spec_map() == before.v2_values.spec_map().insert(key, value),
        after.old_values == before.old_values,
        after.supports_v2 == before.supports_v2,
        after.v1 == before.v1,
        after.v2 == before.v2,
    ensures
        after.spec_current_value(key) == Some(value),
        forall|k: Seq<char>| k != key ==> after.spec_current_value(k) == before.spec_current_value(k),
{
    assert forall|k: Seq<char>| k != key implies after.spec_current_value(k) == before.spec_current_value(k) by {
        assert(after.v2_values.spec_map().contains_key(k) == before.v2_values.spec_map().contains_key(k));
    }
}

/// An old-style variable's value is what the core reads back, unless the
/// menu has chosen a value for that key (the menu's choice comes first).
pub proof fn old_value_read_back(before: CoreOptions, after: CoreOptions, key: Seq<char>, value: Seq<char>)
    requires
        after.old_values.spec_map() == before.old_values.spec_map().insert(key, value),
        after.v2_values == before.v2_values,
        after.supports_v2 == before.supports_v2,
        after.v1 == before.v1,
        after.v2 == before.v2,
    ensures
        !before.v2_values.spec_map().contains_key(key) ==> after.spec_current_value(key) == Some(value),
        before.v2_values.spec_map().contains_key(key) ==> after.spec_current_value(key)
            == before.spec_current_value(key),
{
}

} // verus!
