//! GUI menu framework for browsing and modifying core options, and the
//! overlay state that decides what the menu shows and does each frame.
use vstd::prelude::*;
use crate::core_options::{CoreOptionDefinition, OldVariable};
use crate::input::{InputState, InputView, take_key_flag, take_f_flag, key_pressed};
use crate::overlay::{DrawOp, DrawOpView, ops_view, push_op};
use vstd::utf8::encode_utf8;
use crate::text::{
    str_eq, utf8_len, chars_of, char_utf8_width, char_is_whitespace, string_from_chars,
    unicode_white_space, lemma_encode_utf8_concat, lemma_encode_scalar_width, lemma_utf8_len_push,
    str_bytes, lemma_utf8_len_bound,
};

verus! {

broadcast use {vstd::seq::group_seq_axioms, vstd::string::group_string_axioms};

/// Current state of the GUI
#[derive(PartialEq, Eq, Structural, Clone, Copy, Debug)]
pub enum GuiState {
    /// Normal game playback
    Playing,
    /// Menu is open
    MenuOpen,
    /// Editing a specific option value
    Settings,
}

/// Action triggered by save/load state keys
#[derive(PartialEq, Eq, Structural, Clone, Copy, Debug)]
pub enum SaveLoadAction {
    /// F2 pressed: save current state
    Save,
    /// F4 pressed: load last saved state
    Load,
}

/// Type of menu item
pub enum MenuItem {
    /// Static text label (e.g., header or separator)
    Text { label: String, is_header: bool },
    /// A core option with selectable values
    OptionItem {
        key: String,
        label: String,
        values: Vec<String>,
        current_index: usize,
        info: Option<String>,
    },
    /// Visual separator
    Separator,
    /// Action button (e.g., "Back")
    Action { label: String },
}

/// What a menu item is, with its texts as character sequences.
pub enum MenuItemView {
    Text { label: Seq<char>, is_header: bool },
    OptionItem {
        key: Seq<char>,
        label: Seq<char>,
        values: Seq<Seq<char>>,
        current_index: nat,
        info: Option<Seq<char>>,
    },
    Separator,
    Action { label: Seq<char> },
}

impl View for MenuItem {
    type V = MenuItemView;

    open spec fn view(&self) -> MenuItemView {
        match self {
            MenuItem::Text { label, is_header } => MenuItemView::Text {
                label: label@,
                is_header: *is_header,
            },
            MenuItem::OptionItem { key, label, values, current_index, info } =>
                MenuItemView::OptionItem {
                key: key@,
                label: label@,
                values: values.deep_view(),
                current_index: *current_index as nat,
                info: info.deep_view(),
            },
            MenuItem::Separator => MenuItemView::Separator,
            MenuItem::Action { label } => MenuItemView::Action { label: label@ },
        }
    }
}

/// A menu as a value: title, items, cursor and scroll position.
pub struct MenuView {
    pub title: Seq<char>,
    pub items: Seq<MenuItemView>,
    pub selected: nat,
    pub scroll_offset: nat,
}

/// Menu configuration
pub struct Menu {
    pub title: String,
    pub items: Vec<MenuItem>,
    pub selected: usize,
    pub scroll_offset: usize,
}

impl View for Menu {
    type V = MenuView;

    open spec fn view(&self) -> MenuView {
        MenuView {
            title: self.title@,
            items: self.items@.map_values(|it: MenuItem| it@),
            selected: self.selected as nat,
            scroll_offset: self.scroll_offset as nat,
        }
    }
}

/// Rust's `/` on integers: the quotient rounded toward zero.
pub open spec fn div_toward_zero(a: int, b: int) -> int {
    if a >= 0 {
        a / b
    } else {
        -((-a) / b)
    }
}

/// Number of menu rows that fit in a menu `menu_height` pixels tall: 35
/// pixels are reserved for header and footer, each row takes 12. (A
/// negative count converts to `usize` as Rust's `as` does.)
pub open spec fn visible_rows(menu_height: int) -> usize {
    div_toward_zero(menu_height - 35, 12) as usize
}

/// The menu after moving the cursor up: it stops at index 2 (the first
/// option row) and scrolls up when the cursor leaves the screen.
pub open spec fn menu_select_up(m: MenuView) -> MenuView {
    if m.selected > 2 {
        let s = (m.selected - 1) as nat;
        MenuView { selected: s, scroll_offset: if s < m.scroll_offset { s } else { m.scroll_offset }, ..m }
    } else {
        m
    }
}

/// The menu after moving the cursor down with `visible` rows on screen: it
/// stops at the last item and scrolls so the cursor stays visible.
pub open spec fn menu_select_down(m: MenuView, visible: nat) -> MenuView {
    if m.selected + 1 < m.items.len() {
        let s = m.selected + 1;
        MenuView {
            selected: s,
            scroll_offset: if s >= m.scroll_offset + visible {
                (s - visible + 1) as nat
            } else {
                m.scroll_offset
            },
            ..m
        }
    } else {
        m
    }
}

/// The next value index, wrapping around.
pub open spec fn next_value_index(current: nat, count: nat) -> nat {
    (current + 1) % count
}

/// The previous value index, wrapping around.
pub open spec fn prev_value_index(current: nat, count: nat) -> nat {
    if current == 0 {
        (count - 1) as nat
    } else {
        (current - 1) as nat
    }
}

/// Whether the cursor is on an option with at least one value.
pub open spec fn menu_is_editable(m: MenuView) -> bool {
    &&& m.selected < m.items.len()
    &&& m.items[m.selected as int] matches MenuItemView::OptionItem { values, .. }
    &&& values.len() > 0
}

/// The menu after changing the selected option's value with `step`
/// (applied only when the cursor is on an option with values).
pub open spec fn menu_with_value_index(m: MenuView, step: spec_fn(nat, nat) -> nat) -> MenuView {
    if menu_is_editable(m) {
        match m.items[m.selected as int] {
            MenuItemView::OptionItem { key, label, values, current_index, info } => MenuView {
                items: m.items.update(
                    m.selected as int,
                    MenuItemView::OptionItem {
                        key,
                        label,
                        values,
                        current_index: step(current_index, values.len()),
                        info,
                    },
                ),
                ..m
            },
            _ => m,
        }
    } else {
        m
    }
}

/// The menu after cycling the selected option to its next value.
pub open spec fn menu_cycle_next(m: MenuView) -> MenuView {
    menu_with_value_index(m, |c: nat, n: nat| next_value_index(c, n))
}

/// The menu after cycling the selected option to its previous value.
pub open spec fn menu_cycle_prev(m: MenuView) -> MenuView {
    menu_with_value_index(m, |c: nat, n: nat| prev_value_index(c, n))
}

/// The selected option's key and current value, when the cursor is on an
/// option whose current index names one of its values.
pub open spec fn menu_selected_value(m: MenuView) -> Option<(Seq<char>, Seq<char>)> {
    if m.selected < m.items.len() {
        match m.items[m.selected as int] {
            MenuItemView::OptionItem { key, values, current_index, .. } => if current_index
                < values.len() {
                Some((key, values[current_index as int]))
            } else {
                None
            },
            _ => None,
        }
    } else {
        None
    }
}

/// The key of the selected option, when the cursor is on an option.
pub open spec fn menu_selected_key(m: MenuView) -> Option<Seq<char>> {
    if m.selected < m.items.len() {
        match m.items[m.selected as int] {
            MenuItemView::OptionItem { key, .. } => Some(key),
            _ => None,
        }
    } else {
        None
    }
}

/// The menu built around option rows: a header with the title, a separator,
/// the rows, another separator and a "Back" action; the cursor starts on the
/// first row (index 2, right after header and separator).
pub open spec fn menu_around(title: Seq<char>, rows: Seq<MenuItemView>) -> MenuView {
    MenuView {
        title,
        items: seq![MenuItemView::Text { label: title, is_header: true }, MenuItemView::Separator]
            + rows + seq![MenuItemView::Separator, MenuItemView::Action { label: "Back"@ }],
        selected: 2,
        scroll_offset: 0,
    }
}

/// The menu row of an old-style variable; its current value starts at the
/// variable's default index.
pub open spec fn old_variable_row(v: OldVariable) -> MenuItemView {
    MenuItemView::OptionItem {
        key: v.key@,
        label: v.title@,
        values: v.values.deep_view(),
        current_index: v.default_index as nat,
        info: None,
    }
}

/// Position of the first value of `vals` equal to `d`.
pub open spec fn value_position(vals: Seq<crate::core_options::CoreOptionValue>, d: Seq<char>) -> Option<nat>
    decreases vals.len(),
{
    if vals.len() == 0 {
        None
    } else if vals[0].value@ == d {
        Some(0)
    } else {
        match value_position(vals.drop_first(), d) {
            Some(p) => Some(p + 1),
            None => None,
        }
    }
}

/// The index of an option's default among its values (0 when the default is
/// absent or not listed).
pub open spec fn default_value_index(o: CoreOptionDefinition) -> nat {
    match o.default_value {
        Some(d) => match value_position(o.values@, d@) {
            Some(p) => p,
            None => 0,
        },
        None => 0,
    }
}

/// The menu row of a core option: its description as label, its values,
/// and its default selected.
pub open spec fn core_option_row(o: CoreOptionDefinition) -> MenuItemView {
    MenuItemView::OptionItem {
        key: o.key@,
        label: o.desc@,
        values: o.values@.map_values(|v: crate::core_options::CoreOptionValue| v.value@),
        current_index: default_value_index(o),
        info: o.info.deep_view(),
    }
}

/// Header, separator, rows, separator and "Back" action as menu items.
fn wrap_rows(title: &str, rows: Vec<MenuItem>) -> (items: Vec<MenuItem>)
    ensures
        items@.len() == rows@.len() + 4,
        items@.map_values(|it: MenuItem| it@) == menu_around(title@, rows@.map_values(
            |it: MenuItem| it@,
        )).items,
{
    let mut items: Vec<MenuItem> = Vec::new();
    items.push(MenuItem::Text { label: title.to_string(), is_header: true });
    items.push(MenuItem::Separator);
    let mut i: usize = 0;
    while i < rows.len()
        invariant
            0 <= i <= rows@.len(),
            items@.len() == i + 2,
            items@[0]@ == (MenuItemView::Text { label: title@, is_header: true }),
            items@[1]@ == MenuItemView::Separator,
            forall|j: int| 2 <= j < i + 2 ==> (#[trigger] items@[j])@ == rows@[j - 2]@,
        decreases rows@.len() - i,
    {
        items.push(clone_item(&rows[i]));
        i = i + 1;
    }
    items.push(MenuItem::Separator);
    let back = "Back".to_string();
    assert(back@ == "Back"@);
    items.push(MenuItem::Action { label: back });
    assert(items@.len() == rows@.len() + 4);
    assert(items@[rows@.len() + 3 as int]@ == MenuItemView::Action { label: "Back"@ });
    let ghost target = menu_around(title@, rows@.map_values(|it: MenuItem| it@)).items;
    assert forall|k: int| 0 <= k < items@.len() implies #[trigger] items@[k]@ == target[k] by {
        if 2 <= k < rows@.len() + 2 {
            assert(target[k] == rows@[k - 2]@);
        }
    }
    assert(items@.map_values(|it: MenuItem| it@) =~= target);
    items
}

/// A copy of the strings of `v`.
fn clone_strings(v: &Vec<String>) -> (r: Vec<String>)
    ensures
        r.deep_view() == v.deep_view(),
{
    let mut r: Vec<String> = Vec::new();
    let mut i: usize = 0;
    while i < v.len()
        invariant
            0 <= i <= v@.len(),
            r@.len() == i,
            forall|j: int| 0 <= j < i ==> (#[trigger] r@[j])@ == v@[j]@,
        decreases v@.len() - i,
    {
        r.push(v[i].clone());
        i = i + 1;
    }
    assert(r.deep_view() =~= v.deep_view());
    r
}

/// A copy of an optional string.
fn clone_opt_string(o: &Option<String>) -> (r: Option<String>)
    ensures
        r.deep_view() == o.deep_view(),
{
    match o {
        Some(s) => Some(s.clone()),
        None => None,
    }
}

/// A copy of a menu item.
fn clone_item(it: &MenuItem) -> (r: MenuItem)
    ensures
        r@ == it@,
{
    match it {
        MenuItem::Text { label, is_header } => MenuItem::Text {
            label: label.clone(),
            is_header: *is_header,
        },
        MenuItem::OptionItem { key, label, values, current_index, info } => MenuItem::OptionItem {
            key: key.clone(),
            label: label.clone(),
            values: clone_strings(values),
            current_index: *current_index,
            info: clone_opt_string(info),
        },
        MenuItem::Separator => MenuItem::Separator,
        MenuItem::Action { label } => MenuItem::Action { label: label.clone() },
    }
}

/// The values of an option, as strings.
fn option_value_strings(o: &CoreOptionDefinition) -> (r: Vec<String>)
    ensures
        r.deep_view() == o.values@.map_values(|v: crate::core_options::CoreOptionValue| v.value@),
{
    let mut r: Vec<String> = Vec::new();
    let mut i: usize = 0;
    while i < o.values.len()
        invariant
            0 <= i <= o.values@.len(),
            r@.len() == i,
            forall|j: int| 0 <= j < i ==> (#[trigger] r@[j])@ == o.values@[j].value@,
        decreases o.values@.len() - i,
    {
        r.push(o.values[i].value.clone());
        i = i + 1;
    }
    assert(r.deep_view() =~= o.values@.map_values(
        |v: crate::core_options::CoreOptionValue| v.value@,
    ));
    r
}

/// Index of the option's default among its values, 0 when not listed.
fn default_position(o: &CoreOptionDefinition) -> (p: usize)
    ensures
        p == default_value_index(*o),
{
    match &o.default_value {
        None => 0,
        Some(d) => {
            let mut i: usize = 0;
            assert(o.values@.skip(0) =~= o.values@);
            while i < o.values.len()
                invariant
                    o.default_value == Some(*d),
                    0 <= i <= o.values@.len(),
                    forall|k: int| 0 <= k < i ==> (#[trigger] o.values@[k]).value@ != d@,
                    value_position(o.values@, d@) == match value_position(o.values@.skip(i as int), d@) {
                        Some(q) => Some((q + i) as nat),
                        None => None,
                    },
                decreases o.values@.len() - i,
            {
                assert(o.values@.skip(i as int).drop_first() =~= o.values@.skip(i + 1));
                if str_eq(o.values[i].value.as_str(), d.as_str()) {
                    return i;
                }
                i = i + 1;
            }
            0
        },
    }
}

/// `s` without its leading white space.
pub open spec fn skip_white_space(s: Seq<char>) -> Seq<char>
    decreases s.len(),
{
    if s.len() > 0 && unicode_white_space(s[0]) {
        skip_white_space(s.drop_first())
    } else {
        s
    }
}

pub proof fn lemma_skip_white_space_len(s: Seq<char>)
    ensures
        skip_white_space(s).len() <= s.len(),
    decreases s.len(),
{
    if s.len() > 0 && unicode_white_space(s[0]) {
        lemma_skip_white_space_len(s.drop_first());
    }
}

/// The lines that greedy wrapping produces when the line being filled holds
/// `cur` and `rest` is still to come: characters are appended until the line
/// holds at least `max` bytes; the line is then emitted and white space at
/// the start of the next line is dropped. A last, unfilled line is emitted
/// when it is not empty.
pub open spec fn wrap_from(cur: Seq<char>, rest: Seq<char>, max: int) -> Seq<Seq<char>>
    decreases rest.len(), (if max > 0 && utf8_len(cur) >= max { 1int } else { 0int }),
{
    if max <= 0 {
        seq![]
    } else if utf8_len(cur) >= max {
        proof {
            lemma_skip_white_space_len(rest);
        }
        seq![cur] + wrap_from(seq![], skip_white_space(rest), max)
    } else if rest.len() == 0 {
        if cur.len() == 0 {
            seq![]
        } else {
            seq![cur]
        }
    } else {
        wrap_from(cur.push(rest[0]), rest.drop_first(), max)
    }
}

/// The lines `text` is wrapped into for lines of about `max_chars` bytes: the
/// text itself when it fits, else the greedy wrapping of `wrap_from`.
pub open spec fn wrapped_lines(text: Seq<char>, max_chars: int) -> Seq<Seq<char>> {
    if utf8_len(text) <= max_chars {
        seq![text]
    } else {
        wrap_from(seq![], text, max_chars)
    }
}

/// Simple text wrapping utility.
pub fn wrap_text(text: &str, max_chars: i32) -> (lines: Vec<String>)
    requires
        utf8_len(text@) <= i32::MAX,
        max_chars > 0 || utf8_len(text@) <= max_chars,
    ensures
        lines.deep_view() == wrapped_lines(text@, max_chars as int),
{
    if text.len() as i32 <= max_chars {
        let mut one: Vec<String> = Vec::new();
        one.push(text.to_string());
        assert(one.deep_view() =~= wrapped_lines(text@, max_chars as int));
        return one;
    }
    let chars = chars_of(text);
    let ghost max = max_chars as int;
    let mut lines: Vec<String> = Vec::new();
    let mut current: Vec<char> = Vec::new();
    let mut cur_len: usize = 0;
    let mut i: usize = 0;
    assert(chars@.skip(0) =~= chars@);
    assert(lines.deep_view() + wrap_from(current@, chars@.skip(0), max) =~= wrap_from(
        seq![],
        text@,
        max,
    ));
    while i < chars.len()
        invariant
            chars@ == text@,
            max_chars > 0,
            max == max_chars as int,
            utf8_len(text@) <= i32::MAX,
            0 <= i <= chars@.len(),
            cur_len == utf8_len(current@),
            cur_len + utf8_len(chars@.skip(i as int)) <= utf8_len(chars@),
            lines.deep_view() + wrap_from(current@, chars@.skip(i as int), max) == wrap_from(
                seq![],
                text@,
                max,
            ),
        decreases 2 * (chars@.len() - i) + (if cur_len >= max_chars { 1int } else { 0int }),
    {
        if cur_len as i32 >= max_chars {
            let ghost rest = chars@.skip(i as int);
            let ghost before = lines.deep_view();
            let ghost oldcur = current@;
            let line = string_from_chars(current);
            lines.push(line);
            current = Vec::new();
            cur_len = 0;
            // Find next word boundary
            let mut word_start: usize = i;
            loop
                invariant
                    chars@ == text@,
                    i <= word_start <= chars@.len(),
                    skip_white_space(rest) == skip_white_space(chars@.skip(word_start as int)),
                    rest == chars@.skip(i as int),
                ensures
                    skip_white_space(rest) == chars@.skip(word_start as int),
                    i <= word_start <= chars@.len(),
                decreases chars@.len() - word_start,
            {
                if word_start >= chars.len() {
                    assert(chars@.skip(word_start as int) =~= Seq::<char>::empty());
                    break;
                }
                if !char_is_whitespace(chars[word_start]) {
                    break;
                }
                assert(chars@.skip(word_start as int).drop_first() =~= chars@.skip(word_start + 1));
                word_start = word_start + 1;
            }
            proof {
                assert(rest =~= chars@.subrange(i as int, word_start as int) + chars@.skip(
                    word_start as int,
                ));
                lemma_encode_utf8_concat(
                    chars@.subrange(i as int, word_start as int),
                    chars@.skip(word_start as int),
                );
                assert(lines.deep_view() =~= before.push(oldcur));
                assert(current@ =~= Seq::<char>::empty());
                assert(before + wrap_from(oldcur, rest, max) =~= lines.deep_view() + wrap_from(
                    current@,
                    chars@.skip(word_start as int),
                    max,
                ));
            }
            i = word_start;
            continue;
        }
        proof {
            let rest = chars@.skip(i as int);
            assert(rest.drop_first() =~= chars@.skip(i + 1));
            assert(rest =~= seq![rest[0]] + rest.drop_first());
            lemma_encode_utf8_concat(seq![rest[0]], rest.drop_first());
            assert(seq![rest[0]].drop_first() =~= Seq::<char>::empty());
            lemma_encode_scalar_width(rest[0]);
            lemma_utf8_len_push(current@, chars@[i as int]);
        }
        let c = chars[i];
        current.push(c);
        cur_len = cur_len + char_utf8_width(c);
        i = i + 1;
    }
    proof {
        let e = Seq::<char>::empty();
        assert(chars@.skip(i as int) =~= e);
        assert(skip_white_space(e) == e);
        assert(utf8_len(e) == 0) by {
            assert(vstd::utf8::encode_utf8(e) =~= Seq::<u8>::empty());
        }
        assert(wrap_from(e, e, max) == Seq::<Seq<char>>::empty());
        if current@.len() == 0 {
            assert(current@ =~= e);
        }
    }
    let ghost before = lines.deep_view();
    if current.len() > 0 {
        lines.push(string_from_chars(current));
        assert(lines.deep_view() =~= before.push(current@));
    } else {
        assert(before + Seq::<Seq<char>>::empty() =~= before);
    }
    lines
}

impl Menu {
    /// Create a new menu from old-style variables.
    pub fn from_old_variables(title: &str, vars: &[OldVariable]) -> (m: Self)
        ensures
            m@ == menu_around(title@, vars@.map_values(|v: OldVariable| old_variable_row(v))),
    {
        let mut rows: Vec<MenuItem> = Vec::new();
        let mut i: usize = 0;
        while i < vars.len()
            invariant
                0 <= i <= vars@.len(),
                rows@.len() == i,
                forall|j: int| 0 <= j < i ==> (#[trigger] rows@[j])@ == old_variable_row(vars@[j]),
            decreases vars@.len() - i,
        {
            let var = &vars[i];
            rows.push(
                MenuItem::OptionItem {
                    key: var.key.clone(),
                    label: var.title.clone(),
                    values: clone_strings(&var.values),
                    current_index: var.default_index,
                    info: None,
                },
            );
            i = i + 1;
        }
        assert(rows@.map_values(|it: MenuItem| it@) =~= vars@.map_values(
            |v: OldVariable| old_variable_row(v),
        ));
        let items = wrap_rows(title, rows);
        // selected=0 points to header (not drawn), 1 is the separator, 2 the first option
        let initial_selection: usize = if items.len() > 2 { 2 } else { 0 };
        let t = title.to_string();
        assert(t@ == title@);
        let m = Menu { title: t, items, selected: initial_selection, scroll_offset: 0 };
        assert(m@.items == menu_around(title@, rows@.map_values(|it: MenuItem| it@)).items);
        m
    }

    /// Create a new menu from core options.
    pub fn from_core_options(title: &str, options: &[CoreOptionDefinition]) -> (m: Self)
        ensures
            m@ == menu_around(title@, options@.map_values(|o: CoreOptionDefinition| core_option_row(o))),
    {
        let mut rows: Vec<MenuItem> = Vec::new();
        let mut i: usize = 0;
        while i < options.len()
            invariant
                0 <= i <= options@.len(),
                rows@.len() == i,
                forall|j: int| 0 <= j < i ==> (#[trigger] rows@[j])@ == core_option_row(options@[j]),
            decreases options@.len() - i,
        {
            let opt = &options[i];
            rows.push(
                MenuItem::OptionItem {
                    key: opt.key.clone(),
                    label: opt.desc.clone(),
                    values: option_value_strings(opt),
                    current_index: default_position(opt),
                    info: clone_opt_string(&opt.info),
                },
            );
            i = i + 1;
        }
        assert(rows@.map_values(|it: MenuItem| it@) =~= options@.map_values(
            |o: CoreOptionDefinition| core_option_row(o),
        ));
        let items = wrap_rows(title, rows);
        // selected=0 points to header (not drawn), 1 is the separator, 2 the first option
        let initial_selection: usize = if items.len() > 2 { 2 } else { 0 };
        let t = title.to_string();
        assert(t@ == title@);
        let m = Menu { title: t, items, selected: initial_selection, scroll_offset: 0 };
        assert(m@.items == menu_around(title@, rows@.map_values(|it: MenuItem| it@)).items);
        m
    }

    /// Number of items visible in a menu `menu_height` pixels tall.
    pub fn visible_count(&self, menu_height: i32) -> (n: usize)
        requires
            menu_height >= i32::MIN + 35,
        ensures
            n == visible_rows(menu_height as int),
    {
        let available_height: i32 = menu_height - 35;  // Reserve space for header/footer
        let item_height: i32 = 12;  // Small font height + padding
        (available_height / item_height) as usize
    }

    /// Move selection up (stops at first option item, index 2).
    pub fn select_up(&mut self)
        ensures
            final(self)@ == menu_select_up(old(self)@),
    {
        if self.selected > 2 {
            self.selected = self.selected - 1;
            if self.selected < self.scroll_offset {
                self.scroll_offset = self.selected;
            }
        }
    }

    /// Move selection down (stops at the last item), scrolling so the
    /// selection stays among the visible rows.
    pub fn select_down(&mut self, menu_height: i32)
        requires
            old(self).items@.len() > 0,
            menu_height >= i32::MIN + 35,
        ensures
            final(self)@ == menu_select_down(old(self)@, visible_rows(menu_height as int) as nat),
    {
        let visible: usize = self.visible_count(menu_height);
        if self.selected < self.items.len() - 1 {
            self.selected = self.selected + 1;
            // selected >= scroll_offset + visible, written without overflow
            if self.selected >= self.scroll_offset && self.selected - self.scroll_offset >= visible {
                self.scroll_offset = self.selected - visible + 1;
            }
        }
    }

    /// Cycle to next value for selected option.
    pub fn cycle_next(&mut self)
        ensures
            final(self)@ == menu_cycle_next(old(self)@),
    {
        let ghost m0 = self@;
        if self.selected < self.items.len() {
            let sel: usize = self.selected;
            let ghost it0 = self.items@[sel as int];
            match &mut self.items[sel] {
                MenuItem::OptionItem { current_index, values, .. } => {
                    if values.len() > 0 {
                        let n: usize = values.len();
                        proof {
                            let c = *current_index as int;
                            vstd::arithmetic::div_mod::lemma_add_mod_noop(c, 1, n as int);
                            if n > 1 {
                                vstd::arithmetic::div_mod::lemma_small_mod(1, n as nat);
                            }
                        }
                        // (current_index + 1) % n, computed without overflow
                        *current_index = (*current_index % n + 1) % n;
                    }
                },
                _ => {},
            }
            proof {
                assert(self@.items =~= menu_cycle_next(m0).items);
            }
        }
    }

    /// Cycle to previous value for selected option.
    pub fn cycle_prev(&mut self)
        ensures
            final(self)@ == menu_cycle_prev(old(self)@),
    {
        let ghost m0 = self@;
        if self.selected < self.items.len() {
            let sel: usize = self.selected;
            match &mut self.items[sel] {
                MenuItem::OptionItem { current_index, values, .. } => {
                    if values.len() > 0 {
                        *current_index = if *current_index == 0 {
                            values.len() - 1
                        } else {
                            *current_index - 1
                        };
                    }
                },
                _ => {},
            }
            proof {
                assert(self@.items =~= menu_cycle_prev(m0).items);
            }
        }
    }

    /// Check if selected item is an option that can be edited.
    pub fn is_editable(&self) -> (b: bool)
        ensures
            b == menu_is_editable(self@),
    {
        if self.selected < self.items.len() {
            match &self.items[self.selected] {
                MenuItem::OptionItem { values, .. } => values.len() > 0,
                _ => false,
            }
        } else {
            false
        }
    }

    /// Get the current selected option's key and value.
    pub fn get_selected_value(&self) -> (r: Option<(String, String)>)
        ensures
            match r {
                Some((k, v)) => menu_selected_value(self@) == Some((k@, v@)),
                None => menu_selected_value(self@) is None,
            },
    {
        if self.selected < self.items.len() {
            match &self.items[self.selected] {
                MenuItem::OptionItem { key, current_index, values, .. } => {
                    if *current_index < values.len() {
                        return Some((key.clone(), values[*current_index].clone()));
                    }
                },
                _ => {},
            }
        }
        None
    }

    /// Get the current value of the selected option.
    pub fn get_current_value(&self) -> (r: Option<&str>)
        ensures
            match r {
                Some(v) => menu_selected_value(self@) matches Some(kv) && kv.1 == v@,
                None => menu_selected_value(self@) is None,
            },
    {
        if self.selected < self.items.len() {
            match &self.items[self.selected] {
                MenuItem::OptionItem { values, current_index, .. } => {
                    if *current_index < values.len() {
                        return Some(values[*current_index].as_str());
                    }
                },
                _ => {},
            }
        }
        None
    }

    /// Get the key of the selected option.
    pub fn get_selected_key(&self) -> (r: Option<&str>)
        ensures
            match r {
                Some(k) => menu_selected_key(self@) == Some(k@),
                None => menu_selected_key(self@) is None,
            },
    {
        if self.selected < self.items.len() {
            match &self.items[self.selected] {
                MenuItem::OptionItem { key, .. } => {
                    return Some(key.as_str());
                },
                _ => {},
            }
        }
        None
    }
}



/// The overlay's state as values.
pub struct GuiView {
    pub state: GuiState,
    pub menu: Option<MenuView>,
    pub core_name: Seq<char>,
    pub rom_name: Seq<char>,
    pub show_info: bool,
    pub last_nav_dir: i8,
    pub last_nav_frame: u64,
    pub nav_key_released: bool,
    pub last_value_frame: u64,
    pub frame_count: u64,
    pub clear_needed: bool,
    pub flash_message: Option<(Seq<char>, u64)>,
    pub f2_pressed: bool,
    pub f4_pressed: bool,
}

/// GUI overlay for core options
pub struct Gui {
    state: GuiState,
    menu: Option<Menu>,
    core_name: String,
    rom_name: String,
    /// Whether to show the option description/info text
    show_info: bool,
    /// Last navigation direction (for debounce)
    last_nav_dir: i8,
    /// Frame count when last navigation happened
    last_nav_frame: u64,
    /// Whether up/nav key was released since last action
    nav_key_released: bool,
    /// Frame count for value cycling debounce
    last_value_frame: u64,
    /// Current frame counter
    frame_count: u64,
    /// Whether framebuffer needs to be cleared
    clear_needed: bool,
    /// Flash message display (text, frame when shown)
    flash_message: Option<(String, u64)>,
    /// Track just-pressed F2/F4 for save/load state
    f2_pressed: bool,
    f4_pressed: bool,
}

impl View for Gui {
    type V = GuiView;

    closed spec fn view(&self) -> GuiView {
        GuiView {
            state: self.state,
            menu: match self.menu {
                Some(m) => Some(m@),
                None => None,
            },
            core_name: self.core_name@,
            rom_name: self.rom_name@,
            show_info: self.show_info,
            last_nav_dir: self.last_nav_dir,
            last_nav_frame: self.last_nav_frame,
            nav_key_released: self.nav_key_released,
            last_value_frame: self.last_value_frame,
            frame_count: self.frame_count,
            clear_needed: self.clear_needed,
            flash_message: match self.flash_message {
                Some((t, f)) => Some((t@, f)),
                None => None,
            },
            f2_pressed: self.f2_pressed,
            f4_pressed: self.f4_pressed,
        }
    }
}

/// Frames a flash message stays visible (2 seconds at 60 fps).
pub const FLASH_FRAMES: u64 = 120;

/// Whether the flash message is still visible at the current frame.
pub open spec fn flash_visible(g: GuiView) -> bool {
    match g.flash_message {
        Some((_, shown_at)) => vstd::wrapping::u64_specs::wrapping_sub(g.frame_count, shown_at)
            < FLASH_FRAMES,
        None => false,
    }
}

/// The overlay after toggling the menu: playing opens it, an open menu (or
/// the settings view) closes; the overlay needs clearing.
pub open spec fn gui_toggled(g: GuiView) -> GuiView {
    GuiView {
        clear_needed: true,
        state: match g.state {
            GuiState::Playing => GuiState::MenuOpen,
            _ => GuiState::Playing,
        },
        ..g
    }
}

/// The overlay after installing `menu`: playing switches to the open menu.
pub open spec fn gui_with_menu(g: GuiView, menu: MenuView) -> GuiView {
    GuiView {
        menu: Some(menu),
        state: if g.state == GuiState::Playing { GuiState::MenuOpen } else { g.state },
        ..g
    }
}

/// The title of a v2 option set: the description of its first category,
/// "Core" when it has none.
pub open spec fn v2_title(v2: Option<crate::core_options::CoreOptionsV2>) -> Seq<char> {
    match v2 {
        Some(v) => if v.categories@.len() > 0 {
            v.categories@[0].desc@
        } else {
            "Core"@
        },
        None => "Core"@,
    }
}

/// The menu the core's options give: v1 definitions first, then v2 ones,
/// then old-style variables; none when the core declared nothing.
pub open spec fn options_menu(opts: Option<crate::core_options::CoreOptions>) -> Option<MenuView> {
    match opts {
        Some(co) => match co.v1 {
            Some(v1) => Some(
                menu_around(
                    v2_title(co.v2),
                    v1.definitions@.map_values(|o: CoreOptionDefinition| core_option_row(o)),
                ),
            ),
            None => match co.v2 {
                Some(v2) => Some(
                    menu_around(
                        v2_title(co.v2),
                        v2.definitions@.map_values(|o: CoreOptionDefinition| core_option_row(o)),
                    ),
                ),
                None => if co.old_vars@.len() > 0 {
                    Some(
                        menu_around(
                            "Core Options"@,
                            co.old_vars@.map_values(|v: OldVariable| old_variable_row(v)),
                        ),
                    )
                } else {
                    None
                },
            },
        },
        None => None,
    }
}

/// The overlay after trying to build the menu from the core's options: an
/// existing menu is kept.
pub open spec fn gui_menu_initialized(g: GuiView, opts: Option<crate::core_options::CoreOptions>) -> GuiView {
    if g.menu is Some {
        g
    } else {
        match options_menu(opts) {
            Some(m) => gui_with_menu(g, m),
            None => g,
        }
    }
}

/// Whether trying to build the menu leaves the overlay with one.
pub open spec fn menu_initialized(g: GuiView, opts: Option<crate::core_options::CoreOptions>) -> bool {
    g.menu is Some || options_menu(opts) is Some
}


/// Frames the value keys wait before they repeat.
pub const VALUE_REPEAT_FRAMES: u64 = 15;

/// The overlay's menu, when there is one, has items.
pub open spec fn gui_menu_ready(g: GuiView) -> bool {
    match g.menu {
        Some(m) => m.items.len() > 0,
        None => true,
    }
}

/// Reading the save/load keys (F2 saves, F4 loads): from a desktop window
/// their F-key flags, otherwise the evdev keycodes 60 and 62. The first key
/// found pressed decides; its flag (and those read before it) are cleared.
pub open spec fn save_load_keys(inp: InputView, window_keys: bool) -> (Option<SaveLoadAction>, InputView) {
    if window_keys {
        let (save, i1) = take_f_flag(inp, 2);
        if save {
            (Some(SaveLoadAction::Save), i1)
        } else {
            let (load, i2) = take_f_flag(i1, 4);
            if load { (Some(SaveLoadAction::Load), i2) } else { (None, i2) }
        }
    } else {
        let (save, i1) = take_key_flag(inp, 60);
        if save {
            (Some(SaveLoadAction::Save), i1)
        } else {
            let (load, i2) = take_key_flag(i1, 62);
            if load { (Some(SaveLoadAction::Load), i2) } else { (None, i2) }
        }
    }
}

/// Largest framebuffer side and text length (in bytes) the overlay lays out;
/// all its coordinates then fit in `i32`.
pub const OVERLAY_LIMIT: u32 = 0x1000_0000;

/// Where the overlay goes on a framebuffer: its size, and the menu box
/// [x1, x2) x [y1, y2) of height `menu_height`.
pub struct OverlayLayout {
    pub w: int,
    pub h: int,
    pub x1: int,
    pub y1: int,
    pub x2: int,
    pub y2: int,
    pub menu_height: int,
}

/// The overlay geometry: the menu box is the framebuffer less 20 pixels
/// across (at least 200) and 60 down (at least 120), centred, raised by 20.
pub open spec fn overlay_layout(fb_w: int, fb_h: int) -> OverlayLayout {
    let menu_width = if fb_w - 20 > 200 { fb_w - 20 } else { 200 };
    let menu_height = menu_height_for(fb_h);
    let x1 = div_toward_zero(fb_w - menu_width, 2);
    let y1 = div_toward_zero(fb_h - menu_height, 2) - 20;
    OverlayLayout { w: fb_w, h: fb_h, x1, y1, x2: x1 + menu_width, y2: y1 + menu_height, menu_height }
}

/// A text command.
pub open spec fn text_op(x: int, y: int, text: Seq<u8>, color: u32) -> DrawOpView {
    DrawOpView::Text { x: x as i32, y: y as i32, text, color }
}

/// A filled rectangle command.
pub open spec fn rect_op(x1: int, y1: int, x2: int, y2: int, color: u32) -> DrawOpView {
    DrawOpView::Rect { x1: x1 as i32, y1: y1 as i32, x2: x2 as i32, y2: y2 as i32, color }
}

/// The flash message's opacity `elapsed` frames after it was shown: full
/// for 100 frames, then fading.
pub open spec fn flash_alpha(elapsed: int) -> u8 {
    if elapsed > 100 {
        ((200 - elapsed) * 255 / 100) as u8
    } else {
        255
    }
}

/// Yellow blended over dark grey by `alpha`.
pub open spec fn flash_color(alpha: u8) -> u32 {
    (((alpha * 0xFFFF00) as u32) >> 8u32) | ((((255 - alpha) * 0x333333) as u32) >> 8u32)
}

/// The flash message, while visible and not empty: a black box and the
/// text, centred below the menu header.
pub open spec fn flash_ops(g: GuiView, l: OverlayLayout) -> Seq<DrawOpView> {
    match g.flash_message {
        Some((text, shown)) => {
            let msg = encode_utf8(text);
            if flash_visible(g) && msg.len() > 0 {
                let elapsed = vstd::wrapping::u64_specs::wrapping_sub(g.frame_count, shown) as int;
                let color = flash_color(flash_alpha(elapsed)) | 0xFF000000u32;
                let mw = msg.len() * 6;
                let x = div_toward_zero(l.w - mw, 2);
                let y = l.y1 + 45;
                seq![rect_op(x - 8, y - 10, x + mw + 8, y + 14, 0), text_op(x, y, msg, color)]
            } else {
                Seq::empty()
            }
        },
        None => Seq::empty(),
    }
}

/// The lines of an option's info text, one every 12 pixels from `y`; drawing
/// stops after the first line that reaches `limit`.
pub open spec fn info_ops(lines: Seq<Seq<char>>, x: int, y: int, limit: int) -> Seq<DrawOpView>
    decreases lines.len(),
{
    if lines.len() == 0 {
        Seq::empty()
    } else if y + 12 >= limit {
        seq![text_op(x, y, encode_utf8(lines[0]), 0x666666)]
    } else {
        seq![text_op(x, y, encode_utf8(lines[0]), 0x666666)] + info_ops(lines.drop_first(), x, y + 12, limit)
    }
}

/// The commands drawing item `i` of the menu on row `row`.
pub open spec fn item_ops(g: GuiView, m: MenuView, l: OverlayLayout, i: int, row: int) -> Seq<DrawOpView> {
    let item_y = l.y1 + 25 + row * 12;
    let item_x = l.x1 + 10;
    let selected = i == m.selected;
    match m.items[i] {
        MenuItemView::Text { label, is_header } => if is_header {
            Seq::empty()
        } else {
            seq![text_op(item_x, item_y, encode_utf8(label), 0xCCCCCC)]
        },
        MenuItemView::OptionItem { label, values, current_index, info, .. } => {
            let label_op = seq![text_op(item_x, item_y, encode_utf8(label), if selected { 0xFFFF00 } else { 0xCCCCCC })];
            let value_op = if current_index < values.len() {
                let vt = seq![91u8] + encode_utf8(values[current_index as int]) + seq![93u8];
                seq![text_op(l.x2 - 10 - vt.len() * 6, item_y, vt, if selected { 0xFFFF00 } else { 0x888888 })]
            } else {
                Seq::empty()
            };
            let info_part = if selected && g.show_info {
                match info {
                    Some(t) => info_ops(wrapped_lines(t, div_toward_zero(l.x2 - l.x1 - 30, 6)), item_x, item_y + 14, l.y2 - 20),
                    None => Seq::empty(),
                }
            } else {
                Seq::empty()
            };
            let arrow = if selected && values.len() > 1 {
                seq![text_op(item_x - 6, item_y, encode_utf8(">"@), 0xFFFF00)]
            } else {
                Seq::empty()
            };
            label_op + value_op + info_part + arrow
        },
        MenuItemView::Separator => seq![DrawOpView::HLine {
            x1: (l.x1 + 10) as i32,
            x2: (l.x2 - 10) as i32,
            y: item_y as i32,
            color: 0x444444,
        }],
        MenuItemView::Action { label } => seq![text_op(item_x, item_y, encode_utf8(label), if selected { 0xFFFF00 } else { 0x888888 })],
    }
}

/// The commands drawing items `from` (on the first row) up to `to`.
pub open spec fn items_ops(g: GuiView, m: MenuView, l: OverlayLayout, from: int, to: int) -> Seq<DrawOpView>
    decreases to - from,
{
    if to <= from {
        Seq::empty()
    } else {
        items_ops(g, m, l, from, to - 1) + item_ops(g, m, l, to - 1, to - 1 - from)
    }
}

/// The index after the last item on screen: `visible` rows from the scroll
/// position, or the end of the list.
pub open spec fn last_shown(m: MenuView, visible: int) -> int {
    if m.scroll_offset + visible < m.items.len() {
        m.scroll_offset + visible
    } else if m.scroll_offset < m.items.len() {
        m.items.len() as int
    } else {
        m.scroll_offset as int
    }
}

/// The menu box, its border and the header with the core's name.
pub open spec fn menu_frame_ops(g: GuiView, l: OverlayLayout) -> Seq<DrawOpView> {
    let border = 0x888888u32;
    seq![
        rect_op(l.x1, l.y1, l.x2, l.y2, 0),
        DrawOpView::HLine { x1: l.x1 as i32, x2: l.x2 as i32, y: l.y1 as i32, color: border },
        DrawOpView::HLine { x1: l.x1 as i32, x2: l.x2 as i32, y: (l.y2 - 1) as i32, color: border },
        DrawOpView::VLine { x: l.x1 as i32, y1: l.y1 as i32, y2: l.y2 as i32, color: border },
        DrawOpView::VLine { x: (l.x2 - 1) as i32, y1: l.y1 as i32, y2: l.y2 as i32, color: border },
        text_op(l.x1 + 10, l.y1 + 10, encode_utf8(g.core_name), 0xFFFFFF),
    ]
}

/// The rows on screen, with a mark above when scrolled down and one below
/// when more rows follow.
pub open spec fn menu_rows_ops(g: GuiView, m: MenuView, l: OverlayLayout) -> Seq<DrawOpView> {
    let visible = visible_rows(l.menu_height) as int;
    let up_mark = if m.scroll_offset > 0 {
        seq![text_op(l.x2 - 15, l.y1 + 25, encode_utf8("^"@), 0x888888)]
    } else {
        Seq::empty()
    };
    let down_mark = if m.scroll_offset + visible < m.items.len() {
        seq![text_op(l.x2 - 15, l.y2 - 15, encode_utf8("v"@), 0x888888)]
    } else {
        Seq::empty()
    };
    up_mark + items_ops(g, m, l, m.scroll_offset as int, last_shown(m, visible)) + down_mark
}

/// The footer with the ROM name, and in the settings view a hint below it.
pub open spec fn menu_footer_ops(g: GuiView, l: OverlayLayout) -> Seq<DrawOpView> {
    let footer = encode_utf8(g.rom_name) + encode_utf8(" | Press ESC to close"@);
    let footer_y = l.y2 + 8;
    let hint = encode_utf8("Use < > or SPACE to change value"@);
    let hint_op = if g.state == GuiState::Settings {
        seq![text_op(div_toward_zero(l.w - hint.len() * 5, 2), footer_y + 12, hint, 0xFFFF00)]
    } else {
        Seq::empty()
    };
    seq![text_op(div_toward_zero(l.w - footer.len() * 5, 2), footer_y, footer, 0x666666)] + hint_op
}

/// The menu box with its border, header, scroll marks, rows and footer.
pub open spec fn menu_ops(g: GuiView, m: MenuView, l: OverlayLayout) -> Seq<DrawOpView> {
    menu_frame_ops(g, l) + menu_rows_ops(g, m, l) + menu_footer_ops(g, l)
}

/// Everything drawn for one frame: a clear when one is due, the flash
/// message, and, unless playing, the menu (or a notice when there is none).
pub open spec fn render_ops(g: GuiView, fb_w: u32, fb_h: u32) -> Seq<DrawOpView> {
    let l = overlay_layout(fb_w as int, fb_h as int);
    let clear = if g.clear_needed {
        seq![DrawOpView::Clear { width: fb_w, height: fb_h }]
    } else {
        Seq::empty()
    };
    let body = if g.state == GuiState::Playing {
        Seq::empty()
    } else {
        match g.menu {
            Some(m) => menu_ops(g, m, l),
            None => seq![
                rect_op(l.x1, l.y1, l.x2, l.y2, 0),
                text_op(l.x1 + 10, l.y1 + 20, encode_utf8("Core options not available"@), 0xFFFF00),
                text_op(l.x1 + 10, l.y1 + 32, encode_utf8("Press ESC to close"@), 0x888888),
            ],
        }
    };
    clear + flash_ops(g, l) + body
}

/// Whether nothing is to be drawn: playing, no clearing pending and no
/// flash message showing.
pub open spec fn render_idle(g: GuiView) -> bool {
    g.state == GuiState::Playing && !g.clear_needed && !flash_visible(g)
}

/// The sizes the overlay lays out stay within `OVERLAY_LIMIT`.
pub open spec fn render_fits(g: GuiView, fb_w: u32, fb_h: u32) -> bool {
    &&& fb_w <= OVERLAY_LIMIT
    &&& fb_h <= OVERLAY_LIMIT
    &&& utf8_len(g.rom_name) <= OVERLAY_LIMIT
    &&& (g.flash_message matches Some((t, _)) ==> utf8_len(t) <= OVERLAY_LIMIT)
    &&& (g.menu matches Some(m) ==> {
        &&& m.items.len() <= OVERLAY_LIMIT
        &&& m.scroll_offset <= OVERLAY_LIMIT
        &&& forall|i: int| 0 <= i < m.items.len() ==> (#[trigger] m.items[i] matches MenuItemView::OptionItem {
            values, info, .. } ==> {
            &&& forall|j: int| 0 <= j < values.len() ==> utf8_len(#[trigger] values[j]) <= OVERLAY_LIMIT
            &&& (info matches Some(t) ==> utf8_len(t) <= OVERLAY_LIMIT)
        })
    })
}

/// The menu's height in pixels for a framebuffer `fb_height` pixels tall.
pub open spec fn menu_height_for(fb_height: int) -> int {
    if fb_height - 60 > 120 {
        fb_height - 60
    } else {
        120
    }
}

/// The overlay after the up/down keys: a key acts once per press (the keys
/// must be released in between); a move hides the info text.
#[verifier::opaque]
pub open spec fn nav_keys_step(g: GuiView, up: bool, down: bool, visible: nat) -> GuiView {
    match g.menu {
        Some(m) => {
            let released = if !up && !down { true } else { g.nav_key_released };
            let m1 = if up && released { menu_select_up(m) } else { m };
            let r1 = if up && released { false } else { released };
            let s1 = if up && released { false } else { g.show_info };
            let m2 = if down && r1 { menu_select_down(m1, visible) } else { m1 };
            let r2 = if down && r1 { false } else { r1 };
            let s2 = if down && r1 { false } else { s1 };
            GuiView { menu: Some(m2), nav_key_released: r2, show_info: s2, ..g }
        },
        None => g,
    }
}

/// The overlay after Enter: on an option with values it enters the
/// settings view; on an action it returns to the game.
#[verifier::opaque]
pub open spec fn enter_step(g: GuiView, enter: bool) -> GuiView {
    match g.menu {
        Some(m) => if enter && menu_is_editable(m) {
            GuiView { state: GuiState::Settings, ..g }
        } else if enter && m.selected < m.items.len() && m.items[m.selected as int] is Action {
            GuiView { state: GuiState::Playing, ..g }
        } else {
            g
        },
        None => g,
    }
}

/// A value key: when pressed and `VALUE_REPEAT_FRAMES` frames have passed
/// since the last change, the selected option moves to its next (or
/// previous) value, the repeat timer restarts, and the option's key and new
/// value are reported as a change.
#[verifier::opaque]
pub open spec fn value_step(g: GuiView, pressed: bool, forward: bool) -> (GuiView, Seq<(Seq<char>, Seq<char>)>) {
    match g.menu {
        Some(m) => if pressed && vstd::wrapping::u64_specs::wrapping_sub(g.frame_count, g.last_value_frame)
            >= VALUE_REPEAT_FRAMES {
            let m1 = if forward { menu_cycle_next(m) } else { menu_cycle_prev(m) };
            (
                GuiView { menu: Some(m1), last_value_frame: g.frame_count, ..g },
                match menu_selected_value(m1) {
                    Some(kv) => seq![kv],
                    None => Seq::empty(),
                },
            )
        } else {
            (g, Seq::empty())
        },
        None => (g, Seq::empty()),
    }
}

/// The overlay after ESC or F1 in the menu: back to the game, overlay to be
/// cleared.
#[verifier::opaque]
pub open spec fn close_step(g: GuiView, close: bool) -> GuiView {
    if close {
        GuiView { clear_needed: true, state: GuiState::Playing, ..g }
    } else {
        g
    }
}

/// Reading the menu-toggle keys: ESC's just-pressed flag, and F1's when the
/// input comes from a desktop window.
#[verifier::opaque]
pub open spec fn toggle_keys(inp: InputView, window_keys: bool) -> (bool, InputView) {
    let (esc, inp1) = take_key_flag(inp, 1);
    let (f1, inp2) = if window_keys { take_f_flag(inp1, 1) } else { (false, inp1) };
    (esc || f1, inp2)
}

/// One frame of menu input: the overlay after it, the input state after its
/// edge flags were read, and the option changes it made, in order.
pub open spec fn handle_input_step(
    g0: GuiView,
    inp: InputView,
    fb_height: int,
    window_keys: bool,
    opts: Option<crate::core_options::CoreOptions>,
) -> (GuiView, InputView, Seq<(Seq<char>, Seq<char>)>) {
    let g = GuiView { frame_count: (g0.frame_count + 1) as u64, ..g0 };
    if g.state == GuiState::Playing {
        let (toggle, inp1) = toggle_keys(inp, window_keys);
        if toggle {
            (gui_menu_initialized(gui_toggled(g), opts), inp1, Seq::empty())
        } else {
            (g, inp1, Seq::empty())
        }
    } else if g.menu is Some {
        menu_frame_step(g, inp, fb_height, window_keys)
    } else {
        (g, inp, Seq::empty())
    }
}

/// One frame of input with the menu on screen: navigation, Enter, the
/// three value keys in turn (right, left, space), then ESC/F1.
pub open spec fn menu_frame_step(g: GuiView, inp: InputView, fb_height: int, window_keys: bool)
    -> (GuiView, InputView, Seq<(Seq<char>, Seq<char>)>)
{
    let visible = visible_rows(menu_height_for(fb_height)) as nat;
    let g1 = nav_keys_step(g, key_pressed(inp, 14), key_pressed(inp, 17), visible);
    let g2 = enter_step(g1, key_pressed(inp, 28));
    let (g3, c3) = value_step(g2, key_pressed(inp, 15), true);
    let (g4, c4) = value_step(g3, key_pressed(inp, 12), false);
    let (g5, c5) = value_step(g4, key_pressed(inp, 57), true);
    let (close, inp1) = toggle_keys(inp, window_keys);
    (close_step(g5, close), inp1, c3 + c4 + c5)
}

/// `m` with the changes applied in order.
pub open spec fn with_changes(
    m: Map<Seq<char>, Seq<char>>,
    changes: Seq<(Seq<char>, Seq<char>)>,
) -> Map<Seq<char>, Seq<char>>
    decreases changes.len(),
{
    if changes.len() == 0 {
        m
    } else {
        with_changes(m, changes.drop_last()).insert(changes.last().0, changes.last().1)
    }
}

/// Keys that no change names keep their entries.
proof fn lemma_with_changes_other_key(m: Map<Seq<char>, Seq<char>>, changes: Seq<(Seq<char>, Seq<char>)>, k: Seq<char>)
    requires
        forall|i: int| 0 <= i < changes.len() ==> (#[trigger] changes[i]).0 != k,
    ensures
        with_changes(m, changes).contains_key(k) == m.contains_key(k),
        m.contains_key(k) ==> with_changes(m, changes)[k] == m[k],
    decreases changes.len(),
{
    if changes.len() > 0 {
        assert forall|i: int| 0 <= i < changes.drop_last().len() implies (#[trigger] changes.drop_last()[i]).0 != k by {
            assert(changes.drop_last()[i] == changes[i]);
        }
        lemma_with_changes_other_key(m, changes.drop_last(), k);
        assert(changes.last() == changes[changes.len() - 1]);
    }
}

/// A value changed in the menu reaches the core: when a menu frame records
/// changes, the core's current value of the last changed key is the value
/// chosen, keys no change names read as before, and the core is told that
/// options changed.
pub proof fn menu_changes_reach_core(
    before: crate::core_options::CoreOptions,
    after: crate::core_options::CoreOptions,
    changes: Seq<(Seq<char>, Seq<char>)>,
    pending_before: bool,
    pending_after: bool,
)
    requires
        opts_changed(Some(before), Some(after), changes),
        pending_after == (pending_before || changes.len() > 0),
    ensures
        changes.len() > 0 ==> pending_after && after.spec_current_value(changes.last().0) == Some(
            changes.last().1,
        ),
        forall|k: Seq<char>|
            (forall|i: int| 0 <= i < changes.len() ==> (#[trigger] changes[i]).0 != k) ==> after.spec_current_value(k)
                == before.spec_current_value(k),
{
    reveal(opts_changed);
    let m = before.v2_values.spec_map();
    assert(after.v2_values.spec_map() == with_changes(m, changes));
    assert(after.old_values.spec_map() == before.old_values.spec_map());
    assert(after.spec_definitions() == before.spec_definitions());
    if changes.len() > 0 {
        assert(with_changes(m, changes) == with_changes(m, changes.drop_last()).insert(
            changes.last().0,
            changes.last().1,
        ));
    }
    assert forall|k: Seq<char>|
        (forall|i: int| 0 <= i < changes.len() ==> (#[trigger] changes[i]).0 != k) implies after.spec_current_value(k)
        == before.spec_current_value(k) by {
        lemma_with_changes_other_key(m, changes, k);
    }
}


/// Applying two lists of changes one after the other applies their
/// concatenation.
pub proof fn lemma_with_changes_concat(
    m: Map<Seq<char>, Seq<char>>,
    a: Seq<(Seq<char>, Seq<char>)>,
    b: Seq<(Seq<char>, Seq<char>)>,
)
    ensures
        with_changes(with_changes(m, a), b) == with_changes(m, a + b),
    decreases b.len(),
{
    if b.len() == 0 {
        assert(a + b =~= a);
    } else {
        lemma_with_changes_concat(m, a, b.drop_last());
        assert((a + b).drop_last() =~= a + b.drop_last());
        assert((a + b).last() == b.last());
    }
}

/// `after` is `before` with the menu's option changes recorded as chosen
/// values, and nothing else changed.
#[verifier::opaque]
pub open spec fn opts_changed(
    before: Option<crate::core_options::CoreOptions>,
    after: Option<crate::core_options::CoreOptions>,
    changes: Seq<(Seq<char>, Seq<char>)>,
) -> bool {
    match before {
        Some(b) => match after {
            Some(a) => {
                &&& a.wf()
                &&& a.v2_values.spec_map() == with_changes(b.v2_values.spec_map(), changes)
                &&& a.old_values == b.old_values
                &&& a.supports_v2 == b.supports_v2
                &&& a.v1 == b.v1
                &&& a.v2 == b.v2
                &&& a.old_vars == b.old_vars
            },
            None => false,
        },
        None => after is None,
    }
}

/// Recording no change leaves the options as they are.
pub proof fn lemma_opts_unchanged(o: Option<crate::core_options::CoreOptions>)
    requires
        match o {
            Some(co) => co.wf(),
            None => true,
        },
    ensures
        opts_changed(o, o, Seq::empty()),
{
    reveal(opts_changed);
    match o {
        Some(co) => {
            assert(with_changes(co.v2_values.spec_map(), Seq::empty()) == co.v2_values.spec_map());
        },
        None => {},
    }
}

/// Two rounds of recorded changes make one.
pub proof fn lemma_opts_changed_trans(
    a: Option<crate::core_options::CoreOptions>,
    b: Option<crate::core_options::CoreOptions>,
    c: Option<crate::core_options::CoreOptions>,
    x: Seq<(Seq<char>, Seq<char>)>,
    y: Seq<(Seq<char>, Seq<char>)>,
)
    requires
        opts_changed(a, b, x),
        opts_changed(b, c, y),
    ensures
        opts_changed(a, c, x + y),
{
    reveal(opts_changed);
    match a {
        Some(oa) => {
            lemma_with_changes_concat(oa.v2_values.spec_map(), x, y);
        },
        None => {},
    }
}


/// Whether a text's UTF-8 length is within `OVERLAY_LIMIT`.
fn text_fits(t: &str) -> (b: bool)
    ensures
        b == (utf8_len(t@) <= OVERLAY_LIMIT),
{
    let bytes = t.as_bytes();
    bytes.len() <= OVERLAY_LIMIT as usize
}

/// Whether an option row's values and info text are within `OVERLAY_LIMIT`.
pub open spec fn row_fits(it: MenuItemView) -> bool {
    it matches MenuItemView::OptionItem { values, info, .. } ==> {
        &&& forall|j: int| 0 <= j < values.len() ==> utf8_len(#[trigger] values[j]) <= OVERLAY_LIMIT
        &&& (info matches Some(t) ==> utf8_len(t) <= OVERLAY_LIMIT)
    }
}

/// Whether every text's UTF-8 length is within `OVERLAY_LIMIT`.
fn texts_fit(values: &Vec<String>) -> (b: bool)
    ensures
        b == forall|k: int| 0 <= k < values.deep_view().len() ==> utf8_len(#[trigger] values.deep_view()[k])
            <= OVERLAY_LIMIT,
{
    let mut j: usize = 0;
    while j < values.len()
        invariant
            0 <= j <= values@.len(),
            forall|k: int| 0 <= k < j ==> utf8_len(#[trigger] values@[k]@) <= OVERLAY_LIMIT,
        decreases values@.len() - j,
    {
        if !text_fits(values[j].as_str()) {
            assert(values.deep_view()[j as int] == values@[j as int]@);
            return false;
        }
        j = j + 1;
    }
    assert forall|k: int| 0 <= k < values.deep_view().len() implies utf8_len(#[trigger] values.deep_view()[k])
        <= OVERLAY_LIMIT by {
        assert(values.deep_view()[k] == values@[k]@);
    }
    true
}

/// Whether a row fits (see `row_fits`).
fn item_fits(it: &MenuItem) -> (b: bool)
    ensures
        b == row_fits(it@),
{
    match it {
        MenuItem::OptionItem { values, info, .. } => {
            let vals_ok = texts_fit(values);
            let info_ok = match info {
                Some(t) => text_fits(t.as_str()),
                None => true,
            };
            vals_ok && info_ok
        },
        _ => true,
    }
}

/// Whether every row fits (see `row_fits`).
fn rows_fit(items: &Vec<MenuItem>) -> (b: bool)
    ensures
        b == forall|k: int| 0 <= k < items@.len() ==> row_fits((#[trigger] items@[k])@),
{
    let mut i: usize = 0;
    while i < items.len()
        invariant
            0 <= i <= items@.len(),
            forall|k: int| 0 <= k < i ==> row_fits((#[trigger] items@[k])@),
        decreases items@.len() - i,
    {
        if !item_fits(&items[i]) {
            return false;
        }
        i = i + 1;
    }
    true
}

impl Gui {
    /// Whether `handle_input` may be called: the frame counter has room
    /// for one more frame and an installed menu has items.
    pub fn can_handle_input(&self) -> (b: bool)
        ensures
            b == (self@.frame_count < u64::MAX && gui_menu_ready(self@)),
    {
        let ready = match &self.menu {
            Some(m) => m.items.len() > 0,
            None => true,
        };
        self.frame_count < u64::MAX && ready
    }

    /// Whether there is nothing to draw this frame (see `render_idle`).
    pub fn overlay_idle(&self) -> (b: bool)
        ensures
            b == render_idle(self@),
    {
        self.state == GuiState::Playing && !self.clear_needed && !self.flash_is_visible()
    }

    /// Whether the overlay can be laid out for a `fb_width` x `fb_height`
    /// framebuffer: the sizes and texts it lays out stay within
    /// `OVERLAY_LIMIT` (what `render` needs).
    pub fn fits_overlay(&self, fb_width: u32, fb_height: u32) -> (b: bool)
        ensures
            b == render_fits(self@, fb_width, fb_height),
    {
        if fb_width > OVERLAY_LIMIT || fb_height > OVERLAY_LIMIT {
            return false;
        }
        if !text_fits(self.rom_name.as_str()) {
            return false;
        }
        match &self.flash_message {
            Some((t, _)) => {
                if !text_fits(t.as_str()) {
                    return false;
                }
            },
            None => {},
        }
        match &self.menu {
            Some(m) => {
                if m.items.len() > OVERLAY_LIMIT as usize || m.scroll_offset > OVERLAY_LIMIT as usize {
                    return false;
                }
                let ok = rows_fit(&m.items);
                proof {
                    assert forall|k: int| 0 <= k < m@.items.len() implies m@.items[k] == (#[trigger] m.items@[k])@ by {}
                }
                ok
            },
            None => true,
        }
    }

    /// Create a new GUI instance.
    pub fn new() -> (g: Self)
        ensures
            g@ == (GuiView {
                state: GuiState::Playing,
                menu: None,
                core_name: "RetroCore"@,
                rom_name: "No ROM"@,
                show_info: false,
                last_nav_dir: -1i8,
                last_nav_frame: 0,
                nav_key_released: true,
                last_value_frame: 0,
                frame_count: 0,
                clear_needed: false,
                flash_message: None,
                f2_pressed: false,
                f4_pressed: false,
            }),
    {
        let core_name = String::from_str("RetroCore");
        let rom_name = String::from_str("No ROM");
        Gui {
            state: GuiState::Playing,
            menu: None,
            core_name,
            rom_name,
            show_info: false,
            last_nav_dir: -1,
            last_nav_frame: 0,
            nav_key_released: true,
            last_value_frame: 0,
            frame_count: 0,
            clear_needed: false,
            flash_message: None,
            f2_pressed: false,
            f4_pressed: false,
        }
    }

    /// Set the core name (from retro_get_system_info).
    pub fn set_core_name(&mut self, name: &str)
        ensures
            final(self)@ == (GuiView { core_name: name@, ..old(self)@ }),
    {
        self.core_name = name.to_string();
    }

    /// Get the core name (for save directory lookup).
    pub fn get_core_name(&self) -> (name: &str)
        ensures
            name@ == self@.core_name,
    {
        self.core_name.as_str()
    }

    /// Set the ROM name.
    pub fn set_rom_name(&mut self, name: &str)
        ensures
            final(self)@ == (GuiView { rom_name: name@, ..old(self)@ }),
    {
        self.rom_name = name.to_string();
    }

    /// Check for save/load state key presses (F2/F4); edge-triggered, so an
    /// action fires only on the first frame after the key press.
    pub fn check_save_load_keys(&mut self, input: &mut InputState, window_keys: bool) -> (r: Option<SaveLoadAction>)
        requires
            old(input)@.wf(),
        ensures
            (r, final(input)@) == save_load_keys(old(input)@, window_keys),
            final(input)@.wf(),
            final(self)@ == old(self)@,
    {
        if window_keys {
            if input.was_f_key_just_pressed(2) {
                return Some(SaveLoadAction::Save);
            }
            if input.was_f_key_just_pressed(4) {
                return Some(SaveLoadAction::Load);
            }
        } else {
            // F2 = save (evdev KEY_F2 = 60)
            if input.was_key_just_pressed(60) {
                return Some(SaveLoadAction::Save);
            }
            // F4 = load (evdev KEY_F4 = 62)
            if input.was_key_just_pressed(62) {
                return Some(SaveLoadAction::Load);
            }
        }
        None
    }

    /// Show a brief flash message; it stays visible for `FLASH_FRAMES` frames.
    pub fn show_flash_message(&mut self, msg: &str)
        ensures
            final(self)@ == (GuiView {
                flash_message: Some((msg@, old(self)@.frame_count)),
                ..old(self)@
            }),
    {
        self.flash_message = Some((msg.to_string(), self.frame_count));
    }

    /// Check if a flash message is still visible.
    pub fn flash_is_visible(&self) -> (b: bool)
        ensures
            b == flash_visible(self@),
    {
        match &self.flash_message {
            Some((_, shown_at)) => self.frame_count.wrapping_sub(*shown_at) < FLASH_FRAMES,
            None => false,
        }
    }

    /// Toggle menu open/close.
    pub fn toggle_menu(&mut self)
        ensures
            final(self)@ == gui_toggled(old(self)@),
    {
        self.clear_needed = true;
        self.state = match self.state {
            GuiState::Playing => GuiState::MenuOpen,
            GuiState::MenuOpen | GuiState::Settings => GuiState::Playing,
        };
    }

    /// Set menu state directly.
    pub fn set_state(&mut self, state: GuiState)
        ensures
            final(self)@ == (GuiView { state, ..old(self)@ }),
    {
        self.state = state;
    }

    /// Get current state.
    pub fn state(&self) -> (s: &GuiState)
        ensures
            *s == self@.state,
    {
        &self.state
    }

    /// Initialize menu with core options; playing switches to the open menu.
    pub fn init_menu(&mut self, core_name: &str, options: &[CoreOptionDefinition])
        ensures
            final(self)@ == gui_with_menu(
                old(self)@,
                menu_around(core_name@, options@.map_values(|o: CoreOptionDefinition| core_option_row(o))),
            ),
            gui_menu_ready(final(self)@),
    {
        self.menu = Some(Menu::from_core_options(core_name, options));
        if self.state == GuiState::Playing {
            self.state = GuiState::MenuOpen;
        }
    }

    /// Initialize menu from old-style variables, when there are any.
    fn init_menu_from_old_vars(&mut self, core_opts: &crate::core_options::CoreOptions)
        ensures
            gui_menu_ready(old(self)@) ==> gui_menu_ready(final(self)@),
            final(self)@ == if core_opts.old_vars@.len() > 0 {
                gui_with_menu(
                    old(self)@,
                    menu_around("Core Options"@, core_opts.old_vars@.map_values(|v: OldVariable| old_variable_row(v))),
                )
            } else {
                old(self)@
            },
    {
        if core_opts.old_vars.len() > 0 {
            let menu = Menu::from_old_variables("Core Options", core_opts.old_vars.as_slice());
            self.menu = Some(menu);
            if self.state == GuiState::Playing {
                self.state = GuiState::MenuOpen;
            }
        }
    }

    /// Try to initialize the menu from the core's options (returns true if a
    /// menu is there afterwards).
    pub fn try_init_menu_from(&mut self, core_opts: Option<&crate::core_options::CoreOptions>) -> (b: bool)
        ensures
            final(self)@ == gui_menu_initialized(old(self)@, match core_opts { Some(c) => Some(*c), None => None }),
            b == menu_initialized(old(self)@, match core_opts { Some(c) => Some(*c), None => None }),
            gui_menu_ready(old(self)@) ==> gui_menu_ready(final(self)@),
    {
        if self.menu.is_some() {
            return true;
        }
        match core_opts {
            Some(co) => {
                if let Some(defs) = &co.v1 {
                    let core_name = v2_first_category_desc(&co.v2);
                    self.init_menu(core_name, defs.definitions.as_slice());
                    return true;
                }
                if let Some(defs) = &co.v2 {
                    let core_name = v2_first_category_desc(&co.v2);
                    self.init_menu(core_name, defs.definitions.as_slice());
                    return true;
                }
                if co.old_vars.len() > 0 {
                    self.init_menu_from_old_vars(co);
                    return true;
                }
            },
            None => {},
        }
        false
    }
}

impl Gui {
    /// Up/down navigation: each key acts once per press.
    fn navigate(&mut self, up: bool, down: bool, menu_height: i32)
        requires
            gui_menu_ready(old(self)@),
            old(self)@.menu is Some,
            menu_height >= 120,
        ensures
            final(self)@ == nav_keys_step(old(self)@, up, down, visible_rows(menu_height as int) as nat),
            gui_menu_ready(final(self)@),
            final(self)@.menu is Some,
    {
        reveal(nav_keys_step);
        if !up && !down {
            self.nav_key_released = true;
        }
        if up && self.nav_key_released {
            match &mut self.menu {
                Some(menu) => menu.select_up(),
                None => {},
            }
            self.show_info = false;
            self.nav_key_released = false;
        }
        if down && self.nav_key_released {
            match &mut self.menu {
                Some(menu) => menu.select_down(menu_height),
                None => {},
            }
            self.show_info = false;
            self.nav_key_released = false;
        }
    }

    /// Enter: edit the selected option, or leave the menu on an action.
    fn confirm(&mut self, enter: bool)
        ensures
            final(self)@ == enter_step(old(self)@, enter),
            final(self)@.menu == old(self)@.menu,
    {
        reveal(enter_step);
        if enter {
            let mut to_settings = false;
            let mut to_game = false;
            match &self.menu {
                Some(menu) => {
                    if menu.is_editable() {
                        to_settings = true;
                    } else if menu.selected < menu.items.len() {
                        match &menu.items[menu.selected] {
                            MenuItem::Action { .. } => {
                                to_game = true;
                            },
                            _ => {},
                        }
                    }
                },
                None => {},
            }
            if to_settings {
                self.state = GuiState::Settings;
            } else if to_game {
                self.state = GuiState::Playing;
            }
        }
    }

    /// A value key (right, left or space): cycle the selected option and
    /// record its new value.
    fn value_key(
        &mut self,
        pressed: bool,
        forward: bool,
        core_opts: &mut Option<crate::core_options::CoreOptions>,
        update_pending: &mut bool,
    )
        requires
            gui_menu_ready(old(self)@),
            match *old(core_opts) {
                Some(co) => co.wf(),
                None => true,
            },
        ensures
            final(self)@ == value_step(old(self)@, pressed, forward).0,
            gui_menu_ready(final(self)@),
            opts_changed(*old(core_opts), *final(core_opts), value_step(old(self)@, pressed, forward).1),
            *final(update_pending) == (*old(update_pending) || value_step(old(self)@, pressed, forward).1.len() > 0),
            match *final(core_opts) {
                Some(co) => co.wf(),
                None => true,
            },
    {
        reveal(value_step);
        reveal(opts_changed);
        let ghost g0 = self@;
        let ghost o0 = *core_opts;
        proof {
            match o0 {
                Some(b) => {
                    assert(with_changes(b.v2_values.spec_map(), Seq::empty()) == b.v2_values.spec_map());
                },
                None => {},
            }
        }
        if pressed && self.frame_count.wrapping_sub(self.last_value_frame) >= VALUE_REPEAT_FRAMES && self.menu.is_some() {
            let ghost m0 = g0.menu->Some_0;
            match &mut self.menu {
                Some(menu) => {
                    if forward {
                        menu.cycle_next();
                    } else {
                        menu.cycle_prev();
                    }
                    match menu.get_selected_value() {
                        Some((key, value)) => {
                            match core_opts {
                                Some(co) => co.set_v2_value(key.as_str(), value.as_str()),
                                None => {},
                            }
                            *update_pending = true;
                        },
                        None => {},
                    }
                },
                None => {},
            }
            self.last_value_frame = self.frame_count;
            proof {
                let m1 = if forward { menu_cycle_next(m0) } else { menu_cycle_prev(m0) };
                match menu_selected_value(m1) {
                    Some(kv) => {
                        assert(seq![kv].drop_last() =~= Seq::<(Seq<char>, Seq<char>)>::empty());
                        assert(seq![kv].last() == kv);
                        match o0 {
                            Some(b) => {
                                assert(with_changes(b.v2_values.spec_map(), seq![kv])
                                    == b.v2_values.spec_map().insert(kv.0, kv.1));
                            },
                            None => {},
                        }
                    },
                    None => {},
                }
            }
        }
    }

    /// Read the menu-toggle keys: ESC, and F1 when input comes from a window.
    fn toggle_key_pressed(input: &mut InputState, window_keys: bool) -> (b: bool)
        requires
            old(input)@.wf(),
        ensures
            (b, final(input)@) == toggle_keys(old(input)@, window_keys),
            final(input)@.wf(),
    {
        reveal(toggle_keys);
        let esc = input.was_key_just_pressed(1);
        let f1 = if window_keys {
            input.was_f_key_just_pressed(1)
        } else {
            false
        };
        esc || f1
    }

    /// One frame of input with the menu on screen.
    #[verifier::rlimit(40)]
    fn menu_frame(
        &mut self,
        input: &mut InputState,
        fb_height: u32,
        window_keys: bool,
        core_opts: &mut Option<crate::core_options::CoreOptions>,
        update_pending: &mut bool,
    )
        requires
            fb_height <= i32::MAX,
            old(input)@.wf(),
            gui_menu_ready(old(self)@),
            old(self)@.menu is Some,
            match *old(core_opts) {
                Some(co) => co.wf(),
                None => true,
            },
        ensures
            ({
                let (g, inp, changes) = menu_frame_step(old(self)@, old(input)@, fb_height as int, window_keys);
                &&& final(self)@ == g
                &&& final(input)@ == inp
                &&& opts_changed(*old(core_opts), *final(core_opts), changes)
                &&& *final(update_pending) == (*old(update_pending) || changes.len() > 0)
            }),
            final(input)@.wf(),
            gui_menu_ready(final(self)@),
    {
        let menu_height = menu_height_px(fb_height);
        let up_pressed = input.is_key_pressed(14);
        let down_pressed = input.is_key_pressed(17);
        let left_pressed = input.is_key_pressed(12);
        let right_pressed = input.is_key_pressed(15);
        let enter_pressed = input.is_key_pressed(28);
        let space_pressed = input.is_key_pressed(57);
        self.navigate(up_pressed, down_pressed, menu_height);
        self.confirm(enter_pressed);
        let ghost o1 = *core_opts;
        let ghost g2 = self@;
        self.value_key(right_pressed, true, core_opts, update_pending);
        let ghost o2 = *core_opts;
        let ghost g3 = self@;
        self.value_key(left_pressed, false, core_opts, update_pending);
        let ghost o3 = *core_opts;
        let ghost g4 = self@;
        self.value_key(space_pressed, true, core_opts, update_pending);
        proof {
            let c3 = value_step(g2, right_pressed, true).1;
            let c4 = value_step(g3, left_pressed, false).1;
            let c5 = value_step(g4, space_pressed, true).1;
            lemma_opts_changed_trans(o1, o2, o3, c3, c4);
            lemma_opts_changed_trans(o1, o3, *core_opts, c3 + c4, c5);
        }
        if Gui::toggle_key_pressed(input, window_keys) {
            self.clear_needed = true;
            self.state = GuiState::Playing;
        }
        proof {
            reveal(close_step);
        }
    }

    /// Handle one frame of input and return the new state. While playing,
    /// ESC (or F1 in a window) opens the menu, building it from the core's
    /// options. In the menu: up/down move the cursor (once per press), Enter
    /// edits an option or follows an action, right/left/space change the
    /// selected option's value (at most every `VALUE_REPEAT_FRAMES` frames,
    /// recording the new value in the core's options and flagging the update
    /// for the core), and ESC/F1 return to the game.
    pub fn handle_input(
        &mut self,
        input: &mut InputState,
        fb_height: u32,
        window_keys: bool,
        core_opts: &mut Option<crate::core_options::CoreOptions>,
        update_pending: &mut bool,
    ) -> (s: GuiState)
        requires
            old(self)@.frame_count < u64::MAX,
            fb_height <= i32::MAX,
            old(input)@.wf(),
            gui_menu_ready(old(self)@),
            match *old(core_opts) {
                Some(co) => co.wf(),
                None => true,
            },
        ensures
            ({
                let (g, inp, changes) = handle_input_step(
                    old(self)@,
                    old(input)@,
                    fb_height as int,
                    window_keys,
                    *old(core_opts),
                );
                &&& final(self)@ == g
                &&& final(input)@ == inp
                &&& s == g.state
                &&& opts_changed(*old(core_opts), *final(core_opts), changes)
                &&& *final(update_pending) == (*old(update_pending) || changes.len() > 0)
            }),
            final(input)@.wf(),
            gui_menu_ready(final(self)@),
    {
        proof {
            lemma_opts_unchanged(*core_opts);
        }
        self.frame_count = self.frame_count + 1;
        if self.state == GuiState::Playing {
            if Gui::toggle_key_pressed(input, window_keys) {
                self.toggle_menu();
                let _ = self.try_init_menu_from(core_opts.as_ref());
            }
            return self.state;
        }
        if self.menu.is_some() {
            self.menu_frame(input, fb_height, window_keys, core_opts, update_pending);
        }
        self.state
    }
}

/// The menu's height in pixels for a framebuffer `fb_height` pixels tall.
fn menu_height_px(fb_height: u32) -> (h: i32)
    requires
        fb_height <= i32::MAX,
    ensures
        h == menu_height_for(fb_height as int),
        h >= 120,
{
    let fb_h: i32 = fb_height as i32;
    if fb_h - 60 > 120 {
        fb_h - 60
    } else {
        120
    }
}

/// The overlay geometry in pixels: (w, h, x1, y1, x2, y2, menu_height).
fn layout_px(fb_width: u32, fb_height: u32) -> (r: (i32, i32, i32, i32, i32, i32, i32))
    requires
        fb_width <= OVERLAY_LIMIT,
        fb_height <= OVERLAY_LIMIT,
    ensures
        ({
            let l = overlay_layout(fb_width as int, fb_height as int);
            &&& r.0 == l.w && r.1 == l.h && r.2 == l.x1 && r.3 == l.y1
            &&& r.4 == l.x2 && r.5 == l.y2 && r.6 == l.menu_height
            &&& -0x1000_0000 <= l.x1 <= 0x1000_0000 && -0x1000_0000 <= l.y1 <= 0x1000_0000
            &&& l.x2 - l.x1 >= 200 && l.x2 <= 0x2000_0000
            &&& l.y2 - l.y1 >= 120 && l.y2 <= 0x2000_0000
        }),
{
    let w: i32 = fb_width as i32;
    let h: i32 = fb_height as i32;
    let menu_width: i32 = if w - 20 > 200 { w - 20 } else { 200 };
    let menu_height: i32 = if h - 60 > 120 { h - 60 } else { 120 };
    let x1: i32 = (w - menu_width) / 2;
    let y1: i32 = (h - menu_height) / 2 - 20;
    (w, h, x1, y1, x1 + menu_width, y1 + menu_height, menu_height)
}

/// The opacity of the flash message `elapsed` frames after it was shown.
fn flash_alpha_of(elapsed: u64) -> (a: u8)
    requires
        elapsed < FLASH_FRAMES,
    ensures
        a == flash_alpha(elapsed as int),
{
    let fade_start: u64 = 100;
    if elapsed > fade_start {
        let e: i32 = elapsed as i32;
        let f: i32 = fade_start as i32;
        let v: i32 = (f - (e - f)) * 255 / f;
        let clamped: i32 = if v > 0 { v } else { 0 };
        clamped as u8
    } else {
        255
    }
}

impl Gui {
    /// The flash message commands.
    fn flash_draw(&self, ops: &mut Vec<DrawOp>, w: i32, y1: i32, l: Ghost<OverlayLayout>)
        requires
            render_fits(self@, l@.w as u32, l@.h as u32),
            w == l@.w,
            y1 == l@.y1,
            0 <= l@.w <= OVERLAY_LIMIT,
            -0x1000_0000 <= l@.y1 <= 0x1000_0000,
        ensures
            ops_view(final(ops)@) == ops_view(old(ops)@) + flash_ops(self@, l@),
    {
        let ghost before = ops_view(ops@);
        if self.flash_is_visible() {
            match &self.flash_message {
                Some((text, shown)) => {
                    let msg = str_bytes(text.as_str());
                    if msg.len() > 0 {
                        let elapsed: u64 = self.frame_count.wrapping_sub(*shown);
                        let alpha: u8 = flash_alpha_of(elapsed);
                        let color: u32 = ((alpha as u32) * 0xFFFF00 >> 8) | (((255 - alpha) as u32) * 0x333333 >> 8);
                        let msg_width: i32 = msg.len() as i32 * 6;
                        let x: i32 = (w - msg_width) / 2;
                        let y: i32 = y1 + 45;
                        push_op(ops, DrawOp::Rect { x1: x - 8, y1: y - 10, x2: x + msg_width + 8, y2: y + 14, color: 0 });
                        push_op(ops, DrawOp::Text { x, y, text: msg, color: color | 0xFF000000 });
                        proof {
                            assert(before.push(rect_op(x - 8, y - 10, x + msg_width + 8, y + 14, 0)).push(
                                text_op(x as int, y as int, msg@, color | 0xFF000000u32)) =~= before + flash_ops(self@, l@));
                        }
                        return;
                    }
                },
                None => {},
            }
        }
        assert(before + flash_ops(self@, l@) =~= before);
    }
}

impl Gui {
    /// The commands drawing the wrapped info text of the selected option.
    fn info_draw(
        ops: &mut Vec<DrawOp>,
        info: &str,
        item_x: i32,
        item_y: i32,
        x1: i32,
        x2: i32,
        y2: i32,
        l: Ghost<OverlayLayout>,
    )
        requires
            x1 == l@.x1,
            x2 == l@.x2,
            y2 == l@.y2,
            utf8_len(info@) <= OVERLAY_LIMIT,
            l@.x2 - l@.x1 >= 200,
            -0x1000_0000 <= l@.x1 <= 0x1000_0000,
            l@.x2 <= 0x2000_0000,
            -0x2000_0000 <= l@.y1 && l@.y2 <= 0x2000_0000,
            l@.y2 - l@.y1 >= 120,
            -0x3000_0000 <= item_y <= 0x3000_0000,
        ensures
            ops_view(final(ops)@) == ops_view(old(ops)@) + info_ops(
                wrapped_lines(info@, div_toward_zero(l@.x2 - l@.x1 - 30, 6)),
                item_x as int,
                item_y + 14,
                l@.y2 - 20,
            ),
    {
        let max_width: i32 = x2 - x1 - 30;
        let lines = wrap_text(info, max_width / 6);
        let ghost all = lines.deep_view();
        let ghost before = ops_view(ops@);
        let limit: i32 = y2 - 20;
        let mut info_y: i32 = item_y + 14;
        let mut k: usize = 0;
        let mut done = false;
        proof {
            assert(all.skip(0) =~= all);
        }
        while k < lines.len() && !done
            invariant
                all == lines.deep_view(),
                0 <= k <= lines@.len(),
                limit == l@.y2 - 20,
                -0x3000_0000 <= info_y <= 0x4000_0000,
                k == 0 ==> info_y == item_y + 14,
                k > 0 && !done ==> info_y < limit,
                -0x3000_0000 <= item_y <= 0x3000_0000,
                limit <= 0x2000_0000,
                ops_view(ops@) + (if done {
                    Seq::empty()
                } else {
                    info_ops(all.skip(k as int), item_x as int, info_y as int, limit as int)
                }) == before + info_ops(all, item_x as int, item_y + 14, limit as int),
            decreases lines@.len() - k,
        {
            let ghost rest = all.skip(k as int);
            proof {
                assert(rest.drop_first() =~= all.skip(k + 1));
                assert(rest[0] == lines@[k as int]@);
            }
            let text = str_bytes(lines[k].as_str());
            let ghost prev = ops_view(ops@);
            push_op(ops, DrawOp::Text { x: item_x, y: info_y, text, color: 0x666666 });
            let ghost y_before = info_y as int;
            info_y = info_y + 12;
            if info_y >= limit {
                done = true;
            }
            proof {
                let t = text_op(item_x as int, y_before, encode_utf8(rest[0]), 0x666666);
                if done {
                    assert(info_ops(rest, item_x as int, y_before, limit as int) == seq![t]);
                    assert(ops_view(ops@) + Seq::<DrawOpView>::empty() =~= prev + seq![t]);
                } else {
                    assert(info_ops(rest, item_x as int, y_before, limit as int)
                        == seq![t] + info_ops(all.skip(k + 1), item_x as int, info_y as int, limit as int));
                    assert(ops_view(ops@) + info_ops(all.skip(k + 1), item_x as int, info_y as int, limit as int)
                        =~= prev + (seq![t] + info_ops(all.skip(k + 1), item_x as int, info_y as int, limit as int)));
                }
            }
            k = k + 1;
        }
        proof {
            if !done {
                assert(all.skip(k as int) =~= Seq::<Seq<char>>::empty());
                assert(ops_view(ops@) + Seq::<DrawOpView>::empty() =~= ops_view(ops@));
            } else {
                assert(ops_view(ops@) + Seq::<DrawOpView>::empty() =~= ops_view(ops@));
            }
        }
    }
}

/// An option value in brackets, as bytes.
fn bracketed(value: &str) -> (v: Vec<u8>)
    ensures
        v@ == seq![91u8] + encode_utf8(value@) + seq![93u8],
{
    let mut v: Vec<u8> = Vec::new();
    v.push(91u8);
    let mut b = str_bytes(value);
    v.append(&mut b);
    v.push(93u8);
    assert(v@ =~= seq![91u8] + encode_utf8(value@) + seq![93u8]);
    v
}

impl Gui {
    /// The commands drawing item `i` of `menu` on row `row`.
    fn item_draw(
        &self,
        menu: &Menu,
        i: usize,
        row: usize,
        ops: &mut Vec<DrawOp>,
        x1: i32,
        x2: i32,
        y1: i32,
        y2: i32,
        l: Ghost<OverlayLayout>,
    )
        requires
            i < menu.items@.len(),
            x1 == l@.x1,
            x2 == l@.x2,
            y1 == l@.y1,
            y2 == l@.y2,
            l@.x2 - l@.x1 >= 200,
            -0x1000_0000 <= l@.x1 <= 0x1000_0000,
            l@.x2 <= 0x2000_0000,
            -0x1000_0000 <= l@.y1 && l@.y2 <= 0x2000_0000,
            l@.y2 - l@.y1 >= 120,
            row * 12 < l@.y2 - l@.y1,
            menu@.items[i as int] matches MenuItemView::OptionItem { values, info, .. } ==> {
                &&& forall|j: int| 0 <= j < values.len() ==> utf8_len(#[trigger] values[j]) <= OVERLAY_LIMIT
                &&& (info matches Some(t) ==> utf8_len(t) <= OVERLAY_LIMIT)
            },
        ensures
            ops_view(final(ops)@) == ops_view(old(ops)@) + item_ops(self@, menu@, l@, i as int, row as int),
    {
        let ghost before = ops_view(ops@);
        let item_y: i32 = y1 + 25 + (row as i32) * 12;
        let item_x: i32 = x1 + 10;
        let selected = i == menu.selected;
        assert(menu@.items[i as int] == menu.items@[i as int]@);
        match &menu.items[i] {
            MenuItem::Text { label, is_header } => {
                if !*is_header {
                    push_op(ops, DrawOp::Text { x: item_x, y: item_y, text: str_bytes(label.as_str()), color: 0xCCCCCC });
                }
                assert(ops_view(ops@) =~= before + item_ops(self@, menu@, l@, i as int, row as int));
            },
            MenuItem::OptionItem { label, values, current_index, info, .. } => {
                let label_color: u32 = if selected { 0xFFFF00 } else { 0xCCCCCC };
                push_op(ops, DrawOp::Text { x: item_x, y: item_y, text: str_bytes(label.as_str()), color: label_color });
                let ghost after_label = ops_view(ops@);
                if *current_index < values.len() {
                    let value_text = bracketed(values[*current_index].as_str());
                    let value_color: u32 = if selected { 0xFFFF00 } else { 0x888888 };
                    let value_x: i32 = x2 - 10 - value_text.len() as i32 * 6;
                    push_op(ops, DrawOp::Text { x: value_x, y: item_y, text: value_text, color: value_color });
                }
                let ghost after_value = ops_view(ops@);
                if selected && self.show_info {
                    match info {
                        Some(info_text) => {
                            Gui::info_draw(ops, info_text.as_str(), item_x, item_y, x1, x2, y2, l);
                        },
                        None => {},
                    }
                }
                let ghost after_info = ops_view(ops@);
                if selected && values.len() > 1 {
                    push_op(ops, DrawOp::Text { x: item_x - 6, y: item_y, text: str_bytes(">"), color: 0xFFFF00 });
                }
                proof {
                    let it = menu@.items[i as int];
                    assert(after_value == after_label + (if (*current_index as nat) < values@.len() {
                        let vt = seq![91u8] + encode_utf8(values@[*current_index as int]@) + seq![93u8];
                        seq![text_op(l@.x2 - 10 - vt.len() * 6, item_y as int, vt, if selected { 0xFFFF00u32 } else { 0x888888u32 })]
                    } else {
                        Seq::<DrawOpView>::empty()
                    })) by {
                        if (*current_index as nat) < values@.len() {
                        } else {
                            assert(after_value =~= after_label + Seq::<DrawOpView>::empty());
                        }
                    }
                    assert(ops_view(ops@) =~= before + item_ops(self@, menu@, l@, i as int, row as int));
                }
            },
            MenuItem::Separator => {
                push_op(ops, DrawOp::HLine { x1: x1 + 10, x2: x2 - 10, y: item_y, color: 0x444444 });
                assert(ops_view(ops@) =~= before + item_ops(self@, menu@, l@, i as int, row as int));
            },
            MenuItem::Action { label } => {
                let color: u32 = if selected { 0xFFFF00 } else { 0x888888 };
                push_op(ops, DrawOp::Text { x: item_x, y: item_y, text: str_bytes(label.as_str()), color });
                assert(ops_view(ops@) =~= before + item_ops(self@, menu@, l@, i as int, row as int));
            },
        }
    }
}

impl Gui {
    /// The commands drawing the menu box and the header.
    fn frame_draw(&self, ops: &mut Vec<DrawOp>, x1: i32, y1: i32, x2: i32, y2: i32, l: Ghost<OverlayLayout>)
        requires
            x1 == l@.x1,
            x2 == l@.x2,
            y1 == l@.y1,
            y2 == l@.y2,
            -0x1000_0000 <= l@.x1 <= 0x1000_0000,
            l@.x2 <= 0x2000_0000,
            l@.x2 - l@.x1 >= 200,
            -0x1000_0000 <= l@.y1 && l@.y2 <= 0x2000_0000,
            l@.y2 - l@.y1 >= 120,
        ensures
            ops_view(final(ops)@) == ops_view(old(ops)@) + menu_frame_ops(self@, l@),
    {
        let ghost before = ops_view(ops@);
        let border_color: u32 = 0x888888;
        push_op(ops, DrawOp::Rect { x1, y1, x2, y2, color: 0 });
        push_op(ops, DrawOp::HLine { x1, x2, y: y1, color: border_color });
        push_op(ops, DrawOp::HLine { x1, x2, y: y2 - 1, color: border_color });
        push_op(ops, DrawOp::VLine { x: x1, y1, y2, color: border_color });
        push_op(ops, DrawOp::VLine { x: x2 - 1, y1, y2, color: border_color });
        push_op(ops, DrawOp::Text { x: x1 + 10, y: y1 + 10, text: str_bytes(self.core_name.as_str()), color: 0xFFFFFF });
        assert(ops_view(ops@) =~= before + menu_frame_ops(self@, l@));
    }

    /// The commands drawing the rows on screen and the scroll marks.
    fn rows_draw(
        &self,
        menu: &Menu,
        ops: &mut Vec<DrawOp>,
        x1: i32,
        y1: i32,
        x2: i32,
        y2: i32,
        menu_height: i32,
        l: Ghost<OverlayLayout>,
    )
        requires
            self@.menu == Some(menu@),
            render_fits(self@, l@.w as u32, l@.h as u32),
            x1 == l@.x1,
            x2 == l@.x2,
            y1 == l@.y1,
            y2 == l@.y2,
            menu_height == l@.menu_height,
            menu_height == l@.y2 - l@.y1,
            l@.x2 - l@.x1 >= 200,
            -0x1000_0000 <= l@.x1 <= 0x1000_0000,
            l@.x2 <= 0x2000_0000,
            -0x1000_0000 <= l@.y1 && l@.y2 <= 0x2000_0000,
            l@.y2 - l@.y1 >= 120,
        ensures
            ops_view(final(ops)@) == ops_view(old(ops)@) + menu_rows_ops(self@, menu@, l@),
    {
        let ghost before = ops_view(ops@);
        let ghost g = self@;
        let ghost m = menu@;
        let visible = menu.visible_count(menu_height);
        if menu.scroll_offset > 0 {
            push_op(ops, DrawOp::Text { x: x2 - 15, y: y1 + 25, text: str_bytes("^"), color: 0x888888 });
        }
        let ghost after_up = ops_view(ops@);
        let n = menu.items.len();
        let scroll = menu.scroll_offset;
        let stop: usize = if scroll + visible < n {
            scroll + visible
        } else if scroll < n {
            n
        } else {
            scroll
        };
        let mut i: usize = scroll;
        while i < stop
            invariant
                scroll == m.scroll_offset,
                n == m.items.len(),
                stop == last_shown(m, visible as int),
                visible == visible_rows(l@.menu_height),
                m == menu@,
                g == self@,
                g.menu == Some(m),
                render_fits(g, l@.w as u32, l@.h as u32),
                x1 == l@.x1,
                x2 == l@.x2,
                y1 == l@.y1,
                y2 == l@.y2,
                l@.x2 - l@.x1 >= 200,
                -0x1000_0000 <= l@.x1 <= 0x1000_0000,
                l@.x2 <= 0x2000_0000,
                -0x1000_0000 <= l@.y1 && l@.y2 <= 0x2000_0000,
                l@.y2 - l@.y1 >= 120,
                l@.menu_height == l@.y2 - l@.y1,
                scroll <= i <= stop,
                ops_view(ops@) == after_up + items_ops(g, m, l@, scroll as int, i as int),
            decreases stop - i,
        {
            proof {
                assert(m.items[i as int] == menu.items@[i as int]@);
            }
            self.item_draw(menu, i, i - scroll, ops, x1, x2, y1, y2, l);
            proof {
                assert(items_ops(g, m, l@, scroll as int, i + 1) == items_ops(g, m, l@, scroll as int, i as int)
                    + item_ops(g, m, l@, i as int, i - scroll));
            }
            i = i + 1;
        }
        if scroll + visible < n {
            push_op(ops, DrawOp::Text { x: x2 - 15, y: y2 - 15, text: str_bytes("v"), color: 0x888888 });
        }
        assert(ops_view(ops@) =~= before + menu_rows_ops(g, m, l@));
    }

    /// The commands drawing the footer (and the hint in the settings view).
    fn footer_draw(&self, ops: &mut Vec<DrawOp>, w: i32, y2: i32, l: Ghost<OverlayLayout>)
        requires
            render_fits(self@, l@.w as u32, l@.h as u32),
            w == l@.w,
            y2 == l@.y2,
            0 <= l@.w <= OVERLAY_LIMIT,
            -0x1000_0000 <= l@.y2 <= 0x2000_0000,
        ensures
            ops_view(final(ops)@) == ops_view(old(ops)@) + menu_footer_ops(self@, l@),
    {
        let ghost before = ops_view(ops@);
        let mut footer = str_bytes(self.rom_name.as_str());
        let mut tail = str_bytes(" | Press ESC to close");
        proof {
            reveal_strlit(" | Press ESC to close");
            lemma_utf8_len_bound(" | Press ESC to close"@);
        }
        footer.append(&mut tail);
        let footer_y: i32 = y2 + 8;
        let footer_x: i32 = (w - footer.len() as i32 * 5) / 2;
        push_op(ops, DrawOp::Text { x: footer_x, y: footer_y, text: footer, color: 0x666666 });
        if self.state == GuiState::Settings {
            let hint = str_bytes("Use < > or SPACE to change value");
            proof {
                reveal_strlit("Use < > or SPACE to change value");
                lemma_utf8_len_bound("Use < > or SPACE to change value"@);
            }
            let hint_x: i32 = (w - hint.len() as i32 * 5) / 2;
            push_op(ops, DrawOp::Text { x: hint_x, y: footer_y + 12, text: hint, color: 0xFFFF00 });
        }
        assert(ops_view(ops@) =~= before + menu_footer_ops(self@, l@));
    }
}

impl Gui {
    /// The commands drawing the overlay for this frame, in order: a clear
    /// when one is due, the flash message while it shows, and unless playing
    /// the menu (or a notice that the core has no options). The pending clear
    /// is consumed. The sizes must stay within `OVERLAY_LIMIT` unless nothing
    /// is to be drawn.
    pub fn render(&mut self, fb_width: u32, fb_height: u32) -> (ops: Vec<DrawOp>)
        requires
            render_fits(old(self)@, fb_width, fb_height) || render_idle(old(self)@),
        ensures
            ops_view(ops@) == render_ops(old(self)@, fb_width, fb_height),
            final(self)@ == (GuiView { clear_needed: false, ..old(self)@ }),
    {
        let ghost g0 = self@;
        if self.state == GuiState::Playing && !self.clear_needed && !self.flash_is_visible() {
            let ops: Vec<DrawOp> = Vec::new();
            proof {
                let l = overlay_layout(fb_width as int, fb_height as int);
                assert(flash_ops(g0, l) =~= Seq::<DrawOpView>::empty());
                assert(ops_view(ops@) =~= render_ops(g0, fb_width, fb_height));
            }
            return ops;
        }
        self.render_overlay(fb_width, fb_height)
    }

    /// The drawing commands of the overlay, when its sizes fit.
    fn render_overlay(&mut self, fb_width: u32, fb_height: u32) -> (ops: Vec<DrawOp>)
        requires
            render_fits(old(self)@, fb_width, fb_height),
        ensures
            ops_view(ops@) == render_ops(old(self)@, fb_width, fb_height),
            final(self)@ == (GuiView { clear_needed: false, ..old(self)@ }),
    {
        let ghost g0 = self@;
        let mut ops: Vec<DrawOp> = Vec::new();
        if self.clear_needed {
            push_op(&mut ops, DrawOp::Clear { width: fb_width, height: fb_height });
            self.clear_needed = false;
        }
        let ghost after_clear = ops_view(ops@);
        let ghost l = overlay_layout(fb_width as int, fb_height as int);
        assert(render_fits(self@, l.w as u32, l.h as u32));
        let (w, _h, x1, y1, x2, y2, menu_height) = layout_px(fb_width, fb_height);
        self.flash_draw(&mut ops, w, y1, Ghost(l));
        let ghost after_flash = ops_view(ops@);
        proof {
            assert(flash_ops(self@, l) == flash_ops(g0, l));
        }
        if self.state == GuiState::Playing {
            assert(ops_view(ops@) =~= render_ops(g0, fb_width, fb_height));
            return ops;
        }
        match &self.menu {
            None => {
                push_op(&mut ops, DrawOp::Rect { x1, y1, x2, y2, color: 0 });
                push_op(&mut ops, DrawOp::Text { x: x1 + 10, y: y1 + 20, text: str_bytes("Core options not available"), color: 0xFFFF00 });
                push_op(&mut ops, DrawOp::Text { x: x1 + 10, y: y1 + 32, text: str_bytes("Press ESC to close"), color: 0x888888 });
            },
            Some(menu) => {
                self.frame_draw(&mut ops, x1, y1, x2, y2, Ghost(l));
                self.rows_draw(menu, &mut ops, x1, y1, x2, y2, menu_height, Ghost(l));
                self.footer_draw(&mut ops, w, y2, Ghost(l));
                proof {
                    assert(menu_frame_ops(self@, l) == menu_frame_ops(g0, l));
                    assert(menu_footer_ops(self@, l) == menu_footer_ops(g0, l));
                    assert(menu_rows_ops(self@, menu@, l) == menu_rows_ops(g0, menu@, l)) by {
                        assert forall|a: int, b: int| items_ops(self@, menu@, l, a, b) == items_ops(g0, menu@, l, a, b) by {
                            lemma_items_ops_clear_flag(g0, menu@, l, a, b);
                        }
                    }
                }
            },
        }
        assert(ops_view(ops@) =~= render_ops(g0, fb_width, fb_height));
        ops
    }
}

/// The rows drawn do not depend on whether a clear is due.
proof fn lemma_items_ops_clear_flag(g: GuiView, m: MenuView, l: OverlayLayout, from: int, to: int)
    ensures
        items_ops(GuiView { clear_needed: false, ..g }, m, l, from, to) == items_ops(g, m, l, from, to),
    decreases to - from,
{
    if to > from {
        lemma_items_ops_clear_flag(g, m, l, from, to - 1);
    }
}

/// The description of the first v2 category, "Core" when there is none.
fn v2_first_category_desc(v2: &Option<crate::core_options::CoreOptionsV2>) -> (s: &str)
    ensures
        s@ == v2_title(*v2),
{
    match v2 {
        Some(v) => if v.categories.len() > 0 {
            v.categories[0].desc.as_str()
        } else {
            "Core"
        },
        None => "Core",
    }
}

/// Whether the selected option's current index names one of its values
/// (true when the cursor is not on an option).
pub open spec fn selected_index_valid(m: MenuView) -> bool {
    m.selected < m.items.len() ==> (m.items[m.selected as int] matches MenuItemView::OptionItem {
        values,
        current_index,
        ..
    } ==> current_index < values.len())
}

/// Cycling the selected option back undoes cycling it forward, and the
/// other way round, whenever its current index names one of its values.
pub proof fn cycle_prev_undoes_cycle_next(m: MenuView)
    requires
        selected_index_valid(m),
    ensures
        menu_cycle_prev(menu_cycle_next(m)) == m,
        menu_cycle_next(menu_cycle_prev(m)) == m,
        selected_index_valid(menu_cycle_next(m)),
        selected_index_valid(menu_cycle_prev(m)),
{
    if menu_is_editable(m) {
        match m.items[m.selected as int] {
            MenuItemView::OptionItem { key, label, values, current_index, info } => {
                let n = values.len();
                let c = current_index;
                if c + 1 < n {
                    vstd::arithmetic::div_mod::lemma_small_mod((c + 1) as nat, n);
                } else {
                    vstd::arithmetic::div_mod::lemma_mod_self_0(n as int);
                }
                if c > 0 {
                    vstd::arithmetic::div_mod::lemma_small_mod(c, n);
                } else {
                    vstd::arithmetic::div_mod::lemma_mod_self_0(n as int);
                }
                let nx = menu_cycle_next(m);
                let pv = menu_cycle_prev(m);
                assert(menu_cycle_prev(nx).items =~= m.items);
                assert(menu_cycle_next(pv).items =~= m.items);
            },
            _ => {},
        }
    }
}

/// Moving the cursor keeps it on an item and inside the window of
/// `visible` rows; moving up and then down returns to the same item.
pub proof fn cursor_moves_stay_visible(m: MenuView, visible: nat)
    requires
        visible > 0,
        m.selected < m.items.len(),
        m.scroll_offset <= m.selected < m.scroll_offset + visible,
    ensures
        ({
            let u = menu_select_up(m);
            &&& u.selected < u.items.len()
            &&& u.scroll_offset <= u.selected < u.scroll_offset + visible
        }),
        ({
            let d = menu_select_down(m, visible);
            &&& d.selected < d.items.len()
            &&& d.scroll_offset <= d.selected < d.scroll_offset + visible
        }),
        m.selected > 2 ==> menu_select_down(menu_select_up(m), visible).selected == m.selected,
{
}

/// Toggling the menu twice returns to the state it was in, from play or
/// from the open menu (the settings view closes, then the menu opens).
pub proof fn toggle_twice_restores(g: GuiView)
    requires
        g.state != GuiState::Settings,
    ensures
        gui_toggled(gui_toggled(g)) == (GuiView { clear_needed: true, ..g }),
{
}

/// On the console keyboard F2 saves and F4 loads, once per press: after a
/// fresh F2 press the save/load check gives `Save`, and an immediate second
/// check gives nothing.
pub proof fn console_save_key_fires_once(v: InputView)
    requires
        v.wf(),
        !v.f2_held,
        !v.f2_just_pressed,
        !v.f4_just_pressed,
    ensures
        ({
            let pressed = crate::input::input_after_key_event(v, 60, 1);
            let (first, after) = save_load_keys(pressed, false);
            &&& first == Some(SaveLoadAction::Save)
            &&& save_load_keys(after, false).0 is None
        }),
{
}

/// While playing with no clear pending and no flash message showing, the
/// overlay draws nothing, whatever the framebuffer size.
pub proof fn idle_overlay_draws_nothing(g: GuiView, fb_w: u32, fb_h: u32)
    requires
        render_idle(g),
    ensures
        render_ops(g, fb_w, fb_h) == Seq::<DrawOpView>::empty(),
{
    let l = overlay_layout(fb_w as int, fb_h as int);
    assert(flash_ops(g, l) =~= Seq::<DrawOpView>::empty());
    assert(render_ops(g, fb_w, fb_h) =~= Seq::<DrawOpView>::empty());
}

/// A flash message shows for exactly `FLASH_FRAMES` frames: `k` frames after
/// it was shown (the frame counter wrapping around), it is visible exactly
/// when `k < FLASH_FRAMES`.
pub proof fn flash_shows_for_its_frames(g: GuiView, text: Seq<char>, shown: u64, k: nat)
    requires
        g.flash_message == Some((text, shown)),
        k < 0x1_0000_0000_0000_0000,
        g.frame_count == (shown + k) % 0x1_0000_0000_0000_0000,
    ensures
        flash_visible(g) == (k < FLASH_FRAMES),
{
    assert(vstd::wrapping::u64_specs::wrapping_sub(g.frame_count, shown) == k);
}

/// A frame of input handling counts one frame and keeps the flash message,
/// so after `show_flash_message` and `k` calls of `handle_input` the message
/// is `k` frames old.
pub proof fn input_frame_keeps_flash(
    g: GuiView,
    inp: InputView,
    fb_height: int,
    window_keys: bool,
    opts: Option<crate::core_options::CoreOptions>,
)
    requires
        g.frame_count < u64::MAX,
    ensures
        handle_input_step(g, inp, fb_height, window_keys, opts).0.frame_count == g.frame_count + 1,
        handle_input_step(g, inp, fb_height, window_keys, opts).0.flash_message == g.flash_message,
{
    reveal(nav_keys_step);
    reveal(enter_step);
    reveal(value_step);
    reveal(close_step);
    reveal(toggle_keys);
}

/// An option row shows, after its label, its current value in brackets:
/// the same value `get_current_value` reports when the cursor is on that
/// row (so after cycling an option, its row shows the new value).
pub proof fn option_row_shows_current_value(g: GuiView, m: MenuView, l: OverlayLayout, i: int, row: int)
    requires
        0 <= i < m.items.len(),
    ensures
        menu_selected_value(MenuView { selected: i as nat, ..m }) matches Some(kv) ==> (item_ops(g, m, l, i, row).len()
            >= 2 && (item_ops(g, m, l, i, row)[1] matches DrawOpView::Text { text, .. } && text == seq![91u8]
            + encode_utf8(kv.1) + seq![93u8])),
{
}

} // verus!
