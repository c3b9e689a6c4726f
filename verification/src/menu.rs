use vstd::prelude::*;

verus! {

use vstd::string::StringExecFns;
use crate::config::{MenuConfig, MenuConfigView, MenuItemView};

/// The semantic action behind a clicked menu entry.
#[derive(Debug, Clone, PartialEq)]
pub enum MenuAction {
    About,
    Settings,
    Quit,
    Custom(String),
}

/// Mathematical model of a `MenuAction`.
pub enum MenuActionView {
    About,
    Settings,
    Quit,
    Custom(Seq<char>),
}

impl View for MenuAction {
    type V = MenuActionView;

    open spec fn view(&self) -> MenuActionView {
        match self {
            MenuAction::About => MenuActionView::About,
            MenuAction::Settings => MenuActionView::Settings,
            MenuAction::Quit => MenuActionView::Quit,
            MenuAction::Custom(token) => MenuActionView::Custom(token@),
        }
    }
}

/// One display row of a rendered menu: an identifier-bearing item, or a
/// separator (separators never receive identifiers).
#[derive(Debug, Clone, PartialEq)]
pub enum MenuRow {
    Item { id: i32, label: String, enabled: bool },
    Separator,
}

/// Mathematical model of a `MenuRow`.
pub enum MenuRowView {
    Item { id: int, label: Seq<char>, enabled: bool },
    Separator,
}

impl View for MenuRow {
    type V = MenuRowView;

    open spec fn view(&self) -> MenuRowView {
        match self {
            MenuRow::Item { id, label, enabled } => MenuRowView::Item {
                id: *id as int,
                label: label@,
                enabled: *enabled,
            },
            MenuRow::Separator => MenuRowView::Separator,
        }
    }
}

/// View of a whole rendered menu.
pub open spec fn rows_view(rows: Seq<MenuRow>) -> Seq<MenuRowView> {
    rows.map_values(|row: MenuRow| row@)
}

/// View of a resolution result.
pub open spec fn action_view(action: Option<MenuAction>) -> Option<MenuActionView> {
    match action {
        Some(a) => Some(a@),
        None => None,
    }
}

/// 1 if an optional default entry is shown, else 0.
pub open spec fn default_count(flag: bool) -> int {
    if flag {
        1
    } else {
        0
    }
}

/// Identifier of About when it is shown: the next one after the customs.
pub open spec fn about_id(spec: MenuConfigView) -> int {
    spec.custom_items.len() as int + 1
}

/// Identifier of Settings when it is shown: after the customs and About.
pub open spec fn settings_id(spec: MenuConfigView) -> int {
    spec.custom_items.len() as int + 1 + default_count(spec.show_about)
}

/// Identifier of Quit when it is shown: no gap is left for disabled entries.
pub open spec fn quit_id(spec: MenuConfigView) -> int {
    spec.custom_items.len() as int + 1 + default_count(spec.show_about)
        + default_count(spec.show_settings)
}

/// How many identifiers the menu assigns: one per custom entry, one per
/// enabled default entry.
pub open spec fn id_count(spec: MenuConfigView) -> int {
    spec.custom_items.len() as int + default_count(spec.show_about)
        + default_count(spec.show_settings) + default_count(spec.show_quit)
}

/// Whether any of the three default entries is enabled.
pub open spec fn has_default(spec: MenuConfigView) -> bool {
    spec.show_about || spec.show_settings || spec.show_quit
}

/// Closed-form identifier resolution: custom entries own `1..=N` in input
/// order; About, Settings and Quit own the following identifiers, skipping
/// the disabled ones; everything else resolves to nothing.
pub open spec fn spec_resolve(spec: MenuConfigView, id: int) -> Option<MenuActionView> {
    if 1 <= id && id <= spec.custom_items.len() {
        Some(MenuActionView::Custom(spec.custom_items[id - 1].action))
    } else if spec.show_about && id == about_id(spec) {
        Some(MenuActionView::About)
    } else if spec.show_settings && id == settings_id(spec) {
        Some(MenuActionView::Settings)
    } else if spec.show_quit && id == quit_id(spec) {
        Some(MenuActionView::Quit)
    } else {
        None
    }
}

/// The rows one custom entry contributes: its item row, then a separator if
/// the entry asks for one.
pub open spec fn item_rows(item: MenuItemView, id: int) -> Seq<MenuRowView> {
    seq![MenuRowView::Item { id, label: item.label, enabled: item.enabled }]
        + if item.separator_after {
        seq![MenuRowView::Separator]
    } else {
        Seq::<MenuRowView>::empty()
    }
}

/// The rows of the custom block: entry `k` (0-based) gets identifier `k + 1`.
pub open spec fn custom_rows(items: Seq<MenuItemView>) -> Seq<MenuRowView>
    decreases items.len(),
{
    if items.len() == 0 {
        Seq::empty()
    } else {
        custom_rows(items.drop_last()) + item_rows(items.last(), items.len() as int)
    }
}

/// The rows of the default block: a bridge separator when both blocks are
/// non-empty, About, Settings, then a separator before Quit when Quit is
/// enabled together with About or Settings.
pub open spec fn default_rows(spec: MenuConfigView) -> Seq<MenuRowView> {
    (if spec.custom_items.len() > 0 && has_default(spec) {
        seq![MenuRowView::Separator]
    } else {
        Seq::<MenuRowView>::empty()
    }) + (if spec.show_about {
        seq![MenuRowView::Item { id: about_id(spec), label: "About"@, enabled: true }]
    } else {
        Seq::<MenuRowView>::empty()
    }) + (if spec.show_settings {
        seq![MenuRowView::Item { id: settings_id(spec), label: "Settings"@, enabled: true }]
    } else {
        Seq::<MenuRowView>::empty()
    }) + (if spec.show_quit {
        (if spec.show_about || spec.show_settings {
            seq![MenuRowView::Separator]
        } else {
            Seq::<MenuRowView>::empty()
        }) + seq![MenuRowView::Item { id: quit_id(spec), label: "Quit"@, enabled: true }]
    } else {
        Seq::<MenuRowView>::empty()
    })
}

/// The whole rendered menu: the custom block, then the default block.
pub open spec fn spec_render(spec: MenuConfigView) -> Seq<MenuRowView> {
    custom_rows(spec.custom_items) + default_rows(spec)
}

/// Identifiers of the identifier-bearing rows, in display order; separator
/// rows contribute nothing.
pub open spec fn row_ids(rows: Seq<MenuRowView>) -> Seq<int>
    decreases rows.len(),
{
    if rows.len() == 0 {
        Seq::empty()
    } else {
        row_ids(rows.drop_last()) + match rows.last() {
            MenuRowView::Item { id, .. } => seq![id],
            MenuRowView::Separator => Seq::<int>::empty(),
        }
    }
}

/// The actions the menu can produce, one per assigned identifier, in
/// identifier order: the custom entries' tokens, then the enabled defaults.
pub open spec fn menu_actions(spec: MenuConfigView) -> Seq<MenuActionView> {
    spec.custom_items.map_values(|item: MenuItemView| MenuActionView::Custom(item.action))
        + (if spec.show_about {
        seq![MenuActionView::About]
    } else {
        Seq::<MenuActionView>::empty()
    }) + (if spec.show_settings {
        seq![MenuActionView::Settings]
    } else {
        Seq::<MenuActionView>::empty()
    }) + (if spec.show_quit {
        seq![MenuActionView::Quit]
    } else {
        Seq::<MenuActionView>::empty()
    })
}

proof fn lemma_row_ids_concat(a: Seq<MenuRowView>, b: Seq<MenuRowView>)
    ensures
        row_ids(a + b) == row_ids(a) + row_ids(b),
    decreases b.len(),
{
    if b.len() == 0 {
        assert(a + b =~= a);
        assert(row_ids(a) + row_ids(b) =~= row_ids(a));
    } else {
        lemma_row_ids_concat(a, b.drop_last());
        assert((a + b).drop_last() =~= a + b.drop_last());
        assert((a + b).last() == b.last());
        let tail = match b.last() {
            MenuRowView::Item { id, .. } => seq![id],
            MenuRowView::Separator => Seq::<int>::empty(),
        };
        assert(row_ids(a + b) == row_ids(a + b.drop_last()) + tail);
        assert(row_ids(b) == row_ids(b.drop_last()) + tail);
        assert(row_ids(a) + row_ids(b.drop_last()) + tail
            =~= row_ids(a) + (row_ids(b.drop_last()) + tail));
    }
}

proof fn lemma_row_ids_single_item(id: int, label: Seq<char>, enabled: bool)
    ensures
        row_ids(seq![MenuRowView::Item { id, label, enabled }]) =~= seq![id],
{
    let single = seq![MenuRowView::Item { id, label, enabled }];
    assert(single.drop_last() =~= Seq::<MenuRowView>::empty());
    assert(row_ids(single.drop_last()) =~= Seq::<int>::empty());
}

proof fn lemma_row_ids_single_sep()
    ensures
        row_ids(seq![MenuRowView::Separator]) =~= Seq::<int>::empty(),
{
    let single = seq![MenuRowView::Separator];
    assert(single.drop_last() =~= Seq::<MenuRowView>::empty());
    assert(row_ids(single.drop_last()) =~= Seq::<int>::empty());
}

proof fn lemma_item_row_ids(item: MenuItemView, id: int)
    ensures
        row_ids(item_rows(item, id)) =~= seq![id],
{
    let single = seq![MenuRowView::Item { id, label: item.label, enabled: item.enabled }];
    lemma_row_ids_single_item(id, item.label, item.enabled);
    if item.separator_after {
        lemma_row_ids_concat(single, seq![MenuRowView::Separator]);
        lemma_row_ids_single_sep();
    } else {
        assert(item_rows(item, id) =~= single);
    }
}

proof fn lemma_custom_row_ids(items: Seq<MenuItemView>)
    ensures
        row_ids(custom_rows(items)) =~= Seq::new(items.len(), |k: int| k + 1),
    decreases items.len(),
{
    if items.len() == 0 {
        assert(custom_rows(items) =~= Seq::<MenuRowView>::empty());
    } else {
        lemma_custom_row_ids(items.drop_last());
        lemma_item_row_ids(items.last(), items.len() as int);
        lemma_row_ids_concat(
            custom_rows(items.drop_last()),
            item_rows(items.last(), items.len() as int),
        );
    }
}

proof fn lemma_default_row_ids(spec: MenuConfigView)
    ensures
        row_ids(default_rows(spec)) =~= (if spec.show_about {
            seq![about_id(spec)]
        } else {
            Seq::<int>::empty()
        }) + (if spec.show_settings {
            seq![settings_id(spec)]
        } else {
            Seq::<int>::empty()
        }) + (if spec.show_quit {
            seq![quit_id(spec)]
        } else {
            Seq::<int>::empty()
        }),
{
    let bridge = if spec.custom_items.len() > 0 && has_default(spec) {
        seq![MenuRowView::Separator]
    } else {
        Seq::<MenuRowView>::empty()
    };
    let about_part = if spec.show_about {
        seq![MenuRowView::Item { id: about_id(spec), label: "About"@, enabled: true }]
    } else {
        Seq::<MenuRowView>::empty()
    };
    let settings_part = if spec.show_settings {
        seq![MenuRowView::Item { id: settings_id(spec), label: "Settings"@, enabled: true }]
    } else {
        Seq::<MenuRowView>::empty()
    };
    let quit_part = if spec.show_quit {
        (if spec.show_about || spec.show_settings {
            seq![MenuRowView::Separator]
        } else {
            Seq::<MenuRowView>::empty()
        }) + seq![MenuRowView::Item { id: quit_id(spec), label: "Quit"@, enabled: true }]
    } else {
        Seq::<MenuRowView>::empty()
    };
    assert(default_rows(spec) == bridge + about_part + settings_part + quit_part);
    lemma_row_ids_concat(bridge + about_part + settings_part, quit_part);
    lemma_row_ids_concat(bridge + about_part, settings_part);
    lemma_row_ids_concat(bridge, about_part);
    if spec.custom_items.len() > 0 && has_default(spec) {
        lemma_row_ids_single_sep();
    }
    if spec.show_about {
        lemma_row_ids_single_item(about_id(spec), "About"@, true);
    }
    if spec.show_settings {
        lemma_row_ids_single_item(settings_id(spec), "Settings"@, true);
    }
    if spec.show_quit {
        let quit_single = seq![MenuRowView::Item { id: quit_id(spec), label: "Quit"@, enabled: true }];
        lemma_row_ids_single_item(quit_id(spec), "Quit"@, true);
        if spec.show_about || spec.show_settings {
            lemma_row_ids_concat(seq![MenuRowView::Separator], quit_single);
            lemma_row_ids_single_sep();
        }
    }
}

/// Law: the identifiers a rendered menu assigns are exactly `1..=id_count`,
/// in display order — unique, positive, strictly increasing, and contiguous
/// (the defaults that are disabled leave no gap).
pub proof fn lemma_render_ids_contiguous(spec: MenuConfigView)
    ensures
        row_ids(spec_render(spec)) =~= Seq::new(id_count(spec) as nat, |k: int| k + 1),
        forall|k: int|
            0 <= k < row_ids(spec_render(spec)).len() ==> #[trigger] row_ids(spec_render(spec))[k]
                >= 1,
        forall|j: int, k: int|
            0 <= j < k < row_ids(spec_render(spec)).len() ==> row_ids(spec_render(spec))[j]
                < row_ids(spec_render(spec))[k],
{
    lemma_custom_row_ids(spec.custom_items);
    lemma_default_row_ids(spec);
    lemma_row_ids_concat(custom_rows(spec.custom_items), default_rows(spec));
}

/// Law (determinism): rendering is a pure function of the spec, so any two
/// renderings of one unchanged spec are row-for-row identical.
pub proof fn lemma_render_deterministic(spec: MenuConfigView, first: Seq<MenuRow>, second: Seq<MenuRow>)
    requires
        rows_view(first) == spec_render(spec),
        rows_view(second) == spec_render(spec),
    ensures
        rows_view(first) == rows_view(second),
{
}

/// Law (round trip): every identifier the rendered menu assigns resolves to
/// the action of the entry it was assigned to — the `k`-th assigned
/// identifier (in display order) maps to the `k`-th entry's action.
pub proof fn lemma_resolve_round_trip(spec: MenuConfigView, id: int)
    requires
        row_ids(spec_render(spec)).contains(id),
    ensures
        1 <= id <= id_count(spec),
        spec_resolve(spec, id) == Some(menu_actions(spec)[id - 1]),
{
    lemma_render_ids_contiguous(spec);
    let ids = Seq::new(id_count(spec) as nat, |k: int| k + 1);
    let k = choose|k: int| 0 <= k < ids.len() && row_ids(spec_render(spec))[k] == id;
    assert(ids[k] == id);
    let n = spec.custom_items.len() as int;
    if id <= n {
        assert(menu_actions(spec)[id - 1]
            == MenuActionView::Custom(spec.custom_items[id - 1].action));
    }
}

/// Law: an identifier the rendered menu does not assign resolves to nothing.
pub proof fn lemma_resolve_unassigned(spec: MenuConfigView, id: int)
    requires
        !row_ids(spec_render(spec)).contains(id),
    ensures
        spec_resolve(spec, id) is None,
{
    lemma_render_ids_contiguous(spec);
    let ids = Seq::new(id_count(spec) as nat, |k: int| k + 1);
    if 1 <= id <= id_count(spec) {
        assert(ids[id - 1] == id);
        assert(row_ids(spec_render(spec))[id - 1] == id);
        assert(row_ids(spec_render(spec)).contains(id));
    }
}

/// Produces the ordered display rows for `spec`, with identifiers assigned
/// by the allocation rule: custom entries get `1..=N` in input order, then
/// About, Settings and Quit get the following identifiers contiguously,
/// skipping disabled ones. Deterministic: the result is a function of
/// `spec` alone.
pub fn render(spec: &MenuConfig) -> (rows: Vec<MenuRow>)
    requires
        spec@.custom_items.len() + 3 <= i32::MAX,
    ensures
        rows_view(rows@) == spec_render(spec@),
{
    let mut rows: Vec<MenuRow> = Vec::new();
    let n = spec.custom_items.len();
    let ghost items = spec@.custom_items;
    let mut i: usize = 0;
    while i < n
        invariant
            n == items.len(),
            items == spec@.custom_items,
            n + 3 <= i32::MAX,
            i <= n,
            rows_view(rows@) == custom_rows(items.take(i as int)),
        decreases n - i,
    {
        let item = &spec.custom_items[i];
        rows.push(MenuRow::Item { id: (i + 1) as i32, label: item.label.clone(), enabled: item.enabled });
        if item.separator_after {
            rows.push(MenuRow::Separator);
        }
        proof {
            assert(items.take(i + 1).drop_last() =~= items.take(i as int));
            assert(items.take(i + 1).last() == items[i as int]);
            assert(rows_view(rows@) =~= custom_rows(items.take(i as int))
                + item_rows(items[i as int], i + 1));
        }
        i = i + 1;
    }
    proof {
        assert(items.take(n as int) =~= items);
    }
    let has_default = spec.show_about || spec.show_settings || spec.show_quit;
    if n > 0 && has_default {
        rows.push(MenuRow::Separator);
    }
    let mut next: i32 = n as i32 + 1;
    if spec.show_about {
        rows.push(MenuRow::Item { id: next, label: String::from_str("About"), enabled: true });
        next = next + 1;
    }
    if spec.show_settings {
        rows.push(MenuRow::Item { id: next, label: String::from_str("Settings"), enabled: true });
        next = next + 1;
    }
    if spec.show_quit {
        if spec.show_about || spec.show_settings {
            rows.push(MenuRow::Separator);
        }
        rows.push(MenuRow::Item { id: next, label: String::from_str("Quit"), enabled: true });
    }
    proof {
        assert(rows_view(rows@) =~= spec_render(spec@));
    }
    rows
}

/// Resolves a raw click identifier against the same `spec` that produced
/// the menu on display. Returns exactly what the closed form
/// `spec_resolve` defines: the matching action, or nothing for an
/// identifier the menu never assigned.
pub fn resolve(spec: &MenuConfig, id: i32) -> (action: Option<MenuAction>)
    ensures
        action_view(action) == spec_resolve(spec@, id as int),
{
    if id < 1 {
        return None;
    }
    let idx = (id - 1) as usize;
    let n = spec.custom_items.len();
    if idx < n {
        let item = &spec.custom_items[idx];
        return Some(MenuAction::Custom(item.action.clone()));
    }
    let offset = idx - n + 1;
    let about_count: usize = if spec.show_about {
        1
    } else {
        0
    };
    let settings_count: usize = if spec.show_settings {
        1
    } else {
        0
    };
    if spec.show_about && offset == 1 {
        Some(MenuAction::About)
    } else if spec.show_settings && offset == 1 + about_count {
        Some(MenuAction::Settings)
    } else if spec.show_quit && offset == 1 + about_count + settings_count {
        Some(MenuAction::Quit)
    } else {
        None
    }
}

} // verus!

