//! Mouse hit-testing: which control of the screen a click or a wheel step
//! lands on, found from the same layout the interface draws, and what it
//! does there. Dialogs take the mouse first; otherwise the wheel scrolls the
//! zone under the pointer, a left click selects or triggers, a double click
//! (or a click on the selected row) activates, and a right click runs the
//! row's quick action.
use vstd::prelude::*;
use crate::layout::{
    centered, centered_rect, clamped, clamped_rect, compute_layout_zones, contains, layout_of, rect_contains,
    root_split, split, three, workspace_split, LayoutZones, Rect, Span,
};
use crate::state::{
    spec_filtered_group_nodes, spec_filtered_rules, spec_filtered_sorted_connections, tab_at, tab_index, tab_next, AppState,
    FocusZone, ProfileInput, ProxySubFocus, SettingsForm, Tab, TunPanel,
};
use crate::text::{string_from, trim, trim_str};
use crate::update::{
    clamp_step, clamp_to, close_conn_post, close_selected_connection, confirm_post, confirm_selection,
    current_mode, cycle_mode, form_space, just_effect, next_mode, one, only_toast, outcome, pick, space_post,
    test_node_post, test_single_node_latency, test_sites_post, test_all_sites_latency, toast_is, unchanged,
    Action, Effect, FormOutcome, MouseEvent, MouseKind, Outcome,
};

verus! {

// ---------------------------------------------------------------------------
// Geometry
// ---------------------------------------------------------------------------

/// `a + b`, stopping at the largest coordinate.
pub open spec fn sat_add(a: u16, b: u16) -> u16 {
    if a + b > 0xffff {
        0xffff
    } else {
        (a + b) as u16
    }
}

/// `a - b`, stopping at zero.
pub open spec fn sat_sub(a: u16, b: u16) -> u16 {
    if a >= b {
        (a - b) as u16
    } else {
        0
    }
}

/// The area inside a one-cell border.
pub open spec fn inside_border(r: Rect) -> Rect {
    clamped_rect(sat_add(r.x, 1), sat_add(r.y, 1), sat_sub(r.width, 2), sat_sub(r.height, 2))
}

fn inside_border_of(r: Rect) -> (o: Rect)
    ensures
        o == inside_border(r),
{
    let x = r.x.saturating_add(1);
    let y = r.y.saturating_add(1);
    let w = r.width.saturating_sub(2);
    let h = r.height.saturating_sub(2);
    clamped(x, y, w, h)
}

/// The row of a bordered list under `row`, counted from the first row below
/// its border and `header` title rows, when `row` lies above the bottom border.
pub open spec fn list_row(r: Rect, header: u16, row: u16) -> Option<usize> {
    if r.y + header <= row && row < r.y + sat_sub(r.height, 1) {
        Some((row - r.y - header) as usize)
    } else {
        None
    }
}

fn list_row_of(r: Rect, header: u16, row: u16) -> (k: Option<usize>)
    ensures
        k == list_row(r, header, row),
{
    let top = (r.y as u32) + (header as u32);
    let bottom = (r.y as u32) + (r.height.saturating_sub(1) as u32);
    if top <= (row as u32) && (row as u32) < bottom {
        Some(((row as u32) - top) as usize)
    } else {
        None
    }
}

/// The item of a card under `row`: one of its `n` rows below the border.
pub open spec fn card_row(r: Rect, n: u16, row: u16) -> Option<usize> {
    if r.y + 1 <= row && row < r.y + 1 + n {
        Some((row - r.y - 1) as usize)
    } else {
        None
    }
}

fn card_row_of(r: Rect, n: u16, row: u16) -> (k: Option<usize>)
    ensures
        k == card_row(r, n, row),
{
    let top = (r.y as u32) + 1;
    if top <= (row as u32) && (row as u32) < top + (n as u32) {
        Some(((row as u32) - top) as usize)
    } else {
        None
    }
}

/// The list position shown at visible row `k` of a list scrolled by `offset`,
/// when the list has that many items.
pub open spec fn at_offset(offset: usize, k: usize, len: nat) -> Option<usize> {
    if offset + k < len {
        Some((offset + k) as usize)
    } else {
        None
    }
}

fn at_offset_of(offset: usize, k: usize, len: usize) -> (r: Option<usize>)
    ensures
        r == at_offset(offset, k, len as nat),
{
    if k < len && offset < len - k {
        Some(offset + k)
    } else {
        None
    }
}

/// Horizontal distance of `col` from `x` (zero left of it).
pub open spec fn rel_x(col: u16, x: u16) -> int {
    sat_sub(col, x) as int
}

/// Middle column of a rectangle.
pub open spec fn center_x(r: Rect) -> int {
    r.x + r.width / 2
}

fn center_of(r: Rect) -> (c: u32)
    ensures
        c == center_x(r),
{
    (r.x as u32) + (r.width as u32) / 2
}

fn two_spans(a: Span, b: Span) -> (r: Vec<Span>)
    ensures
        r@ == seq![a, b],
{
    let mut v: Vec<Span> = Vec::new();
    v.push(a);
    v.push(b);
    v
}

fn five_spans(a: Span, b: Span, c: Span, d: Span, e: Span) -> (r: Vec<Span>)
    ensures
        r@ == seq![a, b, c, d, e],
{
    let mut v: Vec<Span> = Vec::new();
    v.push(a);
    v.push(b);
    v.push(c);
    v.push(d);
    v.push(e);
    v
}

/// Scroll positions of the interface's lists, as the last drawing left them.
#[derive(Clone, Copy, PartialEq, Eq, Structural, Debug)]
pub struct ListOffsets {
    pub groups: usize,
    pub nodes: usize,
    pub profiles: usize,
    pub rules: usize,
    pub connections: usize,
}

/// The screen zones for a terminal area.
pub open spec fn zones_of(area: Rect) -> LayoutZones {
    LayoutZones {
        area,
        sidebar: root_split(area)[0],
        header: workspace_split(area)[0],
        content: workspace_split(area)[1],
        footer: workspace_split(area)[2],
    }
}

/// The two panes of the proxies view: groups on the left, nodes on the right.
pub open spec fn proxy_panes(content: Rect) -> Seq<Rect> {
    layout_of(false, 0, seq![Span::Percentage(28), Span::Percentage(72)], content)
}

/// The node list of the proxies view, below the search bar when searching.
pub open spec fn node_list(s: AppState, pane: Rect) -> Rect {
    layout_of(true, 0, seq![Span::Length(if s.is_searching { 3 } else { 0 }), Span::Min(0)], pane)[1]
}

/// The rules table, below the search bar when searching.
pub open spec fn rules_table(s: AppState, content: Rect) -> Rect {
    layout_of(true, 0, seq![Span::Length(if s.is_searching { 3 } else { 0 }), Span::Min(0)], content)[1]
}

/// A bar of buttons above a list: the bar and the list.
pub open spec fn bar_and_list(content: Rect) -> Seq<Rect> {
    layout_of(true, 0, seq![Span::Length(3), Span::Min(0)], content)
}

/// The connections table and the detail panel below it.
pub open spec fn conn_parts(content: Rect) -> Seq<Rect> {
    layout_of(true, 0, seq![Span::Min(0), Span::Length(5)], content)
}

fn proxy_panes_of(content: Rect) -> (r: Vec<Rect>)
    ensures
        r@ == proxy_panes(content),
        r@.len() == 2,
{
    split(false, 0, &two_spans(Span::Percentage(28), Span::Percentage(72)), content)
}

fn search_split(s: &AppState, area: Rect) -> (r: Rect)
    ensures
        r == layout_of(true, 0, seq![Span::Length(if s.is_searching { 3 } else { 0 }), Span::Min(0)], area)[1],
{
    let h: u16 = if s.is_searching { 3 } else { 0 };
    let parts = split(true, 0, &two_spans(Span::Length(h), Span::Min(0)), area);
    parts[1]
}

fn bar_and_list_of(content: Rect) -> (r: Vec<Rect>)
    ensures
        r@ == bar_and_list(content),
        r@.len() == 2,
{
    split(true, 0, &two_spans(Span::Length(3), Span::Min(0)), content)
}

fn conn_parts_of(content: Rect) -> (r: Vec<Rect>)
    ensures
        r@ == conn_parts(content),
        r@.len() == 2,
{
    split(true, 0, &two_spans(Span::Min(0), Span::Length(5)), content)
}

// ---------------------------------------------------------------------------
// Shared outcomes
// ---------------------------------------------------------------------------

/// Asks the core for the next routing mode.
pub open spec fn mode_post(s: AppState, r: Outcome) -> bool {
    just_effect(s, r, |e: Effect| e matches Effect::SetMode { mode } && mode@ == next_mode(current_mode(s)))
}

/// Hands `a` back to the interface.
pub open spec fn queued(s: AppState, r: Outcome, a: spec_fn(Action) -> bool) -> bool {
    just_effect(s, r, |e: Effect| e matches Effect::Queue(x) && a(x))
}

fn queue(s: AppState, a: Action) -> (r: Outcome)
    ensures
        r.state == s,
        !r.quit,
        r.effects@ == seq![Effect::Queue(a)],
{
    outcome(s, one(Effect::Queue(a)))
}

/// Clears the log buffer and says so.
pub open spec fn logs_cleared(s: AppState, now: u64, r: Outcome) -> bool {
    !r.quit && r.effects@.len() == 0 && only_toast(r.state, AppState { logs: r.state.logs, ..s })
        && r.state.logs@.len() == 0 && toast_is(r.state, "Logs cleared"@, now)
}

fn clear_logs(s: AppState, now: u64) -> (r: Outcome)
    ensures
        logs_cleared(s, now, r),
{
    outcome(AppState { logs: Vec::new(), toast: Some((string_from("Logs cleared"), now)), ..s }, Vec::new())
}

/// The settings form after applying the space bar to item `k`, with what it asks.
pub open spec fn space_applied(s: AppState, k: usize, r: Outcome) -> bool {
    &&& !r.quit
    &&& r.state == AppState { settings: r.state.settings, ..s }
    &&& space_post(
        SettingsForm { focus: k, ..s.settings },
        FormOutcome { form: r.state.settings, to_sidebar: false, effects: r.effects },
    )
}

fn apply_space(s: AppState, k: usize) -> (r: Outcome)
    requires
        k >= 6,
    ensures
        space_applied(s, k, r),
{
    let g = SettingsForm { focus: k, ..s.settings };
    let fo = form_space(g);
    proof {
        reveal(space_post);
    }
    let st = AppState { settings: fo.form, ..s };
    outcome(st, fo.effects)
}

// ---------------------------------------------------------------------------
// Dialogs
// ---------------------------------------------------------------------------

/// Any button press closes the help overlay.
pub open spec fn help_post(s: AppState, m: MouseEvent, r: Outcome) -> bool {
    if m.kind == MouseKind::LeftDown || m.kind == MouseKind::RightDown || m.kind == MouseKind::MiddleDown {
        unchanged(AppState { show_help: false, ..s }, r)
    } else {
        unchanged(s, r)
    }
}

fn help_mouse(s: AppState, m: MouseEvent) -> (r: Outcome)
    ensures
        help_post(s, m, r),
{
    if m.kind == MouseKind::LeftDown || m.kind == MouseKind::RightDown || m.kind == MouseKind::MiddleDown {
        outcome(AppState { show_help: false, ..s }, Vec::new())
    } else {
        outcome(s, Vec::new())
    }
}

/// The subscription dialog: a click outside closes it; a click on a field
/// edits it; in the button row, the left part switches the field, the middle
/// saves (when both fields are filled, trimmed), the right part cancels.
#[verifier::opaque]
pub open spec fn input_modal_post(s: AppState, m: MouseEvent, area: Rect, r: Outcome) -> bool {
    let col = m.column;
    let row = m.row;
    let p = s.profile_input;
    let popup = centered(65, 45, area);
    let parts = layout_of(
        true,
        1,
        seq![Span::Length(3), Span::Length(3), Span::Min(0)],
        inside_border(popup),
    );
    if m.kind != MouseKind::LeftDown {
        unchanged(s, r)
    } else if !contains(popup, col, row) {
        unchanged(AppState { profile_input: ProfileInput { show: false, ..p }, ..s }, r)
    } else if contains(parts[0], col, row) {
        unchanged(AppState { profile_input: ProfileInput { focus: 0, ..p }, ..s }, r)
    } else if contains(parts[1], col, row) {
        unchanged(AppState { profile_input: ProfileInput { focus: 1, ..p }, ..s }, r)
    } else if contains(parts[2], col, row) {
        let c = center_x(parts[2]);
        if col < (if c >= 8 { c - 8 } else { 0 }) {
            unchanged(AppState { profile_input: ProfileInput { focus: ((p.focus + 1) % 2) as usize, ..p }, ..s }, r)
        } else if col <= c + 8 {
            if p.name@.len() > 0 && p.url@.len() > 0 {
                &&& r.state == AppState { profile_input: ProfileInput { show: false, ..p }, ..s }
                &&& !r.quit
                &&& r.effects@.len() == 1
                &&& r.effects@[0] matches Effect::Queue(Action::AddProfile { name, url }) && name@ == trim(
                    p.name@,
                ) && url@ == trim(p.url@)
            } else {
                unchanged(s, r)
            }
        } else {
            unchanged(AppState { profile_input: ProfileInput { show: false, ..p }, ..s }, r)
        }
    } else {
        unchanged(s, r)
    }
}

fn input_modal_mouse(s: AppState, m: MouseEvent, area: Rect) -> (r: Outcome)
    ensures
        input_modal_post(s, m, area, r),
{
    proof {
        reveal(input_modal_post);
    }
    let col = m.column;
    let row = m.row;
    if m.kind != MouseKind::LeftDown {
        return outcome(s, Vec::new());
    }
    let popup = centered_rect(65, 45, area);
    if !rect_contains(popup, col, row) {
        let p = ProfileInput { show: false, ..s.profile_input };
        return outcome(AppState { profile_input: p, ..s }, Vec::new());
    }
    let inner = inside_border_of(popup);
    let parts = split(true, 1, &three(Span::Length(3), Span::Length(3), Span::Min(0)), inner);
    if rect_contains(parts[0], col, row) {
        let p = ProfileInput { focus: 0, ..s.profile_input };
        outcome(AppState { profile_input: p, ..s }, Vec::new())
    } else if rect_contains(parts[1], col, row) {
        let p = ProfileInput { focus: 1, ..s.profile_input };
        outcome(AppState { profile_input: p, ..s }, Vec::new())
    } else if rect_contains(parts[2], col, row) {
        let c = center_of(parts[2]);
        let left_edge: u32 = if c >= 8 { c - 8 } else { 0 };
        if (col as u32) < left_edge {
            let f = (s.profile_input.focus % 2 + 1) % 2;
            proof {
                assert(f == (s.profile_input.focus + 1) % 2);
            }
            let p = ProfileInput { focus: f, ..s.profile_input };
            outcome(AppState { profile_input: p, ..s }, Vec::new())
        } else if (col as u32) <= c + 8 {
            if !s.profile_input.name.as_str().is_empty() && !s.profile_input.url.as_str().is_empty() {
                let name = trim_str(s.profile_input.name.as_str());
                let url = trim_str(s.profile_input.url.as_str());
                let p = ProfileInput { show: false, ..s.profile_input };
                queue(AppState { profile_input: p, ..s }, Action::AddProfile { name, url })
            } else {
                outcome(s, Vec::new())
            }
        } else {
            let p = ProfileInput { show: false, ..s.profile_input };
            outcome(AppState { profile_input: p, ..s }, Vec::new())
        }
    } else {
        outcome(s, Vec::new())
    }
}

/// The privilege dialog: a click outside closes it (unless authorizing); while
/// authorizing it ignores clicks; the password field takes the focus; in the
/// button row, the left part authorizes with the password (or focuses the
/// field when it is empty), the middle asks Polkit, the right part cancels.
#[verifier::opaque]
pub open spec fn tun_modal_post(s: AppState, m: MouseEvent, area: Rect, r: Outcome) -> bool {
    let col = m.column;
    let row = m.row;
    let t = s.tun;
    let popup = centered(70, 60, area);
    let parts = layout_of(
        true,
        1,
        seq![Span::Length(4), Span::Length(3), Span::Length(3), Span::Length(3), Span::Min(2)],
        inside_border(popup),
    );
    if m.kind != MouseKind::LeftDown {
        unchanged(s, r)
    } else if !contains(popup, col, row) {
        if !t.granting {
            unchanged(AppState { tun: TunPanel { show_modal: false, ..t }, ..s }, r)
        } else {
            unchanged(s, r)
        }
    } else if t.granting {
        unchanged(s, r)
    } else if contains(parts[2], col, row) {
        unchanged(AppState { tun: TunPanel { input_focus: 0, ..t }, ..s }, r)
    } else if contains(parts[3], col, row) {
        let c = center_x(parts[3]);
        if col < (if c >= 6 { c - 6 } else { 0 }) {
            if t.password@.len() > 0 {
                queued(s, r, |a: Action| a matches Action::GrantTunPrivilegeWithPassword(pw) && pw@ == t.password@)
            } else {
                unchanged(AppState { tun: TunPanel { input_focus: 0, ..t }, ..s }, r)
            }
        } else if col <= c + 10 {
            queued(s, r, |a: Action| a matches Action::GrantTunPrivilegePkexec)
        } else {
            unchanged(AppState { tun: TunPanel { show_modal: false, ..t }, ..s }, r)
        }
    } else {
        unchanged(s, r)
    }
}

fn tun_modal_mouse(s: AppState, m: MouseEvent, area: Rect) -> (r: Outcome)
    ensures
        tun_modal_post(s, m, area, r),
{
    proof {
        reveal(tun_modal_post);
    }
    let col = m.column;
    let row = m.row;
    if m.kind != MouseKind::LeftDown {
        return outcome(s, Vec::new());
    }
    let popup = centered_rect(70, 60, area);
    if !rect_contains(popup, col, row) {
        if !s.tun.granting {
            let t = TunPanel { show_modal: false, ..s.tun };
            return outcome(AppState { tun: t, ..s }, Vec::new());
        }
        return outcome(s, Vec::new());
    }
    if s.tun.granting {
        return outcome(s, Vec::new());
    }
    let inner = inside_border_of(popup);
    let parts = split(
        true,
        1,
        &five_spans(Span::Length(4), Span::Length(3), Span::Length(3), Span::Length(3), Span::Min(2)),
        inner,
    );
    if rect_contains(parts[2], col, row) {
        let t = TunPanel { input_focus: 0, ..s.tun };
        outcome(AppState { tun: t, ..s }, Vec::new())
    } else if rect_contains(parts[3], col, row) {
        let c = center_of(parts[3]);
        let left_edge: u32 = if c >= 6 { c - 6 } else { 0 };
        if (col as u32) < left_edge {
            if !s.tun.password.as_str().is_empty() {
                let pw = s.tun.password.clone();
                queue(s, Action::GrantTunPrivilegeWithPassword(pw))
            } else {
                let t = TunPanel { input_focus: 0, ..s.tun };
                outcome(AppState { tun: t, ..s }, Vec::new())
            }
        } else if (col as u32) <= c + 10 {
            queue(s, Action::GrantTunPrivilegePkexec)
        } else {
            let t = TunPanel { show_modal: false, ..s.tun };
            outcome(AppState { tun: t, ..s }, Vec::new())
        }
    } else {
        outcome(s, Vec::new())
    }
}


// ---------------------------------------------------------------------------
// Wheel
// ---------------------------------------------------------------------------

/// Rules the rules view lists: the core's, else the active profile's.
pub open spec fn rules_count(s: AppState) -> nat {
    match s.rules_resp {
        Some(resp) => resp.rules@.len(),
        None => match s.parsed_active_profile {
            Some(p) => p.rules@.len(),
            None => 0,
        },
    }
}

fn rules_count_of(s: &AppState) -> (n: usize)
    ensures
        n == rules_count(*s),
{
    match &s.rules_resp {
        Some(resp) => resp.rules.len(),
        None => match &s.parsed_active_profile {
            Some(p) => p.rules.len(),
            None => 0,
        },
    }
}

/// A wheel step of `delta` rows over the content of the current view: moves
/// the list under the pointer (the log by two lines a step, the settings over
/// all twenty items), or re-tests the sites on the dashboard.
#[verifier::opaque]
pub open spec fn content_wheel_post(s: AppState, delta: int, col: u16, row: u16, content: Rect, now: u64, r: Outcome) -> bool {
    match s.active_tab {
        Tab::Proxies => if contains(proxy_panes(content)[0], col, row) {
            if s.proxy_groups@.len() > 0 {
                unchanged(
                    AppState {
                        selected_group_idx: clamp_to(s.selected_group_idx + delta, s.proxy_groups@.len() - 1),
                        selected_node_idx: 0,
                        proxy_sub_focus: ProxySubFocus::Groups,
                        ..s
                    },
                    r,
                )
            } else {
                unchanged(s, r)
            }
        } else {
            let n = spec_filtered_group_nodes(s).len();
            if n > 0 {
                unchanged(
                    AppState {
                        selected_node_idx: clamp_to(s.selected_node_idx + delta, n - 1),
                        proxy_sub_focus: ProxySubFocus::Nodes,
                        ..s
                    },
                    r,
                )
            } else {
                unchanged(s, r)
            }
        },
        Tab::Profiles => if s.profiles@.len() > 0 {
            unchanged(
                AppState { selected_profile_idx: clamp_to(s.selected_profile_idx + delta, s.profiles@.len() - 1), ..s },
                r,
            )
        } else {
            unchanged(s, r)
        },
        Tab::Rules => if rules_count(s) > 0 {
            unchanged(AppState { selected_rule_idx: clamp_to(s.selected_rule_idx + delta, rules_count(s) - 1), ..s }, r)
        } else {
            unchanged(s, r)
        },
        Tab::Connections => {
            let n = spec_filtered_sorted_connections(s).len();
            if n > 0 {
                unchanged(AppState { selected_conn_idx: clamp_to(s.selected_conn_idx + delta, n - 1), ..s }, r)
            } else {
                unchanged(s, r)
            }
        },
        Tab::Logs => unchanged(
            AppState {
                log_scroll: clamp_to(
                    s.log_scroll + 2 * delta,
                    if s.logs@.len() > 0 {
                        s.logs@.len() - 1
                    } else {
                        0
                    },
                ),
                ..s
            },
            r,
        ),
        Tab::Settings => unchanged(
            AppState { settings: SettingsForm { focus: clamp_to(s.settings.focus + delta, 19), ..s.settings }, ..s },
            r,
        ),
        Tab::Dashboard => test_sites_post(s, now, r),
        _ => unchanged(s, r),
    }
}

fn content_wheel(s: AppState, delta: i32, col: u16, row: u16, content: Rect, now: u64) -> (r: Outcome)
    requires
        delta == 1 || delta == -1,
    ensures
        content_wheel_post(s, delta as int, col, row, content, now, r),
{
    proof {
        reveal(content_wheel_post);
    }
    match s.active_tab {
        Tab::Proxies => {
            let panes = proxy_panes_of(content);
            if rect_contains(panes[0], col, row) {
                let n = s.proxy_groups.len();
                if n > 0 {
                    let i = clamp_step(s.selected_group_idx, delta, n - 1);
                    outcome(
                        AppState {
                            selected_group_idx: i,
                            selected_node_idx: 0,
                            proxy_sub_focus: ProxySubFocus::Groups,
                            ..s
                        },
                        Vec::new(),
                    )
                } else {
                    outcome(s, Vec::new())
                }
            } else {
                let n = s.display_group_nodes().len();
                if n > 0 {
                    let i = clamp_step(s.selected_node_idx, delta, n - 1);
                    outcome(AppState { selected_node_idx: i, proxy_sub_focus: ProxySubFocus::Nodes, ..s }, Vec::new())
                } else {
                    outcome(s, Vec::new())
                }
            }
        },
        Tab::Profiles => {
            let n = s.profiles.len();
            if n > 0 {
                let i = clamp_step(s.selected_profile_idx, delta, n - 1);
                outcome(AppState { selected_profile_idx: i, ..s }, Vec::new())
            } else {
                outcome(s, Vec::new())
            }
        },
        Tab::Rules => {
            let n = rules_count_of(&s);
            if n > 0 {
                let i = clamp_step(s.selected_rule_idx, delta, n - 1);
                outcome(AppState { selected_rule_idx: i, ..s }, Vec::new())
            } else {
                outcome(s, Vec::new())
            }
        },
        Tab::Connections => {
            let n = s.filtered_sorted_connections().len();
            if n > 0 {
                let i = clamp_step(s.selected_conn_idx, delta, n - 1);
                outcome(AppState { selected_conn_idx: i, ..s }, Vec::new())
            } else {
                outcome(s, Vec::new())
            }
        },
        Tab::Logs => {
            let n = s.logs.len();
            let hi: usize = if n > 0 { n - 1 } else { 0 };
            let i = clamp_step(s.log_scroll, 2 * delta, hi);
            outcome(AppState { log_scroll: i, ..s }, Vec::new())
        },
        Tab::Settings => {
            let i = clamp_step(s.settings.focus, delta, 19);
            let g = SettingsForm { focus: i, ..s.settings };
            outcome(AppState { settings: g, ..s }, Vec::new())
        },
        Tab::Dashboard => test_all_sites_latency(s, now),
        _ => outcome(s, Vec::new()),
    }
}

/// A wheel step: over the sidebar it moves to the next (or previous) view,
/// wrapping around; over the top bar it cycles the routing mode; over the
/// content it acts as `content_wheel_post` says.
#[verifier::opaque]
pub open spec fn wheel_post(s: AppState, delta: int, col: u16, row: u16, z: LayoutZones, now: u64, r: Outcome) -> bool {
    if contains(z.sidebar, col, row) {
        unchanged(
            AppState {
                active_tab: tab_at(((tab_index(s.active_tab) + delta) % 10) as nat),
                focus_zone: FocusZone::Sidebar,
                ..s
            },
            r,
        )
    } else if contains(z.header, col, row) {
        mode_post(s, r)
    } else if contains(z.content, col, row) {
        content_wheel_post(s, delta, col, row, z.content, now, r)
    } else {
        unchanged(s, r)
    }
}

fn wheel(s: AppState, delta: i32, col: u16, row: u16, z: LayoutZones, now: u64) -> (r: Outcome)
    requires
        delta == 1 || delta == -1,
    ensures
        wheel_post(s, delta as int, col, row, z, now, r),
{
    proof {
        reveal(wheel_post);
    }
    if rect_contains(z.sidebar, col, row) {
        let i = s.active_tab.index();
        let j: usize = if delta > 0 {
            (i + 1) % 10
        } else if i == 0 {
            9
        } else {
            i - 1
        };
        proof {
            assert(j == (tab_index(s.active_tab) + delta) % 10);
        }
        match Tab::from_index(j) {
            Some(t) => outcome(AppState { active_tab: t, focus_zone: FocusZone::Sidebar, ..s }, Vec::new()),
            None => outcome(s, Vec::new()),
        }
    } else if rect_contains(z.header, col, row) {
        cycle_mode(s)
    } else if rect_contains(z.content, col, row) {
        content_wheel(s, delta, col, row, z.content, now)
    } else {
        outcome(s, Vec::new())
    }
}


// ---------------------------------------------------------------------------
// Left clicks on the frame
// ---------------------------------------------------------------------------

/// A left click on the sidebar selects the view on that line of the menu
/// (the menu starts three lines down and shows at most ten entries, fewer
/// when the sidebar is short).
#[verifier::opaque]
pub open spec fn sidebar_click_post(s: AppState, row: u16, side: Rect, r: Outcome) -> bool {
    let top = side.y + 3;
    let shown = if sat_sub(side.height, 7) < 10 { sat_sub(side.height, 7) as int } else { 10 };
    if top <= row && row < top + shown {
        unchanged(AppState { active_tab: tab_at((row - top) as nat), focus_zone: FocusZone::Sidebar, ..s }, r)
    } else {
        unchanged(s, r)
    }
}

fn sidebar_click(s: AppState, row: u16, side: Rect) -> (r: Outcome)
    ensures
        sidebar_click_post(s, row, side, r),
{
    proof {
        reveal(sidebar_click_post);
    }
    let top = (side.y as u32) + 3;
    let h = side.height.saturating_sub(7);
    let shown: u32 = if h < 10 { h as u32 } else { 10 };
    if top <= (row as u32) && (row as u32) < top + shown {
        match Tab::from_index(((row as u32) - top) as usize) {
            Some(t) => outcome(AppState { active_tab: t, focus_zone: FocusZone::Sidebar, ..s }, Vec::new()),
            None => outcome(s, Vec::new()),
        }
    } else {
        outcome(s, Vec::new())
    }
}

/// The control pills and the traffic readout of the top bar.
pub open spec fn header_parts(header: Rect) -> Seq<Rect> {
    layout_of(false, 0, seq![Span::Min(0), Span::Length(30)], inside_border(header))
}

/// A left click on the top bar: the pills cycle the mode, switch the system
/// proxy, switch TUN mode or restart the core; the traffic readout refreshes
/// the proxies.
#[verifier::opaque]
pub open spec fn header_click_post(s: AppState, col: u16, row: u16, header: Rect, r: Outcome) -> bool {
    let parts = header_parts(header);
    if contains(parts[0], col, row) {
        let x = rel_x(col, parts[0].x);
        if x < 22 {
            mode_post(s, r)
        } else if x < 46 {
            queued(s, r, |a: Action| a matches Action::ToggleSystemProxy)
        } else if x < 68 {
            queued(s, r, |a: Action| a matches Action::ToggleTunMode)
        } else {
            queued(s, r, |a: Action| a matches Action::RestartCore)
        }
    } else if contains(parts[1], col, row) {
        queued(s, r, |a: Action| a matches Action::FetchProxies)
    } else {
        unchanged(s, r)
    }
}

fn header_click(s: AppState, col: u16, row: u16, header: Rect) -> (r: Outcome)
    ensures
        header_click_post(s, col, row, header, r),
{
    proof {
        reveal(header_click_post);
    }
    let inner = inside_border_of(header);
    let parts = split(false, 0, &two_spans(Span::Min(0), Span::Length(30)), inner);
    if rect_contains(parts[0], col, row) {
        let x = col.saturating_sub(parts[0].x);
        if x < 22 {
            cycle_mode(s)
        } else if x < 46 {
            queue(s, Action::ToggleSystemProxy)
        } else if x < 68 {
            queue(s, Action::ToggleTunMode)
        } else {
            queue(s, Action::RestartCore)
        }
    } else if rect_contains(parts[1], col, row) {
        queue(s, Action::FetchProxies)
    } else {
        outcome(s, Vec::new())
    }
}

/// A left click on the key-hint line, by its distance from the left edge:
/// switch the focused pane, next view, cycle the mode, system proxy, TUN
/// mode, help, quit.
#[verifier::opaque]
pub open spec fn footer_click_post(s: AppState, col: u16, footer: Rect, r: Outcome) -> bool {
    let x = rel_x(col, footer.x);
    if x < 10 {
        unchanged(
            AppState {
                focus_zone: if s.focus_zone == FocusZone::Sidebar {
                    FocusZone::Workspace
                } else {
                    FocusZone::Sidebar
                },
                ..s
            },
            r,
        )
    } else if x < 22 {
        unchanged(AppState { active_tab: tab_next(s.active_tab), ..s }, r)
    } else if x < 48 {
        mode_post(s, r)
    } else if x < 58 {
        queued(s, r, |a: Action| a matches Action::ToggleSystemProxy)
    } else if x < 68 {
        queued(s, r, |a: Action| a matches Action::ToggleTunMode)
    } else if x < 78 {
        unchanged(AppState { show_help: true, ..s }, r)
    } else {
        queued(s, r, |a: Action| a matches Action::Quit)
    }
}

fn footer_click(s: AppState, col: u16, footer: Rect) -> (r: Outcome)
    ensures
        footer_click_post(s, col, footer, r),
{
    proof {
        reveal(footer_click_post);
    }
    let x = col.saturating_sub(footer.x);
    if x < 10 {
        let z = if s.focus_zone == FocusZone::Sidebar {
            FocusZone::Workspace
        } else {
            FocusZone::Sidebar
        };
        outcome(AppState { focus_zone: z, ..s }, Vec::new())
    } else if x < 22 {
        let t = s.active_tab.next();
        outcome(AppState { active_tab: t, ..s }, Vec::new())
    } else if x < 48 {
        cycle_mode(s)
    } else if x < 58 {
        queue(s, Action::ToggleSystemProxy)
    } else if x < 68 {
        queue(s, Action::ToggleTunMode)
    } else if x < 78 {
        outcome(AppState { show_help: true, ..s }, Vec::new())
    } else {
        queue(s, Action::Quit)
    }
}


// ---------------------------------------------------------------------------
// Left clicks inside the views
// ---------------------------------------------------------------------------

/// Dashboard: the site matrix re-tests the sites; the status card cycles the mode.
#[verifier::opaque]
pub open spec fn dashboard_click_post(s: AppState, col: u16, row: u16, content: Rect, now: u64, r: Outcome) -> bool {
    let parts = layout_of(true, 0, seq![Span::Length(7), Span::Length(5), Span::Min(6)], content);
    if contains(parts[1], col, row) {
        test_sites_post(s, now, r)
    } else if contains(parts[0], col, row) {
        mode_post(s, r)
    } else {
        unchanged(s, r)
    }
}

fn dashboard_click(s: AppState, col: u16, row: u16, content: Rect, now: u64) -> (r: Outcome)
    ensures
        dashboard_click_post(s, col, row, content, now, r),
{
    proof {
        reveal(dashboard_click_post);
    }
    let parts = split(true, 0, &three(Span::Length(7), Span::Length(5), Span::Min(6)), content);
    if rect_contains(parts[1], col, row) {
        test_all_sites_latency(s, now)
    } else if rect_contains(parts[0], col, row) {
        cycle_mode(s)
    } else {
        outcome(s, Vec::new())
    }
}

/// Proxies: the group pane focuses the groups and selects the clicked group;
/// the node pane focuses the nodes and selects the clicked node, and applies
/// it when it was already selected or on a double click.
#[verifier::opaque]
pub open spec fn proxies_click_post(
    s: AppState,
    col: u16,
    row: u16,
    double: bool,
    content: Rect,
    off: ListOffsets,
    now: u64,
    r: Outcome,
) -> bool {
    let panes = proxy_panes(content);
    if contains(panes[0], col, row) {
        let s3 = AppState { proxy_sub_focus: ProxySubFocus::Groups, ..s };
        match list_row(panes[0], 1, row) {
            Some(k) => match at_offset(off.groups, k, s.proxy_groups@.len()) {
                Some(i) => unchanged(AppState { selected_group_idx: i, selected_node_idx: 0, ..s3 }, r),
                None => unchanged(s3, r),
            },
            None => unchanged(s3, r),
        }
    } else if contains(panes[1], col, row) {
        let s3 = AppState { proxy_sub_focus: ProxySubFocus::Nodes, ..s };
        match list_row(node_list(s, panes[1]), 1, row) {
            Some(k) => match at_offset(off.nodes, k, spec_filtered_group_nodes(s).len()) {
                Some(i) => if s.selected_node_idx == i || double {
                    confirm_post(AppState { selected_node_idx: i, ..s3 }, now, r)
                } else {
                    unchanged(AppState { selected_node_idx: i, ..s3 }, r)
                },
                None => unchanged(s3, r),
            },
            None => unchanged(s3, r),
        }
    } else {
        unchanged(s, r)
    }
}

fn proxies_click(
    s: AppState,
    col: u16,
    row: u16,
    double: bool,
    content: Rect,
    off: ListOffsets,
    now: u64,
) -> (r: Outcome)
    ensures
        proxies_click_post(s, col, row, double, content, off, now, r),
{
    proof {
        reveal(proxies_click_post);
    }
    let panes = proxy_panes_of(content);
    if rect_contains(panes[0], col, row) {
        let n = s.proxy_groups.len();
        let s3 = AppState { proxy_sub_focus: ProxySubFocus::Groups, ..s };
        match list_row_of(panes[0], 1, row) {
            Some(k) => match at_offset_of(off.groups, k, n) {
                Some(i) => outcome(AppState { selected_group_idx: i, selected_node_idx: 0, ..s3 }, Vec::new()),
                None => outcome(s3, Vec::new()),
            },
            None => outcome(s3, Vec::new()),
        }
    } else if rect_contains(panes[1], col, row) {
        let n = s.display_group_nodes().len();
        let list = search_split(&s, panes[1]);
        let sel = s.selected_node_idx;
        let s3 = AppState { proxy_sub_focus: ProxySubFocus::Nodes, ..s };
        match list_row_of(list, 1, row) {
            Some(k) => match at_offset_of(off.nodes, k, n) {
                Some(i) => if sel == i || double {
                    confirm_selection(AppState { selected_node_idx: i, ..s3 }, now)
                } else {
                    outcome(AppState { selected_node_idx: i, ..s3 }, Vec::new())
                },
                None => outcome(s3, Vec::new()),
            },
            None => outcome(s3, Vec::new()),
        }
    } else {
        outcome(s, Vec::new())
    }
}

/// The subscription dialog opened empty, on the name field.
pub open spec fn input_opened(s: AppState, r: Outcome) -> bool {
    &&& !r.quit && r.effects@.len() == 0
    &&& r.state == AppState { profile_input: r.state.profile_input, ..s }
    &&& r.state.profile_input.show && r.state.profile_input.focus == 0
    &&& r.state.profile_input.name@.len() == 0 && r.state.profile_input.url@.len() == 0
}

/// Profiles: the button bar adds a subscription, updates the selected one
/// (when it has an address) or deletes it; the list selects the clicked
/// profile, and activates it when it was already selected or on a double click.
#[verifier::opaque]
pub open spec fn profiles_click_post(
    s: AppState,
    col: u16,
    row: u16,
    double: bool,
    content: Rect,
    off: ListOffsets,
    now: u64,
    r: Outcome,
) -> bool {
    let parts = bar_and_list(content);
    let sel = s.selected_profile_idx;
    let ps = s.profiles@;
    if contains(parts[0], col, row) {
        let x = rel_x(col, parts[0].x);
        if x < 18 {
            input_opened(s, r)
        } else if x < 36 {
            if sel < ps.len() && ps[sel as int].url is Some {
                queued(
                    s,
                    r,
                    |a: Action|
                        a matches Action::AddProfile { name, url } && name@ == ps[sel as int].name@ && url@
                            == ps[sel as int].url.unwrap()@,
                )
            } else {
                unchanged(s, r)
            }
        } else if x < 54 {
            if sel < ps.len() {
                queued(s, r, |a: Action| a matches Action::DeleteProfile(n) && n@ == ps[sel as int].name@)
            } else {
                unchanged(s, r)
            }
        } else {
            unchanged(s, r)
        }
    } else if contains(parts[1], col, row) {
        match list_row(parts[1], 1, row) {
            Some(k) => match at_offset(off.profiles, k, ps.len()) {
                Some(i) => if sel == i || double {
                    confirm_post(AppState { selected_profile_idx: i, ..s }, now, r)
                } else {
                    unchanged(AppState { selected_profile_idx: i, ..s }, r)
                },
                None => unchanged(s, r),
            },
            None => unchanged(s, r),
        }
    } else {
        unchanged(s, r)
    }
}

fn profiles_click(
    s: AppState,
    col: u16,
    row: u16,
    double: bool,
    content: Rect,
    off: ListOffsets,
    now: u64,
) -> (r: Outcome)
    ensures
        profiles_click_post(s, col, row, double, content, off, now, r),
{
    proof {
        reveal(profiles_click_post);
    }
    let parts = bar_and_list_of(content);
    let sel = s.selected_profile_idx;
    if rect_contains(parts[0], col, row) {
        let x = col.saturating_sub(parts[0].x);
        if x < 18 {
            let p = ProfileInput { show: true, name: String::new(), url: String::new(), focus: 0 };
            outcome(AppState { profile_input: p, ..s }, Vec::new())
        } else if x < 36 {
            if sel < s.profiles.len() {
                match &s.profiles[sel].url {
                    Some(u) => {
                        let url = u.clone();
                        let name = s.profiles[sel].name.clone();
                        queue(s, Action::AddProfile { name, url })
                    },
                    None => outcome(s, Vec::new()),
                }
            } else {
                outcome(s, Vec::new())
            }
        } else if x < 54 {
            if sel < s.profiles.len() {
                let name = s.profiles[sel].name.clone();
                queue(s, Action::DeleteProfile(name))
            } else {
                outcome(s, Vec::new())
            }
        } else {
            outcome(s, Vec::new())
        }
    } else if rect_contains(parts[1], col, row) {
        match list_row_of(parts[1], 1, row) {
            Some(k) => match at_offset_of(off.profiles, k, s.profiles.len()) {
                Some(i) => if sel == i || double {
                    confirm_selection(AppState { selected_profile_idx: i, ..s }, now)
                } else {
                    outcome(AppState { selected_profile_idx: i, ..s }, Vec::new())
                },
                None => outcome(s, Vec::new()),
            },
            None => outcome(s, Vec::new()),
        }
    } else {
        outcome(s, Vec::new())
    }
}

/// Rules: selects the clicked row of the listed (filtered) rules, below the
/// table's header line.
#[verifier::opaque]
pub open spec fn rules_click_post(s: AppState, row: u16, content: Rect, off: ListOffsets, r: Outcome) -> bool {
    match list_row(rules_table(s, content), 2, row) {
        Some(k) => match at_offset(off.rules, k, spec_filtered_rules(s).len()) {
            Some(i) => unchanged(AppState { selected_rule_idx: i, ..s }, r),
            None => unchanged(s, r),
        },
        None => unchanged(s, r),
    }
}

fn rules_click(s: AppState, row: u16, content: Rect, off: ListOffsets) -> (r: Outcome)
    ensures
        rules_click_post(s, row, content, off, r),
{
    proof {
        reveal(rules_click_post);
    }
    let table = search_split(&s, content);
    let n = s.filtered_rules().len();
    match list_row_of(table, 2, row) {
        Some(k) => match at_offset_of(off.rules, k, n) {
            Some(i) => outcome(AppState { selected_rule_idx: i, ..s }, Vec::new()),
            None => outcome(s, Vec::new()),
        },
        None => outcome(s, Vec::new()),
    }
}

/// Connections: the header line switches the traffic ordering (and says so);
/// a row is selected, and closed on a double click.
#[verifier::opaque]
pub open spec fn connections_click_post(
    s: AppState,
    row: u16,
    double: bool,
    content: Rect,
    off: ListOffsets,
    now: u64,
    r: Outcome,
) -> bool {
    let table = conn_parts(content)[0];
    if row == table.y + 1 {
        let s2 = AppState { sort_connections_by_traffic: !s.sort_connections_by_traffic, ..s };
        !r.quit && r.effects@.len() == 0 && only_toast(r.state, s2) && toast_is(
            r.state,
            if s2.sort_connections_by_traffic {
                "已开启连接流量降序排序"@
            } else {
                "已恢复默认连接顺序"@
            },
            now,
        )
    } else {
        match list_row(table, 2, row) {
            Some(k) => match at_offset(off.connections, k, spec_filtered_sorted_connections(s).len()) {
                Some(i) => if double {
                    close_conn_post(AppState { selected_conn_idx: i, ..s }, r)
                } else {
                    unchanged(AppState { selected_conn_idx: i, ..s }, r)
                },
                None => unchanged(s, r),
            },
            None => unchanged(s, r),
        }
    }
}

fn connections_click(s: AppState, row: u16, double: bool, content: Rect, off: ListOffsets, now: u64) -> (r: Outcome)
    ensures
        connections_click_post(s, row, double, content, off, now, r),
{
    proof {
        reveal(connections_click_post);
    }
    let parts = conn_parts_of(content);
    let table = parts[0];
    if (row as u32) == (table.y as u32) + 1 {
        let on = !s.sort_connections_by_traffic;
        let msg = pick(on, "已开启连接流量降序排序", "已恢复默认连接顺序");
        return outcome(AppState { sort_connections_by_traffic: on, toast: Some((msg, now)), ..s }, Vec::new());
    }
    let n = s.filtered_sorted_connections().len();
    match list_row_of(table, 2, row) {
        Some(k) => match at_offset_of(off.connections, k, n) {
            Some(i) => if double {
                close_selected_connection(AppState { selected_conn_idx: i, ..s })
            } else {
                outcome(AppState { selected_conn_idx: i, ..s }, Vec::new())
            },
            None => outcome(s, Vec::new()),
        },
        None => outcome(s, Vec::new()),
    }
}


/// The log filter chosen by a click at distance `x` on the filter bar.
pub open spec fn filter_at(x: int) -> Seq<char> {
    if x < 18 {
        "all"@
    } else if x < 26 {
        "info"@
    } else if x < 34 {
        "warn"@
    } else if x < 42 {
        "error"@
    } else {
        "debug"@
    }
}

/// Logs: the bar sets the level filter, switches following the newest line
/// (and says so), or clears the log.
#[verifier::opaque]
pub open spec fn logs_click_post(s: AppState, col: u16, row: u16, content: Rect, now: u64, r: Outcome) -> bool {
    let bar = bar_and_list(content)[0];
    if contains(bar, col, row) {
        let x = rel_x(col, bar.x);
        if x < 50 {
            !r.quit && r.effects@.len() == 0 && r.state == AppState { log_filter: r.state.log_filter, ..s }
                && r.state.log_filter@ == filter_at(x)
        } else if x < 75 {
            let s2 = AppState { logs_auto_scroll: !s.logs_auto_scroll, ..s };
            !r.quit && r.effects@.len() == 0 && only_toast(r.state, s2) && toast_is(
                r.state,
                if s2.logs_auto_scroll {
                    "已开启日志自动滚动"@
                } else {
                    "已暂停日志自动滚动"@
                },
                now,
            )
        } else {
            logs_cleared(s, now, r)
        }
    } else {
        unchanged(s, r)
    }
}

fn logs_click(s: AppState, col: u16, row: u16, content: Rect, now: u64) -> (r: Outcome)
    ensures
        logs_click_post(s, col, row, content, now, r),
{
    proof {
        reveal(logs_click_post);
    }
    let parts = bar_and_list_of(content);
    let bar = parts[0];
    if !rect_contains(bar, col, row) {
        return outcome(s, Vec::new());
    }
    let x = col.saturating_sub(bar.x);
    if x < 50 {
        let f: &str = if x < 18 {
            "all"
        } else if x < 26 {
            "info"
        } else if x < 34 {
            "warn"
        } else if x < 42 {
            "error"
        } else {
            "debug"
        };
        proof {
            reveal_strlit("all");
            reveal_strlit("info");
            reveal_strlit("warn");
            reveal_strlit("error");
            reveal_strlit("debug");
        }
        outcome(AppState { log_filter: string_from(f), ..s }, Vec::new())
    } else if x < 75 {
        let on = !s.logs_auto_scroll;
        let msg = pick(on, "已开启日志自动滚动", "已暂停日志自动滚动");
        outcome(AppState { logs_auto_scroll: on, toast: Some((msg, now)), ..s }, Vec::new())
    } else {
        clear_logs(s, now)
    }
}

/// The four cards of the settings view: network and ports, DNS and
/// automation, core and system, display.
pub open spec fn settings_cards(mid: Rect) -> Seq<Rect> {
    let grid = layout_of(false, 0, seq![Span::Percentage(50), Span::Percentage(50)], mid);
    let left = layout_of(true, 0, seq![Span::Percentage(52), Span::Percentage(48)], grid[0]);
    let right = layout_of(true, 0, seq![Span::Percentage(52), Span::Percentage(48)], grid[1]);
    seq![left[0], left[1], right[0], right[1]]
}

/// The item a click on a card picks: the card's first item plus the row.
pub open spec fn card_item(s: AppState, first: usize, k: usize, r: Outcome) -> bool {
    if first == 0 {
        unchanged(AppState { settings: SettingsForm { focus: k, ..s.settings }, ..s }, r)
    } else {
        space_applied(s, (first + k) as usize, r)
    }
}

/// Settings: the save bar saves; a click on a card's line focuses that item,
/// and on an option acts as the space bar on it (toggle, cycle, or download
/// the core).
#[verifier::opaque]
pub open spec fn settings_click_post(s: AppState, col: u16, row: u16, content: Rect, r: Outcome) -> bool {
    let main = layout_of(true, 0, seq![Span::Length(3), Span::Min(0), Span::Length(3)], content);
    let cards = settings_cards(main[1]);
    if contains(main[2], col, row) {
        space_applied(s, 19, r)
    } else if contains(main[1], col, row) {
        if contains(cards[0], col, row) {
            match card_row(cards[0], 6, row) {
                Some(k) => card_item(s, 0, k, r),
                None => unchanged(s, r),
            }
        } else if contains(cards[1], col, row) {
            match card_row(cards[1], 5, row) {
                Some(k) => card_item(s, 6, k, r),
                None => unchanged(s, r),
            }
        } else if contains(cards[2], col, row) {
            match card_row(cards[2], 5, row) {
                Some(k) => card_item(s, 11, k, r),
                None => unchanged(s, r),
            }
        } else if contains(cards[3], col, row) {
            match card_row(cards[3], 3, row) {
                Some(k) => card_item(s, 16, k, r),
                None => unchanged(s, r),
            }
        } else {
            unchanged(s, r)
        }
    } else {
        unchanged(s, r)
    }
}

fn card_click(s: AppState, first: usize, card: Rect, n: u16, row: u16) -> (r: Outcome)
    requires
        first == 0 || first == 6 || first == 11 || first == 16,
        n <= 6,
    ensures
        match card_row(card, n, row) {
            Some(k) => card_item(s, first, k, r),
            None => unchanged(s, r),
        },
{
    match card_row_of(card, n, row) {
        Some(k) => if first == 0 {
            let g = SettingsForm { focus: k, ..s.settings };
            outcome(AppState { settings: g, ..s }, Vec::new())
        } else {
            apply_space(s, first + k)
        },
        None => outcome(s, Vec::new()),
    }
}

fn settings_click(s: AppState, col: u16, row: u16, content: Rect) -> (r: Outcome)
    ensures
        settings_click_post(s, col, row, content, r),
{
    proof {
        reveal(settings_click_post);
    }
    let main = split(true, 0, &three(Span::Length(3), Span::Min(0), Span::Length(3)), content);
    if rect_contains(main[2], col, row) {
        return apply_space(s, 19);
    }
    if !rect_contains(main[1], col, row) {
        return outcome(s, Vec::new());
    }
    let grid = split(false, 0, &two_spans(Span::Percentage(50), Span::Percentage(50)), main[1]);
    let left = split(true, 0, &two_spans(Span::Percentage(52), Span::Percentage(48)), grid[0]);
    let right = split(true, 0, &two_spans(Span::Percentage(52), Span::Percentage(48)), grid[1]);
    proof {
        assert(settings_cards(main@[1]) == seq![left@[0], left@[1], right@[0], right@[1]]);
    }
    if rect_contains(left[0], col, row) {
        card_click(s, 0, left[0], 6, row)
    } else if rect_contains(left[1], col, row) {
        card_click(s, 6, left[1], 5, row)
    } else if rect_contains(right[0], col, row) {
        card_click(s, 11, right[0], 5, row)
    } else if rect_contains(right[1], col, row) {
        card_click(s, 16, right[1], 3, row)
    } else {
        outcome(s, Vec::new())
    }
}

/// Privileges: the TUN card's buttons open the authorization dialog, revoke
/// the privilege or switch TUN mode; the proxy card switches the system proxy.
#[verifier::opaque]
pub open spec fn privileges_click_post(s: AppState, col: u16, row: u16, content: Rect, r: Outcome) -> bool {
    let parts = layout_of(true, 0, seq![Span::Length(9), Span::Length(5), Span::Min(0)], content);
    if contains(parts[0], col, row) {
        let x = rel_x(col, parts[0].x);
        let b = parts[0].y + 5;
        if b <= row && row <= b + 1 {
            if x < 22 {
                unchanged(AppState { tun: TunPanel { show_modal: true, ..s.tun }, ..s }, r)
            } else if x < 42 {
                queued(s, r, |a: Action| a matches Action::RevokeTunPrivilege)
            } else if x < 62 {
                queued(s, r, |a: Action| a matches Action::ToggleTunMode)
            } else {
                unchanged(s, r)
            }
        } else {
            unchanged(s, r)
        }
    } else if contains(parts[1], col, row) {
        queued(s, r, |a: Action| a matches Action::ToggleSystemProxy)
    } else {
        unchanged(s, r)
    }
}

fn privileges_click(s: AppState, col: u16, row: u16, content: Rect) -> (r: Outcome)
    ensures
        privileges_click_post(s, col, row, content, r),
{
    proof {
        reveal(privileges_click_post);
    }
    let parts = split(true, 0, &three(Span::Length(9), Span::Length(5), Span::Min(0)), content);
    if rect_contains(parts[0], col, row) {
        let x = col.saturating_sub(parts[0].x);
        let b = (parts[0].y as u32) + 5;
        if b <= (row as u32) && (row as u32) <= b + 1 {
            if x < 22 {
                let t = TunPanel { show_modal: true, ..s.tun };
                outcome(AppState { tun: t, ..s }, Vec::new())
            } else if x < 42 {
                queue(s, Action::RevokeTunPrivilege)
            } else if x < 62 {
                queue(s, Action::ToggleTunMode)
            } else {
                outcome(s, Vec::new())
            }
        } else {
            outcome(s, Vec::new())
        }
    } else if rect_contains(parts[1], col, row) {
        queue(s, Action::ToggleSystemProxy)
    } else {
        outcome(s, Vec::new())
    }
}


/// A left click on the current view (with the workspace focused).
pub open spec fn view_click_post(
    s: AppState,
    col: u16,
    row: u16,
    double: bool,
    content: Rect,
    off: ListOffsets,
    now: u64,
    r: Outcome,
) -> bool {
    match s.active_tab {
        Tab::Dashboard => dashboard_click_post(s, col, row, content, now, r),
        Tab::Proxies => proxies_click_post(s, col, row, double, content, off, now, r),
        Tab::Profiles => profiles_click_post(s, col, row, double, content, off, now, r),
        Tab::Rules => rules_click_post(s, row, content, off, r),
        Tab::Connections => connections_click_post(s, row, double, content, off, now, r),
        Tab::Logs => logs_click_post(s, col, row, content, now, r),
        Tab::Settings => settings_click_post(s, col, row, content, r),
        Tab::Privileges => privileges_click_post(s, col, row, content, r),
        _ => unchanged(s, r),
    }
}

fn view_click(
    s: AppState,
    col: u16,
    row: u16,
    double: bool,
    content: Rect,
    off: ListOffsets,
    now: u64,
) -> (r: Outcome)
    ensures
        view_click_post(s, col, row, double, content, off, now, r),
{
    match s.active_tab {
        Tab::Dashboard => dashboard_click(s, col, row, content, now),
        Tab::Proxies => proxies_click(s, col, row, double, content, off, now),
        Tab::Profiles => profiles_click(s, col, row, double, content, off, now),
        Tab::Rules => rules_click(s, row, content, off),
        Tab::Connections => connections_click(s, row, double, content, off, now),
        Tab::Logs => logs_click(s, col, row, content, now),
        Tab::Settings => settings_click(s, col, row, content),
        Tab::Privileges => privileges_click(s, col, row, content),
        _ => outcome(s, Vec::new()),
    }
}

/// A left click: on the sidebar, the top bar or the key-hint line as their
/// own posts say; inside the view it focuses the workspace and acts on the view.
pub open spec fn left_click_post(
    s: AppState,
    col: u16,
    row: u16,
    double: bool,
    z: LayoutZones,
    off: ListOffsets,
    now: u64,
    r: Outcome,
) -> bool {
    if contains(z.sidebar, col, row) {
        sidebar_click_post(s, row, z.sidebar, r)
    } else if contains(z.header, col, row) {
        header_click_post(s, col, row, z.header, r)
    } else if contains(z.footer, col, row) {
        footer_click_post(s, col, z.footer, r)
    } else if contains(z.content, col, row) {
        view_click_post(AppState { focus_zone: FocusZone::Workspace, ..s }, col, row, double, z.content, off, now, r)
    } else {
        unchanged(s, r)
    }
}

fn left_click(
    s: AppState,
    col: u16,
    row: u16,
    double: bool,
    z: LayoutZones,
    off: ListOffsets,
    now: u64,
) -> (r: Outcome)
    ensures
        left_click_post(s, col, row, double, z, off, now, r),
{
    if rect_contains(z.sidebar, col, row) {
        sidebar_click(s, row, z.sidebar)
    } else if rect_contains(z.header, col, row) {
        header_click(s, col, row, z.header)
    } else if rect_contains(z.footer, col, row) {
        footer_click(s, col, z.footer)
    } else if rect_contains(z.content, col, row) {
        view_click(AppState { focus_zone: FocusZone::Workspace, ..s }, col, row, double, z.content, off, now)
    } else {
        outcome(s, Vec::new())
    }
}

// ---------------------------------------------------------------------------
// Right clicks
// ---------------------------------------------------------------------------

/// A right click inside the view focuses the workspace and runs the quick
/// action of the row under the pointer: tests a node's latency, updates a
/// subscription, closes a connection, or clears the log. Elsewhere it focuses
/// the sidebar.
#[verifier::opaque]
pub open spec fn right_click_post(
    s: AppState,
    col: u16,
    row: u16,
    z: LayoutZones,
    off: ListOffsets,
    now: u64,
    r: Outcome,
) -> bool {
    let content = z.content;
    if !contains(content, col, row) {
        unchanged(AppState { focus_zone: FocusZone::Sidebar, ..s }, r)
    } else {
        let s2 = AppState { focus_zone: FocusZone::Workspace, ..s };
        match s.active_tab {
            Tab::Proxies => {
                let pane = proxy_panes(content)[1];
                if contains(pane, col, row) {
                    match list_row(node_list(s, pane), 1, row) {
                        Some(k) => match at_offset(off.nodes, k, spec_filtered_group_nodes(s).len()) {
                            Some(i) => test_node_post(
                                AppState { selected_node_idx: i, proxy_sub_focus: ProxySubFocus::Nodes, ..s2 },
                                r,
                            ),
                            None => unchanged(s2, r),
                        },
                        None => unchanged(s2, r),
                    }
                } else {
                    unchanged(s2, r)
                }
            },
            Tab::Profiles => {
                let list = bar_and_list(content)[1];
                let ps = s.profiles@;
                if contains(list, col, row) {
                    match list_row(list, 1, row) {
                        Some(k) => match at_offset(off.profiles, k, ps.len()) {
                            Some(i) => {
                                let s3 = AppState { selected_profile_idx: i, ..s2 };
                                match ps[i as int].url {
                                    Some(u) => queued(
                                        s3,
                                        r,
                                        |a: Action|
                                            a matches Action::AddProfile { name, url } && name@ == ps[i as int].name@
                                                && url@ == u@,
                                    ),
                                    None => unchanged(s3, r),
                                }
                            },
                            None => unchanged(s2, r),
                        },
                        None => unchanged(s2, r),
                    }
                } else {
                    unchanged(s2, r)
                }
            },
            Tab::Connections => {
                let table = conn_parts(content)[0];
                if contains(table, col, row) {
                    match list_row(table, 2, row) {
                        Some(k) => match at_offset(off.connections, k, spec_filtered_sorted_connections(s).len()) {
                            Some(i) => close_conn_post(AppState { selected_conn_idx: i, ..s2 }, r),
                            None => unchanged(s2, r),
                        },
                        None => unchanged(s2, r),
                    }
                } else {
                    unchanged(s2, r)
                }
            },
            Tab::Logs => logs_cleared(s2, now, r),
            _ => unchanged(s2, r),
        }
    }
}

fn right_click(s: AppState, col: u16, row: u16, z: LayoutZones, off: ListOffsets, now: u64) -> (r: Outcome)
    ensures
        right_click_post(s, col, row, z, off, now, r),
{
    proof {
        reveal(right_click_post);
    }
    let content = z.content;
    if !rect_contains(content, col, row) {
        return outcome(AppState { focus_zone: FocusZone::Sidebar, ..s }, Vec::new());
    }
    match s.active_tab {
        Tab::Proxies => {
            let panes = proxy_panes_of(content);
            let pane = panes[1];
            let n = s.display_group_nodes().len();
            let list = search_split(&s, pane);
            let s2 = AppState { focus_zone: FocusZone::Workspace, ..s };
            if rect_contains(pane, col, row) {
                match list_row_of(list, 1, row) {
                    Some(k) => match at_offset_of(off.nodes, k, n) {
                        Some(i) => test_single_node_latency(
                            AppState { selected_node_idx: i, proxy_sub_focus: ProxySubFocus::Nodes, ..s2 },
                        ),
                        None => outcome(s2, Vec::new()),
                    },
                    None => outcome(s2, Vec::new()),
                }
            } else {
                outcome(s2, Vec::new())
            }
        },
        Tab::Profiles => {
            let parts = bar_and_list_of(content);
            let list = parts[1];
            let s2 = AppState { focus_zone: FocusZone::Workspace, ..s };
            if rect_contains(list, col, row) {
                match list_row_of(list, 1, row) {
                    Some(k) => match at_offset_of(off.profiles, k, s2.profiles.len()) {
                        Some(i) => {
                            let name = s2.profiles[i].name.clone();
                            let url = match &s2.profiles[i].url {
                                Some(u) => Some(u.clone()),
                                None => None,
                            };
                            let s3 = AppState { selected_profile_idx: i, ..s2 };
                            match url {
                                Some(u) => queue(s3, Action::AddProfile { name, url: u }),
                                None => outcome(s3, Vec::new()),
                            }
                        },
                        None => outcome(s2, Vec::new()),
                    },
                    None => outcome(s2, Vec::new()),
                }
            } else {
                outcome(s2, Vec::new())
            }
        },
        Tab::Connections => {
            let parts = conn_parts_of(content);
            let table = parts[0];
            let n = s.filtered_sorted_connections().len();
            let s2 = AppState { focus_zone: FocusZone::Workspace, ..s };
            if rect_contains(table, col, row) {
                match list_row_of(table, 2, row) {
                    Some(k) => match at_offset_of(off.connections, k, n) {
                        Some(i) => close_selected_connection(AppState { selected_conn_idx: i, ..s2 }),
                        None => outcome(s2, Vec::new()),
                    },
                    None => outcome(s2, Vec::new()),
                }
            } else {
                outcome(s2, Vec::new())
            }
        },
        Tab::Logs => clear_logs(AppState { focus_zone: FocusZone::Workspace, ..s }, now),
        _ => outcome(AppState { focus_zone: FocusZone::Workspace, ..s }, Vec::new()),
    }
}


// ---------------------------------------------------------------------------
// Dispatch
// ---------------------------------------------------------------------------

/// Whether a click at the pointer's cell follows the last left or right click
/// on the same cell within 400 ms.
pub open spec fn double_click(s: AppState, m: MouseEvent, now: u64) -> bool {
    match s.last_click {
        Some((t, c, r)) => (if now >= t {
            now - t
        } else {
            0
        }) < 400 && c == m.column && r == m.row,
        None => false,
    }
}

/// The state with a left or right press remembered for telling double clicks.
pub open spec fn with_press(s: AppState, m: MouseEvent, now: u64) -> AppState {
    if m.kind == MouseKind::LeftDown || m.kind == MouseKind::RightDown {
        AppState { last_click: Some((now, m.column, m.row)), ..s }
    } else {
        s
    }
}

/// What a mouse event does on a terminal of size `area`, with the lists
/// scrolled by `off`: after remembering a press, an open dialog (help, the
/// subscription dialog, the privilege dialog, in that order) takes it;
/// otherwise the wheel, a left click or a right click acts on the zone under
/// the pointer.
#[verifier::opaque]
pub open spec fn pointer_post(s: AppState, m: MouseEvent, area: Rect, off: ListOffsets, now: u64, r: Outcome) -> bool {
    let s1 = with_press(s, m, now);
    let z = zones_of(area);
    if s1.show_help {
        help_post(s1, m, r)
    } else if s1.profile_input.show {
        input_modal_post(s1, m, area, r)
    } else if s1.tun.show_modal {
        tun_modal_post(s1, m, area, r)
    } else {
        match m.kind {
            MouseKind::ScrollDown => wheel_post(s1, 1, m.column, m.row, z, now, r),
            MouseKind::ScrollUp => wheel_post(s1, -1, m.column, m.row, z, now, r),
            MouseKind::LeftDown => left_click_post(s1, m.column, m.row, double_click(s, m, now), z, off, now, r),
            MouseKind::RightDown => right_click_post(s1, m.column, m.row, z, off, now, r),
            _ => unchanged(s1, r),
        }
    }
}

/// Handles a mouse event (see `pointer_post`).
pub fn handle_mouse_event(s: AppState, m: MouseEvent, area: Rect, off: ListOffsets, now: u64) -> (r: Outcome)
    ensures
        pointer_post(s, m, area, off, now, r),
{
    proof {
        reveal(pointer_post);
    }
    let double = match s.last_click {
        Some((t, c, rw)) => {
            let elapsed = if now >= t {
                now - t
            } else {
                0
            };
            elapsed < 400 && c == m.column && rw == m.row
        },
        None => false,
    };
    let s1 = if m.kind == MouseKind::LeftDown || m.kind == MouseKind::RightDown {
        AppState { last_click: Some((now, m.column, m.row)), ..s }
    } else {
        s
    };
    if s1.show_help {
        return help_mouse(s1, m);
    }
    if s1.profile_input.show {
        return input_modal_mouse(s1, m, area);
    }
    if s1.tun.show_modal {
        return tun_modal_mouse(s1, m, area);
    }
    let z = compute_layout_zones(area);
    proof {
        assert(z == zones_of(area));
    }
    match m.kind {
        MouseKind::ScrollDown => wheel(s1, 1, m.column, m.row, z, now),
        MouseKind::ScrollUp => wheel(s1, -1, m.column, m.row, z, now),
        MouseKind::LeftDown => left_click(s1, m.column, m.row, double, z, off, now),
        MouseKind::RightDown => right_click(s1, m.column, m.row, z, off, now),
        _ => outcome(s1, Vec::new()),
    }
}


// ---------------------------------------------------------------------------
// Laws
// ---------------------------------------------------------------------------

/// With no dialog open, a wheel step down over the sidebar and one up at the
/// same cell come back to the view one started from.
pub proof fn lemma_sidebar_wheel_roundtrip(
    s: AppState,
    col: u16,
    row: u16,
    area: Rect,
    off: ListOffsets,
    now: u64,
    r1: Outcome,
    r2: Outcome,
)
    requires
        !s.show_help && !s.profile_input.show && !s.tun.show_modal,
        contains(zones_of(area).sidebar, col, row),
        pointer_post(s, MouseEvent { kind: MouseKind::ScrollDown, column: col, row }, area, off, now, r1),
        pointer_post(r1.state, MouseEvent { kind: MouseKind::ScrollUp, column: col, row }, area, off, now, r2),
    ensures
        r1.state.active_tab == crate::state::tab_next(s.active_tab),
        r2.state.active_tab == s.active_tab,
        r2.effects@.len() == 0,
{
    reveal(pointer_post);
    reveal(wheel_post);
    crate::state::lemma_tab_cycle(s.active_tab);
    let i = tab_index(s.active_tab);
    let j = ((i + 1) % 10) as nat;
    assert(r1.state.active_tab == tab_at(j));
    crate::state::lemma_tab_index_roundtrip(s.active_tab);
    assert(tab_index(tab_at(j)) == j);
    assert((j - 1) % 10 == i);
}

/// A press is remembered: a second press on the same cell less than 400 ms
/// later counts as a double click, and one on another cell does not.
pub proof fn lemma_press_then_double(s: AppState, m1: MouseEvent, t1: u64, m2: MouseEvent, t2: u64)
    requires
        m1.kind == MouseKind::LeftDown || m1.kind == MouseKind::RightDown,
        t1 <= t2,
    ensures
        double_click(with_press(s, m1, t1), m2, t2) <==> (t2 - t1 < 400 && m2.column == m1.column && m2.row
            == m1.row),
{
}


/// With no dialog open on the proxies view, a left click on visible row `k`
/// of the node list, whose first visible row shows node `off.nodes`, selects
/// node `off.nodes + k` when the list has that many nodes, and focuses the
/// node pane; a click that also applies the node applies that one.
pub proof fn lemma_node_click_selects_row(
    s: AppState,
    m: MouseEvent,
    area: Rect,
    off: ListOffsets,
    now: u64,
    r: Outcome,
    k: int,
)
    requires
        pointer_post(s, m, area, off, now, r),
        !s.show_help,
        !s.profile_input.show,
        !s.tun.show_modal,
        s.active_tab == Tab::Proxies,
        m.kind == MouseKind::LeftDown,
        !contains(zones_of(area).sidebar, m.column, m.row),
        !contains(zones_of(area).header, m.column, m.row),
        !contains(zones_of(area).footer, m.column, m.row),
        contains(zones_of(area).content, m.column, m.row),
        !contains(proxy_panes(zones_of(area).content)[0], m.column, m.row),
        contains(proxy_panes(zones_of(area).content)[1], m.column, m.row),
        0 <= k,
        m.row == node_list(s, proxy_panes(zones_of(area).content)[1]).y + 1 + k,
        m.row + 1 < node_list(s, proxy_panes(zones_of(area).content)[1]).y + node_list(
            s,
            proxy_panes(zones_of(area).content)[1],
        ).height,
        off.nodes + k < spec_filtered_group_nodes(s).len(),
        off.nodes + k <= usize::MAX,
    ensures
        r.state.selected_node_idx == off.nodes + k,
        r.state.proxy_sub_focus == ProxySubFocus::Nodes,
        r.state.active_tab == Tab::Proxies,
{
    reveal(pointer_post);
    reveal(proxies_click_post);
    reveal(confirm_post);
    let s1 = with_press(s, m, now);
    let s2 = AppState { focus_zone: FocusZone::Workspace, ..s1 };
    assert(spec_filtered_group_nodes(s2) == spec_filtered_group_nodes(s));
    let list = node_list(s, proxy_panes(zones_of(area).content)[1]);
    assert(node_list(s2, proxy_panes(zones_of(area).content)[1]) == list);
    assert(list_row(list, 1, m.row) == Some(k as usize));
    assert(at_offset(off.nodes, k as usize, spec_filtered_group_nodes(s).len()) == Some(
        (off.nodes + k) as usize,
    ));
}

} // verus!
