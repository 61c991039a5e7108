//! The tray applet: its icon, tooltip and menu, what a click asks for, and the state
//! that the applet's event loop keeps.
use vstd::prelude::*;
use vstd::string::*;
use std::collections::HashSet;
use crate::mode::AppletMode;
use crate::daemon::{GpuInfo, gpu_position, has_gpu, is_first_with_id};
use crate::text::{join_path, join_path_spec};

verus! {

broadcast use vstd::std_specs::hash::group_hash_axioms;

/// What the tray asks its event loop to do.
pub enum TrayAction {
    /// Open (or raise) the settings window.
    OpenWindow,
    /// Ask the daemon for the mode with this number.
    SetMode(u32),
    /// Block (`true`) or unblock (`false`) the GPU with this id.
    ToggleGpuBlock(u32, bool),
    /// Show a desktop notification with this text and icon.
    Notify(String, String),
    /// End the program.
    Quit,
}

/// The tray item's id.
pub fn tray_id() -> (s: String)
    ensures
        s@ == "me.edyan.cardwiretray"@,
{
    String::from_str("me.edyan.cardwiretray")
}

/// The tray item's title.
pub fn tray_title() -> (s: String)
    ensures
        s@ == "Cardwire"@,
{
    String::from_str("Cardwire")
}

/// The base name of the icon of mode number `mode`, for the modes that have one.
pub open spec fn mode_icon_base_spec(mode: u32) -> Option<Seq<char>> {
    if mode == 0 {
        Some("integrated"@)
    } else if mode == 1 {
        Some("hybrid"@)
    } else if mode == 2 {
        Some("manual"@)
    } else {
        None
    }
}

/// The base name of the icon of mode number `mode`: Integrated, Hybrid and Manual have
/// their own icons.
pub fn mode_icon_base(mode: u32) -> (b: Option<&'static str>)
    ensures
        match b {
            Some(s) => mode_icon_base_spec(mode) == Some(s@),
            None => mode_icon_base_spec(mode) is None,
        },
{
    if mode == 0 {
        Some("integrated")
    } else if mode == 1 {
        Some("hybrid")
    } else if mode == 2 {
        Some("manual")
    } else {
        None
    }
}

/// The themed icon shown for modes without an icon of their own.
pub fn fallback_icon_name() -> (s: String)
    ensures
        s@ == "preferences-system-windows"@,
{
    String::from_str("preferences-system-windows")
}

/// The name of the installed themed icon with base name `base`.
pub open spec fn themed_icon_name_spec(base: Seq<char>) -> Seq<char> {
    "me.edyan.cardwiretray-"@ + base
}

/// Where a development checkout keeps the icon with base name `base`: `icons/<base>.svg`
/// under the working directory `cwd` (empty when the working directory is unknown).
pub open spec fn dev_icon_path_spec(cwd: Seq<char>, base: Seq<char>) -> Seq<char> {
    join_path_spec(join_path_spec(cwd, "icons"@), base + ".svg"@)
}

/// The path of a development checkout's icon with base name `base` under `cwd`.
pub fn dev_icon_path(cwd: &str, base: &str) -> (p: String)
    ensures
        p@ == dev_icon_path_spec(cwd@, base@),
{
    let dir = join_path(cwd, "icons");
    let mut file = String::from_str(base);
    file.append(".svg");
    join_path(dir.as_str(), file.as_str())
}

/// The icon to use for base name `base`: the development checkout's file at
/// `dev_path` when it exists, else the installed themed icon.
pub fn pick_icon(base: &str, dev_path: String, dev_exists: bool) -> (icon: String)
    ensures
        icon@ == (if dev_exists { dev_path@ } else { themed_icon_name_spec(base@) }),
{
    if dev_exists {
        dev_path
    } else {
        let mut s = String::from_str("me.edyan.cardwiretray-");
        s.append(base);
        s
    }
}

/// The mode a left click on the tray icon asks for: Hybrid from Integrated, and
/// Integrated from any other mode.
pub open spec fn toggle_target_spec(mode: u32) -> u32 {
    if mode == 0 { 1 } else { 0 }
}

/// The mode a left click asks for, given the current mode number.
pub fn toggle_target(mode: u32) -> (m: u32)
    ensures
        m == toggle_target_spec(mode),
{
    if mode == 0 { 1 } else { 0 }
}

/// The notification text announcing a switch to mode number `new_mode` (0 or 1).
pub open spec fn switch_notice_spec(new_mode: u32) -> Seq<char> {
    "Switched to "@ + (if new_mode == 0 { "Integrated"@ } else { "Hybrid"@ }) + " mode"@
}

/// What a left click asks for in mode `mode`: a notification of the switch, shown with
/// `icon` (the icon of the new mode), then the switch itself.
pub fn activation_actions(mode: u32, icon: String) -> (actions: Vec<TrayAction>)
    ensures
        actions@.len() == 2,
        actions@[0] matches TrayAction::Notify(text, i)
            && text@ == switch_notice_spec(toggle_target_spec(mode)) && i == icon,
        actions@[1] matches TrayAction::SetMode(m) && m == toggle_target_spec(mode),
{
    let new_mode = toggle_target(mode);
    let mut text = String::from_str("Switched to ");
    if new_mode == 0 {
        text.append("Integrated");
    } else {
        text.append("Hybrid");
    }
    text.append(" mode");
    let mut actions: Vec<TrayAction> = Vec::new();
    actions.push(TrayAction::Notify(text, icon));
    actions.push(TrayAction::SetMode(new_mode));
    actions
}

/// Two left clicks come back to the mode they started from, for Integrated and Hybrid,
/// and a click always lands on one of the two.
pub proof fn lemma_toggle_target_round_trip(mode: u32)
    ensures
        toggle_target_spec(mode) == 0 || toggle_target_spec(mode) == 1,
        mode <= 1 ==> toggle_target_spec(toggle_target_spec(mode)) == mode,
        toggle_target_spec(mode) != mode || mode > 1,
        mode_icon_base_spec(toggle_target_spec(mode)) is Some,
{
}

/// From Integrated a left click asks for Hybrid, from every other mode for
/// Integrated, and the notice names the mode asked for.
pub proof fn lemma_left_click_asks_for_the_other_mode(mode: u32)
    ensures
        mode == AppletMode::Integrated.spec_value() ==> toggle_target_spec(mode) == AppletMode::Hybrid.spec_value(),
        mode != AppletMode::Integrated.spec_value() ==> toggle_target_spec(mode)
            == AppletMode::Integrated.spec_value(),
        AppletMode::from_value_spec(toggle_target_spec(mode)) matches Some(m)
            && switch_notice_spec(toggle_target_spec(mode)) == "Switched to "@ + m.label_spec() + " mode"@,
{
}

/// The tooltip's title.
pub fn tooltip_title() -> (s: String)
    ensures
        s@ == "Cardwire GPUs"@,
{
    String::from_str("Cardwire GPUs")
}

/// The mark shown for a yes/no column of the tooltip.
pub open spec fn check_mark(b: bool) -> Seq<char> {
    if b { "✅"@ } else { "❌"@ }
}

/// The tooltip line of one GPU: name, power state, default, blocked.
pub open spec fn tooltip_line(g: GpuInfo) -> Seq<char> {
    "\n"@ + g.name@ + " | "@ + g.power_state@ + " | "@ + check_mark(g.is_default) + " | "@
        + check_mark(g.blocked)
}

/// A GPU's tooltip line shows its name and power state, then ✅ in the Default
/// column exactly when it is the default GPU and ✅ in the Blocked column exactly
/// when it is blocked (❌ otherwise); and the tooltip grows by one such line per GPU,
/// after the header.
pub proof fn lemma_tooltip_lines_mark_each_gpu(gpus: Seq<GpuInfo>, g: GpuInfo)
    ensures
        tooltip_line(g) == "\n"@ + g.name@ + " | "@ + g.power_state@ + " | "@
            + (if g.is_default { "✅"@ } else { "❌"@ }) + " | "@
            + (if g.blocked { "✅"@ } else { "❌"@ }),
        tooltip_text_spec(Seq::empty()) == "Name | Power state | Default | Blocked"@,
        tooltip_text_spec(gpus.push(g)) == tooltip_text_spec(gpus) + tooltip_line(g),
{
    assert(gpus.push(g).drop_last() =~= gpus);
    assert(tooltip_text_spec(Seq::empty()) =~= "Name | Power state | Default | Blocked"@);
    assert(tooltip_text_spec(gpus.push(g)) =~= tooltip_text_spec(gpus) + tooltip_line(g));
}

/// The tooltip lines of `gpus`, in order.
pub open spec fn tooltip_lines(gpus: Seq<GpuInfo>) -> Seq<char>
    decreases gpus.len(),
{
    if gpus.len() == 0 {
        Seq::empty()
    } else {
        tooltip_lines(gpus.drop_last()) + tooltip_line(gpus.last())
    }
}

/// The tooltip text: a header, then a line per GPU.
pub open spec fn tooltip_text_spec(gpus: Seq<GpuInfo>) -> Seq<char> {
    "Name | Power state | Default | Blocked"@ + tooltip_lines(gpus)
}

/// The mark for `b`.
fn check_mark_text(b: bool) -> (s: &'static str)
    ensures
        s@ == check_mark(b),
{
    if b { "✅" } else { "❌" }
}

/// The tooltip line of `g`.
fn tooltip_line_text(g: &GpuInfo) -> (s: String)
    ensures
        s@ == tooltip_line(*g),
{
    let mut s = String::from_str("\n");
    s.append(g.name.as_str());
    s.append(" | ");
    s.append(g.power_state.as_str());
    s.append(" | ");
    s.append(check_mark_text(g.is_default));
    s.append(" | ");
    s.append(check_mark_text(g.blocked));
    s
}

/// The tooltip text for `gpus`.
pub fn tooltip_text(gpus: &Vec<GpuInfo>) -> (s: String)
    ensures
        s@ == tooltip_text_spec(gpus@),
{
    let mut s = String::from_str("Name | Power state | Default | Blocked");
    let mut i: usize = 0;
    while i < gpus.len()
        invariant
            i <= gpus@.len(),
            s@ == tooltip_text_spec(gpus@.subrange(0, i as int)),
        decreases gpus@.len() - i,
    {
        let g = &gpus[i];
        let line = tooltip_line_text(g);
        s.append(line.as_str());
        proof {
            let prefix = gpus@.subrange(0, i + 1);
            assert(prefix.drop_last() =~= gpus@.subrange(0, i as int));
            assert(prefix.last() == *g);
        }
        i = i + 1;
    }
    assert(gpus@.subrange(0, gpus@.len() as int) =~= gpus@);
    s
}

/// One choice of the tray menu's mode group.
pub struct ModeOption {
    pub label: String,
    /// The base name of the choice's icon.
    pub icon_base: String,
}

/// One GPU of the tray menu's "Disabled GPUs" list: checked while the GPU is enabled.
pub struct GpuCheck {
    pub gpu_id: u32,
    pub label: String,
    pub checked: bool,
}

/// An entry of the tray menu.
pub enum MenuEntry {
    /// The radio group of modes, with the index of the chosen one.
    ModeRadio { selected: usize, options: Vec<ModeOption> },
    Separator,
    /// The submenu of GPUs that can be disabled.
    GpuSubmenu { label: String, icon_base: String, entries: Vec<GpuCheck> },
    /// The entry that ends the program.
    Quit { label: String, icon_name: String },
}

/// A mode choice as plain text: its label and its icon's base name.
pub open spec fn mode_option_view(o: ModeOption) -> (Seq<char>, Seq<char>) {
    (o.label@, o.icon_base@)
}

/// The choices of the mode group, in order.
pub open spec fn mode_options_spec() -> Seq<(Seq<char>, Seq<char>)> {
    seq![
        ("Integrated Mode"@, "integrated"@),
        ("Hybrid Mode"@, "hybrid"@),
        ("Manual Mode"@, "manual"@),
    ]
}

/// A GPU entry as plain values: id, label, checked.
pub open spec fn gpu_check_view(c: GpuCheck) -> (u32, Seq<char>, bool) {
    (c.gpu_id, c.label@, c.checked)
}

/// The GPU entries for `gpus`: each GPU that is not the default one, in order, labelled
/// with its name and checked when it is not blocked.
pub open spec fn gpu_checks_spec(gpus: Seq<GpuInfo>) -> Seq<(u32, Seq<char>, bool)>
    decreases gpus.len(),
{
    if gpus.len() == 0 {
        Seq::empty()
    } else {
        let prev = gpu_checks_spec(gpus.drop_last());
        let g = gpus.last();
        if g.is_default {
            prev
        } else {
            prev.push((g.id, g.name@, !g.blocked))
        }
    }
}

/// Whether a GPU can be disabled from the tray menu: it is not the default one.
pub open spec fn is_blockable(g: GpuInfo) -> bool {
    !g.is_default
}

/// The "Disabled GPUs" entries are the GPUs that are not the default one, in order,
/// each named after its GPU, for its id, and checked exactly when it is not blocked;
/// there are some exactly when such a GPU exists, and the list is offered only in
/// Manual mode.
pub proof fn lemma_gpu_checks_are_the_blockable_gpus(gpus: Seq<GpuInfo>)
    ensures
        gpu_checks_spec(gpus) == gpus.filter(|g: GpuInfo| is_blockable(g)).map_values(
            |g: GpuInfo| (g.id, g.name@, !g.blocked),
        ),
        gpu_checks_spec(gpus).len() > 0 <==> exists|k: int| 0 <= k < gpus.len() && !(#[trigger] gpus[k]).is_default,
        forall|mode: u32| #[trigger] menu_lists_gpus(mode, gpus) ==> mode == 2,
    decreases gpus.len(),
{
    let f = |g: GpuInfo| (g.id, g.name@, !g.blocked);
    let p = |g: GpuInfo| is_blockable(g);
    reveal_with_fuel(Seq::filter, 1);
    if gpus.len() > 0 {
        let rest = gpus.drop_last();
        lemma_gpu_checks_are_the_blockable_gpus(rest);
        let x = gpus.last();
        if is_blockable(x) {
            assert(rest.filter(p).push(x).map_values(f) =~= rest.filter(p).map_values(f).push(f(x)));
            assert(gpus[gpus.len() - 1] == x);
        } else {
            assert forall|k: int| 0 <= k < gpus.len() && !(#[trigger] gpus[k]).is_default
                implies exists|j: int| 0 <= j < rest.len() && !(#[trigger] rest[j]).is_default by {
                assert(k < gpus.len() - 1);
                assert(rest[k] == gpus[k]);
            }
        }
        assert forall|j: int| 0 <= j < rest.len() && !(#[trigger] rest[j]).is_default
            implies exists|k: int| 0 <= k < gpus.len() && !(#[trigger] gpus[k]).is_default by {
            assert(gpus[j] == rest[j]);
        }
    } else {
        assert(gpus.filter(p).map_values(f) =~= Seq::<(u32, Seq<char>, bool)>::empty());
    }
}

/// The index of the chosen mode: the mode itself for Integrated, Hybrid and Manual,
/// and the first choice otherwise.
pub open spec fn selected_mode_index(mode: u32) -> usize {
    if mode <= 2 { mode as usize } else { 0 }
}

/// Whether the menu lists GPUs to disable: only in Manual mode, and only when there is
/// a GPU other than the default one.
pub open spec fn menu_lists_gpus(mode: u32, gpus: Seq<GpuInfo>) -> bool {
    mode == 2 && gpu_checks_spec(gpus).len() > 0
}

/// The mode group's choices.
fn mode_options() -> (options: Vec<ModeOption>)
    ensures
        options@.map_values(|o: ModeOption| mode_option_view(o)) == mode_options_spec(),
{
    let mut options: Vec<ModeOption> = Vec::new();
    options.push(ModeOption {
        label: String::from_str("Integrated Mode"),
        icon_base: String::from_str("integrated"),
    });
    options.push(ModeOption {
        label: String::from_str("Hybrid Mode"),
        icon_base: String::from_str("hybrid"),
    });
    options.push(ModeOption {
        label: String::from_str("Manual Mode"),
        icon_base: String::from_str("manual"),
    });
    assert(options@.map_values(|o: ModeOption| mode_option_view(o)) =~= mode_options_spec());
    options
}

/// The GPU entries for `gpus`.
fn gpu_checks(gpus: &Vec<GpuInfo>) -> (entries: Vec<GpuCheck>)
    ensures
        entries@.map_values(|c: GpuCheck| gpu_check_view(c)) == gpu_checks_spec(gpus@),
{
    let mut entries: Vec<GpuCheck> = Vec::new();
    let mut i: usize = 0;
    while i < gpus.len()
        invariant
            i <= gpus@.len(),
            entries@.map_values(|c: GpuCheck| gpu_check_view(c))
                == gpu_checks_spec(gpus@.subrange(0, i as int)),
        decreases gpus@.len() - i,
    {
        let g = &gpus[i];
        let ghost before = entries@;
        if !g.is_default {
            entries.push(GpuCheck { gpu_id: g.id, label: g.name.clone(), checked: !g.blocked });
        }
        proof {
            let prefix = gpus@.subrange(0, i + 1);
            assert(prefix.drop_last() =~= gpus@.subrange(0, i as int));
            assert(prefix.last() == *g);
            if !g.is_default {
                assert(entries@.map_values(|c: GpuCheck| gpu_check_view(c))
                    =~= before.map_values(|c: GpuCheck| gpu_check_view(c)).push(
                    (g.id, g.name@, !g.blocked),
                ));
            } else {
                assert(entries@ == before);
            }
        }
        i = i + 1;
    }
    assert(gpus@.subrange(0, gpus@.len() as int) =~= gpus@);
    entries
}

/// The tray menu in mode `mode` with `gpus`: the mode group; in Manual mode, when
/// some GPU is not the default one, a separator and the "Disabled GPUs" submenu; then a
/// separator and Quit.
pub fn tray_menu(mode: u32, gpus: &Vec<GpuInfo>) -> (items: Vec<MenuEntry>)
    ensures
        items@.len() == (if menu_lists_gpus(mode, gpus@) { 5int } else { 3int }),
        items@[0] matches MenuEntry::ModeRadio { selected, options }
            && selected == selected_mode_index(mode)
            && options@.map_values(|o: ModeOption| mode_option_view(o)) == mode_options_spec(),
        menu_lists_gpus(mode, gpus@) ==> items@[1] is Separator,
        menu_lists_gpus(mode, gpus@) ==> (items@[2] matches MenuEntry::GpuSubmenu {
            label,
            icon_base,
            entries,
        } && label@ == "Disabled GPUs"@ && icon_base@ == "gpu"@
            && entries@.map_values(|c: GpuCheck| gpu_check_view(c)) == gpu_checks_spec(gpus@)),
        items@[items@.len() - 2] is Separator,
        items@[items@.len() - 1] matches MenuEntry::Quit { label, icon_name }
            && label@ == "Quit"@ && icon_name@ == "application-exit"@,
        mode != 2 ==> items@.len() == 3,
        forall|i: int| 0 <= i < items@.len() && (#[trigger] items@[i] is GpuSubmenu) ==> mode == 2 && i == 2,
        mode == 2 && (exists|k: int| 0 <= k < gpus@.len() && !(#[trigger] gpus@[k]).is_default)
            ==> items@.len() == 5,
        mode <= 2 ==> (items@[0] matches MenuEntry::ModeRadio { selected, .. } && selected == mode),
{
    proof {
        lemma_gpu_checks_are_the_blockable_gpus(gpus@);
    }
    let mut items: Vec<MenuEntry> = Vec::new();
    let selected: usize = if mode <= 2 { mode as usize } else { 0 };
    items.push(MenuEntry::ModeRadio { selected, options: mode_options() });
    if mode == 2 {
        let entries = gpu_checks(gpus);
        if entries.len() > 0 {
            items.push(MenuEntry::Separator);
            items.push(MenuEntry::GpuSubmenu {
                label: String::from_str("Disabled GPUs"),
                icon_base: String::from_str("gpu"),
                entries,
            });
        }
    } else {
        proof {
            assert(!menu_lists_gpus(mode, gpus@));
        }
    }
    items.push(MenuEntry::Separator);
    items.push(
        MenuEntry::Quit {
            label: String::from_str("Quit"),
            icon_name: String::from_str("application-exit"),
        },
    );
    items
}

/// The chosen entry of the mode group is the current mode whenever it is listed,
/// choosing it asks for that mode again, and each choice shows its mode's icon.
pub proof fn lemma_mode_group_matches_modes(mode: u32)
    ensures
        selected_mode_index(mode) < mode_options_spec().len(),
        mode <= 2 ==> selected_mode_index(mode) as u32 == mode,
        forall|i: int| 0 <= i < mode_options_spec().len()
            ==> mode_icon_base_spec(i as u32) == Some(#[trigger] mode_options_spec()[i].1),
{
}

/// What choosing the mode group's choice `index` asks for: that mode number.
pub fn mode_choice_action(index: usize) -> (a: TrayAction)
    ensures
        a matches TrayAction::SetMode(m) && m == index as u32,
{
    TrayAction::SetMode(index as u32)
}

impl GpuCheck {
    /// What clicking this entry asks for: unchecking a checked (enabled) GPU blocks it,
    /// checking an unchecked one unblocks it.
    pub fn action(&self) -> (a: TrayAction)
        ensures
            a matches TrayAction::ToggleGpuBlock(id, block) && id == self.gpu_id
                && block == self.checked,
    {
        TrayAction::ToggleGpuBlock(self.gpu_id, self.checked)
    }
}

/// What the tray shows: the daemon's mode, its GPUs, and the applet's own version
/// and the newest released one, once known.
pub struct TrayState {
    pub mode: u32,
    pub gpus: Vec<GpuInfo>,
    pub current_version: String,
    pub latest_version: Option<String>,
}

impl TrayState {
    /// The tray's first state: the mode read from the daemon (Integrated when the read
    /// failed), the GPUs found, the version `v<package_version>`, and the newest
    /// release if it could be fetched.
    pub fn new(
        mode_read: Option<u32>,
        gpus: Vec<GpuInfo>,
        package_version: &str,
        latest_version: Option<String>,
    ) -> (t: TrayState)
        ensures
            t.mode == (match mode_read {
                Some(m) => m,
                None => 0,
            }),
            t.gpus == gpus,
            t.current_version@ == "v"@ + package_version@,
            t.latest_version == latest_version,
    {
        let mode = match mode_read {
            Some(m) => m,
            None => 0,
        };
        let mut current_version = String::from_str("v");
        current_version.append(package_version);
        TrayState { mode, gpus, current_version, latest_version }
    }

    /// Records that the GPU `gpu_id` is now blocked or not: the first GPU with that id
    /// changes, nothing else does.
    pub fn set_gpu_blocked(&mut self, gpu_id: u32, blocked: bool)
        ensures
            final(self).mode == old(self).mode,
            final(self).current_version == old(self).current_version,
            final(self).latest_version == old(self).latest_version,
            !has_gpu(old(self).gpus@, gpu_id) ==> final(self).gpus@ == old(self).gpus@,
            forall|k: int| #[trigger] is_first_with_id(old(self).gpus@, gpu_id, k)
                ==> final(self).gpus@ == old(self).gpus@.update(
                    k,
                    GpuInfo { blocked: blocked, ..old(self).gpus@[k] },
                ),
    {
        if let Some(k) = gpu_position(&self.gpus, gpu_id) {
            let ghost before = self.gpus@;
            let mut g = self.gpus.remove(k);
            g.blocked = blocked;
            self.gpus.insert(k, g);
            proof {
                assert(self.gpus@ =~= before.update(k as int, GpuInfo { blocked: blocked, ..before[k as int] }));
                assert forall|j: int| #[trigger] is_first_with_id(before, gpu_id, j) implies j == k by {
                    if j < k {
                        assert(before[j].id != gpu_id);
                    } else if j > k {
                        assert(before[k as int].id != gpu_id);
                    }
                }
            }
        }
    }

    /// Records the outcome of asking the daemon to block (or unblock) the GPU
    /// `gpu_id`: only a request that succeeded changes the tray, and then as
    /// `set_gpu_blocked` does.
    pub fn apply_block_outcome(&mut self, gpu_id: u32, blocked: bool, succeeded: bool)
        ensures
            !succeeded ==> *final(self) == *old(self),
            final(self).mode == old(self).mode,
            final(self).current_version == old(self).current_version,
            final(self).latest_version == old(self).latest_version,
            !has_gpu(old(self).gpus@, gpu_id) ==> final(self).gpus@ == old(self).gpus@,
            forall|k: int| #[trigger] is_first_with_id(old(self).gpus@, gpu_id, k)
                ==> final(self).gpus@ == (if succeeded {
                    old(self).gpus@.update(k, GpuInfo { blocked: blocked, ..old(self).gpus@[k] })
                } else {
                    old(self).gpus@
                }),
    {
        if succeeded {
            self.set_gpu_blocked(gpu_id, blocked);
        }
    }

    /// Records the new power state of the GPU `gpu_id`: the first GPU with that id
    /// changes, nothing else does.
    pub fn set_gpu_power_state(&mut self, gpu_id: u32, power_state: String)
        ensures
            final(self).mode == old(self).mode,
            final(self).current_version == old(self).current_version,
            final(self).latest_version == old(self).latest_version,
            !has_gpu(old(self).gpus@, gpu_id) ==> final(self).gpus@ == old(self).gpus@,
            forall|k: int| #[trigger] is_first_with_id(old(self).gpus@, gpu_id, k)
                ==> final(self).gpus@ == old(self).gpus@.update(
                    k,
                    GpuInfo { power_state: power_state, ..old(self).gpus@[k] },
                ),
    {
        if let Some(k) = gpu_position(&self.gpus, gpu_id) {
            let ghost before = self.gpus@;
            let ghost new_state = power_state;
            let mut g = self.gpus.remove(k);
            g.power_state = power_state;
            self.gpus.insert(k, g);
            proof {
                assert(self.gpus@ =~= before.update(k as int, GpuInfo { power_state: new_state, ..before[k as int] }));
                assert forall|j: int| #[trigger] is_first_with_id(before, gpu_id, j) implies j == k by {
                    if j < k {
                        assert(before[j].id != gpu_id);
                    } else if j > k {
                        assert(before[k as int].id != gpu_id);
                    }
                }
            }
        }
    }

    /// Records the outcome of a check for a newer release: a found version replaces
    /// the known one, a failed check keeps it.
    pub fn note_latest_version(&mut self, latest: Option<String>)
        ensures
            final(self).mode == old(self).mode,
            final(self).gpus == old(self).gpus,
            final(self).current_version == old(self).current_version,
            final(self).latest_version == (match latest {
                Some(v) => Some(v),
                None => old(self).latest_version,
            }),
    {
        if let Some(v) = latest {
            self.latest_version = Some(v);
        }
    }
}

/// The ids among `ids` that get a new power-state listener when `watched` already have
/// one: each id that is neither watched nor seen earlier in `ids`, in order.
pub open spec fn fresh_ids_spec(watched: Set<u32>, ids: Seq<u32>) -> Seq<u32>
    decreases ids.len(),
{
    if ids.len() == 0 {
        Seq::empty()
    } else {
        let prev = fresh_ids_spec(watched, ids.drop_last());
        let x = ids.last();
        if watched.contains(x) || ids.drop_last().contains(x) {
            prev
        } else {
            prev.push(x)
        }
    }
}

/// The GPUs whose power-state changes are being listened to.
pub struct PowerWatch {
    watched: HashSet<u32>,
}

impl View for PowerWatch {
    type V = Set<u32>;

    closed spec fn view(&self) -> Set<u32> {
        self.watched@
    }
}

impl PowerWatch {
    /// No GPU is watched yet.
    pub fn new() -> (w: PowerWatch)
        ensures
            w@ == Set::<u32>::empty(),
    {
        PowerWatch { watched: HashSet::new() }
    }

    /// Marks every id of `ids` as watched and returns the ones that were not: those
    /// need a listener started.
    pub fn watch_new(&mut self, ids: &Vec<u32>) -> (fresh: Vec<u32>)
        ensures
            forall|x: u32| #[trigger] final(self)@.contains(x) <==> old(self)@.contains(x) || ids@.contains(x),
            fresh@ == fresh_ids_spec(old(self)@, ids@),
    {
        let ghost start = self@;
        let mut fresh: Vec<u32> = Vec::new();
        let mut i: usize = 0;
        while i < ids.len()
            invariant
                i <= ids@.len(),
                forall|x: u32| #[trigger] self@.contains(x) <==> start.contains(x) || ids@.subrange(0, i as int).contains(x),
                fresh@ == fresh_ids_spec(start, ids@.subrange(0, i as int)),
            decreases ids@.len() - i,
        {
            let x = ids[i];
            let ghost prefix = ids@.subrange(0, i as int);
            let ghost next = ids@.subrange(0, i + 1);
            assert(next.drop_last() =~= prefix);
            assert(next.last() == x);
            let ghost old_view = self@;
            assert(old_view.contains(x) <==> start.contains(x) || prefix.contains(x));
            let inserted = self.watched.insert(x);
            assert(self@ == old_view.insert(x));
            if inserted {
                fresh.push(x);
            }
            assert forall|y: u32| #[trigger] self@.contains(y) <==> start.contains(y) || next.contains(y) by {
                assert(old_view.contains(y) <==> start.contains(y) || prefix.contains(y));
                if next.contains(y) && !prefix.contains(y) {
                    let k = choose|k: int| 0 <= k < next.len() && next[k] == y;
                    if k < i {
                        assert(prefix[k] == y);
                    }
                }
                if prefix.contains(y) {
                    let k = choose|k: int| 0 <= k < prefix.len() && prefix[k] == y;
                    assert(next[k] == y);
                }
                if y == x {
                    assert(next[i as int] == y);
                }
            }
            i = i + 1;
        }
        assert(ids@.subrange(0, ids@.len() as int) =~= ids@);
        fresh
    }
}

/// Each listener started is for a GPU not watched before, no GPU gets two, and every
/// GPU of `ids` that was not watched gets one.
pub proof fn lemma_fresh_ids_start_each_listener_once(watched: Set<u32>, ids: Seq<u32>)
    ensures
        fresh_ids_spec(watched, ids).no_duplicates(),
        forall|x: u32| #[trigger] fresh_ids_spec(watched, ids).contains(x)
            <==> ids.contains(x) && !watched.contains(x),
    decreases ids.len(),
{
    if ids.len() > 0 {
        let prev_ids = ids.drop_last();
        lemma_fresh_ids_start_each_listener_once(watched, prev_ids);
        let prev = fresh_ids_spec(watched, prev_ids);
        let x = ids.last();
        assert forall|y: u32| #[trigger] ids.contains(y) <==> prev_ids.contains(y) || y == x by {
            if ids.contains(y) {
                let k = choose|k: int| 0 <= k < ids.len() && ids[k] == y;
                if k < ids.len() - 1 {
                    assert(prev_ids[k] == y);
                }
            }
            if prev_ids.contains(y) {
                let k = choose|k: int| 0 <= k < prev_ids.len() && prev_ids[k] == y;
                assert(ids[k] == y);
            }
            if y == x {
                assert(ids[ids.len() - 1] == y);
            }
        }
        if !(watched.contains(x) || prev_ids.contains(x)) {
            let cur = prev.push(x);
            assert forall|y: u32| #[trigger] cur.contains(y) <==> prev.contains(y) || y == x by {
                if cur.contains(y) {
                    let k = choose|k: int| 0 <= k < cur.len() && cur[k] == y;
                    if k < prev.len() {
                        assert(prev[k] == y);
                    }
                }
                if prev.contains(y) {
                    let k = choose|k: int| 0 <= k < prev.len() && prev[k] == y;
                    assert(cur[k] == y);
                }
                if y == x {
                    assert(cur[cur.len() - 1] == y);
                }
            }
            assert forall|a: int, b: int| 0 <= a < cur.len() && 0 <= b < cur.len() && a != b
                implies cur[a] != cur[b] by {
                if a == cur.len() - 1 {
                    assert(prev.contains(cur[b]));
                } else if b == cur.len() - 1 {
                    assert(prev.contains(cur[a]));
                }
            }
        }
    }
}

/// The part of a GitHub release that the applet reads.
pub struct GitHubRelease {
    pub tag_name: String,
}

/// The request for the applet's newest release: where it goes and its headers.
pub struct ReleaseRequest {
    pub url: String,
    pub headers: Vec<(String, String)>,
}

/// The request that asks GitHub for the applet's latest release.
pub fn latest_release_request() -> (r: ReleaseRequest)
    ensures
        r.url@ == "https://api.github.com/repos/JuanDelPueblo/cardwire-tray/releases/latest"@,
        r.headers@.map_values(|h: (String, String)| (h.0@, h.1@)) == seq![
            ("Accept"@, "application/vnd.github+json"@),
            ("X-GitHub-Api-Version"@, "2022-11-28"@),
            ("User-Agent"@, "my-rust-app"@),
        ],
{
    let mut headers: Vec<(String, String)> = Vec::new();
    headers.push((String::from_str("Accept"), String::from_str("application/vnd.github+json")));
    headers.push((String::from_str("X-GitHub-Api-Version"), String::from_str("2022-11-28")));
    headers.push((String::from_str("User-Agent"), String::from_str("my-rust-app")));
    assert(headers@.map_values(|h: (String, String)| (h.0@, h.1@)) =~= seq![
        ("Accept"@, "application/vnd.github+json"@),
        ("X-GitHub-Api-Version"@, "2022-11-28"@),
        ("User-Agent"@, "my-rust-app"@),
    ]);
    ReleaseRequest {
        url: String::from_str("https://api.github.com/repos/JuanDelPueblo/cardwire-tray/releases/latest"),
        headers,
    }
}

} // verus!
