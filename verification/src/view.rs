//! What the settings window shows, as plain text: GPU details, open files, mode
//! choices and daemon settings.
use vstd::prelude::*;
use vstd::string::*;
use vstd::relations::{sorted_by, total_ordering};
use crate::daemon::{CardwireConfigState, ConfigKey, GpuInfo, GpuLsof, distinct_paths};
use crate::mode::{AppletMode, all_modes_spec};
use crate::sort::{SortKey, insertion_sort, lemma_map_keeps_multiset};
use crate::text::{
    decimal, decimal_string, join_strings, join_texts, lemma_text_le_antisymmetric,
    lemma_text_le_total, lemma_text_le_transitive, sorted_texts, text_le, text_order, text_view,
};

verus! {

/// `Yes` or `No`.
pub open spec fn yes_no_spec(value: bool) -> Seq<char> {
    if value { "Yes"@ } else { "No"@ }
}

/// `Yes` for true and `No` for false.
pub fn yes_no(value: bool) -> (s: &'static str)
    ensures
        s@ == yes_no_spec(value),
{
    if value { "Yes" } else { "No" }
}

/// A reported text, or `Not reported` in its place when it is empty.
pub open spec fn empty_or_value_spec(value: Seq<char>) -> Seq<char> {
    if value.len() == 0 { "Not reported"@ } else { value }
}

/// `value`, or `Not reported` when it is empty.
pub fn empty_or_value(value: &str) -> (s: String)
    ensures
        s@ == empty_or_value_spec(value@),
{
    if value.is_empty() {
        String::from_str("Not reported")
    } else {
        String::from_str(value)
    }
}

/// The heading of a GPU: `GPU <id>: <name>`.
pub open spec fn gpu_title_spec(g: GpuInfo) -> Seq<char> {
    "GPU "@ + decimal(g.id as nat) + ": "@ + g.name@
}

/// The heading of `g`.
pub fn gpu_title(g: &GpuInfo) -> (s: String)
    ensures
        s@ == gpu_title_spec(*g),
{
    let mut s = String::from_str("GPU ");
    let id = decimal_string(g.id);
    s.append(id.as_str());
    s.append(": ");
    s.append(g.name.as_str());
    s
}

/// The description of a device node with minor `minor` under the path prefix `prefix`:
/// `minor <n> (<prefix><n>)`.
pub open spec fn node_text_spec(prefix: Seq<char>, minor: u32) -> Seq<char> {
    "minor "@ + decimal(minor as nat) + " ("@ + prefix + decimal(minor as nat) + ")"@
}

fn node_text(prefix: &str, minor: u32) -> (s: String)
    ensures
        s@ == node_text_spec(prefix@, minor),
{
    let n = decimal_string(minor);
    let mut s = String::from_str("minor ");
    s.append(n.as_str());
    s.append(" (");
    s.append(prefix);
    s.append(n.as_str());
    s.append(")");
    s
}

/// A row of two texts, as plain text.
pub open spec fn row_view(r: (String, String)) -> (Seq<char>, Seq<char>) {
    (r.0@, r.1@)
}

/// The device details of `g`, as label and value rows.
pub open spec fn gpu_info_rows_spec(g: GpuInfo) -> Seq<(Seq<char>, Seq<char>)> {
    seq![
        ("Name"@, g.name@),
        ("PCI address"@, empty_or_value_spec(g.pci@)),
        ("Render node"@, node_text_spec("/dev/dri/renderD"@, g.render)),
        ("Card node"@, node_text_spec("/dev/dri/card"@, g.card)),
        ("Default display GPU"@, yes_no_spec(g.is_default)),
        ("NVIDIA device"@, yes_no_spec(g.is_nvidia)),
        ("NVIDIA minor"@, empty_or_value_spec(g.nvidia_minor@)),
        ("Power state"@, empty_or_value_spec(g.power_state@)),
        ("Blocked"@, yes_no_spec(g.blocked)),
    ]
}

/// Each row of a GPU's details shows the field it names: the yes/no rows say `Yes`
/// exactly when their own flag is set, the text rows show their text (or `Not
/// reported` when it is empty), and the node rows name the minor and its device path.
pub proof fn lemma_gpu_info_rows_show_their_fields(g: GpuInfo)
    ensures
        gpu_info_rows_spec(g).len() == 9,
        gpu_info_rows_spec(g)[0] == ("Name"@, g.name@),
        gpu_info_rows_spec(g)[1] == ("PCI address"@, if g.pci@.len() == 0 { "Not reported"@ } else { g.pci@ }),
        gpu_info_rows_spec(g)[2] == ("Render node"@, "minor "@ + decimal(g.render as nat) + " ("@ + "/dev/dri/renderD"@
            + decimal(g.render as nat) + ")"@),
        gpu_info_rows_spec(g)[3] == ("Card node"@, "minor "@ + decimal(g.card as nat) + " ("@ + "/dev/dri/card"@
            + decimal(g.card as nat) + ")"@),
        gpu_info_rows_spec(g)[4] == ("Default display GPU"@, if g.is_default { "Yes"@ } else { "No"@ }),
        gpu_info_rows_spec(g)[5] == ("NVIDIA device"@, if g.is_nvidia { "Yes"@ } else { "No"@ }),
        gpu_info_rows_spec(g)[6] == ("NVIDIA minor"@, if g.nvidia_minor@.len() == 0 { "Not reported"@ } else { g.nvidia_minor@ }),
        gpu_info_rows_spec(g)[7] == ("Power state"@, if g.power_state@.len() == 0 { "Not reported"@ } else { g.power_state@ }),
        gpu_info_rows_spec(g)[8] == ("Blocked"@, if g.blocked { "Yes"@ } else { "No"@ }),
{
}

/// The device details of `g`.
pub fn gpu_info_rows(g: &GpuInfo) -> (rows: Vec<(String, String)>)
    ensures
        rows@.map_values(|r: (String, String)| row_view(r)) == gpu_info_rows_spec(*g),
        rows@.len() == 9,
        row_view(rows@[0]) == ("Name"@, g.name@),
        row_view(rows@[1]) == ("PCI address"@, if g.pci@.len() == 0 { "Not reported"@ } else { g.pci@ }),
        row_view(rows@[2]) == ("Render node"@, "minor "@ + decimal(g.render as nat) + " ("@ + "/dev/dri/renderD"@
            + decimal(g.render as nat) + ")"@),
        row_view(rows@[3]) == ("Card node"@, "minor "@ + decimal(g.card as nat) + " ("@ + "/dev/dri/card"@
            + decimal(g.card as nat) + ")"@),
        row_view(rows@[4]) == ("Default display GPU"@, if g.is_default { "Yes"@ } else { "No"@ }),
        row_view(rows@[5]) == ("NVIDIA device"@, if g.is_nvidia { "Yes"@ } else { "No"@ }),
        row_view(rows@[6]) == ("NVIDIA minor"@, if g.nvidia_minor@.len() == 0 { "Not reported"@ } else { g.nvidia_minor@ }),
        row_view(rows@[7]) == ("Power state"@, if g.power_state@.len() == 0 { "Not reported"@ } else { g.power_state@ }),
        row_view(rows@[8]) == ("Blocked"@, if g.blocked { "Yes"@ } else { "No"@ }),
{
    let mut rows: Vec<(String, String)> = Vec::new();
    rows.push((String::from_str("Name"), g.name.clone()));
    rows.push((String::from_str("PCI address"), empty_or_value(g.pci.as_str())));
    rows.push((String::from_str("Render node"), node_text("/dev/dri/renderD", g.render)));
    rows.push((String::from_str("Card node"), node_text("/dev/dri/card", g.card)));
    rows.push((String::from_str("Default display GPU"), String::from_str(yes_no(g.is_default))));
    rows.push((String::from_str("NVIDIA device"), String::from_str(yes_no(g.is_nvidia))));
    rows.push((String::from_str("NVIDIA minor"), empty_or_value(g.nvidia_minor.as_str())));
    rows.push((String::from_str("Power state"), empty_or_value(g.power_state.as_str())));
    rows.push((String::from_str("Blocked"), String::from_str(yes_no(g.blocked))));
    assert(rows@.map_values(|r: (String, String)| row_view(r)) =~= gpu_info_rows_spec(*g));
    rows
}

/// What a device node's row says of the processes holding it: their names in text
/// order, separated by `, `, or a notice when there are none.
pub open spec fn process_text_spec(processes: Seq<String>) -> Seq<char> {
    if processes.len() == 0 {
        "No process names reported"@
    } else {
        join_texts(processes.map_values(|s: String| text_view(s)).sort_by(text_order()), ", "@)
    }
}

/// The process column of a device node's row.
pub fn process_text(processes: &Vec<String>) -> (s: String)
    ensures
        s@ == process_text_spec(processes@),
{
    if processes.len() == 0 {
        String::from_str("No process names reported")
    } else {
        let sorted = sorted_texts(processes);
        join_strings(&sorted, ", ")
    }
}

/// Order of rows: by first column, then by second. The device nodes of a GPU are
/// distinct, so their rows are in order of device node.
pub open spec fn row_le(a: (Seq<char>, Seq<char>), b: (Seq<char>, Seq<char>)) -> bool {
    if a.0 == b.0 {
        text_le(a.1, b.1)
    } else {
        text_le(a.0, b.0)
    }
}

/// Row order as a relation.
pub open spec fn row_order() -> spec_fn((Seq<char>, Seq<char>), (Seq<char>, Seq<char>)) -> bool {
    |a: (Seq<char>, Seq<char>), b: (Seq<char>, Seq<char>)| row_le(a, b)
}

proof fn lemma_row_le_total(a: (Seq<char>, Seq<char>), b: (Seq<char>, Seq<char>))
    ensures
        row_le(a, b) || row_le(b, a),
{
    lemma_text_le_total(a.0, b.0);
    lemma_text_le_total(a.1, b.1);
}

proof fn lemma_row_le_transitive(
    a: (Seq<char>, Seq<char>),
    b: (Seq<char>, Seq<char>),
    c: (Seq<char>, Seq<char>),
)
    requires
        row_le(a, b),
        row_le(b, c),
    ensures
        row_le(a, c),
{
    if a.0 == b.0 && b.0 == c.0 {
        lemma_text_le_transitive(a.1, b.1, c.1);
    } else if a.0 == b.0 {
    } else if b.0 == c.0 {
    } else {
        lemma_text_le_transitive(a.0, b.0, c.0);
        if a.0 == c.0 {
            lemma_text_le_antisymmetric(a.0, b.0);
        }
    }
}

proof fn lemma_row_order_is_total()
    ensures
        total_ordering(row_order()),
{
    let r = row_order();
    assert forall|a: (Seq<char>, Seq<char>)| #[trigger] r(a, a) by {
        lemma_text_le_total(a.1, a.1);
    }
    assert forall|a: (Seq<char>, Seq<char>), b: (Seq<char>, Seq<char>)|
        #[trigger] r(a, b) && #[trigger] r(b, a) implies a == b by {
        if a.0 == b.0 {
            lemma_text_le_antisymmetric(a.1, b.1);
        } else {
            lemma_text_le_antisymmetric(a.0, b.0);
        }
    }
    assert forall|a: (Seq<char>, Seq<char>), b: (Seq<char>, Seq<char>), c: (Seq<char>, Seq<char>)|
        #[trigger] r(a, b) && #[trigger] r(b, c) implies r(a, c) by {
        lemma_row_le_transitive(a, b, c);
    }
    assert forall|a: (Seq<char>, Seq<char>), b: (Seq<char>, Seq<char>)|
        #[trigger] r(a, b) || #[trigger] r(b, a) by {
        lemma_row_le_total(a, b);
    }
}

impl SortKey for (String, String) {
    open spec fn key_le(&self, other: &Self) -> bool {
        row_le(row_view(*self), row_view(*other))
    }

    proof fn lemma_key_total(a: &Self, b: &Self) {
        lemma_row_le_total(row_view(*a), row_view(*b));
    }

    proof fn lemma_key_transitive(a: &Self, b: &Self, c: &Self) {
        lemma_row_le_transitive(row_view(*a), row_view(*b), row_view(*c));
    }

    fn key_le_exec(&self, other: &Self) -> (r: bool) {
        if crate::text::text_equal(self.0.as_str(), other.0.as_str()) {
            crate::text::text_less_eq(self.1.as_str(), other.1.as_str())
        } else {
            crate::text::text_less_eq(self.0.as_str(), other.0.as_str())
        }
    }
}

/// The row of one device node: its path and its process column.
pub open spec fn lsof_row_spec(entry: (String, Vec<String>)) -> (Seq<char>, Seq<char>) {
    (entry.0@, process_text_spec(entry.1@))
}

/// The open-files section of a GPU.
pub enum LsofSection {
    /// Nothing holds the GPU open.
    Notice(String),
    /// A header row, then a row per device node.
    Table(Vec<(String, String)>),
}

/// Whether `section` is the open-files section for `lsof`: a notice when nothing is
/// open, else the header `Device node` / `Applications` and a row per device node in
/// order of path.
pub open spec fn is_lsof_section(section: LsofSection, lsof: Seq<(String, Vec<String>)>) -> bool {
    &&& lsof.len() == 0 ==> (section matches LsofSection::Notice(text)
        && text@ == "No applications currently reported by lsof."@)
    &&& lsof.len() > 0 ==> (section matches LsofSection::Table(rows)
        && rows@.len() == lsof.len() + 1
        && row_view(rows@[0]) == ("Device node"@, "Applications"@)
        && rows@.skip(1).map_values(|r: (String, String)| row_view(r))
            == lsof.map_values(|e: (String, Vec<String>)| lsof_row_spec(e)).sort_by(row_order())
        && (distinct_paths(lsof) ==> forall|i: int, j: int| 1 <= i < j < rows@.len()
            ==> text_le((#[trigger] rows@[i]).0@, (#[trigger] rows@[j]).0@)
                && rows@[i].0@ != rows@[j].0@))
}

/// Rows of device nodes listed once each, in row order, ascend strictly by device node.
proof fn lemma_distinct_rows_ascend(
    lsof: Seq<(String, Vec<String>)>,
    got: Seq<(Seq<char>, Seq<char>)>,
)
    requires
        distinct_paths(lsof),
        sorted_by(got, row_order()),
        got.to_multiset() == lsof.map_values(|e: (String, Vec<String>)| lsof_row_spec(e)).to_multiset(),
    ensures
        forall|i: int, j: int| 0 <= i < j < got.len()
            ==> text_le((#[trigger] got[i]).0, (#[trigger] got[j]).0) && got[i].0 != got[j].0,
{
    broadcast use {vstd::seq_lib::group_to_multiset_ensures, vstd::multiset::group_multiset_axioms};
    let w = lsof.map_values(|e: (String, Vec<String>)| lsof_row_spec(e));
    assert forall|a: int, b: int| 0 <= a < b < w.len() implies w[a] != w[b] by {
        assert(lsof[a].0@ != lsof[b].0@);
    }
    assert(w.no_duplicates());
    w.lemma_multiset_has_no_duplicates();
    got.lemma_multiset_has_no_duplicates_conv();
    assert forall|i: int, j: int| 0 <= i < j < got.len()
        implies text_le((#[trigger] got[i]).0, (#[trigger] got[j]).0) && got[i].0 != got[j].0 by {
        assert(row_order()(got[i], got[j]));
        if got[i].0 == got[j].0 {
            assert(got[i] != got[j]);
            assert(got.to_multiset().count(got[i]) > 0);
            assert(got.to_multiset().count(got[j]) > 0);
            assert(w.contains(got[i]));
            assert(w.contains(got[j]));
            let k1 = choose|k: int| 0 <= k < w.len() && w[k] == got[i];
            let k2 = choose|k: int| 0 <= k < w.len() && w[k] == got[j];
            assert(lsof[k1].0@ == lsof[k2].0@);
            if k1 < k2 {
                assert(lsof[k1].0@ != lsof[k2].0@);
            } else if k2 < k1 {
                assert(lsof[k2].0@ != lsof[k1].0@);
            }
        }
    }
}

/// The open-files section for `lsof`.
pub fn lsof_section(lsof: &GpuLsof) -> (section: LsofSection)
    ensures
        is_lsof_section(section, lsof@),
{
    if lsof.len() == 0 {
        return LsofSection::Notice(String::from_str("No applications currently reported by lsof."));
    }
    let mut data: Vec<(String, String)> = Vec::new();
    let mut i: usize = 0;
    while i < lsof.len()
        invariant
            i <= lsof@.len(),
            data@.len() == i,
            data@.map_values(|r: (String, String)| row_view(r))
                == lsof@.subrange(0, i as int).map_values(|e: (String, Vec<String>)| lsof_row_spec(e)),
        decreases lsof@.len() - i,
    {
        let ghost before = data@;
        let entry = &lsof[i];
        data.push((entry.0.clone(), process_text(&entry.1)));
        proof {
            assert(row_view(data@[i as int]) == lsof_row_spec(lsof@[i as int]));
            let f = |r: (String, String)| row_view(r);
            let g = |e: (String, Vec<String>)| lsof_row_spec(e);
            assert forall|j: int| 0 <= j < i implies data@.map_values(f)[j]
                == lsof@.subrange(0, i + 1).map_values(g)[j] by {
                assert(data@[j] == before[j]);
                assert(before.map_values(f)[j] == lsof@.subrange(0, i as int).map_values(g)[j]);
            }
            assert(data@.map_values(|r: (String, String)| row_view(r))
                =~= lsof@.subrange(0, i + 1).map_values(|e: (String, Vec<String>)| lsof_row_spec(e)));
        }
        i = i + 1;
    }
    assert(lsof@.subrange(0, lsof@.len() as int) =~= lsof@);
    let sorted = insertion_sort(data);
    proof {
        let f = |r: (String, String)| row_view(r);
        let r = row_order();
        lemma_row_order_is_total();
        let got = sorted@.map_values(f);
        let want = lsof@.map_values(|e: (String, Vec<String>)| lsof_row_spec(e)).sort_by(r);
        lsof@.map_values(|e: (String, Vec<String>)| lsof_row_spec(e)).lemma_sort_by_ensures(r);
        lemma_map_keeps_multiset(sorted@, data@, f);
        assert forall|i: int, j: int| 0 <= i < j < got.len() implies #[trigger] r(got[i], got[j]) by {
            assert(sorted@[i].key_le(&sorted@[j]));
        }
        assert(sorted_by(got, r));
        vstd::seq_lib::lemma_sorted_unique(got, want, r);
        if distinct_paths(lsof@) {
            lemma_distinct_rows_ascend(lsof@, got);
        }
    }
    let mut rows: Vec<(String, String)> = Vec::new();
    rows.push((String::from_str("Device node"), String::from_str("Applications")));
    let mut sorted = sorted;
    let ghost sorted_rows = sorted@;
    rows.append(&mut sorted);
    assert(rows@.skip(1) =~= sorted_rows);
    proof {
        if distinct_paths(lsof@) {
            let got = sorted_rows.map_values(|r: (String, String)| row_view(r));
            assert forall|i: int, j: int| 1 <= i < j < rows@.len()
                implies text_le((#[trigger] rows@[i]).0@, (#[trigger] rows@[j]).0@)
                    && rows@[i].0@ != rows@[j].0@ by {
                assert(rows@[i] == sorted_rows[i - 1] && rows@[j] == sorted_rows[j - 1]);
                assert(got[i - 1].0 == rows@[i].0@ && got[j - 1].0 == rows@[j].0@);
            }
        }
    }
    LsofSection::Table(rows)
}

/// A mode choice of the settings window: the mode's number and its name.
pub open spec fn mode_choice_spec(m: AppletMode) -> (u32, Seq<char>) {
    (m.spec_value(), m.label_spec())
}

/// A mode choice as plain values.
pub open spec fn choice_view(c: (u32, String)) -> (u32, Seq<char>) {
    (c.0, c.1@)
}

/// The mode choices of the settings window: every mode, in numbering order.
pub fn mode_choices() -> (choices: Vec<(u32, String)>)
    ensures
        choices@.map_values(|c: (u32, String)| choice_view(c))
            == all_modes_spec().map_values(|m: AppletMode| mode_choice_spec(m)),
{
    let modes = AppletMode::all();
    let mut choices: Vec<(u32, String)> = Vec::new();
    let mut i: usize = 0;
    while i < 4
        invariant
            i <= 4,
            modes@ == all_modes_spec(),
            choices@.len() == i,
            forall|j: int| 0 <= j < i ==> choice_view(#[trigger] choices@[j]) == mode_choice_spec(modes@[j]),
        decreases 4 - i,
    {
        let m = modes[i];
        choices.push((m.value(), m.label()));
        i = i + 1;
    }
    assert(choices@.map_values(|c: (u32, String)| choice_view(c))
        =~= all_modes_spec().map_values(|m: AppletMode| mode_choice_spec(m)));
    choices
}

/// One of the daemon's settings as the settings window shows it.
pub struct DaemonSetting {
    pub key: ConfigKey,
    pub label: String,
    pub enabled: bool,
}

/// The label of the daemon setting `key`.
pub open spec fn setting_label_spec(key: ConfigKey) -> Seq<char> {
    match key {
        ConfigKey::AutoApplyGpuState => "Auto-apply saved GPU block states"@,
        ConfigKey::BatteryAutoSwitch => "Automatically switch modes on battery power"@,
        ConfigKey::ExperimentalNvidiaBlock => "Use experimental NVIDIA blocking"@,
    }
}

/// The daemon's settings in the order the window lists them.
pub open spec fn setting_keys_spec() -> Seq<ConfigKey> {
    seq![ConfigKey::AutoApplyGpuState, ConfigKey::BatteryAutoSwitch, ConfigKey::ExperimentalNvidiaBlock]
}

/// A daemon setting as plain values.
pub open spec fn setting_view(s: DaemonSetting) -> (ConfigKey, Seq<char>, bool) {
    (s.key, s.label@, s.enabled)
}

fn setting_label(key: ConfigKey) -> (s: String)
    ensures
        s@ == setting_label_spec(key),
{
    match key {
        ConfigKey::AutoApplyGpuState => String::from_str("Auto-apply saved GPU block states"),
        ConfigKey::BatteryAutoSwitch => String::from_str("Automatically switch modes on battery power"),
        ConfigKey::ExperimentalNvidiaBlock => String::from_str("Use experimental NVIDIA blocking"),
    }
}

/// Each listed daemon setting shows the value of its own field of the daemon's
/// settings, and the three settings are listed once each.
pub proof fn lemma_settings_show_their_own_field(config: CardwireConfigState)
    ensures
        config.get_spec(ConfigKey::AutoApplyGpuState) == config.auto_apply_gpu_state,
        config.get_spec(ConfigKey::BatteryAutoSwitch) == config.battery_auto_switch,
        config.get_spec(ConfigKey::ExperimentalNvidiaBlock) == config.experimental_nvidia_block,
        setting_keys_spec().len() == 3,
        setting_keys_spec().no_duplicates(),
{
}

/// The daemon settings section: each setting with its label and its value in `config`.
pub fn daemon_settings(config: CardwireConfigState) -> (settings: Vec<DaemonSetting>)
    ensures
        settings@.map_values(|s: DaemonSetting| setting_view(s))
            == setting_keys_spec().map_values(|k: ConfigKey| (k, setting_label_spec(k), config.get_spec(k))),        settings@.len() == 3,
        settings@[0].key == ConfigKey::AutoApplyGpuState && settings@[0].enabled == config.auto_apply_gpu_state
            && settings@[0].label@ == "Auto-apply saved GPU block states"@,
        settings@[1].key == ConfigKey::BatteryAutoSwitch && settings@[1].enabled == config.battery_auto_switch
            && settings@[1].label@ == "Automatically switch modes on battery power"@,
        settings@[2].key == ConfigKey::ExperimentalNvidiaBlock
            && settings@[2].enabled == config.experimental_nvidia_block
            && settings@[2].label@ == "Use experimental NVIDIA blocking"@,
{
    let mut settings: Vec<DaemonSetting> = Vec::new();
    settings.push(DaemonSetting {
        key: ConfigKey::AutoApplyGpuState,
        label: setting_label(ConfigKey::AutoApplyGpuState),
        enabled: config.auto_apply_gpu_state,
    });
    settings.push(DaemonSetting {
        key: ConfigKey::BatteryAutoSwitch,
        label: setting_label(ConfigKey::BatteryAutoSwitch),
        enabled: config.battery_auto_switch,
    });
    settings.push(DaemonSetting {
        key: ConfigKey::ExperimentalNvidiaBlock,
        label: setting_label(ConfigKey::ExperimentalNvidiaBlock),
        enabled: config.experimental_nvidia_block,
    });
    assert(settings@.map_values(|s: DaemonSetting| setting_view(s))
        =~= setting_keys_spec().map_values(|k: ConfigKey| (k, setting_label_spec(k), config.get_spec(k))));
    settings
}

} // verus!
