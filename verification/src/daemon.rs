//! What the library knows of the Cardwire daemon's bus interface: object paths, the
//! GPU records it reports, its settings, and the prompts shown when it cannot be reached.
use vstd::prelude::*;
use vstd::string::*;
use crate::sort::SortKey;
use crate::text::{decimal, decimal_string, parse_u32, parse_u32_spec, starts_with, strip_prefix, text_equal, lemma_parse_decimal_round_trip};

verus! {

/// The daemon's well-known bus name.
pub const CARDWIRE_SERVICE: &'static str = "com.github.opengamingcollective.cardwire";

/// The object path of the daemon's manager object.
pub const CARDWIRE_PATH: &'static str = "/com/github/opengamingcollective/cardwire";

/// The interface that every GPU object of the daemon implements.
pub const CARDWIRE_GPU_INTERFACE: &'static str = "com.github.opengamingcollective.cardwire.Gpu";

/// Open files on a GPU's device nodes: each device node with the names of the
/// processes that hold it open.
pub type GpuLsof = Vec<(String, Vec<String>)>;

/// Whether each device node of `lsof` is listed once, as in the daemon's map from
/// device node to processes.
pub open spec fn distinct_paths(lsof: Seq<(String, Vec<String>)>) -> bool {
    forall|i: int, j: int| 0 <= i < j < lsof.len() ==> (#[trigger] lsof[i]).0@ != (#[trigger] lsof[j]).0@
}

/// What the daemon's `GetDevice` method returns: name, PCI address, render minor,
/// card minor, whether it drives the display by default, whether it is an NVIDIA
/// device, and its NVIDIA minor.
pub type GpuDevice = (String, String, u32, u32, bool, bool, String);

/// One GPU as the daemon reports it.
#[derive(Clone, Debug)]
pub struct GpuInfo {
    pub id: u32,
    pub name: String,
    pub pci: String,
    pub render: u32,
    pub card: u32,
    pub is_default: bool,
    pub is_nvidia: bool,
    pub nvidia_minor: String,
    pub blocked: bool,
    pub power_state: String,
    pub lsof: GpuLsof,
}

/// The daemon's three boolean settings.
#[derive(Clone, Copy, Debug, PartialEq, Eq, Structural)]
pub struct CardwireConfigState {
    pub auto_apply_gpu_state: bool,
    pub battery_auto_switch: bool,
    pub experimental_nvidia_block: bool,
}

/// Names one of the daemon's boolean settings.
#[derive(Clone, Copy, Debug, PartialEq, Eq, Structural)]
pub enum ConfigKey {
    AutoApplyGpuState,
    BatteryAutoSwitch,
    ExperimentalNvidiaBlock,
}

impl Default for CardwireConfigState {
    fn default() -> (c: Self)
        ensures
            !c.auto_apply_gpu_state && !c.battery_auto_switch && !c.experimental_nvidia_block,
    {
        CardwireConfigState {
            auto_apply_gpu_state: false,
            battery_auto_switch: false,
            experimental_nvidia_block: false,
        }
    }
}

impl ConfigKey {
    /// The name of the bus property of the daemon's `Config` interface that holds this setting.
    pub open spec fn property_name_spec(self) -> Seq<char> {
        match self {
            ConfigKey::AutoApplyGpuState => "AutoApplyGpuState"@,
            ConfigKey::BatteryAutoSwitch => "BatteryAutoSwitch"@,
            ConfigKey::ExperimentalNvidiaBlock => "ExperimentalNvidiaBlock"@,
        }
    }

    /// The name of the bus property that holds this setting.
    pub fn property_name(self) -> (s: &'static str)
        ensures
            s@ == self.property_name_spec(),
    {
        match self {
            ConfigKey::AutoApplyGpuState => "AutoApplyGpuState",
            ConfigKey::BatteryAutoSwitch => "BatteryAutoSwitch",
            ConfigKey::ExperimentalNvidiaBlock => "ExperimentalNvidiaBlock",
        }
    }
}

impl CardwireConfigState {
    /// The value of the setting `key`.
    pub open spec fn get_spec(self, key: ConfigKey) -> bool {
        match key {
            ConfigKey::AutoApplyGpuState => self.auto_apply_gpu_state,
            ConfigKey::BatteryAutoSwitch => self.battery_auto_switch,
            ConfigKey::ExperimentalNvidiaBlock => self.experimental_nvidia_block,
        }
    }
}

/// The prefix of the object path of every GPU object: the manager's path and `/Gpu/`.
pub open spec fn gpu_path_prefix_spec() -> Seq<char> {
    CARDWIRE_PATH@ + "/Gpu/"@
}

/// The object path of GPU `gpu_id`.
pub open spec fn gpu_object_path_spec(gpu_id: u32) -> Seq<char> {
    gpu_path_prefix_spec() + decimal(gpu_id as nat)
}

/// The prefix of the object path of every GPU object.
pub fn gpu_path_prefix() -> (s: String)
    ensures
        s@ == gpu_path_prefix_spec(),
{
    let mut s = String::from_str(CARDWIRE_PATH);
    s.append("/Gpu/");
    s
}

/// The object path of GPU `gpu_id`: the manager's path, `/Gpu/`, and the id in decimal.
pub fn gpu_object_path(gpu_id: u32) -> (s: String)
    ensures
        s@ == gpu_object_path_spec(gpu_id),
{
    let mut s = gpu_path_prefix();
    let digits = decimal_string(gpu_id);
    s.append(digits.as_str());
    s
}

/// The GPU id that an object path names: what follows the GPU prefix, read as a `u32`.
pub open spec fn gpu_id_from_path_spec(path: Seq<char>) -> Option<u32> {
    if starts_with(path, gpu_path_prefix_spec()) {
        parse_u32_spec(path.skip(gpu_path_prefix_spec().len() as int))
    } else {
        None
    }
}

/// The GPU id that an object path names, if it is a GPU object's path.
pub fn gpu_id_from_path(path: &str) -> (id: Option<u32>)
    ensures
        id == gpu_id_from_path_spec(path@),
{
    let prefix = gpu_path_prefix();
    match strip_prefix(path, prefix.as_str()) {
        Some(rest) => parse_u32(rest),
        None => None,
    }
}

/// Whether `interfaces` holds the daemon's GPU interface.
pub open spec fn has_gpu_interface_spec(interfaces: Seq<String>) -> bool {
    exists|i: int| 0 <= i < interfaces.len() && (#[trigger] interfaces[i])@ == CARDWIRE_GPU_INTERFACE@
}

/// Whether an object that implements `interfaces` is a GPU object.
pub fn has_gpu_interface(interfaces: &Vec<String>) -> (r: bool)
    ensures
        r == has_gpu_interface_spec(interfaces@),
{
    let mut i: usize = 0;
    while i < interfaces.len()
        invariant
            i <= interfaces@.len(),
            forall|j: int| 0 <= j < i ==> (#[trigger] interfaces@[j])@ != CARDWIRE_GPU_INTERFACE@,
        decreases interfaces@.len() - i,
    {
        if text_equal(interfaces[i].as_str(), CARDWIRE_GPU_INTERFACE) {
            return true;
        }
        i = i + 1;
    }
    false
}

/// The GPU that a managed object stands for: none unless it implements the GPU
/// interface and its path names a GPU id.
pub fn gpu_id_of_object(path: &str, interfaces: &Vec<String>) -> (id: Option<u32>)
    ensures
        id == (if has_gpu_interface_spec(interfaces@) { gpu_id_from_path_spec(path@) } else { None }),
{
    if !has_gpu_interface(interfaces) {
        return None;
    }
    gpu_id_from_path(path)
}

/// An object path built for a GPU id is read back as that id.
pub proof fn lemma_gpu_path_round_trip(gpu_id: u32)
    ensures
        gpu_id_from_path_spec(gpu_object_path_spec(gpu_id)) == Some(gpu_id),
{
    let p = gpu_object_path_spec(gpu_id);
    let pre = gpu_path_prefix_spec();
    assert(p.subrange(0, pre.len() as int) =~= pre);
    assert(p.skip(pre.len() as int) =~= decimal(gpu_id as nat));
    lemma_parse_decimal_round_trip(gpu_id);
}

/// Whether `g` is the record of GPU `id` built from its `GetDevice` answer `device`
/// and the outcomes of its other reads.
pub open spec fn is_record_of(
    g: GpuInfo,
    id: u32,
    device: GpuDevice,
    blocked: Option<bool>,
    power_state: Option<String>,
    lsof: Option<GpuLsof>,
) -> bool {
    &&& g.id == id
    &&& g.name == device.0
    &&& g.pci == device.1
    &&& g.render == device.2
    &&& g.card == device.3
    &&& g.is_default == device.4
    &&& g.is_nvidia == device.5
    &&& g.nvidia_minor == device.6
    &&& g.blocked == (match blocked {
        Some(b) => b,
        None => false,
    })
    &&& g.power_state@ == (match power_state {
        Some(p) => p@,
        None => "Unknown"@,
    })
    &&& g.lsof@ == (match lsof {
        Some(l) => l@,
        None => Seq::<(String, Vec<String>)>::empty(),
    })
}

/// A record takes its id from the object and the device fields from `GetDevice`; a
/// failed `Block` read leaves the GPU shown as not blocked, a failed `PowerState`
/// read shows `Unknown`, a failed `Lsof` read shows no open files, and each read that
/// answered is shown as it answered.
pub proof fn lemma_record_fallbacks(
    g: GpuInfo,
    id: u32,
    device: GpuDevice,
    blocked: Option<bool>,
    power_state: Option<String>,
    lsof: Option<GpuLsof>,
)
    requires
        is_record_of(g, id, device, blocked, power_state, lsof),
    ensures
        g.id == id && g.name == device.0 && g.is_default == device.4 && g.is_nvidia == device.5,
        blocked is None ==> !g.blocked,
        blocked matches Some(b) ==> g.blocked == b,
        power_state is None ==> g.power_state@ == "Unknown"@,
        power_state matches Some(p) ==> g.power_state@ == p@,
        lsof is None ==> g.lsof@.len() == 0,
        lsof matches Some(l) ==> g.lsof@ == l@,
{
}

impl GpuInfo {
    /// The record of GPU `id`, built from its `GetDevice` answer and from the
    /// outcomes of reading its `Block` property, its `PowerState` and its `Lsof`
    /// (`None` where the read failed): a failed `Block` read counts as not blocked,
    /// a failed `PowerState` as `Unknown`, a failed `Lsof` as no open files.
    pub fn from_device(
        id: u32,
        device: GpuDevice,
        blocked: Option<bool>,
        power_state: Option<String>,
        lsof: Option<GpuLsof>,
    ) -> (g: GpuInfo)
        ensures
            is_record_of(g, id, device, blocked, power_state, lsof),
            (match lsof {
                Some(l) => distinct_paths(l@),
                None => true,
            }) ==> distinct_paths(g.lsof@),
    {
        let (name, pci, render, card, is_default, is_nvidia, nvidia_minor) = device;
        let blocked = match blocked {
            Some(b) => b,
            None => false,
        };
        let power_state = match power_state {
            Some(p) => p,
            None => String::from_str("Unknown"),
        };
        let lsof = match lsof {
            Some(l) => l,
            None => Vec::new(),
        };
        GpuInfo {
            id,
            name,
            pci,
            render,
            card,
            is_default,
            is_nvidia,
            nvidia_minor,
            blocked,
            power_state,
            lsof,
        }
    }
}

impl SortKey for GpuInfo {
    open spec fn key_le(&self, other: &Self) -> bool {
        self.id <= other.id
    }

    proof fn lemma_key_total(a: &Self, b: &Self) {
    }

    proof fn lemma_key_transitive(a: &Self, b: &Self, c: &Self) {
    }

    fn key_le_exec(&self, other: &Self) -> (r: bool) {
        self.id <= other.id
    }
}

/// Whether `gpus` is in order of id.
pub open spec fn sorted_by_id(gpus: Seq<GpuInfo>) -> bool {
    forall|i: int, j: int| 0 <= i < j < gpus.len() ==> #[trigger] gpus[i].id <= #[trigger] gpus[j].id
}

/// The GPUs of `gpus` with id `gpu_id`, in order.
pub open spec fn gpus_with_id(gpus: Seq<GpuInfo>, gpu_id: u32) -> Seq<GpuInfo> {
    gpus.filter(|g: GpuInfo| g.id == gpu_id)
}

/// The same GPUs in order of id; GPUs of equal id keep their order, as with
/// `sort_by_key`.
pub fn sort_gpus_by_id(gpus: Vec<GpuInfo>) -> (sorted: Vec<GpuInfo>)
    ensures
        sorted_by_id(sorted@),
        sorted@.to_multiset() == gpus@.to_multiset(),
        sorted@.len() == gpus@.len(),
        forall|gpu_id: u32| #[trigger] gpus_with_id(sorted@, gpu_id) == gpus_with_id(gpus@, gpu_id),
{
    let ghost original = gpus@;
    let sorted = crate::sort::insertion_sort(gpus);
    assert forall|gpu_id: u32| #[trigger] gpus_with_id(sorted@, gpu_id) == gpus_with_id(original, gpu_id) by {
        if original.len() == 0 {
            assert(sorted@.len() == 0);
            assert(sorted@ =~= original);
        } else {
            let c = GpuInfo { id: gpu_id, ..original[0] };
            let by_key = |y: GpuInfo| c.key_le(&y) && y.key_le(&c);
            let by_id = |g: GpuInfo| g.id == gpu_id;
            assert(by_key =~= by_id);
            assert(crate::sort::same_key_as(sorted@, c) == crate::sort::same_key_as(original, c));
        }
    }
    assert forall|i: int, j: int| 0 <= i < j < sorted@.len() implies
        #[trigger] sorted@[i].id <= #[trigger] sorted@[j].id by {
        assert(sorted@[i].key_le(&sorted@[j]));
    }
    sorted
}

/// Which part of the bus could not be reached.
#[derive(Clone, Copy, Debug, PartialEq, Eq, Structural)]
pub enum BusFailure {
    /// No connection to the system bus.
    SystemBus,
    /// The bus answers, but the Cardwire service does not.
    Service,
}

/// The warning shown when the bus or the service cannot be reached, and its two
/// answers.
pub struct BusPrompt {
    pub title: String,
    pub description: String,
    pub retry_label: String,
    pub quit_label: String,
}

/// The title of the warning for `failure`.
pub open spec fn bus_prompt_title(failure: BusFailure) -> Seq<char> {
    match failure {
        BusFailure::SystemBus => "Cardwire DBus Connection"@,
        BusFailure::Service => "Cardwire DBus Service"@,
    }
}

/// The text of the warning for `failure`.
pub open spec fn bus_prompt_description(failure: BusFailure) -> Seq<char> {
    match failure {
        BusFailure::SystemBus => "Failed to connect to the DBus system bus."@,
        BusFailure::Service => "Could not access the cardwire DBus service. Is it running?"@,
    }
}

impl BusPrompt {
    /// The warning for `failure`, answered with `Retry` or `Quit`.
    pub fn for_failure(failure: BusFailure) -> (p: BusPrompt)
        ensures
            p.title@ == bus_prompt_title(failure),
            p.description@ == bus_prompt_description(failure),
            p.retry_label@ == "Retry"@,
            p.quit_label@ == "Quit"@,
    {
        let (title, description) = match failure {
            BusFailure::SystemBus => (
                String::from_str("Cardwire DBus Connection"),
                String::from_str("Failed to connect to the DBus system bus."),
            ),
            BusFailure::Service => (
                String::from_str("Cardwire DBus Service"),
                String::from_str("Could not access the cardwire DBus service. Is it running?"),
            ),
        };
        BusPrompt {
            title,
            description,
            retry_label: String::from_str("Retry"),
            quit_label: String::from_str("Quit"),
        }
    }

    /// Whether the answer `chosen` (the label of the button pressed, if a labelled
    /// button was pressed) ends the program; any other answer tries again.
    pub fn answer_quits(&self, chosen: Option<&str>) -> (quit: bool)
        ensures
            quit == (match chosen {
                Some(label) => label@ == self.quit_label@,
                None => false,
            }),
    {
        match chosen {
            Some(label) => text_equal(label, self.quit_label.as_str()),
            None => false,
        }
    }
}

/// Whether `k` is the first position of `gpus` that holds the GPU `gpu_id`.
pub open spec fn is_first_with_id(gpus: Seq<GpuInfo>, gpu_id: u32, k: int) -> bool {
    0 <= k < gpus.len() && gpus[k].id == gpu_id && forall|j: int| 0 <= j < k ==> gpus[j].id != gpu_id
}

/// Whether `gpus` holds the GPU `gpu_id`.
pub open spec fn has_gpu(gpus: Seq<GpuInfo>, gpu_id: u32) -> bool {
    exists|k: int| 0 <= k < gpus.len() && #[trigger] gpus[k].id == gpu_id
}

/// The position of the first GPU of `gpus` with id `gpu_id`, if any.
pub fn gpu_position(gpus: &Vec<GpuInfo>, gpu_id: u32) -> (k: Option<usize>)
    ensures
        match k {
            Some(k) => is_first_with_id(gpus@, gpu_id, k as int),
            None => !has_gpu(gpus@, gpu_id),
        },
{
    let mut i: usize = 0;
    while i < gpus.len()
        invariant
            i <= gpus@.len(),
            forall|j: int| 0 <= j < i ==> gpus@[j].id != gpu_id,
        decreases gpus@.len() - i,
    {
        if gpus[i].id == gpu_id {
            return Some(i);
        }
        i = i + 1;
    }
    None
}

/// The ids of `gpus`, in order.
pub fn gpu_ids(gpus: &Vec<GpuInfo>) -> (ids: Vec<u32>)
    ensures
        ids@ == gpus@.map_values(|g: GpuInfo| g.id),
{
    let mut ids: Vec<u32> = Vec::new();
    let mut i: usize = 0;
    while i < gpus.len()
        invariant
            i <= gpus@.len(),
            ids@ == gpus@.subrange(0, i as int).map_values(|g: GpuInfo| g.id),
        decreases gpus@.len() - i,
    {
        ids.push(gpus[i].id);
        proof {
            assert(ids@ =~= gpus@.subrange(0, i + 1).map_values(|g: GpuInfo| g.id));
        }
        i = i + 1;
    }
    assert(gpus@.subrange(0, gpus@.len() as int) =~= gpus@);
    ids
}

/// What reading one GPU object gave: its id and, when its proxy could be built and
/// its `GetDevice` call answered, that answer (`device`) with the outcomes of reading
/// its `Block` property, its `PowerState` and its `Lsof`.
pub struct GpuProbe {
    pub id: u32,
    pub device: Option<GpuDevice>,
    pub blocked: Option<bool>,
    pub power_state: Option<String>,
    pub lsof: Option<GpuLsof>,
}

/// The probes whose `GetDevice` call answered, in order.
pub open spec fn answered_probes(probes: Seq<GpuProbe>) -> Seq<GpuProbe> {
    probes.filter(|p: GpuProbe| p.device is Some)
}

/// Whether `recs` holds, in order, the record of each probe of `answered`.
pub open spec fn records_of(recs: Seq<GpuInfo>, answered: Seq<GpuProbe>) -> bool {
    &&& recs.len() == answered.len()
    &&& forall|i: int| 0 <= i < recs.len() ==> ((#[trigger] answered[i]).device matches Some(d)
        && is_record_of(recs[i], answered[i].id, d, answered[i].blocked, answered[i].power_state, answered[i].lsof))
}

/// The GPUs found, from the probes of the GPU objects: one record per probe whose
/// `GetDevice` call answered, built as `GpuInfo::from_device` builds it, in order of
/// id (records of equal id in probe order); probes that did not answer give none.
pub fn collect_gpus(probes: Vec<GpuProbe>) -> (gpus: Vec<GpuInfo>)
    ensures
        exists|recs: Seq<GpuInfo>| {
            &&& #[trigger] records_of(recs, answered_probes(probes@))
            &&& gpus@.to_multiset() == recs.to_multiset()
            &&& forall|gpu_id: u32| #[trigger] gpus_with_id(gpus@, gpu_id) == gpus_with_id(recs, gpu_id)
        },
        sorted_by_id(gpus@),
{
    let ghost original = probes@;
    let mut rest = probes;
    let mut built: Vec<GpuInfo> = Vec::new();
    let ghost mut done: Seq<GpuProbe> = Seq::empty();
    assert(answered_probes(done) =~= Seq::<GpuProbe>::empty()) by {
        reveal_with_fuel(Seq::filter, 1);
    }
    while rest.len() > 0
        invariant
            done + rest@ == original,
            records_of(built@, answered_probes(done)),
        decreases rest@.len(),
    {
        let ghost before = rest@;
        let p = rest.remove(0);
        proof {
            assert(done.push(p) + rest@ =~= original) by {
                assert(before =~= seq![p] + rest@);
                assert(done + before =~= original);
            }
            assert(done.push(p).drop_last() =~= done);
            reveal_with_fuel(Seq::filter, 1);
        }
        let ghost prev = built@;
        let GpuProbe { id, device, blocked, power_state, lsof } = p;
        match device {
            Some(d) => {
                let g = GpuInfo::from_device(id, d, blocked, power_state, lsof);
                built.push(g);
                proof {
                    let ans = answered_probes(done.push(p));
                    assert(ans == answered_probes(done).push(p));
                    assert forall|i: int| 0 <= i < built@.len() implies ((#[trigger] ans[i]).device matches Some(dd)
                        && is_record_of(built@[i], ans[i].id, dd, ans[i].blocked, ans[i].power_state, ans[i].lsof)) by {
                        if i < prev.len() {
                            assert(built@[i] == prev[i]);
                            assert(ans[i] == answered_probes(done)[i]);
                        }
                    }
                }
            },
            None => {
                proof {
                    assert(answered_probes(done.push(p)) == answered_probes(done));
                }
            },
        }
        proof {
            done = done.push(p);
        }
    }
    assert(done =~= original);
    let ghost recs = built@;
    let gpus = sort_gpus_by_id(built);
    assert(records_of(recs, answered_probes(original)));
    gpus
}

} // verus!
