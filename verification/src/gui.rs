//! The settings window's state machine: what each message changes and which work on
//! the daemon it asks for.
use vstd::prelude::*;
use vstd::string::*;
use crate::applet::{AppletConfig, with_toggle_from_spec, with_toggle_to_spec};
use crate::daemon::{CardwireConfigState, ConfigKey, GpuInfo, gpu_position, has_gpu, is_first_with_id};
use crate::view::{
    DaemonSetting, LsofSection, daemon_settings, gpu_info_rows, gpu_info_rows_spec, gpu_title,
    gpu_title_spec, is_lsof_section, lsof_section, row_view, setting_keys_spec, setting_label_spec,
    setting_view,
};
use crate::mode::AppletMode;

verus! {

/// The page shown in the settings window.
#[derive(Clone, Copy, Debug, PartialEq, Eq, Structural)]
pub enum Page {
    Config,
    Gpu(u32),
}

/// What the window last learned of the daemon.
#[derive(Clone, Debug)]
pub struct GuiSnapshot {
    pub daemon_online: bool,
    pub mode: u32,
    pub config: CardwireConfigState,
    pub gpus: Vec<GpuInfo>,
}

impl GuiSnapshot {
    /// A snapshot from the outcome of each read: the daemon is online when its
    /// `Status` call succeeded; a failed mode read counts as Integrated and a failed
    /// settings read as all settings off.
    pub fn assemble(
        status_ok: bool,
        mode_read: Option<u32>,
        config_read: Option<CardwireConfigState>,
        gpus: Vec<GpuInfo>,
    ) -> (s: GuiSnapshot)
        ensures
            s.daemon_online == status_ok,
            s.mode == (match mode_read {
                Some(m) => m,
                None => 0,
            }),
            s.config == (match config_read {
                Some(c) => c,
                None => CardwireConfigState {
                    auto_apply_gpu_state: false,
                    battery_auto_switch: false,
                    experimental_nvidia_block: false,
                },
            }),
            s.gpus == gpus,
    {
        let mode = match mode_read {
            Some(m) => m,
            None => 0,
        };
        let config = match config_read {
            Some(c) => c,
            None => CardwireConfigState::default(),
        };
        GuiSnapshot { daemon_online: status_ok, mode, config, gpus }
    }
}

/// Work on the daemon whose failure the window reports.
#[derive(Clone, Copy, Debug, PartialEq, Eq, Structural)]
pub enum GuiOperation {
    SetMode,
    UpdateDaemonConfig,
    UpdateGpuBlock,
    SaveAppletSettings,
}

/// The start of the message reporting a failure of `op`.
pub open spec fn failure_prefix(op: GuiOperation) -> Seq<char> {
    match op {
        GuiOperation::SetMode => "Could not set mode: "@,
        GuiOperation::UpdateDaemonConfig => "Could not update daemon config: "@,
        GuiOperation::UpdateGpuBlock => "Could not update GPU block state: "@,
        GuiOperation::SaveAppletSettings => "Could not save tray applet settings: "@,
    }
}

/// The message reporting that `op` failed with the error text `detail`.
pub fn failure_message(op: GuiOperation, detail: &str) -> (s: String)
    ensures
        s@ == failure_prefix(op) + detail@,
{
    let mut s = match op {
        GuiOperation::SetMode => String::from_str("Could not set mode: "),
        GuiOperation::UpdateDaemonConfig => String::from_str("Could not update daemon config: "),
        GuiOperation::UpdateGpuBlock => String::from_str("Could not update GPU block state: "),
        GuiOperation::SaveAppletSettings => String::from_str("Could not save tray applet settings: "),
    };
    s.append(detail);
    s
}

/// What happens to the settings window. Windows are named by numbers that the caller
/// hands out.
pub enum GuiMessage {
    /// A load of the daemon's state ended: a snapshot, or the error message.
    SnapshotLoaded(Result<GuiSnapshot, String>),
    /// The periodic check whether the tray asked for the window: the flag tells, and
    /// the number is the one a newly opened window gets.
    OpenPoll(bool, u64),
    WindowOpened(u64),
    WindowClosed(u64),
    /// The periodic refresh.
    RefreshTick,
    SelectPage(Page),
    ModeSelected(u32),
    DaemonConfigToggled(ConfigKey, bool),
    GpuBlockToggled(u32, bool),
    /// The user picked the mode a left click toggles from.
    ToggleFromChanged(AppletMode),
    /// The user picked the mode a left click toggles to.
    ToggleToChanged(AppletMode),
    /// Saving the applet settings failed, with this message.
    AppletSaveFailed(String),
    ClearError,
}

/// Work that the window asks for after a message.
#[derive(Clone, Copy, Debug, PartialEq, Eq, Structural)]
pub enum GuiTask {
    Nothing,
    /// Raise the open window and load the daemon's state.
    FocusAndLoad(u64),
    /// Open a window, which gets the number given, and load the daemon's state.
    OpenAndLoad(u64),
    /// Load the daemon's state.
    Load,
    SetModeAndLoad(u32),
    SetConfigAndLoad(ConfigKey, bool),
    SetGpuBlockAndLoad(u32, bool),
    /// Apply `set_toggle_from` to the shared applet settings and save them.
    SaveToggleFrom(AppletMode),
    /// Apply `set_toggle_to` to the shared applet settings and save them.
    SaveToggleTo(AppletMode),
}

/// The state of the settings window.
pub struct GuiState {
    pub applet_config: AppletConfig,
    pub window: Option<u64>,
    pub page: Page,
    pub snapshot: Option<GuiSnapshot>,
    pub loading: bool,
    pub error: Option<String>,
}

/// Whether `task` loads the daemon's state.
pub open spec fn task_loads(task: GuiTask) -> bool {
    match task {
        GuiTask::FocusAndLoad(_) | GuiTask::OpenAndLoad(_) | GuiTask::Load | GuiTask::SetModeAndLoad(_)
        | GuiTask::SetConfigAndLoad(_, _) | GuiTask::SetGpuBlockAndLoad(_, _) => true,
        _ => false,
    }
}

/// The window's next state and the work it asks for, after `m` in state `s`.
pub open spec fn gui_step(s: GuiState, m: GuiMessage) -> (GuiState, GuiTask) {
    match m {
        GuiMessage::SnapshotLoaded(r) => match r {
            Ok(snap) => (GuiState { loading: false, snapshot: Some(snap), ..s }, GuiTask::Nothing),
            Err(e) => (GuiState { loading: false, error: Some(e), ..s }, GuiTask::Nothing),
        },
        GuiMessage::OpenPoll(requested, new_window) => if !requested {
            (s, GuiTask::Nothing)
        } else {
            match s.window {
                Some(id) => (GuiState { loading: true, ..s }, GuiTask::FocusAndLoad(id)),
                None => (
                    GuiState { loading: true, window: Some(new_window), ..s },
                    GuiTask::OpenAndLoad(new_window),
                ),
            }
        },
        GuiMessage::WindowOpened(id) => (GuiState { window: Some(id), ..s }, GuiTask::Nothing),
        GuiMessage::WindowClosed(id) => if s.window == Some(id) {
            (GuiState { window: None, ..s }, GuiTask::Nothing)
        } else {
            (s, GuiTask::Nothing)
        },
        GuiMessage::RefreshTick => if s.window is None || s.loading {
            (s, GuiTask::Nothing)
        } else {
            (GuiState { loading: true, ..s }, GuiTask::Load)
        },
        GuiMessage::SelectPage(p) => (GuiState { page: p, ..s }, GuiTask::Nothing),
        GuiMessage::ModeSelected(mode) => (GuiState { loading: true, ..s }, GuiTask::SetModeAndLoad(mode)),
        GuiMessage::DaemonConfigToggled(k, e) => (
            GuiState { loading: true, ..s },
            GuiTask::SetConfigAndLoad(k, e),
        ),
        GuiMessage::GpuBlockToggled(id, b) => (
            GuiState { loading: true, ..s },
            GuiTask::SetGpuBlockAndLoad(id, b),
        ),
        GuiMessage::ToggleFromChanged(mode) => (
            GuiState { applet_config: with_toggle_from_spec(s.applet_config, mode), ..s },
            GuiTask::SaveToggleFrom(mode),
        ),
        GuiMessage::ToggleToChanged(mode) => (
            GuiState { applet_config: with_toggle_to_spec(s.applet_config, mode), ..s },
            GuiTask::SaveToggleTo(mode),
        ),
        GuiMessage::AppletSaveFailed(e) => (GuiState { error: Some(e), ..s }, GuiTask::Nothing),
        GuiMessage::ClearError => (GuiState { error: None, ..s }, GuiTask::Nothing),
    }
}

impl GuiState {
    /// The window's first state: closed, on the Config page, with nothing loaded.
    pub fn new(applet_config: AppletConfig) -> (s: GuiState)
        ensures
            s.applet_config == applet_config,
            s.window is None,
            s.page == Page::Config,
            s.snapshot is None,
            !s.loading,
            s.error is None,
    {
        GuiState {
            applet_config,
            window: None,
            page: Page::Config,
            snapshot: None,
            loading: false,
            error: None,
        }
    }

    /// Handles `msg` and tells what work it asks for.
    pub fn update(&mut self, msg: GuiMessage) -> (task: GuiTask)
        ensures
            (*final(self), task) == gui_step(*old(self), msg),
            msg matches GuiMessage::GpuBlockToggled(id, b) ==> task == GuiTask::SetGpuBlockAndLoad(id, b)
                && final(self).loading,
            msg matches GuiMessage::ModeSelected(m) ==> task == GuiTask::SetModeAndLoad(m) && final(self).loading,
            msg matches GuiMessage::DaemonConfigToggled(k, e) ==> task == GuiTask::SetConfigAndLoad(k, e)
                && final(self).loading,
            msg matches GuiMessage::SelectPage(p) ==> final(self).page == p && task == GuiTask::Nothing,
            msg matches GuiMessage::ToggleFromChanged(m) ==> final(self).applet_config.toggle_from == m
                && final(self).applet_config.toggle_from != final(self).applet_config.toggle_to
                && task == GuiTask::SaveToggleFrom(m),
            msg matches GuiMessage::ToggleToChanged(m) ==> final(self).applet_config.toggle_to == m
                && final(self).applet_config.toggle_from != final(self).applet_config.toggle_to
                && task == GuiTask::SaveToggleTo(m),
    {
        match msg {
            GuiMessage::SnapshotLoaded(result) => {
                self.loading = false;
                match result {
                    Ok(snapshot) => {
                        self.snapshot = Some(snapshot);
                    },
                    Err(error) => {
                        self.error = Some(error);
                    },
                }
                GuiTask::Nothing
            },
            GuiMessage::OpenPoll(requested, new_window) => {
                if requested {
                    self.loading = true;
                    match self.window {
                        Some(id) => GuiTask::FocusAndLoad(id),
                        None => {
                            self.window = Some(new_window);
                            GuiTask::OpenAndLoad(new_window)
                        },
                    }
                } else {
                    GuiTask::Nothing
                }
            },
            GuiMessage::WindowOpened(id) => {
                self.window = Some(id);
                GuiTask::Nothing
            },
            GuiMessage::WindowClosed(id) => {
                match self.window {
                    Some(open) => {
                        if open == id {
                            self.window = None;
                        }
                    },
                    None => {},
                }
                GuiTask::Nothing
            },
            GuiMessage::RefreshTick => {
                if self.window.is_none() || self.loading {
                    GuiTask::Nothing
                } else {
                    self.loading = true;
                    GuiTask::Load
                }
            },
            GuiMessage::SelectPage(page) => {
                self.page = page;
                GuiTask::Nothing
            },
            GuiMessage::ModeSelected(mode) => {
                self.loading = true;
                GuiTask::SetModeAndLoad(mode)
            },
            GuiMessage::DaemonConfigToggled(key, enabled) => {
                self.loading = true;
                GuiTask::SetConfigAndLoad(key, enabled)
            },
            GuiMessage::GpuBlockToggled(gpu_id, block) => {
                self.loading = true;
                GuiTask::SetGpuBlockAndLoad(gpu_id, block)
            },
            GuiMessage::ToggleFromChanged(mode) => {
                self.applet_config.set_toggle_from(mode);
                GuiTask::SaveToggleFrom(mode)
            },
            GuiMessage::ToggleToChanged(mode) => {
                self.applet_config.set_toggle_to(mode);
                GuiTask::SaveToggleTo(mode)
            },
            GuiMessage::AppletSaveFailed(error) => {
                self.error = Some(error);
                GuiTask::Nothing
            },
            GuiMessage::ClearError => {
                self.error = None;
                GuiTask::Nothing
            },
        }
    }
}

/// Every piece of work that loads the daemon's state marks the window as loading, a
/// finished load clears the mark, and a refresh loads only in an open window with no
/// load under way.
pub proof fn lemma_loading_tracks_loads(s: GuiState, m: GuiMessage)
    ensures
        task_loads(gui_step(s, m).1) ==> gui_step(s, m).0.loading,
        m is SnapshotLoaded ==> !gui_step(s, m).0.loading,
        m is RefreshTick && (s.window is None || s.loading) ==> gui_step(s, m).1 == GuiTask::Nothing,
        !task_loads(gui_step(s, m).1) && !(m is SnapshotLoaded) ==> gui_step(s, m).0.loading == s.loading,
{
}

/// Each message that asks for work on the daemon asks for exactly what it names, marks
/// the window as loading and changes nothing else; the other messages change just the
/// part of the state they name.
pub proof fn lemma_messages_do_what_they_name(s: GuiState)
    ensures
        forall|id: u32, b: bool| #![trigger gui_step(s, GuiMessage::GpuBlockToggled(id, b))] {
            let (t, task) = gui_step(s, GuiMessage::GpuBlockToggled(id, b));
            &&& task == GuiTask::SetGpuBlockAndLoad(id, b)
            &&& t == GuiState { loading: true, ..s }
        },
        forall|m: u32| #![trigger gui_step(s, GuiMessage::ModeSelected(m))] {
            let (t, task) = gui_step(s, GuiMessage::ModeSelected(m));
            &&& task == GuiTask::SetModeAndLoad(m)
            &&& t == GuiState { loading: true, ..s }
        },
        forall|k: ConfigKey, e: bool| #![trigger gui_step(s, GuiMessage::DaemonConfigToggled(k, e))] {
            let (t, task) = gui_step(s, GuiMessage::DaemonConfigToggled(k, e));
            &&& task == GuiTask::SetConfigAndLoad(k, e)
            &&& t == GuiState { loading: true, ..s }
        },
        forall|p: Page| #![trigger gui_step(s, GuiMessage::SelectPage(p))]
            gui_step(s, GuiMessage::SelectPage(p)) == (GuiState { page: p, ..s }, GuiTask::Nothing),
        forall|m: AppletMode| #![trigger gui_step(s, GuiMessage::ToggleFromChanged(m))] {
            let (t, task) = gui_step(s, GuiMessage::ToggleFromChanged(m));
            &&& task == GuiTask::SaveToggleFrom(m)
            &&& t.applet_config.toggle_from == m
            &&& t.applet_config.toggle_to == (if s.applet_config.toggle_to == m {
                AppletMode::first_except_spec(m)
            } else {
                s.applet_config.toggle_to
            })
            &&& t.window == s.window && t.loading == s.loading && t.page == s.page
        },
        forall|m: AppletMode| #![trigger gui_step(s, GuiMessage::ToggleToChanged(m))] {
            let (t, task) = gui_step(s, GuiMessage::ToggleToChanged(m));
            &&& task == GuiTask::SaveToggleTo(m)
            &&& t.applet_config.toggle_to == m
            &&& t.applet_config.toggle_from == (if s.applet_config.toggle_from == m {
                AppletMode::first_except_spec(m)
            } else {
                s.applet_config.toggle_from
            })
            &&& t.window == s.window && t.loading == s.loading && t.page == s.page
        },
        s.window is Some && !s.loading ==> gui_step(s, GuiMessage::RefreshTick)
            == (GuiState { loading: true, ..s }, GuiTask::Load),
        gui_step(s, GuiMessage::ClearError).0.error is None,
        gui_step(s, GuiMessage::ClearError).1 == GuiTask::Nothing,
        forall|e: String| #![trigger gui_step(s, GuiMessage::AppletSaveFailed(e))]
            gui_step(s, GuiMessage::AppletSaveFailed(e)) == (GuiState { error: Some(e), ..s }, GuiTask::Nothing),
        forall|snap: GuiSnapshot| #![trigger gui_step(s, GuiMessage::SnapshotLoaded(Ok(snap)))]
            gui_step(s, GuiMessage::SnapshotLoaded(Ok(snap)))
                == (GuiState { loading: false, snapshot: Some(snap), ..s }, GuiTask::Nothing),
        forall|e: String| #![trigger gui_step(s, GuiMessage::SnapshotLoaded(Err(e)))]
            gui_step(s, GuiMessage::SnapshotLoaded(Err(e)))
                == (GuiState { loading: false, error: Some(e), ..s }, GuiTask::Nothing),
        forall|id: u64| #![trigger gui_step(s, GuiMessage::WindowOpened(id))]
            gui_step(s, GuiMessage::WindowOpened(id)) == (GuiState { window: Some(id), ..s }, GuiTask::Nothing),
{
}

/// A request for the window opens one only when none is open, and records it at
/// once; with a window open it raises that one. Either way the daemon's state is
/// loaded.
pub proof fn lemma_open_request_records_window(s: GuiState, new_window: u64)
    ensures
        ({
            let (t, task) = gui_step(s, GuiMessage::OpenPoll(true, new_window));
            &&& t.loading
            &&& t.window is Some
            &&& s.window is None ==> t.window == Some(new_window) && task == GuiTask::OpenAndLoad(new_window)
            &&& s.window matches Some(id) ==> t.window == s.window && task == GuiTask::FocusAndLoad(id)
        }),
        gui_step(s, GuiMessage::OpenPoll(false, new_window)).0 == s,
{
}

/// Closing a window other than the open one changes nothing, and after closing the
/// open one no window is open and no refresh loads.
pub proof fn lemma_close_window(s: GuiState, id: u64)
    ensures
        s.window != Some(id) ==> gui_step(s, GuiMessage::WindowClosed(id)).0 == s,
        s.window == Some(id) ==> ({
            let t = gui_step(s, GuiMessage::WindowClosed(id)).0;
            &&& t.window is None
            &&& gui_step(t, GuiMessage::RefreshTick).1 == GuiTask::Nothing
        }),
{
}

/// What stands beside a GPU's entry in the sidebar.
#[derive(Clone, Copy, Debug, PartialEq, Eq, Structural)]
pub enum EntryControl {
    /// Outside Manual mode: nothing.
    Nothing,
    /// In Manual mode, for the default GPU: an empty space.
    Spacer,
    /// In Manual mode, for any other GPU: a checkbox, checked while it is blocked.
    BlockCheckbox(bool),
}

/// A GPU's entry in the sidebar.
pub struct SidebarEntry {
    pub gpu_id: u32,
    pub label: String,
    pub selected: bool,
    pub control: EntryControl,
}

/// The GPU part of the sidebar.
pub enum SidebarBody {
    Gpus(Vec<SidebarEntry>),
    Notice(String),
}

/// A sidebar entry as plain values.
pub open spec fn entry_view(e: SidebarEntry) -> (u32, Seq<char>, bool, EntryControl) {
    (e.gpu_id, e.label@, e.selected, e.control)
}

/// The entry of `g` when `page` is shown and the daemon is in mode `mode`.
pub open spec fn entry_spec(g: GpuInfo, page: Page, mode: u32) -> (u32, Seq<char>, bool, EntryControl) {
    (
        g.id,
        gpu_title_spec(g),
        page == Page::Gpu(g.id),
        if mode != 2 {
            EntryControl::Nothing
        } else if g.is_default {
            EntryControl::Spacer
        } else {
            EntryControl::BlockCheckbox(g.blocked)
        },
    )
}

/// A GPU's sidebar entry names that GPU, is selected exactly on that GPU's page,
/// and in Manual mode carries a checkbox that is checked exactly when the GPU is
/// blocked (the default GPU gets a space instead); outside Manual mode it carries
/// nothing.
pub proof fn lemma_sidebar_entry_follows_gpu(g: GpuInfo, page: Page, mode: u32)
    ensures
        entry_spec(g, page, mode).0 == g.id,
        entry_spec(g, page, mode).1 == gpu_title_spec(g),
        entry_spec(g, page, mode).2 <==> page == Page::Gpu(g.id),
        mode == 2 && !g.is_default ==> entry_spec(g, page, mode).3 == EntryControl::BlockCheckbox(g.blocked),
        mode == 2 && g.is_default ==> entry_spec(g, page, mode).3 == EntryControl::Spacer,
        mode != 2 ==> entry_spec(g, page, mode).3 == EntryControl::Nothing,
{
}

/// Whether `body` is the sidebar of state `s`: an entry per GPU of the snapshot, or a
/// notice when there are none, the window is loading, or nothing was loaded yet.
pub open spec fn is_sidebar_of(body: SidebarBody, s: GuiState) -> bool {
    match s.snapshot {
        Some(snap) => if snap.gpus@.len() == 0 {
            body matches SidebarBody::Notice(t) && t@ == "No GPUs reported"@
        } else {
            body matches SidebarBody::Gpus(entries)
                && entries@.map_values(|e: SidebarEntry| entry_view(e))
                    == snap.gpus@.map_values(|g: GpuInfo| entry_spec(g, s.page, snap.mode))
        },
        None => if s.loading {
            body matches SidebarBody::Notice(t) && t@ == "Loading GPUs..."@
        } else {
            body matches SidebarBody::Notice(t) && t@ == "No daemon snapshot"@
        },
    }
}

/// The body of the Config page.
pub enum ConfigBody {
    /// Nothing has been loaded yet.
    Waiting(String),
    /// The daemon's mode and settings.
    Daemon { mode: u32, settings: Vec<DaemonSetting> },
}

/// The page of one GPU.
pub enum GpuPage {
    Notice(String),
    Details { title: String, info: Vec<(String, String)>, lsof: LsofSection },
}

impl GuiState {
    /// The GPU part of the sidebar.
    pub fn sidebar(&self) -> (body: SidebarBody)
        ensures
            is_sidebar_of(body, *self),
            match self.snapshot {
                Some(snap) => snap.gpus@.len() > 0 ==> (body matches SidebarBody::Gpus(entries)
                    && entries@.len() == snap.gpus@.len() && forall|i: int| 0 <= i < entries@.len() ==> {
                    let g = #[trigger] snap.gpus@[i];
                    let e = entries@[i];
                    &&& e.gpu_id == g.id
                    &&& e.selected == (self.page == Page::Gpu(g.id))
                    &&& (snap.mode == 2 && !g.is_default) ==> e.control == EntryControl::BlockCheckbox(g.blocked)
                    &&& (snap.mode == 2 && g.is_default) ==> e.control == EntryControl::Spacer
                    &&& snap.mode != 2 ==> e.control == EntryControl::Nothing
                }),
                None => true,
            },
    {
        match &self.snapshot {
            Some(snap) => {
                if snap.gpus.len() == 0 {
                    return SidebarBody::Notice(String::from_str("No GPUs reported"));
                }
                let mut entries: Vec<SidebarEntry> = Vec::new();
                let mut i: usize = 0;
                while i < snap.gpus.len()
                    invariant
                        i <= snap.gpus@.len(),
                        entries@.len() == i,
                        forall|j: int| 0 <= j < i ==> entry_view(#[trigger] entries@[j])
                            == entry_spec(snap.gpus@[j], self.page, snap.mode),
                        forall|j: int| 0 <= j < i ==> {
                            let g = #[trigger] snap.gpus@[j];
                            let e = entries@[j];
                            &&& e.gpu_id == g.id
                            &&& e.selected == (self.page == Page::Gpu(g.id))
                            &&& (snap.mode == 2 && !g.is_default) ==> e.control == EntryControl::BlockCheckbox(g.blocked)
                            &&& (snap.mode == 2 && g.is_default) ==> e.control == EntryControl::Spacer
                            &&& snap.mode != 2 ==> e.control == EntryControl::Nothing
                        },
                    decreases snap.gpus@.len() - i,
                {
                    let g = &snap.gpus[i];
                    let control = if snap.mode != 2 {
                        EntryControl::Nothing
                    } else if g.is_default {
                        EntryControl::Spacer
                    } else {
                        EntryControl::BlockCheckbox(g.blocked)
                    };
                    entries.push(SidebarEntry {
                        gpu_id: g.id,
                        label: gpu_title(g),
                        selected: self.page == Page::Gpu(g.id),
                        control,
                    });
                    i = i + 1;
                }
                assert(entries@.map_values(|e: SidebarEntry| entry_view(e))
                    =~= snap.gpus@.map_values(|g: GpuInfo| entry_spec(g, self.page, snap.mode)));
                SidebarBody::Gpus(entries)
            },
            None => {
                if self.loading {
                    SidebarBody::Notice(String::from_str("Loading GPUs..."))
                } else {
                    SidebarBody::Notice(String::from_str("No daemon snapshot"))
                }
            },
        }
    }

    /// The daemon's status line: `Running` or `Unavailable` as last loaded, `Checking`
    /// before the first load.
    pub fn status_text(&self) -> (t: String)
        ensures
            t@ == (match self.snapshot {
                Some(snap) => if snap.daemon_online { "Running"@ } else { "Unavailable"@ },
                None => "Checking"@,
            }),
    {
        match &self.snapshot {
            Some(snap) => {
                if snap.daemon_online {
                    String::from_str("Running")
                } else {
                    String::from_str("Unavailable")
                }
            },
            None => String::from_str("Checking"),
        }
    }

    /// The error panel's text, when there is an error to show: `Error: <message>`.
    pub fn error_text(&self) -> (t: Option<String>)
        ensures
            match self.error {
                Some(e) => t matches Some(text) && text@ == "Error: "@ + e@,
                None => t is None,
            },
    {
        match &self.error {
            Some(e) => {
                let mut text = String::from_str("Error: ");
                text.append(e.as_str());
                Some(text)
            },
            None => None,
        }
    }

    /// The body of the Config page: the daemon's mode and settings, or a waiting notice
    /// before the first load.
    pub fn config_body(&self) -> (b: ConfigBody)
        ensures
            match self.snapshot {
                Some(snap) => b matches ConfigBody::Daemon { mode, settings } && mode == snap.mode
                    && settings@.map_values(|s: DaemonSetting| setting_view(s))
                        == setting_keys_spec().map_values(
                        |k: ConfigKey| (k, setting_label_spec(k), snap.config.get_spec(k)),
                    ),
                None => b matches ConfigBody::Waiting(t) && t@ == "Waiting for daemon data..."@,
            },
    {
        match &self.snapshot {
            Some(snap) => ConfigBody::Daemon { mode: snap.mode, settings: daemon_settings(snap.config) },
            None => ConfigBody::Waiting(String::from_str("Waiting for daemon data...")),
        }
    }

    /// The page of GPU `gpu_id`: a waiting notice before the first load, a notice when
    /// the daemon no longer reports it, else its heading, details and open files.
    pub fn gpu_page(&self, gpu_id: u32) -> (p: GpuPage)
        ensures
            match self.snapshot {
                None => p matches GpuPage::Notice(t) && t@ == "Waiting for daemon data..."@,
                Some(snap) => if !has_gpu(snap.gpus@, gpu_id) {
                    p matches GpuPage::Notice(t) && t@ == "This GPU is no longer reported by Cardwire."@
                } else {
                    forall|k: int| #[trigger] is_first_with_id(snap.gpus@, gpu_id, k) ==> (
                        p matches GpuPage::Details { title, info, lsof }
                        && title@ == gpu_title_spec(snap.gpus@[k])
                        && info@.map_values(|r: (String, String)| row_view(r))
                            == gpu_info_rows_spec(snap.gpus@[k])
                        && is_lsof_section(lsof, snap.gpus@[k].lsof@))
                },
            },
    {
        match &self.snapshot {
            None => GpuPage::Notice(String::from_str("Waiting for daemon data...")),
            Some(snap) => match gpu_position(&snap.gpus, gpu_id) {
                None => GpuPage::Notice(String::from_str("This GPU is no longer reported by Cardwire.")),
                Some(k) => {
                    let g = &snap.gpus[k];
                    proof {
                        assert forall|j: int| #[trigger] is_first_with_id(snap.gpus@, gpu_id, j) implies j == k by {
                            if j < k {
                                assert(snap.gpus@[j].id != gpu_id);
                            } else if j > k {
                                assert(snap.gpus@[k as int].id != gpu_id);
                            }
                        }
                    }
                    GpuPage::Details { title: gpu_title(g), info: gpu_info_rows(g), lsof: lsof_section(&g.lsof) }
                },
            },
        }
    }
}

} // verus!
