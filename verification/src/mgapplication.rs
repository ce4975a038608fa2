//! The coordinator: one object that takes user actions and finished work, one
//! at a time and in the order sent, and answers each with what has to be done.
//!
//! The coordinator draws nothing and runs nothing. `process_event` changes its
//! state and returns effects; the shell around it carries them out in order,
//! and sends the actions that come of them.

use crate::devices::{Capability, DescView, Manager, ManagerView};
use crate::drivers::{result_view, Error, ErrorView, PortType};
use crate::gpsbabel::{GpsBabel, GpsBabelView};
use std::path::PathBuf;
use std::sync::Arc;
use vstd::prelude::*;

verus! {

/// Whether the user may act, or has to wait for an operation to end.
#[derive(Clone, Copy, Debug, PartialEq, Eq, Structural)]
pub enum UiState {
    Idle,
    InProgress,
}

/// The two operations that run on a device.
#[derive(Clone, Copy, Debug, PartialEq, Eq, Structural)]
pub enum Operation {
    Erase,
    Download,
}

impl Operation {
    /// The headline over a report that this operation failed.
    pub open spec fn headline_text(self) -> Seq<char> {
        match self {
            Operation::Erase => "Error erasing GPS data."@,
            Operation::Download => "Error downloading GPS data."@,
        }
    }

    /// The headline over a report that this operation failed, before it is
    /// put into the language of the user.
    pub fn headline(&self) -> (text: &'static str)
        ensures
            text@ == self.headline_text(),
    {
        match self {
            Operation::Erase => "Error erasing GPS data.",
            Operation::Download => "Error downloading GPS data.",
        }
    }
}

/// A quiet word to the user: an operation ended well, or was given up.
#[derive(Clone, Copy, Debug, PartialEq, Eq, Structural)]
pub enum Notice {
    Finished(Operation),
    Cancelled(Operation),
}

impl Notice {
    pub open spec fn message(self) -> Seq<char> {
        match self {
            Notice::Finished(Operation::Erase) => "Erase finished."@,
            Notice::Cancelled(Operation::Erase) => "Erase cancelled."@,
            Notice::Finished(Operation::Download) => "Download finished."@,
            Notice::Cancelled(Operation::Download) => "Download cancelled."@,
        }
    }

    /// The words of the notice, before they are put into the language of the
    /// user.
    pub fn text(&self) -> (text: &'static str)
        ensures
            text@ == self.message(),
    {
        match self {
            Notice::Finished(Operation::Erase) => "Erase finished.",
            Notice::Cancelled(Operation::Erase) => "Erase cancelled.",
            Notice::Finished(Operation::Download) => "Download finished.",
            Notice::Cancelled(Operation::Download) => "Download cancelled.",
        }
    }
}

/// The values that outlast a session, named by where the settings store
/// keeps them: a section, and a key in it.
#[derive(Clone, Copy, Debug, PartialEq, Eq, Structural)]
pub enum Setting {
    /// `device.model`
    Model,
    /// `device.port`
    Port,
    /// `output.dir`
    OutputDir,
}

impl Setting {
    pub open spec fn section_text(self) -> Seq<char> {
        match self {
            Setting::Model => "device"@,
            Setting::Port => "device"@,
            Setting::OutputDir => "output"@,
        }
    }

    pub open spec fn key_text(self) -> Seq<char> {
        match self {
            Setting::Model => "model"@,
            Setting::Port => "port"@,
            Setting::OutputDir => "dir"@,
        }
    }

    /// The section of the store that holds the value.
    pub fn section(&self) -> (text: &'static str)
        ensures
            text@ == self.section_text(),
    {
        match self {
            Setting::Model => "device",
            Setting::Port => "device",
            Setting::OutputDir => "output",
        }
    }

    /// The key under which the section holds the value.
    pub fn key(&self) -> (text: &'static str)
        ensures
            text@ == self.key_text(),
    {
        match self {
            Setting::Model => "model",
            Setting::Port => "port",
            Setting::OutputDir => "dir",
        }
    }
}

/// What the coordinator is told.
#[derive(Debug)]
pub enum MgAction {
    RescanDevices,
    ModelChanged(String),
    PortChanged(String),
    StartErase,
    DoneErase(Result<(), Error>),
    StartDownload,
    DoneDownload(Result<(), Error>),
    SetOutputDir(String),
}

pub enum MgActionView {
    RescanDevices,
    ModelChanged(Seq<char>),
    PortChanged(Seq<char>),
    StartErase,
    DoneErase(Result<(), ErrorView>),
    StartDownload,
    DoneDownload(Result<(), ErrorView>),
    SetOutputDir(Seq<char>),
}

impl View for MgAction {
    type V = MgActionView;

    open spec fn view(&self) -> MgActionView {
        match self {
            MgAction::RescanDevices => MgActionView::RescanDevices,
            MgAction::ModelChanged(id) => MgActionView::ModelChanged(id@),
            MgAction::PortChanged(id) => MgActionView::PortChanged(id@),
            MgAction::StartErase => MgActionView::StartErase,
            MgAction::DoneErase(result) => MgActionView::DoneErase(result_view(*result)),
            MgAction::StartDownload => MgActionView::StartDownload,
            MgAction::DoneDownload(result) => MgActionView::DoneDownload(result_view(*result)),
            MgAction::SetOutputDir(dir) => MgActionView::SetOutputDir(dir@),
        }
    }
}

impl DeepView for MgAction {
    type V = MgActionView;

    open spec fn deep_view(&self) -> MgActionView {
        self@
    }
}

/// What the settings store holds of each `Setting`, if anything.
#[derive(Debug)]
pub struct Settings {
    pub model: Option<String>,
    pub port: Option<String>,
    pub output_dir: Option<String>,
}

pub struct SettingsView {
    pub model: Option<Seq<char>>,
    pub port: Option<Seq<char>>,
    pub output_dir: Option<Seq<char>>,
}

impl SettingsView {
    /// The settings of a first session: nothing is set.
    pub open spec fn unset() -> SettingsView {
        SettingsView { model: None, port: None, output_dir: None }
    }
}

impl View for Settings {
    type V = SettingsView;

    open spec fn view(&self) -> SettingsView {
        SettingsView {
            model: self.model.deep_view(),
            port: self.port.deep_view(),
            output_dir: self.output_dir.deep_view(),
        }
    }
}

impl Default for Settings {
    fn default() -> (settings: Settings)
        ensures
            settings@ == SettingsView::unset(),
    {
        Settings { model: None, port: None, output_dir: None }
    }
}

/// One line of the list of models.
#[derive(Debug)]
pub struct ModelEntry {
    pub id: String,
    pub label: String,
}

pub struct ModelEntryView {
    pub id: Seq<char>,
    pub label: Seq<char>,
}

impl View for ModelEntry {
    type V = ModelEntryView;

    open spec fn view(&self) -> ModelEntryView {
        ModelEntryView { id: self.id@, label: self.label@ }
    }
}

impl DeepView for ModelEntry {
    type V = ModelEntryView;

    open spec fn deep_view(&self) -> ModelEntryView {
        self@
    }
}

/// What the shell has to do for the coordinator.
#[derive(Debug)]
pub enum Effect {
    /// Replace the list of models with this one.
    ShowModels(Vec<ModelEntry>),
    /// Make this model the active one of the list.
    SelectModel(String),
    /// Make this port the active one of the list.
    SelectPort(String),
    /// Set this value in the settings store, and save the store.
    StoreSetting { setting: Setting, value: String },
    /// Let the user ask for the log to be erased after a download, or not.
    AllowEraseAfterDownload(bool),
    /// Let the user ask for the log to be erased, or not.
    AllowErase(bool),
    /// Scan the host once for each of these port types, and replace the list
    /// of ports with what `Manager::list_ports` makes of the scans.
    ListPorts(Vec<PortType>),
    /// Let the user ask for a download, or not.
    AllowDownload(bool),
    /// Let the user act (`Idle`) or keep them waiting (`InProgress`).
    ShowState(UiState),
    /// Send this action to the coordinator.
    Post(MgAction),
    /// Ask the user where to save the download, starting in `folder`, and
    /// hand the answer to `destination_chosen`.
    AskDestination { device: Arc<GpsBabel>, folder: Option<String> },
    /// Download the log of `device` to `destination` on a worker of its own.
    Download { device: Arc<GpsBabel>, erase: bool, destination: PathBuf },
    /// Erase the log of this device on a worker of its own.
    Erase(Arc<GpsBabel>),
    /// Tell the user, in passing.
    Notify(Notice),
    /// Tell the user that the operation failed, with the error's message.
    ReportError { operation: Operation, detail: String },
}

pub enum EffectView {
    ShowModels(Seq<ModelEntryView>),
    SelectModel(Seq<char>),
    SelectPort(Seq<char>),
    StoreSetting { setting: Setting, value: Seq<char> },
    AllowEraseAfterDownload(bool),
    AllowErase(bool),
    ListPorts(Seq<PortType>),
    AllowDownload(bool),
    ShowState(UiState),
    Post(MgActionView),
    AskDestination { device: GpsBabelView, folder: Option<Seq<char>> },
    Download { device: GpsBabelView, erase: bool, destination: PathBuf },
    Erase(GpsBabelView),
    Notify(Notice),
    ReportError { operation: Operation, detail: Seq<char> },
}

impl View for Effect {
    type V = EffectView;

    open spec fn view(&self) -> EffectView {
        match self {
            Effect::ShowModels(models) => EffectView::ShowModels(models.deep_view()),
            Effect::SelectModel(id) => EffectView::SelectModel(id@),
            Effect::SelectPort(id) => EffectView::SelectPort(id@),
            Effect::StoreSetting { setting, value } => EffectView::StoreSetting {
                setting: *setting,
                value: value@,
            },
            Effect::AllowEraseAfterDownload(allowed) => EffectView::AllowEraseAfterDownload(
                *allowed,
            ),
            Effect::AllowErase(allowed) => EffectView::AllowErase(*allowed),
            Effect::ListPorts(port_types) => EffectView::ListPorts(port_types@),
            Effect::AllowDownload(allowed) => EffectView::AllowDownload(*allowed),
            Effect::ShowState(state) => EffectView::ShowState(*state),
            Effect::Post(action) => EffectView::Post(action@),
            Effect::AskDestination { device, folder } => EffectView::AskDestination {
                device: device@,
                folder: folder.deep_view(),
            },
            Effect::Download { device, erase, destination } => EffectView::Download {
                device: device@,
                erase: *erase,
                destination: *destination,
            },
            Effect::Erase(device) => EffectView::Erase(device@),
            Effect::Notify(notice) => EffectView::Notify(*notice),
            Effect::ReportError { operation, detail } => EffectView::ReportError {
                operation: *operation,
                detail: detail@,
            },
        }
    }
}

impl DeepView for Effect {
    type V = EffectView;

    open spec fn deep_view(&self) -> EffectView {
        self@
    }
}

/// How the user left the dialog that asks where to save.
#[derive(Debug)]
pub enum DestinationReply {
    /// Confirmed, with the file chosen if one was.
    Save(Option<PathBuf>),
    /// The dialog was closed without an answer.
    Closed,
    /// Anything else, the cancel button among it.
    Other,
}

/// What follows from the user's answer. A confirmed file starts the download;
/// a confirmation without a file and a dialog closed without an answer start
/// nothing; everything else gives the download up.
pub open spec fn destination_effect(
    device: GpsBabelView,
    erase: bool,
    reply: Option<Option<PathBuf>>,
) -> Option<EffectView> {
    match reply {
        Some(Some(destination)) => Some(EffectView::Download { device, erase, destination }),
        Some(None) => None,
        None => Some(EffectView::Post(MgActionView::DoneDownload(Err(ErrorView::Cancelled)))),
    }
}

impl DestinationReply {
    /// The reply as `destination_effect` reads it: `Some` of the file for a
    /// confirmation, `Some(None)` also for a closed dialog, `None` otherwise.
    pub open spec fn answer(self) -> Option<Option<PathBuf>> {
        match self {
            DestinationReply::Save(file) => Some(file),
            DestinationReply::Closed => Some(None),
            DestinationReply::Other => None,
        }
    }
}

/// The lines of the list of models: id and label of each descriptor, in
/// table order.
pub open spec fn model_entries(devices: Seq<DescView>) -> Seq<ModelEntryView> {
    Seq::new(devices.len(), |i: int| ModelEntryView { id: devices[i].id, label: devices[i].label })
}

/// One effect if there is a value to make it of, none otherwise.
pub open spec fn for_value(value: Option<Seq<char>>, effect: spec_fn(Seq<char>) -> EffectView) -> Seq<
    EffectView,
> {
    match value {
        Some(text) => seq![effect(text)],
        None => Seq::empty(),
    }
}

/// How the end of an operation is brought to the user. Success and giving up
/// are quiet; every other error is reported under the operation's headline,
/// with the error's message as the detail.
pub open spec fn completion_effect(operation: Operation, result: Result<(), ErrorView>) -> EffectView {
    match result {
        Ok(_) => EffectView::Notify(Notice::Finished(operation)),
        Err(ErrorView::Cancelled) => EffectView::Notify(Notice::Cancelled(operation)),
        Err(error) => EffectView::ReportError { operation, detail: error.message() },
    }
}

pub struct MgApplicationView {
    pub manager: ManagerView,
    pub settings: SettingsView,
    pub output_dest_dir: Seq<char>,
    pub state: UiState,
}

impl MgApplicationView {
    /// The effects that fill the list of models and select what the settings
    /// name.
    pub open spec fn show_models(self) -> Seq<EffectView> {
        seq![EffectView::ShowModels(model_entries(self.manager.devices))] + for_value(
            self.settings.model,
            |id: Seq<char>| EffectView::SelectModel(id),
        ) + for_value(self.settings.port, |id: Seq<char>| EffectView::SelectPort(id))
    }

    /// The effect that starts an operation: the work itself where a driver
    /// can be had, else the operation's end with `NoDriver`, posted at once.
    pub open spec fn start_effect(self, operation: Operation) -> EffectView {
        match (self.manager.device(), operation) {
            (Some(device), Operation::Erase) => EffectView::Erase(device),
            (Some(device), Operation::Download) => EffectView::AskDestination {
                device,
                folder: self.settings.output_dir,
            },
            (None, Operation::Erase) => EffectView::Post(
                MgActionView::DoneErase(Err(ErrorView::NoDriver)),
            ),
            (None, Operation::Download) => EffectView::Post(
                MgActionView::DoneDownload(Err(ErrorView::NoDriver)),
            ),
        }
    }

    /// The state after an action.
    pub open spec fn after(self, action: MgActionView) -> MgApplicationView {
        match action {
            MgActionView::RescanDevices => self,
            MgActionView::ModelChanged(id) => MgApplicationView {
                settings: SettingsView { model: Some(id), ..self.settings },
                manager: if self.manager.device_capability(id) is Some {
                    self.manager.with_model(id)
                } else {
                    self.manager.cleared()
                },
                ..self
            },
            MgActionView::PortChanged(id) => MgApplicationView {
                settings: SettingsView { port: Some(id), ..self.settings },
                manager: self.manager.with_port(id),
                ..self
            },
            MgActionView::StartErase | MgActionView::StartDownload => MgApplicationView {
                state: UiState::InProgress,
                ..self
            },
            MgActionView::DoneErase(_) | MgActionView::DoneDownload(_) => MgApplicationView {
                state: UiState::Idle,
                ..self
            },
            MgActionView::SetOutputDir(dir) => MgApplicationView {
                settings: SettingsView { output_dir: Some(dir), ..self.settings },
                output_dest_dir: dir,
                ..self
            },
        }
    }

    /// The effects of an action, in the order in which they are to be
    /// carried out.
    pub open spec fn effects(self, action: MgActionView) -> Seq<EffectView> {
        match action {
            MgActionView::RescanDevices => self.show_models(),
            MgActionView::ModelChanged(id) => match self.manager.device_capability(id) {
                Some(capability) => seq![
                    EffectView::StoreSetting { setting: Setting::Model, value: id },
                    EffectView::AllowEraseAfterDownload(capability.can_erase),
                    EffectView::AllowErase(capability.can_erase_only),
                    EffectView::ListPorts(self.manager.port_types_for(id)),
                ],
                None => seq![EffectView::StoreSetting { setting: Setting::Model, value: id }],
            },
            MgActionView::PortChanged(id) => seq![
                EffectView::StoreSetting { setting: Setting::Port, value: id },
                EffectView::AllowDownload(id.len() != 0),
            ],
            MgActionView::StartErase => seq![
                EffectView::ShowState(UiState::InProgress),
                self.start_effect(Operation::Erase),
            ],
            MgActionView::DoneErase(result) => seq![
                completion_effect(Operation::Erase, result),
                EffectView::ShowState(UiState::Idle),
            ],
            MgActionView::StartDownload => seq![
                EffectView::ShowState(UiState::InProgress),
                self.start_effect(Operation::Download),
            ],
            MgActionView::DoneDownload(result) => seq![
                completion_effect(Operation::Download, result),
                EffectView::ShowState(UiState::Idle),
            ],
            MgActionView::SetOutputDir(dir) => seq![
                EffectView::StoreSetting { setting: Setting::OutputDir, value: dir },
            ],
        }
    }
}

/// The start of a download keeps the user waiting, and its end lets them act
/// again: whatever the outcome is, and in whatever state the end finds the
/// application.
pub proof fn lemma_download_returns_to_idle(
    app: MgApplicationView,
    outcome: Result<(), ErrorView>,
)
    ensures
        app.after(MgActionView::StartDownload).state == UiState::InProgress,
        app.after(MgActionView::StartDownload).after(MgActionView::DoneDownload(outcome)).state
            == UiState::Idle,
        app.after(MgActionView::DoneDownload(outcome)).state == UiState::Idle,
{
}

/// The same for an erase.
pub proof fn lemma_erase_returns_to_idle(app: MgApplicationView, outcome: Result<(), ErrorView>)
    ensures
        app.after(MgActionView::StartErase).state == UiState::InProgress,
        app.after(MgActionView::StartErase).after(MgActionView::DoneErase(outcome)).state
            == UiState::Idle,
        app.after(MgActionView::DoneErase(outcome)).state == UiState::Idle,
{
}

/// Where no driver can be had, starting an operation starts no work: its end
/// is posted at once, with `NoDriver`. That is so whenever no model or no
/// port is selected.
pub proof fn lemma_no_driver_starts_no_work(app: MgApplicationView)
    requires
        app.manager.model is None || app.manager.port is None || app.manager.device() is None,
    ensures
        app.effects(MgActionView::StartDownload) == seq![
            EffectView::ShowState(UiState::InProgress),
            EffectView::Post(MgActionView::DoneDownload(Err(ErrorView::NoDriver))),
        ],
        app.effects(MgActionView::StartErase) == seq![
            EffectView::ShowState(UiState::InProgress),
            EffectView::Post(MgActionView::DoneErase(Err(ErrorView::NoDriver))),
        ],
{
}

/// No action changes the tables of devices and drivers.
pub proof fn lemma_tables_are_read_only(app: MgApplicationView, action: MgActionView)
    ensures
        app.after(action).manager.devices == app.manager.devices,
        app.after(action).manager.drivers == app.manager.drivers,
{
}

/// Only the end of an operation lets the user act again, and only its start
/// keeps them waiting: every other action leaves the state as it is.
pub proof fn lemma_state_follows_operations(app: MgApplicationView, action: MgActionView)
    ensures
        app.after(action).state == match action {
            MgActionView::StartErase | MgActionView::StartDownload => UiState::InProgress,
            MgActionView::DoneErase(_) | MgActionView::DoneDownload(_) => UiState::Idle,
            _ => app.state,
        },
{
}

/// Adds one effect to a list of effects.
fn push_effect(effects: &mut Vec<Effect>, effect: Effect)
    ensures
        final(effects).deep_view() == old(effects).deep_view().push(effect@),
{
    let ghost before = effects.deep_view();
    effects.push(effect);
    assert(effects.deep_view() =~= before.push(effect@));
}

/// A copy of a text that may be missing.
fn copy_text(text: &Option<String>) -> (copy: Option<String>)
    ensures
        copy.deep_view() == text.deep_view(),
{
    match text {
        Some(text) => Some(text.clone()),
        None => None,
    }
}

/// The application. Holds the device manager, the settings, and whether an
/// operation is under way.
pub struct MgApplication {
    device_manager: Manager,
    settings: Settings,
    output_dest_dir: String,
    state: UiState,
}

impl View for MgApplication {
    type V = MgApplicationView;

    closed spec fn view(&self) -> MgApplicationView {
        MgApplicationView {
            manager: self.device_manager@,
            settings: self.settings@,
            output_dest_dir: self.output_dest_dir@,
            state: self.state,
        }
    }
}

impl MgApplication {
    /// An application around a device manager: idle, with nothing set.
    pub fn new(device_manager: Manager) -> (app: MgApplication)
        ensures
            app@ == (MgApplicationView {
                manager: device_manager@,
                settings: SettingsView::unset(),
                output_dest_dir: Seq::empty(),
                state: UiState::Idle,
            }),
    {
        MgApplication {
            device_manager,
            settings: Settings::default(),
            output_dest_dir: String::new(),
            state: UiState::Idle,
        }
    }

    /// Take over the settings that the store held. Where they could not be
    /// loaded, which is `None`, the application goes on with nothing set.
    pub fn load_settings(&mut self, stored: Option<Settings>)
        ensures
            final(self)@ == (MgApplicationView {
                settings: match stored {
                    Some(settings) => settings@,
                    None => SettingsView::unset(),
                },
                ..old(self)@
            }),
    {
        self.settings = match stored {
            Some(settings) => settings,
            None => Settings::default(),
        };
    }

    /// Start the app: fill the list of models.
    pub fn start(&self) -> (effects: Vec<Effect>)
        ensures
            effects.deep_view() == self@.show_models(),
    {
        self.populate_model_combo()
    }

    pub fn device_manager(&self) -> (manager: &Manager)
        ensures
            manager@ == self@.manager,
    {
        &self.device_manager
    }

    pub fn settings(&self) -> (settings: &Settings)
        ensures
            settings@ == self@.settings,
    {
        &self.settings
    }

    /// The directory that downloads were last saved to.
    pub fn output_dest_dir(&self) -> (dir: &String)
        ensures
            dir@ == self@.output_dest_dir,
    {
        &self.output_dest_dir
    }

    pub fn state(&self) -> (state: UiState)
        ensures
            state == self@.state,
    {
        self.state
    }

    /// What follows from the user's answer to `AskDestination`: the effect to
    /// carry out, if any. `erase` says whether the log is to be erased after
    /// the download.
    pub fn destination_chosen(
        device: Arc<GpsBabel>,
        erase: bool,
        reply: DestinationReply,
    ) -> (effect: Option<Effect>)
        ensures
            effect.deep_view() == destination_effect(device@, erase, reply.answer()),
    {
        match reply {
            DestinationReply::Save(Some(destination)) => Some(
                Effect::Download { device, erase, destination },
            ),
            DestinationReply::Save(None) => None,
            DestinationReply::Closed => None,
            DestinationReply::Other => Some(
                Effect::Post(MgAction::DoneDownload(Err(Error::Cancelled))),
            ),
        }
    }

    fn populate_model_combo(&self) -> (effects: Vec<Effect>)
        ensures
            effects.deep_view() == self@.show_models(),
    {
        let devices = self.device_manager.devices_desc();
        let mut entries: Vec<ModelEntry> = Vec::new();
        let mut i: usize = 0;
        while i < devices.len()
            invariant
                i <= devices.len(),
                entries.len() == i,
                forall|j: int|
                    0 <= j < i ==> entries@[j]@ == (ModelEntryView {
                        id: devices@[j].id@,
                        label: devices@[j].label@,
                    }),
            decreases devices.len() - i,
        {
            entries.push(ModelEntry { id: devices[i].id.clone(), label: devices[i].label.clone() });
            i += 1;
        }
        assert(entries.deep_view() =~= model_entries(self@.manager.devices));

        let mut effects: Vec<Effect> = Vec::new();
        assert(effects.deep_view() =~= Seq::<EffectView>::empty());
        push_effect(&mut effects, Effect::ShowModels(entries));
        match &self.settings.model {
            Some(model) => {
                push_effect(&mut effects, Effect::SelectModel(model.clone()));
            },
            None => {},
        }
        match &self.settings.port {
            Some(port) => {
                push_effect(&mut effects, Effect::SelectPort(port.clone()));
            },
            None => {},
        }
        assert(effects.deep_view() =~= self@.show_models());
        effects
    }

    fn model_changed(&mut self, id: &str, effects: &mut Vec<Effect>)
        ensures
            final(self)@ == old(self)@.after(MgActionView::ModelChanged(id@)),
            final(effects).deep_view() == old(effects).deep_view() + old(self)@.effects(
                MgActionView::ModelChanged(id@),
            ),
    {
        let ghost before = effects.deep_view();
        self.settings.model = Some(id.to_owned());
        push_effect(effects, Effect::StoreSetting { setting: Setting::Model, value: id.to_owned() });

        match self.device_manager.device_capability(id) {
            Some(capability) => {
                self.update_device_capability(&capability, effects);
                self.device_manager.set_model(id);
                let port_types = self.device_manager.get_port_filter_for_model(id);
                push_effect(effects, Effect::ListPorts(port_types));
            },
            None => {
                self.device_manager.clear_selection();
            },
        }
        assert(effects.deep_view() =~= before + old(self)@.effects(
            MgActionView::ModelChanged(id@),
        ));
    }

    fn update_device_capability(&self, capability: &Capability, effects: &mut Vec<Effect>)
        ensures
            final(effects).deep_view() == old(effects).deep_view().push(
                EffectView::AllowEraseAfterDownload(capability.can_erase),
            ).push(EffectView::AllowErase(capability.can_erase_only)),
    {
        push_effect(effects, Effect::AllowEraseAfterDownload(capability.can_erase));
        push_effect(effects, Effect::AllowErase(capability.can_erase_only));
    }

    fn port_changed(&mut self, id: &str, effects: &mut Vec<Effect>)
        ensures
            final(self)@ == old(self)@.after(MgActionView::PortChanged(id@)),
            final(effects).deep_view() == old(effects).deep_view() + old(self)@.effects(
                MgActionView::PortChanged(id@),
            ),
    {
        let ghost before = effects.deep_view();
        self.settings.port = Some(id.to_owned());
        push_effect(effects, Effect::StoreSetting { setting: Setting::Port, value: id.to_owned() });

        self.device_manager.set_port(id);

        push_effect(effects, Effect::AllowDownload(!id.is_empty()));
        assert(effects.deep_view() =~= before + old(self)@.effects(
            MgActionView::PortChanged(id@),
        ));
    }

    fn set_state(&mut self, state: UiState, effects: &mut Vec<Effect>)
        ensures
            final(self)@ == (MgApplicationView { state, ..old(self)@ }),
            final(effects).deep_view() == old(effects).deep_view().push(EffectView::ShowState(state)),
    {
        self.state = state;
        push_effect(effects, Effect::ShowState(state));
    }

    fn do_erase(&self, effects: &mut Vec<Effect>)
        ensures
            final(effects).deep_view() == old(effects).deep_view().push(
                self@.start_effect(Operation::Erase),
            ),
    {
        match self.device_manager.get_device() {
            None => {
                push_effect(effects, Effect::Post(MgAction::DoneErase(Err(Error::NoDriver))));
            },
            Some(device) => {
                push_effect(effects, Effect::Erase(device));
            },
        }
    }

    fn do_download(&self, effects: &mut Vec<Effect>)
        ensures
            final(effects).deep_view() == old(effects).deep_view().push(
                self@.start_effect(Operation::Download),
            ),
    {
        match self.device_manager.get_device() {
            None => {
                push_effect(effects, Effect::Post(MgAction::DoneDownload(Err(Error::NoDriver))));
            },
            Some(device) => {
                let folder = copy_text(&self.settings.output_dir);
                push_effect(effects, Effect::AskDestination { device, folder });
            },
        }
    }

    /// The effect that brings the end of an operation to the user.
    fn report(operation: Operation, result: &Result<(), Error>) -> (effect: Effect)
        ensures
            effect@ == completion_effect(operation, result_view(*result)),
    {
        match result {
            Ok(_) => Effect::Notify(Notice::Finished(operation)),
            Err(Error::Cancelled) => Effect::Notify(Notice::Cancelled(operation)),
            Err(error) => Effect::ReportError { operation, detail: error.message() },
        }
    }

    /// Process one action: change the state as the action asks, and return
    /// what the shell has to do about it, in order.
    pub fn process_event(&mut self, evt: MgAction) -> (effects: Vec<Effect>)
        ensures
            final(self)@ == old(self)@.after(evt@),
            effects.deep_view() == old(self)@.effects(evt@),
    {
        let mut effects: Vec<Effect> = Vec::new();
        assert(effects.deep_view() =~= Seq::<EffectView>::empty());
        match evt {
            MgAction::RescanDevices => {
                effects = self.populate_model_combo();
            },
            MgAction::ModelChanged(id) => {
                self.model_changed(id.as_str(), &mut effects);
            },
            MgAction::PortChanged(id) => {
                self.port_changed(id.as_str(), &mut effects);
            },
            MgAction::StartErase => {
                self.set_state(UiState::InProgress, &mut effects);
                self.do_erase(&mut effects);
            },
            MgAction::DoneErase(result) => {
                push_effect(&mut effects, Self::report(Operation::Erase, &result));
                self.set_state(UiState::Idle, &mut effects);
            },
            MgAction::StartDownload => {
                self.set_state(UiState::InProgress, &mut effects);
                self.do_download(&mut effects);
            },
            MgAction::DoneDownload(result) => {
                push_effect(&mut effects, Self::report(Operation::Download, &result));
                self.set_state(UiState::Idle, &mut effects);
            },
            MgAction::SetOutputDir(dir) => {
                self.settings.output_dir = Some(dir.clone());
                self.output_dest_dir = dir.clone();
                push_effect(
                    &mut effects,
                    Effect::StoreSetting { setting: Setting::OutputDir, value: dir },
                );
            },
        }
        assert(effects.deep_view() =~= old(self)@.effects(evt@));
        effects
    }
}

} // verus!
