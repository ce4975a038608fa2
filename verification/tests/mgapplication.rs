use gpsami::devices::{Capability, Desc, Manager};
use gpsami::drivers;
use gpsami::drivers::{Driver, Error, PortType};
use gpsami::mgapplication::{
    DestinationReply, Effect, MgAction, MgApplication, Notice, Operation, Setting, Settings,
    UiState,
};

fn capability(can_erase: bool, can_erase_only: bool) -> Capability {
    Capability { can_erase, can_erase_only, can_log_enable: false, can_shutoff: false }
}

fn device(id: &str, label: &str, cap: Capability, driver: &str) -> Desc {
    Desc { id: id.to_string(), label: label.to_string(), cap, driver: driver.to_string() }
}

fn application() -> MgApplication {
    MgApplication::new(Manager::new(
        vec![
            device("holux", "Holux M-241", capability(false, true), "m241"),
            device("iblue", "iBlue 747", capability(true, false), "mtk"),
        ],
        vec![
            drivers::Desc {
                id: "m241".to_string(),
                ports: vec![PortType::UsbSerial, PortType::RfComm],
            },
            drivers::Desc { id: "mtk".to_string(), ports: vec![PortType::RfComm] },
        ],
    ))
}

fn selected() -> MgApplication {
    let mut app = application();
    app.process_event(MgAction::ModelChanged("holux".to_string()));
    app.process_event(MgAction::PortChanged("/dev/ttyUSB0".to_string()));
    app
}

fn show(effects: &[Effect]) -> Vec<String> {
    effects.iter().map(|effect| format!("{:?}", effect)).collect()
}

#[test]
fn a_new_application_is_idle_with_nothing_set() {
    let app = application();
    assert_eq!(app.state(), UiState::Idle);
    assert_eq!(app.settings().model, None);
    assert_eq!(app.settings().port, None);
    assert_eq!(app.settings().output_dir, None);
    assert_eq!(app.output_dest_dir(), "");
    assert_eq!(app.device_manager().devices_desc().len(), 2);
}

#[test]
fn start_fills_the_list_of_models() {
    let app = application();
    let effects = app.start();
    assert_eq!(effects.len(), 1);
    match &effects[0] {
        Effect::ShowModels(models) => {
            let rows: Vec<(&str, &str)> =
                models.iter().map(|m| (m.id.as_str(), m.label.as_str())).collect();
            assert_eq!(rows, vec![("holux", "Holux M-241"), ("iblue", "iBlue 747")]);
        }
        other => panic!("{:?}", other),
    }
}

#[test]
fn rescan_selects_what_the_settings_name() {
    let mut app = application();
    app.load_settings(Some(Settings {
        model: Some("iblue".to_string()),
        port: Some("/dev/rfcomm0".to_string()),
        output_dir: Some("/home/me/tracks".to_string()),
    }));
    let effects = app.process_event(MgAction::RescanDevices);
    assert_eq!(effects.len(), 3);
    assert!(matches!(&effects[0], Effect::ShowModels(models) if models.len() == 2));
    assert!(matches!(&effects[1], Effect::SelectModel(id) if id == "iblue"));
    assert!(matches!(&effects[2], Effect::SelectPort(id) if id == "/dev/rfcomm0"));
    assert_eq!(app.state(), UiState::Idle);
}

#[test]
fn settings_that_could_not_be_loaded_are_unset() {
    let mut app = application();
    app.load_settings(Some(Settings {
        model: Some("iblue".to_string()),
        port: None,
        output_dir: None,
    }));
    assert_eq!(app.settings().model.as_deref(), Some("iblue"));
    app.load_settings(None);
    assert_eq!(app.settings().model, None);
    assert_eq!(app.settings().port, None);
    assert_eq!(app.settings().output_dir, None);
    assert_eq!(app.process_event(MgAction::RescanDevices).len(), 1);
}

#[test]
fn a_known_model_sets_capability_and_asks_for_its_ports() {
    let mut app = application();
    let effects = app.process_event(MgAction::ModelChanged("holux".to_string()));
    assert_eq!(
        show(&effects),
        vec![
            "StoreSetting { setting: Model, value: \"holux\" }",
            "AllowEraseAfterDownload(false)",
            "AllowErase(true)",
            "ListPorts([UsbSerial, RfComm])",
        ]
    );
    assert_eq!(app.settings().model.as_deref(), Some("holux"));
    assert_eq!(
        *app.device_manager().device_filter(),
        Some(vec![PortType::UsbSerial, PortType::RfComm])
    );

    let effects = app.process_event(MgAction::ModelChanged("iblue".to_string()));
    assert_eq!(
        show(&effects),
        vec![
            "StoreSetting { setting: Model, value: \"iblue\" }",
            "AllowEraseAfterDownload(true)",
            "AllowErase(false)",
            "ListPorts([RfComm])",
        ]
    );
}

#[test]
fn an_unknown_model_clears_the_selection() {
    let mut app = selected();
    assert!(app.device_manager().get_device().is_some());
    let effects = app.process_event(MgAction::ModelChanged("garmin".to_string()));
    assert_eq!(show(&effects), vec!["StoreSetting { setting: Model, value: \"garmin\" }"]);
    assert_eq!(app.settings().model.as_deref(), Some("garmin"));
    assert!(app.device_manager().get_device().is_none());
    assert_eq!(*app.device_manager().device_filter(), None);

    let mut app = selected();
    let effects = app.process_event(MgAction::ModelChanged(String::new()));
    assert_eq!(show(&effects), vec!["StoreSetting { setting: Model, value: \"\" }"]);
    assert!(app.device_manager().get_device().is_none());
}

#[test]
fn a_port_allows_the_download_unless_it_is_empty() {
    let mut app = application();
    let effects = app.process_event(MgAction::PortChanged("/dev/ttyUSB0".to_string()));
    assert_eq!(
        show(&effects),
        vec!["StoreSetting { setting: Port, value: \"/dev/ttyUSB0\" }", "AllowDownload(true)"]
    );
    assert_eq!(app.settings().port.as_deref(), Some("/dev/ttyUSB0"));
    let effects = app.process_event(MgAction::PortChanged(String::new()));
    assert_eq!(
        show(&effects),
        vec!["StoreSetting { setting: Port, value: \"\" }", "AllowDownload(false)"]
    );
    assert_eq!(app.settings().port.as_deref(), Some(""));
}

#[test]
fn the_output_directory_is_kept_and_saved() {
    let mut app = application();
    let effects = app.process_event(MgAction::SetOutputDir("/home/me/tracks".to_string()));
    assert_eq!(
        show(&effects),
        vec!["StoreSetting { setting: OutputDir, value: \"/home/me/tracks\" }"]
    );
    assert_eq!(app.output_dest_dir(), "/home/me/tracks");
    assert_eq!(app.settings().output_dir.as_deref(), Some("/home/me/tracks"));
}

#[test]
fn start_download_then_done_download_returns_to_idle() {
    let outcomes: Vec<Result<(), Error>> = vec![
        Ok(()),
        Err(Error::Unsupported),
        Err(Error::NoDriver),
        Err(Error::Cancelled),
        Err(Error::WrongArg),
        Err(Error::Failed("boom".to_string())),
        Err(Error::Io("gone".to_string())),
    ];
    for outcome in outcomes {
        let mut app = selected();
        app.process_event(MgAction::StartDownload);
        assert_eq!(app.state(), UiState::InProgress);
        let effects = app.process_event(MgAction::DoneDownload(outcome));
        assert_eq!(app.state(), UiState::Idle);
        assert!(matches!(effects.last(), Some(Effect::ShowState(UiState::Idle))));
    }
}

#[test]
fn start_erase_then_done_erase_returns_to_idle() {
    let mut app = selected();
    let effects = app.process_event(MgAction::StartErase);
    assert_eq!(app.state(), UiState::InProgress);
    assert!(matches!(&effects[0], Effect::ShowState(UiState::InProgress)));
    app.process_event(MgAction::DoneErase(Err(Error::Failed("boom".to_string()))));
    assert_eq!(app.state(), UiState::Idle);
}

#[test]
fn start_download_without_a_driver_posts_no_driver() {
    let mut app = application();
    let effects = app.process_event(MgAction::StartDownload);
    assert_eq!(show(&effects), vec!["ShowState(InProgress)", "Post(DoneDownload(Err(NoDriver)))"]);
    assert_eq!(app.state(), UiState::InProgress);

    // a model alone is not enough
    app.process_event(MgAction::ModelChanged("holux".to_string()));
    let effects = app.process_event(MgAction::StartDownload);
    assert_eq!(show(&effects), vec!["ShowState(InProgress)", "Post(DoneDownload(Err(NoDriver)))"]);
}

#[test]
fn start_erase_without_a_driver_posts_no_driver() {
    let mut app = application();
    let effects = app.process_event(MgAction::StartErase);
    assert_eq!(show(&effects), vec!["ShowState(InProgress)", "Post(DoneErase(Err(NoDriver)))"]);
}

#[test]
fn start_download_with_a_driver_asks_where_to_save() {
    let mut app = selected();
    app.process_event(MgAction::SetOutputDir("/home/me/tracks".to_string()));
    let effects = app.process_event(MgAction::StartDownload);
    assert_eq!(effects.len(), 2);
    assert!(matches!(&effects[0], Effect::ShowState(UiState::InProgress)));
    match &effects[1] {
        Effect::AskDestination { device, folder } => {
            assert_eq!(folder.as_deref(), Some("/home/me/tracks"));
            let erase = device.erase().unwrap();
            assert_eq!(erase.args, vec!["-t", "-w", "-i", "m241,erase_only", "-f", "/dev/ttyUSB0"]);
        }
        other => panic!("{:?}", other),
    }
}

#[test]
fn start_erase_with_a_driver_hands_the_driver_to_a_worker() {
    let mut app = selected();
    let effects = app.process_event(MgAction::StartErase);
    assert_eq!(effects.len(), 2);
    match &effects[1] {
        Effect::Erase(device) => assert!(device.open()),
        other => panic!("{:?}", other),
    }
}

#[test]
fn a_second_start_is_not_turned_away() {
    let mut app = selected();
    app.process_event(MgAction::StartDownload);
    let effects = app.process_event(MgAction::StartDownload);
    assert_eq!(app.state(), UiState::InProgress);
    assert!(matches!(&effects[1], Effect::AskDestination { .. }));
}

#[test]
fn success_and_giving_up_are_quiet() {
    let mut app = application();
    let effects = app.process_event(MgAction::DoneErase(Ok(())));
    assert_eq!(show(&effects), vec!["Notify(Finished(Erase))", "ShowState(Idle)"]);
    let effects = app.process_event(MgAction::DoneErase(Err(Error::Cancelled)));
    assert_eq!(show(&effects), vec!["Notify(Cancelled(Erase))", "ShowState(Idle)"]);
    let effects = app.process_event(MgAction::DoneDownload(Ok(())));
    assert_eq!(show(&effects), vec!["Notify(Finished(Download))", "ShowState(Idle)"]);
    let effects = app.process_event(MgAction::DoneDownload(Err(Error::Cancelled)));
    assert_eq!(show(&effects), vec!["Notify(Cancelled(Download))", "ShowState(Idle)"]);
}

#[test]
fn other_errors_are_reported_with_their_message() {
    let mut app = application();
    let effects =
        app.process_event(MgAction::DoneDownload(Err(Error::Failed("no device".to_string()))));
    assert_eq!(
        show(&effects),
        vec![
            "ReportError { operation: Download, detail: \"Failed: no device\" }",
            "ShowState(Idle)"
        ]
    );
    let effects = app.process_event(MgAction::DoneErase(Err(Error::Unsupported)));
    assert_eq!(
        show(&effects),
        vec!["ReportError { operation: Erase, detail: \"Unsupported\" }", "ShowState(Idle)"]
    );
    let effects = app.process_event(MgAction::DoneErase(Err(Error::NoDriver)));
    assert_eq!(
        show(&effects),
        vec!["ReportError { operation: Erase, detail: \"No driver\" }", "ShowState(Idle)"]
    );
    let effects = app.process_event(MgAction::DoneDownload(Err(Error::WrongArg)));
    assert_eq!(
        show(&effects),
        vec![
            "ReportError { operation: Download, detail: \"Incorrect argument\" }",
            "ShowState(Idle)"
        ]
    );
    let effects = app.process_event(MgAction::DoneDownload(Err(Error::Io("gone".to_string()))));
    assert_eq!(
        show(&effects),
        vec!["ReportError { operation: Download, detail: \"IO error gone\" }", "ShowState(Idle)"]
    );
}

#[test]
fn settings_live_under_three_keys() {
    assert_eq!((Setting::Model.section(), Setting::Model.key()), ("device", "model"));
    assert_eq!((Setting::Port.section(), Setting::Port.key()), ("device", "port"));
    assert_eq!((Setting::OutputDir.section(), Setting::OutputDir.key()), ("output", "dir"));
}

#[test]
fn words_for_the_user() {
    assert_eq!(Notice::Finished(Operation::Erase).text(), "Erase finished.");
    assert_eq!(Notice::Cancelled(Operation::Erase).text(), "Erase cancelled.");
    assert_eq!(Notice::Finished(Operation::Download).text(), "Download finished.");
    assert_eq!(Notice::Cancelled(Operation::Download).text(), "Download cancelled.");
    assert_eq!(Operation::Erase.headline(), "Error erasing GPS data.");
    assert_eq!(Operation::Download.headline(), "Error downloading GPS data.");
}

#[test]
fn a_confirmed_file_starts_the_download() {
    let app = selected();
    let device = app.device_manager().get_device().unwrap();
    let reply = DestinationReply::Save(Some(std::path::PathBuf::from("/home/me/track.gpx")));
    match MgApplication::destination_chosen(device, true, reply) {
        Some(Effect::Download { device, erase, destination }) => {
            assert!(erase);
            assert_eq!(destination, std::path::PathBuf::from("/home/me/track.gpx"));
            assert!(device.open());
        }
        other => panic!("{:?}", other),
    }
}

#[test]
fn a_confirmation_without_a_file_and_a_closed_dialog_start_nothing() {
    let app = selected();
    let device = app.device_manager().get_device().unwrap();
    assert!(MgApplication::destination_chosen(device, false, DestinationReply::Save(None))
        .is_none());
    let device = app.device_manager().get_device().unwrap();
    assert!(MgApplication::destination_chosen(device, false, DestinationReply::Closed).is_none());
}

#[test]
fn any_other_answer_gives_the_download_up() {
    let app = selected();
    let device = app.device_manager().get_device().unwrap();
    let effect = MgApplication::destination_chosen(device, false, DestinationReply::Other);
    assert!(matches!(effect, Some(Effect::Post(MgAction::DoneDownload(Err(Error::Cancelled))))));
}
