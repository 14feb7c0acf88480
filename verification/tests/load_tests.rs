use vst3_host::load::{
    ClassId, LoadAction, LoadError, LoadEvent, LoadFailure, LoadPhase, Loader, BUF_SIZE, RESULT_OK,
};

const FAIL: i32 = 1;

fn category(text: &str) -> Vec<i8> {
    let mut f: Vec<i8> = text.bytes().map(|b| b as i8).collect();
    f.resize(32, 0);
    f
}

fn cid(n: i8) -> ClassId {
    [n; 16]
}

fn class(result: i32, text: &str, id: i8) -> LoadEvent {
    LoadEvent::ClassInfo { result, category: category(text), cid: cid(id) }
}

/// Drives a loader up to the point where it has read all classes.
fn after_enumeration(classes: Vec<LoadEvent>) -> (Loader, LoadAction) {
    let (mut loader, first) = Loader::new();
    assert!(matches!(first, LoadAction::OpenLibrary));
    assert!(matches!(loader.advance(LoadEvent::LibraryOpened(Ok(()))), LoadAction::FetchFactory));
    assert!(matches!(loader.advance(LoadEvent::FactoryFetched(Ok(true))), LoadAction::CountClasses));
    let n = classes.len() as i32;
    let mut action = loader.advance(LoadEvent::ClassCount(n));
    for (i, c) in classes.into_iter().enumerate() {
        assert!(matches!(action, LoadAction::ReadClass(k) if k == i as i32));
        action = loader.advance(c);
    }
    (loader, action)
}

#[test]
fn full_load_succeeds() {
    let (mut loader, action) = after_enumeration(vec![
        class(RESULT_OK, "Audio Module Class", 1),
        class(RESULT_OK, "Component Controller Class", 2),
    ]);
    assert!(matches!(action, LoadAction::CreateProcessor(c) if c == cid(1)));
    assert!(matches!(loader.advance(LoadEvent::Created(true)), LoadAction::InitializeProcessor));
    assert!(matches!(loader.advance(LoadEvent::Returned(RESULT_OK)), LoadAction::QueryProcessor));
    assert!(matches!(loader.advance(LoadEvent::Queried(true)),
        LoadAction::SetupProcessing { max_block } if max_block == BUF_SIZE as i32));
    assert!(matches!(loader.advance(LoadEvent::Returned(RESULT_OK)), LoadAction::ArrangeStereoOutput));
    assert!(matches!(loader.advance(LoadEvent::Returned(RESULT_OK)), LoadAction::ActivateOutputBus(0)));
    assert!(matches!(loader.advance(LoadEvent::Returned(RESULT_OK)), LoadAction::Activate));
    assert!(matches!(loader.advance(LoadEvent::Returned(RESULT_OK)), LoadAction::StartProcessing));
    assert!(matches!(loader.advance(LoadEvent::Returned(RESULT_OK)), LoadAction::CreateController(c) if c == cid(2)));
    assert!(matches!(loader.advance(LoadEvent::Created(true)), LoadAction::InitializeController));
    assert!(matches!(loader.advance(LoadEvent::Returned(RESULT_OK)), LoadAction::QueryConnections));
    assert!(matches!(loader.advance(LoadEvent::Connections { processor: true, controller: true }),
        LoadAction::ConnectProcessorToController));
    assert!(matches!(loader.advance(LoadEvent::Returned(RESULT_OK)), LoadAction::ConnectControllerToProcessor));
    assert!(matches!(loader.advance(LoadEvent::Returned(RESULT_OK)), LoadAction::Finish(Ok(()))));
    assert!(matches!(loader.phase, LoadPhase::Done));
}

#[test]
fn last_class_of_each_category_is_chosen() {
    let (loader, action) = after_enumeration(vec![
        class(RESULT_OK, "Audio Module Class", 1),
        class(RESULT_OK, "Component Controller Class", 2),
        class(FAIL, "Audio Module Class", 9),
        class(RESULT_OK, "Plugin Compatibility Class", 8),
        class(RESULT_OK, "Audio Module Class", 3),
        class(RESULT_OK, "Component Controller Class", 4),
    ]);
    assert_eq!(loader.processor_class, Some(cid(3)));
    assert_eq!(loader.controller_class, Some(cid(4)));
    assert!(matches!(action, LoadAction::CreateProcessor(c) if c == cid(3)));
}

#[test]
fn missing_classes_stop_the_host() {
    let (_, action) = after_enumeration(vec![class(RESULT_OK, "Component Controller Class", 2)]);
    assert!(matches!(action, LoadAction::Abort(LoadFailure::MissingProcessorClass)));
    let (_, action) = after_enumeration(vec![class(RESULT_OK, "Audio Module Class", 1)]);
    assert!(matches!(action, LoadAction::Abort(LoadFailure::MissingControllerClass)));
    let (_, action) = after_enumeration(vec![]);
    assert!(matches!(action, LoadAction::Abort(LoadFailure::MissingProcessorClass)));
}

#[test]
fn negative_class_count_reads_no_class() {
    let (mut loader, _) = Loader::new();
    loader.advance(LoadEvent::LibraryOpened(Ok(())));
    loader.advance(LoadEvent::FactoryFetched(Ok(true)));
    assert!(matches!(loader.advance(LoadEvent::ClassCount(-3)),
        LoadAction::Abort(LoadFailure::MissingProcessorClass)));
}

#[test]
fn library_and_factory_errors_are_returned() {
    let (mut loader, _) = Loader::new();
    match loader.advance(LoadEvent::LibraryOpened(Err("no such file".to_string()))) {
        LoadAction::Finish(Err(e)) => {
            assert!(matches!(e, LoadError::Library(_)));
            assert_eq!(e.message(), "no such file");
        }
        _ => panic!("library error not returned"),
    }
    let (mut loader, _) = Loader::new();
    loader.advance(LoadEvent::LibraryOpened(Ok(())));
    match loader.advance(LoadEvent::FactoryFetched(Err("undefined symbol".to_string()))) {
        LoadAction::Finish(Err(e)) => assert_eq!(e.message(), "undefined symbol"),
        _ => panic!("factory error not returned"),
    }
    let (mut loader, _) = Loader::new();
    loader.advance(LoadEvent::LibraryOpened(Ok(())));
    assert!(matches!(loader.advance(LoadEvent::FactoryFetched(Ok(false))),
        LoadAction::Abort(LoadFailure::NullFactory)));
}

fn up_to_buses() -> Loader {
    let (mut loader, _) = after_enumeration(vec![
        class(RESULT_OK, "Audio Module Class", 1),
        class(RESULT_OK, "Component Controller Class", 2),
    ]);
    loader.advance(LoadEvent::Created(true));
    loader.advance(LoadEvent::Returned(RESULT_OK));
    loader.advance(LoadEvent::Queried(true));
    assert!(matches!(loader.advance(LoadEvent::Returned(RESULT_OK)), LoadAction::ArrangeStereoOutput));
    loader
}

#[test]
fn refused_stereo_arrangement_lists_buses() {
    let mut loader = up_to_buses();
    assert!(matches!(loader.advance(LoadEvent::Returned(FAIL)), LoadAction::CountOutputBuses));
    assert!(matches!(loader.advance(LoadEvent::BusCount(2)), LoadAction::ReadOutputBus(0)));
    assert!(matches!(loader.advance(LoadEvent::Returned(RESULT_OK)), LoadAction::ReadOutputBus(1)));
    assert!(matches!(loader.advance(LoadEvent::Returned(RESULT_OK)), LoadAction::ActivateOutputBus(0)));

    let mut loader = up_to_buses();
    loader.advance(LoadEvent::Returned(FAIL));
    assert!(matches!(loader.advance(LoadEvent::BusCount(0)), LoadAction::ActivateOutputBus(0)));

    let mut loader = up_to_buses();
    loader.advance(LoadEvent::Returned(FAIL));
    loader.advance(LoadEvent::BusCount(3));
    assert!(matches!(loader.advance(LoadEvent::Returned(FAIL)), LoadAction::Abort(LoadFailure::BusInfoFailed)));
}

#[test]
fn failed_calls_stop_the_host() {
    let (mut loader, _) = after_enumeration(vec![
        class(RESULT_OK, "Audio Module Class", 1),
        class(RESULT_OK, "Component Controller Class", 2),
    ]);
    assert!(matches!(loader.advance(LoadEvent::Created(false)), LoadAction::Abort(LoadFailure::NullProcessor)));

    let mut loader = up_to_buses();
    loader.advance(LoadEvent::Returned(RESULT_OK));
    assert!(matches!(loader.advance(LoadEvent::Returned(FAIL)),
        LoadAction::Abort(LoadFailure::BusActivationFailed)));
}

fn up_to_connections() -> Loader {
    let mut loader = up_to_buses();
    loader.advance(LoadEvent::Returned(RESULT_OK));
    loader.advance(LoadEvent::Returned(RESULT_OK));
    loader.advance(LoadEvent::Returned(RESULT_OK));
    loader.advance(LoadEvent::Returned(RESULT_OK));
    loader.advance(LoadEvent::Created(true));
    assert!(matches!(loader.advance(LoadEvent::Returned(RESULT_OK)), LoadAction::QueryConnections));
    loader
}

#[test]
fn missing_connection_point_is_returned() {
    let mut loader = up_to_connections();
    match loader.advance(LoadEvent::Connections { processor: true, controller: false }) {
        LoadAction::Finish(Err(e)) => assert_eq!(e.message(), "Plugin does not support IConnectionPoint"),
        _ => panic!("missing connection point not returned"),
    }
}

#[test]
fn both_connections_are_made_before_either_is_checked() {
    let mut loader = up_to_connections();
    loader.advance(LoadEvent::Connections { processor: true, controller: true });
    assert!(matches!(loader.advance(LoadEvent::Returned(FAIL)), LoadAction::ConnectControllerToProcessor));
    assert!(matches!(loader.advance(LoadEvent::Returned(RESULT_OK)), LoadAction::Abort(LoadFailure::ConnectFailed)));
}

#[test]
fn out_of_order_answers_stop_the_host() {
    let (mut loader, _) = Loader::new();
    assert!(matches!(loader.advance(LoadEvent::Returned(RESULT_OK)), LoadAction::Abort(LoadFailure::OutOfOrder)));
    assert!(matches!(loader.advance(LoadEvent::LibraryOpened(Ok(()))), LoadAction::Abort(LoadFailure::OutOfOrder)));
}

#[test]
fn success_code_is_the_sdk_one() {
    assert_eq!(RESULT_OK, vst3::Steinberg::kResultOk);
}
