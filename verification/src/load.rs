//! The protocol by which the host loads a VST3 bundle: open the library,
//! read its factory, find the processor and controller classes, create and
//! set up both components and connect them. The host performs each call that
//! a `LoadAction` names and answers with the `LoadEvent` that the call gave;
//! `Loader::advance` decides what comes next.
use vstd::prelude::*;
use vstd::string::StrSliceExecFns;
use crate::cstring::{c_field_text, extract_cstring};

verus! {

/// Samples per processing block that the host asks plugins to handle.
pub const BUF_SIZE: usize = 512;

/// The SDK's success code (`kResultOk`).
pub const RESULT_OK: i32 = 0;

/// Category of the class that processes audio.
pub const AUDIO_MODULE_CATEGORY: &'static str = "Audio Module Class";

/// Category of the class that edits parameters and owns the editor.
pub const CONTROLLER_CATEGORY: &'static str = "Component Controller Class";

/// Message with which a load fails when the two components cannot be connected.
pub const NO_CONNECTION_POINT: &'static str = "Plugin does not support IConnectionPoint";

/// A VST3 class identifier.
pub type ClassId = [i8; 16];

/// Where a load stands.
#[derive(Clone, Copy)]
pub enum LoadPhase {
    OpeningLibrary,
    FetchingFactory,
    CountingClasses,
    ReadingClass { index: i32, count: i32 },
    CreatingProcessor,
    InitializingProcessor,
    QueryingProcessor,
    SettingUpProcessing,
    ArrangingBuses,
    CountingBuses,
    ReadingBus { index: i32, count: i32 },
    ActivatingBus,
    Activating,
    StartingProcessing,
    CreatingController,
    InitializingController,
    QueryingConnections,
    ConnectingProcessor,
    ConnectingController { first: i32 },
    Done,
}

/// What the host learnt from the call that the last action asked for.
pub enum LoadEvent {
    /// The library was opened, or the message of the error.
    LibraryOpened(Result<(), String>),
    /// Whether the factory pointer is non-null, or the message of the error.
    FactoryFetched(Result<bool, String>),
    /// What `countClasses` returned.
    ClassCount(i32),
    /// What `getClassInfo` returned, with the raw category field and class id.
    ClassInfo { result: i32, category: Vec<i8>, cid: ClassId },
    /// Whether `createInstance` gave a non-null instance.
    Created(bool),
    /// The result code of the call.
    Returned(i32),
    /// Whether the component implements the interface asked for.
    Queried(bool),
    /// What `getBusCount` returned for audio outputs.
    BusCount(i32),
    /// Whether the processor and the controller implement `IConnectionPoint`.
    Connections { processor: bool, controller: bool },
}

/// Why a load stops the host, as the host's assertions do.
#[derive(Clone, Copy, PartialEq, Eq, Structural)]
pub enum LoadFailure {
    NullFactory,
    MissingProcessorClass,
    MissingControllerClass,
    NullProcessor,
    ProcessorInitFailed,
    NotAudioProcessor,
    SetupFailed,
    BusInfoFailed,
    BusActivationFailed,
    ActivationFailed,
    ProcessingFailed,
    NullController,
    ControllerInitFailed,
    ConnectFailed,
    OutOfOrder,
}

/// Why a load returns an error to its caller.
pub enum LoadError {
    Library(String),
    Factory(String),
    NoConnectionPoint,
}

/// The next call the host is to make, or the end of the load.
pub enum LoadAction {
    OpenLibrary,
    FetchFactory,
    CountClasses,
    ReadClass(i32),
    CreateProcessor(ClassId),
    InitializeProcessor,
    QueryProcessor,
    SetupProcessing { max_block: i32 },
    ArrangeStereoOutput,
    CountOutputBuses,
    ReadOutputBus(i32),
    ActivateOutputBus(i32),
    Activate,
    StartProcessing,
    CreateController(ClassId),
    InitializeController,
    QueryConnections,
    ConnectProcessorToController,
    ConnectControllerToProcessor,
    Finish(Result<(), LoadError>),
    Abort(LoadFailure),
}

/// What a class is to the host, by its category.
#[derive(Clone, Copy, PartialEq, Eq, Structural)]
pub enum ClassRole {
    Processor,
    Controller,
    Other,
}

/// The role of a class whose category reads `category`.
pub open spec fn role_of(category: Seq<char>) -> ClassRole {
    if category == AUDIO_MODULE_CATEGORY@ {
        ClassRole::Processor
    } else if category == CONTROLLER_CATEGORY@ {
        ClassRole::Controller
    } else {
        ClassRole::Other
    }
}

/// The state of one load.
#[derive(Clone, Copy)]
pub struct Loader {
    pub phase: LoadPhase,
    pub processor_class: Option<ClassId>,
    pub controller_class: Option<ClassId>,
}

impl LoadError {
    /// The message the load fails with.
    pub fn message(&self) -> (text: String)
        ensures
            text@ == match self {
                LoadError::Library(m) => m@,
                LoadError::Factory(m) => m@,
                LoadError::NoConnectionPoint => NO_CONNECTION_POINT@,
            },
    {
        match self {
            LoadError::Library(m) => m.clone(),
            LoadError::Factory(m) => m.clone(),
            LoadError::NoConnectionPoint => NO_CONNECTION_POINT.to_string(),
        }
    }
}

/// A successful call.
pub open spec fn is_ok(result: i32) -> bool {
    result == RESULT_OK
}

/// The loader with its phase replaced.
pub open spec fn with_phase(s: Loader, phase: LoadPhase) -> Loader {
    Loader { phase, ..s }
}

/// The load stops the host.
pub open spec fn aborted(s: Loader, why: LoadFailure) -> (Loader, LoadAction) {
    (with_phase(s, LoadPhase::Done), LoadAction::Abort(why))
}

/// A call whose failure stops the host: on success the load goes on to
/// `phase`, asking for `action`.
pub open spec fn checked(s: Loader, result: i32, why: LoadFailure, phase: LoadPhase, action: LoadAction) -> (Loader, LoadAction) {
    if is_ok(result) {
        (with_phase(s, phase), action)
    } else {
        aborted(s, why)
    }
}

/// Once every class has been read: create the processor if both classes
/// were found.
pub open spec fn after_classes(s: Loader) -> (Loader, LoadAction) {
    match (s.processor_class, s.controller_class) {
        (None, _) => aborted(s, LoadFailure::MissingProcessorClass),
        (Some(_), None) => aborted(s, LoadFailure::MissingControllerClass),
        (Some(p), Some(_)) => (with_phase(s, LoadPhase::CreatingProcessor), LoadAction::CreateProcessor(p)),
    }
}

/// Read the class at `index` of `count`, or finish the enumeration.
pub open spec fn next_class(s: Loader, index: int, count: i32) -> (Loader, LoadAction) {
    if index < count {
        (with_phase(s, LoadPhase::ReadingClass { index: index as i32, count }), LoadAction::ReadClass(index as i32))
    } else {
        after_classes(s)
    }
}

/// Read the output bus at `index` of `count`, or activate the first bus.
pub open spec fn next_bus(s: Loader, index: int, count: i32) -> (Loader, LoadAction) {
    if index < count {
        (with_phase(s, LoadPhase::ReadingBus { index: index as i32, count }), LoadAction::ReadOutputBus(index as i32))
    } else {
        (with_phase(s, LoadPhase::ActivatingBus), LoadAction::ActivateOutputBus(0))
    }
}

/// What reading one class does to the classes found: the class becomes the
/// processor class when its category is the audio module's, the controller
/// class when it is the controller's; a failed read changes nothing.
pub open spec fn note_class(s: Loader, result: i32, category: Seq<i8>, cid: ClassId) -> Loader {
    if !is_ok(result) {
        s
    } else {
        match role_of(c_field_text(category)) {
            ClassRole::Processor => Loader { processor_class: Some(cid), ..s },
            ClassRole::Controller => Loader { controller_class: Some(cid), ..s },
            ClassRole::Other => s,
        }
    }
}

/// The transition of a load: from state `s`, on learning `e`, the next state
/// and action. An event that does not answer the pending call stops the host.
pub open spec fn load_step(s: Loader, e: LoadEvent) -> (Loader, LoadAction) {
    match (s.phase, e) {
        (LoadPhase::OpeningLibrary, LoadEvent::LibraryOpened(r)) => match r {
            Ok(_) => (with_phase(s, LoadPhase::FetchingFactory), LoadAction::FetchFactory),
            Err(m) => (with_phase(s, LoadPhase::Done), LoadAction::Finish(Err(LoadError::Library(m)))),
        },
        (LoadPhase::FetchingFactory, LoadEvent::FactoryFetched(r)) => match r {
            Ok(true) => (with_phase(s, LoadPhase::CountingClasses), LoadAction::CountClasses),
            Ok(false) => aborted(s, LoadFailure::NullFactory),
            Err(m) => (with_phase(s, LoadPhase::Done), LoadAction::Finish(Err(LoadError::Factory(m)))),
        },
        (LoadPhase::CountingClasses, LoadEvent::ClassCount(n)) => next_class(s, 0, n),
        (LoadPhase::ReadingClass { index, count }, LoadEvent::ClassInfo { result, category, cid }) =>
            next_class(note_class(s, result, category@, cid), index + 1, count),
        (LoadPhase::CreatingProcessor, LoadEvent::Created(present)) =>
            if present {
                (with_phase(s, LoadPhase::InitializingProcessor), LoadAction::InitializeProcessor)
            } else {
                aborted(s, LoadFailure::NullProcessor)
            },
        (LoadPhase::InitializingProcessor, LoadEvent::Returned(r)) =>
            checked(s, r, LoadFailure::ProcessorInitFailed, LoadPhase::QueryingProcessor, LoadAction::QueryProcessor),
        (LoadPhase::QueryingProcessor, LoadEvent::Queried(present)) =>
            if present {
                (with_phase(s, LoadPhase::SettingUpProcessing), LoadAction::SetupProcessing { max_block: BUF_SIZE as i32 })
            } else {
                aborted(s, LoadFailure::NotAudioProcessor)
            },
        (LoadPhase::SettingUpProcessing, LoadEvent::Returned(r)) =>
            checked(s, r, LoadFailure::SetupFailed, LoadPhase::ArrangingBuses, LoadAction::ArrangeStereoOutput),
        (LoadPhase::ArrangingBuses, LoadEvent::Returned(r)) =>
            if is_ok(r) {
                (with_phase(s, LoadPhase::ActivatingBus), LoadAction::ActivateOutputBus(0))
            } else {
                (with_phase(s, LoadPhase::CountingBuses), LoadAction::CountOutputBuses)
            },
        (LoadPhase::CountingBuses, LoadEvent::BusCount(n)) => next_bus(s, 0, n),
        (LoadPhase::ReadingBus { index, count }, LoadEvent::Returned(r)) =>
            if is_ok(r) {
                next_bus(s, index + 1, count)
            } else {
                aborted(s, LoadFailure::BusInfoFailed)
            },
        (LoadPhase::ActivatingBus, LoadEvent::Returned(r)) =>
            checked(s, r, LoadFailure::BusActivationFailed, LoadPhase::Activating, LoadAction::Activate),
        (LoadPhase::Activating, LoadEvent::Returned(r)) =>
            checked(s, r, LoadFailure::ActivationFailed, LoadPhase::StartingProcessing, LoadAction::StartProcessing),
        (LoadPhase::StartingProcessing, LoadEvent::Returned(r)) =>
            if !is_ok(r) {
                aborted(s, LoadFailure::ProcessingFailed)
            } else {
                match s.controller_class {
                    Some(c) => (with_phase(s, LoadPhase::CreatingController), LoadAction::CreateController(c)),
                    None => aborted(s, LoadFailure::MissingControllerClass),
                }
            },
        (LoadPhase::CreatingController, LoadEvent::Created(present)) =>
            if present {
                (with_phase(s, LoadPhase::InitializingController), LoadAction::InitializeController)
            } else {
                aborted(s, LoadFailure::NullController)
            },
        (LoadPhase::InitializingController, LoadEvent::Returned(r)) =>
            checked(s, r, LoadFailure::ControllerInitFailed, LoadPhase::QueryingConnections, LoadAction::QueryConnections),
        (LoadPhase::QueryingConnections, LoadEvent::Connections { processor, controller }) =>
            if processor && controller {
                (with_phase(s, LoadPhase::ConnectingProcessor), LoadAction::ConnectProcessorToController)
            } else {
                (with_phase(s, LoadPhase::Done), LoadAction::Finish(Err(LoadError::NoConnectionPoint)))
            },
        (LoadPhase::ConnectingProcessor, LoadEvent::Returned(r)) =>
            (with_phase(s, LoadPhase::ConnectingController { first: r }), LoadAction::ConnectControllerToProcessor),
        (LoadPhase::ConnectingController { first }, LoadEvent::Returned(r)) =>
            if is_ok(first) && is_ok(r) {
                (with_phase(s, LoadPhase::Done), LoadAction::Finish(Ok(())))
            } else {
                aborted(s, LoadFailure::ConnectFailed)
            },
        _ => aborted(s, LoadFailure::OutOfOrder),
    }
}

/// The state after answering each call of a load with `events`, in order.
pub open spec fn run_load(s: Loader, events: Seq<LoadEvent>) -> Loader
    decreases events.len(),
{
    if events.len() == 0 {
        s
    } else {
        load_step(run_load(s, events.drop_last()), events.last()).0
    }
}

/// The action asked for after the last of `events` (none is asked for by an
/// empty run).
pub open spec fn last_action(s: Loader, events: Seq<LoadEvent>) -> LoadAction
    recommends
        events.len() > 0,
{
    load_step(run_load(s, events.drop_last()), events.last()).1
}

/// The class id of the last successful class reading among `events` whose
/// category reads `wanted`.
pub open spec fn last_class_with(events: Seq<LoadEvent>, wanted: Seq<char>) -> Option<ClassId>
    decreases events.len(),
{
    if events.len() == 0 {
        None
    } else {
        match events.last() {
            LoadEvent::ClassInfo { result, category, cid } =>
                if is_ok(result) && c_field_text(category@) == wanted {
                    Some(cid)
                } else {
                    last_class_with(events.drop_last(), wanted)
                },
            _ => last_class_with(events.drop_last(), wanted),
        }
    }
}

/// `found`, or `before` when nothing was found.
pub open spec fn or_before(found: Option<ClassId>, before: Option<ClassId>) -> Option<ClassId> {
    match found {
        Some(c) => Some(c),
        None => before,
    }
}

/// Enumerating `count` classes asks for each index from 0 up in turn, and
/// leaves as processor class the last class read successfully whose category
/// reads "Audio Module Class", as controller class the last whose category
/// reads "Component Controller Class" (earlier choices stand where no class
/// qualifies). Once all are read, the processor is created from that class
/// if both were found; otherwise the load stops.
pub proof fn lemma_class_enumeration(s: Loader, count: i32, reads: Seq<LoadEvent>)
    requires
        s.phase is CountingClasses,
        reads.len() <= count,
        forall|i: int| 0 <= i < reads.len() ==> #[trigger] reads[i] is ClassInfo,
    ensures
        ({
            let events = seq![LoadEvent::ClassCount(count)] + reads;
            let t = run_load(s, events);
            &&& t.processor_class == or_before(last_class_with(reads, AUDIO_MODULE_CATEGORY@), s.processor_class)
            &&& t.controller_class == or_before(last_class_with(reads, CONTROLLER_CATEGORY@), s.controller_class)
            &&& reads.len() < count ==> t.phase == (LoadPhase::ReadingClass { index: reads.len() as i32, count })
            &&& reads.len() < count ==> last_action(s, events) == LoadAction::ReadClass(reads.len() as i32)
            &&& reads.len() == count ==> (t, last_action(s, events)) == after_classes(t)
        }),
    decreases reads.len(),
{
    reveal_strlit("Audio Module Class");
    reveal_strlit("Component Controller Class");
    let events = seq![LoadEvent::ClassCount(count)] + reads;
    if reads.len() == 0 {
        assert(events.drop_last() =~= Seq::<LoadEvent>::empty());
    } else {
        let prev = reads.drop_last();
        assert forall|i: int| 0 <= i < prev.len() implies #[trigger] prev[i] is ClassInfo by {
            assert(prev[i] == reads[i]);
        }
        lemma_class_enumeration(s, count, prev);
        assert(events.drop_last() =~= seq![LoadEvent::ClassCount(count)] + prev);
        assert(events.last() == reads.last());
        assert(reads.last() is ClassInfo);
        assert(AUDIO_MODULE_CATEGORY@ != CONTROLLER_CATEGORY@) by {
            assert(AUDIO_MODULE_CATEGORY@[0] != CONTROLLER_CATEGORY@[0]);
        }
    }
}

/// A load that has not begun.
pub open spec fn fresh_loader() -> Loader {
    Loader { phase: LoadPhase::OpeningLibrary, processor_class: None, controller_class: None }
}

/// What holds of every state a load passes through: a class or bus being
/// read has an index from 0 below its count, and from the creation of the
/// processor on, both the processor and the controller class are known.
pub open spec fn load_invariant(s: Loader) -> bool {
    match s.phase {
        LoadPhase::ReadingClass { index, count } => 0 <= index < count,
        LoadPhase::ReadingBus { index, count } => 0 <= index < count && s.processor_class is Some
            && s.controller_class is Some,
        LoadPhase::OpeningLibrary => true,
        LoadPhase::FetchingFactory => true,
        LoadPhase::CountingClasses => true,
        LoadPhase::Done => true,
        _ => s.processor_class is Some && s.controller_class is Some,
    }
}

/// Every step of a load keeps `load_invariant`.
pub proof fn lemma_load_step_keeps_invariant(s: Loader, e: LoadEvent)
    requires
        load_invariant(s),
    ensures
        load_invariant(load_step(s, e).0),
{
}

/// Every state a load reaches from its start satisfies `load_invariant`; in
/// particular, once processing has started the controller class is known,
/// so the load never stops for want of it at that point.
pub proof fn lemma_load_run_keeps_invariant(events: Seq<LoadEvent>)
    ensures
        load_invariant(run_load(fresh_loader(), events)),
        run_load(fresh_loader(), events).phase is StartingProcessing ==> run_load(fresh_loader(), events).controller_class
            is Some,
    decreases events.len(),
{
    if events.len() > 0 {
        lemma_load_run_keeps_invariant(events.drop_last());
        lemma_load_step_keeps_invariant(run_load(fresh_loader(), events.drop_last()), events.last());
    }
}

/// Each call of a load is asked for only in answer to the call that must
/// come before it, and only when that one succeeded: a component is set up
/// only once it is known to be an audio processor, the controller is
/// initialized only once it exists, every output bus is read in order
/// before the first is activated, and so on.
pub proof fn lemma_load_action_follows_its_call(s: Loader, e: LoadEvent)
    ensures
        match load_step(s, e).1 {
            LoadAction::FetchFactory => s.phase is OpeningLibrary && (e matches LoadEvent::LibraryOpened(Ok(_))),
            LoadAction::CountClasses => s.phase is FetchingFactory && e == LoadEvent::FactoryFetched(Ok(true)),
            LoadAction::ReadClass(i) => match (s.phase, e) {
                (LoadPhase::CountingClasses, LoadEvent::ClassCount(n)) => i == 0 && 0 < n,
                (LoadPhase::ReadingClass { index, count }, LoadEvent::ClassInfo { .. }) => i == index + 1 && i < count,
                _ => false,
            },
            LoadAction::CreateProcessor(c) => load_step(s, e).0.processor_class == Some(c)
                && load_step(s, e).0.controller_class is Some && (match (s.phase, e) {
                (LoadPhase::CountingClasses, LoadEvent::ClassCount(n)) => n <= 0,
                (LoadPhase::ReadingClass { index, count }, LoadEvent::ClassInfo { .. }) => index + 1 >= count,
                _ => false,
            }),
            LoadAction::InitializeProcessor => s.phase is CreatingProcessor && e == LoadEvent::Created(true),
            LoadAction::QueryProcessor => s.phase is InitializingProcessor && e == LoadEvent::Returned(RESULT_OK),
            LoadAction::SetupProcessing { max_block } =>
                s.phase is QueryingProcessor && e == LoadEvent::Queried(true) && max_block == 512,
            LoadAction::ArrangeStereoOutput => s.phase is SettingUpProcessing && e == LoadEvent::Returned(RESULT_OK),
            LoadAction::CountOutputBuses => s.phase is ArrangingBuses && (e matches LoadEvent::Returned(r) && r != RESULT_OK),
            LoadAction::ReadOutputBus(i) => match (s.phase, e) {
                (LoadPhase::CountingBuses, LoadEvent::BusCount(n)) => i == 0 && 0 < n,
                (LoadPhase::ReadingBus { index, count }, LoadEvent::Returned(r)) =>
                    r == RESULT_OK && i == index + 1 && i < count,
                _ => false,
            },
            LoadAction::ActivateOutputBus(i) => i == 0 && match (s.phase, e) {
                (LoadPhase::ArrangingBuses, LoadEvent::Returned(r)) => r == RESULT_OK,
                (LoadPhase::CountingBuses, LoadEvent::BusCount(n)) => n <= 0,
                (LoadPhase::ReadingBus { index, count }, LoadEvent::Returned(r)) => r == RESULT_OK && index + 1 >= count,
                _ => false,
            },
            LoadAction::Activate => s.phase is ActivatingBus && e == LoadEvent::Returned(RESULT_OK),
            LoadAction::StartProcessing => s.phase is Activating && e == LoadEvent::Returned(RESULT_OK),
            LoadAction::CreateController(c) =>
                s.phase is StartingProcessing && e == LoadEvent::Returned(RESULT_OK) && s.controller_class == Some(c),
            LoadAction::InitializeController => s.phase is CreatingController && e == LoadEvent::Created(true),
            LoadAction::QueryConnections => s.phase is InitializingController && e == LoadEvent::Returned(RESULT_OK),
            LoadAction::ConnectProcessorToController =>
                s.phase is QueryingConnections && e == (LoadEvent::Connections { processor: true, controller: true }),
            LoadAction::ConnectControllerToProcessor => s.phase is ConnectingProcessor && e is Returned,
            _ => true,
        },
{
}

/// A successful answer moves the load on to the next call of the sequence:
/// factory after library, class count after factory, initialize after
/// create, query after initialize, set-up (of 512-sample blocks) after an
/// audio processor was found, the stereo arrangement after set-up (bus 0 is
/// activated at once when it is accepted, the output buses are counted when
/// it is refused), activation and processing in turn, the controller found
/// by enumeration, its initialization, the connection query, both connect
/// calls, and success once both connects returned success.
pub proof fn lemma_successful_answer_asks_next_call(s: Loader, r: i32)
    ensures
        s.phase is OpeningLibrary ==> load_step(s, LoadEvent::LibraryOpened(Ok(()))).1 is FetchFactory,
        s.phase is FetchingFactory ==> load_step(s, LoadEvent::FactoryFetched(Ok(true))).1 is CountClasses,
        s.phase is CreatingProcessor ==> load_step(s, LoadEvent::Created(true)).1 is InitializeProcessor,
        s.phase is InitializingProcessor ==> load_step(s, LoadEvent::Returned(RESULT_OK)).1 is QueryProcessor,
        s.phase is QueryingProcessor ==> load_step(s, LoadEvent::Queried(true)).1 == (LoadAction::SetupProcessing {
            max_block: 512,
        }),
        s.phase is SettingUpProcessing ==> load_step(s, LoadEvent::Returned(RESULT_OK)).1 is ArrangeStereoOutput,
        s.phase is ArrangingBuses ==> load_step(s, LoadEvent::Returned(RESULT_OK)).1 == LoadAction::ActivateOutputBus(0),
        s.phase is ArrangingBuses && r != RESULT_OK ==> load_step(s, LoadEvent::Returned(r)).1 is CountOutputBuses,
        s.phase is ActivatingBus ==> load_step(s, LoadEvent::Returned(RESULT_OK)).1 is Activate,
        s.phase is Activating ==> load_step(s, LoadEvent::Returned(RESULT_OK)).1 is StartProcessing,
        s.phase is StartingProcessing && s.controller_class is Some ==> load_step(s, LoadEvent::Returned(RESULT_OK)).1
            == LoadAction::CreateController(s.controller_class->0),
        s.phase is CreatingController ==> load_step(s, LoadEvent::Created(true)).1 is InitializeController,
        s.phase is InitializingController ==> load_step(s, LoadEvent::Returned(RESULT_OK)).1 is QueryConnections,
        s.phase is QueryingConnections ==> load_step(s, LoadEvent::Connections { processor: true, controller: true }).1
            is ConnectProcessorToController,
        s.phase is ConnectingProcessor ==> load_step(s, LoadEvent::Returned(r)).1 is ConnectControllerToProcessor
            && load_step(s, LoadEvent::Returned(r)).0.phase == (LoadPhase::ConnectingController { first: r }),
        s.phase == (LoadPhase::ConnectingController { first: RESULT_OK }) ==> load_step(
            s,
            LoadEvent::Returned(RESULT_OK),
        ).1 == LoadAction::Finish(Ok(())),
{
}

/// A component that is missing, or that is not an audio processor, stops
/// the load at once.
pub proof fn lemma_missing_component_aborts(s: Loader)
    ensures
        s.phase is CreatingProcessor ==> load_step(s, LoadEvent::Created(false)) == (with_phase(s, LoadPhase::Done),
            LoadAction::Abort(LoadFailure::NullProcessor)),
        s.phase is QueryingProcessor ==> load_step(s, LoadEvent::Queried(false)) == (with_phase(s, LoadPhase::Done),
            LoadAction::Abort(LoadFailure::NotAudioProcessor)),
        s.phase is CreatingController ==> load_step(s, LoadEvent::Created(false)) == (with_phase(s, LoadPhase::Done),
            LoadAction::Abort(LoadFailure::NullController)),
{
}

/// When the stereo arrangement is refused and `count` output buses are
/// reported, the load reads bus 0, 1, ... in turn, each after the one
/// before was read successfully, and activates bus 0 only once all `count`
/// have been read.
pub proof fn lemma_bus_enumeration(s: Loader, count: i32, reads: nat)
    requires
        s.phase is CountingBuses,
        reads <= count,
    ensures
        ({
            let events = seq![LoadEvent::BusCount(count)] + Seq::new(reads, |i: int| LoadEvent::Returned(RESULT_OK));
            &&& reads < count ==> run_load(s, events).phase == (LoadPhase::ReadingBus { index: reads as i32, count })
            &&& reads < count ==> last_action(s, events) == LoadAction::ReadOutputBus(reads as i32)
            &&& reads == count ==> last_action(s, events) == LoadAction::ActivateOutputBus(0)
            &&& reads == count ==> run_load(s, events).phase is ActivatingBus
        }),
    decreases reads,
{
    let events = seq![LoadEvent::BusCount(count)] + Seq::new(reads, |i: int| LoadEvent::Returned(RESULT_OK));
    if reads == 0 {
        assert(events.drop_last() =~= Seq::<LoadEvent>::empty());
    } else {
        lemma_bus_enumeration(s, count, (reads - 1) as nat);
        let prev = seq![LoadEvent::BusCount(count)] + Seq::new((reads - 1) as nat, |i: int| LoadEvent::Returned(RESULT_OK));
        assert(events.drop_last() =~= prev);
        assert(events.last() == LoadEvent::Returned(RESULT_OK));
    }
}

/// A call whose failure the host asserts against stops the load when it
/// fails.
pub proof fn lemma_failed_checked_call_aborts(s: Loader, result: i32)
    requires
        !is_ok(result),
        ({
            ||| s.phase is InitializingProcessor
            ||| s.phase is SettingUpProcessing
            ||| s.phase is ReadingBus
            ||| s.phase is ActivatingBus
            ||| s.phase is Activating
            ||| s.phase is StartingProcessing
            ||| s.phase is InitializingController
            ||| s.phase is ConnectingController
        }),
    ensures
        load_step(s, LoadEvent::Returned(result)).1 is Abort,
        load_step(s, LoadEvent::Returned(result)).0.phase is Done,
{
}

/// A load succeeds only on the answer to its last call, when both
/// connection calls returned success.
pub proof fn lemma_success_only_after_both_connections(s: Loader, e: LoadEvent)
    requires
        load_step(s, e).1 matches LoadAction::Finish(Ok(_)),
    ensures
        s.phase matches LoadPhase::ConnectingController { first } && is_ok(first),
        e matches LoadEvent::Returned(r) && is_ok(r),
{
}

/// The error that answering `s` with `e` makes the load return, if any:
/// the message of a library or factory that could not be had, or the lack
/// of a connection point.
pub open spec fn error_for(s: Loader, e: LoadEvent) -> Option<LoadError> {
    match (s.phase, e) {
        (LoadPhase::OpeningLibrary, LoadEvent::LibraryOpened(Err(m))) => Some(LoadError::Library(m)),
        (LoadPhase::FetchingFactory, LoadEvent::FactoryFetched(Err(m))) => Some(LoadError::Factory(m)),
        (LoadPhase::QueryingConnections, LoadEvent::Connections { processor, controller }) =>
            if processor && controller {
                None
            } else {
                Some(LoadError::NoConnectionPoint)
            },
        _ => None,
    }
}

/// A load returns an error exactly when the library or its factory could
/// not be had (with their message) or when a component lacks a connection
/// point.
pub proof fn lemma_load_errors(s: Loader, e: LoadEvent)
    ensures
        load_step(s, e).1 matches LoadAction::Finish(Err(err)) ==> error_for(s, e) == Some(err),
        error_for(s, e) matches Some(err) ==> load_step(s, e).1 == LoadAction::Finish(Err(err)),
{
}

/// A load that has ended, by finishing or by stopping the host, stays
/// ended whatever it is told afterwards, and asks for nothing but stopping
/// the host: after a failed call, no later answer makes it succeed.
pub proof fn lemma_ended_load_stays_ended(s: Loader, events: Seq<LoadEvent>)
    requires
        s.phase is Done,
    ensures
        run_load(s, events) == s,
        events.len() > 0 ==> last_action(s, events) == LoadAction::Abort(LoadFailure::OutOfOrder),
    decreases events.len(),
{
    if events.len() > 0 {
        lemma_ended_load_stays_ended(s, events.drop_last());
    }
}

/// Whether `text` reads exactly `expected`.
fn same_text(text: &str, expected: &str) -> (same: bool)
    ensures
        same == (text@ == expected@),
{
    let n = text.unicode_len();
    if n != expected.unicode_len() {
        return false;
    }
    let mut i: usize = 0;
    while i < n
        invariant
            n == text@.len(),
            n == expected@.len(),
            i <= n,
            forall|j: int| 0 <= j < i ==> text@[j] == expected@[j],
        decreases n - i,
    {
        if text.get_char(i) != expected.get_char(i) {
            return false;
        }
        i = i + 1;
    }
    assert(text@ =~= expected@);
    true
}

/// The role of a class whose category text (already read from its C field)
/// is `category`: the audio processor, the edit controller, or neither.
pub fn class_role(category: &str) -> (role: ClassRole)
    ensures
        role == role_of(category@),
{
    if same_text(category, AUDIO_MODULE_CATEGORY) {
        ClassRole::Processor
    } else if same_text(category, CONTROLLER_CATEGORY) {
        ClassRole::Controller
    } else {
        ClassRole::Other
    }
}

impl Loader {
    /// A load that has not begun, and the first call it asks for.
    pub fn new() -> (start: (Loader, LoadAction))
        ensures
            start.0 == fresh_loader(),
            start.1 is OpenLibrary,
    {
        (Loader { phase: LoadPhase::OpeningLibrary, processor_class: None, controller_class: None }, LoadAction::OpenLibrary)
    }

    fn go(&mut self, phase: LoadPhase, action: LoadAction) -> (out: LoadAction)
        ensures
            *final(self) == with_phase(*old(self), phase),
            out == action,
    {
        self.phase = phase;
        action
    }

    fn abort(&mut self, why: LoadFailure) -> (out: LoadAction)
        ensures
            (*final(self), out) == aborted(*old(self), why),
    {
        self.phase = LoadPhase::Done;
        LoadAction::Abort(why)
    }

    fn check(&mut self, result: i32, why: LoadFailure, phase: LoadPhase, action: LoadAction) -> (out: LoadAction)
        ensures
            (*final(self), out) == checked(*old(self), result, why, phase, action),
    {
        if result == RESULT_OK {
            self.go(phase, action)
        } else {
            self.abort(why)
        }
    }

    fn next_class(&mut self, index: i32, count: i32) -> (out: LoadAction)
        ensures
            (*final(self), out) == next_class(*old(self), index as int, count),
    {
        if index < count {
            self.go(LoadPhase::ReadingClass { index, count }, LoadAction::ReadClass(index))
        } else {
            self.after_classes()
        }
    }

    fn after_classes(&mut self) -> (out: LoadAction)
        ensures
            (*final(self), out) == after_classes(*old(self)),
    {
        match (self.processor_class, self.controller_class) {
            (None, _) => self.abort(LoadFailure::MissingProcessorClass),
            (Some(_), None) => self.abort(LoadFailure::MissingControllerClass),
            (Some(p), Some(_)) => self.go(LoadPhase::CreatingProcessor, LoadAction::CreateProcessor(p)),
        }
    }

    fn next_bus(&mut self, index: i32, count: i32) -> (out: LoadAction)
        ensures
            (*final(self), out) == next_bus(*old(self), index as int, count),
    {
        if index < count {
            self.go(LoadPhase::ReadingBus { index, count }, LoadAction::ReadOutputBus(index))
        } else {
            self.go(LoadPhase::ActivatingBus, LoadAction::ActivateOutputBus(0))
        }
    }

    fn note_class(&mut self, result: i32, category: &Vec<i8>, cid: ClassId)
        ensures
            *final(self) == note_class(*old(self), result, category@, cid),
    {
        if result == RESULT_OK {
            let text = extract_cstring(category.as_slice());
            match class_role(text.as_str()) {
                ClassRole::Processor => self.processor_class = Some(cid),
                ClassRole::Controller => self.controller_class = Some(cid),
                ClassRole::Other => {},
            }
        }
    }

    /// Takes in what the last call gave and decides the next call, as
    /// `load_step` describes.
    pub fn advance(&mut self, event: LoadEvent) -> (action: LoadAction)
        ensures
            (*final(self), action) == load_step(*old(self), event),
    {
        match (self.phase, event) {
            (LoadPhase::OpeningLibrary, LoadEvent::LibraryOpened(r)) => match r {
                Ok(_) => self.go(LoadPhase::FetchingFactory, LoadAction::FetchFactory),
                Err(m) => self.go(LoadPhase::Done, LoadAction::Finish(Err(LoadError::Library(m)))),
            },
            (LoadPhase::FetchingFactory, LoadEvent::FactoryFetched(r)) => match r {
                Ok(true) => self.go(LoadPhase::CountingClasses, LoadAction::CountClasses),
                Ok(false) => self.abort(LoadFailure::NullFactory),
                Err(m) => self.go(LoadPhase::Done, LoadAction::Finish(Err(LoadError::Factory(m)))),
            },
            (LoadPhase::CountingClasses, LoadEvent::ClassCount(n)) => self.next_class(0, n),
            (LoadPhase::ReadingClass { index, count }, LoadEvent::ClassInfo { result, category, cid }) => {
                self.note_class(result, &category, cid);
                if index < count {
                    self.next_class(index + 1, count)
                } else {
                    self.after_classes()
                }
            },
            (LoadPhase::CreatingProcessor, LoadEvent::Created(present)) =>
                if present {
                    self.go(LoadPhase::InitializingProcessor, LoadAction::InitializeProcessor)
                } else {
                    self.abort(LoadFailure::NullProcessor)
                },
            (LoadPhase::InitializingProcessor, LoadEvent::Returned(r)) =>
                self.check(r, LoadFailure::ProcessorInitFailed, LoadPhase::QueryingProcessor, LoadAction::QueryProcessor),
            (LoadPhase::QueryingProcessor, LoadEvent::Queried(present)) =>
                if present {
                    self.go(LoadPhase::SettingUpProcessing, LoadAction::SetupProcessing { max_block: BUF_SIZE as i32 })
                } else {
                    self.abort(LoadFailure::NotAudioProcessor)
                },
            (LoadPhase::SettingUpProcessing, LoadEvent::Returned(r)) =>
                self.check(r, LoadFailure::SetupFailed, LoadPhase::ArrangingBuses, LoadAction::ArrangeStereoOutput),
            (LoadPhase::ArrangingBuses, LoadEvent::Returned(r)) =>
                if r == RESULT_OK {
                    self.go(LoadPhase::ActivatingBus, LoadAction::ActivateOutputBus(0))
                } else {
                    self.go(LoadPhase::CountingBuses, LoadAction::CountOutputBuses)
                },
            (LoadPhase::CountingBuses, LoadEvent::BusCount(n)) => self.next_bus(0, n),
            (LoadPhase::ReadingBus { index, count }, LoadEvent::Returned(r)) =>
                if r != RESULT_OK {
                    self.abort(LoadFailure::BusInfoFailed)
                } else if index < count {
                    self.next_bus(index + 1, count)
                } else {
                    self.go(LoadPhase::ActivatingBus, LoadAction::ActivateOutputBus(0))
                },
            (LoadPhase::ActivatingBus, LoadEvent::Returned(r)) =>
                self.check(r, LoadFailure::BusActivationFailed, LoadPhase::Activating, LoadAction::Activate),
            (LoadPhase::Activating, LoadEvent::Returned(r)) =>
                self.check(r, LoadFailure::ActivationFailed, LoadPhase::StartingProcessing, LoadAction::StartProcessing),
            (LoadPhase::StartingProcessing, LoadEvent::Returned(r)) =>
                if r != RESULT_OK {
                    self.abort(LoadFailure::ProcessingFailed)
                } else {
                    match self.controller_class {
                        Some(c) => self.go(LoadPhase::CreatingController, LoadAction::CreateController(c)),
                        None => self.abort(LoadFailure::MissingControllerClass),
                    }
                },
            (LoadPhase::CreatingController, LoadEvent::Created(present)) =>
                if present {
                    self.go(LoadPhase::InitializingController, LoadAction::InitializeController)
                } else {
                    self.abort(LoadFailure::NullController)
                },
            (LoadPhase::InitializingController, LoadEvent::Returned(r)) =>
                self.check(r, LoadFailure::ControllerInitFailed, LoadPhase::QueryingConnections, LoadAction::QueryConnections),
            (LoadPhase::QueryingConnections, LoadEvent::Connections { processor, controller }) =>
                if processor && controller {
                    self.go(LoadPhase::ConnectingProcessor, LoadAction::ConnectProcessorToController)
                } else {
                    self.go(LoadPhase::Done, LoadAction::Finish(Err(LoadError::NoConnectionPoint)))
                },
            (LoadPhase::ConnectingProcessor, LoadEvent::Returned(r)) =>
                self.go(LoadPhase::ConnectingController { first: r }, LoadAction::ConnectControllerToProcessor),
            (LoadPhase::ConnectingController { first }, LoadEvent::Returned(r)) =>
                if first == RESULT_OK && r == RESULT_OK {
                    self.go(LoadPhase::Done, LoadAction::Finish(Ok(())))
                } else {
                    self.abort(LoadFailure::ConnectFailed)
                },
            _ => self.abort(LoadFailure::OutOfOrder),
        }
    }
}

} // verus!
