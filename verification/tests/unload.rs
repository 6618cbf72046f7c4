use relib::errors::UnloadError;
use relib::unload::{BeforeUnload, UnloadAction, UnloadEvent, UnloadStage, Unloading};

fn expect_perform(a: UnloadAction, stage: UnloadStage) {
    match a {
        UnloadAction::Perform(s) => assert_eq!(s, stage),
        _ => panic!("expected to perform {:?}", stage),
    }
}

#[test]
fn successful_unload_runs_every_step_in_order() {
    let (mut u, first) = Unloading::start("lib.so".to_string());
    expect_perform(first, UnloadStage::CallBeforeUnload);
    expect_perform(u.handle(UnloadEvent::BeforeUnloadCalled(BeforeUnload::NotExported)), UnloadStage::CountThreads);
    expect_perform(u.handle(UnloadEvent::ThreadsCounted(0)), UnloadStage::LockAllocator);
    expect_perform(u.handle(UnloadEvent::StepDone), UnloadStage::RunThreadLocalDtors);
    expect_perform(u.handle(UnloadEvent::StepDone), UnloadStage::ReleaseAllocations);
    expect_perform(u.handle(UnloadEvent::StepDone), UnloadStage::CloseLibrary);
    expect_perform(u.handle(UnloadEvent::LibraryClosed(Ok(()))), UnloadStage::CheckUnloaded);
    assert!(matches!(u.handle(UnloadEvent::StillLoaded(false)), UnloadAction::Unloaded));
    assert_eq!(u.current_stage(), UnloadStage::Done);
}

#[test]
fn panicking_before_unload_fails() {
    let (mut u, _) = Unloading::start("lib.so".to_string());
    match u.handle(UnloadEvent::BeforeUnloadCalled(BeforeUnload::Panicked)) {
        UnloadAction::Fail(UnloadError::BeforeUnloadPanicked(p)) => assert_eq!(p, "lib.so"),
        _ => panic!("expected failure"),
    }
    assert_eq!(u.current_stage(), UnloadStage::Done);
}

#[test]
fn running_threads_fail() {
    let (mut u, _) = Unloading::start("m.so".to_string());
    u.handle(UnloadEvent::BeforeUnloadCalled(BeforeUnload::Returned));
    match u.handle(UnloadEvent::ThreadsCounted(2)) {
        UnloadAction::Fail(UnloadError::ThreadsStillRunning(p)) => assert_eq!(p, "m.so"),
        _ => panic!("expected failure"),
    }
}

#[test]
fn close_error_and_still_loaded_fail() {
    let (mut u, _) = Unloading::start("m.so".to_string());
    u.handle(UnloadEvent::BeforeUnloadCalled(BeforeUnload::Returned));
    u.handle(UnloadEvent::ThreadsCounted(0));
    u.handle(UnloadEvent::StepDone);
    u.handle(UnloadEvent::StepDone);
    u.handle(UnloadEvent::StepDone);
    let mut v = Unloading::start("m.so".to_string()).0;
    v.handle(UnloadEvent::BeforeUnloadCalled(BeforeUnload::Returned));
    v.handle(UnloadEvent::ThreadsCounted(0));
    v.handle(UnloadEvent::StepDone);
    v.handle(UnloadEvent::StepDone);
    v.handle(UnloadEvent::StepDone);
    assert!(matches!(
        u.handle(UnloadEvent::LibraryClosed(Err(libloading::Error::DlCloseUnknown))),
        UnloadAction::Fail(UnloadError::Libloading(libloading::Error::DlCloseUnknown))
    ));
    v.handle(UnloadEvent::LibraryClosed(Ok(())));
    match v.handle(UnloadEvent::StillLoaded(true)) {
        UnloadAction::Fail(UnloadError::UnloadingFail(p)) => assert_eq!(p, "m.so"),
        _ => panic!("expected failure"),
    }
}
