//! The order of the steps that unload a module and the checks between them.
//! The host performs each step and reports what happened; these functions
//! decide what comes next.
use vstd::prelude::*;
use crate::errors::UnloadError;
use vstd::string::StringExecFns;

verus! {

/// The step of unloading that the host is asked to perform next.
#[derive(Clone, Copy, PartialEq, Eq, Structural, Debug)]
pub enum UnloadStage {
    /// Call the module's `before_unload` export, if it has one.
    CallBeforeUnload,
    /// Count the threads the module spawned that still run.
    CountThreads,
    /// Stop the module's allocator from serving other threads.
    LockAllocator,
    /// Run the destructors of the module's thread-locals.
    RunThreadLocalDtors,
    /// Collect the module's cached allocator events and free every
    /// allocation it still has.
    ReleaseAllocations,
    /// Close the library.
    CloseLibrary,
    /// Check that the library is no longer mapped into the process.
    CheckUnloaded,
    /// Nothing is left to do.
    Done,
}

/// How the call of `before_unload` went.
#[derive(Clone, Copy, PartialEq, Eq, Structural, Debug)]
pub enum BeforeUnload {
    Returned,
    Panicked,
    /// The module does not export `before_unload`.
    NotExported,
}

/// What the host reports after performing a step.
pub enum UnloadEvent {
    BeforeUnloadCalled(BeforeUnload),
    ThreadsCounted(u64),
    StepDone,
    LibraryClosed(Result<(), libloading::Error>),
    StillLoaded(bool),
}

/// What the host must do next.
pub enum UnloadAction {
    Perform(UnloadStage),
    Unloaded,
    Fail(UnloadError),
}

/// Whether the event reports on the step that was asked for.
pub open spec fn event_fits(stage: UnloadStage, event: UnloadEvent) -> bool {
    match stage {
        UnloadStage::CallBeforeUnload => event is BeforeUnloadCalled,
        UnloadStage::CountThreads => event is ThreadsCounted,
        UnloadStage::LockAllocator => event is StepDone,
        UnloadStage::RunThreadLocalDtors => event is StepDone,
        UnloadStage::ReleaseAllocations => event is StepDone,
        UnloadStage::CloseLibrary => event is LibraryClosed,
        UnloadStage::CheckUnloaded => event is StillLoaded,
        UnloadStage::Done => false,
    }
}

/// Whether the event stops unloading with an error.
pub open spec fn event_fails(event: UnloadEvent) -> bool {
    match event {
        UnloadEvent::BeforeUnloadCalled(b) => b == BeforeUnload::Panicked,
        UnloadEvent::ThreadsCounted(n) => n > 0,
        UnloadEvent::StepDone => false,
        UnloadEvent::LibraryClosed(r) => r is Err,
        UnloadEvent::StillLoaded(loaded) => loaded,
    }
}

/// The step after a step that went well.
pub open spec fn following_stage(stage: UnloadStage) -> UnloadStage {
    match stage {
        UnloadStage::CallBeforeUnload => UnloadStage::CountThreads,
        UnloadStage::CountThreads => UnloadStage::LockAllocator,
        UnloadStage::LockAllocator => UnloadStage::RunThreadLocalDtors,
        UnloadStage::RunThreadLocalDtors => UnloadStage::ReleaseAllocations,
        UnloadStage::ReleaseAllocations => UnloadStage::CloseLibrary,
        UnloadStage::CloseLibrary => UnloadStage::CheckUnloaded,
        UnloadStage::CheckUnloaded => UnloadStage::Done,
        UnloadStage::Done => UnloadStage::Done,
    }
}

/// The stage after an event: the next step, or `Done` after a failure.
pub open spec fn stage_after(stage: UnloadStage, event: UnloadEvent) -> UnloadStage {
    if event_fails(event) {
        UnloadStage::Done
    } else {
        following_stage(stage)
    }
}

/// The error for a failing event, naming the library's path.
pub open spec fn failure_matches(e: UnloadError, event: UnloadEvent, path: Seq<char>) -> bool {
    match event {
        UnloadEvent::BeforeUnloadCalled(_) => e matches UnloadError::BeforeUnloadPanicked(p) && p@ == path,
        UnloadEvent::ThreadsCounted(_) => e matches UnloadError::ThreadsStillRunning(p) && p@ == path,
        UnloadEvent::LibraryClosed(r) => e matches UnloadError::Libloading(err) && r == Err::<(), libloading::Error>(err),
        UnloadEvent::StillLoaded(_) => e matches UnloadError::UnloadingFail(p) && p@ == path,
        UnloadEvent::StepDone => false,
    }
}

/// Unloading of one module, in progress.
pub struct Unloading {
    library_path: String,
    stage: UnloadStage,
}

impl Unloading {
    pub closed spec fn stage(&self) -> UnloadStage {
        self.stage
    }

    pub closed spec fn library_path(&self) -> Seq<char> {
        self.library_path@
    }

    /// Starts unloading the library at `library_path`: first its
    /// `before_unload` export is called.
    pub fn start(library_path: String) -> (r: (Self, UnloadAction))
        ensures
            r.0.stage() == UnloadStage::CallBeforeUnload,
            r.0.library_path() == library_path@,
            r.1 == UnloadAction::Perform(UnloadStage::CallBeforeUnload),
    {
        (Unloading { library_path, stage: UnloadStage::CallBeforeUnload }, UnloadAction::Perform(UnloadStage::CallBeforeUnload))
    }

    /// The stage the unloading is at.
    pub fn current_stage(&self) -> (r: UnloadStage)
        ensures
            r == self.stage(),
    {
        self.stage
    }

    /// Takes in what happened at the current step and decides what comes
    /// next: a panic in `before_unload`, threads still running, a failure
    /// to close the library, or the library still being mapped stop the
    /// unloading with an error naming the library; a missing
    /// `before_unload` is no error; after the last check the module is
    /// unloaded.
    pub fn handle(&mut self, event: UnloadEvent) -> (action: UnloadAction)
        requires
            event_fits(old(self).stage(), event),
        ensures
            final(self).library_path() == old(self).library_path(),
            final(self).stage() == stage_after(old(self).stage(), event),
            event_fails(event) ==> (action matches UnloadAction::Fail(e) && failure_matches(e, event, old(self).library_path())),
            !event_fails(event) && following_stage(old(self).stage()) != UnloadStage::Done ==> action
                == UnloadAction::Perform(following_stage(old(self).stage())),
            !event_fails(event) && following_stage(old(self).stage()) == UnloadStage::Done ==> action
                == UnloadAction::Unloaded,
    {
        let path = String::from_str(self.library_path.as_str());
        match event {
            UnloadEvent::BeforeUnloadCalled(outcome) => {
                match outcome {
                    BeforeUnload::Panicked => {
                        self.stage = UnloadStage::Done;
                        UnloadAction::Fail(UnloadError::BeforeUnloadPanicked(path))
                    },
                    _ => {
                        self.stage = UnloadStage::CountThreads;
                        UnloadAction::Perform(UnloadStage::CountThreads)
                    },
                }
            },
            UnloadEvent::ThreadsCounted(n) => {
                if n > 0 {
                    self.stage = UnloadStage::Done;
                    UnloadAction::Fail(UnloadError::ThreadsStillRunning(path))
                } else {
                    self.stage = UnloadStage::LockAllocator;
                    UnloadAction::Perform(UnloadStage::LockAllocator)
                }
            },
            UnloadEvent::StepDone => {
                let next = match self.stage {
                    UnloadStage::LockAllocator => UnloadStage::RunThreadLocalDtors,
                    UnloadStage::RunThreadLocalDtors => UnloadStage::ReleaseAllocations,
                    _ => UnloadStage::CloseLibrary,
                };
                self.stage = next;
                UnloadAction::Perform(next)
            },
            UnloadEvent::LibraryClosed(result) => {
                match result {
                    Ok(()) => {
                        self.stage = UnloadStage::CheckUnloaded;
                        UnloadAction::Perform(UnloadStage::CheckUnloaded)
                    },
                    Err(e) => {
                        self.stage = UnloadStage::Done;
                        UnloadAction::Fail(UnloadError::Libloading(e))
                    },
                }
            },
            UnloadEvent::StillLoaded(loaded) => {
                self.stage = UnloadStage::Done;
                if loaded {
                    UnloadAction::Fail(UnloadError::UnloadingFail(path))
                } else {
                    UnloadAction::Unloaded
                }
            },
        }
    }
}

/// Where a run of reports leads from a stage: the stage reached and
/// whether a report failed on the way (the run stops there).
pub open spec fn replay_unload(stage: UnloadStage, events: Seq<UnloadEvent>) -> (UnloadStage, bool)
    decreases events.len(),
{
    if events.len() == 0 {
        (stage, false)
    } else if event_fails(events[0]) {
        (UnloadStage::Done, true)
    } else {
        replay_unload(following_stage(stage), events.drop_first())
    }
}

/// Whether every report in the run is about the step it answers.
pub open spec fn reports_fit(stage: UnloadStage, events: Seq<UnloadEvent>) -> bool
    decreases events.len(),
{
    if events.len() == 0 {
        true
    } else {
        event_fits(stage, events[0]) && (event_fails(events[0]) || reports_fit(
            following_stage(stage),
            events.drop_first(),
        ))
    }
}

/// A module is reported unloaded only after every step ran, in order,
/// and every check passed: `before_unload` did not panic, no thread of the
/// module was running, the library closed, and it was no longer mapped.
pub proof fn law_unloaded_only_after_every_step(events: Seq<UnloadEvent>)
    requires
        reports_fit(UnloadStage::CallBeforeUnload, events),
        replay_unload(UnloadStage::CallBeforeUnload, events) == (UnloadStage::Done, false),
    ensures
        events.len() == 7,
        events[0] matches UnloadEvent::BeforeUnloadCalled(b) && b != BeforeUnload::Panicked,
        events[1] == UnloadEvent::ThreadsCounted(0),
        events[2] is StepDone,
        events[3] is StepDone,
        events[4] is StepDone,
        events[5] matches UnloadEvent::LibraryClosed(r) && r is Ok,
        events[6] == UnloadEvent::StillLoaded(false),
{
    let done = (UnloadStage::Done, false);
    assert(events.len() >= 1);
    assert(!event_fails(events[0]));
    let e1 = events.drop_first();
    assert(replay_unload(UnloadStage::CountThreads, e1) == done);
    assert(reports_fit(UnloadStage::CountThreads, e1));
    assert(e1.len() >= 1);
    assert(!event_fails(e1[0]));
    let e2 = e1.drop_first();
    assert(replay_unload(UnloadStage::LockAllocator, e2) == done);
    assert(reports_fit(UnloadStage::LockAllocator, e2));
    assert(e2.len() >= 1);
    let e3 = e2.drop_first();
    assert(replay_unload(UnloadStage::RunThreadLocalDtors, e3) == done);
    assert(reports_fit(UnloadStage::RunThreadLocalDtors, e3));
    assert(e3.len() >= 1);
    let e4 = e3.drop_first();
    assert(replay_unload(UnloadStage::ReleaseAllocations, e4) == done);
    assert(reports_fit(UnloadStage::ReleaseAllocations, e4));
    assert(e4.len() >= 1);
    let e5 = e4.drop_first();
    assert(replay_unload(UnloadStage::CloseLibrary, e5) == done);
    assert(reports_fit(UnloadStage::CloseLibrary, e5));
    assert(e5.len() >= 1);
    assert(!event_fails(e5[0]));
    let e6 = e5.drop_first();
    assert(replay_unload(UnloadStage::CheckUnloaded, e6) == done);
    assert(reports_fit(UnloadStage::CheckUnloaded, e6));
    assert(e6.len() >= 1);
    assert(!event_fails(e6[0]));
    let e7 = e6.drop_first();
    assert(reports_fit(UnloadStage::Done, e7));
    if e7.len() > 0 {
        assert(!event_fits(UnloadStage::Done, e7[0]));
    }
    assert(e1[0] == events[1]);
    assert(e2[0] == events[2]);
    assert(e3[0] == events[3]);
    assert(e4[0] == events[4]);
    assert(e5[0] == events[5]);
    assert(e6[0] == events[6]);
}

} // verus!
