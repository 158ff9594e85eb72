use vstd::prelude::*;

verus! {

#[verifier::external_type_specification]
#[verifier::external_body]
pub struct ExReqwestError(reqwest::Error);

#[verifier::external_type_specification]
#[verifier::external_body]
pub struct ExIoError(std::io::Error);

/// Why fetching an asset failed.
#[derive(Debug)]
pub enum DownloadError {
    /// The remote resource could not be retrieved.
    Reqwest(reqwest::Error),
    /// A local step (writing, unpacking, removing, setting permissions) failed.
    IO(std::io::Error),
}

/// What provisioning reports about an asset once it is done.
#[derive(Debug)]
pub enum Report {
    /// The asset is present.
    Found,
    /// The fetch failed with this error.
    Failed(DownloadError),
    /// The fetch claimed success, yet the asset is still absent.
    Missing,
}

/// What the caller does next for the asset.
pub enum EnsureAction {
    /// Run the fetch capability once on the asset's path.
    Fetch,
    /// Check again whether the asset's path exists.
    Recheck,
    /// Log the report; provisioning of this asset is over.
    Finish(Report),
}

/// What the caller observed.
pub enum EnsureEvent {
    /// Whether the asset's path exists.
    Presence(bool),
    /// What the fetch capability returned.
    Fetched(Result<(), DownloadError>),
}

/// Where provisioning of one asset stands.
pub enum EnsureState {
    /// Awaiting the first presence check.
    Checking,
    /// Awaiting the outcome of the fetch.
    Fetching,
    /// Awaiting the presence check after a fetch with this outcome.
    Rechecking(Result<(), DownloadError>),
    /// Done: nothing more is awaited.
    Finished,
}

/// The report for an asset, from whether it existed at first, what the fetch
/// returned and whether it existed afterwards.
pub open spec fn ensure_report(before: bool, fetched: Result<(), DownloadError>, after: bool) -> Report {
    if before {
        Report::Found
    } else {
        match fetched {
            Err(e) => Report::Failed(e),
            Ok(()) => if after {
                Report::Found
            } else {
                Report::Missing
            },
        }
    }
}

impl EnsureState {
    /// The event that this state awaits has the right kind.
    pub open spec fn awaits(self, e: EnsureEvent) -> bool {
        match self {
            EnsureState::Checking => e is Presence,
            EnsureState::Fetching => e is Fetched,
            EnsureState::Rechecking(_) => e is Presence,
            EnsureState::Finished => false,
        }
    }

    /// The state that follows `self` on `e`, and what the caller does then.
    pub open spec fn next(self, e: EnsureEvent) -> (EnsureState, EnsureAction)
        recommends
            self.awaits(e),
    {
        match (self, e) {
            (EnsureState::Checking, EnsureEvent::Presence(true)) => (
                EnsureState::Finished,
                EnsureAction::Finish(Report::Found),
            ),
            (EnsureState::Checking, EnsureEvent::Presence(false)) => (
                EnsureState::Fetching,
                EnsureAction::Fetch,
            ),
            (EnsureState::Fetching, EnsureEvent::Fetched(r)) => (
                EnsureState::Rechecking(r),
                EnsureAction::Recheck,
            ),
            (EnsureState::Rechecking(r), EnsureEvent::Presence(after)) => (
                EnsureState::Finished,
                EnsureAction::Finish(ensure_report(false, r, after)),
            ),
            (s, _) => (s, EnsureAction::Recheck),
        }
    }

    /// Provisioning starts with a presence check.
    pub fn new() -> (r: EnsureState)
        ensures
            r is Checking,
    {
        EnsureState::Checking
    }

    /// Whether `event` is of the kind that this state awaits.
    pub fn accepts(&self, event: &EnsureEvent) -> (r: bool)
        ensures
            r == self.awaits(*event),
    {
        match (self, event) {
            (EnsureState::Checking, EnsureEvent::Presence(_)) => true,
            (EnsureState::Fetching, EnsureEvent::Fetched(_)) => true,
            (EnsureState::Rechecking(_), EnsureEvent::Presence(_)) => true,
            _ => false,
        }
    }

    /// Whether provisioning of the asset is over.
    pub fn is_finished(&self) -> (r: bool)
        ensures
            r == (*self is Finished),
    {
        match self {
            EnsureState::Finished => true,
            _ => false,
        }
    }

    /// Takes in what the caller observed and says what to do next.
    pub fn step(self, event: EnsureEvent) -> (r: (EnsureState, EnsureAction))
        requires
            self.awaits(event),
        ensures
            r == self.next(event),
    {
        match (self, event) {
            (EnsureState::Checking, EnsureEvent::Presence(exists)) => {
                if exists {
                    (EnsureState::Finished, EnsureAction::Finish(Report::Found))
                } else {
                    (EnsureState::Fetching, EnsureAction::Fetch)
                }
            },
            (EnsureState::Fetching, EnsureEvent::Fetched(outcome)) => {
                (EnsureState::Rechecking(outcome), EnsureAction::Recheck)
            },
            (EnsureState::Rechecking(outcome), EnsureEvent::Presence(exists)) => {
                let report = match outcome {
                    Err(e) => Report::Failed(e),
                    Ok(()) => if exists {
                        Report::Found
                    } else {
                        Report::Missing
                    },
                };
                (EnsureState::Finished, EnsureAction::Finish(report))
            },
            (s, _) => (s, EnsureAction::Recheck),
        }
    }
}

/// An asset whose path exists is reported found at once, and the fetch is
/// never run: nothing more is awaited after that first check.
pub proof fn lemma_present_asset_never_fetched(e: EnsureEvent)
    ensures
        EnsureState::Checking.next(EnsureEvent::Presence(true)) == (
            EnsureState::Finished,
            EnsureAction::Finish(Report::Found),
        ),
        !EnsureState::Finished.awaits(e),
{
}

/// Whatever the observations, a run of provisioning fetches exactly when the
/// asset was absent at first, and finishes with `ensure_report` of them.
pub proof fn lemma_run_reports(before: bool, fetched: Result<(), DownloadError>, after: bool)
    ensures
        before ==> EnsureState::Checking.next(EnsureEvent::Presence(before)).1 == EnsureAction::Finish(
            ensure_report(before, fetched, after),
        ),
        !before ==> {
            let (s1, a1) = EnsureState::Checking.next(EnsureEvent::Presence(before));
            let (s2, a2) = s1.next(EnsureEvent::Fetched(fetched));
            let (s3, a3) = s2.next(EnsureEvent::Presence(after));
            &&& a1 is Fetch && s1.awaits(EnsureEvent::Fetched(fetched))
            &&& a2 is Recheck && s2.awaits(EnsureEvent::Presence(after))
            &&& a3 == EnsureAction::Finish(ensure_report(before, fetched, after))
            &&& s3 is Finished
        },
{
}

/// A fetch that succeeds and creates the path leads to the asset being
/// reported found.
pub proof fn lemma_fetch_then_found()
    ensures
        ({
            let (s1, a1) = EnsureState::Checking.next(EnsureEvent::Presence(false));
            let (s2, a2) = s1.next(EnsureEvent::Fetched(Ok(())));
            let (s3, a3) = s2.next(EnsureEvent::Presence(true));
            &&& a1 is Fetch
            &&& a2 is Recheck
            &&& a3 == EnsureAction::Finish(Report::Found)
            &&& s3 is Finished
        }),
{
    lemma_run_reports(false, Ok(()), true);
}

/// A fetch that fails is reported as that failure, not raised, and
/// provisioning still finishes normally, whether or not the path appeared.
pub proof fn lemma_fetch_failure_reported(e: DownloadError, after: bool)
    ensures
        ({
            let (s1, a1) = EnsureState::Checking.next(EnsureEvent::Presence(false));
            let (s2, a2) = s1.next(EnsureEvent::Fetched(Err(e)));
            let (s3, a3) = s2.next(EnsureEvent::Presence(after));
            &&& a1 is Fetch
            &&& a2 is Recheck
            &&& a3 == EnsureAction::Finish(Report::Failed(e))
            &&& s3 is Finished
        }),
{
    lemma_run_reports(false, Err(e), after);
}

} // verus!
