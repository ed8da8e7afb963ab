//! Installing a handler, one registry write at a time.
//!
//! The library plans the writes and decides how the installation goes on;
//! the caller performs each write and reports its outcome:
//!
//! 1. [`install`] plans the writes for an application and its schemes.
//! 2. [`Installation::next_write`] names the write to perform now, if any.
//! 3. [`Installation::record`] takes the outcome of that write.
//! 4. [`Installation::result`] is the result once no write is left to perform.
//!
//! Every write is checked alike. The first one that fails, be it a protocol
//! marker or a command, ends the installation with that failure: no later
//! write is asked for, and nothing that was written before is taken back.

use vstd::prelude::*;
use crate::app::{App, AppView};
use crate::errors::{IoFailure, SystemUriError};
use crate::registry::{
    lemma_written_scheme_is_registered, registered, registration_writes, written_all, Registry,
    RegistryWrite, RegistryWriteView,
};

verus! {

/// What asking for the result of an installation gives while a write is
/// still to be performed.
pub const INSTALLATION_PENDING: &'static str = "the installation has writes left to perform";

/// An installation in progress: the writes it consists of, how many of them
/// have been made, and the failure that ended it, if one did.
#[derive(Debug)]
pub struct Installation {
    writes: Vec<RegistryWrite>,
    completed: usize,
    failure: Option<IoFailure>,
}

/// The state of an [`Installation`] as a mathematical value.
pub struct InstallationView {
    /// All writes of the installation, in order.
    pub writes: Seq<RegistryWriteView>,
    /// How many of them were made and confirmed.
    pub completed: nat,
    /// The failure of the write after those, if it was tried and failed.
    pub failure: Option<IoFailure>,
}

impl InstallationView {
    /// The state before anything was written.
    pub open spec fn start(writes: Seq<RegistryWriteView>) -> InstallationView {
        InstallationView { writes, completed: 0, failure: None }
    }

    /// No more writes are confirmed than there are, and a failure belongs
    /// to a write of the plan.
    pub open spec fn wf(self) -> bool {
        &&& self.completed <= self.writes.len()
        &&& self.failure is Some ==> self.completed < self.writes.len()
    }

    /// Whether a write is still to be performed.
    pub open spec fn pending(self) -> bool {
        self.failure is None && self.completed < self.writes.len()
    }

    /// The write to perform now.
    pub open spec fn next_write(self) -> Option<RegistryWriteView> {
        if self.pending() {
            Some(self.writes[self.completed as int])
        } else {
            None
        }
    }

    /// The state after the write that was due ended with `outcome`. Once
    /// nothing is pending, outcomes change nothing.
    pub open spec fn record(self, outcome: Result<(), IoFailure>) -> InstallationView {
        if !self.pending() {
            self
        } else {
            match outcome {
                Ok(_) => InstallationView { completed: self.completed + 1, ..self },
                Err(failure) => InstallationView { failure: Some(failure), ..self },
            }
        }
    }

    /// The state after a series of outcomes, each recorded in turn.
    pub open spec fn run(self, outcomes: Seq<Result<(), IoFailure>>) -> InstallationView
        decreases outcomes.len(),
    {
        if outcomes.len() == 0 {
            self
        } else {
            self.run(outcomes.drop_last()).record(outcomes.last())
        }
    }

    /// The result of the installation: the failure that ended it, success
    /// if every write was made, and [`INSTALLATION_PENDING`] while a write is
    /// still to be performed.
    pub open spec fn result(self) -> Result<(), SystemUriError> {
        match self.failure {
            Some(failure) => Err(SystemUriError::IoError(failure)),
            None => if self.completed < self.writes.len() {
                Err(SystemUriError::Unexpected(INSTALLATION_PENDING))
            } else {
                Ok(())
            },
        }
    }

    /// The writes that were made, in order.
    pub open spec fn made(self) -> Seq<RegistryWriteView> {
        self.writes.take(self.completed as int)
    }

    /// The write whose failure ended the installation.
    pub open spec fn failed_write(self) -> Option<RegistryWriteView> {
        if self.failure is Some && self.completed < self.writes.len() {
            Some(self.writes[self.completed as int])
        } else {
            None
        }
    }
}

impl View for Installation {
    type V = InstallationView;

    closed spec fn view(&self) -> InstallationView {
        InstallationView {
            writes: Seq::new(self.writes@.len(), |i: int| self.writes@[i]@),
            completed: self.completed as nat,
            failure: self.failure,
        }
    }
}

impl Installation {
    #[verifier::type_invariant]
    spec fn inv(&self) -> bool {
        self@.wf()
    }

    /// The write to perform now, or `None` when the installation is over.
    pub fn next_write(&self) -> (write: Option<&RegistryWrite>)
        ensures
            self@.wf(),
            match write {
                Some(write) => self@.next_write() == Some(write@),
                None => self@.next_write() is None,
            },
    {
        proof {
            use_type_invariant(self);
        }
        if self.failure.is_none() && self.completed < self.writes.len() {
            Some(&self.writes[self.completed])
        } else {
            None
        }
    }

    /// Takes the outcome of the write that [`next_write`](Self::next_write)
    /// named. A success moves on to the next write; a failure ends the
    /// installation. An outcome reported when no write was due is ignored.
    pub fn record(&mut self, outcome: Result<(), IoFailure>)
        ensures
            final(self)@ == old(self)@.record(outcome),
            final(self)@.wf(),
    {
        proof {
            use_type_invariant(&*self);
        }
        if self.failure.is_none() && self.completed < self.writes.len() {
            match outcome {
                Ok(_) => {
                    self.completed = self.completed + 1;
                },
                Err(failure) => {
                    self.failure = Some(failure);
                },
            }
        }
    }

    /// The result of the installation: the failure of the write that ended
    /// it, or success once every write is made. While a write is pending
    /// there is no result yet, which is reported as
    /// [`SystemUriError::Unexpected`] with [`INSTALLATION_PENDING`].
    pub fn result(&self) -> (result: Result<(), SystemUriError>)
        ensures
            result == self@.result(),
    {
        match &self.failure {
            Some(failure) => Err(SystemUriError::IoError(failure.clone())),
            None => if self.completed < self.writes.len() {
                Err(SystemUriError::Unexpected(INSTALLATION_PENDING))
            } else {
                Ok(())
            },
        }
    }

    /// The write whose failure ended the installation, if one did: it tells
    /// which scheme could not be registered.
    pub fn failed_write(&self) -> (write: Option<&RegistryWrite>)
        ensures
            match write {
                Some(write) => self@.failed_write() == Some(write@),
                None => self@.failed_write() is None,
            },
    {
        if self.failure.is_some() && self.completed < self.writes.len() {
            Some(&self.writes[self.completed])
        } else {
            None
        }
    }
}

/// Plans the registration of `app` as the handler of every scheme in
/// `schemes` for the current user. Nothing has been written yet; with no
/// scheme there is nothing to write and the installation has succeeded.
pub fn install(app: &App, schemes: &[String]) -> (run: Installation)
    ensures
        run@ == InstallationView::start(registration_writes(app@, schemes.deep_view())),
{
    let mut writes: Vec<RegistryWrite> = Vec::new();
    let mut i: usize = 0;
    while i < schemes.len()
        invariant
            i <= schemes.len(),
            writes@.len() == 2 * i,
            forall|k: int|
                0 <= k < writes@.len() ==> (#[trigger] writes@[k])@ == registration_writes(
                    app@,
                    schemes.deep_view(),
                )[k],
        decreases schemes.len() - i,
    {
        let scheme = schemes[i].as_str();
        writes.push(RegistryWrite::protocol_marker(app, scheme));
        writes.push(RegistryWrite::open_command(app, scheme));
        i = i + 1;
    }
    let run = Installation { writes, completed: 0, failure: None };
    assert(run@.writes =~= registration_writes(app@, schemes.deep_view()));
    run
}

/// While every write succeeds, an installation goes through its writes in
/// order.
pub proof fn lemma_successes_advance(
    writes: Seq<RegistryWriteView>,
    outcomes: Seq<Result<(), IoFailure>>,
)
    requires
        outcomes.len() <= writes.len(),
        forall|j: int| 0 <= j < outcomes.len() ==> outcomes[j] is Ok,
    ensures
        InstallationView::start(writes).run(outcomes) == (InstallationView {
            writes,
            completed: outcomes.len(),
            failure: None,
        }),
    decreases outcomes.len(),
{
    if outcomes.len() > 0 {
        lemma_successes_advance(writes, outcomes.drop_last());
    }
}

/// An installation whose writes all succeed makes every write and ends in
/// success.
pub proof fn lemma_all_writes_succeed(
    writes: Seq<RegistryWriteView>,
    outcomes: Seq<Result<(), IoFailure>>,
)
    requires
        outcomes.len() == writes.len(),
        forall|j: int| 0 <= j < outcomes.len() ==> outcomes[j] is Ok,
    ensures
        InstallationView::start(writes).run(outcomes).made() == writes,
        InstallationView::start(writes).run(outcomes).next_write() is None,
        InstallationView::start(writes).run(outcomes).result() == Ok::<(), SystemUriError>(()),
{
    lemma_successes_advance(writes, outcomes);
    assert(writes.take(writes.len() as int) =~= writes);
}

/// The first write that fails ends the installation. The writes before it
/// were made and stay made, the result is the failure of that write, and no
/// further write is asked for, whatever is reported afterwards.
pub proof fn lemma_first_failure_ends_installation(
    writes: Seq<RegistryWriteView>,
    outcomes: Seq<Result<(), IoFailure>>,
    k: int,
)
    requires
        0 <= k < writes.len(),
        k < outcomes.len(),
        forall|j: int| 0 <= j < k ==> outcomes[j] is Ok,
        outcomes[k] is Err,
    ensures
        InstallationView::start(writes).run(outcomes).made() == writes.take(k),
        InstallationView::start(writes).run(outcomes).failed_write() == Some(writes[k]),
        InstallationView::start(writes).run(outcomes).next_write() is None,
        InstallationView::start(writes).run(outcomes).result() == Err::<(), SystemUriError>(
            SystemUriError::IoError(outcomes[k]->Err_0),
        ),
    decreases outcomes.len(),
{
    let before = outcomes.drop_last();
    if outcomes.len() == k + 1 {
        lemma_successes_advance(writes, before);
    } else {
        lemma_first_failure_ends_installation(writes, before, k);
    }
}

/// When a write fails, every scheme whose two writes were made before it
/// stays registered: nothing is rolled back.
pub proof fn lemma_failure_keeps_earlier_schemes(
    app: AppView,
    schemes: Seq<Seq<char>>,
    registry: Registry,
    outcomes: Seq<Result<(), IoFailure>>,
    k: int,
    i: int,
)
    requires
        0 <= k < 2 * schemes.len(),
        k < outcomes.len(),
        forall|j: int| 0 <= j < k ==> outcomes[j] is Ok,
        outcomes[k] is Err,
        0 <= i,
        2 * i + 2 <= k,
    ensures
        registered(
            written_all(
                registry,
                InstallationView::start(registration_writes(app, schemes)).run(outcomes).made(),
            ),
            app,
            schemes[i],
        ),
{
    lemma_first_failure_ends_installation(registration_writes(app, schemes), outcomes, k);
    lemma_written_scheme_is_registered(app, schemes, registry, k, i);
}

/// With no scheme there is nothing to write: the installation asks for no
/// write and has succeeded from the start.
pub proof fn lemma_no_scheme_no_write(app: AppView)
    ensures
        registration_writes(app, Seq::empty()).len() == 0,
        InstallationView::start(registration_writes(app, Seq::empty())).next_write() is None,
        InstallationView::start(registration_writes(app, Seq::empty())).result() == Ok::<
            (),
            SystemUriError,
        >(()),
{
}

} // verus!
