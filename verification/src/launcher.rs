//! The pool launcher: one connection after the other, and on each
//! connection its workers.
//!
//! Connecting and spawning are the caller's work. While the launcher is
//! [`pending`](Launcher::pending) the caller makes one connection and hands
//! the outcome to [`launch_tasks`], which counts the connection and returns
//! the workers to spawn on it, or says that the run must be given up.

use vstd::prelude::*;
use crate::config::{Config, ConfigView};
use crate::error::BootstrapError;
use crate::identity::{is_store_identity, unique_store_name};
use crate::metrics::{Metrics, MetricsView};
use crate::worker::{Worker, WorkerView};

verus! {

/// The state of the launch of a pool.
#[derive(Debug, PartialEq, Eq)]
pub struct Launcher {
    /// The number of workers to spawn on each connection.
    pub concurrency: usize,
    /// The configured name of the store.
    pub store_name: String,
    /// The deadline of each request, in nanoseconds.
    pub request_timeout: u64,
    /// The number of connections that are still to be made.
    pub remaining: usize,
    /// Whether a connection has failed.
    pub aborted: bool,
}

/// What the caller does after a connection attempt.
#[derive(Debug, PartialEq, Eq)]
pub enum Launch {
    /// Spawn these workers on the connection that was just made. They share
    /// the connection, the queue and one store identity.
    Spawn(Vec<Worker>),
    /// Give up the run: print the diagnostic and end the process.
    Abort(BootstrapError),
    /// Nothing: no connection was asked for.
    Finished,
}

/// A launcher, as a mathematical value.
pub struct LauncherView {
    pub concurrency: usize,
    pub store_name: Seq<char>,
    pub request_timeout: u64,
    pub remaining: usize,
    pub aborted: bool,
}

/// An answer of the launcher, as a mathematical value.
pub enum LaunchView {
    Spawn(Seq<WorkerView>),
    Abort(BootstrapError),
    Finished,
}

/// Workers, as mathematical values.
pub open spec fn worker_views(workers: Seq<Worker>) -> Seq<WorkerView> {
    Seq::new(workers.len(), |i: int| workers[i]@)
}

impl View for Launcher {
    type V = LauncherView;

    open spec fn view(&self) -> LauncherView {
        LauncherView {
            concurrency: self.concurrency,
            store_name: self.store_name@,
            request_timeout: self.request_timeout,
            remaining: self.remaining,
            aborted: self.aborted,
        }
    }
}

impl View for Launch {
    type V = LaunchView;

    open spec fn view(&self) -> LaunchView {
        match self {
            Launch::Spawn(workers) => LaunchView::Spawn(worker_views(workers@)),
            Launch::Abort(error) => LaunchView::Abort(*error),
            Launch::Finished => LaunchView::Finished,
        }
    }
}

impl LauncherView {
    /// The launcher of a pool with this configuration, before the first
    /// connection. The configuration has no defect.
    pub open spec fn of(config: ConfigView) -> LauncherView {
        let storage = config.storage->0;
        LauncherView {
            concurrency: storage.concurrency,
            store_name: storage.store_name->0,
            request_timeout: storage.request_timeout,
            remaining: storage.poolsize,
            aborted: false,
        }
    }

    /// Whether the caller is to make another connection.
    pub open spec fn pending(self) -> bool {
        !self.aborted && self.remaining > 0
    }

    /// The workers of one connection that works on the store `identity`:
    /// `concurrency` of them, all alike, none of which has done anything.
    pub open spec fn workers(self, identity: Seq<char>) -> Seq<WorkerView> {
        Seq::new(
            self.concurrency as nat,
            |i: int| WorkerView::fresh(identity, self.request_timeout),
        )
    }
}

/// A launcher, a registry and an answer: what one connection attempt gives.
pub struct LaunchStep {
    pub launcher: LauncherView,
    pub metrics: MetricsView,
    pub launch: LaunchView,
}

/// What a connection that was made gives, where the connection works on
/// the store `identity`: the connection is counted, one fewer remains, if
/// any did, and its workers are to be spawned.
pub open spec fn on_connected(
    launcher: LauncherView,
    metrics: MetricsView,
    identity: Seq<char>,
) -> LaunchStep {
    LaunchStep {
        launcher: LauncherView {
            remaining: if launcher.remaining > 0 {
                (launcher.remaining - 1) as usize
            } else {
                0
            },
            ..launcher
        },
        metrics: metrics.with_connection(),
        launch: LaunchView::Spawn(launcher.workers(identity)),
    }
}

/// What a connection that failed with `error` gives: the launch is aborted
/// and nothing is counted.
pub open spec fn on_failed(
    launcher: LauncherView,
    metrics: MetricsView,
    error: BootstrapError,
) -> LaunchStep {
    LaunchStep {
        launcher: LauncherView { aborted: true, ..launcher },
        metrics,
        launch: LaunchView::Abort(error),
    }
}

/// What an attempt gives that the launcher had not asked for: nothing.
pub open spec fn on_idle(launcher: LauncherView, metrics: MetricsView) -> LaunchStep {
    LaunchStep { launcher, metrics, launch: LaunchView::Finished }
}

/// Whether `after` is what one connection attempt may give. An attempt that
/// the launcher had not asked for gives [`on_idle`], a failed one
/// [`on_failed`], and a connection that was made gives [`on_connected`] for
/// some identity of the configured store.
pub open spec fn launches(
    launcher: LauncherView,
    metrics: MetricsView,
    connected: Result<(), BootstrapError>,
    after: LaunchStep,
) -> bool {
    if !launcher.pending() {
        after == on_idle(launcher, metrics)
    } else {
        match connected {
            Ok(_) => exists|identity: Seq<char>|
                is_store_identity(identity, launcher.store_name) && after
                    == #[trigger] on_connected(launcher, metrics, identity),
            Err(error) => after == on_failed(launcher, metrics, error),
        }
    }
}

impl Launcher {
    /// The launcher of a pool with this configuration, or what is wrong
    /// with the configuration.
    pub fn new(config: Config) -> (result: Result<Launcher, BootstrapError>)
        ensures
            match config@.defect() {
                Some(error) => result == Err::<Launcher, BootstrapError>(error),
                None => result is Ok && result->Ok_0@ == LauncherView::of(config@),
            },
    {
        let storage = match config.storage {
            Some(storage) => storage,
            None => {
                return Err(BootstrapError::MissingStoreConfig);
            },
        };
        if storage.poolsize == 0 {
            return Err(BootstrapError::InvalidPoolsize);
        }
        if storage.concurrency == 0 {
            return Err(BootstrapError::InvalidConcurrency);
        }
        let store_name = match storage.store_name {
            Some(name) => name,
            None => {
                return Err(BootstrapError::MissingStoreName);
            },
        };
        if store_name.as_str().is_empty() {
            return Err(BootstrapError::EmptyStoreName);
        }
        if storage.request_timeout == 0 {
            return Err(BootstrapError::InvalidRequestTimeout);
        }
        Ok(
            Launcher {
                concurrency: storage.concurrency,
                store_name,
                request_timeout: storage.request_timeout,
                remaining: storage.poolsize,
                aborted: false,
            },
        )
    }

    /// Whether the caller is to make another connection.
    pub fn pending(&self) -> (pending: bool)
        ensures
            pending == self@.pending(),
    {
        !self.aborted && self.remaining > 0
    }

    /// Takes note of a connection that was made and that works on the store
    /// `identity`: counts it and returns its workers. Whether the connection
    /// was due is not asked here: [`launch_tasks`] does that.
    pub fn connected(&mut self, metrics: &mut Metrics, identity: String) -> (workers: Vec<Worker>)
        ensures
            final(self)@ == on_connected(old(self)@, old(metrics)@, identity@).launcher,
            final(metrics)@ == on_connected(old(self)@, old(metrics)@, identity@).metrics,
            worker_views(workers@) == old(self)@.workers(identity@),
    {
        metrics.record_connection();
        if self.remaining > 0 {
            self.remaining = self.remaining - 1;
        }
        let mut workers: Vec<Worker> = Vec::new();
        let mut spawned: usize = 0;
        while spawned < self.concurrency
            invariant
                spawned <= self.concurrency,
                workers@.len() == spawned,
                forall|i: int|
                    0 <= i < workers@.len() ==> (#[trigger] workers@[i])@ == WorkerView::fresh(
                        identity@,
                        self.request_timeout,
                    ),
            decreases self.concurrency - spawned,
        {
            workers.push(Worker::new(identity.clone(), self.request_timeout));
            spawned = spawned + 1;
        }
        assert(worker_views(workers@) =~= old(self)@.workers(identity@));
        workers
    }
}

/// Takes the outcome of one connection attempt. A connection that was made
/// is counted and gets a store identity of its own, behind a fresh salt,
/// which all the workers of the connection share; the workers are returned
/// for the caller to spawn. A connection that failed ends the launch. An
/// attempt that the launcher had not asked for changes nothing.
pub fn launch_tasks(
    launcher: &mut Launcher,
    metrics: &mut Metrics,
    connected: Result<(), BootstrapError>,
) -> (launch: Launch)
    ensures
        launches(
            old(launcher)@,
            old(metrics)@,
            connected,
            (LaunchStep { launcher: final(launcher)@, metrics: final(metrics)@, launch: launch@ }),
        ),
{
    if !launcher.pending() {
        return Launch::Finished;
    }
    match connected {
        Ok(_) => {
            let identity = unique_store_name(launcher.store_name.as_str());
            let ghost store = identity@;
            let workers = launcher.connected(metrics, identity);
            let launch = Launch::Spawn(workers);
            assert((LaunchStep { launcher: launcher@, metrics: metrics@, launch: launch@ })
                == on_connected(old(launcher)@, old(metrics)@, store));
            launch
        },
        Err(error) => {
            launcher.aborted = true;
            Launch::Abort(error)
        },
    }
}

} // verus!
