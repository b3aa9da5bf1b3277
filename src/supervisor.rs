use vstd::prelude::*;

verus! {

/// The jobs that the supervisor races.
#[derive(Clone, Copy, Debug, PartialEq, Eq, Structural)]
pub enum Job {
    /// Drives the USB transport device.
    Usb,
    /// Scans the matrix and sends key reports.
    Keyboard,
    /// Persists the keymap to flash.
    Storage,
    /// Reads the host's LED reports into the status indicators.
    Led,
    /// Serves the remote configuration channel.
    Via,
}

/// The jobs of one race, in the order in which they are polled: the transport
/// and scan jobs as a pair, then the persistence job where there is a store,
/// then the status and config jobs. Where several resolve at the same poll, the
/// first in this order is the one blamed.
pub open spec fn race_jobs(with_store: bool) -> Seq<Job> {
    if with_store {
        seq![Job::Usb, Job::Keyboard, Job::Storage, Job::Led, Job::Via]
    } else {
        seq![Job::Usb, Job::Keyboard, Job::Led, Job::Via]
    }
}

/// Whether a race in the given mode runs the job.
pub open spec fn races(with_store: bool, job: Job) -> bool {
    job != Job::Storage || with_store
}

/// The jobs of one race, in polling order.
pub fn jobs(with_store: bool) -> (r: Vec<Job>)
    ensures
        r@ == race_jobs(with_store),
{
    if with_store {
        vec![Job::Usb, Job::Keyboard, Job::Storage, Job::Led, Job::Via]
    } else {
        vec![Job::Usb, Job::Keyboard, Job::Led, Job::Via]
    }
}

/// A job takes part in a race exactly when the race's job list holds it.
pub proof fn lemma_races_iff_listed(with_store: bool, job: Job)
    ensures
        races(with_store, job) <==> race_jobs(with_store).contains(job),
{
    let s = race_jobs(with_store);
    if races(with_store, job) {
        let i: int = match job {
            Job::Usb => 0,
            Job::Keyboard => 1,
            Job::Storage => 2,
            Job::Led => if with_store { 3 } else { 2 },
            Job::Via => if with_store { 4 } else { 3 },
        };
        assert(s[i] == job);
    } else {
        assert(job == Job::Storage && !with_store);
        assert forall|i: int| 0 <= i < s.len() implies s[i] != job by {}
    }
}

/// The name of the subsystem that a job belongs to.
pub open spec fn subsystem(job: Job) -> Seq<char> {
    match job {
        Job::Usb => "Usb"@,
        Job::Keyboard => "Keyboard"@,
        Job::Storage => "Storage"@,
        Job::Led => "Led"@,
        Job::Via => "Via"@,
    }
}

impl Job {
    /// The error line logged when the job resolves: "<subsystem> task is died".
    pub fn died_message(&self) -> (r: &'static str)
        ensures
            r@ == subsystem(*self) + " task is died"@,
    {
        proof {
            reveal_strlit("Usb");
            reveal_strlit("Keyboard");
            reveal_strlit("Storage");
            reveal_strlit("Led");
            reveal_strlit("Via");
            reveal_strlit(" task is died");
        }
        match self {
            Job::Usb => {
                proof { reveal_strlit("Usb task is died"); }
                assert("Usb task is died"@ =~= "Usb"@ + " task is died"@);
                "Usb task is died"
            },
            Job::Keyboard => {
                proof { reveal_strlit("Keyboard task is died"); }
                assert("Keyboard task is died"@ =~= "Keyboard"@ + " task is died"@);
                "Keyboard task is died"
            },
            Job::Storage => {
                proof { reveal_strlit("Storage task is died"); }
                assert("Storage task is died"@ =~= "Storage"@ + " task is died"@);
                "Storage task is died"
            },
            Job::Led => {
                proof { reveal_strlit("Led task is died"); }
                assert("Led task is died"@ =~= "Led"@ + " task is died"@);
                "Led task is died"
            },
            Job::Via => {
                proof { reveal_strlit("Via task is died"); }
                assert("Via task is died"@ =~= "Via"@ + " task is died"@);
                "Via task is died"
            },
        }
    }
}

/// The pause, in milliseconds, between a job's death and the next race.
pub const BACKOFF_MILLIS: u64 = 1000;

/// Where the supervisor loop stands.
#[derive(Clone, Copy, Debug, PartialEq, Eq, Structural)]
pub enum Phase {
    /// A race of the jobs is under way.
    Running,
    /// A job has died; the loop waits out the backoff before the next race.
    Recovering,
}

/// What the loop reports to the supervisor.
#[derive(Clone, Copy, Debug, PartialEq, Eq, Structural)]
pub enum Event {
    /// The job resolved first in the current race.
    Resolved(Job),
    /// The backoff pause is over.
    BackoffElapsed,
}

/// What the supervisor asks the loop to do, in order.
#[derive(Clone, Copy, Debug, PartialEq, Eq, Structural)]
pub enum Action {
    /// Log the job's death at error level.
    LogError(Job),
    /// Log the restart warning.
    LogWarning,
    /// Wait this many milliseconds.
    Pause(u64),
    /// Build fresh futures of the supervisor's jobs, over the same services, and
    /// race them.
    StartRace,
}

/// The supervisor's state: its mode and its phase.
pub struct SupervisorView {
    pub with_store: bool,
    pub phase: Phase,
}

/// The supervisor's state after an event.
pub open spec fn next_state(s: SupervisorView, e: Event) -> SupervisorView {
    match e {
        Event::Resolved(j) => if s.phase == Phase::Running && races(s.with_store, j) {
            SupervisorView { with_store: s.with_store, phase: Phase::Recovering }
        } else {
            s
        },
        Event::BackoffElapsed => if s.phase == Phase::Recovering {
            SupervisorView { with_store: s.with_store, phase: Phase::Running }
        } else {
            s
        },
    }
}

/// The actions that an event calls for, in order.
pub open spec fn next_actions(s: SupervisorView, e: Event) -> Seq<Action> {
    match e {
        Event::Resolved(j) => if s.phase == Phase::Running && races(s.with_store, j) {
            seq![Action::LogError(j), Action::LogWarning, Action::Pause(BACKOFF_MILLIS)]
        } else {
            seq![]
        },
        Event::BackoffElapsed => if s.phase == Phase::Recovering {
            seq![Action::StartRace]
        } else {
            seq![]
        },
    }
}

/// The restart policy of the keyboard's jobs. Whether a persistent store takes
/// part is fixed when the supervisor is made. An event that does not fit the
/// phase (a job of another mode, a second death in one race, a stray backoff)
/// changes nothing and asks for nothing.
pub struct Supervisor {
    with_store: bool,
    phase: Phase,
}

impl View for Supervisor {
    type V = SupervisorView;

    closed spec fn view(&self) -> SupervisorView {
        SupervisorView { with_store: self.with_store, phase: self.phase }
    }
}

impl Supervisor {
    /// A supervisor whose first race is under way.
    pub fn new(with_store: bool) -> (r: Supervisor)
        ensures
            r@ == (SupervisorView { with_store, phase: Phase::Running }),
    {
        Supervisor { with_store, phase: Phase::Running }
    }

    pub fn with_store(&self) -> (r: bool)
        ensures
            r == self@.with_store,
    {
        self.with_store
    }

    pub fn phase(&self) -> (r: Phase)
        ensures
            r == self@.phase,
    {
        self.phase
    }

    /// The jobs that each race runs, in polling order.
    pub fn race(&self) -> (r: Vec<Job>)
        ensures
            r@ == race_jobs(self@.with_store),
    {
        jobs(self.with_store)
    }

    /// Takes one event and returns the actions that it calls for.
    pub fn step(&mut self, e: Event) -> (r: Vec<Action>)
        ensures
            final(self)@ == next_state(old(self)@, e),
            r@ == next_actions(old(self)@, e),
    {
        match e {
            Event::Resolved(j) => {
                let raced = match j {
                    Job::Storage => self.with_store,
                    _ => true,
                };
                match self.phase {
                    Phase::Running => {
                        if raced {
                            self.phase = Phase::Recovering;
                            vec![Action::LogError(j), Action::LogWarning, Action::Pause(BACKOFF_MILLIS)]
                        } else {
                            Vec::new()
                        }
                    },
                    Phase::Recovering => Vec::new(),
                }
            },
            Event::BackoffElapsed => match self.phase {
                Phase::Recovering => {
                    self.phase = Phase::Running;
                    vec![Action::StartRace]
                },
                Phase::Running => Vec::new(),
            },
        }
    }
}

/// The restart cycle: while a race runs, the death of any job it runs is
/// logged at error level naming that job, then a warning is logged, then the
/// loop pauses for at least a second; once the pause is over a fresh race of
/// the same jobs starts, in the same mode.
pub proof fn lemma_restart_cycle(with_store: bool, job: Job)
    requires
        race_jobs(with_store).contains(job),
    ensures
        ({
            let running = SupervisorView { with_store, phase: Phase::Running };
            let recovering = next_state(running, Event::Resolved(job));
            &&& next_actions(running, Event::Resolved(job)) == seq![
                Action::LogError(job),
                Action::LogWarning,
                Action::Pause(BACKOFF_MILLIS),
            ]
            &&& BACKOFF_MILLIS >= 1000
            &&& recovering.phase == Phase::Recovering
            &&& next_actions(recovering, Event::BackoffElapsed) == seq![Action::StartRace]
            &&& next_state(recovering, Event::BackoffElapsed) == running
        }),
{
    lemma_races_iff_listed(with_store, job);
}

/// Without a store no race ever runs the persistence job, and no event ever
/// leads to logging its death; the mode never changes.
pub proof fn lemma_no_store_never_persists(s: SupervisorView, e: Event)
    requires
        !s.with_store,
    ensures
        !race_jobs(s.with_store).contains(Job::Storage),
        !next_actions(s, e).contains(Action::LogError(Job::Storage)),
        !next_state(s, e).with_store,
{
    lemma_races_iff_listed(s.with_store, Job::Storage);
    let a = next_actions(s, e);
    assert forall|i: int| 0 <= i < a.len() implies a[i] != Action::LogError(Job::Storage) by {}
}

/// Restarting keeps everything but the race: no event changes whether a store
/// takes part, so every race after a restart runs the same jobs. (No action
/// asks for a service to be made anew: the loop rebuilds only the jobs'
/// futures, over the services it made once.)
pub proof fn lemma_restart_keeps_services(s: SupervisorView, e: Event)
    ensures
        next_state(s, e).with_store == s.with_store,
        race_jobs(next_state(s, e).with_store) == race_jobs(s.with_store),
{
}

} // verus!
