use vstd::prelude::*;

use crate::event::Event;
use crate::flags::{Decision, Flags};
use crate::process::Process;
use crate::service::{Service, ServiceError};

verus! {

/// How long the loop waits for an event before it checks the services anyway,
/// in milliseconds.
pub const WAIT_MS: u64 = 3000;

/// How long a stopped process group has to exit before it is killed by force,
/// in milliseconds.
pub const STOP_TIMEOUT_MS: u64 = 10000;

/// What happened when a restart was carried out.
#[derive(Clone, Copy, Debug, PartialEq, Eq)]
pub enum RestartOutcome {
    /// The running process group could not be stopped; it stays attached.
    StopFailed,
    /// The service was stopped, but its command could not be launched.
    LaunchFailed,
    /// The service was stopped and launched again as this process group.
    Launched(Process),
}

/// Why the supervisor refuses a request.
#[derive(Clone, Debug, PartialEq, Eq)]
pub enum DaemonError {
    /// A service of this name is already managed.
    DuplicateService(String),
}

/// `s` without its leading slashes.
pub open spec fn strip_slashes(s: Seq<char>) -> Seq<char>
    decreases s.len(),
{
    if s.len() > 0 && s[0] == '/' {
        strip_slashes(s.drop_first())
    } else {
        s
    }
}

/// Whether `path` lies under `root`: `root` is a prefix of it that ends at a
/// component boundary.
pub open spec fn under_root(root: Seq<char>, path: Seq<char>) -> bool {
    &&& root.len() <= path.len()
    &&& path.take(root.len() as int) == root
    &&& (path.len() == root.len() || path[root.len() as int] == '/' || (root.len() > 0
        && root.last() == '/'))
}

/// `path` relative to `root` when it lies under it, else `path` itself.
pub open spec fn relative_path(root: Seq<char>, path: Seq<char>) -> Seq<char> {
    if under_root(root, path) {
        strip_slashes(path.skip(root.len() as int))
    } else {
        path
    }
}

/// The policies after a change of `path`: each service that watches it has a
/// restart pending.
pub open spec fn mark_changed(services: Seq<Service>, flags: Seq<Flags>, path: Seq<char>) -> Seq<
    Flags,
> {
    Seq::new(
        flags.len(),
        |i: int|
            if services[i].watches(path) {
                Flags { restart: true, ..flags[i] }
            } else {
                flags[i]
            },
    )
}

/// The policies after one event. Only file changes touch them.
pub open spec fn apply_event(
    root: Seq<char>,
    services: Seq<Service>,
    flags: Seq<Flags>,
    event: Event,
) -> Seq<Flags> {
    match event {
        Event::FileChanged(p) => mark_changed(services, flags, relative_path(root, p@)),
        _ => flags,
    }
}

/// The policies after a batch of events, taken in order.
pub open spec fn apply_events(
    root: Seq<char>,
    services: Seq<Service>,
    flags: Seq<Flags>,
    events: Seq<Event>,
) -> Seq<Flags>
    decreases events.len(),
{
    if events.len() == 0 {
        flags
    } else {
        apply_event(
            root,
            services,
            apply_events(root, services, flags, events.drop_last()),
            events.last(),
        )
    }
}

/// How many children a batch of events asks to reap.
pub open spec fn count_reaps(events: Seq<Event>) -> nat
    decreases events.len(),
{
    if events.len() == 0 {
        0
    } else {
        count_reaps(events.drop_last()) + if events.last() is ChildExited {
            1nat
        } else {
            0nat
        }
    }
}

/// Whether one of `services` is named `name`.
pub open spec fn has_name(services: Seq<Service>, name: Seq<char>) -> bool {
    exists|i: int| 0 <= i < services.len() && (#[trigger] services[i]).name@ == name
}

/// `path` relative to `root` when it lies under it, else `path` itself.
pub fn relativize(root: &str, path: &str) -> (r: String)
    ensures
        r@ == relative_path(root@, path@),
{
    let rn = root.unicode_len();
    let pn = path.unicode_len();
    if rn > pn {
        return path.to_owned();
    }
    let mut i: usize = 0;
    while i < rn
        invariant
            rn == root@.len(),
            pn == path@.len(),
            rn <= pn,
            i <= rn,
            forall|j: int| 0 <= j < i ==> root@[j] == path@[j],
        decreases rn - i,
    {
        if root.get_char(i) != path.get_char(i) {
            return path.to_owned();
        }
        i = i + 1;
    }
    assert(path@.take(rn as int) =~= root@);
    let boundary = rn == pn || path.get_char(rn) == '/' || (rn > 0 && root.get_char(rn - 1)
        == '/');
    if !boundary {
        return path.to_owned();
    }
    let mut k: usize = rn;
    while k < pn && path.get_char(k) == '/'
        invariant
            rn == root@.len(),
            pn == path@.len(),
            rn <= k <= pn,
            strip_slashes(path@.skip(rn as int)) == strip_slashes(path@.skip(k as int)),
        decreases pn - k,
    {
        assert(path@.skip(k as int).drop_first() =~= path@.skip(k + 1));
        k = k + 1;
    }
    let rest = path.substring_char(k, pn);
    assert(rest@ =~= path@.skip(k as int));
    rest.to_owned()
}

/// `n` copies of one event.
pub open spec fn repeated(event: Event, n: nat) -> Seq<Event> {
    Seq::new(n, |_i: int| event)
}

/// Marking the services that watch a path twice marks the same ones as once.
proof fn lemma_mark_changed_idempotent(services: Seq<Service>, flags: Seq<Flags>, path: Seq<char>)
    ensures
        mark_changed(services, mark_changed(services, flags, path), path) == mark_changed(
            services,
            flags,
            path,
        ),
{
    assert(mark_changed(services, mark_changed(services, flags, path), path) =~= mark_changed(
        services,
        flags,
        path,
    ));
}

/// Any number of changes of one path, taken in one batch, leave the
/// policies as a single change does: each service that watches the path has
/// one pending restart, whatever the count.
pub proof fn lemma_file_change_idempotent(
    root: Seq<char>,
    services: Seq<Service>,
    flags: Seq<Flags>,
    path: String,
    n: nat,
)
    requires
        n >= 1,
    ensures
        apply_events(root, services, flags, repeated(Event::FileChanged(path), n)) == apply_event(
            root,
            services,
            flags,
            Event::FileChanged(path),
        ),
    decreases n,
{
    let e = Event::FileChanged(path);
    assert(repeated(e, n).drop_last() =~= repeated(e, (n - 1) as nat));
    assert(repeated(e, n).last() == e);
    let once = apply_event(root, services, flags, e);
    if n == 1 {
        assert(repeated(e, 0) =~= Seq::<Event>::empty());
        assert(apply_events(root, services, flags, repeated(e, 0)) == flags);
    } else {
        lemma_file_change_idempotent(root, services, flags, path, (n - 1) as nat);
        lemma_mark_changed_idempotent(services, flags, relative_path(root, path@));
        assert(apply_event(root, services, once, e) == once);
    }
}

/// The supervisor's state: the watch root, and the managed services in the
/// order they were added, each with its restart policy.
pub struct Daemon {
    pub root: String,
    pub services: Vec<Service>,
    pub flags: Vec<Flags>,
}

impl Daemon {
    /// One policy per service, each well formed.
    pub open spec fn wf(&self) -> bool {
        &&& self.services@.len() == self.flags@.len()
        &&& forall|i: int| 0 <= i < self.flags@.len() ==> (#[trigger] self.flags@[i]).wf()
    }

    /// A supervisor with no services, watching `root`.
    pub fn new(root: String) -> (r: Daemon)
        ensures
            r.wf(),
            r.root == root,
            r.services@.len() == 0,
    {
        Daemon { root, services: Vec::new(), flags: Vec::new() }
    }

    /// Adds a service, at the end, with a fresh policy; refused when a
    /// service of the same name is already managed.
    pub fn add(&mut self, service: Service) -> (r: Result<(), DaemonError>)
        requires
            old(self).wf(),
        ensures
            final(self).wf(),
            final(self).root == old(self).root,
            r is Err <==> has_name(old(self).services@, service.name@),
            r matches Err(e) ==> e == DaemonError::DuplicateService(service.name),
            r is Err ==> final(self).services@ == old(self).services@ && final(self).flags@
                == old(self).flags@,
            r is Ok ==> final(self).services@ == old(self).services@.push(service)
                && final(self).flags@ == old(self).flags@.push(Flags::fresh()),
    {
        let mut i: usize = 0;
        while i < self.services.len()
            invariant
                self.wf(),
                self.services == old(self).services,
                self.flags == old(self).flags,
                self.root == old(self).root,
                i <= self.services@.len(),
                forall|j: int| 0 <= j < i ==> (#[trigger] self.services@[j]).name@ != service.name@,
            decreases self.services@.len() - i,
        {
            if self.services[i].name == service.name {
                return Err(DaemonError::DuplicateService(service.name));
            }
            i = i + 1;
        }
        self.services.push(service);
        self.flags.push(Flags::new());
        Ok(())
    }

    /// Takes one event. A file change relative to the root gives each service
    /// that watches it a pending restart; the answer says whether an exited
    /// child is to be reaped now.
    pub fn handle_event(&mut self, event: &Event) -> (reap: bool)
        requires
            old(self).wf(),
        ensures
            final(self).wf(),
            final(self).root == old(self).root,
            final(self).services == old(self).services,
            final(self).flags@ == apply_event(
                old(self).root@,
                old(self).services@,
                old(self).flags@,
                *event,
            ),
            reap == event is ChildExited,
    {
        match event {
            Event::FileChanged(p) => {
                let rel = relativize(self.root.as_str(), p.as_str());
                let ghost old_flags = self.flags@;
                let ghost target = mark_changed(self.services@, old_flags, rel@);
                let mut i: usize = 0;
                while i < self.services.len()
                    invariant
                        self.wf(),
                        self.root == old(self).root,
                        self.services == old(self).services,
                        old_flags == old(self).flags@,
                        target == mark_changed(self.services@, old_flags, rel@),
                        i <= self.services@.len(),
                        self.flags@.len() == old_flags.len(),
                        forall|j: int| 0 <= j < i ==> self.flags@[j] == target[j],
                        forall|j: int| i <= j < self.flags@.len() ==> self.flags@[j] == old_flags[j],
                    decreases self.services@.len() - i,
                {
                    if self.services[i].matches_path(rel.as_str()) {
                        self.flags[i].restart = true;
                    }
                    i = i + 1;
                }
                assert(self.flags@ =~= target);
                false
            },
            Event::ChildExited => true,
            Event::WakeUp => false,
        }
    }

    /// Takes a batch of events in order, before any decision is made on
    /// them; the answer is how many exited children are to be reaped.
    pub fn handle_events(&mut self, events: &Vec<Event>) -> (reaps: usize)
        requires
            old(self).wf(),
        ensures
            final(self).wf(),
            final(self).root == old(self).root,
            final(self).services == old(self).services,
            final(self).flags@ == apply_events(
                old(self).root@,
                old(self).services@,
                old(self).flags@,
                events@,
            ),
            reaps == count_reaps(events@),
    {
        let mut reaps: usize = 0;
        let mut k: usize = 0;
        while k < events.len()
            invariant
                self.wf(),
                self.root == old(self).root,
                self.services == old(self).services,
                k <= events@.len(),
                reaps <= k,
                self.flags@ == apply_events(
                    old(self).root@,
                    old(self).services@,
                    old(self).flags@,
                    events@.take(k as int),
                ),
                reaps == count_reaps(events@.take(k as int)),
            decreases events@.len() - k,
        {
            proof {
                assert(events@.take(k + 1).drop_last() =~= events@.take(k as int));
            }
            if self.handle_event(&events[k]) {
                reaps = reaps + 1;
            }
            k = k + 1;
        }
        assert(events@.take(events@.len() as int) =~= events@);
        reaps
    }

    /// The health check of service `i`, given whether it is up (what
    /// `Service::is_up` answered) and the time: see `Flags::tick`.
    pub fn check_service(&mut self, i: usize, up: bool, now: u64) -> (d: Decision)
        requires
            old(self).wf(),
            i < old(self).services@.len(),
        ensures
            final(self).wf(),
            final(self).root == old(self).root,
            final(self).services == old(self).services,
            final(self).flags@ == old(self).flags@.update(
                i as int,
                old(self).flags@[i as int].tick(up, now).0,
            ),
            d == old(self).flags@[i as int].tick(up, now).1,
    {
        let mut f = self.flags[i];
        let d = f.check(up, now);
        self.flags.set(i, f);
        d
    }

    /// Applies what happened when the restart of service `i` was carried
    /// out. A failed stop leaves the process attached; a failed launch leaves
    /// nothing attached; either way the restart stays pending. A launch
    /// attaches the new process group and ends the pending restart.
    pub fn finish_restart(&mut self, i: usize, outcome: RestartOutcome)
        requires
            old(self).wf(),
            i < old(self).services@.len(),
        ensures
            final(self).wf(),
            final(self).root == old(self).root,
            final(self).services@.len() == old(self).services@.len(),
            forall|j: int|
                0 <= j < old(self).services@.len() && j != i ==> final(self).services@[j]
                    == old(self).services@[j],
            final(self).services@[i as int].name == old(self).services@[i as int].name,
            final(self).services@[i as int].cmd == old(self).services@[i as int].cmd,
            final(self).services@[i as int].watched_paths == old(
                self,
            ).services@[i as int].watched_paths,
            final(self).services@[i as int].proc == (match outcome {
                RestartOutcome::StopFailed => old(self).services@[i as int].proc,
                RestartOutcome::LaunchFailed => None,
                RestartOutcome::Launched(p) => Some(p),
            }),
            final(self).flags@ == old(self).flags@.update(
                i as int,
                old(self).flags@[i as int].finished(outcome is Launched),
            ),
    {
        match outcome {
            RestartOutcome::StopFailed => {},
            RestartOutcome::LaunchFailed => {
                self.services[i].stopped();
            },
            RestartOutcome::Launched(p) => {
                self.services[i].stopped();
                self.services[i].started(p);
                self.flags[i].finish_restart(true);
            },
        }
    }

    /// Attaches the process group launched for service `i` at start-up;
    /// refused while one is attached.
    pub fn service_started(&mut self, i: usize, process: Process) -> (r: Result<(), ServiceError>)
        requires
            old(self).wf(),
            i < old(self).services@.len(),
        ensures
            final(self).wf(),
            final(self).root == old(self).root,
            final(self).flags == old(self).flags,
            r is Err <==> old(self).services@[i as int].proc is Some,
            r matches Err(e) ==> e == ServiceError::AlreadyRunning(old(self).services@[i as int].name),
            r is Err ==> final(self).services == old(self).services,
            r is Ok ==> final(self).services@ == old(self).services@.update(
                i as int,
                Service { proc: Some(process), ..old(self).services@[i as int] },
            ),
    {
        if self.services[i].proc.is_some() {
            return Err(ServiceError::AlreadyRunning(self.services[i].name.clone()));
        }
        self.services[i].started(process);
        assert(self.services@ =~= old(self).services@.update(
            i as int,
            Service { proc: Some(process), ..old(self).services@[i as int] },
        ));
        Ok(())
    }

    /// Whether every service has been shut down and removed.
    pub fn is_empty(&self) -> (r: bool)
        ensures
            r == (self.services@.len() == 0),
    {
        self.services.len() == 0
    }

    /// One step of the shutdown sequence, on the first remaining service:
    /// once it has been stopped it is removed with its policy; when the stop
    /// failed it stays, to be stopped again.
    pub fn finish_stop_first(&mut self, stopped: bool)
        requires
            old(self).wf(),
            old(self).services@.len() > 0,
        ensures
            final(self).wf(),
            final(self).root == old(self).root,
            stopped ==> final(self).services@ == old(self).services@.drop_first()
                && final(self).flags@ == old(self).flags@.drop_first(),
            !stopped ==> final(self).services == old(self).services && final(self).flags
                == old(self).flags,
    {
        if stopped {
            self.services.remove(0);
            self.flags.remove(0);
            assert(self.services@ =~= old(self).services@.drop_first());
            assert(self.flags@ =~= old(self).flags@.drop_first());
        }
    }
}

} // verus!
