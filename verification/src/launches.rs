//! The processes the server launched: each gets the next `launch-<n>` ID and
//! is found again by that ID or by its process ID until it is forgotten.

use vstd::prelude::*;

use crate::config::TrackedProcess;
use crate::text::{
    clone_opt_string, clone_strings, concat3, debug_quoted, debug_str, owned, push_decimal, spec_decimal, str_eq, strs_view,
    sv,
};

verus! {

/// The view of a tracked process.
pub struct TrackedView {
    pub launch_id: Seq<char>,
    pub pid: u32,
    pub exe: Seq<char>,
    pub executable_path: Option<Seq<char>>,
    pub process_name: Option<Seq<char>>,
    pub args: Seq<Seq<char>>,
    pub cwd: Option<Seq<char>>,
    pub launch_time_unix_ms: u64,
    pub command_line: Seq<char>,
}

impl View for TrackedProcess {
    type V = TrackedView;

    open spec fn view(&self) -> TrackedView {
        TrackedView {
            launch_id: self.launch_id@,
            pid: self.pid,
            exe: self.exe@,
            executable_path: sv(self.executable_path),
            process_name: sv(self.process_name),
            args: strs_view(self.args@),
            cwd: sv(self.cwd),
            launch_time_unix_ms: self.launch_time_unix_ms,
            command_line: self.command_line@,
        }
    }
}

/// A copy of a tracked process.
pub fn clone_tracked(t: &TrackedProcess) -> (r: TrackedProcess)
    ensures
        r@ == t@,
{
    TrackedProcess {
        launch_id: t.launch_id.clone(),
        pid: t.pid,
        exe: t.exe.clone(),
        executable_path: clone_opt_string(&t.executable_path),
        process_name: clone_opt_string(&t.process_name),
        args: clone_strings(&t.args),
        cwd: clone_opt_string(&t.cwd),
        launch_time_unix_ms: t.launch_time_unix_ms,
        command_line: t.command_line.clone(),
    }
}

/// The views of a list of tracked processes.
pub open spec fn tracked_views(v: Seq<TrackedProcess>) -> Seq<TrackedView> {
    v.map_values(|t: TrackedProcess| t@)
}

/// No two entries share a launch ID.
pub open spec fn ids_distinct(s: Seq<TrackedView>) -> bool {
    forall|i: int, j: int| 0 <= i < j < s.len() ==> (#[trigger] s[i]).launch_id != (#[trigger] s[j]).launch_id
}

/// The entries without the one with launch ID `id`, the others in order.
pub open spec fn without_id(s: Seq<TrackedView>, id: Seq<char>) -> Seq<TrackedView>
    decreases s.len(),
{
    if s.len() == 0 {
        Seq::empty()
    } else if s.last().launch_id == id {
        without_id(s.drop_last(), id)
    } else {
        without_id(s.drop_last(), id).push(s.last())
    }
}

/// The launch ID for launch number `n`.
pub open spec fn launch_id_for(n: u64) -> Seq<char> {
    "launch-"@ + spec_decimal(n as nat)
}

/// The registry of launched processes.
pub struct LaunchRegistry {
    launched: Vec<TrackedProcess>,
    next_launch: u64,
}

/// The view of the registry: its entries, and the number the next launch gets.
pub struct LaunchesView {
    pub entries: Seq<TrackedView>,
    pub next_launch: u64,
}

impl View for LaunchRegistry {
    type V = LaunchesView;

    closed spec fn view(&self) -> LaunchesView {
        LaunchesView { entries: tracked_views(self.launched@), next_launch: self.next_launch }
    }
}

impl LaunchRegistry {
    /// The registry is well formed: launch IDs are distinct.
    pub open spec fn wf(&self) -> bool {
        ids_distinct(self@.entries)
    }

    /// An empty registry; the first launch is number 1.
    pub fn new() -> (r: LaunchRegistry)
        ensures
            r.wf(),
            r@.entries.len() == 0,
            r@.next_launch == 1,
    {
        let r = LaunchRegistry { launched: Vec::new(), next_launch: 1 };
        assert(r@.entries =~= Seq::<TrackedView>::empty());
        r
    }

    fn remove_id(&mut self, launch_id: &str)
        requires
            old(self).wf(),
        ensures
            final(self).wf(),
            final(self)@.entries == without_id(old(self)@.entries, launch_id@),
            final(self)@.next_launch == old(self)@.next_launch,
    {
        let ghost s = self@.entries;
        let mut kept: Vec<TrackedProcess> = Vec::new();
        let mut i: usize = 0;
        while i < self.launched.len()
            invariant
                s == tracked_views(self.launched@),
                ids_distinct(s),
                i <= s.len(),
                tracked_views(kept@) == without_id(s.take(i as int), launch_id@),
            decreases self.launched.len() - i,
        {
            proof {
                assert(s.take(i + 1).drop_last() =~= s.take(i as int));
                assert(s.take(i + 1).last() == s[i as int]);
            }
            if !str_eq(self.launched[i].launch_id.as_str(), launch_id) {
                let ghost before = tracked_views(kept@);
                let t = clone_tracked(&self.launched[i]);
                kept.push(t);
                assert(tracked_views(kept@) =~= before.push(s[i as int]));
            }
            i += 1;
        }
        assert(s.take(s.len() as int) =~= s);
        self.launched = kept;
        proof {
            lemma_without_id_distinct(s, launch_id@);
        }
    }

    /// Records a launched process under the next launch ID, `launch-<n>`, and
    /// returns its record.
    pub fn track_launch(
        &mut self,
        pid: u32,
        exe: &str,
        args: &Vec<String>,
        cwd: Option<String>,
        executable_path: Option<String>,
        process_name: Option<String>,
        launch_time_unix_ms: u64,
        command_line: String,
    ) -> (r: TrackedProcess)
        requires
            old(self).wf(),
            old(self)@.next_launch < u64::MAX,
        ensures
            final(self).wf(),
            r@ == (TrackedView {
                launch_id: launch_id_for(old(self)@.next_launch),
                pid,
                exe: exe@,
                executable_path: sv(executable_path),
                process_name: sv(process_name),
                args: strs_view(args@),
                cwd: sv(cwd),
                launch_time_unix_ms,
                command_line: command_line@,
            }),
            final(self)@.entries == without_id(old(self)@.entries, r@.launch_id).push(r@),
            final(self)@.next_launch == old(self)@.next_launch + 1,
    {
        let ghost start = self@.entries;
        let mut launch_id = crate::text::owned("launch-");
        push_decimal(&mut launch_id, self.next_launch);
        self.next_launch = self.next_launch + 1;
        let record = TrackedProcess {
            launch_id,
            pid,
            exe: crate::text::owned(exe),
            executable_path,
            process_name,
            args: clone_strings(args),
            cwd,
            launch_time_unix_ms,
            command_line,
        };
        self.remove_id(record.launch_id.as_str());
        let ghost removed = self@.entries;
        let copy = clone_tracked(&record);
        self.launched.push(copy);
        proof {
            assert(self@.entries =~= removed.push(record@));
            lemma_tracked_launch_found(start, record@);
        }
        record
    }

    /// The tracked process with a launch ID, if any.
    pub fn tracked_by_launch_id(&self, launch_id: &str) -> (r: Option<TrackedProcess>)
        requires
            self.wf(),
        ensures
            match r {
                Some(t) => exists|i: int| 0 <= i < self@.entries.len() && #[trigger] self@.entries[i] == t@ && t@.launch_id == launch_id@,
                None => forall|i: int| 0 <= i < self@.entries.len() ==> (#[trigger] self@.entries[i]).launch_id != launch_id@,
            },
    {
        let mut i: usize = 0;
        while i < self.launched.len()
            invariant
                i <= self@.entries.len(),
                self@.entries == tracked_views(self.launched@),
                forall|j: int| 0 <= j < i ==> (#[trigger] self@.entries[j]).launch_id != launch_id@,
            decreases self.launched.len() - i,
        {
            if str_eq(self.launched[i].launch_id.as_str(), launch_id) {
                let t = clone_tracked(&self.launched[i]);
                assert(self@.entries[i as int] == t@);
                return Some(t);
            }
            i += 1;
        }
        None
    }

    /// A tracked process with a process ID, if any.
    pub fn tracked_by_pid(&self, pid: u32) -> (r: Option<TrackedProcess>)
        requires
            self.wf(),
        ensures
            match r {
                Some(t) => exists|i: int| 0 <= i < self@.entries.len() && #[trigger] self@.entries[i] == t@ && t@.pid == pid,
                None => forall|i: int| 0 <= i < self@.entries.len() ==> (#[trigger] self@.entries[i]).pid != pid,
            },
    {
        let mut i: usize = 0;
        while i < self.launched.len()
            invariant
                i <= self@.entries.len(),
                self@.entries == tracked_views(self.launched@),
                forall|j: int| 0 <= j < i ==> (#[trigger] self@.entries[j]).pid != pid,
            decreases self.launched.len() - i,
        {
            if self.launched[i].pid == pid {
                let t = clone_tracked(&self.launched[i]);
                assert(self@.entries[i as int] == t@);
                return Some(t);
            }
            i += 1;
        }
        None
    }

    /// Forgets the process with a launch ID.
    pub fn forget_launch(&mut self, launch_id: &str)
        requires
            old(self).wf(),
        ensures
            final(self).wf(),
            final(self)@.entries == without_id(old(self)@.entries, launch_id@),
            final(self)@.next_launch == old(self)@.next_launch,
    {
        self.remove_id(launch_id);
    }
}

/// Dropping the entries with one launch ID keeps launch IDs distinct, keeps
/// only entries that were there, and leaves none with that ID.
pub proof fn lemma_without_id_distinct(s: Seq<TrackedView>, id: Seq<char>)
    requires
        ids_distinct(s),
    ensures
        ids_distinct(without_id(s, id)),
        forall|i: int| 0 <= i < without_id(s, id).len() ==> (#[trigger] without_id(s, id)[i]).launch_id != id,
        forall|i: int|
            0 <= i < without_id(s, id).len() ==> exists|k: int| 0 <= k < s.len() && s[k] == #[trigger] without_id(s, id)[i],
    decreases s.len(),
{
    if s.len() > 0 {
        let d = s.drop_last();
        assert(ids_distinct(d)) by {
            assert forall|i: int, j: int| 0 <= i < j < d.len() implies (#[trigger] d[i]).launch_id != (#[trigger] d[j]).launch_id by {
                assert(d[i] == s[i] && d[j] == s[j]);
            };
        };
        lemma_without_id_distinct(d, id);
        let wd = without_id(d, id);
        let w = without_id(s, id);
        if s.last().launch_id != id {
            assert(w == wd.push(s.last()));
            assert forall|i: int| 0 <= i < w.len() implies exists|k: int| 0 <= k < s.len() && s[k] == #[trigger] w[i] by {
                if i < wd.len() {
                    let k = choose|k: int| 0 <= k < d.len() && d[k] == wd[i];
                    assert(s[k] == w[i]);
                } else {
                    assert(s[s.len() - 1] == w[i]);
                }
            };
            assert forall|i: int, j: int| 0 <= i < j < w.len() implies (#[trigger] w[i]).launch_id != (#[trigger] w[j]).launch_id by {
                if j == wd.len() {
                    let k = choose|k: int| 0 <= k < d.len() && d[k] == wd[i];
                    assert(s[k] == w[i]);
                    assert(s[s.len() - 1] == w[j]);
                } else {
                    assert(w[i] == wd[i] && w[j] == wd[j]);
                }
            };
        } else {
            assert(w == wd);
            assert forall|i: int| 0 <= i < w.len() implies exists|k: int| 0 <= k < s.len() && s[k] == #[trigger] w[i] by {
                let k = choose|k: int| 0 <= k < d.len() && d[k] == wd[i];
                assert(s[k] == w[i]);
            };
        }
    }
}

/// A process just tracked is the one found by its launch ID: no other entry
/// has that ID, and it is the last entry.
pub proof fn lemma_tracked_launch_found(s: Seq<TrackedView>, t: TrackedView)
    requires
        ids_distinct(s),
    ensures
        ids_distinct(without_id(s, t.launch_id).push(t)),
        without_id(s, t.launch_id).push(t).last() == t,
        forall|i: int|
            0 <= i < without_id(s, t.launch_id).push(t).len() && (#[trigger] without_id(s, t.launch_id).push(t)[i]).launch_id
                == t.launch_id ==> i == without_id(s, t.launch_id).len(),
{
    lemma_without_id_distinct(s, t.launch_id);
    let r = without_id(s, t.launch_id);
    let p = r.push(t);
    assert forall|i: int| 0 <= i < p.len() && (#[trigger] p[i]).launch_id == t.launch_id implies i == r.len() by {
        if i < r.len() {
            assert(p[i] == r[i]);
        }
    };
    assert forall|i: int, j: int| 0 <= i < j < p.len() implies (#[trigger] p[i]).launch_id != (#[trigger] p[j]).launch_id by {
        if j == r.len() {
            assert(p[i] == r[i]);
        } else {
            assert(p[i] == r[i] && p[j] == r[j]);
        }
    };
}

/// A forgotten launch is no longer found.
pub proof fn lemma_forgotten_launch_gone(s: Seq<TrackedView>, id: Seq<char>)
    requires
        ids_distinct(s),
    ensures
        forall|i: int| 0 <= i < without_id(s, id).len() ==> (#[trigger] without_id(s, id)[i]).launch_id != id,
{
    lemma_without_id_distinct(s, id);
}

/// Why a process assertion has no process to check.
#[derive(Debug, Clone, PartialEq, Eq)]
pub enum ProcessTargetError {
    /// The launch ID is not tracked in this session (`launch_id_not_found`); holds it.
    LaunchIdNotFound(String),
    /// Neither a process ID nor a launch ID was given (`process_target_required`).
    TargetRequired,
}

impl ProcessTargetError {
    /// The error code the tool reports.
    pub fn code(&self) -> (r: &'static str)
        ensures
            r@ == match self {
                ProcessTargetError::LaunchIdNotFound(_) => "launch_id_not_found"@,
                ProcessTargetError::TargetRequired => "process_target_required"@,
            },
    {
        match self {
            ProcessTargetError::LaunchIdNotFound(_) => "launch_id_not_found",
            ProcessTargetError::TargetRequired => "process_target_required",
        }
    }

    /// The message the tool reports.
    pub fn message(&self) -> (r: String)
        ensures
            r@ == match self {
                ProcessTargetError::LaunchIdNotFound(id) => "launch_id "@ + debug_quoted(id@)
                    + " is not tracked by this server session"@,
                ProcessTargetError::TargetRequired => "pid or launch_id is required"@,
            },
    {
        match self {
            ProcessTargetError::LaunchIdNotFound(id) => {
                let quoted = debug_str(id.as_str());
                concat3("launch_id ", quoted.as_str(), " is not tracked by this server session")
            },
            ProcessTargetError::TargetRequired => owned("pid or launch_id is required"),
        }
    }
}

impl LaunchRegistry {
    /// The process a process assertion checks: the process ID given, else the
    /// one of the process tracked under the launch ID given.
    pub fn resolve_assert_pid(&self, pid: Option<u32>, launch_id: Option<&str>) -> (r: Result<u32, ProcessTargetError>)
        requires
            self.wf(),
        ensures
            pid matches Some(p) ==> r == Ok::<u32, ProcessTargetError>(p),
            pid is None ==> match launch_id {
                Some(id) => match r {
                    Ok(p) => exists|i: int|
                        0 <= i < self@.entries.len() && (#[trigger] self@.entries[i]).launch_id == id@
                            && self@.entries[i].pid == p,
                    Err(e) => (e matches ProcessTargetError::LaunchIdNotFound(given) && given@ == id@) && forall|i: int|
                        0 <= i < self@.entries.len() ==> (#[trigger] self@.entries[i]).launch_id != id@,
                },
                None => r == Err::<u32, ProcessTargetError>(ProcessTargetError::TargetRequired),
            },
    {
        if let Some(p) = pid {
            return Ok(p);
        }
        match launch_id {
            Some(id) => match self.tracked_by_launch_id(id) {
                Some(t) => Ok(t.pid),
                None => Err(ProcessTargetError::LaunchIdNotFound(owned(id))),
            },
            None => Err(ProcessTargetError::TargetRequired),
        }
    }
}

} // verus!
