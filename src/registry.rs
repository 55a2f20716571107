//! The task registry and the pod watch decisions: which containers get a log
//! follower when a pod is applied, and which followers are cancelled when a
//! pod is deleted.

use vstd::prelude::*;
use crate::text::same_text;

verus! {

/// Identity of one log follower: a pod and one of its containers.
pub struct TaskKey {
    pub pod: String,
    pub container: String,
}

impl View for TaskKey {
    type V = (Seq<char>, Seq<char>);

    open spec fn view(&self) -> (Seq<char>, Seq<char>) {
        (self.pod@, self.container@)
    }
}

/// What the cluster reports of a pod: its name, its phase if it has one, and
/// the containers its spec declares, in order.
pub struct PodSnapshot {
    pub name: String,
    pub phase: Option<String>,
    pub containers: Vec<String>,
}

/// One event of the pod watch, in delivery order.
pub enum PodEvent {
    InitialSync,
    InitialSyncDone,
    Applied(PodSnapshot),
    Deleted(PodSnapshot),
}

/// The phase a pod reports, `"unknown"` when it reports none.
pub open spec fn phase_of(pod: PodSnapshot) -> Seq<char> {
    match pod.phase {
        Some(p) => p@,
        None => "unknown"@,
    }
}

pub open spec fn is_running(pod: PodSnapshot) -> bool {
    phase_of(pod) == "Running"@
}

/// Whether the pod's spec declares a container of that name.
pub open spec fn declares(pod: PodSnapshot, container: Seq<char>) -> bool {
    exists|i: int| 0 <= i < pod.containers@.len() && pod.containers@[i]@ == container
}

/// Whether an `Applied` event for `pod` asks for a follower under `key`: the
/// pod runs, `key` names it and one of its containers, and that container is
/// not the process's own.
pub open spec fn wants(pod: PodSnapshot, own: Seq<char>, key: (Seq<char>, Seq<char>)) -> bool {
    &&& is_running(pod)
    &&& key.0 == pod.name@
    &&& declares(pod, key.1)
    &&& key.1 != own
}

/// The followers an `Applied` event starts, given the keys already followed.
pub open spec fn started(
    keys: Set<(Seq<char>, Seq<char>)>,
    pod: PodSnapshot,
    own: Seq<char>,
) -> Set<(Seq<char>, Seq<char>)> {
    Set::new(|k: (Seq<char>, Seq<char>)| wants(pod, own, k) && !keys.contains(k))
}

/// The keys followed once the followers of an `Applied` event are recorded.
pub open spec fn after_applied(
    keys: Set<(Seq<char>, Seq<char>)>,
    pod: PodSnapshot,
    own: Seq<char>,
) -> Set<(Seq<char>, Seq<char>)> {
    keys.union(started(keys, pod, own))
}

/// How many followers for `key` a run of `Applied` events starts.
pub open spec fn spawn_count(
    keys: Set<(Seq<char>, Seq<char>)>,
    pods: Seq<PodSnapshot>,
    own: Seq<char>,
    key: (Seq<char>, Seq<char>),
) -> nat
    decreases pods.len(),
{
    if pods.len() == 0 {
        0
    } else {
        (if started(keys, pods[0], own).contains(key) {
            1nat
        } else {
            0nat
        }) + spawn_count(after_applied(keys, pods[0], own), pods.drop_first(), own, key)
    }
}

pub open spec fn of_pod<H>(pod: Seq<char>) -> spec_fn((TaskKey, H)) -> bool {
    |e: (TaskKey, H)| e.0.pod@ == pod
}

pub open spec fn not_of_pod<H>(pod: Seq<char>) -> spec_fn((TaskKey, H)) -> bool {
    |e: (TaskKey, H)| e.0.pod@ != pod
}

pub open spec fn unique_keys<H>(s: Seq<(TaskKey, H)>) -> bool {
    forall|i: int, j: int| 0 <= i < j < s.len() ==> s[i].0@ != s[j].0@
}

pub open spec fn key_list(s: Seq<TaskKey>) -> Set<(Seq<char>, Seq<char>)> {
    Set::new(|k: (Seq<char>, Seq<char>)| exists|i: int| 0 <= i < s.len() && s[i]@ == k)
}

pub open spec fn distinct(s: Seq<TaskKey>) -> bool {
    forall|i: int, j: int| 0 <= i < j < s.len() ==> s[i]@ != s[j]@
}

/// The phase a pod reports, `"unknown"` when it reports none.
pub fn pod_phase(pod: &PodSnapshot) -> (r: &str)
    ensures
        r@ == phase_of(*pod),
{
    match &pod.phase {
        Some(p) => p.as_str(),
        None => "unknown",
    }
}

/// Whether `keys` lists a key for `pod` and `container`.
pub fn listed(keys: &Vec<TaskKey>, pod: &str, container: &str) -> (r: bool)
    ensures
        r == key_list(keys@).contains((pod@, container@)),
{
    let mut i: usize = 0;
    while i < keys.len()
        invariant
            i <= keys@.len(),
            forall|j: int| 0 <= j < i ==> keys@[j]@ != (pod@, container@),
        decreases keys@.len() - i,
    {
        if same_text(keys[i].pod.as_str(), pod) && same_text(keys[i].container.as_str(), container) {
            assert(keys@[i as int]@ == (pod@, container@));
            return true;
        }
        i += 1;
    }
    false
}

/// The running log followers, each under its key with the handle that
/// cancels it. No key appears twice.
pub struct TaskRegistry<H> {
    entries: Vec<(TaskKey, H)>,
}

/// What the watch loop does for one event.
pub enum WatchStep<H> {
    /// Nothing to start or cancel.
    Idle,
    /// Start a follower for each key, then record it with `insert`.
    Start(Vec<TaskKey>),
    /// These followers were taken out of the registry: cancel each.
    Cancel(Vec<(TaskKey, H)>),
}

impl<H> View for TaskRegistry<H> {
    type V = Seq<(TaskKey, H)>;

    closed spec fn view(&self) -> Seq<(TaskKey, H)> {
        self.entries@
    }
}

impl<H> TaskRegistry<H> {
    pub closed spec fn wf(&self) -> bool {
        unique_keys(self.entries@)
    }

    pub open spec fn has(&self, key: (Seq<char>, Seq<char>)) -> bool {
        exists|i: int| 0 <= i < self@.len() && self@[i].0@ == key
    }

    pub open spec fn keys(&self) -> Set<(Seq<char>, Seq<char>)> {
        Set::new(|k: (Seq<char>, Seq<char>)| self.has(k))
    }

    pub fn new() -> (r: Self)
        ensures
            r.wf(),
            r@ == Seq::<(TaskKey, H)>::empty(),
    {
        TaskRegistry { entries: Vec::new() }
    }

    pub fn len(&self) -> (r: usize)
        ensures
            r == self@.len(),
    {
        self.entries.len()
    }

    pub fn contains(&self, pod: &str, container: &str) -> (r: bool)
        ensures
            r == self.has((pod@, container@)),
    {
        let mut i: usize = 0;
        while i < self.entries.len()
            invariant
                i <= self.entries@.len(),
                forall|j: int| 0 <= j < i ==> self.entries@[j].0@ != (pod@, container@),
            decreases self.entries@.len() - i,
        {
            let k = &self.entries[i].0;
            if same_text(k.pod.as_str(), pod) && same_text(k.container.as_str(), container) {
                assert(self@[i as int].0@ == (pod@, container@));
                return true;
            }
            i += 1;
        }
        false
    }

    /// The keys an `Applied` event for `pod` starts: one for each container
    /// of a running pod that is not `own` and not followed yet, each once.
    pub fn plan_start(&self, pod: &PodSnapshot, own: &str) -> (r: Vec<TaskKey>)
        ensures
            distinct(r@),
            key_list(r@) == started(self.keys(), *pod, own@),
    {
        let mut out: Vec<TaskKey> = Vec::new();
        if !same_text(pod_phase(pod), "Running") {
            assert(key_list(out@) =~= started(self.keys(), *pod, own@));
            return out;
        }
        let mut i: usize = 0;
        while i < pod.containers.len()
            invariant
                i <= pod.containers@.len(),
                is_running(*pod),
                distinct(out@),
                key_list(out@) == Set::new(
                    |k: (Seq<char>, Seq<char>)|
                        k.0 == pod.name@ && k.1 != own@ && !self.has(k) && exists|j: int|
                            0 <= j < i && pod.containers@[j]@ == k.1,
                ),
            decreases pod.containers@.len() - i,
        {
            let c = &pod.containers[i];
            let ghost before = out@;
            if !same_text(c.as_str(), own) && !self.contains(pod.name.as_str(), c.as_str())
                && !listed(&out, pod.name.as_str(), c.as_str()) {
                out.push(TaskKey { pod: pod.name.clone(), container: c.clone() });
                assert(distinct(out@)) by {
                    assert forall|a: int, b: int| 0 <= a < b < out@.len() implies out@[a]@
                        != out@[b]@ by {
                        if b == out@.len() - 1 {
                            assert(out@[a] == before[a]);
                            assert(key_list(before).contains(out@[a]@));
                        } else {
                            assert(out@[a] == before[a] && out@[b] == before[b]);
                        }
                    }
                }
            }
            let ghost new_set = Set::new(
                |k: (Seq<char>, Seq<char>)|
                    k.0 == pod.name@ && k.1 != own@ && !self.has(k) && exists|j: int|
                        0 <= j < i + 1 && pod.containers@[j]@ == k.1,
            );
            assert(key_list(out@) =~= new_set) by {
                assert forall|k: (Seq<char>, Seq<char>)| key_list(out@).contains(k) implies new_set.contains(k) by {
                    let a = choose|a: int| 0 <= a < out@.len() && out@[a]@ == k;
                    if a < before.len() {
                        assert(out@[a] == before[a]);
                        assert(key_list(before).contains(k));
                        let j = choose|j: int| 0 <= j < i && pod.containers@[j]@ == k.1;
                        assert(0 <= j < i + 1 && pod.containers@[j]@ == k.1);
                    } else {
                        assert(pod.containers@[i as int]@ == k.1);
                    }
                }
                assert forall|k: (Seq<char>, Seq<char>)| new_set.contains(k) implies key_list(out@).contains(k) by {
                    let j = choose|j: int| 0 <= j < i + 1 && pod.containers@[j]@ == k.1;
                    if j < i {
                        assert(key_list(before).contains(k));
                        let a = choose|a: int| 0 <= a < before.len() && before[a]@ == k;
                        assert(out@[a] == before[a]);
                    } else if key_list(before).contains(k) {
                        let a = choose|a: int| 0 <= a < before.len() && before[a]@ == k;
                        assert(out@[a] == before[a]);
                    } else {
                        assert(out@.last()@ == k);
                    }
                }
            }
            i += 1;
        }
        assert(key_list(out@) =~= started(self.keys(), *pod, own@));
        out
    }

    /// The decision for one pod event. An `Applied` event leaves the registry
    /// as it is and names the followers to start; a `Deleted` event takes the
    /// pod's followers out for cancelling; the sync markers do nothing.
    pub fn on_event(&mut self, event: &PodEvent, own: &str) -> (r: WatchStep<H>)
        requires
            old(self).wf(),
        ensures
            final(self).wf(),
            match *event {
                PodEvent::Applied(pod) => final(self)@ == old(self)@ && match r {
                    WatchStep::Start(ks) => distinct(ks@) && key_list(ks@) == started(
                        old(self).keys(),
                        pod,
                        own@,
                    ),
                    _ => false,
                },
                PodEvent::Deleted(pod) => final(self)@ == old(self)@.filter(
                    not_of_pod::<H>(pod.name@),
                ) && match r {
                    WatchStep::Cancel(v) => v@ == old(self)@.filter(of_pod::<H>(pod.name@)),
                    _ => false,
                },
                _ => final(self)@ == old(self)@ && r is Idle,
            },
    {
        match event {
            PodEvent::Applied(pod) => WatchStep::Start(self.plan_start(pod, own)),
            PodEvent::Deleted(pod) => WatchStep::Cancel(self.remove_pod(pod.name.as_str())),
            _ => WatchStep::Idle,
        }
    }

    /// Records a started follower. A key that is already present is refused
    /// and its handle handed back.
    pub fn insert(&mut self, key: TaskKey, handle: H) -> (r: Option<H>)
        requires
            old(self).wf(),
        ensures
            final(self).wf(),
            old(self).has(key@) ==> final(self)@ == old(self)@ && r == Some(handle),
            !old(self).has(key@) ==> final(self)@ == old(self)@.push((key, handle)) && r is None,
            final(self).keys() == old(self).keys().insert(key@),
    {
        if self.contains(key.pod.as_str(), key.container.as_str()) {
            assert(self.keys() =~= self.keys().insert(key@));
            return Some(handle);
        }
        let ghost prev = self@;
        self.entries.push((key, handle));
        assert(self.keys() =~= old(self).keys().insert(key@)) by {
            assert forall|k| self.has(k) <==> old(self).keys().insert(key@).contains(k) by {
                if self.has(k) {
                    let i = choose|i: int| 0 <= i < self@.len() && self@[i].0@ == k;
                    if i < prev.len() {
                        assert(old(self).has(k));
                    }
                }
                if old(self).has(k) {
                    let i = choose|i: int| 0 <= i < prev.len() && prev[i].0@ == k;
                    assert(self@[i] == prev[i]);
                }
                if k == key@ {
                    assert(self@[prev.len() as int].0@ == k);
                }
            }
        }
        None
    }

    /// Takes out every follower of the named pod, in the order they were
    /// recorded; the others stay, in their order.
    pub fn remove_pod(&mut self, pod: &str) -> (r: Vec<(TaskKey, H)>)
        requires
            old(self).wf(),
        ensures
            final(self).wf(),
            final(self)@ == old(self)@.filter(not_of_pod::<H>(pod@)),
            r@ == old(self)@.filter(of_pod::<H>(pod@)),
    {
        let mut rest: Vec<(TaskKey, H)> = Vec::new();
        std::mem::swap(&mut self.entries, &mut rest);
        let ghost all = rest@;
        let mut kept: Vec<(TaskKey, H)> = Vec::new();
        let mut removed: Vec<(TaskKey, H)> = Vec::new();
        let ghost mut i: int = 0;
        while rest.len() > 0
            invariant
                0 <= i <= all.len(),
                all == old(self)@,
                unique_keys(all),
                rest@ == all.skip(i),
                kept@ == all.take(i).filter(not_of_pod::<H>(pod@)),
                removed@ == all.take(i).filter(of_pod::<H>(pod@)),
                unique_keys(kept@),
                forall|a: int|
                    #![trigger kept@[a]]
                    0 <= a < kept@.len() ==> exists|m: int|
                        #![trigger all[m]]
                        0 <= m < i && kept@[a] == all[m],
            decreases rest@.len(),
        {
            let e = rest.remove(0);
            proof {
                assert(e == all[i]);
                assert(all.take(i + 1) =~= all.take(i).push(all[i]));
                all.take(i).lemma_filter_push(all[i], not_of_pod::<H>(pod@));
                all.take(i).lemma_filter_push(all[i], of_pod::<H>(pod@));
                assert(rest@ =~= all.skip(i + 1));
            }
            if same_text(e.0.pod.as_str(), pod) {
                removed.push(e);
            } else {
                let ghost before = kept@;
                kept.push(e);
                proof {
                    assert forall|a: int, b: int| 0 <= a < b < kept@.len() implies kept@[a].0@
                        != kept@[b].0@ by {
                        if b == kept@.len() - 1 {
                            let m = choose|m: int| 0 <= m < i && before[a] == all[m];
                            assert(kept@[a] == all[m]);
                        } else {
                            assert(kept@[a] == before[a] && kept@[b] == before[b]);
                        }
                    }
                    assert forall|a: int| #![trigger kept@[a]] 0 <= a < kept@.len() implies exists|m: int|
                        #![trigger all[m]]
                        0 <= m < i + 1 && kept@[a] == all[m] by {
                        if a == kept@.len() - 1 {
                            assert(kept@[a] == all[i]);
                        } else {
                            assert(kept@[a] == before[a]);
                            let m = choose|m: int| 0 <= m < i && before[a] == all[m];
                            assert(kept@[a] == all[m]);
                        }
                    }
                }
            }
            proof {
                i = i + 1;
            }
        }
        assert(all.take(i) =~= all);
        self.entries = kept;
        removed
    }
}

/// Over any run of `Applied` events, a key that is not followed yet gets
/// exactly one follower if some event of the run asks for it, and none
/// otherwise; a key that is already followed gets none.
pub proof fn lemma_spawn_once(
    keys: Set<(Seq<char>, Seq<char>)>,
    pods: Seq<PodSnapshot>,
    own: Seq<char>,
    key: (Seq<char>, Seq<char>),
)
    ensures
        spawn_count(keys, pods, own, key) == if !keys.contains(key) && exists|i: int|
            0 <= i < pods.len() && wants(pods[i], own, key) {
            1nat
        } else {
            0nat
        },
    decreases pods.len(),
{
    if pods.len() > 0 {
        let next = after_applied(keys, pods[0], own);
        let tail = pods.drop_first();
        lemma_spawn_once(next, tail, own, key);
        if keys.contains(key) {
            assert(!started(keys, pods[0], own).contains(key));
            assert(next.contains(key));
        } else if wants(pods[0], own, key) {
            assert(started(keys, pods[0], own).contains(key));
            assert(next.contains(key));
        } else {
            assert(!started(keys, pods[0], own).contains(key));
            assert(!next.contains(key));
            if exists|i: int| 0 <= i < pods.len() && wants(pods[i], own, key) {
                let i = choose|i: int| 0 <= i < pods.len() && wants(pods[i], own, key);
                assert(i > 0);
                assert(tail[i - 1] == pods[i]);
            }
            if exists|i: int| 0 <= i < tail.len() && wants(tail[i], own, key) {
                let i = choose|i: int| 0 <= i < tail.len() && wants(tail[i], own, key);
                assert(tail[i] == pods[i + 1]);
            }
        }
    }
}

/// A `Deleted` event takes out exactly the entries of the deleted pod: each
/// of them is handed over for cancelling, and each entry of another pod stays.
pub proof fn lemma_delete_scope<H>(entries: Seq<(TaskKey, H)>, pod: Seq<char>)
    ensures
        forall|e: (TaskKey, H)|
            entries.contains(e) ==> (#[trigger] entries.filter(of_pod::<H>(pod)).contains(e) <==> e.0.pod@
                == pod),
        forall|e: (TaskKey, H)|
            entries.contains(e) ==> (#[trigger] entries.filter(not_of_pod::<H>(pod)).contains(e)
                <==> e.0.pod@ != pod),
        forall|e: (TaskKey, H)| #[trigger] entries.filter(of_pod::<H>(pod)).contains(e) ==> entries.contains(e),
        forall|e: (TaskKey, H)| #[trigger] entries.filter(not_of_pod::<H>(pod)).contains(e) ==> entries.contains(e),
{
    broadcast use Seq::lemma_filter_contains_rev;

    assert forall|e: (TaskKey, H)| entries.contains(e) implies (#[trigger] entries.filter(
        of_pod::<H>(pod),
    ).contains(e) <==> e.0.pod@ == pod) by {
        let i = choose|i: int| 0 <= i < entries.len() && entries[i] == e;
        if e.0.pod@ == pod {
            entries.lemma_filter_contains(of_pod::<H>(pod), i);
        }
        if entries.filter(of_pod::<H>(pod)).contains(e) {
            let f = entries.filter(of_pod::<H>(pod));
            let j = choose|j: int| 0 <= j < f.len() && f[j] == e;
            entries.lemma_filter_pred(of_pod::<H>(pod), j);
        }
    }
    assert forall|e: (TaskKey, H)| entries.contains(e) implies (#[trigger] entries.filter(
        not_of_pod::<H>(pod),
    ).contains(e) <==> e.0.pod@ != pod) by {
        let i = choose|i: int| 0 <= i < entries.len() && entries[i] == e;
        if e.0.pod@ != pod {
            entries.lemma_filter_contains(not_of_pod::<H>(pod), i);
        }
        if entries.filter(not_of_pod::<H>(pod)).contains(e) {
            let f = entries.filter(not_of_pod::<H>(pod));
            let j = choose|j: int| 0 <= j < f.len() && f[j] == e;
            entries.lemma_filter_pred(not_of_pod::<H>(pod), j);
        }
    }
}

/// The process's own container is never given a follower, whatever the pod
/// and whatever is followed already.
pub proof fn lemma_own_container_skipped(
    keys: Set<(Seq<char>, Seq<char>)>,
    pod: PodSnapshot,
    own: Seq<char>,
)
    ensures
        !started(keys, pod, own).contains((pod.name@, own)),
        forall|k: (Seq<char>, Seq<char>)| #[trigger] started(keys, pod, own).contains(k) ==> k.1 != own,
{
}

} // verus!
