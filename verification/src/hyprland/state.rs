//! The in-memory snapshot of compositor state and the placement engine.
//!
//! The snapshot holds monitors, workspaces and layer surfaces as association
//! lists keyed by their natural keys, in the order the compositor reported
//! them; keys are unique, which makes every rule below deterministic. The
//! placement engine decides on which monitor, and at which stacking rank,
//! the overlay surface should sit.

use vstd::prelude::*;
use crate::hyprland::error::HyprError;
use crate::hyprland::structs::{Layer, LayerLevel, Layers, Monitor, MonitorLayers, Workspace};
use crate::text::str_eq;

verus! {

/// The aggregate snapshot. Owned by a single task; never shared.
pub struct HyprlandState {
    pub layers: Vec<(String, MonitorLayers)>,
    pub monitors: Vec<(String, Monitor)>,
    pub workspaces: Vec<(i32, Workspace)>,
    pub shunpo_namespace: String,
    pub focused_monitor: Option<String>,
}

// ---------------------------------------------------------------------------
// lookup specifications
// ---------------------------------------------------------------------------

/// First index at or after `i` whose workspace key is `id`.
pub open spec fn ws_find_from(ws: Seq<(i32, Workspace)>, id: int, i: int) -> Option<int>
    decreases ws.len() - i,
{
    if i < 0 || i >= ws.len() {
        None
    } else if ws[i].0 == id {
        Some(i)
    } else {
        ws_find_from(ws, id, i + 1)
    }
}

/// First index at or after `i` whose monitor key reads `name`.
pub open spec fn mon_find_from(ms: Seq<(String, Monitor)>, name: Seq<char>, i: int) -> Option<
    int,
>
    decreases ms.len() - i,
{
    if i < 0 || i >= ms.len() {
        None
    } else if ms[i].0@ == name {
        Some(i)
    } else {
        mon_find_from(ms, name, i + 1)
    }
}

/// The workspace stored under key `id`, if any.
pub open spec fn ws_lookup(ws: Seq<(i32, Workspace)>, id: int) -> Option<Workspace> {
    match ws_find_from(ws, id, 0) {
        Some(j) => Some(ws[j].1),
        None => None,
    }
}

// ---------------------------------------------------------------------------
// well-formedness
// ---------------------------------------------------------------------------

impl HyprlandState {
    /// The snapshot's invariant: unique keys, each key equal to the natural
    /// key of the stored object, and the well-known overlay namespace.
    pub open spec fn wf(self) -> bool {
        &&& forall|i: int, j: int|
            0 <= i < j < self.monitors@.len() ==> self.monitors@[i].0@ != self.monitors@[j].0@
        &&& forall|i: int, j: int|
            0 <= i < j < self.workspaces@.len() ==> self.workspaces@[i].0
                != self.workspaces@[j].0
        &&& forall|i: int|
            0 <= i < self.monitors@.len() ==> self.monitors@[i].0@ == self.monitors@[i].1.name@
        &&& forall|i: int|
            0 <= i < self.workspaces@.len() ==> self.workspaces@[i].0
                == self.workspaces@[i].1.id
        &&& self.shunpo_namespace@ == "shunpo"@
    }
}

impl Default for HyprlandState {
    /// An empty snapshot carrying the well-known overlay namespace.
    fn default() -> (s: Self)
        ensures
            s.layers@.len() == 0,
            s.monitors@.len() == 0,
            s.workspaces@.len() == 0,
            s.shunpo_namespace@ == "shunpo"@,
            s.focused_monitor is None,
            s.wf(),
    {
        HyprlandState {
            layers: Vec::new(),
            monitors: Vec::new(),
            workspaces: Vec::new(),
            shunpo_namespace: String::from_str("shunpo"),
            focused_monitor: None,
        }
    }
}

// ---------------------------------------------------------------------------
// construction and rebuilding
// ---------------------------------------------------------------------------

/// The monitor name the snapshot considers focused: the first monitor the
/// compositor reported as focused, if any.
pub open spec fn first_focused(ms: Seq<Monitor>) -> Option<String>
    decreases ms.len(),
{
    if ms.len() == 0 {
        None
    } else if ms[0].focused {
        Some(ms[0].name)
    } else {
        first_focused(ms.drop_first())
    }
}

/// Whether the names of `ms` are pairwise distinct.
pub open spec fn monitor_names_unique(ms: Seq<Monitor>) -> bool {
    forall|i: int, j: int| 0 <= i < j < ms.len() ==> ms[i].name@ != ms[j].name@
}

/// Whether the ids of `ws` are pairwise distinct.
pub open spec fn workspace_ids_unique(ws: Seq<Workspace>) -> bool {
    forall|i: int, j: int| 0 <= i < j < ws.len() ==> ws[i].id != ws[j].id
}

/// What a freshly populated snapshot holds, given what the compositor
/// reported.
pub open spec fn populated(
    s: HyprlandState,
    layers: Layers,
    ms: Seq<Monitor>,
    ws: Seq<Workspace>,
) -> bool {
    &&& s.layers@ == layers.monitors@
    &&& s.monitors@.len() == ms.len()
    &&& forall|i: int| 0 <= i < ms.len() ==> s.monitors@[i] == (ms[i].name, ms[i])
    &&& s.workspaces@.len() == ws.len()
    &&& forall|i: int| 0 <= i < ws.len() ==> s.workspaces@[i] == (ws[i].id, ws[i])
    &&& s.shunpo_namespace@ == "shunpo"@
    &&& s.focused_monitor == first_focused(ms)
}

impl HyprlandState {
    /// Builds a fresh snapshot from one coherent set of query results, each
    /// indexed by its natural key; the focused monitor is the first one
    /// reported as focused.
    pub fn populate(layers: Layers, monitors: Vec<Monitor>, workspaces: Vec<Workspace>) -> (s:
        Self)
        requires
            monitor_names_unique(monitors@),
            workspace_ids_unique(workspaces@),
        ensures
            populated(s, layers, monitors@, workspaces@),
            s.wf(),
    {
        let ghost ms = monitors@;
        let ghost wsq = workspaces@;
        let mut monitors = monitors;
        let mut workspaces = workspaces;

        let mut mon_map: Vec<(String, Monitor)> = Vec::new();
        let mut focused_monitor: Option<String> = None;
        while monitors.len() > 0
            invariant
                monitors@ =~= ms.subrange(ms.len() - monitors@.len(), ms.len() as int),
                mon_map@.len() + monitors@.len() == ms.len(),
                forall|i: int| 0 <= i < mon_map@.len() ==> mon_map@[i] == (ms[i].name, ms[i]),
                focused_monitor == first_focused(ms.subrange(0, mon_map@.len() as int)),
                first_focused(ms) == if focused_monitor is Some {
                    focused_monitor
                } else {
                    first_focused(ms.subrange(mon_map@.len() as int, ms.len() as int))
                },
            decreases monitors@.len(),
        {
            let ghost k = mon_map@.len() as int;
            let m = monitors.remove(0);
            assert(m == ms[k]);
            if focused_monitor.is_none() && m.focused {
                focused_monitor = Some(m.name.clone());
            }
            mon_map.push((m.name.clone(), m));
            proof {
                assert(ms.subrange(0, k + 1).drop_first() =~= ms.subrange(1, k + 1));
                lemma_first_focused_step(ms, k);
            }
        }
        assert(ms.subrange(0, ms.len() as int) =~= ms);

        let mut ws_map: Vec<(i32, Workspace)> = Vec::new();
        while workspaces.len() > 0
            invariant
                workspaces@ =~= wsq.subrange(
                    wsq.len() - workspaces@.len(),
                    wsq.len() as int,
                ),
                ws_map@.len() + workspaces@.len() == wsq.len(),
                forall|i: int| 0 <= i < ws_map@.len() ==> ws_map@[i] == (wsq[i].id, wsq[i]),
            decreases workspaces@.len(),
        {
            let ghost k = ws_map@.len() as int;
            let w = workspaces.remove(0);
            assert(w == wsq[k]);
            ws_map.push((w.id, w));
        }

        let s = HyprlandState {
            layers: layers.monitors,
            monitors: mon_map,
            workspaces: ws_map,
            shunpo_namespace: String::from_str("shunpo"),
            focused_monitor,
        };
        s
    }

    /// Replaces the whole snapshot with a freshly populated one; no partial
    /// state is ever visible to callers.
    pub fn rebuild(&mut self, layers: Layers, monitors: Vec<Monitor>, workspaces: Vec<Workspace>)
        requires
            monitor_names_unique(monitors@),
            workspace_ids_unique(workspaces@),
        ensures
            populated(*final(self), layers, monitors@, workspaces@),
            final(self).wf(),
    {
        *self = Self::populate(layers, monitors, workspaces);
    }

    /// Replaces only the monitor map; layers, workspaces and the focused
    /// monitor are untouched.
    pub fn rebuild_monitors(&mut self, monitors: Vec<Monitor>)
        requires
            monitor_names_unique(monitors@),
        ensures
            final(self).monitors@.len() == monitors@.len(),
            forall|i: int|
                0 <= i < monitors@.len() ==> final(self).monitors@[i] == (
                    monitors@[i].name,
                    monitors@[i],
                ),
            final(self).layers == old(self).layers,
            final(self).workspaces == old(self).workspaces,
            final(self).shunpo_namespace == old(self).shunpo_namespace,
            final(self).focused_monitor == old(self).focused_monitor,
            old(self).wf() ==> final(self).wf(),
    {
        let ghost ms = monitors@;
        let mut monitors = monitors;
        let mut mon_map: Vec<(String, Monitor)> = Vec::new();
        while monitors.len() > 0
            invariant
                monitors@ =~= ms.subrange(ms.len() - monitors@.len(), ms.len() as int),
                mon_map@.len() + monitors@.len() == ms.len(),
                forall|i: int| 0 <= i < mon_map@.len() ==> mon_map@[i] == (ms[i].name, ms[i]),
            decreases monitors@.len(),
        {
            let ghost k = mon_map@.len() as int;
            let m = monitors.remove(0);
            assert(m == ms[k]);
            mon_map.push((m.name.clone(), m));
        }
        self.monitors = mon_map;
    }

    /// Replaces only the workspace map; the monitor map, the layer map and
    /// the focused monitor are untouched.
    pub fn rebuild_workspaces(&mut self, workspaces: Vec<Workspace>)
        requires
            workspace_ids_unique(workspaces@),
        ensures
            final(self).workspaces@.len() == workspaces@.len(),
            forall|i: int|
                0 <= i < workspaces@.len() ==> final(self).workspaces@[i] == (
                    workspaces@[i].id,
                    workspaces@[i],
                ),
            final(self).layers == old(self).layers,
            final(self).monitors == old(self).monitors,
            final(self).shunpo_namespace == old(self).shunpo_namespace,
            final(self).focused_monitor == old(self).focused_monitor,
            old(self).wf() ==> final(self).wf(),
    {
        let ghost wsq = workspaces@;
        let mut workspaces = workspaces;
        let mut ws_map: Vec<(i32, Workspace)> = Vec::new();
        while workspaces.len() > 0
            invariant
                workspaces@ =~= wsq.subrange(
                    wsq.len() - workspaces@.len(),
                    wsq.len() as int,
                ),
                ws_map@.len() + workspaces@.len() == wsq.len(),
                forall|i: int| 0 <= i < ws_map@.len() ==> ws_map@[i] == (wsq[i].id, wsq[i]),
            decreases workspaces@.len(),
        {
            let ghost k = ws_map@.len() as int;
            let w = workspaces.remove(0);
            assert(w == wsq[k]);
            ws_map.push((w.id, w));
        }
        self.workspaces = ws_map;
    }
}

/// Stepping `first_focused` across one monitor.
proof fn lemma_first_focused_step(ms: Seq<Monitor>, k: int)
    requires
        0 <= k < ms.len(),
    ensures
        first_focused(ms.subrange(k, ms.len() as int)) == if ms[k].focused {
            Some(ms[k].name)
        } else {
            first_focused(ms.subrange(k + 1, ms.len() as int))
        },
        first_focused(ms.subrange(0, k)) is Some ==> first_focused(ms.subrange(0, k + 1))
            == first_focused(ms.subrange(0, k)),
        first_focused(ms.subrange(0, k)) is None ==> first_focused(ms.subrange(0, k + 1)) == (
        if ms[k].focused {
            Some(ms[k].name)
        } else {
            Option::<String>::None
        }),
    decreases k,
{
    let pre = ms.subrange(0, k);
    let pre1 = ms.subrange(0, k + 1);
    let suf = ms.subrange(k, ms.len() as int);
    assert(suf.drop_first() =~= ms.subrange(k + 1, ms.len() as int));
    assert(suf[0] == ms[k]);
    if k == 0 {
        assert(pre1.len() == 1);
        assert(pre1[0] == ms[0]);
        assert(pre1.drop_first() =~= Seq::<Monitor>::empty());
        assert(pre.len() == 0);
        assert(first_focused(pre) is None);
        assert(first_focused(pre1.drop_first()) is None);
    } else {
        assert(pre1[0] == ms[0]);
        assert(pre[0] == ms[0]);
        assert(pre1.drop_first() =~= ms.subrange(1, k + 1));
        assert(pre.drop_first() =~= ms.subrange(1, k));
        lemma_first_focused_shift(ms, 1, k);
    }
}

/// `first_focused` over a window of `ms`, stepped from the left.
proof fn lemma_first_focused_shift(ms: Seq<Monitor>, a: int, k: int)
    requires
        0 < a <= k < ms.len(),
    ensures
        first_focused(ms.subrange(a, k + 1)) == if first_focused(ms.subrange(a, k)) is Some {
            first_focused(ms.subrange(a, k))
        } else if ms[k].focused {
            Some(ms[k].name)
        } else {
            Option::<String>::None
        },
    decreases k - a,
{
    let w = ms.subrange(a, k + 1);
    let v = ms.subrange(a, k);
    if a == k {
        assert(w.len() == 1);
        assert(w[0] == ms[k]);
        assert(w.drop_first() =~= Seq::<Monitor>::empty());
        assert(v.len() == 0);
        assert(first_focused(v) is None);
        assert(first_focused(w.drop_first()) is None);
    } else {
        assert(w[0] == ms[a]);
        assert(v[0] == ms[a]);
        assert(w.drop_first() =~= ms.subrange(a + 1, k + 1));
        assert(v.drop_first() =~= ms.subrange(a + 1, k));
        lemma_first_focused_shift(ms, a + 1, k);
    }
}

// ---------------------------------------------------------------------------
// point updates and removals
// ---------------------------------------------------------------------------

impl HyprlandState {
    /// Records which monitor is focused; a pure field set.
    pub fn update_focused_monitor(&mut self, monitor_name: String)
        ensures
            final(self).focused_monitor == Some(monitor_name),
            final(self).layers == old(self).layers,
            final(self).monitors == old(self).monitors,
            final(self).workspaces == old(self).workspaces,
            final(self).shunpo_namespace == old(self).shunpo_namespace,
            old(self).wf() ==> final(self).wf(),
    {
        self.focused_monitor = Some(monitor_name);
    }

    /// Removes the monitor stored under `monitor_name`. A name that is not
    /// in the map is reported as not found and the snapshot is left exactly
    /// as it was.
    pub fn remove_monitor(&mut self, monitor_name: String) -> (r: Result<Monitor, HyprError>)
        ensures
            match mon_find_from(old(self).monitors@, monitor_name@, 0) {
                Some(i) => {
                    &&& r matches Ok(m) && m == old(self).monitors@[i].1
                    &&& final(self).monitors@ == old(self).monitors@.remove(i)
                    &&& final(self).layers == old(self).layers
                    &&& final(self).workspaces == old(self).workspaces
                    &&& final(self).shunpo_namespace == old(self).shunpo_namespace
                    &&& final(self).focused_monitor == old(self).focused_monitor
                },
                None => r == Err::<Monitor, HyprError>(HyprError::MonitorIdNotFound)
                    && *final(self) == *old(self),
            },
            old(self).wf() ==> final(self).wf(),
    {
        let n = self.monitors.len();
        let mut i: usize = 0;
        while i < n
            invariant
                i <= n,
                n == self.monitors@.len(),
                *self == *old(self),
                mon_find_from(self.monitors@, monitor_name@, 0) == mon_find_from(
                    self.monitors@,
                    monitor_name@,
                    i as int,
                ),
            decreases n - i,
        {
            if str_eq(self.monitors[i].0.as_str(), monitor_name.as_str()) {
                let (_key, m) = self.monitors.remove(i);
                proof {
                    if old(self).wf() {
                        assert forall|a: int, b: int|
                            0 <= a < b < self.monitors@.len() implies self.monitors@[a].0@
                            != self.monitors@[b].0@ by {
                            assert(self.monitors@ == old(self).monitors@.remove(i as int));
                        }
                    }
                }
                return Ok(m);
            }
            i = i + 1;
        }
        Err(HyprError::MonitorIdNotFound)
    }

    /// Removes the workspace stored under `id`. An id that is not in the
    /// map is reported as not found and the snapshot is left exactly as it
    /// was.
    pub fn remove_workspace(&mut self, id: i32) -> (r: Result<Workspace, HyprError>)
        ensures
            match ws_find_from(old(self).workspaces@, id as int, 0) {
                Some(i) => {
                    &&& r matches Ok(w) && w == old(self).workspaces@[i].1
                    &&& final(self).workspaces@ == old(self).workspaces@.remove(i)
                    &&& final(self).layers == old(self).layers
                    &&& final(self).monitors == old(self).monitors
                    &&& final(self).shunpo_namespace == old(self).shunpo_namespace
                    &&& final(self).focused_monitor == old(self).focused_monitor
                },
                None => r == Err::<Workspace, HyprError>(HyprError::WorkspaceIdNotFound)
                    && *final(self) == *old(self),
            },
            old(self).wf() ==> final(self).wf(),
    {
        let n = self.workspaces.len();
        let mut i: usize = 0;
        while i < n
            invariant
                i <= n,
                n == self.workspaces@.len(),
                *self == *old(self),
                ws_find_from(self.workspaces@, id as int, 0) == ws_find_from(
                    self.workspaces@,
                    id as int,
                    i as int,
                ),
            decreases n - i,
        {
            if self.workspaces[i].0 == id {
                let (_key, w) = self.workspaces.remove(i);
                proof {
                    if old(self).wf() {
                        assert forall|a: int, b: int|
                            0 <= a < b < self.workspaces@.len() implies self.workspaces@[a].0
                            != self.workspaces@[b].0 by {
                            assert(self.workspaces@ == old(self).workspaces@.remove(i as int));
                        }
                    }
                }
                return Ok(w);
            }
            i = i + 1;
        }
        Err(HyprError::WorkspaceIdNotFound)
    }

    /// The workspace stored under `id`, if any.
    pub fn ws_get(&self, id: i32) -> (r: Option<&Workspace>)
        ensures
            match ws_lookup(self.workspaces@, id as int) {
                Some(w) => r matches Some(x) && *x == w,
                None => r is None,
            },
    {
        let n = self.workspaces.len();
        let mut i: usize = 0;
        while i < n
            invariant
                i <= n,
                n == self.workspaces@.len(),
                ws_find_from(self.workspaces@, id as int, 0) == ws_find_from(
                    self.workspaces@,
                    id as int,
                    i as int,
                ),
            decreases n - i,
        {
            if self.workspaces[i].0 == id {
                return Some(&self.workspaces[i].1);
            }
            i = i + 1;
        }
        None
    }
}

// ---------------------------------------------------------------------------
// the placement engine
// ---------------------------------------------------------------------------

/// Priority weight of a monitor: higher wins; a monitor outside the table
/// weighs nothing.
pub open spec fn monitor_weight(name: Seq<char>) -> int {
    if name == "DP-3"@ {
        3
    } else if name == "DP-2"@ {
        2
    } else if name == "DP-1"@ {
        1
    } else {
        0
    }
}

/// Whether `m` is a placement candidate: its active workspace is known and
/// has no fullscreen client.
pub open spec fn is_placement_candidate(ws: Seq<(i32, Workspace)>, m: Monitor) -> bool {
    match ws_lookup(ws, m.active_workspace.id as int) {
        Some(w) => !w.has_fullscreen,
        None => false,
    }
}

/// The placement candidates among the first `n` monitors, in map order.
pub open spec fn candidates_upto(
    ws: Seq<(i32, Workspace)>,
    ms: Seq<(String, Monitor)>,
    n: int,
) -> Seq<Monitor>
    decreases n,
{
    if n <= 0 {
        Seq::empty()
    } else {
        let pre = candidates_upto(ws, ms, n - 1);
        if is_placement_candidate(ws, ms[n - 1].1) {
            pre.push(ms[n - 1].1)
        } else {
            pre
        }
    }
}

/// All placement candidates of a snapshot, in map order.
pub open spec fn candidates_of(s: HyprlandState) -> Seq<Monitor> {
    candidates_upto(s.workspaces@, s.monitors@, s.monitors@.len() as int)
}

/// The best-ranked candidate: the highest weight, and among equal weights
/// the one the compositor reported first.
pub open spec fn best_candidate(cs: Seq<Monitor>) -> Monitor
    decreases cs.len(),
{
    if cs.len() <= 1 {
        cs[0]
    } else {
        let p = best_candidate(cs.drop_last());
        if monitor_weight(cs.last().name@) > monitor_weight(p.name@) {
            cs.last()
        } else {
            p
        }
    }
}

/// What the placement engine decides for a snapshot.
///
/// No monitor: no solution. Some monitor but no candidate (every active
/// workspace is fullscreen): the first monitor, at the bottom rank, so the
/// overlay yields to fullscreen content. Otherwise: the best-ranked
/// candidate, at the overlay rank.
pub open spec fn get_target_spec(s: HyprlandState) -> Result<(Seq<char>, LayerLevel), HyprError> {
    if s.monitors@.len() == 0 {
        Err(HyprError::ShunpoTargetNoSolution)
    } else {
        let cs = candidates_of(s);
        if cs.len() == 0 {
            Ok((s.monitors@[0].0@, LayerLevel::Bottom))
        } else {
            Ok((best_candidate(cs).name@, LayerLevel::Overlay))
        }
    }
}

/// Whether some layer in `ls` carries the namespace `ns`.
pub open spec fn ns_in_layers(ls: Seq<Layer>, ns: Seq<char>) -> bool {
    exists|j: int| 0 <= j < ls.len() && ls[j].namespace@ == ns
}

/// The first monitor, in map order from index `i`, whose overlay or bottom
/// layer list carries the namespace `ns`; overlay is checked first.
pub open spec fn find_ns_from(
    layers: Seq<(String, MonitorLayers)>,
    ns: Seq<char>,
    i: int,
) -> Option<(Seq<char>, LayerLevel)>
    decreases layers.len() - i,
{
    if i < 0 || i >= layers.len() {
        None
    } else if ns_in_layers(layers[i].1.levels.overlay@, ns) {
        Some((layers[i].0@, LayerLevel::Overlay))
    } else if ns_in_layers(layers[i].1.levels.bottom@, ns) {
        Some((layers[i].0@, LayerLevel::Bottom))
    } else {
        find_ns_from(layers, ns, i + 1)
    }
}

/// Whether some layer in `ls` carries the namespace `ns`.
fn layer_list_has_ns(ls: &Vec<Layer>, ns: &str) -> (r: bool)
    ensures
        r == ns_in_layers(ls@, ns@),
{
    let n = ls.len();
    let mut j: usize = 0;
    while j < n
        invariant
            j <= n,
            n == ls@.len(),
            forall|k: int| 0 <= k < j ==> ls@[k].namespace@ != ns@,
        decreases n - j,
    {
        if str_eq(ls[j].namespace.as_str(), ns) {
            return true;
        }
        j = j + 1;
    }
    false
}

impl HyprlandState {
    /// Finds which monitor, and at which stacking rank, currently carries a
    /// layer surface of namespace `namespace`; only the overlay and bottom
    /// ranks are searched, overlay first.
    pub fn find_monitor_layer_for_namespace(
        namespace: &str,
        layers: &Vec<(String, MonitorLayers)>,
    ) -> (r: Result<(String, LayerLevel), HyprError>)
        ensures
            match find_ns_from(layers@, namespace@, 0) {
                Some(p) => r matches Ok(q) && q.0@ == p.0 && q.1 == p.1,
                None => r == Err::<(String, LayerLevel), HyprError>(HyprError::ShunpoNotFound),
            },
    {
        let n = layers.len();
        let mut i: usize = 0;
        while i < n
            invariant
                i <= n,
                n == layers@.len(),
                find_ns_from(layers@, namespace@, 0) == find_ns_from(
                    layers@,
                    namespace@,
                    i as int,
                ),
            decreases n - i,
        {
            if layer_list_has_ns(&layers[i].1.levels.overlay, namespace) {
                return Ok((layers[i].0.clone(), LayerLevel::Overlay));
            }
            if layer_list_has_ns(&layers[i].1.levels.bottom, namespace) {
                return Ok((layers[i].0.clone(), LayerLevel::Bottom));
            }
            i = i + 1;
        }
        Err(HyprError::ShunpoNotFound)
    }

    /// Locates the overlay surface of this crate's well-known namespace.
    pub fn get_shunpo_monitor_layer(&self) -> (r: Result<(String, LayerLevel), HyprError>)
        ensures
            match find_ns_from(self.layers@, "shunpo"@, 0) {
                Some(p) => r matches Ok(q) && q.0@ == p.0 && q.1 == p.1,
                None => r == Err::<(String, LayerLevel), HyprError>(HyprError::ShunpoNotFound),
            },
    {
        Self::find_monitor_layer_for_namespace("shunpo", &self.layers)
    }

    /// Weight of one monitor name in the priority table.
    fn monitor_score_weight(mname: &str) -> (r: i8)
        ensures
            r as int == monitor_weight(mname@),
    {
        if str_eq(mname, "DP-3") {
            3
        } else if str_eq(mname, "DP-2") {
            2
        } else if str_eq(mname, "DP-1") {
            1
        } else {
            0
        }
    }

    /// Decides where the overlay surface should sit; see `get_target_spec`
    /// for the full rule.
    pub fn shunpo_get_target(&self) -> (r: Result<(String, LayerLevel), HyprError>)
        requires
            self.wf(),
        ensures
            match get_target_spec(*self) {
                Ok(t) => r matches Ok(p) && p.0@ == t.0 && p.1 == t.1,
                Err(e) => r == Err::<(String, LayerLevel), HyprError>(e),
            },
    {
        let n = self.monitors.len();
        if n == 0 {
            return Err(HyprError::ShunpoTargetNoSolution);
        }
        let ghost cs = candidates_of(*self);

        let mut candidates: Vec<(String, i8)> = Vec::new();
        let mut i: usize = 0;
        while i < n
            invariant
                self.wf(),
                i <= n,
                n == self.monitors@.len(),
                candidates@.len() == candidates_upto(
                    self.workspaces@,
                    self.monitors@,
                    i as int,
                ).len(),
                forall|k: int|
                    0 <= k < candidates@.len() ==> candidates@[k].0@ == candidates_upto(
                        self.workspaces@,
                        self.monitors@,
                        i as int,
                    )[k].name@ && candidates@[k].1 as int == monitor_weight(
                        candidates_upto(self.workspaces@, self.monitors@, i as int)[k].name@,
                    ),
            decreases n - i,
        {
            let ghost pre = candidates_upto(self.workspaces@, self.monitors@, i as int);
            let is_cand = match self.ws_get(self.monitors[i].1.active_workspace.id) {
                Some(w) => !w.has_fullscreen,
                None => false,
            };
            assert(is_cand == is_placement_candidate(self.workspaces@, self.monitors@[i as int].1));
            if is_cand {
                let mname = self.monitors[i].0.clone();
                let weight = Self::monitor_score_weight(mname.as_str());
                // with a well-formed snapshot the key reads the same as the
                // monitor's own name
                assert(mname@ == self.monitors@[i as int].1.name@);
                candidates.push((mname, weight));
            }
            i = i + 1;
        }

        if candidates.len() == 0 {
            return Ok((self.monitors[0].0.clone(), LayerLevel::Bottom));
        }

        assert(candidates@.len() == cs.len());
        let mut best: usize = 0;
        let mut j: usize = 1;
        while j < candidates.len()
            invariant
                1 <= j <= candidates@.len(),
                best < j,
                candidates@.len() == cs.len(),
                cs.len() > 0,
                forall|k: int|
                    0 <= k < cs.len() ==> candidates@[k].0@ == cs[k].name@ && candidates@[k].1
                        as int == monitor_weight(cs[k].name@),
                candidates@[best as int].0@ == best_candidate(cs.subrange(0, j as int)).name@,
            decreases candidates@.len() - j,
    {
            proof {
                assert(cs.subrange(0, j + 1).drop_last() =~= cs.subrange(0, j as int));
                assert(cs.subrange(0, j + 1).last() == cs[j as int]);
            }
            if candidates[j].1 > candidates[best].1 {
                best = j;
            }
            j = j + 1;
        }
        assert(cs.subrange(0, cs.len() as int) =~= cs);
        Ok((candidates[best].0.clone(), LayerLevel::Overlay))
    }

    /// Whether the overlay surface sits somewhere other than where the
    /// placement engine says it should: true exactly when the current
    /// (monitor, rank) differs from the decided target.
    pub fn shunpo_should_retarget(&self) -> (r: Result<bool, HyprError>)
        requires
            self.wf(),
        ensures
            match find_ns_from(self.layers@, "shunpo"@, 0) {
                None => r == Err::<bool, HyprError>(HyprError::ShunpoNotFound),
                Some(cur) => match get_target_spec(*self) {
                    Ok(t) => r matches Ok(b) && b == !(cur.0 == t.0 && cur.1 == t.1),
                    Err(e) => r == Err::<bool, HyprError>(e),
                },
            },
    {
        let (shunpo_monitor, shunpo_layer) = match self.get_shunpo_monitor_layer() {
            Ok(p) => p,
            Err(e) => {
                return Err(e);
            },
        };
        let (target_monitor, target_layer) = match self.shunpo_get_target() {
            Ok(p) => p,
            Err(e) => {
                return Err(e);
            },
        };
        Ok(
            !(str_eq(shunpo_monitor.as_str(), target_monitor.as_str()) && shunpo_layer
                == target_layer),
        )
    }
}

/// The ranking law of the placement engine: the chosen candidate is one of
/// the candidates, and no candidate outweighs it — higher weight wins, and
/// the engine never picks past a heavier monitor.
pub proof fn lemma_best_candidate_maximal(cs: Seq<Monitor>)
    requires
        cs.len() > 0,
    ensures
        exists|k: int| 0 <= k < cs.len() && cs[k] == best_candidate(cs),
        forall|k: int|
            0 <= k < cs.len() ==> monitor_weight(best_candidate(cs).name@) >= monitor_weight(
                cs[k].name@,
            ),
    decreases cs.len(),
{
    if cs.len() == 1 {
        assert(cs[0] == best_candidate(cs));
    } else {
        let init = cs.drop_last();
        lemma_best_candidate_maximal(init);
        let p = best_candidate(init);
        assert(forall|k: int| 0 <= k < init.len() ==> cs[k] == init[k]);
        if monitor_weight(cs.last().name@) > monitor_weight(p.name@) {
            assert(cs[cs.len() - 1] == best_candidate(cs));
        } else {
            let ghost w = choose|k: int| 0 <= k < init.len() && init[k] == p;
            assert(cs[w] == best_candidate(cs));
        }
    }
}

} // verus!
