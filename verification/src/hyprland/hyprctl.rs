//! Rules over the compositor's query results. Running the queries is I/O
//! and lives outside this crate; the functions here take the decoded
//! results as values.

use vstd::prelude::*;
use crate::hyprland::structs::{Client, Monitor};
use crate::text::str_eq;

verus! {

/// First index at or after `i` of a client whose initial title reads
/// `title`.
pub open spec fn client_find_from(cs: Seq<Client>, title: Seq<char>, i: int) -> Option<int>
    decreases cs.len() - i,
{
    if i < 0 || i >= cs.len() {
        None
    } else if cs[i].initial_title@ == title {
        Some(i)
    } else {
        client_find_from(cs, title, i + 1)
    }
}

/// Whether some monitor's active workspace is workspace `wid`.
pub open spec fn some_monitor_shows(ms: Seq<Monitor>, wid: int) -> bool {
    exists|k: int| 0 <= k < ms.len() && ms[k].active_workspace.id == wid
}

/// Whether the first client whose initial title reads `client_name` sits on
/// a workspace that is active on some monitor — that is, whether that
/// client is currently visible. A name no client carries is not visible.
pub fn is_client_visible(monitors: &Vec<Monitor>, clients: &Vec<Client>, client_name: &str) -> (r:
    bool)
    ensures
        r == match client_find_from(clients@, client_name@, 0) {
            Some(i) => some_monitor_shows(monitors@, clients@[i].workspace.id as int),
            None => false,
        },
{
    let n = clients.len();
    let mut i: usize = 0;
    while i < n
        invariant
            i <= n,
            n == clients@.len(),
            client_find_from(clients@, client_name@, 0) == client_find_from(
                clients@,
                client_name@,
                i as int,
            ),
        decreases n - i,
    {
        if str_eq(clients[i].initial_title.as_str(), client_name) {
            let wid = clients[i].workspace.id;
            assert(client_find_from(clients@, client_name@, 0) == Some(i as int));
            let m = monitors.len();
            let mut k: usize = 0;
            while k < m
                invariant
                    k <= m,
                    m == monitors@.len(),
                    i < clients@.len(),
                    client_find_from(clients@, client_name@, 0) == Some(i as int),
                    wid == clients@[i as int].workspace.id,
                    forall|j: int| 0 <= j < k ==> monitors@[j].active_workspace.id != wid,
                decreases m - k,
            {
                if monitors[k].active_workspace.id == wid {
                    return true;
                }
                k = k + 1;
            }
            return false;
        }
        i = i + 1;
    }
    false
}

} // verus!
