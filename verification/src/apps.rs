//! Apps view: the managed-application list and its cursor.
//!
//! Applications are keyed by identifier and upserted the same way peers are:
//! a status event for a known identifier replaces that record in place,
//! keeping its position; an unknown identifier is appended. Records are
//! never removed here.

use vstd::prelude::*;
use vstd::string::*;

use crate::events::AppStatus;
use crate::select::{sel_next, sel_prev};
use crate::text::{dec_digits, push_char, spec_tenths, str_eq, tenths_string, u64_string};

verus! {

/// Whether some record in `s` carries the identifier `id`.
pub open spec fn has_app_id(s: Seq<AppStatus>, id: Seq<char>) -> bool {
    exists|j: int| 0 <= j < s.len() && s[j].app_id@ == id
}

/// Whether no two records in `s` carry the same identifier.
pub open spec fn unique_app_ids(s: Seq<AppStatus>) -> bool {
    forall|i: int, j: int|
        0 <= i < j < s.len() ==> s[i].app_id@ != s[j].app_id@
}

/// Index of the first record carrying `id`, or -1 when none does.
pub open spec fn first_match_app(s: Seq<AppStatus>, id: Seq<char>) -> int
    decreases s.len(),
{
    if s.len() == 0 {
        -1
    } else if s[0].app_id@ == id {
        0
    } else {
        let r = first_match_app(s.drop_first(), id);
        if r < 0 {
            -1
        } else {
            r + 1
        }
    }
}

/// `s` with `a` upserted: if a record with `a`'s identifier exists, `a`
/// replaces the first such record in place; otherwise `a` is appended.
pub open spec fn upsert_apps(s: Seq<AppStatus>, a: AppStatus) -> Seq<AppStatus> {
    let fm = first_match_app(s, a.app_id@);
    if fm < 0 {
        s.push(a)
    } else {
        s.update(fm, a)
    }
}

/// `first_match_app` finds the first record with the identifier: a
/// non-negative result indexes a matching record that no earlier record
/// matches, and -1 means the identifier is absent.
pub proof fn lemma_first_match_app_props(s: Seq<AppStatus>, id: Seq<char>)
    ensures
        first_match_app(s, id) == -1 <==> !has_app_id(s, id),
        first_match_app(s, id) != -1 ==> {
            let fm = first_match_app(s, id);
            &&& 0 <= fm < s.len()
            &&& s[fm].app_id@ == id
            &&& forall|j: int| 0 <= j < fm ==> s[j].app_id@ != id
        },
    decreases s.len(),
{
    if s.len() == 0 {
    } else if s[0].app_id@ == id {
    } else {
        let rest = s.drop_first();
        lemma_first_match_app_props(rest, id);
        assert forall|j: int| 0 <= j < rest.len() implies rest[j] == s[j + 1] by {}
        let r = first_match_app(rest, id);
        if r >= 0 {
            assert(first_match_app(s, id) == r + 1);
            assert(rest[r].app_id@ == id);
            assert forall|j: int| 0 <= j < r + 1 implies s[j].app_id@ != id by {
                if j > 0 {
                    assert(rest[j - 1].app_id@ != id);
                }
            }
        }
        if has_app_id(s, id) {
            let w = choose|j: int| 0 <= j < s.len() && s[j].app_id@ == id;
            assert(w > 0);
            assert(rest[w - 1].app_id@ == id);
            assert(has_app_id(rest, id));
        }
        if has_app_id(rest, id) {
            let w = choose|j: int| 0 <= j < rest.len() && rest[j].app_id@ == id;
            assert(s[w + 1].app_id@ == id);
            assert(has_app_id(s, id));
        }
    }
}

/// Upserting `a` makes its identifier present, changes no other membership,
/// and never introduces a duplicate identifier.
pub proof fn lemma_upsert_apps_membership(s: Seq<AppStatus>, a: AppStatus)
    ensures
        forall|x: Seq<char>|
            #[trigger] has_app_id(upsert_apps(s, a), x) <==> (has_app_id(s, x) || x == a.app_id@),
        unique_app_ids(s) ==> unique_app_ids(upsert_apps(s, a)),
{
    lemma_first_match_app_props(s, a.app_id@);
    let fm = first_match_app(s, a.app_id@);
    let t = upsert_apps(s, a);
    if fm < 0 {
        assert forall|x: Seq<char>| #[trigger]
            has_app_id(t, x) implies (has_app_id(s, x) || x == a.app_id@) by {
            let w = choose|j: int| 0 <= j < t.len() && t[j].app_id@ == x;
            if w < s.len() {
                assert(s[w].app_id@ == x);
            }
        }
        assert forall|x: Seq<char>| has_app_id(s, x) || x == a.app_id@ implies #[trigger] has_app_id(
            t,
            x,
        ) by {
            if has_app_id(s, x) {
                let w = choose|j: int| 0 <= j < s.len() && s[j].app_id@ == x;
                assert(t[w].app_id@ == x);
            } else {
                assert(t[s.len() as int].app_id@ == x);
            }
        }
    } else {
        assert forall|x: Seq<char>| #[trigger]
            has_app_id(t, x) implies (has_app_id(s, x) || x == a.app_id@) by {
            let w = choose|j: int| 0 <= j < t.len() && t[j].app_id@ == x;
            if w != fm {
                assert(s[w].app_id@ == x);
            }
        }
        assert forall|x: Seq<char>| has_app_id(s, x) || x == a.app_id@ implies #[trigger] has_app_id(
            t,
            x,
        ) by {
            if x == a.app_id@ {
                assert(t[fm].app_id@ == x);
            } else {
                let w = choose|j: int| 0 <= j < s.len() && s[j].app_id@ == x;
                assert(w != fm);
                assert(t[w].app_id@ == x);
            }
        }
    }
}

/// Upserting the same identifier twice keeps only the later record: the
/// earlier one is overwritten in place, at the identifier's original
/// position, and every other record is untouched.
pub proof fn lemma_upsert_latest_wins(s: Seq<AppStatus>, r1: AppStatus, r2: AppStatus)
    requires
        r1.app_id@ == r2.app_id@,
    ensures
        upsert_apps(upsert_apps(s, r1), r2) == upsert_apps(s, r2),
        unique_app_ids(s) ==> unique_app_ids(upsert_apps(upsert_apps(s, r1), r2)),
        ({
            let t = upsert_apps(upsert_apps(s, r1), r2);
            let pos = if has_app_id(s, r2.app_id@) {
                first_match_app(s, r2.app_id@)
            } else {
                s.len() as int
            };
            &&& 0 <= pos < t.len()
            &&& t[pos] == r2
            &&& forall|j: int| 0 <= j < t.len() && j != pos ==> t[j] == s[j]
        }),
{
    let id = r2.app_id@;
    lemma_first_match_app_props(s, id);
    let fm = first_match_app(s, id);
    let s1 = upsert_apps(s, r1);
    lemma_first_match_app_props(s1, id);
    let fm1 = first_match_app(s1, id);
    if fm < 0 {
        // r1 was appended at the end; the second upsert must find it there.
        assert(s1 == s.push(r1));
        assert(s1[s.len() as int].app_id@ == id);
        assert(has_app_id(s1, id));
        assert(fm1 != -1);
        if fm1 < s.len() {
            assert(s[fm1].app_id@ == id);
            assert(has_app_id(s, id));
            assert(false);
        }
        assert(fm1 == s.len());
        assert(upsert_apps(s1, r2) =~= s.push(r2));
        assert(upsert_apps(s, r2) == s.push(r2));
    } else {
        // r1 overwrote position fm; the second upsert finds the same spot.
        assert(s1 == s.update(fm, r1));
        assert(s1[fm].app_id@ == id);
        assert(has_app_id(s1, id));
        assert(fm1 != -1);
        if fm1 < fm {
            assert(s1[fm1] == s[fm1]);
            assert(s[fm1].app_id@ != id);
            assert(false);
        }
        if fm1 > fm {
            assert(s1[fm].app_id@ != id);
            assert(false);
        }
        assert(fm1 == fm);
        assert(upsert_apps(s1, r2) =~= s.update(fm, r2));
    }
    lemma_upsert_apps_membership(s, r2);
}

/// Run state of a managed application, as reported on the bus.
#[derive(Debug, Clone, Copy, PartialEq, Eq, Structural)]
pub enum RunState {
    Running,
    Stopped,
    Error,
    Unknown,
}

/// The run state named by a status string: `running`, `stopped` or `error`,
/// anything else being unknown.
pub open spec fn spec_run_state(status: Seq<char>) -> RunState {
    if status == "running"@ {
        RunState::Running
    } else if status == "stopped"@ {
        RunState::Stopped
    } else if status == "error"@ {
        RunState::Error
    } else {
        RunState::Unknown
    }
}

/// Classify a status string into a run state.
pub fn run_state(status: &str) -> (r: RunState)
    ensures
        r == spec_run_state(status@),
{
    if str_eq(status, "running") {
        RunState::Running
    } else if str_eq(status, "stopped") {
        RunState::Stopped
    } else if str_eq(status, "error") {
        RunState::Error
    } else {
        RunState::Unknown
    }
}

/// The bracketed icon shown for a run state.
pub open spec fn spec_status_icon(r: RunState) -> Seq<char> {
    match r {
        RunState::Running => "[R]"@,
        RunState::Stopped => "[S]"@,
        RunState::Error => "[E]"@,
        RunState::Unknown => "[?]"@,
    }
}

/// The bracketed icon shown for a run state.
pub fn status_icon(r: RunState) -> (s: &'static str)
    ensures
        s@ == spec_status_icon(r),
{
    match r {
        RunState::Running => "[R]",
        RunState::Stopped => "[S]",
        RunState::Error => "[E]",
        RunState::Unknown => "[?]",
    }
}

/// The resource usage suffix of an app row: CPU and memory when both are
/// reported, empty otherwise.
pub open spec fn spec_resources_label(a: AppStatus) -> Seq<char> {
    match (a.cpu_tenths_percent, a.memory_mb) {
        (Some(cpu), Some(mem)) => "CPU: "@ + spec_tenths(cpu as int) + "% | Mem: "@ + dec_digits(
            mem as int,
        ) + " MB"@,
        _ => Seq::empty(),
    }
}

/// Render the resource usage suffix of an app row.
pub fn resources_label(a: &AppStatus) -> (r: String)
    ensures
        r@ == spec_resources_label(*a),
{
    match (a.cpu_tenths_percent, a.memory_mb) {
        (Some(cpu), Some(mem)) => {
            let mut s = String::from_str("CPU: ");
            let c = tenths_string(cpu as u64);
            s.append(c.as_str());
            s.append("% | Mem: ");
            let m = u64_string(mem);
            s.append(m.as_str());
            s.append(" MB");
            proof {
                assert(s@ =~= spec_resources_label(*a));
            }
            s
        },
        _ => {
            let s = String::new();
            proof {
                assert(s@ =~= spec_resources_label(*a));
            }
            s
        },
    }
}

/// The first display row of an app: icon, name and status.
pub open spec fn spec_app_row_head(a: AppStatus) -> Seq<char> {
    spec_status_icon(spec_run_state(a.status@)) + seq![' '] + a.name@ + seq![' ', ' '] + a.status@
}

/// Render the first display row of an app.
pub fn app_row_head(a: &AppStatus) -> (r: String)
    ensures
        r@ == spec_app_row_head(*a),
{
    let state = run_state(a.status.as_str());
    let mut s = String::from_str(status_icon(state));
    push_char(&mut s, ' ');
    s.append(a.name.as_str());
    push_char(&mut s, ' ');
    push_char(&mut s, ' ');
    s.append(a.status.as_str());
    proof {
        assert(s@ =~= spec_app_row_head(*a));
    }
    s
}

/// The second display row of an app: the identifier, then the resource
/// usage when it is reported.
pub open spec fn spec_app_row_detail(a: AppStatus) -> Seq<char> {
    let res = spec_resources_label(a);
    if res.len() == 0 {
        seq![' ', ' ', ' '] + a.app_id@
    } else {
        seq![' ', ' ', ' '] + a.app_id@ + seq![' ', ' '] + res
    }
}

/// Render the second display row of an app.
pub fn app_row_detail(a: &AppStatus) -> (r: String)
    ensures
        r@ == spec_app_row_detail(*a),
{
    let mut s = String::from_str("   ");
    proof {
        reveal_strlit("   ");
    }
    s.append(a.app_id.as_str());
    let res = resources_label(a);
    if res.as_str().unicode_len() > 0 {
        push_char(&mut s, ' ');
        push_char(&mut s, ' ');
        s.append(res.as_str());
    }
    proof {
        assert(s@ =~= spec_app_row_detail(*a));
    }
    s
}

/// The identifier under the cursor, when the cursor indexes a record.
pub open spec fn spec_selected_app_id(sel: Option<usize>, apps: Seq<AppStatus>) -> Option<String> {
    match sel {
        Some(i) => if i < apps.len() {
            Some(apps[i as int].app_id)
        } else {
            None
        },
        None => None,
    }
}

/// Apps view state: the application list and the cursor over it.
#[derive(Debug)]
pub struct AppsView {
    pub apps: Vec<AppStatus>,
    /// Cursor into `apps`. Action keys only act when it indexes a record.
    pub selected: Option<usize>,
}

impl AppsView {
    /// An empty apps view with no selection.
    pub fn new() -> (r: Self)
        ensures
            r.apps@ == Seq::<AppStatus>::empty(),
            r.selected is None,
    {
        AppsView { apps: Vec::new(), selected: None }
    }

    /// Upsert an application record, keyed by its identifier.
    pub fn update_app(&mut self, status: AppStatus)
        ensures
            final(self).apps@ == upsert_apps(old(self).apps@, status),
            final(self).selected == old(self).selected,
    {
        let ghost s0 = self.apps@;
        let n = self.apps.len();
        let mut i: usize = 0;
        let mut found = false;
        let mut idx: usize = 0;
        while i < n
            invariant
                n == s0.len(),
                self.apps@ == s0,
                i <= n,
                !found ==> forall|j: int| 0 <= j < i ==> s0[j].app_id@ != status.app_id@,
                found ==> idx < i && s0[idx as int].app_id@ == status.app_id@ && (forall|j: int|
                    0 <= j < idx ==> s0[j].app_id@ != status.app_id@),
            decreases n - i,
        {
            if !found {
                if self.apps[i].app_id.eq(&status.app_id) {
                    found = true;
                    idx = i;
                }
            }
            i = i + 1;
        }
        proof {
            lemma_first_match_app_props(s0, status.app_id@);
        }
        if found {
            proof {
                assert(s0[idx as int].app_id@ == status.app_id@);
                assert(has_app_id(s0, status.app_id@));
                let fm = first_match_app(s0, status.app_id@);
                if fm < idx as int {
                    assert(s0[fm].app_id@ == status.app_id@);
                    assert(false);
                }
                if fm > idx as int {
                    assert(s0[idx as int].app_id@ != status.app_id@);
                    assert(false);
                }
            }
            let _ = self.apps.remove(idx);
            self.apps.insert(idx, status);
            proof {
                assert(self.apps@ =~= upsert_apps(s0, status));
            }
        } else {
            proof {
                assert(!has_app_id(s0, status.app_id@));
            }
            self.apps.push(status);
        }
    }

    /// The identifier of the selected application, when the cursor indexes
    /// a record.
    pub fn selected_app_id(&self) -> (r: Option<String>)
        ensures
            r == spec_selected_app_id(self.selected, self.apps@),
    {
        match self.selected {
            Some(i) => if i < self.apps.len() {
                Some(self.apps[i].app_id.clone())
            } else {
                None
            },
            None => None,
        }
    }

    /// Move the cursor to the next application, wrapping past the end.
    /// The step revalidates the cursor: it clears on an empty list, and a
    /// stale index wraps back to the front.
    pub fn select_next(&mut self)
        ensures
            final(self).apps == old(self).apps,
            final(self).selected == sel_next(old(self).selected, old(self).apps@.len() as int),
    {
        if self.apps.len() == 0 {
            self.selected = None;
            return ;
        }
        let len = self.apps.len();
        let next: usize = match self.selected {
            None => 0,
            Some(i) => if i >= len - 1 {
                0
            } else {
                i + 1
            },
        };
        self.selected = Some(next);
    }

    /// Move the cursor to the previous application, wrapping past the
    /// start. The step revalidates the cursor: it clears on an empty
    /// list, and a stale index wraps back to the last application.
    pub fn select_previous(&mut self)
        ensures
            final(self).apps == old(self).apps,
            final(self).selected == sel_prev(old(self).selected, old(self).apps@.len() as int),
    {
        if self.apps.len() == 0 {
            self.selected = None;
            return ;
        }
        let len = self.apps.len();
        let prev: usize = match self.selected {
            None => 0,
            Some(i) => if i == 0 || i >= len {
                len - 1
            } else {
                i - 1
            },
        };
        self.selected = Some(prev);
    }

    /// The view's title line: the app count in parentheses.
    pub fn title(&self) -> (r: String)
        ensures
            r@ == "Apps ("@ + dec_digits(self.apps@.len() as int) + seq![')'],
    {
        let mut s = String::from_str("Apps (");
        let n = u64_string(self.apps.len() as u64);
        s.append(n.as_str());
        push_char(&mut s, ')');
        proof {
            assert(s@ =~= "Apps ("@ + dec_digits(self.apps@.len() as int) + seq![')']);
        }
        s
    }
}

} // verus!
