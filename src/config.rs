//! The listener's record of known app roots and their chat sessions. Reading
//! and writing it on disk is left to the caller; this module keeps it right.
use vstd::prelude::*;
use crate::message::AppInfo;
use crate::text::{owned, str_eq};

verus! {

/// A chat session as the configuration records it.
#[derive(Clone, Debug)]
pub struct ChatSession {
    pub id: String,
    pub name: String,
    pub created_at: i64,
    pub last_active: i64,
}

/// An app root and the chat sessions opened in it.
#[derive(Clone, Debug)]
pub struct App {
    pub root: String,
    pub sessions: Vec<ChatSession>,
}

/// The listener's configuration.
#[derive(Clone, Debug)]
pub struct Config {
    pub config_path: String,
    pub allowed_tools: Vec<String>,
    pub apps: Vec<App>,
}

/// The tools the agent may use when the configuration names none.
pub open spec fn spec_default_tools() -> Seq<Seq<char>> {
    seq![
        "Edit"@,
        "Write"@,
        "Bash(git *)"@,
        "Bash(npm *)"@,
        "Bash(npx *)"@,
        "Bash(node *)"@,
        "Bash(ls *)"@,
        "Bash(mkdir *)"@,
    ]
}

/// The tools the agent may use when the configuration names none.
pub fn default_allowed_tools() -> (r: Vec<String>)
    ensures
        r@.map_values(|s: String| s@) == spec_default_tools(),
{
    proof {
        reveal_strlit("Edit");
        reveal_strlit("Write");
        reveal_strlit("Bash(git *)");
        reveal_strlit("Bash(npm *)");
        reveal_strlit("Bash(npx *)");
        reveal_strlit("Bash(node *)");
        reveal_strlit("Bash(ls *)");
        reveal_strlit("Bash(mkdir *)");
    }
    let mut r: Vec<String> = Vec::new();
    r.push(owned("Edit"));
    r.push(owned("Write"));
    r.push(owned("Bash(git *)"));
    r.push(owned("Bash(npm *)"));
    r.push(owned("Bash(npx *)"));
    r.push(owned("Bash(node *)"));
    r.push(owned("Bash(ls *)"));
    r.push(owned("Bash(mkdir *)"));
    assert(r@.map_values(|s: String| s@) =~= spec_default_tools());
    r
}

/// The position of the first app with root `root`, or -1.
pub open spec fn first_app(apps: Seq<App>, root: Seq<char>) -> int
    decreases apps.len(),
{
    if apps.len() == 0 {
        -1
    } else {
        let k = first_app(apps.drop_last(), root);
        if k >= 0 {
            k
        } else if apps.last().root@ == root {
            apps.len() - 1
        } else {
            -1
        }
    }
}

/// The position of the first session with id `id`, or -1.
pub open spec fn first_session(sessions: Seq<ChatSession>, id: Seq<char>) -> int
    decreases sessions.len(),
{
    if sessions.len() == 0 {
        -1
    } else {
        let k = first_session(sessions.drop_last(), id);
        if k >= 0 {
            k
        } else if sessions.last().id@ == id {
            sessions.len() - 1
        } else {
            -1
        }
    }
}

proof fn lemma_first_app(apps: Seq<App>, root: Seq<char>)
    ensures
        -1 <= first_app(apps, root) < apps.len(),
        first_app(apps, root) >= 0 ==> apps[first_app(apps, root)].root@ == root,
        forall|j: int| 0 <= j < apps.len() && (first_app(apps, root) < 0 || j < first_app(apps, root))
            ==> #[trigger] apps[j].root@ != root,
    decreases apps.len(),
{
    if apps.len() > 0 {
        lemma_first_app(apps.drop_last(), root);
        assert forall|j: int| 0 <= j < apps.len() && (first_app(apps, root) < 0 || j < first_app(apps, root))
            implies #[trigger] apps[j].root@ != root by {
            if j < apps.len() - 1 {
                assert(apps.drop_last()[j] == apps[j]);
            }
        }
    }
}

proof fn lemma_first_session(sessions: Seq<ChatSession>, id: Seq<char>)
    ensures
        -1 <= first_session(sessions, id) < sessions.len(),
        first_session(sessions, id) >= 0 ==> sessions[first_session(sessions, id)].id@ == id,
        forall|j: int| 0 <= j < sessions.len() && (first_session(sessions, id) < 0 || j < first_session(sessions, id))
            ==> #[trigger] sessions[j].id@ != id,
    decreases sessions.len(),
{
    if sessions.len() > 0 {
        lemma_first_session(sessions.drop_last(), id);
        assert forall|j: int| 0 <= j < sessions.len() && (first_session(sessions, id) < 0 || j < first_session(sessions, id))
            implies #[trigger] sessions[j].id@ != id by {
            if j < sessions.len() - 1 {
                assert(sessions.drop_last()[j] == sessions[j]);
            }
        }
    }
}

proof fn lemma_first_app_unique(apps: Seq<App>, root: Seq<char>, i: int)
    requires
        0 <= i < apps.len(),
        apps[i].root@ == root,
        forall|j: int| 0 <= j < i ==> #[trigger] apps[j].root@ != root,
    ensures
        first_app(apps, root) == i,
{
    lemma_first_app(apps, root);
}

proof fn lemma_first_session_unique(sessions: Seq<ChatSession>, id: Seq<char>, i: int)
    requires
        0 <= i < sessions.len(),
        sessions[i].id@ == id,
        forall|j: int| 0 <= j < i ==> #[trigger] sessions[j].id@ != id,
    ensures
        first_session(sessions, id) == i,
{
    lemma_first_session(sessions, id);
}

/// The last `/`-separated segment of a path.
pub open spec fn last_segment(s: Seq<char>) -> Seq<char>
    decreases s.len(),
{
    if s.len() == 0 || s.last() == '/' {
        Seq::empty()
    } else {
        last_segment(s.drop_last()).push(s.last())
    }
}

/// The last `/`-separated segment of `path`: what follows its last slash, or
/// all of it.
pub fn last_path_segment(path: &str) -> (r: &str)
    ensures
        r@ == last_segment(path@),
{
    let n = path.unicode_len();
    let mut start = n;
    assert(path@.subrange(0, n as int) =~= path@);
    assert(path@.subrange(n as int, n as int) =~= Seq::<char>::empty());
    while start > 0 && path.get_char(start - 1) != '/'
        invariant
            start <= n,
            n == path@.len(),
            last_segment(path@) == last_segment(path@.subrange(0, start as int)) + path@.subrange(start as int, n as int),
        decreases start,
    {
        let ghost p = path@.subrange(0, start as int);
        assert(p.drop_last() =~= path@.subrange(0, start - 1));
        assert(path@.subrange(start - 1, n as int) =~= seq![p.last()] + path@.subrange(start as int, n as int));
        start = start - 1;
    }
    proof {
        assert(path@.subrange(0, n as int) =~= path@);
        let p = path@.subrange(0, start as int);
        assert(last_segment(p) =~= Seq::<char>::empty());
        assert(Seq::<char>::empty() + path@.subrange(start as int, n as int) =~= path@.subrange(start as int, n as int));
    }
    path.substring_char(start, n)
}

impl Config {
    /// A fresh configuration stored at `config_path`: the default tools and
    /// no apps.
    pub fn new(config_path: String) -> (r: Config)
        ensures
            r.config_path == config_path,
            r.allowed_tools@.map_values(|s: String| s@) == spec_default_tools(),
            r.apps@.len() == 0,
    {
        Config { config_path, allowed_tools: default_allowed_tools(), apps: Vec::new() }
    }

    /// The position of the app with root `root`, which is added, with no
    /// sessions, when there is none yet.
    pub fn ensure_app(&mut self, root: &str) -> (r: usize)
        ensures
            final(self).config_path == old(self).config_path,
            final(self).allowed_tools == old(self).allowed_tools,
            first_app(old(self).apps@, root@) >= 0 ==> final(self).apps@ == old(self).apps@
                && r == first_app(old(self).apps@, root@),
            first_app(old(self).apps@, root@) < 0 ==> final(self).apps@.drop_last() == old(self).apps@
                && final(self).apps@.len() == old(self).apps@.len() + 1
                && r == old(self).apps@.len()
                && final(self).apps@[r as int].root@ == root@
                && final(self).apps@[r as int].sessions@.len() == 0,
            r == first_app(final(self).apps@, root@),
    {
        let mut i: usize = 0;
        while i < self.apps.len()
            invariant
                i <= self.apps@.len(),
                forall|j: int| 0 <= j < i ==> #[trigger] self.apps@[j].root@ != root@,
            decreases self.apps@.len() - i,
        {
            if str_eq(self.apps[i].root.as_str(), root) {
                proof {
                    lemma_first_app_unique(self.apps@, root@, i as int);
                }
                return i;
            }
            i = i + 1;
        }
        proof {
            lemma_first_app(self.apps@, root@);
        }
        let ghost before = self.apps@;
        self.apps.push(App { root: owned(root), sessions: Vec::new() });
        proof {
            assert(self.apps@.drop_last() =~= before);
            lemma_first_app_unique(self.apps@, root@, i as int);
        }
        i
    }

    /// Records a new chat session under the app `app_root`, adding the app
    /// when needed, and returns the app's position.
    pub fn add_session(&mut self, app_root: &str, session: ChatSession) -> (r: usize)
        ensures
            final(self).config_path == old(self).config_path,
            final(self).allowed_tools == old(self).allowed_tools,
            r == first_app(final(self).apps@, app_root@),
            final(self).apps@.len() == if first_app(old(self).apps@, app_root@) >= 0 {
                old(self).apps@.len()
            } else {
                old(self).apps@.len() + 1
            },
            forall|j: int| 0 <= j < old(self).apps@.len() && j != r ==> #[trigger] final(self).apps@[j] == old(self).apps@[j],
            final(self).apps@[r as int].root@ == app_root@,
            final(self).apps@[r as int].sessions@ == if r < old(self).apps@.len() {
                old(self).apps@[r as int].sessions@.push(session)
            } else {
                seq![session]
            },
    {
        let i = self.ensure_app(app_root);
        proof {
            lemma_first_app(self.apps@, app_root@);
        }
        let ghost mid = self.apps@;
        self.apps[i].sessions.push(session);
        proof {
            assert(self.apps@ =~= mid.update(i as int, self.apps@[i as int]));
            lemma_first_app_unique(self.apps@, app_root@, i as int);
            if i as int == old(self).apps@.len() {
                assert(mid[i as int].sessions@.push(session) =~= seq![session]);
            }
        }
        i
    }

    /// Marks the session `session_id` of the app `app_root` active at `now`.
    /// Only the first app with that root and its first session with that id
    /// are looked at; whether one was found is returned, and nothing changes
    /// when none was.
    pub fn update_session_activity(&mut self, app_root: &str, session_id: &str, now: i64) -> (r: bool)
        ensures
            final(self).config_path == old(self).config_path,
            final(self).allowed_tools == old(self).allowed_tools,
            ({
                let a = first_app(old(self).apps@, app_root@);
                let s = if a >= 0 { first_session(old(self).apps@[a].sessions@, session_id@) } else { -1 };
                &&& r == (s >= 0)
                &&& !r ==> final(self).apps@ == old(self).apps@
                &&& r ==> {
                    let before = old(self).apps@[a].sessions@[s];
                    let after = final(self).apps@[a].sessions@[s];
                    &&& final(self).apps@.len() == old(self).apps@.len()
                    &&& forall|j: int| 0 <= j < old(self).apps@.len() && j != a ==> #[trigger] final(self).apps@[j] == old(self).apps@[j]
                    &&& final(self).apps@[a].root == old(self).apps@[a].root
                    &&& final(self).apps@[a].sessions@.len() == old(self).apps@[a].sessions@.len()
                    &&& forall|k: int| 0 <= k < old(self).apps@[a].sessions@.len() && k != s
                        ==> #[trigger] final(self).apps@[a].sessions@[k] == old(self).apps@[a].sessions@[k]
                    &&& after.id == before.id && after.name == before.name
                    &&& after.created_at == before.created_at
                    &&& after.last_active == now
                }
            }),
    {
        proof {
            lemma_first_app(self.apps@, app_root@);
        }
        let mut i: usize = 0;
        while i < self.apps.len()
            invariant
                i <= self.apps@.len(),
                self.apps@ == old(self).apps@,
                self.config_path == old(self).config_path,
                self.allowed_tools == old(self).allowed_tools,
                forall|j: int| 0 <= j < i ==> #[trigger] self.apps@[j].root@ != app_root@,
            decreases self.apps@.len() - i,
        {
            if str_eq(self.apps[i].root.as_str(), app_root) {
                proof {
                    lemma_first_app_unique(self.apps@, app_root@, i as int);
                    lemma_first_session(self.apps@[i as int].sessions@, session_id@);
                }
                let mut k: usize = 0;
                while k < self.apps[i].sessions.len()
                    invariant
                        i < self.apps@.len(),
                        self.apps@ == old(self).apps@,
                        self.config_path == old(self).config_path,
                        self.allowed_tools == old(self).allowed_tools,
                        k <= self.apps@[i as int].sessions@.len(),
                        first_app(old(self).apps@, app_root@) == i,
                        forall|j: int| 0 <= j < k ==> #[trigger] self.apps@[i as int].sessions@[j].id@ != session_id@,
                    decreases self.apps@[i as int].sessions@.len() - k,
                {
                    if str_eq(self.apps[i].sessions[k].id.as_str(), session_id) {
                        proof {
                            lemma_first_session_unique(self.apps@[i as int].sessions@, session_id@, k as int);
                        }
                        let ghost before = self.apps@;
                        self.apps[i].sessions[k].last_active = now;
                        proof {
                            assert(self.apps@ =~= before.update(i as int, self.apps@[i as int]));
                            assert(self.apps@[i as int].sessions@ =~= before[i as int].sessions@.update(
                                k as int,
                                self.apps@[i as int].sessions@[k as int],
                            ));
                        }
                        return true;
                    }
                    k = k + 1;
                }
                return false;
            }
            i = i + 1;
        }
        false
    }

    /// The apps as the listener announces them: each root, named by its last
    /// path segment.
    pub fn to_app_infos(&self) -> (r: Vec<AppInfo>)
        ensures
            r@.len() == self.apps@.len(),
            forall|i: int| 0 <= i < r@.len() ==> (#[trigger] r@[i]).root@ == self.apps@[i].root@
                && r@[i].name@ == last_segment(self.apps@[i].root@),
    {
        let mut r: Vec<AppInfo> = Vec::new();
        let mut i: usize = 0;
        while i < self.apps.len()
            invariant
                i <= self.apps@.len(),
                r@.len() == i,
                forall|k: int| 0 <= k < i ==> (#[trigger] r@[k]).root@ == self.apps@[k].root@
                    && r@[k].name@ == last_segment(self.apps@[k].root@),
            decreases self.apps@.len() - i,
        {
            let root = self.apps[i].root.as_str();
            r.push(AppInfo { root: owned(root), name: owned(last_path_segment(root)) });
            i = i + 1;
        }
        r
    }
}

} // verus!
