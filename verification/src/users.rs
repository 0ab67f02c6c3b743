//! The user directory: system accounts offered for enrollment, the
//! fallback to the invoking user, and how the selected user is carried
//! across directory refreshes.

use vstd::prelude::*;
use vstd::string::StringExecFns;
use crate::text::str_eq;

verus! {

/// A system account: the unique username, and a display name that may
/// be empty.
#[derive(Debug, Clone)]
pub struct UserOption {
    pub username: String,
    pub realname: String,
}

impl PartialEq for UserOption {
    fn eq(&self, other: &UserOption) -> bool {
        str_eq(self.username.as_str(), other.username.as_str()) && str_eq(
            self.realname.as_str(),
            other.realname.as_str(),
        )
    }
}

impl vstd::std_specs::cmp::PartialEqSpecImpl for UserOption {
    open spec fn obeys_eq_spec() -> bool {
        true
    }

    open spec fn eq_spec(&self, other: &UserOption) -> bool {
        self.username@ == other.username@ && self.realname@ == other.realname@
    }
}

impl UserOption {
    /// An identical copy of this entry.
    pub fn duplicate(&self) -> (r: UserOption)
        ensures
            r == *self,
    {
        UserOption { username: self.username.clone(), realname: self.realname.clone() }
    }

    /// The label shown for this user: the display name with the username
    /// in parentheses, or the bare username when the display name is empty.
    pub fn display_label(&self) -> (r: String)
        ensures
            self.realname@.len() == 0 ==> r@ == self.username@,
            self.realname@.len() > 0 ==> r@ == self.realname@ + " ("@ + self.username@ + ")"@,
    {
        if self.realname.as_str().is_empty() {
            self.username.clone()
        } else {
            let mut s: String = self.realname.clone();
            s.append(" (");
            s.append(self.username.as_str());
            s.append(")");
            s
        }
    }
}

/// The directory handed to callers: the successfully fetched accounts as
/// they came, or, when none could be fetched, the invoking user as the
/// single fallback entry.
pub fn resolve_users(fetched: Vec<UserOption>, fallback: Option<UserOption>) -> (r: Vec<
    UserOption,
>)
    ensures
        fetched@.len() > 0 ==> r@ == fetched@,
        fetched@.len() == 0 ==> match fallback {
            Some(f) => r@ =~= seq![f],
            None => r@.len() == 0,
        },
{
    if fetched.len() > 0 {
        fetched
    } else {
        match fallback {
            Some(f) => {
                let mut v: Vec<UserOption> = Vec::new();
                v.push(f);
                v
            },
            None => Vec::new(),
        }
    }
}

/// The first entry carrying the given username, if any.
pub open spec fn find_by_username(users: Seq<UserOption>, name: Seq<char>) -> Option<UserOption>
    decreases users.len(),
{
    if users.len() == 0 {
        None
    } else if users[0].username@ == name {
        Some(users[0])
    } else {
        find_by_username(users.drop_first(), name)
    }
}

/// Law: what the re-selection search returns is sound — a found entry
/// is a member of the list and carries the username looked for (only
/// its display name can differ from the previous selection); a miss
/// means no entry carries it.
pub proof fn lemma_find_by_username_sound(users: Seq<UserOption>, name: Seq<char>)
    ensures
        find_by_username(users, name) matches Some(u) ==> u.username@ == name && users.contains(
            u,
        ),
        find_by_username(users, name) is None ==> forall|i: int|
            0 <= i < users.len() ==> users[i].username@ != name,
    decreases users.len(),
{
    if users.len() > 0 && users[0].username@ != name {
        let tail = users.drop_first();
        lemma_find_by_username_sound(tail, name);
        match find_by_username(users, name) {
            Some(u) => {
                let j = choose|j: int| 0 <= j < tail.len() && tail[j] == u;
                assert(users[j + 1] == tail[j]);
            },
            None => {
                assert forall|i: int| 0 <= i < users.len() implies users[i].username@
                    != name by {
                    if i > 0 {
                        assert(users[i] == tail[i - 1]);
                    }
                }
            },
        }
    }
}

/// What a correct re-selection yields: the first entry whose username
/// matches the previous selection (its display name refreshed with it);
/// otherwise the first entry; otherwise no selection.
pub open spec fn selection_ok(
    users: Seq<UserOption>,
    previous: Option<UserOption>,
    sel: Option<UserOption>,
) -> bool {
    match previous {
        Some(p) => match find_by_username(users, p.username@) {
            Some(u) => sel == Some(u),
            None => if users.len() > 0 {
                sel == Some(users[0])
            } else {
                sel is None
            },
        },
        None => if users.len() > 0 {
            sel == Some(users[0])
        } else {
            sel is None
        },
    }
}

proof fn lemma_find_skips_mismatches(users: Seq<UserOption>, name: Seq<char>, i: int)
    requires
        0 <= i <= users.len(),
        forall|j: int| 0 <= j < i ==> users[j].username@ != name,
    ensures
        find_by_username(users, name) == find_by_username(users.skip(i), name),
    decreases i,
{
    if i == 0 {
        assert(users.skip(0) =~= users);
    } else {
        lemma_find_skips_mismatches(users, name, i - 1);
        let tail = users.skip(i - 1);
        assert(tail[0] == users[i - 1]);
        assert(tail.drop_first() =~= users.skip(i));
    }
}

/// Re-selects a user after the directory was refreshed: keeps the
/// previous selection when its username still appears (picking up the
/// refreshed display name), falls back to the first entry, or to no
/// selection when the directory is empty.
#[verifier::loop_isolation(false)]
pub fn select_user(users: &Vec<UserOption>, previous: Option<&UserOption>) -> (r: Option<
    UserOption,
>)
    ensures
        selection_ok(
            users@,
            match previous {
                Some(p) => Some(*p),
                None => None,
            },
            r,
        ),
{
    match previous {
        Some(p) => {
            let ghost name = p.username@;
            let mut i: usize = 0;
            while i < users.len()
                invariant
                    0 <= i <= users@.len(),
                    forall|j: int| 0 <= j < i ==> users@[j].username@ != name,
                decreases users@.len() - i,
            {
                if str_eq(users[i].username.as_str(), p.username.as_str()) {
                    proof {
                        lemma_find_skips_mismatches(users@, name, i as int);
                        assert(users@.skip(i as int)[0] == users@[i as int]);
                    }
                    return Some(users[i].duplicate());
                }
                i = i + 1;
            }
            proof {
                lemma_find_skips_mismatches(users@, name, users@.len() as int);
                assert(users@.skip(users@.len() as int) =~= Seq::<UserOption>::empty());
            }
            if users.len() > 0 {
                Some(users[0].duplicate())
            } else {
                None
            }
        },
        None => {
            if users.len() > 0 {
                Some(users[0].duplicate())
            } else {
                None
            }
        },
    }
}

} // verus!
