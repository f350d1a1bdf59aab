use vstd::prelude::*;
use vstd::string::StrSliceExecFns;

verus! {

/// Role level of an administrator.
pub const ADMIN_ROLE: i32 = 0;

/// Role level of an ordinary user.
pub const USER_ROLE: i32 = 1;

/// An account as the session layer knows it.
#[derive(Clone, Debug)]
pub struct User {
    pub id: i32,
    pub username: String,
    pub role: i32,
}

/// Whether an account of `role` holds the permission named `perm`.
pub open spec fn permission_granted(role: i32, perm: Seq<char>) -> bool {
    if perm == "admin"@ {
        role == ADMIN_ROLE
    } else if perm == "user"@ {
        role <= USER_ROLE
    } else {
        false
    }
}

/// Whether two strings hold the same characters.
fn same_text(a: &str, b: &str) -> (r: bool)
    ensures
        r == (a@ == b@),
{
    let n = a.unicode_len();
    if n != b.unicode_len() {
        return false;
    }
    let mut i: usize = 0;
    while i < n
        invariant
            n == a@.len() == b@.len(),
            i <= n,
            forall|j: int| 0 <= j < i ==> a@[j] == b@[j],
        decreases n - i,
    {
        if a.get_char(i) != b.get_char(i) {
            return false;
        }
        i += 1;
    }
    assert(a@ =~= b@);
    true
}

impl User {
    /// Whether the user holds the permission `perm`: "admin" for
    /// administrators, "user" for administrators and ordinary users.
    pub fn has(&self, perm: &str) -> (r: bool)
        ensures
            r == permission_granted(self.role, perm@),
    {
        if same_text(perm, "admin") {
            self.role == ADMIN_ROLE
        } else if same_text(perm, "user") {
            self.role <= USER_ROLE
        } else {
            false
        }
    }
}

/// Whether the signed-in user, if any, is an administrator.
pub fn is_admin_user(current: &Option<User>) -> (r: bool)
    ensures
        r == (current is Some && current->Some_0.role == ADMIN_ROLE),
{
    match current {
        Some(u) => u.role == ADMIN_ROLE,
        None => false,
    }
}

/// Whether the signed-in user may set the password of account `user_id`:
/// an administrator may set any, a user only their own.
pub fn may_change_password(current: &Option<User>, user_id: i32) -> (r: bool)
    ensures
        r == (current is Some && (current->Some_0.role == ADMIN_ROLE || current->Some_0.id == user_id)),
{
    match current {
        Some(u) => u.role == ADMIN_ROLE || u.id == user_id,
        None => false,
    }
}

/// Whether the signed-in user may write the progress records of account
/// `account_id`: only their own.
pub fn may_write_progress(current: &Option<User>, account_id: i32) -> (r: bool)
    ensures
        r == (current is Some && current->Some_0.id == account_id),
{
    match current {
        Some(u) => u.id == account_id,
        None => false,
    }
}

} // verus!
