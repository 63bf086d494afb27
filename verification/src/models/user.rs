//! Users: the records, the rules their fields must meet, and the credential
//! check.

use vstd::prelude::*;
use crate::utils::error_handlers::MappedErrors;

verus! {

/// An instant as the store holds it: seconds since the Unix epoch, and
/// nanoseconds within the second.
#[derive(Debug, Clone, Copy, PartialEq, Eq, Structural)]
pub struct Timestamp {
    pub secs: i64,
    pub nanos: u32,
}

/// A user as stored, password included.
#[derive(Debug, Clone, PartialEq, Eq)]
pub struct User {
    pub id: i32,
    pub username: String,
    pub password: String,
    pub email: String,
    pub created_at: Timestamp,
}

/// A user to be created.
#[derive(Debug, Clone, PartialEq, Eq)]
pub struct CreateUser {
    pub username: String,
    pub password: String,
    pub email: String,
}

/// New profile fields for an existing user.
#[derive(Debug, Clone, PartialEq, Eq)]
pub struct UpdateUser {
    pub username: String,
    pub email: String,
}

/// A user as shown to callers: everything but the password.
#[derive(Debug, Clone, PartialEq, Eq)]
pub struct ListUser {
    pub id: i32,
    pub username: String,
    pub email: String,
    pub created_at: Timestamp,
}

/// Whether `validator` takes `s` for an e-mail address.
pub uninterp spec fn well_formed_email(s: Seq<char>) -> bool;

/// Calls `validator::ValidateEmail::validate_email` on the string.
///
/// Trusted: the answer is [`well_formed_email`] of the text.
#[verifier::external_body]
pub(crate) fn email_is_well_formed(s: &String) -> (r: bool)
    ensures
        r == well_formed_email(s@),
{
    validator::ValidateEmail::validate_email(s)
}

/// A user name: 3 to 50 characters.
pub open spec fn username_ok(s: Seq<char>) -> bool {
    3 <= s.len() <= 50
}

/// A password: at least 8 characters.
pub open spec fn password_ok(s: Seq<char>) -> bool {
    s.len() >= 8
}

/// Whether `s` is 3 to 50 characters long.
pub fn check_username(s: &String) -> (r: bool)
    ensures
        r == username_ok(s@),
{
    let n = s.as_str().unicode_len();
    3 <= n && n <= 50
}

/// Whether `s` is at least 8 characters long.
pub fn check_password(s: &String) -> (r: bool)
    ensures
        r == password_ok(s@),
{
    s.as_str().unicode_len() >= 8
}

impl User {
    pub open spec fn wf(self) -> bool {
        username_ok(self.username@) && password_ok(self.password@) && well_formed_email(self.email@)
    }

    /// Whether the name, the password and the e-mail address meet their rules.
    pub fn validate(&self) -> (r: bool)
        ensures
            r == self.wf(),
    {
        check_username(&self.username) && check_password(&self.password) && email_is_well_formed(
            &self.email,
        )
    }

    /// Whether this user logs in with exactly this e-mail address and password.
    pub open spec fn logs_in_with(self, email: Seq<char>, password: Seq<char>) -> bool {
        self.email@ == email && self.password@ == password
    }

    /// What callers may see of this user.
    pub open spec fn shown(self) -> ListUser {
        ListUser {
            id: self.id,
            username: self.username,
            email: self.email,
            created_at: self.created_at,
        }
    }
}

impl CreateUser {
    pub open spec fn wf(self) -> bool {
        username_ok(self.username@) && password_ok(self.password@) && well_formed_email(self.email@)
    }

    /// Whether the name, the password and the e-mail address meet their rules.
    pub fn validate(&self) -> (r: bool)
        ensures
            r == self.wf(),
    {
        check_username(&self.username) && check_password(&self.password) && email_is_well_formed(
            &self.email,
        )
    }
}

impl UpdateUser {
    pub open spec fn wf(self) -> bool {
        well_formed_email(self.email@)
    }

    /// Whether the e-mail address is one.
    pub fn validate(&self) -> (r: bool)
        ensures
            r == self.wf(),
    {
        email_is_well_formed(&self.email)
    }
}

/// Shows a stored user without the password.
pub fn find(user: User) -> (r: ListUser)
    ensures
        r == user.shown(),
{
    ListUser { id: user.id, username: user.username, email: user.email, created_at: user.created_at }
}

/// Shows stored users without their passwords, in the order given.
pub fn list(users: Vec<User>) -> (r: Vec<ListUser>)
    ensures
        r@ == users@.map_values(|u: User| u.shown()),
{
    let mut shown: Vec<ListUser> = Vec::new();
    let mut i: usize = 0;
    while i < users.len()
        invariant
            i <= users.len(),
            shown@.len() == i,
            forall|j: int| 0 <= j < i ==> shown@[j] == (#[trigger] users@[j]).shown(),
        decreases users.len() - i,
    {
        let user = &users[i];
        shown.push(
            ListUser {
                id: user.id,
                username: user.username.clone(),
                email: user.email.clone(),
                created_at: user.created_at,
            },
        );
        i += 1;
    }
    assert(shown@ =~= users@.map_values(|u: User| u.shown()));
    shown
}

/// Whether some user among `users` logs in with this e-mail address and
/// password.
pub open spec fn known_login(users: Seq<User>, email: Seq<char>, password: Seq<char>) -> bool {
    exists|i: int| 0 <= i < users.len() && (#[trigger] users[i]).logs_in_with(email, password)
}

/// Whether `id` is the first user's among `users` that logs in with this
/// e-mail address and password.
pub open spec fn first_login(users: Seq<User>, email: Seq<char>, password: Seq<char>, id: int) -> bool {
    exists|i: int|
        0 <= i < users.len() && (#[trigger] users[i]).logs_in_with(email, password) && users[i].id
            == id && forall|j: int|
            0 <= j < i ==> !(#[trigger] users[j]).logs_in_with(email, password)
}

/// Checks credentials against the stored users: the id of the user whose
/// e-mail address and password are both exactly the ones given, and
/// `NotFound` where there is none. Where several match, the first counts.
pub fn find_by_login(users: &Vec<User>, email: &String, password: &String) -> (r: Result<
    i32,
    MappedErrors,
>)
    ensures
        match r {
            Ok(id) => first_login(users@, email@, password@, id as int),
            Err(e) => e == MappedErrors::NotFound && !known_login(users@, email@, password@),
        },
{
    let mut i: usize = 0;
    while i < users.len()
        invariant
            i <= users.len(),
            forall|j: int| 0 <= j < i ==> !(#[trigger] users@[j]).logs_in_with(email@, password@),
        decreases users.len() - i,
    {
        if users[i].email == *email && users[i].password == *password {
            return Ok(users[i].id);
        }
        i += 1;
    }
    Err(MappedErrors::NotFound)
}

/// Whether some stored user has exactly this name and password.
pub open spec fn known_user(users: Seq<User>, name: Seq<char>, password: Seq<char>) -> bool {
    exists|i: int|
        0 <= i < users.len() && (#[trigger] users[i]).username@ == name && users[i].password@
            == password
}

/// Checks a name and a password against the stored users.
pub fn is_user_valid(users: &Vec<User>, user: &String, pass: &String) -> (r: bool)
    ensures
        r == known_user(users@, user@, pass@),
{
    let mut i: usize = 0;
    while i < users.len()
        invariant
            i <= users.len(),
            forall|j: int|
                0 <= j < i ==> !((#[trigger] users@[j]).username@ == user@ && users@[j].password@
                    == pass@),
        decreases users.len() - i,
    {
        if users[i].username == *user && users[i].password == *pass {
            return true;
        }
        i += 1;
    }
    false
}

/// The credential check answers with a user's id exactly when that user's
/// e-mail address and password are both the ones given: a mismatch on either
/// field of every user gives `NotFound`, and where each address is stored
/// once the id is that of the one user with the address.
pub proof fn lemma_login_is_exact(users: Seq<User>, email: Seq<char>, password: Seq<char>, k: int)
    requires
        0 <= k < users.len(),
        forall|i: int, j: int|
            0 <= i < users.len() && 0 <= j < users.len() && i != j ==> (#[trigger] users[i]).email@
                != (#[trigger] users[j]).email@,
    ensures
        users[k].logs_in_with(email, password) ==> forall|id: int|
            first_login(users, email, password, id) <==> id == users[k].id,
        users[k].email@ == email && users[k].password@ != password ==> !known_login(
            users,
            email,
            password,
        ),
        (forall|i: int| 0 <= i < users.len() ==> (#[trigger] users[i]).email@ != email)
            ==> !known_login(users, email, password),
{
    if users[k].logs_in_with(email, password) {
        assert forall|id: int| first_login(users, email, password, id) <==> id == users[k].id by {
            if id == users[k].id {
                assert forall|j: int| 0 <= j < k implies !(#[trigger] users[j]).logs_in_with(
                    email,
                    password,
                ) by {
                    assert(users[j].email@ != users[k].email@);
                }
            }
            if first_login(users, email, password, id) {
                let i = choose|i: int|
                    0 <= i < users.len() && (#[trigger] users[i]).logs_in_with(email, password)
                        && users[i].id == id;
                if i != k {
                    assert(users[i].email@ != users[k].email@);
                }
            }
        }
    }
    if users[k].email@ == email && users[k].password@ != password {
        if known_login(users, email, password) {
            let i = choose|i: int|
                0 <= i < users.len() && (#[trigger] users[i]).logs_in_with(email, password);
            if i != k {
                assert(users[i].email@ != users[k].email@);
            }
        }
    }
}

} // verus!
