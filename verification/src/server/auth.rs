//! Accounts: the user store, signing up, and logging in with a password.
//!
//! Passwords are stored as Argon2 hashes in PHC string form. Hashing and
//! verifying are done by the `argon2` crate; what is decided from their
//! results is decided here.

use vstd::prelude::*;
use vstd::string::StringSliceAdditionalSpecFns;
use vstd::utf8::encode_utf8;

verus! {

/// A registered user.
#[derive(Debug, Clone)]
pub struct User {
    pub id: String,
    pub username: String,
    /// The Argon2 hash of the password, as a PHC string.
    pub password_hash: String,
}

/// What a user presents to log in or sign up.
#[derive(Debug)]
pub struct Credentials {
    pub username: String,
    pub password: String,
}

/// What the rest of an application learns about a logged-in user.
#[derive(Debug, Clone, PartialEq, Eq)]
pub struct UserInfo {
    pub id: String,
    pub name: String,
    pub email: String,
}

/// [`User`] as a mathematical value.
pub struct UserView {
    pub id: Seq<char>,
    pub username: Seq<char>,
    pub password_hash: Seq<char>,
}

/// [`UserInfo`] as a mathematical value.
pub struct UserInfoView {
    pub id: Seq<char>,
    pub name: Seq<char>,
    pub email: Seq<char>,
}

impl View for User {
    type V = UserView;

    open spec fn view(&self) -> UserView {
        UserView { id: self.id@, username: self.username@, password_hash: self.password_hash@ }
    }
}

impl View for UserInfo {
    type V = UserInfoView;

    open spec fn view(&self) -> UserInfoView {
        UserInfoView { id: self.id@, name: self.name@, email: self.email@ }
    }
}

/// Why a login was refused.
#[derive(Debug, Clone, Copy, PartialEq, Eq, Structural)]
pub enum AuthError {
    /// No user has this name.
    InvalidUsername,
    /// The stored hash of the user is not a PHC string.
    InvalidHashFormat,
    /// The password is not the user's.
    InvalidPassword,
}

impl AuthError {
    /// The words that go with the error.
    pub fn message(&self) -> (text: &'static str)
        ensures
            text@ == match *self {
                AuthError::InvalidUsername => "Invalid username"@,
                AuthError::InvalidHashFormat => "Server configuration error: Invalid password hash format"@,
                AuthError::InvalidPassword => "Invalid password"@,
            },
    {
        match self {
            AuthError::InvalidUsername => "Invalid username",
            AuthError::InvalidHashFormat => "Server configuration error: Invalid password hash format",
            AuthError::InvalidPassword => "Invalid password",
        }
    }
}

/// Why a signup was refused.
#[derive(Debug, Clone, Copy, PartialEq, Eq, Structural)]
pub enum SignupError {
    /// A user of this name exists already.
    UsernameTaken,
    /// The password could not be hashed.
    Hashing,
}

/// What comparing a password with a stored hash came to.
#[derive(Debug, Clone, Copy, PartialEq, Eq, Structural)]
pub enum PasswordCheck {
    /// The stored hash is not a PHC string.
    Malformed,
    /// The password does not match the hash.
    Rejected,
    /// The password matches the hash.
    Verified,
}

/// Whether `argon2::PasswordHash::new` accepts `hash` as a PHC string.
pub uninterp spec fn phc_parses(hash: Seq<char>) -> bool;

/// Whether Argon2, with the parameters and the salt that the PHC string
/// `hash` names, hashes `password` to the output that `hash` holds.
pub uninterp spec fn argon2_verifies(password: Seq<u8>, hash: Seq<char>) -> bool;

/// A text that may be missing, as a mathematical value.
pub open spec fn text_of(text: Option<String>) -> Option<Seq<char>> {
    match text {
        Some(text) => Some(text@),
        None => None,
    }
}

/// The PHC string that Argon2 with its default parameters makes of `password`
/// and the B64 salt `salt`; `None` where it makes none.
pub uninterp spec fn argon2_hash(password: Seq<u8>, salt: Seq<char>) -> Option<Seq<char>>;

/// `argon2::PasswordHash::new`: tells whether `hash` parses as a PHC string.
#[verifier::external_body]
fn hash_parses(hash: &str) -> (parses: bool)
    ensures
        parses == phc_parses(hash@),
{
    argon2::PasswordHash::new(hash).is_ok()
}

/// `argon2::PasswordVerifier::verify_password` on `Argon2::default()`, with
/// the hash read by `PasswordHash::new`: tells whether `password` matches
/// `hash`. The work it takes is what the parameters in `hash` ask for.
#[verifier::external_body]
fn password_verifies(password: &[u8], hash: &str) -> (verifies: bool)
    requires
        phc_parses(hash@),
    ensures
        verifies == argon2_verifies(password@, hash@),
{
    match argon2::PasswordHash::new(hash) {
        Ok(parsed) => argon2::PasswordVerifier::verify_password(
            &argon2::Argon2::default(),
            password,
            &parsed,
        ).is_ok(),
        Err(_) => false,
    }
}

/// `argon2::PasswordHasher::hash_password` on `Argon2::default()`, with the
/// salt read by `SaltString::from_b64`: hashes `password` with `salt` and
/// gives the PHC string, which these two alone decide. A hash that it gives
/// parses, and verifies the password it was made from.
#[verifier::external_body]
fn hash_with_salt(password: &[u8], salt: &str) -> (hash: Option<String>)
    ensures
        text_of(hash) == argon2_hash(password@, salt@),
        hash matches Some(h) ==> phc_parses(h@) && argon2_verifies(password@, h@),
{
    let salt = match argon2::password_hash::SaltString::from_b64(salt) {
        Ok(salt) => salt,
        Err(_) => return None,
    };
    match argon2::PasswordHasher::hash_password(&argon2::Argon2::default(), password, &salt) {
        Ok(hash) => Some(hash.to_string()),
        Err(_) => None,
    }
}

/// `argon2::password_hash::SaltString::generate` with the operating system's
/// random number generator: a fresh salt, B64 encoded.
#[verifier::external_body]
fn random_salt() -> (salt: String) {
    argon2::password_hash::SaltString::generate(&mut argon2::password_hash::rand_core::OsRng)
        .as_str().to_owned()
}

/// `uuid::Uuid::new_v4`: a fresh random identifier, in its hyphenated form.
#[verifier::external_body]
fn random_user_id() -> (id: String) {
    uuid::Uuid::new_v4().to_string()
}

/// What comparing `password` with `hash` comes to.
pub open spec fn check_spec(password: Seq<u8>, hash: Seq<char>) -> PasswordCheck {
    if !phc_parses(hash) {
        PasswordCheck::Malformed
    } else if argon2_verifies(password, hash) {
        PasswordCheck::Verified
    } else {
        PasswordCheck::Rejected
    }
}

/// Compares a password with a stored hash.
pub fn check_password(password: &str, hash: &str) -> (check: PasswordCheck)
    ensures
        check == check_spec(password.spec_bytes(), hash@),
{
    if !hash_parses(hash) {
        PasswordCheck::Malformed
    } else if password_verifies(password.as_bytes(), hash) {
        PasswordCheck::Verified
    } else {
        PasswordCheck::Rejected
    }
}

/// Whether `hash` is what Argon2 makes of `password` and some salt.
pub open spec fn hashes_to(password: Seq<u8>, hash: Option<Seq<char>>) -> bool {
    exists|salt: Seq<char>| #[trigger] argon2_hash(password, salt) == hash
}

/// Hashes a password for storing, with a fresh salt: the result is what
/// Argon2 makes of the password's bytes and the salt that was drawn. A hash,
/// whatever that salt, is one against which the password verifies.
pub fn hash_password(password: &str) -> (hash: Option<String>)
    ensures
        hashes_to(password.spec_bytes(), text_of(hash)),
        hash matches Some(h) ==> check_spec(password.spec_bytes(), h@) == PasswordCheck::Verified,
{
    let salt = random_salt();
    let hash = hash_with_salt(password.as_bytes(), salt.as_str());
    assert(argon2_hash(password.spec_bytes(), salt@) == text_of(hash));
    hash
}

/// What a login comes to, given the user found under the name, if any, and
/// the result of comparing the password with that user's hash. A user who is
/// let in is known to the application by the id and, as name and as email,
/// by the user name.
pub open spec fn login_outcome_spec(user: Option<UserView>, check: PasswordCheck) -> Result<
    UserInfoView,
    AuthError,
> {
    match user {
        None => Err(AuthError::InvalidUsername),
        Some(user) => match check {
            PasswordCheck::Malformed => Err(AuthError::InvalidHashFormat),
            PasswordCheck::Rejected => Err(AuthError::InvalidPassword),
            PasswordCheck::Verified => Ok(
                UserInfoView { id: user.id, name: user.username, email: user.username },
            ),
        },
    }
}

/// Decides a login from what was found: the user stored under the name, and
/// what the comparison of the password with the stored hash came to.
pub fn login_outcome(user: Option<&User>, check: PasswordCheck) -> (outcome: Result<
    UserInfo,
    AuthError,
>)
    ensures
        outcome is Ok <==> user is Some && check == PasswordCheck::Verified,
        outcome matches Ok(info) ==> Ok::<UserInfoView, AuthError>(info@) == login_outcome_spec(
            match user {
                Some(u) => Some(u@),
                None => None,
            },
            check,
        ),
        outcome matches Err(e) ==> Err::<UserInfoView, AuthError>(e) == login_outcome_spec(
            match user {
                Some(u) => Some(u@),
                None => None,
            },
            check,
        ),
{
    match user {
        None => Err(AuthError::InvalidUsername),
        Some(user) => match check {
            PasswordCheck::Malformed => Err(AuthError::InvalidHashFormat),
            PasswordCheck::Rejected => Err(AuthError::InvalidPassword),
            PasswordCheck::Verified => Ok(
                UserInfo {
                    id: user.id.clone(),
                    name: user.username.clone(),
                    email: user.username.clone(),
                },
            ),
        },
    }
}

/// Whether some user in `users` has this name.
spec fn has_name(users: Seq<User>, name: Seq<char>) -> bool {
    exists|i: int| 0 <= i < users.len() && #[trigger] users[i].username@ == name
}

/// A place in `users` where a user of this name stands.
spec fn place_of(users: Seq<User>, name: Seq<char>) -> int {
    choose|i: int| 0 <= i < users.len() && #[trigger] users[i].username@ == name
}

/// No name occurs twice in `users`.
spec fn distinct_names(users: Seq<User>) -> bool {
    forall|i: int, j: int|
        0 <= i < j < users.len() ==> #[trigger] users[i].username@ != #[trigger] users[j].username@
}

/// The users of a list, by name.
spec fn by_name(users: Seq<User>) -> Map<Seq<char>, UserView> {
    Map::new(|name: Seq<char>| has_name(users, name), |name: Seq<char>| users[place_of(users, name)]@)
}

/// In a list of distinct names, the user of a name is the one that stands
/// where the name stands.
proof fn lemma_place(users: Seq<User>, i: int)
    requires
        distinct_names(users),
        0 <= i < users.len(),
    ensures
        has_name(users, users[i].username@),
        place_of(users, users[i].username@) == i,
        by_name(users).contains_key(users[i].username@),
        by_name(users)[users[i].username@] == users[i]@,
{
    let name = users[i].username@;
    let j = place_of(users, name);
    assert(0 <= j < users.len() && users[j].username@ == name);
    if j < i {
        assert(users[j].username@ != users[i].username@);
    } else if i < j {
        assert(users[i].username@ != users[j].username@);
    }
}

/// The place of the user named `username`, if there is one.
fn find(users: &Vec<User>, username: &String) -> (place: Option<usize>)
    ensures
        place matches Some(i) ==> i < users.len() && users[i as int].username@ == username@,
        place is None ==> !has_name(users@, username@),
{
    let mut i: usize = 0;
    while i < users.len()
        invariant
            i <= users.len(),
            forall|k: int| 0 <= k < i ==> #[trigger] users[k].username@ != username@,
        decreases users.len() - i,
    {
        if users[i].username == *username {
            return Some(i);
        }
        i += 1;
    }
    None
}

/// Puts `user` into the list under its name, in place of the user who had the
/// name before, if any.
fn put(users: &mut Vec<User>, user: User) -> (previous: Option<User>)
    requires
        distinct_names(old(users)@),
    ensures
        distinct_names(final(users)@),
        by_name(final(users)@) == by_name(old(users)@).insert(user.username@, user@),
        previous is Some <==> by_name(old(users)@).contains_key(user.username@),
        previous matches Some(p) ==> p@ == by_name(old(users)@)[user.username@],
{
    let ghost before = users@;
    let ghost name = user.username@;
    let ghost value = user@;
    let place = find(users, &user.username);
    users.push(user);
    let ghost pushed = users@;
    let ghost n = before.len() as int;
    let previous = match place {
        Some(i) => {
            proof {
                lemma_place(before, i as int);
            }
            Some(users.swap_remove(i))
        },
        None => None,
    };
    proof {
        let after = users@;
        let at: int = match place {
            Some(i) => i as int,
            None => n,
        };
        assert(after.len() > at && after[at].username@ == name && after[at]@ == value);
        assert forall|j: int| 0 <= j < after.len() && j != at implies j < n && after[j]
            == before[j] by {}
        assert(distinct_names(after)) by {
            assert forall|a: int, b: int| 0 <= a < b < after.len() implies after[a].username@
                != after[b].username@ by {
                if a == at {
                    assert(before[b].username@ == after[b].username@);
                    if place is Some {
                        assert(before[at].username@ == name);
                    }
                } else if b == at {
                    assert(before[a].username@ == after[a].username@);
                    if place is Some {
                        assert(before[at].username@ == name);
                    }
                }
            }
        }
        assert forall|k: Seq<char>| has_name(after, k) <==> (has_name(before, k) || k
            == name) by {
            if has_name(after, k) {
                let j = place_of(after, k);
                if j != at {
                    assert(before[j].username@ == k);
                }
            }
            if has_name(before, k) && k != name {
                let j = place_of(before, k);
                assert(j != at) by {
                    if place is Some {
                        assert(before[at].username@ == name);
                    }
                }
                assert(after[j].username@ == k);
            }
        }
        assert forall|k: Seq<char>| has_name(after, k) implies by_name(after)[k] == by_name(
            before,
        ).insert(name, value)[k] by {
            let j = place_of(after, k);
            lemma_place(after, j);
            if j != at {
                lemma_place(before, j);
            }
        }
        assert(by_name(after) =~= by_name(before).insert(name, value));
    }
    previous
}

/// The users, by name. No two users have the same name.
#[derive(Debug)]
pub struct UserStore {
    users: Vec<User>,
}

impl View for UserStore {
    type V = Map<Seq<char>, UserView>;

    closed spec fn view(&self) -> Map<Seq<char>, UserView> {
        by_name(self.users@)
    }
}

impl UserStore {
    #[verifier::type_invariant]
    spec fn inv(&self) -> bool {
        distinct_names(self.users@)
    }

    /// A store without users.
    pub fn new() -> (store: UserStore)
        ensures
            store@ == Map::<Seq<char>, UserView>::empty(),
    {
        let store = UserStore { users: Vec::new() };
        assert(store@ =~= Map::<Seq<char>, UserView>::empty());
        store
    }

    /// Whether a user of this name exists.
    pub fn contains_key(&self, username: &str) -> (found: bool)
        ensures
            found == self@.contains_key(username@),
    {
        let name = username.to_owned();
        match find(&self.users, &name) {
            Some(i) => {
                proof {
                    use_type_invariant(self);
                    lemma_place(self.users@, i as int);
                }
                true
            },
            None => false,
        }
    }

    /// The user of this name.
    pub fn get(&self, username: &str) -> (user: Option<&User>)
        ensures
            user is Some <==> self@.contains_key(username@),
            user matches Some(u) ==> u@ == self@[username@],
    {
        let name = username.to_owned();
        match find(&self.users, &name) {
            Some(i) => {
                proof {
                    use_type_invariant(self);
                    lemma_place(self.users@, i as int);
                }
                Some(&self.users[i])
            },
            None => None,
        }
    }

    /// Stores `user` under its name. A user who had the name before is
    /// replaced, and returned.
    pub fn insert(&mut self, user: User) -> (previous: Option<User>)
        ensures
            final(self)@ == old(self)@.insert(user.username@, user@),
            previous is Some <==> old(self)@.contains_key(user.username@),
            previous matches Some(p) ==> p@ == old(self)@[user.username@],
    {
        proof {
            use_type_invariant(&*self);
        }
        let mut users: Vec<User> = Vec::new();
        std::mem::swap(&mut self.users, &mut users);
        let previous = put(&mut users, user);
        std::mem::swap(&mut self.users, &mut users);
        previous
    }
}

/// What logging in with `username` and `password` comes to against the users
/// of `store`.
pub open spec fn login_spec(
    store: Map<Seq<char>, UserView>,
    username: Seq<char>,
    password: Seq<u8>,
) -> Result<UserInfoView, AuthError> {
    if store.contains_key(username) {
        login_outcome_spec(
            Some(store[username]),
            check_spec(password, store[username].password_hash),
        )
    } else {
        Err(AuthError::InvalidUsername)
    }
}

/// The user that a signup stores.
pub open spec fn new_user(username: Seq<char>, id: Seq<char>, password_hash: Seq<char>) -> UserView {
    UserView { id, username, password_hash }
}

/// The provider that keeps its users in the store it was given.
#[derive(Debug)]
pub struct DbPrimaryProvider {
    user_store: UserStore,
}

impl View for DbPrimaryProvider {
    type V = Map<Seq<char>, UserView>;

    closed spec fn view(&self) -> Map<Seq<char>, UserView> {
        self.user_store@
    }
}

impl DbPrimaryProvider {
    /// A provider over the users of `user_store`.
    pub fn new(user_store: UserStore) -> (provider: DbPrimaryProvider)
        ensures
            provider@ == user_store@,
    {
        DbPrimaryProvider { user_store }
    }

    /// The users of the provider.
    pub fn user_store(&self) -> (store: &UserStore)
        ensures
            store@ == self@,
    {
        &self.user_store
    }

    /// Logs a user in: finds the user of the name, compares the password
    /// with the stored hash, and says who the user is.
    pub fn login_with_credentials(&self, creds: Credentials) -> (outcome: Result<
        UserInfo,
        AuthError,
    >)
        ensures
            outcome matches Ok(info) ==> Ok::<UserInfoView, AuthError>(info@) == login_spec(
                self@,
                creds.username@,
                encode_utf8(creds.password@),
            ),
            outcome matches Err(e) ==> Err::<UserInfoView, AuthError>(e) == login_spec(
                self@,
                creds.username@,
                encode_utf8(creds.password@),
            ),
    {
        match self.user_store.get(creds.username.as_str()) {
            None => Err(AuthError::InvalidUsername),
            Some(user) => {
                let check = check_password(creds.password.as_str(), user.password_hash.as_str());
                login_outcome(Some(user), check)
            },
        }
    }

    /// Stores a new user under `username`, with the given id and password
    /// hash, unless the name is taken.
    pub fn register(&mut self, username: String, id: String, password_hash: String) -> (outcome:
        Result<(), SignupError>)
        ensures
            old(self)@.contains_key(username@) ==> outcome == Err::<(), SignupError>(
                SignupError::UsernameTaken,
            ) && final(self)@ == old(self)@,
            !old(self)@.contains_key(username@) ==> outcome is Ok && final(self)@ == old(
                self,
            )@.insert(username@, new_user(username@, id@, password_hash@)),
    {
        if self.user_store.contains_key(username.as_str()) {
            return Err(SignupError::UsernameTaken);
        }
        let user = User { id, username, password_hash };
        let _ = self.user_store.insert(user);
        Ok(())
    }

    /// Signs a user up: hashes the password with a fresh salt and stores the
    /// user under a fresh id. The name must be free. Whatever salt and id
    /// are drawn, the user who was stored can log in with the same
    /// credentials.
    pub fn signup(&mut self, creds: Credentials) -> (outcome: Result<(), SignupError>)
        ensures
            outcome == Err::<(), SignupError>(SignupError::UsernameTaken) <==> old(
                self,
            )@.contains_key(creds.username@),
            outcome is Err ==> final(self)@ == old(self)@,
            outcome is Ok ==> {
                &&& final(self)@.contains_key(creds.username@)
                &&& final(self)@ == old(self)@.insert(
                    creds.username@,
                    final(self)@[creds.username@],
                )
                &&& final(self)@[creds.username@].username == creds.username@
                &&& login_spec(final(self)@, creds.username@, encode_utf8(creds.password@)) is Ok
            },
    {
        if self.user_store.contains_key(creds.username.as_str()) {
            return Err(SignupError::UsernameTaken);
        }
        match hash_password(creds.password.as_str()) {
            None => Err(SignupError::Hashing),
            Some(password_hash) => self.register(creds.username, random_user_id(), password_hash),
        }
    }

    /// Where a user is sent after logging out.
    pub fn logout(&self) -> (target: &'static str)
        ensures
            target@ == "/"@,
    {
        "/"
    }
}

/// A user who was stored with a hash of the password logs in with that
/// password, and is known by the id and the name that were stored.
pub proof fn lemma_login_after_signup(
    store: Map<Seq<char>, UserView>,
    username: Seq<char>,
    id: Seq<char>,
    password: Seq<u8>,
    password_hash: Seq<char>,
)
    requires
        phc_parses(password_hash),
        argon2_verifies(password, password_hash),
    ensures
        login_spec(
            store.insert(username, new_user(username, id, password_hash)),
            username,
            password,
        ) == Ok::<UserInfoView, AuthError>(UserInfoView { id, name: username, email: username }),
{
}

/// Nobody logs in under a name that no user has.
pub proof fn lemma_unknown_user_is_refused(
    store: Map<Seq<char>, UserView>,
    username: Seq<char>,
    password: Seq<u8>,
)
    requires
        !store.contains_key(username),
    ensures
        login_spec(store, username, password) == Err::<UserInfoView, AuthError>(
            AuthError::InvalidUsername,
        ),
{
}

} // verus!
