use vstd::prelude::*;
use vstd::string::StringSliceAdditionalSpecFns;

use crate::error::AppError;
use crate::models::{NewUser, UserRecord};

verus! {

/// The error of `password_auth::verify_password`, carried as an opaque value.
#[verifier::external_type_specification]
#[verifier::external_body]
pub struct ExVerifyError(password_auth::VerifyError);

/// Whether `password` verifies against the stored password hash `hash`.
pub uninterp spec fn password_verifies(password: Seq<char>, hash: Seq<char>) -> bool;

/// The longest password, in characters, that can be hashed: a character takes
/// at most four bytes in UTF-8, and Argon2 takes at most 2^32 - 1 bytes.
pub open spec fn max_password_chars() -> nat {
    0x3fff_ffff
}

/// How every hash that `password_auth::generate_hash` makes begins: Argon2id,
/// version 19, with the default cost parameters of the `argon2` crate
/// (19456 KiB of memory, 2 passes, 1 lane); the salt and the hash follow.
pub open spec fn argon2id_hash_prefix() -> Seq<char> {
    "$argon2id$v=19$m=19456,t=2,p=1$"@
}

/// Whether `hash` is an Argon2id PHC string with the default parameters: it
/// begins with `argon2id_hash_prefix()` and has more after it.
pub open spec fn is_argon2id_phc(hash: Seq<char>) -> bool {
    &&& hash.len() > argon2id_hash_prefix().len()
    &&& hash.subrange(0, argon2id_hash_prefix().len() as int) == argon2id_hash_prefix()
}

/// Hashes `password` with `password_auth::generate_hash` (Argon2 with a fresh
/// random salt).
///
/// Claimed: the hash verifies `password` (the crate's own round trip), and it
/// is an Argon2id PHC string with the default parameters, which is what
/// `Argon2::default()` writes through `PasswordHash`'s `Display`; what salt and
/// hash follow the prefix is left open.
/// The call panics when the password is longer than Argon2 accepts
/// (2^32 - 1 bytes), so `requires` leaves out every password that could be
/// that long. It also panics when the operating system gives no random salt;
/// that is not stated.
#[verifier::external_body]
fn generate_hash(password: &str) -> (hash: String)
    requires
        password@.len() <= max_password_chars(),
    ensures
        password_verifies(password@, hash@),
        is_argon2id_phc(hash@),
{
    password_auth::generate_hash(password)
}

/// Checks `password` against `hash` with `password_auth::verify_password`.
///
/// Claimed: the result is `Ok` exactly when the password verifies against the
/// hash; the function is deterministic. A hash whose parameters ask for more
/// memory than the machine has makes the call abort, which is not stated.
#[verifier::external_body]
fn verify_password(password: &str, hash: &str) -> (result: Result<(), password_auth::VerifyError>)
    ensures
        result is Ok <==> password_verifies(password@, hash@),
{
    password_auth::verify_password(password, hash)
}

/// The name of the administrator account.
pub open spec fn admin_username() -> Seq<char> {
    "admin"@
}

/// The password with which the administrator account is created.
pub open spec fn admin_default_password() -> Seq<char> {
    "admin"@
}

/// Whether `username` names the administrator.
pub fn is_admin(username: &str) -> (admin: bool)
    ensures
        admin == (username@ == admin_username()),
        admin == (username@ == "admin"@),
{
    let name = username.to_owned();
    let admin = String::from_str("admin");
    name == admin
}

/// What logging in with `password` answers, given what the lookup of the user
/// name found.
pub open spec fn login_outcome(password: Seq<char>, found: Option<UserRecord>) -> Result<
    UserRecord,
    AppError,
> {
    match found {
        None => Err(AppError::UserDoesNotExist),
        Some(user) => if password_verifies(password, user.password_hash@) {
            Ok(user)
        } else {
            Err(AppError::InvalidCredentials)
        },
    }
}

/// Whether `outcome` is a correct answer to registering `username` with
/// `password`, given what the lookup of the name found: a taken name is
/// refused, and a free one gets a record under that name whose hash is an
/// Argon2id PHC string that verifies the password.
pub open spec fn registration_outcome(
    username: Seq<char>,
    password: Seq<char>,
    existing: Option<UserRecord>,
    outcome: Result<NewUser, AppError>,
) -> bool {
    match existing {
        Some(_) => outcome == Err::<NewUser, AppError>(AppError::UsernameTaken),
        None => match outcome {
            Ok(user) => user.username@ == username && password_verifies(
                password,
                user.password_hash@,
            ) && is_argon2id_phc(user.password_hash@),
            Err(_) => false,
        },
    }
}

/// Credentials that a client presents, to register or to log in.
pub struct UnauthenticatedUser {
    username: String,
    password: String,
}

impl UnauthenticatedUser {
    /// The name presented.
    pub closed spec fn spec_username(&self) -> Seq<char> {
        self.username@
    }

    /// The password presented.
    pub closed spec fn spec_password(&self) -> Seq<char> {
        self.password@
    }

    /// Credentials made of `username` and `password`.
    pub fn new(username: String, password: String) -> (user: UnauthenticatedUser)
        ensures
            user.spec_username() == username@,
            user.spec_password() == password@,
    {
        UnauthenticatedUser { username, password }
    }

    /// The name presented.
    pub fn username(&self) -> (name: &String)
        ensures
            name@ == self.spec_username(),
    {
        &self.username
    }

    /// Registers these credentials, given what the lookup of the name found:
    /// a taken name is refused with `UsernameTaken`; otherwise the password
    /// is hashed and the record to store is returned.
    pub fn register(&self, existing: &Option<UserRecord>) -> (outcome: Result<NewUser, AppError>)
        requires
            self.spec_password().len() <= max_password_chars(),
        ensures
            registration_outcome(self.spec_username(), self.spec_password(), *existing, outcome),
            existing is Some ==> outcome == Err::<NewUser, AppError>(AppError::UsernameTaken),
            existing is None ==> (outcome matches Ok(user) && user.username@ == self.spec_username()
                && password_verifies(self.spec_password(), user.password_hash@) && is_argon2id_phc(
                user.password_hash@,
            )),
    {
        match existing {
            Some(_) => Err(AppError::UsernameTaken),
            None => {
                let password_hash = generate_hash(self.password.as_str());
                Ok(NewUser { username: self.username.clone(), password_hash })
            },
        }
    }

    /// Logs in with these credentials, given what the lookup of the name
    /// found: an unknown name is answered `UserDoesNotExist`, a wrong
    /// password `InvalidCredentials`, and a right one the stored record.
    pub fn authenticate(&self, found: Option<UserRecord>) -> (outcome: Result<UserRecord, AppError>)
        ensures
            outcome == login_outcome(self.spec_password(), found),
            found is None ==> outcome == Err::<UserRecord, AppError>(AppError::UserDoesNotExist),
            found matches Some(user) ==> (!password_verifies(
                self.spec_password(),
                user.password_hash@,
            ) ==> outcome == Err::<UserRecord, AppError>(AppError::InvalidCredentials)),
            found matches Some(user) ==> (password_verifies(
                self.spec_password(),
                user.password_hash@,
            ) ==> outcome == Ok::<UserRecord, AppError>(user)),
    {
        match found {
            None => Err(AppError::UserDoesNotExist),
            Some(user) => {
                let verified = verify_password(self.password.as_str(), user.password_hash.as_str());
                match verified {
                    Ok(()) => Ok(user),
                    Err(_) => Err(AppError::InvalidCredentials),
                }
            },
        }
    }
}

/// The administrator account to create, given what the lookup of the name
/// `admin` found: none when it exists, and otherwise an account named `admin`
/// whose password is `admin`.
pub fn default_admin_account(existing: &Option<UserRecord>) -> (account: Option<NewUser>)
    ensures
        account is None <==> existing is Some,
        account matches Some(user) ==> user.username@ == admin_username() && password_verifies(
            admin_default_password(),
            user.password_hash@,
        ) && is_argon2id_phc(user.password_hash@),
{
    match existing {
        Some(_) => None,
        None => {
            let password = "admin";
            proof {
                reveal_strlit("admin");
            }
            let password_hash = generate_hash(password);
            Some(NewUser { username: String::from_str("admin"), password_hash })
        },
    }
}

/// Logging in answers `UserDoesNotExist` exactly when no record was found;
/// a found record whose hash the password does not verify is answered
/// `InvalidCredentials`, and one whose hash it verifies is answered with that
/// very record.
pub proof fn lemma_login_answers()
    ensures
        forall|password: Seq<char>|
            #[trigger] login_outcome(password, None) == Err::<UserRecord, AppError>(
                AppError::UserDoesNotExist,
            ),
        forall|password: Seq<char>, user: UserRecord|
            !password_verifies(password, user.password_hash@) ==> #[trigger] login_outcome(
                password,
                Some(user),
            ) == Err::<UserRecord, AppError>(AppError::InvalidCredentials),
        forall|password: Seq<char>, user: UserRecord|
            password_verifies(password, user.password_hash@) ==> #[trigger] login_outcome(
                password,
                Some(user),
            ) == Ok::<UserRecord, AppError>(user),
        forall|password: Seq<char>, found: Option<UserRecord>|
            #[trigger] login_outcome(password, found) == Err::<UserRecord, AppError>(
                AppError::UserDoesNotExist,
            ) <==> found is None,
{
}

/// Registering a name that is taken is refused with `UsernameTaken`, whatever
/// the password; a free name is never refused.
pub proof fn lemma_registration_answers()
    ensures
        forall|name: Seq<char>, password: Seq<char>, user: UserRecord, outcome: Result<
            NewUser,
            AppError,
        >|
            #[trigger] registration_outcome(name, password, Some(user), outcome) <==> outcome
                == Err::<NewUser, AppError>(AppError::UsernameTaken),
        forall|name: Seq<char>, password: Seq<char>, outcome: Result<NewUser, AppError>|
            #[trigger] registration_outcome(name, password, None, outcome) ==> outcome is Ok,
{
}

/// A user who has registered can log in with the password they registered
/// with: once the record that registration returned is stored, logging in
/// with that password answers the stored record.
pub proof fn lemma_registered_user_can_log_in(
    username: Seq<char>,
    password: Seq<char>,
    registered: NewUser,
    stored: UserRecord,
)
    requires
        registration_outcome(username, password, None, Ok(registered)),
        stored.username@ == registered.username@,
        stored.password_hash@ == registered.password_hash@,
    ensures
        login_outcome(password, Some(stored)) == Ok::<UserRecord, AppError>(stored),
        stored.username@ == username,
{
}

/// Registration stores a hash, not the password: the stored hash differs from
/// the password whenever the password is not itself an Argon2id PHC string,
/// and in particular whenever it does not begin with `$`.
pub proof fn lemma_registered_hash_is_not_the_password(
    username: Seq<char>,
    password: Seq<char>,
    registered: NewUser,
)
    requires
        registration_outcome(username, password, None, Ok(registered)),
    ensures
        !is_argon2id_phc(password) ==> registered.password_hash@ != password,
        (password.len() == 0 || password[0] != '$') ==> registered.password_hash@ != password,
{
    reveal_strlit("$argon2id$v=19$m=19456,t=2,p=1$");
    if password.len() > 0 && is_argon2id_phc(password) {
        assert(password[0] == password.subrange(0, argon2id_hash_prefix().len() as int)[0]);
    }
}

/// The administrator account that is created when none exists can log in
/// with the name `admin` and the password `admin`.
pub proof fn lemma_default_admin_can_log_in(created: NewUser, stored: UserRecord)
    requires
        created.username@ == admin_username(),
        password_verifies(admin_default_password(), created.password_hash@),
        stored.username@ == created.username@,
        stored.password_hash@ == created.password_hash@,
    ensures
        login_outcome(admin_default_password(), Some(stored)) == Ok::<UserRecord, AppError>(stored),
        stored.username@ == admin_username(),
        is_argon2id_phc(created.password_hash@) ==> stored.password_hash@
            != admin_default_password(),
{
    reveal_strlit("admin");
    reveal_strlit("$argon2id$v=19$m=19456,t=2,p=1$");
}

} // verus!
