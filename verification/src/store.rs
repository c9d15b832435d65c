//! Storage of the subscription URL in the platform's credential store
//! (Windows Credential Manager, the Linux kernel keyring). The URL embeds the
//! subscription token, so it never touches disk in plaintext.

use vstd::prelude::*;

verus! {

#[verifier::external_type_specification]
#[verifier::external_body]
pub struct ExKeyringEntry(keyring::Entry);

#[verifier::external_type_specification]
#[verifier::external_body]
pub struct ExKeyringError(keyring::Error);

/// Service name under which the URL is stored.
pub const SERVICE: &'static str = "chatte-vpn";

/// Key (user name) under which the URL is stored.
pub const KEY: &'static str = "subscription-url";

/// A failure of the credential store, as the library sees it.
pub struct StoreFailure {
    /// The store holds no credential for the entry.
    pub no_entry: bool,
    /// The store's own description of the failure.
    pub message: String,
}

/// Calls `keyring::Entry::new`: an entry of the platform's default store for
/// `service` and `user`. Whether the store can make one is up to the
/// platform, so nothing is promised of the outcome.
#[verifier::external_body]
fn keyring_entry(service: &str, user: &str) -> Result<keyring::Entry, keyring::Error> {
    keyring::Entry::new(service, user)
}

/// Calls `keyring::Entry::set_password`. What the platform store does is up
/// to it, so nothing is promised of the outcome.
#[verifier::external_body]
fn keyring_set(entry: &keyring::Entry, secret: &str) -> Result<(), keyring::Error> {
    entry.set_password(secret)
}

/// Calls `keyring::Entry::get_password`. What the store holds is up to the
/// platform, so nothing is promised of the outcome.
#[verifier::external_body]
fn keyring_get(entry: &keyring::Entry) -> Result<String, keyring::Error> {
    entry.get_password()
}

/// Calls `keyring::Entry::delete_credential`. What the store does is up to
/// the platform, so nothing is promised of the outcome.
#[verifier::external_body]
fn keyring_delete(entry: &keyring::Entry) -> Result<(), keyring::Error> {
    entry.delete_credential()
}

/// Converts a `keyring::Error`: whether it is the variant `NoEntry`, and its
/// `Display` text. Nothing is promised of either, as the error is opaque here.
#[verifier::external_body]
fn describe_keyring_error(e: keyring::Error) -> StoreFailure {
    StoreFailure { no_entry: matches!(e, keyring::Error::NoEntry), message: e.to_string() }
}

/// `f` describes `err` as [`describe_keyring_error`] may.
pub closed spec fn described(err: keyring::Error, f: StoreFailure) -> bool {
    call_ensures(describe_keyring_error, (err,), f)
}

/// `e` is an entry the store may open for the subscription URL: service
/// [`SERVICE`], user [`KEY`].
pub closed spec fn opened(e: keyring::Entry) -> bool {
    call_ensures(keyring_entry, (SERVICE, KEY), Ok::<keyring::Entry, keyring::Error>(e))
}

/// The store may refuse to open the entry for service [`SERVICE`], user
/// [`KEY`], with an error that `f` describes.
pub closed spec fn refused(f: StoreFailure) -> bool {
    exists|err: keyring::Error|
        #[trigger] call_ensures(keyring_entry, (SERVICE, KEY), Err::<keyring::Entry, keyring::Error>(err))
            && described(err, f)
}

/// `res` is what writing `secret` to entry `e` may come to.
pub closed spec fn wrote(e: &keyring::Entry, secret: &str, res: Result<(), StoreFailure>) -> bool {
    match res {
        Ok(()) => call_ensures(keyring_set, (e, secret), Ok::<(), keyring::Error>(())),
        Err(f) => exists|err: keyring::Error|
            #[trigger] call_ensures(keyring_set, (e, secret), Err::<(), keyring::Error>(err)) && described(err, f),
    }
}

/// `res` is what reading entry `e` may come to.
pub closed spec fn read(e: &keyring::Entry, res: Result<String, StoreFailure>) -> bool {
    match res {
        Ok(u) => call_ensures(keyring_get, (e,), Ok::<String, keyring::Error>(u)),
        Err(f) => exists|err: keyring::Error|
            #[trigger] call_ensures(keyring_get, (e,), Err::<String, keyring::Error>(err)) && described(err, f),
    }
}

/// `res` is what deleting entry `e` may come to.
pub closed spec fn deleted(e: &keyring::Entry, res: Result<(), StoreFailure>) -> bool {
    match res {
        Ok(()) => call_ensures(keyring_delete, (e,), Ok::<(), keyring::Error>(())),
        Err(f) => exists|err: keyring::Error|
            #[trigger] call_ensures(keyring_delete, (e,), Err::<(), keyring::Error>(err)) && described(err, f),
    }
}

fn describe(err: keyring::Error) -> (f: StoreFailure)
    ensures
        described(err, f),
{
    let d = describe_keyring_error;
    d(err)
}

fn entry() -> (r: Result<keyring::Entry, StoreFailure>)
    ensures
        match r {
            Ok(e) => opened(e),
            Err(f) => refused(f),
        },
{
    let open = keyring_entry;
    match open(SERVICE, KEY) {
        Ok(e) => Ok(e),
        Err(err) => {
            let f = describe(err);
            assert(described(err, f));
            Err(f)
        },
    }
}

fn lift<T>(r: Result<T, keyring::Error>) -> (out: Result<T, StoreFailure>)
    ensures
        r is Ok <==> out is Ok,
        r matches Ok(v) ==> out == Ok::<T, StoreFailure>(v),
        r matches Err(err) ==> (out matches Err(f) && described(err, f)),
{
    match r {
        Ok(v) => Ok(v),
        Err(e) => Err(describe(e)),
    }
}

fn write_entry(e: &keyring::Entry, secret: &str) -> (r: Result<(), StoreFailure>)
    ensures
        wrote(e, secret, r),
{
    let f = keyring_set;
    let res = f(e, secret);
    let ghost g = res;
    let out = lift(res);
    proof {
        if g is Err {
            let err = g->Err_0;
            assert(call_ensures(keyring_set, (e, secret), Err::<(), keyring::Error>(err)));
        } else {
            assert(g == Ok::<(), keyring::Error>(g->Ok_0));
        }
    }
    out
}

fn read_entry(e: &keyring::Entry) -> (r: Result<String, StoreFailure>)
    ensures
        read(e, r),
{
    let f = keyring_get;
    let res = f(e);
    let ghost g = res;
    let out = lift(res);
    proof {
        if g is Err {
            let err = g->Err_0;
            assert(call_ensures(keyring_get, (e,), Err::<String, keyring::Error>(err)));
        } else {
            assert(g == Ok::<String, keyring::Error>(g->Ok_0));
        }
    }
    out
}

fn delete_entry(e: &keyring::Entry) -> (r: Result<(), StoreFailure>)
    ensures
        deleted(e, r),
{
    let f = keyring_delete;
    let res = f(e);
    let ghost g = res;
    let out = lift(res);
    proof {
        if g is Err {
            let err = g->Err_0;
            assert(call_ensures(keyring_delete, (e,), Err::<(), keyring::Error>(err)));
        } else {
            assert(g == Ok::<(), keyring::Error>(g->Ok_0));
        }
    }
    out
}

/// What a write comes to for the caller (the contract of [`write_outcome`]).
pub open spec fn write_result(r: Result<(), StoreFailure>) -> Result<(), String> {
    match r {
        Ok(()) => Ok(()),
        Err(f) => Err(f.message),
    }
}

/// What a read comes to for the caller (the contract of [`read_outcome`]).
pub open spec fn read_result(r: Result<String, StoreFailure>) -> Option<String> {
    match r {
        Ok(u) => Some(u),
        Err(_) => None,
    }
}

/// What a delete comes to for the caller (the contract of
/// [`delete_outcome`]).
pub open spec fn delete_result(r: Result<(), StoreFailure>) -> Result<(), String> {
    match r {
        Ok(()) => Ok(()),
        Err(f) => if f.no_entry {
            Ok(())
        } else {
            Err(f.message)
        },
    }
}

/// What a write to the store comes to for the caller: nothing on success,
/// else the store's description of the failure.
pub fn write_outcome(r: Result<(), StoreFailure>) -> (out: Result<(), String>)
    ensures
        match (r, out) {
            (Ok(()), Ok(())) => true,
            (Err(f), Err(m)) => m == f.message,
            _ => false,
        },
        out == write_result(r),
{
    match r {
        Ok(()) => Ok(()),
        Err(f) => Err(f.message),
    }
}

/// What a delete from the store comes to for the caller: a missing
/// credential counts as deleted; any other failure is reported.
pub fn delete_outcome(r: Result<(), StoreFailure>) -> (out: Result<(), String>)
    ensures
        match r {
            Ok(()) => out is Ok,
            Err(f) => if f.no_entry { out is Ok } else { out == Err::<(), String>(f.message) },
        },
        out == delete_result(r),
{
    match r {
        Ok(()) => Ok(()),
        Err(f) => if f.no_entry {
            Ok(())
        } else {
            Err(f.message)
        },
    }
}

/// What a read from the store comes to for the caller: the stored URL, or
/// none on any failure.
pub fn read_outcome(r: Result<String, StoreFailure>) -> (out: Option<String>)
    ensures
        match r {
            Ok(u) => out == Some(u),
            Err(_) => out is None,
        },
{
    match r {
        Ok(u) => Some(u),
        Err(_) => None,
    }
}

/// The URL is kept under service `chatte-vpn`, user `subscription-url`;
/// the two differ, so the entry with the two swapped is another entry.
pub proof fn law_store_names()
    ensures
        SERVICE@ == "chatte-vpn"@,
        KEY@ == "subscription-url"@,
        SERVICE@ != KEY@,
{
    reveal_strlit("chatte-vpn");
    reveal_strlit("subscription-url");
    assert(SERVICE@.len() != KEY@.len());
}

/// Forgetting the URL succeeds when the store deleted it or held none; any
/// other failure is reported with the store's own words.
pub proof fn law_forget_outcome(r: Result<(), StoreFailure>)
    ensures
        r is Ok ==> delete_result(r) is Ok,
        r matches Err(f) ==> (f.no_entry <==> delete_result(r) is Ok),
        r matches Err(f) ==> (!f.no_entry ==> delete_result(r) == Err::<(), String>(f.message)),
{
}

/// Storing the URL reports success exactly when the store took it, and a
/// failure with the store's own words; reading gives the stored URL, or none
/// on any failure.
pub proof fn law_write_and_read_outcomes(w: Result<(), StoreFailure>, r: Result<String, StoreFailure>)
    ensures
        write_result(w) is Ok <==> w is Ok,
        w matches Err(f) ==> write_result(w) == Err::<(), String>(f.message),
        r matches Ok(u) ==> read_result(r) == Some(u),
        r is Err ==> read_result(r) is None,
{
}

/// Store the subscription URL under service [`SERVICE`], user [`KEY`]:
/// `url` itself is what is handed to the store. Whether the store takes it
/// is up to the platform; its answer, or its refusal to open the entry, is
/// reported as [`write_outcome`] says.
pub fn save_subscription_url(url: &str) -> (r: Result<(), String>)
    ensures
        (exists|f: StoreFailure| #[trigger] refused(f) && r == write_result(Err(f))) || (exists|
            e: keyring::Entry,
            res: Result<(), StoreFailure>,
        | opened(e) && #[trigger] wrote(&e, url, res) && r == write_result(res)),
{
    match entry() {
        Ok(e) => {
            let res = write_entry(&e, url);
            let r = write_outcome(res);
            assert(opened(e) && wrote(&e, url, res) && r == write_result(res));
            r
        },
        Err(f) => {
            let r = write_outcome(Err(f));
            assert(refused(f) && r == write_result(Err(f)));
            r
        },
    }
}

/// The subscription URL stored under service [`SERVICE`], user [`KEY`], if
/// the store has one; any failure, opening the entry included, reads as none
/// ([`read_outcome`]).
pub fn load_subscription_url() -> (r: Option<String>)
    ensures
        (exists|f: StoreFailure| #[trigger] refused(f) && r is None) || (exists|
            e: keyring::Entry,
            res: Result<String, StoreFailure>,
        | opened(e) && #[trigger] read(&e, res) && r == read_result(res)),
{
    match entry() {
        Ok(e) => {
            let res = read_entry(&e);
            let r = read_outcome(res);
            assert(opened(e) && read(&e, res) && r == read_result(res));
            r
        },
        Err(f) => {
            let r = read_outcome(Err(f));
            assert(refused(f) && r is None);
            r
        },
    }
}

/// Remove the subscription URL stored under service [`SERVICE`], user
/// [`KEY`]; a missing one counts as removed ([`delete_outcome`]). A refusal
/// to open the entry is reported as it is.
pub fn clear_subscription_url() -> (r: Result<(), String>)
    ensures
        (exists|f: StoreFailure| #[trigger] refused(f) && r == write_result(Err(f))) || (exists|
            e: keyring::Entry,
            res: Result<(), StoreFailure>,
        | opened(e) && #[trigger] deleted(&e, res) && r == delete_result(res)),
{
    match entry() {
        Ok(e) => {
            let res = delete_entry(&e);
            let r = delete_outcome(res);
            assert(opened(e) && deleted(&e, res) && r == delete_result(res));
            r
        },
        Err(f) => {
            let r = write_outcome(Err(f));
            assert(refused(f) && r == write_result(Err(f)));
            r
        },
    }
}

} // verus!
