//! The identity of a store: the configured name behind a random salt, so
//! that runs against one backend at the same time do not meet in one store.

use vstd::prelude::*;
use vstd::string::StringExecFns;
use rand::Rng;
use rand::rngs::ThreadRng;
use rand_distr::Alphanumeric;

verus! {

/// The number of characters of a salt.
pub const SALT_LEN: usize = 7;

/// Whether `c` is an ASCII letter or digit.
pub open spec fn is_alphanumeric(c: char) -> bool {
    ||| '0' <= c <= '9'
    ||| 'A' <= c <= 'Z'
    ||| 'a' <= c <= 'z'
}

/// Whether `salt` is a salt: seven ASCII letters or digits.
pub open spec fn is_salt(salt: Seq<char>) -> bool {
    &&& salt.len() == SALT_LEN
    &&& forall|i: int| 0 <= i < salt.len() ==> is_alphanumeric(#[trigger] salt[i])
}

/// The name of a store behind a salt: the salt, a hyphen, the name.
pub open spec fn salted(salt: Seq<char>, store_name: Seq<char>) -> Seq<char> {
    salt + seq!['-'] + store_name
}

/// Whether `identity` is `store_name` behind some salt.
pub open spec fn is_store_identity(identity: Seq<char>, store_name: Seq<char>) -> bool {
    exists|salt: Seq<char>| is_salt(salt) && identity == #[trigger] salted(salt, store_name)
}

/// rand's generator of the current thread, carried from `thread_rng` to the
/// draws that are made from it. Nothing is known of what it holds.
#[verifier::external_type_specification]
#[verifier::external_body]
pub struct ExThreadRng(ThreadRng);

/// `rand::thread_rng` hands out the generator of the current thread. Nothing
/// is claimed of it. It takes no argument; on a thread's first call it seeds
/// the generator from the operating system and panics where that fails.
pub assume_specification[ rand::thread_rng ]() -> (rng: ThreadRng);

/// `String::push` appends one character at the end of the string.
pub assume_specification[ String::push ](s: &mut String, c: char)
    ensures
        final(s)@ == old(s)@.push(c),
;

/// One draw from rand's `Alphanumeric` distribution, made with `Rng::sample`.
/// The distribution picks a byte out of `A-Z`, `a-z` and `0-9`: that the
/// byte is one of these is all that is claimed, not which one it is.
#[verifier::external_body]
fn sample_alphanumeric(rng: &mut ThreadRng) -> (byte: u8)
    ensures
        is_alphanumeric(byte as char),
{
    rng.sample(Alphanumeric)
}

/// Draws a fresh salt.
pub fn random_salt() -> (salt: String)
    ensures
        is_salt(salt@),
{
    let mut rng = rand::thread_rng();
    let mut salt = String::new();
    let mut drawn: usize = 0;
    while drawn < SALT_LEN
        invariant
            drawn <= SALT_LEN,
            salt@.len() == drawn,
            forall|i: int| 0 <= i < salt@.len() ==> is_alphanumeric(#[trigger] salt@[i]),
        decreases SALT_LEN - drawn,
    {
        let byte = sample_alphanumeric(&mut rng);
        salt.push(byte as char);
        drawn = drawn + 1;
    }
    salt
}

/// The identity of the store `store_name` behind `salt`.
pub fn store_identity(salt: &str, store_name: &str) -> (identity: String)
    ensures
        identity@ == salted(salt@, store_name@),
{
    proof {
        reveal_strlit("-");
    }
    let mut identity = String::from_str(salt);
    identity.append("-");
    identity.append(store_name);
    assert("-"@ =~= seq!['-']);
    identity
}

/// The identity of the store `store_name` behind a fresh salt: the name
/// behind seven letters or digits and a hyphen. Every call draws a salt of
/// its own.
pub fn unique_store_name(store_name: &str) -> (identity: String)
    ensures
        is_store_identity(identity@, store_name@),
{
    let salt = random_salt();
    store_identity(salt.as_str(), store_name)
}

} // verus!
