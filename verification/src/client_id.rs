use vstd::prelude::*;
use vstd::string::StringExecFns;

verus! {

/// The prefix of the controller's MQTT client identifier.
pub open spec fn client_id_prefix() -> Seq<char> {
    "ms-air-filter-control-"@
}

/// The number of random characters after the prefix.
pub const CLIENT_ID_RANDOM_CHARS: usize = 5;

/// An ASCII letter or digit.
pub open spec fn is_ascii_alphanumeric(c: char) -> bool {
    ('0' <= c && c <= '9') || ('A' <= c && c <= 'Z') || ('a' <= c && c <= 'z')
}

/// A random character drawn by `rand::distributions::Alphanumeric` from the
/// thread's random generator (`rand::thread_rng`): an ASCII letter or digit.
/// Which one depends on chance.
#[verifier::external_body]
fn random_alphanumeric() -> (c: char)
    ensures
        is_ascii_alphanumeric(c),
{
    char::from(rand::Rng::sample(&mut rand::thread_rng(), rand::distributions::Alphanumeric))
}

/// `String::push`: appends one character.
#[verifier::external_body]
fn push_char(s: &mut String, c: char)
    ensures
        final(s)@ == old(s)@.push(c),
{
    s.push(c)
}

/// The client identifier with the random part `suffix`: the prefix followed
/// by the characters of `suffix`.
pub fn client_id_from(suffix: &Vec<char>) -> (id: String)
    ensures
        id@ == client_id_prefix() + suffix@,
{
    let mut id = String::from_str("ms-air-filter-control-");
    let mut n: usize = 0;
    while n < suffix.len()
        invariant
            n <= suffix@.len(),
            id@ == client_id_prefix() + suffix@.take(n as int),
        decreases suffix@.len() - n,
    {
        push_char(&mut id, suffix[n]);
        assert(suffix@.take(n + 1) =~= suffix@.take(n as int).push(suffix@[n as int]));
        n = n + 1;
    }
    assert(suffix@.take(n as int) =~= suffix@);
    id
}

/// A fresh client identifier: the prefix followed by five random ASCII
/// letters or digits, drawn one after another.
pub fn generate_client_id() -> (id: String)
    ensures
        id@.len() == client_id_prefix().len() + CLIENT_ID_RANDOM_CHARS,
        id@.subrange(0, client_id_prefix().len() as int) == client_id_prefix(),
        forall|i: int|
            client_id_prefix().len() <= i < id@.len() ==> is_ascii_alphanumeric(#[trigger] id@[i]),
{
    let mut suffix: Vec<char> = Vec::new();
    while suffix.len() < CLIENT_ID_RANDOM_CHARS
        invariant
            suffix@.len() <= CLIENT_ID_RANDOM_CHARS,
            forall|i: int| 0 <= i < suffix@.len() ==> is_ascii_alphanumeric(#[trigger] suffix@[i]),
        decreases CLIENT_ID_RANDOM_CHARS - suffix@.len(),
    {
        suffix.push(random_alphanumeric());
    }
    let id = client_id_from(&suffix);
    assert(id@.subrange(0, client_id_prefix().len() as int) =~= client_id_prefix());
    assert forall|i: int| client_id_prefix().len() <= i < id@.len() implies is_ascii_alphanumeric(
        #[trigger] id@[i],
    ) by {
        assert(id@[i] == suffix@[i - client_id_prefix().len()]);
    }
    id
}

} // verus!
