//! Short identifiers for tasks: six symbols out of sixty-two, taken from a hash
//! of the time at which the identifier is made.

use vstd::prelude::*;
use vstd::string::*;
use std::collections::hash_map::DefaultHasher;
use std::hash::Hash;
use std::hash::Hasher;
use std::time::Duration;
use std::time::SystemTime;
use std::time::SystemTimeError;

verus! {

#[verifier::external_type_specification]
#[verifier::external_body]
pub struct ExSystemTime(SystemTime);

#[verifier::external_type_specification]
#[verifier::external_body]
pub struct ExSystemTimeError(SystemTimeError);

/// Reads the system clock with `SystemTime::now`.
#[verifier::external_body]
pub(crate) fn system_now() -> SystemTime {
    SystemTime::now()
}

/// The time from the start of 1970 to `at`, by `SystemTime::duration_since`; an
/// error where `at` lies before it.
#[verifier::external_body]
pub(crate) fn since_epoch(at: &SystemTime) -> Result<Duration, SystemTimeError> {
    at.duration_since(std::time::UNIX_EPOCH)
}

/// The whole span in nanoseconds, by `Duration::as_nanos`.
#[verifier::external_body]
fn nanos_of(span: &Duration) -> u128 {
    span.as_nanos()
}

/// Feeds a number to a hasher with `Hash::hash`.
#[verifier::external_body]
fn feed(hasher: &mut DefaultHasher, number: u128) {
    number.hash(hasher)
}

/// How many symbols an identifier has.
pub const ID_LENGTH: usize = 6;

/// The symbols of an identifier, in the order of their values: digits, then
/// upper case, then lower case letters.
pub open spec fn alphabet() -> Seq<char> {
    "0123456789ABCDEFGHIJKLMNOPQRSTUVWXYZabcdefghijklmnopqrstuvwxyz"@
}

/// Whether `id` has the shape of a generated identifier: six symbols of the
/// alphabet.
pub open spec fn is_id(id: Seq<char>) -> bool {
    &&& id.len() == ID_LENGTH
    &&& forall|i: int| 0 <= i < id.len() ==> alphabet().contains(#[trigger] id[i])
}

/// The `count` lowest digits of `number` in base 62, lowest first, each written
/// as its symbol.
pub open spec fn digits(number: nat, count: nat) -> Seq<char>
    decreases count,
{
    if count == 0 {
        Seq::empty()
    } else {
        seq![alphabet()[(number % 62) as int]] + digits(number / 62, (count - 1) as nat)
    }
}

/// The identifier that a hash value gives.
pub open spec fn id_of(hash: u64) -> Seq<char> {
    digits(hash as nat, ID_LENGTH as nat)
}

/// Every identifier made from a hash value has the shape of an identifier.
pub proof fn lemma_digits_shape(number: nat, count: nat)
    ensures
        digits(number, count).len() == count,
        forall|i: int|
            0 <= i < count ==> alphabet().contains(#[trigger] digits(number, count)[i]),
    decreases count,
{
    reveal_strlit("0123456789ABCDEFGHIJKLMNOPQRSTUVWXYZabcdefghijklmnopqrstuvwxyz");
    if count > 0 {
        lemma_digits_shape(number / 62, (count - 1) as nat);
        let rest = digits(number / 62, (count - 1) as nat);
        let first = alphabet()[(number % 62) as int];
        assert(alphabet().len() == 62);
        assert(alphabet().contains(first));
        assert forall|i: int| 0 <= i < count implies alphabet().contains(
            #[trigger] digits(number, count)[i],
        ) by {
            if i > 0 {
                assert(digits(number, count)[i] == rest[i - 1]);
            }
        }
    }
}

/// Writes the six lowest base-62 digits of `hash`, lowest first.
pub fn encode_id(hash: u64) -> (id: String)
    ensures
        id@ == id_of(hash),
        is_id(id@),
{
    let symbols = "0123456789ABCDEFGHIJKLMNOPQRSTUVWXYZabcdefghijklmnopqrstuvwxyz";
    proof {
        reveal_strlit("0123456789ABCDEFGHIJKLMNOPQRSTUVWXYZabcdefghijklmnopqrstuvwxyz");
        assert(symbols@.len() == 62);
        lemma_digits_shape(hash as nat, ID_LENGTH as nat);
    }
    let mut id = String::new();
    let mut rest: u64 = hash;
    let mut written: usize = 0;
    while written < ID_LENGTH
        invariant
            written <= ID_LENGTH,
            symbols@ == alphabet(),
            symbols@.len() == 62,
            id@ + digits(rest as nat, (ID_LENGTH - written) as nat) == id_of(hash),
        decreases ID_LENGTH - written,
    {
        let place: usize = (rest % 62) as usize;
        let symbol = symbols.substring_char(place, place + 1);
        proof {
            let tail = digits(rest as nat / 62, (ID_LENGTH - written - 1) as nat);
            assert(symbol@ == seq![alphabet()[place as int]]);
            assert(digits(rest as nat, (ID_LENGTH - written) as nat) == symbol@ + tail);
            assert(id@ + (symbol@ + tail) == (id@ + symbol@) + tail);
        }
        id.append(symbol);
        rest = rest / 62;
        written = written + 1;
    }
    proof {
        assert(digits(rest as nat, 0) == Seq::<char>::empty());
        assert(id@ + Seq::<char>::empty() == id@);
    }
    id
}

/// A fresh identifier: the hash of the present time in nanoseconds, written
/// in base 62. A clock that reads earlier than 1970 counts as zero.
pub fn generate_id() -> (id: String)
    ensures
        is_id(id@),
        exists|hash: u64| id@ == id_of(hash),
{
    let now = system_now();
    let nanos: u128 = match since_epoch(&now) {
        Ok(span) => nanos_of(&span),
        Err(_) => 0,
    };
    let mut hasher = DefaultHasher::new();
    feed(&mut hasher, nanos);
    let hash = hasher.finish();
    encode_id(hash)
}

} // verus!
