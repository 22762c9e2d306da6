//! Identifiers: a kind prefix, an underscore, and random identifier
//! characters.

use vstd::prelude::*;
use vstd::string::StringExecFns;

verus! {

/// The characters an identifier is drawn from: letters, digits, `_` and `-`.
pub open spec fn is_id_char(c: char) -> bool {
    ||| c == '_'
    ||| c == '-'
    ||| '0' <= c <= '9'
    ||| 'a' <= c <= 'z'
    ||| 'A' <= c <= 'Z'
}

/// Every character of `s` is an identifier character.
pub open spec fn all_id_chars(s: Seq<char>) -> bool {
    forall|i: int| 0 <= i < s.len() ==> is_id_char(#[trigger] s[i])
}

/// Trusted: `nanoid::format` with the crate's default random source and its
/// URL-safe alphabet. Nothing is said of which characters come, only that
/// there are `size` of them and that each is of that alphabet. The call does
/// not return for `size == 0`, and computes `8 * size`.
#[verifier::external_body]
pub(crate) fn random_id(size: usize) -> (id: String)
    requires
        0 < size,
        8 * size <= usize::MAX,
    ensures
        id@.len() == size,
        all_id_chars(id@),
{
    nanoid::format(nanoid::rngs::default, &nanoid::alphabet::SAFE, size)
}

/// How many random characters an identifier ends with.
pub const ID_RANDOM_LEN: usize = 12;

/// The kind prefix of a signal identifier.
pub const SIGNAL_KIND: &'static str = "sig";

/// The kind prefix of a delivery identifier.
pub const DELIVERY_KIND: &'static str = "del";

/// The kind prefix of a dead-letter identifier.
pub const DEAD_LETTER_KIND: &'static str = "dlq";

/// The kind prefix of a connection identifier.
pub const CONNECTION_KIND: &'static str = "conn";

/// The kind prefix of a channel identifier.
pub const CHANNEL_KIND: &'static str = "ch";

/// The kind prefix of a subscription identifier.
pub const SUBSCRIPTION_KIND: &'static str = "sub";

/// The kind prefix of a webhook identifier.
pub const WEBHOOK_KIND: &'static str = "wh";

/// The kind prefix of an API key identifier.
pub const API_KEY_KIND: &'static str = "key";

/// `id` is an identifier of the given kind: the kind, an underscore, and
/// twelve identifier characters.
pub open spec fn is_id_of_kind(id: Seq<char>, kind: Seq<char>) -> bool {
    &&& id.len() == kind.len() + 1 + ID_RANDOM_LEN
    &&& id.subrange(0, kind.len() as int) == kind
    &&& id[kind.len() as int] == '_'
    &&& all_id_chars(id.subrange(kind.len() as int + 1, id.len() as int))
}

/// A new identifier of the given kind. Its random part is drawn afresh at
/// each call.
pub fn new_id(kind: &str) -> (id: String)
    ensures
        is_id_of_kind(id@, kind@),
{
    let random = random_id(ID_RANDOM_LEN);
    let mut id = String::from_str(kind);
    id.append("_");
    proof {
        reveal_strlit("_");
        assert("_"@ == seq!['_']);
    }
    id.append(random.as_str());
    assert(id@.subrange(0, kind@.len() as int) == kind@);
    assert(id@.subrange(kind@.len() as int + 1, id@.len() as int) == random@);
    id
}

/// The kind prefix of a request identifier.
pub const REQUEST_KIND: &'static str = "req";

/// How many random characters a request identifier ends with.
pub const REQUEST_RANDOM_LEN: usize = 16;

/// `id` is a request identifier: `req_` and sixteen identifier characters.
pub open spec fn is_request_id(id: Seq<char>) -> bool {
    &&& id.len() == 4 + REQUEST_RANDOM_LEN
    &&& id.subrange(0, 4) == seq!['r', 'e', 'q', '_']
    &&& all_id_chars(id.subrange(4, id.len() as int))
}

/// A new request identifier. Its random part is drawn afresh at each call.
pub fn new_request_id() -> (id: String)
    ensures
        is_request_id(id@),
{
    let random = random_id(REQUEST_RANDOM_LEN);
    let mut id = String::from_str("req_");
    proof {
        reveal_strlit("req_");
        assert("req_"@ == seq!['r', 'e', 'q', '_']);
    }
    id.append(random.as_str());
    assert(id@.subrange(0, 4) == seq!['r', 'e', 'q', '_']);
    assert(id@.subrange(4, id@.len() as int) == random@);
    id
}

} // verus!
