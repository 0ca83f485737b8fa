//! The symbol resolver: the link-time symbol a declaration is bound
//! against, the platform-keyed mangling-prefix policy, and the synthesis of
//! fresh proxy symbols for declarations whose real symbol is not
//! externally linkable.
use vstd::prelude::*;
use crate::text::hex_seq;
use crate::text::hex_string;

verus! {

/// Relies on rand::random: one value drawn from the thread-local random
/// source. Successive calls may return anything; nothing is promised of
/// the result.
pub assume_specification<T>[ rand::random::<T> ]() -> (r: T)
    where
        rand::distributions::Standard: rand::distributions::Distribution<T>,
;

/// The text of a synthesized proxy symbol built from the random word `n`:
/// an underscore followed by the hexadecimal digits of `n`.
pub open spec fn proxy_symbol_spec(n: int) -> Seq<char> {
    "_"@ + hex_seq(n)
}

/// Build the proxy symbol for the random word `n`.
pub fn proxy_symbol(n: u64) -> (r: String)
    ensures
        r@ == proxy_symbol_spec(n as int),
{
    let mut s = String::from_str("_");
    s.append(hex_string(n).as_str());
    s
}

/// The linker-visible symbol derived from a raw mangled name: on the
/// platform family whose object format carries a leading mangling-prefix
/// character the leading character is dropped, on the other family the
/// mangled name is used unchanged.
pub open spec fn link_symbol_spec(mangled: Seq<char>, unix_like: bool) -> Seq<char> {
    if unix_like {
        mangled.skip(1)
    } else {
        mangled
    }
}

/// Compute the link symbol for a raw mangled name under the two-branch
/// platform policy.
pub fn link_symbol(mangled: &str, unix_like: bool) -> (r: String)
    requires
        unix_like ==> mangled@.len() >= 1,
    ensures
        r@ == link_symbol_spec(mangled@, unix_like),
{
    if unix_like {
        let n = mangled.unicode_len();
        let r = String::from_str(mangled.substring_char(1, n));
        proof {
            assert(r@ =~= mangled@.skip(1));
        }
        r
    } else {
        String::from_str(mangled)
    }
}

/// The prefix policy is keyed on the platform family alone: on the family
/// with a leading mangling prefix the emitted symbol omits exactly the
/// leading character of the raw mangled name; on the other family the raw
/// mangled name passes through unchanged.
pub proof fn lemma_symbol_stripping(mangled: Seq<char>, unix_like: bool)
    ensures
        unix_like ==> link_symbol_spec(mangled, unix_like) == mangled.skip(1),
        !unix_like ==> link_symbol_spec(mangled, unix_like) == mangled,
{
}

} // verus!
