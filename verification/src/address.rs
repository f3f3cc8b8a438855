//! Which strings name a target the watchdog can probe.

use vstd::prelude::*;

verus! {

/// The pattern a target has to match in full: a host name, a dotted IPv4
/// address or a bracketed IPv6 address, with an optional scheme, user
/// information, port, path, query and fragment around it.
pub const ADDRESS_PATTERN: &'static str =
    r"^(?:(?:https?|ftp|ftps)://)?(?:[^\s:@/]+(?::[^\s:@/]*)?@)?(?:(?:www\.)?(?:[a-zA-Z0-9-]+\.)*[a-zA-Z0-9-]+\.[a-zA-Z]{2,}|(?:\d{1,3}\.){3}\d{1,3}|\[[a-fA-F0-9:]+\])(?::\d+)?(?:/[^\s?#]*)?(?:\?[^\s#]*)?(?:#[^\s]*)?$";

/// What the `regex` crate answers for a pattern and a haystack: `None` where
/// the pattern does not compile, otherwise whether the compiled expression
/// matches anywhere in the haystack.
pub uninterp spec fn regex_search(pattern: Seq<char>, haystack: Seq<char>) -> Option<bool>;

/// `regex::Regex::new` on `pattern`, then `regex::Regex::is_match` on
/// `haystack`. Trusted: the answer depends on the two strings alone, and is
/// `None` exactly where `new` reports an error.
#[verifier::external_body]
fn regex_is_match(pattern: &str, haystack: &str) -> (found: Option<bool>)
    ensures
        found == regex_search(pattern@, haystack@),
{
    match regex::Regex::new(pattern) {
        Ok(expression) => Some(expression.is_match(haystack)),
        Err(_) => None,
    }
}

/// A target is valid where the address pattern compiles and matches it.
pub open spec fn address_is_valid(target: Seq<char>) -> bool {
    regex_search(ADDRESS_PATTERN@, target) == Some(true)
}

/// Whether `target` is a host, IP address or URL.
pub fn is_valid_address(target: &str) -> (ok: bool)
    ensures
        ok == address_is_valid(target@),
{
    match regex_is_match(ADDRESS_PATTERN, target) {
        Some(found) => found,
        None => false,
    }
}

/// A target that is not a valid address, with its place in the list.
#[derive(Debug)]
pub struct RejectedTarget {
    pub index: usize,
    pub target: String,
}

impl View for RejectedTarget {
    type V = (int, Seq<char>);

    open spec fn view(&self) -> (int, Seq<char>) {
        (self.index as int, self.target@)
    }
}

/// An optional rejection as plain values.
pub open spec fn rejection(found: Option<RejectedTarget>) -> Option<(int, Seq<char>)> {
    match found {
        Some(rejected) => Some(rejected@),
        None => None,
    }
}

/// The first target of the list that is not a valid address, with its index.
pub open spec fn first_rejected(targets: Seq<Seq<char>>) -> Option<(int, Seq<char>)>
    decreases targets.len(),
{
    if targets.len() == 0 {
        None
    } else {
        match first_rejected(targets.drop_last()) {
            Some(found) => Some(found),
            None => if address_is_valid(targets.last()) {
                None
            } else {
                Some((targets.len() - 1, targets.last()))
            },
        }
    }
}

/// `first_rejected` finds the least index of an invalid target, and finds
/// none exactly where every target is valid.
pub proof fn lemma_first_rejected(targets: Seq<Seq<char>>)
    ensures
        match first_rejected(targets) {
            Some((index, target)) => {
                &&& 0 <= index < targets.len()
                &&& target == targets[index]
                &&& !address_is_valid(target)
                &&& forall|j: int| 0 <= j < index ==> address_is_valid(#[trigger] targets[j])
            },
            None => forall|j: int| 0 <= j < targets.len() ==> address_is_valid(#[trigger] targets[j]),
        },
    decreases targets.len(),
{
    if targets.len() > 0 {
        let init = targets.drop_last();
        lemma_first_rejected(init);
        assert(forall|j: int| 0 <= j < init.len() ==> init[j] == targets[j]);
    }
}

/// Looks for the first target that is not a valid address.
pub fn check_targets(targets: &Vec<String>) -> (rejected: Option<RejectedTarget>)
    ensures
        rejection(rejected) == first_rejected(targets.deep_view()),
{
    let mut i: usize = 0;
    while i < targets.len()
        invariant
            i <= targets@.len(),
            first_rejected(targets.deep_view().take(i as int)) is None,
        decreases targets@.len() - i,
    {
        let ghost upto = targets.deep_view().take(i + 1);
        assert(upto.drop_last() =~= targets.deep_view().take(i as int));
        assert(upto.last() == targets@[i as int]@);
        if !is_valid_address(targets[i].as_str()) {
            assert(first_rejected(upto) == Some((i as int, targets@[i as int]@)));
            proof {
                lemma_first_rejected_prefix(targets.deep_view(), i + 1);
            }
            return Some(RejectedTarget { index: i, target: targets[i].clone() });
        }
        i += 1;
    }
    assert(targets.deep_view().take(i as int) =~= targets.deep_view());
    None
}

/// A target rejected in a prefix of the list is the one rejected in the whole
/// list.
proof fn lemma_first_rejected_prefix(targets: Seq<Seq<char>>, n: int)
    requires
        0 <= n <= targets.len(),
        first_rejected(targets.take(n)) is Some,
    ensures
        first_rejected(targets) == first_rejected(targets.take(n)),
    decreases targets.len(),
{
    if n < targets.len() {
        let init = targets.drop_last();
        assert(init.take(n) =~= targets.take(n));
        lemma_first_rejected_prefix(init, n);
    } else {
        assert(targets.take(n) =~= targets);
    }
}

} // verus!
