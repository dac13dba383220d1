//! The process probe.
//!
//! The host layer lists current processes through the operating system's
//! process-listing utility and hands the output text in; the probe reports
//! whether the given process name occurs in it. The match is a plain
//! substring match, not an exact one — a name that is a prefix of another
//! can report a false positive; that behaviour is inherited deliberately.

use vstd::prelude::*;
use vstd::string::*;

verus! {

/// The needle occurs in the haystack starting at `i`.
pub open spec fn contains_at(haystack: Seq<char>, needle: Seq<char>, i: int) -> bool {
    &&& 0 <= i
    &&& i + needle.len() <= haystack.len()
    &&& haystack.subrange(i, i + needle.len()) == needle
}

/// The needle occurs somewhere in the haystack; an empty needle always
/// does.
pub open spec fn contains_seq(haystack: Seq<char>, needle: Seq<char>) -> bool {
    exists|i: int| contains_at(haystack, needle, i)
}

/// Whether the needle occurs at position `i`, given both lengths in hand.
fn matches_at(haystack: &str, needle: &str, i: usize, hn: usize, nn: usize) -> (r: bool)
    requires
        hn == haystack@.len(),
        nn == needle@.len(),
        i + nn <= hn,
    ensures
        r == contains_at(haystack@, needle@, i as int),
{
    let mut j: usize = 0;
    while j < nn
        invariant
            hn == haystack@.len(),
            nn == needle@.len(),
            i + nn <= hn,
            j <= nn,
            forall|k: int| 0 <= k < j ==> haystack@[i + k] == needle@[k],
        decreases nn - j,
    {
        let hc = haystack.get_char(i + j);
        let nc = needle.get_char(j);
        if hc != nc {
            proof {
                assert(haystack@.subrange(i as int, i as int + nn)[j as int] == haystack@[i + j]);
            }
            return false;
        }
        j = j + 1;
    }
    proof {
        assert(haystack@.subrange(i as int, i as int + nn) =~= needle@);
    }
    true
}

/// Reports whether the process-listing output contains the given process
/// name as a literal substring.
pub fn check_process_running(process_name: &String, listing: &String) -> (r: bool)
    ensures
        r == contains_seq(listing@, process_name@),
{
    let haystack = listing.as_str();
    let needle = process_name.as_str();
    let hn = haystack.unicode_len();
    let nn = needle.unicode_len();
    if nn > hn {
        proof {
            assert(forall|i: int| !contains_at(listing@, process_name@, i));
        }
        return false;
    }
    let end = hn - nn;
    let mut i: usize = 0;
    while i < end
        invariant
            haystack@ == listing@,
            needle@ == process_name@,
            hn == listing@.len(),
            nn == process_name@.len(),
            nn <= hn,
            end == hn - nn,
            i <= end,
            forall|k: int| 0 <= k < i ==> !contains_at(listing@, process_name@, k),
        decreases end - i,
    {
        if matches_at(haystack, needle, i, hn, nn) {
            return true;
        }
        i = i + 1;
    }
    if matches_at(haystack, needle, end, hn, nn) {
        return true;
    }
    proof {
        assert forall|k: int| !contains_at(listing@, process_name@, k) by {
            if 0 <= k < end {
                assert(!contains_at(listing@, process_name@, k));
            }
        }
    }
    false
}

} // verus!
