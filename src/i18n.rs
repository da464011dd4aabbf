//! Keys of translated messages.
use vstd::prelude::*;
use vstd::string::{StrSliceExecFns, StringExecFns};
use crate::animethemes::{find_char, find_from, lemma_find_from_in_bounds};

verus! {

/// A message key `id` or `id.attribute`, split in two: the message id, up
/// to the first `.`, and the attribute, up to the next `.` or the end. Any
/// further part is ignored.
pub open spec fn message_key(key: Seq<char>) -> (Seq<char>, Option<Seq<char>>) {
    match find_from(key, '.', 0) {
        None => (key, None),
        Some(d) => {
            let end = match find_from(key, '.', d + 1) {
                Some(e) => e,
                None => key.len(),
            };
            (key.take(d as int), Some(key.subrange(d + 1 as int, end as int)))
        },
    }
}

/// Splits a message key (see [`message_key`]).
pub fn split_message_key(key: &str) -> (r: (String, Option<String>))
    ensures
        r.0@ == message_key(key@).0,
        match message_key(key@).1 {
            Some(a) => r.1 matches Some(x) && x@ == a,
            None => r.1 is None,
        },
{
    let n = key.unicode_len();
    proof {
        lemma_find_from_in_bounds(key@, '.', 0);
    }
    match find_char(key, '.', 0) {
        None => (String::from_str(key), None),
        Some(d) => {
            proof {
                lemma_find_from_in_bounds(key@, '.', (d + 1) as nat);
            }
            let end = match find_char(key, '.', d + 1) {
                Some(e) => e,
                None => n,
            };
            (
                String::from_str(key.substring_char(0, d)),
                Some(String::from_str(key.substring_char(d + 1, end))),
            )
        },
    }
}

} // verus!
