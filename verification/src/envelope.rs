//! Envelope unwrapping.
//!
//! Frames from the multiplexed endpoint have the shape
//! `{"stream": <name>, "data": <payload>}`. Unwrapping locates the first
//! occurrence of the `"data":` key and takes everything after it up to, but
//! not including, the last `}` of the frame: for a frame whose payload is the
//! final member of the envelope object, that is exactly the payload.

use vstd::prelude::*;
use crate::scan::{
    contains_tok, find_sub, rfind_char, first_match_index, first_match_at, last_index,
    last_index_of, lemma_first_match_unique, lemma_last_index_unique,
};

verus! {

/// The text of the envelope's payload key, quotes and colon included.
pub open spec fn data_key() -> Seq<char> {
    "\"data\":"@
}

/// Whether `s` holds a last `}` somewhere.
pub open spec fn has_brace(s: Seq<char>) -> bool {
    exists|j: int| 0 <= j < s.len() && s[j] == '}'
}

/// The unwrapped payload of an enveloped frame: the text between the first
/// `"data":` key and the frame's last `}`. `None` when the frame does not
/// have that shape.
pub open spec fn extract_spec(s: Seq<char>) -> Option<Seq<char>> {
    if contains_tok(s, data_key()) && has_brace(s) {
        let d = first_match_index(s, data_key());
        let e = last_index(s, '}');
        if d + data_key().len() <= e {
            Some(s.subrange(d + data_key().len() as int, e))
        } else {
            None
        }
    } else {
        None
    }
}

/// Unwrap one envelope level: the text after the first `"data":` key, up to
/// the frame's last `}`.
pub fn extract_data<'a>(msg: &'a str) -> (r: Option<&'a str>)
    ensures
        match r {
            Some(inner) => extract_spec(msg@) == Some(inner@),
            None => extract_spec(msg@) is None,
        },
{
    let n = msg.unicode_len();
    let d = match find_sub(msg, "\"data\":") {
        Some(d) => d,
        None => {
            return None;
        },
    };
    let e = match rfind_char(msg, '}') {
        Some(e) => e,
        None => {
            proof {
                assert(!has_brace(msg@));
            }
            return None;
        },
    };
    proof {
        lemma_first_match_unique(msg@, data_key(), d as int);
        lemma_last_index_unique(msg@, '}', e as int);
        assert(has_brace(msg@)) by {
            assert(0 <= e < msg@.len() && msg@[e as int] == '}');
        }
        assert(data_key().len() == 7) by {
            reveal_strlit("\"data\":");
        }
    }
    if d + 7 <= e {
        let inner = msg.substring_char(d + 7, e);
        Some(inner)
    } else {
        None
    }
}

/// Law: for an envelope built from a payload that is the final member of the
/// wrapper object, unwrapping returns exactly that payload.
pub proof fn lemma_extract_exact(s: Seq<char>, d: int, e: int)
    requires
        first_match_at(s, data_key(), d),
        last_index_of(s, '}', e),
        d + data_key().len() <= e,
    ensures
        extract_spec(s) == Some(s.subrange(d + data_key().len() as int, e)),
{
    lemma_first_match_unique(s, data_key(), d);
    lemma_last_index_unique(s, '}', e);
    assert(has_brace(s)) by {
        assert(0 <= e < s.len() && s[e] == '}');
    }
}

} // verus!
