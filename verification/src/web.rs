//! The query-parameter accessor: turns a location's raw search text into
//! the value that selects a scene preset.

use vstd::prelude::*;
use vstd::string::*;

verus! {

/// How many `?` characters the text starts with.
pub open spec fn leading_question_marks(s: Seq<char>) -> int
    decreases s.len(),
{
    if s.len() == 0 || s[0] != '?' {
        0
    } else {
        1 + leading_question_marks(s.drop_first())
    }
}

/// The current page's query parameters.
pub struct CurrentQueryParameters {}

impl CurrentQueryParameters {
    /// The usable query value of a location's search text: absent when
    /// the host reports no search text at all, otherwise the text with
    /// its leading `?` characters stripped.
    pub fn value(search: Option<&str>) -> (r: Option<String>)
        ensures
            r is Some <==> search is Some,
            r is Some ==> r->Some_0@ == search->Some_0@.skip(
                leading_question_marks(search->Some_0@),
            ),
    {
        let s = match search {
            Some(s) => s,
            None => {
                return None;
            },
        };
        let n = s.unicode_len();
        proof {
            assert(s@.skip(0) =~= s@);
        }
        let mut i: usize = 0;
        while i < n && s.get_char(i) == '?'
            invariant
                i <= n,
                n == s@.len(),
                leading_question_marks(s@) == i + leading_question_marks(s@.skip(i as int)),
            decreases n - i,
        {
            proof {
                assert(s@.skip(i as int)[0] == s@[i as int]);
                assert(s@.skip(i as int).drop_first() =~= s@.skip(i + 1));
            }
            i += 1;
        }
        proof {
            if i < n {
                assert(s@.skip(i as int)[0] == s@[i as int]);
            } else {
                assert(s@.skip(i as int) =~= Seq::<char>::empty());
            }
            assert(leading_question_marks(s@) == i);
        }
        let stripped = s.substring_char(i, n);
        proof {
            assert(stripped@ =~= s@.skip(i as int));
        }
        Some(stripped.to_owned())
    }
}

} // verus!
