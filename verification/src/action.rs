//! Parsing the action keyword out of a request payload.
//!
//! The payload text is split on `;`; the first segment, compared
//! case-insensitively over the ASCII letters, selects the action keyword:
//! `open`, `off`, or anything else, which is unsupported.

use vstd::prelude::*;
use crate::protocol::PayloadType;
use crate::protocol::Request;

verus! {

/// ASCII lowering of one character: the uppercase ASCII letters map to their
/// lowercase counterparts, every other character is unchanged.
pub open spec fn ascii_lower(c: char) -> char {
    if 'A' <= c && c <= 'Z' {
        ((c as u32) + 32) as char
    } else {
        c
    }
}

/// ASCII lowering of a character sequence, position by position.
pub open spec fn lowered(s: Seq<char>) -> Seq<char> {
    s.map_values(|c: char| ascii_lower(c))
}

/// The part of the payload before the first `;`, or the whole payload when it
/// holds no `;`.
pub open spec fn first_segment(s: Seq<char>) -> Seq<char>
    decreases s.len(),
{
    if s.len() == 0 {
        s
    } else if s[0] == ';' {
        Seq::empty()
    } else {
        seq![s[0]] + first_segment(s.drop_first())
    }
}

/// The keyword a payload carries: its first `;`-delimited segment, lowered.
pub open spec fn action_keyword(s: Seq<char>) -> Seq<char> {
    lowered(first_segment(s))
}

/// The action a payload selects: `open` opens the target, `off` shuts it
/// down, anything else is unsupported. Matching is case-insensitive and stops
/// at the first `;`.
pub open spec fn action_of(payload: Seq<char>) -> PayloadType {
    if action_keyword(payload) == seq!['o', 'p', 'e', 'n'] {
        PayloadType::Open
    } else if action_keyword(payload) == seq!['o', 'f', 'f'] {
        PayloadType::ShutDown
    } else {
        PayloadType::Unsupported
    }
}

// The first segment of `s + ";" + t` is the first segment of `s` alone: the
// appended separator ends the segment at the latest at the end of `s`.
proof fn lemma_first_segment_stops_at_separator(s: Seq<char>, t: Seq<char>)
    ensures
        first_segment(s + seq![';'] + t) == first_segment(s),
    decreases s.len(),
{
    let whole = s + seq![';'] + t;
    if s.len() == 0 {
        assert(whole[0] == ';');
        assert(first_segment(whole) =~= first_segment(s));
    } else if s[0] == ';' {
        assert(whole[0] == ';');
    } else {
        assert(whole[0] == s[0]);
        assert(whole.drop_first() =~= s.drop_first() + seq![';'] + t);
        lemma_first_segment_stops_at_separator(s.drop_first(), t);
    }
}

/// Everything after the first `;` is ignored: appending a `;` and any text to
/// a payload leaves the selected action unchanged.
pub proof fn lemma_action_ignores_after_separator(s: Seq<char>, t: Seq<char>)
    ensures
        action_of(s + seq![';'] + t) == action_of(s),
{
    lemma_first_segment_stops_at_separator(s, t);
}

// Taking the first segment commutes with ASCII lowering, since lowering
// neither introduces nor removes a `;`.
proof fn lemma_first_segment_lowered(s: Seq<char>)
    ensures
        first_segment(lowered(s)) == lowered(first_segment(s)),
    decreases s.len(),
{
    if s.len() == 0 {
        assert(first_segment(lowered(s)) =~= lowered(first_segment(s)));
    } else if s[0] == ';' {
        assert(lowered(s)[0] == ';');
        assert(first_segment(lowered(s)) =~= lowered(first_segment(s)));
    } else {
        assert(lowered(s)[0] == ascii_lower(s[0]));
        assert(lowered(s)[0] != ';');
        assert(lowered(s).drop_first() =~= lowered(s.drop_first()));
        lemma_first_segment_lowered(s.drop_first());
        assert(seq![lowered(s)[0]] + lowered(first_segment(s.drop_first())) =~= lowered(
            first_segment(s),
        ));
    }
}

/// The action keyword is matched case-insensitively: lowering a payload's
/// ASCII letters beforehand selects the same action.
pub proof fn lemma_action_case_insensitive(s: Seq<char>)
    ensures
        action_of(lowered(s)) == action_of(s),
{
    lemma_first_segment_lowered(s);
    assert(lowered(lowered(first_segment(s))) =~= lowered(first_segment(s)));
}

// When the characters before `end` hold no `;`, and `end` is either the end
// of the sequence or the position of a `;`, the first segment is exactly the
// prefix of length `end`.
proof fn lemma_first_segment_prefix(s: Seq<char>, end: int)
    requires
        0 <= end <= s.len(),
        forall|j: int| 0 <= j < end ==> s[j] != ';',
        end < s.len() ==> s[end] == ';',
    ensures
        first_segment(s) == s.subrange(0, end),
    decreases s.len(),
{
    if s.len() == 0 {
        assert(s.subrange(0, 0) =~= s);
    } else if end == 0 {
        assert(first_segment(s) =~= s.subrange(0, 0));
    } else {
        let t = s.drop_first();
        assert(forall|j: int| 0 <= j < end - 1 ==> t[j] == s[j + 1]);
        lemma_first_segment_prefix(t, end - 1);
        assert(seq![s[0]] + t.subrange(0, end - 1) =~= s.subrange(0, end));
    }
}

impl<'a> vstd::std_specs::convert::FromSpecImpl<&'a Request> for PayloadType {
    open spec fn obeys_from_spec() -> bool {
        true
    }

    open spec fn from_spec(v: &'a Request) -> Self {
        action_of(v.payload@)
    }
}

impl<'a> From<&'a Request> for PayloadType {
    /// The action keyword the request's payload selects.
    fn from(value: &'a Request) -> (r: Self)
        ensures
            r == action_of(value.payload@),
    {
        let s: &str = value.payload.as_str();
        let n: usize = s.unicode_len();
        let mut end: usize = 0;
        while end < n && s.get_char(end) != ';'
            invariant
                end <= n,
                n == s@.len(),
                forall|j: int| 0 <= j < end ==> s@[j] != ';',
            decreases n - end,
        {
            end = end + 1;
        }
        proof {
            lemma_first_segment_prefix(s@, end as int);
        }
        let ghost key = action_keyword(s@);
        assert(key.len() == end);
        assert(forall|j: int| 0 <= j < end ==> key[j] == ascii_lower(s@[j]));
        if end == 4 {
            let c0 = s.get_char(0);
            let c1 = s.get_char(1);
            let c2 = s.get_char(2);
            let c3 = s.get_char(3);
            if (c0 == 'o' || c0 == 'O') && (c1 == 'p' || c1 == 'P') && (c2 == 'e' || c2 == 'E')
                && (c3 == 'n' || c3 == 'N') {
                assert(key =~= seq!['o', 'p', 'e', 'n']);
                PayloadType::Open
            } else {
                assert(key != seq!['o', 'p', 'e', 'n']);
                assert(key != seq!['o', 'f', 'f']);
                PayloadType::Unsupported
            }
        } else if end == 3 {
            let c0 = s.get_char(0);
            let c1 = s.get_char(1);
            let c2 = s.get_char(2);
            if (c0 == 'o' || c0 == 'O') && (c1 == 'f' || c1 == 'F') && (c2 == 'f' || c2 == 'F') {
                assert(key =~= seq!['o', 'f', 'f']);
                PayloadType::ShutDown
            } else {
                assert(key != seq!['o', 'p', 'e', 'n']);
                assert(key != seq!['o', 'f', 'f']);
                PayloadType::Unsupported
            }
        } else {
            assert(key != seq!['o', 'p', 'e', 'n']);
            assert(key != seq!['o', 'f', 'f']);
            PayloadType::Unsupported
        }
    }
}

} // verus!
