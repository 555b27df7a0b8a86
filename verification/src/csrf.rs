//! Recovery of the request-authenticity token from a decoded cookie value.

use vstd::prelude::*;
use vstd::string::*;

verus! {

/// Number of characters in the marker `crf=` that introduces the token.
pub open spec fn marker_len() -> int {
    4
}

/// The marker `crf=` stands in `s` at position `i`.
pub open spec fn marker_at(s: Seq<char>, i: int) -> bool {
    &&& 0 <= i
    &&& i + marker_len() <= s.len()
    &&& s[i] == 'c'
    &&& s[i + 1] == 'r'
    &&& s[i + 2] == 'f'
    &&& s[i + 3] == '='
}

/// Position of the first marker at or after `from`, if there is one.
pub open spec fn first_marker_from(s: Seq<char>, from: int) -> Option<int>
    decreases s.len() - from,
{
    if from < 0 || from + marker_len() > s.len() {
        None
    } else if marker_at(s, from) {
        Some(from)
    } else {
        first_marker_from(s, from + 1)
    }
}

/// Position of the first `;` at or after `from`, or the length of `s` when
/// there is none: the place where a value that starts at `from` ends.
pub open spec fn value_end(s: Seq<char>, from: int) -> int
    decreases s.len() - from,
{
    if from < 0 || from >= s.len() {
        s.len() as int
    } else if s[from] == ';' {
        from
    } else {
        value_end(s, from + 1)
    }
}

/// The token held by a decoded cookie value: the characters that follow the
/// first marker `crf=`, up to the next `;` or the end of the value.
pub open spec fn extract_spec(s: Seq<char>) -> Option<Seq<char>> {
    match first_marker_from(s, 0) {
        Some(i) => Some(s.subrange(i + marker_len(), value_end(s, i + marker_len()))),
        None => None,
    }
}

/// Finds the token in a decoded cookie value.
pub struct CsrfExtractor;

impl CsrfExtractor {
    /// Returns the value that follows the first `crf=` in `decoded`, ended
    /// by `;` or by the end of the text, and `None` when `crf=` does not
    /// occur. The input is left as it is.
    pub fn extract(decoded: &str) -> (token: Option<String>)
        ensures
            match token {
                Some(t) => extract_spec(decoded@) == Some(t@),
                None => extract_spec(decoded@) is None,
            },
    {
        let n: usize = decoded.unicode_len();
        if n < 4 {
            return None;
        }
        let last: usize = n - 4;
        let mut i: usize = 0;
        while i <= last
            invariant
                n == decoded@.len(),
                last == n - 4,
                i <= last + 1,
                first_marker_from(decoded@, 0) == first_marker_from(decoded@, i as int),
            decreases last + 1 - i,
        {
            if decoded.get_char(i) == 'c' && decoded.get_char(i + 1) == 'r' && decoded.get_char(
                i + 2,
            ) == 'f' && decoded.get_char(i + 3) == '=' {
                let start: usize = i + 4;
                let mut end: usize = start;
                while end < n && decoded.get_char(end) != ';'
                    invariant
                        n == decoded@.len(),
                        start <= end <= n,
                        value_end(decoded@, start as int) == value_end(decoded@, end as int),
                    decreases n - end,
                {
                    end = end + 1;
                }
                let value: String = decoded.substring_char(start, end).to_owned();
                return Some(value);
            }
            i = i + 1;
        }
        None
    }
}

/// The four characters of the marker.
pub open spec fn marker_text() -> Seq<char> {
    seq!['c', 'r', 'f', '=']
}

proof fn lemma_first_marker_from(s: Seq<char>, from: int)
    requires
        0 <= from,
    ensures
        match first_marker_from(s, from) {
            Some(at) => from <= at && marker_at(s, at) && forall|k: int|
                from <= k < at ==> !marker_at(s, k),
            None => forall|k: int| from <= k ==> !marker_at(s, k),
        },
    decreases s.len() - from,
{
    if from + marker_len() <= s.len() && !marker_at(s, from) {
        lemma_first_marker_from(s, from + 1);
    }
}

proof fn lemma_first_marker_at(s: Seq<char>, from: int, at: int)
    requires
        0 <= from <= at,
        marker_at(s, at),
        forall|k: int| from <= k < at ==> !marker_at(s, k),
    ensures
        first_marker_from(s, from) == Some(at),
    decreases at - from,
{
    if from < at {
        lemma_first_marker_at(s, from + 1, at);
    }
}

proof fn lemma_value_end(s: Seq<char>, from: int)
    requires
        0 <= from <= s.len(),
    ensures
        from <= value_end(s, from) <= s.len(),
        forall|k: int| from <= k < value_end(s, from) ==> s[k] != ';',
        value_end(s, from) == s.len() || s[value_end(s, from)] == ';',
    decreases s.len() - from,
{
    if from < s.len() && s[from] != ';' {
        lemma_value_end(s, from + 1);
    }
}

proof fn lemma_value_end_at(s: Seq<char>, from: int, end: int)
    requires
        0 <= from <= end <= s.len(),
        forall|k: int| from <= k < end ==> s[k] != ';',
        end == s.len() || s[end] == ';',
    ensures
        value_end(s, from) == end,
    decreases end - from,
{
    if from < end {
        lemma_value_end_at(s, from + 1, end);
    }
}

/// What is extracted is the value of the first fragment: it follows the
/// first marker, holds no `;`, and ends where the text ends or a `;`
/// stands. Nothing is extracted exactly when the marker occurs nowhere.
pub proof fn extract_takes_first_fragment(s: Seq<char>)
    ensures
        match extract_spec(s) {
            Some(token) => exists|at: int|
                {
                    &&& #[trigger] marker_at(s, at)
                    &&& forall|k: int| 0 <= k < at ==> !marker_at(s, k)
                    &&& at + marker_len() + token.len() <= s.len()
                    &&& token == s.subrange(at + marker_len(), at + marker_len() + token.len())
                    &&& forall|k: int| 0 <= k < token.len() ==> token[k] != ';'
                    &&& (at + marker_len() + token.len() == s.len() || s[at + marker_len()
                        + token.len()] == ';')
                },
            None => forall|k: int| !marker_at(s, k),
        },
{
    lemma_first_marker_from(s, 0);
    match first_marker_from(s, 0) {
        Some(at) => {
            lemma_value_end(s, at + marker_len());
            assert(marker_at(s, at));
        },
        None => {},
    }
}

/// The token is found wherever its fragment stands: after any text in
/// which the marker does not occur earlier, and before the end of the text
/// or a `;`.
pub proof fn token_found_anywhere(before: Seq<char>, token: Seq<char>, after: Seq<char>)
    requires
        forall|i: int| 0 <= i < before.len() ==> !marker_at(before + marker_text(), i),
        forall|k: int| 0 <= k < token.len() ==> token[k] != ';',
        after.len() > 0 ==> after[0] == ';',
    ensures
        extract_spec(before + marker_text() + token + after) == Some(token),
{
    let s = before + marker_text() + token + after;
    let at = before.len() as int;
    assert(marker_at(s, at));
    assert forall|k: int| 0 <= k < at implies !marker_at(s, k) by {
        if marker_at(s, k) {
            assert(marker_at(before + marker_text(), k));
        }
    }
    lemma_first_marker_at(s, 0, at);
    lemma_value_end_at(s, at + marker_len(), at + marker_len() + token.len());
    assert(s.subrange(at + marker_len(), at + marker_len() + token.len()) =~= token);
}

} // verus!
