//! Verified text handling for the field validators.
//!
//! Everything here works at character granularity (a string is its sequence
//! of `char`s), so length bounds and character checks agree with what a user
//! typing into a form would count.

use vstd::prelude::*;
use vstd::string::StrSliceExecFns;

verus! {

/// Some character of `s` is among `bad`.
pub open spec fn contains_any(s: Seq<char>, bad: Seq<char>) -> bool {
    exists|i: int| 0 <= i < s.len() && bad.contains(s[i])
}

/// Whether any character of `s` is among `bad` (the illegal-character scan).
pub fn contains_any_char(s: &str, bad: &Vec<char>) -> (r: bool)
    ensures
        r == contains_any(s@, bad@),
{
    let n = s.unicode_len();
    let mut i: usize = 0;
    while i < n
        invariant
            n == s@.len(),
            0 <= i <= n,
            forall|k: int| 0 <= k < i ==> !bad@.contains(s@[k]),
        decreases n - i,
    {
        let c = s.get_char(i);
        let mut j: usize = 0;
        while j < bad.len()
            invariant
                0 <= j <= bad@.len(),
                0 <= i < s@.len(),
                c == s@[i as int],
                forall|k: int| 0 <= k < j ==> bad@[k] != c,
            decreases bad@.len() - j,
        {
            if bad[j] == c {
                assert(bad@.contains(s@[i as int]));
                return true;
            }
            j = j + 1;
        }
        i = i + 1;
    }
    false
}

/// Number of characters in `s` (not bytes).
pub fn char_length(s: &str) -> (r: usize)
    ensures
        r == s@.len(),
{
    s.unicode_len()
}

/// ASCII whitespace, the only whitespace trimming removes.
pub open spec fn is_space(c: char) -> bool {
    c == ' ' || c == '\t' || c == '\n' || c == '\r'
}

/// `s` with leading whitespace removed.
pub open spec fn trim_front(s: Seq<char>) -> Seq<char>
    decreases s.len(),
{
    if s.len() > 0 && is_space(s[0]) {
        trim_front(s.drop_first())
    } else {
        s
    }
}

/// `s` with trailing whitespace removed.
pub open spec fn trim_back(s: Seq<char>) -> Seq<char>
    decreases s.len(),
{
    if s.len() > 0 && is_space(s.last()) {
        trim_back(s.drop_last())
    } else {
        s
    }
}

/// `s` with leading and trailing whitespace removed.
pub open spec fn trim_spec(s: Seq<char>) -> Seq<char> {
    trim_back(trim_front(s))
}

proof fn lemma_trim_front_skip(s: Seq<char>, lo: int)
    requires
        0 <= lo <= s.len(),
        forall|k: int| 0 <= k < lo ==> is_space(s[k]),
    ensures
        trim_front(s) == trim_front(s.subrange(lo, s.len() as int)),
    decreases lo,
{
    if lo > 0 {
        assert(s.subrange(0, s.len() as int) =~= s);
        lemma_trim_front_skip(s, lo - 1);
        let t = s.subrange(lo - 1, s.len() as int);
        assert(t.len() > 0 && is_space(t[0]));
        assert(t.drop_first() =~= s.subrange(lo, s.len() as int));
    } else {
        assert(s.subrange(0, s.len() as int) =~= s);
    }
}

proof fn lemma_trim_back_skip(s: Seq<char>, hi: int)
    requires
        0 <= hi <= s.len(),
        forall|k: int| hi <= k < s.len() ==> is_space(s[k]),
    ensures
        trim_back(s) == trim_back(s.subrange(0, hi)),
    decreases s.len() - hi,
{
    if hi < s.len() {
        lemma_trim_back_skip(s, hi + 1);
        let t = s.subrange(0, hi + 1);
        assert(t.len() > 0 && is_space(t.last()));
        assert(t.drop_last() =~= s.subrange(0, hi));
    } else {
        assert(s.subrange(0, s.len() as int) =~= s);
    }
}

/// Removes leading and trailing ASCII whitespace, at character granularity.
pub fn trim(s: &str) -> (r: &str)
    ensures
        r@ == trim_spec(s@),
{
    let n = s.unicode_len();
    let mut lo: usize = 0;
    while lo < n && is_space_exec(s.get_char(lo))
        invariant
            n == s@.len(),
            0 <= lo <= n,
            forall|k: int| 0 <= k < lo ==> is_space(s@[k]),
        decreases n - lo,
    {
        lo = lo + 1;
    }
    let mut hi: usize = n;
    while hi > lo && is_space_exec(s.get_char(hi - 1))
        invariant
            n == s@.len(),
            0 <= lo <= hi <= n,
            forall|k: int| 0 <= k < lo ==> is_space(s@[k]),
            forall|k: int| hi <= k < n ==> is_space(s@[k]),
            lo == n || !is_space(s@[lo as int]),
        decreases hi,
    {
        hi = hi - 1;
    }
    proof {
        let t = s@.subrange(lo as int, n as int);
        lemma_trim_front_skip(s@, lo as int);
        if lo < n {
            assert(t[0] == s@[lo as int]);
        }
        assert(trim_front(t) == t);
        assert(forall|k: int| hi - lo <= k < t.len() ==> is_space(t[k]));
        lemma_trim_back_skip(t, hi - lo);
        let u = t.subrange(0, hi - lo);
        if hi > lo {
            assert(u.last() == s@[hi - 1]);
        }
        assert(trim_back(u) == u);
        assert(u =~= s@.subrange(lo as int, hi as int));
    }
    s.substring_char(lo, hi)
}

/// Executable twin of [`is_space`].
pub fn is_space_exec(c: char) -> (r: bool)
    ensures
        r == is_space(c),
{
    c == ' ' || c == '\t' || c == '\n' || c == '\r'
}

/// The pieces of `s` between its commas, in order. A string without a comma
/// is one piece; `n` commas give `n + 1` pieces, empty pieces included.
pub open spec fn split_commas(s: Seq<char>) -> Seq<Seq<char>>
    decreases s.len(),
{
    if s.len() == 0 {
        seq![s]
    } else if s[0] == ',' {
        seq![Seq::<char>::empty()] + split_commas(s.drop_first())
    } else {
        let rest = split_commas(s.drop_first());
        seq![seq![s[0]] + rest[0]] + rest.drop_first()
    }
}

pub proof fn lemma_split_commas_len(s: Seq<char>)
    ensures
        split_commas(s).len() >= 1,
    decreases s.len(),
{
    if s.len() > 0 {
        lemma_split_commas_len(s.drop_first());
    }
}

/// Splitting takes the piece before the first comma off the front: if `j` is
/// the position of the first comma (or the length, if there is none), the
/// pieces are `s[..j]` followed by the pieces of `s[j+1..]`.
pub proof fn lemma_split_commas_step(s: Seq<char>, j: int)
    requires
        0 <= j <= s.len(),
        forall|k: int| 0 <= k < j ==> s[k] != ',',
        j < s.len() ==> s[j] == ',',
    ensures
        j == s.len() ==> split_commas(s) == seq![s],
        j < s.len() ==> split_commas(s) == seq![s.subrange(0, j)] + split_commas(
            s.subrange(j + 1, s.len() as int),
        ),
    decreases j, s.len(),
{
    if j == s.len() {
        if s.len() > 0 {
            lemma_split_commas_step(s.drop_first(), j - 1);
            let rest = split_commas(s.drop_first());
            assert(rest == seq![s.drop_first()]);
            assert(seq![s[0]] + s.drop_first() =~= s);
            assert(rest.drop_first() =~= Seq::<Seq<char>>::empty());
            assert(seq![seq![s[0]] + rest[0]] + rest.drop_first() =~= seq![s]);
        }
    } else if j == 0 {
        assert(s[0] == ',');
        assert(s.drop_first() =~= s.subrange(1, s.len() as int));
        assert(s.subrange(0, 0) =~= Seq::<char>::empty());
        assert(seq![Seq::<char>::empty()] + split_commas(s.drop_first()) =~= seq![
            s.subrange(0, 0),
        ] + split_commas(s.subrange(1, s.len() as int)));
    } else {
        let d = s.drop_first();
        lemma_split_commas_step(d, j - 1);
        lemma_split_commas_len(d.subrange(j, d.len() as int));
        let rest = split_commas(d);
        assert(rest == seq![d.subrange(0, j - 1)] + split_commas(d.subrange(j, d.len() as int)));
        assert(rest[0] == d.subrange(0, j - 1));
        assert(seq![s[0]] + d.subrange(0, j - 1) =~= s.subrange(0, j));
        assert(rest.drop_first() =~= split_commas(d.subrange(j, d.len() as int)));
        assert(d.subrange(j, d.len() as int) =~= s.subrange(j + 1, s.len() as int));
        assert(seq![seq![s[0]] + rest[0]] + rest.drop_first() =~= seq![s.subrange(0, j)]
            + split_commas(s.subrange(j + 1, s.len() as int)));
    }
}

/// Splits `s` on commas, at character granularity; see [`split_commas`].
pub fn split_on_commas(s: &str) -> (r: Vec<String>)
    ensures
        r.deep_view() == split_commas(s@),
        r.len() >= 1,
{
    let n = s.unicode_len();
    let mut parts: Vec<String> = Vec::new();
    let mut start: usize = 0;
    let mut i: usize = 0;
    proof {
        assert(s@.subrange(0, n as int) =~= s@);
    }
    while i < n
        invariant
            n == s@.len(),
            0 <= start <= i <= n,
            forall|k: int| start <= k < i ==> s@[k] != ',',
            split_commas(s@) == parts.deep_view() + split_commas(
                s@.subrange(start as int, n as int),
            ),
        decreases n - i,
    {
        if s.get_char(i) == ',' {
            let piece = s.substring_char(start, i).to_owned();
            let ghost pdv = parts.deep_view();
            parts.push(piece);
            proof {
                let t = s@.subrange(start as int, n as int);
                lemma_split_commas_step(t, i - start);
                assert(t.subrange(0, i - start) =~= s@.subrange(start as int, i as int));
                assert(t.subrange(i - start + 1, t.len() as int) =~= s@.subrange(
                    i as int + 1,
                    n as int,
                ));
                assert(parts.deep_view() =~= pdv.push(piece@));
                assert(pdv.push(piece@) + split_commas(s@.subrange(i as int + 1, n as int)) =~= pdv
                    + (seq![piece@] + split_commas(s@.subrange(i as int + 1, n as int))));
            }
            start = i + 1;
        }
        i = i + 1;
    }
    let piece = s.substring_char(start, n).to_owned();
    let ghost pdv = parts.deep_view();
    parts.push(piece);
    proof {
        let t = s@.subrange(start as int, n as int);
        lemma_split_commas_step(t, n - start);
        assert(parts.deep_view() =~= pdv.push(piece@));
        assert(pdv.push(piece@) =~= pdv + seq![t]);
    }
    parts
}

/// The parts glued together with `sep` between each neighbouring pair.
pub open spec fn joined(parts: Seq<Seq<char>>, sep: Seq<char>) -> Seq<char>
    decreases parts.len(),
{
    if parts.len() == 0 {
        Seq::<char>::empty()
    } else if parts.len() == 1 {
        parts[0]
    } else {
        parts[0] + sep + joined(parts.drop_first(), sep)
    }
}

/// Joining one more part appends a separator and the part.
pub proof fn lemma_joined_push(parts: Seq<Seq<char>>, sep: Seq<char>, x: Seq<char>)
    requires
        parts.len() >= 1,
    ensures
        joined(parts.push(x), sep) == joined(parts, sep) + sep + x,
    decreases parts.len(),
{
    if parts.len() == 1 {
        let q = parts.push(x);
        assert(q.drop_first() =~= seq![x]);
        assert(q[0] + sep + joined(q.drop_first(), sep) =~= parts[0] + sep + x);
    } else {
        lemma_joined_push(parts.drop_first(), sep, x);
        let q = parts.push(x);
        assert(q.drop_first() =~= parts.drop_first().push(x));
        assert(q[0] + sep + (joined(parts.drop_first(), sep) + sep + x) =~= (parts[0] + sep
            + joined(parts.drop_first(), sep)) + sep + x);
    }
}

/// Joins the parts with a comma and a space, the display form of a list of
/// names or tags.
pub fn join_comma_space(parts: &Vec<String>) -> (r: String)
    ensures
        r@ == joined(parts.deep_view(), ", "@),
{
    let mut out = String::new();
    let mut i: usize = 0;
    while i < parts.len()
        invariant
            0 <= i <= parts@.len(),
            out@ == joined(parts.deep_view().subrange(0, i as int), ", "@),
        decreases parts@.len() - i,
    {
        let ghost prefix = parts.deep_view().subrange(0, i as int);
        if i > 0 {
            out.append(", ");
            proof {
                lemma_joined_push(prefix, ", "@, parts.deep_view()[i as int]);
            }
        }
        out.append(parts[i].as_str());
        proof {
            assert(parts.deep_view().subrange(0, i + 1) =~= prefix.push(
                parts.deep_view()[i as int],
            ));
            if i == 0 {
                assert(out@ =~= parts.deep_view()[0]);
            }
        }
        i = i + 1;
    }
    proof {
        assert(parts.deep_view().subrange(0, parts.deep_view().len() as int) =~= parts.deep_view());
    }
    out
}

/// The label pieces a raw text yields: the text trimmed, split on commas,
/// each piece trimmed again.
pub open spec fn label_parts(raw: Seq<char>) -> Seq<Seq<char>> {
    split_commas(trim_spec(raw)).map_values(|p: Seq<char>| trim_spec(p))
}

/// A word character of the email shape: an ASCII letter, digit or
/// underscore.
pub open spec fn is_word_char(c: char) -> bool {
    ||| 97 <= c as u32 <= 122
    ||| 65 <= c as u32 <= 90
    ||| 48 <= c as u32 <= 57
    ||| c == '_'
}

/// A character allowed in the local part of an email: a word character, dot,
/// plus or minus.
pub open spec fn is_local_char(c: char) -> bool {
    is_word_char(c) || c == '.' || c == '+' || c == '-'
}

/// The suffix `s[start..]` is a well-formed email domain: non-empty, word
/// characters and dots only, no empty label (no leading, trailing or doubled
/// dot), at least two labels, and a final label of at least two characters.
pub open spec fn domain_ok_from(s: Seq<char>, start: int) -> bool {
    let n = s.len() as int;
    &&& start < n
    &&& forall|i: int| start <= i < n ==> is_word_char(#[trigger] s[i]) || s[i] == '.'
    &&& s[start] != '.'
    &&& s[n - 1] != '.'
    &&& forall|i: int| start <= i < n - 1 ==> !(#[trigger] s[i] == '.' && s[i + 1] == '.')
    &&& exists|j: int|
        start <= j < n && #[trigger] s[j] == '.' && n - 1 - j >= 2 && (forall|k: int|
            j < k < n ==> #[trigger] s[k] != '.')
}

/// The email shape: a non-empty local part of local characters, an `@`, and
/// a well-formed domain. This is the documented rule the email validator
/// applies; it asks for the whole string to have the shape, not merely to
/// contain it.
pub open spec fn valid_email(s: Seq<char>) -> bool {
    exists|at: int|
        1 <= at < s.len() && #[trigger] s[at] == '@' && (forall|i: int|
            0 <= i < at ==> is_local_char(#[trigger] s[i])) && domain_ok_from(s, at + 1)
}

/// Since `@` is neither a local nor a domain character, only the first `@`
/// of the string can split a well-formed email.
proof fn lemma_email_candidate(s: Seq<char>, at: int)
    requires
        0 <= at < s.len(),
        s[at] == '@',
        forall|k: int| 0 <= k < at ==> #[trigger] s[k] != '@',
    ensures
        valid_email(s) ==> {
            &&& at >= 1
            &&& forall|i: int| 0 <= i < at ==> is_local_char(#[trigger] s[i])
            &&& domain_ok_from(s, at + 1)
        },
{
    if valid_email(s) {
        let at2 = choose|at2: int|
            1 <= at2 < s.len() && #[trigger] s[at2] == '@' && (forall|i: int|
                0 <= i < at2 ==> is_local_char(#[trigger] s[i])) && domain_ok_from(s, at2 + 1);
        if at2 > at {
            assert(is_local_char(s[at]));
            assert(false);
        }
        if at2 < at {
            // the domain's dot-or-word condition would have to cover `s[at]`
            assert(at2 + 1 <= at < s.len());
            assert(is_word_char(s[at]) || s[at] == '.');
            assert(false);
        }
    }
}

/// The largest dot position decides whether the final label is long enough.
proof fn lemma_last_dot(s: Seq<char>, start: int, ld: int)
    requires
        start <= ld < s.len(),
        s[ld] == '.',
        forall|k: int| ld < k < s.len() ==> #[trigger] s[k] != '.',
    ensures
        (exists|j: int|
            start <= j < s.len() && #[trigger] s[j] == '.' && s.len() - 1 - j >= 2 && (forall|
                k: int,
            | j < k < s.len() ==> #[trigger] s[k] != '.')) <==> s.len() - 1 - ld >= 2,
{
    let n = s.len() as int;
    if exists|j: int|
        start <= j < n && #[trigger] s[j] == '.' && n - 1 - j >= 2 && (forall|k: int|
            j < k < n ==> #[trigger] s[k] != '.') {
        let j = choose|j: int|
            start <= j < n && #[trigger] s[j] == '.' && n - 1 - j >= 2 && (forall|k: int|
                j < k < n ==> #[trigger] s[k] != '.');
        if j < ld {
            assert(s[ld] != '.');
            assert(false);
        }
        if j > ld {
            assert(s[j] != '.');
            assert(false);
        }
    }
}

/// Executable twin of [`is_word_char`].
pub fn is_word_char_exec(c: char) -> (r: bool)
    ensures
        r == is_word_char(c),
{
    let u = c as u32;
    (97 <= u && u <= 122) || (65 <= u && u <= 90) || (48 <= u && u <= 57) || c == '_'
}

/// Executable twin of [`is_local_char`].
pub fn is_local_char_exec(c: char) -> (r: bool)
    ensures
        r == is_local_char(c),
{
    is_word_char_exec(c) || c == '.' || c == '+' || c == '-'
}

/// Decides whether the whole string has the email shape; see
/// [`valid_email`].
pub fn is_valid_email(s: &str) -> (r: bool)
    ensures
        r == valid_email(s@),
{
    let n = s.unicode_len();
    // the only possible split is at the first '@'
    let mut at: usize = 0;
    while at < n && s.get_char(at) != '@'
        invariant
            n == s@.len(),
            0 <= at <= n,
            forall|k: int| 0 <= k < at ==> #[trigger] s@[k] != '@',
        decreases n - at,
    {
        at = at + 1;
    }
    if at == n {
        return false;
    }
    if at == 0 {
        proof {
            lemma_email_candidate(s@, 0);
        }
        return false;
    }
    let mut i: usize = 0;
    while i < at
        invariant
            n == s@.len(),
            0 <= i <= at < n,
            s@[at as int] == '@',
            forall|k: int| 0 <= k < at ==> #[trigger] s@[k] != '@',
            forall|k: int| 0 <= k < i ==> is_local_char(#[trigger] s@[k]),
        decreases at - i,
    {
        if !is_local_char_exec(s.get_char(i)) {
            proof {
                lemma_email_candidate(s@, at as int);
            }
            return false;
        }
        i = i + 1;
    }
    let start = at + 1;
    if start == n {
        proof {
            lemma_email_candidate(s@, at as int);
        }
        return false;
    }
    let mut j: usize = start;
    let mut last_dot: usize = 0;
    let mut has_dot = false;
    let mut prev_dot = false;
    while j < n
        invariant
            n == s@.len(),
            0 < at < start <= j <= n,
            start == at + 1,
            start < n,
            s@[at as int] == '@',
            forall|k: int| 0 <= k < at ==> #[trigger] s@[k] != '@',
            forall|k: int| 0 <= k < at ==> is_local_char(#[trigger] s@[k]),
            forall|k: int| start <= k < j ==> is_word_char(#[trigger] s@[k]) || s@[k] == '.',
            j > start ==> s@[start as int] != '.',
            forall|k: int| start <= k < j - 1 ==> !(#[trigger] s@[k] == '.' && s@[k + 1] == '.'),
            has_dot ==> start <= last_dot < j && s@[last_dot as int] == '.' && (forall|k: int|
                last_dot < k < j ==> #[trigger] s@[k] != '.'),
            !has_dot ==> forall|k: int| start <= k < j ==> #[trigger] s@[k] != '.',
            prev_dot == (j > start && s@[j - 1] == '.'),
        decreases n - j,
    {
        let c = s.get_char(j);
        if c == '.' {
            if j == start || prev_dot {
                proof {
                    lemma_email_candidate(s@, at as int);
                }
                return false;
            }
            last_dot = j;
            has_dot = true;
            prev_dot = true;
        } else if is_word_char_exec(c) {
            prev_dot = false;
        } else {
            proof {
                lemma_email_candidate(s@, at as int);
            }
            return false;
        }
        j = j + 1;
    }
    if prev_dot {
        proof {
            lemma_email_candidate(s@, at as int);
        }
        return false;
    }
    if !has_dot {
        proof {
            lemma_email_candidate(s@, at as int);
        }
        return false;
    }
    if n - 1 - last_dot < 2 {
        proof {
            lemma_last_dot(s@, start as int, last_dot as int);
            lemma_email_candidate(s@, at as int);
        }
        return false;
    }
    proof {
        lemma_last_dot(s@, start as int, last_dot as int);
        assert(domain_ok_from(s@, start as int));
        assert(valid_email(s@));
    }
    true
}

} // verus!
