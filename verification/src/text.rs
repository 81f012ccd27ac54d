//! Character-level scanning shared by the framer and the request parser.
//!
//! Texts are modelled as `Seq<char>`; the executable functions work on
//! `&[char]` and return indices or sub-slices of their argument.

use vstd::prelude::*;
use vstd::slice::slice_subrange;

verus! {

/// The characters with the Unicode `White_Space` property.
pub open spec fn is_space(c: char) -> bool {
    let u = c as u32;
    ||| 0x09 <= u <= 0x0d
    ||| u == 0x20
    ||| u == 0x85
    ||| u == 0xa0
    ||| u == 0x1680
    ||| 0x2000 <= u <= 0x200a
    ||| u == 0x2028
    ||| u == 0x2029
    ||| u == 0x202f
    ||| u == 0x205f
    ||| u == 0x3000
}

/// Tells whether `c` is white space.
pub fn is_whitespace(c: char) -> (b: bool)
    ensures
        b == is_space(c),
{
    let u: u32 = c as u32;
    (0x09 <= u && u <= 0x0d) || u == 0x20 || u == 0x85 || u == 0xa0 || u == 0x1680 || (0x2000 <= u
        && u <= 0x200a) || u == 0x2028 || u == 0x2029 || u == 0x202f || u == 0x205f || u == 0x3000
}

/// A set of characters that a scan looks for.
#[derive(Clone, Copy, Debug)]
pub enum CharClass {
    /// One given character.
    Exactly(char),
    /// Any white space.
    Space,
    /// Anything but white space.
    Visible,
}

impl CharClass {
    /// Whether `c` belongs to the class.
    pub open spec fn holds(self, c: char) -> bool {
        match self {
            CharClass::Exactly(x) => c == x,
            CharClass::Space => is_space(c),
            CharClass::Visible => !is_space(c),
        }
    }

    /// Tells whether `c` belongs to the class.
    pub fn has(&self, c: char) -> (b: bool)
        ensures
            b == self.holds(c),
    {
        match self {
            CharClass::Exactly(x) => c == *x,
            CharClass::Space => is_whitespace(c),
            CharClass::Visible => !is_whitespace(c),
        }
    }
}

/// The least index at or after `from` whose character is in `class`, or the
/// length of `s` when there is none.
pub open spec fn first_in(s: Seq<char>, class: CharClass, from: int) -> int
    decreases s.len() - from,
{
    if from >= s.len() {
        s.len() as int
    } else if from >= 0 && class.holds(s[from]) {
        from
    } else {
        first_in(s, class, from + 1)
    }
}

/// `first_in` lands between `from` and the end, on a character of the class,
/// and passes over none.
pub proof fn lemma_first_in(s: Seq<char>, class: CharClass, from: int)
    requires
        0 <= from <= s.len(),
    ensures
        from <= first_in(s, class, from) <= s.len(),
        first_in(s, class, from) < s.len() ==> class.holds(s[first_in(s, class, from)]),
        forall|j: int| from <= j < first_in(s, class, from) ==> !class.holds(#[trigger] s[j]),
    decreases s.len() - from,
{
    if from < s.len() && !class.holds(s[from]) {
        lemma_first_in(s, class, from + 1);
    }
}

/// An index `at` that holds a character of the class, with none between
/// `from` and `at`, is the one `first_in` gives.
pub proof fn lemma_first_in_is(s: Seq<char>, class: CharClass, from: int, at: int)
    requires
        0 <= from <= at <= s.len(),
        at < s.len() ==> class.holds(s[at]),
        forall|j: int| from <= j < at ==> !class.holds(#[trigger] s[j]),
    ensures
        first_in(s, class, from) == at,
    decreases at - from,
{
    if from < at {
        lemma_first_in_is(s, class, from + 1, at);
    }
}

/// Scans `s` from `from` for the first character of `class`. The answer is
/// the length of `s` when there is none, and when `from` lies behind the
/// end.
pub fn find_in(s: &[char], class: CharClass, from: usize) -> (at: usize)
    ensures
        at == first_in(s@, class, from as int),
        at <= s@.len(),
        from <= s@.len() ==> from <= at,
{
    if from >= s.len() {
        return s.len();
    }
    let mut i: usize = from;
    while i < s.len() && !class.has(s[i])
        invariant
            from <= i <= s@.len(),
            forall|j: int| from <= j < i ==> !class.holds(#[trigger] s@[j]),
        decreases s@.len() - i,
    {
        i += 1;
    }
    proof {
        lemma_first_in_is(s@, class, from as int, i as int);
    }
    i
}

/// One past the greatest index below `upto` whose character is in `class`,
/// or 0 when there is none.
pub open spec fn last_in(s: Seq<char>, class: CharClass, upto: int) -> int
    decreases upto,
{
    if upto <= 0 {
        0
    } else if upto <= s.len() && class.holds(s[upto - 1]) {
        upto
    } else {
        last_in(s, class, upto - 1)
    }
}

/// An end `at` just behind a character of the class, with none between `at`
/// and `upto`, is the one `last_in` gives.
pub proof fn lemma_last_in_is(s: Seq<char>, class: CharClass, upto: int, at: int)
    requires
        0 <= at <= upto <= s.len(),
        at > 0 ==> class.holds(s[at - 1]),
        forall|j: int| at <= j < upto ==> !class.holds(#[trigger] s[j]),
    ensures
        last_in(s, class, upto) == at,
    decreases upto - at,
{
    if at < upto {
        lemma_last_in_is(s, class, upto - 1, at);
    }
}

/// Indices behind the end of `s` hold nothing: a backward scan from there
/// is a backward scan from the end.
pub proof fn lemma_last_in_beyond(s: Seq<char>, class: CharClass, upto: int)
    requires
        s.len() <= upto,
    ensures
        last_in(s, class, upto) == last_in(s, class, s.len() as int),
    decreases upto - s.len(),
{
    if s.len() < upto {
        lemma_last_in_beyond(s, class, upto - 1);
    }
}

/// Scans `s` backwards from `upto` for the last character of `class`. The
/// answer is one past its index, or 0 when there is none.
pub fn rfind_in(s: &[char], class: CharClass, upto: usize) -> (at: usize)
    ensures
        at == last_in(s@, class, upto as int),
        at <= upto,
        at <= s@.len(),
{
    let top: usize = if upto <= s.len() {
        upto
    } else {
        s.len()
    };
    let mut i: usize = top;
    while i > 0 && !class.has(s[i - 1])
        invariant
            i <= top <= s@.len(),
            forall|j: int| i <= j < top ==> !class.holds(#[trigger] s@[j]),
        decreases i,
    {
        i -= 1;
    }
    proof {
        lemma_last_in_is(s@, class, top as int, i as int);
        if upto > s@.len() {
            lemma_last_in_beyond(s@, class, upto as int);
        }
    }
    i
}

/// `s` without its leading white space.
pub open spec fn trim_start(s: Seq<char>) -> Seq<char> {
    s.skip(first_in(s, CharClass::Visible, 0))
}

/// `s` without its leading and trailing white space.
pub open spec fn trim(s: Seq<char>) -> Seq<char> {
    let from = first_in(s, CharClass::Visible, 0);
    let to = last_in(s, CharClass::Visible, s.len() as int);
    if from < to {
        s.subrange(from, to)
    } else {
        Seq::empty()
    }
}

/// The part of `s` behind its leading white space.
pub fn trimmed_start<'a>(s: &'a [char]) -> (out: &'a [char])
    ensures
        out@ == trim_start(s@),
{
    let from = find_in(s, CharClass::Visible, 0);
    slice_subrange(s, from, s.len())
}

/// The part of `s` between its leading and its trailing white space.
pub fn trimmed<'a>(s: &'a [char]) -> (out: &'a [char])
    ensures
        out@ == trim(s@),
{
    let from = find_in(s, CharClass::Visible, 0);
    let to = rfind_in(s, CharClass::Visible, s.len());
    if from < to {
        slice_subrange(s, from, to)
    } else {
        slice_subrange(s, 0, 0)
    }
}

/// The views of a vector of slices, in order.
pub open spec fn views(v: Seq<&[char]>) -> Seq<Seq<char>> {
    Seq::new(v.len(), |i: int| v[i]@)
}

/// `s` without one trailing carriage return.
pub open spec fn strip_cr(s: Seq<char>) -> Seq<char> {
    if s.len() > 0 && s.last() == '\r' {
        s.drop_last()
    } else {
        s
    }
}

/// The lines of `s` from index `from` on. A line ends at a line feed; the
/// line feed and a carriage return just before it are not part of the line.
/// What follows the last line feed is a line of its own unless it is empty.
pub open spec fn lines_from(s: Seq<char>, from: int) -> Seq<Seq<char>>
    decreases s.len() - from,
{
    if from < 0 || from >= s.len() {
        Seq::empty()
    } else {
        let end = first_in(s, CharClass::Exactly('\n'), from);
        proof {
            lemma_first_in(s, CharClass::Exactly('\n'), from);
        }
        if end >= s.len() {
            seq![s.subrange(from, s.len() as int)]
        } else {
            seq![strip_cr(s.subrange(from, end))] + lines_from(s, end + 1)
        }
    }
}

/// The lines of `s`.
pub open spec fn lines(s: Seq<char>) -> Seq<Seq<char>> {
    lines_from(s, 0)
}

/// Splits `s` into its lines.
pub fn split_lines<'a>(s: &'a [char]) -> (out: Vec<&'a [char]>)
    ensures
        views(out@) == lines(s@),
{
    let mut out: Vec<&'a [char]> = Vec::new();
    let mut i: usize = 0;
    while i < s.len()
        invariant
            i <= s@.len(),
            views(out@) + lines_from(s@, i as int) == lines(s@),
        decreases s@.len() - i,
    {
        let ghost before = out@;
        let end = find_in(s, CharClass::Exactly('\n'), i);
        if end >= s.len() {
            let line = slice_subrange(s, i, s.len());
            out.push(line);
            proof {
                assert(views(out@) =~= views(before) + seq![line@]);
                assert(lines_from(s@, s@.len() as int) =~= Seq::<Seq<char>>::empty());
                assert(views(out@) + lines_from(s@, s@.len() as int) =~= views(before)
                    + lines_from(s@, i as int));
            }
            i = s.len();
        } else {
            let mut stop: usize = end;
            if stop > i && s[stop - 1] == '\r' {
                stop -= 1;
            }
            let line = slice_subrange(s, i, stop);
            out.push(line);
            proof {
                let whole = s@.subrange(i as int, end as int);
                assert(line@ =~= strip_cr(whole)) by {
                    if whole.len() > 0 && whole.last() == '\r' {
                        assert(whole.drop_last() =~= s@.subrange(i as int, end as int - 1));
                    }
                }
                assert(views(out@) =~= views(before) + seq![line@]);
                assert(views(out@) + lines_from(s@, end as int + 1) =~= views(before)
                    + lines_from(s@, i as int));
            }
            i = end + 1;
        }
    }
    proof {
        assert(views(out@) + lines_from(s@, i as int) =~= views(out@));
    }
    out
}

/// The maximal runs of visible characters of `s` from index `from` on.
pub open spec fn tokens_from(s: Seq<char>, from: int) -> Seq<Seq<char>>
    decreases s.len() - from,
{
    let start = first_in(s, CharClass::Visible, from);
    if from < 0 || start >= s.len() {
        Seq::empty()
    } else {
        let end = first_in(s, CharClass::Space, start);
        proof {
            lemma_first_in(s, CharClass::Visible, from);
            lemma_first_in(s, CharClass::Space, start);
        }
        seq![s.subrange(start, end)] + tokens_from(s, end)
    }
}

/// The words of `s`: its maximal runs of characters that are not white space.
pub open spec fn tokens(s: Seq<char>) -> Seq<Seq<char>> {
    tokens_from(s, 0)
}

/// Splits `s` at white space into its words.
pub fn split_tokens<'a>(s: &'a [char]) -> (out: Vec<&'a [char]>)
    ensures
        views(out@) == tokens(s@),
{
    let mut out: Vec<&'a [char]> = Vec::new();
    let mut i: usize = 0;
    loop
        invariant
            i <= s@.len(),
            views(out@) + tokens_from(s@, i as int) == tokens(s@),
        ensures
            views(out@) == tokens(s@),
        decreases s@.len() - i,
    {
        let ghost before = out@;
        let start = find_in(s, CharClass::Visible, i);
        if start >= s.len() {
            proof {
                assert(views(out@) + tokens_from(s@, i as int) =~= views(out@));
            }
            break;
        }
        let end = find_in(s, CharClass::Space, start);
        proof {
            lemma_first_in(s@, CharClass::Visible, i as int);
            lemma_first_in(s@, CharClass::Space, start as int);
        }
        let word = slice_subrange(s, start, end);
        out.push(word);
        proof {
            assert(views(out@) =~= views(before) + seq![word@]);
            assert(views(out@) + tokens_from(s@, end as int) =~= views(before) + tokens_from(
                s@,
                i as int,
            ));
        }
        i = end;
    }
    out
}

/// The pieces of `s` from index `from` on that the separator `sep` parts.
/// There is one piece more than there are separators; a piece may be empty.
pub open spec fn split_from(s: Seq<char>, sep: char, from: int) -> Seq<Seq<char>>
    decreases s.len() - from,
{
    if from < 0 || from > s.len() {
        Seq::empty()
    } else {
        let end = first_in(s, CharClass::Exactly(sep), from);
        proof {
            lemma_first_in(s, CharClass::Exactly(sep), from);
        }
        if end >= s.len() {
            seq![s.subrange(from, s.len() as int)]
        } else {
            seq![s.subrange(from, end)] + split_from(s, sep, end + 1)
        }
    }
}

/// The pieces of `s` between the occurrences of `sep`.
pub open spec fn split(s: Seq<char>, sep: char) -> Seq<Seq<char>> {
    split_from(s, sep, 0)
}

/// Splits `s` at each occurrence of `sep`.
pub fn split_at_char<'a>(s: &'a [char], sep: char) -> (out: Vec<&'a [char]>)
    ensures
        views(out@) == split(s@, sep),
{
    let mut out: Vec<&'a [char]> = Vec::new();
    let mut i: usize = 0;
    loop
        invariant_except_break
            views(out@) + split_from(s@, sep, i as int) == split(s@, sep),
        invariant
            i <= s@.len(),
        ensures
            views(out@) == split(s@, sep),
        decreases s@.len() - i,
    {
        let ghost before = out@;
        let end = find_in(s, CharClass::Exactly(sep), i);
        if end >= s.len() {
            let piece = slice_subrange(s, i, s.len());
            out.push(piece);
            proof {
                assert(views(out@) =~= views(before) + seq![piece@]);
            }
            break;
        }
        let piece = slice_subrange(s, i, end);
        out.push(piece);
        proof {
            assert(views(out@) =~= views(before) + seq![piece@]);
            assert(views(out@) + split_from(s@, sep, end as int + 1) =~= views(before)
                + split_from(s@, sep, i as int));
        }
        i = end + 1;
    }
    out
}

/// Whether `pat` stands in `s` at index `at`.
pub open spec fn occurs_at(s: Seq<char>, pat: Seq<char>, at: int) -> bool {
    0 <= at && at + pat.len() <= s.len() && s.subrange(at, at + pat.len()) == pat
}

/// Whether `s` begins with `pat`.
pub open spec fn starts_with(s: Seq<char>, pat: Seq<char>) -> bool {
    occurs_at(s, pat, 0)
}

/// The least index at or after `from` at which `pat` stands in `s`.
pub open spec fn search(s: Seq<char>, pat: Seq<char>, from: int) -> Option<int>
    decreases s.len() - from,
{
    if from < 0 || from + pat.len() > s.len() {
        None
    } else if occurs_at(s, pat, from) {
        Some(from)
    } else {
        proof {
            if pat.len() == 0 {
                assert(s.subrange(from, from) =~= pat);
            }
        }
        search(s, pat, from + 1)
    }
}

/// What `search` finds is an occurrence at or after `from`, and the first
/// such.
pub proof fn lemma_search(s: Seq<char>, pat: Seq<char>, from: int)
    requires
        0 <= from,
    ensures
        match search(s, pat, from) {
            Some(at) => from <= at && occurs_at(s, pat, at) && forall|j: int|
                from <= j < at ==> !occurs_at(s, pat, j),
            None => forall|j: int| from <= j ==> !occurs_at(s, pat, j),
        },
    decreases s.len() - from,
{
    if from + pat.len() > s.len() {
    } else if occurs_at(s, pat, from) {
    } else {
        if pat.len() == 0 {
            assert(s.subrange(from, from) =~= pat);
        }
        lemma_search(s, pat, from + 1);
    }
}

/// Tells whether `pat` stands in `s` at index `at`.
pub fn matches_at(s: &[char], pat: &[char], at: usize) -> (b: bool)
    ensures
        b == occurs_at(s@, pat@, at as int),
{
    if at > s.len() || pat.len() > s.len() - at {
        return false;
    }
    let mut k: usize = 0;
    while k < pat.len()
        invariant
            k <= pat@.len(),
            at + pat@.len() <= s@.len() <= usize::MAX,
            forall|j: int| 0 <= j < k ==> s@[at + j] == pat@[j],
        decreases pat@.len() - k,
    {
        if s[at + k] != pat[k] {
            proof {
                assert(s@.subrange(at as int, at + pat@.len())[k as int] == s@[at + k]);
            }
            return false;
        }
        k += 1;
    }
    proof {
        assert(s@.subrange(at as int, at + pat@.len()) =~= pat@);
    }
    true
}

/// Tells whether `a` and `b` hold the same characters.
pub fn same_chars(a: &[char], b: &[char]) -> (same: bool)
    ensures
        same == (a@ == b@),
{
    if a.len() != b.len() {
        return false;
    }
    let same = matches_at(a, b, 0);
    proof {
        assert(a@.subrange(0, a@.len() as int) =~= a@);
    }
    same
}

/// Tells whether `s` begins with `pat`.
pub fn has_prefix(s: &[char], pat: &[char]) -> (b: bool)
    ensures
        b == starts_with(s@, pat@),
{
    matches_at(s, pat, 0)
}

/// Looks for the first place at or after `from` where `pat` stands in `s`.
pub fn find(s: &[char], pat: &[char], from: usize) -> (at: Option<usize>)
    ensures
        match at {
            Some(i) => search(s@, pat@, from as int) == Some(i as int) && from <= i && i
                + pat@.len() <= s@.len() <= usize::MAX,
            None => search(s@, pat@, from as int) is None,
        },
{
    proof {
        lemma_search(s@, pat@, from as int);
    }
    if pat.len() > s.len() || from > s.len() - pat.len() {
        return None;
    }
    let last: usize = s.len() - pat.len();
    let mut i: usize = from;
    loop
        invariant
            from <= i <= last,
            last == s@.len() - pat@.len(),
            s@.len() <= usize::MAX,
            search(s@, pat@, i as int) == search(s@, pat@, from as int),
        decreases last - i,
    {
        if matches_at(s, pat, i) {
            return Some(i);
        }
        if i == last {
            proof {
                assert(search(s@, pat@, i as int + 1) is None);
            }
            return None;
        }
        i += 1;
    }
}

/// `String::push`: the string grows by the one character `c` at its end.
#[verifier::external_body]
fn push_char(s: &mut String, c: char)
    ensures
        final(s)@ == old(s)@.push(c),
{
    s.push(c);
}

/// The characters of `s`, in order.
pub fn chars_of(s: &str) -> (v: Vec<char>)
    ensures
        v@ == s@,
{
    let mut v: Vec<char> = Vec::new();
    for c in it: s.chars()
        invariant
            v@ == it.seq().take(it.index() as int),
    {
        v.push(c);
    }
    v
}

/// Appends the characters of `s` to `out`.
pub fn push_all(out: &mut Vec<char>, s: &[char])
    ensures
        final(out)@ == old(out)@ + s@,
{
    let mut i: usize = 0;
    while i < s.len()
        invariant
            i <= s@.len(),
            out@ == old(out)@ + s@.take(i as int),
        decreases s@.len() - i,
    {
        out.push(s[i]);
        proof {
            assert(s@.take(i as int).push(s@[i as int]) =~= s@.take(i as int + 1));
        }
        i += 1;
    }
    proof {
        assert(s@.take(s@.len() as int) =~= s@);
    }
}

/// Appends the characters of `s` to `out`.
pub fn push_str(out: &mut Vec<char>, s: &str)
    ensures
        final(out)@ == old(out)@ + s@,
{
    let chars = chars_of(s);
    push_all(out, chars.as_slice());
}

/// The string made of the characters of `s`, in order.
pub fn string_of(s: &[char]) -> (out: String)
    ensures
        out@ == s@,
{
    let mut out = String::new();
    let mut i: usize = 0;
    while i < s.len()
        invariant
            i <= s@.len(),
            out@ == s@.take(i as int),
        decreases s@.len() - i,
    {
        push_char(&mut out, s[i]);
        proof {
            assert(s@.take(i as int).push(s@[i as int]) =~= s@.take(i as int + 1));
        }
        i += 1;
    }
    proof {
        assert(s@.take(s@.len() as int) =~= s@);
    }
    out
}

} // verus!
