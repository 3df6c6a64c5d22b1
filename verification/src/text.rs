use vstd::prelude::*;

verus! {

broadcast use vstd::string::group_string_axioms;

// ---------------------------------------------------------------------------
// Models
// ---------------------------------------------------------------------------

/// Unicode `White_Space`, the set of characters that `char::is_whitespace` accepts
/// and that `str::trim` and `str::split_whitespace` treat as blanks.
pub open spec fn is_white_space(c: char) -> bool {
    let u = c as u32;
    ||| 0x9 <= u <= 0xd
    ||| u == 0x20
    ||| u == 0x85
    ||| u == 0xa0
    ||| u == 0x1680
    ||| 0x2000 <= u <= 0x200a
    ||| u == 0x2028
    ||| u == 0x2029
    ||| u == 0x202f
    ||| u == 0x205f
    ||| u == 0x3000
}

/// `s` without its leading white space.
pub open spec fn trim_start(s: Seq<char>) -> Seq<char>
    decreases s.len(),
{
    if s.len() > 0 && is_white_space(s[0]) {
        trim_start(s.drop_first())
    } else {
        s
    }
}

/// `s` without its trailing white space.
pub open spec fn trim_end(s: Seq<char>) -> Seq<char>
    decreases s.len(),
{
    if s.len() > 0 && is_white_space(s.last()) {
        trim_end(s.drop_last())
    } else {
        s
    }
}

/// `s` without leading and trailing white space, as `str::trim` gives it.
pub open spec fn trim(s: Seq<char>) -> Seq<char> {
    trim_end(trim_start(s))
}

/// `needle` occurs in `s` starting at position `k`.
pub open spec fn occurs_at(s: Seq<char>, needle: Seq<char>, k: int) -> bool {
    &&& 0 <= k
    &&& k + needle.len() <= s.len()
    &&& s.subrange(k, k + needle.len()) == needle
}

/// `needle` occurs somewhere in `s` (`str::contains` with a string pattern).
pub open spec fn contains(s: Seq<char>, needle: Seq<char>) -> bool {
    exists|k: int| occurs_at(s, needle, k)
}

/// A line that ends in a carriage return loses it.
pub open spec fn strip_cr(line: Seq<char>) -> Seq<char> {
    if line.len() > 0 && line.last() == '\r' {
        line.drop_last()
    } else {
        line
    }
}

/// The lines of `s` once `cur` has been read of the current line: a line ends at each
/// line feed (and loses a carriage return just before it); a last line with no line
/// feed after it counts when it is not empty.
pub open spec fn lines_from(s: Seq<char>, cur: Seq<char>) -> Seq<Seq<char>>
    decreases s.len(),
{
    if s.len() == 0 {
        if cur.len() == 0 {
            Seq::empty()
        } else {
            seq![cur]
        }
    } else if s[0] == '\n' {
        seq![strip_cr(cur)] + lines_from(s.drop_first(), Seq::empty())
    } else {
        lines_from(s.drop_first(), cur.push(s[0]))
    }
}

/// The lines of `s`, as `str::lines` yields them.
pub open spec fn lines(s: Seq<char>) -> Seq<Seq<char>> {
    lines_from(s, Seq::empty())
}

/// The words of `s` once `cur` has been read of the current word: maximal runs of
/// characters that are not white space.
pub open spec fn words_from(s: Seq<char>, cur: Seq<char>) -> Seq<Seq<char>>
    decreases s.len(),
{
    if s.len() == 0 {
        if cur.len() == 0 {
            Seq::empty()
        } else {
            seq![cur]
        }
    } else if is_white_space(s[0]) {
        (if cur.len() == 0 {
            Seq::empty()
        } else {
            seq![cur]
        }) + words_from(s.drop_first(), Seq::empty())
    } else {
        words_from(s.drop_first(), cur.push(s[0]))
    }
}

/// The words of `s`, as `str::split_whitespace` yields them.
pub open spec fn words(s: Seq<char>) -> Seq<Seq<char>> {
    words_from(s, Seq::empty())
}

/// The pieces of `s` between occurrences of `sep`, once `cur` has been read of the
/// current piece.
pub open spec fn pieces_from(s: Seq<char>, sep: char, cur: Seq<char>) -> Seq<Seq<char>>
    decreases s.len(),
{
    if s.len() == 0 {
        seq![cur]
    } else if s[0] == sep {
        seq![cur] + pieces_from(s.drop_first(), sep, Seq::empty())
    } else {
        pieces_from(s.drop_first(), sep, cur.push(s[0]))
    }
}

/// The pieces of `s` between occurrences of `sep`, as `str::split` with a `char` yields them.
pub open spec fn pieces(s: Seq<char>, sep: char) -> Seq<Seq<char>> {
    pieces_from(s, sep, Seq::empty())
}

/// `c` with an ASCII upper-case letter made lower-case.
pub open spec fn ascii_lower(c: char) -> char {
    if 65 <= (c as u32) <= 90 {
        ((c as u32) + 32) as char
    } else {
        c
    }
}

/// `s` with every ASCII upper-case letter made lower-case (`str::to_ascii_lowercase`).
pub open spec fn ascii_lowercase(s: Seq<char>) -> Seq<char> {
    s.map_values(|c: char| ascii_lower(c))
}

/// `c` with an ASCII lower-case letter made upper-case.
pub open spec fn ascii_upper(c: char) -> char {
    if 97 <= (c as u32) <= 122 {
        ((c as u32) - 32) as char
    } else {
        c
    }
}

/// `s` with every ASCII lower-case letter made upper-case (`str::to_ascii_uppercase`).
pub open spec fn ascii_uppercase(s: Seq<char>) -> Seq<char> {
    s.map_values(|c: char| ascii_upper(c))
}

/// Lower-casing forgets what upper-casing did: the ASCII case of the text does not
/// matter once it is lower-cased.
pub proof fn lemma_lowercase_ignores_case(s: Seq<char>)
    ensures
        ascii_lowercase(ascii_uppercase(s)) == ascii_lowercase(s),
{
    assert forall|i: int| 0 <= i < s.len() implies ascii_lower(ascii_upper(s[i])) == ascii_lower(s[i]) by {
        let c = s[i];
        let u = c as u32;
        if 97 <= u <= 122 {
            let up = (u - 32) as char;
            vstd::utf8::char_u32_cast(c, u);
            assert(up as u32 == u - 32);
            assert((u as int) as char == c);
            assert(((up as u32) + 32) as char == c);
        }
    }
    assert(ascii_lowercase(ascii_uppercase(s)) =~= ascii_lowercase(s));
}

/// The views of a sequence of character vectors.
pub open spec fn views(vs: Seq<Vec<char>>) -> Seq<Seq<char>> {
    vs.map_values(|v: Vec<char>| v@)
}

// ---------------------------------------------------------------------------
// Building strings
// ---------------------------------------------------------------------------

/// Appends one character to a string (`String::push`); the contract claims that the
/// string afterwards is the old one followed by `c`, as std documents.
#[verifier::external_body]
pub fn push_char(s: &mut String, c: char)
    ensures
        final(s)@ == old(s)@.push(c),
{
    s.push(c);
}

/// The characters of a string slice, collected into a vector.
pub fn chars_of(s: &str) -> (v: Vec<char>)
    ensures
        v@ == s@,
{
    let mut v: Vec<char> = Vec::new();
    for c in it: s.chars()
        invariant
            v@ == it.seq().take(it.index() as int),
            it.seq() == s@,
    {
        v.push(c);
    }
    v
}

/// The string made of the characters `v[lo..hi]`.
pub fn string_of_range(v: &Vec<char>, lo: usize, hi: usize) -> (s: String)
    requires
        lo <= hi <= v.len(),
    ensures
        s@ == v@.subrange(lo as int, hi as int),
{
    let mut s = String::new();
    let mut i = lo;
    while i < hi
        invariant
            lo <= i <= hi <= v.len(),
            s@ == v@.subrange(lo as int, i as int),
        decreases hi - i,
    {
        push_char(&mut s, v[i]);
        assert(v@.subrange(lo as int, i + 1) =~= v@.subrange(lo as int, i as int).push(v@[i as int]));
        i += 1;
    }
    s
}

/// The string made of the characters of `v`.
pub fn string_of(v: &Vec<char>) -> (s: String)
    ensures
        s@ == v@,
{
    let s = string_of_range(v, 0, v.len());
    assert(v@.subrange(0, v@.len() as int) =~= v@);
    s
}

/// `a` followed by `b`.
pub fn concat_str(a: String, b: &str) -> (s: String)
    ensures
        s@ == a@ + b@,
{
    let mut s = a;
    s.append(b);
    s
}

// ---------------------------------------------------------------------------
// Character tests
// ---------------------------------------------------------------------------

/// Whether `c` is white space (`char::is_whitespace`).
pub fn white_space(c: char) -> (b: bool)
    ensures
        b == is_white_space(c),
{
    let u = c as u32;
    (0x9 <= u && u <= 0xd) || u == 0x20 || u == 0x85 || u == 0xa0 || u == 0x1680 || (0x2000
        <= u && u <= 0x200a) || u == 0x2028 || u == 0x2029 || u == 0x202f || u == 0x205f || u
        == 0x3000
}

/// `c` with an ASCII upper-case letter made lower-case.
pub fn lower_char(c: char) -> (r: char)
    ensures
        r == ascii_lower(c),
{
    let u = c as u32;
    if 65 <= u && u <= 90 {
        let b: u8 = (u + 32) as u8;
        b as char
    } else {
        c
    }
}


// ---------------------------------------------------------------------------
// Comparing and searching
// ---------------------------------------------------------------------------

/// Whether `a` and `b` hold the same characters.
pub fn same_chars(a: &Vec<char>, b: &Vec<char>) -> (r: bool)
    ensures
        r == (a@ == b@),
{
    if a.len() != b.len() {
        return false;
    }
    let mut i: usize = 0;
    while i < a.len()
        invariant
            a.len() == b.len(),
            i <= a.len(),
            forall|j: int| 0 <= j < i ==> a@[j] == b@[j],
        decreases a.len() - i,
    {
        if a[i] != b[i] {
            return false;
        }
        i += 1;
    }
    assert(a@ =~= b@);
    true
}

/// Whether `needle` occurs in `s` at position `k`.
fn occurs_at_exec(s: &Vec<char>, needle: &Vec<char>, k: usize) -> (r: bool)
    ensures
        r == occurs_at(s@, needle@, k as int),
{
    if k > s.len() || needle.len() > s.len() - k {
        return false;
    }
    let mut j: usize = 0;
    while j < needle.len()
        invariant
            k + needle.len() <= s.len(),
            j <= needle.len(),
            forall|i: int| 0 <= i < j ==> s@[k + i] == needle@[i],
        decreases needle.len() - j,
    {
        if s[k + j] != needle[j] {
            assert(s@.subrange(k as int, k + needle.len())[j as int] != needle@[j as int]);
            return false;
        }
        j += 1;
    }
    assert(s@.subrange(k as int, k + needle.len()) =~= needle@);
    true
}

/// Trimming cuts white space, and only white space, from the two ends: the result is a
/// stretch of `s`, everything before and after it is white space, and it neither starts
/// nor ends with white space.
pub proof fn lemma_trim_cuts_only_white_space(s: Seq<char>)
    ensures
        exists|a: int, b: int|
            0 <= a <= b <= s.len() && trim(s) == s.subrange(a, b) && (forall|i: int|
                0 <= i < a ==> is_white_space(#[trigger] s[i])) && (forall|i: int|
                b <= i < s.len() ==> is_white_space(#[trigger] s[i])),
        trim(s).len() > 0 ==> !is_white_space(trim(s)[0]) && !is_white_space(trim(s).last()),
{
    let a = lemma_trim_start_cut(s);
    let t = s.subrange(a, s.len() as int);
    let b = lemma_trim_end_cut(t);
    assert(trim(s) == s.subrange(a, a + b)) by {
        assert(t.subrange(0, b) =~= s.subrange(a, a + b));
    }
    assert forall|i: int| a + b <= i < s.len() implies is_white_space(#[trigger] s[i]) by {
        assert(s[i] == t[i - a]);
    }
    if trim(s).len() > 0 {
        assert(trim(s)[0] == t[0]);
    }
}

proof fn lemma_trim_start_cut(s: Seq<char>) -> (a: int)
    ensures
        0 <= a <= s.len(),
        trim_start(s) == s.subrange(a, s.len() as int),
        forall|i: int| 0 <= i < a ==> is_white_space(#[trigger] s[i]),
        a < s.len() ==> !is_white_space(s[a]),
    decreases s.len(),
{
    if s.len() > 0 && is_white_space(s[0]) {
        let a = lemma_trim_start_cut(s.drop_first());
        assert(s.drop_first().subrange(a, s.len() - 1) =~= s.subrange(a + 1, s.len() as int));
        assert forall|i: int| 0 <= i < a + 1 implies is_white_space(#[trigger] s[i]) by {
            if i > 0 {
                assert(s[i] == s.drop_first()[i - 1]);
            }
        }
        if a + 1 < s.len() {
            assert(s[a + 1] == s.drop_first()[a]);
        }
        a + 1
    } else {
        assert(s.subrange(0, s.len() as int) =~= s);
        0
    }
}

proof fn lemma_trim_end_cut(s: Seq<char>) -> (b: int)
    ensures
        0 <= b <= s.len(),
        trim_end(s) == s.subrange(0, b),
        forall|i: int| b <= i < s.len() ==> is_white_space(#[trigger] s[i]),
        b > 0 ==> !is_white_space(s[b - 1]),
    decreases s.len(),
{
    if s.len() > 0 && is_white_space(s.last()) {
        let b = lemma_trim_end_cut(s.drop_last());
        assert(s.drop_last().subrange(0, b) =~= s.subrange(0, b));
        assert forall|i: int| b <= i < s.len() implies is_white_space(#[trigger] s[i]) by {
            if i < s.len() - 1 {
                assert(s[i] == s.drop_last()[i]);
            }
        }
        if b > 0 {
            assert(s[b - 1] == s.drop_last()[b - 1]);
        }
        b
    } else {
        assert(s.subrange(0, s.len() as int) =~= s);
        s.len() as int
    }
}

/// Every word is a non-empty run of characters none of which is white space.
pub proof fn lemma_words_hold_no_white_space(s: Seq<char>)
    ensures
        forall|k: int| 0 <= k < words(s).len() ==> (#[trigger] words(s)[k]).len() > 0 && forall|j: int|
            0 <= j < words(s)[k].len() ==> !is_white_space(words(s)[k][j]),
{
    lemma_words_from_blank_free(s, Seq::empty());
}

proof fn lemma_words_from_blank_free(s: Seq<char>, cur: Seq<char>)
    requires
        forall|j: int| 0 <= j < cur.len() ==> !is_white_space(cur[j]),
    ensures
        forall|k: int| 0 <= k < words_from(s, cur).len() ==> (#[trigger] words_from(s, cur)[k]).len() > 0
            && forall|j: int| 0 <= j < words_from(s, cur)[k].len() ==> !is_white_space(words_from(s, cur)[k][j]),
    decreases s.len(),
{
    if s.len() == 0 {
        if cur.len() > 0 {
            assert(words_from(s, cur) == seq![cur]);
            assert(words_from(s, cur)[0] == cur);
        }
    } else if is_white_space(s[0]) {
        lemma_words_from_blank_free(s.drop_first(), Seq::empty());
        let head: Seq<Seq<char>> = if cur.len() == 0 { Seq::empty() } else { seq![cur] };
        let tail = words_from(s.drop_first(), Seq::empty());
        assert(words_from(s, cur) == head + tail);
        assert forall|k: int| 0 <= k < words_from(s, cur).len() implies (#[trigger] words_from(s, cur)[k]).len() > 0
            && forall|j: int| 0 <= j < words_from(s, cur)[k].len() ==> !is_white_space(words_from(s, cur)[k][j]) by {
            if k < head.len() {
                assert(words_from(s, cur)[k] == cur);
            } else {
                assert(words_from(s, cur)[k] == tail[k - head.len()]);
            }
        }
    } else {
        let c2 = cur.push(s[0]);
        assert forall|j: int| 0 <= j < c2.len() implies !is_white_space(c2[j]) by {
            if j < cur.len() {
                assert(c2[j] == cur[j]);
            }
        }
        lemma_words_from_blank_free(s.drop_first(), c2);
        assert(words_from(s, cur) == words_from(s.drop_first(), c2));
    }
}

/// No line holds a line feed.
pub proof fn lemma_lines_hold_no_line_feed(s: Seq<char>)
    ensures
        forall|k: int| 0 <= k < lines(s).len() ==> no_line_feed(#[trigger] lines(s)[k]),
{
    lemma_lines_from_no_line_feed(s, Seq::empty());
}

proof fn lemma_lines_from_no_line_feed(s: Seq<char>, cur: Seq<char>)
    requires
        no_line_feed(cur),
    ensures
        forall|k: int| 0 <= k < lines_from(s, cur).len() ==> no_line_feed(#[trigger] lines_from(s, cur)[k]),
    decreases s.len(),
{
    if s.len() == 0 {
        if cur.len() > 0 {
            assert(lines_from(s, cur) == seq![cur]);
            assert(lines_from(s, cur)[0] == cur);
        }
    } else if s[0] == '\n' {
        lemma_lines_from_no_line_feed(s.drop_first(), Seq::empty());
        let tail = lines_from(s.drop_first(), Seq::empty());
        assert(no_line_feed(strip_cr(cur))) by {
            if cur.len() > 0 && cur.last() == '\r' {
                assert forall|j: int| 0 <= j < cur.drop_last().len() implies cur.drop_last()[j] != '\n' by {
                    assert(cur.drop_last()[j] == cur[j]);
                }
            }
        }
        assert forall|k: int| 0 <= k < lines_from(s, cur).len() implies no_line_feed(#[trigger] lines_from(s, cur)[k]) by {
            if k > 0 {
                assert(lines_from(s, cur)[k] == tail[k - 1]);
            }
        }
    } else {
        let c2 = cur.push(s[0]);
        assert forall|j: int| 0 <= j < c2.len() implies c2[j] != '\n' by {
            if j < cur.len() {
                assert(c2[j] == cur[j]);
            }
        }
        lemma_lines_from_no_line_feed(s.drop_first(), c2);
        assert(lines_from(s, cur) == lines_from(s.drop_first(), c2));
    }
}

/// A text occurs inside any text that holds it.
pub proof fn lemma_contains_own_middle(a: Seq<char>, needle: Seq<char>, b: Seq<char>)
    ensures
        contains(a + needle + b, needle),
{
    assert(occurs_at(needle, needle, 0)) by {
        assert(needle.subrange(0, needle.len() as int) =~= needle);
    }
    lemma_contains_in_concat(a, needle, needle);
    lemma_contains_in_concat(a + needle, b, needle);
}

/// What occurs in a text occurs in any text that begins or ends with it.
pub proof fn lemma_contains_in_concat(a: Seq<char>, b: Seq<char>, needle: Seq<char>)
    ensures
        contains(a, needle) ==> contains(a + b, needle),
        contains(b, needle) ==> contains(a + b, needle),
{
    if contains(a, needle) {
        let k = choose|k: int| occurs_at(a, needle, k);
        assert((a + b).subrange(k, k + needle.len()) =~= a.subrange(k, k + needle.len()));
        assert(occurs_at(a + b, needle, k));
    }
    if contains(b, needle) {
        let k = choose|k: int| occurs_at(b, needle, k);
        let j = k + a.len();
        assert((a + b).subrange(j, j + needle.len()) =~= b.subrange(k, k + needle.len()));
        assert(occurs_at(a + b, needle, j));
    }
}

/// Whether `needle` occurs somewhere in `s`.
pub fn contains_chars(s: &Vec<char>, needle: &Vec<char>) -> (r: bool)
    ensures
        r == contains(s@, needle@),
{
    if needle.len() > s.len() {
        assert forall|k: int| !occurs_at(s@, needle@, k) by {}
        return false;
    }
    let last = s.len() - needle.len();
    let mut k: usize = 0;
    while k <= last
        invariant
            last + needle.len() == s.len(),
            forall|i: int| 0 <= i < k ==> !occurs_at(s@, needle@, i),
        decreases last + 1 - k,
    {
        if occurs_at_exec(s, needle, k) {
            return true;
        }
        if k == last {
            assert forall|i: int| !occurs_at(s@, needle@, i) by {
                if occurs_at(s@, needle@, i) {
                    assert(i <= last);
                }
            }
            return false;
        }
        k += 1;
    }
    false
}

// ---------------------------------------------------------------------------
// Trimming and case
// ---------------------------------------------------------------------------

/// `v` without leading and trailing white space.
pub fn trimmed(v: &Vec<char>) -> (r: Vec<char>)
    ensures
        r@ == trim(v@),
{
    let n = v.len();
    let mut a: usize = 0;
    assert(v@.subrange(0, n as int) =~= v@);
    while a < n && white_space(v[a])
        invariant
            n == v.len(),
            a <= n,
            trim_start(v@) == trim_start(v@.subrange(a as int, n as int)),
        decreases n - a,
    {
        assert(v@.subrange(a as int, n as int).drop_first() =~= v@.subrange(a + 1, n as int));
        a += 1;
    }
    let mut b: usize = n;
    while b > a && white_space(v[b - 1])
        invariant
            n == v.len(),
            a <= b <= n,
            trim_start(v@) == v@.subrange(a as int, n as int),
            trim_end(v@.subrange(a as int, n as int)) == trim_end(v@.subrange(a as int, b as int)),
        decreases b - a,
    {
        assert(v@.subrange(a as int, b as int).drop_last() =~= v@.subrange(a as int, b - 1));
        b -= 1;
    }
    let mut r: Vec<char> = Vec::new();
    let mut i = a;
    while i < b
        invariant
            a <= i <= b <= v.len(),
            r@ == v@.subrange(a as int, i as int),
        decreases b - i,
    {
        r.push(v[i]);
        assert(r@ =~= v@.subrange(a as int, i + 1));
        i += 1;
    }
    r
}

/// `v` with ASCII upper-case letters made lower-case.
pub fn lowercased(v: &Vec<char>) -> (r: Vec<char>)
    ensures
        r@ == ascii_lowercase(v@),
{
    let mut r: Vec<char> = Vec::new();
    let mut i: usize = 0;
    while i < v.len()
        invariant
            i <= v.len(),
            r@ == ascii_lowercase(v@.take(i as int)),
        decreases v.len() - i,
    {
        r.push(lower_char(v[i]));
        assert(ascii_lowercase(v@.take(i + 1)) =~= ascii_lowercase(v@.take(i as int)).push(ascii_lower(v@[i as int])));
        i += 1;
    }
    assert(v@.take(v.len() as int) =~= v@);
    r
}

// ---------------------------------------------------------------------------
// Splitting
// ---------------------------------------------------------------------------

/// The lines of `s`.
pub fn split_lines(s: &Vec<char>) -> (ls: Vec<Vec<char>>)
    ensures
        views(ls@) == lines(s@),
{
    let mut out: Vec<Vec<char>> = Vec::new();
    let mut cur: Vec<char> = Vec::new();
    let mut i: usize = 0;
    assert(s@.skip(0) =~= s@);
    while i < s.len()
        invariant
            i <= s.len(),
            lines(s@) == views(out@) + lines_from(s@.skip(i as int), cur@),
        decreases s.len() - i,
    {
        let ghost rest = s@.skip(i as int);
        assert(rest.drop_first() =~= s@.skip(i + 1));
        assert(rest[0] == s@[i as int]);
        if s[i] == '\n' {
            let ghost before = views(out@);
            let ghost line = strip_cr(cur@);
            if cur.len() > 0 && cur[cur.len() - 1] == '\r' {
                cur.pop();
            }
            assert(cur@ == line);
            out.push(cur);
            cur = Vec::new();
            assert(views(out@) =~= before.push(line));
            assert(before + (seq![line] + lines_from(s@.skip(i + 1), Seq::empty())) =~= before.push(line)
                + lines_from(s@.skip(i + 1), Seq::empty()));
        } else {
            cur.push(s[i]);
        }
        i += 1;
    }
    let ghost before = views(out@);
    if cur.len() > 0 {
        let ghost last = cur@;
        out.push(cur);
        assert(views(out@) =~= before.push(last));
        assert(before + seq![last] =~= before.push(last));
    } else {
        assert(before + Seq::<Seq<char>>::empty() =~= before);
    }
    out
}

/// The words of `s`.
pub fn split_words(s: &Vec<char>) -> (ws: Vec<Vec<char>>)
    ensures
        views(ws@) == words(s@),
{
    let mut out: Vec<Vec<char>> = Vec::new();
    let mut cur: Vec<char> = Vec::new();
    let mut i: usize = 0;
    assert(s@.skip(0) =~= s@);
    while i < s.len()
        invariant
            i <= s.len(),
            words(s@) == views(out@) + words_from(s@.skip(i as int), cur@),
        decreases s.len() - i,
    {
        let ghost rest = s@.skip(i as int);
        assert(rest.drop_first() =~= s@.skip(i + 1));
        assert(rest[0] == s@[i as int]);
        if white_space(s[i]) {
            let ghost before = views(out@);
            let ghost word = cur@;
            let ghost tail = words_from(s@.skip(i + 1), Seq::empty());
            if cur.len() > 0 {
                out.push(cur);
                assert(views(out@) =~= before.push(word));
                assert(before + (seq![word] + tail) =~= before.push(word) + tail);
            } else {
                assert(before + (Seq::<Seq<char>>::empty() + tail) =~= before + tail);
            }
            cur = Vec::new();
        } else {
            cur.push(s[i]);
        }
        i += 1;
    }
    let ghost before = views(out@);
    if cur.len() > 0 {
        let ghost last = cur@;
        out.push(cur);
        assert(views(out@) =~= before.push(last));
        assert(before + seq![last] =~= before.push(last));
    } else {
        assert(before + Seq::<Seq<char>>::empty() =~= before);
    }
    out
}

/// The pieces of `s` between occurrences of `sep`.
pub fn split_on(s: &Vec<char>, sep: char) -> (ps: Vec<Vec<char>>)
    ensures
        views(ps@) == pieces(s@, sep),
{
    let mut out: Vec<Vec<char>> = Vec::new();
    let mut cur: Vec<char> = Vec::new();
    let mut i: usize = 0;
    assert(s@.skip(0) =~= s@);
    while i < s.len()
        invariant
            i <= s.len(),
            pieces(s@, sep) == views(out@) + pieces_from(s@.skip(i as int), sep, cur@),
        decreases s.len() - i,
    {
        let ghost rest = s@.skip(i as int);
        assert(rest.drop_first() =~= s@.skip(i + 1));
        assert(rest[0] == s@[i as int]);
        if s[i] == sep {
            let ghost before = views(out@);
            let ghost piece = cur@;
            out.push(cur);
            cur = Vec::new();
            assert(views(out@) =~= before.push(piece));
            assert(before + (seq![piece] + pieces_from(s@.skip(i + 1), sep, Seq::empty()))
                =~= before.push(piece) + pieces_from(s@.skip(i + 1), sep, Seq::empty()));
        } else {
            cur.push(s[i]);
        }
        i += 1;
    }
    let ghost before = views(out@);
    let ghost last = cur@;
    out.push(cur);
    assert(views(out@) =~= before.push(last));
    assert(before + seq![last] =~= before.push(last));
    out
}


// ---------------------------------------------------------------------------
// Numbers
// ---------------------------------------------------------------------------

/// The decimal digit for `d`.
pub open spec fn digit(d: nat) -> char {
    ((48 + d) as u8) as char
}

/// The decimal representation of `n`, without leading zeros (`Display` for integers).
pub open spec fn decimal(n: nat) -> Seq<char>
    decreases n,
{
    if n < 10 {
        seq![digit(n)]
    } else {
        decimal(n / 10).push(digit(n % 10))
    }
}

/// The decimal representation of `i`, with a minus sign when it is negative.
pub open spec fn signed_decimal(i: int) -> Seq<char> {
    if i < 0 {
        seq!['-'] + decimal((-i) as nat)
    } else {
        decimal(i as nat)
    }
}

/// The number that a string of decimal digits denotes.
pub open spec fn digits_value(s: Seq<char>) -> int
    decreases s.len(),
{
    if s.len() == 0 {
        0
    } else {
        digits_value(s.drop_last()) * 10 + ((s.last() as u32) - 48)
    }
}

/// The decimal representation is made of digits, has no leading zero, and denotes the
/// number it represents.
pub proof fn lemma_decimal_denotes(n: nat)
    ensures
        digits_value(decimal(n)) == n,
        forall|i: int| 0 <= i < decimal(n).len() ==> 48 <= (#[trigger] decimal(n)[i] as u32) <= 57,
        decimal(n).len() > 1 ==> decimal(n)[0] != '0',
        decimal(n).len() >= 1,
        decimal(n).len() == 1 <==> n < 10,
    decreases n,
{
    let d = (n % 10) as nat;
    let c = digit(d);
    assert((c as u32) == 48 + d);
    if n < 10 {
        assert(decimal(n) == seq![c]);
        assert(decimal(n).drop_last() =~= Seq::<char>::empty());
        assert(digits_value(Seq::<char>::empty()) == 0);
        assert(decimal(n).last() == c);
        assert(d == n);
        assert(digits_value(decimal(n)) == digits_value(decimal(n).drop_last()) * 10 + ((c as u32) - 48));
    } else {
        lemma_decimal_denotes(n / 10);
        let p = decimal(n / 10);
        assert(decimal(n) == p.push(c));
        assert(decimal(n).drop_last() =~= p);
        assert(digits_value(decimal(n)) == (n / 10) * 10 + d);
        assert((n / 10) * 10 + n % 10 == n) by (nonlinear_arith);
        assert forall|i: int| 0 <= i < decimal(n).len() implies 48 <= (#[trigger] decimal(n)[i] as u32) <= 57 by {
            if i < p.len() {
                assert(decimal(n)[i] == p[i]);
            }
        }
        if p.len() == 1 {
            assert(n / 10 < 10);
            assert(p == seq![digit((n / 10) as nat)]);
            assert(n / 10 > 0);
            assert((p[0] as u32) == 48 + n / 10);
        }
        assert(decimal(n)[0] == p[0]);
    }
}

fn push_decimal(n: u64, out: &mut String)
    ensures
        final(out)@ == old(out)@ + decimal(n as nat),
    decreases n,
{
    if n >= 10 {
        push_decimal(n / 10, out);
    }
    let d: u8 = (n % 10) as u8;
    push_char(out, (48 + d) as char);
    assert(old(out)@ + decimal(n as nat) =~= (old(out)@ + (if n >= 10 { decimal((n / 10) as nat) } else { Seq::empty() })).push(digit((n % 10) as nat)));
}

/// The decimal representation of `n`.
pub fn decimal_string(n: u64) -> (s: String)
    ensures
        s@ == decimal(n as nat),
        digits_value(s@) == n,
        forall|i: int| 0 <= i < s@.len() ==> 48 <= (#[trigger] s@[i] as u32) <= 57,
        s@.len() > 1 ==> s@[0] != '0',
{
    proof {
        lemma_decimal_denotes(n as nat);
    }
    let mut s = String::new();
    push_decimal(n, &mut s);
    assert(s@ =~= decimal(n as nat));
    s
}

/// The decimal representation of `i`, with a minus sign when it is negative.
pub fn signed_decimal_string(i: i32) -> (s: String)
    ensures
        s@ == signed_decimal(i as int),
{
    let mut s = String::new();
    if i < 0 {
        push_char(&mut s, '-');
        let m: i64 = i as i64;
        push_decimal((-m) as u64, &mut s);
    } else {
        push_decimal(i as u64, &mut s);
    }
    s
}


// ---------------------------------------------------------------------------
// Facts about lines and trimming
// ---------------------------------------------------------------------------

/// `s` is not empty and its last character is a line feed.
pub open spec fn ends_with_line_feed(s: Seq<char>) -> bool {
    s.len() > 0 && s.last() == '\n'
}

/// `s` holds no line feed.
pub open spec fn no_line_feed(s: Seq<char>) -> bool {
    forall|i: int| 0 <= i < s.len() ==> s[i] != '\n'
}

/// Text that ends with a line feed splits into its own lines followed by those of what
/// comes after it.
pub proof fn lemma_lines_concat(a: Seq<char>, b: Seq<char>, cur: Seq<char>)
    requires
        ends_with_line_feed(a),
    ensures
        lines_from(a + b, cur) == lines_from(a, cur) + lines_from(b, Seq::empty()),
    decreases a.len(),
{
    let ab = a + b;
    assert(ab[0] == a[0]);
    assert(ab.drop_first() =~= a.drop_first() + b);
    if a.len() == 1 {
        assert(a.drop_first() =~= Seq::<char>::empty());
        assert(ab.drop_first() =~= b);
        assert(lines_from(a.drop_first(), Seq::empty()) =~= Seq::<Seq<char>>::empty());
        assert(lines_from(a, cur) =~= seq![strip_cr(cur)]);
    } else {
        assert(a.drop_first().last() == a.last());
        if a[0] == '\n' {
            lemma_lines_concat(a.drop_first(), b, Seq::empty());
            assert(seq![strip_cr(cur)] + (lines_from(a.drop_first(), Seq::empty()) + lines_from(b, Seq::empty()))
                =~= (seq![strip_cr(cur)] + lines_from(a.drop_first(), Seq::empty())) + lines_from(b, Seq::empty()));
        } else {
            lemma_lines_concat(a.drop_first(), b, cur.push(a[0]));
        }
    }
}

/// Text without line feeds, followed by one, is a single line.
pub proof fn lemma_single_line(x: Seq<char>, cur: Seq<char>)
    requires
        no_line_feed(x),
    ensures
        lines_from(x.push('\n'), cur) == seq![strip_cr(cur + x)],
    decreases x.len(),
{
    let xl = x.push('\n');
    if x.len() == 0 {
        assert(xl.drop_first() =~= Seq::<char>::empty());
        assert(cur + x =~= cur);
        assert(xl[0] == '\n');
        assert(lines_from(Seq::<char>::empty(), Seq::<char>::empty()) =~= Seq::<Seq<char>>::empty());
        assert(lines_from(xl, cur) =~= seq![strip_cr(cur)] + Seq::<Seq<char>>::empty());
    } else {
        assert(xl[0] == x[0]);
        assert(xl.drop_first() =~= x.drop_first().push('\n'));
        lemma_single_line(x.drop_first(), cur.push(x[0]));
        assert(cur.push(x[0]) + x.drop_first() =~= cur + x);
    }
}

/// Ending text with a line feed keeps its lines, but for a carriage return that the
/// last line may lose.
pub proof fn lemma_terminate_lines(x: Seq<char>, cur: Seq<char>)
    requires
        x.len() > 0 ==> x.last() != '\n',
        x.len() == 0 ==> cur.len() > 0,
    ensures
        lines_from(x, cur).len() > 0,
        lines_from(x.push('\n'), cur) == lines_from(x, cur).drop_last().push(
            strip_cr(lines_from(x, cur).last()),
        ),
    decreases x.len(),
{
    let xl = x.push('\n');
    if x.len() == 0 {
        assert(xl.drop_first() =~= Seq::<char>::empty());
        assert(xl[0] == '\n');
        assert(lines_from(Seq::<char>::empty(), Seq::<char>::empty()) =~= Seq::<Seq<char>>::empty());
        assert(lines_from(xl, cur) =~= seq![strip_cr(cur)] + Seq::<Seq<char>>::empty());
        assert(lines_from(x, cur) =~= seq![cur]);
        assert(lines_from(x, cur).drop_last() =~= Seq::<Seq<char>>::empty());
    } else {
        let rest = x.drop_first();
        assert(xl[0] == x[0]);
        assert(xl.drop_first() =~= rest.push('\n'));
        if rest.len() > 0 {
            assert(rest.last() == x.last());
        }
        if x[0] == '\n' {
            lemma_terminate_lines(rest, Seq::empty());
            let tail = lines_from(rest, Seq::empty());
            assert(lines_from(x, cur) == seq![strip_cr(cur)] + tail);
            assert((seq![strip_cr(cur)] + tail).drop_last() =~= seq![strip_cr(cur)] + tail.drop_last());
            assert((seq![strip_cr(cur)] + tail).last() == tail.last());
            assert(seq![strip_cr(cur)] + tail.drop_last().push(strip_cr(tail.last())) =~= (seq![
                strip_cr(cur),
            ] + tail.drop_last()).push(strip_cr(tail.last())));
        } else {
            lemma_terminate_lines(rest, cur.push(x[0]));
        }
    }
}

/// Trimming after appending one character.
pub proof fn lemma_trim_start_push(x: Seq<char>, c: char)
    ensures
        trim_start(x.push(c)) == (if trim_start(x).len() == 0 {
            trim_start(seq![c])
        } else {
            trim_start(x).push(c)
        }),
    decreases x.len(),
{
    if x.len() == 0 {
        assert(x.push(c) =~= seq![c]);
    } else {
        assert(x.push(c)[0] == x[0]);
        assert(x.push(c).drop_first() =~= x.drop_first().push(c));
        lemma_trim_start_push(x.drop_first(), c);
    }
}

/// A carriage return at the end of a line does not survive trimming.
pub proof fn lemma_trim_strip_cr(s: Seq<char>)
    ensures
        trim(strip_cr(s)) == trim(s),
{
    if s.len() > 0 && s.last() == '\r' {
        let x = s.drop_last();
        assert(x.push('\r') =~= s);
        lemma_trim_start_push(x, '\r');
        assert(is_white_space('\r'));
        if trim_start(x).len() == 0 {
            assert(seq!['\r'][0] == '\r');
            assert(seq!['\r'].drop_first() =~= Seq::<char>::empty());
            assert(trim_start(Seq::<char>::empty()) =~= Seq::<char>::empty());
            assert(trim_start(seq!['\r']) =~= Seq::<char>::empty());
        } else {
            assert(trim_start(x).push('\r').drop_last() =~= trim_start(x));
        }
    }
}

} // verus!
