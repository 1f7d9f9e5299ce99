//! Character-level text operations used throughout the library, each with
//! the mathematical statement of what it computes over `Seq<char>`.
use vstd::prelude::*;
use vstd::string::*;

verus! {

// ---------------------------------------------------------------------------
// Character classes
// ---------------------------------------------------------------------------

/// The Unicode `White_Space` property (PropList.txt), which is what
/// `char::is_whitespace` and `str::trim` test.
pub open spec fn is_white_space(c: char) -> bool {
    let u = c as u32;
    ||| 0x09 <= u <= 0x0D
    ||| u == 0x20
    ||| u == 0x85
    ||| u == 0xA0
    ||| u == 0x1680
    ||| 0x2000 <= u <= 0x200A
    ||| u == 0x2028
    ||| u == 0x2029
    ||| u == 0x202F
    ||| u == 0x205F
    ||| u == 0x3000
}

/// Executable test for the Unicode `White_Space` property.
pub fn is_white_space_char(c: char) -> (b: bool)
    ensures
        b == is_white_space(c),
{
    let u = c as u32;
    (0x09 <= u && u <= 0x0D) || u == 0x20 || u == 0x85 || u == 0xA0 || u == 0x1680 || (0x2000
        <= u && u <= 0x200A) || u == 0x2028 || u == 0x2029 || u == 0x202F || u == 0x205F || u
        == 0x3000
}

/// The ASCII letters and digits.
pub open spec fn is_ascii_alphanumeric(c: char) -> bool {
    ('a' <= c && c <= 'z') || ('A' <= c && c <= 'Z') || ('0' <= c && c <= '9')
}

/// What `char::is_alphanumeric` answers for a character beyond ASCII:
/// whether it has the Unicode `Alphabetic` or `Numeric` property.
pub uninterp spec fn non_ascii_alphanumeric(c: char) -> bool;

/// What `char::is_alphanumeric` answers: within ASCII exactly the letters and
/// digits, beyond ASCII the Unicode `Alphabetic` or `Numeric` property.
pub open spec fn is_alphanumeric(c: char) -> bool {
    if (c as u32) < 128 {
        is_ascii_alphanumeric(c)
    } else {
        non_ascii_alphanumeric(c)
    }
}

/// Calls `char::is_alphanumeric`. Its documentation: a character is
/// alphanumeric when it has the `Alphabetic` or `Numeric` property; within
/// ASCII these are exactly the letters and the digits. Beyond ASCII the answer
/// is the one named by `non_ascii_alphanumeric`.
#[verifier::external_body]
pub(crate) fn is_alphanumeric_char(c: char) -> (b: bool)
    ensures
        b == (if (c as u32) < 128 {
            is_ascii_alphanumeric(c)
        } else {
            non_ascii_alphanumeric(c)
        }),
{
    c.is_alphanumeric()
}

/// The ASCII decimal digits `'0'..='9'`.
pub open spec fn is_ascii_digit(c: char) -> bool {
    '0' <= c && c <= '9'
}

/// The set of characters removed by a trimming operation.
pub enum TrimSet {
    /// Every character with the Unicode `White_Space` property.
    Whitespace,
    /// Exactly one character.
    Only(char),
}

/// Whether `c` belongs to the trim set `k`.
pub open spec fn in_trim_set(k: TrimSet, c: char) -> bool {
    match k {
        TrimSet::Whitespace => is_white_space(c),
        TrimSet::Only(x) => c == x,
    }
}

fn trim_set_contains(k: &TrimSet, c: char) -> (b: bool)
    ensures
        b == in_trim_set(*k, c),
{
    match k {
        TrimSet::Whitespace => is_white_space_char(c),
        TrimSet::Only(x) => c == *x,
    }
}

// ---------------------------------------------------------------------------
// Trimming
// ---------------------------------------------------------------------------

/// `s` with every leading character of the set removed.
pub open spec fn trim_start_set(s: Seq<char>, k: TrimSet) -> Seq<char>
    decreases s.len(),
{
    if s.len() > 0 && in_trim_set(k, s[0]) {
        trim_start_set(s.drop_first(), k)
    } else {
        s
    }
}

/// `s` with every trailing character of the set removed.
pub open spec fn trim_end_set(s: Seq<char>, k: TrimSet) -> Seq<char>
    decreases s.len(),
{
    if s.len() > 0 && in_trim_set(k, s.last()) {
        trim_end_set(s.drop_last(), k)
    } else {
        s
    }
}

/// `s` with all leading and trailing characters of the set removed
/// (`str::trim` for whitespace, `str::trim_matches(c)` for a character).
pub open spec fn trim_set(s: Seq<char>, k: TrimSet) -> Seq<char> {
    trim_end_set(trim_start_set(s, k), k)
}

/// `str::trim`: leading and trailing whitespace removed.
pub open spec fn trim_ws(s: Seq<char>) -> Seq<char> {
    trim_set(s, TrimSet::Whitespace)
}

/// `str::trim_matches(c)`: leading and trailing copies of `c` removed.
pub open spec fn trim_char(s: Seq<char>, c: char) -> Seq<char> {
    trim_set(s, TrimSet::Only(c))
}

/// A trimmed sequence neither starts nor ends with a member of the set.
pub proof fn lemma_trim_set_bounds(s: Seq<char>, k: TrimSet)
    ensures
        trim_set(s, k).len() > 0 ==> !in_trim_set(k, trim_set(s, k)[0]) && !in_trim_set(
            k,
            trim_set(s, k).last(),
        ),
        trim_set(s, k).len() <= s.len(),
    decreases s.len(),
{
    lemma_trim_start_shape(s, k);
    lemma_trim_end_shape(trim_start_set(s, k), k);
}

/// `trim_start_set(s)` is a suffix of `s` that does not start with a member.
pub proof fn lemma_trim_start_shape(s: Seq<char>, k: TrimSet)
    ensures
        exists|i: int|
            0 <= i <= s.len() && trim_start_set(s, k) == s.subrange(i, s.len() as int),
        trim_start_set(s, k).len() > 0 ==> !in_trim_set(k, trim_start_set(s, k)[0]),
    decreases s.len(),
{
    if s.len() > 0 && in_trim_set(k, s[0]) {
        lemma_trim_start_shape(s.drop_first(), k);
        let i = choose|i: int|
            0 <= i <= s.drop_first().len() && trim_start_set(s.drop_first(), k)
                == s.drop_first().subrange(i, s.drop_first().len() as int);
        assert(s.drop_first().subrange(i, s.drop_first().len() as int) =~= s.subrange(
            i + 1,
            s.len() as int,
        ));
    } else {
        assert(s.subrange(0, s.len() as int) =~= s);
    }
}

/// `trim_end_set(s)` is a prefix of `s` that does not end with a member; a
/// sequence that already starts with a non-member keeps that first element.
pub proof fn lemma_trim_end_shape(s: Seq<char>, k: TrimSet)
    ensures
        exists|j: int| 0 <= j <= s.len() && trim_end_set(s, k) == s.subrange(0, j),
        trim_end_set(s, k).len() > 0 ==> !in_trim_set(k, trim_end_set(s, k).last()),
        s.len() > 0 && !in_trim_set(k, s[0]) ==> trim_end_set(s, k).len() > 0
            && trim_end_set(s, k)[0] == s[0],
    decreases s.len(),
{
    if s.len() > 0 && in_trim_set(k, s.last()) {
        lemma_trim_end_shape(s.drop_last(), k);
        let j = choose|j: int|
            0 <= j <= s.drop_last().len() && trim_end_set(s.drop_last(), k)
                == s.drop_last().subrange(0, j);
        assert(s.drop_last().subrange(0, j) =~= s.subrange(0, j));
    } else {
        assert(s.subrange(0, s.len() as int) =~= s);
    }
}

/// The trimming of `s`, returned as a sub-slice of `s`.
pub fn trim_str<'a>(s: &'a str, k: TrimSet) -> (r: &'a str)
    ensures
        r@ == trim_set(s@, k),
{
    let n = s.unicode_len();
    let mut i: usize = 0;
    assert(s@.subrange(0, n as int) =~= s@);
    loop
        invariant
            n == s@.len(),
            i <= n,
            trim_start_set(s@, k) == trim_start_set(s@.subrange(i as int, n as int), k),
        ensures
            i == n || !in_trim_set(k, s@[i as int]),
        decreases n - i,
    {
        if i >= n {
            break;
        }
        if !trim_set_contains(&k, s.get_char(i)) {
            break;
        }
        assert(s@.subrange(i as int, n as int).drop_first() =~= s@.subrange(
            i as int + 1,
            n as int,
        ));
        i = i + 1;
    }
    let ghost mid = s@.subrange(i as int, n as int);
    assert(mid.len() > 0 ==> mid[0] == s@[i as int]);
    assert(trim_start_set(s@, k) == mid);
    let mut j: usize = n;
    assert(mid.subrange(0, (j - i) as int) =~= mid);
    loop
        invariant
            n == s@.len(),
            i <= j <= n,
            mid == s@.subrange(i as int, n as int),
            trim_start_set(s@, k) == mid,
            trim_end_set(mid, k) == trim_end_set(s@.subrange(i as int, j as int), k),
        ensures
            j == i || !in_trim_set(k, s@[j as int - 1]),
        decreases j - i,
    {
        if j <= i {
            break;
        }
        if !trim_set_contains(&k, s.get_char(j - 1)) {
            break;
        }
        assert(s@.subrange(i as int, j as int).drop_last() =~= s@.subrange(
            i as int,
            j as int - 1,
        ));
        j = j - 1;
    }
    let ghost fin = s@.subrange(i as int, j as int);
    assert(fin.len() > 0 ==> fin.last() == s@[j as int - 1]);
    assert(trim_end_set(fin, k) == fin);
    s.substring_char(i, j)
}

// ---------------------------------------------------------------------------
// Prefixes and suffixes
// ---------------------------------------------------------------------------

/// `str::strip_prefix(c).unwrap_or(s)`: one leading `c` removed if present.
pub open spec fn strip_first(s: Seq<char>, c: char) -> Seq<char> {
    if s.len() > 0 && s[0] == c {
        s.drop_first()
    } else {
        s
    }
}

/// `str::strip_suffix(c).unwrap_or(s)`: one trailing `c` removed if present.
pub open spec fn strip_last(s: Seq<char>, c: char) -> Seq<char> {
    if s.len() > 0 && s.last() == c {
        s.drop_last()
    } else {
        s
    }
}

/// Whether `p` is a prefix of `s`.
pub open spec fn has_prefix(s: Seq<char>, p: Seq<char>) -> bool {
    p.len() <= s.len() && s.subrange(0, p.len() as int) == p
}

/// Whether `p` is a suffix of `s`.
pub open spec fn has_suffix(s: Seq<char>, p: Seq<char>) -> bool {
    p.len() <= s.len() && s.subrange(s.len() - p.len(), s.len() as int) == p
}

/// Executable prefix test.
pub fn starts_with(s: &str, p: &str) -> (b: bool)
    ensures
        b == has_prefix(s@, p@),
{
    let n = s.unicode_len();
    let m = p.unicode_len();
    if m > n {
        return false;
    }
    let mut i: usize = 0;
    while i < m
        invariant
            n == s@.len(),
            m == p@.len(),
            m <= n,
            i <= m,
            forall|k: int| 0 <= k < i ==> s@[k] == p@[k],
        decreases m - i,
    {
        if s.get_char(i) != p.get_char(i) {
            assert(s@.subrange(0, m as int)[i as int] != p@[i as int]);
            return false;
        }
        i = i + 1;
    }
    assert(s@.subrange(0, m as int) =~= p@);
    true
}

/// Executable suffix test.
pub fn ends_with(s: &str, p: &str) -> (b: bool)
    ensures
        b == has_suffix(s@, p@),
{
    let n = s.unicode_len();
    let m = p.unicode_len();
    if m > n {
        return false;
    }
    let off = n - m;
    let mut i: usize = 0;
    while i < m
        invariant
            n == s@.len(),
            m == p@.len(),
            off == n - m,
            i <= m,
            forall|k: int| 0 <= k < i ==> s@[off + k] == p@[k],
        decreases m - i,
    {
        if s.get_char(off + i) != p.get_char(i) {
            assert(s@.subrange(off as int, n as int)[i as int] != p@[i as int]);
            return false;
        }
        i = i + 1;
    }
    assert(s@.subrange(off as int, n as int) =~= p@);
    true
}

/// Executable equality of two texts.
pub fn str_equal(a: &str, b: &str) -> (r: bool)
    ensures
        r == (a@ == b@),
{
    let n = a.unicode_len();
    if n != b.unicode_len() {
        return false;
    }
    let mut i: usize = 0;
    while i < n
        invariant
            n == a@.len(),
            n == b@.len(),
            i <= n,
            forall|k: int| 0 <= k < i ==> a@[k] == b@[k],
        decreases n - i,
    {
        if a.get_char(i) != b.get_char(i) {
            return false;
        }
        i = i + 1;
    }
    assert(a@ =~= b@);
    true
}

/// Whether `c` occurs in `s`.
pub open spec fn has_char(s: Seq<char>, c: char) -> bool {
    exists|i: int| 0 <= i < s.len() && s[i] == c
}

/// Executable membership test for a character.
pub fn contains_char(s: &str, c: char) -> (b: bool)
    ensures
        b == has_char(s@, c),
{
    let n = s.unicode_len();
    let mut i: usize = 0;
    while i < n
        invariant
            n == s@.len(),
            i <= n,
            forall|k: int| 0 <= k < i ==> s@[k] != c,
        decreases n - i,
    {
        if s.get_char(i) == c {
            return true;
        }
        i = i + 1;
    }
    false
}

// ---------------------------------------------------------------------------
// JSON text of strings
// ---------------------------------------------------------------------------

/// A hexadecimal digit as serde_json writes it (lower case).
pub open spec fn hex_digit(d: int) -> char {
    if d < 10 {
        (48 + d) as char
    } else {
        (87 + d) as char
    }
}

/// How serde_json writes one character inside a JSON string: `"` and `\`
/// behind a backslash, the short escapes `\b \t \n \f \r`, the other
/// characters below U+0020 as `\u00xx`, and every other character as it is.
pub open spec fn json_escape_char(c: char) -> Seq<char> {
    if c == '"' {
        seq!['\\', '"']
    } else if c == '\\' {
        seq!['\\', '\\']
    } else if c == '\u{8}' {
        seq!['\\', 'b']
    } else if c == '\t' {
        seq!['\\', 't']
    } else if c == '\n' {
        seq!['\\', 'n']
    } else if c == '\u{c}' {
        seq!['\\', 'f']
    } else if c == '\r' {
        seq!['\\', 'r']
    } else if (c as int) < 32 {
        seq!['\\', 'u', '0', '0', hex_digit((c as int) / 16), hex_digit((c as int) % 16)]
    } else {
        seq![c]
    }
}

/// The characters of a string as serde_json writes them inside quotes.
pub open spec fn json_escaped(s: Seq<char>) -> Seq<char>
    decreases s.len(),
{
    if s.len() == 0 {
        Seq::empty()
    } else {
        json_escaped(s.drop_last()) + json_escape_char(s.last())
    }
}

/// A string as a JSON string literal.
pub open spec fn json_string_text(s: Seq<char>) -> Seq<char> {
    seq!['"'] + json_escaped(s) + seq!['"']
}

/// A list of strings as serde_json's compact writer writes it:
/// `["a","b"]`.
pub open spec fn json_string_list(items: Seq<Seq<char>>) -> Seq<char> {
    seq!['['] + join_with(items.map_values(|x: Seq<char>| json_string_text(x)), seq![',']) + seq![
        ']',
    ]
}

// ---------------------------------------------------------------------------
// Building strings
// ---------------------------------------------------------------------------

/// Appends one character to a `String` (`String::push`).
#[verifier::external_body]
pub(crate) fn push_char(s: &mut String, c: char)
    ensures
        final(s)@ == old(s)@.push(c),
{
    s.push(c);
}

/// A `String` holding exactly the characters of `s` (`str::to_string`).
pub fn owned(s: &str) -> (r: String)
    ensures
        r@ == s@,
{
    s.to_owned()
}

/// `a` followed by `b`, as a new `String`.
pub fn concat2(a: &str, b: &str) -> (r: String)
    ensures
        r@ == a@ + b@,
{
    let mut r = a.to_owned();
    r.append(b);
    r
}

// ---------------------------------------------------------------------------
// Splitting
// ---------------------------------------------------------------------------

/// `str::split(sep)`: the pieces of `s` between occurrences of `sep`; there is
/// always at least one piece.
pub open spec fn split_on(s: Seq<char>, sep: char) -> Seq<Seq<char>>
    decreases s.len(),
{
    if s.len() == 0 {
        seq![Seq::<char>::empty()]
    } else {
        let parts = split_on(s.drop_last(), sep);
        if s.last() == sep {
            parts.push(Seq::<char>::empty())
        } else {
            parts.update(parts.len() - 1, parts.last().push(s.last()))
        }
    }
}

/// Splitting always yields at least one piece.
pub proof fn lemma_split_nonempty(s: Seq<char>, sep: char)
    ensures
        split_on(s, sep).len() >= 1,
    decreases s.len(),
{
    if s.len() > 0 {
        lemma_split_nonempty(s.drop_last(), sep);
    }
}

/// No piece of a split contains the separator.
pub proof fn lemma_split_pieces_free(s: Seq<char>, sep: char)
    ensures
        forall|i: int|
            0 <= i < split_on(s, sep).len() ==> !has_char(#[trigger] split_on(s, sep)[i], sep),
    decreases s.len(),
{
    if s.len() > 0 {
        lemma_split_nonempty(s.drop_last(), sep);
        lemma_split_pieces_free(s.drop_last(), sep);
        let parts = split_on(s.drop_last(), sep);
        if s.last() != sep {
            assert forall|i: int|
                0 <= i < split_on(s, sep).len() implies !has_char(
                #[trigger] split_on(s, sep)[i],
                sep,
            ) by {
                if i == parts.len() - 1 {
                    let p = parts.last().push(s.last());
                    assert(split_on(s, sep)[i] == p);
                    if has_char(p, sep) {
                        let k = choose|k: int| 0 <= k < p.len() && p[k] == sep;
                        assert(parts[parts.len() - 1][k] == sep);
                    }
                }
            }
        }
    }
}

/// A sequence without the separator splits into itself alone.
pub proof fn lemma_split_free(s: Seq<char>, sep: char)
    requires
        !has_char(s, sep),
    ensures
        split_on(s, sep) == seq![s],
    decreases s.len(),
{
    if s.len() > 0 {
        assert(!has_char(s.drop_last(), sep)) by {
            if has_char(s.drop_last(), sep) {
                let k = choose|k: int| 0 <= k < s.drop_last().len() && s.drop_last()[k] == sep;
                assert(s[k] == sep);
            }
        }
        lemma_split_free(s.drop_last(), sep);
        assert(s[s.len() - 1] != sep);
        assert(s.drop_last().push(s.last()) =~= s);
        assert(split_on(s, sep) =~= seq![s]);
    } else {
        assert(s =~= Seq::<char>::empty());
    }
}

/// Splitting `a`, the separator, then `b` yields the pieces of `a` followed
/// by the pieces of `b`.
pub proof fn lemma_split_concat(a: Seq<char>, b: Seq<char>, sep: char)
    ensures
        split_on(a + seq![sep] + b, sep) == split_on(a, sep) + split_on(b, sep),
    decreases b.len(),
{
    let s = a + seq![sep] + b;
    if b.len() == 0 {
        assert(s.drop_last() =~= a);
        assert(s.last() == sep);
        assert(split_on(b, sep) =~= seq![Seq::<char>::empty()]);
        assert(split_on(s, sep) =~= split_on(a, sep) + split_on(b, sep));
    } else {
        lemma_split_concat(a, b.drop_last(), sep);
        assert(s.drop_last() =~= a + seq![sep] + b.drop_last());
        lemma_split_nonempty(b.drop_last(), sep);
        lemma_split_nonempty(a, sep);
        let pa = split_on(a, sep);
        let pb = split_on(b.drop_last(), sep);
        if b.last() == sep {
            assert(split_on(s, sep) =~= pa + pb.push(Seq::<char>::empty()));
        } else {
            assert((pa + pb).update(
                (pa + pb).len() - 1,
                (pa + pb).last().push(b.last()),
            ) =~= pa + pb.update(pb.len() - 1, pb.last().push(b.last())));
        }
    }
}

/// `items` joined with `sep` between neighbours.
pub open spec fn join_with(items: Seq<Seq<char>>, sep: Seq<char>) -> Seq<char>
    decreases items.len(),
{
    if items.len() == 0 {
        Seq::empty()
    } else if items.len() == 1 {
        items[0]
    } else {
        join_with(items.drop_last(), sep) + sep + items.last()
    }
}

/// Joining one more item adds the separator and the item.
pub proof fn lemma_join_push(items: Seq<Seq<char>>, sep: Seq<char>, x: Seq<char>)
    ensures
        join_with(items.push(x), sep) == if items.len() == 0 {
            x
        } else {
            join_with(items, sep) + sep + x
        },
{
    assert(items.push(x).drop_last() =~= items);
}

/// Whether `sub` occurs in `s` as a contiguous piece.
pub open spec fn occurs_in(sub: Seq<char>, s: Seq<char>) -> bool {
    exists|k: int|
        0 <= k && k + sub.len() <= s.len() && #[trigger] s.subrange(k, k + sub.len()) == sub
}

/// A piece of `s` is also a piece of `s` with text around it.
pub proof fn lemma_occurs_in_context(x: Seq<char>, s: Seq<char>, a: Seq<char>, b: Seq<char>)
    requires
        occurs_in(x, s),
    ensures
        occurs_in(x, a + s + b),
{
    let k = choose|k: int|
        0 <= k && k + x.len() <= s.len() && #[trigger] s.subrange(k, k + x.len()) == x;
    let t = a + s + b;
    assert(t.subrange(a.len() + k, a.len() + k + x.len()) =~= s.subrange(k, k + x.len()));
}

/// Every item of a joined list occurs in the joined text.
pub proof fn lemma_join_items_occur(items: Seq<Seq<char>>, sep: Seq<char>)
    ensures
        forall|i: int| 0 <= i < items.len() ==> occurs_in(#[trigger] items[i], join_with(items, sep)),
    decreases items.len(),
{
    if items.len() == 1 {
        let j = join_with(items, sep);
        let k: int = 0;
        assert(j.subrange(k, k + items[0].len()) =~= items[0]);
        assert(occurs_in(items[0], j));
    } else if items.len() > 1 {
        let p = items.drop_last();
        lemma_join_items_occur(p, sep);
        let jp = join_with(p, sep);
        let x = items.last();
        let j = join_with(items, sep);
        assert(j == jp + sep + x);
        assert forall|i: int| 0 <= i < items.len() implies occurs_in(#[trigger] items[i], j) by {
            if i < items.len() - 1 {
                assert(items[i] == p[i]);
                assert(occurs_in(p[i], jp));
                lemma_occurs_in_context(p[i], jp, Seq::empty(), sep + x);
                assert(Seq::<char>::empty() + jp + (sep + x) =~= j);
            } else {
                let k = (jp.len() + sep.len()) as int;
                assert(j.subrange(k, k + x.len()) =~= x);
                assert(items[i] == x);
                assert(occurs_in(x, j));
            }
        }
    }
}

/// Appends `sep` (unless `first`) and then `x` to a text being joined.
pub fn join_step(acc: &mut String, first: bool, sep: &str, x: &str, Ghost(items): Ghost<Seq<Seq<char>>>)
    requires
        old(acc)@ == join_with(items, sep@),
        first == (items.len() == 0),
    ensures
        final(acc)@ == join_with(items.push(x@), sep@),
{
    proof {
        lemma_join_push(items, sep@, x@);
    }
    if !first {
        acc.append(sep);
    }
    acc.append(x);
    proof {
        if first {
            assert(join_with(items, sep@) =~= Seq::<char>::empty());
            assert(acc@ =~= x@);
        }
    }
}

/// The items of `v`, joined with `sep`.
pub fn join_strings(v: &Vec<String>, sep: &str) -> (r: String)
    ensures
        r@ == join_with(v.deep_view(), sep@),
{
    let mut r = String::new();
    let mut i: usize = 0;
    assert(v.deep_view().subrange(0, 0) =~= Seq::<Seq<char>>::empty());
    while i < v.len()
        invariant
            i <= v@.len(),
            r@ == join_with(v.deep_view().subrange(0, i as int), sep@),
        decreases v@.len() - i,
    {
        let ghost before = v.deep_view().subrange(0, i as int);
        join_step(&mut r, i == 0, sep, v[i].as_str(), Ghost(before));
        assert(before.push(v[i as int]@) =~= v.deep_view().subrange(0, i as int + 1));
        i = i + 1;
    }
    assert(v.deep_view().subrange(0, v@.len() as int) =~= v.deep_view());
    r
}

// ---------------------------------------------------------------------------
// SQL string literals
// ---------------------------------------------------------------------------

/// `s.replace('\'', "''")`: every single quote doubled, as inside a SQL
/// string literal.
pub open spec fn sql_escape(s: Seq<char>) -> Seq<char>
    decreases s.len(),
{
    if s.len() == 0 {
        Seq::empty()
    } else if s.last() == '\'' {
        sql_escape(s.drop_last()) + seq!['\'', '\'']
    } else {
        sql_escape(s.drop_last()).push(s.last())
    }
}

/// Escapes single quotes for use inside a SQL string literal.
pub fn escape_sql(s: &str) -> (r: String)
    ensures
        r@ == sql_escape(s@),
{
    let n = s.unicode_len();
    let mut r = String::new();
    let mut i: usize = 0;
    while i < n
        invariant
            n == s@.len(),
            i <= n,
            r@ == sql_escape(s@.subrange(0, i as int)),
        decreases n - i,
    {
        let c = s.get_char(i);
        assert(s@.subrange(0, i as int + 1).drop_last() =~= s@.subrange(0, i as int));
        if c == '\'' {
            push_char(&mut r, '\'');
            push_char(&mut r, '\'');
            assert(r@ =~= sql_escape(s@.subrange(0, i as int)) + seq!['\'', '\'']);
        } else {
            push_char(&mut r, c);
        }
        i = i + 1;
    }
    assert(s@.subrange(0, n as int) =~= s@);
    r
}

/// Reads back the text of the body of a SQL string literal, collapsing each
/// doubled quote; `None` where a lone quote would end the literal early.
pub open spec fn sql_unescape(e: Seq<char>) -> Option<Seq<char>>
    decreases e.len(),
{
    if e.len() == 0 {
        Some(Seq::empty())
    } else if e[0] == '\'' {
        if e.len() >= 2 && e[1] == '\'' {
            match sql_unescape(e.subrange(2, e.len() as int)) {
                Some(rest) => Some(seq!['\''] + rest),
                None => None,
            }
        } else {
            None
        }
    } else {
        match sql_unescape(e.drop_first()) {
            Some(rest) => Some(seq![e[0]] + rest),
            None => None,
        }
    }
}

/// Escaping distributes over concatenation.
pub proof fn lemma_sql_escape_concat(a: Seq<char>, b: Seq<char>)
    ensures
        sql_escape(a + b) == sql_escape(a) + sql_escape(b),
    decreases b.len(),
{
    if b.len() == 0 {
        assert(a + b =~= a);
        assert(sql_escape(b) =~= Seq::<char>::empty());
        assert(sql_escape(a) + sql_escape(b) =~= sql_escape(a));
    } else {
        lemma_sql_escape_concat(a, b.drop_last());
        assert((a + b).drop_last() =~= a + b.drop_last());
        if b.last() == '\'' {
            assert(sql_escape(a + b) =~= sql_escape(a) + sql_escape(b));
        } else {
            assert(sql_escape(a + b) =~= sql_escape(a) + sql_escape(b));
        }
    }
}

/// The body of a SQL string literal that `escape_sql` writes reads back as
/// exactly the escaped text: an escaped value cannot close its literal early.
pub proof fn lemma_sql_escape_roundtrip(s: Seq<char>)
    ensures
        sql_unescape(sql_escape(s)) == Some(s),
    decreases s.len(),
{
    if s.len() > 0 {
        let head = seq![s[0]];
        let tail = s.drop_first();
        assert(head + tail =~= s);
        lemma_sql_escape_concat(head, tail);
        lemma_sql_escape_roundtrip(tail);
        assert(head.drop_last() =~= Seq::<char>::empty());
        assert(sql_escape(head.drop_last()) =~= Seq::<char>::empty());
        assert(head.last() == s[0]);
        let e = sql_escape(s);
        if s[0] == '\'' {
            assert(sql_escape(head) =~= seq!['\'', '\'']);
            assert(e.subrange(2, e.len() as int) =~= sql_escape(tail));
            assert(seq!['\''] + tail =~= s);
        } else {
            assert(sql_escape(head) =~= seq![s[0]]);
            assert(e.drop_first() =~= sql_escape(tail));
            assert(seq![s[0]] + tail =~= s);
        }
    }
}

// ---------------------------------------------------------------------------
// Decimal numerals
// ---------------------------------------------------------------------------

/// The ASCII digit for `d < 10`.
pub open spec fn digit_char(d: nat) -> char {
    if d == 0 {
        '0'
    } else if d == 1 {
        '1'
    } else if d == 2 {
        '2'
    } else if d == 3 {
        '3'
    } else if d == 4 {
        '4'
    } else if d == 5 {
        '5'
    } else if d == 6 {
        '6'
    } else if d == 7 {
        '7'
    } else if d == 8 {
        '8'
    } else {
        '9'
    }
}

/// The value of an ASCII digit.
pub open spec fn digit_value(c: char) -> nat {
    ((c as u32) - ('0' as u32)) as nat
}

/// The shortest decimal numeral for `n`, as `Display` writes it.
pub open spec fn decimal(n: nat) -> Seq<char>
    decreases n,
{
    if n < 10 {
        seq![digit_char(n)]
    } else {
        decimal(n / 10).push(digit_char(n % 10))
    }
}

/// The decimal numeral of a signed integer, with a leading `-` when negative.
pub open spec fn decimal_int(n: int) -> Seq<char> {
    if n < 0 {
        seq!['-'] + decimal((-n) as nat)
    } else {
        decimal(n as nat)
    }
}

fn digit_of(d: u64) -> (c: char)
    requires
        d < 10,
    ensures
        c == digit_char(d as nat),
{
    if d == 0 {
        '0'
    } else if d == 1 {
        '1'
    } else if d == 2 {
        '2'
    } else if d == 3 {
        '3'
    } else if d == 4 {
        '4'
    } else if d == 5 {
        '5'
    } else if d == 6 {
        '6'
    } else if d == 7 {
        '7'
    } else if d == 8 {
        '8'
    } else {
        '9'
    }
}

/// The decimal numeral of `n`.
pub fn u64_to_decimal(n: u64) -> (r: String)
    ensures
        r@ == decimal(n as nat),
    decreases n,
{
    if n < 10 {
        let mut r = String::new();
        push_char(&mut r, digit_of(n));
        assert(r@ =~= decimal(n as nat));
        r
    } else {
        let mut r = u64_to_decimal(n / 10);
        push_char(&mut r, digit_of(n % 10));
        r
    }
}

/// The decimal numeral of `n`, with a leading `-` when negative.
pub fn i64_to_decimal(n: i64) -> (r: String)
    ensures
        r@ == decimal_int(n as int),
{
    if n < 0 {
        let m: u64 = if n == i64::MIN {
            9223372036854775808u64
        } else {
            (-n) as u64
        };
        let digits = u64_to_decimal(m);
        let mut r = String::new();
        push_char(&mut r, '-');
        r.append(digits.as_str());
        assert(r@ =~= decimal_int(n as int));
        r
    } else {
        u64_to_decimal(n as u64)
    }
}

} // verus!
