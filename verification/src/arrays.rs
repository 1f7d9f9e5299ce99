//! Reading list-valued columns back from their text form: DuckDB renders a
//! `VARCHAR[]` as `[a, b, c]`, and the SQLite store keeps JSON arrays such as
//! `["a", "b"]`.
use vstd::prelude::*;
use vstd::string::*;

use crate::text::{
    has_char, in_trim_set, join_with, is_white_space, json_escape_char, json_escaped,
    json_string_list, json_string_text, lemma_split_concat, lemma_split_free,
    lemma_split_pieces_free, lemma_trim_end_shape, lemma_trim_start_shape, split_on, strip_first,
    strip_last, trim_char, trim_end_set, trim_set, trim_start_set, trim_str, trim_ws, TrimSet,
};

verus! {

/// One piece of a list, cleaned of surrounding blanks and quotes:
/// `part.trim().trim_matches('\'').trim_matches('"')`.
pub open spec fn clean_item(p: Seq<char>) -> Seq<char> {
    trim_char(trim_char(trim_ws(p), '\''), '"')
}

/// The cleaned pieces, in order, with the empty ones left out.
pub open spec fn clean_items(parts: Seq<Seq<char>>) -> Seq<Seq<char>>
    decreases parts.len(),
{
    if parts.len() == 0 {
        Seq::empty()
    } else {
        let r = clean_items(parts.drop_last());
        let c = clean_item(parts.last());
        if c.len() > 0 {
            r.push(c)
        } else {
            r
        }
    }
}

/// The items of a list are its pieces, each cleaned, with those that are
/// empty once cleaned left out, in order.
pub proof fn lemma_clean_items_are_nonempty_pieces(parts: Seq<Seq<char>>)
    ensures
        clean_items(parts) == parts.map_values(|p: Seq<char>| clean_item(p)).filter(
            |c: Seq<char>| c.len() > 0,
        ),
    decreases parts.len(),
{
    reveal(Seq::filter);
    let cl = |p: Seq<char>| clean_item(p);
    let ne = |c: Seq<char>| c.len() > 0;
    if parts.len() == 0 {
        assert(parts.map_values(cl) =~= Seq::<Seq<char>>::empty());
        assert(parts.map_values(cl).filter(ne) =~= Seq::<Seq<char>>::empty());
    } else {
        let p = parts.drop_last();
        lemma_clean_items_are_nonempty_pieces(p);
        assert(parts.map_values(cl).drop_last() =~= p.map_values(cl));
        assert(parts.map_values(cl).last() == clean_item(parts.last()));
    }
}

/// The items of a bracketed list `[a, b, c]`: the text is trimmed, one
/// leading `[` and one trailing `]` are removed if present, and the rest is
/// split at commas into cleaned, non-empty items.
pub open spec fn bracket_list_items(s: Seq<char>) -> Seq<Seq<char>> {
    let t = strip_last(strip_first(trim_ws(s), '['), ']');
    if t.len() == 0 {
        Seq::empty()
    } else {
        clean_items(split_on(t, ','))
    }
}

fn strip_first_char<'a>(s: &'a str, c: char) -> (r: &'a str)
    ensures
        r@ == strip_first(s@, c),
{
    let n = s.unicode_len();
    if n > 0 && s.get_char(0) == c {
        let r = s.substring_char(1, n);
        assert(r@ =~= s@.drop_first());
        r
    } else {
        s
    }
}

fn strip_last_char<'a>(s: &'a str, c: char) -> (r: &'a str)
    ensures
        r@ == strip_last(s@, c),
{
    let n = s.unicode_len();
    if n > 0 && s.get_char(n - 1) == c {
        let r = s.substring_char(0, n - 1);
        assert(r@ =~= s@.drop_last());
        r
    } else {
        s
    }
}

/// The cleaned form of one piece.
pub fn clean_piece(p: &str) -> (r: String)
    ensures
        r@ == clean_item(p@),
{
    let a = trim_str(p, TrimSet::Whitespace);
    let b = trim_str(a, TrimSet::Only('\''));
    let c = trim_str(b, TrimSet::Only('"'));
    c.to_owned()
}

fn push_clean(out: &mut Vec<String>, piece: &str, Ghost(done): Ghost<Seq<Seq<char>>>)
    requires
        old(out).deep_view() == clean_items(done),
    ensures
        final(out).deep_view() == clean_items(done.push(piece@)),
{
    assert(done.push(piece@).drop_last() =~= done);
    let c = clean_piece(piece);
    if c.unicode_len() > 0 {
        let ghost before = out.deep_view();
        out.push(c);
        assert(out.deep_view() =~= before.push(clean_item(piece@)));
    }
}

/// Parses a bracketed list such as `[col1, col2, col3]` into its items.
pub fn parse_duckdb_array_string(s: &str) -> (r: Vec<String>)
    ensures
        r.deep_view() == bracket_list_items(s@),
{
    let t0 = trim_str(s, TrimSet::Whitespace);
    let t1 = strip_first_char(t0, '[');
    let t = strip_last_char(t1, ']');
    let n = t.unicode_len();
    if n == 0 {
        let r: Vec<String> = Vec::new();
        assert(r.deep_view() =~= Seq::<Seq<char>>::empty());
        return r;
    }
    let mut out: Vec<String> = Vec::new();
    let ghost mut done: Seq<Seq<char>> = Seq::empty();
    let mut start: usize = 0;
    let mut i: usize = 0;
    assert(out.deep_view() =~= clean_items(done));
    assert(t@.subrange(0, 0) =~= Seq::<char>::empty());
    assert(split_on(t@.subrange(0, 0), ',') =~= done.push(t@.subrange(0, 0)));
    while i < n
        invariant
            n == t@.len(),
            start <= i <= n,
            split_on(t@.subrange(0, i as int), ',') == done.push(
                t@.subrange(start as int, i as int),
            ),
            out.deep_view() == clean_items(done),
        decreases n - i,
    {
        let c = t.get_char(i);
        assert(t@.subrange(0, i as int + 1).drop_last() =~= t@.subrange(0, i as int));
        assert(t@.subrange(0, i as int + 1).last() == c);
        if c == ',' {
            let piece = t.substring_char(start, i);
            push_clean(&mut out, piece, Ghost(done));
            proof {
                done = done.push(piece@);
            }
            start = i + 1;
            assert(t@.subrange(start as int, i as int + 1) =~= Seq::<char>::empty());
        } else {
            assert(t@.subrange(start as int, i as int + 1) =~= t@.subrange(
                start as int,
                i as int,
            ).push(c));
        }
        i = i + 1;
    }
    let last = t.substring_char(start, n);
    push_clean(&mut out, last, Ghost(done));
    assert(t@.subrange(0, n as int) =~= t@);
    out
}

/// Parses the bracketed list form used for tags and categories in the
/// dashboard; it reads lists exactly as `parse_duckdb_array_string` does.
pub fn parse_array_str(s: &str) -> (r: Vec<String>)
    ensures
        r.deep_view() == bracket_list_items(s@),
{
    parse_duckdb_array_string(s)
}

/// What `serde_json::from_str::<Vec<String>>` makes of a text: the strings of
/// a JSON array of strings, or `None` where the text is not one.
pub uninterp spec fn json_string_array(text: Seq<char>) -> Option<Seq<Seq<char>>>;

/// Calls `serde_json::from_str::<Vec<String>>`; its result is the one named
/// by `json_string_array` for the same text. serde_json's parser reads the
/// text its writer makes of a list of strings (`json_string_list`) back as
/// that list.
#[verifier::external_body]
fn read_json_string_array(s: &str) -> (r: Option<Vec<String>>)
    ensures
        match r {
            Some(v) => json_string_array(s@) == Some(v.deep_view()),
            None => json_string_array(s@) is None,
        },
        forall|items: Seq<Seq<char>>|
            s@ == #[trigger] json_string_list(items) ==> match r {
                Some(v) => v.deep_view() == items,
                None => false,
            },
{
    serde_json::from_str::<Vec<String>>(s).ok()
}

/// The items a list column holds: the JSON array where the text is one,
/// otherwise the bracketed list it reads as.
pub open spec fn list_column_items(parsed: Option<Seq<Seq<char>>>, s: Seq<char>) -> Seq<
    Seq<char>,
> {
    match parsed {
        Some(v) => v,
        None => bracket_list_items(s),
    }
}

/// Chooses between the JSON reading `parsed` of `s` and its bracketed-list
/// reading.
pub fn json_array_or_bracket_items(s: &str, parsed: Option<Vec<String>>) -> (r: Vec<String>)
    ensures
        r.deep_view() == list_column_items(
            match parsed {
                Some(v) => Some(v.deep_view()),
                None => None,
            },
            s@,
        ),
{
    match parsed {
        Some(v) => v,
        None => parse_duckdb_array_string(s),
    }
}

/// Parses a JSON array string like `["col1", "col2"]`, falling back to the
/// bracketed `[col1, col2]` form. The JSON list written for a list of names
/// (`json_list_text`) reads back as exactly those names.
pub fn parse_json_array_string(s: &str) -> (r: Vec<String>)
    ensures
        r.deep_view() == list_column_items(json_string_array(s@), s@),
        forall|items: Seq<Seq<char>>| s@ == #[trigger] json_string_list(items) ==> r.deep_view() == items,
{
    let parsed = read_json_string_array(s);
    json_array_or_bracket_items(s, parsed)
}

// ---------------------------------------------------------------------------
// Laws
// ---------------------------------------------------------------------------

/// Trimming only removes characters: anything in the trimmed text was in the
/// untrimmed one.
pub proof fn lemma_trim_keeps_chars(s: Seq<char>, k: TrimSet, c: char)
    ensures
        has_char(trim_set(s, k), c) ==> has_char(s, c),
{
    lemma_trim_start_shape(s, k);
    let a = trim_start_set(s, k);
    lemma_trim_end_shape(a, k);
    let i = choose|i: int| 0 <= i <= s.len() && a == s.subrange(i, s.len() as int);
    let j = choose|j: int| 0 <= j <= a.len() && trim_end_set(a, k) == a.subrange(0, j);
    if has_char(trim_set(s, k), c) {
        let x = choose|x: int| 0 <= x < trim_set(s, k).len() && trim_set(s, k)[x] == c;
        assert(s[i + x] == c);
    }
}

proof fn lemma_clean_items_shape(parts: Seq<Seq<char>>)
    requires
        forall|i: int| 0 <= i < parts.len() ==> !has_char(#[trigger] parts[i], ','),
    ensures
        forall|i: int|
            0 <= i < clean_items(parts).len() ==> (#[trigger] clean_items(parts)[i]).len() > 0
                && !has_char(clean_items(parts)[i], ','),
    decreases parts.len(),
{
    if parts.len() > 0 {
        assert forall|i: int| 0 <= i < parts.drop_last().len() implies !has_char(
            #[trigger] parts.drop_last()[i],
            ',',
        ) by {
            assert(parts.drop_last()[i] == parts[i]);
        }
        lemma_clean_items_shape(parts.drop_last());
        let p = parts.last();
        assert(!has_char(p, ','));
        lemma_trim_keeps_chars(p, TrimSet::Whitespace, ',');
        lemma_trim_keeps_chars(trim_ws(p), TrimSet::Only('\''), ',');
        lemma_trim_keeps_chars(trim_char(trim_ws(p), '\''), TrimSet::Only('"'), ',');
        let r = clean_items(parts.drop_last());
        let c = clean_item(p);
        assert(!has_char(c, ','));
        if c.len() > 0 {
            assert forall|i: int|
                0 <= i < clean_items(parts).len() implies (#[trigger] clean_items(
                parts,
            )[i]).len() > 0 && !has_char(clean_items(parts)[i], ',') by {
                if i < r.len() {
                    assert(clean_items(parts)[i] == r[i]);
                } else {
                    assert(clean_items(parts)[i] == c);
                }
            }
        }
    }
}

/// Every item read from a list is non-empty and holds no comma.
pub proof fn lemma_list_items_well_formed(s: Seq<char>)
    ensures
        forall|i: int|
            0 <= i < bracket_list_items(s).len() ==> (#[trigger] bracket_list_items(s)[i]).len()
                > 0 && !has_char(bracket_list_items(s)[i], ','),
{
    let t = strip_last(strip_first(trim_ws(s), '['), ']');
    if t.len() > 0 {
        lemma_split_pieces_free(t, ',');
        lemma_clean_items_shape(split_on(t, ','));
    }
}

/// How DuckDB writes a list of strings as text: `[a, b, c]`.
pub open spec fn render_bracket_list(items: Seq<Seq<char>>) -> Seq<char> {
    seq!['['] + join_with(items, seq![',', ' ']) + seq![']']
}

/// An item that survives the list rendering unchanged: non-empty, free of
/// commas, and already in cleaned form.
pub open spec fn plain_list_item(x: Seq<char>) -> bool {
    x.len() > 0 && !has_char(x, ',') && clean_item(x) == x
}

proof fn lemma_trim_start_unchanged(s: Seq<char>, k: TrimSet)
    requires
        s.len() > 0,
        !in_trim_set(k, s[0]),
    ensures
        trim_start_set(s, k) == s,
{
}

proof fn lemma_trim_end_unchanged(s: Seq<char>, k: TrimSet)
    requires
        s.len() > 0,
        !in_trim_set(k, s.last()),
    ensures
        trim_end_set(s, k) == s,
{
}

proof fn lemma_clean_leading_space(y: Seq<char>)
    ensures
        clean_item(seq![' '] + y) == clean_item(y),
{
    let s = seq![' '] + y;
    assert(s.drop_first() =~= y);
    assert(is_white_space(' '));
    assert(trim_start_set(s, TrimSet::Whitespace) == trim_start_set(y, TrimSet::Whitespace));
}

proof fn lemma_join_parses_back(items: Seq<Seq<char>>)
    requires
        items.len() >= 1,
        forall|i: int| 0 <= i < items.len() ==> plain_list_item(#[trigger] items[i]),
    ensures
        clean_items(split_on(join_with(items, seq![',', ' ']), ',')) == items,
    decreases items.len(),
{
    let sep = seq![',', ' '];
    if items.len() == 1 {
        assert(plain_list_item(items[0]));
        lemma_split_free(items[0], ',');
        let parts = seq![items[0]];
        assert(parts.drop_last() =~= Seq::<Seq<char>>::empty());
        assert(clean_items(parts.drop_last()) =~= Seq::<Seq<char>>::empty());
        assert(parts.last() == items[0]);
        assert(clean_items(parts) == seq![items[0]]);
        assert(items =~= seq![items[0]]);
    } else {
        let prev = items.drop_last();
        let y = items.last();
        assert forall|i: int| 0 <= i < prev.len() implies plain_list_item(#[trigger] prev[i]) by {
            assert(prev[i] == items[i]);
        }
        lemma_join_parses_back(prev);
        assert(plain_list_item(items[items.len() - 1]));
        let jp = join_with(prev, sep);
        let sy = seq![' '] + y;
        assert(join_with(items, sep) =~= jp + seq![','] + sy);
        lemma_split_concat(jp, sy, ',');
        assert(!has_char(sy, ',')) by {
            if has_char(sy, ',') {
                let k = choose|k: int| 0 <= k < sy.len() && sy[k] == ',';
                assert(y[k - 1] == ',');
            }
        }
        lemma_split_free(sy, ',');
        lemma_clean_leading_space(y);
        let parts = split_on(jp, ',') + seq![sy];
        assert(parts.drop_last() =~= split_on(jp, ','));
        assert(parts.last() == sy);
        assert(y == items[items.len() - 1]);
        assert(clean_item(sy) == y);
        assert(prev.push(y) =~= items);
        assert(clean_items(split_on(jp, ',')) == prev);
        assert(clean_items(parts.drop_last()) == prev);
        assert(y.len() > 0);
        assert(parts.len() > 0);
        assert(clean_items(parts) == clean_items(parts.drop_last()).push(clean_item(parts.last())));
        assert(clean_items(parts) == prev.push(y));
    }
}

/// Reading back a list that DuckDB rendered as `[a, b, c]` gives the items
/// it was rendered from, for items that are non-empty, comma-free and
/// already clean.
pub proof fn lemma_bracket_list_roundtrip(items: Seq<Seq<char>>)
    requires
        forall|i: int| 0 <= i < items.len() ==> plain_list_item(#[trigger] items[i]),
    ensures
        bracket_list_items(render_bracket_list(items)) == items,
{
    let j = join_with(items, seq![',', ' ']);
    let s = render_bracket_list(items);
    assert(s[0] == '[');
    assert(s.last() == ']');
    lemma_trim_start_unchanged(s, TrimSet::Whitespace);
    lemma_trim_end_unchanged(s, TrimSet::Whitespace);
    assert(strip_first(s, '[') =~= j + seq![']']);
    assert(strip_last(j + seq![']'], ']') =~= j);
    if items.len() == 0 {
        assert(j =~= Seq::<char>::empty());
        assert(bracket_list_items(s) =~= items);
    } else {
        lemma_join_parses_back(items);
        if j.len() == 0 {
            assert(plain_list_item(items[0]));
            lemma_join_nonempty(items);
        }
    }
}

proof fn lemma_join_nonempty(items: Seq<Seq<char>>)
    requires
        items.len() >= 1,
        items[0].len() > 0,
    ensures
        join_with(items, seq![',', ' ']).len() > 0,
    decreases items.len(),
{
    if items.len() > 1 {
        lemma_join_nonempty(items.drop_last());
    }
}

/// An item that the dashboard reads back unchanged from the JSON list the
/// store keeps: non-empty, without `,`, `"`, `\\` or control characters.
pub open spec fn plain_json_item(x: Seq<char>) -> bool {
    &&& x.len() > 0
    &&& forall|i: int|
        0 <= i < x.len() ==> #[trigger] x[i] != ',' && x[i] != '"' && x[i] != '\\' && (x[i] as int)
            >= 32
}

proof fn lemma_plain_escapes_to_itself(x: Seq<char>)
    requires
        forall|i: int|
            0 <= i < x.len() ==> #[trigger] x[i] != '"' && x[i] != '\\' && (x[i] as int) >= 32,
    ensures
        json_escaped(x) == x,
    decreases x.len(),
{
    if x.len() > 0 {
        assert forall|i: int| 0 <= i < x.drop_last().len() implies #[trigger] x.drop_last()[i]
            != '"' && x.drop_last()[i] != '\\' && (x.drop_last()[i] as int) >= 32 by {
            assert(x.drop_last()[i] == x[i]);
        }
        lemma_plain_escapes_to_itself(x.drop_last());
        let c = x.last();
        assert(x[x.len() - 1] == c);
        assert(json_escape_char(c) == seq![c]);
        assert(x.drop_last() + seq![c] =~= x);
    }
}

proof fn lemma_quoted_item_cleans(x: Seq<char>)
    requires
        plain_json_item(x),
    ensures
        clean_item(json_string_text(x)) == x,
        !has_char(json_string_text(x), ','),
{
    assert forall|i: int| 0 <= i < x.len() implies #[trigger] x[i] != '"' && x[i] != '\\' && (
    x[i] as int) >= 32 by {}
    lemma_plain_escapes_to_itself(x);
    let q = json_string_text(x);
    assert(q =~= seq!['"'] + x + seq!['"']);
    assert(q[0] == '"');
    assert(q.last() == '"');
    assert(!is_white_space('"'));
    lemma_trim_start_unchanged(q, TrimSet::Whitespace);
    lemma_trim_end_unchanged(q, TrimSet::Whitespace);
    assert(trim_ws(q) == q);
    lemma_trim_start_unchanged(q, TrimSet::Only('\''));
    lemma_trim_end_unchanged(q, TrimSet::Only('\''));
    assert(trim_char(q, '\'') == q);
    let k = TrimSet::Only('"');
    assert(q.drop_first() =~= x + seq!['"']);
    assert(x[0] != '"');
    assert((x + seq!['"'])[0] == x[0]);
    lemma_trim_start_unchanged(x + seq!['"'], k);
    assert(trim_start_set(q, k) == x + seq!['"']);
    assert((x + seq!['"']).drop_last() =~= x);
    assert(x[x.len() - 1] != '"');
    lemma_trim_end_unchanged(x, k);
    assert(trim_end_set(x + seq!['"'], k) == x);
    assert(trim_char(q, '"') == x);
    assert(!has_char(q, ',')) by {
        if has_char(q, ',') {
            let j = choose|j: int| 0 <= j < q.len() && q[j] == ',';
            assert(q[j] == x[j - 1]);
        }
    }
}

proof fn lemma_comma_join_cleans(pieces: Seq<Seq<char>>, items: Seq<Seq<char>>)
    requires
        pieces.len() == items.len(),
        items.len() >= 1,
        forall|i: int|
            0 <= i < items.len() ==> !has_char(#[trigger] pieces[i], ',') && clean_item(pieces[i])
                == items[i] && items[i].len() > 0,
    ensures
        clean_items(split_on(join_with(pieces, seq![',']), ',')) == items,
    decreases items.len(),
{
    if items.len() == 1 {
        assert(!has_char(pieces[0], ','));
        lemma_split_free(pieces[0], ',');
        let parts = seq![pieces[0]];
        assert(parts.drop_last() =~= Seq::<Seq<char>>::empty());
        assert(clean_items(parts.drop_last()) =~= Seq::<Seq<char>>::empty());
        assert(parts.last() == pieces[0]);
        assert(clean_item(pieces[0]) == items[0]);
        assert(items[0].len() > 0);
        assert(clean_items(parts) =~= seq![items[0]]);
        assert(items =~= seq![items[0]]);
    } else {
        let pp = pieces.drop_last();
        let pi = items.drop_last();
        assert forall|i: int| 0 <= i < pi.len() implies !has_char(#[trigger] pp[i], ',')
            && clean_item(pp[i]) == pi[i] && pi[i].len() > 0 by {
            assert(pp[i] == pieces[i]);
            assert(pi[i] == items[i]);
        }
        lemma_comma_join_cleans(pp, pi);
        let n = items.len() - 1;
        let last = pieces[n];
        assert(!has_char(last, ',') && clean_item(last) == items[n] && items[n].len() > 0);
        let jp = join_with(pp, seq![',']);
        assert(join_with(pieces, seq![',']) =~= jp + seq![','] + last);
        lemma_split_concat(jp, last, ',');
        lemma_split_free(last, ',');
        let parts = split_on(jp, ',') + seq![last];
        assert(parts.drop_last() =~= split_on(jp, ','));
        assert(parts.last() == last);
        assert(clean_items(parts) == clean_items(parts.drop_last()).push(clean_item(parts.last())));
        assert(pi.push(items[n]) =~= items);
    }
}

/// Tags and categories stored as a JSON list (`json_list_text`) read back
/// unchanged as the dashboard reads such lists (`parse_array_str`), for items
/// that are non-empty and free of commas, quotes, backslashes and control
/// characters.
pub proof fn lemma_json_list_reads_back(items: Seq<Seq<char>>)
    requires
        forall|i: int| 0 <= i < items.len() ==> plain_json_item(#[trigger] items[i]),
    ensures
        bracket_list_items(json_string_list(items)) == items,
{
    let pieces = items.map_values(|x: Seq<char>| json_string_text(x));
    let j = join_with(pieces, seq![',']);
    let s = json_string_list(items);
    assert(s =~= seq!['['] + j + seq![']']);
    assert(s[0] == '[');
    assert(s.last() == ']');
    lemma_trim_start_unchanged(s, TrimSet::Whitespace);
    lemma_trim_end_unchanged(s, TrimSet::Whitespace);
    assert(strip_first(s, '[') =~= j + seq![']']);
    assert(strip_last(j + seq![']'], ']') =~= j);
    if items.len() == 0 {
        assert(j =~= Seq::<char>::empty());
        assert(bracket_list_items(s) =~= items);
    } else {
        assert forall|i: int| 0 <= i < items.len() implies !has_char(#[trigger] pieces[i], ',')
            && clean_item(pieces[i]) == items[i] && items[i].len() > 0 by {
            assert(plain_json_item(items[i]));
            lemma_quoted_item_cleans(items[i]);
        }
        lemma_comma_join_cleans(pieces, items);
        lemma_comma_join_nonempty(pieces);
    }
}

proof fn lemma_comma_join_nonempty(pieces: Seq<Seq<char>>)
    requires
        pieces.len() >= 1,
        pieces[0].len() > 0,
    ensures
        join_with(pieces, seq![',']).len() > 0,
    decreases pieces.len(),
{
    if pieces.len() > 1 {
        lemma_comma_join_nonempty(pieces.drop_last());
    }
}

} // verus!
