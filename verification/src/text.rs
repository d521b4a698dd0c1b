use vstd::prelude::*;

verus! {

// ---------------------------------------------------------------------------
// Character sequences: first occurrence, splitting and joining.
//
// The query string of a URL is the text after its first '?', and the query
// editor shows that text one '&'-separated segment per line.  Everything the
// synchronizer promises reduces to facts about `first_pos`, `split_at_char`
// and `join_with` proved here.
// ---------------------------------------------------------------------------

/// Index of the first occurrence of `c` in `s`, or -1 when `c` does not occur.
pub open spec fn first_pos(s: Seq<char>, c: char) -> int
    decreases s.len(),
{
    if s.len() == 0 {
        -1
    } else if s[0] == c {
        0
    } else {
        let r = first_pos(s.drop_first(), c);
        if r == -1 {
            -1
        } else {
            r + 1
        }
    }
}

pub proof fn lemma_first_pos_ge(s: Seq<char>, c: char)
    ensures
        first_pos(s, c) >= -1,
    decreases s.len(),
{
    if s.len() > 0 && s[0] != c {
        lemma_first_pos_ge(s.drop_first(), c);
    }
}

pub proof fn lemma_first_pos_none(s: Seq<char>, c: char)
    requires
        first_pos(s, c) == -1,
    ensures
        forall|j: int| 0 <= j < s.len() ==> s[j] != c,
    decreases s.len(),
{
    if s.len() > 0 {
        assert(s[0] != c);
        lemma_first_pos_ge(s.drop_first(), c);
        assert(first_pos(s.drop_first(), c) == -1);
        lemma_first_pos_none(s.drop_first(), c);
        assert forall|j: int| 0 <= j < s.len() implies s[j] != c by {
            if j >= 1 {
                assert(s[j] == s.drop_first()[j - 1]);
            }
        }
    }
}

pub proof fn lemma_first_pos_found(s: Seq<char>, c: char)
    requires
        first_pos(s, c) != -1,
    ensures
        0 <= first_pos(s, c) < s.len(),
        s[first_pos(s, c)] == c,
        forall|j: int| 0 <= j < first_pos(s, c) ==> s[j] != c,
    decreases s.len(),
{
    if s.len() > 0 && s[0] != c {
        lemma_first_pos_found(s.drop_first(), c);
        let i = first_pos(s, c);
        assert(s[i] == s.drop_first()[i - 1]);
        assert forall|j: int| 0 <= j < i implies s[j] != c by {
            if j >= 1 {
                assert(s[j] == s.drop_first()[j - 1]);
            }
        }
    }
}

pub proof fn lemma_first_pos_at(s: Seq<char>, c: char, i: int)
    requires
        0 <= i < s.len(),
        s[i] == c,
        forall|j: int| 0 <= j < i ==> s[j] != c,
    ensures
        first_pos(s, c) == i,
    decreases s.len(),
{
    if i > 0 {
        assert(s[0] != c);
        assert forall|j: int| 0 <= j < i - 1 implies s.drop_first()[j] != c by {
            assert(s.drop_first()[j] == s[j + 1]);
        }
        assert(s.drop_first()[i - 1] == s[i]);
        lemma_first_pos_at(s.drop_first(), c, i - 1);
    }
}

/// `s` cut at every occurrence of `c`; the separators themselves are dropped.
/// A text with no separator is a single segment, so the result never has
/// fewer than one segment.
pub open spec fn split_at_char(s: Seq<char>, c: char) -> Seq<Seq<char>>
    decreases s.len(),
{
    let i = first_pos(s, c);
    if 0 <= i < s.len() {
        seq![s.take(i)] + split_at_char(s.skip(i + 1), c)
    } else {
        seq![s]
    }
}

/// The segments of `ls` glued back together with `c` between them.
pub open spec fn join_with(ls: Seq<Seq<char>>, c: char) -> Seq<char>
    decreases ls.len(),
{
    if ls.len() == 0 {
        Seq::empty()
    } else if ls.len() == 1 {
        ls[0]
    } else {
        ls[0] + seq![c] + join_with(ls.drop_first(), c)
    }
}

pub proof fn lemma_split_len(s: Seq<char>, c: char)
    ensures
        split_at_char(s, c).len() >= 1,
{
    let i = first_pos(s, c);
    if 0 <= i < s.len() {
        assert(split_at_char(s, c) == seq![s.take(i)] + split_at_char(s.skip(i + 1), c));
    } else {
        assert(split_at_char(s, c) == seq![s]);
    }
}

/// Splitting a text at a separator and joining the pieces with the same
/// separator reproduces the text: the buffer round trip loses nothing.
pub proof fn lemma_join_split(s: Seq<char>, c: char)
    ensures
        join_with(split_at_char(s, c), c) == s,
    decreases s.len(),
{
    let i = first_pos(s, c);
    if i != -1 {
        lemma_first_pos_found(s, c);
    }
    if 0 <= i < s.len() {
        lemma_join_split(s.skip(i + 1), c);
        lemma_split_len(s.skip(i + 1), c);
        let rest = split_at_char(s.skip(i + 1), c);
        let ls = seq![s.take(i)] + rest;
        assert(ls.drop_first() =~= rest);
        assert(join_with(ls, c) == s.take(i) + seq![c] + join_with(rest, c));
        assert(s.take(i) + seq![c] + s.skip(i + 1) =~= s);
    } else {
        assert(i == -1);
        assert(split_at_char(s, c) == seq![s]);
    }
}

/// Appending one segment to a joined text appends a separator and then the
/// segment, as long as there was at least one segment already.
pub proof fn lemma_join_push(ls: Seq<Seq<char>>, l: Seq<char>, c: char)
    requires
        ls.len() >= 1,
    ensures
        join_with(ls.push(l), c) == join_with(ls, c) + seq![c] + l,
    decreases ls.len(),
{
    if ls.len() == 1 {
        let p = ls.push(l);
        assert(p.drop_first() =~= seq![l]);
        assert(join_with(p.drop_first(), c) == l);
        assert(join_with(ls, c) == ls[0]);
    } else {
        lemma_join_push(ls.drop_first(), l, c);
        let p = ls.push(l);
        assert(p.drop_first() =~= ls.drop_first().push(l));
        assert(join_with(p, c) == p[0] + seq![c] + join_with(p.drop_first(), c));
        assert(join_with(ls, c) + seq![c] + l =~= ls[0] + seq![c] + (join_with(ls.drop_first(), c)
            + seq![c] + l));
    }
}

// ---------------------------------------------------------------------------
// Executable counterparts.
// ---------------------------------------------------------------------------

/// The line texts held by a vector of character lines.
pub open spec fn lines_view(v: Seq<Vec<char>>) -> Seq<Seq<char>> {
    v.map_values(|l: Vec<char>| l@)
}

/// Position of the first occurrence of `c` in `s`, if any.
pub fn find_char(s: &Vec<char>, c: char) -> (r: Option<usize>)
    ensures
        match r {
            Some(i) => first_pos(s@, c) == i,
            None => first_pos(s@, c) == -1,
        },
{
    let n = s.len();
    let mut i: usize = 0;
    while i < n
        invariant
            i <= n,
            n == s@.len(),
            forall|j: int| 0 <= j < i ==> s@[j] != c,
        decreases n - i,
    {
        if s[i] == c {
            proof {
                lemma_first_pos_at(s@, c, i as int);
            }
            return Some(i);
        }
        i = i + 1;
    }
    proof {
        if first_pos(s@, c) != -1 {
            lemma_first_pos_found(s@, c);
        }
    }
    None
}

/// A copy of `s[from..to]`.
pub fn subvec(s: &Vec<char>, from: usize, to: usize) -> (r: Vec<char>)
    requires
        from <= to <= s@.len(),
    ensures
        r@ == s@.subrange(from as int, to as int),
{
    let mut r: Vec<char> = Vec::new();
    let mut i: usize = from;
    while i < to
        invariant
            from <= i <= to <= s@.len(),
            r@ == s@.subrange(from as int, i as int),
        decreases to - i,
    {
        r.push(s[i]);
        proof {
            assert(s@.subrange(from as int, i + 1 as int) =~= s@.subrange(from as int, i as int)
                .push(s@[i as int]));
        }
        i = i + 1;
    }
    r
}

/// Position of the first occurrence of `c` in `s` at or after `from`, if any.
pub fn find_from(s: &Vec<char>, from: usize, c: char) -> (r: Option<usize>)
    requires
        from <= s@.len(),
    ensures
        match r {
            Some(i) => from <= i < s@.len() && s@[i as int] == c && forall|j: int|
                from <= j < i ==> s@[j] != c,
            None => forall|j: int| from <= j < s@.len() ==> s@[j] != c,
        },
{
    let n = s.len();
    let mut i: usize = from;
    while i < n
        invariant
            from <= i <= n,
            n == s@.len(),
            forall|j: int| from <= j < i ==> s@[j] != c,
        decreases n - i,
    {
        if s[i] == c {
            return Some(i);
        }
        i = i + 1;
    }
    None
}

fn split_from(s: &Vec<char>, from: usize, c: char) -> (r: Vec<Vec<char>>)
    requires
        from <= s@.len(),
    ensures
        lines_view(r@) == split_at_char(s@.skip(from as int), c),
    decreases s@.len() - from,
{
    let ghost tail = s@.skip(from as int);
    let n = s.len();
    if let Some(i) = find_from(s, from, c) {
        proof {
            assert forall|j: int| 0 <= j < i - from implies tail[j] != c by {
                assert(tail[j] == s@[from + j]);
            }
            assert(tail[i - from] == s@[i as int]);
            lemma_first_pos_at(tail, c, i - from);
        }
        let head = subvec(s, from, i);
        let tail_lines = split_from(s, i + 1, c);
        let mut r: Vec<Vec<char>> = Vec::new();
        r.push(head);
        let ghost head_view = head@;
        let mut rest = tail_lines;
        let ghost rest_view = lines_view(rest@);
        r.append(&mut rest);
        proof {
            assert(head_view =~= tail.take(i - from));
            assert(s@.skip(i + 1 as int) =~= tail.skip(i - from + 1));
            assert(lines_view(r@) =~= seq![tail.take(i - from)] + rest_view);
        }
        r
    } else {
        proof {
            assert forall|j: int| 0 <= j < tail.len() implies tail[j] != c by {
                assert(tail[j] == s@[from + j]);
            }
            if first_pos(tail, c) != -1 {
                lemma_first_pos_found(tail, c);
            }
        }
        let whole = subvec(s, from, n);
        let mut r: Vec<Vec<char>> = Vec::new();
        r.push(whole);
        proof {
            assert(whole@ =~= tail);
            assert(lines_view(r@) =~= seq![tail]);
        }
        r
    }
}

/// `s` cut at every occurrence of `c`, one segment per element.
pub fn split_vec(s: &Vec<char>, c: char) -> (r: Vec<Vec<char>>)
    ensures
        lines_view(r@) == split_at_char(s@, c),
        r@.len() >= 1,
{
    let r = split_from(s, 0, c);
    proof {
        assert(s@.skip(0) =~= s@);
        lemma_split_len(s@, c);
    }
    r
}

/// The lines of `lines` joined with `c` between them.
pub fn join_vec(lines: &Vec<Vec<char>>, c: char) -> (r: Vec<char>)
    ensures
        r@ == join_with(lines_view(lines@), c),
{
    let n = lines.len();
    if n == 0 {
        let r: Vec<char> = Vec::new();
        return r;
    }
    let mut r: Vec<char> = Vec::new();
    let first = &lines[0];
    let mut j: usize = 0;
    while j < first.len()
        invariant
            j <= first@.len(),
            first@ == lines@[0]@,
            r@ == lines@[0]@.take(j as int),
        decreases first@.len() - j,
    {
        r.push(first[j]);
        proof {
            assert(lines@[0]@.take(j + 1 as int) =~= lines@[0]@.take(j as int).push(
                lines@[0]@[j as int]));
        }
        j = j + 1;
    }
    proof {
        assert(lines@[0]@.take(lines@[0]@.len() as int) =~= lines@[0]@);
        assert(lines_view(lines@).take(1) =~= seq![lines@[0]@]);
        assert(join_with(lines_view(lines@).take(1), c) == lines@[0]@);
    }
    let mut i: usize = 1;
    while i < n
        invariant
            1 <= i <= n,
            n == lines@.len(),
            r@ == join_with(lines_view(lines@).take(i as int), c),
        decreases n - i,
    {
        r.push(c);
        let line = &lines[i];
        let mut j: usize = 0;
        while j < line.len()
            invariant
                j <= line@.len(),
                line@ == lines@[i as int]@,
                i < n == lines@.len(),
                r@ == join_with(lines_view(lines@).take(i as int), c) + seq![c] + lines@[i as int]@
                    .take(j as int),
            decreases line@.len() - j,
        {
            r.push(line[j]);
            proof {
                assert(lines@[i as int]@.take(j + 1 as int) =~= lines@[i as int]@.take(j as int)
                    .push(lines@[i as int]@[j as int]));
                assert((join_with(lines_view(lines@).take(i as int), c) + seq![c]
                    + lines@[i as int]@.take(j as int)).push(lines@[i as int]@[j as int]) =~= join_with(
                    lines_view(lines@).take(i as int), c) + seq![c] + lines@[i as int]@.take(
                    j + 1 as int));
            }
            j = j + 1;
        }
        proof {
            let lv = lines_view(lines@);
            assert(lines@[i as int]@.take(line@.len() as int) =~= lv[i as int]);
            lemma_join_push(lv.take(i as int), lv[i as int], c);
            assert(lv.take(i as int).push(lv[i as int]) =~= lv.take(i + 1));
        }
        i = i + 1;
    }
    proof {
        assert(lines_view(lines@).take(n as int) =~= lines_view(lines@));
    }
    r
}

/// The segments of `ls` glued together with nothing between them.
pub open spec fn concat_texts(ls: Seq<Seq<char>>) -> Seq<char>
    decreases ls.len(),
{
    if ls.len() == 0 {
        Seq::empty()
    } else {
        concat_texts(ls.drop_last()) + ls.last()
    }
}

/// All the lines' characters, one after another.
pub fn flatten_vec(lines: &Vec<Vec<char>>) -> (r: Vec<char>)
    ensures
        r@ == concat_texts(lines_view(lines@)),
{
    let n = lines.len();
    let mut r: Vec<char> = Vec::new();
    let mut i: usize = 0;
    proof {
        assert(lines_view(lines@).take(0) =~= Seq::<Seq<char>>::empty());
    }
    while i < n
        invariant
            i <= n,
            n == lines@.len(),
            r@ == concat_texts(lines_view(lines@).take(i as int)),
        decreases n - i,
    {
        let line = &lines[i];
        let mut j: usize = 0;
        proof {
            assert(r@ =~= concat_texts(lines_view(lines@).take(i as int)) + lines@[i as int]@.take(
                0,
            ));
        }
        while j < line.len()
            invariant
                j <= line@.len(),
                line@ == lines@[i as int]@,
                i < n == lines@.len(),
                r@ == concat_texts(lines_view(lines@).take(i as int)) + lines@[i as int]@.take(
                    j as int,
                ),
            decreases line@.len() - j,
        {
            r.push(line[j]);
            proof {
                assert((concat_texts(lines_view(lines@).take(i as int)) + lines@[i as int]@.take(
                    j as int,
                )).push(lines@[i as int]@[j as int]) =~= concat_texts(lines_view(lines@).take(
                    i as int,
                )) + lines@[i as int]@.take(j + 1 as int));
            }
            j = j + 1;
        }
        proof {
            let lv = lines_view(lines@);
            assert(lines@[i as int]@.take(line@.len() as int) =~= lv[i as int]);
            assert(lv.take(i + 1).drop_last() =~= lv.take(i as int));
            assert(concat_texts(lv.take(i + 1)) == concat_texts(lv.take(i as int)) + lv[i as int]);
        }
        i = i + 1;
    }
    proof {
        assert(lines_view(lines@).take(n as int) =~= lines_view(lines@));
    }
    r
}

// ---------------------------------------------------------------------------
// Strings.
// ---------------------------------------------------------------------------

/// The texts held by a vector of strings.
pub open spec fn strings_view(v: Seq<String>) -> Seq<Seq<char>> {
    v.map_values(|s: String| s@)
}

/// Relies on String::push: appends the given character to the end of the
/// string.
#[verifier::external_body]
fn push_char(s: &mut String, c: char)
    ensures
        final(s)@ == old(s)@.push(c),
{
    s.push(c)
}

/// A string holding exactly the characters of `v`.
pub fn chars_to_string(v: &Vec<char>) -> (r: String)
    ensures
        r@ == v@,
{
    let mut r = String::new();
    let n = v.len();
    let mut i: usize = 0;
    while i < n
        invariant
            i <= n,
            n == v@.len(),
            r@ == v@.take(i as int),
        decreases n - i,
    {
        push_char(&mut r, v[i]);
        proof {
            assert(v@.take(i + 1 as int) =~= v@.take(i as int).push(v@[i as int]));
        }
        i = i + 1;
    }
    proof {
        assert(v@.take(n as int) =~= v@);
    }
    r
}

/// The characters of `s`, one vector element each.
pub fn str_to_chars(s: &str) -> (r: Vec<char>)
    ensures
        r@ == s@,
{
    let n = s.unicode_len();
    let mut r: Vec<char> = Vec::new();
    let mut i: usize = 0;
    while i < n
        invariant
            i <= n,
            n == s@.len(),
            r@ == s@.take(i as int),
        decreases n - i,
    {
        r.push(s.get_char(i));
        proof {
            assert(s@.take(i + 1 as int) =~= s@.take(i as int).push(s@[i as int]));
        }
        i = i + 1;
    }
    proof {
        assert(s@.take(n as int) =~= s@);
    }
    r
}

// ---------------------------------------------------------------------------
// Display widths.
//
// A terminal cell column is not a character index: wide glyphs take two
// columns and control characters none.  The width of one character is named
// `char_cols`; a line prefix's total width is `cols`, and the executable sum
// saturates at the largest screen coordinate.
// ---------------------------------------------------------------------------

/// Displayed column width of a character, or None for a control character.
pub uninterp spec fn char_cols(c: char) -> Option<usize>;

/// Relies on unicode_width's UnicodeWidthChar::width: the displayed column
/// width of the character by the Unicode width tables, or None for a control
/// character; a pure table lookup determined by the character alone.
#[verifier::external_body]
pub fn char_width(c: char) -> (r: Option<usize>)
    ensures
        r == char_cols(c),
{
    unicode_width::UnicodeWidthChar::width(c)
}

/// Columns one character contributes to a line: control characters count as
/// zero.
pub open spec fn col_of(c: char) -> nat {
    match char_cols(c) {
        Some(w) => w as nat,
        None => 0,
    }
}

/// Total displayed width of a sequence of characters.
pub open spec fn cols(s: Seq<char>) -> nat
    decreases s.len(),
{
    if s.len() == 0 {
        0
    } else {
        cols(s.drop_last()) + col_of(s.last())
    }
}

/// `n` clamped to the range of a screen coordinate.
pub open spec fn clamp_u16(n: nat) -> int {
    if n > 65535 {
        65535
    } else {
        n as int
    }
}

/// Displayed width of `s[..upto]`, saturating at the largest screen
/// coordinate.
pub fn display_cols(s: &Vec<char>, upto: usize) -> (r: u16)
    requires
        upto <= s@.len(),
    ensures
        r as int == clamp_u16(cols(s@.take(upto as int))),
{
    let mut acc: u16 = 0;
    let mut i: usize = 0;
    while i < upto
        invariant
            i <= upto <= s@.len(),
            acc as int == clamp_u16(cols(s@.take(i as int))),
        decreases upto - i,
    {
        let w: u16 = match char_width(s[i]) {
            Some(w) => if w > 65535 {
                65535
            } else {
                w as u16
            },
            None => 0,
        };
        proof {
            assert(s@.take(i + 1 as int).drop_last() =~= s@.take(i as int));
            assert(cols(s@.take(i + 1 as int)) == cols(s@.take(i as int)) + col_of(s@[i as int]));
        }
        acc = acc.saturating_add(w);
        i = i + 1;
    }
    acc
}

/// Whether two line vectors hold the same text.
pub fn lines_equal(a: &Vec<Vec<char>>, b: &Vec<Vec<char>>) -> (r: bool)
    ensures
        r == (lines_view(a@) == lines_view(b@)),
{
    let n = a.len();
    if n != b.len() {
        proof {
            assert(lines_view(a@).len() != lines_view(b@).len());
        }
        return false;
    }
    let mut i: usize = 0;
    while i < n
        invariant
            i <= n,
            n == a@.len() == b@.len(),
            forall|k: int| 0 <= k < i ==> a@[k]@ == b@[k]@,
        decreases n - i,
    {
        if !chars_equal(&a[i], &b[i]) {
            proof {
                assert(lines_view(a@)[i as int] != lines_view(b@)[i as int]);
            }
            return false;
        }
        i = i + 1;
    }
    proof {
        assert(lines_view(a@) =~= lines_view(b@));
    }
    true
}

/// Whether two character vectors hold the same text.
pub fn chars_equal(a: &Vec<char>, b: &Vec<char>) -> (r: bool)
    ensures
        r == (a@ == b@),
{
    let n = a.len();
    if n != b.len() {
        return false;
    }
    let mut i: usize = 0;
    while i < n
        invariant
            i <= n,
            n == a@.len() == b@.len(),
            forall|k: int| 0 <= k < i ==> a@[k] == b@[k],
        decreases n - i,
    {
        if a[i] != b[i] {
            return false;
        }
        i = i + 1;
    }
    proof {
        assert(a@ =~= b@);
    }
    true
}

} // verus!
