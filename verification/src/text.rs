//! Text-scanning primitives for the structured output of the external
//! control tools: substring search, line splitting, whitespace-separated
//! fields, and colon-delimited suffixes.

use vstd::prelude::*;

verus! {

/// Characters treated as field separators when a line is split into
/// whitespace-separated fields.
pub open spec fn is_ws(c: char) -> bool {
    c == ' ' || c == '\t' || c == '\r' || c == '\n'
}

/// `pat` occurs in `hay` starting at index `i`.
pub open spec fn matches_at(hay: Seq<char>, pat: Seq<char>, i: int) -> bool {
    0 <= i && i + pat.len() <= hay.len() && hay.subrange(i, i + pat.len() as int) == pat
}

/// `pat` occurs somewhere in `hay`.
pub open spec fn contains_seq(hay: Seq<char>, pat: Seq<char>) -> bool {
    exists|i: int| matches_at(hay, pat, i)
}

/// Executable whitespace test, equal to [`is_ws`].
pub fn is_ws_char(c: char) -> (r: bool)
    ensures
        r == is_ws(c),
{
    c == ' ' || c == '\t' || c == '\r' || c == '\n'
}

/// Substring search: does `pat` occur in `hay`?
pub fn contains_str(hay: &str, pat: &str) -> (r: bool)
    ensures
        r == contains_seq(hay@, pat@),
{
    let n = hay.unicode_len();
    let m = pat.unicode_len();
    if m == 0 {
        assert(matches_at(hay@, pat@, 0)) by {
            assert(hay@.subrange(0, 0) =~= pat@);
        }
        return true;
    }
    if m > n {
        assert(forall|i: int| !matches_at(hay@, pat@, i));
        return false;
    }
    let mut i: usize = 0;
    loop
        invariant
            1 <= m <= n,
            n == hay@.len(),
            m == pat@.len(),
            0 <= i <= n - m + 1,
            forall|k: int| 0 <= k < i ==> !matches_at(hay@, pat@, k),
        decreases n - m + 1 - i,
    {
        if i > n - m {
            assert(forall|k: int| matches_at(hay@, pat@, k) ==> 0 <= k <= n - m);
            return false;
        }
        let mut j: usize = 0;
        let mut mismatch = false;
        while j < m
            invariant
                1 <= m <= n,
                n == hay@.len(),
                m == pat@.len(),
                0 <= i <= n - m,
                0 <= j <= m,
                !mismatch ==> forall|l: int| 0 <= l < j ==> hay@[i + l] == pat@[l],
                mismatch ==> !matches_at(hay@, pat@, i as int),
            decreases m - j,
        {
            let hc = hay.get_char(i + j);
            let pc = pat.get_char(j);
            if hc == pc {
                j = j + 1;
            } else {
                assert(!matches_at(hay@, pat@, i as int)) by {
                    if matches_at(hay@, pat@, i as int) {
                        let ji: int = j as int;
                        assert(hay@.subrange(i as int, i + m as int)[ji] == pat@[ji]);
                    }
                }
                mismatch = true;
                j = m;
            }
        }
        if !mismatch {
            assert(matches_at(hay@, pat@, i as int)) by {
                assert(hay@.subrange(i as int, i + m as int) =~= pat@);
            }
            return true;
        }
        i = i + 1;
    }
}

/// Exact string equality: case-sensitive, no normalization.
pub fn str_eq(a: &str, b: &str) -> (r: bool)
    ensures
        r == (a@ == b@),
{
    let x = a.to_owned();
    let y = b.to_owned();
    x == y
}

/// Everything after the first occurrence of `c` in `s`, or `None` when `c`
/// does not occur.
pub open spec fn after_first(s: Seq<char>, c: char) -> Option<Seq<char>>
    decreases s.len(),
{
    if s.len() == 0 {
        None
    } else if s[0] == c {
        Some(s.drop_first())
    } else {
        after_first(s.drop_first(), c)
    }
}

/// `s` without its leading whitespace.
pub open spec fn skip_ws(s: Seq<char>) -> Seq<char>
    decreases s.len(),
{
    if s.len() == 0 {
        s
    } else if is_ws(s[0]) {
        skip_ws(s.drop_first())
    } else {
        s
    }
}

/// The suffix of `s` after the first occurrence of `c`, with leading
/// whitespace removed.
pub open spec fn after_first_trimmed(s: Seq<char>, c: char) -> Option<Seq<char>> {
    match after_first(s, c) {
        Some(rest) => Some(skip_ws(rest)),
        None => None,
    }
}

/// Index of the first occurrence of `c` in `line`, tied to [`after_first`].
fn find_char_at(line: &str, c: char) -> (r: Option<usize>)
    ensures
        match r {
            Some(i) => i < line@.len() && line@[i as int] == c && after_first(line@, c)
                == Some(line@.subrange(i as int + 1, line@.len() as int)),
            None => after_first(line@, c) is None,
        },
{
    let n = line.unicode_len();
    let mut i: usize = 0;
    assert(line@.subrange(0, n as int) =~= line@);
    loop
        invariant
            n == line@.len(),
            0 <= i <= n,
            after_first(line@.subrange(i as int, n as int), c) == after_first(line@, c),
        decreases n - i,
    {
        if i == n {
            assert(line@.subrange(i as int, n as int) =~= Seq::<char>::empty());
            return None;
        }
        let ch = line.get_char(i);
        assert(line@.subrange(i as int, n as int)[0] == line@[i as int]);
        assert(line@.subrange(i as int, n as int).drop_first() =~= line@.subrange(
            i as int + 1,
            n as int,
        ));
        if ch == c {
            return Some(i);
        }
        i = i + 1;
    }
}

/// Index of the first non-whitespace character of `line` at or after `from`,
/// or the length of `line`; tied to [`skip_ws`].
fn skip_ws_from(line: &str, from: usize) -> (j: usize)
    requires
        from <= line@.len(),
    ensures
        from <= j <= line@.len(),
        skip_ws(line@.subrange(from as int, line@.len() as int)) == line@.subrange(
            j as int,
            line@.len() as int,
        ),
{
    let n = line.unicode_len();
    let mut j: usize = from;
    loop
        invariant
            n == line@.len(),
            from <= j <= n,
            skip_ws(line@.subrange(from as int, n as int)) == skip_ws(
                line@.subrange(j as int, n as int),
            ),
        decreases n - j,
    {
        if j == n {
            assert(line@.subrange(j as int, n as int) =~= Seq::<char>::empty());
            return j;
        }
        let ch = line.get_char(j);
        assert(line@.subrange(j as int, n as int)[0] == line@[j as int]);
        if !is_ws_char(ch) {
            return j;
        }
        assert(line@.subrange(j as int, n as int).drop_first() =~= line@.subrange(
            j as int + 1,
            n as int,
        ));
        j = j + 1;
    }
}

/// The part of `line` after its first `c`, with leading whitespace dropped.
pub fn after_char_trimmed(line: &str, c: char) -> (r: Option<String>)
    ensures
        r.deep_view() == after_first_trimmed(line@, c),
{
    let n = line.unicode_len();
    match find_char_at(line, c) {
        None => None,
        Some(i) => {
            let j = skip_ws_from(line, i + 1);
            let rest = line.substring_char(j, n);
            Some(rest.to_owned())
        },
    }
}

/// The lines of `s`: pieces separated by `'\n'`, where a `'\r'` immediately
/// before the `'\n'` belongs to the separator, and a final piece is dropped
/// when it is empty (so a trailing newline produces no extra line).
pub open spec fn spec_lines(s: Seq<char>) -> Seq<Seq<char>>
    decreases s.len(),
{
    if s.len() == 0 {
        Seq::empty()
    } else if s[0] == '\n' {
        seq![Seq::<char>::empty()] + spec_lines(s.drop_first())
    } else if s[0] == '\r' && s.len() >= 2 && s[1] == '\n' {
        seq![Seq::<char>::empty()] + spec_lines(s.subrange(2, s.len() as int))
    } else {
        let r = spec_lines(s.drop_first());
        if r.len() == 0 {
            seq![seq![s[0]]]
        } else {
            seq![seq![s[0]] + r[0]] + r.drop_first()
        }
    }
}

/// The content of the line that ends at the newline at index `i` of `s`:
/// everything before it, less a `'\r'` just before the newline.
pub open spec fn line_content(s: Seq<char>, i: int) -> Seq<char> {
    if i > 0 && s[i - 1] == '\r' {
        s.subrange(0, i - 1)
    } else {
        s.subrange(0, i)
    }
}

/// Splitting off the line that ends at the first newline of `s` leaves the
/// lines of the rest.
proof fn lemma_lines_split(s: Seq<char>, i: int)
    requires
        0 <= i < s.len(),
        s[i] == '\n',
        forall|j: int| 0 <= j < i ==> s[j] != '\n',
    ensures
        spec_lines(s) == seq![line_content(s, i)] + spec_lines(s.subrange(i + 1, s.len() as int)),
    decreases i,
{
    if i == 0 {
        assert(line_content(s, 0) =~= Seq::<char>::empty());
        assert(s.drop_first() =~= s.subrange(1, s.len() as int));
    } else if i == 1 && s[0] == '\r' {
        assert(line_content(s, 1) =~= Seq::<char>::empty());
    } else {
        let t = s.drop_first();
        assert(forall|j: int| 0 <= j < i - 1 ==> t[j] != '\n');
        lemma_lines_split(t, i - 1);
        let r = spec_lines(t);
        let rest = s.subrange(i + 1, s.len() as int);
        assert(t.subrange(i, t.len() as int) =~= rest);
        assert(r == seq![line_content(t, i - 1)] + spec_lines(rest));
        assert(r[0] == line_content(t, i - 1));
        assert(r.drop_first() =~= spec_lines(rest));
        assert(seq![s[0]] + line_content(t, i - 1) =~= line_content(s, i)) by {
            if i - 1 > 0 && t[i - 2] == '\r' {
                assert(t.subrange(0, i - 2) =~= s.subrange(1, i - 1));
            } else {
                assert(t.subrange(0, i - 1) =~= s.subrange(1, i));
            }
        }
        assert(spec_lines(s) == seq![seq![s[0]] + r[0]] + r.drop_first());
        assert(seq![seq![s[0]] + r[0]] + r.drop_first() =~= seq![line_content(s, i)] + spec_lines(
            rest,
        ));
    }
}

/// A string without newlines is one line (or none, when empty).
proof fn lemma_lines_whole(s: Seq<char>)
    requires
        forall|j: int| 0 <= j < s.len() ==> s[j] != '\n',
    ensures
        spec_lines(s) == if s.len() == 0 {
            Seq::<Seq<char>>::empty()
        } else {
            seq![s]
        },
    decreases s.len(),
{
    if s.len() > 0 {
        let t = s.drop_first();
        lemma_lines_whole(t);
        if s.len() == 1 {
            assert(seq![s[0]] =~= s);
        } else {
            let r = spec_lines(t);
            assert(r == seq![t]);
            assert(seq![s[0]] + t =~= s);
            assert(seq![seq![s[0]] + r[0]] + r.drop_first() =~= seq![s]);
        }
    }
}

/// Splits `s` into its lines, as [`spec_lines`] describes them.
pub fn split_lines(s: &str) -> (r: Vec<String>)
    ensures
        r.deep_view() == spec_lines(s@),
{
    let n = s.unicode_len();
    let mut acc: Vec<String> = Vec::new();
    let mut start: usize = 0;
    let mut i: usize = 0;
    assert(s@.subrange(0, n as int) =~= s@);
    assert(acc.deep_view() + spec_lines(s@) =~= spec_lines(s@));
    loop
        invariant
            n == s@.len(),
            0 <= start <= i <= n,
            acc.deep_view() + spec_lines(s@.subrange(start as int, n as int)) == spec_lines(s@),
            forall|j: int| start <= j < i ==> s@[j] != '\n',
        decreases n - i,
    {
        let ghost t = s@.subrange(start as int, n as int);
        if i == n {
            proof {
                assert(forall|j: int| 0 <= j < t.len() ==> t[j] != '\n');
                lemma_lines_whole(t);
            }
            if start < n {
                let piece = s.substring_char(start, n).to_owned();
                let ghost old_acc = acc.deep_view();
                acc.push(piece);
                proof {
                    assert(acc.deep_view() =~= old_acc.push(t));
                    assert(old_acc.push(t) =~= old_acc + seq![t]);
                    assert(old_acc + spec_lines(t) =~= acc.deep_view());
                }
            } else {
                assert(acc.deep_view() + spec_lines(t) =~= acc.deep_view());
            }
            return acc;
        }
        let ch = s.get_char(i);
        if ch == '\n' {
            let k: usize = i - start;
            proof {
                assert(t[k as int] == s@[i as int]);
                assert(forall|j: int| 0 <= j < k ==> t[j] == s@[start + j] && t[j] != '\n');
                lemma_lines_split(t, k as int);
            }
            let piece_end: usize = if i > start && s.get_char(i - 1) == '\r' {
                i - 1
            } else {
                i
            };
            proof {
                if k > 0 && t[k - 1] == '\r' {
                    assert(t[k - 1] == s@[i - 1]);
                    assert(line_content(t, k as int) =~= s@.subrange(
                        start as int,
                        piece_end as int,
                    ));
                } else {
                    if i > start {
                        assert(s@[i - 1] == t[k - 1]);
                    }
                    assert(line_content(t, k as int) =~= s@.subrange(
                        start as int,
                        piece_end as int,
                    ));
                }
            }
            let piece = s.substring_char(start, piece_end).to_owned();
            let ghost old_acc = acc.deep_view();
            acc.push(piece);
            proof {
                assert(t.subrange(k + 1, t.len() as int) =~= s@.subrange(i + 1, n as int));
                assert(acc.deep_view() =~= old_acc.push(line_content(t, k as int)));
                assert(acc.deep_view() + spec_lines(s@.subrange(i + 1, n as int)) =~= old_acc + (
                seq![line_content(t, k as int)] + spec_lines(t.subrange(k + 1, t.len() as int))));
            }
            start = i + 1;
            i = i + 1;
        } else {
            i = i + 1;
        }
    }
}

/// The whitespace-separated fields of `s`: maximal runs of non-whitespace
/// characters, in order.
pub open spec fn ws_fields(s: Seq<char>) -> Seq<Seq<char>>
    decreases s.len(),
{
    if s.len() == 0 {
        Seq::empty()
    } else if is_ws(s[0]) {
        ws_fields(s.drop_first())
    } else {
        let r = ws_fields(s.drop_first());
        if s.len() >= 2 && !is_ws(s[1]) {
            seq![seq![s[0]] + r[0]] + r.drop_first()
        } else {
            seq![seq![s[0]]] + r
        }
    }
}

/// Splitting off a complete leading run of non-whitespace characters leaves
/// the fields of the rest.
proof fn lemma_fields_take_run(s: Seq<char>, k: int)
    requires
        0 < k <= s.len(),
        forall|j: int| 0 <= j < k ==> !is_ws(s[j]),
        k == s.len() || is_ws(s[k]),
    ensures
        ws_fields(s) == seq![s.subrange(0, k)] + ws_fields(s.subrange(k, s.len() as int)),
    decreases k,
{
    let t = s.drop_first();
    let rest = s.subrange(k, s.len() as int);
    if k == 1 {
        assert(t =~= s.subrange(1, s.len() as int));
        assert(seq![s[0]] =~= s.subrange(0, 1));
        if s.len() >= 2 {
            assert(is_ws(s[1]));
            assert(seq![seq![s[0]]] + ws_fields(t) =~= seq![s.subrange(0, 1)] + ws_fields(rest));
        } else {
            assert(t.len() == 0);
            assert(rest.len() == 0);
            assert(seq![seq![s[0]]] + ws_fields(t) =~= seq![s.subrange(0, 1)] + ws_fields(rest));
        }
    } else {
        assert(!is_ws(s[1]));
        assert(forall|j: int| 0 <= j < k - 1 ==> !is_ws(t[j]));
        lemma_fields_take_run(t, k - 1);
        let r = ws_fields(t);
        assert(t.subrange(k - 1, t.len() as int) =~= rest);
        assert(r == seq![t.subrange(0, k - 1)] + ws_fields(rest));
        assert(r[0] == t.subrange(0, k - 1));
        assert(r.drop_first() =~= ws_fields(rest));
        assert(seq![s[0]] + t.subrange(0, k - 1) =~= s.subrange(0, k));
        assert(seq![seq![s[0]] + r[0]] + r.drop_first() =~= seq![s.subrange(0, k)] + ws_fields(
            rest,
        ));
    }
}

/// Index of the first whitespace character of `line` at or after `from`, or
/// the length of `line`.
fn scan_field_end(line: &str, from: usize) -> (b: usize)
    requires
        from <= line@.len(),
    ensures
        from <= b <= line@.len(),
        forall|l: int| from <= l < b ==> !is_ws(line@[l]),
        b == line@.len() || is_ws(line@[b as int]),
{
    let n = line.unicode_len();
    let mut b: usize = from;
    loop
        invariant
            n == line@.len(),
            from <= b <= n,
            forall|l: int| from <= l < b ==> !is_ws(line@[l]),
        decreases n - b,
    {
        if b == n {
            return b;
        }
        if is_ws_char(line.get_char(b)) {
            return b;
        }
        b = b + 1;
    }
}

/// Splits `line` into its whitespace-separated fields, as [`ws_fields`]
/// describes them.
pub fn split_fields(line: &str) -> (r: Vec<String>)
    ensures
        r.deep_view() == ws_fields(line@),
{
    let n = line.unicode_len();
    let mut acc: Vec<String> = Vec::new();
    let mut i: usize = 0;
    assert(line@.subrange(0, n as int) =~= line@);
    assert(acc.deep_view() + ws_fields(line@) =~= ws_fields(line@));
    loop
        invariant
            n == line@.len(),
            0 <= i <= n,
            acc.deep_view() + ws_fields(line@.subrange(i as int, n as int)) == ws_fields(line@),
        decreases n - i,
    {
        let ghost t = line@.subrange(i as int, n as int);
        if i == n {
            assert(t =~= Seq::<char>::empty());
            assert(acc.deep_view() + ws_fields(t) =~= acc.deep_view());
            return acc;
        }
        let ch = line.get_char(i);
        assert(t[0] == line@[i as int]);
        if is_ws_char(ch) {
            assert(t.drop_first() =~= line@.subrange(i + 1, n as int));
            i = i + 1;
        } else {
            let b = scan_field_end(line, i + 1);
            let ghost k = b - i;
            proof {
                assert(forall|j: int| 0 <= j < k ==> t[j] == line@[i + j] && !is_ws(t[j]));
                assert(k == t.len() || is_ws(t[k as int]));
                lemma_fields_take_run(t, k);
                assert(t.subrange(0, k as int) =~= line@.subrange(i as int, b as int));
                assert(t.subrange(k as int, t.len() as int) =~= line@.subrange(b as int, n as int));
            }
            let piece = line.substring_char(i, b).to_owned();
            let ghost old_acc = acc.deep_view();
            acc.push(piece);
            proof {
                assert(acc.deep_view() =~= old_acc.push(t.subrange(0, k as int)));
                assert(acc.deep_view() + ws_fields(line@.subrange(b as int, n as int)) =~= old_acc
                    + (seq![t.subrange(0, k as int)] + ws_fields(
                    t.subrange(k as int, t.len() as int),
                )));
            }
            i = b;
        }
    }
}

} // verus!
