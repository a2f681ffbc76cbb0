use vstd::prelude::*;
use crate::paths::views;

verus! {

/// `prefix` is the start of `s`.
pub open spec fn has_prefix(s: Seq<char>, prefix: Seq<char>) -> bool {
    prefix.len() <= s.len() && s.subrange(0, prefix.len() as int) == prefix
}

/// Whether `s` starts with `prefix`.
pub fn starts_with(s: &str, prefix: &str) -> (r: bool)
    ensures
        r == has_prefix(s@, prefix@),
{
    let n = prefix.unicode_len();
    let m = s.unicode_len();
    if n > m {
        false
    } else {
        let head = String::from_str(s.substring_char(0, n));
        let p = String::from_str(prefix);
        head == p
    }
}

/// The characters of `s` after its first `n`.
pub fn skip_chars(s: &str, n: usize) -> (r: String)
    requires
        n <= s@.len(),
    ensures
        r@ == s@.skip(n as int),
{
    let m = s.unicode_len();
    let r = String::from_str(s.substring_char(n, m));
    assert(s@.subrange(n as int, m as int) =~= s@.skip(n as int));
    r
}

/// Whether two strings hold the same characters.
pub fn same_text(a: &String, b: &str) -> (r: bool)
    ensures
        r == (a@ == b@),
{
    let b = String::from_str(b);
    *a == b
}

} // verus!

verus! {

/// Whether `c` has the Unicode `White_Space` property, which is what
/// `char::is_whitespace` tests: U+0009 to U+000D, U+0020, U+0085, U+00A0,
/// U+1680, U+2000 to U+200A, U+2028, U+2029, U+202F, U+205F and U+3000.
pub open spec fn is_whitespace(c: char) -> bool {
    let n = c as u32;
    ||| 0x9 <= n <= 0xD
    ||| n == 0x20
    ||| n == 0x85
    ||| n == 0xA0
    ||| n == 0x1680
    ||| 0x2000 <= n <= 0x200A
    ||| n == 0x2028
    ||| n == 0x2029
    ||| n == 0x202F
    ||| n == 0x205F
    ||| n == 0x3000
}

/// Whether `c` is whitespace, as `char::is_whitespace` says.
pub fn char_is_whitespace(c: char) -> (r: bool)
    ensures
        r == is_whitespace(c),
{
    let n = c as u32;
    (0x9 <= n && n <= 0xD) || n == 0x20 || n == 0x85 || n == 0xA0 || n == 0x1680 || (0x2000 <= n && n
        <= 0x200A) || n == 0x2028 || n == 0x2029 || n == 0x202F || n == 0x205F || n == 0x3000
}

/// `s` without its leading whitespace.
pub open spec fn trim_start(s: Seq<char>) -> Seq<char>
    decreases s.len(),
{
    if s.len() > 0 && is_whitespace(s[0]) {
        trim_start(s.drop_first())
    } else {
        s
    }
}

/// `s` without its trailing whitespace.
pub open spec fn trim_end(s: Seq<char>) -> Seq<char>
    decreases s.len(),
{
    if s.len() > 0 && is_whitespace(s.last()) {
        trim_end(s.drop_last())
    } else {
        s
    }
}

/// `s` without leading and trailing whitespace.
pub open spec fn spec_trim(s: Seq<char>) -> Seq<char> {
    trim_end(trim_start(s))
}

/// Every character of `s` is whitespace (so trimming leaves nothing).
pub open spec fn is_blank(s: Seq<char>) -> bool {
    forall|i: int| 0 <= i < s.len() ==> is_whitespace(#[trigger] s[i])
}

/// The text of `s` without leading and trailing whitespace, as `str::trim` gives it.
pub fn trim(s: &str) -> (r: String)
    ensures
        r@ == spec_trim(s@),
{
    let n = s.unicode_len();
    let mut start: usize = 0;
    assert(s@.skip(0) =~= s@);
    while start < n && char_is_whitespace(s.get_char(start))
        invariant
            n == s@.len(),
            start <= n,
            trim_start(s@) == trim_start(s@.skip(start as int)),
        decreases n - start,
    {
        assert(s@.skip(start as int).drop_first() =~= s@.skip(start + 1));
        start = start + 1;
    }
    assert(trim_start(s@) == s@.subrange(start as int, n as int)) by {
        assert(s@.skip(start as int) =~= s@.subrange(start as int, n as int));
    }
    let mut end: usize = n;
    while end > start && char_is_whitespace(s.get_char(end - 1))
        invariant
            n == s@.len(),
            start <= end <= n,
            spec_trim(s@) == trim_end(s@.subrange(start as int, end as int)),
        decreases end - start,
    {
        assert(s@.subrange(start as int, end as int).drop_last() =~= s@.subrange(
            start as int,
            end - 1,
        ));
        end = end - 1;
    }
    String::from_str(s.substring_char(start, end))
}

/// The lines ended so far (each without its `\n`) and the text after the
/// last `\n`.
pub open spec fn segments(s: Seq<char>) -> (Seq<Seq<char>>, Seq<char>)
    decreases s.len(),
{
    if s.len() == 0 {
        (Seq::empty(), Seq::empty())
    } else {
        let before = segments(s.drop_last());
        if s.last() == '\n' {
            (before.0.push(before.1), Seq::empty())
        } else {
            (before.0, before.1.push(s.last()))
        }
    }
}

/// A line that ended with `\r\n` loses its `\r`.
pub open spec fn strip_cr(line: Seq<char>) -> Seq<char> {
    if line.len() > 0 && line.last() == '\r' {
        line.drop_last()
    } else {
        line
    }
}

/// The lines of `s`, as `str::lines` yields them: split at `\n`, a `\r`
/// before a `\n` removed, and no empty line after a final `\n`.
pub open spec fn spec_lines(s: Seq<char>) -> Seq<Seq<char>> {
    let parts = segments(s);
    parts.0.map_values(|l: Seq<char>| strip_cr(l)) + if parts.1.len() > 0 {
        seq![parts.1]
    } else {
        Seq::empty()
    }
}

fn strip_cr_exec(line: &str) -> (r: String)
    ensures
        r@ == strip_cr(line@),
{
    let n = line.unicode_len();
    if n > 0 && line.get_char(n - 1) == '\r' {
        let r = String::from_str(line.substring_char(0, n - 1));
        assert(line@.subrange(0, n - 1) =~= line@.drop_last());
        r
    } else {
        String::from_str(line)
    }
}

/// The lines of `s`, as `str::lines` yields them.
pub fn lines(s: &str) -> (r: Vec<String>)
    ensures
        views(r@) == spec_lines(s@),
{
    let n = s.unicode_len();
    let mut done: Vec<String> = Vec::new();
    let mut start: usize = 0;
    let mut i: usize = 0;
    assert(s@.subrange(0, 0) =~= Seq::<char>::empty());
    while i < n
        invariant
            n == s@.len(),
            start <= i <= n,
            segments(s@.subrange(0, i as int)).0.map_values(|l: Seq<char>| strip_cr(l))
                == views(done@),
            segments(s@.subrange(0, i as int)).1 == s@.subrange(start as int, i as int),
        decreases n - i,
    {
        let ghost prefix = s@.subrange(0, i + 1);
        assert(prefix.drop_last() =~= s@.subrange(0, i as int));
        assert(prefix.last() == s@[i as int]);
        let c = s.get_char(i);
        if c == '\n' {
            let ghost old_done = segments(s@.subrange(0, i as int)).0;
            let ghost seg = s@.subrange(start as int, i as int);
            let line = strip_cr_exec(s.substring_char(start, i));
            assert(line@ == strip_cr(seg));
            let ghost old_views = views(done@);
            done.push(line);
            assert(views(done@) =~= old_views.push(strip_cr(seg)));
            assert(old_done.push(seg).map_values(|l: Seq<char>| strip_cr(l)) =~= old_done.map_values(
                |l: Seq<char>| strip_cr(l),
            ).push(strip_cr(seg)));
            start = i + 1;
            i = i + 1;
            assert(s@.subrange(start as int, i as int) =~= Seq::<char>::empty());
        } else {
            assert(s@.subrange(start as int, i as int).push(c) =~= s@.subrange(
                start as int,
                i + 1,
            ));
            i = i + 1;
        }
    }
    assert(s@.subrange(0, n as int) =~= s@);
    let ghost parts = segments(s@);
    if start < n {
        done.push(String::from_str(s.substring_char(start, n)));
        assert(views(done@) =~= spec_lines(s@));
    } else {
        assert(views(done@) =~= spec_lines(s@));
    }
    done
}

proof fn lemma_trim_start_is_suffix(s: Seq<char>)
    ensures
        ({
            let t = trim_start(s);
            let k = s.len() - t.len();
            &&& 0 <= k <= s.len()
            &&& t == s.subrange(k, s.len() as int)
            &&& forall|i: int| 0 <= i < k ==> is_whitespace(#[trigger] s[i])
            &&& t.len() > 0 ==> !is_whitespace(t[0])
        }),
    decreases s.len(),
{
    if s.len() > 0 && is_whitespace(s[0]) {
        lemma_trim_start_is_suffix(s.drop_first());
        let t = trim_start(s);
        let k = s.len() - t.len();
        assert(t == s.drop_first().subrange(k - 1, s.len() - 1));
        assert(t =~= s.subrange(k, s.len() as int));
        assert forall|i: int| 0 <= i < k implies is_whitespace(#[trigger] s[i]) by {
            if i > 0 {
                assert(s[i] == s.drop_first()[i - 1]);
            }
        }
    } else {
        assert(s.subrange(0, s.len() as int) =~= s);
    }
}

proof fn lemma_trim_end_is_prefix(s: Seq<char>)
    ensures
        ({
            let t = trim_end(s);
            &&& t.len() <= s.len()
            &&& t == s.subrange(0, t.len() as int)
            &&& forall|i: int| t.len() <= i < s.len() ==> is_whitespace(#[trigger] s[i])
            &&& t.len() > 0 ==> !is_whitespace(t.last())
        }),
    decreases s.len(),
{
    if s.len() > 0 && is_whitespace(s.last()) {
        lemma_trim_end_is_prefix(s.drop_last());
        let t = trim_end(s);
        assert(t =~= s.subrange(0, t.len() as int));
        assert forall|i: int| t.len() <= i < s.len() implies is_whitespace(#[trigger] s[i]) by {
            if i < s.len() - 1 {
                assert(s[i] == s.drop_last()[i]);
            }
        }
    } else {
        assert(s.subrange(0, s.len() as int) =~= s);
    }
}

/// Trimming removes whitespace from both ends and nothing else: the result
/// is a piece of `s` whose characters before and after are all whitespace,
/// and which neither starts nor ends with whitespace.
pub proof fn lemma_trim_removes_only_outer_whitespace(s: Seq<char>)
    ensures
        exists|i: int, j: int|
            #![trigger s.subrange(i, j)]
            0 <= i <= j <= s.len() && spec_trim(s) == s.subrange(i, j) && (forall|k: int|
                0 <= k < i ==> is_whitespace(#[trigger] s[k])) && (forall|k: int|
                j <= k < s.len() ==> is_whitespace(#[trigger] s[k])),
        spec_trim(s).len() > 0 ==> !is_whitespace(spec_trim(s)[0]) && !is_whitespace(spec_trim(s).last()),
{
    lemma_trim_start_is_suffix(s);
    let t = trim_start(s);
    let i = s.len() - t.len();
    lemma_trim_end_is_prefix(t);
    let r = trim_end(t);
    let j = i + r.len();
    assert(r =~= s.subrange(i, j));
    assert forall|k: int| j <= k < s.len() implies is_whitespace(#[trigger] s[k]) by {
        assert(s[k] == t[k - i]);
    }
    if r.len() > 0 {
        assert(r[0] == t[0]);
    }
}

/// No line holds a line break, and a text without one is a single line (or
/// no line when it is empty).
pub proof fn lemma_lines_split_at_newlines(s: Seq<char>)
    ensures
        forall|i: int, k: int|
            0 <= i < spec_lines(s).len() && 0 <= k < spec_lines(s)[i].len() ==> #[trigger] spec_lines(
                s,
            )[i][k] != '\n',
        (forall|k: int| 0 <= k < s.len() ==> #[trigger] s[k] != '\n') ==> spec_lines(s) == if s.len()
            == 0 {
            Seq::<Seq<char>>::empty()
        } else {
            seq![s]
        },
{
    lemma_segments_have_no_newline(s);
    if forall|k: int| 0 <= k < s.len() ==> #[trigger] s[k] != '\n' {
        lemma_segments_without_newline(s);
        assert(spec_lines(s) =~= if s.len() == 0 {
            Seq::<Seq<char>>::empty()
        } else {
            seq![s]
        });
    }
}

proof fn lemma_segments_have_no_newline(s: Seq<char>)
    ensures
        forall|i: int, k: int|
            0 <= i < segments(s).0.len() && 0 <= k < segments(s).0[i].len() ==> #[trigger] segments(
                s,
            ).0[i][k] != '\n',
        forall|k: int| 0 <= k < segments(s).1.len() ==> #[trigger] segments(s).1[k] != '\n',
        forall|i: int, k: int|
            0 <= i < spec_lines(s).len() && 0 <= k < spec_lines(s)[i].len() ==> #[trigger] spec_lines(
                s,
            )[i][k] != '\n',
    decreases s.len(),
{
    if s.len() > 0 {
        lemma_segments_have_no_newline(s.drop_last());
        let before = segments(s.drop_last());
        if s.last() != '\n' {
            assert forall|k: int| 0 <= k < segments(s).1.len() implies #[trigger] segments(s).1[k] != '\n' by {
                if k < before.1.len() {
                    assert(segments(s).1[k] == before.1[k]);
                }
            }
        }
    }
    let parts = segments(s);
    let stripped = parts.0.map_values(|l: Seq<char>| strip_cr(l));
    assert forall|i: int, k: int|
        0 <= i < spec_lines(s).len() && 0 <= k < spec_lines(s)[i].len() implies #[trigger] spec_lines(s)[i][k]
        != '\n' by {
        if i < stripped.len() {
            assert(spec_lines(s)[i] == strip_cr(parts.0[i]));
            assert(strip_cr(parts.0[i])[k] == parts.0[i][k]);
        } else {
            assert(spec_lines(s)[i] == parts.1);
        }
    }
}

proof fn lemma_segments_without_newline(s: Seq<char>)
    requires
        forall|k: int| 0 <= k < s.len() ==> #[trigger] s[k] != '\n',
    ensures
        segments(s) == (Seq::<Seq<char>>::empty(), s),
    decreases s.len(),
{
    if s.len() > 0 {
        assert forall|k: int| 0 <= k < s.drop_last().len() implies #[trigger] s.drop_last()[k] != '\n' by {
            assert(s.drop_last()[k] == s[k]);
        }
        lemma_segments_without_newline(s.drop_last());
        assert(s.drop_last().push(s.last()) =~= s);
    }
}

} // verus!
