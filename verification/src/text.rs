//! Text utilities over the `Seq<char>` model of strings: Unicode white
//! space, trimming, blank text, and the non-blank lines of an output.

use vstd::prelude::*;

verus! {

/// The Unicode `White_Space` property: the characters that
/// `char::is_whitespace` accepts and that `str::trim` removes.
pub open spec fn is_white_space(c: char) -> bool {
    let n = c as u32;
    ||| 0x09 <= n <= 0x0d
    ||| n == 0x20
    ||| n == 0x85
    ||| n == 0xa0
    ||| n == 0x1680
    ||| 0x2000 <= n <= 0x200a
    ||| n == 0x2028
    ||| n == 0x2029
    ||| n == 0x202f
    ||| n == 0x205f
    ||| n == 0x3000
}

/// Executable form of [`is_white_space`].
pub fn white_space(c: char) -> (res: bool)
    ensures
        res == is_white_space(c),
{
    let n: u32 = c as u32;
    (0x09 <= n && n <= 0x0d) || n == 0x20 || n == 0x85 || n == 0xa0 || n == 0x1680 || (0x2000
        <= n && n <= 0x200a) || n == 0x2028 || n == 0x2029 || n == 0x202f || n == 0x205f || n
        == 0x3000
}

/// `s` without its leading white space.
pub open spec fn trim_start(s: Seq<char>) -> Seq<char>
    decreases s.len(),
{
    if s.len() > 0 && is_white_space(s[0]) {
        trim_start(s.drop_first())
    } else {
        s
    }
}

/// `s` without its trailing white space.
pub open spec fn trim_end(s: Seq<char>) -> Seq<char>
    decreases s.len(),
{
    if s.len() > 0 && is_white_space(s.last()) {
        trim_end(s.drop_last())
    } else {
        s
    }
}

/// `s` without white space at either end, as `str::trim` gives it.
pub open spec fn trim(s: Seq<char>) -> Seq<char> {
    trim_end(trim_start(s))
}

/// Text that holds nothing but white space (`s.trim().is_empty()`).
pub open spec fn is_blank(s: Seq<char>) -> bool {
    trim(s).len() == 0
}

/// The pieces of `s` between its `'\n'` characters, in order; a text with
/// `k` newlines has `k + 1` pieces.
pub open spec fn split_lines(s: Seq<char>) -> Seq<Seq<char>>
    decreases s.len(),
{
    if s.len() == 0 {
        seq![Seq::<char>::empty()]
    } else {
        let r = split_lines(s.drop_last());
        if s.last() == '\n' {
            r.push(Seq::<char>::empty())
        } else {
            r.update(r.len() - 1, r.last().push(s.last()))
        }
    }
}

/// The trimmed pieces of `pieces` that are not empty, in order.
pub open spec fn trimmed_non_blank(pieces: Seq<Seq<char>>) -> Seq<Seq<char>>
    decreases pieces.len(),
{
    if pieces.len() == 0 {
        Seq::empty()
    } else {
        let r = trimmed_non_blank(pieces.drop_last());
        let t = trim(pieces.last());
        if t.len() > 0 {
            r.push(t)
        } else {
            r
        }
    }
}

/// The lines of `s` with surrounding white space removed and blank lines
/// left out: what `s.lines().map(str::trim).filter(|l| !l.is_empty())`
/// yields (a `'\r'` before a line break is white space and goes with the
/// trimming).
pub open spec fn non_blank_lines(s: Seq<char>) -> Seq<Seq<char>> {
    trimmed_non_blank(split_lines(s))
}

/// A non-empty result of `trim_start` begins with a character that is not
/// white space.
proof fn lemma_trim_start_first(s: Seq<char>)
    ensures
        trim_start(s).len() > 0 ==> !is_white_space(trim_start(s)[0]),
    decreases s.len(),
{
    if s.len() > 0 && is_white_space(s[0]) {
        lemma_trim_start_first(s.drop_first());
    }
}

/// A non-empty result of `trim_end` begins where its argument begins and
/// ends with a character that is not white space.
proof fn lemma_trim_end_ends(s: Seq<char>)
    ensures
        trim_end(s).len() > 0 ==> trim_end(s)[0] == s[0] && !is_white_space(trim_end(s).last()),
    decreases s.len(),
{
    if s.len() > 0 && is_white_space(s.last()) {
        lemma_trim_end_ends(s.drop_last());
    }
}

/// Trimming twice is trimming once.
pub proof fn lemma_trim_idempotent(s: Seq<char>)
    ensures
        trim(trim(s)) == trim(s),
{
    let t = trim(s);
    lemma_trim_start_first(s);
    lemma_trim_end_ends(trim_start(s));
    if t.len() > 0 {
        assert(trim_start(t) == t);
        assert(trim_end(t) == t);
    } else {
        assert(trim_start(t) == t);
        assert(trim_end(t) == t);
    }
}

/// Each line that `trimmed_non_blank` keeps is non-empty and trimmed.
proof fn lemma_trimmed_non_blank_clean(pieces: Seq<Seq<char>>)
    ensures
        forall|i: int|
            0 <= i < trimmed_non_blank(pieces).len() ==> (#[trigger] trimmed_non_blank(pieces)[i]).len()
                > 0 && trim(trimmed_non_blank(pieces)[i]) == trimmed_non_blank(pieces)[i],
    decreases pieces.len(),
{
    if pieces.len() > 0 {
        let r = trimmed_non_blank(pieces.drop_last());
        let t = trim(pieces.last());
        lemma_trimmed_non_blank_clean(pieces.drop_last());
        lemma_trim_idempotent(pieces.last());
        let all = trimmed_non_blank(pieces);
        assert forall|i: int| 0 <= i < all.len() implies (#[trigger] all[i]).len() > 0 && trim(all[i])
            == all[i] by {
            if i < r.len() {
                assert(all[i] == r[i]);
            } else {
                assert(all[i] == t);
            }
        }
    }
}

/// Each of the non-blank lines of a text is non-empty and has no white
/// space at either end.
pub proof fn lemma_non_blank_lines_clean(s: Seq<char>)
    ensures
        forall|i: int|
            0 <= i < non_blank_lines(s).len() ==> (#[trigger] non_blank_lines(s)[i]).len() > 0
                && trim(non_blank_lines(s)[i]) == non_blank_lines(s)[i],
{
    lemma_trimmed_non_blank_clean(split_lines(s));
}

/// Splitting at a newline splits the pieces there.
proof fn lemma_split_lines_at_newline(a: Seq<char>, b: Seq<char>)
    ensures
        split_lines(a + seq!['\n'] + b) == split_lines(a) + split_lines(b),
    decreases b.len(),
{
    let s = a + seq!['\n'] + b;
    if b.len() == 0 {
        assert(s.drop_last() =~= a);
        assert(split_lines(b) =~= seq![Seq::<char>::empty()]);
        assert(split_lines(s) =~= split_lines(a) + split_lines(b));
    } else {
        lemma_split_lines_at_newline(a, b.drop_last());
        assert(s.drop_last() =~= a + seq!['\n'] + b.drop_last());
        let x = split_lines(a);
        let y = split_lines(b.drop_last());
        assert(y.len() >= 1) by {
            lemma_split_lines_not_empty(b.drop_last());
        }
        if b.last() == '\n' {
            assert(split_lines(s) =~= x + split_lines(b));
        } else {
            assert((x + y).update((x + y).len() - 1, (x + y).last().push(b.last())) =~= x + y.update(
                y.len() - 1,
                y.last().push(b.last()),
            ));
        }
    }
}

/// Splitting always gives at least one piece.
proof fn lemma_split_lines_not_empty(s: Seq<char>)
    ensures
        split_lines(s).len() >= 1,
    decreases s.len(),
{
    if s.len() > 0 {
        lemma_split_lines_not_empty(s.drop_last());
    }
}

/// A text without a newline is one piece.
proof fn lemma_split_lines_single(s: Seq<char>)
    requires
        !s.contains('\n'),
    ensures
        split_lines(s) == seq![s],
    decreases s.len(),
{
    if s.len() > 0 {
        assert(!s.drop_last().contains('\n')) by {
            if s.drop_last().contains('\n') {
                let k = choose|k: int| 0 <= k < s.drop_last().len() && s.drop_last()[k] == '\n';
                assert(s[k] == '\n');
            }
        }
        lemma_split_lines_single(s.drop_last());
        assert(s.last() != '\n') by {
            assert(s[s.len() - 1] == s.last());
        }
        assert(s.drop_last().push(s.last()) =~= s);
    } else {
        assert(s =~= Seq::<char>::empty());
        assert(split_lines(s) =~= seq![s]);
    }
}

/// Keeping the trimmed non-blank pieces of two runs of pieces one after the
/// other is keeping them of each run.
proof fn lemma_trimmed_non_blank_append(x: Seq<Seq<char>>, y: Seq<Seq<char>>)
    ensures
        trimmed_non_blank(x + y) == trimmed_non_blank(x) + trimmed_non_blank(y),
    decreases y.len(),
{
    if y.len() == 0 {
        assert(x + y =~= x);
        assert(trimmed_non_blank(x) + trimmed_non_blank(y) =~= trimmed_non_blank(x));
    } else {
        lemma_trimmed_non_blank_append(x, y.drop_last());
        assert((x + y).drop_last() =~= x + y.drop_last());
        assert((x + y).last() == y.last());
        if trim(y.last()).len() > 0 {
            assert(trimmed_non_blank(x + y) =~= trimmed_non_blank(x) + trimmed_non_blank(y));
        } else {
            assert(trimmed_non_blank(x + y) =~= trimmed_non_blank(x) + trimmed_non_blank(y));
        }
    }
}

/// The non-blank lines of two texts joined by a newline are those of the
/// first followed by those of the second.
pub proof fn non_blank_lines_join(a: Seq<char>, b: Seq<char>)
    ensures
        non_blank_lines(a + seq!['\n'] + b) == non_blank_lines(a) + non_blank_lines(b),
{
    lemma_split_lines_at_newline(a, b);
    lemma_trimmed_non_blank_append(split_lines(a), split_lines(b));
}

/// A text without a newline has no non-blank line when it is blank, and
/// otherwise the one line that is the text trimmed.
pub proof fn non_blank_lines_single(s: Seq<char>)
    requires
        !s.contains('\n'),
    ensures
        is_blank(s) ==> non_blank_lines(s).len() == 0,
        !is_blank(s) ==> non_blank_lines(s) == seq![trim(s)],
{
    lemma_split_lines_single(s);
    let p = seq![s];
    assert(p.drop_last() =~= Seq::<Seq<char>>::empty());
    assert(p.last() == s);
    assert(trimmed_non_blank(Seq::<Seq<char>>::empty()) == Seq::<Seq<char>>::empty());
    assert(non_blank_lines(s) == trimmed_non_blank(p));
    assert(trimmed_non_blank(p) == (if trim(s).len() > 0 {
        trimmed_non_blank(p.drop_last()).push(trim(s))
    } else {
        trimmed_non_blank(p.drop_last())
    }));
    if !is_blank(s) {
        assert(non_blank_lines(s) =~= seq![trim(s)]);
    }
}

/// `trim_start` drops a prefix of white space.
proof fn lemma_trim_start_drops_white_space(s: Seq<char>)
    ensures
        0 <= s.len() - trim_start(s).len(),
        trim_start(s) == s.subrange(s.len() - trim_start(s).len(), s.len() as int),
        forall|i: int| 0 <= i < s.len() - trim_start(s).len() ==> is_white_space(#[trigger] s[i]),
    decreases s.len(),
{
    if s.len() > 0 && is_white_space(s[0]) {
        let t = s.drop_first();
        lemma_trim_start_drops_white_space(t);
        assert(t.subrange(t.len() - trim_start(t).len(), t.len() as int) =~= s.subrange(
            s.len() - trim_start(s).len(),
            s.len() as int,
        ));
        assert forall|i: int| 0 <= i < s.len() - trim_start(s).len() implies is_white_space(
            #[trigger] s[i],
        ) by {
            if i > 0 {
                assert(s[i] == t[i - 1]);
            }
        }
    } else {
        assert(s.subrange(0, s.len() as int) =~= s);
    }
}

/// `trim_end` drops a suffix of white space.
proof fn lemma_trim_end_drops_white_space(s: Seq<char>)
    ensures
        trim_end(s).len() <= s.len(),
        trim_end(s) == s.subrange(0, trim_end(s).len() as int),
        forall|i: int| trim_end(s).len() <= i < s.len() ==> is_white_space(#[trigger] s[i]),
    decreases s.len(),
{
    if s.len() > 0 && is_white_space(s.last()) {
        let t = s.drop_last();
        lemma_trim_end_drops_white_space(t);
        assert(t.subrange(0, trim_end(t).len() as int) =~= s.subrange(0, trim_end(s).len() as int));
        assert forall|i: int| trim_end(s).len() <= i < s.len() implies is_white_space(
            #[trigger] s[i],
        ) by {
            if i < s.len() - 1 {
                assert(s[i] == t[i]);
            }
        }
    } else {
        assert(s.subrange(0, s.len() as int) =~= s);
    }
}

/// Trimming keeps a stretch of the text that neither begins nor ends with
/// white space, and drops only white space before and after it.
pub proof fn trim_drops_only_white_space(s: Seq<char>)
    ensures
        exists|a: int, b: int|
            {
                &&& 0 <= a <= b <= s.len()
                &&& trim(s) == s.subrange(a, b)
                &&& forall|i: int| 0 <= i < a ==> is_white_space(#[trigger] s[i])
                &&& forall|i: int| b <= i < s.len() ==> is_white_space(#[trigger] s[i])
            },
        trim(s).len() > 0 ==> !is_white_space(trim(s)[0]) && !is_white_space(trim(s).last()),
{
    let t = trim_start(s);
    lemma_trim_start_drops_white_space(s);
    lemma_trim_end_drops_white_space(t);
    lemma_trim_start_first(s);
    lemma_trim_end_ends(t);
    let a = s.len() - t.len();
    let b = a + trim(s).len();
    assert(trim(s) =~= s.subrange(a, b));
    assert forall|i: int| b <= i < s.len() implies is_white_space(#[trigger] s[i]) by {
        assert(s[i] == t[i - a]);
    }
}

/// A text made of white space only is blank.
pub proof fn lemma_all_white_space_blank(s: Seq<char>)
    requires
        forall|i: int| 0 <= i < s.len() ==> is_white_space(#[trigger] s[i]),
    ensures
        is_blank(s),
    decreases s.len(),
{
    if s.len() > 0 {
        assert forall|i: int| 0 <= i < s.drop_first().len() implies is_white_space(
            #[trigger] s.drop_first()[i],
        ) by {
            assert(s.drop_first()[i] == s[i + 1]);
        }
        lemma_all_white_space_blank(s.drop_first());
        assert(is_white_space(s[0]));
    }
}

/// A text that holds a character other than white space is not blank.
pub proof fn lemma_not_blank(s: Seq<char>, i: int)
    requires
        0 <= i < s.len(),
        !is_white_space(s[i]),
    ensures
        !is_blank(s),
    decreases s.len(),
{
    if is_white_space(s[0]) {
        lemma_not_blank(s.drop_first(), i - 1);
        assert(trim_start(s) == trim_start(s.drop_first()));
    } else {
        assert(trim_start(s) == s);
        lemma_trim_end_keeps_first(s);
    }
}

/// Trimming the end of a text that begins with a character other than
/// white space leaves that character.
proof fn lemma_trim_end_keeps_first(s: Seq<char>)
    requires
        s.len() > 0,
        !is_white_space(s[0]),
    ensures
        trim_end(s).len() > 0,
    decreases s.len(),
{
    if is_white_space(s.last()) {
        assert(s.len() > 1);
        assert(s.drop_last()[0] == s[0]);
        lemma_trim_end_keeps_first(s.drop_last());
    }
}

/// The views of a sequence of strings.
pub open spec fn views(v: Seq<String>) -> Seq<Seq<char>> {
    v.map_values(|s: String| s@)
}

/// Appends `c` to `s`. Calls `String::push`, taken to leave `s` holding
/// its old characters followed by `c`.
#[verifier::external_body]
pub(crate) fn push_char(s: &mut String, c: char)
    ensures
        final(s)@ == old(s)@.push(c),
{
    s.push(c);
}

/// The characters of `s`, in order.
pub fn chars_of(s: &str) -> (res: Vec<char>)
    ensures
        res@ == s@,
{
    let mut out: Vec<char> = Vec::new();
    for c in it: s.chars()
        invariant
            out@ == it.seq().take(it.index()),
    {
        out.push(c);
    }
    out
}

/// A string holding `chars[from..to]`.
pub fn string_of(chars: &Vec<char>, from: usize, to: usize) -> (res: String)
    requires
        from <= to <= chars@.len(),
    ensures
        res@ == chars@.subrange(from as int, to as int),
{
    let mut out = String::new();
    let mut i: usize = from;
    while i < to
        invariant
            from <= i <= to <= chars@.len(),
            out@ == chars@.subrange(from as int, i as int),
        decreases to - i,
    {
        push_char(&mut out, chars[i]);
        assert(chars@.subrange(from as int, i + 1) =~= chars@.subrange(from as int, i as int).push(
            chars@[i as int],
        ));
        i = i + 1;
    }
    out
}

/// The bounds of `trim(chars[from..to])` inside `chars`.
pub fn trim_bounds(chars: &Vec<char>, from: usize, to: usize) -> (res: (usize, usize))
    requires
        from <= to <= chars@.len(),
    ensures
        from <= res.0 <= res.1 <= to,
        chars@.subrange(res.0 as int, res.1 as int) == trim(
            chars@.subrange(from as int, to as int),
        ),
        res.0 + trim_start(chars@.subrange(from as int, to as int)).len() == to,
{
    let mut i: usize = from;
    while i < to && white_space(chars[i])
        invariant
            from <= i <= to <= chars@.len(),
            trim_start(chars@.subrange(from as int, to as int)) == trim_start(
                chars@.subrange(i as int, to as int),
            ),
        decreases to - i,
    {
        assert(chars@.subrange(i as int, to as int).drop_first() =~= chars@.subrange(
            i + 1,
            to as int,
        ));
        i = i + 1;
    }
    assert(trim_start(chars@.subrange(i as int, to as int)) == chars@.subrange(i as int, to as int));
    let mut j: usize = to;
    while j > i && white_space(chars[j - 1])
        invariant
            from <= i <= j <= to <= chars@.len(),
            trim_end(chars@.subrange(i as int, to as int)) == trim_end(
                chars@.subrange(i as int, j as int),
            ),
        decreases j - i,
    {
        assert(chars@.subrange(i as int, j as int).drop_last() =~= chars@.subrange(
            i as int,
            j - 1,
        ));
        j = j - 1;
    }
    assert(trim_end(chars@.subrange(i as int, j as int)) == chars@.subrange(i as int, j as int));
    (i, j)
}

/// Whether `s` is blank, as `s.trim().is_empty()` tells it.
pub fn blank(s: &str) -> (res: bool)
    ensures
        res == is_blank(s@),
{
    let chars = chars_of(s);
    let (a, b) = trim_bounds(&chars, 0, chars.len());
    assert(chars@.subrange(0, chars@.len() as int) =~= chars@);
    a == b
}

/// The non-blank lines of `s`, each trimmed.
pub fn non_blank_lines_of(s: &str) -> (res: Vec<String>)
    ensures
        views(res@) == non_blank_lines(s@),
{
    let chars = chars_of(s);
    let n: usize = chars.len();
    let mut out: Vec<String> = Vec::new();
    let mut start: usize = 0;
    let mut i: usize = 0;
    proof {
        assert(chars@.subrange(0, 0) =~= Seq::<char>::empty());
        assert(split_lines(chars@.subrange(0, 0)) =~= seq![Seq::<char>::empty()]);
        assert(split_lines(chars@.subrange(0, 0)).drop_last() =~= Seq::<Seq<char>>::empty());
        assert(views(out@) =~= Seq::<Seq<char>>::empty());
    }
    while i < n
        invariant
            n == chars@.len(),
            start <= i <= n,
            split_lines(chars@.subrange(0, i as int)).len() >= 1,
            split_lines(chars@.subrange(0, i as int)).last() == chars@.subrange(
                start as int,
                i as int,
            ),
            views(out@) == trimmed_non_blank(split_lines(chars@.subrange(0, i as int)).drop_last()),
        decreases n - i,
    {
        let ghost prefix = chars@.subrange(0, i as int);
        let ghost next = chars@.subrange(0, i + 1);
        let ghost pieces = split_lines(prefix);
        proof {
            assert(next.drop_last() =~= prefix);
            assert(next.last() == chars@[i as int]);
        }
        if chars[i] == '\n' {
            let (a, b) = trim_bounds(&chars, start, i);
            proof {
                assert(split_lines(next) == pieces.push(Seq::<char>::empty()));
                assert(split_lines(next).drop_last() =~= pieces);
                assert(pieces =~= pieces.drop_last().push(pieces.last()));
            }
            if a < b {
                let line = string_of(&chars, a, b);
                let ghost before = out@;
                out.push(line);
                proof {
                    assert(views(out@) =~= views(before).push(line@));
                }
            }
            start = i + 1;
            proof {
                assert(chars@.subrange(start as int, i + 1) =~= Seq::<char>::empty());
            }
        } else {
            proof {
                assert(split_lines(next) == pieces.update(
                    pieces.len() - 1,
                    pieces.last().push(chars@[i as int]),
                ));
                assert(split_lines(next).drop_last() =~= pieces.drop_last());
                assert(chars@.subrange(start as int, i + 1) =~= chars@.subrange(
                    start as int,
                    i as int,
                ).push(chars@[i as int]));
            }
        }
        i = i + 1;
    }
    let ghost pieces = split_lines(chars@.subrange(0, n as int));
    let (a, b) = trim_bounds(&chars, start, n);
    proof {
        assert(chars@.subrange(0, n as int) =~= chars@);
        assert(pieces =~= pieces.drop_last().push(pieces.last()));
    }
    if a < b {
        let line = string_of(&chars, a, b);
        let ghost before = out@;
        out.push(line);
        proof {
            assert(views(out@) =~= views(before).push(line@));
        }
    }
    out
}

} // verus!
