use vstd::prelude::*;

verus! {

/// Appends one character to a string (`String::push`).
/// Trusted: the documentation says the character is added to the end.
#[verifier::external_body]
pub(crate) fn push_char(s: &mut String, c: char)
    ensures
        final(s)@ == old(s)@.push(c),
{
    s.push(c);
}

/// The characters of `s`, in order.
pub fn chars_of(s: &str) -> (v: Vec<char>)
    ensures
        v@ == s@,
{
    let n = s.unicode_len();
    let mut v: Vec<char> = Vec::new();
    let mut i: usize = 0;
    while i < n
        invariant
            n == s@.len(),
            i <= n,
            v@ == s@.take(i as int),
        decreases n - i,
    {
        let c = s.get_char(i);
        v.push(c);
        assert(s@.take(i + 1) == s@.take(i as int).push(c));
        i += 1;
    }
    assert(s@.take(n as int) == s@);
    v
}

/// A string holding the given characters, in order.
pub fn string_of(v: &Vec<char>) -> (s: String)
    ensures
        s@ == v@,
{
    let mut s = String::new();
    let mut i: usize = 0;
    while i < v.len()
        invariant
            i <= v.len(),
            s@ == v@.take(i as int),
        decreases v.len() - i,
    {
        push_char(&mut s, v[i]);
        assert(v@.take(i + 1) == v@.take(i as int).push(v@[i as int]));
        i += 1;
    }
    assert(v@.take(v.len() as int) == v@);
    s
}


/// What `str::to_lowercase` gives for a string: the Unicode lowercase mapping,
/// which may change the number of characters.
pub uninterp spec fn spec_to_lowercase(s: Seq<char>) -> Seq<char>;

/// What `char::to_uppercase` gives for a character: one or more characters.
pub uninterp spec fn spec_char_to_uppercase(c: char) -> Seq<char>;

/// Lowercases a string (`str::to_lowercase`).
/// Trusted: the result is named, not described; the Unicode tables are left unsaid.
#[verifier::external_body]
pub(crate) fn to_lowercase(s: &str) -> (r: String)
    ensures
        r@ == spec_to_lowercase(s@),
{
    s.to_lowercase()
}

/// Uppercases one character (`char::to_uppercase`), as a string.
/// Trusted: the result is named, not described; the Unicode tables are left unsaid.
#[verifier::external_body]
pub(crate) fn char_to_uppercase(c: char) -> (r: String)
    ensures
        r@ == spec_char_to_uppercase(c),
{
    c.to_uppercase().to_string()
}

/// `s` with every space turned into a hyphen.
pub open spec fn spec_replace_spaces(s: Seq<char>) -> Seq<char> {
    s.map_values(|c: char| if c == ' ' { '-' } else { c })
}

/// Replaces every space of `s` by a hyphen, as `s.replace(" ", "-")` does.
pub fn replace_spaces(s: &str) -> (r: String)
    ensures
        r@ == spec_replace_spaces(s@),
        r@.len() == s@.len(),
        forall|k: int| 0 <= k < s@.len() ==> #[trigger] r@[k] == (if s@[k] == ' ' { '-' } else { s@[k] }),
{
    let cs = chars_of(s);
    let mut out: Vec<char> = Vec::new();
    let mut i: usize = 0;
    while i < cs.len()
        invariant
            cs@ == s@,
            i <= cs.len(),
            out@ == spec_replace_spaces(s@.take(i as int)),
        decreases cs.len() - i,
    {
        let c = cs[i];
        if c == ' ' {
            out.push('-');
        } else {
            out.push(c);
        }
        assert(spec_replace_spaces(s@.take(i + 1)) == spec_replace_spaces(s@.take(i as int)).push(
            if c == ' ' { '-' } else { c },
        ));
        i += 1;
    }
    assert(s@.take(cs.len() as int) == s@);
    string_of(&out)
}


/// A decimal digit.
pub open spec fn is_digit(c: char) -> bool {
    '0' <= c && c <= '9'
}

/// Every character of `d` is a decimal digit.
pub open spec fn all_digits(d: Seq<char>) -> bool {
    forall|i: int| 0 <= i < d.len() ==> is_digit(#[trigger] d[i])
}

/// The number that the decimal digits `d` write, most significant first.
pub open spec fn decimal_value(d: Seq<char>) -> int
    decreases d.len(),
{
    if d.len() == 0 {
        0
    } else {
        decimal_value(d.drop_last()) * 10 + ((d.last() as int) - ('0' as int))
    }
}

/// The digits of an unsigned number as text: an optional leading `+` is dropped.
pub open spec fn unsigned_digits(s: Seq<char>) -> Seq<char> {
    if s.len() > 0 && s[0] == '+' {
        s.drop_first()
    } else {
        s
    }
}

/// What `s.parse::<usize>().ok()` gives: an optional `+`, then one or more
/// decimal digits whose value fits in `usize`; anything else is refused.
pub open spec fn spec_parse_usize(s: Seq<char>) -> Option<usize> {
    let d = unsigned_digits(s);
    if d.len() > 0 && all_digits(d) && decimal_value(d) <= usize::MAX {
        Some(decimal_value(d) as usize)
    } else {
        None
    }
}

proof fn lemma_decimal_value_prefix(d: Seq<char>, k: int)
    requires
        all_digits(d),
        0 <= k <= d.len(),
    ensures
        0 <= decimal_value(d.take(k)) <= decimal_value(d),
    decreases d.len(),
{
    if k == d.len() {
        assert(d.take(k) == d);
        if d.len() > 0 {
            lemma_decimal_value_prefix(d.drop_last(), 0);
            assert(is_digit(d[d.len() - 1]));
        }
    } else {
        let p = d.drop_last();
        assert(all_digits(p)) by {
            assert forall|i: int| 0 <= i < p.len() implies is_digit(#[trigger] p[i]) by {
                assert(p[i] == d[i]);
            }
        }
        lemma_decimal_value_prefix(p, k);
        lemma_decimal_value_prefix(p, p.len() as int);
        assert(p.take(k) == d.take(k));
        assert(p.take(p.len() as int) == p);
        assert(is_digit(d[d.len() - 1]));
    }
}

/// Reads an unsigned decimal number, as `s.parse::<usize>().ok()` does.
pub fn parse_usize(s: &str) -> (r: Option<usize>)
    ensures
        r == spec_parse_usize(s@),
{
    let cs = chars_of(s);
    let start: usize = if cs.len() > 0 && cs[0] == '+' {
        1
    } else {
        0
    };
    let ghost d = unsigned_digits(s@);
    assert(d == cs@.skip(start as int));
    if start >= cs.len() {
        return None;
    }
    let mut value: usize = 0;
    let mut i: usize = start;
    assert(d.take(0) == Seq::<char>::empty());
    while i < cs.len()
        invariant
            cs@ == s@,
            d == cs@.skip(start as int),
            d == unsigned_digits(s@),
            start <= i <= cs.len(),
            all_digits(d.take(i - start)),
            value == decimal_value(d.take(i - start)),
        decreases cs.len() - i,
    {
        let c = cs[i];
        let ghost k: int = i - start;
        assert(d[k] == c);
        if !(c >= '0' && c <= '9') {
            assert(!is_digit(d[k]));
            assert(!all_digits(d));
            assert(spec_parse_usize(s@) is None);
            return None;
        }
        let digit: usize = ((c as u32) - ('0' as u32)) as usize;
        assert(d.take(k + 1).drop_last() == d.take(k));
        assert(d.take(k + 1).last() == c);
        assert(decimal_value(d.take(k + 1)) == value * 10 + digit);
        assert(all_digits(d.take(k + 1))) by {
            assert forall|j: int| 0 <= j < k + 1 implies is_digit(#[trigger] d.take(k + 1)[j]) by {
                if j < k {
                    assert(d.take(k + 1)[j] == d.take(k)[j]);
                }
            }
        }
        if value > (usize::MAX - digit) / 10 {
            assert(value * 10 + digit > usize::MAX) by (nonlinear_arith)
                requires
                    value > (usize::MAX - digit) / 10,
                    digit <= 9,
            ;
            proof {
                if all_digits(d) {
                    lemma_decimal_value_prefix(d, k + 1);
                    assert(decimal_value(d) > usize::MAX);
                }
                assert(spec_parse_usize(s@) is None);
            }
            return None;
        }
        assert(value * 10 + digit <= usize::MAX) by (nonlinear_arith)
            requires
                value <= (usize::MAX - digit) / 10,
                digit <= 9,
        ;
        value = value * 10 + digit;
        i += 1;
    }
    assert(d.take(d.len() as int) == d);
    Some(value)
}


/// The pieces of `s` between newline characters, as `s.split('\n')` gives them;
/// there is always at least one.
pub open spec fn split_newlines(s: Seq<char>) -> Seq<Seq<char>>
    decreases s.len(),
{
    if s.len() == 0 {
        seq![Seq::<char>::empty()]
    } else {
        let p = split_newlines(s.drop_last());
        if s.last() == '\n' {
            p.push(Seq::<char>::empty())
        } else {
            p.update(p.len() - 1, p.last().push(s.last()))
        }
    }
}

/// `l` without one trailing carriage return.
pub open spec fn strip_cr(l: Seq<char>) -> Seq<char> {
    if l.len() > 0 && l.last() == '\r' {
        l.drop_last()
    } else {
        l
    }
}

/// What `s.lines()` gives: the text between line endings (`\n` or `\r\n`); a
/// final line ending adds no empty line, and a bare `\r` ends no line.
pub open spec fn spec_lines(s: Seq<char>) -> Seq<Seq<char>> {
    let p = split_newlines(s);
    let n: int = if p.last().len() == 0 {
        p.len() - 1
    } else {
        p.len() as int
    };
    Seq::new(n as nat, |i: int| if i < p.len() - 1 { strip_cr(p[i]) } else { p[i] })
}

/// Each line followed by a newline, one after the other.
pub open spec fn join_lines(ls: Seq<Seq<char>>) -> Seq<char>
    decreases ls.len(),
{
    if ls.len() == 0 {
        Seq::<char>::empty()
    } else {
        join_lines(ls.drop_last()) + ls.last() + seq!['\n']
    }
}

/// The lines `ls` written out, with `extra` as a line of its own right after
/// line `n` (counted from 0) where there is such a line.
pub open spec fn join_lines_inserting(ls: Seq<Seq<char>>, n: int, extra: Seq<char>) -> Seq<char> {
    if 0 <= n < ls.len() {
        join_lines(ls.insert(n + 1, extra))
    } else {
        join_lines(ls)
    }
}

/// Writing one more line adds it, and a newline, at the end.
pub proof fn lemma_join_lines_push(ls: Seq<Seq<char>>, l: Seq<char>)
    ensures
        join_lines(ls.push(l)) == join_lines(ls) + l + seq!['\n'],
{
    assert(ls.push(l).drop_last() =~= ls);
}

pub proof fn lemma_split_newlines_nonempty(s: Seq<char>)
    ensures
        split_newlines(s).len() >= 1,
    decreases s.len(),
{
    if s.len() > 0 {
        lemma_split_newlines_nonempty(s.drop_last());
    }
}

/// The character sequences that a list of character vectors holds.
pub open spec fn views(v: Seq<Vec<char>>) -> Seq<Seq<char>> {
    v.map_values(|l: Vec<char>| l@)
}

/// The first `n` characters of `v`.
fn prefix_of(v: &Vec<char>, n: usize) -> (r: Vec<char>)
    requires
        n <= v.len(),
    ensures
        r@ == v@.take(n as int),
{
    let mut r: Vec<char> = Vec::new();
    let mut i: usize = 0;
    while i < n
        invariant
            n <= v.len(),
            i <= n,
            r@ == v@.take(i as int),
        decreases n - i,
    {
        r.push(v[i]);
        assert(v@.take(i + 1) == v@.take(i as int).push(v@[i as int]));
        i += 1;
    }
    r
}

/// Splits text into lines, as `str::lines` does.
pub fn split_lines(s: &str) -> (r: Vec<Vec<char>>)
    ensures
        views(r@) == spec_lines(s@),
{
    let cs = chars_of(s);
    let mut done: Vec<Vec<char>> = Vec::new();
    let mut cur: Vec<char> = Vec::new();
    let mut i: usize = 0;
    assert(cs@.take(0) == Seq::<char>::empty());
    assert(views(done@).push(cur@) =~= seq![Seq::<char>::empty()]);
    while i < cs.len()
        invariant
            cs@ == s@,
            i <= cs.len(),
            split_newlines(cs@.take(i as int)) == views(done@).push(cur@),
        decreases cs.len() - i,
    {
        let c = cs[i];
        assert(cs@.take(i + 1).drop_last() == cs@.take(i as int));
        assert(cs@.take(i + 1).last() == c);
        let ghost before = views(done@);
        if c == '\n' {
            let finished = cur;
            done.push(finished);
            cur = Vec::new();
            assert(views(done@) =~= before.push(finished@));
            assert(views(done@).push(cur@) =~= before.push(finished@).push(Seq::<char>::empty()));
        } else {
            let ghost old_cur = cur@;
            cur.push(c);
            assert(views(done@).push(cur@) =~= before.push(old_cur).update(
                before.len() as int,
                old_cur.push(c),
            ));
        }
        i += 1;
    }
    assert(cs@.take(cs.len() as int) == cs@);
    let ghost p = split_newlines(s@);
    let mut r: Vec<Vec<char>> = Vec::new();
    let mut j: usize = 0;
    while j < done.len()
        invariant
            p == views(done@).push(cur@),
            j <= done.len(),
            views(r@) =~= Seq::new(j as nat, |k: int| strip_cr(p[k])),
        decreases done.len() - j,
    {
        let line = &done[j];
        assert(line@ == p[j as int]);
        let stripped = if line.len() > 0 && line[line.len() - 1] == '\r' {
            prefix_of(line, line.len() - 1)
        } else {
            prefix_of(line, line.len())
        };
        assert(line@.take(line.len() as int) == line@);
        if line.len() > 0 {
            assert(line@.take(line.len() - 1) == line@.drop_last());
        }
        assert(stripped@ == strip_cr(p[j as int]));
        let ghost before = views(r@);
        r.push(stripped);
        assert(views(r@) =~= before.push(stripped@));
        j += 1;
    }
    if cur.len() > 0 {
        let ghost before = views(r@);
        r.push(cur);
        assert(views(r@) =~= before.push(p.last()));
    }
    assert(views(r@) =~= spec_lines(s@));
    r
}

/// Writes the lines out, each followed by a newline, putting `extra` as a line
/// of its own right after line `n` when there is one.
pub fn join_lines_with(ls: &Vec<Vec<char>>, n: usize, extra: &Vec<char>) -> (r: Vec<char>)
    ensures
        r@ == join_lines_inserting(views(ls@), n as int, extra@),
{
    let ghost all = views(ls@);
    let mut out: Vec<char> = Vec::new();
    let mut i: usize = 0;
    assert(all.take(0) =~= Seq::<Seq<char>>::empty());
    while i < ls.len()
        invariant
            all == views(ls@),
            i <= ls.len(),
            out@ == (if (n as int) < i { join_lines(all.take(i as int).insert(n + 1, extra@)) } else {
                join_lines(all.take(i as int))
            }),
        decreases ls.len() - i,
    {
        let ghost prev = out@;
        let line = &ls[i];
        assert(line@ == all[i as int]);
        let mut k: usize = 0;
        while k < line.len()
            invariant
                k <= line.len(),
                out@ == prev + line@.take(k as int),
            decreases line.len() - k,
        {
            out.push(line[k]);
            assert(line@.take(k + 1) == line@.take(k as int).push(line@[k as int]));
            k += 1;
        }
        assert(line@.take(line.len() as int) == line@);
        out.push('\n');
        let ghost t = all.take(i as int);
        assert(out@ =~= prev + line@ + seq!['\n']);
        assert(all.take(i + 1) == t.push(line@));
        proof {
            lemma_join_lines_push(t, line@);
        }
        if n < i {
            let ghost x = t.insert(n + 1, extra@);
            assert(all.take(i + 1).insert(n + 1, extra@) =~= x.push(line@));
            proof {
                lemma_join_lines_push(x, line@);
            }
        }
        if i == n {
            let ghost mid = out@;
            let mut k: usize = 0;
            while k < extra.len()
                invariant
                    k <= extra.len(),
                    out@ == mid + extra@.take(k as int),
                decreases extra.len() - k,
            {
                out.push(extra[k]);
                assert(extra@.take(k + 1) == extra@.take(k as int).push(extra@[k as int]));
                k += 1;
            }
            assert(extra@.take(extra.len() as int) == extra@);
            out.push('\n');
            assert(out@ =~= mid + extra@ + seq!['\n']);
            let ghost u = t.push(line@);
            assert(u.insert(n + 1, extra@) =~= u.push(extra@));
            proof {
                lemma_join_lines_push(u, extra@);
            }
        }
        i += 1;
    }
    assert(all.take(ls.len() as int) == all);
    out
}


/// A line that a text split into lines can hold: no newline in it, and no
/// carriage return at its end.
pub open spec fn is_plain_line(l: Seq<char>) -> bool {
    &&& !l.contains('\n')
    &&& !(l.len() > 0 && l.last() == '\r')
}

/// Text without newlines extends the last piece.
proof fn lemma_split_newlines_append(s: Seq<char>, t: Seq<char>)
    requires
        !t.contains('\n'),
    ensures
        split_newlines(s + t) == split_newlines(s).update(
            split_newlines(s).len() - 1,
            split_newlines(s).last() + t,
        ),
    decreases t.len(),
{
    lemma_split_newlines_nonempty(s);
    let p = split_newlines(s);
    if t.len() == 0 {
        assert(s + t == s);
        assert(p.last() + t == p.last());
        assert(p.update(p.len() - 1, p.last()) =~= p);
    } else {
        let u = t.drop_last();
        let c = t.last();
        assert(!u.contains('\n')) by {
            if u.contains('\n') {
                let k = choose|k: int| 0 <= k < u.len() && u[k] == '\n';
                assert(t[k] == '\n');
            }
        }
        assert(c != '\n') by {
            assert(t[t.len() - 1] == c);
        }
        lemma_split_newlines_append(s, u);
        assert((s + t).drop_last() == s + u);
        assert((s + t).last() == c);
        let q = split_newlines(s + u);
        assert(q.len() == p.len());
        assert(q.update(q.len() - 1, q.last().push(c)) =~= p.update(p.len() - 1, p.last() + t)) by {
            assert(q.last() == p.last() + u);
            assert(q.last().push(c) =~= p.last() + t);
        }
    }
}

/// Lines written out split back into themselves, with an empty piece after
/// the last newline.
proof fn lemma_split_join(ls: Seq<Seq<char>>)
    requires
        forall|i: int| 0 <= i < ls.len() ==> !(#[trigger] ls[i]).contains('\n'),
    ensures
        split_newlines(join_lines(ls)) == ls.push(Seq::<char>::empty()),
    decreases ls.len(),
{
    if ls.len() == 0 {
        assert(split_newlines(join_lines(ls)) =~= ls.push(Seq::<char>::empty()));
    } else {
        let front = ls.drop_last();
        let l = ls.last();
        assert forall|i: int| 0 <= i < front.len() implies !(#[trigger] front[i]).contains('\n') by {
            assert(front[i] == ls[i]);
        }
        assert(!l.contains('\n')) by {
            assert(ls[ls.len() - 1] == l);
        }
        lemma_split_join(front);
        let j = join_lines(front);
        lemma_split_newlines_append(j, l);
        let body = j + l;
        assert(join_lines(ls) == body.push('\n')) by {
            assert(j + l + seq!['\n'] =~= body.push('\n'));
        }
        assert(body.push('\n').drop_last() == body);
        assert(split_newlines(body) =~= front.push(l)) by {
            assert(front.push(Seq::<char>::empty()).last() + l =~= l);
        }
        assert(front.push(l) =~= ls);
    }
}

/// Plain lines, written out and split again, are the same lines.
pub proof fn lemma_lines_of_joined(ls: Seq<Seq<char>>)
    requires
        forall|i: int| 0 <= i < ls.len() ==> is_plain_line(#[trigger] ls[i]),
    ensures
        spec_lines(join_lines(ls)) == ls,
{
    assert forall|i: int| 0 <= i < ls.len() implies !(#[trigger] ls[i]).contains('\n') by {
        assert(is_plain_line(ls[i]));
    }
    lemma_split_join(ls);
    let p = ls.push(Seq::<char>::empty());
    assert forall|i: int| 0 <= i < ls.len() implies strip_cr(#[trigger] p[i]) == ls[i] by {
        assert(p[i] == ls[i]);
        assert(is_plain_line(ls[i]));
    }
    assert(spec_lines(join_lines(ls)) =~= ls);
}

/// Splitting text into lines and writing them out again with a plain line
/// inserted gives back the lines with that one inserted, where every line of
/// the text is plain; where there is no line `n`, nothing is inserted.
pub proof fn lemma_lines_after_insert(ls: Seq<Seq<char>>, n: int, extra: Seq<char>)
    requires
        forall|i: int| 0 <= i < ls.len() ==> is_plain_line(#[trigger] ls[i]),
        is_plain_line(extra),
    ensures
        0 <= n < ls.len() ==> spec_lines(join_lines_inserting(ls, n, extra)) == ls.insert(
            n + 1,
            extra,
        ),
        !(0 <= n < ls.len()) ==> spec_lines(join_lines_inserting(ls, n, extra)) == ls,
{
    if 0 <= n < ls.len() {
        let m = ls.insert(n + 1, extra);
        assert forall|i: int| 0 <= i < m.len() implies is_plain_line(#[trigger] m[i]) by {
            if i < n + 1 {
                assert(m[i] == ls[i]);
            } else if i == n + 1 {
                assert(m[i] == extra);
            } else {
                assert(m[i] == ls[i - 1]);
            }
        }
        lemma_lines_of_joined(m);
    } else {
        lemma_lines_of_joined(ls);
    }
}

/// No line of a text holds a newline.
pub proof fn lemma_lines_have_no_newline(s: Seq<char>)
    ensures
        forall|i: int| 0 <= i < spec_lines(s).len() ==> !(#[trigger] spec_lines(s)[i]).contains('\n'),
{
    lemma_split_newlines_no_newline(s);
    lemma_split_newlines_nonempty(s);
    let p = split_newlines(s);
    assert forall|i: int| 0 <= i < spec_lines(s).len() implies !(#[trigger] spec_lines(s)[i]).contains('\n') by {
        let l = p[i];
        assert(!l.contains('\n'));
        if l.len() > 0 && l.last() == '\r' {
            let d = l.drop_last();
            if d.contains('\n') {
                let k = choose|k: int| 0 <= k < d.len() && d[k] == '\n';
                assert(l[k] == '\n');
            }
        }
    }
}

proof fn lemma_split_newlines_no_newline(s: Seq<char>)
    ensures
        forall|i: int| 0 <= i < split_newlines(s).len() ==> !(#[trigger] split_newlines(s)[i]).contains('\n'),
    decreases s.len(),
{
    if s.len() > 0 {
        lemma_split_newlines_no_newline(s.drop_last());
        lemma_split_newlines_nonempty(s.drop_last());
        let p = split_newlines(s.drop_last());
        let c = s.last();
        if c != '\n' {
            let q = split_newlines(s);
            assert forall|i: int| 0 <= i < q.len() implies !(#[trigger] q[i]).contains('\n') by {
                if i == p.len() - 1 {
                    let l = p.last().push(c);
                    assert(q[i] == l);
                    if l.contains('\n') {
                        let k = choose|k: int| 0 <= k < l.len() && l[k] == '\n';
                        if k < l.len() - 1 {
                            assert(p.last()[k] == '\n');
                            assert(p.last().contains('\n'));
                        }
                    }
                } else {
                    assert(q[i] == p[i]);
                }
            }
        } else {
            let q = split_newlines(s);
            assert forall|i: int| 0 <= i < q.len() implies !(#[trigger] q[i]).contains('\n') by {
                if i < p.len() {
                    assert(q[i] == p[i]);
                } else {
                    assert(q[i] =~= Seq::<char>::empty());
                }
            }
        }
    }
}


/// Reading numbers digit by digit: one digit is its own value; a digit after
/// a number multiplies it by ten and adds the digit, or is refused where that
/// does not fit; a leading `+` is ignored once; any other character refuses.
pub proof fn lemma_parse_usize_digits(d: Seq<char>, c: char)
    ensures
        is_digit(c) ==> spec_parse_usize(seq![c]) == Some(((c as int) - ('0' as int)) as usize),
        (is_digit(c) && spec_parse_usize(d) is Some) ==> ({
            let x = spec_parse_usize(d)->0 as int;
            let v = x * 10 + ((c as int) - ('0' as int));
            &&& v <= usize::MAX ==> spec_parse_usize(d.push(c)) == Some(v as usize)
            &&& v > usize::MAX ==> spec_parse_usize(d.push(c)) is None
        }),
        (d.len() > 0 && d[0] != '+') ==> spec_parse_usize(seq!['+'] + d) == spec_parse_usize(d),
        (!is_digit(c) && (d.len() > 0 || c != '+')) ==> spec_parse_usize(d.push(c)) is None,
{
    if is_digit(c) {
        let one = seq![c];
        assert(one[0] == c);
        assert(unsigned_digits(one) == one);
        assert(one.drop_last() =~= Seq::<char>::empty());
        assert(one.last() == c);
        assert(decimal_value(Seq::<char>::empty()) == 0);
        assert(decimal_value(one) == (c as int) - ('0' as int));
        assert(all_digits(one));
    }
    if is_digit(c) && spec_parse_usize(d) is Some {
        let u = unsigned_digits(d);
        assert(d.len() > 0);
        assert(d.push(c)[0] == d[0]);
        assert(unsigned_digits(d.push(c)) =~= u.push(c));
        assert(u.push(c).drop_last() =~= u);
        assert(u.push(c).last() == c);
        assert(decimal_value(u.push(c)) == decimal_value(u) * 10 + ((c as int) - ('0' as int)));
        assert(u.len() > 0 && all_digits(u) && decimal_value(u) <= usize::MAX);
        lemma_decimal_value_prefix(u, u.len() as int);
        assert(u.take(u.len() as int) == u);
        assert(spec_parse_usize(d)->0 as int == decimal_value(u));
        assert(all_digits(u.push(c))) by {
            assert forall|i: int| 0 <= i < u.push(c).len() implies is_digit(#[trigger] u.push(c)[i]) by {
                if i < u.len() {
                    assert(u.push(c)[i] == u[i]);
                }
            }
        }
    }
    if d.len() > 0 && d[0] != '+' {
        assert((seq!['+'] + d).drop_first() =~= d);
        assert(unsigned_digits(seq!['+'] + d) == d);
    }
    if !is_digit(c) && (d.len() > 0 || c != '+') {
        let u = unsigned_digits(d.push(c));
        if d.len() > 0 {
            if d[0] == '+' {
                assert(u =~= d.drop_first().push(c));
            } else {
                assert(u == d.push(c));
            }
        } else {
            assert(u == d.push(c));
        }
        assert(u.len() > 0 && u[u.len() - 1] == c);
        assert(!all_digits(u));
    }
}

/// Turning spaces into hyphens changes only the spaces, one character for one.
pub proof fn lemma_replace_spaces_only_spaces(s: Seq<char>)
    ensures
        spec_replace_spaces(s).len() == s.len(),
        forall|k: int|
            0 <= k < s.len() ==> #[trigger] spec_replace_spaces(s)[k] == (if s[k] == ' ' {
                '-'
            } else {
                s[k]
            }),
{
}

} // verus!
