//! Text primitives over sequences of characters: white space, trimming,
//! splitting at a separator, lines, and decimal numerals.

use vstd::prelude::*;

verus! {

/// `String::push` appends one character to the end of the string.
pub assume_specification[ String::push ](s: &mut String, c: char)
    ensures
        final(s)@ == old(s)@.push(c),
;

/// The characters of `s`, in order.
fn chars_of(s: &str) -> (v: Vec<char>)
    ensures
        v@ == s@,
{
    let mut v: Vec<char> = Vec::new();
    for c in it: s.chars()
        invariant
            it.seq() == s@,
            v@ == s@.take(it.index() as int),
    {
        v.push(c);
    }
    v
}

/// The string that holds the characters `v[from..to]`, in order.
fn string_of(v: &Vec<char>, from: usize, to: usize) -> (s: String)
    requires
        from <= to <= v.len(),
    ensures
        s@ == v@.subrange(from as int, to as int),
{
    let mut s = String::new();
    let mut i: usize = from;
    while i < to
        invariant
            from <= i <= to <= v.len(),
            s@ == v@.subrange(from as int, i as int),
        decreases to - i,
    {
        s.push(v[i]);
        i += 1;
    }
    s
}

/// The decimal digit that stands for `d`: the digits follow one another
/// from the code 48 of the digit zero.
pub open spec fn digit_char(d: nat) -> char
    recommends
        d < 10,
{
    ((48 + d) as u8) as char
}

/// The decimal numeral of `n`, without leading zeros.
pub open spec fn decimal_of(n: nat) -> Seq<char>
    decreases n,
{
    if n < 10 {
        seq![digit_char(n)]
    } else {
        decimal_of(n / 10).push(digit_char(n % 10))
    }
}

/// Writes `n` as a decimal numeral.
pub fn decimal(n: u64) -> (s: String)
    ensures
        s@ == decimal_of(n as nat),
    decreases n,
{
    if n < 10 {
        let mut s = String::new();
        s.push((48u8 + (n as u8)) as char);
        s
    } else {
        let mut s = decimal(n / 10);
        s.push((48u8 + ((n % 10) as u8)) as char);
        s
    }
}

/// Whether `c` is white space: a character with the Unicode property
/// `White_Space`.
pub open spec fn is_space(c: char) -> bool {
    let n = c as u32;
    ||| 0x09 <= n <= 0x0D
    ||| n == 0x20
    ||| n == 0x85
    ||| n == 0xA0
    ||| n == 0x1680
    ||| 0x2000 <= n <= 0x200A
    ||| n == 0x2028
    ||| n == 0x2029
    ||| n == 0x202F
    ||| n == 0x205F
    ||| n == 0x3000
}

/// Tells whether `c` is white space.
pub fn is_whitespace(c: char) -> (b: bool)
    ensures
        b == is_space(c),
{
    let n: u32 = c as u32;
    (0x09 <= n && n <= 0x0D) || n == 0x20 || n == 0x85 || n == 0xA0 || n == 0x1680 || (0x2000 <= n
        && n <= 0x200A) || n == 0x2028 || n == 0x2029 || n == 0x202F || n == 0x205F || n == 0x3000
}

/// `s` without the white space it starts with.
pub open spec fn trim_start_of(s: Seq<char>) -> Seq<char>
    decreases s.len(),
{
    if s.len() > 0 && is_space(s.first()) {
        trim_start_of(s.drop_first())
    } else {
        s
    }
}

/// `s` without the white space it ends with.
pub open spec fn trim_end_of(s: Seq<char>) -> Seq<char>
    decreases s.len(),
{
    if s.len() > 0 && is_space(s.last()) {
        trim_end_of(s.drop_last())
    } else {
        s
    }
}

/// `s` without the white space at either end.
pub open spec fn trimmed(s: Seq<char>) -> Seq<char> {
    trim_end_of(trim_start_of(s))
}

/// Whether `s` holds nothing but white space.
pub open spec fn is_blank(s: Seq<char>) -> bool {
    trimmed(s).len() == 0
}

/// Trimming at the start takes away a run of white space and nothing else:
/// what is left is the rest of `s`, and it does not start with white space.
pub proof fn lemma_trim_start(s: Seq<char>)
    ensures
        trim_start_of(s).len() <= s.len(),
        trim_start_of(s) == s.skip(s.len() - trim_start_of(s).len()),
        forall|j: int| 0 <= j < s.len() - trim_start_of(s).len() ==> is_space(#[trigger] s[j]),
        trim_start_of(s).len() > 0 ==> !is_space(trim_start_of(s).first()),
    decreases s.len(),
{
    if s.len() > 0 && is_space(s.first()) {
        let rest = s.drop_first();
        lemma_trim_start(rest);
        let cut = rest.len() - trim_start_of(rest).len();
        assert(rest.skip(cut) == s.skip(cut + 1));
        assert forall|j: int| 0 <= j < cut + 1 implies is_space(#[trigger] s[j]) by {
            if j > 0 {
                assert(s[j] == rest[j - 1]);
            }
        }
    } else {
        assert(s.skip(0) == s);
    }
}

/// Trimming at the end takes away a run of white space and nothing else:
/// what is left is the start of `s`, and it does not end with white space.
pub proof fn lemma_trim_end(s: Seq<char>)
    ensures
        trim_end_of(s).len() <= s.len(),
        trim_end_of(s) == s.take(trim_end_of(s).len() as int),
        forall|j: int| trim_end_of(s).len() <= j < s.len() ==> is_space(#[trigger] s[j]),
        trim_end_of(s).len() > 0 ==> !is_space(trim_end_of(s).last()),
    decreases s.len(),
{
    if s.len() > 0 && is_space(s.last()) {
        let rest = s.drop_last();
        lemma_trim_end(rest);
        let kept = trim_end_of(rest).len() as int;
        assert(rest.take(kept) == s.take(kept));
        assert forall|j: int| kept <= j < s.len() implies is_space(#[trigger] s[j]) by {
            if j < rest.len() {
                assert(s[j] == rest[j]);
            }
        }
    } else {
        assert(s.take(s.len() as int) == s);
    }
}

/// A text is its trimmed form between two runs of white space, and the
/// trimmed form neither starts nor ends with white space.
pub proof fn lemma_trimmed(s: Seq<char>) -> (ends: (Seq<char>, Seq<char>))
    ensures
        s == ends.0 + trimmed(s) + ends.1,
        forall|j: int| 0 <= j < ends.0.len() ==> is_space(#[trigger] ends.0[j]),
        forall|j: int| 0 <= j < ends.1.len() ==> is_space(#[trigger] ends.1[j]),
        trimmed(s).len() > 0 ==> !is_space(trimmed(s).first()) && !is_space(trimmed(s).last()),
{
    lemma_trim_start(s);
    let inner = trim_start_of(s);
    lemma_trim_end(inner);
    let cut = s.len() - inner.len();
    let kept = trimmed(s).len() as int;
    let lead = s.take(cut);
    let trail = inner.skip(kept);
    assert(s == lead + trimmed(s) + trail);
    assert forall|j: int| 0 <= j < trail.len() implies is_space(#[trigger] trail[j]) by {
        assert(trail[j] == inner[kept + j]);
    }
    if kept > 0 {
        assert(trimmed(s).first() == inner.first());
    }
    (lead, trail)
}

/// A text that holds a character other than white space is not blank.
pub proof fn lemma_not_blank(s: Seq<char>, i: int)
    requires
        0 <= i < s.len(),
        !is_space(s[i]),
    ensures
        !is_blank(s),
{
    let ends = lemma_trimmed(s);
    if trimmed(s).len() == 0 {
        let both = ends.0 + trimmed(s) + ends.1;
        assert(both[i] == s[i]);
        if i < ends.0.len() {
            assert(both[i] == ends.0[i]);
        } else {
            assert(both[i] == ends.1[i - ends.0.len()]);
        }
    }
}

/// Removes the white space at both ends of `s`.
pub fn trim(s: &str) -> (t: String)
    ensures
        t@ == trimmed(s@),
{
    let v = chars_of(s);
    let mut start: usize = 0;
    assert(v@.subrange(0, v.len() as int) == v@);
    while start < v.len() && is_whitespace(v[start])
        invariant
            start <= v.len(),
            trim_start_of(v@) == trim_start_of(v@.subrange(start as int, v.len() as int)),
        decreases v.len() - start,
    {
        proof {
            let rest = v@.subrange(start as int, v.len() as int);
            assert(rest.drop_first() == v@.subrange(start + 1, v.len() as int));
        }
        start += 1;
    }
    let mut end: usize = v.len();
    while end > start && is_whitespace(v[end - 1])
        invariant
            start <= end <= v.len(),
            trim_end_of(v@.subrange(start as int, v.len() as int)) == trim_end_of(
                v@.subrange(start as int, end as int),
            ),
        decreases end - start,
    {
        proof {
            let rest = v@.subrange(start as int, end as int);
            assert(rest.drop_last() == v@.subrange(start as int, end - 1));
        }
        end -= 1;
    }
    string_of(&v, start, end)
}

/// The fields of `s` that the separator `sep` parts, read from the left:
/// each occurrence of `sep` closes the current field and opens an empty
/// one, and any other character extends the current field. There is
/// always at least one field, and no field holds a separator.
pub open spec fn split_of(s: Seq<char>, sep: char) -> Seq<Seq<char>>
    decreases s.len(),
{
    if s.len() == 0 {
        seq![Seq::<char>::empty()]
    } else {
        let before = split_of(s.drop_last(), sep);
        if s.last() == sep {
            before.push(Seq::<char>::empty())
        } else {
            before.update(before.len() - 1, before.last().push(s.last()))
        }
    }
}

/// The fields in order, with one `sep` between each two neighbours.
pub open spec fn join_of(fields: Seq<Seq<char>>, sep: char) -> Seq<char>
    decreases fields.len(),
{
    if fields.len() == 0 {
        Seq::<char>::empty()
    } else if fields.len() == 1 {
        fields[0]
    } else {
        join_of(fields.drop_last(), sep) + seq![sep] + fields.last()
    }
}

/// Splitting gives at least one field, and none of the fields holds the
/// separator.
pub proof fn lemma_split_fields(s: Seq<char>, sep: char)
    ensures
        split_of(s, sep).len() >= 1,
        forall|i: int|
            0 <= i < split_of(s, sep).len() ==> !(#[trigger] split_of(s, sep)[i]).contains(sep),
    decreases s.len(),
{
    if s.len() > 0 {
        lemma_split_fields(s.drop_last(), sep);
        let before = split_of(s.drop_last(), sep);
        if s.last() != sep {
            let grown = before.last().push(s.last());
            assert forall|j: int| 0 <= j < grown.len() implies grown[j] != sep by {
                if j < before.last().len() {
                    assert(before.last()[j] == grown[j]);
                }
            }
        }
    }
}

/// Joining the fields of a text with the separator that split it gives the
/// text back.
pub proof fn lemma_join_split(s: Seq<char>, sep: char)
    ensures
        join_of(split_of(s, sep), sep) == s,
    decreases s.len(),
{
    if s.len() > 0 {
        lemma_join_split(s.drop_last(), sep);
        lemma_split_fields(s.drop_last(), sep);
        let before = split_of(s.drop_last(), sep);
        if s.last() == sep {
            let after = before.push(Seq::<char>::empty());
            assert(after.drop_last() == before);
            assert(join_of(after, sep) == s.drop_last() + seq![sep] + Seq::<char>::empty());
        } else {
            let after = before.update(before.len() - 1, before.last().push(s.last()));
            if before.len() > 1 {
                assert(after.drop_last() == before.drop_last());
                assert(join_of(after, sep) == join_of(before.drop_last(), sep) + seq![sep]
                    + before.last().push(s.last()));
            }
            assert(join_of(after, sep) == join_of(before, sep).push(s.last()));
        }
        assert(s == s.drop_last().push(s.last()));
    }
}

/// A text that is one field followed by a separator and a field without
/// separators splits into the fields of the first part and that last field.
pub proof fn lemma_split_append(head: Seq<char>, tail: Seq<char>, sep: char)
    requires
        !tail.contains(sep),
    ensures
        split_of(head + seq![sep] + tail, sep) == split_of(head, sep).push(tail),
    decreases tail.len(),
{
    let whole = head + seq![sep] + tail;
    if tail.len() == 0 {
        assert(whole.drop_last() == head);
        assert(tail == Seq::<char>::empty());
    } else {
        let shorter = tail.drop_last();
        assert forall|j: int| 0 <= j < shorter.len() implies shorter[j] != sep by {
            assert(tail[j] == shorter[j]);
            assert(tail.contains(tail[j]));
        }
        lemma_split_append(head, shorter, sep);
        assert(whole.drop_last() == head + seq![sep] + shorter);
        assert(whole.last() == tail.last());
        assert(tail.contains(tail.last()));
        assert(shorter.push(tail.last()) == tail);
        let before = split_of(head, sep).push(shorter);
        assert(before.update(before.len() - 1, tail) == split_of(head, sep).push(tail));
    }
}

/// A text without separators is its own single field.
pub proof fn lemma_split_single(s: Seq<char>, sep: char)
    requires
        !s.contains(sep),
    ensures
        split_of(s, sep) == seq![s],
    decreases s.len(),
{
    if s.len() == 0 {
        assert(s == Seq::<char>::empty());
    } else {
        let shorter = s.drop_last();
        assert forall|j: int| 0 <= j < shorter.len() implies shorter[j] != sep by {
            assert(s[j] == shorter[j]);
            assert(s.contains(s[j]));
        }
        lemma_split_single(shorter, sep);
        assert(s.contains(s.last()));
        assert(shorter.push(s.last()) == s);
        assert(seq![shorter].update(0, s) == seq![s]);
    }
}

/// Splitting what was joined gives the fields back, where there is at least
/// one field and none holds the separator.
pub proof fn lemma_split_join(fields: Seq<Seq<char>>, sep: char)
    requires
        fields.len() >= 1,
        forall|i: int| 0 <= i < fields.len() ==> !(#[trigger] fields[i]).contains(sep),
    ensures
        split_of(join_of(fields, sep), sep) == fields,
    decreases fields.len(),
{
    if fields.len() == 1 {
        lemma_split_single(fields[0], sep);
        assert(fields == seq![fields[0]]);
    } else {
        let front = fields.drop_last();
        assert forall|i: int| 0 <= i < front.len() implies !(#[trigger] front[i]).contains(sep) by {
            assert(front[i] == fields[i]);
        }
        lemma_split_join(front, sep);
        lemma_split_append(join_of(front, sep), fields.last(), sep);
        assert(front.push(fields.last()) == fields);
    }
}

/// Two texts put together have the fields of both, but for the last of the
/// first and the first of the second, which become one.
pub proof fn lemma_split_concat_len(a: Seq<char>, b: Seq<char>, sep: char)
    ensures
        split_of(a + b, sep).len() == split_of(a, sep).len() + split_of(b, sep).len() - 1,
    decreases b.len(),
{
    if b.len() == 0 {
        assert(a + b == a);
    } else {
        lemma_split_concat_len(a, b.drop_last(), sep);
        lemma_split_fields(b.drop_last(), sep);
        lemma_split_fields(a + b.drop_last(), sep);
        assert((a + b).drop_last() == a + b.drop_last());
        assert((a + b).last() == b.last());
    }
}

/// Trimming changes the number of fields only where the separator is
/// white space itself.
pub proof fn lemma_trim_keeps_fields(s: Seq<char>, sep: char)
    requires
        !is_space(sep),
    ensures
        split_of(trimmed(s), sep).len() == split_of(s, sep).len(),
{
    let ends = lemma_trimmed(s);
    assert(!ends.0.contains(sep));
    assert(!ends.1.contains(sep));
    lemma_split_single(ends.0, sep);
    lemma_split_single(ends.1, sep);
    lemma_split_concat_len(ends.0, trimmed(s), sep);
    lemma_split_concat_len(ends.0 + trimmed(s), ends.1, sep);
}

/// Splits `s` at each occurrence of `sep`.
pub fn split(s: &str, sep: char) -> (fields: Vec<String>)
    ensures
        fields.deep_view() == split_of(s@, sep),
{
    let mut done: Vec<String> = Vec::new();
    let mut current = String::new();
    assert(s@.take(0) == Seq::<char>::empty());
    assert(done.deep_view().push(current@) == seq![Seq::<char>::empty()]);
    for c in it: s.chars()
        invariant
            it.seq() == s@,
            done.deep_view().push(current@) == split_of(s@.take(it.index() as int), sep),
    {
        proof {
            let read = s@.take(it.index() + 1);
            assert(read.drop_last() == s@.take(it.index() as int));
            assert(read.last() == c);
        }
        let ghost before = done.deep_view().push(current@);
        if c == sep {
            done.push(current);
            current = String::new();
            assert(done.deep_view().push(current@) == before.push(Seq::<char>::empty()));
        } else {
            current.push(c);
            assert(done.deep_view().push(current@) == before.update(
                before.len() - 1,
                before.last().push(c),
            ));
        }
    }
    assert(s@.take(s@.len() as int) == s@);
    let ghost all = done.deep_view().push(current@);
    done.push(current);
    assert(done.deep_view() == all);
    done
}

/// `s` without the carriage return it ends with, if it ends with one.
pub open spec fn without_return(s: Seq<char>) -> Seq<char> {
    if s.len() > 0 && s.last() == '\r' {
        s.drop_last()
    } else {
        s
    }
}

/// The lines of `s`. A line ends at a line feed, or at a carriage return
/// directly followed by a line feed; neither is part of the line. What
/// follows the last line feed is a line of its own unless it is empty, and
/// it keeps a carriage return at its end.
pub open spec fn lines_of(s: Seq<char>) -> Seq<Seq<char>> {
    let pieces = split_of(s, '\n');
    let closed = Seq::new((pieces.len() - 1) as nat, |i: int| without_return(pieces[i]));
    if pieces.last().len() == 0 {
        closed
    } else {
        closed.push(pieces.last())
    }
}

fn strip_return(s: &String) -> (t: String)
    ensures
        t@ == without_return(s@),
{
    let v = chars_of(s.as_str());
    let n = v.len();
    if n > 0 && v[n - 1] == '\r' {
        string_of(&v, 0, n - 1)
    } else {
        s.clone()
    }
}

/// Splits `s` into its lines.
pub fn lines(s: &str) -> (result: Vec<String>)
    ensures
        result.deep_view() == lines_of(s@),
{
    let pieces = split(s, '\n');
    proof {
        lemma_split_fields(s@, '\n');
    }
    let ghost parts = pieces.deep_view();
    let last = pieces.len() - 1;
    let mut result: Vec<String> = Vec::new();
    let mut i: usize = 0;
    while i < last
        invariant
            i <= last == pieces.len() - 1,
            parts == pieces.deep_view(),
            result.deep_view() == Seq::new(i as nat, |k: int| without_return(parts[k])),
        decreases last - i,
    {
        let line = strip_return(&pieces[i]);
        let ghost before = result.deep_view();
        result.push(line);
        assert(result.deep_view() == before.push(without_return(parts[i as int])));
        i += 1;
    }
    if !pieces[last].as_str().is_empty() {
        let ghost before = result.deep_view();
        result.push(pieces[last].clone());
        assert(result.deep_view() == before.push(parts.last()));
    }
    result
}

} // verus!
