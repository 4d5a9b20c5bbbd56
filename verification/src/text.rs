use vstd::prelude::*;
use vstd::string::*;

verus! {

/// Whether two strings hold the same characters.
pub(crate) fn same_text(a: &str, b: &str) -> (same: bool)
    ensures
        same == (a@ == b@),
{
    let left = a.to_owned();
    let right = b.to_owned();
    left == right
}

/// The parts, in order, with `sep` between each two neighbours.
pub open spec fn joined(parts: Seq<Seq<char>>, sep: Seq<char>) -> Seq<char>
    decreases parts.len(),
{
    if parts.len() == 0 {
        Seq::empty()
    } else if parts.len() == 1 {
        parts[0]
    } else {
        joined(parts.drop_last(), sep) + sep + parts.last()
    }
}

/// The texts that a list of string slices holds.
pub open spec fn texts(parts: Seq<&'static str>) -> Seq<Seq<char>> {
    Seq::new(parts.len(), |i: int| parts[i]@)
}

/// The texts that a sequence of strings holds.
pub open spec fn strings(list: Seq<String>) -> Seq<Seq<char>> {
    Seq::new(list.len(), |i: int| list[i]@)
}

/// The first `i + 1` parts joined are the first `i` joined, then the
/// separator where there is a part before, then part `i`.
proof fn joined_grows(parts: Seq<Seq<char>>, sep: Seq<char>, i: int)
    requires
        0 <= i < parts.len(),
    ensures
        joined(parts.take(i + 1), sep) == if i == 0 {
            parts[i]
        } else {
            joined(parts.take(i), sep) + sep + parts[i]
        },
{
    let after = parts.take(i + 1);
    assert(after.drop_last() =~= parts.take(i));
    assert(after.last() == parts[i]);
}

/// Appends the parts to `out`, in order, with `sep` between each two
/// neighbours.
pub fn append_joined_strings(out: &mut String, parts: &Vec<String>, sep: &str)
    ensures
        final(out)@ == old(out)@ + joined(strings(parts@), sep@),
{
    let ghost start = out@;
    let mut i: usize = 0;
    proof {
        assert(out@ =~= start + joined(strings(parts@).take(0), sep@));
    }
    while i < parts.len()
        invariant
            i <= parts.len(),
            out@ == start + joined(strings(parts@).take(i as int), sep@),
        decreases parts.len() - i,
    {
        if i > 0 {
            out.append(sep);
        }
        out.append(parts[i].as_str());
        proof {
            joined_grows(strings(parts@), sep@, i as int);
            assert(out@ =~= start + joined(strings(parts@).take(i + 1), sep@));
        }
        i += 1;
    }
    proof {
        assert(strings(parts@).take(i as int) =~= strings(parts@));
    }
}

/// Appends the parts to `out`, in order, with `sep` between each two
/// neighbours.
pub fn append_joined(out: &mut String, parts: &Vec<&'static str>, sep: &str)
    ensures
        final(out)@ == old(out)@ + joined(texts(parts@), sep@),
{
    let ghost start = out@;
    let mut i: usize = 0;
    proof {
        assert(out@ =~= start + joined(texts(parts@).take(0), sep@));
    }
    while i < parts.len()
        invariant
            i <= parts.len(),
            out@ == start + joined(texts(parts@).take(i as int), sep@),
        decreases parts.len() - i,
    {
        if i > 0 {
            out.append(sep);
        }
        out.append(parts[i]);
        proof {
            joined_grows(texts(parts@), sep@, i as int);
            assert(out@ =~= start + joined(texts(parts@).take(i + 1), sep@));
        }
        i += 1;
    }
    proof {
        assert(texts(parts@).take(i as int) =~= texts(parts@));
    }
}

/// The text of one decimal digit.
pub open spec fn digit_text(d: nat) -> Seq<char> {
    if d == 0 {
        "0"@
    } else if d == 1 {
        "1"@
    } else if d == 2 {
        "2"@
    } else if d == 3 {
        "3"@
    } else if d == 4 {
        "4"@
    } else if d == 5 {
        "5"@
    } else if d == 6 {
        "6"@
    } else if d == 7 {
        "7"@
    } else if d == 8 {
        "8"@
    } else {
        "9"@
    }
}

/// A number written in decimal, without leading zeros.
pub open spec fn decimal(n: nat) -> Seq<char>
    decreases n,
{
    if n < 10 {
        digit_text(n)
    } else {
        decimal(n / 10) + digit_text(n % 10)
    }
}

fn digit_str(d: usize) -> (text: &'static str)
    requires
        d < 10,
    ensures
        text@ == digit_text(d as nat),
{
    match d {
        0 => "0",
        1 => "1",
        2 => "2",
        3 => "3",
        4 => "4",
        5 => "5",
        6 => "6",
        7 => "7",
        8 => "8",
        _ => "9",
    }
}

/// Appends `n`, written in decimal, to `out`.
pub fn append_decimal(out: &mut String, n: usize)
    ensures
        final(out)@ == old(out)@ + decimal(n as nat),
    decreases n,
{
    if n >= 10 {
        append_decimal(out, n / 10);
    }
    out.append(digit_str(n % 10));
    proof {
        assert(out@ =~= old(out)@ + decimal(n as nat));
    }
}

/// Whether `word` stands in `text` from place `at` on.
pub open spec fn occurs_at(text: Seq<char>, word: Seq<char>, at: int) -> bool {
    0 <= at && at + word.len() <= text.len() && text.subrange(at, at + word.len()) == word
}

/// Whether the words stand in `text` at the places `at`, one after the
/// other and in their order, no two overlapping.
pub open spec fn placed(text: Seq<char>, words: Seq<Seq<char>>, at: Seq<int>) -> bool {
    &&& at.len() == words.len()
    &&& forall|i: int| 0 <= i < words.len() ==> occurs_at(text, #[trigger] words[i], at[i])
    &&& forall|i: int, j: int|
        0 <= i < j < words.len() ==> #[trigger] at[i] + words[i].len() <= #[trigger] at[j]
}

/// Whether `text` holds every word of `words`, one after the other and in
/// their order, no two overlapping.
pub open spec fn lists_in_order(text: Seq<char>, words: Seq<Seq<char>>) -> bool {
    exists|at: Seq<int>| placed(text, words, at)
}

/// The place at which part `i` starts in the parts joined by `sep`.
pub open spec fn joined_offset(parts: Seq<Seq<char>>, sep: Seq<char>, i: int) -> int
    decreases i,
{
    if i <= 0 {
        0
    } else {
        joined_offset(parts, sep, i - 1) + parts[i - 1].len() + sep.len()
    }
}

proof fn offset_ignores_later_parts(a: Seq<Seq<char>>, b: Seq<Seq<char>>, sep: Seq<char>, i: int)
    requires
        0 <= i <= a.len(),
        i <= b.len(),
        forall|k: int| 0 <= k < i ==> a[k] == b[k],
    ensures
        joined_offset(a, sep, i) == joined_offset(b, sep, i),
    decreases i,
{
    if i > 0 {
        offset_ignores_later_parts(a, b, sep, i - 1);
    }
}

proof fn joined_ends_with_last(parts: Seq<Seq<char>>, sep: Seq<char>)
    requires
        parts.len() > 0,
    ensures
        joined(parts, sep).len() == joined_offset(parts, sep, parts.len() - 1) + parts.last().len(),
    decreases parts.len(),
{
    if parts.len() > 1 {
        let front = parts.drop_last();
        joined_ends_with_last(front, sep);
        offset_ignores_later_parts(front, parts, sep, front.len() - 1);
    }
}

/// Each part stands in the joined text at its offset.
pub proof fn joined_holds_part(parts: Seq<Seq<char>>, sep: Seq<char>, i: int)
    requires
        0 <= i < parts.len(),
    ensures
        occurs_at(joined(parts, sep), parts[i], joined_offset(parts, sep, i)),
    decreases parts.len(),
{
    let whole = joined(parts, sep);
    let at = joined_offset(parts, sep, i);
    if parts.len() == 1 {
        assert(whole.subrange(0, whole.len() as int) =~= whole);
    } else {
        let front = parts.drop_last();
        let head = joined(front, sep);
        joined_ends_with_last(front, sep);
        joined_ends_with_last(parts, sep);
        if i < parts.len() - 1 {
            joined_holds_part(front, sep, i);
            offset_ignores_later_parts(front, parts, sep, i);
            assert(whole.subrange(at, at + parts[i].len()) =~= head.subrange(
                at,
                at + front[i].len(),
            ));
        } else {
            assert(whole.subrange(at, at + parts[i].len()) =~= parts[i]);
        }
    }
}

proof fn offsets_grow(parts: Seq<Seq<char>>, sep: Seq<char>, i: int, j: int)
    requires
        0 <= i < j,
    ensures
        joined_offset(parts, sep, i) + parts[i].len() <= joined_offset(parts, sep, j),
    decreases j,
{
    if i < j - 1 {
        offsets_grow(parts, sep, i, j - 1);
    }
}

/// A text that ends with words joined by a separator holds every one of
/// them, in their order.
pub proof fn joined_lists_in_order(before: Seq<char>, words: Seq<Seq<char>>, sep: Seq<char>)
    ensures
        lists_in_order(before + joined(words, sep), words),
{
    let text = before + joined(words, sep);
    let at = Seq::new(words.len(), |i: int| before.len() + joined_offset(words, sep, i));
    assert forall|i: int| 0 <= i < words.len() implies occurs_at(
        text,
        #[trigger] words[i],
        at[i],
    ) by {
        joined_holds_part(words, sep, i);
        let from = joined_offset(words, sep, i);
        assert(text.subrange(at[i], at[i] + words[i].len()) =~= joined(words, sep).subrange(
            from,
            from + words[i].len(),
        ));
    }
    assert forall|i: int, j: int| 0 <= i < j < words.len() implies #[trigger] at[i]
        + words[i].len() <= #[trigger] at[j] by {
        offsets_grow(words, sep, i, j);
    }
    assert(placed(text, words, at));
}

} // verus!
