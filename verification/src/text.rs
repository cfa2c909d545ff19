//! Text primitives shared by the rest of the crate.
//!
//! Strings are modelled by their sequence of characters (`s@`). Everything
//! the crate needs from `str` beyond what `vstd` already specifies is
//! declared here, once.

use vstd::prelude::*;

verus! {

/// The texts of a list of strings, item by item.
pub open spec fn texts(list: Seq<String>) -> Seq<Seq<char>> {
    list.map_values(|s: String| s@)
}

/// The text of an optional string.
pub open spec fn opt_text(value: Option<String>) -> Option<Seq<char>> {
    match value {
        Some(s) => Some(s@),
        None => None,
    }
}

/// `needle` occurs in `hay` as a contiguous run of characters.
pub open spec fn occurs_in(needle: Seq<char>, hay: Seq<char>) -> bool {
    exists|i: int|
        0 <= i && i + needle.len() <= hay.len() && #[trigger] hay.subrange(
            i,
            i + needle.len(),
        ) == needle
}

/// The lowercase form of a text as `str::to_lowercase` computes it.
pub uninterp spec fn lowercase(text: Seq<char>) -> Seq<char>;

/// `str` equality (`<str as PartialEq>::eq`) compares the two texts
/// character by character.
pub assume_specification[ <str as PartialEq>::eq ](a: &str, b: &str) -> (r: bool)
    ensures
        r == (a@ == b@),
;

/// The characters of a text, one by one.
pub fn chars_of(text: &str) -> (r: Vec<char>)
    ensures
        r@ == text@,
{
    let mut out: Vec<char> = Vec::new();
    for c in it: text.chars()
        invariant
            out@ == it.seq().take(it.index() as int),
            it.seq() == text@,
    {
        out.push(c);
    }
    out
}

/// Whether `needle` occurs in `hay`.
pub fn contains_text(hay: &str, needle: &str) -> (r: bool)
    ensures
        r == occurs_in(needle@, hay@),
{
    let h = chars_of(hay);
    let n = chars_of(needle);
    if n.len() > h.len() {
        return false;
    }
    let last = h.len() - n.len();
    let mut i: usize = 0;
    while i <= last
        invariant
            n.len() <= h.len(),
            last == h.len() - n.len(),
            i <= last + 1,
            h@ == hay@,
            n@ == needle@,
            forall|j: int| 0 <= j < i ==> #[trigger] h@.subrange(j, j + n.len()) != n@,
        decreases last + 1 - i,
    {
        let mut k: usize = 0;
        while k < n.len() && h[i + k] == n[k]
            invariant
                i <= last,
                last == h.len() - n.len(),
                n.len() <= h.len(),
                k <= n.len(),
                forall|m: int| 0 <= m < k ==> h@[i + m] == n@[m],
            decreases n.len() - k,
        {
            k += 1;
        }
        if k == n.len() {
            assert(h@.subrange(i as int, i + n.len()) =~= n@);
            return true;
        }
        assert(h@.subrange(i as int, i + n.len())[k as int] != n@[k as int]);
        i += 1;
    }
    false
}

/// `str::to_lowercase`: the Unicode lowercase equivalent of the text. The
/// mapping is too long to state, so its result is named by [`lowercase`].
#[verifier::external_body]
pub(crate) fn to_lowercase(text: &str) -> (r: String)
    ensures
        r@ == lowercase(text@),
{
    text.to_lowercase()
}

/// Whether two string slices hold the same text.
pub fn same_text(a: &str, b: &str) -> (r: bool)
    ensures
        r == (a@ == b@),
{
    *a == *b
}

/// Whether `item` is one of the strings in `list`.
pub fn list_contains(list: &Vec<String>, item: &str) -> (r: bool)
    ensures
        r == texts(list@).contains(item@),
{
    let mut i: usize = 0;
    while i < list.len()
        invariant
            i <= list.len(),
            forall|j: int| 0 <= j < i ==> texts(list@)[j] != item@,
        decreases list.len() - i,
    {
        if same_text(list[i].as_str(), item) {
            assert(texts(list@)[i as int] == item@);
            return true;
        }
        i += 1;
    }
    false
}

/// A copy of an optional string.
pub fn copy_opt(value: &Option<String>) -> (r: Option<String>)
    ensures
        r == *value,
{
    match value {
        Some(s) => Some(s.clone()),
        None => None,
    }
}

/// A copy of a list of strings.
pub fn copy_list(list: &Vec<String>) -> (r: Vec<String>)
    ensures
        r@ == list@,
{
    let mut out: Vec<String> = Vec::new();
    let mut i: usize = 0;
    while i < list.len()
        invariant
            i <= list.len(),
            out@ == list@.subrange(0, i as int),
        decreases list.len() - i,
    {
        out.push(list[i].clone());
        i += 1;
    }
    assert(list@.subrange(0, list.len() as int) == list@);
    out
}

/// A text with every occurrence of a pattern replaced, scanning from the
/// left and resuming after each replacement. An empty pattern replaces
/// nothing.
pub open spec fn replace_all(text: Seq<char>, from: Seq<char>, to: Seq<char>) -> Seq<char>
    decreases text.len(),
{
    if from.len() == 0 || text.len() < from.len() {
        text
    } else if text.subrange(0, from.len() as int) == from {
        to + replace_all(text.skip(from.len() as int), from, to)
    } else {
        seq![text[0]] + replace_all(text.skip(1), from, to)
    }
}

/// Replaces every occurrence of a pattern in a text.
pub fn replace_text(text: &str, from: &str, to: &str) -> (r: String)
    ensures
        r@ == replace_all(text@, from@, to@),
{
    let n = text.unicode_len();
    let m = from.unicode_len();
    if m == 0 {
        return text.to_string();
    }
    let mut out = String::new();
    let mut i: usize = 0;
    assert(text@.skip(0) == text@);
    assert(out@ + text@ == text@);
    while i < n && m <= n - i
        invariant
            n == text@.len(),
            m == from@.len(),
            m > 0,
            i <= n,
            out@ + replace_all(text@.skip(i as int), from@, to@) == replace_all(
                text@,
                from@,
                to@,
            ),
        decreases n - i,
    {
        let ghost rest = text@.skip(i as int);
        let ghost done = out@;
        let window = text.substring_char(i, i + m);
        assert(window@ == rest.subrange(0, m as int));
        if same_text(window, from) {
            out.append(to);
            assert(rest.skip(m as int) == text@.skip(i + m));
            assert(done + (to@ + replace_all(rest.skip(m as int), from@, to@)) == (done + to@)
                + replace_all(rest.skip(m as int), from@, to@));
            i += m;
        } else {
            let one = text.substring_char(i, i + 1);
            assert(one@ == seq![rest[0]]);
            out.append(one);
            assert(rest.skip(1) == text@.skip(i + 1));
            assert(done + (seq![rest[0]] + replace_all(rest.skip(1), from@, to@)) == (done
                + seq![rest[0]]) + replace_all(rest.skip(1), from@, to@));
            i += 1;
        }
    }
    let tail = text.substring_char(i, n);
    assert(tail@ == text@.skip(i as int));
    out.append(tail);
    out
}

/// The pieces of a text between occurrences of a separator, in order. A
/// text without the separator is its own single piece; two separators in a
/// row, or one at either end, give an empty piece.
pub open spec fn split_on(text: Seq<char>, sep: char) -> Seq<Seq<char>>
    decreases text.len(),
{
    if text.len() == 0 {
        seq![Seq::<char>::empty()]
    } else {
        let init = split_on(text.drop_last(), sep);
        if text.last() == sep {
            init.push(Seq::<char>::empty())
        } else {
            init.update(init.len() - 1, init.last().push(text.last()))
        }
    }
}

/// The texts of a list put together, with a separator between neighbours.
pub open spec fn join_with(parts: Seq<Seq<char>>, sep: Seq<char>) -> Seq<char>
    decreases parts.len(),
{
    if parts.len() == 0 {
        Seq::<char>::empty()
    } else if parts.len() == 1 {
        parts[0]
    } else {
        join_with(parts.drop_last(), sep) + sep + parts.last()
    }
}

/// Splits a text at every occurrence of a separator.
pub fn split_text(text: &str, sep: char) -> (r: Vec<String>)
    ensures
        texts(r@) == split_on(text@, sep),
{
    let n = text.unicode_len();
    let mut pieces: Vec<String> = Vec::new();
    let mut start: usize = 0;
    let mut i: usize = 0;
    assert(text@.take(0) =~= Seq::<char>::empty());
    assert(texts(pieces@).push(text@.subrange(0, 0)) =~= split_on(text@.take(0), sep));
    while i < n
        invariant
            n == text@.len(),
            start <= i <= n,
            texts(pieces@).push(text@.subrange(start as int, i as int)) == split_on(
                text@.take(i as int),
                sep,
            ),
        decreases n - i,
    {
        let ghost done = texts(pieces@);
        let ghost current = text@.subrange(start as int, i as int);
        let ghost upto = text@.take(i + 1);
        assert(upto.drop_last() == text@.take(i as int));
        assert(upto.last() == text@[i as int]);
        let c = text.get_char(i);
        if c == sep {
            let piece = text.substring_char(start, i);
            pieces.push(piece.to_string());
            assert(texts(pieces@) =~= done.push(current));
            start = i + 1;
            assert(text@.subrange(start as int, i + 1) =~= Seq::<char>::empty());
        } else {
            assert(text@.subrange(start as int, i + 1) =~= current.push(text@[i as int]));
            assert(done.push(current).update(done.len() as int, current.push(text@[i as int]))
                =~= done.push(current.push(text@[i as int])));
        }
        i += 1;
    }
    let ghost done = texts(pieces@);
    let last = text.substring_char(start, n);
    pieces.push(last.to_string());
    assert(texts(pieces@) =~= done.push(text@.subrange(start as int, n as int)));
    assert(text@.take(n as int) == text@);
    pieces
}

/// Puts the strings of a list together, with a separator between
/// neighbours.
pub fn join_texts(parts: &Vec<String>, sep: &str) -> (r: String)
    ensures
        r@ == join_with(texts(parts@), sep@),
{
    let mut out = String::new();
    let mut i: usize = 0;
    let ghost all = texts(parts@);
    assert(all.take(0) =~= Seq::<Seq<char>>::empty());
    while i < parts.len()
        invariant
            i <= parts.len(),
            all == texts(parts@),
            out@ == join_with(all.take(i as int), sep@),
        decreases parts.len() - i,
    {
        let ghost upto = all.take(i + 1);
        let ghost before = out@;
        assert(upto.drop_last() == all.take(i as int));
        assert(upto.last() == parts[i as int]@);
        if i > 0 {
            out.append(sep);
        }
        out.append(parts[i].as_str());
        if i == 0 {
            assert(out@ =~= parts[i as int]@);
            assert(upto[0] == parts[i as int]@);
        } else {
            assert(out@ =~= before + sep@ + parts[i as int]@);
        }
        i += 1;
    }
    assert(all.take(parts.len() as int) == all);
    out
}

/// Whether a character is white space: one of the characters with the
/// Unicode property `White_Space`. These are tab to carriage return,
/// space, next line, no-break space, the Ogham space mark, the spaces
/// from en quad to hair space, the line and paragraph separators, the
/// narrow no-break space, the medium mathematical space and the
/// ideographic space.
pub open spec fn is_space(c: char) -> bool {
    let n = c as u32;
    (0x09 <= n <= 0x0D) || n == 0x20 || n == 0x85 || n == 0xA0 || n == 0x1680 || (0x2000 <= n
        <= 0x200A) || n == 0x2028 || n == 0x2029 || n == 0x202F || n == 0x205F || n == 0x3000
}

/// Whether a character is white space.
pub fn space_char(c: char) -> (r: bool)
    ensures
        r == is_space(c),
{
    let n: u32 = c as u32;
    (0x09 <= n && n <= 0x0D) || n == 0x20 || n == 0x85 || n == 0xA0 || n == 0x1680 || (0x2000 <= n
        && n <= 0x200A) || n == 0x2028 || n == 0x2029 || n == 0x202F || n == 0x205F || n
        == 0x3000
}

/// A text without the white space it begins with.
pub open spec fn trim_start(text: Seq<char>) -> Seq<char>
    decreases text.len(),
{
    if text.len() > 0 && is_space(text[0]) {
        trim_start(text.drop_first())
    } else {
        text
    }
}

/// A text without the white space it ends with.
pub open spec fn trim_end(text: Seq<char>) -> Seq<char>
    decreases text.len(),
{
    if text.len() > 0 && is_space(text.last()) {
        trim_end(text.drop_last())
    } else {
        text
    }
}

/// A text without the white space at either end.
pub open spec fn trimmed(text: Seq<char>) -> Seq<char> {
    trim_end(trim_start(text))
}

/// The characters a text begins with, up to its first white space.
pub open spec fn leading_word(text: Seq<char>) -> Seq<char>
    decreases text.len(),
{
    if text.len() > 0 && !is_space(text[0]) {
        seq![text[0]] + leading_word(text.drop_first())
    } else {
        Seq::empty()
    }
}

/// The first run of characters of a text that are not white space; nothing
/// where the text holds only white space.
pub open spec fn first_word(text: Seq<char>) -> Option<Seq<char>> {
    let body = trim_start(text);
    if body.len() == 0 {
        None
    } else {
        Some(leading_word(body))
    }
}

/// A text without the copies of a prefix that it begins with, however many
/// there are in a row. An empty prefix removes nothing.
pub open spec fn strip_prefixes(text: Seq<char>, prefix: Seq<char>) -> Seq<char>
    decreases text.len(),
{
    if 0 < prefix.len() <= text.len() && text.subrange(0, prefix.len() as int) == prefix {
        strip_prefixes(text.skip(prefix.len() as int), prefix)
    } else {
        text
    }
}

/// Where a text begins once its leading white space is skipped.
fn skip_spaces(text: &str) -> (r: usize)
    ensures
        r <= text@.len(),
        trim_start(text@) == text@.skip(r as int),
{
    let n = text.unicode_len();
    let mut i: usize = 0;
    assert(text@.skip(0) == text@);
    while i < n
        invariant
            n == text@.len(),
            i <= n,
            trim_start(text@) == trim_start(text@.skip(i as int)),
        decreases n - i,
    {
        let ghost rest = text@.skip(i as int);
        assert(rest[0] == text@[i as int]);
        assert(rest.drop_first() == text@.skip(i + 1));
        if !space_char(text.get_char(i)) {
            return i;
        }
        i += 1;
    }
    i
}

/// A text without the white space at either end.
pub fn trim_text(text: &str) -> (r: String)
    ensures
        r@ == trimmed(text@),
{
    let n = text.unicode_len();
    let start = skip_spaces(text);
    let ghost body = text@.skip(start as int);
    let mut end: usize = n;
    assert(text@.subrange(start as int, n as int) == body);
    let mut going = true;
    while going && end > start
        invariant
            n == text@.len(),
            start <= end <= n,
            body == text@.skip(start as int),
            trim_end(body) == trim_end(text@.subrange(start as int, end as int)),
            !going ==> end > start && !is_space(text@[end - 1]),
        decreases end + if going { 1int } else { 0int },
    {
        let ghost part = text@.subrange(start as int, end as int);
        assert(part.last() == text@[end - 1]);
        assert(part.drop_last() == text@.subrange(start as int, end - 1));
        if space_char(text.get_char(end - 1)) {
            end -= 1;
        } else {
            going = false;
        }
    }
    proof {
        let part = text@.subrange(start as int, end as int);
        if end > start {
            assert(part.last() == text@[end - 1]);
        }
        assert(trim_end(part) == part);
    }
    text.substring_char(start, end).to_string()
}

/// The first run of characters of a text that are not white space.
pub fn first_word_of(text: &str) -> (r: Option<String>)
    ensures
        opt_text(r) == first_word(text@),
{
    let n = text.unicode_len();
    let start = skip_spaces(text);
    if start == n {
        return None;
    }
    let ghost body = text@.skip(start as int);
    let mut end: usize = start;
    assert(text@.subrange(start as int, start as int) + leading_word(body) == leading_word(body));
    let mut going = true;
    while going && end < n
        invariant
            n == text@.len(),
            start <= end <= n,
            body == text@.skip(start as int),
            leading_word(body) == text@.subrange(start as int, end as int) + leading_word(
                text@.skip(end as int),
            ),
            !going ==> end < n && is_space(text@[end as int]),
        decreases n - end + if going { 1int } else { 0int },
    {
        let ghost rest = text@.skip(end as int);
        let ghost taken = text@.subrange(start as int, end as int);
        assert(rest[0] == text@[end as int]);
        assert(rest.drop_first() == text@.skip(end + 1));
        if space_char(text.get_char(end)) {
            going = false;
        } else {
            assert(taken + (seq![rest[0]] + leading_word(rest.drop_first())) == text@.subrange(
                start as int,
                end + 1,
            ) + leading_word(rest.drop_first()));
            end += 1;
        }
    }
    proof {
        let rest = text@.skip(end as int);
        let taken = text@.subrange(start as int, end as int);
        if end < n {
            assert(rest[0] == text@[end as int]);
        }
        assert(leading_word(rest) == Seq::<char>::empty());
        assert(taken + Seq::<char>::empty() == taken);
        assert(body.len() > 0);
    }
    Some(text.substring_char(start, end).to_string())
}

/// A text without the copies of a prefix that it begins with.
pub fn strip_prefix_text(text: &str, prefix: &str) -> (r: String)
    ensures
        r@ == strip_prefixes(text@, prefix@),
{
    let n = text.unicode_len();
    let m = prefix.unicode_len();
    let mut i: usize = 0;
    assert(text@.skip(0) == text@);
    let mut going = true;
    while going && m > 0 && m <= n - i
        invariant
            n == text@.len(),
            m == prefix@.len(),
            i <= n,
            strip_prefixes(text@, prefix@) == strip_prefixes(text@.skip(i as int), prefix@),
            !going ==> m > 0 && m <= n - i && text@.skip(i as int).subrange(0, m as int)
                != prefix@,
        decreases n - i + if going { 1int } else { 0int },
    {
        let ghost rest = text@.skip(i as int);
        let window = text.substring_char(i, i + m);
        assert(window@ == rest.subrange(0, m as int));
        if same_text(window, prefix) {
            assert(rest.skip(m as int) == text@.skip(i + m));
            i += m;
        } else {
            going = false;
        }
    }
    let tail = text.substring_char(i, n);
    assert(tail@ == text@.skip(i as int));
    tail.to_string()
}

} // verus!
