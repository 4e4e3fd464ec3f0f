//! Text helpers over sequences of characters: whitespace, words, substring
//! search and joining.

use vstd::prelude::*;
use vstd::string::*;

verus! {

/// Whether `c` is white space: one of the code points that Unicode marks as
/// `White_Space`.
pub open spec fn is_whitespace(c: char) -> bool {
    let n = c as u32;
    ||| 0x09 <= n <= 0x0D
    ||| n == 0x20
    ||| n == 0x85
    ||| n == 0xA0
    ||| n == 0x1680
    ||| 0x2000 <= n <= 0x200A
    ||| n == 0x2028
    ||| n == 0x2029
    ||| n == 0x202F
    ||| n == 0x205F
    ||| n == 0x3000
}

/// Tests a character for white space.
pub fn char_is_whitespace(c: char) -> (r: bool)
    ensures
        r == is_whitespace(c),
{
    let n: u32 = c as u32;
    (0x09 <= n && n <= 0x0D) || n == 0x20 || n == 0x85 || n == 0xA0 || n == 0x1680 || (0x2000 <= n
        && n <= 0x200A) || n == 0x2028 || n == 0x2029 || n == 0x202F || n == 0x205F || n == 0x3000
}

/// The characters of each string of `v`, in order.
pub open spec fn strings_view(v: Seq<String>) -> Seq<Seq<char>> {
    Seq::new(v.len(), |i: int| v[i]@)
}

/// The characters of `s` as a vector.
pub fn to_chars(s: &str) -> (v: Vec<char>)
    ensures
        v@ == s@,
{
    let mut v: Vec<char> = Vec::new();
    for c in it: s.chars()
        invariant
            v@ == it.seq().take(it.index() as int),
            it.seq() == s@,
    {
        v.push(c);
    }
    v
}

/// The words of `s`: its maximal runs of characters that are not white space,
/// from left to right. Read from the right end: a white space character adds
/// nothing, a character behind another word character extends the last word,
/// and any other character starts a new word.
pub open spec fn split_whitespace(s: Seq<char>) -> Seq<Seq<char>>
    decreases s.len(),
{
    if s.len() == 0 {
        Seq::empty()
    } else {
        let before = split_whitespace(s.drop_last());
        if is_whitespace(s.last()) {
            before
        } else if s.len() >= 2 && !is_whitespace(s[s.len() - 2]) {
            before.drop_last().push(before.last().push(s.last()))
        } else {
            before.push(seq![s.last()])
        }
    }
}

/// Whether `s` is a word: not empty, and without white space.
pub open spec fn is_word(s: Seq<char>) -> bool {
    s.len() > 0 && forall|i: int| 0 <= i < s.len() ==> !is_whitespace(s[i])
}

/// A text that ends in a word character has a last word.
proof fn lemma_split_ends_in_word(s: Seq<char>)
    requires
        s.len() > 0,
        !is_whitespace(s.last()),
    ensures
        split_whitespace(s).len() > 0,
{
}

/// A word splits into itself.
pub proof fn lemma_split_word(word: Seq<char>)
    requires
        is_word(word),
    ensures
        split_whitespace(word) == seq![word],
    decreases word.len(),
{
    let before = word.drop_last();
    if before.len() == 0 {
        assert(split_whitespace(before) =~= Seq::<Seq<char>>::empty());
        assert(seq![word.last()] =~= word);
        assert(Seq::<Seq<char>>::empty().push(word) =~= seq![word]);
    } else {
        assert(is_word(before));
        lemma_split_word(before);
        assert(word[word.len() - 2] == before.last());
        assert(before.push(word.last()) =~= word);
        assert(seq![before].drop_last().push(word) =~= seq![word]);
    }
}

/// A white space character parts two texts: the words of `left`, the
/// character and `right` together are the words of `left` and then the words
/// of `right`.
pub proof fn lemma_split_at_whitespace(left: Seq<char>, c: char, right: Seq<char>)
    requires
        is_whitespace(c),
    ensures
        split_whitespace(left + seq![c] + right) == split_whitespace(left) + split_whitespace(
            right,
        ),
    decreases right.len(),
{
    let s = left + seq![c] + right;
    if right.len() == 0 {
        assert(s.drop_last() =~= left);
        assert(split_whitespace(right) =~= Seq::<Seq<char>>::empty());
        assert(split_whitespace(left) + split_whitespace(right) =~= split_whitespace(left));
    } else {
        let shorter = right.drop_last();
        lemma_split_at_whitespace(left, c, shorter);
        assert(s.drop_last() =~= left + seq![c] + shorter);
        assert(s.last() == right.last());
        let before = split_whitespace(left) + split_whitespace(shorter);
        if is_whitespace(right.last()) {
        } else if right.len() >= 2 && !is_whitespace(right[right.len() - 2]) {
            assert(s[s.len() - 2] == right[right.len() - 2]);
            lemma_split_ends_in_word(shorter);
            let words = split_whitespace(shorter);
            assert(before.drop_last() =~= split_whitespace(left) + words.drop_last());
            assert(before.last() == words.last());
            assert((split_whitespace(left) + words.drop_last()).push(
                words.last().push(right.last()),
            ) =~= split_whitespace(left) + words.drop_last().push(
                words.last().push(right.last()),
            ));
        } else {
            if right.len() >= 2 {
                assert(s[s.len() - 2] == right[right.len() - 2]);
            } else {
                assert(s[s.len() - 2] == c);
            }
            assert(before.push(seq![right.last()]) =~= split_whitespace(left) + split_whitespace(
                shorter,
            ).push(seq![right.last()]));
        }
    }
}

/// Every word of a text is a word: none is empty and none holds white space.
pub proof fn lemma_split_gives_words(s: Seq<char>)
    ensures
        forall|k: int| 0 <= k < split_whitespace(s).len() ==> is_word(#[trigger] split_whitespace(s)[k]),
    decreases s.len(),
{
    if s.len() > 0 {
        let before = split_whitespace(s.drop_last());
        lemma_split_gives_words(s.drop_last());
        if is_whitespace(s.last()) {
        } else if s.len() >= 2 && !is_whitespace(s[s.len() - 2]) {
            assert(s.drop_last().last() == s[s.len() - 2]);
            lemma_split_ends_in_word(s.drop_last());
            assert(is_word(before.last()));
            assert(is_word(before.last().push(s.last())));
        } else {
            assert(is_word(seq![s.last()]));
        }
    }
}

/// A text of white space only, or without any character, has no words.
pub proof fn lemma_split_blank(s: Seq<char>)
    requires
        forall|i: int| 0 <= i < s.len() ==> is_whitespace(s[i]),
    ensures
        split_whitespace(s).len() == 0,
    decreases s.len(),
{
    if s.len() > 0 {
        lemma_split_blank(s.drop_last());
    }
}

/// Whether `needle` stands in `hay` at position `i`.
pub open spec fn occurs_at(hay: Seq<char>, needle: Seq<char>, i: int) -> bool {
    &&& 0 <= i
    &&& i + needle.len() <= hay.len()
    &&& hay.subrange(i, i + needle.len()) == needle
}

/// Whether `needle` is a substring of `hay`.
pub open spec fn contains(hay: Seq<char>, needle: Seq<char>) -> bool {
    exists|i: int| occurs_at(hay, needle, i)
}

/// `parts` with `sep` between each two neighbours.
pub open spec fn join(parts: Seq<Seq<char>>, sep: Seq<char>) -> Seq<char>
    decreases parts.len(),
{
    if parts.len() == 0 {
        Seq::empty()
    } else if parts.len() == 1 {
        parts[0]
    } else {
        join(parts.drop_last(), sep) + sep + parts.last()
    }
}

/// Splits `s` into its words.
pub fn split_words(s: &str) -> (words: Vec<String>)
    ensures
        strings_view(words@) == split_whitespace(s@),
{
    let chars = to_chars(s);
    let n = chars.len();
    let mut words: Vec<String> = Vec::new();
    let mut start: usize = 0;
    let mut in_word = false;
    let mut i: usize = 0;
    while i < n
        invariant
            chars@ == s@,
            n == chars.len(),
            i <= n,
            in_word ==> start < i && !is_whitespace(chars@[i - 1]),
            !in_word ==> i == 0 || is_whitespace(chars@[i - 1]),
            in_word ==> split_whitespace(s@.take(i as int)) == strings_view(words@).push(
                s@.subrange(start as int, i as int),
            ),
            !in_word ==> split_whitespace(s@.take(i as int)) == strings_view(words@),
        decreases n - i,
    {
        let c = chars[i];
        let ghost done = strings_view(words@);
        proof {
            assert(s@.take(i + 1).drop_last() == s@.take(i as int));
            assert(s@.take(i + 1).last() == c);
        }
        if char_is_whitespace(c) {
            if in_word {
                let word = s.substring_char(start, i).to_owned();
                words.push(word);
                in_word = false;
                assert(strings_view(words@) == done.push(s@.subrange(start as int, i as int)));
            }
        } else {
            if in_word {
                let ghost word = s@.subrange(start as int, i as int);
                assert(word.push(c) == s@.subrange(start as int, i + 1));
                assert(done.push(word).drop_last() == done);
            } else {
                start = i;
                in_word = true;
                assert(seq![c] == s@.subrange(i as int, i + 1));
            }
        }
        i += 1;
    }
    assert(s@.take(n as int) == s@);
    if in_word {
        let ghost done = strings_view(words@);
        let word = s.substring_char(start, n).to_owned();
        words.push(word);
        assert(strings_view(words@) == done.push(s@.subrange(start as int, n as int)));
    }
    words
}

/// Whether `s` holds a word: any character that is not white space.
pub fn has_words(s: &str) -> (r: bool)
    ensures
        r == (split_whitespace(s@).len() > 0),
{
    let words = split_words(s);
    assert(strings_view(words@).len() == words@.len());
    words.len() > 0
}

/// Whether two texts hold the same characters.
pub fn str_eq(a: &str, b: &str) -> (r: bool)
    ensures
        r == (a@ == b@),
{
    let x = a.to_owned();
    let y = b.to_owned();
    x == y
}

/// Whether `needle` stands in `hay` at position `i`.
fn chars_occur_at(hay: &Vec<char>, needle: &Vec<char>, i: usize) -> (r: bool)
    requires
        i + needle.len() <= hay.len(),
    ensures
        r == occurs_at(hay@, needle@, i as int),
{
    let mut j: usize = 0;
    while j < needle.len()
        invariant
            j <= needle.len(),
            i + needle.len() <= hay.len(),
            forall|k: int| 0 <= k < j ==> hay@[i + k] == needle@[k],
        decreases needle.len() - j,
    {
        if hay[i + j] != needle[j] {
            assert(hay@.subrange(i as int, i + needle.len())[j as int] == hay@[i + j]);
            return false;
        }
        j += 1;
    }
    assert(hay@.subrange(i as int, i + needle.len()) =~= needle@);
    true
}

/// Whether `needle` is a substring of `hay`, both given by their characters.
pub fn chars_contain(hay: &Vec<char>, needle: &Vec<char>) -> (r: bool)
    ensures
        r == contains(hay@, needle@),
{
    if needle.len() > hay.len() {
        return false;
    }
    if needle.len() == 0 {
        assert(hay@.subrange(0, 0) =~= needle@);
        assert(occurs_at(hay@, needle@, 0));
        return true;
    }
    let last = hay.len() - needle.len();
    let mut i: usize = 0;
    while i <= last
        invariant
            last == hay.len() - needle.len(),
            last < hay.len(),
            i <= last + 1,
            forall|k: int| 0 <= k < i ==> !occurs_at(hay@, needle@, k),
        decreases last + 1 - i,
    {
        if chars_occur_at(hay, needle, i) {
            return true;
        }
        i += 1;
    }
    false
}

/// Whether `needle` is a substring of `hay`. The comparison is by character:
/// case matters.
pub fn str_contains(hay: &str, needle: &str) -> (r: bool)
    ensures
        r == contains(hay@, needle@),
{
    let h = to_chars(hay);
    let n = to_chars(needle);
    chars_contain(&h, &n)
}

/// The parts from position `from` on; none where there are not that many.
pub open spec fn parts_from(parts: Seq<Seq<char>>, from: int) -> Seq<Seq<char>> {
    if 0 <= from <= parts.len() {
        parts.skip(from)
    } else {
        Seq::empty()
    }
}

/// Joins the strings of `parts` from position `from` on, with `sep` between
/// them.
pub fn join_from(parts: &Vec<String>, from: usize, sep: &str) -> (r: String)
    ensures
        r@ == join(parts_from(strings_view(parts@), from as int), sep@),
{
    let ghost all = strings_view(parts@);
    let mut r = String::new();
    if from > parts.len() {
        return r;
    }
    let mut i: usize = from;
    assert(all.subrange(from as int, from as int) =~= Seq::<Seq<char>>::empty());
    while i < parts.len()
        invariant
            from <= i <= parts.len(),
            all == strings_view(parts@),
            r@ == join(all.subrange(from as int, i as int), sep@),
        decreases parts.len() - i,
    {
        if i > from {
            r.append(sep);
        }
        r.append(parts[i].as_str());
        proof {
            let next = all.subrange(from as int, i + 1);
            assert(next.drop_last() == all.subrange(from as int, i as int));
            assert(next.last() == parts@[i as int]@);
        }
        i += 1;
    }
    assert(all.subrange(from as int, parts.len() as int) == all.skip(from as int));
    r
}

/// `left`, then `" - "`, then `right`.
pub open spec fn dashed(left: Seq<char>, right: Seq<char>) -> Seq<char> {
    left + " - "@ + right
}

/// Joins two texts with `" - "` between them.
pub fn dash_join(left: &str, right: &str) -> (r: String)
    ensures
        r@ == dashed(left@, right@),
{
    let mut r = left.to_owned();
    r.append(" - ");
    r.append(right);
    r
}

} // verus!
