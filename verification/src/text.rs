//! Character sequences: searching, splitting and building strings.

use vstd::prelude::*;

verus! {

/// `String::push` appends one character.
pub assume_specification[ String::push ](s: &mut String, c: char)
    ensures
        final(s)@ == old(s)@.push(c),
;

/// Index of the first `true` in `flags`, or `flags.len()` where there is none.
pub open spec fn first_true(flags: Seq<bool>) -> int
    decreases flags.len(),
{
    if flags.len() == 0 {
        0
    } else if flags[0] {
        0
    } else {
        1 + first_true(flags.skip(1))
    }
}

/// `first_true` stays within the sequence, nothing before it is set, and the
/// flag at it is set unless it is the length.
pub proof fn lemma_first_true(flags: Seq<bool>)
    ensures
        0 <= first_true(flags) <= flags.len(),
        forall|j: int| 0 <= j < first_true(flags) ==> !flags[j],
        first_true(flags) < flags.len() ==> flags[first_true(flags)],
    decreases flags.len(),
{
    if flags.len() > 0 && !flags[0] {
        let rest = flags.skip(1);
        lemma_first_true(rest);
        assert forall|j: int| 0 <= j < first_true(flags) implies !flags[j] by {
            if j > 0 {
                assert(flags[j] == rest[j - 1]);
            }
        }
    }
}

/// An index with nothing set before it, and which is set or the length, is
/// `first_true`.
pub proof fn lemma_first_true_is(flags: Seq<bool>, i: int)
    requires
        0 <= i <= flags.len(),
        forall|j: int| 0 <= j < i ==> !flags[j],
        i < flags.len() ==> flags[i],
    ensures
        first_true(flags) == i,
{
    lemma_first_true(flags);
    let k = first_true(flags);
    if k < i {
        assert(!flags[k]);
    } else if i < k {
        assert(flags[i]);
    }
}

/// For each character of `s`, whether it is `c`.
pub open spec fn char_flags(s: Seq<char>, c: char) -> Seq<bool> {
    Seq::new(s.len(), |i: int| s[i] == c)
}

/// Index of the first `c` in `s`, or `s.len()` where `s` holds none.
pub open spec fn index_of_char(s: Seq<char>, c: char) -> int {
    first_true(char_flags(s, c))
}

/// `s` cut at its first `sep`: what stands before it, and what follows it
/// where there is one.
pub open spec fn split_first(s: Seq<char>, sep: char) -> (Seq<char>, Option<Seq<char>>) {
    let i = index_of_char(s, sep);
    if i < s.len() {
        (s.take(i), Some(s.skip(i + 1)))
    } else {
        (s, None)
    }
}

/// A text that holds `sep` first behind `head` is cut into `head` and what
/// follows that `sep`.
pub proof fn lemma_split_first(head: Seq<char>, sep: char, tail: Seq<char>)
    requires
        !head.contains(sep),
    ensures
        split_first(head + seq![sep] + tail, sep) == (head, Some(tail)),
{
    let s = head + seq![sep] + tail;
    let flags = char_flags(s, sep);
    assert forall|j: int| 0 <= j < head.len() implies !flags[j] by {
        assert(s[j] == head[j]);
    }
    lemma_first_true_is(flags, head.len() as int);
}

/// A text that holds no `sep` is not cut.
pub proof fn lemma_split_first_none(s: Seq<char>, sep: char)
    requires
        !s.contains(sep),
    ensures
        split_first(s, sep) == (s, None::<Seq<char>>),
{
    lemma_first_true_is(char_flags(s, sep), s.len() as int);
}

/// `s` with every `from` turned into `to`.
pub open spec fn replace_char(s: Seq<char>, from: char, to: char) -> Seq<char> {
    Seq::new(
        s.len(),
        |i: int|
            if s[i] == from {
                to
            } else {
                s[i]
            },
    )
}

/// The characters of `s`.
pub fn chars_of(s: &str) -> (v: Vec<char>)
    ensures
        v@ == s@,
{
    let mut v: Vec<char> = Vec::new();
    for c in it: s.chars()
        invariant
            v@ == s@.take(it.index() as int),
            it.seq() == s@,
    {
        v.push(c);
    }
    v
}

/// The string made of the characters `v[from..to]`.
pub fn string_of_range(v: &Vec<char>, from: usize, to: usize) -> (s: String)
    requires
        from <= to <= v.len(),
    ensures
        s@ == v@.subrange(from as int, to as int),
{
    let mut s = String::new();
    let mut i: usize = from;
    while i < to
        invariant
            from <= i <= to <= v.len(),
            s@ == v@.subrange(from as int, i as int),
        decreases to - i,
    {
        s.push(v[i]);
        i += 1;
    }
    s
}

/// The string made of the characters of `v`.
pub fn string_of(v: &Vec<char>) -> (s: String)
    ensures
        s@ == v@,
{
    let s = string_of_range(v, 0, v.len());
    s
}

/// Appends `v[from..to]` to `out`.
pub fn push_range(out: &mut Vec<char>, v: &Vec<char>, from: usize, to: usize)
    requires
        from <= to <= v.len(),
    ensures
        final(out)@ == old(out)@ + v@.subrange(from as int, to as int),
{
    let mut i: usize = from;
    while i < to
        invariant
            from <= i <= to <= v.len(),
            out@ == old(out)@ + v@.subrange(from as int, i as int),
        decreases to - i,
    {
        out.push(v[i]);
        i += 1;
    }
}

/// Appends the whole of `v` to `out`.
pub fn push_all(out: &mut Vec<char>, v: &Vec<char>)
    ensures
        final(out)@ == old(out)@ + v@,
{
    push_range(out, v, 0, v.len());
}

/// The characters of `v` from `from` on.
pub fn slice_from(v: &Vec<char>, from: usize) -> (r: Vec<char>)
    requires
        from <= v.len(),
    ensures
        r@ == v@.skip(from as int),
{
    let mut r: Vec<char> = Vec::new();
    push_range(&mut r, v, from, v.len());
    r
}

/// A text with its characters copied.
pub fn copy_text(s: &String) -> (r: String)
    ensures
        r@ == s@,
{
    s.clone()
}

/// `a`, `b` and `c` in a row.
pub fn concat3(a: &str, b: &str, c: &str) -> (r: String)
    ensures
        r@ == a@ + b@ + c@,
{
    let mut r = String::new();
    r.append(a);
    r.append(b);
    r.append(c);
    r
}

/// Index of the first `c` in `v`, or `v.len()` where `v` holds none.
pub fn find_char(v: &Vec<char>, c: char) -> (i: usize)
    ensures
        i == index_of_char(v@, c),
        i <= v.len(),
{
    let mut i: usize = 0;
    while i < v.len() && v[i] != c
        invariant
            i <= v.len(),
            forall|j: int| 0 <= j < i ==> v@[j] != c,
        decreases v.len() - i,
    {
        i += 1;
    }
    proof {
        lemma_first_true_is(char_flags(v@, c), i as int);
    }
    i
}

/// Whether the two strings hold the same characters.
pub fn equal(a: &str, b: &str) -> (r: bool)
    ensures
        r == (a@ == b@),
{
    let x = chars_of(a);
    let y = chars_of(b);
    if x.len() != y.len() {
        return false;
    }
    let mut i: usize = 0;
    while i < x.len()
        invariant
            i <= x.len(),
            x.len() == y.len(),
            x@ == a@,
            y@ == b@,
            forall|j: int| 0 <= j < i ==> x@[j] == y@[j],
        decreases x.len() - i,
    {
        if x[i] != y[i] {
            return false;
        }
        i += 1;
    }
    assert(x@ =~= y@);
    true
}

/// Whether `s` begins with `prefix`.
pub fn starts_with(s: &str, prefix: &str) -> (r: bool)
    ensures
        r == prefix@.is_prefix_of(s@),
{
    let x = chars_of(s);
    let p = chars_of(prefix);
    if p.len() > x.len() {
        return false;
    }
    let mut i: usize = 0;
    while i < p.len()
        invariant
            i <= p.len() <= x.len(),
            x@ == s@,
            p@ == prefix@,
            forall|j: int| 0 <= j < i ==> x@[j] == p@[j],
        decreases p.len() - i,
    {
        if x[i] != p[i] {
            return false;
        }
        i += 1;
    }
    true
}

/// What a list of strings holds.
pub open spec fn strings_view(strings: Seq<String>) -> Seq<Seq<char>> {
    Seq::new(strings.len(), |i: int| strings[i]@)
}

/// For each entry of `list`, whether it is `token`.
pub open spec fn text_flags(list: Seq<Seq<char>>, token: Seq<char>) -> Seq<bool> {
    Seq::new(list.len(), |i: int| list[i] == token)
}

/// For each entry of `list`, whether it begins with `prefix`.
pub open spec fn prefix_flags(list: Seq<Seq<char>>, prefix: Seq<char>) -> Seq<bool> {
    Seq::new(list.len(), |i: int| prefix.is_prefix_of(list[i]))
}

/// Index of the first entry of `list` that is `token`, or `list.len()`.
pub open spec fn index_of_text(list: Seq<Seq<char>>, token: Seq<char>) -> int {
    first_true(text_flags(list, token))
}

/// Index of the first entry of `list` that begins with `prefix`, or
/// `list.len()`.
pub open spec fn index_of_prefix(list: Seq<Seq<char>>, prefix: Seq<char>) -> int {
    first_true(prefix_flags(list, prefix))
}

/// Index of the first entry of `list` that is `token`, or `list.len()`.
pub fn find_text(list: &Vec<String>, token: &str) -> (i: usize)
    ensures
        i == index_of_text(strings_view(list@), token@),
        i <= list.len(),
        i < list.len() ==> list@[i as int]@ == token@,
{
    let mut i: usize = 0;
    while i < list.len() && !equal(list[i].as_str(), token)
        invariant
            i <= list.len(),
            forall|j: int| 0 <= j < i ==> list@[j]@ != token@,
        decreases list.len() - i,
    {
        i += 1;
    }
    proof {
        lemma_first_true_is(text_flags(strings_view(list@), token@), i as int);
    }
    i
}

/// Index of the first entry of `list` that begins with `prefix`, or
/// `list.len()`.
pub fn find_prefix(list: &Vec<String>, prefix: &str) -> (i: usize)
    ensures
        i == index_of_prefix(strings_view(list@), prefix@),
        i <= list.len(),
        i < list.len() ==> prefix@.is_prefix_of(list@[i as int]@),
{
    let mut i: usize = 0;
    while i < list.len() && !starts_with(list[i].as_str(), prefix)
        invariant
            i <= list.len(),
            forall|j: int| 0 <= j < i ==> !prefix@.is_prefix_of(list@[j]@),
        decreases list.len() - i,
    {
        i += 1;
    }
    proof {
        lemma_first_true_is(prefix_flags(strings_view(list@), prefix@), i as int);
    }
    i
}

/// A list without `token` has its length for the token's index.
pub proof fn lemma_index_of_text_none(list: Seq<Seq<char>>, token: Seq<char>)
    requires
        forall|k: int| 0 <= k < list.len() ==> #[trigger] list[k] != token,
    ensures
        index_of_text(list, token) == list.len(),
{
    lemma_first_true_is(text_flags(list, token), list.len() as int);
}

/// `index_of_text` stays within the list, and the entry at it is the token
/// unless it is the length.
pub proof fn lemma_index_of_text(list: Seq<Seq<char>>, token: Seq<char>)
    ensures
        0 <= index_of_text(list, token) <= list.len(),
        index_of_text(list, token) < list.len() ==> list[index_of_text(list, token)] == token,
{
    lemma_first_true(text_flags(list, token));
}

/// `index_of_prefix` stays within the list, and the entry at it begins with
/// the prefix unless it is the length.
pub proof fn lemma_index_of_prefix(list: Seq<Seq<char>>, prefix: Seq<char>)
    ensures
        0 <= index_of_prefix(list, prefix) <= list.len(),
        index_of_prefix(list, prefix) < list.len() ==> prefix.is_prefix_of(
            list[index_of_prefix(list, prefix)],
        ),
{
    lemma_first_true(prefix_flags(list, prefix));
}

} // verus!
