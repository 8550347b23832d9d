//! Small helpers on string slices.
use vstd::prelude::*;

verus! {

/// Whether two string slices hold the same characters.
pub fn str_eq(a: &str, b: &str) -> (r: bool)
    ensures
        r == (a@ == b@),
{
    if a.as_bytes().len() != b.as_bytes().len() {
        false
    } else {
        a.to_owned() == b.to_owned()
    }
}

/// The characters of a string slice, in order.
pub fn chars_of(s: &str) -> (v: Vec<char>)
    ensures
        v@ == s@,
{
    let mut v: Vec<char> = Vec::new();
    for c in it: s.chars()
        invariant
            it.seq() == s@,
            v@ == it.seq().take(it.index() as int),
    {
        v.push(c);
    }
    v
}

/// Whether `pat` stands in `hay` at position `i`.
pub open spec fn occurs_at(hay: Seq<char>, pat: Seq<char>, i: int) -> bool {
    0 <= i && i + pat.len() <= hay.len() && hay.subrange(i, i + pat.len()) == pat
}

/// Whether `pat` stands somewhere in `hay`.
pub open spec fn contains_text(hay: Seq<char>, pat: Seq<char>) -> bool {
    exists|i: int| occurs_at(hay, pat, i)
}

/// Whether `i` is the first position at which `pat` stands in `hay`.
pub open spec fn is_first_occurrence(hay: Seq<char>, pat: Seq<char>, i: int) -> bool {
    occurs_at(hay, pat, i) && forall|j: int| 0 <= j < i ==> !occurs_at(hay, pat, j)
}

/// The first position at which `pat` stands in `hay`, where it stands at all.
pub open spec fn first_occurrence(hay: Seq<char>, pat: Seq<char>) -> int {
    choose|i: int| is_first_occurrence(hay, pat, i)
}

/// A first occurrence is the first occurrence.
pub proof fn lemma_first_occurrence(hay: Seq<char>, pat: Seq<char>, i: int)
    requires
        is_first_occurrence(hay, pat, i),
    ensures
        contains_text(hay, pat),
        first_occurrence(hay, pat) == i,
{
    let k = first_occurrence(hay, pat);
    assert(is_first_occurrence(hay, pat, k));
    if k < i {
        assert(!occurs_at(hay, pat, k));
    } else if i < k {
        assert(!occurs_at(hay, pat, i));
    }
}

/// Below an occurrence there is a first one.
proof fn lemma_least_occurrence(hay: Seq<char>, pat: Seq<char>, i: int)
    requires
        occurs_at(hay, pat, i),
    ensures
        exists|k: int| is_first_occurrence(hay, pat, k),
    decreases i,
{
    if exists|j: int| 0 <= j < i && occurs_at(hay, pat, j) {
        let j = choose|j: int| 0 <= j < i && occurs_at(hay, pat, j);
        lemma_least_occurrence(hay, pat, j);
    } else {
        assert(is_first_occurrence(hay, pat, i));
    }
}

/// Where `pat` stands in `hay` at all, it stands there a first time, and
/// `first_occurrence` is that position.
pub proof fn lemma_first_occurrence_exists(hay: Seq<char>, pat: Seq<char>)
    requires
        contains_text(hay, pat),
    ensures
        is_first_occurrence(hay, pat, first_occurrence(hay, pat)),
        0 <= first_occurrence(hay, pat) <= hay.len() - pat.len(),
{
    let i = choose|i: int| occurs_at(hay, pat, i);
    lemma_least_occurrence(hay, pat, i);
}

/// `s` without the run of `c` at its end.
pub open spec fn trim_end(s: Seq<char>, c: char) -> Seq<char>
    decreases s.len(),
{
    if s.len() > 0 && s.last() == c {
        trim_end(s.drop_last(), c)
    } else {
        s
    }
}

/// Whether `pat` stands in `hay` at position `i`.
pub(crate) fn matches_at(hay: &Vec<char>, pat: &Vec<char>, i: usize) -> (r: bool)
    requires
        i + pat.len() <= hay.len(),
    ensures
        r == occurs_at(hay@, pat@, i as int),
{
    let mut k: usize = 0;
    while k < pat.len()
        invariant
            k <= pat.len(),
            i + pat.len() <= hay.len(),
            forall|j: int| 0 <= j < k ==> hay@[i + j] == pat@[j],
        decreases pat.len() - k,
    {
        if hay[i + k] != pat[k] {
            proof {
                let sub = hay@.subrange(i as int, i + pat.len());
                assert(sub[k as int] == hay@[i + k]);
            }
            return false;
        }
        k = k + 1;
    }
    assert(hay@.subrange(i as int, i + pat.len()) =~= pat@);
    true
}

/// The first position at which `pat` stands in `hay`, or `None` where it
/// stands nowhere.
pub fn find_text(hay: &Vec<char>, pat: &Vec<char>) -> (r: Option<usize>)
    ensures
        match r {
            Some(i) => is_first_occurrence(hay@, pat@, i as int),
            None => !contains_text(hay@, pat@),
        },
{
    if pat.len() > hay.len() {
        return None;
    }
    let last: usize = hay.len() - pat.len();
    let mut i: usize = 0;
    loop
        invariant
            last == hay.len() - pat.len(),
            i <= last,
            forall|j: int| 0 <= j < i ==> !occurs_at(hay@, pat@, j),
        decreases last - i,
    {
        if matches_at(hay, pat, i) {
            return Some(i);
        }
        if i == last {
            return None;
        }
        i = i + 1;
    }
}

/// The end of `s` without the run of `c` that closes it, counted from
/// `from`: the part of `s` from `from` to the result is the part from `from`
/// to the end of `s`, trimmed.
pub(crate) fn trimmed_end(s: &Vec<char>, from: usize, c: char) -> (n: usize)
    requires
        from <= s.len(),
    ensures
        from <= n <= s.len(),
        s@.subrange(from as int, n as int) == trim_end(s@.subrange(from as int, s.len() as int), c),
{
    let mut n: usize = s.len();
    while n > from && s[n - 1] == c
        invariant
            from <= n <= s.len(),
            trim_end(s@.subrange(from as int, n as int), c) == trim_end(
                s@.subrange(from as int, s.len() as int),
                c,
            ),
        decreases n,
    {
        proof {
            let cur = s@.subrange(from as int, n as int);
            assert(cur.last() == s@[n - 1]);
            assert(cur.drop_last() =~= s@.subrange(from as int, n - 1));
        }
        n = n - 1;
    }
    proof {
        let cur = s@.subrange(from as int, n as int);
        if n > from {
            assert(cur.last() == s@[n - 1]);
        }
    }
    n
}

/// The characters of each string of a list, in order.
pub open spec fn texts(parts: Seq<String>) -> Seq<Seq<char>> {
    parts.map_values(|p: String| p@)
}

/// The parts of a list written one after the other, with `sep` between each
/// two neighbours.
pub open spec fn joined(parts: Seq<Seq<char>>, sep: Seq<char>) -> Seq<char>
    decreases parts.len(),
{
    if parts.len() == 0 {
        Seq::empty()
    } else if parts.len() == 1 {
        parts[0]
    } else {
        joined(parts.drop_last(), sep) + sep + parts.last()
    }
}

/// The pieces that the separator `sep` cuts `s` into. There is one piece
/// more than `s` holds separators; a piece may be empty.
pub open spec fn split_on(s: Seq<char>, sep: char) -> Seq<Seq<char>>
    decreases s.len(),
{
    if s.len() == 0 {
        seq![Seq::empty()]
    } else if s.last() == sep {
        split_on(s.drop_last(), sep).push(Seq::empty())
    } else {
        let front = split_on(s.drop_last(), sep);
        front.drop_last().push(front.last().push(s.last()))
    }
}

/// A text is cut into at least one piece, and no piece holds the separator.
pub proof fn lemma_split_pieces(s: Seq<char>, sep: char)
    ensures
        split_on(s, sep).len() >= 1,
        forall|i: int, j: int|
            0 <= i < split_on(s, sep).len() && 0 <= j < split_on(s, sep)[i].len()
                ==> #[trigger] split_on(s, sep)[i][j] != sep,
    decreases s.len(),
{
    if s.len() > 0 {
        lemma_split_pieces(s.drop_last(), sep);
    }
}

/// Joining the pieces of a text with the separator gives the text back.
pub proof fn lemma_join_split(s: Seq<char>, sep: char)
    ensures
        joined(split_on(s, sep), seq![sep]) == s,
    decreases s.len(),
{
    if s.len() > 0 {
        let front = split_on(s.drop_last(), sep);
        lemma_split_pieces(s.drop_last(), sep);
        lemma_join_split(s.drop_last(), sep);
        let whole = split_on(s, sep);
        if s.last() == sep {
            assert(whole.drop_last() == front);
            assert(joined(whole, seq![sep]) == s.drop_last() + seq![sep] + Seq::<char>::empty());
            assert(s.drop_last() + seq![sep] + Seq::<char>::empty() =~= s);
        } else {
            if front.len() == 1 {
                assert(whole[0] == front[0].push(s.last()));
                assert(front[0].push(s.last()) =~= s);
            } else {
                assert(whole.drop_last() == front.drop_last());
                assert(whole.last() == front.last().push(s.last()));
                assert(joined(front.drop_last(), seq![sep]) + seq![sep] + front.last().push(
                    s.last(),
                ) =~= (joined(front.drop_last(), seq![sep]) + seq![sep] + front.last()).push(
                    s.last(),
                ));
                assert(s.drop_last().push(s.last()) =~= s);
            }
        }
    }
}

/// The strings of a list written one after the other, with `sep` between
/// each two neighbours.
pub fn join(parts: &Vec<String>, sep: &str) -> (r: String)
    ensures
        r@ == joined(texts(parts@), sep@),
{
    let mut out = String::new();
    let ghost all = texts(parts@);
    let mut i: usize = 0;
    while i < parts.len()
        invariant
            i <= parts.len(),
            all == texts(parts@),
            out@ == joined(all.take(i as int), sep@),
        decreases parts.len() - i,
    {
        proof {
            let next = all.take(i + 1);
            assert(next.drop_last() == all.take(i as int));
            assert(next.last() == parts@[i as int]@);
        }
        if i > 0 {
            out.append(sep);
        }
        out.append(parts[i].as_str());
        proof {
            if i == 0 {
                assert(Seq::<char>::empty() + parts@[0]@ =~= parts@[0]@);
            }
        }
        i = i + 1;
    }
    assert(all.take(i as int) == all);
    out
}

/// The pieces that the separator `sep` cuts `s` into.
pub fn split(s: &str, sep: char) -> (r: Vec<String>)
    ensures
        texts(r@) == split_on(s@, sep),
{
    let chars = chars_of(s);
    let mut pieces: Vec<String> = Vec::new();
    let mut start: usize = 0;
    let mut i: usize = 0;
    proof {
        assert(s@.subrange(0, 0) =~= Seq::<char>::empty());
        assert(texts(pieces@).push(s@.subrange(0, 0)) =~= seq![Seq::<char>::empty()]);
    }
    while i < chars.len()
        invariant
            chars@ == s@,
            start <= i <= chars.len(),
            split_on(s@.take(i as int), sep) == texts(pieces@).push(
                s@.subrange(start as int, i as int),
            ),
        decreases chars.len() - i,
    {
        proof {
            let next = s@.take(i + 1);
            assert(next.drop_last() == s@.take(i as int));
            assert(next.last() == s@[i as int]);
        }
        let ghost before = texts(pieces@);
        let ghost piece = s@.subrange(start as int, i as int);
        if chars[i] == sep {
            pieces.push(s.substring_char(start, i).to_owned());
            start = i + 1;
            proof {
                assert(texts(pieces@) == before.push(piece));
                assert(s@.subrange(start as int, i + 1) == Seq::<char>::empty());
            }
        } else {
            proof {
                assert(before.push(piece).drop_last() == before);
                assert(piece.push(s@[i as int]) == s@.subrange(start as int, i + 1));
            }
        }
        i = i + 1;
    }
    assert(s@.take(i as int) == s@);
    let ghost before = texts(pieces@);
    pieces.push(s.substring_char(start, i).to_owned());
    assert(texts(pieces@) == before.push(s@.subrange(start as int, i as int)));
    pieces
}

/// The character of a decimal digit.
pub open spec fn digit(d: int) -> char {
    if d == 0 {
        '0'
    } else if d == 1 {
        '1'
    } else if d == 2 {
        '2'
    } else if d == 3 {
        '3'
    } else if d == 4 {
        '4'
    } else if d == 5 {
        '5'
    } else if d == 6 {
        '6'
    } else if d == 7 {
        '7'
    } else if d == 8 {
        '8'
    } else {
        '9'
    }
}

/// A natural number in decimal, without leading zeros.
pub open spec fn nat_text(n: nat) -> Seq<char>
    decreases n,
{
    if n < 10 {
        seq![digit(n as int)]
    } else {
        nat_text(n / 10).push(digit((n % 10) as int))
    }
}

/// An integer in decimal: a minus sign before the digits of a negative one.
pub open spec fn int_text(n: int) -> Seq<char> {
    if n < 0 {
        seq!['-'] + nat_text((-n) as nat)
    } else {
        nat_text(n as nat)
    }
}

fn digit_str(d: u64) -> (r: &'static str)
    requires
        d < 10,
    ensures
        r@ == seq![digit(d as int)],
{
    proof {
        reveal_strlit("0");
        reveal_strlit("1");
        reveal_strlit("2");
        reveal_strlit("3");
        reveal_strlit("4");
        reveal_strlit("5");
        reveal_strlit("6");
        reveal_strlit("7");
        reveal_strlit("8");
        reveal_strlit("9");
    }
    let r = if d == 0 {
        "0"
    } else if d == 1 {
        "1"
    } else if d == 2 {
        "2"
    } else if d == 3 {
        "3"
    } else if d == 4 {
        "4"
    } else if d == 5 {
        "5"
    } else if d == 6 {
        "6"
    } else if d == 7 {
        "7"
    } else if d == 8 {
        "8"
    } else {
        "9"
    };
    assert(r@ =~= seq![digit(d as int)]);
    r
}

/// A natural number in decimal.
pub fn nat_to_text(n: u64) -> (r: String)
    ensures
        r@ == nat_text(n as nat),
    decreases n,
{
    if n < 10 {
        digit_str(n).to_owned()
    } else {
        let mut out = nat_to_text(n / 10);
        out.append(digit_str(n % 10));
        assert(nat_text((n / 10) as nat) + seq![digit((n % 10) as int)] =~= nat_text(
            (n / 10) as nat,
        ).push(digit((n % 10) as int)));
        out
    }
}

/// An integer in decimal.
pub fn int_to_text(n: i64) -> (r: String)
    ensures
        r@ == int_text(n as int),
{
    if n >= 0 {
        nat_to_text(n as u64)
    } else {
        let magnitude: u64 = (-(n + 1)) as u64 + 1;
        proof {
            reveal_strlit("-");
        }
        let mut out = "-".to_owned();
        out.append(nat_to_text(magnitude).as_str());
        assert("-"@ =~= seq!['-']);
        out
    }
}

} // verus!
