//! Small operations on text that the other modules are built on.

use vstd::prelude::*;

verus! {

/// `s` without the dashes it begins with.
pub open spec fn strip_front_dashes(s: Seq<char>) -> Seq<char>
    decreases s.len(),
{
    if s.len() > 0 && s.first() == '-' {
        strip_front_dashes(s.drop_first())
    } else {
        s
    }
}

/// `s` without the dashes it ends with.
pub open spec fn strip_back_dashes(s: Seq<char>) -> Seq<char>
    decreases s.len(),
{
    if s.len() > 0 && s.last() == '-' {
        strip_back_dashes(s.drop_last())
    } else {
        s
    }
}

/// `s` without the dashes at either end; dashes inside stay.
pub open spec fn trim_dashes(s: Seq<char>) -> Seq<char> {
    strip_back_dashes(strip_front_dashes(s))
}

/// The segments written one after another with `separator` between each two.
pub open spec fn joined(segments: Seq<Seq<char>>, separator: Seq<char>) -> Seq<char>
    decreases segments.len(),
{
    if segments.len() == 0 {
        Seq::empty()
    } else if segments.len() == 1 {
        segments[0]
    } else {
        joined(segments.drop_last(), separator) + separator + segments.last()
    }
}

/// The character that stands for a digit below ten.
pub open spec fn digit_char(d: nat) -> char {
    if d == 0 {
        '0'
    } else if d == 1 {
        '1'
    } else if d == 2 {
        '2'
    } else if d == 3 {
        '3'
    } else if d == 4 {
        '4'
    } else if d == 5 {
        '5'
    } else if d == 6 {
        '6'
    } else if d == 7 {
        '7'
    } else if d == 8 {
        '8'
    } else {
        '9'
    }
}

/// `n` written in base ten, without leading zeros.
pub open spec fn decimal(n: nat) -> Seq<char>
    decreases n,
{
    if n < 10 {
        seq![digit_char(n)]
    } else {
        decimal(n / 10).push(digit_char(n % 10))
    }
}

/// The digit that a character stands for; zero for a character that is no
/// digit.
pub open spec fn digit_value(c: char) -> nat {
    if c == '1' {
        1
    } else if c == '2' {
        2
    } else if c == '3' {
        3
    } else if c == '4' {
        4
    } else if c == '5' {
        5
    } else if c == '6' {
        6
    } else if c == '7' {
        7
    } else if c == '8' {
        8
    } else if c == '9' {
        9
    } else {
        0
    }
}

/// The number that a run of digits spells in base ten.
pub open spec fn decimal_value(digits: Seq<char>) -> nat
    decreases digits.len(),
{
    if digits.len() == 0 {
        0
    } else {
        10 * decimal_value(digits.drop_last()) + digit_value(digits.last())
    }
}

/// What `decimal` writes reads back as the number it was written for, and
/// begins with a zero only where the number is zero.
pub proof fn lemma_decimal_reads_back(n: nat)
    ensures
        decimal_value(decimal(n)) == n,
        decimal(n).len() >= 1,
        decimal(n).first() == '0' <==> n == 0,
    decreases n,
{
    if n < 10 {
        let one = seq![digit_char(n)];
        assert(one.drop_last() =~= Seq::<char>::empty());
        assert(decimal_value(one.drop_last()) == 0);
        assert(one.last() == digit_char(n));
    } else {
        lemma_decimal_reads_back(n / 10);
        let front = decimal(n / 10);
        let all = front.push(digit_char(n % 10));
        assert(all.drop_last() =~= front);
        assert(all.last() == digit_char(n % 10));
        assert(all.first() == front.first());
    }
}

/// What `trim_dashes` gives is a stretch of the text that neither begins nor
/// ends with a dash, and all that it leaves out on either side are dashes.
pub proof fn lemma_trim_dashes_cuts_dashes_only(s: Seq<char>)
    ensures
        exists|from: int, to: int|
            {
                &&& 0 <= from <= to <= s.len()
                &&& #[trigger] s.subrange(from, to) == trim_dashes(s)
                &&& forall|k: int| 0 <= k < from ==> s[k] == '-'
                &&& forall|k: int| to <= k < s.len() ==> s[k] == '-'
                &&& from < to ==> s[from] != '-' && s[to - 1] != '-'
            },
{
    let from = lemma_front_cut(s);
    let front = s.subrange(from, s.len() as int);
    let kept = lemma_back_cut(front);
    let to = from + kept;
    assert(front.subrange(0, kept) =~= s.subrange(from, to));
    assert forall|k: int| to <= k < s.len() implies s[k] == '-' by {
        assert(front[k - from] == s[k]);
    }
    if from < to {
        assert(front[0] == s[from]);
        assert(front[kept - 1] == s[to - 1]);
    }
}

proof fn lemma_front_cut(s: Seq<char>) -> (from: int)
    ensures
        0 <= from <= s.len(),
        strip_front_dashes(s) == s.subrange(from, s.len() as int),
        forall|k: int| 0 <= k < from ==> s[k] == '-',
        from < s.len() ==> s[from] != '-',
    decreases s.len(),
{
    if s.len() > 0 && s.first() == '-' {
        let rest = s.drop_first();
        let inner = lemma_front_cut(rest);
        assert(rest.subrange(inner, rest.len() as int) =~= s.subrange(inner + 1, s.len() as int));
        assert forall|k: int| 0 <= k < inner + 1 implies s[k] == '-' by {
            if k > 0 {
                assert(rest[k - 1] == s[k]);
            }
        }
        if inner < rest.len() {
            assert(rest[inner] == s[inner + 1]);
        }
        inner + 1
    } else {
        assert(s.subrange(0, s.len() as int) =~= s);
        0
    }
}

proof fn lemma_back_cut(s: Seq<char>) -> (to: int)
    ensures
        0 <= to <= s.len(),
        strip_back_dashes(s) == s.subrange(0, to),
        forall|k: int| to <= k < s.len() ==> s[k] == '-',
        0 < to ==> s[to - 1] != '-',
    decreases s.len(),
{
    if s.len() > 0 && s.last() == '-' {
        let rest = s.drop_last();
        let inner = lemma_back_cut(rest);
        assert(rest.subrange(0, inner) =~= s.subrange(0, inner));
        assert forall|k: int| inner <= k < s.len() implies s[k] == '-' by {
            if k < rest.len() {
                assert(rest[k] == s[k]);
            }
        }
        if 0 < inner {
            assert(rest[inner - 1] == s[inner - 1]);
        }
        inner
    } else {
        assert(s.subrange(0, s.len() as int) =~= s);
        s.len() as int
    }
}

/// Whether two texts hold the same characters.
pub fn same_text(a: &str, b: &str) -> (same: bool)
    ensures
        same == (a@ == b@),
{
    let left = a.to_owned();
    let right = b.to_owned();
    left == right
}

/// `first` followed by `second`.
pub fn followed_by(first: &str, second: &str) -> (both: String)
    ensures
        both@ == first@ + second@,
{
    let mut both = first.to_owned();
    both.append(second);
    both
}

proof fn lemma_strip_front_step(s: Seq<char>, start: int)
    requires
        0 <= start < s.len(),
        s[start] == '-',
    ensures
        strip_front_dashes(s.subrange(start, s.len() as int)) == strip_front_dashes(
            s.subrange(start + 1, s.len() as int),
        ),
{
    let tail = s.subrange(start, s.len() as int);
    assert(tail.first() == '-');
    assert(tail.drop_first() =~= s.subrange(start + 1, s.len() as int));
}

proof fn lemma_strip_back_step(s: Seq<char>, start: int, end: int)
    requires
        0 <= start < end <= s.len(),
        s[end - 1] == '-',
    ensures
        strip_back_dashes(s.subrange(start, end)) == strip_back_dashes(s.subrange(start, end - 1)),
{
    let head = s.subrange(start, end);
    assert(head.last() == '-');
    assert(head.drop_last() =~= s.subrange(start, end - 1));
}

/// Takes the dashes off both ends of `arg`.
pub fn trim_dash_ends(arg: &str) -> (trimmed: &str)
    ensures
        trimmed@ == trim_dashes(arg@),
{
    let n = arg.unicode_len();
    let mut start: usize = 0;
    assert(arg@.subrange(0, n as int) =~= arg@);
    while start < n && arg.get_char(start) == '-'
        invariant
            start <= n,
            n == arg@.len(),
            strip_front_dashes(arg@) == strip_front_dashes(arg@.subrange(start as int, n as int)),
        decreases n - start,
    {
        proof {
            lemma_strip_front_step(arg@, start as int);
        }
        start = start + 1;
    }
    let ghost front = arg@.subrange(start as int, n as int);
    assert(strip_front_dashes(front) == front);
    let mut end: usize = n;
    while end > start && arg.get_char(end - 1) == '-'
        invariant
            start <= end <= n,
            n == arg@.len(),
            front == arg@.subrange(start as int, n as int),
            strip_back_dashes(front) == strip_back_dashes(arg@.subrange(start as int, end as int)),
        decreases end - start,
    {
        proof {
            lemma_strip_back_step(arg@, start as int, end as int);
        }
        end = end - 1;
    }
    let ghost kept = arg@.subrange(start as int, end as int);
    assert(strip_back_dashes(kept) == kept);
    arg.substring_char(start, end)
}

/// `"/"` followed by the segments with `"/"` between each two: the path by
/// which a site knows a page. With no segment at all it is `"/"` alone.
pub open spec fn relative_path_of(segments: Seq<Seq<char>>) -> Seq<char> {
    seq!['/'] + joined(segments, seq!['/'])
}

/// Every relative path begins at the root, and the path of no segments is
/// the root itself, as is the path of one empty segment.
pub proof fn lemma_relative_path_is_rooted(segments: Seq<Seq<char>>)
    ensures
        relative_path_of(segments).len() >= 1,
        relative_path_of(segments)[0] == '/',
        segments.len() == 0 ==> relative_path_of(segments) == seq!['/'],
        segments == seq![Seq::<char>::empty()] ==> relative_path_of(segments) == seq!['/'],
{
    if segments.len() == 0 {
        assert(relative_path_of(segments) =~= seq!['/']);
    }
    if segments == seq![Seq::<char>::empty()] {
        assert(relative_path_of(segments) =~= seq!['/']);
    }
}

/// Writes the path that the segments spell, starting at the site's root.
pub fn relative_path(segments: &Vec<String>) -> (path: String)
    ensures
        path@ == relative_path_of(segments.deep_view()),
{
    proof {
        reveal_strlit("/");
    }
    let ghost all = segments.deep_view();
    let mut path = "/".to_owned();
    let mut i: usize = 0;
    assert(all.take(0) =~= Seq::<Seq<char>>::empty());
    while i < segments.len()
        invariant
            i <= segments.len(),
            all == segments.deep_view(),
            "/"@ == seq!['/'],
            path@ == relative_path_of(all.take(i as int)),
        decreases segments.len() - i,
    {
        let ghost before = all.take(i as int);
        let ghost after = all.take(i + 1);
        assert(after.drop_last() =~= before);
        assert(after.last() == segments[i as int]@);
        if i > 0 {
            path.append("/");
        } else {
            assert(after =~= seq![segments[0]@]);
        }
        path.append(segments[i].as_str());
        assert(path@ =~= relative_path_of(after));
        i = i + 1;
    }
    assert(all.take(i as int) =~= all);
    path
}

fn digit_text(d: u16) -> (text: &'static str)
    requires
        d < 10,
    ensures
        text@ == seq![digit_char(d as nat)],
{
    proof {
        reveal_strlit("0");
        reveal_strlit("1");
        reveal_strlit("2");
        reveal_strlit("3");
        reveal_strlit("4");
        reveal_strlit("5");
        reveal_strlit("6");
        reveal_strlit("7");
        reveal_strlit("8");
        reveal_strlit("9");
    }
    let text = if d == 0 {
        "0"
    } else if d == 1 {
        "1"
    } else if d == 2 {
        "2"
    } else if d == 3 {
        "3"
    } else if d == 4 {
        "4"
    } else if d == 5 {
        "5"
    } else if d == 6 {
        "6"
    } else if d == 7 {
        "7"
    } else if d == 8 {
        "8"
    } else {
        "9"
    };
    assert(text@ =~= seq![digit_char(d as nat)]);
    text
}

/// Writes a port number in base ten.
pub fn port_text(port: u16) -> (text: String)
    ensures
        text@ == decimal(port as nat),
    decreases port,
{
    if port < 10 {
        digit_text(port).to_owned()
    } else {
        let mut text = port_text(port / 10);
        text.append(digit_text(port % 10));
        assert(text@ =~= decimal(port as nat));
        text
    }
}

} // verus!
