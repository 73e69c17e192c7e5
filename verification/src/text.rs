//! Text rules shared by the discovery and scheduling modules: white space, trimming, separated
//! lists and decimal numbers, all over sequences of `char`.

use vstd::prelude::*;

verus! {

/// The characters with the Unicode `White_Space` property.
pub open spec fn is_white_space(c: char) -> bool {
    let u = c as u32;
    ||| 0x09 <= u <= 0x0d
    ||| u == 0x20
    ||| u == 0x85
    ||| u == 0xa0
    ||| u == 0x1680
    ||| 0x2000 <= u <= 0x200a
    ||| u == 0x2028
    ||| u == 0x2029
    ||| u == 0x202f
    ||| u == 0x205f
    ||| u == 0x3000
}

/// Whether `c` is white space.
pub fn white_space(c: char) -> (b: bool)
    ensures
        b == is_white_space(c),
{
    let u: u32 = c as u32;
    (0x09 <= u && u <= 0x0d) || u == 0x20 || u == 0x85 || u == 0xa0 || u == 0x1680 || (0x2000 <= u
        && u <= 0x200a) || u == 0x2028 || u == 0x2029 || u == 0x202f || u == 0x205f || u == 0x3000
}

/// `s` without its leading white space.
pub open spec fn trimmed_start(s: Seq<char>) -> Seq<char>
    decreases s.len(),
{
    if s.len() > 0 && is_white_space(s.first()) {
        trimmed_start(s.drop_first())
    } else {
        s
    }
}

/// `s` without its trailing white space.
pub open spec fn trimmed_end(s: Seq<char>) -> Seq<char>
    decreases s.len(),
{
    if s.len() > 0 && is_white_space(s.last()) {
        trimmed_end(s.drop_last())
    } else {
        s
    }
}

/// `s` without the white space at either end.
pub open spec fn trimmed(s: Seq<char>) -> Seq<char> {
    trimmed_end(trimmed_start(s))
}

/// How many characters of `s` come before the first `sep`; all of them where there is none.
pub open spec fn field_len(s: Seq<char>, sep: char) -> nat
    decreases s.len(),
{
    if s.len() == 0 || s.first() == sep {
        0
    } else {
        1 + field_len(s.drop_first(), sep)
    }
}

/// The part of `s` before the first `sep`.
pub open spec fn first_field(s: Seq<char>, sep: char) -> Seq<char> {
    s.take(field_len(s, sep) as int)
}

/// The fields of `s` between the occurrences of `sep`; there is always at least one.
pub open spec fn fields(s: Seq<char>, sep: char) -> Seq<Seq<char>>
    decreases s.len(),
{
    let n = field_len(s, sep) as int;
    if n >= s.len() {
        seq![s]
    } else {
        seq![s.take(n)] + fields(s.skip(n + 1), sep)
    }
}

/// The fields of `s`, each trimmed, without those that are then empty.
pub open spec fn list_items(s: Seq<char>, sep: char) -> Seq<Seq<char>> {
    fields(s, sep).map_values(|f: Seq<char>| trimmed(f)).filter(|f: Seq<char>| f.len() > 0)
}

/// Whether `c` is one of `0` to `9`.
pub open spec fn is_digit(c: char) -> bool {
    '0' <= c <= '9'
}

/// The number that a sequence of digits writes in base ten.
pub open spec fn decimal(s: Seq<char>) -> nat
    decreases s.len(),
{
    if s.len() == 0 {
        0
    } else {
        decimal(s.drop_last()) * 10 + (s.last() as nat - '0' as nat) as nat
    }
}

/// Whether `s` is one or more digits and nothing else.
pub open spec fn is_decimal(s: Seq<char>) -> bool {
    s.len() > 0 && forall|i: int| 0 <= i < s.len() ==> is_digit(#[trigger] s[i])
}

/// The `u16` that `s` writes: digits, after at most one plus sign, in range.
pub open spec fn u16_value(s: Seq<char>) -> Option<u16> {
    let digits = if s.len() > 0 && s[0] == '+' {
        s.skip(1)
    } else {
        s
    };
    if is_decimal(digits) && decimal(digits) <= u16::MAX {
        Some(decimal(digits) as u16)
    } else {
        None
    }
}

/// The `i32` that `s` writes: digits, after at most one plus or minus sign, in range.
pub open spec fn i32_value(s: Seq<char>) -> Option<i32> {
    let negative = s.len() > 0 && s[0] == '-';
    let digits = if negative || (s.len() > 0 && s[0] == '+') {
        s.skip(1)
    } else {
        s
    };
    let value = if negative {
        -decimal(digits)
    } else {
        decimal(digits) as int
    };
    if is_decimal(digits) && i32::MIN <= value <= i32::MAX {
        Some(value as i32)
    } else {
        None
    }
}

/// The characters of `s`.
fn chars_of(s: &str) -> (v: Vec<char>)
    ensures
        v@ == s@,
{
    let mut v: Vec<char> = Vec::new();
    for c in it: s.chars()
        invariant
            it.seq() == s@,
            v@ == s@.take(it.index() as int),
    {
        v.push(c);
    }
    v
}

proof fn lemma_trimmed_start_skip(s: Seq<char>, i: int)
    requires
        0 <= i < s.len(),
        is_white_space(s[i]),
    ensures
        trimmed_start(s.skip(i)) == trimmed_start(s.skip(i + 1)),
{
    assert(s.skip(i).drop_first() =~= s.skip(i + 1));
}

/// `s` without the white space at either end.
pub fn trim(s: &str) -> (t: &str)
    ensures
        t@ == trimmed(s@),
{
    let cs = chars_of(s);
    let n: usize = cs.len();
    let mut i: usize = 0;
    assert(s@.skip(0) =~= s@);
    while i < n && white_space(cs[i])
        invariant
            i <= n,
            n == cs@.len(),
            trimmed_start(cs@) == trimmed_start(cs@.skip(i as int)),
        ensures
            i <= n,
            i < n ==> !is_white_space(cs@[i as int]),
            trimmed_start(cs@) == trimmed_start(cs@.skip(i as int)),
        decreases n - i,
    {
        proof {
            lemma_trimmed_start_skip(cs@, i as int);
        }
        i += 1;
    }
    let ghost t0 = cs@.skip(i as int);
    assert(trimmed_start(cs@) == t0);
    let mut j: usize = n;
    assert(cs@.subrange(i as int, j as int) =~= t0);
    while i < j && white_space(cs[j - 1])
        invariant
            i <= j <= n,
            n == cs@.len(),
            trimmed_end(t0) == trimmed_end(cs@.subrange(i as int, j as int)),
        ensures
            i <= j <= n,
            i < j ==> !is_white_space(cs@[j - 1]),
            trimmed_end(t0) == trimmed_end(cs@.subrange(i as int, j as int)),
        decreases j,
    {
        assert(cs@.subrange(i as int, j as int).drop_last() =~= cs@.subrange(
            i as int,
            j - 1,
        ));
        j -= 1;
    }
    s.substring_char(i, j)
}

/// Whether `s` ends with `suffix`.
pub fn ends_with(s: &str, suffix: &str) -> (b: bool)
    ensures
        b == suffix@.is_suffix_of(s@),
{
    let cs = chars_of(s);
    let ss = chars_of(suffix);
    if ss.len() > cs.len() {
        return false;
    }
    let n: usize = cs.len();
    let off: usize = n - ss.len();
    let mut i: usize = 0;
    while i < ss.len()
        invariant
            i <= ss@.len(),
            cs@ == s@,
            ss@ == suffix@,
            n == cs@.len(),
            off + ss@.len() == cs@.len(),
            forall|k: int| 0 <= k < i ==> ss@[k] == cs@[off + k],
        decreases ss@.len() - i,
    {
        if ss[i] != cs[off + i] {
            assert(cs@.subrange(off as int, cs@.len() as int)[i as int] == cs@[off + i]);
            return false;
        }
        i += 1;
    }
    assert(ss@ =~= cs@.subrange(off as int, cs@.len() as int));
    true
}

/// Where the field that starts at `from` ends.
fn field_end(cs: &Vec<char>, from: usize, sep: char) -> (end: usize)
    requires
        from <= cs@.len(),
    ensures
        end == from + field_len(cs@.skip(from as int), sep),
        from <= end <= cs@.len(),
{
    let mut i: usize = from;
    while i < cs.len() && cs[i] != sep
        invariant
            from <= i <= cs@.len(),
            from + field_len(cs@.skip(from as int), sep) == i + field_len(cs@.skip(i as int), sep),
        ensures
            from <= i <= cs@.len(),
            i < cs@.len() ==> cs@[i as int] == sep,
            from + field_len(cs@.skip(from as int), sep) == i + field_len(cs@.skip(i as int), sep),
        decreases cs@.len() - i,
    {
        assert(cs@.skip(i as int).drop_first() =~= cs@.skip(i + 1));
        i += 1;
    }
    i
}

/// The part of `s` before the first `sep`.
pub fn before_first(s: &str, sep: char) -> (t: &str)
    ensures
        t@ == first_field(s@, sep),
{
    let cs = chars_of(s);
    assert(cs@.skip(0) =~= cs@);
    let end: usize = field_end(&cs, 0, sep);
    s.substring_char(0, end)
}

/// `list_items` takes one field off the front.
proof fn lemma_list_items_unfold(s: Seq<char>, sep: char)
    ensures
        ({
            let n = field_len(s, sep) as int;
            let head = trimmed(s.take(n));
            let one = if head.len() > 0 {
                seq![head]
            } else {
                seq![]
            };
            &&& n <= s.len()
            &&& n < s.len() ==> list_items(s, sep) == one + list_items(s.skip(n + 1), sep)
            &&& n == s.len() ==> list_items(s, sep) == one
        }),
{
    lemma_field_len_bound(s, sep);
    let n = field_len(s, sep) as int;
    let trim_all = |f: Seq<char>| trimmed(f);
    let keep = |f: Seq<char>| f.len() > 0;
    let head = seq![s.take(n)];
    let mapped_head = head.map_values(trim_all);
    assert(mapped_head =~= seq![trimmed(s.take(n))]);
    assert(mapped_head.filter(keep) =~= if trimmed(s.take(n)).len() > 0 {
        mapped_head
    } else {
        seq![]
    }) by {
        reveal(Seq::filter);
        assert(mapped_head.drop_last() =~= Seq::<Seq<char>>::empty());
        assert(mapped_head.drop_last().filter(keep) =~= Seq::<Seq<char>>::empty());
    }
    if n < s.len() {
        let rest = fields(s.skip(n + 1), sep);
        assert(fields(s, sep) == head + rest);
        assert((head + rest).map_values(trim_all) =~= mapped_head + rest.map_values(trim_all));
        Seq::filter_distributes_over_add(mapped_head, rest.map_values(trim_all), keep);
    } else {
        assert(s.take(n) =~= s);
        assert(fields(s, sep) == seq![s]);
    }
}

proof fn lemma_field_len_bound(s: Seq<char>, sep: char)
    ensures
        field_len(s, sep) <= s.len(),
    decreases s.len(),
{
    if s.len() > 0 && s.first() != sep {
        lemma_field_len_bound(s.drop_first(), sep);
    }
}

/// The trimmed, non-empty fields of `s`.
pub fn split_list(s: &str, sep: char) -> (v: Vec<String>)
    ensures
        v@.map_values(|x: String| x@) == list_items(s@, sep),
{
    let cs = chars_of(s);
    let ghost strs = |x: String| x@;
    let mut v: Vec<String> = Vec::new();
    let mut from: usize = 0;
    assert(cs@.skip(0) =~= cs@);
    assert(v@.map_values(strs) + list_items(cs@, sep) =~= list_items(cs@, sep));
    loop
        invariant_except_break
            cs@ == s@,
            from <= cs@.len(),
            strs == (|x: String| x@),
            v@.map_values(strs) + list_items(cs@.skip(from as int), sep) == list_items(s@, sep),
        ensures
            v@.map_values(strs) == list_items(s@, sep),
        decreases cs@.len() - from,
    {
        let end: usize = field_end(&cs, from, sep);
        let item = trim(s.substring_char(from, end));
        let ghost rest = cs@.skip(from as int);
        proof {
            lemma_list_items_unfold(rest, sep);
            assert(rest.take(end - from) =~= s@.subrange(from as int, end as int));
            assert(end < cs@.len() ==> rest.skip(end - from + 1) =~= cs@.skip(end + 1));
        }
        let ghost before = v@;
        if !item.is_empty() {
            v.push(item.to_owned());
            assert(v@.map_values(strs) =~= before.map_values(strs).push(item@));
        }
        if end >= cs.len() {
            assert(v@.map_values(strs) =~= list_items(s@, sep));
            break;
        }
        assert(v@.map_values(strs) + list_items(cs@.skip(end + 1), sep) =~= list_items(s@, sep));
        from = end + 1;
    }
    v
}

/// A longer run of digits writes no smaller number.
proof fn lemma_decimal_grows(s: Seq<char>, i: int)
    requires
        0 <= i <= s.len(),
    ensures
        decimal(s.take(i)) <= decimal(s),
    decreases s.len(),
{
    if i < s.len() {
        lemma_decimal_grows(s.drop_last(), i);
        assert(s.drop_last().take(i) =~= s.take(i));
    } else {
        assert(s.take(i) =~= s);
    }
}

/// The number that the characters from `from` on write, if they are digits and it is at most
/// `limit`.
fn parse_decimal(cs: &Vec<char>, from: usize, limit: u64) -> (r: Option<u64>)
    requires
        from <= cs@.len(),
        limit <= 0xffff_ffff,
    ensures
        r is Some <==> is_decimal(cs@.skip(from as int)) && decimal(cs@.skip(from as int)) <= limit,
        r matches Some(n) ==> n == decimal(cs@.skip(from as int)),
{
    let ghost digits = cs@.skip(from as int);
    if from >= cs.len() {
        return None;
    }
    let mut value: u64 = 0;
    let mut i: usize = from;
    assert(digits.take(0) =~= Seq::<char>::empty());
    while i < cs.len()
        invariant
            from <= i <= cs@.len(),
            limit <= 0xffff_ffff,
            digits == cs@.skip(from as int),
            value <= limit,
            value == decimal(digits.take(i - from)),
            forall|k: int| 0 <= k < i - from ==> is_digit(#[trigger] digits[k]),
        decreases cs@.len() - i,
    {
        let c = cs[i];
        assert(digits[i - from] == c);
        if !('0' <= c && c <= '9') {
            return None;
        }
        let d: u64 = (c as u64) - ('0' as u64);
        proof {
            assert(digits.take(i - from + 1).drop_last() =~= digits.take(i - from));
            lemma_decimal_grows(digits, i - from + 1);
        }
        value = value * 10 + d;
        if value > limit {
            return None;
        }
        i += 1;
    }
    assert(digits.take(i - from) =~= digits);
    Some(value)
}

/// The `u16` that `s` writes, if it writes one.
pub fn parse_u16(s: &str) -> (r: Option<u16>)
    ensures
        r == u16_value(s@),
{
    let cs = chars_of(s);
    let from: usize = if cs.len() > 0 && cs[0] == '+' {
        1
    } else {
        0
    };
    assert(cs@.skip(0) =~= cs@);
    match parse_decimal(&cs, from, 65535) {
        Some(n) => Some(n as u16),
        None => None,
    }
}

/// The `i32` that `s` writes, if it writes one.
pub fn parse_i32(s: &str) -> (r: Option<i32>)
    ensures
        r == i32_value(s@),
{
    let cs = chars_of(s);
    assert(cs@.skip(0) =~= cs@);
    if cs.len() > 0 && cs[0] == '-' {
        match parse_decimal(&cs, 1, 0x8000_0000) {
            Some(n) => Some((-(n as i64)) as i32),
            None => None,
        }
    } else {
        let from: usize = if cs.len() > 0 && cs[0] == '+' {
            1
        } else {
            0
        };
        match parse_decimal(&cs, from, 0x7fff_ffff) {
            Some(n) => Some(n as i32),
            None => None,
        }
    }
}

proof fn lemma_trimmed_start(s: Seq<char>)
    ensures
        ({
            let r = trimmed_start(s);
            &&& r.len() <= s.len()
            &&& r == s.skip(s.len() - r.len())
            &&& r.len() > 0 ==> !is_white_space(r.first())
        }),
    decreases s.len(),
{
    if s.len() > 0 && is_white_space(s.first()) {
        lemma_trimmed_start(s.drop_first());
        let r = trimmed_start(s);
        assert(s.drop_first().skip(s.len() - 1 - r.len()) =~= s.skip(s.len() - r.len()));
    } else {
        assert(s.skip(0) =~= s);
    }
}

proof fn lemma_trimmed_end(s: Seq<char>)
    ensures
        ({
            let r = trimmed_end(s);
            &&& r.len() <= s.len()
            &&& r == s.take(r.len() as int)
            &&& r.len() > 0 ==> !is_white_space(r.last())
        }),
    decreases s.len(),
{
    if s.len() > 0 && is_white_space(s.last()) {
        lemma_trimmed_end(s.drop_last());
        let r = trimmed_end(s);
        assert(s.drop_last().take(r.len() as int) =~= s.take(r.len() as int));
    } else {
        assert(s.take(s.len() as int) =~= s);
    }
}

/// Trimmed text is a stretch of the text, has no white space at either end, and trimming it again
/// changes nothing.
pub proof fn law_trimmed(s: Seq<char>)
    ensures
        exists|i: int, j: int| 0 <= i <= j <= s.len() && trimmed(s) == #[trigger] s.subrange(i, j),
        trimmed(s).len() > 0 ==> !is_white_space(trimmed(s).first()) && !is_white_space(
            trimmed(s).last(),
        ),
        trimmed(trimmed(s)) == trimmed(s),
{
    lemma_trimmed_start(s);
    let u = trimmed_start(s);
    lemma_trimmed_end(u);
    let t = trimmed_end(u);
    let i = s.len() - u.len();
    assert(t =~= s.subrange(i, i + t.len()));
    if t.len() > 0 {
        assert(t.first() == u.first());
    }
}

proof fn lemma_field_has_no_sep(s: Seq<char>, sep: char)
    ensures
        !first_field(s, sep).contains(sep),
        field_len(s, sep) <= s.len(),
    decreases s.len(),
{
    lemma_field_len_bound(s, sep);
    if s.len() > 0 && s.first() != sep {
        lemma_field_has_no_sep(s.drop_first(), sep);
        let f = first_field(s, sep);
        let g = first_field(s.drop_first(), sep);
        assert forall|i: int| 0 <= i < f.len() implies f[i] != sep by {
            if i > 0 {
                assert(f[i] == g[i - 1]);
                assert(g.contains(g[i - 1]));
            }
        }
    }
}

/// The part before the first separator holds no separator, and the separator comes right after it
/// where there is one.
pub proof fn law_first_field(s: Seq<char>, sep: char)
    ensures
        !first_field(s, sep).contains(sep),
        first_field(s, sep).is_prefix_of(s),
        s.contains(sep) ==> {
            &&& first_field(s, sep).len() < s.len()
            &&& s[first_field(s, sep).len() as int] == sep
        },
        !s.contains(sep) ==> first_field(s, sep) == s,
    decreases s.len(),
{
    lemma_field_has_no_sep(s, sep);
    let n = field_len(s, sep) as int;
    assert(first_field(s, sep) =~= s.subrange(0, n));
    if s.len() > 0 && s.first() != sep {
        let rest = s.drop_first();
        law_first_field(rest, sep);
        lemma_field_len_bound(rest, sep);
        if s.contains(sep) {
            let k = choose|k: int| 0 <= k < s.len() && s[k] == sep;
            assert(rest[k - 1] == sep);
        } else {
            assert(!rest.contains(sep)) by {
                if rest.contains(sep) {
                    let k = choose|k: int| 0 <= k < rest.len() && rest[k] == sep;
                    assert(s[k + 1] == sep);
                }
            }
            assert(field_len(rest, sep) == rest.len()) by {
                assert(first_field(rest, sep).len() == rest.len());
            }
            assert(first_field(s, sep) =~= s);
        }
    } else if s.len() > 0 {
        assert(s[0] == sep);
    } else {
        assert(first_field(s, sep) =~= s);
    }
}

/// Every item of a list is trimmed, is not empty and holds no separator.
pub proof fn law_list_items(s: Seq<char>, sep: char)
    ensures
        forall|i: int|
            0 <= i < list_items(s, sep).len() ==> {
                let item = #[trigger] list_items(s, sep)[i];
                &&& item.len() > 0
                &&& trimmed(item) == item
                &&& !item.contains(sep)
            },
    decreases s.len(),
{
    lemma_list_items_unfold(s, sep);
    lemma_field_has_no_sep(s, sep);
    let n = field_len(s, sep) as int;
    let field = s.take(n);
    let head = trimmed(field);
    law_trimmed(field);
    assert(!head.contains(sep)) by {
        let (i, j) = choose|i: int, j: int|
            0 <= i <= j <= field.len() && head == #[trigger] field.subrange(i, j);
        assert forall|k: int| 0 <= k < head.len() implies head[k] != sep by {
            assert(field.contains(field[i + k]));
        }
    }
    if n < s.len() {
        law_list_items(s.skip(n + 1), sep);
    }
}

proof fn lemma_field_len_append(a: Seq<char>, b: Seq<char>, sep: char)
    ensures
        field_len(a.push(sep) + b, sep) == field_len(a, sep),
    decreases a.len(),
{
    let s = a.push(sep) + b;
    if a.len() > 0 && a.first() != sep {
        assert(s.drop_first() =~= a.drop_first().push(sep) + b);
        assert(s.first() == a.first());
        lemma_field_len_append(a.drop_first(), b, sep);
    } else if a.len() == 0 {
        assert(s.first() == sep);
    } else {
        assert(s.first() == a.first());
    }
}

/// The items of two lists joined by a separator are those of the one and then those of the other.
pub proof fn law_list_items_join(a: Seq<char>, b: Seq<char>, sep: char)
    ensures
        list_items(a.push(sep) + b, sep) == list_items(a, sep) + list_items(b, sep),
    decreases a.len(),
{
    let s = a.push(sep) + b;
    lemma_field_len_append(a, b, sep);
    lemma_list_items_unfold(s, sep);
    lemma_list_items_unfold(a, sep);
    let n = field_len(a, sep) as int;
    assert(s.take(n) =~= a.take(n));
    if n < a.len() {
        let rest = a.skip(n + 1);
        assert(s.skip(n + 1) =~= rest.push(sep) + b);
        law_list_items_join(rest, b, sep);
        assert(list_items(s, sep) =~= list_items(a, sep) + list_items(b, sep));
    } else {
        assert(s.skip(n + 1) =~= b);
        assert(list_items(s, sep) =~= list_items(a, sep) + list_items(b, sep));
    }
}

proof fn lemma_trimmed_start_white(s: Seq<char>)
    ensures
        trimmed_start(s).len() <= s.len(),
        forall|k: int|
            0 <= k < s.len() - trimmed_start(s).len() ==> is_white_space(#[trigger] s[k]),
    decreases s.len(),
{
    if s.len() > 0 && is_white_space(s.first()) {
        let rest = s.drop_first();
        lemma_trimmed_start_white(rest);
        assert forall|k: int| 0 <= k < s.len() - trimmed_start(s).len() implies is_white_space(
            #[trigger] s[k],
        ) by {
            if k > 0 {
                assert(rest[k - 1] == s[k]);
            }
        }
    }
}

proof fn lemma_trimmed_end_white(s: Seq<char>)
    ensures
        trimmed_end(s).len() <= s.len(),
        forall|k: int| trimmed_end(s).len() <= k < s.len() ==> is_white_space(#[trigger] s[k]),
    decreases s.len(),
{
    if s.len() > 0 && is_white_space(s.last()) {
        let rest = s.drop_last();
        lemma_trimmed_end_white(rest);
        assert forall|k: int| trimmed_end(s).len() <= k < s.len() implies is_white_space(
            #[trigger] s[k],
        ) by {
            if k < s.len() - 1 {
                assert(rest[k] == s[k]);
            }
        }
    }
}

/// Trimming takes away nothing but white space: text is its trimmed form between two stretches of
/// it.
pub proof fn law_trim_takes_white_space_only(s: Seq<char>)
    ensures
        exists|i: int, j: int|
            {
                &&& 0 <= i <= j <= s.len()
                &&& trimmed(s) == #[trigger] s.subrange(i, j)
                &&& forall|k: int| 0 <= k < i ==> is_white_space(#[trigger] s[k])
                &&& forall|k: int| j <= k < s.len() ==> is_white_space(#[trigger] s[k])
            },
{
    lemma_trimmed_start(s);
    lemma_trimmed_start_white(s);
    let u = trimmed_start(s);
    lemma_trimmed_end(u);
    lemma_trimmed_end_white(u);
    let i = s.len() - u.len();
    let j = i + trimmed(s).len();
    assert(trimmed(s) =~= s.subrange(i, j));
    assert forall|k: int| j <= k < s.len() implies is_white_space(#[trigger] s[k]) by {
        assert(u[k - i] == s[k]);
    }
}

/// A list without a separator has one item, the trimmed text, or none where that is empty.
pub proof fn law_list_of_one(s: Seq<char>, sep: char)
    requires
        !s.contains(sep),
    ensures
        trimmed(s).len() > 0 ==> list_items(s, sep) == seq![trimmed(s)],
        trimmed(s).len() == 0 ==> list_items(s, sep).len() == 0,
{
    law_first_field(s, sep);
    lemma_list_items_unfold(s, sep);
    lemma_field_len_bound(s, sep);
    assert(first_field(s, sep).len() == field_len(s, sep));
    assert(s.take(s.len() as int) =~= s);
}

/// The digit of a number below ten.
pub open spec fn digit(n: nat) -> char {
    if n == 0 {
        '0'
    } else if n == 1 {
        '1'
    } else if n == 2 {
        '2'
    } else if n == 3 {
        '3'
    } else if n == 4 {
        '4'
    } else if n == 5 {
        '5'
    } else if n == 6 {
        '6'
    } else if n == 7 {
        '7'
    } else if n == 8 {
        '8'
    } else {
        '9'
    }
}

/// A number written in base ten.
pub open spec fn written(n: nat) -> Seq<char>
    decreases n,
{
    if n < 10 {
        seq![digit(n)]
    } else {
        written(n / 10).push(digit(n % 10))
    }
}

proof fn lemma_written(n: nat)
    ensures
        is_decimal(written(n)),
        decimal(written(n)) == n,
    decreases n,
{
    if n < 10 {
        reveal_with_fuel(decimal, 2);
        assert(written(n).drop_last() =~= Seq::<char>::empty());
    } else {
        lemma_written(n / 10);
        let s = written(n);
        assert(s.drop_last() =~= written(n / 10));
        assert forall|i: int| 0 <= i < s.len() implies is_digit(#[trigger] s[i]) by {
            if i < s.len() - 1 {
                assert(s[i] == written(n / 10)[i]);
            }
        }
    }
}

/// Leading zeros do not change a number.
proof fn lemma_leading_zero(s: Seq<char>)
    ensures
        decimal(seq!['0'] + s) == decimal(s),
    decreases s.len(),
{
    let z = seq!['0'] + s;
    if s.len() == 0 {
        assert(z.drop_last() =~= Seq::<char>::empty());
        reveal_with_fuel(decimal, 2);
    } else {
        assert(z.drop_last() =~= seq!['0'] + s.drop_last());
        lemma_leading_zero(s.drop_last());
    }
}

/// What is written is read back: a number in range, plain or after a plus sign or a zero, gives
/// itself, and one out of range gives nothing.
pub proof fn law_u16_read_back(n: nat)
    ensures
        n <= 65535 ==> u16_value(written(n)) == Some(n as u16),
        n <= 65535 ==> u16_value(seq!['+'] + written(n)) == Some(n as u16),
        n <= 65535 ==> u16_value(seq!['0'] + written(n)) == Some(n as u16),
        n > 65535 ==> u16_value(written(n)) is None && u16_value(seq!['+'] + written(n)) is None,
        u16_value(seq!['-'] + written(n)) is None,
{
    let s = written(n);
    lemma_written(n);
    lemma_leading_zero(s);
    assert(is_digit(s[0]));
    assert((seq!['+'] + s).skip(1) =~= s);
    let minus = seq!['-'] + s;
    assert(minus[0] == '-' && !is_digit(minus[0]));
    let zero = seq!['0'] + s;
    assert forall|i: int| 0 <= i < zero.len() implies is_digit(#[trigger] zero[i]) by {
        if i > 0 {
            assert(zero[i] == s[i - 1]);
        }
    }
}

/// What is written is read back: a number in range, plain or signed, gives itself, and one out of
/// range gives nothing.
pub proof fn law_i32_read_back(n: nat)
    ensures
        n <= 2147483647 ==> i32_value(written(n)) == Some(n as i32),
        n <= 2147483647 ==> i32_value(seq!['+'] + written(n)) == Some(n as i32),
        n > 2147483647 ==> i32_value(written(n)) is None && i32_value(seq!['+'] + written(n))
            is None,
        n <= 2147483648 ==> i32_value(seq!['-'] + written(n)) == Some((-n) as i32),
        n > 2147483648 ==> i32_value(seq!['-'] + written(n)) is None,
{
    let s = written(n);
    lemma_written(n);
    assert(is_digit(s[0]));
    assert((seq!['+'] + s).skip(1) =~= s);
    assert((seq!['-'] + s).skip(1) =~= s);
}

/// Text with anything but a digit after its first character, and text without any digit, is no
/// number.
pub proof fn law_no_number(s: Seq<char>, k: int)
    requires
        s.len() == 0 || (s.len() == 1 && !is_digit(s[0])) || (1 <= k < s.len() && !is_digit(s[k])),
    ensures
        u16_value(s) is None,
        i32_value(s) is None,
{
    if s.len() > 1 {
        assert(s.skip(1)[k - 1] == s[k]);
        assert(!is_digit(s.skip(1)[k - 1]));
    }
}

} // verus!
