use vstd::prelude::*;
use vstd::string::{StrSliceExecFns, StringExecFns};
use crate::time_format::{append_decimal, decimal};

verus! {

/// The pattern of the number that orders the audio files of a book: the
/// first run of decimal digits in the file name.
pub open spec fn number_pattern() -> Seq<char> {
    "\\d+"@
}

/// The text of the leftmost-first match of `pattern` in `haystack`; `None`
/// when there is none or the pattern does not compile.
pub uninterp spec fn leftmost_match(pattern: Seq<char>, haystack: Seq<char>) -> Option<Seq<char>>;

/// Relies on regex::Regex::new and Regex::find: compiles `pattern` and
/// returns the text of its first match in `haystack`.
#[verifier::external_body]
fn find_leftmost(pattern: &str, haystack: &str) -> (r: Option<String>)
    ensures
        match r {
            Some(t) => leftmost_match(pattern@, haystack@) == Some(t@),
            None => leftmost_match(pattern@, haystack@) == None::<Seq<char>>,
        },
{
    let re = match regex::Regex::new(pattern) {
        Ok(re) => re,
        Err(_) => return None,
    };
    match re.find(haystack) {
        Some(m) => Some(m.as_str().to_string()),
        None => None,
    }
}

pub open spec fn is_ascii_digit(c: char) -> bool {
    '0' <= c <= '9'
}

/// The value of a string of ASCII digits, read in base ten.
pub open spec fn digits_value(t: Seq<char>) -> int
    decreases t.len(),
{
    if t.len() == 0 {
        0
    } else {
        digits_value(t.drop_last()) * 10 + (t.last() as int - '0' as int)
    }
}

/// The `u32` that a non-empty string of ASCII digits denotes, if it fits.
pub open spec fn decimal_u32(t: Seq<char>) -> Option<u32> {
    if t.len() > 0 && (forall|i: int| 0 <= i < t.len() ==> is_ascii_digit(#[trigger] t[i])) && digits_value(t)
        <= u32::MAX {
        Some(digits_value(t) as u32)
    } else {
        None
    }
}

/// The number that orders a file name: its first run of digits, read as a `u32`.
pub open spec fn number_of(name: Seq<char>) -> Option<u32> {
    match leftmost_match(number_pattern(), name) {
        Some(t) => decimal_u32(t),
        None => None,
    }
}

/// A file name whose first run of digits is no `u32` (too long, or digits
/// of another script).
pub open spec fn unreadable_number(name: Seq<char>) -> bool {
    &&& leftmost_match(number_pattern(), name) is Some
    &&& decimal_u32(leftmost_match(number_pattern(), name)->Some_0) is None
}

/// Order by number, then by position in the listing.
pub open spec fn orders_before(k1: u32, i1: int, k2: u32, i2: int) -> bool {
    k1 < k2 || (k1 == k2 && i1 < i2)
}

proof fn lemma_digits_value_nonneg(t: Seq<char>)
    requires
        forall|i: int| 0 <= i < t.len() ==> is_ascii_digit(#[trigger] t[i]),
    ensures
        digits_value(t) >= 0,
    decreases t.len(),
{
    if t.len() > 0 {
        let p = t.drop_last();
        assert forall|i: int| 0 <= i < p.len() implies is_ascii_digit(#[trigger] p[i]) by {
            assert(p[i] == t[i]);
        }
        lemma_digits_value_nonneg(p);
    }
}

/// Reading more digits never lowers the value.
proof fn lemma_digits_value_grows(t: Seq<char>, i: int)
    requires
        0 <= i <= t.len(),
        forall|j: int| 0 <= j < t.len() ==> is_ascii_digit(#[trigger] t[j]),
    ensures
        digits_value(t.subrange(0, i)) <= digits_value(t),
    decreases t.len() - i,
{
    if i < t.len() {
        let a = t.subrange(0, i);
        let b = t.subrange(0, i + 1);
        assert(b.drop_last() =~= a);
        assert forall|j: int| 0 <= j < a.len() implies is_ascii_digit(#[trigger] a[j]) by {
            assert(a[j] == t[j]);
        }
        lemma_digits_value_nonneg(a);
        lemma_digits_value_grows(t, i + 1);
        assert(t.subrange(0, t.len() as int) =~= t);
    } else {
        assert(t.subrange(0, i) =~= t);
    }
}

/// Reads a string of ASCII digits as a `u32`.
pub fn parse_decimal_u32(t: &str) -> (r: Option<u32>)
    ensures
        r == decimal_u32(t@),
{
    let n = t.unicode_len();
    if n == 0 {
        return None;
    }
    let mut v: u64 = 0;
    let mut i: usize = 0;
    while i < n
        invariant
            0 <= i <= n,
            n == t@.len(),
            v == digits_value(t@.subrange(0, i as int)),
            v <= u32::MAX,
            forall|j: int| 0 <= j < i ==> is_ascii_digit(#[trigger] t@[j]),
        decreases n - i,
    {
        let c = t.get_char(i);
        if !('0' <= c && c <= '9') {
            assert(!is_ascii_digit(t@[i as int]));
            return None;
        }
        let d = (c as u32 - '0' as u32) as u64;
        assert(t@.subrange(0, i + 1).drop_last() =~= t@.subrange(0, i as int));
        v = v * 10 + d;
        i += 1;
        if v > u32::MAX as u64 {
            proof {
                if forall|j: int| 0 <= j < t@.len() ==> is_ascii_digit(#[trigger] t@[j]) {
                    lemma_digits_value_grows(t@, i as int);
                }
            }
            return None;
        }
    }
    assert(t@.subrange(0, n as int) =~= t@);
    Some(v as u32)
}

/// The order in which the files named `names` become chapters: the
/// positions of the names that carry a number, sorted by that number and,
/// among equal numbers, by position. `None` when a name's first run of digits
/// is no `u32`.
pub fn sort_with_number(names: &Vec<String>) -> (r: Option<Vec<usize>>)
    ensures
        r is None <==> exists|i: int| 0 <= i < names@.len() && unreadable_number(#[trigger] names@[i]@),
        r matches Some(order) ==> {
            &&& forall|j: int|
                0 <= j < order@.len() ==> #[trigger] order@[j] < names@.len() && number_of(
                    names@[order@[j] as int]@,
                ) is Some
            &&& forall|i: int|
                0 <= i < names@.len() && (#[trigger] number_of(names@[i]@)) is Some ==> order@.contains(
                    i as usize,
                )
            &&& forall|a: int, b: int|
                0 <= a < b < order@.len() ==> orders_before(
                    number_of(names@[order@[a] as int]@)->Some_0,
                    order@[a] as int,
                    number_of(names@[order@[b] as int]@)->Some_0,
                    order@[b] as int,
                )
        },
{
    let mut keyed: Vec<(u32, usize)> = Vec::new();
    let mut i: usize = 0;
    while i < names.len()
        invariant
            i <= names@.len(),
            forall|j: int|
                0 <= j < keyed@.len() ==> (#[trigger] keyed@[j]).1 < i && number_of(
                    names@[keyed@[j].1 as int]@,
                ) == Some(keyed@[j].0),
            forall|x: int|
                0 <= x < i && (#[trigger] number_of(names@[x]@)) is Some ==> exists|j: int|
                    0 <= j < keyed@.len() && #[trigger] keyed@[j].1 == x,
            forall|x: int| 0 <= x < i ==> !unreadable_number(#[trigger] names@[x]@),
            forall|a: int, b: int|
                0 <= a < b < keyed@.len() ==> orders_before(
                    keyed@[a].0,
                    keyed@[a].1 as int,
                    keyed@[b].0,
                    keyed@[b].1 as int,
                ),
        decreases names@.len() - i,
    {
        let pattern = "\\d+";
        let found = find_leftmost(pattern, names[i].as_str());
        match found {
            None => {
                assert(number_of(names@[i as int]@) is None);
            },
            Some(t) => {
                match parse_decimal_u32(t.as_str()) {
                    None => {
                        assert(unreadable_number(names@[i as int]@));
                        return None;
                    },
                    Some(k) => {
                        let mut pos: usize = 0;
                        while pos < keyed.len() && keyed[pos].0 <= k
                            invariant
                                pos <= keyed@.len(),
                                forall|q: int| 0 <= q < pos ==> (#[trigger] keyed@[q]).0 <= k,
                            decreases keyed@.len() - pos,
                        {
                            pos += 1;
                        }
                        let ghost before = keyed@;
                        keyed.insert(pos, (k, i));
                        assert forall|a: int, b: int|
                            0 <= a < b < keyed@.len() implies orders_before(
                            keyed@[a].0,
                            keyed@[a].1 as int,
                            keyed@[b].0,
                            keyed@[b].1 as int,
                        ) by {
                            if b == pos {
                                assert(keyed@[a] == before[a]);
                            } else if a == pos {
                                assert(keyed@[b] == before[b - 1]);
                                assert(before[pos as int].0 > k);
                                if pos < b - 1 {
                                    assert(orders_before(
                                        before[pos as int].0,
                                        before[pos as int].1 as int,
                                        before[b - 1].0,
                                        before[b - 1].1 as int,
                                    ));
                                }
                            } else if b < pos {
                                assert(keyed@[a] == before[a] && keyed@[b] == before[b]);
                            } else if a < pos {
                                assert(keyed@[a] == before[a] && keyed@[b] == before[b - 1]);
                            } else {
                                assert(keyed@[a] == before[a - 1] && keyed@[b] == before[b - 1]);
                            }
                        }
                        assert forall|x: int|
                            0 <= x < i + 1 && (#[trigger] number_of(names@[x]@)) is Some implies exists|j: int|
                            0 <= j < keyed@.len() && #[trigger] keyed@[j].1 == x by {
                            if x == i {
                                assert(keyed@[pos as int].1 == x);
                            } else {
                                let j = choose|j: int| 0 <= j < before.len() && #[trigger] before[j].1 == x;
                                if j < pos {
                                    assert(keyed@[j].1 == x);
                                } else {
                                    assert(keyed@[j + 1].1 == x);
                                }
                            }
                        }
                        assert forall|j: int|
                            0 <= j < keyed@.len() implies (#[trigger] keyed@[j]).1 < i + 1 && number_of(
                            names@[keyed@[j].1 as int]@,
                        ) == Some(keyed@[j].0) by {
                            if j < pos {
                                assert(keyed@[j] == before[j]);
                            } else if j > pos {
                                assert(keyed@[j] == before[j - 1]);
                            }
                        }
                    },
                }
            },
        }
        i += 1;
    }
    let mut order: Vec<usize> = Vec::new();
    let mut j: usize = 0;
    while j < keyed.len()
        invariant
            j <= keyed@.len(),
            order@.len() == j,
            forall|q: int| 0 <= q < j ==> #[trigger] order@[q] == keyed@[q].1,
        decreases keyed@.len() - j,
    {
        order.push(keyed[j].1);
        j += 1;
    }
    assert forall|x: int|
        0 <= x < names@.len() && (#[trigger] number_of(names@[x]@)) is Some implies order@.contains(
        x as usize,
    ) by {
        let q = choose|q: int| 0 <= q < keyed@.len() && #[trigger] keyed@[q].1 == x;
        assert(order@[q] == x as usize);
    }
    Some(order)
}

/// The media-type tag of a book whose files have extension `ext`.
pub open spec fn media_type_of(ext: Seq<char>) -> Option<i32> {
    if ext == "mp3"@ {
        Some(0)
    } else if ext == "m4a"@ {
        Some(1)
    } else {
        None
    }
}

/// The media-type tag for a file extension: 0 for mp3, 1 for m4a; other
/// extensions are not supported.
pub fn music_type_of(ext: &str) -> (r: Option<i32>)
    ensures
        r == media_type_of(ext@),
{
    proof {
        reveal_strlit("mp3");
        reveal_strlit("m4a");
    }
    if ext.unicode_len() != 3 {
        return None;
    }
    let a = ext.get_char(0);
    let b = ext.get_char(1);
    let c = ext.get_char(2);
    if a == 'm' && b == 'p' && c == '3' {
        assert(ext@ =~= "mp3"@);
        Some(0)
    } else if a == 'm' && b == '4' && c == 'a' {
        assert(ext@ =~= "m4a"@);
        Some(1)
    } else {
        assert(ext@ != "mp3"@ && ext@ != "m4a"@) by {
            if ext@ == "mp3"@ {
                assert(ext@[0] == 'm' && ext@[1] == 'p' && ext@[2] == '3');
            }
            if ext@ == "m4a"@ {
                assert(ext@[0] == 'm' && ext@[1] == '4' && ext@[2] == 'a');
            }
        }
        None
    }
}

/// `n` in decimal, padded with leading zeros to at least four digits.
pub open spec fn four_digits(n: nat) -> Seq<char> {
    if n < 10 {
        seq!['0', '0', '0'] + decimal(n)
    } else if n < 100 {
        seq!['0', '0'] + decimal(n)
    } else if n < 1000 {
        seq!['0'] + decimal(n)
    } else {
        decimal(n)
    }
}

/// The file name of the chapter file at 1-based position `index`:
/// the position on four digits, a dot, and the extension.
pub fn chapter_file_name(index: u32, ext: &str) -> (r: String)
    ensures
        r@ == four_digits(index as nat) + seq!['.'] + ext@,
{
    proof {
        reveal_strlit("000");
        reveal_strlit("00");
        reveal_strlit("0");
        reveal_strlit(".");
    }
    let mut s = String::new();
    if index < 10 {
        s.append("000");
    } else if index < 100 {
        s.append("00");
    } else if index < 1000 {
        s.append("0");
    }
    append_decimal(&mut s, index);
    s.append(".");
    s.append(ext);
    assert(s@ =~= four_digits(index as nat) + seq!['.'] + ext@);
    s
}

/// A chapter of a new book: its ordinal, its display name and its file
/// below the library's book directory.
#[derive(Clone, Debug, PartialEq, Eq)]
pub struct ChapterRow {
    pub chapter_num: i32,
    pub chapter_name: String,
    pub chapter_url: String,
}

/// The chapter rows of a new book from the display names and file paths of
/// its files, in order: the row at position `k` has ordinal `k`. Surplus
/// names or paths are ignored.
pub fn plan_chapters(names: &Vec<String>, urls: &Vec<String>) -> (r: Vec<ChapterRow>)
    requires
        names@.len() <= i32::MAX || urls@.len() <= i32::MAX,
    ensures
        r@.len() == (if names@.len() <= urls@.len() { names@.len() } else { urls@.len() }),
        forall|k: int|
            0 <= k < r@.len() ==> (#[trigger] r@[k]).chapter_num == k && r@[k].chapter_name@ == names@[k]@
                && r@[k].chapter_url@ == urls@[k]@,
{
    let n = if names.len() <= urls.len() { names.len() } else { urls.len() };
    let mut rows: Vec<ChapterRow> = Vec::new();
    let mut k: usize = 0;
    while k < n
        invariant
            k <= n,
            n <= names@.len(),
            n <= urls@.len(),
            n <= i32::MAX,
            rows@.len() == k,
            forall|q: int|
                0 <= q < k ==> (#[trigger] rows@[q]).chapter_num == q && rows@[q].chapter_name@ == names@[q]@
                    && rows@[q].chapter_url@ == urls@[q]@,
        decreases n - k,
    {
        rows.push(
            ChapterRow {
                chapter_num: k as i32,
                chapter_name: names[k].clone(),
                chapter_url: urls[k].clone(),
            },
        );
        k += 1;
    }
    rows
}

} // verus!
