//! Reading the buffers and page-cache figures out of the text of `/proc/meminfo`.
//!
//! The text is a list of lines `Key:   value kB`. A line counts when it has at
//! least two fields separated by Unicode whitespace; its key is the first field with every
//! trailing `:` removed, its value the second field read as a decimal `u64`
//! (zero when that fails), in kibibytes. Where a key occurs on several lines the
//! last one counts.
use vstd::prelude::*;
use crate::models::MemoryStats;
use crate::metadata::{is_white_space, white_space};

verus! {

/// Whitespace as `str::split_whitespace` knows it: Unicode's `White_Space`.
pub open spec fn is_ws(c: char) -> bool {
    is_white_space(c)
}

pub open spec fn is_digit(c: char) -> bool {
    '0' <= c && c <= '9'
}

/// First index at or after `i` (and at most `e`) that is not whitespace.
pub open spec fn skip_ws(s: Seq<char>, i: int, e: int) -> int
    decreases e - i,
{
    if i < e && is_ws(s[i]) {
        skip_ws(s, i + 1, e)
    } else {
        i
    }
}

/// End of the field that starts at `i`: the first whitespace index, or `e`.
pub open spec fn field_end(s: Seq<char>, i: int, e: int) -> int
    decreases e - i,
{
    if i < e && !is_ws(s[i]) {
        field_end(s, i + 1, e)
    } else {
        i
    }
}

/// End of the line that starts at `i`: the index of the next newline, or the length.
pub open spec fn line_end(s: Seq<char>, i: int) -> int
    decreases s.len() - i,
{
    if 0 <= i < s.len() && s[i] != '\n' {
        line_end(s, i + 1)
    } else {
        i
    }
}

pub open spec fn digits_value(s: Seq<char>, a: int, b: int) -> nat
    decreases b - a,
{
    if b <= a {
        0
    } else {
        digits_value(s, a, b - 1) * 10 + (s[b - 1] as u32 - 48) as nat
    }
}

/// What `u64`'s `from_str` gives for `s[a..b]`: an optional `+`, then one or
/// more decimal digits whose value fits.
pub open spec fn parse_u64_spec(s: Seq<char>, a: int, b: int) -> Option<u64> {
    let d = if a < b && s[a] == '+' { a + 1 } else { a };
    if d < b && (forall|j: int| d <= j < b ==> is_digit(#[trigger] s[j])) && digits_value(s, d, b)
        <= u64::MAX {
        Some(digits_value(s, d, b) as u64)
    } else {
        None
    }
}

/// Whether the field `s[a..b]` is `name` followed by nothing but colons.
pub open spec fn key_is(s: Seq<char>, a: int, b: int, name: Seq<char>) -> bool {
    &&& b - a >= name.len()
    &&& forall|j: int| 0 <= j < name.len() ==> #[trigger] s[a + j] == name[j]
    &&& forall|j: int| a + name.len() <= j < b ==> #[trigger] s[j] == ':'
}

pub open spec fn kib_to_bytes(v: u64) -> u64 {
    if v * 1024 <= u64::MAX {
        (v * 1024) as u64
    } else {
        u64::MAX
    }
}

/// The value, in bytes, that the line `s[i..e]` gives for `name`, if it names it.
pub open spec fn line_value(s: Seq<char>, i: int, e: int, name: Seq<char>) -> Option<u64> {
    let k0 = skip_ws(s, i, e);
    let k1 = field_end(s, k0, e);
    let v0 = skip_ws(s, k1, e);
    let v1 = field_end(s, v0, e);
    if k0 < k1 && v0 < v1 && key_is(s, k0, k1, name) {
        match parse_u64_spec(s, v0, v1) {
            Some(v) => Some(kib_to_bytes(v)),
            None => Some(0),
        }
    } else {
        None
    }
}

/// The value for `name` over the lines from index `i` on, `acc` being the
/// value found before `i`.
pub open spec fn scan_value(s: Seq<char>, i: int, name: Seq<char>, acc: Option<u64>) -> Option<u64>
    decreases s.len() - i,
{
    if 0 <= i < s.len() {
        let e = line_end(s, i);
        let next = match line_value(s, i, e, name) {
            Some(v) => Some(v),
            None => acc,
        };
        if i <= e < s.len() {
            scan_value(s, e + 1, name, next)
        } else {
            next
        }
    } else {
        acc
    }
}

pub open spec fn meminfo_value(s: Seq<char>, name: Seq<char>) -> u64 {
    match scan_value(s, 0, name, None) {
        Some(v) => v,
        None => 0,
    }
}

pub open spec fn buffers_key() -> Seq<char> {
    seq!['B', 'u', 'f', 'f', 'e', 'r', 's']
}

pub open spec fn cached_key() -> Seq<char> {
    seq!['C', 'a', 'c', 'h', 'e', 'd']
}

pub open spec fn buffers_and_cache_spec(s: Seq<char>) -> u64 {
    let b = meminfo_value(s, buffers_key());
    let c = meminfo_value(s, cached_key());
    if b + c <= u64::MAX {
        (b + c) as u64
    } else {
        u64::MAX
    }
}

fn skip_whitespace(s: &[char], i: usize, e: usize) -> (r: usize)
    requires
        i <= e <= s@.len(),
    ensures
        r as int == skip_ws(s@, i as int, e as int),
        i <= r <= e,
{
    let mut j = i;
    while j < e && white_space(s[j])
        invariant
            i <= j <= e <= s@.len(),
            skip_ws(s@, j as int, e as int) == skip_ws(s@, i as int, e as int),
        decreases e - j,
    {
        j = j + 1;
    }
    j
}

fn end_of_field(s: &[char], i: usize, e: usize) -> (r: usize)
    requires
        i <= e <= s@.len(),
    ensures
        r as int == field_end(s@, i as int, e as int),
        i <= r <= e,
{
    let mut j = i;
    while j < e && !white_space(s[j])
        invariant
            i <= j <= e <= s@.len(),
            field_end(s@, j as int, e as int) == field_end(s@, i as int, e as int),
        decreases e - j,
    {
        j = j + 1;
    }
    j
}

fn end_of_line(s: &[char], i: usize) -> (r: usize)
    requires
        i <= s@.len(),
    ensures
        r as int == line_end(s@, i as int),
        i <= r <= s@.len(),
{
    let mut j = i;
    while j < s.len() && s[j] != '\n'
        invariant
            i <= j <= s@.len(),
            line_end(s@, j as int) == line_end(s@, i as int),
        decreases s@.len() - j,
    {
        j = j + 1;
    }
    j
}

proof fn lemma_digits_value_grows(s: Seq<char>, a: int, b: int)
    requires
        a < b,
    ensures
        digits_value(s, a, b) >= digits_value(s, a, b - 1),
{
}

/// Reads `s[a..b]` as `u64`'s `from_str` would.
pub fn parse_u64_field(s: &[char], a: usize, b: usize) -> (r: Option<u64>)
    requires
        a <= b <= s@.len(),
    ensures
        r == parse_u64_spec(s@, a as int, b as int),
{
    let d: usize = if a < b && s[a] == '+' { a + 1 } else { a };
    if d >= b {
        return None;
    }
    let mut j: usize = d;
    let mut acc: u64 = 0;
    let mut over: bool = false;
    while j < b
        invariant
            d <= j <= b <= s@.len(),
            d as int == (if a < b && s@[a as int] == '+' { a + 1 } else { a as int }),
            forall|k: int| d <= k < j ==> is_digit(#[trigger] s@[k]),
            !over ==> acc as nat == digits_value(s@, d as int, j as int),
            over ==> digits_value(s@, d as int, j as int) > u64::MAX,
        decreases b - j,
    {
        let c = s[j];
        if !('0' <= c && c <= '9') {
            assert(!is_digit(s@[j as int]));
            assert(!(forall|k: int| d <= k < b ==> is_digit(#[trigger] s@[k])));
            return None;
        }
        let dv: u64 = ((c as u32) - 48) as u64;
        proof {
            lemma_digits_value_grows(s@, d as int, j as int + 1);
        }
        if !over {
            if acc > (u64::MAX - dv) / 10 {
                assert(acc * 10 + dv > u64::MAX) by (nonlinear_arith)
                    requires
                        acc > (u64::MAX - dv) / 10,
                        dv <= 9,
                ;
                over = true;
            } else {
                assert(acc * 10 + dv <= u64::MAX) by (nonlinear_arith)
                    requires
                        acc <= (u64::MAX - dv) / 10,
                        dv <= 9,
                ;
                acc = acc * 10 + dv;
            }
        }
        j = j + 1;
    }
    if over {
        None
    } else {
        Some(acc)
    }
}

fn field_is_key(s: &[char], a: usize, b: usize, name: &[char]) -> (r: bool)
    requires
        a <= b <= s@.len(),
    ensures
        r == key_is(s@, a as int, b as int, name@),
{
    if b - a < name.len() {
        return false;
    }
    let mut j: usize = 0;
    while j < name.len()
        invariant
            a <= b <= s@.len(),
            b - a >= name@.len(),
            j <= name@.len(),
            forall|k: int| 0 <= k < j ==> #[trigger] s@[a + k] == name@[k],
        decreases name@.len() - j,
    {
        if s[a + j] != name[j] {
            return false;
        }
        j = j + 1;
    }
    let mut k: usize = a + name.len();
    while k < b
        invariant
            a + name@.len() <= k <= b <= s@.len(),
            forall|m: int| a + name@.len() <= m < k ==> #[trigger] s@[m] == ':',
        decreases b - k,
    {
        if s[k] != ':' {
            return false;
        }
        k = k + 1;
    }
    true
}

fn value_of_line(s: &[char], i: usize, e: usize, name: &[char]) -> (r: Option<u64>)
    requires
        i <= e <= s@.len(),
    ensures
        r == line_value(s@, i as int, e as int, name@),
{
    let k0 = skip_whitespace(s, i, e);
    let k1 = end_of_field(s, k0, e);
    let v0 = skip_whitespace(s, k1, e);
    let v1 = end_of_field(s, v0, e);
    if k0 < k1 && v0 < v1 && field_is_key(s, k0, k1, name) {
        match parse_u64_field(s, v0, v1) {
            Some(v) => {
                if v <= u64::MAX / 1024 {
                    Some(v * 1024)
                } else {
                    Some(u64::MAX)
                }
            },
            None => Some(0),
        }
    } else {
        None
    }
}

/// The value in bytes that the text gives for `name` (zero where no line names it).
pub fn meminfo_field_bytes(s: &[char], name: &[char]) -> (r: u64)
    ensures
        r == meminfo_value(s@, name@),
{
    let mut i: usize = 0;
    let mut acc: Option<u64> = None;
    while i < s.len()
        invariant
            i <= s@.len(),
            scan_value(s@, i as int, name@, acc) == scan_value(s@, 0, name@, None),
        decreases s@.len() - i,
    {
        let e = end_of_line(s, i);
        match value_of_line(s, i, e, name) {
            Some(v) => {
                acc = Some(v);
            },
            None => {},
        }
        if e < s.len() {
            i = e + 1;
        } else {
            i = s.len();
        }
    }
    match acc {
        Some(v) => v,
        None => 0,
    }
}

/// Bytes held in buffers plus bytes in the page cache, from the text of
/// `/proc/meminfo` (the sum saturates; an empty text gives zero).
pub fn get_buffers_and_cache_bytes(content: &str) -> (r: u64)
    ensures
        r == buffers_and_cache_spec(content@),
{
    let n = content.unicode_len();
    let mut text: Vec<char> = Vec::new();
    let mut i: usize = 0;
    while i < n
        invariant
            n == content@.len(),
            i <= n,
            text@ == content@.subrange(0, i as int),
        decreases n - i,
    {
        text.push(content.get_char(i));
        i = i + 1;
        assert(text@ =~= content@.subrange(0, i as int));
    }
    assert(text@ =~= content@);
    let buffers: Vec<char> = vec!['B', 'u', 'f', 'f', 'e', 'r', 's'];
    let cached: Vec<char> = vec!['C', 'a', 'c', 'h', 'e', 'd'];
    assert(buffers@ == buffers_key());
    assert(cached@ == cached_key());
    let b = meminfo_field_bytes(text.as_slice(), buffers.as_slice());
    let c = meminfo_field_bytes(text.as_slice(), cached.as_slice());
    b.saturating_add(c)
}

/// Memory figures as the platform reports them, in bytes.
#[derive(Clone, Copy, Debug, PartialEq, Eq, Structural)]
pub struct MemoryReadings {
    pub total: u64,
    pub used: u64,
    pub available: u64,
    pub swap_total: u64,
    pub swap_free: u64,
}

/// The memory section: the platform's figures, the buffers and page cache
/// read from the text of `/proc/meminfo`, and the swap in use (free swap
/// taken as at most the total).
pub fn get_system_memory_info(r: MemoryReadings, meminfo: &str) -> (m: MemoryStats)
    ensures
        m.total_bytes == r.total,
        m.used_bytes == r.used,
        m.available_bytes == r.available,
        m.buffers_cache_bytes == buffers_and_cache_spec(meminfo@),
        m.swap_total_bytes == r.swap_total,
        m.swap_used_bytes == if r.swap_free <= r.swap_total {
            r.swap_total - r.swap_free
        } else {
            0
        },
        m.swap_used_bytes <= m.swap_total_bytes,
{
    let swap_used = if r.swap_free <= r.swap_total {
        r.swap_total - r.swap_free
    } else {
        0
    };
    MemoryStats {
        total_bytes: r.total,
        used_bytes: r.used,
        available_bytes: r.available,
        buffers_cache_bytes: get_buffers_and_cache_bytes(meminfo),
        swap_total_bytes: r.swap_total,
        swap_used_bytes: swap_used,
    }
}

} // verus!
