//! The time-expression resolver.
//!
//! Turns a flexible time expression — Chinese or English, numeric or
//! spelled out — into a typed [`TimeInput`]. Resolution runs in stages,
//! first match wins: spelled-out numerals are substituted first, then a
//! closed table of idioms, then a daily-recurrence pattern, a relative
//! duration pattern, and an absolute clock-time pattern.
//!
//! Every stage is specified as a function over character sequences, and
//! the executable scanner is proved to return exactly what the
//! specification names, for every input and every clock reading.

use vstd::prelude::*;

use crate::clock::LocalStamp;
use crate::strings::{
    all_digits, chars_to_string, dec_of, dec_pad2, dec_val, digit_val, is_digit,
    lemma_dec_val_prefix, str_to_chars, subrange_chars, u64_to_string,
};
use crate::types::{ClockTime, TimeInput};

verus! {

/// Why a time expression was rejected.
#[derive(Debug, Clone, Copy, PartialEq, Eq, Structural)]
pub enum TimeError {
    /// No stage of the resolver matched the input.
    UnrecognizedFormat,
    /// A number in the input does not fit the supported range.
    InvalidNumber,
    /// An hour or minute component is out of range.
    InvalidClock,
    /// A duration of zero was given.
    NonPositiveDuration,
    /// A duration beyond 365 days was given.
    DurationOverYear,
    /// A duration beyond 24 hours was given where a day is the limit.
    DurationOverDay,
    /// A duration shorter than the minimum lead time was given.
    DurationTooShort,
    /// An absolute instant that is not strictly in the future.
    NotFuture,
    /// An absolute instant beyond the accepted horizon.
    BeyondHorizon,
    /// An absolute instant closer than the minimum lead time.
    TooSoon,
}

/// Whether a character counts as blank between tokens.
pub open spec fn is_space(c: char) -> bool {
    c == ' ' || c == '\t' || c == '\n' || c == '\r'
}

/// The input with leading blanks removed.
pub open spec fn trim_start_spec(s: Seq<char>) -> Seq<char>
    decreases s.len(),
{
    if s.len() > 0 && is_space(s[0]) {
        trim_start_spec(s.drop_first())
    } else {
        s
    }
}

/// The input with trailing blanks removed.
pub open spec fn trim_end_spec(s: Seq<char>) -> Seq<char>
    decreases s.len(),
{
    if s.len() > 0 && is_space(s.last()) {
        trim_end_spec(s.drop_last())
    } else {
        s
    }
}

/// The input with blanks removed on both ends.
pub open spec fn trim_spec(s: Seq<char>) -> Seq<char> {
    trim_end_spec(trim_start_spec(s))
}

/// Number of spelled-out numerals the resolver knows.
pub const NUMERAL_COUNT: usize = 35;

/// The table of spelled-out numerals, longest first, so that a
/// multi-character numeral is tried before any numeral that is its
/// textual prefix. Entry `k` pairs the written form with its value.
pub open spec fn numeral_entry(k: int) -> (Seq<char>, u32) {
    if k == 0 {
        (seq!['二', '十', '一'], 21u32)
    } else if k == 1 {
        (seq!['二', '十', '二'], 22u32)
    } else if k == 2 {
        (seq!['二', '十', '三'], 23u32)
    } else if k == 3 {
        (seq!['二', '十', '四'], 24u32)
    } else if k == 4 {
        (seq!['二', '十', '五'], 25u32)
    } else if k == 5 {
        (seq!['二', '十', '六'], 26u32)
    } else if k == 6 {
        (seq!['二', '十', '七'], 27u32)
    } else if k == 7 {
        (seq!['二', '十', '八'], 28u32)
    } else if k == 8 {
        (seq!['二', '十', '九'], 29u32)
    } else if k == 9 {
        (seq!['十', '一'], 11u32)
    } else if k == 10 {
        (seq!['十', '二'], 12u32)
    } else if k == 11 {
        (seq!['十', '三'], 13u32)
    } else if k == 12 {
        (seq!['十', '四'], 14u32)
    } else if k == 13 {
        (seq!['十', '五'], 15u32)
    } else if k == 14 {
        (seq!['十', '六'], 16u32)
    } else if k == 15 {
        (seq!['十', '七'], 17u32)
    } else if k == 16 {
        (seq!['十', '八'], 18u32)
    } else if k == 17 {
        (seq!['十', '九'], 19u32)
    } else if k == 18 {
        (seq!['二', '十'], 20u32)
    } else if k == 19 {
        (seq!['三', '十'], 30u32)
    } else if k == 20 {
        (seq!['四', '十'], 40u32)
    } else if k == 21 {
        (seq!['五', '十'], 50u32)
    } else if k == 22 {
        (seq!['六', '十'], 60u32)
    } else if k == 23 {
        (seq!['零'], 0u32)
    } else if k == 24 {
        (seq!['一'], 1u32)
    } else if k == 25 {
        (seq!['二'], 2u32)
    } else if k == 26 {
        (seq!['两'], 2u32)
    } else if k == 27 {
        (seq!['三'], 3u32)
    } else if k == 28 {
        (seq!['四'], 4u32)
    } else if k == 29 {
        (seq!['五'], 5u32)
    } else if k == 30 {
        (seq!['六'], 6u32)
    } else if k == 31 {
        (seq!['七'], 7u32)
    } else if k == 32 {
        (seq!['八'], 8u32)
    } else if k == 33 {
        (seq!['九'], 9u32)
    } else {
        (seq!['十'], 10u32)
    }
}

/// Whether the pattern occurs in `s` at position `i`.
pub open spec fn pattern_at(s: Seq<char>, i: int, pat: Seq<char>) -> bool {
    i + pat.len() <= s.len() && s.subrange(i, i + pat.len() as int) == pat
}

/// First numeral of the table, from entry `k` on, that occurs at
/// position `i`; yields its written length and value.
pub open spec fn numeral_match_from(s: Seq<char>, i: int, k: int) -> Option<(nat, u32)>
    decreases NUMERAL_COUNT as int - k,
{
    if k < 0 || k >= NUMERAL_COUNT as int {
        None
    } else if pattern_at(s, i, numeral_entry(k).0) {
        Some((numeral_entry(k).0.len(), numeral_entry(k).1))
    } else {
        numeral_match_from(s, i, k + 1)
    }
}

/// First numeral of the table that occurs at position `i`.
pub open spec fn numeral_match_at(s: Seq<char>, i: int) -> Option<(nat, u32)> {
    numeral_match_from(s, i, 0)
}

/// The numeral-substituted text from position `i` on: at each position
/// the longest spelled-out numeral is replaced by its decimal digits.
pub open spec fn preprocess_from(s: Seq<char>, i: int) -> Seq<char>
    decreases s.len() - i,
{
    if i < 0 || i >= s.len() {
        Seq::empty()
    } else {
        match numeral_match_at(s, i) {
            Some((len, value)) => {
                let step = if len < 1 {
                    1int
                } else {
                    len as int
                };
                let next = if i + step <= s.len() {
                    i + step
                } else {
                    s.len() as int
                };
                dec_of(value as int) + preprocess_from(s, next)
            },
            None => seq![s[i]] + preprocess_from(s, i + 1),
        }
    }
}

/// The numeral-substituted form of the whole text.
pub open spec fn preprocess_spec(s: Seq<char>) -> Seq<char> {
    preprocess_from(s, 0)
}

/// The resolver. It holds the numeral lookup table; all other tables are
/// fixed in code.
#[derive(Debug, Clone)]
pub struct TimeParser {
    /// Spelled-out numerals and their values, longest first.
    pub chinese_numbers: Vec<(String, u32)>,
}

impl TimeParser {
    /// The table matches the specification entry for entry.
    pub open spec fn wf(self) -> bool {
        &&& self.chinese_numbers@.len() == NUMERAL_COUNT
        &&& forall|k: int|
            0 <= k < NUMERAL_COUNT ==> (
            (#[trigger] self.chinese_numbers@[k]).0@,
            self.chinese_numbers@[k].1,
        ) == numeral_entry(k)
    }

    /// Builds a resolver with its numeral table.
    pub fn new() -> (r: Self)
        ensures
            r.wf(),
    {
        TimeParser { chinese_numbers: Self::init_chinese_numbers() }
    }

    /// Builds the numeral table, longest entries first.
    pub fn init_chinese_numbers() -> (r: Vec<(String, u32)>)
        ensures
            r@.len() == NUMERAL_COUNT,
            forall|k: int|
                0 <= k < NUMERAL_COUNT ==> ((#[trigger] r@[k]).0@, r@[k].1) == numeral_entry(k),
    {
        let mut table: Vec<(String, u32)> = Vec::new();
        proof {
            reveal_strlit("二十一");
            reveal_strlit("二十二");
            reveal_strlit("二十三");
            reveal_strlit("二十四");
            reveal_strlit("二十五");
            reveal_strlit("二十六");
            reveal_strlit("二十七");
            reveal_strlit("二十八");
            reveal_strlit("二十九");
            reveal_strlit("十一");
            reveal_strlit("十二");
            reveal_strlit("十三");
            reveal_strlit("十四");
            reveal_strlit("十五");
            reveal_strlit("十六");
            reveal_strlit("十七");
            reveal_strlit("十八");
            reveal_strlit("十九");
            reveal_strlit("二十");
            reveal_strlit("三十");
            reveal_strlit("四十");
            reveal_strlit("五十");
            reveal_strlit("六十");
            reveal_strlit("零");
            reveal_strlit("一");
            reveal_strlit("二");
            reveal_strlit("两");
            reveal_strlit("三");
            reveal_strlit("四");
            reveal_strlit("五");
            reveal_strlit("六");
            reveal_strlit("七");
            reveal_strlit("八");
            reveal_strlit("九");
            reveal_strlit("十");
        }
        push_numeral(&mut table, "二十一", 21);
        push_numeral(&mut table, "二十二", 22);
        push_numeral(&mut table, "二十三", 23);
        push_numeral(&mut table, "二十四", 24);
        push_numeral(&mut table, "二十五", 25);
        push_numeral(&mut table, "二十六", 26);
        push_numeral(&mut table, "二十七", 27);
        push_numeral(&mut table, "二十八", 28);
        push_numeral(&mut table, "二十九", 29);
        push_numeral(&mut table, "十一", 11);
        push_numeral(&mut table, "十二", 12);
        push_numeral(&mut table, "十三", 13);
        push_numeral(&mut table, "十四", 14);
        push_numeral(&mut table, "十五", 15);
        push_numeral(&mut table, "十六", 16);
        push_numeral(&mut table, "十七", 17);
        push_numeral(&mut table, "十八", 18);
        push_numeral(&mut table, "十九", 19);
        push_numeral(&mut table, "二十", 20);
        push_numeral(&mut table, "三十", 30);
        push_numeral(&mut table, "四十", 40);
        push_numeral(&mut table, "五十", 50);
        push_numeral(&mut table, "六十", 60);
        push_numeral(&mut table, "零", 0);
        push_numeral(&mut table, "一", 1);
        push_numeral(&mut table, "二", 2);
        push_numeral(&mut table, "两", 2);
        push_numeral(&mut table, "三", 3);
        push_numeral(&mut table, "四", 4);
        push_numeral(&mut table, "五", 5);
        push_numeral(&mut table, "六", 6);
        push_numeral(&mut table, "七", 7);
        push_numeral(&mut table, "八", 8);
        push_numeral(&mut table, "九", 9);
        push_numeral(&mut table, "十", 10);
        table
    }

    /// Substitutes every spelled-out numeral by its decimal digits,
    /// longest match first at each position.
    pub fn preprocess_chinese_numbers(&self, input: &str) -> (r: String)
        requires
            self.wf(),
        ensures
            r@ == preprocess_spec(input@),
    {
        let chars = str_to_chars(input);
        let out = self.preprocess_chars(&chars);
        chars_to_string(&out)
    }

    /// Numeral substitution over a character vector.
    fn preprocess_chars(&self, chars: &Vec<char>) -> (r: Vec<char>)
        requires
            self.wf(),
        ensures
            r@ == preprocess_spec(chars@),
    {
        let ghost s = chars@;
        let mut out: Vec<char> = Vec::new();
        let mut i: usize = 0;
        while i < chars.len()
            invariant
                self.wf(),
                chars@ == s,
                i <= s.len(),
                out@ + preprocess_from(s, i as int) == preprocess_spec(s),
            decreases s.len() - i,
        {
            match self.numeral_lookup(chars, i) {
                Some((len, value)) => {
                    crate::strings::push_decimal(&mut out, value as u64);
                    let step = if len < 1 {
                        1
                    } else {
                        len
                    };
                    proof {
                        assert(out@ + preprocess_from(s, i as int + step as int)
                            == preprocess_spec(s));
                    }
                    i = i + step;
                },
                None => {
                    out.push(chars[i]);
                    proof {
                        assert(seq![s[i as int]] + preprocess_from(s, i as int + 1)
                            == preprocess_from(s, i as int));
                        assert(out@ + preprocess_from(s, i as int + 1) == preprocess_spec(s));
                    }
                    i = i + 1;
                },
            }
        }
        proof {
            assert(preprocess_from(s, i as int) =~= Seq::<char>::empty());
            assert(out@ =~= preprocess_spec(s));
        }
        out
    }

    /// Looks up the first table numeral occurring at position `i`.
    fn numeral_lookup(&self, s: &Vec<char>, i: usize) -> (r: Option<(usize, u32)>)
        requires
            self.wf(),
            i < s@.len(),
        ensures
            match r {
                Some((len, value)) => {
                    &&& numeral_match_at(s@, i as int) == Some((len as nat, value))
                    &&& 1 <= len
                    &&& i + len <= s@.len()
                },
                None => numeral_match_at(s@, i as int) is None,
            },
    {
        let mut k: usize = 0;
        while k < self.chinese_numbers.len()
            invariant
                self.wf(),
                i < s@.len(),
                k <= NUMERAL_COUNT,
                numeral_match_at(s@, i as int) == numeral_match_from(s@, i as int, k as int),
            decreases NUMERAL_COUNT - k,
        {
            let entry = &self.chinese_numbers[k];
            if pattern_match(s, i, entry.0.as_str()) {
                let len = entry.0.unicode_len();
                return Some((len, entry.1));
            }
            k = k + 1;
        }
        None
    }
}

/// Pushes one numeral entry; the written form and value must be the
/// table entry at the current length.
fn push_numeral(table: &mut Vec<(String, u32)>, pattern: &str, value: u32)
    requires
        old(table)@.len() < NUMERAL_COUNT,
        pattern@ =~= numeral_entry(old(table)@.len() as int).0,
        value == numeral_entry(old(table)@.len() as int).1,
        forall|k: int|
            0 <= k < old(table)@.len() ==> ((#[trigger] old(table)@[k]).0@, old(table)@[k].1)
                == numeral_entry(k),
    ensures
        final(table)@.len() == old(table)@.len() + 1,
        forall|k: int|
            0 <= k < final(table)@.len() ==> ((#[trigger] final(table)@[k]).0@,
            final(table)@[k].1) == numeral_entry(k),
{
    let text = pattern.to_owned();
    table.push((text, value));
}

/// Whether the pattern string occurs in `s` at position `i`.
pub(crate) fn pattern_match(s: &Vec<char>, i: usize, pattern: &str) -> (r: bool)
    ensures
        r == pattern_at(s@, i as int, pattern@),
{
    let pat = pattern;
    let n = pat.unicode_len();
    let slen = s.len();
    if n > slen || i > slen - n {
        return false;
    }
    let mut j: usize = 0;
    while j < n
        invariant
            pat@ == pattern@,
            n == pat@.len(),
            slen == s@.len(),
            i + n <= slen,
            j <= n,
            forall|m: int| 0 <= m < j ==> s@[i + m] == pat@[m],
        decreases n - j,
    {
        if s[i + j] != pat.get_char(j) {
            proof {
                let sub = s@.subrange(i as int, i as int + pattern@.len() as int);
                assert(sub[j as int] == s@[i + j]);
                assert(sub != pattern@);
                assert(!pattern_at(s@, i as int, pattern@));
            }
            return false;
        }
        j = j + 1;
    }
    proof {
        assert(s@.subrange(i as int, i as int + n as int) =~= pat@);
    }
    true
}

/// First position at or after `i` holding a non-blank character.
pub open spec fn skip_spaces(s: Seq<char>, i: int) -> int
    decreases s.len() - i,
{
    if 0 <= i < s.len() && is_space(s[i]) {
        skip_spaces(s, i + 1)
    } else {
        i
    }
}

/// First position at or after `i` holding a non-digit character.
pub open spec fn digit_run_end(s: Seq<char>, i: int) -> int
    decreases s.len() - i,
{
    if 0 <= i < s.len() && is_digit(s[i]) {
        digit_run_end(s, i + 1)
    } else {
        i
    }
}

/// A digit run ends exactly where the digits stop.
pub proof fn lemma_digit_run_stops(s: Seq<char>, i: int, e: int)
    requires
        0 <= i <= e <= s.len(),
        forall|j: int| i <= j < e ==> is_digit(#[trigger] s[j]),
        e < s.len() ==> !is_digit(s[e]),
    ensures
        digit_run_end(s, i) == e,
    decreases e - i,
{
    if i < e {
        lemma_digit_run_stops(s, i + 1, e);
    }
}

/// First position at or after `i` holding a digit, or the length when
/// there is none.
pub open spec fn first_digit(s: Seq<char>, i: int) -> int
    decreases s.len() - i,
{
    if 0 <= i < s.len() && !is_digit(s[i]) {
        first_digit(s, i + 1)
    } else {
        i
    }
}

/// Start of the run of blanks that ends right before position `k`.
pub open spec fn space_run_start(s: Seq<char>, k: int) -> int
    decreases k,
{
    if 0 < k <= s.len() && is_space(s[k - 1]) {
        space_run_start(s, k - 1)
    } else {
        k
    }
}

/// The fixed idiom table: a closed set of whole phrases, each mapped to
/// a time input. Phrases are matched after numeral substitution, so the
/// numeric variants cover their spelled-out forms as well.
pub open spec fn natural_spec(p: Seq<char>, now: LocalStamp) -> Option<TimeInput> {
    if p == seq!['半', '小', '时', '后'] {
        Some(TimeInput::Duration(1800))
    } else if p == seq!['1', '小', '时', '后'] {
        Some(TimeInput::Duration(3600))
    } else if p == seq!['2', '小', '时', '后'] {
        Some(TimeInput::Duration(7200))
    } else if p == seq!['3', '小', '时', '后'] {
        Some(TimeInput::Duration(10800))
    } else if p == seq!['明', '天'] {
        Some(TimeInput::AbsoluteTime((now.spec_midnight_secs() + 86400 + 9 * 3600) as i64))
    } else if p == seq!['后', '天'] {
        Some(TimeInput::AbsoluteTime((now.spec_midnight_secs() + 2 * 86400 + 9 * 3600) as i64))
    } else if p == seq!['今', '晚'] {
        Some(TimeInput::AbsoluteTime(now.spec_upcoming(20 * 3600int) as i64))
    } else if p == seq!['明', '早'] || p == seq!['明', '天', '早', '上'] {
        Some(TimeInput::AbsoluteTime((now.spec_midnight_secs() + 86400 + 7 * 3600) as i64))
    } else if p == seq!['明', '天', '晚', '上'] {
        Some(TimeInput::AbsoluteTime((now.spec_midnight_secs() + 86400 + 20 * 3600) as i64))
    } else if p == seq!['中', '午'] {
        Some(TimeInput::AbsoluteTime(now.spec_upcoming(12 * 3600int) as i64))
    } else if p == seq!['下', '午'] {
        Some(TimeInput::AbsoluteTime(now.spec_upcoming(14 * 3600int) as i64))
    } else if p == seq!['晚', '上'] {
        Some(TimeInput::AbsoluteTime(now.spec_upcoming(20 * 3600int) as i64))
    } else if p == seq!['深', '夜'] {
        Some(TimeInput::AbsoluteTime(now.spec_upcoming(23 * 3600int) as i64))
    } else if p == seq!['凌', '晨'] {
        Some(TimeInput::AbsoluteTime((now.spec_midnight_secs() + 86400 + 2 * 3600) as i64))
    } else {
        None
    }
}

/// Whether a daily-recurrence keyword occurs at position `i`.
pub open spec fn daily_keyword_at(s: Seq<char>, i: int) -> bool {
    pattern_at(s, i, seq!['每', '天']) || pattern_at(s, i, seq!['每', '日'])
}

/// Hour digits at position `j`: one or two digits, read greedily.
/// Yields the value and the position after the digits.
pub open spec fn hour_at(s: Seq<char>, j: int) -> (int, int) {
    if j + 1 < s.len() && is_digit(s[j + 1]) {
        (digit_val(s[j]) * 10 + digit_val(s[j + 1]), j + 2)
    } else {
        (digit_val(s[j]), j + 1)
    }
}

/// Position after an optional colon separator at `i`.
pub open spec fn after_separator(s: Seq<char>, i: int) -> int {
    if i < s.len() && (s[i] == ':' || s[i] == '：') {
        i + 1
    } else {
        i
    }
}

/// Minute value at position `k`: exactly two digits, else zero.
pub open spec fn minute_at(s: Seq<char>, k: int) -> int {
    if k + 1 < s.len() && is_digit(s[k]) && is_digit(s[k + 1]) {
        digit_val(s[k]) * 10 + digit_val(s[k + 1])
    } else {
        0
    }
}

/// A daily-recurrence phrase at position `i`: the keyword, optional
/// blanks, an hour, an optional separator and optional minutes.
pub open spec fn daily_at(s: Seq<char>, i: int) -> Option<(int, int)> {
    if daily_keyword_at(s, i) {
        let j = skip_spaces(s, i + 2);
        if j < s.len() && is_digit(s[j]) {
            let (h, hend) = hour_at(s, j);
            let m = minute_at(s, after_separator(s, hend));
            Some((h, m))
        } else {
            None
        }
    } else {
        None
    }
}

/// Leftmost daily-recurrence phrase at or after position `i`.
pub open spec fn daily_find(s: Seq<char>, i: int) -> Option<(int, int)>
    decreases s.len() - i,
{
    if i < 0 || i >= s.len() {
        None
    } else if daily_at(s, i) is Some {
        daily_at(s, i)
    } else {
        daily_find(s, i + 1)
    }
}

/// A duration unit at position `i`: written length and seconds factor.
/// Alternatives are tried in a fixed order; a single Latin letter wins
/// over the longer English words, which therefore never surface.
pub open spec fn unit_at(s: Seq<char>, i: int) -> Option<(int, int)> {
    if 0 <= i < s.len() {
        if s[i] == '秒' {
            if i + 1 < s.len() && s[i + 1] == '钟' {
                Some((2, 1))
            } else {
                Some((1, 1))
            }
        } else if s[i] == '分' {
            if i + 1 < s.len() && s[i + 1] == '钟' {
                Some((2, 60))
            } else {
                Some((1, 60))
            }
        } else if s[i] == '小' {
            if i + 1 < s.len() && s[i + 1] == '时' {
                Some((2, 3600))
            } else {
                None
            }
        } else if s[i] == '时' {
            Some((1, 3600))
        } else if s[i] == 's' || s[i] == 'S' {
            Some((1, 1))
        } else if s[i] == 'm' || s[i] == 'M' {
            Some((1, 60))
        } else if s[i] == 'h' || s[i] == 'H' {
            Some((1, 3600))
        } else {
            None
        }
    } else {
        None
    }
}

/// A relative-duration phrase whose digits start at position `i`: a
/// maximal digit run, optional blanks, then a unit. Yields the end of
/// the digits and the unit's seconds factor.
pub open spec fn duration_at(s: Seq<char>, i: int) -> Option<(int, int)> {
    if 0 <= i < s.len() && is_digit(s[i]) && (i == 0 || !is_digit(s[i - 1])) {
        let dend = digit_run_end(s, i);
        match unit_at(s, skip_spaces(s, dend)) {
            Some((_len, factor)) => Some((dend, factor)),
            None => None,
        }
    } else {
        None
    }
}

/// Leftmost relative-duration phrase at or after position `i`: start of
/// the digits, end of the digits and the unit factor.
pub open spec fn duration_find(s: Seq<char>, i: int) -> Option<(int, int, int)>
    decreases s.len() - i,
{
    if i < 0 || i >= s.len() {
        None
    } else {
        match duration_at(s, i) {
            Some((dend, factor)) => Some((i, dend, factor)),
            None => duration_find(s, i + 1),
        }
    }
}

/// The anchor hour of a day-segment descriptor at position `i`.
pub open spec fn descriptor_base_at(s: Seq<char>, i: int) -> Option<int> {
    if pattern_at(s, i, seq!['早', '上']) {
        Some(8)
    } else if pattern_at(s, i, seq!['上', '午']) {
        Some(10)
    } else if pattern_at(s, i, seq!['中', '午']) {
        Some(12)
    } else if pattern_at(s, i, seq!['下', '午']) {
        Some(14)
    } else if pattern_at(s, i, seq!['傍', '晚']) {
        Some(18)
    } else if pattern_at(s, i, seq!['晚', '上']) {
        Some(20)
    } else if pattern_at(s, i, seq!['深', '夜']) {
        Some(23)
    } else {
        None
    }
}

/// The absolute-clock reading of the text: the first digits become the
/// hour and optional minutes, and a day-segment descriptor immediately
/// before them (blanks allowed) supplies an anchor hour.
pub open spec fn absolute_at(s: Seq<char>) -> Option<(Option<int>, int, int)> {
    let k = first_digit(s, 0);
    if k < s.len() {
        let j = space_run_start(s, k);
        let desc = if j >= 2 {
            descriptor_base_at(s, j - 2)
        } else {
            None
        };
        let (h, hend) = hour_at(s, k);
        let m = minute_at(s, after_separator(s, hend));
        Some((desc, h, m))
    } else {
        None
    }
}

/// The hour after day-segment disambiguation: an hour up to twelve is
/// shifted by the segment's anchor, clamped to the last hour of the day.
pub open spec fn adjusted_hour(desc: Option<int>, h: int) -> int {
    match desc {
        Some(base) => if h <= 12 {
            if base + h - 8 > 23 {
                23int
            } else {
                base + h - 8
            }
        } else {
            h
        },
        None => h,
    }
}

/// Outcome of the daily-recurrence stage once a phrase was found.
pub open spec fn daily_outcome(h: int, m: int) -> Result<TimeInput, TimeError> {
    if h >= 24 || m >= 60 {
        Err(TimeError::InvalidClock)
    } else {
        Ok(TimeInput::DailyTime(ClockTime { hour: h as u8, minute: m as u8, second: 0u8 }))
    }
}

/// Outcome of the relative-duration stage once a phrase was found.
pub open spec fn duration_outcome(s: Seq<char>, start: int, dend: int, factor: int) -> Result<
    TimeInput,
    TimeError,
> {
    let amount = dec_val(s.subrange(start, dend));
    if amount > i64::MAX {
        Err(TimeError::InvalidNumber)
    } else if amount == 0 {
        Err(TimeError::NonPositiveDuration)
    } else if amount * factor >= 31622400 {
        Err(TimeError::DurationOverYear)
    } else {
        Ok(TimeInput::Duration((amount * factor) as i64))
    }
}

/// Outcome of the absolute-clock stage once digits were found.
pub open spec fn absolute_outcome(desc: Option<int>, h: int, m: int, now: LocalStamp) -> Result<
    TimeInput,
    TimeError,
> {
    let h2 = adjusted_hour(desc, h);
    if h2 >= 24 || m >= 60 {
        Err(TimeError::InvalidClock)
    } else {
        Ok(TimeInput::AbsoluteTime(now.spec_upcoming(h2 * 3600 + m * 60) as i64))
    }
}

/// What the resolver returns for an input and a clock reading: the text
/// is trimmed, numerals are substituted, and the stages are tried in
/// order — idioms, daily recurrence, relative duration, absolute clock.
pub open spec fn resolve_spec(raw: Seq<char>, now: LocalStamp) -> Result<TimeInput, TimeError> {
    let p = preprocess_spec(trim_spec(raw));
    match natural_spec(p, now) {
        Some(t) => Ok(t),
        None => match daily_find(p, 0) {
            Some((h, m)) => daily_outcome(h, m),
            None => match duration_find(p, 0) {
                Some((start, dend, factor)) => duration_outcome(p, start, dend, factor),
                None => match absolute_at(p) {
                    Some((desc, h, m)) => absolute_outcome(desc, h, m, now),
                    None => Err(TimeError::UnrecognizedFormat),
                },
            },
        },
    }
}

/// Removing leading blanks keeps the suffix that starts at the first
/// non-blank position.
proof fn lemma_trim_start(s: Seq<char>, lo: int)
    requires
        0 <= lo <= s.len(),
        forall|j: int| 0 <= j < lo ==> is_space(#[trigger] s[j]),
        lo < s.len() ==> !is_space(s[lo]),
    ensures
        trim_start_spec(s) == s.subrange(lo, s.len() as int),
    decreases lo,
{
    if lo == 0 {
        assert(s.subrange(0, s.len() as int) =~= s);
    } else {
        let t = s.drop_first();
        lemma_trim_start(t, lo - 1);
        assert(t.subrange(lo - 1, t.len() as int) =~= s.subrange(lo, s.len() as int));
    }
}

/// Removing trailing blanks keeps the prefix that ends after the last
/// non-blank position.
proof fn lemma_trim_end(s: Seq<char>, hi: int)
    requires
        0 <= hi <= s.len(),
        forall|j: int| hi <= j < s.len() ==> is_space(#[trigger] s[j]),
        hi > 0 ==> !is_space(s[hi - 1]),
    ensures
        trim_end_spec(s) == s.subrange(0, hi),
    decreases s.len() - hi,
{
    if hi == s.len() {
        assert(s.subrange(0, hi) =~= s);
    } else {
        let t = s.drop_last();
        lemma_trim_end(t, hi);
        assert(t.subrange(0, hi) =~= s.subrange(0, hi));
    }
}

/// Whether a character counts as blank, as executable code.
fn is_space_exec(c: char) -> (r: bool)
    ensures
        r == is_space(c),
{
    c == ' ' || c == '\t' || c == '\n' || c == '\r'
}

/// Whether a character is an ASCII digit, as executable code.
pub(crate) fn is_digit_exec(c: char) -> (r: bool)
    ensures
        r == is_digit(c),
{
    let u = c as u32;
    48 <= u && u <= 57
}

/// The numeric value of an ASCII digit, as executable code.
pub(crate) fn digit_value(c: char) -> (r: u32)
    requires
        is_digit(c),
    ensures
        r as int == digit_val(c),
        r <= 9,
{
    c as u32 - 48
}

/// Removes blanks on both ends of a character vector.
fn trim_chars(v: &Vec<char>) -> (r: Vec<char>)
    ensures
        r@ == trim_spec(v@),
{
    let len = v.len();
    let mut lo: usize = 0;
    while lo < len && is_space_exec(v[lo])
        invariant
            len == v@.len(),
            lo <= len,
            forall|j: int| 0 <= j < lo ==> is_space(#[trigger] v@[j]),
        decreases len - lo,
    {
        lo = lo + 1;
    }
    let mut hi: usize = len;
    while hi > lo && is_space_exec(v[hi - 1])
        invariant
            len == v@.len(),
            lo <= hi <= len,
            forall|j: int| hi <= j < len ==> is_space(#[trigger] v@[j]),
        decreases hi,
    {
        hi = hi - 1;
    }
    proof {
        lemma_trim_start(v@, lo as int);
        let t = v@.subrange(lo as int, len as int);
        lemma_trim_end(t, hi as int - lo as int);
        assert(t.subrange(0, hi as int - lo as int) =~= v@.subrange(lo as int, hi as int));
    }
    subrange_chars(v, lo, hi)
}

/// Whether the vector holds exactly the two given characters.
fn chars_is2(p: &Vec<char>, c0: char, c1: char) -> (r: bool)
    ensures
        r == (p@ == seq![c0, c1]),
{
    if p.len() == 2 && p[0] == c0 && p[1] == c1 {
        proof {
            assert(p@ =~= seq![c0, c1]);
        }
        true
    } else {
        proof {
            if p@ == seq![c0, c1] {
                assert(p@.len() == 2 && p@[0] == c0 && p@[1] == c1);
            }
        }
        false
    }
}

/// Whether the vector holds exactly the four given characters.
fn chars_is4(p: &Vec<char>, c0: char, c1: char, c2: char, c3: char) -> (r: bool)
    ensures
        r == (p@ == seq![c0, c1, c2, c3]),
{
    if p.len() == 4 && p[0] == c0 && p[1] == c1 && p[2] == c2 && p[3] == c3 {
        proof {
            assert(p@ =~= seq![c0, c1, c2, c3]);
        }
        true
    } else {
        proof {
            if p@ == seq![c0, c1, c2, c3] {
                assert(p@.len() == 4 && p@[0] == c0 && p@[1] == c1 && p@[2] == c2 && p@[3]
                    == c3);
            }
        }
        false
    }
}

/// Whether the two given characters occur at position `i`.
fn pat2(s: &Vec<char>, i: usize, c0: char, c1: char) -> (r: bool)
    ensures
        r == pattern_at(s@, i as int, seq![c0, c1]),
{
    let slen = s.len();
    if slen < 2 || i > slen - 2 {
        proof {
            assert(seq![c0, c1].len() == 2);
        }
        return false;
    }
    if s[i] == c0 && s[i + 1] == c1 {
        proof {
            assert(s@.subrange(i as int, i as int + 2) =~= seq![c0, c1]);
        }
        true
    } else {
        proof {
            let sub = s@.subrange(i as int, i as int + 2);
            assert(sub[0] == s@[i as int] && sub[1] == s@[i as int + 1]);
            if sub == seq![c0, c1] {
                assert(sub[0] == c0 && sub[1] == c1);
            }
        }
        false
    }
}

/// First non-blank position at or after `i`, as executable code.
fn skip_spaces_exec(s: &Vec<char>, i: usize) -> (r: usize)
    requires
        i <= s@.len(),
    ensures
        r as int == skip_spaces(s@, i as int),
        i <= r <= s@.len(),
{
    let len = s.len();
    let mut r: usize = i;
    while r < len && is_space_exec(s[r])
        invariant
            len == s@.len(),
            i <= r <= len,
            skip_spaces(s@, i as int) == skip_spaces(s@, r as int),
        decreases len - r,
    {
        r = r + 1;
    }
    r
}

/// End of the digit run starting at `i`, as executable code.
pub(crate) fn digit_run_end_exec(s: &Vec<char>, i: usize) -> (r: usize)
    requires
        i <= s@.len(),
    ensures
        r as int == digit_run_end(s@, i as int),
        i <= r <= s@.len(),
        forall|j: int| i <= j < r ==> is_digit(#[trigger] s@[j]),
{
    let len = s.len();
    let mut r: usize = i;
    while r < len && is_digit_exec(s[r])
        invariant
            len == s@.len(),
            i <= r <= len,
            digit_run_end(s@, i as int) == digit_run_end(s@, r as int),
            forall|j: int| i <= j < r ==> is_digit(#[trigger] s@[j]),
        decreases len - r,
    {
        r = r + 1;
    }
    r
}

/// First digit position at or after `i`, as executable code.
fn first_digit_exec(s: &Vec<char>, i: usize) -> (r: usize)
    requires
        i <= s@.len(),
    ensures
        r as int == first_digit(s@, i as int),
        i <= r <= s@.len(),
        r < s@.len() ==> is_digit(s@[r as int]),
{
    let len = s.len();
    let mut r: usize = i;
    while r < len && !is_digit_exec(s[r])
        invariant
            len == s@.len(),
            i <= r <= len,
            first_digit(s@, i as int) == first_digit(s@, r as int),
        decreases len - r,
    {
        r = r + 1;
    }
    r
}

/// Start of the blank run ending right before `k`, as executable code.
fn space_run_start_exec(s: &Vec<char>, k: usize) -> (r: usize)
    requires
        k <= s@.len(),
    ensures
        r as int == space_run_start(s@, k as int),
        r <= k,
{
    let mut r: usize = k;
    while r > 0 && is_space_exec(s[r - 1])
        invariant
            k <= s@.len(),
            r <= k,
            space_run_start(s@, k as int) == space_run_start(s@, r as int),
        decreases r,
    {
        r = r - 1;
    }
    r
}

/// Matches the fixed idiom table against the whole text.
fn natural_exec(p: &Vec<char>, now: &LocalStamp) -> (r: Option<TimeInput>)
    requires
        now.wf(),
    ensures
        r == natural_spec(p@, *now),
{
    if chars_is4(p, '半', '小', '时', '后') {
        Some(TimeInput::Duration(1800))
    } else if chars_is4(p, '1', '小', '时', '后') {
        Some(TimeInput::Duration(3600))
    } else if chars_is4(p, '2', '小', '时', '后') {
        Some(TimeInput::Duration(7200))
    } else if chars_is4(p, '3', '小', '时', '后') {
        Some(TimeInput::Duration(10800))
    } else if chars_is2(p, '明', '天') {
        Some(TimeInput::AbsoluteTime(now.midnight_secs() + 86400 + 9 * 3600))
    } else if chars_is2(p, '后', '天') {
        Some(TimeInput::AbsoluteTime(now.midnight_secs() + 2 * 86400 + 9 * 3600))
    } else if chars_is2(p, '今', '晚') {
        Some(TimeInput::AbsoluteTime(now.upcoming(20 * 3600)))
    } else if chars_is2(p, '明', '早') || chars_is4(p, '明', '天', '早', '上') {
        Some(TimeInput::AbsoluteTime(now.midnight_secs() + 86400 + 7 * 3600))
    } else if chars_is4(p, '明', '天', '晚', '上') {
        Some(TimeInput::AbsoluteTime(now.midnight_secs() + 86400 + 20 * 3600))
    } else if chars_is2(p, '中', '午') {
        Some(TimeInput::AbsoluteTime(now.upcoming(12 * 3600)))
    } else if chars_is2(p, '下', '午') {
        Some(TimeInput::AbsoluteTime(now.upcoming(14 * 3600)))
    } else if chars_is2(p, '晚', '上') {
        Some(TimeInput::AbsoluteTime(now.upcoming(20 * 3600)))
    } else if chars_is2(p, '深', '夜') {
        Some(TimeInput::AbsoluteTime(now.upcoming(23 * 3600)))
    } else if chars_is2(p, '凌', '晨') {
        Some(TimeInput::AbsoluteTime(now.midnight_secs() + 86400 + 2 * 3600))
    } else {
        None
    }
}

/// Reads the hour digits at `j` and the optional separator and minutes
/// after them.
fn hour_minute_exec(p: &Vec<char>, j: usize) -> (r: (u32, u32))
    requires
        j < p@.len(),
        is_digit(p@[j as int]),
    ensures
        r.0 as int == hour_at(p@, j as int).0,
        r.1 as int == minute_at(p@, after_separator(p@, hour_at(p@, j as int).1)),
        r.0 < 100,
        r.1 < 100,
{
    let len = p.len();
    let (h, hend): (u32, usize) = if j + 1 < len && is_digit_exec(p[j + 1]) {
        (digit_value(p[j]) * 10 + digit_value(p[j + 1]), j + 2)
    } else {
        (digit_value(p[j]), j + 1)
    };
    let k: usize = if hend < len && (p[hend] == ':' || p[hend] == '：') {
        hend + 1
    } else {
        hend
    };
    let m: u32 = if k < len && k + 1 < len && is_digit_exec(p[k]) && is_digit_exec(p[k + 1]) {
        digit_value(p[k]) * 10 + digit_value(p[k + 1])
    } else {
        0
    };
    (h, m)
}

/// The daily-recurrence phrase at position `i`, as executable code.
fn daily_at_exec(p: &Vec<char>, i: usize) -> (r: Option<(u32, u32)>)
    requires
        i < p@.len(),
    ensures
        match r {
            Some((h, m)) => daily_at(p@, i as int) == Some((h as int, m as int)),
            None => daily_at(p@, i as int) is None,
        },
{
    let plen = p.len();
    if pat2(p, i, '每', '天') || pat2(p, i, '每', '日') {
        proof {
            assert(i as int + 2 <= plen as int);
        }
        let j = skip_spaces_exec(p, i + 2);
        if j < plen && is_digit_exec(p[j]) {
            let (h, m) = hour_minute_exec(p, j);
            Some((h, m))
        } else {
            None
        }
    } else {
        None
    }
}

/// Leftmost daily-recurrence phrase, as executable code.
fn daily_scan(p: &Vec<char>) -> (r: Option<(u32, u32)>)
    ensures
        match r {
            Some((h, m)) => daily_find(p@, 0) == Some((h as int, m as int)),
            None => daily_find(p@, 0) is None,
        },
{
    let len = p.len();
    let mut i: usize = 0;
    while i < len
        invariant
            len == p@.len(),
            i <= len,
            daily_find(p@, 0) == daily_find(p@, i as int),
        decreases len - i,
    {
        match daily_at_exec(p, i) {
            Some((h, m)) => {
                return Some((h, m));
            },
            None => {
                i = i + 1;
            },
        }
    }
    None
}

/// The duration unit at position `i`, as executable code. A found unit
/// is one, two or three thousand six hundred seconds.
fn unit_at_exec(p: &Vec<char>, i: usize) -> (r: Option<(usize, u32)>)
    requires
        i <= p@.len(),
    ensures
        match r {
            Some((len, factor)) => {
                &&& unit_at(p@, i as int) == Some((len as int, factor as int))
                &&& (factor == 1 || factor == 60 || factor == 3600)
            },
            None => unit_at(p@, i as int) is None,
        },
{
    let plen = p.len();
    if i >= plen {
        return None;
    }
    let c = p[i];
    if c == '秒' {
        if i + 1 < plen && p[i + 1] == '钟' {
            Some((2, 1))
        } else {
            Some((1, 1))
        }
    } else if c == '分' {
        if i + 1 < plen && p[i + 1] == '钟' {
            Some((2, 60))
        } else {
            Some((1, 60))
        }
    } else if c == '小' {
        if i + 1 < plen && p[i + 1] == '时' {
            Some((2, 3600))
        } else {
            None
        }
    } else if c == '时' {
        Some((1, 3600))
    } else if c == 's' || c == 'S' {
        Some((1, 1))
    } else if c == 'm' || c == 'M' {
        Some((1, 60))
    } else if c == 'h' || c == 'H' {
        Some((1, 3600))
    } else {
        None
    }
}

/// Leftmost relative-duration phrase, as executable code.
fn duration_scan(p: &Vec<char>) -> (r: Option<(usize, usize, u32)>)
    ensures
        match r {
            Some((start, dend, factor)) => {
                &&& duration_find(p@, 0) == Some((start as int, dend as int, factor as int))
                &&& start < dend <= p@.len()
                &&& (factor == 1 || factor == 60 || factor == 3600)
                &&& forall|j: int| start <= j < dend ==> is_digit(#[trigger] p@[j])
            },
            None => duration_find(p@, 0) is None,
        },
{
    let len = p.len();
    let mut i: usize = 0;
    while i < len
        invariant
            len == p@.len(),
            i <= len,
            duration_find(p@, 0) == duration_find(p@, i as int),
        decreases len - i,
    {
        let run_start = is_digit_exec(p[i]) && (i == 0 || !is_digit_exec(p[i - 1]));
        if run_start {
            let dend = digit_run_end_exec(p, i);
            let j = skip_spaces_exec(p, dend);
            match unit_at_exec(p, j) {
                Some((_ulen, factor)) => {
                    proof {
                        assert(duration_at(p@, i as int) == Some(
                            (dend as int, factor as int),
                        ));
                    }
                    return Some((i, dend, factor));
                },
                None => {
                    proof {
                        assert(duration_at(p@, i as int) is None);
                    }
                },
            }
        }
        i = i + 1;
    }
    None
}

/// The day-segment descriptor at position `i`, as executable code.
fn descriptor_base_exec(p: &Vec<char>, i: usize) -> (r: Option<u32>)
    ensures
        match r {
            Some(base) => descriptor_base_at(p@, i as int) == Some(base as int),
            None => descriptor_base_at(p@, i as int) is None,
        },
{
    if pat2(p, i, '早', '上') {
        Some(8)
    } else if pat2(p, i, '上', '午') {
        Some(10)
    } else if pat2(p, i, '中', '午') {
        Some(12)
    } else if pat2(p, i, '下', '午') {
        Some(14)
    } else if pat2(p, i, '傍', '晚') {
        Some(18)
    } else if pat2(p, i, '晚', '上') {
        Some(20)
    } else if pat2(p, i, '深', '夜') {
        Some(23)
    } else {
        None
    }
}

/// The absolute-clock reading of the text, as executable code.
fn absolute_exec(p: &Vec<char>) -> (r: Option<(Option<u32>, u32, u32)>)
    ensures
        match r {
            Some((desc, h, m)) => {
                &&& absolute_at(p@) matches Some((sdesc, sh, sm))
                &&& (match desc {
                    Some(b) => sdesc == Some(b as int),
                    None => sdesc is None,
                })
                &&& sh == h as int
                &&& sm == m as int
                &&& h < 100
                &&& m < 100
            },
            None => absolute_at(p@) is None,
        },
{
    let k = first_digit_exec(p, 0);
    if k >= p.len() {
        return None;
    }
    let j = space_run_start_exec(p, k);
    let desc: Option<u32> = if j >= 2 {
        descriptor_base_exec(p, j - 2)
    } else {
        None
    };
    let (h, m) = hour_minute_exec(p, k);
    Some((desc, h, m))
}

/// Reads the value of the digits in `[start, dend)`, refusing values
/// beyond the signed range.
pub(crate) fn parse_amount(p: &Vec<char>, start: usize, dend: usize) -> (r: Option<i64>)
    requires
        start <= dend <= p@.len(),
        forall|j: int| start <= j < dend ==> is_digit(#[trigger] p@[j]),
    ensures
        match r {
            Some(v) => v as int == dec_val(p@.subrange(start as int, dend as int)) && v >= 0,
            None => dec_val(p@.subrange(start as int, dend as int)) > i64::MAX,
        },
{
    let ghost full = p@.subrange(start as int, dend as int);
    proof {
        assert(all_digits(full));
    }
    let mut acc: u64 = 0;
    let mut t: usize = start;
    while t < dend
        invariant
            start <= t <= dend <= p@.len(),
            forall|j: int| start <= j < dend ==> is_digit(#[trigger] p@[j]),
            full == p@.subrange(start as int, dend as int),
            all_digits(full),
            acc as int == dec_val(p@.subrange(start as int, t as int)),
            acc <= i64::MAX as u64,
        decreases dend - t,
    {
        let d = digit_value(p[t]) as u64;
        let limit: u64 = 9223372036854775807u64;
        proof {
            let prefix = p@.subrange(start as int, t as int);
            let extended = p@.subrange(start as int, t as int + 1);
            assert(extended.drop_last() =~= prefix);
            assert(extended.last() == p@[t as int]);
            assert(dec_val(extended) == acc as int * 10 + digit_val(p@[t as int]));
        }
        if acc > (limit - d) / 10 {
            proof {
                let extended = p@.subrange(start as int, t as int + 1);
                assert(dec_val(extended) > i64::MAX) by {
                    let q = ((limit - d) / 10) as int;
                    assert(limit as int - d as int == 10 * q + ((limit as int - d as int) % 10));
                    assert(acc as int * 10 >= (q + 1) * 10) by (nonlinear_arith)
                        requires
                            acc as int >= q + 1,
                    ;
                }
                assert(extended =~= full.subrange(0, t as int + 1 - start as int));
                lemma_dec_val_prefix(full, t as int + 1 - start as int);
            }
            return None;
        }
        acc = acc * 10 + d;
        t = t + 1;
    }
    proof {
        assert(p@.subrange(start as int, t as int) =~= full);
    }
    Some(acc as i64)
}

impl TimeParser {
    /// Resolves a time expression against the given clock reading.
    pub fn parse_at(&self, input: &str, now: &LocalStamp) -> (r: Result<TimeInput, TimeError>)
        requires
            self.wf(),
            now.wf(),
        ensures
            r == resolve_spec(input@, *now),
    {
        let chars = str_to_chars(input);
        let trimmed = trim_chars(&chars);
        let p = self.preprocess_chars(&trimmed);
        if let Some(t) = natural_exec(&p, now) {
            return Ok(t);
        }
        if let Some((h, m)) = daily_scan(&p) {
            if h >= 24 || m >= 60 {
                return Err(TimeError::InvalidClock);
            }
            return Ok(TimeInput::DailyTime(ClockTime::new(h as u8, m as u8, 0)));
        }
        if let Some((start, dend, factor)) = duration_scan(&p) {
            let amount = match parse_amount(&p, start, dend) {
                Some(v) => v,
                None => {
                    return Err(TimeError::InvalidNumber);
                },
            };
            if amount == 0 {
                return Err(TimeError::NonPositiveDuration);
            }
            let threshold: i64 = if factor == 1 {
                31622400
            } else if factor == 60 {
                527040
            } else {
                8784
            };
            if amount >= threshold {
                return Err(TimeError::DurationOverYear);
            }
            return Ok(TimeInput::Duration(amount * factor as i64));
        }
        match absolute_exec(&p) {
            Some((desc, h, m)) => {
                let h2: u32 = match desc {
                    Some(base) => if h <= 12 {
                        if base + h - 8 > 23 {
                            23
                        } else {
                            base + h - 8
                        }
                    } else {
                        h
                    },
                    None => h,
                };
                if h2 >= 24 || m >= 60 {
                    Err(TimeError::InvalidClock)
                } else {
                    let secs = h2 * 3600 + m * 60;
                    Ok(TimeInput::AbsoluteTime(now.upcoming(secs)))
                }
            },
            None => Err(TimeError::UnrecognizedFormat),
        }
    }

    /// Resolves a time expression against the wall clock. The result is
    /// exactly what [`resolve_spec`] names for the clock reading taken
    /// during the call.
    pub fn parse(&self, input: &str) -> (r: Result<TimeInput, TimeError>)
        requires
            self.wf(),
        ensures
            exists|now: LocalStamp| now.wf() && r == resolve_spec(input@, now),
    {
        let now = LocalStamp::now();
        let r = self.parse_at(input, &now);
        proof {
            assert(now.wf() && r == resolve_spec(input@, now));
        }
        r
    }
}

/// A found daily-recurrence phrase carries small components: at most two
/// digits each.
proof fn lemma_daily_find_range(s: Seq<char>, i: int)
    ensures
        daily_find(s, i) matches Some((h, m)) ==> 0 <= h < 100 && 0 <= m < 100,
    decreases s.len() - i,
{
    if i < 0 || i >= s.len() {
    } else if daily_at(s, i) is Some {
    } else {
        lemma_daily_find_range(s, i + 1);
    }
}

/// The first digit search lands on a digit or on the end of the text.
proof fn lemma_first_digit(s: Seq<char>, i: int)
    requires
        0 <= i <= s.len(),
    ensures
        i <= first_digit(s, i) <= s.len(),
        first_digit(s, i) < s.len() ==> is_digit(s[first_digit(s, i)]),
    decreases s.len() - i,
{
    if i < s.len() && !is_digit(s[i]) {
        lemma_first_digit(s, i + 1);
    }
}

/// An absolute-clock reading carries small components and an anchor from
/// the descriptor table.
proof fn lemma_absolute_range(s: Seq<char>)
    ensures
        absolute_at(s) matches Some((desc, h, m)) ==> {
            &&& 0 <= h < 100
            &&& 0 <= m < 100
            &&& (desc matches Some(b) ==> 8 <= b <= 23)
        },
{
    lemma_first_digit(s, 0);
}

/// A resolved input is always valid: durations are plain numbers, daily
/// times are real clock times, and absolute instants stay in the era.
pub proof fn lemma_resolve_wf(raw: Seq<char>, now: LocalStamp)
    requires
        now.wf(),
    ensures
        resolve_spec(raw, now) matches Ok(t) ==> t.wf(),
{
    let p = preprocess_spec(trim_spec(raw));
    lemma_daily_find_range(p, 0);
    lemma_absolute_range(p);
}

/// Remaining seconds of a time input at a clock reading, never
/// negative: a duration as given, an absolute instant by its distance
/// from now, and a daily time by its next occurrence, rolled to tomorrow
/// when today's has passed.
pub open spec fn remaining_spec(input: TimeInput, now: LocalStamp) -> int {
    match input {
        TimeInput::Duration(d) => if d >= 0 {
            d as int
        } else {
            0
        },
        TimeInput::AbsoluteTime(t) => if t as int - now.spec_now_secs() >= 0 {
            t as int - now.spec_now_secs()
        } else {
            0
        },
        TimeInput::DailyTime(ct) => now.spec_upcoming(ct.spec_seconds_of_day())
            - now.spec_now_secs(),
    }
}

impl TimeParser {
    /// Validates a time input for starting a countdown: a duration must
    /// be longer than ten seconds and at most a day; an absolute instant
    /// must be in the future and at most a day ahead; a daily time is
    /// always accepted.
    pub fn validate_at(&self, input: &TimeInput, now: &LocalStamp) -> (r: Result<(), TimeError>)
        requires
            now.wf(),
            input.wf(),
        ensures
            r == validate_spec(*input, *now),
    {
        match input {
            TimeInput::Duration(d) => {
                if *d <= 0 {
                    Err(TimeError::NonPositiveDuration)
                } else if *d <= 10 {
                    Err(TimeError::DurationTooShort)
                } else if *d > 86400 {
                    Err(TimeError::DurationOverDay)
                } else {
                    Ok(())
                }
            },
            TimeInput::AbsoluteTime(t) => {
                let now_s = now.now_secs();
                if *t <= now_s {
                    Err(TimeError::NotFuture)
                } else if (*t - now_s) / 3600 > 24 {
                    Err(TimeError::BeyondHorizon)
                } else {
                    Ok(())
                }
            },
            TimeInput::DailyTime(_) => Ok(()),
        }
    }

    /// Validates a time input against the wall clock.
    pub fn validate(&self, input: &TimeInput) -> (r: Result<(), TimeError>)
        requires
            input.wf(),
        ensures
            exists|now: LocalStamp| now.wf() && r == validate_spec(*input, now),
            input is Duration ==> (forall|now: LocalStamp| r == validate_spec(*input, now)),
    {
        let now = LocalStamp::now();
        let r = self.validate_at(input, &now);
        proof {
            assert(now.wf() && r == validate_spec(*input, now));
        }
        r
    }

    /// Validates a time input at rest: a duration must be at least ten
    /// seconds and at most a year; an absolute instant must be at least
    /// ten seconds ahead and at most a year ahead; a daily time must be
    /// a real clock time.
    pub fn validate_time_input_at(&self, input: &TimeInput, now: &LocalStamp) -> (r: Result<
        (),
        TimeError,
    >)
        requires
            now.wf(),
            input.wf(),
        ensures
            r == validate_time_input_spec(*input, *now),
    {
        match input {
            TimeInput::Duration(d) => {
                if *d <= 0 {
                    Err(TimeError::NonPositiveDuration)
                } else if *d / 86400 > 365 {
                    Err(TimeError::DurationOverYear)
                } else if *d < 10 {
                    Err(TimeError::DurationTooShort)
                } else {
                    Ok(())
                }
            },
            TimeInput::AbsoluteTime(t) => {
                let now_s = now.now_secs();
                if *t <= now_s {
                    Err(TimeError::NotFuture)
                } else if *t > now_s + 31536000 {
                    Err(TimeError::BeyondHorizon)
                } else if *t - now_s < 10 {
                    Err(TimeError::TooSoon)
                } else {
                    Ok(())
                }
            },
            TimeInput::DailyTime(ct) => {
                if ct.hour > 23 || ct.minute > 59 {
                    Err(TimeError::InvalidClock)
                } else {
                    Ok(())
                }
            },
        }
    }

    /// Validates a time input at rest against the wall clock.
    pub fn validate_time_input(&self, input: &TimeInput) -> (r: Result<(), TimeError>)
        requires
            input.wf(),
        ensures
            exists|now: LocalStamp| now.wf() && r == validate_time_input_spec(*input, now),
            !(input is AbsoluteTime) ==> (forall|now: LocalStamp|
                r == validate_time_input_spec(*input, now)),
    {
        let now = LocalStamp::now();
        let r = self.validate_time_input_at(input, &now);
        proof {
            assert(now.wf() && r == validate_time_input_spec(*input, now));
        }
        r
    }

    /// Remaining seconds of a time input at a given clock reading;
    /// never negative.
    pub fn get_remaining_seconds_at(&self, input: &TimeInput, now: &LocalStamp) -> (r: Result<
        i64,
        TimeError,
    >)
        requires
            now.wf(),
            input.wf(),
        ensures
            r matches Ok(v) && v as int == remaining_spec(*input, *now),
            r matches Ok(v) && v >= 0,
    {
        match input {
            TimeInput::Duration(d) => if *d >= 0 {
                Ok(*d)
            } else {
                Ok(0)
            },
            TimeInput::AbsoluteTime(t) => {
                let now_s = now.now_secs();
                if *t - now_s >= 0 {
                    Ok(*t - now_s)
                } else {
                    Ok(0)
                }
            },
            TimeInput::DailyTime(ct) => {
                let target = now.upcoming(ct.seconds_of_day());
                Ok(target - now.now_secs())
            },
        }
    }

    /// Remaining seconds of a time input against the wall clock.
    pub fn get_remaining_seconds(&self, input: &TimeInput) -> (r: Result<i64, TimeError>)
        requires
            input.wf(),
        ensures
            r is Ok,
            exists|now: LocalStamp|
                now.wf() && (r matches Ok(v) && v as int == remaining_spec(*input, now)),
            (*input) matches TimeInput::Duration(d) ==> r == Ok::<i64, TimeError>(
                if d >= 0 {
                    d
                } else {
                    0
                },
            ),
    {
        let now = LocalStamp::now();
        let r = self.get_remaining_seconds_at(input, &now);
        proof {
            assert(now.wf() && (r matches Ok(v) && v as int == remaining_spec(*input, now)));
        }
        r
    }

    /// Whether a time input has no remaining span at a clock reading.
    pub fn is_expired_at(&self, input: &TimeInput, now: &LocalStamp) -> (r: bool)
        requires
            now.wf(),
            input.wf(),
        ensures
            r == (remaining_spec(*input, *now) <= 0),
    {
        match self.get_remaining_seconds_at(input, now) {
            Ok(v) => v <= 0,
            Err(_) => true,
        }
    }

    /// Whether a time input has no remaining span against the wall clock.
    pub fn is_expired(&self, input: &TimeInput) -> (r: bool)
        requires
            input.wf(),
        ensures
            exists|now: LocalStamp| now.wf() && r == (remaining_spec(*input, now) <= 0),
            (*input) matches TimeInput::Duration(d) ==> r == (d <= 0),
    {
        let now = LocalStamp::now();
        let r = self.is_expired_at(input, &now);
        proof {
            assert(now.wf() && r == (remaining_spec(*input, now) <= 0));
        }
        r
    }
}

/// Validation rule for starting a countdown: a duration is accepted
/// only above ten seconds and up to a day.
pub open spec fn validate_spec(input: TimeInput, now: LocalStamp) -> Result<(), TimeError> {
    match input {
        TimeInput::Duration(d) => if d <= 0 {
            Err(TimeError::NonPositiveDuration)
        } else if d <= 10 {
            Err(TimeError::DurationTooShort)
        } else if d > 86400 {
            Err(TimeError::DurationOverDay)
        } else {
            Ok(())
        },
        TimeInput::AbsoluteTime(t) => if t as int <= now.spec_now_secs() {
            Err(TimeError::NotFuture)
        } else if (t as int - now.spec_now_secs()) / 3600 > 24 {
            Err(TimeError::BeyondHorizon)
        } else {
            Ok(())
        },
        TimeInput::DailyTime(_) => Ok(()),
    }
}

/// Validation rule for a time input at rest.
pub open spec fn validate_time_input_spec(input: TimeInput, now: LocalStamp) -> Result<
    (),
    TimeError,
> {
    match input {
        TimeInput::Duration(d) => if d <= 0 {
            Err(TimeError::NonPositiveDuration)
        } else if d as int / 86400 > 365 {
            Err(TimeError::DurationOverYear)
        } else if d < 10 {
            Err(TimeError::DurationTooShort)
        } else {
            Ok(())
        },
        TimeInput::AbsoluteTime(t) => if t as int <= now.spec_now_secs() {
            Err(TimeError::NotFuture)
        } else if t as int > now.spec_now_secs() + 31536000 {
            Err(TimeError::BeyondHorizon)
        } else if t as int - now.spec_now_secs() < 10 {
            Err(TimeError::TooSoon)
        } else {
            Ok(())
        },
        TimeInput::DailyTime(ct) => if ct.hour > 23 || ct.minute > 59 {
            Err(TimeError::InvalidClock)
        } else {
            Ok(())
        },
    }
}

/// Text of a duration in seconds: day, hour, minute and second parts,
/// zero parts omitted, and a bare zero-second part when nothing remains.
/// A negative span reads as zero.
pub open spec fn duration_text(total: int) -> Seq<char> {
    let t = if total < 0 {
        0int
    } else {
        total
    };
    let days = t / 86400;
    let hours = (t % 86400) / 3600;
    let minutes = (t % 3600) / 60;
    let seconds = t % 60;
    (if days > 0 {
        dec_of(days) + seq!['天']
    } else {
        Seq::empty()
    }) + (if hours > 0 {
        dec_of(hours) + seq!['小', '时']
    } else {
        Seq::empty()
    }) + (if minutes > 0 {
        dec_of(minutes) + seq!['分', '钟']
    } else {
        Seq::empty()
    }) + (if seconds > 0 || (days == 0 && hours == 0 && minutes == 0) {
        dec_of(seconds) + seq!['秒']
    } else {
        Seq::empty()
    })
}

/// Friendly text of a duration: at most two leading parts.
/// A negative span reads as zero.
pub open spec fn duration_friendly_text(total: int) -> Seq<char> {
    let t = if total < 0 {
        0int
    } else {
        total
    };
    let days = t / 86400;
    let hours = (t % 86400) / 3600;
    let minutes = (t % 3600) / 60;
    if days > 0 {
        if hours > 0 {
            dec_of(days) + seq!['天'] + dec_of(hours) + seq!['小', '时']
        } else {
            dec_of(days) + seq!['天']
        }
    } else if hours > 0 {
        if minutes > 0 {
            dec_of(hours) + seq!['小', '时'] + dec_of(minutes) + seq!['分', '钟']
        } else {
            dec_of(hours) + seq!['小', '时']
        }
    } else if minutes > 0 {
        dec_of(minutes) + seq!['分', '钟']
    } else {
        dec_of(t) + seq!['秒']
    }
}

/// Text of a time of day as a zero-padded hour:minute pair.
pub open spec fn clock_hm_text(ct: ClockTime) -> Seq<char> {
    dec_pad2(ct.hour as int) + seq![':'] + dec_pad2(ct.minute as int)
}

impl TimeParser {
    /// Renders a duration in seconds, omitting zero parts.
    #[verifier::rlimit(60)]
    pub fn format_duration(&self, duration_secs: i64) -> (r: String)
        ensures
            r@ == duration_text(duration_secs as int),
    {
        let t: u64 = if duration_secs < 0 {
            0
        } else {
            duration_secs as u64
        };
        let days: u64 = t / 86400;
        let hours: u64 = (t % 86400) / 3600;
        let minutes: u64 = (t % 3600) / 60;
        let seconds: u64 = t % 60;
        let mut out: Vec<char> = Vec::new();
        if days > 0 {
            crate::strings::push_decimal(&mut out, days);
            out.push('天');
        }
        if hours > 0 {
            crate::strings::push_decimal(&mut out, hours);
            out.push('小');
            out.push('时');
        }
        if minutes > 0 {
            crate::strings::push_decimal(&mut out, minutes);
            out.push('分');
            out.push('钟');
        }
        if seconds > 0 || (days == 0 && hours == 0 && minutes == 0) {
            crate::strings::push_decimal(&mut out, seconds);
            out.push('秒');
        }
        proof {
            assert(out@ =~= duration_text(duration_secs as int));
        }
        chars_to_string(&out)
    }

    /// Renders a duration in seconds with at most two leading parts.
    pub fn format_duration_friendly(&self, duration_secs: i64) -> (r: String)
        ensures
            r@ == duration_friendly_text(duration_secs as int),
    {
        let t: u64 = if duration_secs < 0 {
            0
        } else {
            duration_secs as u64
        };
        let days: u64 = t / 86400;
        let hours: u64 = (t % 86400) / 3600;
        let minutes: u64 = (t % 3600) / 60;
        let mut out: Vec<char> = Vec::new();
        if days > 0 {
            crate::strings::push_decimal(&mut out, days);
            out.push('天');
            if hours > 0 {
                crate::strings::push_decimal(&mut out, hours);
                out.push('小');
                out.push('时');
            }
        } else if hours > 0 {
            crate::strings::push_decimal(&mut out, hours);
            out.push('小');
            out.push('时');
            if minutes > 0 {
                crate::strings::push_decimal(&mut out, minutes);
                out.push('分');
                out.push('钟');
            }
        } else if minutes > 0 {
            crate::strings::push_decimal(&mut out, minutes);
            out.push('分');
            out.push('钟');
        } else {
            crate::strings::push_decimal(&mut out, t);
            out.push('秒');
        }
        proof {
            assert(out@ =~= duration_friendly_text(duration_secs as int));
        }
        chars_to_string(&out)
    }

    /// Renders a time input: a duration by its parts, a daily time as
    /// hour:minute, an absolute instant as a local calendar text whose
    /// form depends on the machine's time zone.
    pub fn format_time_input(&self, input: &TimeInput) -> (r: String)
        ensures
            match *input {
                TimeInput::Duration(d) => r@ == duration_text(d as int),
                TimeInput::DailyTime(ct) => r@ == clock_hm_text(ct),
                TimeInput::AbsoluteTime(_) => true,
            },
    {
        match input {
            TimeInput::Duration(d) => self.format_duration(*d),
            TimeInput::AbsoluteTime(t) => crate::platform::format_epoch_full(*t),
            TimeInput::DailyTime(ct) => {
                let mut out: Vec<char> = Vec::new();
                crate::strings::push_pad2(&mut out, ct.hour as u64);
                out.push(':');
                crate::strings::push_pad2(&mut out, ct.minute as u64);
                proof {
                    assert(out@ =~= clock_hm_text(*ct));
                }
                chars_to_string(&out)
            },
        }
    }

    /// Renders a time input in a friendly form: a duration as a span
    /// followed by a marker, a daily time with its recurrence prefix, an
    /// absolute instant relative to today where the day names and clock
    /// text come from the machine's calendar.
    pub fn format_time_input_friendly(&self, input: &TimeInput) -> (r: String)
        requires
            input.wf(),
        ensures
            match *input {
                TimeInput::Duration(d) => r@ == duration_friendly_text(d as int) + seq!['后'],
                TimeInput::DailyTime(ct) => r@ == seq!['每', '天', ' '] + clock_hm_text(ct),
                TimeInput::AbsoluteTime(_) => true,
            },
    {
        match input {
            TimeInput::Duration(d) => {
                let mut r = self.format_duration_friendly(*d);
                let marker = crate::platform::char_to_string('后');
                r.append(marker.as_str());
                proof {
                    assert(r@ =~= duration_friendly_text(*d as int) + seq!['后']);
                }
                r
            },
            TimeInput::AbsoluteTime(t) => {
                let now = LocalStamp::now();
                let now_s = now.now_secs();
                let days: i64 = if *t <= now_s {
                    0
                } else {
                    (*t - now_s) / 86400
                };
                if days == 0 {
                    let mut r = String::from_str("今天 ");
                    let hm = crate::platform::format_epoch_hm(*t);
                    r.append(hm.as_str());
                    r
                } else if days == 1 {
                    let mut r = String::from_str("明天 ");
                    let hm = crate::platform::format_epoch_hm(*t);
                    r.append(hm.as_str());
                    r
                } else if days < 7 {
                    let mut out: Vec<char> = Vec::new();
                    crate::strings::push_decimal(&mut out, days as u64);
                    out.push('天');
                    out.push('后');
                    out.push(' ');
                    let mut r = chars_to_string(&out);
                    let hm = crate::platform::format_epoch_hm(*t);
                    r.append(hm.as_str());
                    r
                } else {
                    crate::platform::format_epoch_md_hm(*t)
                }
            },
            TimeInput::DailyTime(ct) => {
                let mut out: Vec<char> = Vec::new();
                out.push('每');
                out.push('天');
                out.push(' ');
                crate::strings::push_pad2(&mut out, ct.hour as u64);
                out.push(':');
                crate::strings::push_pad2(&mut out, ct.minute as u64);
                proof {
                    assert(out@ =~= seq!['每', '天', ' '] + clock_hm_text(*ct));
                }
                chars_to_string(&out)
            },
        }
    }

    /// The supported input formats, each with examples.
    pub fn get_format_examples(&self) -> (r: Vec<(&'static str, &'static str)>)
        ensures
            r@.len() == 6,
            r@[0].0@ == "相对时间"@ && r@[0].1@ == "30分钟后, 2小时后, 1天后"@,
            r@[1].0@ == "绝对时间"@ && r@[1].1@ == "14:30, 2024-01-01 15:00:00"@,
            r@[2].0@ == "每日时间"@ && r@[2].1@ == "每天8点, 每天18:30"@,
            r@[3].0@ == "自然语言"@ && r@[3].1@ == "半小时后, 明天, 今晚, 中午"@,
            r@[4].0@ == "中文数字"@ && r@[4].1@ == "三十分钟后, 两小时后, 明天八点"@,
            r@[5].0@ == "复合时间"@ && r@[5].1@ == "1小时30分钟后, 2天3小时后"@,
    {
        let mut r: Vec<(&'static str, &'static str)> = Vec::new();
        r.push(("相对时间", "30分钟后, 2小时后, 1天后"));
        r.push(("绝对时间", "14:30, 2024-01-01 15:00:00"));
        r.push(("每日时间", "每天8点, 每天18:30"));
        r.push(("自然语言", "半小时后, 明天, 今晚, 中午"));
        r.push(("中文数字", "三十分钟后, 两小时后, 明天八点"));
        r.push(("复合时间", "1小时30分钟后, 2天3小时后"));
        r
    }
}

/// A duration phrase resolves to exactly its amount times the unit's
/// seconds factor, and the remaining span of that input reads back as the
/// same product at any later clock reading.
pub proof fn lemma_duration_phrase_remaining(
    raw: Seq<char>,
    now: LocalStamp,
    later: LocalStamp,
    start: int,
    dend: int,
    factor: int,
)
    requires
        ({
            let p = preprocess_spec(trim_spec(raw));
            &&& natural_spec(p, now) is None
            &&& daily_find(p, 0) is None
            &&& duration_find(p, 0) == Some((start, dend, factor))
            &&& (factor == 1 || factor == 60 || factor == 3600)
            &&& 0 < dec_val(p.subrange(start, dend))
            &&& dec_val(p.subrange(start, dend)) * factor < 31622400
        }),
    ensures
        ({
            let p = preprocess_spec(trim_spec(raw));
            let amount = dec_val(p.subrange(start, dend));
            &&& resolve_spec(raw, now) == Ok::<TimeInput, TimeError>(
                TimeInput::Duration((amount * factor) as i64),
            )
            &&& remaining_spec(TimeInput::Duration((amount * factor) as i64), later) == amount
                * factor
        }),
{
}

/// The next occurrence of a daily time is strictly in the future, so its
/// remaining span is positive; when today's occurrence has passed, the
/// span reaches into tomorrow.
pub proof fn lemma_daily_never_negative(ct: ClockTime, now: LocalStamp)
    requires
        ct.wf(),
        now.wf(),
    ensures
        remaining_spec(TimeInput::DailyTime(ct), now) > 0,
        now.spec_today_at(ct.spec_seconds_of_day()) <= now.spec_now_secs()
            ==> remaining_spec(TimeInput::DailyTime(ct), now) == now.spec_today_at(
            ct.spec_seconds_of_day(),
        ) + 86400 - now.spec_now_secs(),
{
}

} // verus!
