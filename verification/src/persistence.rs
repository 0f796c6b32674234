//! The task store's record format and path configuration.
//!
//! A scheduled task is persisted as a plain key-value text record, one
//! field per line. Encoding and decoding are verified against the same
//! record grammar, and decoding an encoded descriptor is proved to give
//! back the descriptor field for field. Reading and writing the file
//! itself is input/output and lives with the surrounding application.

use vstd::prelude::*;

use crate::platform::data_local_dir_path;
use crate::strings::{
    chars_to_string, dec_of, dec_pad2, dec_val, digit_val, is_digit, str_to_chars,
};
use crate::time_parser::{
    digit_run_end, digit_run_end_exec, parse_amount, pattern_at, pattern_match,
};
use crate::types::{ClockTime, TaskData, TaskType};

verus! {

/// Why a persisted record or the store itself was refused.
#[derive(Debug, Clone, Copy, PartialEq, Eq, Structural)]
pub enum PersistError {
    /// The record text does not follow the task record grammar.
    Malformed,
    /// The environment names no local data directory.
    NoDataDir,
}

/// Position right after a literal occurring at `i`, if it does.
pub open spec fn expect_at(s: Seq<char>, i: int, pat: Seq<char>) -> Option<int> {
    if pattern_at(s, i, pat) {
        Some(i + pat.len() as int)
    } else {
        None
    }
}

/// Text of a task kind.
pub open spec fn kind_text(t: TaskType) -> Seq<char> {
    match t {
        TaskType::Once => "once"@,
        TaskType::Daily => "daily"@,
    }
}

/// Text of an optional instant: its decimal milliseconds, or `none`.
pub open spec fn opt_instant_text(o: Option<i64>) -> Seq<char> {
    match o {
        Some(v) => dec_of(v as int),
        None => "none"@,
    }
}

/// Text of a time of day: zero-padded hour, minute and second.
pub open spec fn clock_hms_text(ct: ClockTime) -> Seq<char> {
    dec_pad2(ct.hour as int) + seq![':'] + dec_pad2(ct.minute as int) + seq![':'] + dec_pad2(
        ct.second as int,
    )
}

/// Text of an optional time of day.
pub open spec fn opt_clock_text(o: Option<ClockTime>) -> Seq<char> {
    match o {
        Some(ct) => clock_hms_text(ct),
        None => "none"@,
    }
}

/// Text of a boolean.
pub open spec fn bool_text(b: bool) -> Seq<char> {
    if b {
        "true"@
    } else {
        "false"@
    }
}

/// The record text of a task descriptor: five key-value lines.
pub open spec fn encode_task_spec(d: TaskData) -> Seq<char> {
    "kind="@ + kind_text(d.task_type) + "\n"@ + "target="@ + opt_instant_text(d.target_time)
        + "\n"@ + "daily="@ + opt_clock_text(d.daily_time) + "\n"@ + "enabled="@ + bool_text(
        d.enabled,
    ) + "\n"@ + "created="@ + dec_of(d.created_at as int) + "\n"@
}

/// Reads a task kind and its line end at position `i`.
pub open spec fn parse_kind_at(s: Seq<char>, i: int) -> Option<(TaskType, int)> {
    match expect_at(s, i, "once\n"@) {
        Some(j) => Some((TaskType::Once, j)),
        None => match expect_at(s, i, "daily\n"@) {
            Some(j) => Some((TaskType::Daily, j)),
            None => None,
        },
    }
}

/// Reads a non-negative instant within the supported era, and its line
/// end, at position `i`.
pub open spec fn parse_number_at(s: Seq<char>, i: int) -> Option<(i64, int)> {
    let e = digit_run_end(s, i);
    if i < e < s.len() && s[e] == '\n' && dec_val(s.subrange(i, e)) <= crate::clock::MAX_EPOCH_MS {
        Some((dec_val(s.subrange(i, e)) as i64, e + 1))
    } else {
        None
    }
}

/// Reads an optional instant and its line end at position `i`.
pub open spec fn parse_opt_instant_at(s: Seq<char>, i: int) -> Option<(Option<i64>, int)> {
    match expect_at(s, i, "none\n"@) {
        Some(j) => Some((None, j)),
        None => match parse_number_at(s, i) {
            Some((v, j)) => Some((Some(v), j)),
            None => None,
        },
    }
}

/// Reads a time of day and its line end at position `i`: exactly the
/// shape hour:minute:second with two digits each, in range.
pub open spec fn parse_clock_at(s: Seq<char>, i: int) -> Option<(ClockTime, int)> {
    if i + 9 <= s.len() && is_digit(s[i]) && is_digit(s[i + 1]) && s[i + 2] == ':' && is_digit(
        s[i + 3],
    ) && is_digit(s[i + 4]) && s[i + 5] == ':' && is_digit(s[i + 6]) && is_digit(s[i + 7]) && s[i
        + 8] == '\n' {
        let h = digit_val(s[i]) * 10 + digit_val(s[i + 1]);
        let m = digit_val(s[i + 3]) * 10 + digit_val(s[i + 4]);
        let sec = digit_val(s[i + 6]) * 10 + digit_val(s[i + 7]);
        if h < 24 && m < 60 && sec < 60 {
            Some((ClockTime { hour: h as u8, minute: m as u8, second: sec as u8 }, i + 9))
        } else {
            None
        }
    } else {
        None
    }
}

/// Reads an optional time of day and its line end at position `i`.
pub open spec fn parse_opt_clock_at(s: Seq<char>, i: int) -> Option<(Option<ClockTime>, int)> {
    match expect_at(s, i, "none\n"@) {
        Some(j) => Some((None, j)),
        None => match parse_clock_at(s, i) {
            Some((ct, j)) => Some((Some(ct), j)),
            None => None,
        },
    }
}

/// Reads a boolean and its line end at position `i`.
pub open spec fn parse_bool_at(s: Seq<char>, i: int) -> Option<(bool, int)> {
    match expect_at(s, i, "true\n"@) {
        Some(j) => Some((true, j)),
        None => match expect_at(s, i, "false\n"@) {
            Some(j) => Some((false, j)),
            None => None,
        },
    }
}

/// What decoding a record text yields: the descriptor it encodes, or a
/// format refusal for any text the grammar does not produce.
pub open spec fn decode_task_spec(s: Seq<char>) -> Result<TaskData, PersistError> {
    match expect_at(s, 0, "kind="@) {
        None => Err(PersistError::Malformed),
        Some(i1) => match parse_kind_at(s, i1) {
            None => Err(PersistError::Malformed),
            Some((kind, i2)) => match expect_at(s, i2, "target="@) {
                None => Err(PersistError::Malformed),
                Some(i3) => match parse_opt_instant_at(s, i3) {
                    None => Err(PersistError::Malformed),
                    Some((target, i4)) => match expect_at(s, i4, "daily="@) {
                        None => Err(PersistError::Malformed),
                        Some(i5) => match parse_opt_clock_at(s, i5) {
                            None => Err(PersistError::Malformed),
                            Some((daily, i6)) => match expect_at(s, i6, "enabled="@) {
                                None => Err(PersistError::Malformed),
                                Some(i7) => match parse_bool_at(s, i7) {
                                    None => Err(PersistError::Malformed),
                                    Some((enabled, i8)) => match expect_at(s, i8, "created="@) {
                                        None => Err(PersistError::Malformed),
                                        Some(i9) => match parse_number_at(s, i9) {
                                            None => Err(PersistError::Malformed),
                                            Some((created, i10)) => if i10 == s.len() {
                                                Ok(
                                                    TaskData {
                                                        task_type: kind,
                                                        target_time: target,
                                                        daily_time: daily,
                                                        enabled,
                                                        created_at: created,
                                                    },
                                                )
                                            } else {
                                                Err(PersistError::Malformed)
                                            },
                                        },
                                    },
                                },
                            },
                        },
                    },
                },
            },
        },
    }
}

/// Application preferences kept beside the task record. Reading and
/// writing them is the surrounding application's concern.
#[derive(Debug, Clone, PartialEq)]
pub struct AppConfig {
    /// Start with the system.
    pub auto_start: bool,
    /// Hide into the tray instead of closing.
    pub minimize_to_tray: bool,
    /// Ask before the terminal action runs.
    pub confirm_before_shutdown: bool,
    /// Name of the colour theme.
    pub theme: String,
    /// Interface language tag.
    pub language: String,
}

impl Default for AppConfig {
    /// Defaults: tray minimization and confirmation on, light theme,
    /// Chinese interface.
    fn default() -> (r: Self)
        ensures
            !r.auto_start,
            r.minimize_to_tray,
            r.confirm_before_shutdown,
            r.theme@ == "light"@,
            r.language@ == "zh-CN"@,
    {
        AppConfig {
            auto_start: false,
            minimize_to_tray: true,
            confirm_before_shutdown: true,
            theme: "light".to_owned(),
            language: "zh-CN".to_owned(),
        }
    }
}

/// Path configuration of the task store: a data directory holding the
/// task record and the preferences file.
#[derive(Debug, Clone)]
pub struct TaskPersistence {
    /// Directory the store writes under.
    pub data_dir: String,
    /// File name of the task record.
    pub task_file: String,
    /// File name of the preferences.
    pub config_file: String,
}

impl TaskPersistence {
    /// The standard file names are attached.
    pub open spec fn wf(self) -> bool {
        self.task_file@ == "tasks.json"@ && self.config_file@ == "config.json"@
    }

    /// Builds a store under the platform's local data directory, or
    /// refuses when the environment names none.
    pub fn new() -> (r: Result<Self, PersistError>)
        ensures
            r matches Ok(p) ==> p.wf(),
    {
        match data_local_dir_path() {
            Some(base) => {
                let mut dir = base;
                dir.append("/QtShut");
                Ok(Self::with_data_dir(dir.as_str()))
            },
            None => Err(PersistError::NoDataDir),
        }
    }

    /// Builds a store under the given data directory.
    pub fn with_data_dir(data_dir: &str) -> (r: Self)
        ensures
            r.wf(),
            r.spec_data_dir() == data_dir@,
    {
        TaskPersistence {
            data_dir: data_dir.to_owned(),
            task_file: "tasks.json".to_owned(),
            config_file: "config.json".to_owned(),
        }
    }

    /// The configured data directory.
    pub open spec fn spec_data_dir(self) -> Seq<char> {
        self.data_dir@
    }

    /// The configured data directory, as executable code.
    pub fn get_data_dir(&self) -> (r: &String)
        ensures
            r@ == self.spec_data_dir(),
    {
        &self.data_dir
    }

    /// Full path of the task record file.
    pub fn get_task_file_path(&self) -> (r: String)
        requires
            self.wf(),
        ensures
            r@ == self.spec_data_dir() + seq!['/'] + "tasks.json"@,
    {
        let mut r = self.data_dir.clone();
        r.append("/");
        r.append(self.task_file.as_str());
        proof {
            reveal_strlit("/");
            assert(r@ =~= self.spec_data_dir() + seq!['/'] + "tasks.json"@);
        }
        r
    }

    /// Full path of the preferences file.
    pub fn get_config_file_path(&self) -> (r: String)
        requires
            self.wf(),
        ensures
            r@ == self.spec_data_dir() + seq!['/'] + "config.json"@,
    {
        let mut r = self.data_dir.clone();
        r.append("/");
        r.append(self.config_file.as_str());
        proof {
            reveal_strlit("/");
            assert(r@ =~= self.spec_data_dir() + seq!['/'] + "config.json"@);
        }
        r
    }
}

/// Round trip of the task store: decoding an encoded descriptor gives
/// back the descriptor, equal in every field.
#[verifier::rlimit(100)]
#[verifier::spinoff_prover]
pub proof fn lemma_encode_decode_roundtrip(d: TaskData)
    requires
        d.wf(),
    ensures
        decode_task_spec(encode_task_spec(d)) == Ok::<TaskData, PersistError>(d),
{
    reveal_strlit("kind=");
    reveal_strlit("once");
    reveal_strlit("daily");
    reveal_strlit("none");
    reveal_strlit("true");
    reveal_strlit("false");
    reveal_strlit("\n");
    reveal_strlit("target=");
    reveal_strlit("daily=");
    reveal_strlit("enabled=");
    reveal_strlit("created=");
    reveal_strlit("once\n");
    reveal_strlit("daily\n");
    reveal_strlit("none\n");
    reveal_strlit("true\n");
    reveal_strlit("false\n");
    let s = encode_task_spec(d);
    let t2 = kind_text(d.task_type);
    let t4 = opt_instant_text(d.target_time);
    let t6 = opt_clock_text(d.daily_time);
    let t8 = bool_text(d.enabled);
    let t10 = dec_of(d.created_at as int);
    let p1 = 5int;
    let p2 = p1 + t2.len();
    let p3 = p2 + 1 + 7;
    let p4 = p3 + t4.len();
    let p5 = p4 + 1 + 6;
    let p6 = p5 + t6.len();
    let p7 = p6 + 1 + 8;
    let p8 = p7 + t8.len();
    let p9 = p8 + 1 + 8;
    let p10 = p9 + t10.len();
    assert(s.len() == p10 + 1);
    assert(s.subrange(0, p1) =~= "kind="@);
    assert(expect_at(s, 0, "kind="@) == Some(p1));
    match d.task_type {
        TaskType::Once => {
            assert(s.subrange(p1, p2 + 1) =~= "once\n"@);
            assert(parse_kind_at(s, p1) == Some((TaskType::Once, p2 + 1)));
        },
        TaskType::Daily => {
            assert(s[p1] == 'd');
            assert(expect_at(s, p1, "once\n"@) is None) by {
                if pattern_at(s, p1, "once\n"@) {
                    assert(s.subrange(p1, p1 + 5)[0] == 'o');
                }
            }
            assert(s.subrange(p1, p2 + 1) =~= "daily\n"@);
            assert(parse_kind_at(s, p1) == Some((TaskType::Daily, p2 + 1)));
        },
    }
    assert(s.subrange(p2 + 1, p3) =~= "target="@);
    assert(expect_at(s, p2 + 1, "target="@) == Some(p3));
    match d.target_time {
        None => {
            assert(s.subrange(p3, p4 + 1) =~= "none\n"@);
            assert(parse_opt_instant_at(s, p3) == Some((None::<i64>, p4 + 1)));
        },
        Some(v) => {
            crate::strings::lemma_dec_of_digits(v as int);
            assert(s[p3] == t4[0]);
            assert(expect_at(s, p3, "none\n"@) is None) by {
                if pattern_at(s, p3, "none\n"@) {
                    assert(s.subrange(p3, p3 + 5)[0] == 'n');
                }
            }
            assert(forall|j: int| p3 <= j < p4 ==> is_digit(#[trigger] s[j])) by {
                assert(forall|j: int| p3 <= j < p4 ==> s[j] == t4[j - p3]);
            }
            assert(s[p4] == '\n');
            crate::time_parser::lemma_digit_run_stops(s, p3, p4);
            assert(s.subrange(p3, p4) =~= t4);
            crate::strings::lemma_dec_val_of_dec_of(v as int);
            assert(parse_number_at(s, p3) == Some((v, p4 + 1)));
            assert(parse_opt_instant_at(s, p3) == Some((Some(v), p4 + 1)));
        },
    }
    assert(s.subrange(p4 + 1, p5) =~= "daily="@);
    assert(expect_at(s, p4 + 1, "daily="@) == Some(p5));
    match d.daily_time {
        None => {
            assert(s.subrange(p5, p6 + 1) =~= "none\n"@);
            assert(parse_opt_clock_at(s, p5) == Some((None::<ClockTime>, p6 + 1)));
        },
        Some(ct) => {
            crate::strings::lemma_pad2_shape(ct.hour as int);
            crate::strings::lemma_pad2_shape(ct.minute as int);
            crate::strings::lemma_pad2_shape(ct.second as int);
            assert(t6.len() == 8);
            assert(t6[0] == dec_pad2(ct.hour as int)[0]);
            assert(t6[1] == dec_pad2(ct.hour as int)[1]);
            assert(t6[2] == ':');
            assert(t6[3] == dec_pad2(ct.minute as int)[0]);
            assert(t6[4] == dec_pad2(ct.minute as int)[1]);
            assert(t6[5] == ':');
            assert(t6[6] == dec_pad2(ct.second as int)[0]);
            assert(t6[7] == dec_pad2(ct.second as int)[1]);
            assert(expect_at(s, p5, "none\n"@) is None) by {
                if pattern_at(s, p5, "none\n"@) {
                    assert(s.subrange(p5, p5 + 5)[0] == 'n');
                    assert(s[p5] == t6[0]);
                }
            }
            assert(s[p5] == t6[0] && s[p5 + 1] == t6[1] && s[p5 + 2] == ':' && s[p5 + 3] == t6[3]
                && s[p5 + 4] == t6[4] && s[p5 + 5] == ':' && s[p5 + 6] == t6[6] && s[p5 + 7]
                == t6[7] && s[p5 + 8] == '\n');
            assert(digit_val(s[p5]) * 10 + digit_val(s[p5 + 1]) == ct.hour as int);
            assert(digit_val(s[p5 + 3]) * 10 + digit_val(s[p5 + 4]) == ct.minute as int);
            assert(digit_val(s[p5 + 6]) * 10 + digit_val(s[p5 + 7]) == ct.second as int);
            assert(parse_clock_at(s, p5) == Some((ct, p6 + 1)));
            assert(parse_opt_clock_at(s, p5) == Some((Some(ct), p6 + 1)));
        },
    }
    assert(s.subrange(p6 + 1, p7) =~= "enabled="@);
    assert(expect_at(s, p6 + 1, "enabled="@) == Some(p7));
    if d.enabled {
        assert(s.subrange(p7, p8 + 1) =~= "true\n"@);
        assert(parse_bool_at(s, p7) == Some((true, p8 + 1)));
    } else {
        assert(s[p7] == 'f');
        assert(expect_at(s, p7, "true\n"@) is None) by {
            if pattern_at(s, p7, "true\n"@) {
                assert(s.subrange(p7, p7 + 5)[0] == 't');
            }
        }
        assert(s.subrange(p7, p8 + 1) =~= "false\n"@);
        assert(parse_bool_at(s, p7) == Some((false, p8 + 1)));
    }
    assert(s.subrange(p8 + 1, p9) =~= "created="@);
    assert(expect_at(s, p8 + 1, "created="@) == Some(p9));
    crate::strings::lemma_dec_of_digits(d.created_at as int);
    assert(forall|j: int| p9 <= j < p10 ==> is_digit(#[trigger] s[j])) by {
        assert(forall|j: int| p9 <= j < p10 ==> s[j] == t10[j - p9]);
    }
    assert(s[p10] == '\n');
    crate::time_parser::lemma_digit_run_stops(s, p9, p10);
    assert(s.subrange(p9, p10) =~= t10);
    crate::strings::lemma_dec_val_of_dec_of(d.created_at as int);
    assert(parse_number_at(s, p9) == Some((d.created_at, p10 + 1)));
    assert(decode_task_spec(s) == Ok::<TaskData, PersistError>(d));
}

/// Encodes a task descriptor as its record text.
#[verifier::rlimit(100)]
#[verifier::spinoff_prover]
pub fn encode_task(d: &TaskData) -> (r: String)
    requires
        d.wf(),
    ensures
        r@ == encode_task_spec(*d),
{
    let mut r = String::from_str("kind=");
    match d.task_type {
        TaskType::Once => r.append("once"),
        TaskType::Daily => r.append("daily"),
    }
    r.append("\ntarget=");
    match d.target_time {
        Some(v) => {
            let text = crate::strings::u64_to_string(v as u64);
            r.append(text.as_str());
        },
        None => r.append("none"),
    }
    r.append("\ndaily=");
    match d.daily_time {
        Some(ct) => {
            let mut out: Vec<char> = Vec::new();
            crate::strings::push_pad2(&mut out, ct.hour as u64);
            out.push(':');
            crate::strings::push_pad2(&mut out, ct.minute as u64);
            out.push(':');
            crate::strings::push_pad2(&mut out, ct.second as u64);
            proof {
                assert(out@ =~= clock_hms_text(ct));
            }
            let text = chars_to_string(&out);
            r.append(text.as_str());
        },
        None => r.append("none"),
    }
    r.append("\nenabled=");
    if d.enabled {
        r.append("true");
    } else {
        r.append("false");
    }
    r.append("\ncreated=");
    let created_text = crate::strings::u64_to_string(d.created_at as u64);
    r.append(created_text.as_str());
    r.append("\n");
    proof {
        reveal_strlit("kind=");
        reveal_strlit("once");
        reveal_strlit("daily");
        reveal_strlit("none");
        reveal_strlit("true");
        reveal_strlit("false");
        reveal_strlit("\n");
        reveal_strlit("target=");
        reveal_strlit("daily=");
        reveal_strlit("enabled=");
        reveal_strlit("created=");
        reveal_strlit("\ntarget=");
        reveal_strlit("\ndaily=");
        reveal_strlit("\nenabled=");
        reveal_strlit("\ncreated=");
        assert(r@ =~= encode_task_spec(*d));
    }
    r
}

/// Decodes a record text back into a task descriptor. The grammar
/// admits exactly what the encoder writes, so a decoded descriptor is
/// always valid.
pub fn decode_task(text: &str) -> (r: Result<TaskData, PersistError>)
    ensures
        r == decode_task_spec(text@),
        r matches Ok(d) ==> d.wf(),
{
    let s = str_to_chars(text);
    let i1 = match expect_exec(&s, 0, "kind=") {
        Some(j) => j,
        None => {
            return Err(PersistError::Malformed);
        },
    };
    let (kind, i2) = match expect_exec(&s, i1, "once\n") {
        Some(j) => (TaskType::Once, j),
        None => match expect_exec(&s, i1, "daily\n") {
            Some(j) => (TaskType::Daily, j),
            None => {
                return Err(PersistError::Malformed);
            },
        },
    };
    let i3 = match expect_exec(&s, i2, "target=") {
        Some(j) => j,
        None => {
            return Err(PersistError::Malformed);
        },
    };
    let (target, i4) = match expect_exec(&s, i3, "none\n") {
        Some(j) => (None, j),
        None => match parse_number_exec(&s, i3) {
            Some((v, j)) => (Some(v), j),
            None => {
                return Err(PersistError::Malformed);
            },
        },
    };
    let i5 = match expect_exec(&s, i4, "daily=") {
        Some(j) => j,
        None => {
            return Err(PersistError::Malformed);
        },
    };
    let (daily, i6) = match expect_exec(&s, i5, "none\n") {
        Some(j) => (None, j),
        None => match parse_clock_exec(&s, i5) {
            Some((ct, j)) => (Some(ct), j),
            None => {
                return Err(PersistError::Malformed);
            },
        },
    };
    let i7 = match expect_exec(&s, i6, "enabled=") {
        Some(j) => j,
        None => {
            return Err(PersistError::Malformed);
        },
    };
    let (enabled, i8) = match expect_exec(&s, i7, "true\n") {
        Some(j) => (true, j),
        None => match expect_exec(&s, i7, "false\n") {
            Some(j) => (false, j),
            None => {
                return Err(PersistError::Malformed);
            },
        },
    };
    let i9 = match expect_exec(&s, i8, "created=") {
        Some(j) => j,
        None => {
            return Err(PersistError::Malformed);
        },
    };
    let (created, i10) = match parse_number_exec(&s, i9) {
        Some((v, j)) => (v, j),
        None => {
            return Err(PersistError::Malformed);
        },
    };
    if i10 == s.len() {
        Ok(TaskData {
            task_type: kind,
            target_time: target,
            daily_time: daily,
            enabled,
            created_at: created,
        })
    } else {
        Err(PersistError::Malformed)
    }
}

/// Position right after a literal occurring at `i`, as executable code.
fn expect_exec(s: &Vec<char>, i: usize, pat: &str) -> (r: Option<usize>)
    requires
        i <= s@.len(),
    ensures
        match r {
            Some(j) => expect_at(s@, i as int, pat@) == Some(j as int) && i <= j <= s@.len(),
            None => expect_at(s@, i as int, pat@) is None,
        },
{
    if pattern_match(s, i, pat) {
        let n = pat.unicode_len();
        let slen = s.len();
        proof {
            assert(i as int + n as int <= slen as int);
        }
        Some(i + n)
    } else {
        None
    }
}

/// Reads a non-negative era-bounded instant and its line end, as
/// executable code.
fn parse_number_exec(s: &Vec<char>, i: usize) -> (r: Option<(i64, usize)>)
    requires
        i <= s@.len(),
    ensures
        match r {
            Some((v, j)) => parse_number_at(s@, i as int) == Some((v, j as int)) && i < j
                <= s@.len() && 0 <= v <= crate::clock::MAX_EPOCH_MS,
            None => parse_number_at(s@, i as int) is None,
        },
{
    let e = digit_run_end_exec(s, i);
    if i < e && e < s.len() && s[e] == '\n' {
        match parse_amount(s, i, e) {
            Some(v) => if v <= crate::clock::MAX_EPOCH_MS {
                Some((v, e + 1))
            } else {
                None
            },
            None => None,
        }
    } else {
        None
    }
}

/// Reads a time of day and its line end, as executable code.
fn parse_clock_exec(s: &Vec<char>, i: usize) -> (r: Option<(ClockTime, usize)>)
    requires
        i <= s@.len(),
    ensures
        match r {
            Some((ct, j)) => parse_clock_at(s@, i as int) == Some((ct, j as int)) && i < j
                <= s@.len() && ct.wf(),
            None => parse_clock_at(s@, i as int) is None,
        },
{
    let len = s.len();
    if len >= 9 && i <= len - 9 && crate::time_parser::is_digit_exec(s[i])
        && crate::time_parser::is_digit_exec(
        s[i + 1],
    ) && s[i + 2] == ':' && crate::time_parser::is_digit_exec(s[i + 3])
        && crate::time_parser::is_digit_exec(s[i + 4]) && s[i + 5] == ':'
        && crate::time_parser::is_digit_exec(s[i + 6]) && crate::time_parser::is_digit_exec(
        s[i + 7],
    ) && s[i + 8] == '\n' {
        let h = crate::time_parser::digit_value(s[i]) * 10 + crate::time_parser::digit_value(
            s[i + 1],
        );
        let m = crate::time_parser::digit_value(s[i + 3]) * 10 + crate::time_parser::digit_value(
            s[i + 4],
        );
        let sec = crate::time_parser::digit_value(s[i + 6]) * 10 + crate::time_parser::digit_value(
            s[i + 7],
        );
        if h < 24 && m < 60 && sec < 60 {
            Some((ClockTime { hour: h as u8, minute: m as u8, second: sec as u8 }, i + 9))
        } else {
            None
        }
    } else {
        None
    }
}

} // verus!
