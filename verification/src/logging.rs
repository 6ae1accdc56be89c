use std::time::Duration;
use std::time::SystemTime;
use std::time::UNIX_EPOCH;
use vstd::prelude::*;

verus! {

#[verifier::external_type_specification]
#[verifier::external_body]
pub struct ExSystemTime(SystemTime);

/// The character of decimal digit `d`.
pub open spec fn digit_char(d: int) -> char {
    if d == 0 {
        '0'
    } else if d == 1 {
        '1'
    } else if d == 2 {
        '2'
    } else if d == 3 {
        '3'
    } else if d == 4 {
        '4'
    } else if d == 5 {
        '5'
    } else if d == 6 {
        '6'
    } else if d == 7 {
        '7'
    } else if d == 8 {
        '8'
    } else {
        '9'
    }
}

/// `n` written in decimal, without leading zeros.
pub open spec fn decimal(n: nat) -> Seq<char>
    decreases n,
{
    if n < 10 {
        seq![digit_char(n as int)]
    } else {
        decimal(n / 10) + seq![digit_char((n % 10) as int)]
    }
}

/// `n` written with exactly three decimal digits, zeros in front.
pub open spec fn three_digits(n: nat) -> Seq<char> {
    seq![digit_char((n / 100) as int), digit_char(((n / 10) % 10) as int), digit_char((n % 10) as int)]
}

/// A log timestamp: seconds since the Unix epoch, a dot, and milliseconds.
pub open spec fn timestamp_text(secs: nat, millis: nat) -> Seq<char> {
    decimal(secs) + seq!['.'] + three_digits(millis)
}

/// A line of the log file.
pub open spec fn log_line_text(timestamp: Seq<char>, level: Seq<char>, msg: Seq<char>) -> Seq<
    char,
> {
    timestamp + seq![' ', '['] + level + seq![']', ' '] + msg + seq!['\n']
}

/// Characters with the Unicode `White_Space` property, which `str::trim` removes.
pub open spec fn is_unicode_whitespace(c: char) -> bool {
    let u = c as u32;
    ||| 0x9 <= u <= 0xD
    ||| u == 0x20
    ||| u == 0x85
    ||| u == 0xA0
    ||| u == 0x1680
    ||| 0x2000 <= u <= 0x200A
    ||| u == 0x2028
    ||| u == 0x2029
    ||| u == 0x202F
    ||| u == 0x205F
    ||| u == 0x3000
}

/// `s` without its leading whitespace.
pub open spec fn trim_start(s: Seq<char>) -> Seq<char>
    decreases s.len(),
{
    if s.len() > 0 && is_unicode_whitespace(s[0]) {
        trim_start(s.drop_first())
    } else {
        s
    }
}

/// `s` without its trailing whitespace.
pub open spec fn trim_end(s: Seq<char>) -> Seq<char>
    decreases s.len(),
{
    if s.len() > 0 && is_unicode_whitespace(s.last()) {
        trim_end(s.drop_last())
    } else {
        s
    }
}

/// `s` without leading and trailing whitespace, as `str::trim` returns it.
pub open spec fn trimmed(s: Seq<char>) -> Seq<char> {
    trim_end(trim_start(s))
}

/// The line printed on the console for a message, without its newline.
pub open spec fn console_text(level: Seq<char>, msg: Seq<char>) -> Seq<char> {
    seq!['['] + trimmed(level) + seq![']', ' '] + msg
}

/// Reads the clock with `std::time::SystemTime::now`. Nothing is claimed of
/// the reading.
#[verifier::external_body]
fn clock_now() -> SystemTime {
    SystemTime::now()
}

/// `SystemTime::duration_since(UNIX_EPOCH)`: the time elapsed since the Unix
/// epoch, `None` in place of the error where `time` is before the epoch.
/// Nothing is claimed of the duration.
#[verifier::external_body]
fn elapsed_since_epoch(time: &SystemTime) -> Option<Duration> {
    match time.duration_since(UNIX_EPOCH) {
        Ok(d) => Some(d),
        Err(_) => None,
    }
}

/// `Duration::as_secs`: the whole seconds of `d`. Nothing is claimed of the value.
#[verifier::external_body]
fn duration_secs(d: &Duration) -> u64 {
    d.as_secs()
}

/// `Duration::subsec_millis`: the whole milliseconds past the last whole
/// second of `d`, which its documentation puts below 1000.
#[verifier::external_body]
fn duration_subsec_millis(d: &Duration) -> (millis: u32)
    ensures
        millis < 1000,
{
    d.subsec_millis()
}

fn is_whitespace_char(c: char) -> (ws: bool)
    ensures
        ws == is_unicode_whitespace(c),
{
    let u = c as u32;
    (0x9 <= u && u <= 0xD) || u == 0x20 || u == 0x85 || u == 0xA0 || u == 0x1680 || (0x2000 <= u
        && u <= 0x200A) || u == 0x2028 || u == 0x2029 || u == 0x202F || u == 0x205F || u == 0x3000
}

/// `s` without leading and trailing whitespace.
fn trim_whitespace(s: &str) -> (t: &str)
    ensures
        t@ == trimmed(s@),
{
    let n = s.unicode_len();
    let mut i: usize = 0;
    proof {
        assert(s@.subrange(0, n as int) =~= s@);
    }
    while i < n && is_whitespace_char(s.get_char(i))
        invariant
            n == s@.len(),
            i <= n,
            trim_start(s@) == trim_start(s@.subrange(i as int, n as int)),
        decreases n - i,
    {
        proof {
            assert(s@.subrange(i as int, n as int).drop_first() =~= s@.subrange(i + 1, n as int));
        }
        i = i + 1;
    }
    let mut j: usize = n;
    proof {
        assert(trim_start(s@.subrange(i as int, n as int)) == s@.subrange(i as int, n as int));
    }
    while j > i && is_whitespace_char(s.get_char(j - 1))
        invariant
            n == s@.len(),
            i <= j <= n,
            trimmed(s@) == trim_end(s@.subrange(i as int, j as int)),
        decreases j - i,
    {
        proof {
            assert(s@.subrange(i as int, j as int).drop_last() =~= s@.subrange(i as int, j - 1));
        }
        j = j - 1;
    }
    s.substring_char(i, j)
}

/// The one-character string of decimal digit `d`.
fn digit_str(d: u64) -> (s: &'static str)
    requires
        d < 10,
    ensures
        s@ == seq![digit_char(d as int)],
{
    if d == 0 {
        proof { reveal_strlit("0"); }
        "0"
    } else if d == 1 {
        proof { reveal_strlit("1"); }
        "1"
    } else if d == 2 {
        proof { reveal_strlit("2"); }
        "2"
    } else if d == 3 {
        proof { reveal_strlit("3"); }
        "3"
    } else if d == 4 {
        proof { reveal_strlit("4"); }
        "4"
    } else if d == 5 {
        proof { reveal_strlit("5"); }
        "5"
    } else if d == 6 {
        proof { reveal_strlit("6"); }
        "6"
    } else if d == 7 {
        proof { reveal_strlit("7"); }
        "7"
    } else if d == 8 {
        proof { reveal_strlit("8"); }
        "8"
    } else {
        proof { reveal_strlit("9"); }
        "9"
    }
}

/// Appends `n` in decimal.
fn push_decimal(out: &mut String, n: u64)
    ensures
        final(out)@ == old(out)@ + decimal(n as nat),
    decreases n,
{
    if n >= 10 {
        push_decimal(out, n / 10);
    }
    out.append(digit_str(n % 10));
    proof {
        if n >= 10 {
            assert(decimal(n as nat) == decimal((n / 10) as nat) + seq![digit_char((n % 10) as int)]);
        }
    }
}

/// Formats seconds and milliseconds as `secs.mmm`.
pub fn format_timestamp(secs: u64, millis: u32) -> (text: String)
    requires
        millis < 1000,
    ensures
        text@ == timestamp_text(secs as nat, millis as nat),
{
    let mut text = String::new();
    push_decimal(&mut text, secs);
    proof { reveal_strlit("."); }
    text.append(".");
    let m = millis as u64;
    text.append(digit_str(m / 100));
    text.append(digit_str((m / 10) % 10));
    text.append(digit_str(m % 10));
    text
}

/// The timestamp text for a reading of the clock: seconds and milliseconds
/// since the Unix epoch, or `0.000` for a time before the epoch.
pub open spec fn elapsed_text(elapsed: Option<(u64, u32)>) -> Seq<char> {
    match elapsed {
        Some((secs, millis)) => timestamp_text(secs as nat, millis as nat),
        None => timestamp_text(0, 0),
    }
}

/// Formats a reading of the clock, `None` standing for a time before the epoch.
pub fn timestamp_from_elapsed(elapsed: Option<(u64, u32)>) -> (text: String)
    requires
        elapsed matches Some((_, millis)) ==> millis < 1000,
    ensures
        text@ == elapsed_text(elapsed),
{
    match elapsed {
        Some((secs, millis)) => format_timestamp(secs, millis),
        None => format_timestamp(0, 0),
    }
}

/// The time now as `secs.mmm` since the Unix epoch; `0.000` where the clock
/// reads a time before the epoch.
pub fn timestamp() -> (text: String)
    ensures
        exists|elapsed: Option<(u64, u32)>|
            (elapsed matches Some((_, millis)) ==> millis < 1000) && text@ == elapsed_text(elapsed),
{
    let now = clock_now();
    let elapsed = match elapsed_since_epoch(&now) {
        Some(d) => Some((duration_secs(&d), duration_subsec_millis(&d))),
        None => None,
    };
    timestamp_from_elapsed(elapsed)
}

/// A clock before the epoch gives `0.000`.
pub proof fn lemma_before_epoch_text()
    ensures
        elapsed_text(None) == "0.000"@,
{
    reveal_strlit("0.000");
    assert(elapsed_text(None) =~= "0.000"@);
}

/// The value of decimal digit character `c`.
pub open spec fn digit_value(c: char) -> int {
    (c as int) - ('0' as int)
}

/// The number that a string of decimal digits writes.
pub open spec fn decimal_value(s: Seq<char>) -> int
    decreases s.len(),
{
    if s.len() == 0 {
        0
    } else {
        decimal_value(s.drop_last()) * 10 + digit_value(s.last())
    }
}

/// The milliseconds since the epoch that a `secs.mmm` text stands for.
pub open spec fn timestamp_millis(text: Seq<char>) -> int {
    decimal_value(text.subrange(0, text.len() - 4)) * 1000 + decimal_value(
        text.subrange(text.len() - 3, text.len() as int),
    )
}

proof fn lemma_digit_value(d: int)
    requires
        0 <= d < 10,
    ensures
        digit_value(digit_char(d)) == d,
{
}

/// Reading back a number written in decimal gives the number.
pub proof fn lemma_decimal_round_trip(n: nat)
    ensures
        decimal_value(decimal(n)) == n,
    decreases n,
{
    let dn = decimal(n);
    if n < 10 {
        lemma_digit_value(n as int);
        assert(dn.drop_last() =~= Seq::<char>::empty());
        assert(decimal_value(dn) == decimal_value(dn.drop_last()) * 10 + digit_value(dn.last()));
    } else {
        lemma_digit_value((n % 10) as int);
        lemma_decimal_round_trip(n / 10);
        assert(dn.drop_last() =~= decimal(n / 10));
        assert(dn.last() == digit_char((n % 10) as int));
        assert(decimal_value(dn) == decimal_value(dn.drop_last()) * 10 + digit_value(dn.last()));
        assert((n / 10) * 10 + n % 10 == n);
    }
}

proof fn lemma_three_digits_value(millis: nat)
    requires
        millis < 1000,
    ensures
        decimal_value(three_digits(millis)) == millis,
{
    let three = three_digits(millis);
    let a = (millis / 100) as int;
    let b = ((millis / 10) % 10) as int;
    let c = (millis % 10) as int;
    lemma_digit_value(a);
    lemma_digit_value(b);
    lemma_digit_value(c);
    let s1 = three.drop_last().drop_last();
    let s2 = three.drop_last();
    assert(s1.drop_last() =~= Seq::<char>::empty());
    assert(decimal_value(s1) == decimal_value(s1.drop_last()) * 10 + digit_value(s1.last()));
    assert(decimal_value(s1) == a);
    assert(decimal_value(s2) == decimal_value(s2.drop_last()) * 10 + digit_value(s2.last()));
    assert(decimal_value(s2) == a * 10 + b);
    assert(decimal_value(three) == decimal_value(three.drop_last()) * 10 + digit_value(three.last()));
    assert(decimal_value(three) == (a * 10 + b) * 10 + c);
    assert((a * 10 + b) * 10 + c == millis);
}

/// A timestamp text stands for the milliseconds it was made from.
pub proof fn lemma_timestamp_round_trip(secs: nat, millis: nat)
    requires
        millis < 1000,
    ensures
        timestamp_millis(timestamp_text(secs, millis)) == secs * 1000 + millis,
{
    let t = timestamp_text(secs, millis);
    lemma_decimal_round_trip(secs);
    lemma_three_digits_value(millis);
    assert(t.subrange(0, t.len() - 4) =~= decimal(secs));
    assert(t.subrange(t.len() - 3, t.len() as int) =~= three_digits(millis));
}

/// Later clock readings give timestamps that stand for no fewer milliseconds.
pub proof fn lemma_timestamp_order(secs1: nat, millis1: nat, secs2: nat, millis2: nat)
    requires
        millis1 < 1000,
        millis2 < 1000,
        secs1 * 1000 + millis1 <= secs2 * 1000 + millis2,
    ensures
        timestamp_millis(timestamp_text(secs1, millis1)) <= timestamp_millis(
            timestamp_text(secs2, millis2),
        ),
{
    lemma_timestamp_round_trip(secs1, millis1);
    lemma_timestamp_round_trip(secs2, millis2);
}

/// The log file line for a message: timestamp, level in brackets, message, newline.
pub fn format_log_line(timestamp: &str, level: &str, msg: &str) -> (line: String)
    ensures
        line@ == log_line_text(timestamp@, level@, msg@),
{
    let mut line = timestamp.to_owned();
    proof {
        reveal_strlit(" [");
        reveal_strlit("] ");
        reveal_strlit("\n");
    }
    line.append(" [");
    line.append(level);
    line.append("] ");
    line.append(msg);
    line.append("\n");
    line
}

/// The log file line for a message logged now.
pub fn log_line(level: &str, msg: &str) -> (line: String)
    ensures
        exists|secs: nat, millis: nat|
            millis < 1000 && line@ == log_line_text(timestamp_text(secs, millis), level@, msg@),
{
    let ts = timestamp();
    let line = format_log_line(ts.as_str(), level, msg);
    let ghost w = choose|secs: nat, millis: nat| millis < 1000 && ts@ == timestamp_text(secs, millis);
    assert(line@ == log_line_text(timestamp_text(w.0, w.1), level@, msg@));
    line
}

/// Errors and warnings go to standard error, everything else to standard output.
pub fn log_to_stderr(level: &str) -> (to_stderr: bool)
    ensures
        to_stderr == (level@ == "ERROR"@ || level@ == "WARN "@),
{
    let owned = level.to_owned();
    owned == "ERROR".to_owned() || owned == "WARN ".to_owned()
}

/// The console line for a message: the trimmed level in brackets, then the message.
pub fn console_line(level: &str, msg: &str) -> (line: String)
    ensures
        line@ == console_text(level@, msg@),
{
    let mut line = String::new();
    proof {
        reveal_strlit("[");
        reveal_strlit("] ");
    }
    line.append("[");
    line.append(trim_whitespace(level));
    line.append("] ");
    line.append(msg);
    line
}

} // verus!
