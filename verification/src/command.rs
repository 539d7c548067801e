//! The commands of the serial console.
//!
//! A line is trimmed, cut at its first blank into a word and its arguments,
//! and the word is looked up. Arguments that are numbers with a fraction are
//! left as text for the host to read.

use crate::motion::{same_text, WaveKind};
use vstd::prelude::*;
use vstd::string::*;

verus! {

/// The white space of Unicode.
pub open spec fn is_space(c: char) -> bool {
    let u: u32 = c as u32;
    (0x09 <= u <= 0x0d) || u == 0x20 || u == 0x85 || u == 0xa0 || u == 0x1680 || (0x2000 <= u
        <= 0x200a) || u == 0x2028 || u == 0x2029 || u == 0x202f || u == 0x205f || u == 0x3000
}

/// The place of the first character from `from` on that is no white space;
/// the length of `s` where there is none.
pub open spec fn skip_spaces(s: Seq<char>, from: int) -> int
    decreases s.len() - from,
{
    if from < 0 || from >= s.len() {
        s.len() as int
    } else if is_space(s[from]) {
        skip_spaces(s, from + 1)
    } else {
        from
    }
}

/// The place of the first white space from `from` on; the length of `s`
/// where there is none.
pub open spec fn skip_word(s: Seq<char>, from: int) -> int
    decreases s.len() - from,
{
    if from < 0 || from >= s.len() {
        s.len() as int
    } else if is_space(s[from]) {
        from
    } else {
        skip_word(s, from + 1)
    }
}

/// The place after the last character before `to` that is no white space;
/// zero where there is none.
pub open spec fn drop_spaces(s: Seq<char>, to: int) -> int
    decreases to,
{
    if to <= 0 || to > s.len() {
        0
    } else if is_space(s[to - 1]) {
        drop_spaces(s, to - 1)
    } else {
        to
    }
}

/// The place of the first blank in `s` from `from` on and before `to`; `to`
/// where there is none.
pub open spec fn first_blank(s: Seq<char>, from: int, to: int) -> int
    decreases to - from,
{
    if from >= to || from < 0 || from >= s.len() {
        to
    } else if s[from] == ' ' {
        from
    } else {
        first_blank(s, from + 1, to)
    }
}

/// `s` without the white space at its ends.
pub open spec fn trimmed(s: Seq<char>) -> Seq<char> {
    if skip_spaces(s, 0) < drop_spaces(s, s.len() as int) {
        s.subrange(skip_spaces(s, 0), drop_spaces(s, s.len() as int))
    } else {
        Seq::empty()
    }
}

/// Where the word of a line ends: at the first blank of the trimmed line,
/// or at its end.
pub open spec fn word_end(line: Seq<char>) -> int {
    first_blank(line, skip_spaces(line, 0), drop_spaces(line, line.len() as int))
}

/// The word of a line: the trimmed line up to its first blank.
pub open spec fn word(line: Seq<char>) -> Seq<char> {
    if skip_spaces(line, 0) < drop_spaces(line, line.len() as int) {
        line.subrange(skip_spaces(line, 0), word_end(line))
    } else {
        Seq::empty()
    }
}

/// The arguments of a line: what follows the first blank of the trimmed
/// line. A line without a blank has none.
pub open spec fn arguments(line: Seq<char>) -> Seq<char> {
    if skip_spaces(line, 0) < drop_spaces(line, line.len() as int) && word_end(line)
        < drop_spaces(line, line.len() as int) {
        line.subrange(word_end(line) + 1, drop_spaces(line, line.len() as int))
    } else {
        Seq::empty()
    }
}

/// The decimal digits.
pub open spec fn is_digit(c: char) -> bool {
    '0' <= c <= '9'
}

/// The number that decimal digits stand for.
pub open spec fn decimal(digits: Seq<char>) -> nat
    decreases digits.len(),
{
    if digits.len() == 0 {
        0
    } else {
        decimal(digits.drop_last()) * 10 + (digits.last() as u32 - '0' as u32) as nat
    }
}

/// The digits of a number: the text without a plus sign at its front.
pub open spec fn unsigned(text: Seq<char>) -> Seq<char> {
    if text.len() > 0 && text[0] == '+' {
        text.drop_first()
    } else {
        text
    }
}

/// The number that a text stands for: one or more decimal digits, with or
/// without a plus sign before them, that stay within 32 bits.
pub open spec fn number(text: Seq<char>) -> Option<u32> {
    if unsigned(text).len() > 0 && (forall|i: int|
        0 <= i < unsigned(text).len() ==> is_digit(#[trigger] unsigned(text)[i])) && decimal(
        unsigned(text),
    ) <= u32::MAX {
        Some(decimal(unsigned(text)) as u32)
    } else {
        None
    }
}

/// The runs of characters of `s` from `from` on that are no white space,
/// in order.
pub open spec fn tokens_from(s: Seq<char>, from: int) -> Seq<Seq<char>>
    decreases s.len() - from,
    via tokens_from_decreases
{
    if from < 0 || skip_spaces(s, from) >= s.len() {
        Seq::empty()
    } else {
        seq![s.subrange(skip_spaces(s, from), skip_word(s, skip_spaces(s, from)))] + tokens_from(
            s,
            skip_word(s, skip_spaces(s, from)),
        )
    }
}

#[via_fn]
proof fn tokens_from_decreases(s: Seq<char>, from: int) {
    if 0 <= from && skip_spaces(s, from) < s.len() {
        if from <= s.len() {
            lemma_skip_spaces(s, from);
            lemma_skip_word(s, skip_spaces(s, from));
        }
    }
}

/// The runs of characters of `s` that are no white space, in order.
pub open spec fn tokens(s: Seq<char>) -> Seq<Seq<char>> {
    tokens_from(s, 0)
}

/// The texts that strings hold.
pub open spec fn texts(strings: Seq<String>) -> Seq<Seq<char>> {
    Seq::new(strings.len(), |i: int| strings[i]@)
}

/// `skip_spaces` stops at the first character that is no white space.
pub proof fn lemma_skip_spaces(s: Seq<char>, from: int)
    requires
        0 <= from <= s.len(),
    ensures
        from <= skip_spaces(s, from) <= s.len(),
        skip_spaces(s, from) < s.len() ==> !is_space(s[skip_spaces(s, from)]),
        forall|i: int| from <= i < skip_spaces(s, from) ==> is_space(#[trigger] s[i]),
    decreases s.len() - from,
{
    if from < s.len() && is_space(s[from]) {
        lemma_skip_spaces(s, from + 1);
    }
}

/// `skip_word` stops at the first white space.
pub proof fn lemma_skip_word(s: Seq<char>, from: int)
    requires
        0 <= from <= s.len(),
    ensures
        from <= skip_word(s, from) <= s.len(),
        skip_word(s, from) < s.len() ==> is_space(s[skip_word(s, from)]),
        forall|i: int| from <= i < skip_word(s, from) ==> !is_space(#[trigger] s[i]),
        from < s.len() && !is_space(s[from]) ==> from < skip_word(s, from),
    decreases s.len() - from,
{
    if from < s.len() && !is_space(s[from]) {
        lemma_skip_word(s, from + 1);
    }
}

/// `drop_spaces` stops after the last character that is no white space.
pub proof fn lemma_drop_spaces(s: Seq<char>, to: int)
    requires
        0 <= to <= s.len(),
    ensures
        0 <= drop_spaces(s, to) <= to,
        drop_spaces(s, to) > 0 ==> !is_space(s[drop_spaces(s, to) - 1]),
        forall|i: int| drop_spaces(s, to) <= i < to ==> is_space(#[trigger] s[i]),
    decreases to,
{
    if to > 0 && is_space(s[to - 1]) {
        lemma_drop_spaces(s, to - 1);
    }
}

/// `first_blank` stops at the first blank.
pub proof fn lemma_first_blank(s: Seq<char>, from: int, to: int)
    requires
        0 <= from <= to <= s.len(),
    ensures
        from <= first_blank(s, from, to) <= to,
        first_blank(s, from, to) < to ==> s[first_blank(s, from, to)] == ' ',
        forall|i: int| from <= i < first_blank(s, from, to) ==> #[trigger] s[i] != ' ',
    decreases to - from,
{
    if from < to && s[from] != ' ' {
        lemma_first_blank(s, from + 1, to);
    }
}


/// Trimming takes white space off the ends of a line and nothing else: the
/// line is white space, the trimmed line, and white space again, and the
/// trimmed line neither begins nor ends with white space.
pub proof fn law_trimmed(line: Seq<char>)
    ensures
        ({
            let t = trimmed(line);
            let a = skip_spaces(line, 0);
            &&& t.len() > 0 ==> !is_space(t.first()) && !is_space(t.last())
            &&& t.len() > 0 ==> 0 <= a && a + t.len() <= line.len() && line.subrange(
                a,
                a + t.len(),
            ) == t
            &&& forall|i: int|
                0 <= i < line.len() && (t.len() == 0 || i < a || i >= a + t.len()) ==> is_space(
                    #[trigger] line[i],
                )
        }),
{
    lemma_skip_spaces(line, 0);
    lemma_drop_spaces(line, line.len() as int);
    let a = skip_spaces(line, 0);
    let b = drop_spaces(line, line.len() as int);
    if a >= b {
        assert forall|i: int| 0 <= i < line.len() implies is_space(#[trigger] line[i]) by {
            if i >= a {
                assert(i >= b);
            }
        }
    }
}

/// A line is cut at its first blank: the word holds no blank, and the
/// trimmed line is the word alone, or the word, one blank and the
/// arguments.
pub proof fn law_word_and_arguments(line: Seq<char>)
    ensures
        forall|i: int| 0 <= i < word(line).len() ==> #[trigger] word(line)[i] != ' ',
        trimmed(line) == word(line) || trimmed(line) == word(line) + seq![' '] + arguments(line),
        trimmed(line) == word(line) <==> forall|i: int|
            0 <= i < trimmed(line).len() ==> #[trigger] trimmed(line)[i] != ' ',
{
    lemma_skip_spaces(line, 0);
    lemma_drop_spaces(line, line.len() as int);
    let a = skip_spaces(line, 0);
    let b = drop_spaces(line, line.len() as int);
    if a < b {
        lemma_first_blank(line, a, b);
        let k = word_end(line);
        assert forall|i: int| 0 <= i < word(line).len() implies #[trigger] word(line)[i]
            != ' ' by {
            assert(word(line)[i] == line[a + i]);
        }
        if k < b {
            assert(trimmed(line) =~= word(line) + seq![' '] + arguments(line));
            assert(trimmed(line)[k - a] == ' ');
        } else {
            assert(trimmed(line) =~= word(line));
        }
    } else {
        assert(trimmed(line) =~= word(line));
    }
}

/// Every token holds at least one character and no white space.
pub proof fn law_tokens(s: Seq<char>, from: int)
    requires
        0 <= from <= s.len(),
    ensures
        forall|i: int|
            0 <= i < tokens_from(s, from).len() ==> (#[trigger] tokens_from(s, from)[i]).len() > 0
                && forall|j: int|
                0 <= j < tokens_from(s, from)[i].len() ==> !is_space(tokens_from(s, from)[i][j]),
    decreases s.len() - from,
{
    lemma_skip_spaces(s, from);
    let a = skip_spaces(s, from);
    if a < s.len() {
        lemma_skip_word(s, a);
        let b = skip_word(s, a);
        law_tokens(s, b);
        assert forall|i: int| 0 <= i < tokens_from(s, from).len() implies (#[trigger] tokens_from(
            s,
            from,
        )[i]).len() > 0 && forall|j: int|
            0 <= j < tokens_from(s, from)[i].len() ==> !is_space(tokens_from(s, from)[i][j]) by {
            if i == 0 {
                assert(tokens_from(s, from)[0] == s.subrange(a, b));
            } else {
                assert(tokens_from(s, from)[i] == tokens_from(s, b)[i - 1]);
            }
        }
    }
}

/// What a line of the console asks for. A command that takes a text or a
/// number with a fraction finds it in the arguments of the line.
#[derive(Clone, Copy, Debug, PartialEq, Eq, Structural)]
pub enum Command {
    /// Store the arguments as the network name.
    SetWifiSsid,
    /// Store the arguments as the network password.
    SetWifiPassword,
    SetPinModbusTx(u32),
    SetPinModbusRx(u32),
    SetPinModbusDeRe(u32),
    GetPinConfiguration,
    /// Take the arguments, a JSON text, as the configuration.
    SetMotorConfig,
    GetMotorConfig,
    Pause,
    Start,
    /// Take the arguments as the tempo.
    SetBpm,
    SetWave(WaveKind),
    /// Take the arguments as the pause position.
    SetPausedPosition,
    /// Take the arguments as the depth.
    SetDepth,
    SetDepthTop(bool),
    /// Take the arguments as the sharpness.
    SetSharpness,
    /// Take the tokens of the arguments as the spline points.
    SetSplinePoints,
    Help,
    /// The word is a command, but its arguments are not what it takes.
    Invalid(Fault),
    /// The word is no command.
    Unknown,
}

/// What is wrong with the arguments of a command.
#[derive(Clone, Copy, Debug, PartialEq, Eq, Structural)]
pub enum Fault {
    /// A pin must be a number.
    Pin,
    /// A waveform must be `sine`, `thrust` or `spline`.
    Wave,
    /// A flag must be `true` or `false`.
    Flag,
    /// There must be at least one spline point.
    NoPoints,
}

/// The command that sets a pin, or the fault in its arguments.
pub open spec fn pin_command(which: int, args: Seq<char>) -> Command {
    match number(args) {
        Some(pin) => if which == 0 {
            Command::SetPinModbusTx(pin)
        } else if which == 1 {
            Command::SetPinModbusRx(pin)
        } else {
            Command::SetPinModbusDeRe(pin)
        },
        None => Command::Invalid(Fault::Pin),
    }
}

/// The command that a word and its arguments stand for.
pub open spec fn command_for(word: Seq<char>, args: Seq<char>) -> Command {
    if word == "set_wifi_ssid"@ {
        Command::SetWifiSsid
    } else if word == "set_wifi_password"@ {
        Command::SetWifiPassword
    } else if word == "set_pin_modbus_tx"@ {
        pin_command(0, args)
    } else if word == "set_pin_modbus_rx"@ {
        pin_command(1, args)
    } else if word == "set_pin_modbus_de_re"@ {
        pin_command(2, args)
    } else if word == "get_pin_configuration"@ {
        Command::GetPinConfiguration
    } else if word == "set_motor_config"@ {
        Command::SetMotorConfig
    } else if word == "get_motor_config"@ {
        Command::GetMotorConfig
    } else if word == "pause"@ {
        Command::Pause
    } else if word == "start"@ {
        Command::Start
    } else if word == "set_bpm"@ {
        Command::SetBpm
    } else if word == "set_wave"@ {
        if args == "sine"@ {
            Command::SetWave(WaveKind::Sine)
        } else if args == "thrust"@ {
            Command::SetWave(WaveKind::Thrust)
        } else if args == "spline"@ {
            Command::SetWave(WaveKind::Spline)
        } else {
            Command::Invalid(Fault::Wave)
        }
    } else if word == "set_paused_position"@ {
        Command::SetPausedPosition
    } else if word == "set_depth"@ {
        Command::SetDepth
    } else if word == "set_depth_top"@ {
        if args == "true"@ {
            Command::SetDepthTop(true)
        } else if args == "false"@ {
            Command::SetDepthTop(false)
        } else {
            Command::Invalid(Fault::Flag)
        }
    } else if word == "set_sharpness"@ {
        Command::SetSharpness
    } else if word == "help"@ {
        Command::Help
    } else if word == "set_spline_points"@ {
        if tokens(args).len() > 0 {
            Command::SetSplinePoints
        } else {
            Command::Invalid(Fault::NoPoints)
        }
    } else {
        Command::Unknown
    }
}

/// A line of the console, taken apart.
pub struct CommandLine {
    pub command: Command,
    /// The word of the line.
    pub name: String,
    /// The arguments of the line.
    pub args: String,
}

fn space(c: char) -> (r: bool)
    ensures
        r == is_space(c),
{
    let u: u32 = c as u32;
    (0x09 <= u && u <= 0x0d) || u == 0x20 || u == 0x85 || u == 0xa0 || u == 0x1680 || (0x2000 <= u
        && u <= 0x200a) || u == 0x2028 || u == 0x2029 || u == 0x202f || u == 0x205f || u == 0x3000
}

fn chars_of(s: &str) -> (v: Vec<char>)
    ensures
        v@ == s@,
{
    let mut v: Vec<char> = Vec::new();
    for c in it: s.chars()
        invariant
            v@ == it.seq().take(it.index()),
    {
        v.push(c);
    }
    v
}

fn skip_spaces_from(chars: &Vec<char>, from: usize) -> (r: usize)
    requires
        from <= chars@.len(),
    ensures
        r == skip_spaces(chars@, from as int),
        from <= r <= chars@.len(),
{
    let mut i: usize = from;
    while i < chars.len() && space(chars[i])
        invariant
            from <= i <= chars@.len(),
            skip_spaces(chars@, from as int) == skip_spaces(chars@, i as int),
        decreases chars@.len() - i,
    {
        i = i + 1;
    }
    i
}

fn skip_word_from(chars: &Vec<char>, from: usize) -> (r: usize)
    requires
        from <= chars@.len(),
    ensures
        r == skip_word(chars@, from as int),
        from <= r <= chars@.len(),
{
    let mut i: usize = from;
    while i < chars.len() && !space(chars[i])
        invariant
            from <= i <= chars@.len(),
            skip_word(chars@, from as int) == skip_word(chars@, i as int),
        decreases chars@.len() - i,
    {
        i = i + 1;
    }
    i
}

fn drop_spaces_to(chars: &Vec<char>, to: usize) -> (r: usize)
    requires
        to <= chars@.len(),
    ensures
        r == drop_spaces(chars@, to as int),
        r <= to,
{
    let mut i: usize = to;
    while i > 0 && space(chars[i - 1])
        invariant
            i <= to <= chars@.len(),
            drop_spaces(chars@, to as int) == drop_spaces(chars@, i as int),
        decreases i,
    {
        i = i - 1;
    }
    i
}

fn first_blank_in(chars: &Vec<char>, from: usize, to: usize) -> (r: usize)
    requires
        from <= to <= chars@.len(),
    ensures
        r == first_blank(chars@, from as int, to as int),
        from <= r <= to,
{
    let mut i: usize = from;
    while i < to && chars[i] != ' '
        invariant
            from <= i <= to <= chars@.len(),
            first_blank(chars@, from as int, to as int) == first_blank(chars@, i as int, to as int),
        decreases to - i,
    {
        i = i + 1;
    }
    i
}

proof fn lemma_decimal_prefix(digits: Seq<char>, i: int)
    requires
        0 <= i <= digits.len(),
        forall|j: int| 0 <= j < digits.len() ==> is_digit(#[trigger] digits[j]),
    ensures
        decimal(digits.take(i)) <= decimal(digits),
    decreases digits.len() - i,
{
    if i < digits.len() {
        lemma_decimal_prefix(digits, i + 1);
        assert(digits.take(i + 1).drop_last() =~= digits.take(i));
        assert(is_digit(digits[i]));
    } else {
        assert(digits.take(i) =~= digits);
    }
}

/// The number that `text` stands for, if it stands for one.
pub fn parse_u32(text: &str) -> (r: Option<u32>)
    ensures
        r == number(text@),
{
    let chars = chars_of(text);
    let start: usize = if chars.len() > 0 && chars[0] == '+' {
        1
    } else {
        0
    };
    let ghost digits = unsigned(text@);
    assert(digits =~= chars@.subrange(start as int, chars@.len() as int));
    if start == chars.len() {
        return None;
    }
    let mut value: u64 = 0;
    let mut i: usize = start;
    while i < chars.len()
        invariant
            start <= i <= chars@.len(),
            digits == chars@.subrange(start as int, chars@.len() as int),
            digits == unsigned(text@),
            forall|j: int| 0 <= j < i - start ==> is_digit(#[trigger] digits[j]),
            value == decimal(digits.take(i - start)),
            value <= u32::MAX,
        decreases chars@.len() - i,
    {
        let c = chars[i];
        if !('0' <= c && c <= '9') {
            assert(!is_digit(digits[i - start]));
            return None;
        }
        let digit: u64 = (c as u32 - '0' as u32) as u64;
        assert(digits.take(i - start + 1).drop_last() =~= digits.take(i - start));
        value = value * 10 + digit;
        if value > u32::MAX as u64 {
            proof {
                if forall|j: int| 0 <= j < digits.len() ==> is_digit(#[trigger] digits[j]) {
                    lemma_decimal_prefix(digits, i - start + 1);
                }
            }
            return None;
        }
        i = i + 1;
    }
    assert(digits.take(i - start) =~= digits);
    Some(value as u32)
}

/// The tokens of `text`: its runs of characters that are no white space.
pub fn split_whitespace(text: &str) -> (r: Vec<String>)
    ensures
        texts(r@) == tokens(text@),
{
    let chars = chars_of(text);
    let mut out: Vec<String> = Vec::new();
    let mut i: usize = 0;
    assert(texts(out@) =~= Seq::<Seq<char>>::empty());
    loop
        invariant
            i <= chars@.len(),
            chars@ == text@,
            tokens(text@) == texts(out@) + tokens_from(text@, i as int),
        ensures
            texts(out@) == tokens(text@),
        decreases chars@.len() - i,
    {
        let a = skip_spaces_from(&chars, i);
        if a >= chars.len() {
            assert(texts(out@) + Seq::<Seq<char>>::empty() =~= texts(out@));
            break ;
        }
        let b = skip_word_from(&chars, a);
        proof {
            lemma_skip_word(chars@, a as int);
        }
        let token = text.substring_char(a, b).to_owned();
        let ghost before = texts(out@);
        out.push(token);
        assert(texts(out@) =~= before + seq![text@.subrange(a as int, b as int)]);
        assert(tokens(text@) =~= texts(out@) + tokens_from(text@, b as int));
        i = b;
    }
    out
}

fn pin(which: u8, args: &str) -> (r: Command)
    requires
        which < 3,
    ensures
        r == pin_command(which as int, args@),
{
    match parse_u32(args) {
        Some(pin) => if which == 0 {
            Command::SetPinModbusTx(pin)
        } else if which == 1 {
            Command::SetPinModbusRx(pin)
        } else {
            Command::SetPinModbusDeRe(pin)
        },
        None => Command::Invalid(Fault::Pin),
    }
}

/// The command that `word` and `args` stand for.
pub fn command(word: &str, args: &str) -> (r: Command)
    ensures
        r == command_for(word@, args@),
{
    if same_text(word, "set_wifi_ssid") {
        Command::SetWifiSsid
    } else if same_text(word, "set_wifi_password") {
        Command::SetWifiPassword
    } else if same_text(word, "set_pin_modbus_tx") {
        pin(0, args)
    } else if same_text(word, "set_pin_modbus_rx") {
        pin(1, args)
    } else if same_text(word, "set_pin_modbus_de_re") {
        pin(2, args)
    } else if same_text(word, "get_pin_configuration") {
        Command::GetPinConfiguration
    } else if same_text(word, "set_motor_config") {
        Command::SetMotorConfig
    } else if same_text(word, "get_motor_config") {
        Command::GetMotorConfig
    } else if same_text(word, "pause") {
        Command::Pause
    } else if same_text(word, "start") {
        Command::Start
    } else if same_text(word, "set_bpm") {
        Command::SetBpm
    } else if same_text(word, "set_wave") {
        if same_text(args, "sine") {
            Command::SetWave(WaveKind::Sine)
        } else if same_text(args, "thrust") {
            Command::SetWave(WaveKind::Thrust)
        } else if same_text(args, "spline") {
            Command::SetWave(WaveKind::Spline)
        } else {
            Command::Invalid(Fault::Wave)
        }
    } else if same_text(word, "set_paused_position") {
        Command::SetPausedPosition
    } else if same_text(word, "set_depth") {
        Command::SetDepth
    } else if same_text(word, "set_depth_top") {
        if same_text(args, "true") {
            Command::SetDepthTop(true)
        } else if same_text(args, "false") {
            Command::SetDepthTop(false)
        } else {
            Command::Invalid(Fault::Flag)
        }
    } else if same_text(word, "set_sharpness") {
        Command::SetSharpness
    } else if same_text(word, "help") {
        Command::Help
    } else if same_text(word, "set_spline_points") {
        let chars = chars_of(args);
        let first = skip_spaces_from(&chars, 0);
        if first < chars.len() {
            Command::SetSplinePoints
        } else {
            Command::Invalid(Fault::NoPoints)
        }
    } else {
        Command::Unknown
    }
}

/// Takes a line of the console apart and looks its word up.
pub fn parse_line(line: &str) -> (r: CommandLine)
    ensures
        r.name@ == word(line@),
        r.args@ == arguments(line@),
        r.command == command_for(word(line@), arguments(line@)),
{
    let chars = chars_of(line);
    let start = skip_spaces_from(&chars, 0);
    let end = drop_spaces_to(&chars, chars.len());
    let (name, args) = if start < end {
        let cut = first_blank_in(&chars, start, end);
        let name = line.substring_char(start, cut).to_owned();
        let args = if cut < end {
            line.substring_char(cut + 1, end).to_owned()
        } else {
            String::new()
        };
        (name, args)
    } else {
        (String::new(), String::new())
    };
    let command = command(name.as_str(), args.as_str());
    CommandLine { command, name, args }
}

} // verus!
