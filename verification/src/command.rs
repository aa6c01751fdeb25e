//! Command processor: splits a committed line into verb and arguments,
//! dispatches it, and produces the exact response text and the timer
//! action, if any.
use vstd::prelude::*;
use crate::line::{all_printable, is_printable};
use crate::parse::{all_ascii, parse_u32, spec_parse_u32};
use crate::text::push_str_chars;

verus! {

/// The highest blink frequency the shell accepts, in Hz.
pub const MAX_FREQ_HZ: u32 = 1000000;

/// `s` with its leading run of spaces removed.
pub open spec fn drop_spaces(s: Seq<char>) -> Seq<char>
    decreases s.len(),
{
    if s.len() > 0 && s[0] == ' ' {
        drop_spaces(s.skip(1))
    } else {
        s
    }
}

/// The leading run of non-space characters of `s`.
pub open spec fn take_word(s: Seq<char>) -> Seq<char>
    decreases s.len(),
{
    if s.len() > 0 && s[0] != ' ' {
        seq![s[0]] + take_word(s.skip(1))
    } else {
        Seq::empty()
    }
}

/// `s` with its leading run of non-space characters removed.
pub open spec fn after_word(s: Seq<char>) -> Seq<char>
    decreases s.len(),
{
    if s.len() > 0 && s[0] != ' ' {
        after_word(s.skip(1))
    } else {
        s
    }
}

/// The verb of a committed line: its first whitespace-delimited token.
pub open spec fn verb_of(line: Seq<char>) -> Seq<char> {
    take_word(drop_spaces(line))
}

/// The argument text of a committed line: everything after the first
/// whitespace run that follows the verb, not tokenized further.
pub open spec fn args_of(line: Seq<char>) -> Seq<char> {
    drop_spaces(after_word(drop_spaces(line)))
}

/// A committed line, interpreted.
pub enum Command {
    /// Clear the terminal display.
    Clear,
    /// Print help; the topic selects the page.
    Help { topic: Vec<char> },
    /// Retune the blink frequency; the raw argument text is kept so a
    /// rejected argument can be named in the error message.
    Blink { args: Vec<char> },
    /// An empty line.
    Empty,
    /// Any other verb.
    Unknown { verb: Vec<char> },
}

/// The prompt marker written after every response.
pub open spec fn spec_prompt() -> Seq<char> {
    "\u{bb} "@
}

/// The terminal clear-display sequence.
pub open spec fn spec_clear_screen() -> Seq<char> {
    "\u{1b}[2J\u{1b}[1;1H"@
}

/// The general help page.
pub open spec fn spec_help_text() -> Seq<char> {
    "\r\nPlacebo Shell v0.0.1\r\n\r\nCOMMANDS:\r\n\x20 blink <freq>     Set blink freqency\r\n\x20 help [pinout]    Print help message\r\n\x20 clear            Clear screen\r\nCONTROL KEYS:\r\n\x20 Ctrl+B           Bell\r\n\r\n"@
}

/// The pinout help page.
pub open spec fn spec_pinout_text() -> Seq<char> {
    "\r\n\x20            STM32G0xxFx  \r\n\x20           \u{2554}\u{2550}\u{2550}\u{2550}\u{2550}\u{2550}\u{2550}\u{2550}\u{2550}\u{2550}\u{2550}\u{2550}\u{2557} \r\n\x20   PB7|PB8 \u{2563}1 \u{a4}      20\u{2560} PB3|PB4|PB5|PB6  \r\n\x20  PC9|PC14 \u{2563}2        19\u{2560} PA14|PA15 (SWDIO)\r\n\x20(LED) PC15 \u{2563}3        18\u{2560} PA13     (SWDCLK)\r\n\x20       Vdd \u{2563}4        17\u{2560} PA12[PA10]       \r\n\x20       Vss \u{2563}5        16\u{2560} PA11[PA9]        \r\n\x20      nRst \u{2563}6        15\u{2560} PA8|PB0|PB1|PB2  \r\n\x20       PA0 \u{2563}7        14\u{2560} PA7              \r\n\x20       PA1 \u{2563}8        13\u{2560} PA6              \r\n\x20(TX)   PA2 \u{2563}9        12\u{2560} PA5              \r\n\x20(RX)   PA3 \u{2563}10       11\u{2560} PA4              \r\n\x20           \u{255a}\u{2550}\u{2550}\u{2550}\u{2550}\u{2550}\u{2550}\u{2550}\u{2550}\u{2550}\u{2550}\u{2550}\u{255d} \r\n\r\n"@
}

/// The body of the response for a committed line, before the prompt.
pub open spec fn spec_response_body(line: Seq<char>) -> Seq<char> {
    let v = verb_of(line);
    let a = args_of(line);
    if v.len() == 0 {
        "\r\n"@
    } else if v == "clear"@ {
        spec_clear_screen()
    } else if v == "help"@ {
        if a == "pinout"@ {
            spec_pinout_text()
        } else {
            spec_help_text()
        }
    } else if v == "blink"@ {
        if spec_blink_accepted(a) {
            "\r\n"@
        } else {
            "\r\nunsupported blink frequency: \""@ + a + "\"\r\n"@
        }
    } else {
        "\r\nunsupported command: \""@ + v + "\"\r\n"@
    }
}

/// The response the shell writes for a committed line, prompt included.
pub open spec fn spec_response(line: Seq<char>) -> Seq<char> {
    spec_response_body(line) + spec_prompt()
}

/// Whether a blink argument is accepted: it parses as an unsigned
/// integer no greater than the highest supported frequency.
pub open spec fn spec_blink_accepted(a: Seq<char>) -> bool {
    match spec_parse_u32(a) {
        Some(f) => f <= MAX_FREQ_HZ,
        None => false,
    }
}

/// The timer-interrupt rate a committed line asks for, if any: twice the
/// accepted blink frequency, one interrupt per edge of a full cycle.
pub open spec fn spec_reprogram(line: Seq<char>) -> Option<u32> {
    if verb_of(line) == "blink"@ && verb_of(line).len() > 0 {
        match spec_parse_u32(args_of(line)) {
            Some(f) => if f <= MAX_FREQ_HZ {
                Some((2 * f) as u32)
            } else {
                None
            },
            None => None,
        }
    } else {
        None
    }
}

/// What processing a committed line yields: the bytes to echo back and,
/// for an accepted blink command, the new timer-interrupt rate in Hz.
pub struct CommandOutcome {
    pub out: Vec<char>,
    pub reprogram: Option<u32>,
}

/// Whether two character vectors hold the same characters.
pub fn chars_eq(a: &Vec<char>, b: &Vec<char>) -> (r: bool)
    ensures
        r == (a@ == b@),
{
    if a.len() != b.len() {
        return false;
    }
    let mut i: usize = 0;
    while i < a.len()
        invariant
            i <= a@.len() == b@.len(),
            forall|k: int| 0 <= k < i ==> a@[k] == b@[k],
        decreases a@.len() - i,
    {
        if a[i] != b[i] {
            return false;
        }
        i = i + 1;
    }
    proof {
        assert(a@ =~= b@);
    }
    true
}

/// A copy of `s[from..to]`.
pub fn copy_range(s: &Vec<char>, from: usize, to: usize) -> (r: Vec<char>)
    requires
        from <= to <= s@.len(),
    ensures
        r@ == s@.subrange(from as int, to as int),
{
    let mut r: Vec<char> = Vec::new();
    let mut i: usize = from;
    while i < to
        invariant
            from <= i <= to <= s@.len(),
            r@ == s@.subrange(from as int, i as int),
        decreases to - i,
    {
        let ghost pre = r@;
        r.push(s[i]);
        proof {
            assert(pre.push(s@[i as int]) =~= s@.subrange(from as int, i + 1));
        }
        i = i + 1;
    }
    r
}

/// Appends the characters of `s` to `out`.
pub fn push_chars(out: &mut Vec<char>, s: &Vec<char>)
    ensures
        final(out)@ == old(out)@ + s@,
{
    let mut i: usize = 0;
    while i < s.len()
        invariant
            i <= s@.len(),
            out@ == old(out)@ + s@.subrange(0, i as int),
        decreases s@.len() - i,
    {
        let ghost pre = out@;
        out.push(s[i]);
        proof {
            assert(pre.push(s@[i as int]) =~= old(out)@ + s@.subrange(0, i + 1));
        }
        i = i + 1;
    }
    proof {
        assert(old(out)@ + s@.subrange(0, s@.len() as int) =~= old(out)@ + s@);
    }
}

/// Splits a committed line into its verb and its argument text.
pub fn split_line(line: &Vec<char>) -> (r: (Vec<char>, Vec<char>))
    ensures
        r.0@ == verb_of(line@),
        r.1@ == args_of(line@),
{
    let ghost l = line@;
    proof {
        assert(l.skip(0) =~= l);
    }
    let mut i: usize = 0;
    while i < line.len() && line[i] == ' '
        invariant
            l == line@,
            i <= l.len(),
            drop_spaces(l) == drop_spaces(l.skip(i as int)),
        decreases l.len() - i,
    {
        proof {
            assert(l.skip(i as int).skip(1) =~= l.skip(i + 1));
        }
        i = i + 1;
    }
    proof {
        assert(drop_spaces(l) == l.skip(i as int));
    }
    let mut j: usize = i;
    while j < line.len() && line[j] != ' '
        invariant
            l == line@,
            i <= j <= l.len(),
            drop_spaces(l) == l.skip(i as int),
            take_word(l.skip(i as int)) == l.subrange(i as int, j as int) + take_word(
                l.skip(j as int),
            ),
            after_word(l.skip(i as int)) == after_word(l.skip(j as int)),
        decreases l.len() - j,
    {
        proof {
            assert(l.skip(j as int).skip(1) =~= l.skip(j + 1));
            assert(take_word(l.skip(j as int)) == seq![l[j as int]] + take_word(l.skip(j + 1)));
            assert(l.subrange(i as int, j as int) + seq![l[j as int]] + take_word(l.skip(j + 1))
                =~= l.subrange(i as int, j + 1) + take_word(l.skip(j + 1)));
        }
        j = j + 1;
    }
    proof {
        assert(take_word(l.skip(j as int)) == Seq::<char>::empty());
        assert(l.subrange(i as int, j as int) + Seq::<char>::empty() =~= l.subrange(
            i as int,
            j as int,
        ));
        assert(verb_of(l) == l.subrange(i as int, j as int));
        assert(after_word(l.skip(j as int)) == l.skip(j as int));
    }
    let mut k: usize = j;
    while k < line.len() && line[k] == ' '
        invariant
            l == line@,
            j <= k <= l.len(),
            drop_spaces(l.skip(j as int)) == drop_spaces(l.skip(k as int)),
        decreases l.len() - k,
    {
        proof {
            assert(l.skip(k as int).skip(1) =~= l.skip(k + 1));
        }
        k = k + 1;
    }
    proof {
        assert(drop_spaces(l.skip(k as int)) == l.skip(k as int));
        assert(args_of(l) == l.skip(k as int));
        assert(l.skip(k as int) =~= l.subrange(k as int, l.len() as int));
    }
    let verb = copy_range(line, i, j);
    let args = copy_range(line, k, line.len());
    (verb, args)
}

/// Interprets a committed line as a command.
pub fn parse_command(line: &Vec<char>) -> (cmd: Command)
    ensures
        ({
            let v = verb_of(line@);
            let a = args_of(line@);
            match cmd {
                Command::Clear => v == "clear"@,
                Command::Help { topic } => v == "help"@ && topic@ == a,
                Command::Blink { args } => v == "blink"@ && args@ == a,
                Command::Empty => v.len() == 0,
                Command::Unknown { verb } => verb@ == v && v.len() > 0 && v != "clear"@ && v
                    != "help"@ && v != "blink"@,
            }
        }),
{
    let (verb, args) = split_line(line);
    if verb.len() == 0 {
        Command::Empty
    } else if chars_eq(&verb, &crate::text::chars_of("clear")) {
        Command::Clear
    } else if chars_eq(&verb, &crate::text::chars_of("help")) {
        Command::Help { topic: args }
    } else if chars_eq(&verb, &crate::text::chars_of("blink")) {
        Command::Blink { args }
    } else {
        Command::Unknown { verb }
    }
}

/// Processes a committed line: the exact response text, prompt marker
/// included, and the timer-interrupt rate to program for an accepted
/// blink command.
pub fn process_line(line: &Vec<char>) -> (r: CommandOutcome)
    requires
        all_printable(line@),
    ensures
        r.out@ == spec_response(line@),
        r.reprogram == spec_reprogram(line@),
{
    proof {
        lemma_split_printable(line@);
        reveal_strlit("clear");
        reveal_strlit("help");
        reveal_strlit("blink");
    }
    let cmd = parse_command(line);
    let mut out: Vec<char> = Vec::new();
    let mut reprogram: Option<u32> = None;
    match cmd {
        Command::Empty => {
            push_str_chars(&mut out, "\r\n");
            proof {
                assert(out@ == spec_response_body(line@));
            }
        },
        Command::Clear => {
            push_str_chars(&mut out, "\u{1b}[2J\u{1b}[1;1H");
            proof {
                assert(out@ == spec_response_body(line@));
            }
        },
        Command::Help { topic } => {
            if chars_eq(&topic, &crate::text::chars_of("pinout")) {
                push_str_chars(
                    &mut out,
                    "\r\n\x20            STM32G0xxFx  \r\n\x20           \u{2554}\u{2550}\u{2550}\u{2550}\u{2550}\u{2550}\u{2550}\u{2550}\u{2550}\u{2550}\u{2550}\u{2550}\u{2557} \r\n\x20   PB7|PB8 \u{2563}1 \u{a4}      20\u{2560} PB3|PB4|PB5|PB6  \r\n\x20  PC9|PC14 \u{2563}2        19\u{2560} PA14|PA15 (SWDIO)\r\n\x20(LED) PC15 \u{2563}3        18\u{2560} PA13     (SWDCLK)\r\n\x20       Vdd \u{2563}4        17\u{2560} PA12[PA10]       \r\n\x20       Vss \u{2563}5        16\u{2560} PA11[PA9]        \r\n\x20      nRst \u{2563}6        15\u{2560} PA8|PB0|PB1|PB2  \r\n\x20       PA0 \u{2563}7        14\u{2560} PA7              \r\n\x20       PA1 \u{2563}8        13\u{2560} PA6              \r\n\x20(TX)   PA2 \u{2563}9        12\u{2560} PA5              \r\n\x20(RX)   PA3 \u{2563}10       11\u{2560} PA4              \r\n\x20           \u{255a}\u{2550}\u{2550}\u{2550}\u{2550}\u{2550}\u{2550}\u{2550}\u{2550}\u{2550}\u{2550}\u{2550}\u{255d} \r\n\r\n",
                );
            } else {
                push_str_chars(
                    &mut out,
                    "\r\nPlacebo Shell v0.0.1\r\n\r\nCOMMANDS:\r\n\x20 blink <freq>     Set blink freqency\r\n\x20 help [pinout]    Print help message\r\n\x20 clear            Clear screen\r\nCONTROL KEYS:\r\n\x20 Ctrl+B           Bell\r\n\r\n",
                );
            }
            proof {
                assert(out@ == spec_response_body(line@));
            }
        },
        Command::Blink { args } => {
            proof {
                assert(all_ascii(args_of(line@)));
                assert(verb_of(line@) != "clear"@) by {
                    reveal_strlit("blink");
                    reveal_strlit("clear");
                    assert("blink"@[0] == 'b' && "clear"@[0] == 'c');
                }
            }
            let parsed = parse_u32(&args);
            let mut accepted = false;
            if let Some(f) = parsed {
                if f <= MAX_FREQ_HZ {
                    accepted = true;
                    reprogram = Some(2 * f);
                }
            }
            if accepted {
                push_str_chars(&mut out, "\r\n");
            } else {
                push_str_chars(&mut out, "\r\nunsupported blink frequency: \"");
                push_chars(&mut out, &args);
                push_str_chars(&mut out, "\"\r\n");
            }
            proof {
                assert(out@ =~= spec_response_body(line@));
                assert(reprogram == spec_reprogram(line@));
            }
        },
        Command::Unknown { verb } => {
            push_str_chars(&mut out, "\r\nunsupported command: \"");
            push_chars(&mut out, &verb);
            push_str_chars(&mut out, "\"\r\n");
            proof {
                assert(out@ =~= spec_response_body(line@));
            }
        },
    }
    proof {
        assert(out@ == spec_response_body(line@));
        assert(reprogram == spec_reprogram(line@));
    }
    push_str_chars(&mut out, "\u{bb} ");
    proof {
        assert(out@ =~= spec_response(line@));
    }
    CommandOutcome { out, reprogram }
}

/// Splitting a printable line yields printable parts.
pub proof fn lemma_split_printable(line: Seq<char>)
    requires
        all_printable(line),
    ensures
        all_printable(verb_of(line)),
        all_printable(args_of(line)),
        all_ascii(args_of(line)),
{
    lemma_drop_spaces_printable(line);
    lemma_take_word_printable(drop_spaces(line));
    lemma_after_word_printable(drop_spaces(line));
    lemma_drop_spaces_printable(after_word(drop_spaces(line)));
    assert forall|i: int|
        0 <= i < args_of(line).len() implies crate::parse::is_ascii_char(
        #[trigger] args_of(line)[i],
    ) by {
        assert(is_printable(args_of(line)[i]));
    }
}

proof fn lemma_drop_spaces_printable(s: Seq<char>)
    requires
        all_printable(s),
    ensures
        all_printable(drop_spaces(s)),
    decreases s.len(),
{
    if s.len() > 0 && s[0] == ' ' {
        assert(all_printable(s.skip(1)));
        lemma_drop_spaces_printable(s.skip(1));
    }
}

proof fn lemma_take_word_printable(s: Seq<char>)
    requires
        all_printable(s),
    ensures
        all_printable(take_word(s)),
    decreases s.len(),
{
    if s.len() > 0 && s[0] != ' ' {
        assert(all_printable(s.skip(1)));
        lemma_take_word_printable(s.skip(1));
        assert forall|i: int|
            0 <= i < take_word(s).len() implies is_printable(#[trigger] take_word(s)[i]) by {
            if i > 0 {
                assert(take_word(s)[i] == take_word(s.skip(1))[i - 1]);
            }
        }
    }
}

proof fn lemma_after_word_printable(s: Seq<char>)
    requires
        all_printable(s),
    ensures
        all_printable(after_word(s)),
    decreases s.len(),
{
    if s.len() > 0 && s[0] != ' ' {
        assert(all_printable(s.skip(1)));
        lemma_after_word_printable(s.skip(1));
    }
}

} // verus!
