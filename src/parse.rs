//! Splitting a line into instruction tokens, and classifying its leading command.
use crate::commands::{
    is_supported_g_code, is_supported_m_code, is_unsupported_g_code, is_unsupported_m_code,
    supported_g_codes, supported_m_codes, unsupported_g_codes, unsupported_m_codes, G1Move,
};
use crate::error::{verdict_of_error, Error, LineVerdict, PrintResult};
use vstd::prelude::*;

verus! {

/// The characters with Unicode's White_Space property, which `char::is_whitespace` accepts.
pub open spec fn is_space(c: char) -> bool {
    let u = c as u32;
    (0x9 <= u && u <= 0xD) || u == 0x20 || u == 0x85 || u == 0xA0 || u == 0x1680
        || (0x2000 <= u && u <= 0x200A) || u == 0x2028 || u == 0x2029 || u == 0x202F
        || u == 0x205F || u == 0x3000
}

/// Whether `c` separates instruction tokens.
pub fn is_space_char(c: char) -> (r: bool)
    ensures
        r == is_space(c),
{
    let u = c as u32;
    (0x9 <= u && u <= 0xD) || u == 0x20 || u == 0x85 || u == 0xA0 || u == 0x1680
        || (0x2000 <= u && u <= 0x200A) || u == 0x2028 || u == 0x2029 || u == 0x202F
        || u == 0x205F || u == 0x3000
}

/// The part of `s` before the first `stop`; all of `s` when it holds none.
pub open spec fn prefix_before(s: Seq<char>, stop: char) -> Seq<char>
    decreases s.len(),
{
    if s.len() == 0 {
        s
    } else if s[0] == stop {
        Seq::empty()
    } else {
        seq![s[0]] + prefix_before(s.drop_first(), stop)
    }
}

/// The whitespace-separated words of `s`, from left to right. A word is a maximal run
/// of characters that are not whitespace; it grows by one character at a time as `s`
/// does.
pub open spec fn words(s: Seq<char>) -> Seq<Seq<char>>
    decreases s.len(),
{
    if s.len() == 0 {
        Seq::empty()
    } else {
        let init = s.drop_last();
        let w = words(init);
        if is_space(s.last()) {
            w
        } else if init.len() > 0 && !is_space(init.last()) {
            w.update(w.len() - 1, w.last().push(s.last()))
        } else {
            w.push(seq![s.last()])
        }
    }
}

/// The instruction tokens of a line: the words before its first `;`.
pub open spec fn instructions(line: Seq<char>) -> Seq<Seq<char>> {
    words(prefix_before(line, ';'))
}

/// The views of a sequence of string slices.
pub open spec fn token_views(tokens: Seq<&str>) -> Seq<Seq<char>> {
    tokens.map_values(|t: &str| t@)
}

proof fn lemma_prefix_before(s: Seq<char>, stop: char, k: int)
    requires
        0 <= k <= s.len(),
        forall|i: int| 0 <= i < k ==> s[i] != stop,
        k == s.len() || s[k] == stop,
    ensures
        prefix_before(s, stop) == s.take(k),
    decreases s.len(),
{
    if s.len() > 0 && s[0] != stop {
        lemma_prefix_before(s.drop_first(), stop, k - 1);
        assert(seq![s[0]] + s.drop_first().take(k - 1) =~= s.take(k));
    } else if s.len() == 0 {
        assert(s.take(k) =~= s);
    } else {
        assert(s.take(k) =~= Seq::<char>::empty());
    }
}

/// The number of characters of `s` before its first `stop`.
fn find_char(s: &str, stop: char) -> (k: usize)
    ensures
        k <= s@.len(),
        prefix_before(s@, stop) == s@.take(k as int),
{
    let n = s.unicode_len();
    let mut k: usize = 0;
    while k < n && s.get_char(k) != stop
        invariant
            n == s@.len(),
            k <= n,
            forall|i: int| 0 <= i < k ==> s@[i] != stop,
        decreases n - k,
    {
        k += 1;
    }
    proof {
        lemma_prefix_before(s@, stop, k as int);
    }
    k
}

/// Splits a line into its instruction tokens: the whitespace-separated words before
/// the first `;`.
pub fn divide_into_instructions(line: &str) -> (r: Vec<&str>)
    ensures
        token_views(r@) == instructions(line@),
{
    if line.is_empty() {
        proof {
            assert(token_views(Seq::<&str>::empty()) =~= Seq::<Seq<char>>::empty());
        }
        return Vec::new();
    }
    let end = find_char(line, ';');
    if end == 0 {
        proof {
            assert(token_views(Seq::<&str>::empty()) =~= Seq::<Seq<char>>::empty());
        }
        return Vec::new();
    }
    let mut tokens: Vec<&str> = Vec::new();
    let mut in_word = false;
    let mut start: usize = 0;
    let mut i: usize = 0;
    proof {
        assert(line@.take(0) =~= Seq::<char>::empty());
        assert(token_views(tokens@) =~= Seq::<Seq<char>>::empty());
    }
    while i < end
        invariant
            end <= line@.len(),
            i <= end,
            in_word <==> (i > 0 && !is_space(line@[i - 1])),
            in_word ==> start < i,
            in_word ==> words(line@.take(i as int)) == token_views(tokens@).push(
                line@.subrange(start as int, i as int),
            ),
            !in_word ==> words(line@.take(i as int)) == token_views(tokens@),
        decreases end - i,
    {
        let c = line.get_char(i);
        let ghost before = line@.take(i as int);
        let ghost old_tokens = token_views(tokens@);
        proof {
            assert(line@.take(i + 1).drop_last() =~= before);
        }
        if is_space_char(c) {
            if in_word {
                let word = line.substring_char(start, i);
                tokens.push(word);
                proof {
                    assert(token_views(tokens@) =~= old_tokens.push(word@));
                }
            }
            in_word = false;
        } else if in_word {
            proof {
                let w = old_tokens.push(line@.subrange(start as int, i as int));
                assert(line@.subrange(start as int, i as int).push(c) =~= line@.subrange(
                    start as int,
                    i + 1,
                ));
                assert(w.update(w.len() - 1, w.last().push(c)) =~= old_tokens.push(
                    line@.subrange(start as int, i + 1),
                ));
            }
        } else {
            start = i;
            in_word = true;
            proof {
                assert(seq![c] =~= line@.subrange(start as int, i + 1));
            }
        }
        i += 1;
    }
    proof {
        assert(line@.take(end as int) == prefix_before(line@, ';'));
    }
    if in_word {
        let ghost old_tokens = token_views(tokens@);
        let word = line.substring_char(start, end);
        tokens.push(word);
        proof {
            assert(token_views(tokens@) =~= old_tokens.push(word@));
        }
    }
    tokens
}

/// The base command of a token: the part before its first `.`, which starts a
/// subcommand suffix.
pub open spec fn base_command(token: Seq<char>) -> Seq<char> {
    prefix_before(token, '.')
}

/// A decimal digit.
pub open spec fn is_digit(c: char) -> bool {
    '0' <= c && c <= '9'
}

/// The number that the digits `s` spell in decimal.
pub open spec fn digits_value(s: Seq<char>) -> nat
    decreases s.len(),
{
    if s.len() == 0 {
        0
    } else {
        digits_value(s.drop_last()) * 10 + ((s.last() as u32) - ('0' as u32)) as nat
    }
}

/// `s` spells a number the one way decimal does: only digits, at least one, and no
/// leading zero.
pub open spec fn is_decimal(s: Seq<char>) -> bool {
    &&& s.len() > 0
    &&& forall|i: int| 0 <= i < s.len() ==> is_digit(#[trigger] s[i])
    &&& (s.len() == 1 || s[0] != '0')
}

/// The code of a command name that is `letter` followed by a number in decimal.
pub open spec fn code_of(name: Seq<char>, letter: char) -> Option<nat> {
    if name.len() > 0 && name[0] == letter && is_decimal(name.drop_first()) {
        Some(digits_value(name.drop_first()))
    } else {
        None
    }
}

/// `name` is `letter` followed by the decimal spelling of one of `codes`.
pub open spec fn names_code_in(name: Seq<char>, letter: char, codes: Set<nat>) -> bool {
    match code_of(name, letter) {
        Some(n) => codes.contains(n),
        None => false,
    }
}

/// A command name of the supported set, such as `G1` or `M862`.
pub open spec fn is_supported(name: Seq<char>) -> bool {
    names_code_in(name, 'G', supported_g_codes()) || names_code_in(name, 'M', supported_m_codes())
}

/// A command name of the known-unsupported set, such as `G5` or `M999`.
pub open spec fn is_known_unsupported(name: Seq<char>) -> bool {
    names_code_in(name, 'G', unsupported_g_codes()) || names_code_in(
        name,
        'M',
        unsupported_m_codes(),
    )
}

/// The verdict on a line with the instruction tokens `tokens` and the number `line_number`.
pub open spec fn command_verdict(tokens: Seq<Seq<char>>, line_number: nat) -> LineVerdict {
    if tokens.len() == 0 {
        LineVerdict::Blank
    } else {
        let name = base_command(tokens[0]);
        if is_supported(name) {
            LineVerdict::Accepted
        } else if is_known_unsupported(name) {
            LineVerdict::Unsupported(name)
        } else {
            LineVerdict::Invalid(name, line_number)
        }
    }
}

/// The verdict on the line `line` with the number `line_number`.
pub open spec fn line_verdict(line: Seq<char>, line_number: nat) -> LineVerdict {
    command_verdict(instructions(line), line_number)
}

/// The verdict that the result of parsing a line reports, if it reports one.
pub open spec fn verdict_of(r: PrintResult<Option<G1Move>>) -> Option<LineVerdict> {
    match r {
        Ok(None) => Some(LineVerdict::Blank),
        Ok(Some(command)) => if command.is_unset() {
            Some(LineVerdict::Accepted)
        } else {
            None
        },
        Err(e) => verdict_of_error(e),
    }
}

/// The code that `name` gives after `letter`, while it is at most 99999.
fn command_code(name: &str, letter: char) -> (r: Option<u32>)
    ensures
        r is Some ==> code_of(name@, letter) == Some(r->0 as nat),
        r is None ==> code_of(name@, letter) is None || code_of(name@, letter)->0 > 99999,
{
    let len = name.unicode_len();
    if len < 2 || name.get_char(0) != letter {
        return None;
    }
    if len > 2 && name.get_char(1) == '0' {
        return None;
    }
    let ghost digits = name@.drop_first();
    let mut value: u32 = 0;
    let mut big = false;
    let mut i: usize = 1;
    proof {
        assert(digits.take(0) =~= Seq::<char>::empty());
    }
    while i < len
        invariant
            len == name@.len(),
            1 <= i <= len,
            digits == name@.drop_first(),
            forall|j: int| 0 <= j < i - 1 ==> is_digit(#[trigger] digits[j]),
            !big ==> value as nat == digits_value(digits.take(i - 1)) && value <= 99999,
            big ==> digits_value(digits.take(i - 1)) > 99999,
        decreases len - i,
    {
        let c = name.get_char(i);
        if c < '0' || c > '9' {
            assert(!is_digit(digits[i - 1]));
            return None;
        }
        proof {
            assert(digits.take(i as int).drop_last() =~= digits.take(i - 1));
        }
        if !big {
            if value <= 9999 {
                value = value * 10 + ((c as u32) - ('0' as u32));
            } else {
                big = true;
            }
        }
        i += 1;
    }
    proof {
        assert(digits.take(len - 1) =~= digits);
    }
    if big {
        None
    } else {
        Some(value)
    }
}

/// Whether `name` is a command of the supported set.
pub fn is_supported_command(name: &str) -> (r: bool)
    ensures
        r == is_supported(name@),
{
    let g = match command_code(name, 'G') {
        Some(code) => is_supported_g_code(code),
        None => false,
    };
    let m = match command_code(name, 'M') {
        Some(code) => is_supported_m_code(code),
        None => false,
    };
    g || m
}

/// Whether `name` is a command of the known-unsupported set.
pub fn is_known_unsupported_command(name: &str) -> (r: bool)
    ensures
        r == is_known_unsupported(name@),
{
    let g = match command_code(name, 'G') {
        Some(code) => is_unsupported_g_code(code),
        None => false,
    };
    let m = match command_code(name, 'M') {
        Some(code) => is_unsupported_m_code(code),
        None => false,
    };
    g || m
}

/// The error for a base command that is not supported: `UnsupportedCommand` when the
/// command is known, otherwise `InvalidCommandInLine` without a line number.
pub fn check_unsupported_commands(base_command: &str) -> (e: Error)
    ensures
        match e {
            Error::UnsupportedCommand(name) => is_known_unsupported(base_command@) && name@
                == base_command@,
            Error::InvalidCommandInLine(Some(name), None) => !is_known_unsupported(
                base_command@,
            ) && name@ == base_command@,
            _ => false,
        },
{
    if is_known_unsupported_command(base_command) {
        Error::UnsupportedCommand(base_command.to_owned())
    } else {
        Error::InvalidCommandInLine(Some(base_command.to_owned()), None)
    }
}

/// Classifies the instruction tokens of a line: no command when there are none,
/// otherwise by the base command of the first token. An invalid command is reported
/// with `line_number`; a known but unsupported one without it.
pub fn parse_command(instructions: Vec<&str>, line_number: usize) -> (r: PrintResult<
    Option<G1Move>,
>)
    ensures
        verdict_of(r) == Some(command_verdict(token_views(instructions@), line_number as nat)),
{
    if instructions.len() == 0 {
        return Ok(None);
    }
    let first = instructions[0];
    let end = find_char(first, '.');
    let base_command = first.substring_char(0, end);
    assert(token_views(instructions@)[0] == first@);
    if is_supported_command(base_command) {
        return Ok(Some(G1Move::default()));
    }
    let error = check_unsupported_commands(base_command);
    match error {
        Error::InvalidCommandInLine(command, _) => Err(
            Error::InvalidCommandInLine(command, Some(line_number)),
        ),
        other => Err(other),
    }
}

/// Parses one line: its instruction tokens, then the classification of its command.
pub fn parse_line(line: &str, line_number: usize) -> (r: PrintResult<Option<G1Move>>)
    ensures
        verdict_of(r) == Some(line_verdict(line@, line_number as nat)),
{
    let instructions = divide_into_instructions(line);
    parse_command(instructions, line_number)
}

proof fn lemma_words_of_spaces(s: Seq<char>)
    requires
        forall|i: int| 0 <= i < s.len() ==> is_space(#[trigger] s[i]),
    ensures
        words(s).len() == 0,
    decreases s.len(),
{
    if s.len() > 0 {
        lemma_words_of_spaces(s.drop_last());
    }
}

proof fn lemma_base_without_dot(name: Seq<char>, suffix: Seq<char>)
    requires
        !name.contains('.'),
    ensures
        base_command(name) == name,
        base_command(name + seq!['.'] + suffix) == name,
{
    let dotted = name + seq!['.'] + suffix;
    lemma_prefix_before(name, '.', name.len() as int);
    assert(name.take(name.len() as int) =~= name);
    assert forall|i: int| 0 <= i < name.len() implies dotted[i] != '.' by {
        assert(dotted[i] == name[i]);
    }
    lemma_prefix_before(dotted, '.', name.len() as int);
    assert(dotted.take(name.len() as int) =~= name);
}

/// The supported and the known-unsupported command sets have no name in common.
pub proof fn lemma_command_sets_disjoint(name: Seq<char>)
    ensures
        !(is_supported(name) && is_known_unsupported(name)),
{
}

/// A line that holds only whitespace before its first `;`, whatever follows it, has no
/// command, and parsing it succeeds with none.
pub proof fn lemma_blank_line(line: Seq<char>, line_number: nat)
    requires
        forall|i: int|
            0 <= i < prefix_before(line, ';').len() ==> is_space(
                #[trigger] prefix_before(line, ';')[i],
            ),
    ensures
        line_verdict(line, line_number) == LineVerdict::Blank,
{
    lemma_words_of_spaces(prefix_before(line, ';'));
}

/// A line whose first token is a command of the supported set is accepted.
pub proof fn lemma_supported_line(line: Seq<char>, line_number: nat)
    requires
        instructions(line).len() > 0,
        is_supported(instructions(line)[0]),
    ensures
        line_verdict(line, line_number) == LineVerdict::Accepted,
{
    let token = instructions(line)[0];
    assert(!token.contains('.')) by {
        if token.contains('.') {
            let i = choose|i: int| 0 <= i < token.len() && token[i] == '.';
            assert(token.drop_first()[i - 1] == token[i]);
        }
    }
    lemma_base_without_dot(token, Seq::empty());
}

/// A line whose first token has a base command of the known-unsupported set fails with
/// `UnsupportedCommand` of that base command, which carries no line number.
pub proof fn lemma_known_unsupported_line(line: Seq<char>, line_number: nat)
    requires
        instructions(line).len() > 0,
        is_known_unsupported(base_command(instructions(line)[0])),
    ensures
        line_verdict(line, line_number) == LineVerdict::Unsupported(
            base_command(instructions(line)[0]),
        ),
{
    lemma_command_sets_disjoint(base_command(instructions(line)[0]));
}

/// A line whose first token has a base command of neither set fails with
/// `InvalidCommandInLine` of that base command and the line's number.
pub proof fn lemma_invalid_line(line: Seq<char>, line_number: nat)
    requires
        instructions(line).len() > 0,
        !is_supported(base_command(instructions(line)[0])),
        !is_known_unsupported(base_command(instructions(line)[0])),
    ensures
        line_verdict(line, line_number) == LineVerdict::Invalid(
            base_command(instructions(line)[0]),
            line_number,
        ),
{
}

/// Parsing depends on the line and its number alone: two results of parsing the same
/// line report the same verdict.
pub proof fn lemma_parse_line_is_pure(
    line: Seq<char>,
    line_number: nat,
    first: PrintResult<Option<G1Move>>,
    second: PrintResult<Option<G1Move>>,
)
    requires
        verdict_of(first) == Some(line_verdict(line, line_number)),
        verdict_of(second) == Some(line_verdict(line, line_number)),
    ensures
        verdict_of(first) == verdict_of(second),
{
}

/// A subcommand suffix leaves the verdict as it is; a first token `name.suffix`
/// classifies as `name` does.
pub proof fn lemma_subcommand_ignored(
    tokens: Seq<Seq<char>>,
    name: Seq<char>,
    suffix: Seq<char>,
    line_number: nat,
)
    requires
        tokens.len() > 0,
        !name.contains('.'),
    ensures
        command_verdict(tokens.update(0, name + seq!['.'] + suffix), line_number)
            == command_verdict(tokens.update(0, name), line_number),
{
    lemma_base_without_dot(name, suffix);
}

} // verus!
