//! The oscilloscope's settings, and how the command line gives them.
//!
//! The command line is taken apart by the `getopts` crate. What that crate
//! does is not proved here: it is called through the wrappers below, whose
//! contracts say what its source shows. What it finds in given arguments goes
//! by the name `getopts_parse`, and the help text it writes by the name
//! `getopts_usage`. What is made of its findings is verified.
use vstd::prelude::*;
use vstd::string::*;

verus! {

/// `getopts::Options`: the table of options that a command line is read by.
#[verifier::external_type_specification]
#[verifier::external_body]
pub struct ExOptions(getopts::Options);

/// `getopts::Matches`: what was found on a command line.
#[verifier::external_type_specification]
#[verifier::external_body]
pub struct ExMatches(getopts::Matches);

/// The options that a table holds, in the order in which they were added:
/// of each its short name, its long name, its description, the hint for its
/// argument, and whether it takes an argument.
pub uninterp spec fn option_table(opts: getopts::Options) -> Seq<
    (Seq<char>, Seq<char>, Seq<char>, Seq<char>, bool),
>;

/// Whether a table is as `getopts::Options::new` made it but for options
/// added by `optopt` and `optflag`: it reads a command line in the style it
/// began with, and each of its options may be left out, may not be repeated,
/// and takes an argument always or never.
pub uninterp spec fn option_plain(opts: getopts::Options) -> bool;

/// What a command line's findings hold: for each name that they can be asked
/// under, the occurrences of that option, first to last, each with the
/// argument it came with, if any.
pub uninterp spec fn match_values(found: getopts::Matches) -> Map<
    Seq<char>,
    Seq<Option<Seq<char>>>,
>;

/// What `getopts` makes of `args` when it reads them by a plain table with
/// the options of `table`: the findings, or the message of its refusal where
/// it turns `args` down.
pub uninterp spec fn getopts_parse(
    table: Seq<(Seq<char>, Seq<char>, Seq<char>, Seq<char>, bool)>,
    args: Seq<Seq<char>>,
) -> Result<Map<Seq<char>, Seq<Option<Seq<char>>>>, Seq<char>>;

/// The help text that `getopts` writes for a plain table with the options of
/// `table` under the line `brief`.
pub uninterp spec fn getopts_usage(
    table: Seq<(Seq<char>, Seq<char>, Seq<char>, Seq<char>, bool)>,
    brief: Seq<char>,
) -> Seq<char>;

/// The texts of `args`.
pub open spec fn texts(args: Seq<String>) -> Seq<Seq<char>> {
    args.map_values(|arg: String| arg@)
}

/// Whether `name` is the short or the long name of an option of `table`.
pub open spec fn names(
    table: Seq<(Seq<char>, Seq<char>, Seq<char>, Seq<char>, bool)>,
    name: Seq<char>,
) -> bool {
    exists|i: int| 0 <= i < table.len() && (#[trigger] table[i].0 == name || table[i].1 == name)
}

/// Whether every option of `table` has a short name of one character and a
/// long name of more than one.
pub open spec fn well_named(
    table: Seq<(Seq<char>, Seq<char>, Seq<char>, Seq<char>, bool)>,
) -> bool {
    forall|i: int|
        0 <= i < table.len() ==> (#[trigger] table[i]).0.len() == 1 && table[i].1.len() > 1
}

/// The argument of the first occurrence of option `name` in `values`.
pub open spec fn first_value(
    values: Map<Seq<char>, Seq<Option<Seq<char>>>>,
    name: Seq<char>,
) -> Option<Seq<char>> {
    if values[name].len() > 0 {
        values[name][0]
    } else {
        None
    }
}

/// Why `getopts` turns a command line down. Each kind names the option that
/// it is about.
#[derive(Debug, PartialEq, Eq)]
pub enum Refusal {
    /// The option wants an argument and none was given.
    ArgumentMissing(String),
    /// The option is not among those of the table.
    UnrecognizedOption(String),
    /// The option must be given and was not.
    OptionMissing(String),
    /// The option was given more than once.
    OptionDuplicated(String),
    /// The option takes no argument and was given one.
    UnexpectedArgument(String),
}

impl Refusal {
    /// The message of the refusal, as `getopts` words it.
    pub open spec fn text(self) -> Seq<char> {
        match self {
            Refusal::ArgumentMissing(name) => "Argument to option '"@ + name@ + "' missing"@,
            Refusal::UnrecognizedOption(name) => "Unrecognized option: '"@ + name@ + "'"@,
            Refusal::OptionMissing(name) => "Required option '"@ + name@ + "' missing"@,
            Refusal::OptionDuplicated(name) => "Option '"@ + name@ + "' given more than once"@,
            Refusal::UnexpectedArgument(name) => "Option '"@ + name@
                + "' does not take an argument"@,
        }
    }

    /// Writes the message of the refusal.
    pub fn message(&self) -> (r: String)
        ensures
            r@ == self.text(),
    {
        match self {
            Refusal::ArgumentMissing(name) => {
                let mut r = String::from_str("Argument to option '");
                r.append(name.as_str());
                r.append("' missing");
                r
            },
            Refusal::UnrecognizedOption(name) => {
                let mut r = String::from_str("Unrecognized option: '");
                r.append(name.as_str());
                r.append("'");
                r
            },
            Refusal::OptionMissing(name) => {
                let mut r = String::from_str("Required option '");
                r.append(name.as_str());
                r.append("' missing");
                r
            },
            Refusal::OptionDuplicated(name) => {
                let mut r = String::from_str("Option '");
                r.append(name.as_str());
                r.append("' given more than once");
                r
            },
            Refusal::UnexpectedArgument(name) => {
                let mut r = String::from_str("Option '");
                r.append(name.as_str());
                r.append("' does not take an argument");
                r
            },
        }
    }
}

/// `getopts::Options::new`: a plain table without options.
#[verifier::external_body]
fn new_options() -> (opts: getopts::Options)
    ensures
        option_table(opts) == Seq::<(Seq<char>, Seq<char>, Seq<char>, Seq<char>, bool)>::empty(),
        option_plain(opts),
{
    getopts::Options::new()
}

/// `getopts::Options::optopt`: adds an option that may be left out and that
/// takes an argument. It panics on a short name of more than one byte and on
/// a long name of exactly one; `requires` leaves those out, and the names
/// beyond ASCII with them.
#[verifier::external_body]
fn optopt(opts: &mut getopts::Options, short_name: &str, long_name: &str, desc: &str, hint: &str)
    requires
        short_name.is_ascii(),
        short_name@.len() == 1,
        long_name.is_ascii(),
        long_name@.len() > 1,
    ensures
        option_table(*final(opts)) == option_table(*old(opts)).push(
            (short_name@, long_name@, desc@, hint@, true),
        ),
        option_plain(*final(opts)) == option_plain(*old(opts)),
{
    opts.optopt(short_name, long_name, desc, hint);
}

/// `getopts::Options::optflag`: adds an option that may be left out and that
/// takes no argument, with an empty hint. It panics on the same names as
/// `optopt`.
#[verifier::external_body]
fn optflag(opts: &mut getopts::Options, short_name: &str, long_name: &str, desc: &str)
    requires
        short_name.is_ascii(),
        short_name@.len() == 1,
        long_name.is_ascii(),
        long_name@.len() > 1,
    ensures
        option_table(*final(opts)) == option_table(*old(opts)).push(
            (short_name@, long_name@, desc@, Seq::<char>::empty(), false),
        ),
        option_plain(*final(opts)) == option_plain(*old(opts)),
{
    opts.optflag(short_name, long_name, desc);
}

/// `getopts::Options::parse`: reads `args` by the table. What comes of it is
/// what goes by the name `getopts_parse`: findings, which can be asked for
/// under every name of the table, short or long, or a refusal, whose kind and
/// option are handed on as they are. It panics on a table with an option that
/// has no name at all, which `requires` leaves out.
#[verifier::external_body]
fn parse(opts: &getopts::Options, args: &Vec<String>) -> (r: Result<getopts::Matches, Refusal>)
    requires
        option_plain(*opts),
        well_named(option_table(*opts)),
    ensures
        match r {
            Ok(found) => {
                &&& getopts_parse(option_table(*opts), texts(args@)) == Ok::<_, Seq<char>>(
                    match_values(found),
                )
                &&& forall|name: Seq<char>|
                    names(option_table(*opts), name) ==> #[trigger] match_values(
                        found,
                    ).dom().contains(name)
            },
            Err(refusal) => getopts_parse(option_table(*opts), texts(args@)) == Err::<
                Map<Seq<char>, Seq<Option<Seq<char>>>>,
                _,
            >(refusal.text()),
        },
{
    match opts.parse(args) {
        Ok(found) => Ok(found),
        Err(getopts::Fail::ArgumentMissing(name)) => Err(Refusal::ArgumentMissing(name)),
        Err(getopts::Fail::UnrecognizedOption(name)) => Err(Refusal::UnrecognizedOption(name)),
        Err(getopts::Fail::OptionMissing(name)) => Err(Refusal::OptionMissing(name)),
        Err(getopts::Fail::OptionDuplicated(name)) => Err(Refusal::OptionDuplicated(name)),
        Err(getopts::Fail::UnexpectedArgument(name)) => Err(Refusal::UnexpectedArgument(name)),
    }
}

/// `getopts::Matches::opt_present`: whether the option occurs at all. It
/// panics on a name that the table did not hold, which `requires` leaves out.
#[verifier::external_body]
fn opt_present(found: &getopts::Matches, name: &str) -> (r: bool)
    requires
        match_values(*found).dom().contains(name@),
    ensures
        r == (match_values(*found)[name@].len() > 0),
{
    found.opt_present(name)
}

/// `getopts::Matches::opt_str`: the argument of the option's first
/// occurrence, or `None` where the option does not occur or came without
/// one. It panics as `opt_present` does.
#[verifier::external_body]
fn opt_str(found: &getopts::Matches, name: &str) -> (r: Option<String>)
    requires
        match_values(*found).dom().contains(name@),
    ensures
        match r {
            Some(text) => first_value(match_values(*found), name@) == Some(text@),
            None => first_value(match_values(*found), name@) is None,
        },
{
    found.opt_str(name)
}

/// `getopts::Options::usage`: the help text, which is what goes by the name
/// `getopts_usage`. It begins with `brief`; a heading and a line for each
/// option follow.
#[verifier::external_body]
fn usage(opts: &getopts::Options, brief: &str) -> (r: String)
    requires
        option_plain(*opts),
    ensures
        r@ == getopts_usage(option_table(*opts), brief@),
        brief@.is_prefix_of(r@),
{
    opts.usage(brief)
}

/// Number of quads in a frame where the command line names none.
pub const DEFAULT_SAMPLES_PER_FRAME: usize = 1024;

/// The settings of a run. They are read once, at the start.
#[derive(Debug, PartialEq, Eq)]
pub struct OscOpts {
    /// The factor by which samples are scaled to screen units, as the text of
    /// a number. Nothing here computes with it, so it stays as it was written.
    pub magnification: String,
    /// Number of quads drawn in each frame, at least one.
    pub samples_per_frame: usize,
}

/// What a command line asks for.
#[derive(Debug, PartialEq, Eq)]
pub enum Command {
    /// To show this help text and do nothing else.
    Help(String),
    /// To run with these settings.
    Run(OscOpts),
}

/// Why a command line gives no settings.
#[derive(Debug, PartialEq, Eq)]
pub enum OptError {
    /// The options are not as the table wants them; the text says how.
    Usage(String),
    /// The magnification is not written as a number.
    Magnification,
    /// The number of samples is no count, or none that fits, or 0.
    Samples,
}

/// The value of a decimal digit, or `None` for any other byte.
pub open spec fn digit_value(byte: u8) -> Option<nat> {
    if 0x30 <= byte <= 0x39 {
        Some((byte - 0x30) as nat)
    } else {
        None
    }
}

/// The number that `text` writes in decimal digits, or `None` where it holds
/// anything else. The empty text writes 0.
pub open spec fn digits_value(text: Seq<u8>) -> Option<nat>
    decreases text.len(),
{
    if text.len() == 0 {
        Some(0)
    } else {
        match (digits_value(text.drop_last()), digit_value(text.last())) {
            (Some(value), Some(digit)) => Some(10 * value + digit),
            _ => None,
        }
    }
}

/// The count that the bytes of a text stand for: decimal digits, at least
/// one, with nothing before them but perhaps one plus sign, and a value that
/// a `usize` holds.
pub open spec fn count_value(text: Seq<u8>) -> Option<usize> {
    let digits = if text.len() > 0 && text[0] == 0x2b {
        text.skip(1)
    } else {
        text
    };
    if digits.len() == 0 {
        None
    } else {
        match digits_value(digits) {
            Some(value) => if value <= usize::MAX {
                Some(value as usize)
            } else {
                None
            },
            None => None,
        }
    }
}

/// Once a text has left the digits, no further byte brings it back, and the
/// number it writes does not get smaller as it gets longer.
proof fn lemma_digits_grow(text: Seq<u8>, upto: int)
    requires
        0 <= upto <= text.len(),
    ensures
        digits_value(text.take(upto)) is None ==> digits_value(text) is None,
        digits_value(text.take(upto)) matches Some(value) ==> (digits_value(text) matches Some(
            whole,
        ) ==> value <= whole),
    decreases text.len() - upto,
{
    if upto < text.len() {
        lemma_digits_grow(text, upto + 1);
        assert(text.take(upto + 1).drop_last() =~= text.take(upto));
    } else {
        assert(text.take(upto) =~= text);
    }
}

/// Reads `text` as a count.
pub fn parse_count(text: &str) -> (r: Option<usize>)
    ensures
        r == count_value(text.spec_bytes()),
{
    let bytes = text.as_bytes();
    let start: usize = if bytes.len() > 0 && bytes[0] == 0x2b {
        1
    } else {
        0
    };
    if start == bytes.len() {
        return None;
    }
    let ghost digits = bytes@.skip(start as int);
    assert(bytes@.skip(0) =~= bytes@);
    let mut value: usize = 0;
    let mut i: usize = start;
    assert(digits.take(0) =~= Seq::<u8>::empty());
    while i < bytes.len()
        invariant
            start <= i <= bytes.len(),
            start < bytes.len(),
            bytes@ == text.spec_bytes(),
            start == (if bytes@.len() > 0 && bytes@[0] == 0x2b {
                1int
            } else {
                0int
            }),
            digits == bytes@.skip(start as int),
            bytes@.skip(0) == bytes@,
            digits_value(digits.take(i - start)) == Some(value as nat),
        decreases bytes.len() - i,
    {
        let byte = bytes[i];
        proof {
            let at = i - start;
            let upto = digits.take(at + 1);
            assert(upto.last() == byte);
            assert(upto.drop_last() =~= digits.take(at));
            assert(digits_value(upto) == (match digit_value(byte) {
                Some(digit) => Some((10 * value + digit) as nat),
                None => None,
            }));
            lemma_digits_grow(digits, at + 1);
        }
        if byte < 0x30 || byte > 0x39 {
            return None;
        }
        let digit: usize = (byte - 0x30) as usize;
        match value.checked_mul(10) {
            None => {
                return None;
            },
            Some(tens) => match tens.checked_add(digit) {
                None => {
                    return None;
                },
                Some(sum) => {
                    value = sum;
                },
            },
        }
        i += 1;
    }
    assert(digits.take(i - start) =~= digits);
    Some(value)
}

/// Whether a byte is a decimal digit.
pub open spec fn is_digit(byte: u8) -> bool {
    0x30 <= byte <= 0x39
}

/// Whether a byte is a plus or a minus sign.
pub open spec fn is_sign(byte: u8) -> bool {
    byte == 0x2b || byte == 0x2d
}

/// Number of decimal digits that `text` begins with.
pub open spec fn digit_run(text: Seq<u8>) -> nat
    decreases text.len(),
{
    if text.len() > 0 && is_digit(text[0]) {
        1 + digit_run(text.skip(1))
    } else {
        0
    }
}

/// Whether `text` is an exponent: the letter e, small or capital, then
/// perhaps a sign, then digits, at least one, and nothing else.
pub open spec fn exponent_syntax(text: Seq<u8>) -> bool {
    let digits = if text.len() > 1 && is_sign(text[1]) {
        text.skip(2)
    } else {
        text.skip(1)
    };
    &&& text.len() > 0
    &&& text[0] == 0x65 || text[0] == 0x45
    &&& digits.len() > 0
    &&& digit_run(digits) == digits.len()
}

/// Whether `text` is a decimal number: digits, perhaps with a point among,
/// before or behind them, at least one digit in all, and perhaps an exponent
/// at the end.
pub open spec fn decimal_syntax(text: Seq<u8>) -> bool {
    let whole = digit_run(text);
    let rest = text.skip(whole as int);
    let pointed = rest.len() > 0 && rest[0] == 0x2e;
    let fraction = if pointed {
        digit_run(rest.skip(1))
    } else {
        0
    };
    let tail = if pointed {
        rest.skip(1 + fraction as int)
    } else {
        rest
    };
    &&& whole + fraction > 0
    &&& tail.len() == 0 || exponent_syntax(tail)
}

/// A letter in small, any other byte as it is.
pub open spec fn small(byte: u8) -> u8 {
    if 0x41 <= byte <= 0x5a {
        (byte + 0x20) as u8
    } else {
        byte
    }
}

/// Whether `text` is `word` but for the case of its letters.
pub open spec fn is_word(text: Seq<u8>, word: Seq<u8>) -> bool {
    &&& text.len() == word.len()
    &&& forall|i: int| 0 <= i < text.len() ==> small(#[trigger] text[i]) == word[i]
}

/// The bytes of the word inf.
pub open spec fn word_inf() -> Seq<u8> {
    seq![0x69u8, 0x6eu8, 0x66u8]
}

/// The bytes of the word infinity.
pub open spec fn word_infinity() -> Seq<u8> {
    seq![0x69u8, 0x6eu8, 0x66u8, 0x69u8, 0x6eu8, 0x69u8, 0x74u8, 0x79u8]
}

/// The bytes of the word nan.
pub open spec fn word_nan() -> Seq<u8> {
    seq![0x6eu8, 0x61u8, 0x6eu8]
}

/// Whether the bytes of a text write a number as the standard library reads
/// one with a fraction: perhaps a sign, and then a decimal number or one of
/// the words inf, infinity and nan, in letters of either case.
pub open spec fn number_syntax(text: Seq<u8>) -> bool {
    let body = if text.len() > 0 && is_sign(text[0]) {
        text.skip(1)
    } else {
        text
    };
    ||| decimal_syntax(body)
    ||| is_word(body, word_inf())
    ||| is_word(body, word_infinity())
    ||| is_word(body, word_nan())
}

/// Counts the digits that `bytes` holds from place `from` on, up to the first
/// byte that is none.
fn count_digits(bytes: &[u8], from: usize) -> (n: usize)
    requires
        from <= bytes@.len(),
    ensures
        n == digit_run(bytes@.skip(from as int)),
        from + n <= bytes@.len(),
{
    let mut i: usize = from;
    while i < bytes.len() && bytes[i] >= 0x30 && bytes[i] <= 0x39
        invariant
            from <= i <= bytes@.len(),
            digit_run(bytes@.skip(from as int)) == (i - from) + digit_run(bytes@.skip(i as int)),
        decreases bytes@.len() - i,
    {
        assert(bytes@.skip(i as int).skip(1) =~= bytes@.skip(i + 1));
        i += 1;
    }
    i - from
}

/// Whether `bytes` holds an exponent from place `from` on.
fn is_exponent(bytes: &[u8], from: usize) -> (r: bool)
    requires
        from <= bytes@.len(),
    ensures
        r == exponent_syntax(bytes@.skip(from as int)),
{
    let ghost text = bytes@.skip(from as int);
    if from == bytes.len() || (bytes[from] != 0x65 && bytes[from] != 0x45) {
        return false;
    }
    let signed = from + 1 < bytes.len() && (bytes[from + 1] == 0x2b || bytes[from + 1] == 0x2d);
    let start = if signed {
        from + 2
    } else {
        from + 1
    };
    assert(text.skip(start - from) =~= bytes@.skip(start as int));
    let n = count_digits(bytes, start);
    n > 0 && start + n == bytes.len()
}

/// Whether `bytes` holds a decimal number from place `from` on.
fn is_decimal(bytes: &[u8], from: usize) -> (r: bool)
    requires
        from <= bytes@.len(),
    ensures
        r == decimal_syntax(bytes@.skip(from as int)),
{
    let ghost text = bytes@.skip(from as int);
    let len = bytes.len();
    let whole = count_digits(bytes, from);
    let point = from + whole;
    assert(text.skip(whole as int) =~= bytes@.skip(point as int));
    let pointed = point < len && bytes[point] == 0x2e;
    let mut fraction: usize = 0;
    let mut tail = point;
    if pointed {
        assert(text.skip(whole as int).skip(1) =~= bytes@.skip(point + 1));
        fraction = count_digits(bytes, point + 1);
        tail = point + 1 + fraction;
        assert(text.skip(whole as int).skip(1 + fraction) =~= bytes@.skip(tail as int));
    }
    if whole == 0 && fraction == 0 {
        return false;
    }
    tail == len || is_exponent(bytes, tail)
}

/// Whether `bytes` holds `word` from place `from` on, and nothing else, but
/// for the case of its letters.
fn is_word_at(bytes: &[u8], from: usize, word: &Vec<u8>) -> (r: bool)
    requires
        from <= bytes@.len(),
    ensures
        r == is_word(bytes@.skip(from as int), word@),
{
    if bytes.len() - from != word.len() {
        return false;
    }
    let ghost text = bytes@.skip(from as int);
    let mut i: usize = 0;
    while i < word.len()
        invariant
            i <= word@.len(),
            from + word@.len() == bytes@.len(),
            bytes@.len() <= usize::MAX,
            text == bytes@.skip(from as int),
            forall|k: int| 0 <= k < i ==> small(#[trigger] text[k]) == word@[k],
        decreases word@.len() - i,
    {
        let byte = bytes[from + i];
        let lowered: u8 = if byte >= 0x41 && byte <= 0x5a {
            byte + 0x20
        } else {
            byte
        };
        assert(text[i as int] == byte);
        if lowered != word[i] {
            return false;
        }
        i += 1;
    }
    true
}

/// Says whether `text` is written as a number.
pub fn is_number(text: &str) -> (r: bool)
    ensures
        r == number_syntax(text.spec_bytes()),
{
    let bytes = text.as_bytes();
    let from: usize = if bytes.len() > 0 && (bytes[0] == 0x2b || bytes[0] == 0x2d) {
        1
    } else {
        0
    };
    assert(bytes@.skip(0) =~= bytes@);
    if is_decimal(bytes, from) {
        return true;
    }
    let inf: Vec<u8> = vec![0x69, 0x6e, 0x66];
    let infinity: Vec<u8> = vec![0x69, 0x6e, 0x66, 0x69, 0x6e, 0x69, 0x74, 0x79];
    let nan: Vec<u8> = vec![0x6e, 0x61, 0x6e];
    assert(inf@ =~= word_inf());
    assert(infinity@ =~= word_infinity());
    assert(nan@ =~= word_nan());
    is_word_at(bytes, from, &inf) || is_word_at(bytes, from, &infinity) || is_word_at(
        bytes,
        from,
        &nan,
    )
}

/// The text that an option was given with, if it was given.
pub open spec fn text_of(option: Option<String>) -> Option<Seq<char>> {
    match option {
        Some(text) => Some(text@),
        None => None,
    }
}

/// The settings that the arguments of the two options give: the
/// magnification as it was written, or 1.0, and the number of samples as a
/// count, or 1024. A magnification that is not written as a number is an
/// error, and so is, behind it, a number of samples that is no count or is 0.
pub open spec fn settings(magnification: Option<Seq<char>>, samples: Option<Seq<char>>) -> Result<
    (Seq<char>, usize),
    OptError,
> {
    let written = match magnification {
        Some(text) => text,
        None => "1.0"@,
    };
    let count = match samples {
        Some(text) => count_value(vstd::utf8::encode_utf8(text)),
        None => Some(DEFAULT_SAMPLES_PER_FRAME),
    };
    if magnification is Some && !number_syntax(vstd::utf8::encode_utf8(written)) {
        Err(OptError::Magnification)
    } else if count is Some && count->0 > 0 {
        Ok((written, count->0))
    } else {
        Err(OptError::Samples)
    }
}

/// Whether `r` holds what `expected` says: the same error, or settings with
/// that text and that count.
pub open spec fn holds(
    r: Result<OscOpts, OptError>,
    expected: Result<(Seq<char>, usize), OptError>,
) -> bool {
    match expected {
        Ok((text, count)) => r matches Ok(opts) && opts.magnification@ == text
            && opts.samples_per_frame == count,
        Err(error) => r == Err::<OscOpts, _>(error),
    }
}

/// Makes the settings out of the arguments that the options for the
/// magnification and for the number of samples were given with. The
/// magnification must be written as a number and there must be at least one
/// sample; the magnification is looked at first.
pub fn options_from(magnification: Option<String>, samples: Option<String>) -> (r: Result<
    OscOpts,
    OptError,
>)
    ensures
        holds(r, settings(text_of(magnification), text_of(samples))),
        r matches Ok(opts) ==> opts.samples_per_frame >= 1,
{
    let magnification = match magnification {
        Some(text) => {
            if !is_number(text.as_str()) {
                return Err(OptError::Magnification);
            }
            text
        },
        None => String::from_str("1.0"),
    };
    let samples_per_frame = match samples {
        None => DEFAULT_SAMPLES_PER_FRAME,
        Some(text) => match parse_count(text.as_str()) {
            Some(count) => count,
            None => {
                return Err(OptError::Samples);
            },
        },
    };
    if samples_per_frame == 0 {
        return Err(OptError::Samples);
    }
    Ok(OscOpts { magnification, samples_per_frame })
}

/// What `getopts` found on a command line that it took, as far as the
/// oscilloscope asks.
#[derive(Debug, PartialEq, Eq)]
pub struct Findings {
    /// Whether help was asked for.
    pub help: bool,
    /// The help text.
    pub usage: String,
    /// The argument of the magnification, if it was given.
    pub magnification: Option<String>,
    /// The argument of the number of samples, if it was given.
    pub samples: Option<String>,
}

/// Whether `r` is what a reading of the command line asks for: a refusal
/// gives an error with its message; a request for help gives the help text,
/// whatever else was given; anything else gives what `settings` makes of the
/// two arguments.
pub open spec fn is_command(
    r: Result<Command, OptError>,
    reading: Result<(bool, Seq<char>, Option<Seq<char>>, Option<Seq<char>>), Seq<char>>,
) -> bool {
    match reading {
        Err(message) => r matches Err(OptError::Usage(text)) && text@ == message,
        Ok((help, usage, magnification, samples)) => if help {
            r matches Ok(Command::Help(text)) && text@ == usage
        } else {
            match settings(magnification, samples) {
                Ok((text, count)) => r matches Ok(Command::Run(opts)) && opts.magnification@
                    == text && opts.samples_per_frame == count,
                Err(error) => r == Err::<Command, _>(error),
            }
        },
    }
}

/// What `reading` is to `is_command`.
pub open spec fn reading_of(reading: Result<Findings, Refusal>) -> Result<
    (bool, Seq<char>, Option<Seq<char>>, Option<Seq<char>>),
    Seq<char>,
> {
    match reading {
        Ok(found) => Ok(
            (found.help, found.usage@, text_of(found.magnification), text_of(found.samples)),
        ),
        Err(refusal) => Err(refusal.text()),
    }
}

/// Decides what a reading of the command line asks for.
pub fn command_from(reading: Result<Findings, Refusal>) -> (r: Result<Command, OptError>)
    ensures
        is_command(r, reading_of(reading)),
        r matches Ok(Command::Run(opts)) ==> opts.samples_per_frame >= 1,
{
    match reading {
        Err(refusal) => Err(OptError::Usage(refusal.message())),
        Ok(found) => {
            if found.help {
                Ok(Command::Help(found.usage))
            } else {
                match options_from(found.magnification, found.samples) {
                    Ok(settings) => Ok(Command::Run(settings)),
                    Err(e) => Err(e),
                }
            }
        },
    }
}

/// The options of the oscilloscope: `-m` or `--magnification` and `-s` or
/// `--samples`, each with an argument, and `-h` or `--help`.
pub open spec fn oscilloscope_options() -> Seq<(Seq<char>, Seq<char>, Seq<char>, Seq<char>, bool)> {
    seq![
        ("m"@, "magnification"@, "set magnification"@, "DOUBLE"@, true),
        ("s"@, "samples"@, "set samples per frame"@, "INT"@, true),
        ("h"@, "help"@, "print this help menu"@, Seq::<char>::empty(), false),
    ]
}

/// The line that the help text of program `program` begins with.
pub open spec fn brief_line(program: Seq<char>) -> Seq<char> {
    "Usage: "@ + program + " [options]"@
}

/// Reads the arguments of the program `program`, its own name left out.
///
/// Arguments that `getopts` turns down give an error with its message. A
/// request for help, wherever it stands, gives the help text that `getopts`
/// writes under the line "Usage: `program` [options]". Anything else gives
/// the settings that `options_from` makes of the first magnification and the
/// first number of samples, or its error. The decisions are those of
/// `command_from`.
pub fn get_options(program: &str, args: &Vec<String>) -> (r: Result<Command, OptError>)
    ensures
        is_command(
            r,
            match getopts_parse(oscilloscope_options(), texts(args@)) {
                Ok(values) => Ok(
                    (
                        values["h"@].len() > 0,
                        getopts_usage(oscilloscope_options(), brief_line(program@)),
                        first_value(values, "m"@),
                        first_value(values, "s"@),
                    ),
                ),
                Err(message) => Err(message),
            },
        ),
        r matches Ok(Command::Help(text)) ==> brief_line(program@).is_prefix_of(text@),
        r matches Ok(Command::Run(opts)) ==> opts.samples_per_frame >= 1,
{
    proof {
        reveal_strlit("m");
        reveal_strlit("magnification");
        reveal_strlit("s");
        reveal_strlit("samples");
        reveal_strlit("h");
        reveal_strlit("help");
    }
    let mut opts = new_options();
    optopt(&mut opts, "m", "magnification", "set magnification", "DOUBLE");
    optopt(&mut opts, "s", "samples", "set samples per frame", "INT");
    optflag(&mut opts, "h", "help", "print this help menu");
    let ghost table = option_table(opts);
    assert(table =~= oscilloscope_options());
    assert(table[0].0 == "m"@ && table[1].0 == "s"@ && table[2].0 == "h"@);
    assert(names(table, "m"@) && names(table, "s"@) && names(table, "h"@));
    let reading = match parse(&opts, args) {
        Err(refusal) => Err(refusal),
        Ok(found) => {
            let mut brief = String::from_str("Usage: ");
            brief.append(program);
            brief.append(" [options]");
            Ok(
                Findings {
                    help: opt_present(&found, "h"),
                    usage: usage(&opts, brief.as_str()),
                    magnification: opt_str(&found, "m"),
                    samples: opt_str(&found, "s"),
                },
            )
        },
    };
    command_from(reading)
}

} // verus!
