//! Reading a graphics card's figures from the CSV text that `nvidia-smi
//! --format=csv --query-gpu=name,utilization.gpu,memory.free,memory.total`
//! prints: a header line, then `name, usage %, free MiB, total MiB`.
use vstd::prelude::*;

use crate::decimal::{parse_u64, parse_u64_spec};
use crate::status::{GpuData, GpuDataView, GpuMemory};

verus! {

/// What `regex::Regex::new(pattern)` and then `Regex::split(haystack)` give:
/// `None` where the pattern does not compile, else the pieces of the haystack
/// between the matches, in order.
pub uninterp spec fn regex_split(pattern: Seq<char>, haystack: Seq<char>) -> Option<Seq<Seq<char>>>;

/// What `regex::Regex::new(pattern)` and then `Regex::replace_all(haystack,
/// replacement)` give: `None` where the pattern does not compile, else the
/// haystack with every match replaced.
pub uninterp spec fn regex_replace_all(
    pattern: Seq<char>,
    haystack: Seq<char>,
    replacement: Seq<char>,
) -> Option<Seq<char>>;

/// The texts of a sequence of strings.
pub open spec fn texts(v: Seq<String>) -> Seq<Seq<char>> {
    v.map_values(|s: String| s@)
}

/// Splits `haystack` at the matches of the regular expression `pattern`, with
/// the `regex` crate: `Regex::new(pattern)`, then `Regex::split`, each piece
/// copied into a `String`. Claimed: the result is the named
/// [`regex_split`] of the two texts, `None` exactly where `Regex::new` fails.
#[verifier::external_body]
fn split_by_regex(pattern: &str, haystack: &str) -> (pieces: Option<Vec<String>>)
    ensures
        regex_split(pattern@, haystack@) == (match pieces {
            Some(v) => Some(texts(v@)),
            None => None,
        }),
{
    match regex::Regex::new(pattern) {
        Ok(re) => Some(re.split(haystack).map(|p| p.to_string()).collect()),
        Err(_) => None,
    }
}

/// Replaces every match of the regular expression `pattern` in `haystack`
/// with `replacement`, with the `regex` crate: `Regex::new(pattern)`, then
/// `Regex::replace_all`. Claimed: the result is the named
/// [`regex_replace_all`] of the three texts, `None` exactly where
/// `Regex::new` fails.
#[verifier::external_body]
fn replace_by_regex(pattern: &str, haystack: &str, replacement: &str) -> (out: Option<String>)
    ensures
        regex_replace_all(pattern@, haystack@, replacement@) == (match out {
            Some(s) => Some(s@),
            None => None,
        }),
{
    match regex::Regex::new(pattern) {
        Ok(re) => Some(re.replace_all(haystack, replacement).into_owned()),
        Err(_) => None,
    }
}

/// The fields of the first card's line of the tool's output: the output is
/// cut into lines at `\r\n` or `\n`, the percent and unit marks and carriage
/// returns are taken out of the second line, and that line is cut at `", "`.
/// `None` where there is no second line.
pub open spec fn card_fields(stdout: Seq<char>) -> Option<Seq<Seq<char>>> {
    match regex_split(r"\r\n|\n"@, stdout) {
        Some(lines) => if lines.len() >= 2 {
            match regex_replace_all(r" %| MiB| GiB|\r"@, lines[1], ""@) {
                Some(line) => regex_split(r", "@, line),
                None => None,
            }
        } else {
            None
        },
        None => None,
    }
}

/// The usage field: `[N/A]` is a card that reports no usage, any other text
/// must be a number.
pub open spec fn usage_field(field: Seq<char>) -> Option<Option<u64>> {
    if field == "[N/A]"@ {
        Some(None)
    } else {
        match parse_u64_spec(field) {
            Some(v) => Some(Some(v)),
            None => None,
        }
    }
}

/// Whether the fields of a card's line can be read: a name, a usage, and two
/// memory figures (any further fields are not read).
pub open spec fn card_fields_readable(fields: Seq<Seq<char>>) -> bool {
    &&& fields.len() >= 4
    &&& usage_field(fields[1]) is Some
    &&& parse_u64_spec(fields[2]) is Some
    &&& parse_u64_spec(fields[3]) is Some
}

/// The card that readable fields describe.
pub open spec fn card_of_fields(fields: Seq<Seq<char>>) -> GpuDataView {
    GpuDataView {
        name: fields[0],
        usage: usage_field(fields[1]).unwrap(),
        memory: GpuMemory {
            free: parse_u64_spec(fields[2]).unwrap(),
            total: parse_u64_spec(fields[3]).unwrap(),
        },
    }
}

/// What the tool's output says of the first card: `None` where the output has
/// no second line or that line's fields cannot be read.
pub open spec fn card_of_output(stdout: Seq<char>) -> Option<GpuDataView> {
    match card_fields(stdout) {
        Some(fields) => if card_fields_readable(fields) {
            Some(card_of_fields(fields))
        } else {
            None
        },
        None => None,
    }
}

/// Whether the fields of a card's line can be read, as
/// [`card_fields_readable`] says.
pub fn fields_readable(fields: &Vec<String>) -> (ok: bool)
    ensures
        ok == card_fields_readable(texts(fields@)),
{
    let ghost t = texts(fields@);
    if fields.len() < 4 {
        return false;
    }
    assert(t[1] == fields@[1]@ && t[2] == fields@[2]@ && t[3] == fields@[3]@);
    let not_available = String::from_str("[N/A]");
    let usage_ok = fields[1] == not_available || parse_u64(fields[1].as_str()).is_some();
    usage_ok && parse_u64(fields[2].as_str()).is_some() && parse_u64(fields[3].as_str()).is_some()
}

/// The card that the fields of its line describe: the name as it stands,
/// no usage for `[N/A]` and else the usage as a number, then the free and the
/// total memory.
pub fn card_from_fields(fields: &Vec<String>) -> (card: GpuData)
    requires
        card_fields_readable(texts(fields@)),
    ensures
        card@ == card_of_fields(texts(fields@)),
{
    let ghost t = texts(fields@);
    assert(t[0] == fields@[0]@ && t[1] == fields@[1]@ && t[2] == fields@[2]@ && t[3]
        == fields@[3]@);
    let not_available = String::from_str("[N/A]");
    let usage = if fields[1] == not_available {
        None
    } else {
        parse_u64(fields[1].as_str())
    };
    let free: u64 = match parse_u64(fields[2].as_str()) {
        Some(v) => v,
        None => 0,
    };
    let total: u64 = match parse_u64(fields[3].as_str()) {
        Some(v) => v,
        None => 0,
    };
    GpuData { name: fields[0].clone(), usage, memory: GpuMemory { free, total } }
}

/// Reads the first card from the tool's output, as [`card_of_output`] says:
/// `None` where the output has no second line or its fields cannot be read.
pub fn parse_info(stdout: &str) -> (card: Option<GpuData>)
    ensures
        card_of_output(stdout@) == (match card {
            Some(c) => Some(c@),
            None => None,
        }),
{
    let lines = match split_by_regex(r"\r\n|\n", stdout) {
        Some(lines) => lines,
        None => return None,
    };
    if lines.len() < 2 {
        return None;
    }
    assert(texts(lines@)[1] == lines@[1]@);
    let line = match replace_by_regex(r" %| MiB| GiB|\r", lines[1].as_str(), "") {
        Some(line) => line,
        None => return None,
    };
    let fields = match split_by_regex(r", ", line.as_str()) {
        Some(fields) => fields,
        None => return None,
    };
    if !fields_readable(&fields) {
        return None;
    }
    Some(card_from_fields(&fields))
}

/// A readable card line gives the card it spells out: its first field is the
/// name, its second the usage (none for `[N/A]`, else that number), its third
/// the free memory and its fourth the total memory, each figure read on its
/// own, and no other line of the output plays any part.
pub proof fn lemma_card_from_second_line(
    stdout: Seq<char>,
    lines: Seq<Seq<char>>,
    line: Seq<char>,
    fields: Seq<Seq<char>>,
)
    requires
        regex_split(r"\r\n|\n"@, stdout) == Some(lines),
        lines.len() >= 2,
        regex_replace_all(r" %| MiB| GiB|\r"@, lines[1], ""@) == Some(line),
        regex_split(r", "@, line) == Some(fields),
        fields.len() >= 4,
        fields[1] == "[N/A]"@ || parse_u64_spec(fields[1]) is Some,
        parse_u64_spec(fields[2]) is Some,
        parse_u64_spec(fields[3]) is Some,
    ensures
        card_of_output(stdout) is Some,
        card_of_output(stdout).unwrap().name == fields[0],
        fields[1] == "[N/A]"@ ==> card_of_output(stdout).unwrap().usage is None,
        fields[1] != "[N/A]"@ ==> card_of_output(stdout).unwrap().usage == parse_u64_spec(
            fields[1],
        ),
        card_of_output(stdout).unwrap().memory.free == parse_u64_spec(fields[2]).unwrap(),
        card_of_output(stdout).unwrap().memory.total == parse_u64_spec(fields[3]).unwrap(),
{
}

/// A card line that cannot be read gives no card: too few fields, a usage
/// that is neither `[N/A]` nor a number, or a memory figure that is not a
/// number; and output with fewer than two lines gives no card either.
pub proof fn lemma_unreadable_output_gives_no_card(
    stdout: Seq<char>,
    lines: Seq<Seq<char>>,
    line: Seq<char>,
    fields: Seq<Seq<char>>,
)
    requires
        regex_split(r"\r\n|\n"@, stdout) == Some(lines),
    ensures
        lines.len() < 2 ==> card_of_output(stdout) is None,
        lines.len() >= 2 && regex_replace_all(r" %| MiB| GiB|\r"@, lines[1], ""@) == Some(line)
            && regex_split(r", "@, line) == Some(fields) && (fields.len() < 4 || (fields[1]
            != "[N/A]"@ && parse_u64_spec(fields[1]) is None) || parse_u64_spec(fields[2]) is None
            || parse_u64_spec(fields[3]) is None) ==> card_of_output(stdout) is None,
{
}

/// Two outputs whose second lines are the same describe the same card,
/// whatever their other lines hold.
pub proof fn lemma_card_depends_only_on_second_line(
    stdout1: Seq<char>,
    stdout2: Seq<char>,
    lines1: Seq<Seq<char>>,
    lines2: Seq<Seq<char>>,
)
    requires
        regex_split(r"\r\n|\n"@, stdout1) == Some(lines1),
        regex_split(r"\r\n|\n"@, stdout2) == Some(lines2),
        lines1.len() >= 2,
        lines2.len() >= 2,
        lines1[1] == lines2[1],
    ensures
        card_of_output(stdout1) == card_of_output(stdout2),
{
}

} // verus!
