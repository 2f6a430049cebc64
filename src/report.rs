use vstd::prelude::*;

verus! {

/// The lowercase hexadecimal digit for a value below sixteen.
pub open spec fn hex_char(d: nat) -> char {
    if d == 0 { '0' } else if d == 1 { '1' } else if d == 2 { '2' } else if d == 3 { '3' }
    else if d == 4 { '4' } else if d == 5 { '5' } else if d == 6 { '6' } else if d == 7 { '7' }
    else if d == 8 { '8' } else if d == 9 { '9' } else if d == 10 { 'a' } else if d == 11 { 'b' }
    else if d == 12 { 'c' } else if d == 13 { 'd' } else if d == 14 { 'e' } else { 'f' }
}

/// The lowercase hexadecimal digits of `n`, most significant first, without
/// leading zeros (zero itself is one digit).
pub open spec fn hex_digits(n: nat) -> Seq<char>
    decreases n,
{
    if n < 16 {
        seq![hex_char(n)]
    } else {
        hex_digits(n / 16) + seq![hex_char(n % 16)]
    }
}

/// A fingerprint in the alternate hexadecimal form: `0x` then its digits.
pub open spec fn hex_text(v: u32) -> Seq<char> {
    seq!['0', 'x'] + hex_digits(v as nat)
}

/// The point of the execution cycle at which a fingerprint was taken.
#[derive(Clone, Copy, Debug, PartialEq, Eq, Structural)]
pub enum Stage {
    Pre,
    Post,
}

pub open spec fn stage_label(stage: Stage) -> Seq<char> {
    match stage {
        Stage::Pre => seq!['p', 'r', 'e', '_', 'h', 'a', 's', 'h'],
        Stage::Post => seq!['p', 'o', 's', 't', '_', 'h', 'a', 's', 'h'],
    }
}

/// The report line `<stage>_hash for <name>: <hex>`.
pub open spec fn report_text(stage: Stage, name: Seq<char>, fp: u32) -> Seq<char> {
    stage_label(stage) + seq![' ', 'f', 'o', 'r', ' '] + name + seq![':', ' '] + hex_text(fp)
}

/// The message of a verification failure:
/// `Pre hash <hex> and post hash <hex> for map <name> should be different`.
pub open spec fn mismatch_text(name: Seq<char>, pre: u32, post: u32) -> Seq<char> {
    seq!['P', 'r', 'e', ' ', 'h', 'a', 's', 'h', ' '] + hex_text(pre) + seq![
        ' ',
        'a',
        'n',
        'd',
        ' ',
        'p',
        'o',
        's',
        't',
        ' ',
        'h',
        'a',
        's',
        'h',
        ' ',
    ] + hex_text(post) + seq![' ', 'f', 'o', 'r', ' ', 'm', 'a', 'p', ' '] + name + seq![
        ' ',
        's',
        'h',
        'o',
        'u',
        'l',
        'd',
        ' ',
        'b',
        'e',
        ' ',
        'd',
        'i',
        'f',
        'f',
        'e',
        'r',
        'e',
        'n',
        't',
    ]
}

fn hex_digit_str(d: u32) -> (r: &'static str)
    requires
        d < 16,
    ensures
        r@ == seq![hex_char(d as nat)],
{
    proof {
        reveal_strlit("0");
        reveal_strlit("1");
        reveal_strlit("2");
        reveal_strlit("3");
        reveal_strlit("4");
        reveal_strlit("5");
        reveal_strlit("6");
        reveal_strlit("7");
        reveal_strlit("8");
        reveal_strlit("9");
        reveal_strlit("a");
        reveal_strlit("b");
        reveal_strlit("c");
        reveal_strlit("d");
        reveal_strlit("e");
        reveal_strlit("f");
    }
    match d {
        0 => "0",
        1 => "1",
        2 => "2",
        3 => "3",
        4 => "4",
        5 => "5",
        6 => "6",
        7 => "7",
        8 => "8",
        9 => "9",
        10 => "a",
        11 => "b",
        12 => "c",
        13 => "d",
        14 => "e",
        _ => "f",
    }
}

fn push_hex_digits(out: &mut String, n: u32)
    ensures
        final(out)@ == old(out)@ + hex_digits(n as nat),
    decreases n,
{
    if n >= 16 {
        push_hex_digits(out, n / 16);
    }
    out.append(hex_digit_str(n % 16));
    proof {
        assert(n < 16 ==> n % 16 == n);
    }
}

/// Appends a fingerprint in the form `0x<lowercase hex digits>`.
pub fn push_hex(out: &mut String, v: u32)
    ensures
        final(out)@ == old(out)@ + hex_text(v),
{
    proof {
        reveal_strlit("0x");
    }
    out.append("0x");
    push_hex_digits(out, v);
    assert(final(out)@ =~= old(out)@ + hex_text(v));
}

/// Formats a fingerprint as `0x<lowercase hex digits>`.
pub fn hex_string(v: u32) -> (r: String)
    ensures
        r@ == hex_text(v),
{
    let mut out = String::new();
    push_hex(&mut out, v);
    assert(out@ =~= hex_text(v));
    out
}

/// The report line for a fingerprint taken at `stage` on the map named `name`.
pub fn report_line(stage: Stage, name: &str, fp: u32) -> (r: String)
    ensures
        r@ == report_text(stage, name@, fp),
{
    proof {
        reveal_strlit("pre_hash");
        reveal_strlit("post_hash");
        reveal_strlit(" for ");
        reveal_strlit(": ");
    }
    let mut out = String::new();
    match stage {
        Stage::Pre => out.append("pre_hash"),
        Stage::Post => out.append("post_hash"),
    }
    out.append(" for ");
    out.append(name);
    out.append(": ");
    push_hex(&mut out, fp);
    assert(out@ =~= report_text(stage, name@, fp));
    out
}

/// The message naming the map and both (equal) fingerprints of a failed check.
pub fn mismatch_message(name: &str, pre: u32, post: u32) -> (r: String)
    ensures
        r@ == mismatch_text(name@, pre, post),
{
    proof {
        reveal_strlit("Pre hash ");
        reveal_strlit(" and post hash ");
        reveal_strlit(" for map ");
        reveal_strlit(" should be different");
    }
    let mut out = String::new();
    out.append("Pre hash ");
    push_hex(&mut out, pre);
    out.append(" and post hash ");
    push_hex(&mut out, post);
    out.append(" for map ");
    out.append(name);
    out.append(" should be different");
    assert(out@ =~= mismatch_text(name@, pre, post));
    out
}

/// What one execution-boundary hook asks to be emitted: a line for standard
/// output and a line for the log, each present only when its switch is on.
#[derive(Clone, Debug)]
pub struct Report {
    pub print: Option<String>,
    pub log: Option<String>,
}

impl Report {
    /// The report holds the line for `stage` exactly on the channels whose
    /// switch is on.
    pub open spec fn describes(
        &self,
        print: bool,
        log: bool,
        stage: Stage,
        name: Seq<char>,
        fp: u32,
    ) -> bool {
        &&& self.print.is_some() == print
        &&& self.log.is_some() == log
        &&& (self.print matches Some(l) ==> l@ == report_text(stage, name, fp))
        &&& (self.log matches Some(l) ==> l@ == report_text(stage, name, fp))
    }

    /// The number of lines the report sends to standard output.
    pub open spec fn printed(&self) -> nat {
        if self.print.is_some() { 1 } else { 0 }
    }

    /// The number of records the report sends to the log.
    pub open spec fn logged(&self) -> nat {
        if self.log.is_some() { 1 } else { 0 }
    }
}

} // verus!
