//! The validators: pure functions from raw operator text to a typed value
//! or a [`ValidationError`]. They do no I/O and never panic; the prompt
//! engine drives them.

use vstd::prelude::*;

use crate::ascii::{eq_ignore_ascii_case, lower_seq};
use crate::config::{
    is_base58_char, is_name_char, valid_node_name, valid_reward_address, ChainConfig,
};
use crate::errors::ValidationError;

verus! {

/// The value that bytesize's size-expression grammar assigns to a text, in
/// bytes, or nothing where the text is not a recognized size expression.
pub uninterp spec fn parsed_size(s: Seq<char>) -> Option<u64>;

/// Relies on bytesize's `FromStr` for `ByteSize`: it parses a size
/// expression such as `50GB`, `1.5KiB` or a bare byte count, and its result
/// depends on the characters of the text alone.
#[verifier::external_body]
fn parse_byte_size(s: &str) -> (r: Option<u64>)
    ensures
        r == parsed_size(s@),
{
    s.parse::<bytesize::ByteSize>().ok().map(|b| b.0)
}

fn is_base58(c: char) -> (b: bool)
    ensures
        b == is_base58_char(c),
{
    let n: u32 = c as u32;
    (49 <= n && n <= 57) || (65 <= n && n <= 90 && n != 73 && n != 79) || (97 <= n && n <= 122
        && n != 108)
}

fn is_name(c: char) -> (b: bool)
    ensures
        b == is_name_char(c),
{
    let n: u32 = c as u32;
    (97 <= n && n <= 122) || (65 <= n && n <= 90) || (48 <= n && n <= 57) || c == '-' || c == '_'
}

/// Accepts a well-formed reward address and returns it as the typed address
/// value; fails with `InvalidRewardAddress` on anything else.
pub fn reward_address_parser(s: &str) -> (r: Result<String, ValidationError>)
    ensures
        (r is Ok) == valid_reward_address(s@),
        r is Ok ==> r->Ok_0@ == s@,
        r is Err ==> r->Err_0 == ValidationError::InvalidRewardAddress,
{
    let len: usize = s.unicode_len();
    if len < 47 || len > 48 {
        return Err(ValidationError::InvalidRewardAddress);
    }
    if s.get_char(0) != '5' {
        return Err(ValidationError::InvalidRewardAddress);
    }
    let mut i: usize = 0;
    while i < len
        invariant
            len == s@.len(),
            i <= len,
            forall|j: int| 0 <= j < i ==> is_base58_char(#[trigger] s@[j]),
        decreases len - i,
    {
        if !is_base58(s.get_char(i)) {
            return Err(ValidationError::InvalidRewardAddress);
        }
        i += 1;
    }
    Ok(String::from_str(s))
}

/// Accepts a well-formed node name (non-empty, at most 64 characters, each
/// an ASCII letter, digit, `-` or `_`); fails with `InvalidNodeName`.
pub fn node_name_parser(s: &str) -> (r: Result<String, ValidationError>)
    ensures
        (r is Ok) == valid_node_name(s@),
        r is Ok ==> r->Ok_0@ == s@,
        r is Err ==> r->Err_0 == ValidationError::InvalidNodeName,
{
    let len: usize = s.unicode_len();
    if len < 1 || len > 64 {
        return Err(ValidationError::InvalidNodeName);
    }
    let mut i: usize = 0;
    while i < len
        invariant
            len == s@.len(),
            i <= len,
            forall|j: int| 0 <= j < i ==> is_name_char(#[trigger] s@[j]),
        decreases len - i,
    {
        if !is_name(s.get_char(i)) {
            return Err(ValidationError::InvalidNodeName);
        }
        i += 1;
    }
    Ok(String::from_str(s))
}

/// Accepts any non-empty text as a plot location and returns it unchanged;
/// resolving it against the platform is the caller's concern, and nothing
/// is created here. Fails with `InvalidPlotDirectory` on empty text.
pub fn plot_directory_parser(s: &str) -> (r: Result<String, ValidationError>)
    ensures
        (r is Ok) == (s@.len() > 0),
        r is Ok ==> r->Ok_0@ == s@,
        r is Err ==> r->Err_0 == ValidationError::InvalidPlotDirectory,
{
    let len: usize = s.unicode_len();
    if len == 0 {
        Err(ValidationError::InvalidPlotDirectory)
    } else {
        Ok(String::from_str(s))
    }
}

/// Accepts a size expression that names a positive byte quantity and
/// returns the quantity in bytes; fails with `InvalidPlotSize` where the
/// text is not a recognized size expression or names zero bytes.
pub fn size_parser(s: &str) -> (r: Result<u64, ValidationError>)
    ensures
        (r is Ok) == (parsed_size(s@) is Some && parsed_size(s@)->Some_0 > 0),
        r is Ok ==> r->Ok_0 == parsed_size(s@)->Some_0,
        r is Err ==> r->Err_0 == ValidationError::InvalidPlotSize,
{
    match parse_byte_size(s) {
        Some(n) if n > 0 => Ok(n),
        _ => Err(ValidationError::InvalidPlotSize),
    }
}

/// The chain profile a text selects: the profile whose canonical name the
/// text matches once ASCII case is folded away, if any.
pub open spec fn chain_of_text(s: Seq<char>) -> Option<ChainConfig> {
    if lower_seq(s) == ChainConfig::Gemini3c.spec_name() {
        Some(ChainConfig::Gemini3c)
    } else if lower_seq(s) == ChainConfig::Dev.spec_name() {
        Some(ChainConfig::Dev)
    } else if lower_seq(s) == ChainConfig::DevNet.spec_name() {
        Some(ChainConfig::DevNet)
    } else {
        None
    }
}

proof fn lemma_chain_names_are_lower_case()
    ensures
        lower_seq("gemini3c"@) == "gemini3c"@,
        lower_seq("dev"@) == "dev"@,
        lower_seq("devnet"@) == "devnet"@,
{
    reveal_strlit("gemini3c");
    reveal_strlit("dev");
    reveal_strlit("devnet");
    assert(lower_seq("gemini3c"@) =~= "gemini3c"@);
    assert(lower_seq("dev"@) =~= "dev"@);
    assert(lower_seq("devnet"@) =~= "devnet"@);
}

/// Accepts the name of one of the supported chain profiles, matched without
/// regard to ASCII case; fails with `UnknownChain` on anything else.
pub fn chain_parser(s: &str) -> (r: Result<ChainConfig, ValidationError>)
    ensures
        (r is Ok) == (chain_of_text(s@) is Some),
        r is Ok ==> r->Ok_0 == chain_of_text(s@)->Some_0,
        r is Err ==> r->Err_0 == ValidationError::UnknownChain,
{
    proof {
        lemma_chain_names_are_lower_case();
    }
    if eq_ignore_ascii_case(s, "gemini3c") {
        Ok(ChainConfig::Gemini3c)
    } else if eq_ignore_ascii_case(s, "dev") {
        Ok(ChainConfig::Dev)
    } else if eq_ignore_ascii_case(s, "devnet") {
        Ok(ChainConfig::DevNet)
    } else {
        Err(ValidationError::UnknownChain)
    }
}

/// The answer a text gives to a yes/no question: `y` or `yes` affirms, `n`
/// or `no` declines, without regard to ASCII case; anything else is no
/// answer at all.
pub open spec fn yes_no_of_text(s: Seq<char>) -> Option<bool> {
    let l = lower_seq(s);
    if l == "y"@ || l == "yes"@ {
        Some(true)
    } else if l == "n"@ || l == "no"@ {
        Some(false)
    } else {
        None
    }
}

proof fn lemma_yes_no_tokens_are_lower_case()
    ensures
        lower_seq("y"@) == "y"@,
        lower_seq("yes"@) == "yes"@,
        lower_seq("n"@) == "n"@,
        lower_seq("no"@) == "no"@,
{
    reveal_strlit("y");
    reveal_strlit("yes");
    reveal_strlit("n");
    reveal_strlit("no");
    assert(lower_seq("y"@) =~= "y"@);
    assert(lower_seq("yes"@) =~= "yes"@);
    assert(lower_seq("n"@) =~= "n"@);
    assert(lower_seq("no"@) =~= "no"@);
}

/// Accepts an affirmative or negative token and returns the flag it names;
/// fails with `InvalidYesNo` on anything else.
pub fn yes_or_no_parser(s: &str) -> (r: Result<bool, ValidationError>)
    ensures
        (r is Ok) == (yes_no_of_text(s@) is Some),
        r is Ok ==> r->Ok_0 == yes_no_of_text(s@)->Some_0,
        r is Err ==> r->Err_0 == ValidationError::InvalidYesNo,
{
    proof {
        lemma_yes_no_tokens_are_lower_case();
    }
    if eq_ignore_ascii_case(s, "y") || eq_ignore_ascii_case(s, "yes") {
        Ok(true)
    } else if eq_ignore_ascii_case(s, "n") || eq_ignore_ascii_case(s, "no") {
        Ok(false)
    } else {
        Err(ValidationError::InvalidYesNo)
    }
}

} // verus!
