//! The persisted form of the aggregate: a fixed, key-ordered sequence of
//! `key = value` lines, together with the decimal rendering of byte
//! quantities. Encoding and decoding are inverses on every well-formed
//! aggregate.

use vstd::arithmetic::div_mod::lemma_fundamental_div_mod;
use vstd::prelude::*;

use crate::config::{
    CacheConfig, CacheConfigView, ChainConfig, Config, ConfigView, FarmerConfig, FarmerConfigView,
    NodeConfig, NodeConfigView,
};

verus! {

/// The character that renders one decimal digit.
pub open spec fn digit_char(d: nat) -> char {
    if d == 0 {
        '0'
    } else if d == 1 {
        '1'
    } else if d == 2 {
        '2'
    } else if d == 3 {
        '3'
    } else if d == 4 {
        '4'
    } else if d == 5 {
        '5'
    } else if d == 6 {
        '6'
    } else if d == 7 {
        '7'
    } else if d == 8 {
        '8'
    } else {
        '9'
    }
}

/// The value of one decimal digit character; ten marks every other
/// character.
pub open spec fn digit_val(c: char) -> nat {
    match c {
        '0' => 0,
        '1' => 1,
        '2' => 2,
        '3' => 3,
        '4' => 4,
        '5' => 5,
        '6' => 6,
        '7' => 7,
        '8' => 8,
        '9' => 9,
        _ => 10,
    }
}

pub open spec fn is_digit(c: char) -> bool {
    digit_val(c) < 10
}

pub open spec fn all_digits(s: Seq<char>) -> bool {
    forall|i: int| 0 <= i < s.len() ==> is_digit(#[trigger] s[i])
}

/// The canonical decimal rendering of a number: no sign, no leading zero
/// except on zero itself.
pub open spec fn dec_of(n: nat) -> Seq<char>
    decreases n,
{
    if n < 10 {
        seq![digit_char(n)]
    } else {
        dec_of(n / 10).push(digit_char(n % 10))
    }
}

/// The number a digit string denotes.
pub open spec fn dec_val(s: Seq<char>) -> nat
    decreases s.len(),
{
    if s.len() == 0 {
        0
    } else {
        dec_val(s.drop_last()) * 10 + digit_val(s.last())
    }
}

/// What decoding a decimal field yields: the denoted number, where the text
/// is non-empty, all digits, and in range.
pub open spec fn dec_parse(s: Seq<char>) -> Option<u64> {
    if s.len() > 0 && all_digits(s) && dec_val(s) <= u64::MAX {
        Some(dec_val(s) as u64)
    } else {
        None
    }
}

proof fn lemma_dec_of_digits(n: nat)
    ensures
        dec_of(n).len() >= 1,
        all_digits(dec_of(n)),
    decreases n,
{
    if n >= 10 {
        lemma_dec_of_digits(n / 10);
        assert forall|i: int| 0 <= i < dec_of(n).len() implies is_digit(#[trigger] dec_of(n)[i]) by {
            if i < dec_of(n / 10).len() {
                assert(dec_of(n)[i] == dec_of(n / 10)[i]);
            }
        }
    }
}

proof fn lemma_dec_val_of(n: nat)
    ensures
        dec_val(dec_of(n)) == n,
    decreases n,
{
    if n < 10 {
        let s = dec_of(n);
        assert(s == seq![digit_char(n)]);
        assert(s.len() == 1);
        assert(s.drop_last() =~= Seq::<char>::empty());
        assert(dec_val(s.drop_last()) == 0);
        assert(s.last() == digit_char(n));
        assert(digit_val(digit_char(n)) == n);
    } else {
        lemma_dec_val_of(n / 10);
        let s = dec_of(n);
        assert(s == dec_of(n / 10).push(digit_char(n % 10)));
        assert(s.len() == dec_of(n / 10).len() + 1);
        assert(s.drop_last() =~= dec_of(n / 10));
        assert(s.last() == digit_char(n % 10));
        assert(n % 10 < 10);
        assert(digit_val(digit_char(n % 10)) == n % 10);
        assert(dec_val(s) == dec_val(dec_of(n / 10)) * 10 + (n % 10));
        lemma_fundamental_div_mod(n as int, 10);
    }
}

/// Encoding a number and decoding the text gives the number back.
pub proof fn lemma_dec_round_trip(n: u64)
    ensures
        dec_parse(dec_of(n as nat)) == Some(n),
{
    lemma_dec_of_digits(n as nat);
    lemma_dec_val_of(n as nat);
}

proof fn lemma_dec_val_take_step(s: Seq<char>, j: int)
    requires
        0 <= j < s.len(),
    ensures
        dec_val(s.take(j + 1)) == dec_val(s.take(j)) * 10 + digit_val(s[j]),
{
    assert(s.take(j + 1).drop_last() =~= s.take(j));
    assert(s.take(j + 1).last() == s[j]);
}

proof fn lemma_dec_val_mono(s: Seq<char>, j: int)
    requires
        0 <= j <= s.len(),
    ensures
        dec_val(s) >= dec_val(s.take(j)),
    decreases s.len() - j,
{
    if j < s.len() {
        lemma_dec_val_take_step(s, j);
        lemma_dec_val_mono(s, j + 1);
    } else {
        assert(s.take(j) =~= s);
    }
}

fn digit_str(d: u64) -> (r: &'static str)
    requires
        d < 10,
    ensures
        r@ == seq![digit_char(d as nat)],
{
    proof {
        reveal_strlit("0");
        reveal_strlit("1");
        reveal_strlit("2");
        reveal_strlit("3");
        reveal_strlit("4");
        reveal_strlit("5");
        reveal_strlit("6");
        reveal_strlit("7");
        reveal_strlit("8");
        reveal_strlit("9");
    }
    let r: &'static str = match d {
        0 => "0",
        1 => "1",
        2 => "2",
        3 => "3",
        4 => "4",
        5 => "5",
        6 => "6",
        7 => "7",
        8 => "8",
        _ => "9",
    };
    proof {
        assert(r@ =~= seq![digit_char(d as nat)]);
    }
    r
}

/// Renders a byte quantity in canonical decimal.
pub fn u64_to_dec(n: u64) -> (s: String)
    ensures
        s@ == dec_of(n as nat),
    decreases n,
{
    if n < 10 {
        let s = String::from_str(digit_str(n));
        proof {
            assert(s@ =~= dec_of(n as nat));
        }
        s
    } else {
        let mut s = u64_to_dec(n / 10);
        s.append(digit_str(n % 10));
        proof {
            assert(s@ =~= dec_of(n as nat));
        }
        s
    }
}

fn digit_of(c: char) -> (r: Option<u64>)
    ensures
        (r is Some) == is_digit(c),
        r is Some ==> r->Some_0 as nat == digit_val(c),
{
    match c {
        '0' => Some(0),
        '1' => Some(1),
        '2' => Some(2),
        '3' => Some(3),
        '4' => Some(4),
        '5' => Some(5),
        '6' => Some(6),
        '7' => Some(7),
        '8' => Some(8),
        '9' => Some(9),
        _ => None,
    }
}

/// Reads a byte quantity back from its decimal text, exactly as
/// [`dec_parse`] says: any non-digit, empty text or out-of-range value is
/// refused.
pub fn dec_from_str(s: &str) -> (r: Option<u64>)
    ensures
        r == dec_parse(s@),
{
    let len: usize = s.unicode_len();
    if len == 0 {
        return None;
    }
    let mut acc: u64 = 0;
    let mut i: usize = 0;
    while i < len
        invariant
            len == s@.len(),
            0 < len,
            i <= len,
            all_digits(s@.take(i as int)),
            acc as nat == dec_val(s@.take(i as int)),
        decreases len - i,
    {
        let c = s.get_char(i);
        match digit_of(c) {
            None => {
                proof {
                    assert(!is_digit(s@[i as int]));
                    assert(!all_digits(s@));
                }
                return None;
            },
            Some(d) => {
                proof {
                    lemma_dec_val_take_step(s@, i as int);
                }
                if acc > (u64::MAX - d) / 10 {
                    proof {
                        lemma_fundamental_div_mod((u64::MAX - d) as int, 10);
                        assert(acc * 10 + d > u64::MAX) by (nonlinear_arith)
                            requires
                                acc as int >= ((u64::MAX - d) as int) / 10 + 1,
                                (((u64::MAX - d) as int) / 10) * 10 + (((u64::MAX - d) as int) % 10)
                                    == (u64::MAX - d) as int,
                                0 <= ((u64::MAX - d) as int) % 10 < 10,
                                0 <= d <= 9,
                        ;
                        lemma_dec_val_mono(s@, i as int + 1);
                        assert(dec_val(s@) > u64::MAX);
                    }
                    return None;
                }
                proof {
                    lemma_fundamental_div_mod((u64::MAX - d) as int, 10);
                    assert(acc * 10 + d <= u64::MAX) by (nonlinear_arith)
                        requires
                            acc as int <= ((u64::MAX - d) as int) / 10,
                            (((u64::MAX - d) as int) / 10) * 10 + (((u64::MAX - d) as int) % 10)
                                == (u64::MAX - d) as int,
                            0 <= ((u64::MAX - d) as int) % 10 < 10,
                            0 <= d <= 9,
                    ;
                }
                acc = acc * 10 + d;
                i += 1;
            },
        }
    }
    proof {
        assert(s@.take(len as int) =~= s@);
    }
    Some(acc)
}

/// The rendering of the executor flag.
pub open spec fn bool_text(b: bool) -> Seq<char> {
    if b {
        "true"@
    } else {
        "false"@
    }
}

pub open spec fn bool_of_text(t: Seq<char>) -> Option<bool> {
    if t == "true"@ {
        Some(true)
    } else if t == "false"@ {
        Some(false)
    } else {
        None
    }
}

/// The chain profile a canonical (lower-case) name denotes.
pub open spec fn chain_of_canonical(t: Seq<char>) -> Option<ChainConfig> {
    if t == ChainConfig::Gemini3c.spec_name() {
        Some(ChainConfig::Gemini3c)
    } else if t == ChainConfig::Dev.spec_name() {
        Some(ChainConfig::Dev)
    } else if t == ChainConfig::DevNet.spec_name() {
        Some(ChainConfig::DevNet)
    } else {
        None
    }
}

/// The value of a `key = ` line: the rest of the line where the given
/// prefix opens it, and nothing otherwise.
pub open spec fn strip_prefix(p: Seq<char>, s: Seq<char>) -> Option<Seq<char>> {
    if p.len() <= s.len() && s.take(p.len() as int) == p {
        Some(s.skip(p.len() as int))
    } else {
        None
    }
}

/// The persisted form of an aggregate: one `key = value` line per field, in
/// a fixed key order, with the node name line present exactly where the
/// record carries one.
pub open spec fn encode_config(v: ConfigView) -> Seq<Seq<char>> {
    let base = seq![
        "chain = "@ + v.chain.spec_name(),
        "reward_address = "@ + v.farmer.reward_address,
        "plot_directory = "@ + v.farmer.plot_directory,
        "plot_size = "@ + dec_of(v.farmer.plot_size as nat),
        "cache_directory = "@ + v.farmer.cache.directory,
        "cache_size = "@ + dec_of(v.farmer.cache.size_bytes as nat),
        "node_directory = "@ + v.node.directory,
        "is_executor = "@ + bool_text(v.node.is_executor),
    ];
    match v.node.name {
        Some(n) => base.push("node_name = "@ + n),
        None => base,
    }
}

/// What decoding a sequence of lines yields: the aggregate they spell, or
/// nothing where any line is malformed, out of order, missing or left over.
pub open spec fn decode_config(ls: Seq<Seq<char>>) -> Option<ConfigView> {
    if ls.len() < 8 {
        None
    } else {
        match strip_prefix("chain = "@, ls[0]) {
            None => None,
            Some(chain_text) => match chain_of_canonical(chain_text) {
                None => None,
                Some(chain) => match strip_prefix("reward_address = "@, ls[1]) {
                    None => None,
                    Some(address) => match strip_prefix("plot_directory = "@, ls[2]) {
                        None => None,
                        Some(plot_dir) => match strip_prefix("plot_size = "@, ls[3]) {
                            None => None,
                            Some(plot_size_text) => match dec_parse(plot_size_text) {
                                None => None,
                                Some(plot_size) => match strip_prefix("cache_directory = "@, ls[4]) {
                                    None => None,
                                    Some(cache_dir) => match strip_prefix("cache_size = "@, ls[5]) {
                                        None => None,
                                        Some(cache_size_text) => match dec_parse(cache_size_text) {
                                            None => None,
                                            Some(cache_size) => match strip_prefix(
                                                "node_directory = "@,
                                                ls[6],
                                            ) {
                                                None => None,
                                                Some(node_dir) => match strip_prefix(
                                                    "is_executor = "@,
                                                    ls[7],
                                                ) {
                                                    None => None,
                                                    Some(flag_text) => match bool_of_text(flag_text) {
                                                        None => None,
                                                        Some(is_executor) => decode_tail(
                                                            ls,
                                                            chain,
                                                            address,
                                                            plot_dir,
                                                            plot_size,
                                                            cache_dir,
                                                            cache_size,
                                                            node_dir,
                                                            is_executor,
                                                        ),
                                                    },
                                                },
                                            },
                                        },
                                    },
                                },
                            },
                        },
                    },
                },
            },
        }
    }
}

/// The last step of decoding: the node name line is read exactly where the
/// decoded profile asks for a name, and no line may be left over.
pub open spec fn decode_tail(
    ls: Seq<Seq<char>>,
    chain: ChainConfig,
    address: Seq<char>,
    plot_dir: Seq<char>,
    plot_size: u64,
    cache_dir: Seq<char>,
    cache_size: u64,
    node_dir: Seq<char>,
    is_executor: bool,
) -> Option<ConfigView> {
    let farmer = FarmerConfigView {
        reward_address: address,
        plot_directory: plot_dir,
        plot_size,
        cache: CacheConfigView { directory: cache_dir, size_bytes: cache_size },
    };
    if chain.spec_requires_node_name() {
        if ls.len() == 9 {
            match strip_prefix("node_name = "@, ls[8]) {
                None => None,
                Some(name) => Some(
                    ConfigView {
                        chain,
                        farmer,
                        node: NodeConfigView { directory: node_dir, name: Some(name), is_executor },
                    },
                ),
            }
        } else {
            None
        }
    } else {
        if ls.len() == 8 {
            Some(
                ConfigView {
                    chain,
                    farmer,
                    node: NodeConfigView { directory: node_dir, name: None, is_executor },
                },
            )
        } else {
            None
        }
    }
}

/// Builds one `key = value` line.
fn make_line(prefix: &str, value: &str) -> (line: String)
    ensures
        line@ == prefix@ + value@,
{
    let mut line = String::from_str(prefix);
    line.append(value);
    line
}

/// Renders an aggregate as its persisted lines, exactly as
/// [`encode_config`] says.
pub fn encode_config_lines(c: &Config) -> (out: Vec<String>)
    ensures
        out.deep_view() == encode_config(c@),
{
    let mut out: Vec<String> = Vec::new();
    out.push(make_line("chain = ", c.chain.name()));
    out.push(make_line("reward_address = ", c.farmer.reward_address.as_str()));
    out.push(make_line("plot_directory = ", c.farmer.plot_directory.as_str()));
    let plot_size_text = u64_to_dec(c.farmer.plot_size);
    out.push(make_line("plot_size = ", plot_size_text.as_str()));
    out.push(make_line("cache_directory = ", c.farmer.cache.directory.as_str()));
    let cache_size_text = u64_to_dec(c.farmer.cache.size_bytes);
    out.push(make_line("cache_size = ", cache_size_text.as_str()));
    out.push(make_line("node_directory = ", c.node.directory.as_str()));
    out.push(make_line("is_executor = ", if c.node.is_executor { "true" } else { "false" }));
    match &c.node.name {
        Some(n) => {
            out.push(make_line("node_name = ", n.as_str()));
        },
        None => {},
    }
    proof {
        assert(out.deep_view() =~~= encode_config(c@));
    }
    out
}

/// Reads the value of a `key = ` line, exactly as [`strip_prefix`] says.
fn line_value(line: &String, prefix: &str) -> (r: Option<String>)
    ensures
        (r is Some) == (strip_prefix(prefix@, line@) is Some),
        r is Some ==> r->Some_0@ == strip_prefix(prefix@, line@)->Some_0,
{
    let plen: usize = prefix.unicode_len();
    let llen: usize = line.as_str().unicode_len();
    if plen > llen {
        return None;
    }
    let mut i: usize = 0;
    while i < plen
        invariant
            plen == prefix@.len(),
            llen == line@.len(),
            plen <= llen,
            i <= plen,
            forall|j: int| 0 <= j < i ==> line@[j] == prefix@[j],
        decreases plen - i,
    {
        if line.as_str().get_char(i) != prefix.get_char(i) {
            proof {
                assert(line@.take(plen as int)[i as int] != prefix@[i as int]);
            }
            return None;
        }
        i += 1;
    }
    proof {
        assert(line@.take(plen as int) =~= prefix@);
    }
    let tail = line.as_str().substring_char(plen, llen);
    proof {
        assert(tail@ =~= line@.skip(plen as int));
    }
    Some(String::from_str(tail))
}

/// Reads a chain profile back from its canonical name, exactly as
/// [`chain_of_canonical`] says.
fn chain_from_canonical(t: &String) -> (r: Option<ChainConfig>)
    ensures
        r == chain_of_canonical(t@),
{
    let gemini = String::from_str("gemini3c");
    let dev = String::from_str("dev");
    let devnet = String::from_str("devnet");
    if *t == gemini {
        Some(ChainConfig::Gemini3c)
    } else if *t == dev {
        Some(ChainConfig::Dev)
    } else if *t == devnet {
        Some(ChainConfig::DevNet)
    } else {
        None
    }
}

/// Reads the executor flag back, exactly as [`bool_of_text`] says.
fn bool_from_text(t: &String) -> (r: Option<bool>)
    ensures
        r == bool_of_text(t@),
{
    let true_text = String::from_str("true");
    let false_text = String::from_str("false");
    if *t == true_text {
        Some(true)
    } else if *t == false_text {
        Some(false)
    } else {
        None
    }
}

/// Reads an aggregate back from its persisted lines, exactly as
/// [`decode_config`] says.
pub fn decode_config_lines(lines: &Vec<String>) -> (r: Option<Config>)
    ensures
        (r is Some) == (decode_config(lines.deep_view()) is Some),
        r is Some ==> r->Some_0@ == decode_config(lines.deep_view())->Some_0,
{
    let ghost l: Seq<Seq<char>> = lines.deep_view();
    if lines.len() < 8 {
        return None;
    }
    let chain_text = match line_value(&lines[0], "chain = ") {
        Some(t) => t,
        None => return None,
    };
    let chain = match chain_from_canonical(&chain_text) {
        Some(c) => c,
        None => return None,
    };
    let address = match line_value(&lines[1], "reward_address = ") {
        Some(t) => t,
        None => return None,
    };
    let plot_directory = match line_value(&lines[2], "plot_directory = ") {
        Some(t) => t,
        None => return None,
    };
    let plot_size_text = match line_value(&lines[3], "plot_size = ") {
        Some(t) => t,
        None => return None,
    };
    let plot_size = match dec_from_str(plot_size_text.as_str()) {
        Some(n) => n,
        None => return None,
    };
    let cache_directory = match line_value(&lines[4], "cache_directory = ") {
        Some(t) => t,
        None => return None,
    };
    let cache_size_text = match line_value(&lines[5], "cache_size = ") {
        Some(t) => t,
        None => return None,
    };
    let cache_size = match dec_from_str(cache_size_text.as_str()) {
        Some(n) => n,
        None => return None,
    };
    let node_directory = match line_value(&lines[6], "node_directory = ") {
        Some(t) => t,
        None => return None,
    };
    let flag_text = match line_value(&lines[7], "is_executor = ") {
        Some(t) => t,
        None => return None,
    };
    let is_executor = match bool_from_text(&flag_text) {
        Some(b) => b,
        None => return None,
    };
    let farmer = FarmerConfig {
        reward_address: address,
        plot_directory,
        plot_size,
        cache: CacheConfig { directory: cache_directory, size_bytes: cache_size },
    };
    if chain.requires_node_name() {
        if lines.len() != 9 {
            return None;
        }
        let name = match line_value(&lines[8], "node_name = ") {
            Some(t) => t,
            None => return None,
        };
        Some(
            Config {
                chain,
                farmer,
                node: NodeConfig { directory: node_directory, name: Some(name), is_executor },
            },
        )
    } else {
        if lines.len() != 8 {
            return None;
        }
        Some(
            Config {
                chain,
                farmer,
                node: NodeConfig { directory: node_directory, name: None, is_executor },
            },
        )
    }
}

proof fn lemma_strip_prefix_concat(p: Seq<char>, t: Seq<char>)
    ensures
        strip_prefix(p, p + t) == Some(t),
{
    assert((p + t).take(p.len() as int) =~= p);
    assert((p + t).skip(p.len() as int) =~= t);
}

/// Law: decoding the encoded form of a well-formed aggregate yields the
/// aggregate back, field for field.
pub proof fn lemma_config_round_trip(v: ConfigView)
    requires
        Config::spec_wf(v),
    ensures
        decode_config(encode_config(v)) == Some(v),
{
    reveal_strlit("gemini3c");
    reveal_strlit("dev");
    reveal_strlit("devnet");
    reveal_strlit("true");
    reveal_strlit("false");
    let ls = encode_config(v);
    lemma_strip_prefix_concat("chain = "@, v.chain.spec_name());
    lemma_strip_prefix_concat("reward_address = "@, v.farmer.reward_address);
    lemma_strip_prefix_concat("plot_directory = "@, v.farmer.plot_directory);
    lemma_strip_prefix_concat("plot_size = "@, dec_of(v.farmer.plot_size as nat));
    lemma_strip_prefix_concat("cache_directory = "@, v.farmer.cache.directory);
    lemma_strip_prefix_concat("cache_size = "@, dec_of(v.farmer.cache.size_bytes as nat));
    lemma_strip_prefix_concat("node_directory = "@, v.node.directory);
    lemma_strip_prefix_concat("is_executor = "@, bool_text(v.node.is_executor));
    lemma_dec_round_trip(v.farmer.plot_size);
    lemma_dec_round_trip(v.farmer.cache.size_bytes);
    assert(chain_of_canonical(v.chain.spec_name()) == Some(v.chain));
    assert(bool_of_text(bool_text(v.node.is_executor)) == Some(v.node.is_executor));
    match v.node.name {
        Some(n) => {
            lemma_strip_prefix_concat("node_name = "@, n);
            assert(ls.len() == 9);
        },
        None => {
            assert(ls.len() == 8);
        },
    }
}

} // verus!
