use vstd::prelude::*;
use vstd::string::*;
use crate::config_value::{key_from_name, ConfigKey, ConfigValue, ValueView};
use crate::system_info::MemoryInfo;

verus! {

pub open spec fn digit(d: nat) -> char {
    if d == 0 {
        '0'
    } else if d == 1 {
        '1'
    } else if d == 2 {
        '2'
    } else if d == 3 {
        '3'
    } else if d == 4 {
        '4'
    } else if d == 5 {
        '5'
    } else if d == 6 {
        '6'
    } else if d == 7 {
        '7'
    } else if d == 8 {
        '8'
    } else {
        '9'
    }
}

/// The decimal digits of a natural number, without leading zeros.
pub open spec fn decimal(n: nat) -> Seq<char>
    decreases n,
{
    if n < 10 {
        seq![digit(n)]
    } else {
        decimal(n / 10).push(digit(n % 10))
    }
}

/// A number in decimal, with a leading '-' when it is negative.
pub open spec fn signed_decimal(n: int) -> Seq<char> {
    if n < 0 {
        seq!['-'] + decimal((-n) as nat)
    } else {
        decimal(n as nat)
    }
}

fn digit_text(d: u64) -> (r: &'static str)
    requires
        d < 10,
    ensures
        r@ == seq![digit(d as nat)],
{
    proof {
        reveal_strlit("0");
        reveal_strlit("1");
        reveal_strlit("2");
        reveal_strlit("3");
        reveal_strlit("4");
        reveal_strlit("5");
        reveal_strlit("6");
        reveal_strlit("7");
        reveal_strlit("8");
        reveal_strlit("9");
    }
    if d == 0 {
        "0"
    } else if d == 1 {
        "1"
    } else if d == 2 {
        "2"
    } else if d == 3 {
        "3"
    } else if d == 4 {
        "4"
    } else if d == 5 {
        "5"
    } else if d == 6 {
        "6"
    } else if d == 7 {
        "7"
    } else if d == 8 {
        "8"
    } else {
        "9"
    }
}

fn append_decimal(out: &mut String, n: u64)
    ensures
        final(out)@ == old(out)@ + decimal(n as nat),
    decreases n,
{
    if n >= 10 {
        append_decimal(out, n / 10);
    }
    out.append(digit_text(n % 10));
    assert(out@ =~= old(out)@ + decimal(n as nat));
}

/// A number in decimal.
pub fn u64_text(n: u64) -> (r: String)
    ensures
        r@ == decimal(n as nat),
{
    let mut out = String::new();
    append_decimal(&mut out, n);
    assert(out@ =~= decimal(n as nat));
    out
}

/// A number in decimal, with a leading '-' when it is negative.
pub fn i64_text(n: i64) -> (r: String)
    ensures
        r@ == signed_decimal(n as int),
{
    if n < 0 {
        let magnitude: u64 = (-(n + 1)) as u64 + 1;
        let mut out = String::from_str("-");
        proof {
            reveal_strlit("-");
        }
        append_decimal(&mut out, magnitude);
        assert(out@ =~= signed_decimal(n as int));
        out
    } else {
        u64_text(n as u64)
    }
}

/// The texts separated by `sep`.
pub open spec fn joined(items: Seq<String>, sep: Seq<char>) -> Seq<char>
    decreases items.len(),
{
    if items.len() == 0 {
        Seq::<char>::empty()
    } else if items.len() == 1 {
        items[0]@
    } else {
        joined(items.drop_last(), sep) + sep + items.last()@
    }
}

/// Joins texts with a separator between each two.
pub fn join_texts(items: &Vec<String>, sep: &str) -> (r: String)
    ensures
        r@ == joined(items@, sep@),
{
    let mut out = String::new();
    let mut i: usize = 0;
    while i < items.len()
        invariant
            i <= items@.len(),
            out@ == joined(items@.take(i as int), sep@),
        decreases items@.len() - i,
    {
        proof {
            assert(items@.take(i + 1).drop_last() =~= items@.take(i as int));
        }
        if i > 0 {
            out.append(sep);
        }
        out.append(items[i].as_str());
        proof {
            if i == 0 {
                assert(out@ =~= joined(items@.take(1), sep@));
            } else {
                assert(out@ =~= joined(items@.take(i + 1), sep@));
            }
        }
        i += 1;
    }
    proof {
        assert(items@.take(items@.len() as int) =~= items@);
    }
    out
}

/// How a value is shown after it was set: a text in quotes, a number in
/// decimal, a short list in full, a longer one by its first item and length.
pub open spec fn value_display(v: ValueView) -> Seq<char> {
    match v {
        ValueView::Text(s) => "\""@ + s@ + "\""@,
        ValueView::Number(n) => signed_decimal(n as int),
        ValueView::Boolean(b) => if b {
            "true"@
        } else {
            "false"@
        },
        ValueView::Array(a) => if a.len() == 0 {
            "[] (empty)"@
        } else if a.len() <= 3 {
            "["@ + joined(a, ", "@) + "]"@
        } else {
            "["@ + a[0]@ + ", ... "@ + decimal(a.len()) + " total]"@
        },
    }
}

/// Shows a value as it is reported after it was set.
pub fn describe_value(v: &ConfigValue) -> (r: String)
    ensures
        r@ == value_display(v@),
{
    match v {
        ConfigValue::String(s) => String::from_str("\"").concat(s.as_str()).concat("\""),
        ConfigValue::Number(n) => i64_text(*n),
        ConfigValue::Boolean(b) => if *b {
            String::from_str("true")
        } else {
            String::from_str("false")
        },
        ConfigValue::Array(a) => {
            if a.len() == 0 {
                String::from_str("[] (empty)")
            } else if a.len() <= 3 {
                let inner = join_texts(a, ", ");
                String::from_str("[").concat(inner.as_str()).concat("]")
            } else {
                let count = u64_text(a.len() as u64);
                String::from_str("[").concat(a[0].as_str()).concat(", ... ").concat(
                    count.as_str(),
                ).concat(" total]")
            }
        },
    }
}

/// What a change of the key means, as reported after it was set.
pub open spec fn change_note(key: Seq<char>) -> Seq<char> {
    match key_from_name(key) {
        Some(ConfigKey::BlockedCommands) => "Commands in this list will be rejected by the terminal tool."@,
        Some(ConfigKey::AllowedDirectories) => "Only paths within these directories can be accessed (empty = unrestricted)."@,
        Some(ConfigKey::DefaultShell) => "This shell will be used for all command executions."@,
        Some(ConfigKey::FileReadLineLimit) => "Maximum lines that can be read from a file in a single operation."@,
        Some(ConfigKey::FileWriteLineLimit) => "Maximum lines that can be written to a file in a single operation."@,
        _ => "Configuration value updated successfully."@,
    }
}

/// The note that explains a change of the key.
pub fn describe_change(key: &str) -> (r: &'static str)
    ensures
        r@ == change_note(key@),
{
    match ConfigKey::parse(key) {
        Some(ConfigKey::BlockedCommands) => "Commands in this list will be rejected by the terminal tool.",
        Some(ConfigKey::AllowedDirectories) => "Only paths within these directories can be accessed (empty = unrestricted).",
        Some(ConfigKey::DefaultShell) => "This shell will be used for all command executions.",
        Some(ConfigKey::FileReadLineLimit) => "Maximum lines that can be read from a file in a single operation.",
        Some(ConfigKey::FileWriteLineLimit) => "Maximum lines that can be written to a file in a single operation.",
        _ => "Configuration value updated successfully.",
    }
}

/// The blocked commands as listed in the summary: "none" when there are none.
pub fn blocked_summary(commands: &Vec<String>) -> (r: String)
    ensures
        r@ == if commands@.len() == 0 {
            "none"@
        } else {
            joined(commands@, ", "@)
        },
{
    if commands.len() == 0 {
        String::from_str("none")
    } else {
        join_texts(commands, ", ")
    }
}

/// The allowed directories as counted in the summary: "all (unrestricted)"
/// when there are none.
pub fn allowed_summary(dirs: &Vec<String>) -> (r: String)
    ensures
        r@ == if dirs@.len() == 0 {
            "all (unrestricted)"@
        } else {
            decimal(dirs@.len()) + " paths"@
        },
{
    if dirs.len() == 0 {
        String::from_str("all (unrestricted)")
    } else {
        u64_text(dirs.len() as u64).concat(" paths")
    }
}

/// A memory size given in kilobytes, as whole megabytes.
pub fn megabytes_text(kb: u64) -> (r: String)
    ensures
        r@ == decimal((kb / 1024) as nat) + " MB"@,
{
    u64_text(kb / 1024).concat(" MB")
}

/// Memory totals from sizes in kilobytes.
pub fn memory_info(total_kb: u64, available_kb: u64, used_kb: u64) -> (r: MemoryInfo)
    ensures
        r.total_mb@ == decimal((total_kb / 1024) as nat) + " MB"@,
        r.available_mb@ == decimal((available_kb / 1024) as nat) + " MB"@,
        r.used_mb@ == decimal((used_kb / 1024) as nat) + " MB"@,
{
    MemoryInfo {
        total_mb: megabytes_text(total_kb),
        available_mb: megabytes_text(available_kb),
        used_mb: megabytes_text(used_kb),
    }
}

} // verus!
