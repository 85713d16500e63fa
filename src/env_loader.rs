use vstd::prelude::*;
use vstd::string::*;
use crate::config_model::{texts, ConfigView, ServerConfig};

verus! {

/// Whether a character has the Unicode White_Space property, the
/// whitespace that `str::trim` removes.
pub open spec fn is_white_space(c: char) -> bool {
    let u = c as u32;
    ||| 0x09 <= u <= 0x0D
    ||| u == 0x20
    ||| u == 0x85
    ||| u == 0xA0
    ||| u == 0x1680
    ||| 0x2000 <= u <= 0x200A
    ||| u == 0x2028
    ||| u == 0x2029
    ||| u == 0x202F
    ||| u == 0x205F
    ||| u == 0x3000
}

/// The text without its leading whitespace.
pub open spec fn trim_start(s: Seq<char>) -> Seq<char>
    decreases s.len(),
{
    if s.len() > 0 && is_white_space(s[0]) {
        trim_start(s.drop_first())
    } else {
        s
    }
}

/// The text without its trailing whitespace.
pub open spec fn trim_end(s: Seq<char>) -> Seq<char>
    decreases s.len(),
{
    if s.len() > 0 && is_white_space(s.last()) {
        trim_end(s.drop_last())
    } else {
        s
    }
}

/// The text without leading and trailing whitespace, as `str::trim` gives it.
pub open spec fn trimmed(s: Seq<char>) -> Seq<char> {
    trim_end(trim_start(s))
}

fn white_space(c: char) -> (r: bool)
    ensures
        r == is_white_space(c),
{
    let u = c as u32;
    (0x09 <= u && u <= 0x0D) || u == 0x20 || u == 0x85 || u == 0xA0 || u == 0x1680 || (0x2000
        <= u && u <= 0x200A) || u == 0x2028 || u == 0x2029 || u == 0x202F || u == 0x205F || u
        == 0x3000
}

/// The text without leading and trailing whitespace.
pub fn trim_text(s: &str) -> (r: String)
    ensures
        r@ == trimmed(s@),
{
    let n = s.unicode_len();
    let mut i: usize = 0;
    proof {
        assert(s@.subrange(0, n as int) =~= s@);
    }
    while i < n && white_space(s.get_char(i))
        invariant
            n == s@.len(),
            i <= n,
            trim_start(s@) == trim_start(s@.subrange(i as int, n as int)),
        decreases n - i,
    {
        proof {
            assert(s@.subrange(i as int, n as int).drop_first() =~= s@.subrange(
                i + 1,
                n as int,
            ));
        }
        i += 1;
    }
    let mut j: usize = n;
    while j > i && white_space(s.get_char(j - 1))
        invariant
            n == s@.len(),
            i <= j <= n,
            trim_start(s@) == s@.subrange(i as int, n as int),
            trim_end(s@.subrange(i as int, n as int)) == trim_end(s@.subrange(i as int, j as int)),
        decreases j - i,
    {
        proof {
            assert(s@.subrange(i as int, j as int).drop_last() =~= s@.subrange(
                i as int,
                j - 1,
            ));
        }
        j -= 1;
    }
    s.substring_char(i, j).to_owned()
}

/// The pieces of a text between separators, as `str::split` yields them:
/// one more piece than there are separators.
pub open spec fn split_on(s: Seq<char>, sep: char) -> Seq<Seq<char>>
    decreases s.len(),
{
    if s.len() == 0 {
        seq![Seq::<char>::empty()]
    } else {
        let p = split_on(s.drop_last(), sep);
        if s.last() == sep {
            p.push(Seq::<char>::empty())
        } else {
            p.update(p.len() - 1, p.last().push(s.last()))
        }
    }
}

/// The non-empty texts, in order.
pub open spec fn non_empty(pieces: Seq<Seq<char>>) -> Seq<Seq<char>>
    decreases pieces.len(),
{
    if pieces.len() == 0 {
        Seq::<Seq<char>>::empty()
    } else {
        let r = non_empty(pieces.drop_last());
        if pieces.last().len() > 0 {
            r.push(pieces.last())
        } else {
            r
        }
    }
}

/// The directories a path-list variable names: its pieces, each trimmed,
/// the empty ones dropped.
pub open spec fn dir_list(s: Seq<char>, sep: char) -> Seq<Seq<char>> {
    non_empty(split_on(s, sep).map_values(|p: Seq<char>| trimmed(p)))
}

/// Splits a text at each separator, as `str::split` does.
pub fn split_pieces(value: &str, separator: char) -> (r: Vec<String>)
    ensures
        texts(r@) == split_on(value@, separator),
{
    let n = value.unicode_len();
    let mut out: Vec<String> = Vec::new();
    let mut start: usize = 0;
    let mut i: usize = 0;
    proof {
        assert(value@.take(0) =~= Seq::<char>::empty());
    }
    while i < n
        invariant
            n == value@.len(),
            start <= i <= n,
            split_on(value@.take(i as int), separator).len() >= 1,
            split_on(value@.take(i as int), separator).last() == value@.subrange(
                start as int,
                i as int,
            ),
            texts(out@) == split_on(value@.take(i as int), separator).drop_last(),
        decreases n - i,
    {
        let ghost p = split_on(value@.take(i as int), separator);
        let c = value.get_char(i);
        proof {
            assert(value@.take(i + 1).drop_last() =~= value@.take(i as int));
            assert(value@.take(i + 1).last() == c);
        }
        if c == separator {
            out.push(value.substring_char(start, i).to_owned());
            proof {
                let p2 = split_on(value@.take(i + 1), separator);
                assert(p2 == p.push(Seq::<char>::empty()));
                assert(p2.drop_last() =~= p);
                assert(texts(out@) =~= p.drop_last().push(p.last()));
                assert(p.drop_last().push(p.last()) =~= p);
                assert(value@.subrange(i + 1, i + 1) =~= Seq::<char>::empty());
            }
            start = i + 1;
        } else {
            proof {
                let p2 = split_on(value@.take(i + 1), separator);
                assert(p2.drop_last() =~= p.drop_last());
                assert(value@.subrange(start as int, i + 1) =~= value@.subrange(
                    start as int,
                    i as int,
                ).push(c));
            }
        }
        i += 1;
    }
    out.push(value.substring_char(start, n).to_owned());
    proof {
        let p = split_on(value@.take(n as int), separator);
        assert(value@.take(n as int) =~= value@);
        assert(texts(out@) =~= p.drop_last().push(p.last()));
        assert(p.drop_last().push(p.last()) =~= p);
    }
    out
}

/// Keeps the non-empty texts, in order.
pub fn drop_empty(pieces: Vec<String>) -> (r: Vec<String>)
    ensures
        texts(r@) == non_empty(texts(pieces@)),
{
    let mut out: Vec<String> = Vec::new();
    let mut i: usize = 0;
    while i < pieces.len()
        invariant
            i <= pieces@.len(),
            texts(out@) == non_empty(texts(pieces@.take(i as int))),
        decreases pieces@.len() - i,
    {
        proof {
            assert(texts(pieces@.take(i + 1)).drop_last() =~= texts(pieces@.take(i as int)));
        }
        if pieces[i].as_str().unicode_len() > 0 {
            out.push(pieces[i].clone());
            proof {
                assert(texts(out@) =~= non_empty(texts(pieces@.take(i + 1))));
            }
        }
        i += 1;
    }
    proof {
        assert(pieces@.take(pieces@.len() as int) =~= pieces@);
    }
    out
}

/// Splits a path list on `separator`, trims each piece and drops the empty
/// ones.
pub fn parse_dir_list(value: &str, separator: char) -> (r: Vec<String>)
    ensures
        texts(r@) == dir_list(value@, separator),
{
    let pieces = split_pieces(value, separator);
    let mut trimmed_pieces: Vec<String> = Vec::new();
    let mut i: usize = 0;
    while i < pieces.len()
        invariant
            i <= pieces@.len(),
            texts(trimmed_pieces@) == texts(pieces@).take(i as int).map_values(
                |p: Seq<char>| trimmed(p),
            ),
        decreases pieces@.len() - i,
    {
        let ghost before = trimmed_pieces@;
        let piece = trim_text(pieces[i].as_str());
        assert(piece@ == trimmed(texts(pieces@)[i as int]));
        let ghost piece_view = piece;
        trimmed_pieces.push(piece);
        proof {
            assert(texts(before).len() == before.len());
            assert(before.len() == i);
            assert(trimmed_pieces@ == before.push(piece_view));
            let target = texts(pieces@).take(i + 1).map_values(|p: Seq<char>| trimmed(p));
            assert forall|k: int| 0 <= k < target.len() implies texts(trimmed_pieces@)[k]
                == target[k] by {
                assert(target[k] == trimmed(pieces@[k]@));
                assert(texts(trimmed_pieces@)[k] == trimmed_pieces@[k]@);
                if k < i {
                    assert(trimmed_pieces@[k] == before[k]);
                    assert(texts(before)[k] == before[k]@);
                    assert(texts(before)[k] == trimmed(pieces@[k]@));
                }
            }
            assert(texts(trimmed_pieces@) =~= target);
        }
        i += 1;
    }
    proof {
        assert(texts(pieces@).take(pieces@.len() as int) =~= texts(pieces@));
    }
    drop_empty(trimmed_pieces)
}

/// The settings after the environment's directory lists are applied: a
/// non-empty list replaces the stored one, an empty one leaves it.
pub open spec fn with_env_overrides(c: ConfigView, allowed: Seq<String>, denied: Seq<String>) -> ConfigView {
    ConfigView {
        allowed_directories: if allowed.len() > 0 {
            allowed
        } else {
            c.allowed_directories
        },
        denied_directories: if denied.len() > 0 {
            denied
        } else {
            c.denied_directories
        },
        ..c
    }
}

/// Applies the environment's directory lists to a snapshot.
pub fn apply_env_overrides(config: &mut ServerConfig, allowed: Vec<String>, denied: Vec<String>)
    ensures
        final(config)@ == with_env_overrides(old(config)@, allowed@, denied@),
        final(config).system_info == old(config).system_info,
{
    if allowed.len() > 0 {
        config.allowed_directories = allowed;
    }
    if denied.len() > 0 {
        config.denied_directories = denied;
    }
    assert(config@ =~= with_env_overrides(old(config)@, allowed@, denied@));
}


/// Loading a snapshot with no directory lists from the environment installs
/// its settings unchanged, so a snapshot that was saved and is read back
/// gives the settings it was taken from.
pub proof fn law_reload_without_overrides(c: ConfigView)
    ensures
        with_env_overrides(c, Seq::<String>::empty(), Seq::<String>::empty()) == c,
{
}

} // verus!
