//! The environment snapshot: an unordered name-to-value mapping handed to
//! resolution, and the case-insensitive lookup that matches variable names
//! against schema paths.

use vstd::prelude::*;

verus! {

/// ASCII lower-casing of one character; every character outside `'A'..='Z'`
/// is left unchanged.
pub open spec fn lower_char(c: char) -> char {
    if 'A' <= c && c <= 'Z' {
        ((c as u32) + 32) as char
    } else {
        c
    }
}

/// ASCII lower-casing of a whole character sequence.
pub open spec fn lower_seq(s: Seq<char>) -> Seq<char> {
    s.map_values(|c: char| lower_char(c))
}

/// A variable name matches a schema key when its lower-cased form equals the
/// key; keys are written lower-case.
pub open spec fn name_matches(name: Seq<char>, key: Seq<char>) -> bool {
    lower_seq(name) == key
}

/// The value the snapshot `env` supplies for the schema key `key`: the value
/// of the first entry whose name matches the key case-insensitively, or
/// `None` when no entry matches.
pub open spec fn lookup(env: Seq<(String, String)>, key: Seq<char>) -> Option<Seq<char>>
    decreases env.len(),
{
    if env.len() == 0 {
        None
    } else if name_matches(env[0].0@, key) {
        Some(env[0].1@)
    } else {
        lookup(env.drop_first(), key)
    }
}

/// Executable ASCII lower-casing of one character.
pub fn lower_char_exec(c: char) -> (r: char)
    ensures
        r == lower_char(c),
{
    match c {
        'A' => 'a',
        'B' => 'b',
        'C' => 'c',
        'D' => 'd',
        'E' => 'e',
        'F' => 'f',
        'G' => 'g',
        'H' => 'h',
        'I' => 'i',
        'J' => 'j',
        'K' => 'k',
        'L' => 'l',
        'M' => 'm',
        'N' => 'n',
        'O' => 'o',
        'P' => 'p',
        'Q' => 'q',
        'R' => 'r',
        'S' => 's',
        'T' => 't',
        'U' => 'u',
        'V' => 'v',
        'W' => 'w',
        'X' => 'x',
        'Y' => 'y',
        'Z' => 'z',
        _ => c,
    }
}

/// Whether `name` matches the lower-case schema key `key`, comparing
/// case-insensitively.
pub fn name_matches_exec(name: &str, key: &str) -> (r: bool)
    ensures
        r == name_matches(name@, key@),
{
    let n = name.unicode_len();
    let k = key.unicode_len();
    if n != k {
        assert(lower_seq(name@).len() == name@.len());
        return false;
    }
    let mut i: usize = 0;
    while i < n
        invariant
            n == name@.len(),
            n == key@.len(),
            i <= n,
            forall|j: int| 0 <= j < i ==> lower_char(name@[j]) == key@[j],
        decreases n - i,
    {
        let c = name.get_char(i);
        let d = key.get_char(i);
        if lower_char_exec(c) != d {
            assert(lower_seq(name@)[i as int] == lower_char(name@[i as int]));
            return false;
        }
        i = i + 1;
    }
    assert(lower_seq(name@) =~= key@);
    true
}

/// Scans the snapshot in order and returns a copy of the value of the first
/// entry whose name matches `key` case-insensitively.
pub fn lookup_exec(env: &Vec<(String, String)>, key: &str) -> (r: Option<String>)
    ensures
        match r {
            Some(v) => lookup(env@, key@) == Some(v@),
            None => lookup(env@, key@) is None,
        },
{
    let n = env.len();
    let mut i: usize = 0;
    while i < n
        invariant
            n == env@.len(),
            i <= n,
            forall|j: int| 0 <= j < i ==> !name_matches(env@[j].0@, key@),
        decreases n - i,
    {
        if name_matches_exec(env[i].0.as_str(), key) {
            proof {
                lemma_lookup_at(env@, key@, i as int);
            }
            return Some(env[i].1.clone());
        }
        i = i + 1;
    }
    proof {
        lemma_lookup_absent(env@, key@);
    }
    None
}

/// When the first `i` entries do not match and entry `i` does, the lookup
/// yields entry `i`'s value.
proof fn lemma_lookup_at(env: Seq<(String, String)>, key: Seq<char>, i: int)
    requires
        0 <= i < env.len(),
        forall|j: int| 0 <= j < i ==> !name_matches(env[j].0@, key),
        name_matches(env[i].0@, key),
    ensures
        lookup(env, key) == Some(env[i].1@),
    decreases i,
{
    if i == 0 {
    } else {
        lemma_lookup_at(env.drop_first(), key, i - 1);
    }
}

/// When no entry matches, the lookup yields nothing.
proof fn lemma_lookup_absent(env: Seq<(String, String)>, key: Seq<char>)
    requires
        forall|j: int| 0 <= j < env.len() ==> !name_matches(env[j].0@, key),
    ensures
        lookup(env, key) is None,
    decreases env.len(),
{
    if env.len() > 0 {
        lemma_lookup_absent(env.drop_first(), key);
    }
}

/// The lookup is blind to the letter case of the snapshot's variable names:
/// two snapshots whose names agree up to case and whose values agree entry
/// for entry answer every key alike.
pub proof fn lemma_lookup_case_insensitive(
    env1: Seq<(String, String)>,
    env2: Seq<(String, String)>,
    key: Seq<char>,
)
    requires
        env1.len() == env2.len(),
        forall|j: int| 0 <= j < env1.len() ==> lower_seq(#[trigger] env1[j].0@) == lower_seq(env2[j].0@),
        forall|j: int| 0 <= j < env1.len() ==> #[trigger] env1[j].1@ == env2[j].1@,
    ensures
        lookup(env1, key) == lookup(env2, key),
    decreases env1.len(),
{
    if env1.len() > 0 {
        assert(lower_seq(env1[0].0@) == lower_seq(env2[0].0@));
        assert(env1[0].1@ == env2[0].1@);
        lemma_lookup_case_insensitive(env1.drop_first(), env2.drop_first(), key);
    }
}

} // verus!
