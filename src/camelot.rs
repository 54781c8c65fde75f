use vstd::prelude::*;

use crate::types::{code_text, lemma_code_text_injective, valid_key, Key};

verus! {

/// Number of candidate keys: twelve major roots, then twelve minor roots.
pub const NUM_KEYS: usize = 24;

/// The name of pitch class `pc` (`0` is C).
pub open spec fn note_name(pc: int) -> Seq<char> {
    if pc == 0 {
        "C"@
    } else if pc == 1 {
        "C#"@
    } else if pc == 2 {
        "D"@
    } else if pc == 3 {
        "D#"@
    } else if pc == 4 {
        "E"@
    } else if pc == 5 {
        "F"@
    } else if pc == 6 {
        "F#"@
    } else if pc == 7 {
        "G"@
    } else if pc == 8 {
        "G#"@
    } else if pc == 9 {
        "A"@
    } else if pc == 10 {
        "A#"@
    } else {
        "B"@
    }
}

/// The mode suffix of a key name.
pub open spec fn mode_name(minor: bool) -> Seq<char> {
    if minor {
        " Minor"@
    } else {
        " Major"@
    }
}

/// The name `"<Note> <Mode>"` of key candidate `i`: indices below twelve are
/// major keys, the others minor, rooted at pitch class `i % 12`.
pub open spec fn key_name(i: int) -> Seq<char> {
    note_name(i % 12) + mode_name(i >= 12)
}

/// The wheel position of key candidate `i`.
pub open spec fn camelot_num(i: int) -> int {
    if i < 12 {
        if i == 0 {
            8
        } else if i == 1 {
            3
        } else if i == 2 {
            10
        } else if i == 3 {
            5
        } else if i == 4 {
            12
        } else if i == 5 {
            7
        } else if i == 6 {
            2
        } else if i == 7 {
            9
        } else if i == 8 {
            4
        } else if i == 9 {
            11
        } else if i == 10 {
            6
        } else {
            1
        }
    } else {
        if i == 12 {
            5
        } else if i == 13 {
            12
        } else if i == 14 {
            7
        } else if i == 15 {
            2
        } else if i == 16 {
            9
        } else if i == 17 {
            4
        } else if i == 18 {
            11
        } else if i == 19 {
            6
        } else if i == 20 {
            1
        } else if i == 21 {
            8
        } else if i == 22 {
            3
        } else {
            10
        }
    }
}

/// The mode letter of key candidate `i`: `B` for major, `A` for minor.
pub open spec fn camelot_letter(i: int) -> char {
    if i < 12 {
        'B'
    } else {
        'A'
    }
}

/// The textual wheel code of key candidate `i`, such as `8B`.
pub open spec fn camelot_code(i: int) -> Seq<char> {
    code_text(camelot_num(i), camelot_letter(i))
}

/// Whether `s` is the name of one of the key candidates.
pub open spec fn is_key_name(s: Seq<char>) -> bool {
    exists|i: int| 0 <= i < 24 && s == key_name(i)
}

/// Reads the candidate index back from a key name.
spec fn name_index(s: Seq<char>) -> int {
    let base: int = if s[0] == 'C' {
        0
    } else if s[0] == 'D' {
        2
    } else if s[0] == 'E' {
        4
    } else if s[0] == 'F' {
        5
    } else if s[0] == 'G' {
        7
    } else if s[0] == 'A' {
        9
    } else {
        11
    };
    let sharp: int = if s[1] == '#' {
        1
    } else {
        0
    };
    let minor: int = if s[s.len() - 4] == 'i' {
        12
    } else {
        0
    };
    base + sharp + minor
}

proof fn lemma_name_index(i: int)
    requires
        0 <= i < 24,
    ensures
        name_index(key_name(i)) == i,
{
    reveal_strlit("C");
    reveal_strlit("C#");
    reveal_strlit("D");
    reveal_strlit("D#");
    reveal_strlit("E");
    reveal_strlit("F");
    reveal_strlit("F#");
    reveal_strlit("G");
    reveal_strlit("G#");
    reveal_strlit("A");
    reveal_strlit("A#");
    reveal_strlit("B");
    reveal_strlit(" Major");
    reveal_strlit(" Minor");
    let n = note_name(i % 12);
    let m = mode_name(i >= 12);
    let s = n + m;
    assert(s[0] == n[0]);
    assert(s[1] == if n.len() > 1 { n[1] } else { m[0] });
    assert(s[s.len() - 4] == m[2]);
}

/// Distinct key candidates have distinct names.
pub proof fn lemma_key_name_injective(i: int, j: int)
    requires
        0 <= i < 24,
        0 <= j < 24,
        key_name(i) == key_name(j),
    ensures
        i == j,
{
    lemma_name_index(i);
    lemma_name_index(j);
}

/// The key candidate whose wheel position is `num` and letter is `letter`.
pub open spec fn camelot_index(num: int, letter: char) -> int {
    if letter == 'B' {
        (7 * num - 8) % 12
    } else {
        (7 * num - 11) % 12 + 12
    }
}

/// The wheel codes of the twenty-four key candidates are valid, pairwise
/// distinct, and cover every valid code: the lookup from key names to codes
/// is a bijection.
pub proof fn lemma_camelot_codes_bijective()
    ensures
        forall|i: int|
            0 <= i < 24 ==> valid_key(#[trigger] camelot_num(i), camelot_letter(i)),
        forall|i: int, j: int|
            0 <= i < 24 && 0 <= j < 24 && i != j ==> #[trigger] camelot_code(i) != #[trigger] camelot_code(j),
        forall|n: int, l: char|
            valid_key(n, l) ==> exists|i: int| 0 <= i < 24 && #[trigger] camelot_code(i) == code_text(n, l),
{
    assert forall|i: int, j: int|
        0 <= i < 24 && 0 <= j < 24 && i != j implies #[trigger] camelot_code(i) != #[trigger] camelot_code(j) by {
        if camelot_code(i) == camelot_code(j) {
            lemma_code_text_injective(camelot_num(i), camelot_letter(i), camelot_num(j), camelot_letter(j));
        }
    }
    assert forall|n: int, l: char| valid_key(n, l) implies exists|i: int|
        0 <= i < 24 && #[trigger] camelot_code(i) == code_text(n, l) by {
        let w = camelot_index(n, l);
        assert(camelot_num(w) == n && camelot_letter(w) == l);
        assert(camelot_code(w) == code_text(n, l));
    }
}

/// Whether two strings hold the same characters.
fn str_eq(a: &str, b: &str) -> (r: bool)
    ensures
        r == (a@ == b@),
{
    let n = a.unicode_len();
    if n != b.unicode_len() {
        return false;
    }
    let mut i: usize = 0;
    while i < n
        invariant
            n == a@.len(),
            n == b@.len(),
            i <= n,
            forall|j: int| 0 <= j < i ==> a@[j] == b@[j],
        decreases n - i,
    {
        if a.get_char(i) != b.get_char(i) {
            return false;
        }
        i = i + 1;
    }
    assert(a@ =~= b@);
    true
}

/// The name of pitch class `pc`.
fn note_str(pc: usize) -> (r: &'static str)
    requires
        pc < 12,
    ensures
        r@ == note_name(pc as int),
{
    if pc == 0 {
        "C"
    } else if pc == 1 {
        "C#"
    } else if pc == 2 {
        "D"
    } else if pc == 3 {
        "D#"
    } else if pc == 4 {
        "E"
    } else if pc == 5 {
        "F"
    } else if pc == 6 {
        "F#"
    } else if pc == 7 {
        "G"
    } else if pc == 8 {
        "G#"
    } else if pc == 9 {
        "A"
    } else if pc == 10 {
        "A#"
    } else {
        "B"
    }
}

/// The name `"<Note> <Mode>"` of key candidate `index`, such as `C Major`.
pub fn key_name_of(index: usize) -> (r: String)
    requires
        index < NUM_KEYS,
    ensures
        r@ == key_name(index as int),
{
    let name = String::from_str(note_str(index % 12));
    if index < 12 {
        name.concat(" Major")
    } else {
        name.concat(" Minor")
    }
}

/// The wheel code of key candidate `index`.
fn camelot_str(index: usize) -> (r: &'static str)
    requires
        index < NUM_KEYS,
    ensures
        r@ == camelot_code(index as int),
{
    proof {
        reveal_strlit("1A");
        reveal_strlit("2A");
        reveal_strlit("3A");
        reveal_strlit("4A");
        reveal_strlit("5A");
        reveal_strlit("6A");
        reveal_strlit("7A");
        reveal_strlit("8A");
        reveal_strlit("9A");
        reveal_strlit("10A");
        reveal_strlit("11A");
        reveal_strlit("12A");
        reveal_strlit("1B");
        reveal_strlit("2B");
        reveal_strlit("3B");
        reveal_strlit("4B");
        reveal_strlit("5B");
        reveal_strlit("6B");
        reveal_strlit("7B");
        reveal_strlit("8B");
        reveal_strlit("9B");
        reveal_strlit("10B");
        reveal_strlit("11B");
        reveal_strlit("12B");
    }
    let r = if index == 0 {
        "8B"
    } else if index == 1 {
        "3B"
    } else if index == 2 {
        "10B"
    } else if index == 3 {
        "5B"
    } else if index == 4 {
        "12B"
    } else if index == 5 {
        "7B"
    } else if index == 6 {
        "2B"
    } else if index == 7 {
        "9B"
    } else if index == 8 {
        "4B"
    } else if index == 9 {
        "11B"
    } else if index == 10 {
        "6B"
    } else if index == 11 {
        "1B"
    } else if index == 12 {
        "5A"
    } else if index == 13 {
        "12A"
    } else if index == 14 {
        "7A"
    } else if index == 15 {
        "2A"
    } else if index == 16 {
        "9A"
    } else if index == 17 {
        "4A"
    } else if index == 18 {
        "11A"
    } else if index == 19 {
        "6A"
    } else if index == 20 {
        "1A"
    } else if index == 21 {
        "8A"
    } else if index == 22 {
        "3A"
    } else {
        "10A"
    };
    assert(r@ =~= camelot_code(index as int));
    r
}

/// Maps a key name such as `C Major` to its wheel code such as `8B`.
pub fn key_to_camelot(key: &str) -> (r: &'static str)
    requires
        is_key_name(key@),
    ensures
        forall|i: int| 0 <= i < 24 && key@ == key_name(i) ==> r@ == camelot_code(i),
{
    let mut i: usize = 0;
    while i < NUM_KEYS
        invariant
            i <= NUM_KEYS,
            forall|j: int| 0 <= j < i ==> key@ != key_name(j),
        decreases NUM_KEYS - i,
    {
        let name = key_name_of(i);
        if str_eq(key, name.as_str()) {
            proof {
                assert forall|j: int| 0 <= j < 24 && key@ == key_name(j) implies j == i by {
                    lemma_key_name_injective(j, i as int);
                }
            }
            return camelot_str(i);
        }
        i = i + 1;
    }
    ""
}

/// The key that candidate `index` stands for, found through its name and
/// its wheel code.
pub fn key_for_index(index: usize) -> (r: Key)
    requires
        index < NUM_KEYS,
    ensures
        r@ == (camelot_num(index as int), camelot_letter(index as int)),
{
    let name = key_name_of(index);
    let code = key_to_camelot(name.as_str());
    assert(valid_key(camelot_num(index as int), camelot_letter(index as int)));
    match Key::from_code(code) {
        Some(k) => {
            proof {
                lemma_code_text_injective(
                    k@.0,
                    k@.1,
                    camelot_num(index as int),
                    camelot_letter(index as int),
                );
            }
            k
        },
        None => Key::new_force(1, 'A'),
    }
}

} // verus!
