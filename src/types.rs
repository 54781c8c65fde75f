use vstd::prelude::*;

use crate::errors::CreateKeyError;

verus! {

/// Whether `num` and `letter` form a wheel position and a mode letter
/// (`A` for minor, `B` for major).
pub open spec fn valid_key(num: int, letter: char) -> bool {
    1 <= num <= 12 && (letter == 'A' || letter == 'B')
}

/// The decimal digit character of `d`.
pub open spec fn digit_char(d: int) -> char {
    if d == 0 {
        '0'
    } else if d == 1 {
        '1'
    } else if d == 2 {
        '2'
    } else if d == 3 {
        '3'
    } else if d == 4 {
        '4'
    } else if d == 5 {
        '5'
    } else if d == 6 {
        '6'
    } else if d == 7 {
        '7'
    } else if d == 8 {
        '8'
    } else {
        '9'
    }
}

/// The decimal text of a wheel position `1..=12`.
pub open spec fn num_text(num: int) -> Seq<char> {
    if num < 10 {
        seq![digit_char(num)]
    } else {
        seq!['1', digit_char(num - 10)]
    }
}

/// The textual form of a key: its position in decimal followed by its letter.
pub open spec fn code_text(num: int, letter: char) -> Seq<char> {
    num_text(num) + seq![letter]
}

/// The musical key of a track in wheel notation.
#[derive(Debug, Clone, Copy, PartialEq, Eq, Structural)]
pub struct Key {
    /// Wheel position, `1..=12`.
    num: i8,
    /// Mode letter, `A` (minor) or `B` (major).
    letter: char,
}

impl View for Key {
    type V = (int, char);

    closed spec fn view(&self) -> (int, char) {
        (self.num as int, self.letter)
    }
}

impl Key {
    #[verifier::type_invariant]
    spec fn inv(&self) -> bool {
        valid_key(self.num as int, self.letter)
    }

    /// Builds a key, rejecting a position outside `1..=12` first and then a
    /// letter other than `A` or `B`.
    pub fn new(num: i8, letter: char) -> (r: Result<Key, CreateKeyError>)
        ensures
            !(1 <= num <= 12) ==> r == Err::<Key, CreateKeyError>(
                CreateKeyError::InvalidNumberError,
            ),
            (1 <= num <= 12 && letter != 'A' && letter != 'B') ==> r == Err::<Key, CreateKeyError>(
                CreateKeyError::InvalidLetterError,
            ),
            valid_key(num as int, letter) ==> (r is Ok && r->Ok_0@ == (num as int, letter)),
    {
        if num > 12 || num <= 0 {
            return Err(CreateKeyError::InvalidNumberError);
        }
        if letter != 'A' && letter != 'B' {
            return Err(CreateKeyError::InvalidLetterError);
        }
        Ok(Key { num, letter })
    }

    /// Builds a key from a position and letter known to be valid.
    pub fn new_force(num: i8, letter: char) -> (r: Key)
        requires
            valid_key(num as int, letter),
        ensures
            r@ == (num as int, letter),
    {
        match Key::new(num, letter) {
            Ok(k) => k,
            Err(_) => Key { num: 1, letter: 'A' },
        }
    }

    /// The wheel position.
    pub fn num(&self) -> (r: i8)
        ensures
            r as int == self@.0,
            1 <= r <= 12,
    {
        proof {
            use_type_invariant(self);
        }
        self.num
    }

    /// The mode letter.
    pub fn letter(&self) -> (r: char)
        ensures
            r == self@.1,
            r == 'A' || r == 'B',
    {
        proof {
            use_type_invariant(self);
        }
        self.letter
    }

    /// The textual form of the key, such as `8B` or `12A`.
    pub fn to_string(&self) -> (r: String)
        ensures
            r@ == code_text(self@.0, self@.1),
    {
        proof {
            use_type_invariant(self);
        }
        let mut s = String::new();
        if self.num >= 10 {
            s.append(digit_str(1));
            s.append(digit_str(self.num - 10));
        } else {
            s.append(digit_str(self.num));
        }
        if self.letter == 'A' {
            s.append("A");
            proof {
                reveal_strlit("A");
            }
        } else {
            s.append("B");
            proof {
                reveal_strlit("B");
            }
        }
        assert(s@ =~= code_text(self@.0, self@.1));
        s
    }

    /// Reads a key from its textual form; `None` when the text is not the
    /// form of any key.
    pub fn from_code(code: &str) -> (r: Option<Key>)
        ensures
            match r {
                Some(k) => valid_key(k@.0, k@.1) && code@ == code_text(k@.0, k@.1),
                None => forall|n: int, l: char| valid_key(n, l) ==> code@ != code_text(n, l),
            },
    {
        let len = code.unicode_len();
        let num: i8;
        let lpos: usize;
        if len == 2 {
            match digit_value(code.get_char(0)) {
                Some(d) => {
                    if d == 0 {
                        return None;
                    }
                    num = d;
                },
                None => {
                    return None;
                },
            }
            lpos = 1;
        } else if len == 3 {
            if code.get_char(0) != '1' {
                return None;
            }
            match digit_value(code.get_char(1)) {
                Some(d) => {
                    if d > 2 {
                        return None;
                    }
                    num = 10 + d;
                },
                None => {
                    return None;
                },
            }
            lpos = 2;
        } else {
            return None;
        }
        let letter = code.get_char(lpos);
        if letter != 'A' && letter != 'B' {
            return None;
        }
        let k = Key { num, letter };
        assert(code@ =~= code_text(k@.0, k@.1));
        Some(k)
    }
}

/// Distinct keys have distinct textual forms.
pub proof fn lemma_code_text_injective(n1: int, l1: char, n2: int, l2: char)
    requires
        valid_key(n1, l1),
        valid_key(n2, l2),
        code_text(n1, l1) == code_text(n2, l2),
    ensures
        n1 == n2,
        l1 == l2,
{
    let t1 = code_text(n1, l1);
    let t2 = code_text(n2, l2);
    assert(t1.len() == t2.len());
    assert(t1[t1.len() - 1] == l1);
    assert(t2[t2.len() - 1] == l2);
    if n1 < 10 {
        assert(t1[0] == digit_char(n1));
        assert(t2[0] == digit_char(n2));
    } else {
        assert(t1[1] == digit_char(n1 - 10));
        assert(t2[1] == digit_char(n2 - 10));
    }
}

/// The value of a decimal digit character, if it is one.
fn digit_value(c: char) -> (r: Option<i8>)
    ensures
        match r {
            Some(d) => 0 <= d <= 9 && digit_char(d as int) == c,
            None => forall|d: int| 0 <= d <= 9 ==> digit_char(d) != c,
        },
{
    if c == '0' {
        Some(0)
    } else if c == '1' {
        Some(1)
    } else if c == '2' {
        Some(2)
    } else if c == '3' {
        Some(3)
    } else if c == '4' {
        Some(4)
    } else if c == '5' {
        Some(5)
    } else if c == '6' {
        Some(6)
    } else if c == '7' {
        Some(7)
    } else if c == '8' {
        Some(8)
    } else if c == '9' {
        Some(9)
    } else {
        None
    }
}

/// The one-character text of a decimal digit.
fn digit_str(d: i8) -> (r: &'static str)
    requires
        0 <= d <= 9,
    ensures
        r@ == seq![digit_char(d as int)],
{
    proof {
        reveal_strlit("0");
        reveal_strlit("1");
        reveal_strlit("2");
        reveal_strlit("3");
        reveal_strlit("4");
        reveal_strlit("5");
        reveal_strlit("6");
        reveal_strlit("7");
        reveal_strlit("8");
        reveal_strlit("9");
    }
    let r = if d == 0 {
        "0"
    } else if d == 1 {
        "1"
    } else if d == 2 {
        "2"
    } else if d == 3 {
        "3"
    } else if d == 4 {
        "4"
    } else if d == 5 {
        "5"
    } else if d == 6 {
        "6"
    } else if d == 7 {
        "7"
    } else if d == 8 {
        "8"
    } else {
        "9"
    };
    assert(r@ =~= seq![digit_char(d as int)]);
    r
}

} // verus!
