//! The grade scale: percentages, letter grades and grade points.
//!
//! A percentage is held in hundredths of a percent (`9650` is 96.5%), and a
//! grade point in hundredths of a point (`433` is 4.33). The scale is the one
//! nine-letter scale below, with F below 60%; a percentage outside 0..=100%
//! has no letter and no grade point.
//!
//! | percentage    | letter | grade point | representative percentage |
//! |---------------|--------|-------------|---------------------------|
//! | 95 ..= 100    | A+     | 4.33        | 97                        |
//! | 90 .. 95      | A      | 4.00        | 93                        |
//! | 85 .. 90      | A-     | 3.67        | 90                        |
//! | 80 .. 85      | B+     | 3.33        | 87                        |
//! | 75 .. 80      | B      | 3.00        | 83                        |
//! | 70 .. 75      | B-     | 2.67        | 80                        |
//! | 65 .. 70      | C+     | 2.33        | 77                        |
//! | 60 .. 65      | C      | 2.00        | 73                        |
//! | 0 .. 60       | F      | 0.00        | 50                        |
//!
//! The representative percentages are the fixed points that a letter chosen
//! by hand stands for; several of them lie in the band of the next letter up,
//! so going from a letter to its percentage and back can raise the letter.
use vstd::prelude::*;

verus! {

/// The grade point given to a percentage outside 0..=100%: never averaged in.
pub const INVALID_GRADE_POINT: i64 = -100;

/// A letter grade.
#[derive(Clone, Copy, PartialEq, Eq, Structural, Debug)]
pub enum Letter {
    APlus,
    A,
    AMinus,
    BPlus,
    B,
    BMinus,
    CPlus,
    C,
    F,
}

/// How a letter is written.
pub open spec fn letter_text(l: Letter) -> Seq<char> {
    match l {
        Letter::APlus => seq!['A', '+'],
        Letter::A => seq!['A'],
        Letter::AMinus => seq!['A', '-'],
        Letter::BPlus => seq!['B', '+'],
        Letter::B => seq!['B'],
        Letter::BMinus => seq!['B', '-'],
        Letter::CPlus => seq!['C', '+'],
        Letter::C => seq!['C'],
        Letter::F => seq!['F'],
    }
}

/// The letter written as `s`, if `s` is one.
pub open spec fn parse_letter(s: Seq<char>) -> Option<Letter> {
    if s == letter_text(Letter::APlus) {
        Some(Letter::APlus)
    } else if s == letter_text(Letter::A) {
        Some(Letter::A)
    } else if s == letter_text(Letter::AMinus) {
        Some(Letter::AMinus)
    } else if s == letter_text(Letter::BPlus) {
        Some(Letter::BPlus)
    } else if s == letter_text(Letter::B) {
        Some(Letter::B)
    } else if s == letter_text(Letter::BMinus) {
        Some(Letter::BMinus)
    } else if s == letter_text(Letter::CPlus) {
        Some(Letter::CPlus)
    } else if s == letter_text(Letter::C) {
        Some(Letter::C)
    } else if s == letter_text(Letter::F) {
        Some(Letter::F)
    } else {
        None
    }
}

/// The percentage, in hundredths, that a letter stands for.
pub open spec fn letter_point(l: Letter) -> int {
    match l {
        Letter::APlus => 9700,
        Letter::A => 9300,
        Letter::AMinus => 9000,
        Letter::BPlus => 8700,
        Letter::B => 8300,
        Letter::BMinus => 8000,
        Letter::CPlus => 7700,
        Letter::C => 7300,
        Letter::F => 5000,
    }
}

/// The percentage, in hundredths, for the text of a letter; 0 for any other text.
pub open spec fn spec_letter_to_point(s: Seq<char>) -> int {
    match parse_letter(s) {
        Some(l) => letter_point(l),
        None => 0,
    }
}

/// Whether a percentage, in hundredths, lies in 0..=100%.
pub open spec fn in_scale(p: int) -> bool {
    0 <= p <= 10000
}

/// The letter of a percentage in hundredths; none outside 0..=100%.
pub open spec fn spec_point_to_letter(p: int) -> Option<Letter> {
    if 9500 <= p <= 10000 {
        Some(Letter::APlus)
    } else if 9000 <= p < 9500 {
        Some(Letter::A)
    } else if 8500 <= p < 9000 {
        Some(Letter::AMinus)
    } else if 8000 <= p < 8500 {
        Some(Letter::BPlus)
    } else if 7500 <= p < 8000 {
        Some(Letter::B)
    } else if 7000 <= p < 7500 {
        Some(Letter::BMinus)
    } else if 6500 <= p < 7000 {
        Some(Letter::CPlus)
    } else if 6000 <= p < 6500 {
        Some(Letter::C)
    } else if 0 <= p < 6000 {
        Some(Letter::F)
    } else {
        None
    }
}

/// The grade point of a letter, in hundredths.
pub open spec fn letter_grade_point(l: Letter) -> int {
    match l {
        Letter::APlus => 433,
        Letter::A => 400,
        Letter::AMinus => 367,
        Letter::BPlus => 333,
        Letter::B => 300,
        Letter::BMinus => 267,
        Letter::CPlus => 233,
        Letter::C => 200,
        Letter::F => 0,
    }
}

/// The grade point of a percentage, both in hundredths: that of its letter,
/// or `INVALID_GRADE_POINT` outside 0..=100%.
pub open spec fn spec_point_to_pa(p: int) -> int {
    match spec_point_to_letter(p) {
        Some(l) => letter_grade_point(l),
        None => INVALID_GRADE_POINT as int,
    }
}

impl Letter {
    /// How the letter is written.
    pub fn text(&self) -> (r: &'static str)
        ensures
            r@ == letter_text(*self),
    {
        match self {
            Letter::APlus => {
                proof {
                    reveal_strlit("A+");
                }
                "A+"
            },
            Letter::A => {
                proof {
                    reveal_strlit("A");
                }
                "A"
            },
            Letter::AMinus => {
                proof {
                    reveal_strlit("A-");
                }
                "A-"
            },
            Letter::BPlus => {
                proof {
                    reveal_strlit("B+");
                }
                "B+"
            },
            Letter::B => {
                proof {
                    reveal_strlit("B");
                }
                "B"
            },
            Letter::BMinus => {
                proof {
                    reveal_strlit("B-");
                }
                "B-"
            },
            Letter::CPlus => {
                proof {
                    reveal_strlit("C+");
                }
                "C+"
            },
            Letter::C => {
                proof {
                    reveal_strlit("C");
                }
                "C"
            },
            Letter::F => {
                proof {
                    reveal_strlit("F");
                }
                "F"
            },
        }
    }

    /// The letter written as `s`, if `s` is one.
    pub fn parse(s: &str) -> (r: Option<Letter>)
        ensures
            r == parse_letter(s@),
    {
        let n = s.unicode_len();
        if n == 1 {
            let c = s.get_char(0);
            assert(s@ =~= seq![c]);
            if c == 'A' {
                Some(Letter::A)
            } else if c == 'B' {
                Some(Letter::B)
            } else if c == 'C' {
                Some(Letter::C)
            } else if c == 'F' {
                Some(Letter::F)
            } else {
                None
            }
        } else if n == 2 {
            let c0 = s.get_char(0);
            let c1 = s.get_char(1);
            assert(s@ =~= seq![c0, c1]);
            if c0 == 'A' && c1 == '+' {
                Some(Letter::APlus)
            } else if c0 == 'A' && c1 == '-' {
                Some(Letter::AMinus)
            } else if c0 == 'B' && c1 == '+' {
                Some(Letter::BPlus)
            } else if c0 == 'B' && c1 == '-' {
                Some(Letter::BMinus)
            } else if c0 == 'C' && c1 == '+' {
                Some(Letter::CPlus)
            } else {
                None
            }
        } else {
            None
        }
    }

    /// The percentage, in hundredths, that the letter stands for.
    pub fn point(&self) -> (r: i64)
        ensures
            r == letter_point(*self),
    {
        match self {
            Letter::APlus => 9700,
            Letter::A => 9300,
            Letter::AMinus => 9000,
            Letter::BPlus => 8700,
            Letter::B => 8300,
            Letter::BMinus => 8000,
            Letter::CPlus => 7700,
            Letter::C => 7300,
            Letter::F => 5000,
        }
    }
}

/// Converts the text of a letter grade to the percentage, in hundredths, that
/// it stands for; any other text gives 0.
pub fn letter_to_point(letter: &str) -> (r: i64)
    ensures
        r == spec_letter_to_point(letter@),
{
    match Letter::parse(letter) {
        Some(l) => l.point(),
        None => 0,
    }
}

/// Converts a percentage, in hundredths, to its letter grade: defined on all
/// of 0..=100%, and `None` outside it.
pub fn point_to_letter(point: i64) -> (r: Option<Letter>)
    ensures
        r == spec_point_to_letter(point as int),
        r.is_some() <==> in_scale(point as int),
{
    if 9500 <= point && point <= 10000 {
        Some(Letter::APlus)
    } else if 9000 <= point && point < 9500 {
        Some(Letter::A)
    } else if 8500 <= point && point < 9000 {
        Some(Letter::AMinus)
    } else if 8000 <= point && point < 8500 {
        Some(Letter::BPlus)
    } else if 7500 <= point && point < 8000 {
        Some(Letter::B)
    } else if 7000 <= point && point < 7500 {
        Some(Letter::BMinus)
    } else if 6500 <= point && point < 7000 {
        Some(Letter::CPlus)
    } else if 6000 <= point && point < 6500 {
        Some(Letter::C)
    } else if 0 <= point && point < 6000 {
        Some(Letter::F)
    } else {
        None
    }
}

/// Converts a percentage to its grade point, both in hundredths: defined on
/// all of 0..=100%, where it lies in 0..=433, and `INVALID_GRADE_POINT`
/// outside it.
pub fn point_to_pa(point: i64) -> (r: i64)
    ensures
        r == spec_point_to_pa(point as int),
        in_scale(point as int) ==> 0 <= r <= 433,
        !in_scale(point as int) ==> r == INVALID_GRADE_POINT,
{
    match point_to_letter(point) {
        Some(Letter::APlus) => 433,
        Some(Letter::A) => 400,
        Some(Letter::AMinus) => 367,
        Some(Letter::BPlus) => 333,
        Some(Letter::B) => 300,
        Some(Letter::BMinus) => 267,
        Some(Letter::CPlus) => 233,
        Some(Letter::C) => 200,
        Some(Letter::F) => 0,
        None => INVALID_GRADE_POINT,
    }
}

/// Every letter reads back from its own text.
pub proof fn lemma_parse_letter_text(l: Letter)
    ensures
        parse_letter(letter_text(l)) == Some(l),
{
    let all = seq![
        Letter::APlus,
        Letter::A,
        Letter::AMinus,
        Letter::BPlus,
        Letter::B,
        Letter::BMinus,
        Letter::CPlus,
        Letter::C,
        Letter::F,
    ];
    assert forall|k: int| 0 <= k < 9 implies {
        let u = letter_text(#[trigger] all[k]);
        &&& 1 <= u.len() <= 2
        &&& u[0] == (if k < 3 {
            'A'
        } else if k < 6 {
            'B'
        } else if k < 8 {
            'C'
        } else {
            'F'
        })
        &&& u.len() == 2 ==> u[1] == (if k % 3 == 0 {
            '+'
        } else {
            '-'
        })
        &&& (u.len() == 1 <==> (k % 3 == 1 || k == 8))
    } by {}
    let t = letter_text(l);
    assert forall|k: int| 0 <= k < 9 && #[trigger] all[k] != l implies letter_text(all[k]) != t by {
        let u = letter_text(all[k]);
        if u.len() == t.len() && u[0] == t[0] && (u.len() == 2 ==> u[1] == t[1]) {
            assert(false);
        }
    }
    assert(all[0] == Letter::APlus);
    assert(all[1] == Letter::A);
    assert(all[2] == Letter::AMinus);
    assert(all[3] == Letter::BPlus);
    assert(all[4] == Letter::B);
    assert(all[5] == Letter::BMinus);
    assert(all[6] == Letter::CPlus);
    assert(all[7] == Letter::C);
    assert(all[8] == Letter::F);
}

/// Going from a percentage to its letter, from the letter's text to the
/// percentage it stands for, and back to a letter gives the first letter
/// again, for every percentage graded A+, A or F. (Between 60% and 90% the
/// representative percentages lie a band higher: 87% is A-, and A- stands
/// for 90%, which is A.)
pub proof fn lemma_letter_round_trip(p: int)
    requires
        9000 <= p <= 10000 || 0 <= p < 6000,
    ensures
        spec_point_to_letter(p) is Some,
        spec_point_to_letter(spec_letter_to_point(letter_text(spec_point_to_letter(p).unwrap())))
            == spec_point_to_letter(p),
{
    lemma_parse_letter_text(spec_point_to_letter(p).unwrap());
}

} // verus!
