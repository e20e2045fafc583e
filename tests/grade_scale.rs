use gpa_calculator::grade_scale::INVALID_GRADE_POINT;
use gpa_calculator::{letter_to_point, point_to_letter, point_to_pa, Letter};

#[test]
fn letter_to_point_table() {
    assert_eq!(letter_to_point("A+"), 9700);
    assert_eq!(letter_to_point("A"), 9300);
    assert_eq!(letter_to_point("A-"), 9000);
    assert_eq!(letter_to_point("B+"), 8700);
    assert_eq!(letter_to_point("B"), 8300);
    assert_eq!(letter_to_point("B-"), 8000);
    assert_eq!(letter_to_point("C+"), 7700);
    assert_eq!(letter_to_point("C"), 7300);
    assert_eq!(letter_to_point("F"), 5000);
}

#[test]
fn letter_to_point_unknown_is_zero() {
    assert_eq!(letter_to_point(""), 0);
    assert_eq!(letter_to_point("D"), 0);
    assert_eq!(letter_to_point("a+"), 0);
    assert_eq!(letter_to_point("A+ "), 0);
}

#[test]
fn point_to_letter_bands() {
    assert_eq!(point_to_letter(10000), Some(Letter::APlus));
    assert_eq!(point_to_letter(9500), Some(Letter::APlus));
    assert_eq!(point_to_letter(9499), Some(Letter::A));
    assert_eq!(point_to_letter(9000), Some(Letter::A));
    assert_eq!(point_to_letter(8999), Some(Letter::AMinus));
    assert_eq!(point_to_letter(8500), Some(Letter::AMinus));
    assert_eq!(point_to_letter(8000), Some(Letter::BPlus));
    assert_eq!(point_to_letter(7500), Some(Letter::B));
    assert_eq!(point_to_letter(7000), Some(Letter::BMinus));
    assert_eq!(point_to_letter(6500), Some(Letter::CPlus));
    assert_eq!(point_to_letter(6000), Some(Letter::C));
    assert_eq!(point_to_letter(5999), Some(Letter::F));
    assert_eq!(point_to_letter(0), Some(Letter::F));
}

#[test]
fn point_to_letter_outside_scale() {
    assert_eq!(point_to_letter(-1), None);
    assert_eq!(point_to_letter(10001), None);
    assert_eq!(point_to_letter(i64::MIN), None);
    assert_eq!(point_to_letter(i64::MAX), None);
}

#[test]
fn point_to_pa_bands() {
    assert_eq!(point_to_pa(9600), 433);
    assert_eq!(point_to_pa(9200), 400);
    assert_eq!(point_to_pa(8700), 367);
    assert_eq!(point_to_pa(8200), 333);
    assert_eq!(point_to_pa(7700), 300);
    assert_eq!(point_to_pa(7200), 267);
    assert_eq!(point_to_pa(6700), 233);
    assert_eq!(point_to_pa(6200), 200);
    assert_eq!(point_to_pa(3000), 0);
}

#[test]
fn point_to_pa_outside_scale_is_sentinel() {
    assert_eq!(point_to_pa(-50), INVALID_GRADE_POINT);
    assert_eq!(point_to_pa(10050), INVALID_GRADE_POINT);
    assert_eq!(INVALID_GRADE_POINT, -100);
}

#[test]
fn every_percentage_in_scale_has_letter_and_point() {
    for p in 0..=10000i64 {
        assert!(point_to_letter(p).is_some());
        let pa = point_to_pa(p);
        assert!((0..=433).contains(&pa));
    }
}

#[test]
fn letter_text_reads_back() {
    let all = [
        Letter::APlus,
        Letter::A,
        Letter::AMinus,
        Letter::BPlus,
        Letter::B,
        Letter::BMinus,
        Letter::CPlus,
        Letter::C,
        Letter::F,
    ];
    for l in all {
        assert_eq!(Letter::parse(l.text()), Some(l));
        assert_eq!(letter_to_point(l.text()), l.point());
    }
    assert_eq!(Letter::APlus.text(), "A+");
    assert_eq!(Letter::BMinus.text(), "B-");
    assert_eq!(Letter::parse("Z"), None);
}

#[test]
fn round_trip_keeps_letter_for_a_plus_a_and_f() {
    for p in [10000i64, 9700, 9500, 9300, 9000, 5999, 5000, 0] {
        let l = point_to_letter(p).unwrap();
        assert_eq!(point_to_letter(letter_to_point(l.text())), Some(l));
    }
}

#[test]
fn round_trip_raises_letter_in_middle_bands() {
    let l = point_to_letter(8700).unwrap();
    assert_eq!(l, Letter::AMinus);
    assert_eq!(point_to_letter(letter_to_point(l.text())), Some(Letter::A));
}
