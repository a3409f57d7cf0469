use typst_introspect::numbering::NumberingKind;
use typst_introspect::numerals::{additive, alphabetic, fixed, numeric, symbolic};
use typst_introspect::pattern::{Numbering, NumberingPattern, PatternError};
use typst_introspect::value::{Func, Value};

#[test]
fn positional_numerals() {
    let ternary = ['0', '1', '2'];
    assert_eq!(numeric(&ternary, 0), "0");
    assert_eq!(numeric(&ternary, 5), "12");
    assert_eq!(numeric(&ternary, 9), "100");
    assert_eq!(NumberingKind::Arabic.apply(0), "0");
    assert_eq!(NumberingKind::Arabic.apply(1234567890), "1234567890");
    assert_eq!(NumberingKind::Arabic.apply(u64::MAX), u64::MAX.to_string());
    assert_eq!(NumberingKind::EasternArabic.apply(12), "\u{0661}\u{0662}");
}

#[test]
fn alphabetic_numerals() {
    let abc = ['A', 'B', 'C'];
    assert_eq!(alphabetic(&abc, 0), "-");
    assert_eq!(alphabetic(&abc, 3), "C");
    assert_eq!(alphabetic(&abc, 4), "AA");
    assert_eq!(alphabetic(&abc, 7), "BA");
    assert_eq!(NumberingKind::UpperLatin.apply(26), "Z");
    assert_eq!(NumberingKind::UpperLatin.apply(27), "AA");
    assert_eq!(NumberingKind::LowerLatin.apply(28), "ab");
    assert_eq!(NumberingKind::LowerLatin.apply(702), "zz");
    assert_eq!(NumberingKind::LowerLatin.apply(703), "aaa");
}

#[test]
fn symbolic_and_fixed_numerals() {
    let abc = ['A', 'B', 'C'];
    assert_eq!(symbolic(&abc, 0), "-");
    assert_eq!(symbolic(&abc, 5), "BB");
    assert_eq!(symbolic(&abc, 7), "AAA");
    assert_eq!(NumberingKind::Symbol.apply(1), "*");
    assert_eq!(NumberingKind::Symbol.apply(7), "**");
    assert_eq!(fixed(&['0', 'A', 'B', 'C'], 2), "B");
    assert_eq!(fixed(&['0', 'A', 'B', 'C'], 4), "4");
    assert_eq!(NumberingKind::CircledNumber.apply(1), "\u{2460}");
    assert_eq!(NumberingKind::CircledNumber.apply(51), "51");
    assert_eq!(NumberingKind::DoubleCircledNumber.apply(10), "\u{24FE}");
}

#[test]
fn additive_numerals() {
    assert_eq!(additive(&[("V", 5), ("IV", 4), ("I", 1)], 8), "VIII");
    assert_eq!(additive(&[("V", 5), ("I", 1)], 0), "0");
    assert_eq!(NumberingKind::LowerRoman.apply(0), "n");
    assert_eq!(NumberingKind::LowerRoman.apply(4), "iv");
    assert_eq!(NumberingKind::UpperRoman.apply(1994), "MCMXCIV");
    assert_eq!(NumberingKind::UpperRoman.apply(3999), "MMMCMXCIX");
    assert_eq!(NumberingKind::LowerGreek.apply(1), "\u{03B1}");
    assert_eq!(NumberingKind::Hebrew.apply(1), "\u{05D0}");
}

#[test]
fn chinese_numerals() {
    assert_eq!(NumberingKind::LowerSimplifiedChinese.apply(1), "\u{4E00}");
    assert_eq!(NumberingKind::UpperSimplifiedChinese.apply(1), "\u{58F9}");
    assert_eq!(NumberingKind::LowerSimplifiedChinese.apply(2), "\u{4E8C}");
}

#[test]
fn patterns_number_sequences() {
    let p = NumberingPattern::from_str("1.a)").unwrap();
    assert_eq!(p.pieces(), 2);
    assert_eq!(p.suffix, ")");
    assert_eq!(p.apply(&[1, 2]), "1.b)");
    assert_eq!(p.apply(&[1, 2, 3]), "1.b.c)");
    assert_eq!(p.apply(&[3]), "3)");
    assert_eq!(p.apply_kth(1, 3), "c)");
    assert_eq!(p.apply_kth(5, 3), "c)");
    assert_eq!(NumberingPattern::from_str("(1)").unwrap().apply(&[3]), "(3)");
    assert_eq!(NumberingPattern::from_str("I.").unwrap().apply(&[4]), "IV.");
    assert_eq!(NumberingPattern::from_str("1").unwrap().apply(&[1, 2]), "12");
    assert_eq!(NumberingPattern::from_str("xyz"), Err(PatternError));
    assert_eq!(NumberingPattern::from_str(""), Err(PatternError));
}

fn call(f: Func, numbers: Vec<u64>) -> Result<Value, ()> {
    Ok(Value::Int(f.id as i64 + numbers.iter().sum::<u64>() as i64))
}

#[test]
fn numberings_by_pattern_or_function() {
    let pattern = Numbering::Pattern(NumberingPattern::from_str("1.a)").unwrap());
    assert_eq!(pattern.apply(&call, &[1, 2]), Ok(Value::Str("1.b)".to_string())));
    let trimmed = pattern.trimmed();
    assert_eq!(trimmed.apply(&call, &[1, 2]), Ok(Value::Str("1.b".to_string())));
    let by_func = Numbering::Func(Func::new(10));
    assert_eq!(by_func.apply(&call, &[1, 2]), Ok(Value::Int(13)));
}
