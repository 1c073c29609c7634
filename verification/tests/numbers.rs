use numbers_to_words::number::{spell_periods, MAX_DIGITS};
use numbers_to_words::{to_faroese_words, Digit};

fn words(s: &str) -> String {
    match to_faroese_words(s) {
        Some(w) => w,
        None => panic!("no words for {}", s),
    }
}

#[test]
fn zero_has_its_word() {
    assert_eq!(to_faroese_words("0"), Some("null".to_string()));
    assert_eq!(to_faroese_words("00"), Some("null".to_string()));
    assert_eq!(to_faroese_words("0000000"), Some("null".to_string()));
}

#[test]
fn the_units_are_neuter() {
    let expected = [
        "null", "eitt", "tvey", "trý", "fýra", "fimm", "seks", "sjey", "átta", "níggju",
    ];
    for (n, w) in expected.iter().enumerate() {
        assert_eq!(words(&n.to_string()), *w);
    }
}

#[test]
fn leading_zeros_change_nothing() {
    assert_eq!(to_faroese_words("007"), to_faroese_words("7"));
    assert_eq!(words("007"), "sjey");
    assert_eq!(to_faroese_words("0001234"), to_faroese_words("1234"));
    assert_eq!(to_faroese_words("0000000000001000000"), to_faroese_words("1000000"));
    assert_eq!(to_faroese_words("010"), to_faroese_words("10"));
}

#[test]
fn the_same_input_gives_the_same_words() {
    for s in ["0", "21", "1000000", "953000000", "12x", ""] {
        assert_eq!(to_faroese_words(s), to_faroese_words(s));
    }
}

#[test]
fn the_teens_are_not_compounds() {
    let teens = [
        "tíggju", "ellivu", "tólv", "trettan", "fjúrtan", "fimtan", "sekstan", "seytjan", "átjan",
        "nítjan",
    ];
    for (i, w) in teens.iter().enumerate() {
        let got = words(&(10 + i).to_string());
        assert_eq!(got, *w);
        assert!(!got.contains("og"));
    }
}

#[test]
fn twenty_one_is_one_word() {
    let got = words("21");
    assert_eq!(got, "einogtjúgu");
    assert_eq!(got, format!("{}{}{}", "ein", "og", "tjúgu"));
    assert!(!got.contains(' '));
}

#[test]
fn the_tens_compound_with_their_units() {
    assert_eq!(words("20"), "tjúgu");
    assert_eq!(words("32"), "tveyogtrettivu");
    assert_eq!(words("43"), "trýogfjøruti");
    assert_eq!(words("54"), "fýraoghálvtrýss");
    assert_eq!(words("65"), "fimmogtrýss");
    assert_eq!(words("76"), "seksoghálvfjerðs");
    assert_eq!(words("87"), "sjeyogfýrs");
    assert_eq!(words("98"), "áttaoghálvfems");
    assert_eq!(words("99"), "níggjuoghálvfems");
}

#[test]
fn the_hundreds_are_written_out() {
    assert_eq!(words("100"), "eitt hundrað ");
    assert_eq!(words("101"), "eitt hundrað eitt");
    assert_eq!(words("110"), "eitt hundrað tíggju");
    assert_eq!(words("200"), "tvey hundrað ");
    assert_eq!(words("321"), "trý hundrað einogtjúgu");
    assert_eq!(words("999"), "níggju hundrað níggjuoghálvfems");
}

#[test]
fn one_thousand_is_singular() {
    assert_eq!(words("1000"), "eitt túsund ");
    assert_eq!(words("1001"), "eitt túsund eitt");
    assert_eq!(words("1234"), "eitt túsund tvey hundrað fýraogtrettivu");
}

#[test]
fn other_counts_of_thousands_are_plural() {
    assert_eq!(words("2000"), "tvey túsundir ");
    assert_eq!(words("21000"), "einogtjúgu túsundir ");
    assert_eq!(words("100000"), "eitt hundrað  túsundir ");
    assert_eq!(words("999999"), "níggju hundrað níggjuoghálvfems túsundir níggju hundrað níggjuoghálvfems");
}

#[test]
fn one_of_a_scale_is_singular_and_the_rest_plural() {
    assert_eq!(words("1000000"), "ein millión ");
    assert_eq!(words("2000000"), "tvær milliónir ");
    assert_eq!(words("3000000"), "tríggjar milliónir ");
    assert_eq!(words("953000000"), "níggju hundrað trýoghálvtrýss milliónir ");
    assert_eq!(words("1000000000"), "ein milliard ");
    assert_eq!(words("11000000000"), "ellivu milliardir ");
    assert_eq!(words("101000000"), "eitt hundrað ein milliónir ");
}

#[test]
fn periods_of_zeros_are_passed_over() {
    let got = words("1000000");
    assert_eq!(got, "ein millión ");
    assert!(!got.contains("null"));
    assert!(!got.contains("túsund"));
    assert_eq!(words("1000000001"), "ein milliard eitt");
    assert_eq!(words("5000000000000"), "fimm billiónir ");
    assert_eq!(words("1000001000"), "ein milliard eitt túsund ");
}

#[test]
fn the_gender_goes_by_the_period() {
    assert_eq!(words("2002002"), "tvær milliónir tvey túsundir tvey");
    assert_eq!(words("3003003003"), "tríggjar milliardir tríggjar milliónir trý túsundir trý");
    assert_eq!(words("1001001"), "ein millión eitt túsund eitt");
}

#[test]
fn the_endings_alternate_from_period_to_period() {
    let got = words("2002002002002002000");
    assert_eq!(
        got,
        "tvær trilliónir tvær billiardir tvær billiónir tvær milliardir tvær milliónir tvey túsundir "
    );
    let scales: Vec<&str> = got.split(' ').filter(|w| w.contains("illi")).collect();
    assert_eq!(scales.len(), 5);
    for (k, w) in scales.iter().enumerate() {
        if k % 2 == 0 {
            assert!(w.ends_with("illiónir"));
        } else {
            assert!(w.ends_with("illiardir"));
        }
    }
    assert_eq!(
        words("1001001001000000"),
        "ein billiard ein billión ein milliard ein millión "
    );
}

#[test]
fn the_highest_scale_is_reached() {
    let mut s = String::from("1");
    for _ in 0..MAX_DIGITS - 3 {
        s.push('0');
    }
    assert_eq!(words(&s), "ein vigintilliard ");
    s.push_str("00");
    assert_eq!(s.len(), MAX_DIGITS);
    assert_eq!(words(&s), "eitt hundrað  vigintilliardir ");

    let mut nines = String::new();
    for _ in 0..MAX_DIGITS {
        nines.push('9');
    }
    let got = words(&nines);
    assert!(got.starts_with("níggju hundrað níggjuoghálvfems vigintilliardir "));
    assert!(got.ends_with(" túsundir níggju hundrað níggjuoghálvfems"));
}

#[test]
fn a_number_beyond_the_scales_has_no_words() {
    let mut s = String::from("1");
    for _ in 0..MAX_DIGITS {
        s.push('0');
    }
    assert_eq!(to_faroese_words(&s), None);

    let mut long = String::new();
    for _ in 0..1000 {
        long.push('7');
    }
    assert_eq!(to_faroese_words(&long), None);
}

#[test]
fn leading_zeros_do_not_count_towards_the_length() {
    let mut s = String::new();
    for _ in 0..500 {
        s.push('0');
    }
    s.push_str("21");
    assert_eq!(words(&s), "einogtjúgu");
}

#[test]
fn the_empty_string_has_no_words() {
    assert_eq!(to_faroese_words(""), None);
}

#[test]
fn any_other_character_is_malformed() {
    for s in [
        "a", "12a", "a12", "1a2", " 1", "1 ", "-1", "+1", "1.5", "1,000", "0x10", "00x", "1é",
        "é", "\u{0661}", "\u{ff11}\u{ff12}", "1\n", "\t",
    ] {
        assert_eq!(to_faroese_words(s), None);
    }
}

#[test]
fn digits_alone_always_have_an_answer() {
    for n in 0..5000u32 {
        let got = words(&n.to_string());
        assert!(!got.is_empty());
    }
}

#[test]
fn periods_are_spelled_from_the_highest() {
    let digits = vec![
        Digit::Four,
        Digit::Three,
        Digit::Two,
        Digit::One,
        Digit::Zero,
        Digit::Zero,
    ];
    assert_eq!(spell_periods(&digits), "eitt túsund tvey hundrað fýraogtrettivu");
    assert_eq!(spell_periods(&vec![]), "");
    assert_eq!(spell_periods(&vec![Digit::Zero, Digit::Zero, Digit::Zero]), "null");
}

#[test]
fn a_zero_period_at_the_top_is_written() {
    let digits = vec![
        Digit::One,
        Digit::Zero,
        Digit::Zero,
        Digit::Zero,
        Digit::Zero,
        Digit::Zero,
    ];
    assert_eq!(spell_periods(&digits), "null túsundir eitt");
}
