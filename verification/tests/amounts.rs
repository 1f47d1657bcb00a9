use norsk_analyse::amount::extract_amount;
use norsk_analyse::document::{choose_processing_text, extract_text_from_image};
use norsk_analyse::predict::AnalysisError;

#[test]
fn currency_suffix_takes_rightmost_figure() {
    // The receipt total stands last among the currency-marked figures.
    let text = "REMA 1000 Oslo Melk 34.90 kr Brød 28.50 kr TOTALT 63.40 kr";
    assert_eq!(extract_amount(text), Some(6340));
}

#[test]
fn currency_suffix_variants() {
    assert_eq!(extract_amount("betalt 245.50 NOK"), Some(24550));
    assert_eq!(extract_amount("betalt 156,90 kr"), Some(15690));
    assert_eq!(extract_amount("pris 12 kroner"), Some(1200));
    assert_eq!(extract_amount("pris 45kr"), Some(4500));
}

#[test]
fn single_decimal_digit_scales_to_hundredths() {
    assert_eq!(extract_amount("pris 45.9 kr"), Some(4590));
}

#[test]
fn trailing_line_number_with_dash_mark() {
    assert_eq!(extract_amount("Parkering 50,-"), Some(5000));
    assert_eq!(extract_amount("Avgift 120:-"), Some(12000));
    assert_eq!(extract_amount("Sluttsum 88.25"), Some(8825));
}

#[test]
fn total_label_without_currency() {
    assert_eq!(extract_amount("TOTALT: 157.40"), Some(15740));
    assert_eq!(extract_amount("TOTAL | 99.90 takk"), Some(9990));
}

#[test]
fn sum_label_without_currency() {
    assert_eq!(extract_amount("SUMMA 335.80 takk"), Some(33580));
    assert_eq!(extract_amount("SUM: 42 takk"), Some(4200));
}

#[test]
fn pattern_priority_currency_before_labels() {
    // Both a currency-suffixed figure and a TOTAL label are present:
    // the currency pattern is tried first and takes its own rightmost
    // match.
    assert_eq!(
        extract_amount("COOP Kaffe 89.90 kr Ost 67.50 kr MEDLEM 12345 TOTALT 157.40 kr"),
        Some(15740)
    );
}

#[test]
fn no_pattern_yields_none() {
    assert_eq!(extract_amount("helt uten priser"), None);
    assert_eq!(extract_amount(""), None);
    // A bare number in the middle of the text matches no pattern.
    assert_eq!(extract_amount("varenummer 12345 er registrert"), None);
}

#[test]
fn over_two_decimals_rejects_the_pattern() {
    // 12.345 kr parses to no amount (three decimals); no other
    // pattern applies.
    assert_eq!(extract_amount("pris 12.345 kr i dag"), None);
}

#[test]
fn simulated_ocr_text_classes() {
    // The simulated OCR derives its text from the byte length mod 5.
    let t0 = extract_text_from_image("aaaaa");
    assert_eq!(
        t0.as_str(),
        "REMA 1000 Oslo Melk 34.90 kr Brød 28.50 kr TOTALT 63.40 kr"
    );
    let t1 = extract_text_from_image("aaaaaa");
    assert_eq!(
        t1.as_str(),
        "ICA Supermarket Bergen Egg 12stk 45.90 kr Lam 289.90 kr SUMMA 335.80 kr"
    );
    let t4 = extract_text_from_image("aaaa");
    assert_eq!(
        t4.as_str(),
        "VINMONOPOLET Oslo Vin rød 299.90 kr Øl 6pk 189.90 kr TOTALT 489.80 kr"
    );
}

#[test]
fn processing_text_prefers_image() {
    let r = choose_processing_text(&Some(String::from("aaaaa")), &Some(String::from("direkte")));
    assert_eq!(
        r.unwrap().as_str(),
        "REMA 1000 Oslo Melk 34.90 kr Brød 28.50 kr TOTALT 63.40 kr"
    );
}

#[test]
fn processing_text_falls_back_to_document_text() {
    let r = choose_processing_text(&None, &Some(String::from("direkte tekst")));
    assert_eq!(r.unwrap().as_str(), "direkte tekst");
}

#[test]
fn processing_text_without_input_is_invalid() {
    let r = choose_processing_text(&None, &None);
    assert_eq!(r.unwrap_err(), AnalysisError::InputValidation);
}

#[test]
fn oversized_number_fails_to_parse() {
    // Twenty-five digits overflow the minor-unit word; the pattern
    // match fails to parse and no other pattern applies.
    assert_eq!(extract_amount("pris 1234567890123456789012345 kr"), None);
}

#[test]
fn trailing_whitespace_after_dash_mark() {
    assert_eq!(extract_amount("Parkering 50,-  "), Some(5000));
    assert_eq!(extract_amount("Sum i dag 75  "), Some(7500));
}
