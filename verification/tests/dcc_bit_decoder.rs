use dcc_bit_codec::DccBitDecoder;
use dcc_bit_codec::Polarity;

#[test]
fn dcc_bit_decoder_on_polarity_change_with_normal_one_bit() {
    let mut dcc_bit_decoder = DccBitDecoder::default();

    let first_change = dcc_bit_decoder.on_polarity_change(Polarity::Positive, 58);
    assert!(matches!(first_change, None));

    let second_change = dcc_bit_decoder.on_polarity_change(Polarity::Negative, 58);
    assert!(matches!(second_change, Some(true)));
}

#[test]
fn dcc_bit_decoder_on_polarity_change_with_normal_zero_bit() {
    let mut dcc_bit_decoder = DccBitDecoder::default();

    let first_change = dcc_bit_decoder.on_polarity_change(Polarity::Positive, 100);
    assert!(matches!(first_change, None));

    let second_change = dcc_bit_decoder.on_polarity_change(Polarity::Negative, 100);
    assert!(matches!(second_change, Some(false)));
}

#[test]
fn dcc_bit_decoder_on_polarity_change_with_stretched_zero_bit() {
    let mut dcc_bit_decoder = DccBitDecoder::default();

    let first_change = dcc_bit_decoder.on_polarity_change(Polarity::Positive, 100);
    assert!(matches!(first_change, None));

    let second_change = dcc_bit_decoder.on_polarity_change(Polarity::Negative, 10000);
    assert!(matches!(second_change, Some(false)));
}

#[test]
fn dcc_bit_decoder_on_polarity_change_with_too_long_halves() {
    let mut dcc_bit_decoder = DccBitDecoder::default();

    let first_change = dcc_bit_decoder.on_polarity_change(Polarity::Positive, 8000);
    assert!(matches!(first_change, None));

    let second_change = dcc_bit_decoder.on_polarity_change(Polarity::Negative, 8000);
    assert!(matches!(second_change, None));
}

#[test]
fn dcc_bit_decoder_on_polarity_change_starting_mid_bit() {
    let mut dcc_bit_decoder = DccBitDecoder::default();

    // the trailing half of a zero bit
    let first_change = dcc_bit_decoder.on_polarity_change(Polarity::Negative, 100);
    assert!(matches!(first_change, None));

    let second_change = dcc_bit_decoder.on_polarity_change(Polarity::Positive, 58);
    assert!(matches!(second_change, None));

    let third_change = dcc_bit_decoder.on_polarity_change(Polarity::Negative, 58);
    assert!(matches!(third_change, Some(true)));
}
