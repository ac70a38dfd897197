use rcli::gen_pass;

const LOWER: &[u8] = b"abdefghjmnqrt";
const UPPER: &[u8] = b"ABDEFGHJMNQRT";
const NUMBER: &[u8] = b"0123456789";
const SYMBOL: &[u8] = b"!@#$%^&*_:";

fn expect_pass(
    pass: &str,
    length: u8,
    no_lower: bool,
    no_upper: bool,
    no_number: bool,
    no_symbol: bool,
) {
    assert_eq!(pass.len(), length as usize);
    let has_lower = pass.chars().any(|c| LOWER.contains(&(c as u8)));
    assert_eq!(has_lower, !no_lower);
    let has_upper = pass.chars().any(|c| UPPER.contains(&(c as u8)));
    assert_eq!(has_upper, !no_upper);
    let has_number = pass.chars().any(|c| NUMBER.contains(&(c as u8)));
    assert_eq!(has_number, !no_number);
    let has_symbol = pass.chars().any(|c| SYMBOL.contains(&(c as u8)));
    assert_eq!(has_symbol, !no_symbol);
}

#[test]
fn test_gen_pass() {
    let pass = gen_pass(8, false, false, false, false);
    assert!(pass.is_ok());
    let pass = pass.unwrap();
    expect_pass(&pass, 8, false, false, false, false);
    assert_eq!(pass.len(), 8);

    let pass = gen_pass(8, true, true, true, true);
    assert!(pass.is_err());

    let pass = gen_pass(17, true, false, false, false);
    assert!(pass.is_ok());
    let pass = pass.unwrap();
    expect_pass(&pass, 17, true, false, false, false);

    let pass = gen_pass(17, false, true, false, false);
    assert!(pass.is_ok());
    let pass = pass.unwrap();
    expect_pass(&pass, 17, false, true, false, false);

    let pass = gen_pass(17, false, false, true, false);
    expect_pass(pass.as_ref().unwrap(), 17, false, false, true, false);

    let pass = gen_pass(17, false, false, false, true);
    expect_pass(pass.as_ref().unwrap(), 17, false, false, false, true);
}

#[test]
fn password_never_shorter_than_its_classes() {
    let pass = gen_pass(0, false, false, false, false).unwrap();
    expect_pass(&pass, 4, false, false, false, false);
    let pass = gen_pass(2, false, true, false, true).unwrap();
    expect_pass(&pass, 2, false, true, false, true);
    let pass = gen_pass(1, false, true, false, true).unwrap();
    expect_pass(&pass, 2, false, true, false, true);
    assert!(gen_pass(0, true, true, true, true).is_err());
    let pass = gen_pass(255, true, true, true, false).unwrap();
    expect_pass(&pass, 255, true, true, true, false);
}
