use veebot_telegram::std_ext::{Option as FatalOption, Result as FatalResult};

#[test]
fn option_unwrapx_gives_the_value() {
    assert_eq!(FatalOption(Some(7u32)).unwrapx(), 7);
    assert_eq!(FatalOption(Some(String::from("x"))).unwrapx(), "x");
}

#[test]
fn result_unwrapx_gives_the_success_value() {
    let ok: Result<i64, std::fmt::Error> = Ok(-3);
    assert_eq!(FatalResult(ok).unwrapx(), -3);
}
