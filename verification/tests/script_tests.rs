use invoke_http::bridge::Invoke;
use invoke_http::script::{dec_digits, SCRIPT_HEAD, SCRIPT_TAIL};

#[test]
fn decimal_rendering_is_exact() {
    assert_eq!(dec_digits(0), "0");
    assert_eq!(dec_digits(7), "7");
    assert_eq!(dec_digits(10), "10");
    assert_eq!(dec_digits(8080), "8080");
    assert_eq!(dec_digits(65535), "65535");
}

#[test]
fn script_is_head_port_tail() {
    let bridge: Invoke<u32> = Invoke::new(Vec::new(), 7777);
    let script = bridge.initialization_script();
    let expected = format!("{}{}{}", SCRIPT_HEAD, 7777u16, SCRIPT_TAIL);
    assert_eq!(script, expected);
    assert!(script.contains("http://localhost:7777/"));
    assert!(script.contains("JSON.stringify(message)"));
}
