use rscom::text::baud_status_line;
use rscom::text::decimal_string;
use rscom::text::help_text;
use rscom::text::hex_error_line;
use rscom::text::hex_prompt;
use rscom::text::info_line;

#[test]
fn info_line_frames_the_message() {
    assert_eq!(info_line("hello"), "\r\n*** hello ***\r\n");
    assert_eq!(info_line(""), "\r\n***  ***\r\n");
}

#[test]
fn decimal_rendering_is_exact() {
    assert_eq!(decimal_string(0), "0");
    assert_eq!(decimal_string(7), "7");
    assert_eq!(decimal_string(10), "10");
    assert_eq!(decimal_string(9600), "9600");
    assert_eq!(decimal_string(115200), "115200");
    assert_eq!(decimal_string(4294967295), "4294967295");
}

#[test]
fn baud_status_line_reports_the_rate() {
    assert_eq!(baud_status_line(9600), "\r\n*** Baud rate: 9600 ***\r\n");
    assert_eq!(baud_status_line(230400), "\r\n*** Baud rate: 230400 ***\r\n");
}

#[test]
fn help_text_lists_every_command() {
    let expected = "\r\n\
        \r\n*** Available commands - All prefixed by C-a ***\r\n\
        \r\n*** C-u: Increase baudrate ***\r\n\
        \r\n*** C-d: Decrease baudrate ***\r\n\
        \r\n*** C-x: Print characters below X as <HEX> ***\r\n\
        \r\n*** C-h: Show commands (this) ***\r\n\
        \r\n*** C-q: Quit rscom ***\r\n";
    assert_eq!(help_text(), expected);
}

#[test]
fn hex_prompt_and_error_texts() {
    assert_eq!(hex_prompt(), "\r\n*** Type Hex value - Finish with enter: ");
    assert_eq!(hex_error_line(), "\r\n*** Invalid hex value - threshold unchanged ***\r\n");
}
