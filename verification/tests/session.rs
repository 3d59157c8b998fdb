use magic_wormhole_core::session::{connect, get_code, Wormhole, CODE_WORDS};

const MAILBOX_SERVER: &str = "ws://relay.magic-wormhole.io:4000/v1";
const APPID: &str = "lothar.com/wormhole/text-or-file-xfer";

#[test]
fn connect_opens_a_fresh_session() {
    let w = connect(APPID.to_string(), MAILBOX_SERVER.to_string());
    assert_eq!(w.app_id(), APPID);
    assert_eq!(w.mailbox_server(), MAILBOX_SERVER);
    assert_eq!(w.code(), None);
    assert_eq!(w.code_words(), None);
}

#[test]
fn get_code_asks_for_two_words() {
    let mut w = connect(APPID.to_string(), MAILBOX_SERVER.to_string());
    assert_eq!(get_code(&mut w), None);
    assert_eq!(w.code_words(), Some(2));
    assert_eq!(CODE_WORDS, 2);
    assert_eq!(w.app_id(), APPID);
}

#[test]
fn get_code_returns_the_code_once_set() {
    let mut w = Wormhole::new(APPID, MAILBOX_SERVER);
    assert_eq!(get_code(&mut w), None);
    w.set_code("4-purple-sausages");
    assert_eq!(get_code(&mut w), Some("4-purple-sausages".to_string()));
    assert_eq!(get_code(&mut w), Some("4-purple-sausages".to_string()));
    assert_eq!(w.code_words(), Some(2));
}

#[test]
fn allocate_code_records_the_request() {
    let mut w = Wormhole::new(APPID, MAILBOX_SERVER);
    w.allocate_code(3);
    assert_eq!(w.code_words(), Some(3));
    assert_eq!(w.code(), None);
}

#[test]
fn set_code_replaces_the_code() {
    let mut w = Wormhole::new(APPID, MAILBOX_SERVER);
    w.set_code("1-a-b");
    w.set_code("2-c-d");
    assert_eq!(w.code(), Some("2-c-d".to_string()));
    assert_eq!(w.mailbox_server(), MAILBOX_SERVER);
}
