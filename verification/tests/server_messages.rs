use magic_wormhole_core::server_messages::{
    add, allocate, bind, claim, close, list, open, phase_name, ping, release, welcome, Message,
    Nameplate, Phase, WelcomeMsg,
};

#[test]
fn bind_carries_appid_and_side() {
    assert_eq!(
        bind("appid", "side1"),
        Message::Bind { appid: "appid".to_string(), side: "side1".to_string() }
    );
}

#[test]
fn list_and_allocate_are_empty_requests() {
    assert_eq!(list(), Message::List {});
    assert_eq!(allocate(), Message::Allocate {});
}

#[test]
fn claim_release_open_carry_their_names() {
    assert_eq!(claim("nameplate1"), Message::Claim { nameplate: "nameplate1".to_string() });
    assert_eq!(release("nameplate1"), Message::Release { nameplate: "nameplate1".to_string() });
    assert_eq!(open("mailbox1"), Message::Open { mailbox: "mailbox1".to_string() });
}

#[test]
fn add_carries_phase_and_body() {
    assert_eq!(
        add(Phase::VersionPhase, "body"),
        Message::Add { phase: Phase::VersionPhase, body: "body".to_string() }
    );
    assert_eq!(
        add(Phase::ApplicationPhase(3), ""),
        Message::Add { phase: Phase::ApplicationPhase(3), body: String::new() }
    );
}

#[test]
fn close_carries_mailbox_and_mood() {
    assert_eq!(
        close("mailbox1", "mood"),
        Message::Close { mailbox: "mailbox1".to_string(), mood: "mood".to_string() }
    );
}

#[test]
fn ping_carries_its_number() {
    assert_eq!(ping(123), Message::Ping { ping: 123 });
    assert_ne!(ping(123), Message::Pong { pong: 123 });
}

#[test]
fn welcome_carries_motd_and_timestamp_bits() {
    let t: f64 = 1234.56;
    let m = welcome("hi", t.to_bits());
    assert_eq!(
        m,
        Message::Welcome { server_tx: t.to_bits(), welcome: WelcomeMsg { motd: "hi".to_string() } }
    );
    match m {
        Message::Welcome { server_tx, .. } => assert_eq!(f64::from_bits(server_tx), 1234.56),
        _ => panic!(),
    }
}

#[test]
fn phase_names() {
    assert_eq!(phase_name(Phase::PakePhase), "pake");
    assert_eq!(phase_name(Phase::VersionPhase), "version");
    assert_eq!(phase_name(Phase::ApplicationPhase(0)), "0");
    assert_eq!(phase_name(Phase::ApplicationPhase(7)), "7");
    assert_eq!(phase_name(Phase::ApplicationPhase(10)), "10");
    assert_eq!(phase_name(Phase::ApplicationPhase(42)), "42");
    assert_eq!(phase_name(Phase::ApplicationPhase(-7)), "-7");
    assert_eq!(phase_name(Phase::ApplicationPhase(i32::MAX)), "2147483647");
    assert_eq!(phase_name(Phase::ApplicationPhase(i32::MIN)), "-2147483648");
}

#[test]
fn phase_names_agree_with_display() {
    for n in [-1000001, -99, -10, -1, 0, 1, 9, 99, 100, 65536, 123456789] {
        assert_eq!(phase_name(Phase::ApplicationPhase(n)), n.to_string());
    }
}

#[test]
fn distinct_phases_have_distinct_names() {
    let phases = [
        Phase::PakePhase,
        Phase::VersionPhase,
        Phase::ApplicationPhase(0),
        Phase::ApplicationPhase(1),
        Phase::ApplicationPhase(-1),
        Phase::ApplicationPhase(10),
        Phase::ApplicationPhase(100),
    ];
    for (i, p) in phases.iter().enumerate() {
        for (j, q) in phases.iter().enumerate() {
            assert_eq!(i == j, phase_name(*p) == phase_name(*q));
        }
    }
}

#[test]
fn welcome_timestamps_compare_as_floats() {
    assert_eq!(welcome("hi", 0.0f64.to_bits()), welcome("hi", (-0.0f64).to_bits()));
    let nan = welcome("hi", f64::NAN.to_bits());
    assert_ne!(nan, nan.clone());
    assert_ne!(welcome("hi", 1.0f64.to_bits()), welcome("hi", 2.0f64.to_bits()));
    assert_ne!(welcome("hi", 1.0f64.to_bits()), welcome("ho", 1.0f64.to_bits()));
    assert_eq!(welcome("hi", 1234.56f64.to_bits()), welcome("hi", 1234.56f64.to_bits()));
    assert_eq!(welcome("hi", f64::INFINITY.to_bits()), welcome("hi", f64::INFINITY.to_bits()));
}

#[test]
fn messages_compare_field_by_field() {
    let a = Message::Nameplates {
        nameplates: vec![Nameplate { id: "1".to_string() }, Nameplate { id: "2".to_string() }],
    };
    let b = Message::Nameplates {
        nameplates: vec![Nameplate { id: "1".to_string() }, Nameplate { id: "2".to_string() }],
    };
    let c = Message::Nameplates { nameplates: vec![Nameplate { id: "1".to_string() }] };
    assert_eq!(a, b);
    assert_ne!(a, c);
    assert_ne!(list(), allocate());
    assert_ne!(claim("x"), release("x"));
    assert_eq!(add(Phase::PakePhase, "b"), add(Phase::PakePhase, "b"));
    assert_ne!(add(Phase::PakePhase, "b"), add(Phase::VersionPhase, "b"));
}
