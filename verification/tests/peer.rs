use magic_wormhole_core::peer::{
    file_ack, message, message_ack, receive_step, AnswerType, OfferType, PeerMessage,
};

#[test]
fn constructors_build_offers_and_answers() {
    assert_eq!(
        message("hello from rust"),
        PeerMessage::Offer(OfferType::Message("hello from rust".to_string()))
    );
    assert_eq!(message_ack("ok"), PeerMessage::Answer(AnswerType::MessageAck("ok".to_string())));
    assert_eq!(file_ack("ok"), PeerMessage::Answer(AnswerType::FileAck("ok".to_string())));
}

#[test]
fn text_offer_is_acknowledged_and_returned() {
    let step = receive_step(&message("hello"));
    assert_eq!(step.reply, Some(message_ack("ok")));
    assert!(!step.fetch_file);
    assert_eq!(step.text, "hello");
}

#[test]
fn file_and_directory_offers_get_file_ack() {
    for offer in [OfferType::File, OfferType::Directory] {
        let step = receive_step(&PeerMessage::Offer(offer));
        assert_eq!(step.reply, Some(file_ack("ok")));
        assert!(!step.fetch_file);
        assert_eq!(step.text, "");
    }
}

#[test]
fn error_yields_nothing() {
    let step = receive_step(&PeerMessage::Error("boom".to_string()));
    assert_eq!(step.reply, None);
    assert!(!step.fetch_file);
    assert_eq!(step.text, "");
}

#[test]
fn transit_starts_file_transfer() {
    let step = receive_step(&PeerMessage::Transit);
    assert_eq!(step.reply, None);
    assert!(step.fetch_file);
    assert_eq!(step.text, "");
}
