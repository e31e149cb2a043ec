use feasycom_protocol::driver::take_indication;
use feasycom_protocol::error::Error;
use feasycom_protocol::error::InvalidVariantError;
use feasycom_protocol::framer::Framer;
use feasycom_protocol::indication::Indication;
use feasycom_protocol::status::PlayStat;

#[test]
fn read_path_yields_indications_in_order() {
    let mut f = Framer::new(96);
    f.feed(b"+PLAYSTAT=1\r\nOK\r\n");
    assert_eq!(
        take_indication(&mut f),
        Some(Ok(Indication::PlayStat(PlayStat::Playing)))
    );
    assert_eq!(take_indication(&mut f), Some(Ok(Indication::Okay)));
    assert_eq!(take_indication(&mut f), None);
}

#[test]
fn a_malformed_message_does_not_stop_the_stream() {
    let mut f = Framer::new(96);
    f.feed(b"+PLAYSTAT=9\r\n+PLAYSTAT=2\r\n");
    assert_eq!(
        take_indication(&mut f),
        Some(Err(Error::InvalidVariantError(InvalidVariantError(
            "PLAYSTAT".to_string(),
            b"9".to_vec()
        ))))
    );
    assert_eq!(
        take_indication(&mut f),
        Some(Ok(Indication::PlayStat(PlayStat::Paused)))
    );
}

#[test]
fn unknown_messages_flow_through_unsupported() {
    let mut f = Framer::new(96);
    f.feed(b"+HFPSTAT=3\r\n");
    assert_eq!(
        take_indication(&mut f),
        Some(Ok(Indication::Unsupported("HFPSTAT".to_string(), "3".to_string())))
    );
}
