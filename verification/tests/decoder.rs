use feasycom_protocol::error::Error;
use feasycom_protocol::error::InvalidVariantError;
use feasycom_protocol::error::ParseIntError;
use feasycom_protocol::error::Utf8Error;
use feasycom_protocol::indication::Indication;
use feasycom_protocol::status::A2dpState;
use feasycom_protocol::status::AvrcpState;
use feasycom_protocol::status::GattStat;
use feasycom_protocol::status::PlayStat;
use feasycom_protocol::status::SppStat;
use feasycom_protocol::trackinfo::TrackInfo;
use feasycom_protocol::trackstat::TrackStat;

#[test]
fn ok_marker() {
    assert_eq!(Indication::try_from(b"OK").unwrap(), Indication::Okay);
}

#[test]
fn error_marker() {
    assert_eq!(Indication::try_from(b"ERROR").unwrap(), Indication::Failed);
}

#[test]
fn markers_ignore_parameters() {
    assert_eq!(Indication::try_from(b"OK=whatever").unwrap(), Indication::Okay);
    assert_eq!(Indication::try_from(b"ERROR=1").unwrap(), Indication::Failed);
}

#[test]
fn playstat_playing() {
    assert_eq!(
        Indication::try_from(b"+PLAYSTAT=1").unwrap(),
        Indication::PlayStat(PlayStat::Playing)
    );
}

#[test]
fn playstat_all_codes() {
    let cases: [(&[u8], PlayStat); 5] = [
        (b"+PLAYSTAT=0", PlayStat::Stopped),
        (b"+PLAYSTAT=1", PlayStat::Playing),
        (b"+PLAYSTAT=2", PlayStat::Paused),
        (b"+PLAYSTAT=3", PlayStat::FastForwarding),
        (b"+PLAYSTAT=4", PlayStat::FastRewinding),
    ];
    for (bytes, expected) in cases {
        assert_eq!(Indication::try_from(bytes).unwrap(), Indication::PlayStat(expected));
    }
}

#[test]
fn playstat_invalid_variant() {
    let err = Indication::try_from(b"+PLAYSTAT=9").unwrap_err();
    assert_eq!(
        err,
        Error::InvalidVariantError(InvalidVariantError("PLAYSTAT".to_string(), b"9".to_vec()))
    );
}

#[test]
fn playstat_missing_parameters() {
    // without `=` the parameter string is empty, and empty is no valid code
    let err = Indication::try_from(b"+PLAYSTAT").unwrap_err();
    assert_eq!(
        err,
        Error::InvalidVariantError(InvalidVariantError("PLAYSTAT".to_string(), Vec::new()))
    );
}

#[test]
fn trackstat_record() {
    assert_eq!(
        Indication::try_from(b"+TRACKSTAT=1,1500,210000").unwrap(),
        Indication::TrackStat(TrackStat {
            play_stat: PlayStat::Playing,
            elapsed_time: 1500,
            total_time: 210000,
        })
    );
}

#[test]
fn trackstat_missing_fields_fail_downstream() {
    // the split itself tolerates missing fields; the empty duration then fails
    let err = Indication::try_from(b"+TRACKSTAT=1").unwrap_err();
    assert_eq!(err, Error::ParseIntError(ParseIntError::Empty));
}

#[test]
fn trackstat_bad_duration() {
    let err = Indication::try_from(b"+TRACKSTAT=1,12x4,5").unwrap_err();
    assert_eq!(err, Error::ParseIntError(ParseIntError::InvalidDigit));
}

#[test]
fn trackstat_duration_overflow() {
    let err = Indication::try_from(b"+TRACKSTAT=1,99999999999999999999,5").unwrap_err();
    assert_eq!(err, Error::ParseIntError(ParseIntError::PosOverflow));
}

#[test]
fn trackstat_bad_status() {
    let err = Indication::try_from(b"+TRACKSTAT=7,1,2").unwrap_err();
    assert_eq!(
        err,
        Error::InvalidVariantError(InvalidVariantError("PLAYSTAT".to_string(), b"7".to_vec()))
    );
}

#[test]
fn trackinfo_record() {
    assert_eq!(
        Indication::try_from(b"+TRACKINFO=Song\xffArtist\xffAlbum").unwrap(),
        Indication::TrackInfo(TrackInfo {
            title: "Song".to_string(),
            artist: "Artist".to_string(),
            album: "Album".to_string(),
        })
    );
}

#[test]
fn trackinfo_missing_fields_are_empty() {
    assert_eq!(
        Indication::try_from(b"+TRACKINFO=Song").unwrap(),
        Indication::TrackInfo(TrackInfo {
            title: "Song".to_string(),
            artist: String::new(),
            album: String::new(),
        })
    );
}

#[test]
fn unknown_tag_is_unsupported() {
    assert_eq!(
        Indication::try_from(b"+FOO=bar").unwrap(),
        Indication::Unsupported("FOO".to_string(), "bar".to_string())
    );
}

#[test]
fn unknown_tag_without_parameters() {
    assert_eq!(
        Indication::try_from(b"+FOO").unwrap(),
        Indication::Unsupported("FOO".to_string(), String::new())
    );
}

#[test]
fn unknown_tag_without_marker() {
    assert_eq!(
        Indication::try_from(b"FOO=bar").unwrap(),
        Indication::Unsupported("FOO".to_string(), "bar".to_string())
    );
}

#[test]
fn unknown_tag_never_errors_on_bad_bytes() {
    // lossy conversion substitutes the replacement character instead of failing
    assert_eq!(
        Indication::try_from(b"+FOO=\xff").unwrap(),
        Indication::Unsupported("FOO".to_string(), "\u{fffd}".to_string())
    );
}

#[test]
fn decoding_is_idempotent() {
    let inputs: [&[u8]; 6] = [
        b"OK",
        b"+PLAYSTAT=1",
        b"+TRACKSTAT=1,1500,210000",
        b"+FOO=\xffbar",
        b"+VER=1.2.3",
        b"+PLAYSTAT=9",
    ];
    for bytes in inputs {
        assert_eq!(Indication::try_from(bytes), Indication::try_from(bytes));
    }
}

#[test]
fn ver_addr_leaddr_text() {
    assert_eq!(
        Indication::try_from(b"+VER=1.2.3").unwrap(),
        Indication::Ver("1.2.3".to_string())
    );
    assert_eq!(
        Indication::try_from(b"+ADDR=00:11:22:33:44:55").unwrap(),
        Indication::Addr("00:11:22:33:44:55".to_string())
    );
    assert_eq!(
        Indication::try_from(b"+LEADDR=66:77:88:99:aa:bb").unwrap(),
        Indication::LeAddr("66:77:88:99:aa:bb".to_string())
    );
}

#[test]
fn device_text_keeps_multibyte_characters() {
    // the text really is decoded: multibyte UTF-8 comes back as characters
    assert_eq!(
        Indication::try_from(b"+A2DPDEV=t\xc3\xa9l\xc3\xa9phone").unwrap(),
        Indication::A2dpDev("t\u{e9}l\u{e9}phone".to_string())
    );
}

#[test]
fn device_text_rejects_bad_bytes() {
    let err = Indication::try_from(b"+A2DPDEV=ab\xffcd").unwrap_err();
    assert_eq!(err, Error::Utf8Error(Utf8Error { valid_up_to: 2 }));
}

#[test]
fn status_indications() {
    assert_eq!(
        Indication::try_from(b"+A2DPSTAT=4").unwrap(),
        Indication::A2dpState(A2dpState::Streaming)
    );
    assert_eq!(
        Indication::try_from(b"+AVRCPSTAT=2").unwrap(),
        Indication::AvrcpState(AvrcpState::Connecting)
    );
    assert_eq!(
        Indication::try_from(b"+AVRCPSTAT=3").unwrap(),
        Indication::AvrcpState(AvrcpState::Connected)
    );
    assert_eq!(
        Indication::try_from(b"+SPPSTAT=3").unwrap(),
        Indication::SppStat(SppStat::Connected)
    );
    assert_eq!(
        Indication::try_from(b"+GATTSTAT=0").unwrap(),
        Indication::GattStat(GattStat::Unsupported)
    );
}

#[test]
fn status_invalid_variants_name_their_tag() {
    let err = Indication::try_from(b"+A2DPSTAT=5").unwrap_err();
    assert_eq!(
        err,
        Error::InvalidVariantError(InvalidVariantError("A2DPSTAT".to_string(), b"5".to_vec()))
    );
    let err = Indication::try_from(b"+AVRCPSTAT=4").unwrap_err();
    assert_eq!(
        err,
        Error::InvalidVariantError(InvalidVariantError("AVRCPSTAT".to_string(), b"4".to_vec()))
    );
}

#[test]
fn sppdata_with_length_prefix() {
    assert_eq!(
        Indication::try_from(b"+SPPDATA=5,hello").unwrap(),
        Indication::SppData(Some(5), "hello".to_string())
    );
}

#[test]
fn sppdata_without_length_prefix() {
    assert_eq!(
        Indication::try_from(b"+SPPDATA=hello").unwrap(),
        Indication::SppData(None, "hello".to_string())
    );
}

#[test]
fn sppdata_prefix_not_cross_checked() {
    // a prefix that disagrees with the payload length is kept as sent
    assert_eq!(
        Indication::try_from(b"+SPPDATA=99,hi").unwrap(),
        Indication::SppData(Some(99), "hi".to_string())
    );
}

#[test]
fn sppdata_bad_prefix() {
    let err = Indication::try_from(b"+SPPDATA=x,hi").unwrap_err();
    assert_eq!(err, Error::ParseIntError(ParseIntError::InvalidDigit));
}

#[test]
fn gattdata_record() {
    assert_eq!(
        Indication::try_from(b"+GATTDATA=2,ab").unwrap(),
        Indication::GattData(Some(2), "ab".to_string())
    );
    assert_eq!(
        Indication::try_from(b"+GATTDEV=remote").unwrap(),
        Indication::GattDev("remote".to_string())
    );
    assert_eq!(
        Indication::try_from(b"+SPPDEV=remote").unwrap(),
        Indication::SppDev("remote".to_string())
    );
}

#[test]
fn status_enums_parse_directly() {
    assert_eq!(PlayStat::try_from(b"1"), Ok(PlayStat::Playing));
    assert_eq!(A2dpState::try_from(b"3"), Ok(A2dpState::Connected));
    assert_eq!(AvrcpState::try_from(b"3"), Ok(AvrcpState::Connected));
    assert_eq!(
        SppStat::try_from(b"9"),
        Err(InvalidVariantError("SPPSTAT".to_string(), b"9".to_vec()))
    );
    assert_eq!(
        GattStat::try_from(b""),
        Err(InvalidVariantError("GATTSTAT".to_string(), Vec::new()))
    );
    assert_eq!(
        AvrcpState::try_from(b"10"),
        Err(InvalidVariantError("AVRCPSTAT".to_string(), b"10".to_vec()))
    );
}

#[test]
fn record_parse_functions() {
    assert_eq!(
        feasycom_protocol::trackstat::parse(b"2,10,20").unwrap(),
        TrackStat { play_stat: PlayStat::Paused, elapsed_time: 10, total_time: 20 }
    );
    assert_eq!(
        feasycom_protocol::trackinfo::parse(b"a\xffb\xffc").unwrap(),
        TrackInfo { title: "a".to_string(), artist: "b".to_string(), album: "c".to_string() }
    );
    assert_eq!(feasycom_protocol::sppdata::parse(b"5,hello").unwrap(), "hello".to_string());
    assert_eq!(feasycom_protocol::sppdata::parse(b"hello").unwrap(), "hello".to_string());
    assert_eq!(feasycom_protocol::gattdata::parse(b"2,hi").unwrap(), "hi".to_string());
    assert_eq!(
        feasycom_protocol::gattdata::parse(b"a\xffb").unwrap_err(),
        Utf8Error { valid_up_to: 1 }
    );
}
