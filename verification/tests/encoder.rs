use feasycom_protocol::command::A2dpConn;
use feasycom_protocol::command::A2dpDec;
use feasycom_protocol::command::A2dpDisc;
use feasycom_protocol::command::A2dpRole;
use feasycom_protocol::command::A2dpStat;
use feasycom_protocol::command::Addr;
use feasycom_protocol::command::AutoConn;
use feasycom_protocol::command::AvrcpCfg;
use feasycom_protocol::command::Backward;
use feasycom_protocol::command::Baud;
use feasycom_protocol::command::BtEn;
use feasycom_protocol::command::CloseAt;
use feasycom_protocol::command::Cod;
use feasycom_protocol::command::Dsca;
use feasycom_protocol::command::Forward;
use feasycom_protocol::command::GattDisc;
use feasycom_protocol::command::GattSend;
use feasycom_protocol::command::GattStat;
use feasycom_protocol::command::HfpAnsw;
use feasycom_protocol::command::HfpAdts;
use feasycom_protocol::command::HfpChup;
use feasycom_protocol::command::HfpConn;
use feasycom_protocol::command::HfpDial;
use feasycom_protocol::command::HfpDisc;
use feasycom_protocol::command::HfpDtmf;
use feasycom_protocol::command::HfpStat;
use feasycom_protocol::command::I2sCfg;
use feasycom_protocol::command::InqCfg;
use feasycom_protocol::command::LeAddr;
use feasycom_protocol::command::LeCfg;
use feasycom_protocol::command::LeName;
use feasycom_protocol::command::MuteMic;
use feasycom_protocol::command::Name;
use feasycom_protocol::command::PList;
use feasycom_protocol::command::Pair;
use feasycom_protocol::command::Pause;
use feasycom_protocol::command::PbDown;
use feasycom_protocol::command::Pin;
use feasycom_protocol::command::Play;
use feasycom_protocol::command::PlayPause;
use feasycom_protocol::command::Reboot;
use feasycom_protocol::command::Restore;
use feasycom_protocol::command::Scan;
use feasycom_protocol::command::SpdifCfg;
use feasycom_protocol::command::SpkVol;
use feasycom_protocol::command::Spp;
use feasycom_protocol::command::SppConn;
use feasycom_protocol::command::SppDisc;
use feasycom_protocol::command::SppSend;
use feasycom_protocol::command::SppStat;
use feasycom_protocol::command::Stat;
use feasycom_protocol::command::Stop;
use feasycom_protocol::command::TpMode;
use feasycom_protocol::command::UartCfg;
use feasycom_protocol::command::Ver;

#[test]
fn ver_wire_shape() {
    assert_eq!(Ver::new().into_bytes(), b"AT+VER\r\n");
}

#[test]
fn queries_wire_shape() {
    assert_eq!(Addr::new().into_bytes(), b"AT+ADDR\r\n");
    assert_eq!(LeAddr::new().into_bytes(), b"AT+LEADDR\r\n");
}

#[test]
fn playback_controls_wire_shape() {
    assert_eq!(PlayPause::new().into_bytes(), b"AT+PLAYPAUSE\r\n");
    assert_eq!(Play::new().into_bytes(), b"AT+PLAY\r\n");
    assert_eq!(Pause::new().into_bytes(), b"AT+PAUSE\r\n");
    assert_eq!(Stop::new().into_bytes(), b"AT+STOP\r\n");
    assert_eq!(Forward::new().into_bytes(), b"AT+FORWARD\r\n");
    assert_eq!(Backward::new().into_bytes(), b"AT+BACKWARD\r\n");
}

#[test]
fn name_with_all_parameters() {
    assert_eq!(
        Name::new().name("Audio Pocket").enable_suffix(false).into_bytes(),
        b"AT+NAME=Audio Pocket,0\r\n"
    );
    assert_eq!(Name::new().name("X").enable_suffix(true).into_bytes(), b"AT+NAME=X,1\r\n");
}

#[test]
fn name_trailing_parameters_optional() {
    assert_eq!(Name::new().into_bytes(), b"AT+NAME\r\n");
    assert_eq!(Name::new().name("X").into_bytes(), b"AT+NAME=X\r\n");
}

#[test]
fn le_name_shares_the_mnemonic() {
    assert_eq!(
        LeName::new().le_name("Audio Pocket LE").enable_suffix(false).into_bytes(),
        b"AT+NAME=Audio Pocket LE,0\r\n"
    );
}

#[test]
fn baud_renders_decimal() {
    assert_eq!(Baud::new().baudrate(115200).into_bytes(), b"AT+BAUD=115200\r\n");
    assert_eq!(Baud::new().baudrate(0).into_bytes(), b"AT+BAUD=0\r\n");
}

#[test]
fn pin_and_tpmode() {
    assert_eq!(Pin::new().pin("1234").into_bytes(), b"AT+PIN=1234\r\n");
    assert_eq!(TpMode::new().enable_throughput_mode(true).into_bytes(), b"AT+TPMODE=1\r\n");
}

#[test]
fn plist_alternatives() {
    assert_eq!(PList::new().clear_paired_all().into_bytes(), b"AT+PLIST=0\r\n");
    assert_eq!(PList::new().clear_paired_index(3).into_bytes(), b"AT+PLIST=3\r\n");
    assert_eq!(
        PList::new().clear_paired_mac("00:11:22:33:44:55").into_bytes(),
        b"AT+PLIST=00:11:22:33:44:55\r\n"
    );
}

#[test]
fn autoconn_alternatives() {
    assert_eq!(AutoConn::new().disable_auto_connection().into_bytes(), b"AT+AUTOCONN=0\r\n");
    assert_eq!(AutoConn::new().attempts(5).into_bytes(), b"AT+AUTOCONN=5\r\n");
}

#[test]
fn scan_literals() {
    assert_eq!(Scan::new().start().into_bytes(), b"AT+SCAN=1\r\n");
    assert_eq!(Scan::new().stop().into_bytes(), b"AT+SCAN=0\r\n");
}

#[test]
fn spkvol_literal_tokens() {
    assert_eq!(SpkVol::new().increase().into_bytes(), b"AT+SPKVOL=+\r\n");
    assert_eq!(SpkVol::new().decrease().into_bytes(), b"AT+SPKVOL=-\r\n");
}

#[test]
fn inverted_booleans() {
    // the wire polarity of these flags is opposite their logical meaning
    assert_eq!(BtEn::new().enable_bluetooth(true).into_bytes(), b"AT+BTEN=0\r\n");
    assert_eq!(BtEn::new().enable_bluetooth(false).into_bytes(), b"AT+BTEN=1\r\n");
    assert_eq!(Pair::new().enable_pairing(true).into_bytes(), b"AT+PAIR=0\r\n");
    assert_eq!(Pair::new().enable_pairing(false).into_bytes(), b"AT+PAIR=1\r\n");
}

#[test]
fn mutemic_literals() {
    assert_eq!(MuteMic::new().mute().into_bytes(), b"AT+MUTEMIC=1\r\n");
    assert_eq!(MuteMic::new().unmute().into_bytes(), b"AT+MUTEMIC=0\r\n");
}

#[test]
fn hfpdtmf_requires_its_code() {
    assert_eq!(HfpDtmf::new().code("5").into_bytes(), b"AT+HFPDTMF=5\r\n");
}

#[test]
fn pbdown_stages() {
    assert_eq!(PbDown::new().phonebook(2).into_bytes(), b"AT+PBDOWN=2\r\n");
    assert_eq!(PbDown::new().phonebook(2).max_items(100).into_bytes(), b"AT+PBDOWN=2,100\r\n");
}

#[test]
fn sppconn_requires_its_address() {
    assert_eq!(
        SppConn::new().mac("00:11:22:33:44:55").into_bytes(),
        b"AT+SPPCONN=00:11:22:33:44:55\r\n"
    );
}

#[test]
fn data_commands_length_prefix_payload() {
    assert_eq!(SppSend::new().payload("hello").into_bytes(), b"AT+SPPSEND=5,hello\r\n");
    assert_eq!(GattSend::new().payload("").into_bytes(), b"AT+GATTSEND=0,\r\n");
}

#[test]
fn data_length_counts_bytes_not_characters() {
    // a two-byte character counts as two: the prefix is the payload's byte length
    assert_eq!(SppSend::new().payload("\u{e9}").into_bytes(), b"AT+SPPSEND=2,\xc3\xa9\r\n");
}

#[test]
fn status_query_and_session_wire_shapes() {
    assert_eq!(Stat::new().into_bytes(), b"AT+STAT\r\n");
    assert_eq!(Dsca::new().into_bytes(), b"AT+DSCA\r\n");
    assert_eq!(Reboot::new().into_bytes(), b"AT+REBOOT\r\n");
    assert_eq!(Restore::new().into_bytes(), b"AT+RESTORE\r\n");
    assert_eq!(CloseAt::new().into_bytes(), b"AT+CLOSEAT\r\n");
    assert_eq!(A2dpStat::new().into_bytes(), b"AT+A2DPSTAT\r\n");
    assert_eq!(A2dpDisc::new().into_bytes(), b"AT+A2DPDISC\r\n");
    assert_eq!(A2dpDec::new().into_bytes(), b"AT+A2DPDEC\r\n");
    assert_eq!(SppStat::new().into_bytes(), b"AT+SPPSTAT\r\n");
    assert_eq!(SppDisc::new().into_bytes(), b"AT+SPPDISC\r\n");
    assert_eq!(GattStat::new().into_bytes(), b"AT+GATTSTAT\r\n");
    assert_eq!(GattDisc::new().into_bytes(), b"AT+GATTDISC\r\n");
}

#[test]
fn hands_free_wire_shapes() {
    assert_eq!(HfpStat::new().into_bytes(), b"AT+HFPSTAT\r\n");
    assert_eq!(HfpDisc::new().into_bytes(), b"AT+HFPDISC\r\n");
    assert_eq!(HfpAnsw::new().into_bytes(), b"AT+HFPANSW\r\n");
    assert_eq!(HfpChup::new().into_bytes(), b"AT+HFPCHUP\r\n");
    assert_eq!(
        HfpConn::new().mac("00:11:22:33:44:55").into_bytes(),
        b"AT+HFPCONN=00:11:22:33:44:55\r\n"
    );
    assert_eq!(HfpDial::new().phone_number("5551234").into_bytes(), b"AT+HFPDIAL=5551234\r\n");
    assert_eq!(HfpAdts::new().transfer_to_remote().into_bytes(), b"AT+HFPADTS=0\r\n");
    assert_eq!(HfpAdts::new().transfer_from_remote().into_bytes(), b"AT+HFPADTS=1\r\n");
}

#[test]
fn configuration_wire_shapes() {
    assert_eq!(LeCfg::new().enable_random_address(true).into_bytes(), b"AT+LECFG=1\r\n");
    assert_eq!(UartCfg::new().enable_cts_rts(false).into_bytes(), b"AT+UARTCFG=0\r\n");
    assert_eq!(Spp::new().enable_simple_paring(true).into_bytes(), b"AT+SPP=1\r\n");
    assert_eq!(Cod::new().class_of_device("240404").into_bytes(), b"AT+COD=240404\r\n");
    assert_eq!(InqCfg::new().enable_auto_scan(true).into_bytes(), b"AT+INQCFG=1\r\n");
    assert_eq!(I2sCfg::new().configure_i2s_pcm(2).into_bytes(), b"AT+I2SCFG=2\r\n");
    assert_eq!(SpdifCfg::new().enable_spdif(false).into_bytes(), b"AT+SPDIFCFG=0\r\n");
    assert_eq!(AvrcpCfg::new().avrcpcfg(7).into_bytes(), b"AT+AVRCPCFG=7\r\n");
}

#[test]
fn a2dp_role_and_connection_wire_shapes() {
    assert_eq!(A2dpRole::new().slave().into_bytes(), b"AT+A2DPROLE=0\r\n");
    assert_eq!(A2dpRole::new().master().into_bytes(), b"AT+A2DPROLE=1\r\n");
    assert_eq!(
        A2dpConn::new().mac("00:11:22:33:44:55").into_bytes(),
        b"AT+A2DPCONN=00:11:22:33:44:55\r\n"
    );
}

#[test]
fn optional_parameters_remain_optional_on_new_commands() {
    assert_eq!(LeCfg::new().into_bytes(), b"AT+LECFG\r\n");
    assert_eq!(HfpAdts::new().into_bytes(), b"AT+HFPADTS\r\n");
    assert_eq!(Cod::new().into_bytes(), b"AT+COD\r\n");
}
