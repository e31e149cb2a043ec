//! The command encoder: builds outbound requests in wire-valid shapes only.
//!
//! Every command is a type-state builder over the line being assembled.  The
//! const parameter is the build stage: each parameter operation is defined
//! only on the stage immediately before that parameter's position and moves
//! the builder to the next stage, so parameters cannot be skipped, repeated
//! or reordered.  Commands whose trailing parameters are optional expose
//! [`Vec<u8>`] serialization at every stage; commands with required
//! parameters expose it only once the required parameters are present.
//! Serialization appends the two-byte line delimiter and never fails.
//!
//! The registry is a family of types, so the wire-shape guarantee is stated
//! entry by entry: each operation's `ensures` fixes the text it appends —
//! mnemonic, `=`, then parameters in declared order with their separators —
//! and every serializer yields exactly [`line_bytes`] of the assembled line.
use vstd::prelude::*;

verus! {

use vstd::string::StringExecFns;
use vstd::string::StrSliceExecFns;
use vstd::string::StringSliceAdditionalSpecFns;
use vstd::utf8::encode_utf8;
use crate::numbers::dec_digits;
use crate::numbers::u64_to_dec;

/// The wire bytes of a finished command line: its characters, the two-byte
/// delimiter appended, encoded as UTF-8.
pub open spec fn line_bytes(line: Seq<char>) -> Seq<u8> {
    encode_utf8(line + seq!['\r', '\n'])
}

/// Appends the line delimiter and yields the wire bytes.
fn finish(line: String) -> (r: Vec<u8>)
    ensures
        r@ == line_bytes(line@),
{
    let mut line = line;
    line.append("\r\n");
    proof {
        reveal_strlit("\r\n");
        assert("\r\n"@ =~= seq!['\r', '\n']);
    }
    line.as_str().as_bytes_vec()
}

/// Appends `=` or `,` and a string parameter.
fn push_str_param(line: &mut String, sep: &str, p: &str)
    ensures
        final(line)@ == old(line)@ + sep@ + p@,
{
    line.append(sep);
    line.append(p);
}

/// Appends `=` or `,` and a boolean parameter as `1`/`0`.
fn push_bool_param(line: &mut String, sep: &str, enable: bool)
    ensures
        final(line)@ == old(line)@ + sep@ + (if enable {
            "1"@
        } else {
            "0"@
        }),
{
    line.append(sep);
    line.append(if enable {
        "1"
    } else {
        "0"
    });
}

/// Appends `=` or `,` and a numeric parameter in decimal.
fn push_number_param(line: &mut String, sep: &str, n: u64)
    ensures
        final(line)@ == old(line)@ + sep@ + dec_digits(n as int),
{
    line.append(sep);
    let d = u64_to_dec(n);
    line.append(d.as_str());
}

/// Appends `=`, a payload's byte length in decimal, a comma, and the payload.
fn push_data_param(line: &mut String, sep: &str, p: &str)
    ensures
        final(line)@ == old(line)@ + sep@ + dec_digits((p.spec_bytes().len() as usize) as int) + ","@ + p@,
{
    line.append(sep);
    let d = u64_to_dec(p.len() as u64);
    line.append(d.as_str());
    line.append(",");
    line.append(p);
}

// --- queries and transport controls: no parameters required ---

/// `AT+VER`: query the firmware version.
pub struct Ver<const S: u8> {
    line: String,
}

impl<const S: u8> View for Ver<S> {
    type V = Seq<char>;

    closed spec fn view(&self) -> Seq<char> {
        self.line@
    }
}

impl Ver<0> {
    pub fn new() -> (r: Ver<1>)
        ensures
            r@ == "AT+VER"@,
    {
        Ver { line: String::from_str("AT+VER") }
    }
}

impl<const S: u8> Ver<S> {
    /// Serializes the command with its line delimiter.
    pub fn into_bytes(self) -> (r: Vec<u8>)
        ensures
            r@ == line_bytes(self@),
    {
        finish(self.line)
    }
}

/// `AT+ADDR`: query the Bluetooth address.
pub struct Addr<const S: u8> {
    line: String,
}

impl<const S: u8> View for Addr<S> {
    type V = Seq<char>;

    closed spec fn view(&self) -> Seq<char> {
        self.line@
    }
}

impl Addr<0> {
    pub fn new() -> (r: Addr<1>)
        ensures
            r@ == "AT+ADDR"@,
    {
        Addr { line: String::from_str("AT+ADDR") }
    }
}

impl<const S: u8> Addr<S> {
    /// Serializes the command with its line delimiter.
    pub fn into_bytes(self) -> (r: Vec<u8>)
        ensures
            r@ == line_bytes(self@),
    {
        finish(self.line)
    }
}

/// `AT+LEADDR`: query the low-energy address.
pub struct LeAddr<const S: u8> {
    line: String,
}

impl<const S: u8> View for LeAddr<S> {
    type V = Seq<char>;

    closed spec fn view(&self) -> Seq<char> {
        self.line@
    }
}

impl LeAddr<0> {
    pub fn new() -> (r: LeAddr<1>)
        ensures
            r@ == "AT+LEADDR"@,
    {
        LeAddr { line: String::from_str("AT+LEADDR") }
    }
}

impl<const S: u8> LeAddr<S> {
    /// Serializes the command with its line delimiter.
    pub fn into_bytes(self) -> (r: Vec<u8>)
        ensures
            r@ == line_bytes(self@),
    {
        finish(self.line)
    }
}

/// `AT+PLAYPAUSE`: toggle between play and pause.
pub struct PlayPause<const S: u8> {
    line: String,
}

impl<const S: u8> View for PlayPause<S> {
    type V = Seq<char>;

    closed spec fn view(&self) -> Seq<char> {
        self.line@
    }
}

impl PlayPause<0> {
    pub fn new() -> (r: PlayPause<1>)
        ensures
            r@ == "AT+PLAYPAUSE"@,
    {
        PlayPause { line: String::from_str("AT+PLAYPAUSE") }
    }
}

impl<const S: u8> PlayPause<S> {
    /// Serializes the command with its line delimiter.
    pub fn into_bytes(self) -> (r: Vec<u8>)
        ensures
            r@ == line_bytes(self@),
    {
        finish(self.line)
    }
}

/// `AT+PLAY`: start playback.
pub struct Play<const S: u8> {
    line: String,
}

impl<const S: u8> View for Play<S> {
    type V = Seq<char>;

    closed spec fn view(&self) -> Seq<char> {
        self.line@
    }
}

impl Play<0> {
    pub fn new() -> (r: Play<1>)
        ensures
            r@ == "AT+PLAY"@,
    {
        Play { line: String::from_str("AT+PLAY") }
    }
}

impl<const S: u8> Play<S> {
    /// Serializes the command with its line delimiter.
    pub fn into_bytes(self) -> (r: Vec<u8>)
        ensures
            r@ == line_bytes(self@),
    {
        finish(self.line)
    }
}

/// `AT+PAUSE`: pause playback.
pub struct Pause<const S: u8> {
    line: String,
}

impl<const S: u8> View for Pause<S> {
    type V = Seq<char>;

    closed spec fn view(&self) -> Seq<char> {
        self.line@
    }
}

impl Pause<0> {
    pub fn new() -> (r: Pause<1>)
        ensures
            r@ == "AT+PAUSE"@,
    {
        Pause { line: String::from_str("AT+PAUSE") }
    }
}

impl<const S: u8> Pause<S> {
    /// Serializes the command with its line delimiter.
    pub fn into_bytes(self) -> (r: Vec<u8>)
        ensures
            r@ == line_bytes(self@),
    {
        finish(self.line)
    }
}

/// `AT+STOP`: stop playback.
pub struct Stop<const S: u8> {
    line: String,
}

impl<const S: u8> View for Stop<S> {
    type V = Seq<char>;

    closed spec fn view(&self) -> Seq<char> {
        self.line@
    }
}

impl Stop<0> {
    pub fn new() -> (r: Stop<1>)
        ensures
            r@ == "AT+STOP"@,
    {
        Stop { line: String::from_str("AT+STOP") }
    }
}

impl<const S: u8> Stop<S> {
    /// Serializes the command with its line delimiter.
    pub fn into_bytes(self) -> (r: Vec<u8>)
        ensures
            r@ == line_bytes(self@),
    {
        finish(self.line)
    }
}

/// `AT+FORWARD`: skip to the next track.
pub struct Forward<const S: u8> {
    line: String,
}

impl<const S: u8> View for Forward<S> {
    type V = Seq<char>;

    closed spec fn view(&self) -> Seq<char> {
        self.line@
    }
}

impl Forward<0> {
    pub fn new() -> (r: Forward<1>)
        ensures
            r@ == "AT+FORWARD"@,
    {
        Forward { line: String::from_str("AT+FORWARD") }
    }
}

impl<const S: u8> Forward<S> {
    /// Serializes the command with its line delimiter.
    pub fn into_bytes(self) -> (r: Vec<u8>)
        ensures
            r@ == line_bytes(self@),
    {
        finish(self.line)
    }
}

/// `AT+BACKWARD`: skip to the previous track.
pub struct Backward<const S: u8> {
    line: String,
}

impl<const S: u8> View for Backward<S> {
    type V = Seq<char>;

    closed spec fn view(&self) -> Seq<char> {
        self.line@
    }
}

impl Backward<0> {
    pub fn new() -> (r: Backward<1>)
        ensures
            r@ == "AT+BACKWARD"@,
    {
        Backward { line: String::from_str("AT+BACKWARD") }
    }
}

impl<const S: u8> Backward<S> {
    /// Serializes the command with its line delimiter.
    pub fn into_bytes(self) -> (r: Vec<u8>)
        ensures
            r@ == line_bytes(self@),
    {
        finish(self.line)
    }
}

// --- configuration commands: trailing parameters optional ---

/// `AT+NAME`: set the Bluetooth name, with an optional suffix flag.
pub struct Name<const S: u8> {
    line: String,
}

impl<const S: u8> View for Name<S> {
    type V = Seq<char>;

    closed spec fn view(&self) -> Seq<char> {
        self.line@
    }
}

impl Name<0> {
    pub fn new() -> (r: Name<1>)
        ensures
            r@ == "AT+NAME"@,
    {
        Name { line: String::from_str("AT+NAME") }
    }
}

impl<const S: u8> Name<S> {
    /// Serializes the command with its line delimiter.
    pub fn into_bytes(self) -> (r: Vec<u8>)
        ensures
            r@ == line_bytes(self@),
    {
        finish(self.line)
    }
}

impl Name<1> {
    /// The name to advertise.
    pub fn name(self, name: &str) -> (r: Name<2>)
        ensures
            r@ == self@ + "="@ + name@,
    {
        let mut line = self.line;
        push_str_param(&mut line, "=", name);
        Name { line }
    }
}

impl Name<2> {
    /// Whether the module appends its address suffix to the name.
    pub fn enable_suffix(self, enable: bool) -> (r: Name<3>)
        ensures
            r@ == self@ + ","@ + (if enable {
                "1"@
            } else {
                "0"@
            }),
    {
        let mut line = self.line;
        push_bool_param(&mut line, ",", enable);
        Name { line }
    }
}

/// `AT+NAME`: set the low-energy name, with an optional suffix flag.
pub struct LeName<const S: u8> {
    line: String,
}

impl<const S: u8> View for LeName<S> {
    type V = Seq<char>;

    closed spec fn view(&self) -> Seq<char> {
        self.line@
    }
}

impl LeName<0> {
    pub fn new() -> (r: LeName<1>)
        ensures
            r@ == "AT+NAME"@,
    {
        LeName { line: String::from_str("AT+NAME") }
    }
}

impl<const S: u8> LeName<S> {
    /// Serializes the command with its line delimiter.
    pub fn into_bytes(self) -> (r: Vec<u8>)
        ensures
            r@ == line_bytes(self@),
    {
        finish(self.line)
    }
}

impl LeName<1> {
    /// The low-energy name to advertise.
    pub fn le_name(self, le_name: &str) -> (r: LeName<2>)
        ensures
            r@ == self@ + "="@ + le_name@,
    {
        let mut line = self.line;
        push_str_param(&mut line, "=", le_name);
        LeName { line }
    }
}

impl LeName<2> {
    /// Whether the module appends its address suffix to the name.
    pub fn enable_suffix(self, enable: bool) -> (r: LeName<3>)
        ensures
            r@ == self@ + ","@ + (if enable {
                "1"@
            } else {
                "0"@
            }),
    {
        let mut line = self.line;
        push_bool_param(&mut line, ",", enable);
        LeName { line }
    }
}

/// `AT+BAUD`: set the serial baud rate.
pub struct Baud<const S: u8> {
    line: String,
}

impl<const S: u8> View for Baud<S> {
    type V = Seq<char>;

    closed spec fn view(&self) -> Seq<char> {
        self.line@
    }
}

impl Baud<0> {
    pub fn new() -> (r: Baud<1>)
        ensures
            r@ == "AT+BAUD"@,
    {
        Baud { line: String::from_str("AT+BAUD") }
    }
}

impl<const S: u8> Baud<S> {
    /// Serializes the command with its line delimiter.
    pub fn into_bytes(self) -> (r: Vec<u8>)
        ensures
            r@ == line_bytes(self@),
    {
        finish(self.line)
    }
}

impl Baud<1> {
    /// The baud rate in bits per second.
    pub fn baudrate(self, baudrate: u32) -> (r: Baud<2>)
        ensures
            r@ == self@ + "="@ + dec_digits(baudrate as int),
    {
        let mut line = self.line;
        push_number_param(&mut line, "=", baudrate as u64);
        Baud { line }
    }
}

/// `AT+PIN`: set the pairing PIN.
pub struct Pin<const S: u8> {
    line: String,
}

impl<const S: u8> View for Pin<S> {
    type V = Seq<char>;

    closed spec fn view(&self) -> Seq<char> {
        self.line@
    }
}

impl Pin<0> {
    pub fn new() -> (r: Pin<1>)
        ensures
            r@ == "AT+PIN"@,
    {
        Pin { line: String::from_str("AT+PIN") }
    }
}

impl<const S: u8> Pin<S> {
    /// Serializes the command with its line delimiter.
    pub fn into_bytes(self) -> (r: Vec<u8>)
        ensures
            r@ == line_bytes(self@),
    {
        finish(self.line)
    }
}

impl Pin<1> {
    /// The PIN digits.
    pub fn pin(self, pin: &str) -> (r: Pin<2>)
        ensures
            r@ == self@ + "="@ + pin@,
    {
        let mut line = self.line;
        push_str_param(&mut line, "=", pin);
        Pin { line }
    }
}

/// `AT+TPMODE`: switch throughput mode.
pub struct TpMode<const S: u8> {
    line: String,
}

impl<const S: u8> View for TpMode<S> {
    type V = Seq<char>;

    closed spec fn view(&self) -> Seq<char> {
        self.line@
    }
}

impl TpMode<0> {
    pub fn new() -> (r: TpMode<1>)
        ensures
            r@ == "AT+TPMODE"@,
    {
        TpMode { line: String::from_str("AT+TPMODE") }
    }
}

impl<const S: u8> TpMode<S> {
    /// Serializes the command with its line delimiter.
    pub fn into_bytes(self) -> (r: Vec<u8>)
        ensures
            r@ == line_bytes(self@),
    {
        finish(self.line)
    }
}

impl TpMode<1> {
    /// Whether throughput mode is on.
    pub fn enable_throughput_mode(self, enable: bool) -> (r: TpMode<2>)
        ensures
            r@ == self@ + "="@ + (if enable {
                "1"@
            } else {
                "0"@
            }),
    {
        let mut line = self.line;
        push_bool_param(&mut line, "=", enable);
        TpMode { line }
    }
}

/// `AT+PLIST`: manage the paired-device list.
pub struct PList<const S: u8> {
    line: String,
}

impl<const S: u8> View for PList<S> {
    type V = Seq<char>;

    closed spec fn view(&self) -> Seq<char> {
        self.line@
    }
}

impl PList<0> {
    pub fn new() -> (r: PList<1>)
        ensures
            r@ == "AT+PLIST"@,
    {
        PList { line: String::from_str("AT+PLIST") }
    }
}

impl<const S: u8> PList<S> {
    /// Serializes the command with its line delimiter.
    pub fn into_bytes(self) -> (r: Vec<u8>)
        ensures
            r@ == line_bytes(self@),
    {
        finish(self.line)
    }
}

impl PList<1> {
    /// Clear every paired device.
    pub fn clear_paired_all(self) -> (r: PList<2>)
        ensures
            r@ == self@ + "="@ + "0"@,
    {
        let mut line = self.line;
        push_str_param(&mut line, "=", "0");
        PList { line }
    }
    /// Clear the paired device at this list index.
    pub fn clear_paired_index(self, clear_paired_index: u8) -> (r: PList<2>)
        ensures
            r@ == self@ + "="@ + dec_digits(clear_paired_index as int),
    {
        let mut line = self.line;
        push_number_param(&mut line, "=", clear_paired_index as u64);
        PList { line }
    }
    /// Clear the paired device with this address.
    pub fn clear_paired_mac(self, clear_paired_mac: &str) -> (r: PList<2>)
        ensures
            r@ == self@ + "="@ + clear_paired_mac@,
    {
        let mut line = self.line;
        push_str_param(&mut line, "=", clear_paired_mac);
        PList { line }
    }
}

/// `AT+AUTOCONN`: configure automatic reconnection.
pub struct AutoConn<const S: u8> {
    line: String,
}

impl<const S: u8> View for AutoConn<S> {
    type V = Seq<char>;

    closed spec fn view(&self) -> Seq<char> {
        self.line@
    }
}

impl AutoConn<0> {
    pub fn new() -> (r: AutoConn<1>)
        ensures
            r@ == "AT+AUTOCONN"@,
    {
        AutoConn { line: String::from_str("AT+AUTOCONN") }
    }
}

impl<const S: u8> AutoConn<S> {
    /// Serializes the command with its line delimiter.
    pub fn into_bytes(self) -> (r: Vec<u8>)
        ensures
            r@ == line_bytes(self@),
    {
        finish(self.line)
    }
}

impl AutoConn<1> {
    /// Turn automatic reconnection off.
    pub fn disable_auto_connection(self) -> (r: AutoConn<2>)
        ensures
            r@ == self@ + "="@ + "0"@,
    {
        let mut line = self.line;
        push_str_param(&mut line, "=", "0");
        AutoConn { line }
    }
    /// Reconnect this many times.
    pub fn attempts(self, attempts: u8) -> (r: AutoConn<2>)
        ensures
            r@ == self@ + "="@ + dec_digits(attempts as int),
    {
        let mut line = self.line;
        push_number_param(&mut line, "=", attempts as u64);
        AutoConn { line }
    }
}

/// `AT+SCAN`: start or stop device scanning.
pub struct Scan<const S: u8> {
    line: String,
}

impl<const S: u8> View for Scan<S> {
    type V = Seq<char>;

    closed spec fn view(&self) -> Seq<char> {
        self.line@
    }
}

impl Scan<0> {
    pub fn new() -> (r: Scan<1>)
        ensures
            r@ == "AT+SCAN"@,
    {
        Scan { line: String::from_str("AT+SCAN") }
    }
}

impl<const S: u8> Scan<S> {
    /// Serializes the command with its line delimiter.
    pub fn into_bytes(self) -> (r: Vec<u8>)
        ensures
            r@ == line_bytes(self@),
    {
        finish(self.line)
    }
}

impl Scan<1> {
    /// Start scanning.
    pub fn start(self) -> (r: Scan<2>)
        ensures
            r@ == self@ + "="@ + "1"@,
    {
        let mut line = self.line;
        push_str_param(&mut line, "=", "1");
        Scan { line }
    }
    /// Stop scanning.
    pub fn stop(self) -> (r: Scan<2>)
        ensures
            r@ == self@ + "="@ + "0"@,
    {
        let mut line = self.line;
        push_str_param(&mut line, "=", "0");
        Scan { line }
    }
}

/// `AT+SPKVOL`: step the speaker volume.
pub struct SpkVol<const S: u8> {
    line: String,
}

impl<const S: u8> View for SpkVol<S> {
    type V = Seq<char>;

    closed spec fn view(&self) -> Seq<char> {
        self.line@
    }
}

impl SpkVol<0> {
    pub fn new() -> (r: SpkVol<1>)
        ensures
            r@ == "AT+SPKVOL"@,
    {
        SpkVol { line: String::from_str("AT+SPKVOL") }
    }
}

impl<const S: u8> SpkVol<S> {
    /// Serializes the command with its line delimiter.
    pub fn into_bytes(self) -> (r: Vec<u8>)
        ensures
            r@ == line_bytes(self@),
    {
        finish(self.line)
    }
}

impl SpkVol<1> {
    /// One step louder.
    pub fn increase(self) -> (r: SpkVol<2>)
        ensures
            r@ == self@ + "="@ + "+"@,
    {
        let mut line = self.line;
        push_str_param(&mut line, "=", "+");
        SpkVol { line }
    }
    /// One step quieter.
    pub fn decrease(self) -> (r: SpkVol<2>)
        ensures
            r@ == self@ + "="@ + "-"@,
    {
        let mut line = self.line;
        push_str_param(&mut line, "=", "-");
        SpkVol { line }
    }
}

/// `AT+BTEN`: switch Bluetooth on or off.
pub struct BtEn<const S: u8> {
    line: String,
}

impl<const S: u8> View for BtEn<S> {
    type V = Seq<char>;

    closed spec fn view(&self) -> Seq<char> {
        self.line@
    }
}

impl BtEn<0> {
    pub fn new() -> (r: BtEn<1>)
        ensures
            r@ == "AT+BTEN"@,
    {
        BtEn { line: String::from_str("AT+BTEN") }
    }
}

impl<const S: u8> BtEn<S> {
    /// Serializes the command with its line delimiter.
    pub fn into_bytes(self) -> (r: Vec<u8>)
        ensures
            r@ == line_bytes(self@),
    {
        finish(self.line)
    }
}

impl BtEn<1> {
    /// Whether Bluetooth is on.  The wire polarity is inverted: enabling sends `0`.
    pub fn enable_bluetooth(self, enable: bool) -> (r: BtEn<2>)
        ensures
            r@ == self@ + "="@ + (if enable {
                "0"@
            } else {
                "1"@
            }),
    {
        let mut line = self.line;
        push_bool_param(&mut line, "=", !enable);
        BtEn { line }
    }
}

/// `AT+PAIR`: switch pairing on or off.
pub struct Pair<const S: u8> {
    line: String,
}

impl<const S: u8> View for Pair<S> {
    type V = Seq<char>;

    closed spec fn view(&self) -> Seq<char> {
        self.line@
    }
}

impl Pair<0> {
    pub fn new() -> (r: Pair<1>)
        ensures
            r@ == "AT+PAIR"@,
    {
        Pair { line: String::from_str("AT+PAIR") }
    }
}

impl<const S: u8> Pair<S> {
    /// Serializes the command with its line delimiter.
    pub fn into_bytes(self) -> (r: Vec<u8>)
        ensures
            r@ == line_bytes(self@),
    {
        finish(self.line)
    }
}

impl Pair<1> {
    /// Whether pairing is allowed.  The wire polarity is inverted: enabling sends `0`.
    pub fn enable_pairing(self, enable: bool) -> (r: Pair<2>)
        ensures
            r@ == self@ + "="@ + (if enable {
                "0"@
            } else {
                "1"@
            }),
    {
        let mut line = self.line;
        push_bool_param(&mut line, "=", !enable);
        Pair { line }
    }
}

/// `AT+MUTEMIC`: mute or unmute the microphone.
pub struct MuteMic<const S: u8> {
    line: String,
}

impl<const S: u8> View for MuteMic<S> {
    type V = Seq<char>;

    closed spec fn view(&self) -> Seq<char> {
        self.line@
    }
}

impl MuteMic<0> {
    pub fn new() -> (r: MuteMic<1>)
        ensures
            r@ == "AT+MUTEMIC"@,
    {
        MuteMic { line: String::from_str("AT+MUTEMIC") }
    }
}

impl<const S: u8> MuteMic<S> {
    /// Serializes the command with its line delimiter.
    pub fn into_bytes(self) -> (r: Vec<u8>)
        ensures
            r@ == line_bytes(self@),
    {
        finish(self.line)
    }
}

impl MuteMic<1> {
    /// Mute the microphone.
    pub fn mute(self) -> (r: MuteMic<2>)
        ensures
            r@ == self@ + "="@ + "1"@,
    {
        let mut line = self.line;
        push_str_param(&mut line, "=", "1");
        MuteMic { line }
    }
    /// Unmute the microphone.
    pub fn unmute(self) -> (r: MuteMic<2>)
        ensures
            r@ == self@ + "="@ + "0"@,
    {
        let mut line = self.line;
        push_str_param(&mut line, "=", "0");
        MuteMic { line }
    }
}

// --- commands with required parameters: serializable only complete ---

/// `AT+HFPDTMF`: send a DTMF code during a call.
pub struct HfpDtmf<const S: u8> {
    line: String,
}

impl<const S: u8> View for HfpDtmf<S> {
    type V = Seq<char>;

    closed spec fn view(&self) -> Seq<char> {
        self.line@
    }
}

impl HfpDtmf<0> {
    pub fn new() -> (r: HfpDtmf<1>)
        ensures
            r@ == "AT+HFPDTMF"@,
    {
        HfpDtmf { line: String::from_str("AT+HFPDTMF") }
    }
}

impl HfpDtmf<1> {
    /// The DTMF code to send.
    pub fn code(self, code: &str) -> (r: HfpDtmf<2>)
        ensures
            r@ == self@ + "="@ + code@,
    {
        let mut line = self.line;
        push_str_param(&mut line, "=", code);
        HfpDtmf { line }
    }
}

impl HfpDtmf<2> {
    /// Serializes the command with its line delimiter.
    pub fn into_bytes(self) -> (r: Vec<u8>)
        ensures
            r@ == line_bytes(self@),
    {
        finish(self.line)
    }
}

/// `AT+PBDOWN`: download a phonebook.
pub struct PbDown<const S: u8> {
    line: String,
}

impl<const S: u8> View for PbDown<S> {
    type V = Seq<char>;

    closed spec fn view(&self) -> Seq<char> {
        self.line@
    }
}

impl PbDown<0> {
    pub fn new() -> (r: PbDown<1>)
        ensures
            r@ == "AT+PBDOWN"@,
    {
        PbDown { line: String::from_str("AT+PBDOWN") }
    }
}

impl PbDown<1> {
    /// Which phonebook to download.
    pub fn phonebook(self, phonebook: u8) -> (r: PbDown<2>)
        ensures
            r@ == self@ + "="@ + dec_digits(phonebook as int),
    {
        let mut line = self.line;
        push_number_param(&mut line, "=", phonebook as u64);
        PbDown { line }
    }
}

impl PbDown<2> {
    /// Serializes the command with its line delimiter.
    pub fn into_bytes(self) -> (r: Vec<u8>)
        ensures
            r@ == line_bytes(self@),
    {
        finish(self.line)
    }
}

impl PbDown<2> {
    /// At most this many entries.
    pub fn max_items(self, max_items: u16) -> (r: PbDown<3>)
        ensures
            r@ == self@ + ","@ + dec_digits(max_items as int),
    {
        let mut line = self.line;
        push_number_param(&mut line, ",", max_items as u64);
        PbDown { line }
    }
}

impl PbDown<3> {
    /// Serializes the command with its line delimiter.
    pub fn into_bytes(self) -> (r: Vec<u8>)
        ensures
            r@ == line_bytes(self@),
    {
        finish(self.line)
    }
}

/// `AT+SPPCONN`: open an SPP connection.
pub struct SppConn<const S: u8> {
    line: String,
}

impl<const S: u8> View for SppConn<S> {
    type V = Seq<char>;

    closed spec fn view(&self) -> Seq<char> {
        self.line@
    }
}

impl SppConn<0> {
    pub fn new() -> (r: SppConn<1>)
        ensures
            r@ == "AT+SPPCONN"@,
    {
        SppConn { line: String::from_str("AT+SPPCONN") }
    }
}

impl SppConn<1> {
    /// The address to connect to.
    pub fn mac(self, mac: &str) -> (r: SppConn<2>)
        ensures
            r@ == self@ + "="@ + mac@,
    {
        let mut line = self.line;
        push_str_param(&mut line, "=", mac);
        SppConn { line }
    }
}

impl SppConn<2> {
    /// Serializes the command with its line delimiter.
    pub fn into_bytes(self) -> (r: Vec<u8>)
        ensures
            r@ == line_bytes(self@),
    {
        finish(self.line)
    }
}

/// `AT+SPPSEND`: send data over the SPP channel.
pub struct SppSend<const S: u8> {
    line: String,
}

impl<const S: u8> View for SppSend<S> {
    type V = Seq<char>;

    closed spec fn view(&self) -> Seq<char> {
        self.line@
    }
}

impl SppSend<0> {
    pub fn new() -> (r: SppSend<1>)
        ensures
            r@ == "AT+SPPSEND"@,
    {
        SppSend { line: String::from_str("AT+SPPSEND") }
    }
}

impl SppSend<1> {
    /// The payload to send.  Rendered as the payload's byte length in decimal, a
    /// comma, then the payload itself.
    pub fn payload(self, payload: &str) -> (r: SppSend<2>)
        ensures
            r@ == self@ + "="@ + dec_digits((payload.spec_bytes().len() as usize) as int)
                + ","@ + payload@,
    {
        let mut line = self.line;
        push_data_param(&mut line, "=", payload);
        SppSend { line }
    }
}

impl SppSend<2> {
    /// Serializes the command with its line delimiter.
    pub fn into_bytes(self) -> (r: Vec<u8>)
        ensures
            r@ == line_bytes(self@),
    {
        finish(self.line)
    }
}

/// `AT+GATTSEND`: send data over the GATT channel.
pub struct GattSend<const S: u8> {
    line: String,
}

impl<const S: u8> View for GattSend<S> {
    type V = Seq<char>;

    closed spec fn view(&self) -> Seq<char> {
        self.line@
    }
}

impl GattSend<0> {
    pub fn new() -> (r: GattSend<1>)
        ensures
            r@ == "AT+GATTSEND"@,
    {
        GattSend { line: String::from_str("AT+GATTSEND") }
    }
}

impl GattSend<1> {
    /// The payload to send.  Rendered as the payload's byte length in decimal, a
    /// comma, then the payload itself.
    pub fn payload(self, payload: &str) -> (r: GattSend<2>)
        ensures
            r@ == self@ + "="@ + dec_digits((payload.spec_bytes().len() as usize) as int)
                + ","@ + payload@,
    {
        let mut line = self.line;
        push_data_param(&mut line, "=", payload);
        GattSend { line }
    }
}

impl GattSend<2> {
    /// Serializes the command with its line delimiter.
    pub fn into_bytes(self) -> (r: Vec<u8>)
        ensures
            r@ == line_bytes(self@),
    {
        finish(self.line)
    }
}

// --- status queries and session controls: no parameters ---

/// `AT+STAT`: query the overall state.
pub struct Stat<const S: u8> {
    line: String,
}

impl<const S: u8> View for Stat<S> {
    type V = Seq<char>;

    closed spec fn view(&self) -> Seq<char> {
        self.line@
    }
}

impl Stat<0> {
    pub fn new() -> (r: Stat<1>)
        ensures
            r@ == "AT+STAT"@,
    {
        Stat { line: String::from_str("AT+STAT") }
    }
}

impl<const S: u8> Stat<S> {
    /// Serializes the command with its line delimiter.
    pub fn into_bytes(self) -> (r: Vec<u8>)
        ensures
            r@ == line_bytes(self@),
    {
        finish(self.line)
    }
}

/// `AT+DSCA`: disconnect every profile.
pub struct Dsca<const S: u8> {
    line: String,
}

impl<const S: u8> View for Dsca<S> {
    type V = Seq<char>;

    closed spec fn view(&self) -> Seq<char> {
        self.line@
    }
}

impl Dsca<0> {
    pub fn new() -> (r: Dsca<1>)
        ensures
            r@ == "AT+DSCA"@,
    {
        Dsca { line: String::from_str("AT+DSCA") }
    }
}

impl<const S: u8> Dsca<S> {
    /// Serializes the command with its line delimiter.
    pub fn into_bytes(self) -> (r: Vec<u8>)
        ensures
            r@ == line_bytes(self@),
    {
        finish(self.line)
    }
}

/// `AT+REBOOT`: reboot the module.
pub struct Reboot<const S: u8> {
    line: String,
}

impl<const S: u8> View for Reboot<S> {
    type V = Seq<char>;

    closed spec fn view(&self) -> Seq<char> {
        self.line@
    }
}

impl Reboot<0> {
    pub fn new() -> (r: Reboot<1>)
        ensures
            r@ == "AT+REBOOT"@,
    {
        Reboot { line: String::from_str("AT+REBOOT") }
    }
}

impl<const S: u8> Reboot<S> {
    /// Serializes the command with its line delimiter.
    pub fn into_bytes(self) -> (r: Vec<u8>)
        ensures
            r@ == line_bytes(self@),
    {
        finish(self.line)
    }
}

/// `AT+RESTORE`: restore factory settings.
pub struct Restore<const S: u8> {
    line: String,
}

impl<const S: u8> View for Restore<S> {
    type V = Seq<char>;

    closed spec fn view(&self) -> Seq<char> {
        self.line@
    }
}

impl Restore<0> {
    pub fn new() -> (r: Restore<1>)
        ensures
            r@ == "AT+RESTORE"@,
    {
        Restore { line: String::from_str("AT+RESTORE") }
    }
}

impl<const S: u8> Restore<S> {
    /// Serializes the command with its line delimiter.
    pub fn into_bytes(self) -> (r: Vec<u8>)
        ensures
            r@ == line_bytes(self@),
    {
        finish(self.line)
    }
}

/// `AT+CLOSEAT`: close the AT command channel.
pub struct CloseAt<const S: u8> {
    line: String,
}

impl<const S: u8> View for CloseAt<S> {
    type V = Seq<char>;

    closed spec fn view(&self) -> Seq<char> {
        self.line@
    }
}

impl CloseAt<0> {
    pub fn new() -> (r: CloseAt<1>)
        ensures
            r@ == "AT+CLOSEAT"@,
    {
        CloseAt { line: String::from_str("AT+CLOSEAT") }
    }
}

impl<const S: u8> CloseAt<S> {
    /// Serializes the command with its line delimiter.
    pub fn into_bytes(self) -> (r: Vec<u8>)
        ensures
            r@ == line_bytes(self@),
    {
        finish(self.line)
    }
}

/// `AT+HFPSTAT`: query the hands-free profile state.
pub struct HfpStat<const S: u8> {
    line: String,
}

impl<const S: u8> View for HfpStat<S> {
    type V = Seq<char>;

    closed spec fn view(&self) -> Seq<char> {
        self.line@
    }
}

impl HfpStat<0> {
    pub fn new() -> (r: HfpStat<1>)
        ensures
            r@ == "AT+HFPSTAT"@,
    {
        HfpStat { line: String::from_str("AT+HFPSTAT") }
    }
}

impl<const S: u8> HfpStat<S> {
    /// Serializes the command with its line delimiter.
    pub fn into_bytes(self) -> (r: Vec<u8>)
        ensures
            r@ == line_bytes(self@),
    {
        finish(self.line)
    }
}

/// `AT+HFPDISC`: disconnect the hands-free profile.
pub struct HfpDisc<const S: u8> {
    line: String,
}

impl<const S: u8> View for HfpDisc<S> {
    type V = Seq<char>;

    closed spec fn view(&self) -> Seq<char> {
        self.line@
    }
}

impl HfpDisc<0> {
    pub fn new() -> (r: HfpDisc<1>)
        ensures
            r@ == "AT+HFPDISC"@,
    {
        HfpDisc { line: String::from_str("AT+HFPDISC") }
    }
}

impl<const S: u8> HfpDisc<S> {
    /// Serializes the command with its line delimiter.
    pub fn into_bytes(self) -> (r: Vec<u8>)
        ensures
            r@ == line_bytes(self@),
    {
        finish(self.line)
    }
}

/// `AT+HFPANSW`: answer the incoming call.
pub struct HfpAnsw<const S: u8> {
    line: String,
}

impl<const S: u8> View for HfpAnsw<S> {
    type V = Seq<char>;

    closed spec fn view(&self) -> Seq<char> {
        self.line@
    }
}

impl HfpAnsw<0> {
    pub fn new() -> (r: HfpAnsw<1>)
        ensures
            r@ == "AT+HFPANSW"@,
    {
        HfpAnsw { line: String::from_str("AT+HFPANSW") }
    }
}

impl<const S: u8> HfpAnsw<S> {
    /// Serializes the command with its line delimiter.
    pub fn into_bytes(self) -> (r: Vec<u8>)
        ensures
            r@ == line_bytes(self@),
    {
        finish(self.line)
    }
}

/// `AT+HFPCHUP`: hang up the current call.
pub struct HfpChup<const S: u8> {
    line: String,
}

impl<const S: u8> View for HfpChup<S> {
    type V = Seq<char>;

    closed spec fn view(&self) -> Seq<char> {
        self.line@
    }
}

impl HfpChup<0> {
    pub fn new() -> (r: HfpChup<1>)
        ensures
            r@ == "AT+HFPCHUP"@,
    {
        HfpChup { line: String::from_str("AT+HFPCHUP") }
    }
}

impl<const S: u8> HfpChup<S> {
    /// Serializes the command with its line delimiter.
    pub fn into_bytes(self) -> (r: Vec<u8>)
        ensures
            r@ == line_bytes(self@),
    {
        finish(self.line)
    }
}

/// `AT+A2DPSTAT`: query the audio profile state.
pub struct A2dpStat<const S: u8> {
    line: String,
}

impl<const S: u8> View for A2dpStat<S> {
    type V = Seq<char>;

    closed spec fn view(&self) -> Seq<char> {
        self.line@
    }
}

impl A2dpStat<0> {
    pub fn new() -> (r: A2dpStat<1>)
        ensures
            r@ == "AT+A2DPSTAT"@,
    {
        A2dpStat { line: String::from_str("AT+A2DPSTAT") }
    }
}

impl<const S: u8> A2dpStat<S> {
    /// Serializes the command with its line delimiter.
    pub fn into_bytes(self) -> (r: Vec<u8>)
        ensures
            r@ == line_bytes(self@),
    {
        finish(self.line)
    }
}

/// `AT+A2DPDISC`: disconnect the audio profile.
pub struct A2dpDisc<const S: u8> {
    line: String,
}

impl<const S: u8> View for A2dpDisc<S> {
    type V = Seq<char>;

    closed spec fn view(&self) -> Seq<char> {
        self.line@
    }
}

impl A2dpDisc<0> {
    pub fn new() -> (r: A2dpDisc<1>)
        ensures
            r@ == "AT+A2DPDISC"@,
    {
        A2dpDisc { line: String::from_str("AT+A2DPDISC") }
    }
}

impl<const S: u8> A2dpDisc<S> {
    /// Serializes the command with its line delimiter.
    pub fn into_bytes(self) -> (r: Vec<u8>)
        ensures
            r@ == line_bytes(self@),
    {
        finish(self.line)
    }
}

/// `AT+A2DPDEC`: switch the audio decoder.
pub struct A2dpDec<const S: u8> {
    line: String,
}

impl<const S: u8> View for A2dpDec<S> {
    type V = Seq<char>;

    closed spec fn view(&self) -> Seq<char> {
        self.line@
    }
}

impl A2dpDec<0> {
    pub fn new() -> (r: A2dpDec<1>)
        ensures
            r@ == "AT+A2DPDEC"@,
    {
        A2dpDec { line: String::from_str("AT+A2DPDEC") }
    }
}

impl<const S: u8> A2dpDec<S> {
    /// Serializes the command with its line delimiter.
    pub fn into_bytes(self) -> (r: Vec<u8>)
        ensures
            r@ == line_bytes(self@),
    {
        finish(self.line)
    }
}

/// `AT+SPPSTAT`: query the SPP channel state.
pub struct SppStat<const S: u8> {
    line: String,
}

impl<const S: u8> View for SppStat<S> {
    type V = Seq<char>;

    closed spec fn view(&self) -> Seq<char> {
        self.line@
    }
}

impl SppStat<0> {
    pub fn new() -> (r: SppStat<1>)
        ensures
            r@ == "AT+SPPSTAT"@,
    {
        SppStat { line: String::from_str("AT+SPPSTAT") }
    }
}

impl<const S: u8> SppStat<S> {
    /// Serializes the command with its line delimiter.
    pub fn into_bytes(self) -> (r: Vec<u8>)
        ensures
            r@ == line_bytes(self@),
    {
        finish(self.line)
    }
}

/// `AT+SPPDISC`: disconnect the SPP channel.
pub struct SppDisc<const S: u8> {
    line: String,
}

impl<const S: u8> View for SppDisc<S> {
    type V = Seq<char>;

    closed spec fn view(&self) -> Seq<char> {
        self.line@
    }
}

impl SppDisc<0> {
    pub fn new() -> (r: SppDisc<1>)
        ensures
            r@ == "AT+SPPDISC"@,
    {
        SppDisc { line: String::from_str("AT+SPPDISC") }
    }
}

impl<const S: u8> SppDisc<S> {
    /// Serializes the command with its line delimiter.
    pub fn into_bytes(self) -> (r: Vec<u8>)
        ensures
            r@ == line_bytes(self@),
    {
        finish(self.line)
    }
}

/// `AT+GATTSTAT`: query the GATT channel state.
pub struct GattStat<const S: u8> {
    line: String,
}

impl<const S: u8> View for GattStat<S> {
    type V = Seq<char>;

    closed spec fn view(&self) -> Seq<char> {
        self.line@
    }
}

impl GattStat<0> {
    pub fn new() -> (r: GattStat<1>)
        ensures
            r@ == "AT+GATTSTAT"@,
    {
        GattStat { line: String::from_str("AT+GATTSTAT") }
    }
}

impl<const S: u8> GattStat<S> {
    /// Serializes the command with its line delimiter.
    pub fn into_bytes(self) -> (r: Vec<u8>)
        ensures
            r@ == line_bytes(self@),
    {
        finish(self.line)
    }
}

/// `AT+GATTDISC`: disconnect the GATT channel.
pub struct GattDisc<const S: u8> {
    line: String,
}

impl<const S: u8> View for GattDisc<S> {
    type V = Seq<char>;

    closed spec fn view(&self) -> Seq<char> {
        self.line@
    }
}

impl GattDisc<0> {
    pub fn new() -> (r: GattDisc<1>)
        ensures
            r@ == "AT+GATTDISC"@,
    {
        GattDisc { line: String::from_str("AT+GATTDISC") }
    }
}

impl<const S: u8> GattDisc<S> {
    /// Serializes the command with its line delimiter.
    pub fn into_bytes(self) -> (r: Vec<u8>)
        ensures
            r@ == line_bytes(self@),
    {
        finish(self.line)
    }
}

// --- further configuration and session commands: trailing parameters optional ---

/// `AT+LECFG`: configure low-energy advertising.
pub struct LeCfg<const S: u8> {
    line: String,
}

impl<const S: u8> View for LeCfg<S> {
    type V = Seq<char>;

    closed spec fn view(&self) -> Seq<char> {
        self.line@
    }
}

impl LeCfg<0> {
    pub fn new() -> (r: LeCfg<1>)
        ensures
            r@ == "AT+LECFG"@,
    {
        LeCfg { line: String::from_str("AT+LECFG") }
    }
}

impl<const S: u8> LeCfg<S> {
    /// Serializes the command with its line delimiter.
    pub fn into_bytes(self) -> (r: Vec<u8>)
        ensures
            r@ == line_bytes(self@),
    {
        finish(self.line)
    }
}

impl LeCfg<1> {
    /// Whether a random address is advertised.
    pub fn enable_random_address(self, enable: bool) -> (r: LeCfg<2>)
        ensures
            r@ == self@ + "="@ + (if enable {
                "1"@
            } else {
                "0"@
            }),
    {
        let mut line = self.line;
        push_bool_param(&mut line, "=", enable);
        LeCfg { line }
    }
}

/// `AT+UARTCFG`: configure serial flow control.
pub struct UartCfg<const S: u8> {
    line: String,
}

impl<const S: u8> View for UartCfg<S> {
    type V = Seq<char>;

    closed spec fn view(&self) -> Seq<char> {
        self.line@
    }
}

impl UartCfg<0> {
    pub fn new() -> (r: UartCfg<1>)
        ensures
            r@ == "AT+UARTCFG"@,
    {
        UartCfg { line: String::from_str("AT+UARTCFG") }
    }
}

impl<const S: u8> UartCfg<S> {
    /// Serializes the command with its line delimiter.
    pub fn into_bytes(self) -> (r: Vec<u8>)
        ensures
            r@ == line_bytes(self@),
    {
        finish(self.line)
    }
}

impl UartCfg<1> {
    /// Whether CTS/RTS flow control is on.
    pub fn enable_cts_rts(self, enable: bool) -> (r: UartCfg<2>)
        ensures
            r@ == self@ + "="@ + (if enable {
                "1"@
            } else {
                "0"@
            }),
    {
        let mut line = self.line;
        push_bool_param(&mut line, "=", enable);
        UartCfg { line }
    }
}

/// `AT+SPP`: configure SPP pairing.
pub struct Spp<const S: u8> {
    line: String,
}

impl<const S: u8> View for Spp<S> {
    type V = Seq<char>;

    closed spec fn view(&self) -> Seq<char> {
        self.line@
    }
}

impl Spp<0> {
    pub fn new() -> (r: Spp<1>)
        ensures
            r@ == "AT+SPP"@,
    {
        Spp { line: String::from_str("AT+SPP") }
    }
}

impl<const S: u8> Spp<S> {
    /// Serializes the command with its line delimiter.
    pub fn into_bytes(self) -> (r: Vec<u8>)
        ensures
            r@ == line_bytes(self@),
    {
        finish(self.line)
    }
}

impl Spp<1> {
    /// Whether simple pairing is on.
    pub fn enable_simple_paring(self, enable: bool) -> (r: Spp<2>)
        ensures
            r@ == self@ + "="@ + (if enable {
                "1"@
            } else {
                "0"@
            }),
    {
        let mut line = self.line;
        push_bool_param(&mut line, "=", enable);
        Spp { line }
    }
}

/// `AT+COD`: set the class of device.
pub struct Cod<const S: u8> {
    line: String,
}

impl<const S: u8> View for Cod<S> {
    type V = Seq<char>;

    closed spec fn view(&self) -> Seq<char> {
        self.line@
    }
}

impl Cod<0> {
    pub fn new() -> (r: Cod<1>)
        ensures
            r@ == "AT+COD"@,
    {
        Cod { line: String::from_str("AT+COD") }
    }
}

impl<const S: u8> Cod<S> {
    /// Serializes the command with its line delimiter.
    pub fn into_bytes(self) -> (r: Vec<u8>)
        ensures
            r@ == line_bytes(self@),
    {
        finish(self.line)
    }
}

impl Cod<1> {
    /// The class-of-device code.
    pub fn class_of_device(self, class_of_device: &str) -> (r: Cod<2>)
        ensures
            r@ == self@ + "="@ + class_of_device@,
    {
        let mut line = self.line;
        push_str_param(&mut line, "=", class_of_device);
        Cod { line }
    }
}

/// `AT+INQCFG`: configure inquiry scanning.
pub struct InqCfg<const S: u8> {
    line: String,
}

impl<const S: u8> View for InqCfg<S> {
    type V = Seq<char>;

    closed spec fn view(&self) -> Seq<char> {
        self.line@
    }
}

impl InqCfg<0> {
    pub fn new() -> (r: InqCfg<1>)
        ensures
            r@ == "AT+INQCFG"@,
    {
        InqCfg { line: String::from_str("AT+INQCFG") }
    }
}

impl<const S: u8> InqCfg<S> {
    /// Serializes the command with its line delimiter.
    pub fn into_bytes(self) -> (r: Vec<u8>)
        ensures
            r@ == line_bytes(self@),
    {
        finish(self.line)
    }
}

impl InqCfg<1> {
    /// Whether the module scans on its own.
    pub fn enable_auto_scan(self, enable: bool) -> (r: InqCfg<2>)
        ensures
            r@ == self@ + "="@ + (if enable {
                "1"@
            } else {
                "0"@
            }),
    {
        let mut line = self.line;
        push_bool_param(&mut line, "=", enable);
        InqCfg { line }
    }
}

/// `AT+I2SCFG`: configure the I2S/PCM interface.
pub struct I2sCfg<const S: u8> {
    line: String,
}

impl<const S: u8> View for I2sCfg<S> {
    type V = Seq<char>;

    closed spec fn view(&self) -> Seq<char> {
        self.line@
    }
}

impl I2sCfg<0> {
    pub fn new() -> (r: I2sCfg<1>)
        ensures
            r@ == "AT+I2SCFG"@,
    {
        I2sCfg { line: String::from_str("AT+I2SCFG") }
    }
}

impl<const S: u8> I2sCfg<S> {
    /// Serializes the command with its line delimiter.
    pub fn into_bytes(self) -> (r: Vec<u8>)
        ensures
            r@ == line_bytes(self@),
    {
        finish(self.line)
    }
}

impl I2sCfg<1> {
    /// The interface mode code.
    pub fn configure_i2s_pcm(self, configure_i2s_pcm: u8) -> (r: I2sCfg<2>)
        ensures
            r@ == self@ + "="@ + dec_digits(configure_i2s_pcm as int),
    {
        let mut line = self.line;
        push_number_param(&mut line, "=", configure_i2s_pcm as u64);
        I2sCfg { line }
    }
}

/// `AT+SPDIFCFG`: configure the S/PDIF output.
pub struct SpdifCfg<const S: u8> {
    line: String,
}

impl<const S: u8> View for SpdifCfg<S> {
    type V = Seq<char>;

    closed spec fn view(&self) -> Seq<char> {
        self.line@
    }
}

impl SpdifCfg<0> {
    pub fn new() -> (r: SpdifCfg<1>)
        ensures
            r@ == "AT+SPDIFCFG"@,
    {
        SpdifCfg { line: String::from_str("AT+SPDIFCFG") }
    }
}

impl<const S: u8> SpdifCfg<S> {
    /// Serializes the command with its line delimiter.
    pub fn into_bytes(self) -> (r: Vec<u8>)
        ensures
            r@ == line_bytes(self@),
    {
        finish(self.line)
    }
}

impl SpdifCfg<1> {
    /// Whether S/PDIF output is on.
    pub fn enable_spdif(self, enable: bool) -> (r: SpdifCfg<2>)
        ensures
            r@ == self@ + "="@ + (if enable {
                "1"@
            } else {
                "0"@
            }),
    {
        let mut line = self.line;
        push_bool_param(&mut line, "=", enable);
        SpdifCfg { line }
    }
}

/// `AT+AVRCPCFG`: configure remote-control features.
pub struct AvrcpCfg<const S: u8> {
    line: String,
}

impl<const S: u8> View for AvrcpCfg<S> {
    type V = Seq<char>;

    closed spec fn view(&self) -> Seq<char> {
        self.line@
    }
}

impl AvrcpCfg<0> {
    pub fn new() -> (r: AvrcpCfg<1>)
        ensures
            r@ == "AT+AVRCPCFG"@,
    {
        AvrcpCfg { line: String::from_str("AT+AVRCPCFG") }
    }
}

impl<const S: u8> AvrcpCfg<S> {
    /// Serializes the command with its line delimiter.
    pub fn into_bytes(self) -> (r: Vec<u8>)
        ensures
            r@ == line_bytes(self@),
    {
        finish(self.line)
    }
}

impl AvrcpCfg<1> {
    /// The feature mask.
    pub fn avrcpcfg(self, avrcpcfg: u8) -> (r: AvrcpCfg<2>)
        ensures
            r@ == self@ + "="@ + dec_digits(avrcpcfg as int),
    {
        let mut line = self.line;
        push_number_param(&mut line, "=", avrcpcfg as u64);
        AvrcpCfg { line }
    }
}

/// `AT+A2DPROLE`: set the audio profile role.
pub struct A2dpRole<const S: u8> {
    line: String,
}

impl<const S: u8> View for A2dpRole<S> {
    type V = Seq<char>;

    closed spec fn view(&self) -> Seq<char> {
        self.line@
    }
}

impl A2dpRole<0> {
    pub fn new() -> (r: A2dpRole<1>)
        ensures
            r@ == "AT+A2DPROLE"@,
    {
        A2dpRole { line: String::from_str("AT+A2DPROLE") }
    }
}

impl<const S: u8> A2dpRole<S> {
    /// Serializes the command with its line delimiter.
    pub fn into_bytes(self) -> (r: Vec<u8>)
        ensures
            r@ == line_bytes(self@),
    {
        finish(self.line)
    }
}

impl A2dpRole<1> {
    /// Take the slave role.
    pub fn slave(self) -> (r: A2dpRole<2>)
        ensures
            r@ == self@ + "="@ + "0"@,
    {
        let mut line = self.line;
        push_str_param(&mut line, "=", "0");
        A2dpRole { line }
    }
    /// Take the master role.
    pub fn master(self) -> (r: A2dpRole<2>)
        ensures
            r@ == self@ + "="@ + "1"@,
    {
        let mut line = self.line;
        push_str_param(&mut line, "=", "1");
        A2dpRole { line }
    }
}

/// `AT+A2DPCONN`: open an audio connection.
pub struct A2dpConn<const S: u8> {
    line: String,
}

impl<const S: u8> View for A2dpConn<S> {
    type V = Seq<char>;

    closed spec fn view(&self) -> Seq<char> {
        self.line@
    }
}

impl A2dpConn<0> {
    pub fn new() -> (r: A2dpConn<1>)
        ensures
            r@ == "AT+A2DPCONN"@,
    {
        A2dpConn { line: String::from_str("AT+A2DPCONN") }
    }
}

impl<const S: u8> A2dpConn<S> {
    /// Serializes the command with its line delimiter.
    pub fn into_bytes(self) -> (r: Vec<u8>)
        ensures
            r@ == line_bytes(self@),
    {
        finish(self.line)
    }
}

impl A2dpConn<1> {
    /// The address to connect to.
    pub fn mac(self, mac: &str) -> (r: A2dpConn<2>)
        ensures
            r@ == self@ + "="@ + mac@,
    {
        let mut line = self.line;
        push_str_param(&mut line, "=", mac);
        A2dpConn { line }
    }
}

/// `AT+HFPCONN`: open a hands-free connection.
pub struct HfpConn<const S: u8> {
    line: String,
}

impl<const S: u8> View for HfpConn<S> {
    type V = Seq<char>;

    closed spec fn view(&self) -> Seq<char> {
        self.line@
    }
}

impl HfpConn<0> {
    pub fn new() -> (r: HfpConn<1>)
        ensures
            r@ == "AT+HFPCONN"@,
    {
        HfpConn { line: String::from_str("AT+HFPCONN") }
    }
}

impl<const S: u8> HfpConn<S> {
    /// Serializes the command with its line delimiter.
    pub fn into_bytes(self) -> (r: Vec<u8>)
        ensures
            r@ == line_bytes(self@),
    {
        finish(self.line)
    }
}

impl HfpConn<1> {
    /// The address to connect to.
    pub fn mac(self, mac: &str) -> (r: HfpConn<2>)
        ensures
            r@ == self@ + "="@ + mac@,
    {
        let mut line = self.line;
        push_str_param(&mut line, "=", mac);
        HfpConn { line }
    }
}

/// `AT+HFPDIAL`: dial a phone number.
pub struct HfpDial<const S: u8> {
    line: String,
}

impl<const S: u8> View for HfpDial<S> {
    type V = Seq<char>;

    closed spec fn view(&self) -> Seq<char> {
        self.line@
    }
}

impl HfpDial<0> {
    pub fn new() -> (r: HfpDial<1>)
        ensures
            r@ == "AT+HFPDIAL"@,
    {
        HfpDial { line: String::from_str("AT+HFPDIAL") }
    }
}

impl<const S: u8> HfpDial<S> {
    /// Serializes the command with its line delimiter.
    pub fn into_bytes(self) -> (r: Vec<u8>)
        ensures
            r@ == line_bytes(self@),
    {
        finish(self.line)
    }
}

impl HfpDial<1> {
    /// The number to dial.
    pub fn phone_number(self, phone_number: &str) -> (r: HfpDial<2>)
        ensures
            r@ == self@ + "="@ + phone_number@,
    {
        let mut line = self.line;
        push_str_param(&mut line, "=", phone_number);
        HfpDial { line }
    }
}

/// `AT+HFPADTS`: move call audio between module and phone.
pub struct HfpAdts<const S: u8> {
    line: String,
}

impl<const S: u8> View for HfpAdts<S> {
    type V = Seq<char>;

    closed spec fn view(&self) -> Seq<char> {
        self.line@
    }
}

impl HfpAdts<0> {
    pub fn new() -> (r: HfpAdts<1>)
        ensures
            r@ == "AT+HFPADTS"@,
    {
        HfpAdts { line: String::from_str("AT+HFPADTS") }
    }
}

impl<const S: u8> HfpAdts<S> {
    /// Serializes the command with its line delimiter.
    pub fn into_bytes(self) -> (r: Vec<u8>)
        ensures
            r@ == line_bytes(self@),
    {
        finish(self.line)
    }
}

impl HfpAdts<1> {
    /// Move call audio to the remote phone.
    pub fn transfer_to_remote(self) -> (r: HfpAdts<2>)
        ensures
            r@ == self@ + "="@ + "0"@,
    {
        let mut line = self.line;
        push_str_param(&mut line, "=", "0");
        HfpAdts { line }
    }
    /// Move call audio to the module.
    pub fn transfer_from_remote(self) -> (r: HfpAdts<2>)
        ensures
            r@ == self@ + "="@ + "1"@,
    {
        let mut line = self.line;
        push_str_param(&mut line, "=", "1");
        HfpAdts { line }
    }
}

} // verus!
