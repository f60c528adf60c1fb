//! What the service decides while it starts: the port it listens on, how much
//! it logs, and whether the driver it talks to is compatible.

use vstd::prelude::*;
use vstd::string::StrSliceExecFns;
use vstd::string::StringExecFns;

verus! {

// ---------------------------------------------------------------------------
// Reading a port number
// ---------------------------------------------------------------------------

/// Whether `c` is one of the ASCII digits `0` to `9`.
pub open spec fn is_digit(c: char) -> bool {
    '0' <= c && c <= '9'
}

/// The number that the digit `c` stands for.
pub open spec fn digit_value(c: char) -> nat {
    (c as int - '0' as int) as nat
}

/// Whether every character of `s` is a digit.
pub open spec fn all_digits(s: Seq<char>) -> bool {
    forall|i: int| 0 <= i < s.len() ==> is_digit(#[trigger] s[i])
}

/// The number that the decimal digits `s` stand for, most significant first.
pub open spec fn digits_value(s: Seq<char>) -> nat
    decreases s.len(),
{
    if s.len() == 0 {
        0
    } else {
        digits_value(s.drop_last()) * 10 + digit_value(s.last())
    }
}

/// The digits of an unsigned number's text: the text without one leading `+`.
pub open spec fn unsigned_digits(s: Seq<char>) -> Seq<char> {
    if s.len() > 0 && s[0] == '+' {
        s.drop_first()
    } else {
        s
    }
}

/// The `u16` that the text `s` denotes: one optional `+` followed by at least
/// one decimal digit and nothing else, with a value that fits in 16 bits.
pub open spec fn parse_u16_text(s: Seq<char>) -> Option<u16> {
    let d = unsigned_digits(s);
    if d.len() > 0 && all_digits(d) && digits_value(d) <= u16::MAX {
        Some(digits_value(d) as u16)
    } else {
        None
    }
}

proof fn lemma_digits_push(s: Seq<char>, c: char)
    ensures
        digits_value(s.push(c)) == digits_value(s) * 10 + digit_value(c),
{
    assert(s.push(c).drop_last() =~= s);
}

/// Reads the text `s` as a `u16`, as `str::parse::<u16>` does.
pub fn parse_u16(s: &str) -> (r: Option<u16>)
    ensures
        r == parse_u16_text(s@),
{
    let n = s.unicode_len();
    let mut start: usize = 0;
    if n > 0 && s.get_char(0) == '+' {
        start = 1;
    }
    let ghost d = unsigned_digits(s@);
    assert(d =~= s@.subrange(start as int, n as int));
    if start == n {
        return None;
    }
    let mut acc: u32 = 0;
    let mut too_big = false;
    let mut i: usize = start;
    while i < n
        invariant
            n == s@.len(),
            start <= i <= n,
            d == s@.subrange(start as int, n as int),
            d == unsigned_digits(s@),
            all_digits(s@.subrange(start as int, i as int)),
            too_big ==> digits_value(s@.subrange(start as int, i as int)) > u16::MAX,
            !too_big ==> acc == digits_value(s@.subrange(start as int, i as int)) && acc
                <= u16::MAX,
        decreases n - i,
    {
        let c = s.get_char(i);
        if !('0' <= c && c <= '9') {
            assert(d[i - start] == c);
            assert(!is_digit(d[i - start]));
            return None;
        }
        proof {
            assert(s@.subrange(start as int, i + 1) =~= s@.subrange(start as int, i as int).push(
                c,
            ));
            lemma_digits_push(s@.subrange(start as int, i as int), c);
        }
        if !too_big {
            acc = acc * 10 + (c as u32 - '0' as u32);
            if acc > 65535 {
                too_big = true;
            }
        }
        i = i + 1;
    }
    if too_big {
        None
    } else {
        Some(acc as u16)
    }
}

/// The text of the decimal digit `d`.
pub open spec fn digit_char(d: nat) -> char {
    (d + '0' as int) as char
}

/// The decimal text of `n`, without leading zeros.
pub open spec fn decimal(n: nat) -> Seq<char>
    decreases n,
{
    if n < 10 {
        seq![digit_char(n)]
    } else {
        decimal(n / 10).push(digit_char(n % 10))
    }
}

proof fn lemma_digit_char(d: nat)
    requires
        d < 10,
    ensures
        is_digit(digit_char(d)),
        digit_value(digit_char(d)) == d,
{
    assert((d + '0' as int) as char as int == d + '0' as int);
}

proof fn lemma_decimal(n: nat)
    ensures
        decimal(n).len() > 0,
        all_digits(decimal(n)),
        digits_value(decimal(n)) == n,
        is_digit(decimal(n)[0]),
    decreases n,
{
    if n < 10 {
        lemma_digit_char(n);
        assert(decimal(n).drop_last() =~= Seq::<char>::empty());
        assert(digits_value(Seq::<char>::empty()) == 0);
    } else {
        lemma_digit_char(n % 10);
        lemma_decimal(n / 10);
        lemma_digits_push(decimal(n / 10), digit_char(n % 10));
        assert forall|i: int| 0 <= i < decimal(n).len() implies is_digit(#[trigger] decimal(n)[i]) by {
            if i < decimal(n / 10).len() {
                assert(decimal(n)[i] == decimal(n / 10)[i]);
            }
        }
    }
}

/// A port number written out in decimal is read back as that number.
pub proof fn law_parse_decimal(n: u16)
    ensures
        parse_u16_text(decimal(n as nat)) == Some(n),
{
    lemma_decimal(n as nat);
}

/// Decimal texts are written in base ten with the ASCII digits: a number
/// below ten is its one digit, and `10 * q + d` is the text of `q` followed
/// by the digit `d`.
pub proof fn law_decimal_text(q: nat, d: nat)
    requires
        d < 10,
    ensures
        decimal(d) == seq![(48 + d) as char],
        q > 0 ==> decimal(10 * q + d) == decimal(q).push((48 + d) as char),
{
    if q > 0 {
        assert((10 * q + d) / 10 == q);
        assert((10 * q + d) % 10 == d);
    }
}

/// Text is refused as a port number where it is empty, is a lone `+`, or
/// holds a character other than an ASCII digit anywhere but a leading `+`;
/// and a digit text that names more than 65535 is refused too.
pub proof fn law_parse_refuses(s: Seq<char>, i: int)
    ensures
        s.len() == 0 ==> parse_u16_text(s) is None,
        s == seq!['+'] ==> parse_u16_text(s) is None,
        0 <= i < s.len() && !('0' <= s[i] && s[i] <= '9') && !(i == 0 && s[i] == '+')
            ==> parse_u16_text(s) is None,
        parse_u16_text(s) matches Some(v) ==> v <= 65535,
{
    if 0 <= i < s.len() && !('0' <= s[i] && s[i] <= '9') && !(i == 0 && s[i] == '+') {
        let d = unsigned_digits(s);
        if s.len() > 0 && s[0] == '+' {
            assert(d[i - 1] == s[i]);
            assert(!is_digit(d[i - 1]));
        } else {
            assert(d[i] == s[i]);
            assert(!is_digit(d[i]));
        }
    }
}

/// The text the service reads a setting from: the setting's value, or `none`
/// where it is not set.
pub open spec fn setting_text(setting: Option<Seq<char>>) -> Seq<char> {
    match setting {
        Some(text) => text,
        None => "none"@,
    }
}

/// The port that the `PORT` setting names, if it names one.
pub open spec fn setting_port(setting: Option<String>) -> Option<u16> {
    parse_u16_text(setting_text(
        match setting {
            Some(s) => Some(s@),
            None => None,
        },
    ))
}

/// The text of the `PORT` setting, `none` where it is not set.
fn port_setting_text(setting: &Option<String>) -> (r: String)
    ensures
        r@ == setting_text(
            match *setting {
                Some(s) => Some(s@),
                None => None,
            },
        ),
{
    match setting {
        Some(s) => s.clone(),
        None => String::from_str("none"),
    }
}

/// Whether the `PORT` setting names a port; the service does not start
/// where it does not.
pub fn port_setting_valid(setting: &Option<String>) -> (r: bool)
    ensures
        r == setting_port(*setting) is Some,
        setting is None ==> !r,
{
    proof {
        reveal_strlit("none");
    }
    parse_u16(port_setting_text(setting).as_str()).is_some()
}

/// The port the service listens on, read from the `PORT` setting, which must
/// name a port: a missing setting or text that is no port number stops the
/// service before it starts.
pub fn parse_port(setting: Option<String>) -> (r: u16)
    requires
        setting_port(setting) is Some,
    ensures
        Some(r) == setting_port(setting),
{
    match parse_u16(port_setting_text(&setting).as_str()) {
        Some(port) => port,
        None => 0,
    }
}

// ---------------------------------------------------------------------------
// Choosing how much to log
// ---------------------------------------------------------------------------

/// How much the web server logs.
#[derive(Debug, Clone, Copy, PartialEq, Eq, Structural)]
pub enum LogLevel {
    /// Everything, including debugging output.
    Debug,
    /// The usual amount.
    Normal,
    /// Only critical failures.
    Critical,
    /// Nothing.
    Off,
}

/// The log level that the text of the `RUST_APP_LOG` setting selects.
pub open spec fn level_of(text: Seq<char>) -> LogLevel {
    if text == "debug"@ {
        LogLevel::Debug
    } else if text == "info"@ {
        LogLevel::Normal
    } else if text == "critical"@ {
        LogLevel::Critical
    } else {
        LogLevel::Off
    }
}

/// The log level of the web server, read from the `RUST_APP_LOG` setting:
/// `debug`, `info` and `critical` select a level, anything else turns
/// logging off.
pub fn parse_level(setting: Option<String>) -> (r: LogLevel)
    ensures
        r == level_of(setting_text(
            match setting {
                Some(s) => Some(s@),
                None => None,
            },
        )),
        setting is None ==> r == LogLevel::Off,
{
    let text = match setting {
        Some(s) => s,
        None => String::from_str("none"),
    };
    proof {
        reveal_strlit("none");
        reveal_strlit("debug");
        reveal_strlit("info");
        reveal_strlit("critical");
        assert("none"@[0] != "info"@[0]);
        assert("none"@.len() != "debug"@.len());
        assert("none"@.len() != "critical"@.len());
    }
    let text = text.as_str();
    if crate::text::same_text(text, "debug") {
        LogLevel::Debug
    } else if crate::text::same_text(text, "info") {
        LogLevel::Normal
    } else if crate::text::same_text(text, "critical") {
        LogLevel::Critical
    } else {
        LogLevel::Off
    }
}

// ---------------------------------------------------------------------------
// Checking the driver's version
// ---------------------------------------------------------------------------

/// The major version of the driver this service works with.
pub const COMPATIBLE_MAJOR: u16 = 0;

/// The least minor version of the driver this service works with.
pub const COMPATIBLE_MINOR: u16 = 9;

/// Why the service refuses to start.
#[derive(Debug, Clone, Copy, PartialEq, Eq, Structural)]
pub enum VersionError {
    /// No connection to the driver could be made.
    DriverUnreachable,
    /// The driver did not report its information.
    InfoUnavailable,
    /// The driver's major version differs from the compatible one.
    IncompatibleMajor,
    /// The driver's minor version is older than the compatible one.
    IncompatibleMinor,
}

impl VersionError {
    /// The text that reports this error.
    pub open spec fn spec_message(self) -> Seq<char> {
        match self {
            VersionError::DriverUnreachable => "Could not connect to driver"@,
            VersionError::InfoUnavailable => "Failed getting device info"@,
            VersionError::IncompatibleMajor => "Driver version incompatible (major)"@,
            VersionError::IncompatibleMinor => "Driver version incompatible (minor)"@,
        }
    }

    /// The text that reports this error.
    pub fn message(&self) -> (m: String)
        ensures
            m@ == self.spec_message(),
    {
        match self {
            VersionError::DriverUnreachable => String::from_str("Could not connect to driver"),
            VersionError::InfoUnavailable => String::from_str("Failed getting device info"),
            VersionError::IncompatibleMajor => String::from_str(
                "Driver version incompatible (major)",
            ),
            VersionError::IncompatibleMinor => String::from_str(
                "Driver version incompatible (minor)",
            ),
        }
    }
}

/// Whether the driver's version `major.minor` suits this service: the major
/// version must be the compatible one and the minor version at least the
/// compatible one.
pub fn check_version(major: u16, minor: u16) -> (r: Result<(), VersionError>)
    ensures
        major != COMPATIBLE_MAJOR ==> r == Err::<(), VersionError>(VersionError::IncompatibleMajor),
        major == COMPATIBLE_MAJOR && minor < COMPATIBLE_MINOR ==> r == Err::<(), VersionError>(
            VersionError::IncompatibleMinor,
        ),
        major == COMPATIBLE_MAJOR && minor >= COMPATIBLE_MINOR ==> r == Ok::<(), VersionError>(()),
{
    if major != COMPATIBLE_MAJOR {
        return Err(VersionError::IncompatibleMajor);
    }
    if minor < COMPATIBLE_MINOR {
        return Err(VersionError::IncompatibleMinor);
    }
    Ok(())
}

/// The log level setting: exactly `debug` selects debugging output, exactly
/// `info` the usual amount, exactly `critical` critical failures only; any
/// other text turns logging off.
pub proof fn law_log_levels(text: Seq<char>)
    ensures
        level_of(text) == LogLevel::Debug <==> text == "debug"@,
        level_of(text) == LogLevel::Normal <==> text == "info"@,
        level_of(text) == LogLevel::Critical <==> text == "critical"@,
        level_of(text) == LogLevel::Off <==> (text != "debug"@ && text != "info"@ && text
            != "critical"@),
{
    reveal_strlit("debug");
    reveal_strlit("info");
    reveal_strlit("critical");
    assert("debug"@.len() != "info"@.len());
    assert("debug"@.len() != "critical"@.len());
    assert("info"@.len() != "critical"@.len());
}

/// The version rule and its texts: a driver `major.minor` is accepted
/// exactly when the major version is 0 and the minor version at least 9; a
/// different major version is reported as "Driver version incompatible
/// (major)", an older minor one as "Driver version incompatible (minor)".
pub proof fn law_version_rule(major: u16, minor: u16)
    ensures
        version_verdict(major, minor) is Ok <==> (major == 0 && minor >= 9),
        major != 0 ==> version_verdict(major, minor) == Err::<(), VersionError>(
            VersionError::IncompatibleMajor,
        ),
        major == 0 && minor < 9 ==> version_verdict(major, minor) == Err::<(), VersionError>(
            VersionError::IncompatibleMinor,
        ),
        VersionError::DriverUnreachable.spec_message() == "Could not connect to driver"@,
        VersionError::InfoUnavailable.spec_message() == "Failed getting device info"@,
        VersionError::IncompatibleMajor.spec_message() == "Driver version incompatible (major)"@,
        VersionError::IncompatibleMinor.spec_message() == "Driver version incompatible (minor)"@,
{
}

/// What comes next in the check of the driver's version.
#[derive(Debug, Clone, Copy, PartialEq, Eq, Structural)]
pub enum VersionPhase {
    /// Waiting for the connection to the driver.
    Connecting,
    /// Waiting for the driver's information.
    AskingInfo,
    /// Decided.
    Done,
}

/// The outcome of a piece of outside work of the version check.
#[derive(Debug, Clone, Copy, PartialEq, Eq)]
pub enum VersionEvent {
    /// Whether the connection to the driver was made.
    Connected(bool),
    /// The driver's version `(major, minor)`, or `None` where it did not report
    /// its information.
    Info(Option<(u16, u16)>),
}

/// What the caller does next.
#[derive(Debug, Clone, Copy, PartialEq, Eq)]
pub enum VersionAction {
    /// Ask the driver for its information.
    AskInfo,
    /// The check is decided: the service starts on `Ok` and stops on `Err`.
    Finish(Result<(), VersionError>),
}

/// The verdict on the driver's version `major.minor`.
pub open spec fn version_verdict(major: u16, minor: u16) -> Result<(), VersionError> {
    if major != COMPATIBLE_MAJOR {
        Err(VersionError::IncompatibleMajor)
    } else if minor < COMPATIBLE_MINOR {
        Err(VersionError::IncompatibleMinor)
    } else {
        Ok(())
    }
}

/// The course of the driver's version check: the connection, then the
/// driver's information, then the comparison. A new check waits for the
/// connection; `step` alone moves it on.
#[derive(Debug)]
pub struct VersionCheck {
    phase: VersionPhase,
}

impl View for VersionCheck {
    type V = VersionPhase;

    closed spec fn view(&self) -> VersionPhase {
        self.phase
    }
}

impl VersionCheck {
    /// A new check; its first step is to connect to the driver.
    pub fn new() -> (r: Self)
        ensures
            r@ == VersionPhase::Connecting,
    {
        VersionCheck { phase: VersionPhase::Connecting }
    }

    /// How far the check has come.
    pub fn phase(&self) -> (p: VersionPhase)
        ensures
            p == self@,
    {
        self.phase
    }

    /// Takes the outcome `event` and says what comes next: a failed
    /// connection stops the service as unreachable, without asking for the
    /// information; missing information stops it without comparing; otherwise
    /// the version is compared.
    pub fn step(&mut self, event: VersionEvent) -> (action: VersionAction)
        requires
            old(self)@ == VersionPhase::Connecting ==> event is Connected,
            old(self)@ == VersionPhase::AskingInfo ==> event is Info,
            old(self)@ != VersionPhase::Done,
        ensures
            event == VersionEvent::Connected(false) ==> final(self)@ == VersionPhase::Done
                && action == VersionAction::Finish(Err(VersionError::DriverUnreachable)),
            event == VersionEvent::Connected(true) ==> final(self)@ == VersionPhase::AskingInfo
                && action == VersionAction::AskInfo,
            event == VersionEvent::Info(None) ==> final(self)@ == VersionPhase::Done && action
                == VersionAction::Finish(Err(VersionError::InfoUnavailable)),
            event matches VersionEvent::Info(Some((major, minor))) ==> final(self)@
                == VersionPhase::Done && action == VersionAction::Finish(
                version_verdict(major, minor),
            ),
    {
        match event {
            VersionEvent::Connected(false) => {
                self.phase = VersionPhase::Done;
                VersionAction::Finish(Err(VersionError::DriverUnreachable))
            },
            VersionEvent::Connected(true) => {
                self.phase = VersionPhase::AskingInfo;
                VersionAction::AskInfo
            },
            VersionEvent::Info(None) => {
                self.phase = VersionPhase::Done;
                VersionAction::Finish(Err(VersionError::InfoUnavailable))
            },
            VersionEvent::Info(Some((major, minor))) => {
                self.phase = VersionPhase::Done;
                VersionAction::Finish(check_version(major, minor))
            },
        }
    }
}

} // verus!
