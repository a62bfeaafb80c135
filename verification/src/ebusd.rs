//! The line protocol of ebusd, the daemon that talks to the heater.
use crate::heater::{self, HeaterMode, HeaterSettings};
use crate::text;
use vstd::prelude::*;

verus! {

/// The definition of the message that carries the heater settings.
pub const SET_MODE_DEFINITION: &'static str =
    "wi,BAI,SetModeOverride,OperatingMode,,08,B510,00,hcmode,,UCH,,,,flowtempdesired,,D1C,,,,hwctempdesired,,D1C,,,,hwcflowtempdesired,,UCH,,,,setmode1,,UCH,,,,disablehc,,BI0,,,,disablehwctapping,,BI1,,,,disablehwcload,,BI2,,,,setmode2,,UCH,,,,remoteControlHcPump,,BI0,,,,releaseBackup,,BI1,,,,releaseCooling,,BI2";

/// How much of a reply is read.
pub const REPLY_SIZE: usize = 1024;

/// The daemon at an endpoint.
#[derive(Debug, PartialEq, Eq)]
pub struct Ebusd {
    pub endpoint: String,
}

/// The command that (re)defines a message.
pub open spec fn define_command(message_definition: Seq<char>) -> Seq<char> {
    "define -r "@ + message_definition + "\n\n"@
}

/// The command that asks the heater for settings.
pub open spec fn set_mode_command(settings: HeaterSettings) -> Seq<char> {
    "w -c bai SetModeOverride "@ + settings.cmd_arg() + "\n\n"@
}

/// What a reply says: nothing where the daemon has done what it was asked,
/// else what went wrong. A reply that is no text is an error of its own; any
/// other is a success exactly if it holds the word "done".
pub open spec fn reply_error(reply: Seq<u8>) -> Option<Seq<char>> {
    if !vstd::utf8::valid_utf8(reply) {
        Some(text::utf8_error_text(reply))
    } else {
        text_error(vstd::utf8::decode_utf8(reply))
    }
}

/// What a reply in text says: nothing where the daemon has done what it was
/// asked, else the reply without the white space round it.
pub open spec fn text_error(reply: Seq<char>) -> Option<Seq<char>> {
    if text::occurs_in("done"@, text::trimmed(reply)) {
        None
    } else {
        Some(text::trimmed(reply))
    }
}

impl Ebusd {
    /// The daemon at `endpoint`.
    pub fn new(endpoint: String) -> (ebusd: Ebusd)
        ensures
            ebusd.endpoint@ == endpoint@,
    {
        Ebusd { endpoint }
    }

    /// The command that defines a message, in place of an earlier definition.
    pub fn define_message(message_definition: &str) -> (command: String)
        ensures
            command@ == define_command(message_definition@),
    {
        let mut command = "define -r ".to_string();
        command.append(message_definition);
        command.append("\n\n");
        command
    }

    /// The command that asks the heater for `settings`.
    pub fn set_mode(settings: HeaterSettings) -> (command: String)
        ensures
            command@ == set_mode_command(settings),
    {
        let arg = settings.into_cmd_arg();
        let mut command = "w -c bai SetModeOverride ".to_string();
        command.append(arg.as_str());
        command.append("\n\n");
        command
    }

    /// What the daemon's reply to a command says.
    pub fn read_reply(reply: Vec<u8>) -> (outcome: Result<(), String>)
        ensures
            match outcome {
                Ok(_) => reply_error(reply@) is None,
                Err(e) => reply_error(reply@) == Some(e@),
            },
    {
        match text::utf8_text(reply) {
            Ok(text) => Ebusd::read_text_reply(text.as_str()),
            Err(error) => Err(error),
        }
    }

    /// What a reply in text says.
    pub fn read_text_reply(reply: &str) -> (outcome: Result<(), String>)
        ensures
            match outcome {
                Ok(_) => text_error(reply@) is None,
                Err(e) => text_error(reply@) == Some(e@),
            },
    {
        let result = text::trim(reply);
        if text::contains(result.as_str(), "done") {
            Ok(())
        } else {
            Err(result)
        }
    }
}

// ---------------------------------------------------------------------------
// Laws
// ---------------------------------------------------------------------------

/// Two texts with the same head and the same tail are equal only if what stands
/// between is.
proof fn lemma_between(head: Seq<char>, a: Seq<char>, b: Seq<char>, tail: Seq<char>)
    requires
        head + a + tail == head + b + tail,
    ensures
        a == b,
{
    let x = head + a + tail;
    let y = head + b + tail;
    assert(x.len() == y.len());
    assert(a.len() == b.len());
    assert(x.subrange(head.len() as int, (head.len() + a.len()) as int) =~= a);
    assert(y.subrange(head.len() as int, (head.len() + b.len()) as int) =~= b);
}

/// The command for settings is the name of the message, twelve values between
/// semicolons, and an empty line. Among the values stand the flow temperature
/// and the tap water temperature of these very settings.
pub proof fn law_set_mode_values(settings: HeaterSettings) -> (arg: Seq<char>)
    ensures
        set_mode_command(settings) == "w -c bai SetModeOverride "@ + arg + "\n\n"@,
        ({
            let values = text::split_on(arg, ';');
            &&& values.len() == 12
            &&& settings.hc_mode is OFF ==> values[0] == "off"@
            &&& settings.hc_mode !is OFF ==> values[0] == "0"@
            &&& values[1] == text::decimal(settings.flow_temp_desired as nat)
            &&& values[2] == text::decimal(settings.hwc_temp_desired as nat)
            &&& settings.hwc_flow_temp_desired is None ==> values[3] == "-"@
            &&& settings.hwc_flow_temp_desired matches Some(v) ==> values[3] == text::decimal(
                v as nat,
            )
            &&& values[4] == "-"@
            &&& settings.disable_hc ==> values[5] == "1"@
            &&& !settings.disable_hc ==> values[5] == "0"@
            &&& values[6] == "0"@
            &&& settings.disable_hwc_load ==> values[7] == "1"@
            &&& !settings.disable_hwc_load ==> values[7] == "0"@
            &&& values[8] == "-"@
            &&& values[9] == "0"@ && values[10] == "0"@ && values[11] == "0"@
        }),
{
    heater::law_cmd_arg_values(settings);
    settings.cmd_arg()
}

/// Equal commands come only from equal settings, except that a command does not
/// tell the modes AUTO and HEAT apart.
pub proof fn law_set_mode_tells_settings(a: HeaterSettings, b: HeaterSettings)
    requires
        set_mode_command(a) == set_mode_command(b),
    ensures
        a == (HeaterSettings { hc_mode: a.hc_mode, ..b }),
        a.hc_mode is OFF <==> b.hc_mode is OFF,
{
    lemma_between("w -c bai SetModeOverride "@, a.cmd_arg(), b.cmd_arg(), "\n\n"@);
    heater::law_cmd_arg_tells_settings(a, b);
}

/// AUTO and HEAT ask the heater for the same.
pub proof fn law_auto_is_heat(settings: HeaterSettings)
    ensures
        set_mode_command(HeaterSettings { hc_mode: HeaterMode::AUTO, ..settings })
            == set_mode_command(HeaterSettings { hc_mode: HeaterMode::HEAT, ..settings }),
{
    let auto = HeaterSettings { hc_mode: HeaterMode::AUTO, ..settings };
    let heat = HeaterSettings { hc_mode: HeaterMode::HEAT, ..settings };
    assert(auto.cmd_fields() =~= heat.cmd_fields());
}

/// A definition is sent as it stands, between the command and an empty line, so
/// two definitions never make the same command.
pub proof fn law_define(a: Seq<char>, b: Seq<char>)
    ensures
        define_command(a) == "define -r "@ + a + "\n\n"@,
        define_command(a) == define_command(b) ==> a == b,
{
    if define_command(a) == define_command(b) {
        lemma_between("define -r "@, a, b, "\n\n"@);
    }
}

/// The message SetModeOverride carries twelve values: the mode, three
/// temperatures, two set mode bytes, and six flags in two groups of three bits.
pub proof fn law_definition()
    ensures
        SET_MODE_DEFINITION@
            == "wi,BAI,SetModeOverride,OperatingMode,,08,B510,00,hcmode,,UCH,,,,flowtempdesired,,D1C,,,,hwctempdesired,,D1C,,,,hwcflowtempdesired,,UCH,,,,setmode1,,UCH,,,,disablehc,,BI0,,,,disablehwctapping,,BI1,,,,disablehwcload,,BI2,,,,setmode2,,UCH,,,,remoteControlHcPump,,BI0,,,,releaseBackup,,BI1,,,,releaseCooling,,BI2"@,
{
}

/// The daemon has done what it was asked exactly if the word done stands
/// anywhere in its reply.
pub proof fn law_done(reply: Seq<char>)
    ensures
        text_error(reply) is None <==> exists|a: Seq<char>, b: Seq<char>|
            reply == #[trigger] (a + "done"@ + b),
{
    reveal_strlit("done");
    text::law_trimmed_holds("done"@, reply);
    text::law_occurs("done"@, reply);
}

/// Else what went wrong is the whole reply but for white space at its ends.
pub proof fn law_complaint(reply: Seq<char>) -> (ends: (Seq<char>, Seq<char>))
    requires
        text_error(reply) is Some,
    ensures
        reply == ends.0 + text_error(reply)->0 + ends.1,
        text::blank(ends.0),
        text::blank(ends.1),
        text_error(reply)->0.len() > 0 ==> !text::white_space(text_error(reply)->0[0])
            && !text::white_space(text_error(reply)->0.last()),
{
    text::law_trimmed_ends(reply);
    text::law_trimmed(reply)
}

/// A reply in bytes says what its text says; bytes that are no text are an error
/// of their own.
pub proof fn law_reply_bytes(reply: Seq<u8>)
    ensures
        vstd::utf8::valid_utf8(reply) ==> reply_error(reply) == text_error(
            vstd::utf8::decode_utf8(reply),
        ),
        !vstd::utf8::valid_utf8(reply) ==> reply_error(reply) == Some(
            text::utf8_error_text(reply),
        ),
{
}

} // verus!
