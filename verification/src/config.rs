//! Board configuration: the typed model of the JSON document, the conversion
//! of the raw deserialized forms into ports and module slots, and the range
//! checks that a config must pass before the board boots with it.

use vstd::prelude::*;

use crate::{MAX_PIXELS, MAX_UNIVERSES};

verus! {

/// Maximum number of audio files a config may list.
pub const MAX_AUDIO_FILES: usize = 10;

/// Maximum length, in bytes, of one audio file name.
pub const MAX_FILENAME_LEN: usize = 24;

/// Error from parsing or validating a board config document.
#[derive(Clone, Copy, PartialEq, Eq, Debug)]
pub enum ConfigError {
    /// Text (after comment stripping) didn't fit in `MAX_CONFIG_LEN`.
    TooLarge,
    /// A `/* ... */` block comment was never closed.
    BadBlockComment,
    /// The document could not be deserialized.
    Parse,
    /// Deserialized, but a value is out of range. Payload names the field.
    Invalid(&'static str),
}

} // verus!

verus! {

// =========================================================================
// INPUT & MASTER OUTPUT SETTINGS
// =========================================================================

/// Where the board takes its DMX data from.
#[allow(non_camel_case_types)]
#[derive(Clone, Copy, PartialEq, Eq, Debug)]
pub enum InputProtocol {
    Dmx,
    Artnet,
    sACN,
    Sd,
}

#[derive(Clone, Copy, PartialEq, Eq, Debug)]
pub struct InputConfig {
    pub source: InputProtocol,
}

#[derive(Clone, Copy, PartialEq, Eq, Debug)]
pub struct DmxOutputConfig {
    pub universe: u16,
}

// =========================================================================
// NEOPIXEL PROTOCOLS & ORDERS
// =========================================================================

#[derive(Clone, Copy, PartialEq, Eq, Debug)]
pub enum LedProtocol {
    Ws2812,
    Sk6812,
}

/// Order in which a strip expects the color bytes of one pixel on the wire.
#[derive(Clone, Copy, PartialEq, Eq, Debug)]
pub enum ColorOrder {
    Rgb,
    Rbg,
    Grb,
    Gbr,
    Brg,
    Bgr,
    Rgbw,
    Grbw,
}

/// Wire-order indices into a logical `[r, g, b, w]` source.
pub open spec fn color_order_perm(order: ColorOrder) -> Seq<u8> {
    match order {
        ColorOrder::Rgb => seq![0u8, 1u8, 2u8],
        ColorOrder::Rbg => seq![0u8, 2u8, 1u8],
        ColorOrder::Grb => seq![1u8, 0u8, 2u8],
        ColorOrder::Gbr => seq![1u8, 2u8, 0u8],
        ColorOrder::Brg => seq![2u8, 0u8, 1u8],
        ColorOrder::Bgr => seq![2u8, 1u8, 0u8],
        ColorOrder::Rgbw => seq![0u8, 1u8, 2u8, 3u8],
        ColorOrder::Grbw => seq![1u8, 0u8, 2u8, 3u8],
    }
}

impl ColorOrder {
    /// Wire-order indices into a logical `[r, g, b, w]` source. Length is 3 for
    /// an RGB strip, 4 for RGBW - this is also how the strip's bit width is
    /// decided.
    pub fn perm(self) -> (p: &'static [u8])
        ensures
            p@ == color_order_perm(self),
    {
        match self {
            ColorOrder::Rgb => &[0, 1, 2],
            ColorOrder::Rbg => &[0, 2, 1],
            ColorOrder::Grb => &[1, 0, 2],
            ColorOrder::Gbr => &[1, 2, 0],
            ColorOrder::Brg => &[2, 0, 1],
            ColorOrder::Bgr => &[2, 1, 0],
            ColorOrder::Rgbw => &[0, 1, 2, 3],
            ColorOrder::Grbw => &[1, 0, 2, 3],
        }
    }
}

} // verus!

verus! {

#[derive(Clone, Copy, PartialEq, Eq, Debug)]
pub enum NeoMode {
    SolidColor,
    Generator2D,
    Raw,
}

// =========================================================================
// PORTS
// =========================================================================

/// An LED output that is in use.
#[derive(Clone, Copy, PartialEq, Eq, Debug)]
pub struct EnabledPort {
    pub protocol: LedProtocol,
    pub color_order: ColorOrder,
    pub pixel_count: usize,
    pub universe: u16,
    pub start_channel: u16,
    pub mode: NeoMode,
}

#[derive(Clone, Copy, PartialEq, Eq, Debug)]
pub enum Port {
    Enabled(EnabledPort),
    Disabled { disabled: bool },
}

/// A port as it appears in the document: every key optional.
#[derive(Clone, Copy, PartialEq, Eq, Debug)]
pub struct RawPort {
    pub disabled: Option<bool>,
    pub protocol: Option<LedProtocol>,
    pub color_order: Option<ColorOrder>,
    pub pixel_count: Option<usize>,
    pub universe: Option<u16>,
    pub start_channel: Option<u16>,
    pub mode: Option<NeoMode>,
}

/// The port a raw port stands for, or the name of the first required key
/// that is missing.
pub open spec fn port_from_raw_spec(raw: RawPort) -> Result<Port, &'static str> {
    if raw.disabled == Some(true) {
        Ok(Port::Disabled { disabled: true })
    } else if raw.protocol is None {
        Err("protocol")
    } else if raw.color_order is None {
        Err("color_order")
    } else if raw.pixel_count is None {
        Err("pixel_count")
    } else if raw.universe is None {
        Err("universe")
    } else if raw.start_channel is None {
        Err("start_channel")
    } else if raw.mode is None {
        Err("mode")
    } else {
        Ok(
            Port::Enabled(
                EnabledPort {
                    protocol: raw.protocol->0,
                    color_order: raw.color_order->0,
                    pixel_count: raw.pixel_count->0,
                    universe: raw.universe->0,
                    start_channel: raw.start_channel->0,
                    mode: raw.mode->0,
                },
            ),
        )
    }
}

impl Port {
    /// Builds a port from its raw form: `disabled: true` wins over everything
    /// else; an enabled port needs every key.
    pub fn from_raw(raw: RawPort) -> (r: Result<Port, &'static str>)
        ensures
            r == port_from_raw_spec(raw),
    {
        if let Some(true) = raw.disabled {
            return Ok(Port::Disabled { disabled: true });
        }
        let protocol = match raw.protocol {
            Some(v) => v,
            None => return Err("protocol"),
        };
        let color_order = match raw.color_order {
            Some(v) => v,
            None => return Err("color_order"),
        };
        let pixel_count = match raw.pixel_count {
            Some(v) => v,
            None => return Err("pixel_count"),
        };
        let universe = match raw.universe {
            Some(v) => v,
            None => return Err("universe"),
        };
        let start_channel = match raw.start_channel {
            Some(v) => v,
            None => return Err("start_channel"),
        };
        let mode = match raw.mode {
            Some(v) => v,
            None => return Err("mode"),
        };
        Ok(Port::Enabled(EnabledPort { protocol, color_order, pixel_count, universe, start_channel, mode }))
    }
}

} // verus!

verus! {

// =========================================================================
// MODULE SETTINGS
// =========================================================================

#[derive(Clone, Copy, PartialEq, Eq, Debug)]
pub struct NeoConfig {
    pub ports: [Port; 4],
}

#[derive(Clone, Copy, PartialEq, Eq, Debug)]
pub struct DimmerConfig {
    pub universe: u16,
    pub start_channel: u16,
    /// Per-output (out0..out3, reading `start_channel + i`): `true` = binary,
    /// full-on above DMX 127 and off below; `false` = linear dim. Defaults to
    /// all-linear when the `binary` key is omitted.
    pub binary: [bool; 4],
}

#[derive(Clone, Copy, PartialEq, Eq, Debug)]
pub struct FogMachineConfig {
    pub universe: u16,
    pub start_channel: u16,
}

#[derive(Clone, Copy, PartialEq, Eq, Debug)]
pub struct AudioAmpConfig {
    pub universe: u16,
    pub start_channel: u16,
}

#[derive(Clone, Copy, PartialEq, Eq, Debug)]
pub struct RfidConfig {
    pub universe: u16,
    pub start_channel: u16,
}

/// What is plugged into one of the four module slots.
#[derive(Clone, Copy, PartialEq, Eq, Debug)]
pub enum ModuleSlot {
    Neo(NeoConfig),
    Dimmer(DimmerConfig),
    FogMachine(FogMachineConfig),
    AudioAmp(AudioAmpConfig),
    Rfid(RfidConfig),
    Disabled { disabled: bool },
}

/// The `type` key of a module slot.
#[derive(Clone, Copy, PartialEq, Eq, Debug)]
pub enum ModuleType {
    Neo,
    Dimmer,
    FogMachine,
    AudioAmp,
    Rfid,
}

/// A module slot as it appears in the document: every key optional.
#[derive(Clone, Copy, PartialEq, Eq, Debug)]
pub struct RawModuleSlot {
    pub module_type: Option<ModuleType>,
    pub disabled: Option<bool>,
    pub ports: Option<[Port; 4]>,
    pub universe: Option<u16>,
    pub start_channel: Option<u16>,
    pub binary: Option<[bool; 4]>,
}

/// The `(universe, start_channel)` pair a slot type needs, or the first of
/// the two keys that is missing.
pub open spec fn raw_address_spec(raw: RawModuleSlot) -> Result<(u16, u16), &'static str> {
    if raw.universe is None {
        Err("universe")
    } else if raw.start_channel is None {
        Err("start_channel")
    } else {
        Ok((raw.universe->0, raw.start_channel->0))
    }
}

/// The module slot a raw slot stands for, or the name of the first required
/// key that is missing.
pub open spec fn module_slot_from_raw_spec(raw: RawModuleSlot) -> Result<ModuleSlot, &'static str> {
    if raw.disabled == Some(true) {
        Ok(ModuleSlot::Disabled { disabled: true })
    } else {
        match raw.module_type {
            None => Err("type"),
            Some(ModuleType::Neo) => match raw.ports {
                None => Err("ports"),
                Some(ports) => Ok(ModuleSlot::Neo(NeoConfig { ports })),
            },
            Some(t) => match raw_address_spec(raw) {
                Err(e) => Err(e),
                Ok((universe, start_channel)) => Ok(
                    match t {
                        ModuleType::Dimmer => ModuleSlot::Dimmer(
                            DimmerConfig {
                                universe,
                                start_channel,
                                binary: match raw.binary {
                                    Some(b) => b,
                                    None => [false, false, false, false],
                                },
                            },
                        ),
                        ModuleType::FogMachine => ModuleSlot::FogMachine(
                            FogMachineConfig { universe, start_channel },
                        ),
                        ModuleType::AudioAmp => ModuleSlot::AudioAmp(
                            AudioAmpConfig { universe, start_channel },
                        ),
                        _ => ModuleSlot::Rfid(RfidConfig { universe, start_channel }),
                    },
                ),
            },
        }
    }
}

fn raw_address(raw: &RawModuleSlot) -> (r: Result<(u16, u16), &'static str>)
    ensures
        r == raw_address_spec(*raw),
{
    let universe = match raw.universe {
        Some(v) => v,
        None => return Err("universe"),
    };
    let start_channel = match raw.start_channel {
        Some(v) => v,
        None => return Err("start_channel"),
    };
    Ok((universe, start_channel))
}

impl ModuleSlot {
    /// Builds a module slot from its raw form: `disabled: true` wins over
    /// everything else; otherwise `type` picks the keys that are required.
    /// A dimmer without `binary` is all-linear.
    pub fn from_raw(raw: RawModuleSlot) -> (r: Result<ModuleSlot, &'static str>)
        ensures
            r == module_slot_from_raw_spec(raw),
    {
        if let Some(true) = raw.disabled {
            return Ok(ModuleSlot::Disabled { disabled: true });
        }
        let module_type = match raw.module_type {
            Some(t) => t,
            None => return Err("type"),
        };
        match module_type {
            ModuleType::Neo => match raw.ports {
                Some(ports) => Ok(ModuleSlot::Neo(NeoConfig { ports })),
                None => Err("ports"),
            },
            ModuleType::Dimmer => {
                let (universe, start_channel) = raw_address(&raw)?;
                let binary = match raw.binary {
                    Some(b) => b,
                    None => [false, false, false, false],
                };
                Ok(ModuleSlot::Dimmer(DimmerConfig { universe, start_channel, binary }))
            },
            ModuleType::FogMachine => {
                let (universe, start_channel) = raw_address(&raw)?;
                Ok(ModuleSlot::FogMachine(FogMachineConfig { universe, start_channel }))
            },
            ModuleType::AudioAmp => {
                let (universe, start_channel) = raw_address(&raw)?;
                Ok(ModuleSlot::AudioAmp(AudioAmpConfig { universe, start_channel }))
            },
            ModuleType::Rfid => {
                let (universe, start_channel) = raw_address(&raw)?;
                Ok(ModuleSlot::Rfid(RfidConfig { universe, start_channel }))
            },
        }
    }
}

#[derive(Clone, Copy, PartialEq, Eq, Debug)]
pub struct ModuleContainer {
    pub slot_a: ModuleSlot,
    pub slot_b: ModuleSlot,
    pub slot_c: ModuleSlot,
    pub slot_d: ModuleSlot,
}

/// Short label of a slot's module, as printed in the boot banner.
pub open spec fn module_label(slot: ModuleSlot) -> &'static str {
    match slot {
        ModuleSlot::Neo(_) => "Neo",
        ModuleSlot::Dimmer(_) => "Dimmer",
        ModuleSlot::FogMachine(_) => "Fog",
        ModuleSlot::AudioAmp(_) => "Amp",
        ModuleSlot::Rfid(_) => "RFID",
        ModuleSlot::Disabled { .. } => "X",
    }
}

/// Short label of a slot's module, as printed in the boot banner.
pub fn get_module_str(module_slot: ModuleSlot) -> (s: &'static str)
    ensures
        s == module_label(module_slot),
{
    match module_slot {
        ModuleSlot::Neo(_) => "Neo",
        ModuleSlot::Dimmer(_) => "Dimmer",
        ModuleSlot::FogMachine(_) => "Fog",
        ModuleSlot::AudioAmp(_) => "Amp",
        ModuleSlot::Rfid(_) => "RFID",
        ModuleSlot::Disabled { .. } => "X",
    }
}

/// Name of an input source, as printed in the boot banner.
pub open spec fn input_label(p: InputProtocol) -> &'static str {
    match p {
        InputProtocol::Dmx => "DMX",
        InputProtocol::Artnet => "Art-Net",
        InputProtocol::sACN => "sACN",
        InputProtocol::Sd => "SD Card",
    }
}

/// Name of an input source, as printed in the boot banner.
pub fn input_str(p: InputProtocol) -> (s: &'static str)
    ensures
        s == input_label(p),
{
    match p {
        InputProtocol::Dmx => "DMX",
        InputProtocol::Artnet => "Art-Net",
        InputProtocol::sACN => "sACN",
        InputProtocol::Sd => "SD Card",
    }
}

} // verus!

verus! {

#[verifier::external_type_specification]
#[verifier::external_body]
pub struct ExIpAddr(core::net::IpAddr);

#[verifier::external_type_specification]
#[verifier::external_body]
#[verifier::reject_recursive_types(T)]
pub struct ExHeaplessVec<T, const N: usize>(heapless::Vec<T, N>);

/// `Clone` for `heapless::Vec` (clones element by element); used by the
/// derived `Clone` of the audio settings. Nothing is claimed of the copy.
pub assume_specification<T, const N: usize>[<heapless::Vec<T, N> as Clone>::clone](
    v: &heapless::Vec<T, N>,
) -> heapless::Vec<T, N>
    where
        T: Clone,
;

// =========================================================================
// AUDIO (DMX-TRIGGERED MP3 PLAYBACK)
// =========================================================================

#[derive(Clone, PartialEq, Debug)]
pub struct AudioConfig {
    pub universe: u16,
    pub start_channel: u16,
    pub files: heapless::Vec<heapless::String<MAX_FILENAME_LEN>, MAX_AUDIO_FILES>,
}

/// The show-control PC that receives sensor updates.
#[derive(Clone, Copy, PartialEq, Debug)]
pub struct Chataigne {
    pub ip: core::net::IpAddr,
    pub port: u16,
}

// =========================================================================
// ROOT CONFIGURATION
// =========================================================================

#[derive(Clone, PartialEq, Debug)]
pub struct BoardInstanceConfig {
    pub input: InputConfig,
    pub chataigne: Chataigne,
    pub dmx_output: DmxOutputConfig,
    pub audio: AudioConfig,
    pub modules: ModuleContainer,
}

/// A 1-based universe that the board stores.
pub open spec fn universe_ok(u: u16) -> bool {
    1 <= u && u as int <= MAX_UNIVERSES as int
}

/// A 1-based DMX channel.
pub open spec fn channel_ok(c: u16) -> bool {
    1 <= c <= 512
}

/// The first range violation of an LED port, if any.
pub open spec fn port_violation(port: Port) -> Option<&'static str> {
    match port {
        Port::Enabled(p) => if p.pixel_count > MAX_PIXELS {
            Some("neo port pixel_count exceeds MAX_PIXELS")
        } else if !universe_ok(p.universe) {
            Some("neo port universe out of range (expected 1..=MAX_UNIVERSES)")
        } else if !channel_ok(p.start_channel) {
            Some("neo port start_channel out of range (expected 1..=512)")
        } else {
            None
        },
        Port::Disabled { .. } => None,
    }
}

/// The first range violation among ports `i..4`, in port order.
pub open spec fn ports_violation_from(ports: [Port; 4], i: int) -> Option<&'static str>
    decreases 4 - i,
{
    if i < 0 || i >= 4 {
        None
    } else {
        match port_violation(ports@[i]) {
            Some(m) => Some(m),
            None => ports_violation_from(ports, i + 1),
        }
    }
}

/// The first range violation of a module slot, if any.
pub open spec fn slot_violation(slot: ModuleSlot) -> Option<&'static str> {
    match slot {
        ModuleSlot::Neo(neo) => ports_violation_from(neo.ports, 0),
        ModuleSlot::Dimmer(d) => if !universe_ok(d.universe) {
            Some("dimmer universe out of range (expected 1..=MAX_UNIVERSES)")
        } else if !channel_ok(d.start_channel) {
            Some("dimmer start_channel out of range (expected 1..=512)")
        } else {
            None
        },
        _ => None,
    }
}

/// The first range violation of a whole config, in the order the checks run:
/// DMX output, audio, then slots A to D.
pub open spec fn config_violation(config: BoardInstanceConfig) -> Option<&'static str> {
    if !universe_ok(config.dmx_output.universe) {
        Some("dmx_output universe out of range (expected 1..=MAX_UNIVERSES)")
    } else if !universe_ok(config.audio.universe) {
        Some("audio universe out of range (expected 1..=MAX_UNIVERSES)")
    } else if !channel_ok(config.audio.start_channel) {
        Some("audio start_channel out of range (expected 1..=512)")
    } else if slot_violation(config.modules.slot_a) is Some {
        slot_violation(config.modules.slot_a)
    } else if slot_violation(config.modules.slot_b) is Some {
        slot_violation(config.modules.slot_b)
    } else if slot_violation(config.modules.slot_c) is Some {
        slot_violation(config.modules.slot_c)
    } else {
        slot_violation(config.modules.slot_d)
    }
}

/// `Ok` exactly when there is no violation; otherwise the first one.
pub open spec fn validation_result(v: Option<&'static str>) -> Result<(), ConfigError> {
    match v {
        None => Ok(()),
        Some(m) => Err(ConfigError::Invalid(m)),
    }
}

fn check_universe(u: u16) -> (b: bool)
    ensures
        b == universe_ok(u),
{
    1 <= u && (u as usize) <= MAX_UNIVERSES
}

fn check_channel(c: u16) -> (b: bool)
    ensures
        b == channel_ok(c),
{
    1 <= c && c <= 512
}

fn validate_slot(slot: &ModuleSlot) -> (r: Result<(), ConfigError>)
    ensures
        r == validation_result(slot_violation(*slot)),
{
    match slot {
        ModuleSlot::Neo(neo) => {
            let mut i: usize = 0;
            while i < 4
                invariant
                    i <= 4,
                    *slot == ModuleSlot::Neo(*neo),
                    ports_violation_from(neo.ports, 0) == ports_violation_from(neo.ports, i as int),
                decreases 4 - i,
            {
                if let Port::Enabled(p) = neo.ports[i] {
                    if p.pixel_count > MAX_PIXELS {
                        return Err(ConfigError::Invalid("neo port pixel_count exceeds MAX_PIXELS"));
                    }
                    if !check_universe(p.universe) {
                        return Err(
                            ConfigError::Invalid(
                                "neo port universe out of range (expected 1..=MAX_UNIVERSES)",
                            ),
                        );
                    }
                    if !check_channel(p.start_channel) {
                        return Err(
                            ConfigError::Invalid("neo port start_channel out of range (expected 1..=512)"),
                        );
                    }
                }
                i = i + 1;
            }
            Ok(())
        },
        ModuleSlot::Dimmer(d) => {
            if !check_universe(d.universe) {
                return Err(
                    ConfigError::Invalid("dimmer universe out of range (expected 1..=MAX_UNIVERSES)"),
                );
            }
            if !check_channel(d.start_channel) {
                return Err(ConfigError::Invalid("dimmer start_channel out of range (expected 1..=512)"));
            }
            Ok(())
        },
        _ => Ok(()),
    }
}

/// Range checks that a deserialized config must pass, so a bad config is
/// caught at boot instead of panicking a task later. Universes
/// (1..=MAX_UNIVERSES) and channels (1..=512) are 1-based everywhere in the
/// config.
pub fn validate(config: &BoardInstanceConfig) -> (r: Result<(), ConfigError>)
    ensures
        r == validation_result(config_violation(*config)),
{
    if !check_universe(config.dmx_output.universe) {
        return Err(
            ConfigError::Invalid("dmx_output universe out of range (expected 1..=MAX_UNIVERSES)"),
        );
    }
    if !check_universe(config.audio.universe) {
        return Err(ConfigError::Invalid("audio universe out of range (expected 1..=MAX_UNIVERSES)"));
    }
    if !check_channel(config.audio.start_channel) {
        return Err(ConfigError::Invalid("audio start_channel out of range (expected 1..=512)"));
    }
    validate_slot(&config.modules.slot_a)?;
    validate_slot(&config.modules.slot_b)?;
    validate_slot(&config.modules.slot_c)?;
    validate_slot(&config.modules.slot_d)?;
    Ok(())
}

/// Finishes loading a config document once it has been deserialized:
/// `None` (the deserializer rejected it) is a parse error, otherwise the
/// config is handed back if it passes `validate`.
pub fn accept_parsed_config(parsed: Option<BoardInstanceConfig>) -> (r: Result<BoardInstanceConfig, ConfigError>)
    ensures
        match parsed {
            None => r == Err::<BoardInstanceConfig, ConfigError>(ConfigError::Parse),
            Some(c) => match config_violation(c) {
                None => r == Ok::<BoardInstanceConfig, ConfigError>(c),
                Some(m) => r == Err::<BoardInstanceConfig, ConfigError>(ConfigError::Invalid(m)),
            },
        },
{
    match parsed {
        None => Err(ConfigError::Parse),
        Some(config) => {
            validate(&config)?;
            Ok(config)
        },
    }
}

/// Where the board takes its configuration from at boot.
#[derive(Debug)]
pub enum ConfigChoice {
    /// The config read from the SD card, which parsed and validated.
    SdCard(BoardInstanceConfig),
    /// The built-in config; `sd_error` says why the SD card's was refused,
    /// `None` when the card had none.
    BuiltIn { sd_error: Option<ConfigError> },
}

/// Chooses the boot configuration from the outcome of loading the SD card's
/// document (`None`: the card had none): an accepted SD config wins, and
/// anything else falls back to the built-in one, so the board always boots.
pub fn choose_config(sd: Option<Result<BoardInstanceConfig, ConfigError>>) -> (r: ConfigChoice)
    ensures
        match sd {
            Some(Ok(c)) => r == ConfigChoice::SdCard(c),
            Some(Err(e)) => r == (ConfigChoice::BuiltIn { sd_error: Some(e) }),
            None => r == (ConfigChoice::BuiltIn { sd_error: None }),
        },
{
    match sd {
        Some(Ok(c)) => ConfigChoice::SdCard(c),
        Some(Err(e)) => ConfigChoice::BuiltIn { sd_error: Some(e) },
        None => ConfigChoice::BuiltIn { sd_error: None },
    }
}

} // verus!

verus! {

/// A config that passes validation addresses only stored universes and
/// real channels, and no LED port asks for more pixels than a buffer holds.
pub proof fn lemma_valid_config_in_range(config: BoardInstanceConfig)
    requires
        config_violation(config) is None,
    ensures
        universe_ok(config.dmx_output.universe),
        universe_ok(config.audio.universe),
        channel_ok(config.audio.start_channel),
        forall|slot: ModuleSlot|
            slot == config.modules.slot_a || slot == config.modules.slot_b || slot
                == config.modules.slot_c || slot == config.modules.slot_d ==> slot_violation(slot) is None,
{
}

/// A Neo slot without violations has every enabled port within the pixel
/// buffer and addressing a stored universe and a real channel.
pub proof fn lemma_valid_neo_ports(neo: NeoConfig, i: int)
    requires
        ports_violation_from(neo.ports, 0) is None,
        0 <= i < 4,
    ensures
        neo.ports@[i] matches Port::Enabled(p) ==> p.pixel_count <= MAX_PIXELS && universe_ok(
            p.universe,
        ) && channel_ok(p.start_channel),
{
    assert(ports_violation_from(neo.ports, 0) == ports_violation_from(neo.ports, 1) || port_violation(neo.ports@[0]) is Some);
    assert(ports_violation_from(neo.ports, 1) == ports_violation_from(neo.ports, 2) || port_violation(neo.ports@[1]) is Some);
    assert(ports_violation_from(neo.ports, 2) == ports_violation_from(neo.ports, 3) || port_violation(neo.ports@[2]) is Some);
    assert(ports_violation_from(neo.ports, 3) == ports_violation_from(neo.ports, 4) || port_violation(neo.ports@[3]) is Some);
}

} // verus!

verus! {

/// Every address of an LED port is in range: the port fits the pixel
/// buffer and reads a stored universe from a real channel (a disabled port
/// has none).
pub open spec fn port_in_range(port: Port) -> bool {
    match port {
        Port::Enabled(p) => p.pixel_count <= MAX_PIXELS && universe_ok(p.universe) && channel_ok(
            p.start_channel,
        ),
        Port::Disabled { .. } => true,
    }
}

/// Every address of a module slot is in range.
pub open spec fn slot_in_range(slot: ModuleSlot) -> bool {
    match slot {
        ModuleSlot::Neo(neo) => forall|i: int| 0 <= i < 4 ==> port_in_range(#[trigger] neo.ports@[i]),
        ModuleSlot::Dimmer(d) => universe_ok(d.universe) && channel_ok(d.start_channel),
        _ => true,
    }
}

/// Every address of a config is in range: universes 1..=MAX_UNIVERSES,
/// channels 1..=512 and ports within the pixel buffer, in the DMX output,
/// the audio block and all four slots.
pub open spec fn config_in_range(config: BoardInstanceConfig) -> bool {
    &&& universe_ok(config.dmx_output.universe)
    &&& universe_ok(config.audio.universe)
    &&& channel_ok(config.audio.start_channel)
    &&& slot_in_range(config.modules.slot_a)
    &&& slot_in_range(config.modules.slot_b)
    &&& slot_in_range(config.modules.slot_c)
    &&& slot_in_range(config.modules.slot_d)
}

/// Ports `i..4` have no violation exactly when they are all in range.
proof fn lemma_ports_violation_from(ports: [Port; 4], i: int)
    requires
        0 <= i <= 4,
    ensures
        ports_violation_from(ports, i) is None <==> forall|j: int|
            i <= j < 4 ==> port_in_range(#[trigger] ports@[j]),
    decreases 4 - i,
{
    if i < 4 {
        lemma_ports_violation_from(ports, i + 1);
    }
}

/// A slot has no violation exactly when it is in range.
proof fn lemma_slot_violation(slot: ModuleSlot)
    ensures
        slot_violation(slot) is None <==> slot_in_range(slot),
{
    if let ModuleSlot::Neo(neo) = slot {
        lemma_ports_violation_from(neo.ports, 0);
    }
}

/// Validation accepts exactly the configs whose addresses are all in range:
/// `validate` returns `Ok` if and only if every universe, channel and pixel
/// count in the config is within the board's limits.
pub proof fn lemma_validation_accepts_exactly_in_range(config: BoardInstanceConfig)
    ensures
        config_violation(config) is None <==> config_in_range(config),
        validation_result(config_violation(config)) is Ok <==> config_in_range(config),
{
    lemma_slot_violation(config.modules.slot_a);
    lemma_slot_violation(config.modules.slot_b);
    lemma_slot_violation(config.modules.slot_c);
    lemma_slot_violation(config.modules.slot_d);
}

} // verus!
