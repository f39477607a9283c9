use projectdmx::bounded::MAX_CONFIG_LEN;
use projectdmx::config::{
    accept_parsed_config, choose_config, get_module_str, input_str, validate, AudioConfig, BoardInstanceConfig,
    Chataigne, ColorOrder, ConfigChoice, ConfigError, DimmerConfig, DmxOutputConfig, EnabledPort,
    FogMachineConfig, InputConfig, InputProtocol, LedProtocol, ModuleContainer, ModuleSlot,
    ModuleType, NeoConfig, NeoMode, Port, RawModuleSlot, RawPort,
};
use projectdmx::jsonc::strip_jsonc_comments;

fn stripped(s: &str) -> Result<String, ConfigError> {
    strip_jsonc_comments(s).map(|t| t.as_str().to_string())
}

#[test]
fn strip_keeps_plain_json() {
    let doc = "{\"a\": 1, \"b\": [true, false]}";
    assert_eq!(stripped(doc), Ok(doc.to_string()));
}

#[test]
fn strip_line_comment_becomes_newline() {
    assert_eq!(stripped("{\"a\": 1} // note\n{}"), Ok("{\"a\": 1} \n{}".to_string()));
}

#[test]
fn strip_line_comment_at_end_of_text() {
    assert_eq!(stripped("[1] // trailing"), Ok("[1] ".to_string()));
}

#[test]
fn strip_block_comment_becomes_space() {
    assert_eq!(stripped("[1,/* two */2]"), Ok("[1, 2]".to_string()));
}

#[test]
fn strip_block_comment_needs_its_own_star() {
    // "/*/" does not close the comment it opens.
    assert_eq!(stripped("a/*/ b */c"), Ok("a c".to_string()));
}

#[test]
fn strip_keeps_comment_markers_inside_strings() {
    let doc = "{\"url\": \"http://x/*y*/\"}";
    assert_eq!(stripped(doc), Ok(doc.to_string()));
}

#[test]
fn strip_keeps_escaped_quotes_inside_strings() {
    let doc = "[\"a\\\"//b\"] // gone";
    assert_eq!(stripped(doc), Ok("[\"a\\\"//b\"] ".to_string()));
}

#[test]
fn strip_unclosed_block_comment_is_rejected() {
    assert_eq!(stripped("{} /* never closed"), Err(ConfigError::BadBlockComment));
}

#[test]
fn strip_rejects_text_that_does_not_fit() {
    let big = "x".repeat(MAX_CONFIG_LEN + 1);
    assert_eq!(stripped(&big), Err(ConfigError::TooLarge));
    let exact = "x".repeat(MAX_CONFIG_LEN);
    assert_eq!(stripped(&exact).map(|s| s.len()), Ok(MAX_CONFIG_LEN));
}

#[test]
fn strip_counts_multibyte_characters_in_bytes() {
    // 'é' takes two bytes: half the capacity in characters already fills it.
    let doc = "é".repeat(MAX_CONFIG_LEN / 2);
    assert_eq!(stripped(&doc).map(|s| s.len()), Ok(MAX_CONFIG_LEN));
    let over = format!("{}a", doc);
    assert_eq!(stripped(&over), Err(ConfigError::TooLarge));
}

#[test]
fn strip_overflow_before_unclosed_comment_is_too_large() {
    let doc = format!("{}/* open", "x".repeat(MAX_CONFIG_LEN + 1));
    assert_eq!(stripped(&doc), Err(ConfigError::TooLarge));
}

#[test]
fn color_order_permutations() {
    assert_eq!(ColorOrder::Rgb.perm(), &[0, 1, 2]);
    assert_eq!(ColorOrder::Grb.perm(), &[1, 0, 2]);
    assert_eq!(ColorOrder::Bgr.perm(), &[2, 1, 0]);
    assert_eq!(ColorOrder::Rgbw.perm(), &[0, 1, 2, 3]);
    assert_eq!(ColorOrder::Grbw.perm(), &[1, 0, 2, 3]);
}

#[test]
fn color_order_is_permutation() {
    for order in [
        ColorOrder::Rgb,
        ColorOrder::Rbg,
        ColorOrder::Grb,
        ColorOrder::Gbr,
        ColorOrder::Brg,
        ColorOrder::Bgr,
        ColorOrder::Rgbw,
        ColorOrder::Grbw,
    ] {
        let p = order.perm();
        let mut sorted = p.to_vec();
        sorted.sort();
        let expected: Vec<u8> = (0..p.len() as u8).collect();
        assert_eq!(sorted, expected);
    }
}

fn enabled(pixel_count: usize, universe: u16, start_channel: u16) -> Port {
    Port::Enabled(EnabledPort {
        protocol: LedProtocol::Ws2812,
        color_order: ColorOrder::Grb,
        pixel_count,
        universe,
        start_channel,
        mode: NeoMode::Raw,
    })
}

fn base_config() -> BoardInstanceConfig {
    BoardInstanceConfig {
        input: InputConfig { source: InputProtocol::Artnet },
        chataigne: Chataigne { ip: "192.168.1.29".parse().unwrap(), port: 6000 },
        dmx_output: DmxOutputConfig { universe: 1 },
        audio: AudioConfig { universe: 2, start_channel: 1, files: heapless::Vec::new() },
        modules: ModuleContainer {
            slot_a: ModuleSlot::Disabled { disabled: true },
            slot_b: ModuleSlot::Dimmer(DimmerConfig { universe: 1, start_channel: 10, binary: [false; 4] }),
            slot_c: ModuleSlot::Neo(NeoConfig {
                ports: [enabled(240, 3, 1), enabled(100, 4, 1), Port::Disabled { disabled: true }, enabled(256, 4, 300)],
            }),
            slot_d: ModuleSlot::FogMachine(FogMachineConfig { universe: 9, start_channel: 0 }),
        },
    }
}

#[test]
fn validate_accepts_in_range_config() {
    assert_eq!(validate(&base_config()), Ok(()));
}

#[test]
fn validate_rejects_dmx_output_universe() {
    let mut c = base_config();
    c.dmx_output.universe = 0;
    assert_eq!(
        validate(&c),
        Err(ConfigError::Invalid("dmx_output universe out of range (expected 1..=MAX_UNIVERSES)"))
    );
    c.dmx_output.universe = 5;
    assert!(validate(&c).is_err());
}

#[test]
fn validate_rejects_audio_settings() {
    let mut c = base_config();
    c.audio.universe = 5;
    assert_eq!(
        validate(&c),
        Err(ConfigError::Invalid("audio universe out of range (expected 1..=MAX_UNIVERSES)"))
    );
    let mut c = base_config();
    c.audio.start_channel = 513;
    assert_eq!(
        validate(&c),
        Err(ConfigError::Invalid("audio start_channel out of range (expected 1..=512)"))
    );
}

#[test]
fn validate_rejects_neo_ports() {
    let mut c = base_config();
    c.modules.slot_c = ModuleSlot::Neo(NeoConfig {
        ports: [enabled(257, 1, 1), enabled(10, 9, 1), enabled(1, 1, 1), enabled(1, 1, 1)],
    });
    assert_eq!(validate(&c), Err(ConfigError::Invalid("neo port pixel_count exceeds MAX_PIXELS")));
    c.modules.slot_c = ModuleSlot::Neo(NeoConfig {
        ports: [enabled(10, 1, 1), enabled(10, 9, 1), enabled(1, 1, 1), enabled(1, 1, 1)],
    });
    assert_eq!(
        validate(&c),
        Err(ConfigError::Invalid("neo port universe out of range (expected 1..=MAX_UNIVERSES)"))
    );
    c.modules.slot_c = ModuleSlot::Neo(NeoConfig {
        ports: [enabled(10, 1, 1), enabled(10, 1, 1), enabled(1, 1, 1), enabled(1, 1, 513)],
    });
    assert_eq!(
        validate(&c),
        Err(ConfigError::Invalid("neo port start_channel out of range (expected 1..=512)"))
    );
}

#[test]
fn validate_rejects_dimmer_and_checks_slots_in_order() {
    let mut c = base_config();
    c.modules.slot_b = ModuleSlot::Dimmer(DimmerConfig { universe: 1, start_channel: 0, binary: [true; 4] });
    c.modules.slot_d = ModuleSlot::Dimmer(DimmerConfig { universe: 7, start_channel: 1, binary: [true; 4] });
    assert_eq!(
        validate(&c),
        Err(ConfigError::Invalid("dimmer start_channel out of range (expected 1..=512)"))
    );
    c.modules.slot_b = ModuleSlot::Disabled { disabled: true };
    assert_eq!(
        validate(&c),
        Err(ConfigError::Invalid("dimmer universe out of range (expected 1..=MAX_UNIVERSES)"))
    );
}

#[test]
fn accept_parsed_config_maps_errors() {
    assert_eq!(accept_parsed_config(None).err(), Some(ConfigError::Parse));
    assert_eq!(accept_parsed_config(Some(base_config())), Ok(base_config()));
    let mut c = base_config();
    c.audio.start_channel = 0;
    assert!(matches!(accept_parsed_config(Some(c)), Err(ConfigError::Invalid(_))));
}

#[test]
fn raw_port_conversion() {
    let full = RawPort {
        disabled: None,
        protocol: Some(LedProtocol::Sk6812),
        color_order: Some(ColorOrder::Rgbw),
        pixel_count: Some(60),
        universe: Some(2),
        start_channel: Some(5),
        mode: Some(NeoMode::SolidColor),
    };
    assert_eq!(
        Port::from_raw(full),
        Ok(Port::Enabled(EnabledPort {
            protocol: LedProtocol::Sk6812,
            color_order: ColorOrder::Rgbw,
            pixel_count: 60,
            universe: 2,
            start_channel: 5,
            mode: NeoMode::SolidColor,
        }))
    );
    assert_eq!(Port::from_raw(RawPort { disabled: Some(true), ..full }), Ok(Port::Disabled { disabled: true }));
    assert_eq!(Port::from_raw(RawPort { disabled: Some(false), universe: None, ..full }), Err("universe"));
    assert_eq!(Port::from_raw(RawPort { protocol: None, mode: None, ..full }), Err("protocol"));
    assert_eq!(Port::from_raw(RawPort { mode: None, ..full }), Err("mode"));
}

#[test]
fn raw_module_slot_conversion() {
    let raw = RawModuleSlot {
        module_type: Some(ModuleType::Dimmer),
        disabled: None,
        ports: None,
        universe: Some(1),
        start_channel: Some(20),
        binary: None,
    };
    assert_eq!(
        ModuleSlot::from_raw(raw),
        Ok(ModuleSlot::Dimmer(DimmerConfig { universe: 1, start_channel: 20, binary: [false; 4] }))
    );
    assert_eq!(
        ModuleSlot::from_raw(RawModuleSlot { binary: Some([true, false, true, false]), ..raw }),
        Ok(ModuleSlot::Dimmer(DimmerConfig { universe: 1, start_channel: 20, binary: [true, false, true, false] }))
    );
    assert_eq!(ModuleSlot::from_raw(RawModuleSlot { disabled: Some(true), module_type: None, ..raw }),
        Ok(ModuleSlot::Disabled { disabled: true }));
    assert_eq!(ModuleSlot::from_raw(RawModuleSlot { module_type: None, ..raw }), Err("type"));
    assert_eq!(ModuleSlot::from_raw(RawModuleSlot { module_type: Some(ModuleType::Neo), ..raw }), Err("ports"));
    assert_eq!(ModuleSlot::from_raw(RawModuleSlot { start_channel: None, ..raw }), Err("start_channel"));
    assert_eq!(
        ModuleSlot::from_raw(RawModuleSlot { module_type: Some(ModuleType::AudioAmp), ..raw }),
        Ok(ModuleSlot::AudioAmp(projectdmx::config::AudioAmpConfig { universe: 1, start_channel: 20 }))
    );
    assert_eq!(
        ModuleSlot::from_raw(RawModuleSlot { module_type: Some(ModuleType::Rfid), universe: None, ..raw }),
        Err("universe")
    );
}

#[test]
fn module_and_input_labels() {
    let c = base_config();
    assert_eq!(get_module_str(c.modules.slot_a), "X");
    assert_eq!(get_module_str(c.modules.slot_b), "Dimmer");
    assert_eq!(get_module_str(c.modules.slot_c), "Neo");
    assert_eq!(get_module_str(c.modules.slot_d), "Fog");
    assert_eq!(input_str(InputProtocol::sACN), "sACN");
    assert_eq!(input_str(InputProtocol::Sd), "SD Card");
    assert_eq!(input_str(InputProtocol::Artnet), "Art-Net");
}

#[test]
fn strip_is_idempotent() {
    let doc = "{ \"url\": \"http://x/*y*/\", // note\n \"a\": 1 /* gone */, \"b\": \"\\\"//\" }/ /**/ /";
    let once = stripped(doc).unwrap();
    assert_eq!(once, "{ \"url\": \"http://x/*y*/\", \n \"a\": 1  , \"b\": \"\\\"//\" }/   /");
    assert_eq!(stripped(&once), Ok(once.clone()));
    assert!(once.len() <= doc.len());
}

#[test]
fn boot_config_choice() {
    let c = base_config();
    match choose_config(Some(Ok(c.clone()))) {
        ConfigChoice::SdCard(got) => assert_eq!(got, c),
        other => panic!("unexpected {:?}", other),
    }
    match choose_config(Some(Err(ConfigError::Parse))) {
        ConfigChoice::BuiltIn { sd_error } => assert_eq!(sd_error, Some(ConfigError::Parse)),
        other => panic!("unexpected {:?}", other),
    }
    match choose_config(None) {
        ConfigChoice::BuiltIn { sd_error } => assert_eq!(sd_error, None),
        other => panic!("unexpected {:?}", other),
    }
}
