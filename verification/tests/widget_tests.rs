use hda_nostd::widget::{
    find_output_path, Codec, CodecDiscovery, DiscoveryStep, PinConfig, Widget, WidgetProbe, WidgetType,
    PIN_CAP_OUTPUT, WIDGET_CAP_CONN_LIST,
};

fn widget(nid: u8, t: WidgetType, connections: Vec<u8>) -> Widget {
    Widget {
        nid,
        widget_type: t,
        caps: 0,
        pin_config: None,
        pin_caps: 0,
        connections,
        amp_out_caps: 0,
        amp_in_caps: 0,
    }
}

fn output_pin(nid: u8, connections: Vec<u8>, config: u32) -> Widget {
    Widget {
        pin_config: Some(PinConfig::decode(config)),
        pin_caps: PIN_CAP_OUTPUT,
        ..widget(nid, WidgetType::PinComplex, connections)
    }
}

fn codec(widgets: Vec<Widget>) -> Codec {
    Codec { address: 0, vendor_id: 0x10EC, device_id: 0x0662, widgets, afg_nid: 1 }
}

#[test]
fn widget_type_from_caps() {
    assert_eq!(WidgetType::from_caps(0x0000_0000), WidgetType::AudioOutput);
    assert_eq!(WidgetType::from_caps(0x0010_0000), WidgetType::AudioInput);
    assert_eq!(WidgetType::from_caps(0x0020_0000), WidgetType::AudioMixer);
    assert_eq!(WidgetType::from_caps(0x0030_0000), WidgetType::AudioSelector);
    assert_eq!(WidgetType::from_caps(0x0040_0101), WidgetType::PinComplex);
    assert_eq!(WidgetType::from_caps(0x0050_0000), WidgetType::PowerWidget);
    assert_eq!(WidgetType::from_caps(0x0060_0000), WidgetType::VolumeKnob);
    assert_eq!(WidgetType::from_caps(0x0070_0000), WidgetType::BeepGenerator);
    assert_eq!(WidgetType::from_caps(0xFFF0_0000), WidgetType::VendorDefined);
    assert_eq!(WidgetType::from_caps(0x0080_0000), WidgetType::Unknown);
    assert_eq!(WidgetType::from_caps(0x00E0_0000), WidgetType::Unknown);
}

#[test]
fn widget_type_codes() {
    assert_eq!(WidgetType::AudioOutput.code(), 0x0);
    assert_eq!(WidgetType::PinComplex.code(), 0x4);
    assert_eq!(WidgetType::BeepGenerator.code(), 0x7);
    assert_eq!(WidgetType::VendorDefined.code(), 0xF);
    assert_eq!(WidgetType::Unknown.code(), 0xFF);
    for caps in [0x0000_0000u32, 0x0030_0000, 0x0070_0000, 0x00F0_0000] {
        assert_eq!(WidgetType::from_caps(caps).code() as u32, (caps >> 20) & 0xF);
    }
}

#[test]
fn pin_config_fields() {
    let c = PinConfig::decode(0x90A6_0130);
    assert_eq!(c.sequence, 0);
    assert_eq!(c.association, 3);
    assert_eq!(c.misc, 1);
    assert_eq!(c.color, 0);
    assert_eq!(c.connection_type, 6);
    assert_eq!(c.default_device, 10);
    assert_eq!(c.location, 16);
    assert_eq!(c.port_connectivity, 2);
    assert_eq!(c.device_name(), "Mic In");
    assert!(!c.is_no_connection());
}

#[test]
fn pin_config_misc_is_bit_8_only() {
    assert_eq!(PinConfig::decode(0x0000_0E00).misc, 0);
    assert_eq!(PinConfig::decode(0x0000_0F00).misc, 1);
}

#[test]
fn pin_without_connection() {
    let c = PinConfig::decode(0x4000_0000);
    assert!(c.is_no_connection());
    assert_eq!(PinConfig::decode(0x0101_4010).association, 1);
}

#[test]
fn device_names() {
    let names = [
        "Line Out", "Speaker", "HP Out", "CD", "SPDIF Out", "Digital Other Out", "Modem Line Side",
        "Modem Handset Side", "Line In", "AUX", "Mic In", "Telephony", "SPDIF In", "Digital Other In",
        "Unknown", "Other",
    ];
    for (dev, name) in names.iter().enumerate() {
        let c = PinConfig::decode((dev as u32) << 20);
        assert_eq!(c.device_name(), *name);
    }
}

#[test]
fn output_path_runs_from_dac_to_pin() {
    let c = codec(vec![
        widget(2, WidgetType::AudioOutput, vec![]),
        widget(3, WidgetType::AudioMixer, vec![5, 2]),
        output_pin(4, vec![3], 0x0101_4010),
        widget(5, WidgetType::AudioInput, vec![]),
    ]);
    assert_eq!(
        find_output_path(&c),
        vec![(2, WidgetType::AudioOutput), (3, WidgetType::AudioMixer), (4, WidgetType::PinComplex)]
    );
}

#[test]
fn output_path_skips_unconnected_pins() {
    let c = codec(vec![
        widget(2, WidgetType::AudioOutput, vec![]),
        output_pin(4, vec![2], 0x4000_0000),
        output_pin(6, vec![2], 0x0000_0000),
    ]);
    assert_eq!(find_output_path(&c), vec![(2, WidgetType::AudioOutput), (6, WidgetType::PinComplex)]);
}

#[test]
fn output_path_empty_without_dac() {
    let c = codec(vec![widget(3, WidgetType::AudioMixer, vec![3]), output_pin(4, vec![3, 9], 0)]);
    assert!(find_output_path(&c).is_empty());
}

#[test]
fn output_path_stops_at_depth_limit() {
    // A chain of 17 mixers between pin and DAC is too deep to follow.
    let mut ws = vec![widget(1, WidgetType::AudioOutput, vec![])];
    for n in 2..=18u8 {
        ws.push(widget(n, WidgetType::AudioMixer, vec![n - 1]));
    }
    ws.push(output_pin(30, vec![18], 0));
    assert!(find_output_path(&codec(ws.clone())).is_empty());
    // With 15 mixers the DAC lies 16 steps from the pin and is found.
    let short: Vec<Widget> = ws.iter().filter(|w| w.nid <= 16).cloned().collect();
    let mut short = short;
    short.push(output_pin(30, vec![16], 0));
    assert_eq!(find_output_path(&codec(short)).len(), 17);
}

#[test]
fn probe_enumerates_pin() {
    let mut p = WidgetProbe::new(0, 1, 4);
    assert_eq!(p.query_verb(), 0x004F_0009);
    assert!(!p.step(Some(0x0040_0000 | WIDGET_CAP_CONN_LIST)));
    assert_eq!(p.query_verb(), 0x004F_1C00);
    assert!(!p.step(Some(0x0101_4010)));
    assert_eq!(p.query_verb(), 0x004F_000C);
    assert!(!p.step(Some(PIN_CAP_OUTPUT)));
    assert_eq!(p.query_verb(), 0x004F_000F);
    assert!(!p.step(Some(0x0000_0005)));
    assert_eq!(p.query_verb(), 0x004F_0200);
    assert!(!p.step(Some(0x0403_0201)));
    assert_eq!(p.query_verb(), 0x004F_0204);
    assert!(p.step(Some(0x0000_0009)));
    let w = p.into_widget();
    assert_eq!(w.connections, vec![1, 2, 3, 4, 9]);
    assert_eq!(w.widget_type, WidgetType::PinComplex);
    assert_eq!(w.pin_caps, PIN_CAP_OUTPUT);
    assert_eq!(w.pin_config.unwrap().association, 1);
}

#[test]
fn probe_reads_long_form_connections_and_amps() {
    let mut p = WidgetProbe::new(1, 1, 3);
    // Mixer with a connection list, output and input amps, amp override.
    assert!(!p.step(Some(0x0020_010E)));
    assert_eq!(p.query_verb(), 0x103F_000F);
    assert!(!p.step(Some(0x0000_0083)));
    assert!(!p.step(Some(0x0005_0002)));
    assert_eq!(p.query_verb(), 0x103F_0202);
    assert!(!p.step(Some(0x0000_0107)));
    assert_eq!(p.query_verb(), 0x103F_000E);
    assert!(!p.step(Some(0x8000_0000)));
    assert_eq!(p.query_verb(), 0x103F_000D);
    assert!(p.step(None));
    let w = p.into_widget();
    assert_eq!(w.connections, vec![2, 5, 7]);
    assert_eq!(w.amp_out_caps, 0x8000_0000);
    assert_eq!(w.amp_in_caps, 0);
    assert!(w.pin_config.is_none());
}

#[test]
fn probe_asks_function_group_for_amp_defaults() {
    let mut p = WidgetProbe::new(0, 1, 2);
    assert!(!p.step(Some(0x0000_0004)));
    assert_eq!(p.query_verb(), 0x001F_000E);
    assert!(p.step(Some(0x1234)));
}

#[test]
fn discovery_enumerates_one_codec() {
    let mut d = CodecDiscovery::new(0x0004);
    let mut sent = Vec::new();
    let responses = [
        None,
        Some(0x10EC_0662),
        Some(0x0001_0001),
        Some(0x0000_0001),
        Some(0),
        Some(0x0002_0002),
        Some(0x0000_0000),
        Some(0x0040_0100),
        None,
        Some(0x0000_0010),
        Some(0x0000_0001),
    ];
    for r in responses.iter() {
        match d.step(*r) {
            DiscoveryStep::Verb(v) => sent.push(v),
            DiscoveryStep::Done => panic!("discovery ended early"),
        }
    }
    assert!(matches!(d.step(Some(0x0000_0002)), DiscoveryStep::Done));
    assert_eq!(
        sent,
        vec![
            0x200F_0000, 0x200F_0004, 0x201F_0005, 0x2017_0500, 0x201F_0004, 0x202F_0009,
            0x203F_0009, 0x203F_1C00, 0x203F_000C, 0x203F_000F, 0x203F_0200,
        ]
    );
    let codecs = d.into_codecs();
    assert_eq!(codecs.len(), 1);
    let c = &codecs[0];
    assert_eq!((c.address, c.vendor_id, c.device_id, c.afg_nid), (2, 0x10EC, 0x0662, 1));
    assert_eq!(c.widgets.len(), 2);
    assert_eq!(c.widgets[0].widget_type, WidgetType::AudioOutput);
    assert_eq!(c.widgets[1].nid, 3);
    assert!(c.widgets[1].pin_config.is_none());
    assert_eq!(c.widgets[1].connections, vec![2]);
}

#[test]
fn discovery_skips_silent_codecs() {
    let mut d = CodecDiscovery::new(0x0003);
    assert!(matches!(d.step(None), DiscoveryStep::Verb(0x000F_0000)));
    assert!(matches!(d.step(None), DiscoveryStep::Verb(0x100F_0000)));
    assert!(matches!(d.step(Some(0x1)), DiscoveryStep::Verb(0x100F_0004)));
    assert!(matches!(d.step(Some(0)), DiscoveryStep::Done));
    let codecs = d.into_codecs();
    assert_eq!(codecs.len(), 1);
    assert_eq!((codecs[0].address, codecs[0].device_id), (1, 1));
    assert!(codecs[0].widgets.is_empty());
}

#[test]
fn discovery_of_empty_link_is_done_at_once() {
    let mut d = CodecDiscovery::new(0x8000);
    assert!(matches!(d.step(None), DiscoveryStep::Done));
    assert!(d.into_codecs().is_empty());
}
