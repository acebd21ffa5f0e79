//! HDA widget (node) discovery and configuration.
//!
//! The HDA codec is organized as a tree: root node (NID 0) contains
//! function group nodes, each of which contains widget nodes.
//! Per Intel HDA spec 1.0a, Section 7.
use vstd::prelude::*;

use crate::codec::{
    encode_verb_short, verb_short_spec, VERB_GET_CONFIG_DEFAULT, VERB_GET_CONN_LIST,
    VERB_GET_PARAMETER, VERB_SET_POWER_STATE,
};

verus! {

// =============================================================================
// Parameter IDs (Section 7.3.4)
// =============================================================================

/// Vendor ID (32-bit: vendor[31:16] | device[15:0])
pub const PARAM_VENDOR_ID: u8 = 0x00;
/// Revision ID
pub const PARAM_REVISION_ID: u8 = 0x02;
/// Subordinate Node Count: start_nid[23:16] | total_nodes[7:0]
pub const PARAM_SUBORDINATE_NODE_COUNT: u8 = 0x04;
/// Function Group Type
pub const PARAM_FUNCTION_GROUP_TYPE: u8 = 0x05;
/// Audio Function Group Capabilities
pub const PARAM_AUDIO_FG_CAP: u8 = 0x08;
/// Audio Widget Capabilities
pub const PARAM_AUDIO_WIDGET_CAP: u8 = 0x09;
/// Supported PCM Size/Rates
pub const PARAM_SUPPORTED_PCM: u8 = 0x0A;
/// Supported Stream Formats
pub const PARAM_SUPPORTED_STREAM_FORMATS: u8 = 0x0B;
/// Pin Capabilities
pub const PARAM_PIN_CAP: u8 = 0x0C;
/// Input Amplifier Capabilities
pub const PARAM_AMP_IN_CAP: u8 = 0x0D;
/// Output Amplifier Capabilities
pub const PARAM_AMP_OUT_CAP: u8 = 0x0E;
/// Connection List Length
pub const PARAM_CONN_LIST_LENGTH: u8 = 0x0F;
/// Supported Power States
pub const PARAM_SUPPORTED_POWER_STATES: u8 = 0x10;
/// Processing Capabilities
pub const PARAM_PROCESSING_CAP: u8 = 0x11;
/// GPIO Count
pub const PARAM_GPIO_COUNT: u8 = 0x12;
/// Volume Knob Capabilities
pub const PARAM_VOLUME_KNOB_CAP: u8 = 0x13;

// =============================================================================
// Widget types (Audio Widget Capabilities bits 23:20, Section 7.3.4.6)
// =============================================================================

/// Widget type enumeration.
#[derive(Debug, Clone, Copy, PartialEq, Eq, Structural)]
pub enum WidgetType {
    AudioOutput,
    AudioInput,
    AudioMixer,
    AudioSelector,
    PinComplex,
    PowerWidget,
    VolumeKnob,
    BeepGenerator,
    VendorDefined,
    Unknown,
}

/// The widget type that the 4-bit type code of the Audio Widget Capabilities names.
pub open spec fn widget_type_of_code(code: u32) -> WidgetType {
    if code == 0x0 {
        WidgetType::AudioOutput
    } else if code == 0x1 {
        WidgetType::AudioInput
    } else if code == 0x2 {
        WidgetType::AudioMixer
    } else if code == 0x3 {
        WidgetType::AudioSelector
    } else if code == 0x4 {
        WidgetType::PinComplex
    } else if code == 0x5 {
        WidgetType::PowerWidget
    } else if code == 0x6 {
        WidgetType::VolumeKnob
    } else if code == 0x7 {
        WidgetType::BeepGenerator
    } else if code == 0xF {
        WidgetType::VendorDefined
    } else {
        WidgetType::Unknown
    }
}

/// The widget type encoded in bits 23:20 of an Audio Widget Capabilities value.
pub open spec fn widget_type_of_caps(caps: u32) -> WidgetType {
    widget_type_of_code((caps / 0x10_0000) % 16)
}

/// The numeric value of a widget type: its type code, and 0xFF for `Unknown`.
pub open spec fn widget_type_code(t: WidgetType) -> u8 {
    match t {
        WidgetType::AudioOutput => 0x0,
        WidgetType::AudioInput => 0x1,
        WidgetType::AudioMixer => 0x2,
        WidgetType::AudioSelector => 0x3,
        WidgetType::PinComplex => 0x4,
        WidgetType::PowerWidget => 0x5,
        WidgetType::VolumeKnob => 0x6,
        WidgetType::BeepGenerator => 0x7,
        WidgetType::VendorDefined => 0xF,
        WidgetType::Unknown => 0xFF,
    }
}

impl WidgetType {
    /// The numeric value of this widget type: the type code of the Audio Widget
    /// Capabilities (0x0 to 0x7, 0xF for vendor defined), 0xFF for `Unknown`.
    pub fn code(&self) -> (c: u8)
        ensures
            c == widget_type_code(*self),
            *self != WidgetType::Unknown ==> widget_type_of_code(c as u32) == *self,
    {
        match self {
            WidgetType::AudioOutput => 0x0,
            WidgetType::AudioInput => 0x1,
            WidgetType::AudioMixer => 0x2,
            WidgetType::AudioSelector => 0x3,
            WidgetType::PinComplex => 0x4,
            WidgetType::PowerWidget => 0x5,
            WidgetType::VolumeKnob => 0x6,
            WidgetType::BeepGenerator => 0x7,
            WidgetType::VendorDefined => 0xF,
            WidgetType::Unknown => 0xFF,
        }
    }

    /// Decode widget type from the Audio Widget Capabilities parameter.
    pub fn from_caps(caps: u32) -> (t: WidgetType)
        ensures
            t == widget_type_of_caps(caps),
    {
        let code = (caps >> 20u32) & 0x0F;
        assert(code == (caps / 0x10_0000) % 16) by (bit_vector)
            requires
                code == (caps >> 20u32) & 0x0F,
        ;
        match code {
            0x0 => WidgetType::AudioOutput,
            0x1 => WidgetType::AudioInput,
            0x2 => WidgetType::AudioMixer,
            0x3 => WidgetType::AudioSelector,
            0x4 => WidgetType::PinComplex,
            0x5 => WidgetType::PowerWidget,
            0x6 => WidgetType::VolumeKnob,
            0x7 => WidgetType::BeepGenerator,
            0xF => WidgetType::VendorDefined,
            _ => WidgetType::Unknown,
        }
    }
}

// =============================================================================
// Audio Widget Capabilities bit fields (Section 7.3.4.6)
// =============================================================================

/// Stereo: widget supports stereo (bit 0)
pub const WIDGET_CAP_STEREO: u32 = 0x00000001;
/// InAmpPresent: input amplifier present (bit 1)
pub const WIDGET_CAP_IN_AMP: u32 = 0x00000002;
/// OutAmpPresent: output amplifier present (bit 2)
pub const WIDGET_CAP_OUT_AMP: u32 = 0x00000004;
/// AmpParamOverride: amp param override (bit 3)
pub const WIDGET_CAP_AMP_OVERRIDE: u32 = 0x00000008;
/// FormatOverride: format override (bit 4)
pub const WIDGET_CAP_FORMAT_OVERRIDE: u32 = 0x00000010;
/// Stripe: stripe support (bit 5)
pub const WIDGET_CAP_STRIPE: u32 = 0x00000020;
/// ProcWidget: processing widget (bit 6)
pub const WIDGET_CAP_PROC: u32 = 0x00000040;
/// Unsolicited: unsolicited response capable (bit 7)
pub const WIDGET_CAP_UNSOL: u32 = 0x00000080;
/// ConnList: has connection list (bit 8)
pub const WIDGET_CAP_CONN_LIST: u32 = 0x00000100;
/// Digital: digital capable (bit 9)
pub const WIDGET_CAP_DIGITAL: u32 = 0x00000200;
/// Power Control: power state control (bit 10)
pub const WIDGET_CAP_POWER: u32 = 0x00000400;
/// L-R Swap: left-right swap (bit 11)
pub const WIDGET_CAP_LR_SWAP: u32 = 0x00000800;
/// CP Caps: content protection (bit 12)
pub const WIDGET_CAP_CP: u32 = 0x00001000;
/// Channel Count extension (bits 15:13)
pub const WIDGET_CAP_CHAN_EXT_SHIFT: u32 = 13;
/// Delay (bits 19:16)
pub const WIDGET_CAP_DELAY_SHIFT: u32 = 16;
/// Type (bits 23:20)
pub const WIDGET_CAP_TYPE_SHIFT: u32 = 20;

// =============================================================================
// Pin Capabilities (Section 7.3.4.9)
// =============================================================================

/// Impedance Sense Capable (bit 0)
pub const PIN_CAP_IMPEDANCE: u32 = 0x00000001;
/// Trigger Required (bit 1)
pub const PIN_CAP_TRIGGER: u32 = 0x00000002;
/// Presence Detect Capable (bit 2)
pub const PIN_CAP_PRESENCE: u32 = 0x00000004;
/// Headphone Drive Capable (bit 3)
pub const PIN_CAP_HP_DRIVE: u32 = 0x00000008;
/// Output Capable (bit 4)
pub const PIN_CAP_OUTPUT: u32 = 0x00000010;
/// Input Capable (bit 5)
pub const PIN_CAP_INPUT: u32 = 0x00000020;
/// Balanced I/O (bit 6)
pub const PIN_CAP_BALANCED: u32 = 0x00000040;
/// HDMI (bit 7)
pub const PIN_CAP_HDMI: u32 = 0x00000080;
/// EAPD Capable (bit 16)
pub const PIN_CAP_EAPD: u32 = 0x00010000;

// =============================================================================
// Pin Configuration Default (Section 7.3.3.31)
// =============================================================================

/// Decoded pin configuration default register.
#[derive(Debug, Clone, Copy)]
pub struct PinConfig {
    /// Sequence (bits 3:0)
    pub sequence: u8,
    /// Default Association (bits 7:4)
    pub association: u8,
    /// Misc (bit 8)
    pub misc: u8,
    /// Color (bits 15:12)
    pub color: u8,
    /// Connection Type (bits 19:16)
    pub connection_type: u8,
    /// Default Device (bits 23:20)
    pub default_device: u8,
    /// Location (bits 29:24)
    pub location: u8,
    /// Port Connectivity (bits 31:30)
    pub port_connectivity: u8,
}

/// The field of `val` that is `width_pow` values wide and starts at bit `2^shift_pow`.
pub open spec fn bit_field(val: u32, shift_pow: int, width_pow: int) -> int {
    (val as int / shift_pow) % width_pow
}

impl PinConfig {
    /// Decode a 32-bit pin configuration default value.
    pub fn decode(val: u32) -> (c: PinConfig)
        ensures
            c.sequence == bit_field(val, 0x1, 0x10),
            c.association == bit_field(val, 0x10, 0x10),
            c.misc == bit_field(val, 0x100, 0x2),
            c.color == bit_field(val, 0x1000, 0x10),
            c.connection_type == bit_field(val, 0x1_0000, 0x10),
            c.default_device == bit_field(val, 0x10_0000, 0x10),
            c.location == bit_field(val, 0x100_0000, 0x40),
            c.port_connectivity == bit_field(val, 0x4000_0000, 0x4),
    {
        proof {
            assert(val & 0x0F == val % 0x10
                && (val >> 4u32) & 0x0F == (val / 0x10) % 0x10
                && (val >> 8u32) & 0x01 == (val / 0x100) % 0x2
                && (val >> 12u32) & 0x0F == (val / 0x1000) % 0x10
                && (val >> 16u32) & 0x0F == (val / 0x1_0000) % 0x10
                && (val >> 20u32) & 0x0F == (val / 0x10_0000) % 0x10
                && (val >> 24u32) & 0x3F == (val / 0x100_0000) % 0x40
                && (val >> 30u32) & 0x03 == (val / 0x4000_0000) % 0x4
            ) by (bit_vector);
        }
        PinConfig {
            sequence: (val & 0x0F) as u8,
            association: ((val >> 4u32) & 0x0F) as u8,
            misc: ((val >> 8u32) & 0x01) as u8,
            color: ((val >> 12u32) & 0x0F) as u8,
            connection_type: ((val >> 16u32) & 0x0F) as u8,
            default_device: ((val >> 20u32) & 0x0F) as u8,
            location: ((val >> 24u32) & 0x3F) as u8,
            port_connectivity: ((val >> 30u32) & 0x03) as u8,
        }
    }

    /// Returns true if this pin is not connected (port connectivity = 0x01 no connection).
    pub fn is_no_connection(&self) -> (r: bool)
        ensures
            r == (self.port_connectivity == 0x01),
    {
        self.port_connectivity == 0x01
    }

    /// Name of the default device type.
    pub fn device_name(&self) -> (name: &'static str)
        ensures
            self.default_device == 0x0 ==> name@ == "Line Out"@,
            self.default_device == 0x1 ==> name@ == "Speaker"@,
            self.default_device == 0x2 ==> name@ == "HP Out"@,
            self.default_device == 0x3 ==> name@ == "CD"@,
            self.default_device == 0x4 ==> name@ == "SPDIF Out"@,
            self.default_device == 0x5 ==> name@ == "Digital Other Out"@,
            self.default_device == 0x6 ==> name@ == "Modem Line Side"@,
            self.default_device == 0x7 ==> name@ == "Modem Handset Side"@,
            self.default_device == 0x8 ==> name@ == "Line In"@,
            self.default_device == 0x9 ==> name@ == "AUX"@,
            self.default_device == 0xA ==> name@ == "Mic In"@,
            self.default_device == 0xB ==> name@ == "Telephony"@,
            self.default_device == 0xC ==> name@ == "SPDIF In"@,
            self.default_device == 0xD ==> name@ == "Digital Other In"@,
            self.default_device == 0xF ==> name@ == "Other"@,
            self.default_device == 0xE || self.default_device > 0xF ==> name@ == "Unknown"@,
    {
        match self.default_device {
            0x0 => "Line Out",
            0x1 => "Speaker",
            0x2 => "HP Out",
            0x3 => "CD",
            0x4 => "SPDIF Out",
            0x5 => "Digital Other Out",
            0x6 => "Modem Line Side",
            0x7 => "Modem Handset Side",
            0x8 => "Line In",
            0x9 => "AUX",
            0xA => "Mic In",
            0xB => "Telephony",
            0xC => "SPDIF In",
            0xD => "Digital Other In",
            0xF => "Other",
            _ => "Unknown",
        }
    }
}

// =============================================================================
// Widget node descriptor
// =============================================================================

/// Describes a single widget node in the codec tree.
#[derive(Debug, Clone)]
pub struct Widget {
    /// Node ID within the codec.
    pub nid: u8,
    /// Widget type.
    pub widget_type: WidgetType,
    /// Raw Audio Widget Capabilities parameter.
    pub caps: u32,
    /// Pin configuration (only for PinComplex widgets).
    pub pin_config: Option<PinConfig>,
    /// Pin capabilities (only for PinComplex widgets).
    pub pin_caps: u32,
    /// Connection list (NIDs this widget can receive from).
    pub connections: Vec<u8>,
    /// Output amplifier capabilities.
    pub amp_out_caps: u32,
    /// Input amplifier capabilities.
    pub amp_in_caps: u32,
}

// =============================================================================
// Codec descriptor
// =============================================================================

/// Describes a discovered codec and its widget tree.
#[derive(Debug, Clone)]
pub struct Codec {
    /// Codec address (0-14).
    pub address: u8,
    /// Vendor ID.
    pub vendor_id: u16,
    /// Device ID.
    pub device_id: u16,
    /// All widgets in this codec.
    pub widgets: Vec<Widget>,
    /// The audio function group NID (usually 0x01).
    pub afg_nid: u8,
}

// =============================================================================
// Output path search
// =============================================================================

/// Longest chain of connections followed from a pin towards a DAC.
pub const MAX_PATH_DEPTH: usize = 16;

/// `i` is the first widget of `ws` with node id `nid`.
pub open spec fn is_first_widget(ws: Seq<Widget>, nid: u8, i: int) -> bool {
    &&& 0 <= i < ws.len()
    &&& ws[i].nid == nid
    &&& forall|j: int| 0 <= j < i ==> ws[j].nid != nid
}

/// Some widget of `ws` has node id `nid`.
pub open spec fn has_widget(ws: Seq<Widget>, nid: u8) -> bool {
    exists|i: int| 0 <= i < ws.len() && ws[i].nid == nid
}

/// Index of the first widget of `ws` with node id `nid` (meaningful when `has_widget`).
pub open spec fn first_widget(ws: Seq<Widget>, nid: u8) -> int {
    choose|i: int| is_first_widget(ws, nid, i)
}

/// The path found by following connections from node `nid`, `depth` steps away
/// from the pin: the node itself, then the path from the first of its connections
/// that leads to a DAC. A node is looked up as the first widget with its id; a
/// DAC ends the path; nothing is followed deeper than 16 steps.
pub open spec fn trace_spec(ws: Seq<Widget>, nid: u8, depth: nat) -> Option<Seq<(u8, WidgetType)>>
    decreases 17 - depth, 0nat,
{
    if depth > MAX_PATH_DEPTH || !has_widget(ws, nid) {
        None
    } else {
        let w = ws[first_widget(ws, nid)];
        if w.widget_type == WidgetType::AudioOutput {
            Some(seq![(nid, w.widget_type)])
        } else {
            match trace_conns(ws, w.connections@, 0, depth + 1) {
                Some(p) => Some(seq![(nid, w.widget_type)] + p),
                None => None,
            }
        }
    }
}

/// The path from the first of `conns[k..]` from which a DAC is reached, `depth`
/// steps away from the pin.
pub open spec fn trace_conns(ws: Seq<Widget>, conns: Seq<u8>, k: nat, depth: nat) -> Option<Seq<(u8, WidgetType)>>
    decreases 17 - depth, conns.len() - k,
{
    if depth > MAX_PATH_DEPTH + 1 || k >= conns.len() {
        None
    } else {
        match trace_spec(ws, conns[k as int], depth) {
            Some(p) => Some(p),
            None => trace_conns(ws, conns, k + 1, depth),
        }
    }
}

/// A pin that can drive an output: a pin complex that is output capable and
/// whose configuration says it is connected.
pub open spec fn is_output_pin(w: Widget) -> bool {
    &&& w.widget_type == WidgetType::PinComplex
    &&& w.pin_caps & PIN_CAP_OUTPUT != 0
    &&& w.pin_config is Some
    &&& w.pin_config->Some_0.port_connectivity != 0x01
}

/// The output path of a codec whose widgets are `ws[k..]` and whose lookups go
/// through all of `ws`: from the first output pin (in widget order) from which a
/// DAC is reached, the traced path reversed so that it runs from the DAC to the pin.
pub open spec fn output_path_from(ws: Seq<Widget>, k: nat) -> Seq<(u8, WidgetType)>
    decreases ws.len() - k,
{
    if k >= ws.len() {
        Seq::empty()
    } else if is_output_pin(ws[k as int]) && trace_spec(ws, ws[k as int].nid, 0) is Some {
        trace_spec(ws, ws[k as int].nid, 0)->Some_0.reverse()
    } else {
        output_path_from(ws, k + 1)
    }
}

/// The audio output path of a codec: DAC first, pin last, empty if there is none.
pub open spec fn output_path(codec: Codec) -> Seq<(u8, WidgetType)> {
    output_path_from(codec.widgets@, 0)
}

proof fn lemma_first_widget(ws: Seq<Widget>, nid: u8, i: int)
    requires
        is_first_widget(ws, nid, i),
    ensures
        has_widget(ws, nid),
        first_widget(ws, nid) == i,
{
    let k = first_widget(ws, nid);
    assert(is_first_widget(ws, nid, k));
    if k < i {
        assert(ws[k].nid != nid);
    } else if k > i {
        assert(ws[i].nid != nid);
    }
}

/// Index of the first widget of `ws` with node id `nid`, if any.
pub(crate) fn find_widget(ws: &Vec<Widget>, nid: u8) -> (r: Option<usize>)
    ensures
        r is None <==> !has_widget(ws@, nid),
        r is Some ==> is_first_widget(ws@, nid, r->Some_0 as int) && first_widget(ws@, nid)
            == r->Some_0 as int,
{
    let mut i: usize = 0;
    while i < ws.len()
        invariant
            i <= ws@.len(),
            forall|j: int| 0 <= j < i ==> ws@[j].nid != nid,
        decreases ws@.len() - i,
    {
        if ws[i].nid == nid {
            proof { lemma_first_widget(ws@, nid, i as int); }
            return Some(i);
        }
        i = i + 1;
    }
    None
}

/// Recursively trace from a widget back to a DAC via connection lists.
///
/// Returns true if a DAC was found. `path` accumulates (nid, type) pairs
/// in reverse order (pin first, DAC last).
fn trace_path_to_dac(codec: &Codec, nid: u8, path: &mut Vec<(u8, WidgetType)>, depth: usize) -> (found: bool)
    ensures
        found == trace_spec(codec.widgets@, nid, depth as nat) is Some,
        found ==> final(path)@ == old(path)@ + trace_spec(codec.widgets@, nid, depth as nat)->Some_0,
        !found ==> final(path)@ == old(path)@,
    decreases 17 - depth,
{
    let ghost ws = codec.widgets@;
    if depth > MAX_PATH_DEPTH {
        return false;
    }
    let idx = match find_widget(&codec.widgets, nid) {
        Some(i) => i,
        None => return false,
    };
    let widget = &codec.widgets[idx];
    path.push((nid, widget.widget_type));
    if widget.widget_type == WidgetType::AudioOutput {
        return true;
    }
    let ghost pushed = path@;
    let mut k: usize = 0;
    while k < widget.connections.len()
        invariant
            ws == codec.widgets@,
            idx < ws.len(),
            widget == ws[idx as int],
            has_widget(ws, nid),
            first_widget(ws, nid) == idx as int,
            widget.widget_type != WidgetType::AudioOutput,
            pushed == old(path)@.push((nid, widget.widget_type)),
            depth <= MAX_PATH_DEPTH,
            k <= widget.connections@.len(),
            path@ == pushed,
            trace_conns(ws, widget.connections@, 0, (depth + 1) as nat)
                == trace_conns(ws, widget.connections@, k as nat, (depth + 1) as nat),
        decreases widget.connections@.len() - k,
    {
        let conn_nid = widget.connections[k];
        if trace_path_to_dac(codec, conn_nid, path, depth + 1) {
            proof {
                let p = trace_spec(ws, conn_nid, (depth + 1) as nat)->Some_0;
                assert(trace_conns(ws, widget.connections@, k as nat, (depth + 1) as nat) == Some(p));
                assert(path@ =~= old(path)@ + trace_spec(ws, nid, depth as nat)->Some_0);
            }
            return true;
        }
        k = k + 1;
    }
    path.pop();
    proof {
        assert(path@ =~= old(path)@);
    }
    false
}

/// Find an audio output path: DAC -> [Mixer/Selector] -> Pin (speaker/headphone).
///
/// Returns a list of (NID, WidgetType) from DAC to pin, or empty if not found.
pub fn find_output_path(codec: &Codec) -> (path: Vec<(u8, WidgetType)>)
    ensures
        path@ == output_path(*codec),
{
    let ghost ws = codec.widgets@;
    let mut k: usize = 0;
    while k < codec.widgets.len()
        invariant
            ws == codec.widgets@,
            k <= ws.len(),
            output_path_from(ws, 0) == output_path_from(ws, k as nat),
        decreases ws.len() - k,
    {
        let w = &codec.widgets[k];
        let is_pin = w.widget_type == WidgetType::PinComplex && w.pin_caps & PIN_CAP_OUTPUT != 0
            && match &w.pin_config {
            Some(pc) => !pc.is_no_connection(),
            None => false,
        };
        if is_pin {
            let mut path: Vec<(u8, WidgetType)> = Vec::new();
            if trace_path_to_dac(codec, w.nid, &mut path, 0) {
                assert(path@ =~= trace_spec(ws, w.nid, 0)->Some_0);
                let r = reverse_path(&path);
                return r;
            }
        }
        k = k + 1;
    }
    Vec::new()
}

/// The elements of `v` in reverse order.
fn reverse_path(v: &Vec<(u8, WidgetType)>) -> (r: Vec<(u8, WidgetType)>)
    ensures
        r@ == v@.reverse(),
{
    let mut r: Vec<(u8, WidgetType)> = Vec::new();
    let mut i: usize = v.len();
    while i > 0
        invariant
            i <= v@.len(),
            r@ =~= v@.subrange(i as int, v@.len() as int).reverse(),
        decreases i,
    {
        i = i - 1;
        r.push(v[i]);
        assert(r@ =~= v@.subrange(i as int, v@.len() as int).reverse());
    }
    assert(v@.subrange(0, v@.len() as int) =~= v@);
    r
}

/// `p` is a chain of connections ending at a DAC: each entry names a widget of
/// `ws` and carries its type, each entry but the last is fed by the next one
/// (the next node is in its connection list) and is not a DAC, and the last is a DAC.
pub open spec fn is_chain_to_dac(ws: Seq<Widget>, p: Seq<(u8, WidgetType)>) -> bool {
    &&& p.len() >= 1
    &&& p[p.len() - 1].1 == WidgetType::AudioOutput
    &&& forall|i: int| 0 <= i < p.len() ==> {
        &&& has_widget(ws, #[trigger] p[i].0)
        &&& p[i].1 == ws[first_widget(ws, p[i].0)].widget_type
    }
    &&& forall|i: int| 0 <= i < p.len() - 1 ==> {
        &&& (#[trigger] p[i]).1 != WidgetType::AudioOutput
        &&& ws[first_widget(ws, p[i].0)].connections@.contains(p[i + 1].0)
    }
}

proof fn lemma_trace_chain(ws: Seq<Widget>, nid: u8, depth: nat)
    requires
        trace_spec(ws, nid, depth) is Some,
    ensures
        is_chain_to_dac(ws, trace_spec(ws, nid, depth)->Some_0),
        trace_spec(ws, nid, depth)->Some_0[0].0 == nid,
        trace_spec(ws, nid, depth)->Some_0.len() + depth <= MAX_PATH_DEPTH + 1,
    decreases 17 - depth, 0nat,
{
    let w = ws[first_widget(ws, nid)];
    if w.widget_type != WidgetType::AudioOutput {
        let conns = w.connections@;
        let j = lemma_conns_chain(ws, conns, 0, depth + 1);
        let rest = trace_conns(ws, conns, 0, depth + 1)->Some_0;
        let p = trace_spec(ws, nid, depth)->Some_0;
        assert(p =~= seq![(nid, w.widget_type)] + rest);
        assert forall|i: int| 0 <= i < p.len() implies {
            &&& has_widget(ws, #[trigger] p[i].0)
            &&& p[i].1 == ws[first_widget(ws, p[i].0)].widget_type
        } by {
            if i > 0 {
                assert(p[i] == rest[i - 1]);
            }
        }
        assert forall|i: int| 0 <= i < p.len() - 1 implies {
            &&& (#[trigger] p[i]).1 != WidgetType::AudioOutput
            &&& ws[first_widget(ws, p[i].0)].connections@.contains(p[i + 1].0)
        } by {
            if i > 0 {
                assert(p[i] == rest[i - 1]);
                assert(p[i + 1] == rest[i]);
            } else {
                assert(p[1] == rest[0]);
                assert(conns[j as int] == rest[0].0);
            }
        }
    }
}

proof fn lemma_conns_chain(ws: Seq<Widget>, conns: Seq<u8>, k: nat, depth: nat) -> (j: nat)
    requires
        trace_conns(ws, conns, k, depth) is Some,
    ensures
        k <= j < conns.len(),
        trace_conns(ws, conns, k, depth) == trace_spec(ws, conns[j as int], depth),
        is_chain_to_dac(ws, trace_conns(ws, conns, k, depth)->Some_0),
        trace_conns(ws, conns, k, depth)->Some_0[0].0 == conns[j as int],
        trace_conns(ws, conns, k, depth)->Some_0.len() + depth <= MAX_PATH_DEPTH + 1,
    decreases 17 - depth, conns.len() - k,
{
    if trace_spec(ws, conns[k as int], depth) is Some {
        lemma_trace_chain(ws, conns[k as int], depth);
        k
    } else {
        lemma_conns_chain(ws, conns, k + 1, depth)
    }
}

proof fn lemma_output_path_from(ws: Seq<Widget>, k: nat)
    ensures
        output_path_from(ws, k).len() == 0 || exists|i: int|
            k <= i < ws.len() && is_output_pin(#[trigger] ws[i])
                && output_path_from(ws, k) == trace_spec(ws, ws[i].nid, 0)->Some_0.reverse()
                && trace_spec(ws, ws[i].nid, 0) is Some,
    decreases ws.len() - k,
{
    if k < ws.len() {
        if is_output_pin(ws[k as int]) && trace_spec(ws, ws[k as int].nid, 0) is Some {
            assert(is_output_pin(ws[k as int]));
        } else {
            lemma_output_path_from(ws, k + 1);
        }
    }
}

/// The output path of a codec is empty or runs from a DAC to an output pin:
/// its first entry is a DAC, its last entry is the node id of an output-capable,
/// connected pin of the codec, each entry names a widget of the codec with its
/// type, each entry feeds the next one (appears in its connection list), no DAC
/// stands before the end, and it has at most 17 entries.
pub proof fn lemma_output_path_is_dac_to_pin(codec: Codec)
    ensures
        ({
            let ws = codec.widgets@;
            let p = output_path(codec);
            p.len() == 0 || {
                &&& p.len() <= MAX_PATH_DEPTH + 1
                &&& p[0].1 == WidgetType::AudioOutput
                &&& exists|i: int| 0 <= i < ws.len() && is_output_pin(#[trigger] ws[i]) && ws[i].nid == p[p.len() - 1].0
                &&& forall|i: int| 0 <= i < p.len() ==> {
                    &&& has_widget(ws, #[trigger] p[i].0)
                    &&& p[i].1 == ws[first_widget(ws, p[i].0)].widget_type
                }
                &&& forall|i: int| 0 < i < p.len() ==> {
                    &&& (#[trigger] p[i]).1 != WidgetType::AudioOutput
                    &&& ws[first_widget(ws, p[i].0)].connections@.contains(p[i - 1].0)
                }
            }
        }),
{
    let ws = codec.widgets@;
    lemma_output_path_from(ws, 0);
    let p = output_path(codec);
    if p.len() > 0 {
        let i = choose|i: int|
            0 <= i < ws.len() && is_output_pin(#[trigger] ws[i])
                && output_path_from(ws, 0) == trace_spec(ws, ws[i].nid, 0)->Some_0.reverse()
                && trace_spec(ws, ws[i].nid, 0) is Some;
        let t = trace_spec(ws, ws[i].nid, 0)->Some_0;
        lemma_trace_chain(ws, ws[i].nid, 0);
        assert(p[p.len() - 1] == t[0]);
        assert(p[0] == t[t.len() - 1]);
        assert forall|m: int| 0 <= m < p.len() implies {
            &&& has_widget(ws, #[trigger] p[m].0)
            &&& p[m].1 == ws[first_widget(ws, p[m].0)].widget_type
        } by {
            assert(p[m] == t[t.len() - 1 - m]);
        }
        assert forall|m: int| 0 < m < p.len() implies {
            &&& (#[trigger] p[m]).1 != WidgetType::AudioOutput
            &&& ws[first_widget(ws, p[m].0)].connections@.contains(p[m - 1].0)
        } by {
            assert(p[m] == t[t.len() - 1 - m]);
            assert(p[m - 1] == t[t.len() - 1 - m + 1]);
        }
    }
}

/// `q` is a walk through the connection lists of `ws` that ends at a DAC: each
/// node names a widget, each node after the first is in the connection list of
/// the node before it (a node id is looked up as the first widget with that id),
/// and the last node is an audio output.
pub open spec fn walk_to_dac(ws: Seq<Widget>, q: Seq<u8>) -> bool {
    &&& q.len() >= 1
    &&& forall|k: int| 0 <= k < q.len() ==> has_widget(ws, #[trigger] q[k])
    &&& forall|k: int| 0 <= k < q.len() - 1 ==> ws[first_widget(ws, #[trigger] q[k])].connections@.contains(q[k + 1])
    &&& ws[first_widget(ws, q[q.len() - 1])].widget_type == WidgetType::AudioOutput
}

/// The search through connections `conns[m..]` succeeds when the one at `j` does.
proof fn lemma_conns_reach(ws: Seq<Widget>, conns: Seq<u8>, m: nat, depth: nat, j: int)
    requires
        m <= j < conns.len(),
        depth <= MAX_PATH_DEPTH + 1,
        trace_spec(ws, conns[j], depth) is Some,
    ensures
        trace_conns(ws, conns, m, depth) is Some,
    decreases j - m,
{
    if trace_spec(ws, conns[m as int], depth) is None {
        lemma_conns_reach(ws, conns, m + 1, depth, j);
    }
}

/// The search from node `q[k]`, `k` steps from the pin, succeeds along a walk
/// to a DAC of at most 17 nodes.
proof fn lemma_walk_traced(ws: Seq<Widget>, q: Seq<u8>, k: int)
    requires
        walk_to_dac(ws, q),
        q.len() <= MAX_PATH_DEPTH + 1,
        0 <= k < q.len(),
    ensures
        trace_spec(ws, q[k], k as nat) is Some,
    decreases q.len() - k,
{
    assert(has_widget(ws, q[k]));
    let w = ws[first_widget(ws, q[k])];
    if w.widget_type != WidgetType::AudioOutput {
        assert(k < q.len() - 1);
        let conns = w.connections@;
        assert(conns.contains(q[k + 1]));
        let j = choose|j: int| 0 <= j < conns.len() && conns[j] == q[k + 1];
        lemma_walk_traced(ws, q, k + 1);
        lemma_conns_reach(ws, conns, 0, (k + 1) as nat, j);
    }
}

/// The search for an output path reaches every widget from `k` on up to `i`.
proof fn lemma_output_path_reaches(ws: Seq<Widget>, k: nat, i: int)
    requires
        k <= i < ws.len(),
        is_output_pin(ws[i]),
        trace_spec(ws, ws[i].nid, 0) is Some,
    ensures
        output_path_from(ws, k).len() > 0,
    decreases i - k,
{
    if is_output_pin(ws[k as int]) && trace_spec(ws, ws[k as int].nid, 0) is Some {
        lemma_trace_chain(ws, ws[k as int].nid, 0);
    } else {
        lemma_output_path_reaches(ws, k + 1, i);
    }
}

/// Every output-capable pin complex whose configuration default does not say
/// "no physical connection" (port connectivity other than 1: a jack, a fixed
/// function device such as an internal speaker, or both) is tried: when a walk
/// of at most 17 nodes through connection lists leads from it to a DAC, the
/// codec's output path is not empty.
pub proof fn lemma_connected_output_pin_gives_path(codec: Codec, i: int, q: Seq<u8>)
    requires
        0 <= i < codec.widgets@.len(),
        codec.widgets@[i].widget_type == WidgetType::PinComplex,
        codec.widgets@[i].pin_caps & PIN_CAP_OUTPUT != 0,
        codec.widgets@[i].pin_config is Some,
        codec.widgets@[i].pin_config->Some_0.port_connectivity != 0x01,
        walk_to_dac(codec.widgets@, q),
        q.len() <= MAX_PATH_DEPTH + 1,
        q[0] == codec.widgets@[i].nid,
    ensures
        output_path(codec).len() > 0,
{
    let ws = codec.widgets@;
    lemma_walk_traced(ws, q, 0);
    lemma_output_path_reaches(ws, 0, i);
}

// =============================================================================
// Widget tree discovery
// =============================================================================

/// The node ids named by one GET_CONNECTION_LIST_ENTRY response: two 16-bit
/// entries in long form (of which the low byte is kept), four 8-bit entries in
/// short form, lowest first.
pub open spec fn conn_entries(resp: u32, long_form: bool) -> Seq<u8> {
    if long_form {
        seq![(resp % 0x100) as u8, ((resp / 0x1_0000) % 0x100) as u8]
    } else {
        seq![
            (resp % 0x100) as u8,
            ((resp / 0x100) % 0x100) as u8,
            ((resp / 0x1_0000) % 0x100) as u8,
            ((resp / 0x100_0000) % 0x100) as u8,
        ]
    }
}

/// Append the entries of one connection list response to `connections`, stopping
/// when it holds `count` entries.
pub fn append_connections(connections: &mut Vec<u8>, resp: u32, long_form: bool, count: usize)
    requires
        old(connections)@.len() < count,
    ensures
        final(connections)@ == old(connections)@ + conn_entries(resp, long_form).take(
            if count - old(connections)@.len() < conn_entries(resp, long_form).len() {
                count - old(connections)@.len()
            } else {
                conn_entries(resp, long_form).len() as int
            },
        ),
{
    let ghost start = connections@;
    let ghost entries = conn_entries(resp, long_form);
    proof {
        assert(resp & 0xFF == resp % 0x100
            && (resp >> 8u32) & 0xFF == (resp / 0x100) % 0x100
            && (resp >> 16u32) & 0xFF == (resp / 0x1_0000) % 0x100
            && (resp >> 24u32) & 0xFF == (resp / 0x100_0000) % 0x100
            && (resp & 0xFFFF) as u8 == (resp % 0x100) as u8
            && ((resp >> 16u32) & 0xFFFF) as u8 == ((resp / 0x1_0000) % 0x100) as u8
        ) by (bit_vector);
    }
    if long_form {
        let nid0 = (resp & 0xFFFF) as u8;
        let nid1 = ((resp >> 16u32) & 0xFFFF) as u8;
        connections.push(nid0);
        if connections.len() < count {
            connections.push(nid1);
        }
    } else {
        let b0 = (resp & 0xFF) as u8;
        let b1 = ((resp >> 8u32) & 0xFF) as u8;
        let b2 = ((resp >> 16u32) & 0xFF) as u8;
        let b3 = ((resp >> 24u32) & 0xFF) as u8;
        if connections.len() < count {
            connections.push(b0);
        }
        if connections.len() < count {
            connections.push(b1);
        }
        if connections.len() < count {
            connections.push(b2);
        }
        if connections.len() < count {
            connections.push(b3);
        }
        let ghost n: int = if count - start.len() < 4 { count - start.len() } else { 4 };
        assert(entries == seq![b0, b1, b2, b3]);
        assert(connections@.len() == start.len() + n);
        assert(connections@ =~= start + entries.take(n));
        return;
    }
    assert(connections@ =~= start + entries.take(
        if count - start.len() < 2 { count - start.len() } else { 2 }));
}

/// The pin configuration a GET_CONFIGURATION_DEFAULT response describes.
pub open spec fn pin_config_of(val: u32) -> PinConfig {
    PinConfig {
        sequence: bit_field(val, 0x1, 0x10) as u8,
        association: bit_field(val, 0x10, 0x10) as u8,
        misc: bit_field(val, 0x100, 0x2) as u8,
        color: bit_field(val, 0x1000, 0x10) as u8,
        connection_type: bit_field(val, 0x1_0000, 0x10) as u8,
        default_device: bit_field(val, 0x10_0000, 0x10) as u8,
        location: bit_field(val, 0x100_0000, 0x40) as u8,
        port_connectivity: bit_field(val, 0x4000_0000, 0x4) as u8,
    }
}

/// A response, or 0 when the codec gave none.
pub open spec fn or_zero(resp: Option<u32>) -> u32 {
    match resp {
        Some(v) => v,
        None => 0,
    }
}

/// Where the amplifier capabilities of a widget are read: the widget itself when
/// it overrides the function group's defaults, the function group otherwise.
pub open spec fn amp_target(caps: u32, nid: u8, fg_nid: u8) -> u8 {
    if caps & WIDGET_CAP_AMP_OVERRIDE != 0 {
        nid
    } else {
        fg_nid
    }
}

/// What holds of every enumerated widget: its type is the one its capabilities
/// name, only pin complexes have a pin configuration or pin capabilities, only
/// widgets with a connection list have connections (at most 127), and only
/// widgets with an amplifier have its capabilities.
pub open spec fn widget_wf(w: Widget) -> bool {
    &&& w.widget_type == widget_type_of_caps(w.caps)
    &&& w.widget_type != WidgetType::PinComplex ==> w.pin_config is None && w.pin_caps == 0
    &&& w.caps & WIDGET_CAP_CONN_LIST == 0 ==> w.connections@.len() == 0
    &&& w.connections@.len() <= 0x7F
    &&& w.caps & WIDGET_CAP_OUT_AMP == 0 ==> w.amp_out_caps == 0
    &&& w.caps & WIDGET_CAP_IN_AMP == 0 ==> w.amp_in_caps == 0
}

/// Which query of a widget probe is outstanding.
#[derive(Clone, Copy, Debug, PartialEq, Eq, Structural)]
pub enum ProbePhase {
    /// Audio Widget Capabilities.
    Caps,
    /// Configuration default (pin complexes).
    PinConfig,
    /// Pin capabilities (pin complexes).
    PinCaps,
    /// Connection list length.
    ConnLen,
    /// Connection list entries at `conn_offset`.
    ConnEntries,
    /// Output amplifier capabilities.
    AmpOut,
    /// Input amplifier capabilities.
    AmpIn,
    /// Nothing more to ask.
    Complete,
}

/// The query after the pin queries: the connection list when the widget has one.
pub open spec fn phase_after_pin(caps: u32) -> ProbePhase {
    if caps & WIDGET_CAP_CONN_LIST != 0 {
        ProbePhase::ConnLen
    } else {
        phase_after_conn(caps)
    }
}

/// The query after the connection list: output amplifier caps when it has one.
pub open spec fn phase_after_conn(caps: u32) -> ProbePhase {
    if caps & WIDGET_CAP_OUT_AMP != 0 {
        ProbePhase::AmpOut
    } else {
        phase_after_out(caps)
    }
}

/// The query after the output amplifier: input amplifier caps when it has one.
pub open spec fn phase_after_out(caps: u32) -> ProbePhase {
    if caps & WIDGET_CAP_IN_AMP != 0 {
        ProbePhase::AmpIn
    } else {
        ProbePhase::Complete
    }
}

/// The queries that enumerate one widget of a function group, one response at a time.
pub struct WidgetProbe {
    pub codec: u8,
    pub fg_nid: u8,
    pub nid: u8,
    pub phase: ProbePhase,
    pub caps: u32,
    pub pin_config: Option<PinConfig>,
    pub pin_caps: u32,
    pub connections: Vec<u8>,
    pub conn_long: bool,
    pub conn_count: usize,
    pub conn_offset: u8,
    pub amp_out_caps: u32,
    pub amp_in_caps: u32,
}

/// One step of a widget probe: probe `a`, given `resp`, becomes probe `b`.
pub open spec fn probe_transition(a: WidgetProbe, resp: Option<u32>, b: WidgetProbe) -> bool {
    &&& b.codec == a.codec
    &&& b.fg_nid == a.fg_nid
    &&& b.nid == a.nid
    &&& a.phase != ProbePhase::Caps ==> b.caps == a.caps
    &&& a.phase != ProbePhase::PinConfig ==> b.pin_config == a.pin_config
    &&& a.phase != ProbePhase::PinCaps ==> b.pin_caps == a.pin_caps
    &&& a.phase != ProbePhase::ConnEntries ==> b.connections@ == a.connections@
    &&& a.phase != ProbePhase::AmpOut ==> b.amp_out_caps == a.amp_out_caps
    &&& a.phase != ProbePhase::AmpIn ==> b.amp_in_caps == a.amp_in_caps
    &&& a.phase != ProbePhase::ConnLen ==> b.conn_count == a.conn_count
                && b.conn_long == a.conn_long
    &&& a.phase == ProbePhase::Complete ==> b.phase == ProbePhase::Complete
    &&& a.phase == ProbePhase::Caps ==> {
                &&& b.caps == or_zero(resp)
                &&& b.phase == if widget_type_of_caps(or_zero(resp)) == WidgetType::PinComplex {
                    ProbePhase::PinConfig
                } else {
                    phase_after_pin(or_zero(resp))
                }
    }
    &&& a.phase == ProbePhase::PinConfig ==> {
                &&& b.pin_config == match resp {
                    Some(v) => Some(pin_config_of(v)),
                    None => None,
                }
                &&& b.phase == ProbePhase::PinCaps
    }
    &&& a.phase == ProbePhase::PinCaps ==> {
                &&& b.pin_caps == or_zero(resp)
                &&& b.phase == phase_after_pin(a.caps)
    }
    &&& a.phase == ProbePhase::ConnLen ==> {
                &&& b.conn_long == (or_zero(resp) & 0x80 != 0)
                &&& b.conn_count == or_zero(resp) & 0x7F
                &&& b.conn_offset == 0
                &&& b.phase == if or_zero(resp) & 0x7F == 0 {
                    phase_after_conn(a.caps)
                } else {
                    ProbePhase::ConnEntries
                }
    }
    &&& a.phase == ProbePhase::ConnEntries ==> {
                let entries = conn_entries(or_zero(resp), a.conn_long);
                let room = a.conn_count - a.connections@.len();
                &&& b.connections@ == a.connections@ + entries.take(
                    if room < entries.len() { room } else { entries.len() as int },
                )
                &&& b.phase == if b.connections@.len() < a.conn_count {
                    ProbePhase::ConnEntries
                } else {
                    phase_after_conn(a.caps)
                }
    }
    &&& a.phase == ProbePhase::AmpOut ==> {
                &&& b.amp_out_caps == or_zero(resp)
                &&& b.phase == phase_after_out(a.caps)
    }
    &&& a.phase == ProbePhase::AmpIn ==> {
                &&& b.amp_in_caps == or_zero(resp)
                &&& b.phase == ProbePhase::Complete
    }
}

impl WidgetProbe {
    /// The connection list being read stays short of its announced length, and the
    /// offset of the next entry query is the number of entries read so far.
    pub open spec fn wf(&self) -> bool {
        &&& self.conn_count <= 0x7F
        &&& self.connections@.len() <= self.conn_count
        &&& (self.phase == ProbePhase::Caps || self.phase == ProbePhase::PinConfig
            || self.phase == ProbePhase::PinCaps || self.phase == ProbePhase::ConnLen)
            ==> self.connections@.len() == 0
        &&& self.phase == ProbePhase::ConnEntries ==> {
            &&& self.connections@.len() < self.conn_count
            &&& self.conn_offset == self.connections@.len()
        }
        &&& self.phase == ProbePhase::Caps ==> self.caps == 0 && self.pin_config is None
            && self.pin_caps == 0 && self.amp_out_caps == 0 && self.amp_in_caps == 0
        &&& self.phase != ProbePhase::Caps && widget_type_of_caps(self.caps) != WidgetType::PinComplex
            ==> self.pin_config is None && self.pin_caps == 0
        &&& self.caps & WIDGET_CAP_CONN_LIST == 0 ==> self.connections@.len() == 0
        &&& (self.phase == ProbePhase::PinConfig || self.phase == ProbePhase::PinCaps)
            ==> widget_type_of_caps(self.caps) == WidgetType::PinComplex
        &&& (self.phase == ProbePhase::ConnLen || self.phase == ProbePhase::ConnEntries)
            ==> self.caps & WIDGET_CAP_CONN_LIST != 0
        &&& self.phase == ProbePhase::AmpOut ==> self.caps & WIDGET_CAP_OUT_AMP != 0
        &&& self.phase == ProbePhase::AmpIn ==> self.caps & WIDGET_CAP_IN_AMP != 0
        &&& self.caps & WIDGET_CAP_OUT_AMP == 0 ==> self.amp_out_caps == 0
        &&& self.caps & WIDGET_CAP_IN_AMP == 0 ==> self.amp_in_caps == 0
    }

    /// The verb of the outstanding query.
    pub open spec fn query(&self) -> u32 {
        match self.phase {
            ProbePhase::Caps => verb_short_spec(self.codec, self.nid, VERB_GET_PARAMETER, PARAM_AUDIO_WIDGET_CAP),
            ProbePhase::PinConfig => verb_short_spec(self.codec, self.nid, VERB_GET_CONFIG_DEFAULT, 0),
            ProbePhase::PinCaps => verb_short_spec(self.codec, self.nid, VERB_GET_PARAMETER, PARAM_PIN_CAP),
            ProbePhase::ConnLen => verb_short_spec(self.codec, self.nid, VERB_GET_PARAMETER, PARAM_CONN_LIST_LENGTH),
            ProbePhase::ConnEntries => verb_short_spec(self.codec, self.nid, VERB_GET_CONN_LIST, self.conn_offset),
            ProbePhase::AmpOut => verb_short_spec(
                self.codec,
                amp_target(self.caps, self.nid, self.fg_nid),
                VERB_GET_PARAMETER,
                PARAM_AMP_OUT_CAP,
            ),
            ProbePhase::AmpIn => verb_short_spec(
                self.codec,
                amp_target(self.caps, self.nid, self.fg_nid),
                VERB_GET_PARAMETER,
                PARAM_AMP_IN_CAP,
            ),
            ProbePhase::Complete => 0,
        }
    }

    /// Start enumerating widget `nid` of the function group `fg_nid` of codec `codec`:
    /// its capabilities are asked for first.
    pub fn new(codec: u8, fg_nid: u8, nid: u8) -> (p: WidgetProbe)
        ensures
            p.codec == codec,
            p.fg_nid == fg_nid,
            p.nid == nid,
            p.phase == ProbePhase::Caps,
            p.caps == 0,
            p.pin_config is None,
            p.pin_caps == 0,
            p.connections@.len() == 0,
            p.conn_count == 0,
            p.amp_out_caps == 0,
            p.amp_in_caps == 0,
            p.wf(),
    {
        assert(0u32 & WIDGET_CAP_CONN_LIST == 0 && 0u32 & WIDGET_CAP_OUT_AMP == 0 && 0u32 & WIDGET_CAP_IN_AMP == 0) by (bit_vector);
        WidgetProbe {
            codec,
            fg_nid,
            nid,
            phase: ProbePhase::Caps,
            caps: 0,
            pin_config: None,
            pin_caps: 0,
            connections: Vec::new(),
            conn_long: false,
            conn_count: 0,
            conn_offset: 0,
            amp_out_caps: 0,
            amp_in_caps: 0,
        }
    }

    /// The verb of the outstanding query.
    pub fn query_verb(&self) -> (v: u32)
        ensures
            v == self.query(),
    {
        match self.phase {
            ProbePhase::Caps => encode_verb_short(self.codec, self.nid, VERB_GET_PARAMETER, PARAM_AUDIO_WIDGET_CAP),
            ProbePhase::PinConfig => encode_verb_short(self.codec, self.nid, VERB_GET_CONFIG_DEFAULT, 0),
            ProbePhase::PinCaps => encode_verb_short(self.codec, self.nid, VERB_GET_PARAMETER, PARAM_PIN_CAP),
            ProbePhase::ConnLen => encode_verb_short(self.codec, self.nid, VERB_GET_PARAMETER, PARAM_CONN_LIST_LENGTH),
            ProbePhase::ConnEntries => encode_verb_short(self.codec, self.nid, VERB_GET_CONN_LIST, self.conn_offset),
            ProbePhase::AmpOut => {
                let target = if self.caps & WIDGET_CAP_AMP_OVERRIDE != 0 { self.nid } else { self.fg_nid };
                encode_verb_short(self.codec, target, VERB_GET_PARAMETER, PARAM_AMP_OUT_CAP)
            },
            ProbePhase::AmpIn => {
                let target = if self.caps & WIDGET_CAP_AMP_OVERRIDE != 0 { self.nid } else { self.fg_nid };
                encode_verb_short(self.codec, target, VERB_GET_PARAMETER, PARAM_AMP_IN_CAP)
            },
            ProbePhase::Complete => 0,
        }
    }

    /// Take the response to the outstanding query and move on to the next query
    /// (skipping the queries the widget's capabilities make pointless). A query
    /// without a response counts as answered 0, except the configuration default,
    /// which is then left unknown. Returns whether the widget is complete.
    pub fn step(&mut self, resp: Option<u32>) -> (complete: bool)
        requires
            old(self).wf(),
        ensures
            final(self).wf(),
            complete == (final(self).phase == ProbePhase::Complete),
            probe_transition(*old(self), resp, *final(self)),
    {
        let value = match resp {
            Some(v) => v,
            None => 0,
        };
        match self.phase {
            ProbePhase::Caps => {
                self.caps = value;
                if WidgetType::from_caps(value) == WidgetType::PinComplex {
                    self.phase = ProbePhase::PinConfig;
                } else {
                    self.phase = Self::after_pin(value);
                }
            },
            ProbePhase::PinConfig => {
                self.pin_config = match resp {
                    Some(v) => Some(PinConfig::decode(v)),
                    None => None,
                };
                self.phase = ProbePhase::PinCaps;
            },
            ProbePhase::PinCaps => {
                self.pin_caps = value;
                self.phase = Self::after_pin(self.caps);
            },
            ProbePhase::ConnLen => {
                self.conn_long = (value & 0x80) != 0;
                self.conn_count = (value & 0x7F) as usize;
                assert(value & 0x7F <= 0x7F) by (bit_vector);
                self.conn_offset = 0;
                if self.conn_count == 0 {
                    self.phase = Self::after_conn(self.caps);
                } else {
                    self.phase = ProbePhase::ConnEntries;
                }
            },
            ProbePhase::ConnEntries => {
                append_connections(&mut self.connections, value, self.conn_long, self.conn_count);
                if self.connections.len() < self.conn_count {
                    self.conn_offset = self.connections.len() as u8;
                } else {
                    self.phase = Self::after_conn(self.caps);
                }
            },
            ProbePhase::AmpOut => {
                self.amp_out_caps = value;
                self.phase = Self::after_out(self.caps);
            },
            ProbePhase::AmpIn => {
                self.amp_in_caps = value;
                self.phase = ProbePhase::Complete;
            },
            ProbePhase::Complete => {},
        }
        self.phase == ProbePhase::Complete
    }

    fn after_pin(caps: u32) -> (p: ProbePhase)
        ensures
            p == phase_after_pin(caps),
    {
        if caps & WIDGET_CAP_CONN_LIST != 0 {
            ProbePhase::ConnLen
        } else {
            Self::after_conn(caps)
        }
    }

    fn after_conn(caps: u32) -> (p: ProbePhase)
        ensures
            p == phase_after_conn(caps),
    {
        if caps & WIDGET_CAP_OUT_AMP != 0 {
            ProbePhase::AmpOut
        } else {
            Self::after_out(caps)
        }
    }

    fn after_out(caps: u32) -> (p: ProbePhase)
        ensures
            p == phase_after_out(caps),
    {
        if caps & WIDGET_CAP_IN_AMP != 0 {
            ProbePhase::AmpIn
        } else {
            ProbePhase::Complete
        }
    }

    /// The widget the answers describe.
    pub fn into_widget(self) -> (w: Widget)
        requires
            self.wf(),
            self.phase == ProbePhase::Complete,
        ensures
            widget_wf(w),
            w == probe_widget(self),
            w.nid == self.nid,
            w.widget_type == widget_type_of_caps(self.caps),
            w.caps == self.caps,
            w.pin_config == self.pin_config,
            w.pin_caps == self.pin_caps,
            w.connections@ == self.connections@,
            w.amp_out_caps == self.amp_out_caps,
            w.amp_in_caps == self.amp_in_caps,
    {
        Widget {
            nid: self.nid,
            widget_type: WidgetType::from_caps(self.caps),
            caps: self.caps,
            pin_config: self.pin_config,
            pin_caps: self.pin_caps,
            connections: self.connections,
            amp_out_caps: self.amp_out_caps,
            amp_in_caps: self.amp_in_caps,
        }
    }
}

/// Codec address `a` answered on the link: its bit of STATESTS is set.
pub open spec fn codec_present(statests: u16, a: int) -> bool {
    0 <= a < 15 && (statests as int / pow2_16(a)) % 2 == 1
}

/// 2 to the power `a`, for bit positions of a 16-bit register.
pub open spec fn pow2_16(a: int) -> int
    decreases a,
{
    if a <= 0 {
        1
    } else {
        2 * pow2_16(a - 1)
    }
}

/// The first codec address from `a` on (below 15) that answered, or 15 when none did.
pub open spec fn next_present(statests: u16, a: int) -> int
    decreases 15 - a,
{
    if a >= 15 {
        15
    } else if codec_present(statests, a) {
        a
    } else {
        next_present(statests, a + 1)
    }
}

/// Where a codec discovery stands.
#[derive(Clone, Copy, Debug, PartialEq, Eq, Structural)]
pub enum DiscoveryPhase {
    /// Nothing asked yet.
    Start,
    /// The vendor/device id of the root node was asked for.
    VendorId,
    /// The function group range of the root node was asked for.
    SubNodes,
    /// The type of function group `fg_nid` was asked for.
    FgType,
    /// The audio function group was told to power on.
    PowerOn,
    /// The widget range of the audio function group was asked for.
    WidgetCount,
    /// The widget probe has a query outstanding.
    Widget,
    /// Every codec has been enumerated.
    Finished,
}

/// What a codec discovery asks for next.
#[derive(Clone, Copy, Debug)]
pub enum DiscoveryStep {
    /// Send this verb and hand back its response (`None` when none came).
    Verb(u32),
    /// Discovery is over.
    Done,
}

/// Enumeration of every codec on the link, one verb at a time: for each codec
/// whose STATESTS bit is set, its vendor and device id, its function groups,
/// and the widgets of its audio function group (which is powered on first).
pub struct CodecDiscovery {
    pub statests: u16,
    pub phase: DiscoveryPhase,
    /// Codecs enumerated so far, in address order.
    pub codecs: Vec<Codec>,
    /// Address of the codec being enumerated.
    pub addr: u8,
    pub vendor_id: u16,
    pub device_id: u16,
    pub fg_start: u8,
    pub fg_count: u8,
    pub fg_idx: u8,
    pub fg_nid: u8,
    pub afg_nid: u8,
    /// Widgets of the last audio function group enumerated for this codec.
    pub widgets: Vec<Widget>,
    /// Widgets of the audio function group being enumerated.
    pub pending: Vec<Widget>,
    pub w_start: u8,
    pub w_count: u8,
    pub w_idx: u8,
    pub probe: WidgetProbe,
}

/// A codec as discovery leaves it: it answered on the link and all its widgets
/// satisfy [`widget_wf`].
pub open spec fn codec_wf(statests: u16, c: Codec) -> bool {
    &&& codec_present(statests, c.address as int)
    &&& forall|i: int| 0 <= i < c.widgets@.len() ==> widget_wf(#[trigger] c.widgets@[i])
}

/// The parts of a discovery that hold between steps: recorded codecs answered,
/// are well formed, lie below `bound` and are in increasing address order, and
/// all widgets collected so far are well formed.
pub open spec fn parts_wf(d: CodecDiscovery, bound: int) -> bool {
    &&& forall|i: int| 0 <= i < d.codecs@.len() ==> {
        &&& codec_wf(d.statests, #[trigger] d.codecs@[i])
        &&& d.codecs@[i].address < bound
    }
    &&& forall|i: int, j: int| 0 <= i < j < d.codecs@.len()
        ==> #[trigger] d.codecs@[i].address < #[trigger] d.codecs@[j].address
    &&& forall|i: int| 0 <= i < d.widgets@.len() ==> widget_wf(#[trigger] d.widgets@[i])
    &&& forall|i: int| 0 <= i < d.pending@.len() ==> widget_wf(#[trigger] d.pending@[i])
    &&& d.fg_idx <= d.fg_count
    &&& d.w_idx <= d.w_count
}

/// `b` is `a` moved to the first answering codec from `from` on, asking for its
/// vendor id, or finished when there is none.
pub open spec fn sought(a: CodecDiscovery, from: int, b: CodecDiscovery) -> bool {
    &&& b.addr == next_present(a.statests, from)
    &&& b.phase == if b.addr == 15 { DiscoveryPhase::Finished } else { DiscoveryPhase::VendorId }
    &&& b == (CodecDiscovery { addr: b.addr, phase: b.phase, ..a })
}

/// The codec that discovery state `a` describes.
pub open spec fn codec_record(a: CodecDiscovery) -> Codec {
    Codec {
        address: a.addr,
        vendor_id: a.vendor_id,
        device_id: a.device_id,
        widgets: a.widgets,
        afg_nid: a.afg_nid,
    }
}

/// `m` is `a` with its codec recorded and its widget list emptied.
pub open spec fn recorded(a: CodecDiscovery, m: CodecDiscovery) -> bool {
    &&& m.codecs@ == a.codecs@.push(codec_record(a))
    &&& m.widgets@.len() == 0
    &&& m == (CodecDiscovery { codecs: m.codecs, widgets: m.widgets, ..a })
}

/// `b` is `a` moved on to its next function group (asking for its type), or,
/// when it has none left, with the codec recorded and moved on to the next codec.
pub open spec fn fg_advanced(a: CodecDiscovery, b: CodecDiscovery) -> bool {
    if a.fg_idx < a.fg_count {
        b == (CodecDiscovery {
            fg_nid: ((a.fg_start + a.fg_idx) % 256) as u8,
            phase: DiscoveryPhase::FgType,
            ..a
        })
    } else {
        exists|m: CodecDiscovery| #[trigger] recorded(a, m) && sought(m, a.addr + 1, b)
    }
}

/// A probe as it starts on widget `nid`.
pub open spec fn probe_fresh(p: WidgetProbe, codec: u8, fg_nid: u8, nid: u8) -> bool {
    &&& p.codec == codec
    &&& p.fg_nid == fg_nid
    &&& p.nid == nid
    &&& p.phase == ProbePhase::Caps
    &&& p.caps == 0
    &&& p.pin_config is None
    &&& p.pin_caps == 0
    &&& p.connections@.len() == 0
    &&& p.conn_count == 0
    &&& p.amp_out_caps == 0
    &&& p.amp_in_caps == 0
}

/// `m` is `a` with the widgets of its audio function group kept and the group done.
pub open spec fn widgets_kept(a: CodecDiscovery, m: CodecDiscovery) -> bool {
    &&& m.widgets == a.pending
    &&& m.pending@.len() == 0
    &&& m.fg_idx == a.fg_idx + 1
    &&& m == (CodecDiscovery { widgets: m.widgets, pending: m.pending, fg_idx: m.fg_idx, ..a })
}

/// `b` is `a` moved on to its next widget (probing it from its capabilities), or,
/// when it has none left, with its widgets kept and moved on to the next function group.
pub open spec fn widget_advanced(a: CodecDiscovery, b: CodecDiscovery) -> bool {
    if a.w_idx < a.w_count {
        &&& probe_fresh(b.probe, a.addr, a.fg_nid, ((a.w_start + a.w_idx) % 256) as u8)
        &&& b == (CodecDiscovery { probe: b.probe, phase: DiscoveryPhase::Widget, ..a })
    } else {
        exists|m: CodecDiscovery| #[trigger] widgets_kept(a, m) && fg_advanced(m, b)
    }
}

/// The widget that a completed probe describes.
pub open spec fn probe_widget(p: WidgetProbe) -> Widget {
    Widget {
        nid: p.nid,
        widget_type: widget_type_of_caps(p.caps),
        caps: p.caps,
        pin_config: p.pin_config,
        pin_caps: p.pin_caps,
        connections: p.connections,
        amp_out_caps: p.amp_out_caps,
        amp_in_caps: p.amp_in_caps,
    }
}

/// `m` is `a` with the function group range of response `v` set and its widgets cleared.
pub open spec fn function_groups_set(a: CodecDiscovery, v: u32, m: CodecDiscovery) -> bool {
    &&& m.widgets@.len() == 0
    &&& m == (CodecDiscovery {
        fg_start: ((v / 0x1_0000) % 0x100) as u8,
        fg_count: (v % 0x100) as u8,
        fg_idx: 0,
        afg_nid: 0,
        widgets: m.widgets,
        ..a
    })
}

/// `m` is `a` with the widget range of response `v` set and no widget collected yet.
pub open spec fn widget_range_set(a: CodecDiscovery, v: u32, m: CodecDiscovery) -> bool {
    &&& m.pending@.len() == 0
    &&& m == (CodecDiscovery {
        w_start: ((v / 0x1_0000) % 0x100) as u8,
        w_count: (v % 0x100) as u8,
        w_idx: 0,
        pending: m.pending,
        ..a
    })
}

/// `m` is `a` with no widgets for its audio function group and the group done.
pub open spec fn no_widgets(a: CodecDiscovery, m: CodecDiscovery) -> bool {
    &&& m.widgets@.len() == 0
    &&& m == (CodecDiscovery { widgets: m.widgets, fg_idx: (a.fg_idx + 1) as u8, ..a })
}

/// `m` is `a` with the widget of the completed probe `p` collected.
pub open spec fn widget_recorded(a: CodecDiscovery, p: WidgetProbe, m: CodecDiscovery) -> bool {
    &&& p.phase == ProbePhase::Complete
    &&& m.pending@ == a.pending@.push(probe_widget(p))
    &&& m == (CodecDiscovery { pending: m.pending, probe: m.probe, w_idx: (a.w_idx + 1) as u8, ..a })
}

/// One step of a discovery: state `a`, given the response `resp` to its
/// outstanding query, becomes state `b`.
pub open spec fn discovery_transition(a: CodecDiscovery, resp: Option<u32>, b: CodecDiscovery) -> bool {
    match a.phase {
        DiscoveryPhase::Start => sought(a, 0, b),
        DiscoveryPhase::VendorId => match resp {
            Some(v) => b == (CodecDiscovery {
                vendor_id: (v / 0x1_0000) as u16,
                device_id: (v % 0x1_0000) as u16,
                phase: DiscoveryPhase::SubNodes,
                ..a
            }),
            None => sought(a, a.addr + 1, b),
        },
        DiscoveryPhase::SubNodes => match resp {
            Some(v) => exists|m: CodecDiscovery| #[trigger] function_groups_set(a, v, m) && fg_advanced(m, b),
            None => sought(a, a.addr + 1, b),
        },
        DiscoveryPhase::FgType => {
            if resp is Some && resp->Some_0 % 0x100 == 1 {
                b == (CodecDiscovery { afg_nid: a.fg_nid, phase: DiscoveryPhase::PowerOn, ..a })
            } else {
                fg_advanced(CodecDiscovery { fg_idx: (a.fg_idx + 1) as u8, ..a }, b)
            }
        },
        DiscoveryPhase::PowerOn => b == (CodecDiscovery { phase: DiscoveryPhase::WidgetCount, ..a }),
        DiscoveryPhase::WidgetCount => match resp {
            Some(v) => exists|m: CodecDiscovery| #[trigger] widget_range_set(a, v, m) && widget_advanced(m, b),
            None => exists|m: CodecDiscovery| #[trigger] no_widgets(a, m) && fg_advanced(m, b),
        },
        DiscoveryPhase::Widget => exists|p: WidgetProbe| #[trigger] probe_transition(a.probe, resp, p) && {
            if p.phase == ProbePhase::Complete {
                exists|m: CodecDiscovery| #[trigger] widget_recorded(a, p, m) && widget_advanced(m, b)
            } else {
                b == (CodecDiscovery { probe: p, ..a })
            }
        },
        DiscoveryPhase::Finished => b == a,
    }
}

/// A function group is the audio function group exactly when bits 7:0 of its
/// Function Group Type response are 0x01, whatever the higher bits (such as
/// bit 8, unsolicited capable) hold: it is then recorded as the codec's audio
/// function group and told to power on (D0). Any other answer, or none, leaves
/// the recorded audio function group as it was.
pub proof fn lemma_audio_function_group_by_low_byte(a: CodecDiscovery, resp: Option<u32>, b: CodecDiscovery)
    requires
        a.phase == DiscoveryPhase::FgType,
        discovery_transition(a, resp, b),
    ensures
        resp matches Some(v) && v % 0x100 == 1 ==> {
            &&& b.afg_nid == a.fg_nid
            &&& b.phase == DiscoveryPhase::PowerOn
            &&& b.query() == verb_short_spec(a.addr, a.fg_nid, VERB_SET_POWER_STATE, 0)
        },
        !(resp matches Some(v) && v % 0x100 == 1) ==> b.afg_nid == a.afg_nid && b.phase != DiscoveryPhase::PowerOn,
{
    if !(resp matches Some(v) && v % 0x100 == 1) {
        let a1 = CodecDiscovery { fg_idx: (a.fg_idx + 1) as u8, ..a };
        if !(a1.fg_idx < a1.fg_count) {
            let m = choose|m: CodecDiscovery| #[trigger] recorded(a1, m) && sought(m, a1.addr + 1, b);
            assert(m.afg_nid == a.afg_nid);
        }
    }
}

/// A codec's vendor id answer is split into the vendor id (bits 31:16) and the
/// device id (bits 15:0): together they give the answer back. The subordinate
/// node count of the root node is asked for next.
pub proof fn lemma_vendor_device_split(a: CodecDiscovery, v: u32, b: CodecDiscovery)
    requires
        a.phase == DiscoveryPhase::VendorId,
        discovery_transition(a, Some(v), b),
    ensures
        b.vendor_id as int * 0x1_0000 + b.device_id as int == v as int,
        b.addr == a.addr,
        b.phase == DiscoveryPhase::SubNodes,
        b.query() == verb_short_spec(a.addr, 0, VERB_GET_PARAMETER, PARAM_SUBORDINATE_NODE_COUNT),
{
}

/// The function group range of a codec's root node comes from its subordinate
/// node count answer: the first group is the node in bits 23:16, and when bits
/// 7:0 count at least one group, its type is asked for first.
pub proof fn lemma_function_groups_from_answer(a: CodecDiscovery, v: u32, b: CodecDiscovery)
    requires
        a.phase == DiscoveryPhase::SubNodes,
        discovery_transition(a, Some(v), b),
        v % 0x100 > 0,
    ensures
        b.phase == DiscoveryPhase::FgType,
        b.addr == a.addr,
        b.fg_nid as int == (v / 0x1_0000) % 0x100,
        b.fg_count as int == v % 0x100,
        b.query() == verb_short_spec(a.addr, b.fg_nid, VERB_GET_PARAMETER, PARAM_FUNCTION_GROUP_TYPE),
{
    let m = choose|m: CodecDiscovery| #[trigger] function_groups_set(a, v, m) && fg_advanced(m, b);
    assert(m.fg_idx == 0 && m.fg_count as int == v % 0x100);
}

impl CodecDiscovery {
    pub open spec fn wf(&self) -> bool {
        &&& self.addr <= 15
        &&& self.phase == DiscoveryPhase::Finished ==> self.addr == 15
        &&& self.phase != DiscoveryPhase::Start && self.phase != DiscoveryPhase::Finished
            ==> codec_present(self.statests, self.addr as int)
        &&& self.phase == DiscoveryPhase::Start ==> self.addr == 0 && self.codecs@.len() == 0
        &&& parts_wf(*self, if self.phase == DiscoveryPhase::Finished { 15 } else { self.addr as int })
        &&& (self.phase == DiscoveryPhase::FgType || self.phase == DiscoveryPhase::PowerOn
            || self.phase == DiscoveryPhase::WidgetCount || self.phase == DiscoveryPhase::Widget) ==> {
            &&& self.fg_idx < self.fg_count
            &&& self.fg_nid == (self.fg_start + self.fg_idx) % 256
        }
        &&& self.phase == DiscoveryPhase::Widget ==> {
            &&& self.probe.wf()
            &&& self.probe.phase != ProbePhase::Complete
            &&& self.probe.codec == self.addr
            &&& self.probe.fg_nid == self.fg_nid
            &&& self.w_idx < self.w_count
            &&& self.probe.nid == (self.w_start + self.w_idx) % 256
        }
    }

    /// The verb of the outstanding query.
    pub open spec fn query(&self) -> u32 {
        match self.phase {
            DiscoveryPhase::VendorId => verb_short_spec(self.addr, 0, VERB_GET_PARAMETER, PARAM_VENDOR_ID),
            DiscoveryPhase::SubNodes => verb_short_spec(self.addr, 0, VERB_GET_PARAMETER, PARAM_SUBORDINATE_NODE_COUNT),
            DiscoveryPhase::FgType => verb_short_spec(self.addr, self.fg_nid, VERB_GET_PARAMETER, PARAM_FUNCTION_GROUP_TYPE),
            DiscoveryPhase::PowerOn => verb_short_spec(self.addr, self.fg_nid, VERB_SET_POWER_STATE, 0),
            DiscoveryPhase::WidgetCount => verb_short_spec(self.addr, self.fg_nid, VERB_GET_PARAMETER, PARAM_SUBORDINATE_NODE_COUNT),
            DiscoveryPhase::Widget => self.probe.query(),
            _ => 0,
        }
    }

    /// Start discovering the codecs whose bits are set in the STATESTS value `statests`.
    pub fn new(statests: u16) -> (d: CodecDiscovery)
        ensures
            d.statests == statests,
            d.phase == DiscoveryPhase::Start,
            d.codecs@.len() == 0,
            d.wf(),
    {
        CodecDiscovery {
            statests,
            phase: DiscoveryPhase::Start,
            codecs: Vec::new(),
            addr: 0,
            vendor_id: 0,
            device_id: 0,
            fg_start: 0,
            fg_count: 0,
            fg_idx: 0,
            fg_nid: 0,
            afg_nid: 0,
            widgets: Vec::new(),
            pending: Vec::new(),
            w_start: 0,
            w_count: 0,
            w_idx: 0,
            probe: WidgetProbe::new(0, 0, 0),
        }
    }

    /// Whether codec address `a` answered on the link.
    fn present(statests: u16, a: u8) -> (r: bool)
        requires
            a < 15,
        ensures
            r == codec_present(statests, a as int),
    {
        let r = statests & (1u16 << a) != 0;
        proof {
            lemma_bit_is_pow2(statests, a);
        }
        r
    }

    /// Move to the first answering codec from address `from` on and ask for its
    /// vendor id, or finish when there is none.
    #[verifier::loop_isolation(false)]
    fn seek_codec(&mut self, from: u8) -> (r: DiscoveryStep)
        requires
            from <= 15,
            parts_wf(*old(self), from as int),
        ensures
            final(self).wf(),
            sought(*old(self), from as int, *final(self)),
            r is Done <==> final(self).phase == DiscoveryPhase::Finished,
            r is Verb ==> r->Verb_0 == final(self).query(),
    {
        let mut a = from;
        while a < 15
            invariant
                from <= a <= 15,
                *self == *old(self),
                next_present(self.statests, from as int) == next_present(self.statests, a as int),
            decreases 15 - a,
        {
            if Self::present(self.statests, a) {
                self.addr = a;
                self.phase = DiscoveryPhase::VendorId;
                return DiscoveryStep::Verb(encode_verb_short(a, 0, VERB_GET_PARAMETER, PARAM_VENDOR_ID));
            }
            a = a + 1;
        }
        self.addr = 15;
        self.phase = DiscoveryPhase::Finished;
        DiscoveryStep::Done
    }

    /// Go on with the next function group of the codec, or, when there is none,
    /// record the codec and go on with the next codec.
    fn advance_fg(&mut self) -> (r: DiscoveryStep)
        requires
            codec_present(old(self).statests, old(self).addr as int),
            parts_wf(*old(self), old(self).addr as int),
            old(self).fg_idx <= old(self).fg_count,
        ensures
            final(self).wf(),
            fg_advanced(*old(self), *final(self)),
            r is Done <==> final(self).phase == DiscoveryPhase::Finished,
            r is Verb ==> r->Verb_0 == final(self).query(),
    {
        if self.fg_idx < self.fg_count {
            self.fg_nid = self.fg_start.wrapping_add(self.fg_idx);
            self.phase = DiscoveryPhase::FgType;
            DiscoveryStep::Verb(encode_verb_short(self.addr, self.fg_nid, VERB_GET_PARAMETER, PARAM_FUNCTION_GROUP_TYPE))
        } else {
            let mut widgets: Vec<Widget> = Vec::new();
            core::mem::swap(&mut widgets, &mut self.widgets);
            let codec = Codec {
                address: self.addr,
                vendor_id: self.vendor_id,
                device_id: self.device_id,
                widgets,
                afg_nid: self.afg_nid,
            };
            assert(codec == codec_record(*old(self)));
            self.codecs.push(codec);
            let ghost mid = *self;
            assert(mid.codecs@.drop_last() =~= old(self).codecs@);
            assert forall|i: int, j: int| 0 <= i < j < mid.codecs@.len()
                implies #[trigger] mid.codecs@[i].address < #[trigger] mid.codecs@[j].address by {
                if j < mid.codecs@.len() - 1 {
                    assert(mid.codecs@[j] == old(self).codecs@[j]);
                }
                assert(mid.codecs@[i] == old(self).codecs@[i] || i == mid.codecs@.len() - 1);
            }
            let next = self.addr + 1;
            let r = self.seek_codec(next);
            assert(recorded(*old(self), mid));
            r
        }
    }

    /// Go on with the next widget of the audio function group, or, when there is
    /// none, keep the enumerated widgets and go on with the next function group.
    fn advance_widget(&mut self) -> (r: DiscoveryStep)
        requires
            codec_present(old(self).statests, old(self).addr as int),
            parts_wf(*old(self), old(self).addr as int),
            old(self).fg_idx < old(self).fg_count,
            old(self).fg_nid == (old(self).fg_start + old(self).fg_idx) % 256,
            old(self).w_idx <= old(self).w_count,
        ensures
            final(self).wf(),
            widget_advanced(*old(self), *final(self)),
            r is Done <==> final(self).phase == DiscoveryPhase::Finished,
            r is Verb ==> r->Verb_0 == final(self).query(),
    {
        if self.w_idx < self.w_count {
            let nid = self.w_start.wrapping_add(self.w_idx);
            self.probe = WidgetProbe::new(self.addr, self.fg_nid, nid);
            self.phase = DiscoveryPhase::Widget;
            DiscoveryStep::Verb(self.probe.query_verb())
        } else {
            let mut done: Vec<Widget> = Vec::new();
            core::mem::swap(&mut done, &mut self.pending);
            self.widgets = done;
            self.fg_idx = self.fg_idx + 1;
            let ghost mid = *self;
            let r = self.advance_fg();
            assert(widgets_kept(*old(self), mid));
            r
        }
    }

    /// Take the response to the outstanding query and say what to send next.
    ///
    /// For each codec whose STATESTS bit is set, in address order: its vendor and
    /// device id (bits 31:16 and 15:0 of the root node's vendor id parameter) and
    /// its function group range (start in bits 23:16, count in bits 7:0) are asked
    /// for, and a codec for which either stays unanswered is skipped. Each function
    /// group's type is asked for; an audio function group (type 1) is recorded,
    /// powered on (D0), its widget range asked for and its widgets enumerated one
    /// [`WidgetProbe`] at a time; the widgets of the last audio function group are
    /// kept. Node ids that pass 255 wrap around.
    pub fn step(&mut self, resp: Option<u32>) -> (r: DiscoveryStep)
        requires
            old(self).wf(),
        ensures
            final(self).wf(),
            discovery_transition(*old(self), resp, *final(self)),
            r is Done <==> final(self).phase == DiscoveryPhase::Finished,
            r is Verb ==> r->Verb_0 == final(self).query(),
    {
        match self.phase {
            DiscoveryPhase::Start => self.seek_codec(0),
            DiscoveryPhase::VendorId => match resp {
                Some(v) => {
                    proof {
                        assert(v >> 16u32 == v / 0x1_0000 && v & 0xFFFF == v % 0x1_0000) by (bit_vector);
                    }
                    self.vendor_id = (v >> 16u32) as u16;
                    self.device_id = (v & 0xFFFF) as u16;
                    self.phase = DiscoveryPhase::SubNodes;
                    DiscoveryStep::Verb(encode_verb_short(self.addr, 0, VERB_GET_PARAMETER, PARAM_SUBORDINATE_NODE_COUNT))
                },
                None => {
                    let next = self.addr + 1;
                    self.seek_codec(next)
                },
            },
            DiscoveryPhase::SubNodes => match resp {
                Some(v) => {
                    proof {
                        assert((v >> 16u32) & 0xFF == (v / 0x1_0000) % 0x100 && v & 0xFF == v % 0x100) by (bit_vector);
                    }
                    self.fg_start = ((v >> 16u32) & 0xFF) as u8;
                    self.fg_count = (v & 0xFF) as u8;
                    self.fg_idx = 0;
                    self.afg_nid = 0;
                    self.widgets = Vec::new();
                    let ghost mid = *self;
                    let r = self.advance_fg();
                    assert(function_groups_set(*old(self), v, mid));
                    r
                },
                None => {
                    let next = self.addr + 1;
                    self.seek_codec(next)
                },
            },
            DiscoveryPhase::FgType => {
                let is_audio = match resp {
                    Some(v) => (v & 0xFF) == 0x01,
                    None => false,
                };
                proof {
                    if resp is Some {
                        let v = resp->Some_0;
                        assert(v & 0xFF == v % 0x100) by (bit_vector);
                    }
                }
                if is_audio {
                    self.afg_nid = self.fg_nid;
                    self.phase = DiscoveryPhase::PowerOn;
                    DiscoveryStep::Verb(encode_verb_short(self.addr, self.fg_nid, VERB_SET_POWER_STATE, 0x00))
                } else {
                    self.fg_idx = self.fg_idx + 1;
                    self.advance_fg()
                }
            },
            DiscoveryPhase::PowerOn => {
                self.phase = DiscoveryPhase::WidgetCount;
                DiscoveryStep::Verb(encode_verb_short(self.addr, self.fg_nid, VERB_GET_PARAMETER, PARAM_SUBORDINATE_NODE_COUNT))
            },
            DiscoveryPhase::WidgetCount => match resp {
                Some(v) => {
                    proof {
                        assert((v >> 16u32) & 0xFF == (v / 0x1_0000) % 0x100 && v & 0xFF == v % 0x100) by (bit_vector);
                    }
                    self.w_start = ((v >> 16u32) & 0xFF) as u8;
                    self.w_count = (v & 0xFF) as u8;
                    self.w_idx = 0;
                    self.pending = Vec::new();
                    let ghost mid = *self;
                    let r = self.advance_widget();
                    assert(widget_range_set(*old(self), v, mid));
                    r
                },
                None => {
                    self.widgets = Vec::new();
                    self.fg_idx = self.fg_idx + 1;
                    let ghost mid = *self;
                    let r = self.advance_fg();
                    assert(no_widgets(*old(self), mid));
                    r
                },
            },
            DiscoveryPhase::Widget => {
                if self.probe.step(resp) {
                    let ghost stepped = self.probe;
                    let mut probe = WidgetProbe::new(0, 0, 0);
                    core::mem::swap(&mut probe, &mut self.probe);
                    let widget = probe.into_widget();
                    self.pending.push(widget);
                    self.w_idx = self.w_idx + 1;
                    let ghost mid = *self;
                    let r = self.advance_widget();
                    assert(widget_recorded(*old(self), stepped, mid));
                    assert(probe_transition(old(self).probe, resp, stepped));
                    r
                } else {
                    DiscoveryStep::Verb(self.probe.query_verb())
                }
            },
            DiscoveryPhase::Finished => DiscoveryStep::Done,
        }
    }

    /// The codecs discovered, in address order.
    pub fn into_codecs(self) -> (codecs: Vec<Codec>)
        requires
            self.wf(),
        ensures
            codecs@ == self.codecs@,
            forall|i: int| 0 <= i < codecs@.len() ==> codec_wf(self.statests, #[trigger] codecs@[i]),
            forall|i: int, j: int| 0 <= i < j < codecs@.len() ==> #[trigger] codecs@[i].address < #[trigger] codecs@[j].address,
            forall|i: int| 0 <= i < codecs@.len() ==> #[trigger] codecs@[i].address < 15,
            codecs@.len() <= 15,
    {
        proof {
            lemma_increasing_addresses(self.codecs@);
        }
        self.codecs
    }
}

/// Codecs with strictly increasing addresses below 15 number at most 15: the
/// codec at index `i` has address `i` or more.
proof fn lemma_increasing_addresses(cs: Seq<Codec>)
    requires
        forall|i: int, j: int| 0 <= i < j < cs.len() ==> #[trigger] cs[i].address < #[trigger] cs[j].address,
        forall|i: int| 0 <= i < cs.len() ==> #[trigger] cs[i].address < 15,
    ensures
        forall|i: int| 0 <= i < cs.len() ==> #[trigger] cs[i].address >= i,
        cs.len() <= 15,
    decreases cs.len(),
{
    if cs.len() > 0 {
        let front = cs.drop_last();
        assert forall|i: int, j: int| 0 <= i < j < front.len() implies #[trigger] front[i].address < #[trigger] front[j].address by {
            assert(front[i] == cs[i] && front[j] == cs[j]);
        }
        assert forall|i: int| 0 <= i < front.len() implies #[trigger] front[i].address < 15 by {
            assert(front[i] == cs[i]);
        }
        lemma_increasing_addresses(front);
        assert forall|i: int| 0 <= i < cs.len() implies #[trigger] cs[i].address >= i by {
            if i < cs.len() - 1 {
                assert(front[i] == cs[i]);
            } else if i > 0 {
                assert(front[i - 1] == cs[i - 1]);
                assert(cs[i - 1].address < cs[i].address);
            }
        }
        assert(cs[cs.len() - 1].address >= cs.len() - 1);
    }
}

proof fn lemma_bit_is_pow2(statests: u16, a: u8)
    requires
        a < 15,
    ensures
        (statests & (1u16 << a) != 0) == ((statests as int / pow2_16(a as int)) % 2 == 1),
{
    reveal_with_fuel(pow2_16, 16);
    let p = pow2_16(a as int);
    assert((1u16 << a) == p) by {
        assert(1u16 << 0u8 == 1 && 1u16 << 1u8 == 2 && 1u16 << 2u8 == 4 && 1u16 << 3u8 == 8
            && 1u16 << 4u8 == 16 && 1u16 << 5u8 == 32 && 1u16 << 6u8 == 64 && 1u16 << 7u8 == 128
            && 1u16 << 8u8 == 256 && 1u16 << 9u8 == 512 && 1u16 << 10u8 == 1024 && 1u16 << 11u8
            == 2048 && 1u16 << 12u8 == 4096 && 1u16 << 13u8 == 8192 && 1u16 << 14u8 == 16384)
            by (bit_vector);
    }
    assert((statests & (1u16 << a) != 0) == ((statests >> a) & 1 == 1)) by (bit_vector)
        requires
            a < 15,
    ;
    assert((statests >> a) as int == statests as int / p) by {
        assert(forall|k: u8| k < 15 ==> (statests >> k) == statests / (1u16 << k)) by (bit_vector);
    }
    assert(((statests >> a) & 1 == 1) == (((statests >> a) as int) % 2 == 1)) by {
        let t = statests >> a;
        assert((t & 1 == 1) == (t % 2 == 1)) by (bit_vector);
    }
}

} // verus!
