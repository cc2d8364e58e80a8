//! The record that a status page is turned into.
//!
//! Each type has a view in which its texts are sequences of characters. The
//! contracts of the extraction speak of these views.

use vstd::prelude::*;

verus! {

/// The upstream channel of the modem.
#[derive(Debug, PartialEq, Eq)]
pub struct UpstreamParameter {
    /// The last word of the channel's label.
    pub id: String,
    /// The channel index; zero where the page shows no number.
    pub channel_id: u8,
    pub frequency: String,
    pub power: String,
    pub channel_type: String,
    pub symbol_rate: String,
    pub modulation: String,
}

/// What an [`UpstreamParameter`] holds.
pub struct UpstreamParameterView {
    pub id: Seq<char>,
    pub channel_id: u8,
    pub frequency: Seq<char>,
    pub power: Seq<char>,
    pub channel_type: Seq<char>,
    pub symbol_rate: Seq<char>,
    pub modulation: Seq<char>,
}

impl View for UpstreamParameter {
    type V = UpstreamParameterView;

    open spec fn view(&self) -> UpstreamParameterView {
        UpstreamParameterView {
            id: self.id@,
            channel_id: self.channel_id,
            frequency: self.frequency@,
            power: self.power@,
            channel_type: self.channel_type@,
            symbol_rate: self.symbol_rate@,
            modulation: self.modulation@,
        }
    }
}

/// One downstream channel of the modem.
#[derive(Debug, PartialEq, Eq)]
pub struct DownstreamParameter {
    /// The number that ends the channel's label.
    pub id: u8,
    /// The channel index; zero where the page shows no number.
    pub channel_id: u8,
    pub freq: String,
    pub power: String,
    /// The signal-to-noise ratio.
    pub snr: String,
    pub modulation: String,
    /// The octet count; zero where the page shows no number.
    pub octets: usize,
    /// The count of corrected errors; zero where the page shows no number.
    pub correcteds: u8,
    /// The count of uncorrectable errors; zero where the page shows no number.
    pub uncorrectables: u8,
}

/// What a [`DownstreamParameter`] holds.
pub struct DownstreamParameterView {
    pub id: u8,
    pub channel_id: u8,
    pub freq: Seq<char>,
    pub power: Seq<char>,
    pub snr: Seq<char>,
    pub modulation: Seq<char>,
    pub octets: usize,
    pub correcteds: u8,
    pub uncorrectables: u8,
}

impl View for DownstreamParameter {
    type V = DownstreamParameterView;

    open spec fn view(&self) -> DownstreamParameterView {
        DownstreamParameterView {
            id: self.id,
            channel_id: self.channel_id,
            freq: self.freq@,
            power: self.power@,
            snr: self.snr@,
            modulation: self.modulation@,
            octets: self.octets,
            correcteds: self.correcteds,
            uncorrectables: self.uncorrectables,
        }
    }
}

/// The modem's overall state: one field from each of four rows.
#[derive(Debug, PartialEq, Eq)]
pub struct StatusParameter {
    pub uptime: String,
    /// The number of computers detected, without the whitespace around it.
    pub computers_detected: String,
    pub cm_status: String,
    pub current_datetime: String,
}

/// What a [`StatusParameter`] holds.
pub struct StatusParameterView {
    pub uptime: Seq<char>,
    pub computers_detected: Seq<char>,
    pub cm_status: Seq<char>,
    pub current_datetime: Seq<char>,
}

impl View for StatusParameter {
    type V = StatusParameterView;

    open spec fn view(&self) -> StatusParameterView {
        StatusParameterView {
            uptime: self.uptime@,
            computers_detected: self.computers_detected@,
            cm_status: self.cm_status@,
            current_datetime: self.current_datetime@,
        }
    }
}

/// One network interface of the modem.
#[derive(Debug, PartialEq, Eq)]
pub struct InterfaceInformation {
    pub name: String,
    pub provisioned: String,
    pub state: String,
    pub speed: String,
    pub mac_address: String,
}

/// What an [`InterfaceInformation`] holds.
pub struct InterfaceInformationView {
    pub name: Seq<char>,
    pub provisioned: Seq<char>,
    pub state: Seq<char>,
    pub speed: Seq<char>,
    pub mac_address: Seq<char>,
}

impl View for InterfaceInformation {
    type V = InterfaceInformationView;

    open spec fn view(&self) -> InterfaceInformationView {
        InterfaceInformationView {
            name: self.name@,
            provisioned: self.provisioned@,
            state: self.state@,
            speed: self.speed@,
            mac_address: self.mac_address@,
        }
    }
}

/// The radio-frequency channels, downstream and upstream.
#[derive(Debug, PartialEq, Eq)]
pub struct RFParameters {
    /// The downstream channels, in the order of the page's rows.
    pub downstream_parameters: Vec<DownstreamParameter>,
    /// The upstream channel: exactly one in an extracted record.
    pub upstream_parameters: Vec<UpstreamParameter>,
}

/// What an [`RFParameters`] holds.
pub struct RFParametersView {
    pub downstream_parameters: Seq<DownstreamParameterView>,
    pub upstream_parameters: Seq<UpstreamParameterView>,
}

impl View for RFParameters {
    type V = RFParametersView;

    open spec fn view(&self) -> RFParametersView {
        RFParametersView {
            downstream_parameters: self.downstream_parameters@.map_values(
                |p: DownstreamParameter| p@,
            ),
            upstream_parameters: self.upstream_parameters@.map_values(|p: UpstreamParameter| p@),
        }
    }
}

/// Everything that is extracted from one status page.
#[derive(Debug, PartialEq, Eq)]
pub struct ArrisStatus {
    pub rf_parameters: RFParameters,
    pub status: StatusParameter,
    /// The interfaces, in the order of the page's rows.
    pub interfaces: Vec<InterfaceInformation>,
}

/// What an [`ArrisStatus`] holds.
pub struct ArrisStatusView {
    pub rf_parameters: RFParametersView,
    pub status: StatusParameterView,
    pub interfaces: Seq<InterfaceInformationView>,
}

impl View for ArrisStatus {
    type V = ArrisStatusView;

    open spec fn view(&self) -> ArrisStatusView {
        ArrisStatusView {
            rf_parameters: self.rf_parameters@,
            status: self.status@,
            interfaces: self.interfaces@.map_values(|i: InterfaceInformation| i@),
        }
    }
}

impl Default for UpstreamParameter {
    /// The channel with empty texts and index zero.
    fn default() -> (value: Self)
        ensures
            value@ == (UpstreamParameterView {
                id: Seq::empty(),
                channel_id: 0,
                frequency: Seq::empty(),
                power: Seq::empty(),
                channel_type: Seq::empty(),
                symbol_rate: Seq::empty(),
                modulation: Seq::empty(),
            }),
    {
        UpstreamParameter {
            id: String::new(),
            channel_id: 0,
            frequency: String::new(),
            power: String::new(),
            channel_type: String::new(),
            symbol_rate: String::new(),
            modulation: String::new(),
        }
    }
}

impl Default for DownstreamParameter {
    /// The channel with empty texts and every number zero.
    fn default() -> (value: Self)
        ensures
            value@ == (DownstreamParameterView {
                id: 0,
                channel_id: 0,
                freq: Seq::empty(),
                power: Seq::empty(),
                snr: Seq::empty(),
                modulation: Seq::empty(),
                octets: 0,
                correcteds: 0,
                uncorrectables: 0,
            }),
    {
        DownstreamParameter {
            id: 0,
            channel_id: 0,
            freq: String::new(),
            power: String::new(),
            snr: String::new(),
            modulation: String::new(),
            octets: 0,
            correcteds: 0,
            uncorrectables: 0,
        }
    }
}

impl Default for StatusParameter {
    /// The state with empty texts.
    fn default() -> (value: Self)
        ensures
            value@ == (StatusParameterView {
                uptime: Seq::empty(),
                computers_detected: Seq::empty(),
                cm_status: Seq::empty(),
                current_datetime: Seq::empty(),
            }),
    {
        StatusParameter {
            uptime: String::new(),
            computers_detected: String::new(),
            cm_status: String::new(),
            current_datetime: String::new(),
        }
    }
}

impl Default for InterfaceInformation {
    /// The interface with empty texts.
    fn default() -> (value: Self)
        ensures
            value@ == (InterfaceInformationView {
                name: Seq::empty(),
                provisioned: Seq::empty(),
                state: Seq::empty(),
                speed: Seq::empty(),
                mac_address: Seq::empty(),
            }),
    {
        InterfaceInformation {
            name: String::new(),
            provisioned: String::new(),
            state: String::new(),
            speed: String::new(),
            mac_address: String::new(),
        }
    }
}

impl Default for RFParameters {
    /// No channels in either direction.
    fn default() -> (value: Self)
        ensures
            value@ == (RFParametersView {
                downstream_parameters: Seq::empty(),
                upstream_parameters: Seq::empty(),
            }),
    {
        let value = RFParameters {
            downstream_parameters: Vec::new(),
            upstream_parameters: Vec::new(),
        };
        assert(value@.downstream_parameters =~= Seq::empty());
        assert(value@.upstream_parameters =~= Seq::empty());
        value
    }
}

impl Default for ArrisStatus {
    /// The record of a page that shows nothing.
    fn default() -> (value: Self)
        ensures
            value@.rf_parameters.downstream_parameters == Seq::<DownstreamParameterView>::empty(),
            value@.rf_parameters.upstream_parameters == Seq::<UpstreamParameterView>::empty(),
            value@.status == (StatusParameterView {
                uptime: Seq::empty(),
                computers_detected: Seq::empty(),
                cm_status: Seq::empty(),
                current_datetime: Seq::empty(),
            }),
            value@.interfaces == Seq::<InterfaceInformationView>::empty(),
    {
        let value = ArrisStatus {
            rf_parameters: RFParameters::default(),
            status: StatusParameter::default(),
            interfaces: Vec::new(),
        };
        assert(value@.interfaces =~= Seq::empty());
        value
    }
}

} // verus!
